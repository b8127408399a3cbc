//! Logging scopes: a stack of loggers, the innermost of which is the current
//! logger; outside of any scope the global logger is current.
use vstd::prelude::*;

use crate::drain::Drain;
use crate::logger::Logger;

verus! {

/// `a` and `b` are handles to the same logger: the same drain and the same
/// key-value context.
pub open spec fn same_logger<D: Drain>(a: Logger<D>, b: Logger<D>) -> bool {
    &&& a.spec_drain() == b.spec_drain()
    &&& a.spec_list().groups() == b.spec_list().groups()
}

/// The loggers of the open scopes, innermost last.
pub struct ScopeStack<D: Drain> {
    scopes: Vec<Logger<D>>,
}

impl<D: Drain> ScopeStack<D> {
    /// The loggers of the open scopes, innermost last.
    pub closed spec fn spec_scopes(&self) -> Seq<Logger<D>> {
        self.scopes@
    }

    /// No scope open.
    pub fn new() -> (r: Self)
        ensures
            r.spec_scopes() == Seq::<Logger<D>>::empty(),
    {
        ScopeStack { scopes: Vec::new() }
    }

    /// Number of open scopes.
    pub fn depth(&self) -> (r: usize)
        ensures
            r == self.spec_scopes().len(),
    {
        self.scopes.len()
    }

    /// Open a scope of `logger`: it becomes the current logger.
    pub fn push(&mut self, logger: Logger<D>)
        ensures
            final(self).spec_scopes() == old(self).spec_scopes().push(logger),
    {
        self.scopes.push(logger);
    }

    /// Close the innermost scope and give back its logger.
    pub fn pop(&mut self) -> (r: Logger<D>)
        requires
            old(self).spec_scopes().len() > 0,
        ensures
            r == old(self).spec_scopes().last(),
            final(self).spec_scopes() == old(self).spec_scopes().drop_last(),
    {
        self.scopes.pop().unwrap()
    }

    /// The current logger: the logger of the innermost scope, or `global`
    /// outside of any scope.
    pub fn current(&self, global: &Logger<D>) -> (r: Logger<D>)
        ensures
            self.spec_scopes().len() == 0 ==> same_logger(r, *global),
            self.spec_scopes().len() > 0 ==> same_logger(r, self.spec_scopes().last()),
    {
        let n = self.scopes.len();
        if n == 0 {
            global.clone()
        } else {
            self.scopes[n - 1].clone()
        }
    }
}

/// Scopes nest: opening a scope makes its logger the innermost one, and
/// closing it gives back that logger and the scopes as they were before.
pub proof fn lemma_scope_nesting<D: Drain>(scopes: Seq<Logger<D>>, logger: Logger<D>)
    ensures
        scopes.push(logger).len() > 0,
        scopes.push(logger).last() == logger,
        scopes.push(logger).drop_last() == scopes,
{
    assert(scopes.push(logger).drop_last() =~= scopes);
}

} // verus!
