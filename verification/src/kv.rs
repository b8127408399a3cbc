//! Owned key-value context of loggers.
use std::sync::Arc;
use vstd::prelude::*;

use crate::record::SingleKV;

verus! {

/// Another pointer to the same shared value.
#[verifier::external_body]
pub(crate) fn arc_clone<T>(a: &Arc<T>) -> (r: Arc<T>)
    ensures
        r == *a,
{
    Arc::clone(a)
}

/// Group of key-value pairs given together to a logger.
///
/// The pairs are serialized last-written first.
pub struct OwnedKVGroup {
    pairs: Vec<SingleKV>,
}

/// The text of `parts` joined by `sep`.
pub open spec fn join_with(parts: Seq<Seq<char>>, sep: Seq<char>) -> Seq<char>
    decreases parts.len(),
{
    if parts.len() == 0 {
        Seq::empty()
    } else if parts.len() == 1 {
        parts[0]
    } else {
        join_with(parts.drop_last(), sep) + sep + parts.last()
    }
}

/// The texts of the keys of `entries`, in order.
pub open spec fn key_texts(entries: Seq<SingleKV>) -> Seq<Seq<char>> {
    entries.map_values(|e: SingleKV| e.0@)
}

/// All entries of the groups, group after group.
pub open spec fn flatten(groups: Seq<OwnedKVGroup>) -> Seq<SingleKV>
    decreases groups.len(),
{
    if groups.len() == 0 {
        Seq::empty()
    } else {
        flatten(groups.drop_last()) + groups.last().entries()
    }
}

impl OwnedKVGroup {
    /// The pairs of the group in serialization order.
    pub closed spec fn entries(self) -> Seq<SingleKV> {
        self.pairs@.reverse()
    }

    /// A group of the given pairs, in written order.
    pub fn new(pairs: Vec<SingleKV>) -> (r: OwnedKVGroup)
        ensures
            r.entries() == pairs@.reverse(),
    {
        OwnedKVGroup { pairs }
    }

    /// A group without pairs.
    pub fn empty() -> (r: OwnedKVGroup)
        ensures
            r.entries() == Seq::<SingleKV>::empty(),
    {
        let r = OwnedKVGroup { pairs: Vec::new() };
        proof {
            assert(r.entries() =~= Seq::<SingleKV>::empty());
        }
        r
    }

    /// Number of pairs in the group.
    pub fn len(&self) -> (r: usize)
        ensures
            r == self.entries().len(),
    {
        self.pairs.len()
    }

    /// The pairs of the group in serialization order.
    pub fn to_entries(&self) -> (r: Vec<SingleKV>)
        ensures
            r@ == self.entries(),
    {
        let mut out: Vec<SingleKV> = Vec::new();
        let n = self.pairs.len();
        let mut i: usize = n;
        while i > 0
            invariant
                i <= n,
                n == self.pairs@.len(),
                out@ == self.pairs@.subrange(i as int, n as int).reverse(),
            decreases i,
        {
            i = i - 1;
            let e = self.pairs[i].clone();
            out.push(e);
            proof {
                assert(out@ =~= self.pairs@.subrange(i as int, n as int).reverse());
            }
        }
        proof {
            assert(self.pairs@.subrange(0, n as int) =~= self.pairs@);
        }
        out
    }
}

/// Chain of key-value groups of a logger and its ancestors, newest first.
pub struct OwnedKVList {
    groups: Vec<Arc<OwnedKVGroup>>,
}

impl OwnedKVList {
    /// The groups of the list, newest first.
    pub closed spec fn groups(self) -> Seq<OwnedKVGroup> {
        self.groups@.map_values(|g: Arc<OwnedKVGroup>| *g)
    }

    /// All key-value pairs of the list in serialization order: newest group
    /// first, and within a group last-written pair first.
    pub open spec fn entries(self) -> Seq<SingleKV> {
        flatten(self.groups())
    }

    /// The text a list displays as for debugging: its keys in serialization
    /// order, separated by `, ` and enclosed in parentheses.
    pub open spec fn debug_text(self) -> Seq<char> {
        "("@ + join_with(key_texts(self.entries()), ", "@) + ")"@
    }

    /// New list without a parent (root).
    pub fn root(values: OwnedKVGroup) -> (r: OwnedKVList)
        ensures
            r.groups() == seq![values],
    {
        let mut groups: Vec<Arc<OwnedKVGroup>> = Vec::new();
        groups.push(Arc::new(values));
        let r = OwnedKVList { groups };
        proof {
            assert(r.groups() =~= seq![values]);
        }
        r
    }

    /// New list of `values` in front of the groups of `parent`.
    pub fn new(values: OwnedKVGroup, parent: &OwnedKVList) -> (r: OwnedKVList)
        ensures
            r.groups() == seq![values] + parent.groups(),
    {
        let mut groups: Vec<Arc<OwnedKVGroup>> = Vec::new();
        groups.push(Arc::new(values));
        let mut i: usize = 0;
        while i < parent.groups.len()
            invariant
                i <= parent.groups@.len(),
                groups@.len() == i + 1,
                *groups@[0] == values,
                forall|k: int| 0 <= k < i ==> groups@[k + 1] == parent.groups@[k],
            decreases parent.groups@.len() - i,
        {
            groups.push(arc_clone(&parent.groups[i]));
            i = i + 1;
        }
        let r = OwnedKVList { groups };
        proof {
            assert forall|k: int| 0 <= k < r.groups().len() implies r.groups()[k] == (seq![values]
                + parent.groups())[k] by {
                if k > 0 {
                    assert(r.groups@[k] == parent.groups@[k - 1]);
                }
            }
            assert(r.groups() =~= seq![values] + parent.groups());
        }
        r
    }

    /// The groups of `self` followed by the groups of `other`.
    pub fn append(&self, other: &OwnedKVList) -> (r: OwnedKVList)
        ensures
            r.groups() == self.groups() + other.groups(),
    {
        let mut groups: Vec<Arc<OwnedKVGroup>> = Vec::new();
        let mut i: usize = 0;
        while i < self.groups.len()
            invariant
                i <= self.groups@.len(),
                groups@.len() == i,
                forall|k: int| 0 <= k < i ==> groups@[k] == self.groups@[k],
            decreases self.groups@.len() - i,
        {
            groups.push(arc_clone(&self.groups[i]));
            i = i + 1;
        }
        let mut j: usize = 0;
        while j < other.groups.len()
            invariant
                i == self.groups@.len(),
                j <= other.groups@.len(),
                groups@.len() == i + j,
                forall|k: int| 0 <= k < i ==> groups@[k] == self.groups@[k],
                forall|k: int| 0 <= k < j ==> groups@[i + k] == other.groups@[k],
            decreases other.groups@.len() - j,
        {
            groups.push(arc_clone(&other.groups[j]));
            j = j + 1;
        }
        let r = OwnedKVList { groups };
        proof {
            let n = self.groups@.len() as int;
            assert forall|k: int| 0 <= k < r.groups().len() implies r.groups()[k] == (self.groups()
                + other.groups())[k] by {
                if k >= n {
                    assert(r.groups@[n + (k - n)] == other.groups@[k - n]);
                }
            }
            assert(r.groups() =~= self.groups() + other.groups());
        }
        r
    }

    /// Shared handles to the groups of the list, newest first: they point
    /// at the very groups the list holds.
    pub fn group_handles(&self) -> (r: Vec<Arc<OwnedKVGroup>>)
        ensures
            r@.len() == self.groups().len(),
            forall|i: int| 0 <= i < r@.len() ==> *(#[trigger] r@[i]) == self.groups()[i],
    {
        let mut out: Vec<Arc<OwnedKVGroup>> = Vec::new();
        let mut i: usize = 0;
        while i < self.groups.len()
            invariant
                i <= self.groups@.len(),
                out@.len() == i,
                forall|k: int| 0 <= k < i ==> *(#[trigger] out@[k]) == self.groups()[k],
            decreases self.groups@.len() - i,
        {
            out.push(arc_clone(&self.groups[i]));
            i = i + 1;
        }
        out
    }

    /// Number of groups.
    pub fn num_groups(&self) -> (r: usize)
        ensures
            r == self.groups().len(),
    {
        self.groups.len()
    }

    /// Every key-value pair of the list, in serialization order.
    ///
    /// The order is reverse to how the list was built: for a root logger
    /// built with `k1, k2` and a child built with `k3, k4`, the pairs come
    /// as `k4, k3, k2, k1`.
    pub fn iter_single(&self) -> (r: Vec<SingleKV>)
        ensures
            r@ == self.entries(),
    {
        let mut out: Vec<SingleKV> = Vec::new();
        let mut i: usize = 0;
        while i < self.groups.len()
            invariant
                i <= self.groups@.len(),
                out@ == flatten(self.groups().subrange(0, i as int)),
            decreases self.groups@.len() - i,
        {
            let g: &OwnedKVGroup = &self.groups[i];
            let mut es = g.to_entries();
            proof {
                assert(self.groups().subrange(0, i + 1).drop_last() =~= self.groups().subrange(
                    0,
                    i as int,
                ));
            }
            out.append(&mut es);
            i = i + 1;
        }
        proof {
            assert(self.groups().subrange(0, self.groups@.len() as int) =~= self.groups());
        }
        out
    }

    /// The pairs of every group of the list, newest group first.
    pub fn iter_groups(&self) -> (r: Vec<Vec<SingleKV>>)
        ensures
            r@.len() == self.groups().len(),
            forall|i: int| 0 <= i < r@.len() ==> (#[trigger] r@[i])@ == self.groups()[i].entries(),
    {
        let mut out: Vec<Vec<SingleKV>> = Vec::new();
        let mut i: usize = 0;
        while i < self.groups.len()
            invariant
                i <= self.groups@.len(),
                out@.len() == i,
                forall|k: int| 0 <= k < i ==> (#[trigger] out@[k])@ == self.groups()[k].entries(),
            decreases self.groups@.len() - i,
        {
            let g: &OwnedKVGroup = &self.groups[i];
            out.push(g.to_entries());
            i = i + 1;
        }
        out
    }

    /// The keys of the list in serialization order, separated by `, ` and
    /// enclosed in parentheses, such as `(c, b, a)`.
    pub fn debug_string(&self) -> (r: String)
        ensures
            r@ == self.debug_text(),
    {
        let entries = self.iter_single();
        let ghost keys = key_texts(entries@);
        let mut s = String::new();
        s.append("(");
        let mut i: usize = 0;
        while i < entries.len()
            invariant
                i <= entries@.len(),
                keys == key_texts(entries@),
                s@ == "("@ + join_with(keys.subrange(0, i as int), ", "@),
            decreases entries@.len() - i,
        {
            if i != 0 {
                s.append(", ");
            }
            s.append(entries[i].0.as_str());
            proof {
                let sub = keys.subrange(0, i + 1);
                assert(sub.drop_last() =~= keys.subrange(0, i as int));
                assert(sub.last() == keys[i as int]);
                if i == 0 {
                    assert(keys.subrange(0, 0) =~= Seq::<Seq<char>>::empty());
                    assert(join_with(sub, ", "@) == sub[0]);
                }
                assert(s@ =~= "("@ + join_with(keys.subrange(0, i + 1), ", "@));
            }
            i = i + 1;
        }
        s.append(")");
        proof {
            assert(keys.subrange(0, entries@.len() as int) =~= keys);
        }
        s
    }
}

impl Clone for OwnedKVList {
    fn clone(&self) -> (r: OwnedKVList)
        ensures
            r.groups() == self.groups(),
    {
        let empty = OwnedKVList { groups: Vec::new() };
        let r = self.append(&empty);
        proof {
            assert(r.groups() =~= self.groups());
        }
        r
    }
}

/// Entries of a list made of two lists are the entries of the first followed
/// by those of the second.
pub proof fn lemma_flatten_append(a: Seq<OwnedKVGroup>, b: Seq<OwnedKVGroup>)
    ensures
        flatten(a + b) == flatten(a) + flatten(b),
    decreases b.len(),
{
    if b.len() == 0 {
        assert(a + b =~= a);
        assert(flatten(b) =~= Seq::<SingleKV>::empty());
        assert(flatten(a) + flatten(b) =~= flatten(a));
    } else {
        lemma_flatten_append(a, b.drop_last());
        assert((a + b).drop_last() =~= a + b.drop_last());
        assert((a + b).last() == b.last());
        assert(flatten(a + b) =~= flatten(a) + flatten(b));
    }
}

/// Entries of a group in front of other groups.
pub proof fn lemma_flatten_cons(g: OwnedKVGroup, rest: Seq<OwnedKVGroup>)
    ensures
        flatten(seq![g] + rest) == g.entries() + flatten(rest),
{
    lemma_flatten_append(seq![g], rest);
    assert(seq![g].drop_last() =~= Seq::<OwnedKVGroup>::empty());
    assert(flatten(Seq::<OwnedKVGroup>::empty()) =~= Seq::<SingleKV>::empty());
    assert(flatten(seq![g]) == flatten(seq![g].drop_last()) + seq![g].last().entries());
    assert(flatten(seq![g]) =~= g.entries());
}

} // verus!
