//! Drains: the destinations of logging records, and the drains that filter,
//! duplicate and redirect records to other drains.
use std::marker::PhantomData;
use std::sync::Arc;
use vstd::prelude::*;

use crate::kv::OwnedKVList;
use crate::level::Level;
use crate::record::Record;

verus! {

/// Error type of drains that report no errors.
pub type Never = ();

/// Logging drain.
///
/// Drains handle logging records from loggers: they filter, modify, format
/// and write them to a destination. Implementing this trait allows writing
/// custom drains.
pub trait Drain {
    /// Type of potential errors that can be returned by this drain
    type Error;

    /// The results that handling `record` with the logger context `values`
    /// may give; a drain that states nothing may give any result.
    open spec fn log_result(
        &self,
        record: Record,
        values: OwnedKVList,
        res: Result<(), Self::Error>,
    ) -> bool {
        true
    }

    /// Handle one logging record.
    fn log(&self, record: &Record, values: &OwnedKVList) -> (res: Result<(), Self::Error>)
        ensures
            self.log_result(*record, *values, res),
    ;
}

impl<D: Drain> Drain for Box<D> {
    type Error = D::Error;

    open spec fn log_result(&self, record: Record, values: OwnedKVList, res: Result<(), D::Error>) -> bool {
        (**self).log_result(record, values, res)
    }

    fn log(&self, record: &Record, values: &OwnedKVList) -> (res: Result<(), D::Error>) {
        (**self).log(record, values)
    }
}

impl<D: Drain> Drain for Arc<D> {
    type Error = D::Error;

    open spec fn log_result(&self, record: Record, values: OwnedKVList, res: Result<(), D::Error>) -> bool {
        (**self).log_result(record, values, res)
    }

    fn log(&self, record: &Record, values: &OwnedKVList) -> (res: Result<(), D::Error>) {
        (**self).log(record, values)
    }
}

/// Drain discarding everything: the `/dev/null` of drains.
pub struct Discard;

impl Drain for Discard {
    type Error = Never;

    open spec fn log_result(&self, record: Record, values: OwnedKVList, res: Result<(), Never>) -> bool {
        res is Ok
    }

    fn log(&self, record: &Record, values: &OwnedKVList) -> (res: Result<(), Never>) {
        Ok(())
    }
}

/// Create a `Discard` drain.
pub fn discard() -> (r: Discard) {
    Discard
}

/// Drain filtering records: it passes a record to the wrapped drain only if
/// the record satisfies the condition.
pub struct Filter<D: Drain, F: Fn(&Record) -> bool> {
    drain: D,
    cond: F,
}

impl<D: Drain, F: Fn(&Record) -> bool> Filter<D, F> {
    /// The condition can be evaluated on every record.
    #[verifier::type_invariant]
    spec fn condition_total(self) -> bool {
        forall|r: &Record| #[trigger] self.cond.requires((r,))
    }

    /// The wrapped drain.
    pub closed spec fn inner(&self) -> D {
        self.drain
    }

    /// The condition.
    pub closed spec fn condition(&self) -> F {
        self.cond
    }

    /// Create a `Filter` wrapping `drain` with condition `cond`.
    pub fn new(drain: D, cond: F) -> (r: Self)
        requires
            forall|r: &Record| #[trigger] cond.requires((r,)),
        ensures
            r.inner() == drain,
            r.condition() == cond,
    {
        Filter { drain, cond }
    }
}

impl<D: Drain, F: Fn(&Record) -> bool> Drain for Filter<D, F> {
    type Error = D::Error;

    open spec fn log_result(
        &self,
        record: Record,
        values: OwnedKVList,
        res: Result<(), D::Error>,
    ) -> bool {
        exists|passes: bool|
            {
                &&& #[trigger] self.condition().ensures((&record,), passes)
                &&& passes ==> self.inner().log_result(record, values, res)
                &&& !passes ==> res is Ok
            }
    }

    fn log(&self, record: &Record, values: &OwnedKVList) -> (res: Result<(), D::Error>) {
        proof {
            use_type_invariant(self);
        }
        let passes = (self.cond)(record);
        proof {
            assert(self.condition().ensures((record,), passes));
        }
        if passes {
            self.drain.log(record, values)
        } else {
            Ok(())
        }
    }
}

/// Filter by `cond` closure.
pub fn filter<D: Drain, F: Fn(&Record) -> bool>(cond: F, d: D) -> (r: Filter<D, F>)
    requires
        forall|r: &Record| #[trigger] cond.requires((r,)),
    ensures
        r.inner() == d,
        r.condition() == cond,
{
    Filter::new(d, cond)
}

/// Drain mapping the errors returned by the wrapped drain.
#[verifier::reject_recursive_types(E)]
pub struct MapError<D: Drain, E, F: Fn(D::Error) -> E> {
    drain: D,
    map_fn: F,
    error: PhantomData<E>,
}

impl<D: Drain, E, F: Fn(D::Error) -> E> MapError<D, E, F> {
    /// The mapping can be applied to every error of the wrapped drain.
    #[verifier::type_invariant]
    spec fn mapping_total(self) -> bool {
        forall|e: D::Error| #[trigger] self.map_fn.requires((e,))
    }

    /// The wrapped drain.
    pub closed spec fn inner(&self) -> D {
        self.drain
    }

    /// The error mapping.
    pub closed spec fn mapping(&self) -> F {
        self.map_fn
    }

    /// Create a `MapError` wrapping `drain` with error mapping `map_fn`.
    pub fn new(drain: D, map_fn: F) -> (r: Self)
        requires
            forall|e: D::Error| #[trigger] map_fn.requires((e,)),
        ensures
            r.inner() == drain,
            r.mapping() == map_fn,
    {
        MapError { drain, map_fn, error: PhantomData }
    }
}

impl<D: Drain, E, F: Fn(D::Error) -> E> Drain for MapError<D, E, F> {
    type Error = E;

    open spec fn log_result(&self, record: Record, values: OwnedKVList, res: Result<(), E>) -> bool {
        exists|inner: Result<(), D::Error>|
            {
                &&& #[trigger] self.inner().log_result(record, values, inner)
                &&& match inner {
                    Ok(_) => res is Ok,
                    Err(e) => res is Err && self.mapping().ensures((e,), res->Err_0),
                }
            }
    }

    fn log(&self, record: &Record, values: &OwnedKVList) -> (res: Result<(), E>) {
        proof {
            use_type_invariant(self);
        }
        let inner = self.drain.log(record, values);
        proof {
            assert(self.inner().log_result(*record, *values, inner));
        }
        match inner {
            Ok(()) => Ok(()),
            Err(e) => Err((self.map_fn)(e)),
        }
    }
}

/// Drain filtering records by logging level: it passes a record to the
/// wrapped drain only if the record's level is at least the given level.
pub struct LevelFilter<D: Drain> {
    level: Level,
    drain: D,
}

impl<D: Drain> LevelFilter<D> {
    /// The wrapped drain.
    pub closed spec fn inner(&self) -> D {
        self.drain
    }

    /// The least severe level that passes.
    pub closed spec fn spec_level(&self) -> Level {
        self.level
    }

    /// Create a `LevelFilter` passing records of `level` and more severe.
    pub fn new(drain: D, level: Level) -> (r: Self)
        ensures
            r.inner() == drain,
            r.spec_level() == level,
    {
        LevelFilter { level, drain }
    }
}

impl<D: Drain> Drain for LevelFilter<D> {
    type Error = D::Error;

    open spec fn log_result(
        &self,
        record: Record,
        values: OwnedKVList,
        res: Result<(), D::Error>,
    ) -> bool {
        if record.spec_level().at_least(self.spec_level()) {
            self.inner().log_result(record, values, res)
        } else {
            res is Ok
        }
    }

    fn log(&self, record: &Record, values: &OwnedKVList) -> (res: Result<(), D::Error>) {
        if record.level().is_at_least(self.level) {
            self.drain.log(record, values)
        } else {
            Ok(())
        }
    }
}

/// Filter by log level.
pub fn level_filter<D: Drain>(level: Level, d: D) -> (r: LevelFilter<D>)
    ensures
        r.inner() == d,
        r.spec_level() == level,
{
    LevelFilter::new(d, level)
}

/// Filter by log level; the same as `level_filter`.
pub fn filter_level<D: Drain>(level: Level, d: D) -> (r: LevelFilter<D>)
    ensures
        r.inner() == d,
        r.spec_level() == level,
{
    LevelFilter::new(d, level)
}

/// Drain duplicating records into two other drains.
pub struct Duplicate<D1: Drain, D2: Drain> {
    drain1: D1,
    drain2: D2,
}

/// Logging error returned by the `Duplicate` drain.
pub enum DuplicateError<E1, E2> {
    /// First drain has returned an error
    First(E1),
    /// Second drain has returned an error
    Second(E2),
    /// Both drains have returned an error
    Both((E1, E2)),
}

/// The result of a `Duplicate` drain whose drains gave `r1` and `r2`.
pub open spec fn duplicate_result<E1, E2>(r1: Result<(), E1>, r2: Result<(), E2>) -> Result<
    (),
    DuplicateError<E1, E2>,
> {
    match (r1, r2) {
        (Ok(_), Ok(_)) => Ok(()),
        (Err(e), Ok(_)) => Err(DuplicateError::First(e)),
        (Ok(_), Err(e)) => Err(DuplicateError::Second(e)),
        (Err(e1), Err(e2)) => Err(DuplicateError::Both((e1, e2))),
    }
}

impl<D1: Drain, D2: Drain> Duplicate<D1, D2> {
    /// The first drain.
    pub closed spec fn first(&self) -> D1 {
        self.drain1
    }

    /// The second drain.
    pub closed spec fn second(&self) -> D2 {
        self.drain2
    }

    /// Create a `Duplicate` of `drain1` and `drain2`.
    pub fn new(drain1: D1, drain2: D2) -> (r: Self)
        ensures
            r.first() == drain1,
            r.second() == drain2,
    {
        Duplicate { drain1, drain2 }
    }
}

impl<D1: Drain, D2: Drain> Drain for Duplicate<D1, D2> {
    type Error = DuplicateError<D1::Error, D2::Error>;

    open spec fn log_result(
        &self,
        record: Record,
        values: OwnedKVList,
        res: Result<(), DuplicateError<D1::Error, D2::Error>>,
    ) -> bool {
        exists|r1: Result<(), D1::Error>, r2: Result<(), D2::Error>|
            {
                &&& #[trigger] self.first().log_result(record, values, r1)
                &&& #[trigger] self.second().log_result(record, values, r2)
                &&& res == duplicate_result(r1, r2)
            }
    }

    fn log(&self, record: &Record, values: &OwnedKVList) -> (res: Result<
        (),
        DuplicateError<D1::Error, D2::Error>,
    >) {
        let res1 = self.drain1.log(record, values);
        let res2 = self.drain2.log(record, values);
        proof {
            assert(self.first().log_result(*record, *values, res1));
            assert(self.second().log_result(*record, *values, res2));
        }
        match (res1, res2) {
            (Ok(_), Ok(_)) => Ok(()),
            (Err(e), Ok(_)) => Err(DuplicateError::First(e)),
            (Ok(_), Err(e)) => Err(DuplicateError::Second(e)),
            (Err(e1), Err(e2)) => Err(DuplicateError::Both((e1, e2))),
        }
    }
}

/// Duplicate records to two drains.
pub fn duplicate<D1: Drain, D2: Drain>(d1: D1, d2: D2) -> (r: Duplicate<D1, D2>)
    ensures
        r.first() == d1,
        r.second() == d2,
{
    Duplicate::new(d1, d2)
}

/// Drain ignoring the errors of the wrapped drain.
pub struct IgnoreErr<D: Drain> {
    drain: D,
}

impl<D: Drain> IgnoreErr<D> {
    /// The wrapped drain.
    pub closed spec fn inner(&self) -> D {
        self.drain
    }

    /// Create an `IgnoreErr` wrapping `drain`.
    pub fn new(drain: D) -> (r: Self)
        ensures
            r.inner() == drain,
    {
        IgnoreErr { drain }
    }
}

impl<D: Drain> Drain for IgnoreErr<D> {
    type Error = Never;

    open spec fn log_result(&self, record: Record, values: OwnedKVList, res: Result<(), Never>) -> bool {
        &&& res is Ok
        &&& exists|inner: Result<(), D::Error>| #[trigger]
            self.inner().log_result(record, values, inner)
    }

    fn log(&self, record: &Record, values: &OwnedKVList) -> (res: Result<(), Never>) {
        let inner = self.drain.log(record, values);
        proof {
            assert(self.inner().log_result(*record, *values, inner));
        }
        Ok(())
    }
}

/// Drain that logs to the first drain and, when that one reports an error,
/// to the second one; the second drain's error is returned.
pub struct Failover<D1: Drain, D2: Drain> {
    drain1: D1,
    drain2: D2,
}

impl<D1: Drain, D2: Drain> Failover<D1, D2> {
    /// The primary drain.
    pub closed spec fn primary(&self) -> D1 {
        self.drain1
    }

    /// The secondary drain.
    pub closed spec fn secondary(&self) -> D2 {
        self.drain2
    }

    /// Create a `Failover` from `drain1` to `drain2`.
    pub fn new(drain1: D1, drain2: D2) -> (r: Self)
        ensures
            r.primary() == drain1,
            r.secondary() == drain2,
    {
        Failover { drain1, drain2 }
    }
}

impl<D1: Drain, D2: Drain> Drain for Failover<D1, D2> {
    type Error = D2::Error;

    open spec fn log_result(
        &self,
        record: Record,
        values: OwnedKVList,
        res: Result<(), D2::Error>,
    ) -> bool {
        exists|r1: Result<(), D1::Error>|
            {
                &&& #[trigger] self.primary().log_result(record, values, r1)
                &&& r1 is Ok ==> res is Ok
                &&& r1 is Err ==> self.secondary().log_result(record, values, res)
            }
    }

    fn log(&self, record: &Record, values: &OwnedKVList) -> (res: Result<(), D2::Error>) {
        let r1 = self.drain1.log(record, values);
        proof {
            assert(self.primary().log_result(*record, *values, r1));
        }
        match r1 {
            Ok(_) => Ok(()),
            Err(_) => self.drain2.log(record, values),
        }
    }
}

/// Failover logging to the secondary drain on the primary's failure.
pub fn failover<D1: Drain, D2: Drain>(d1: D1, d2: D2) -> (r: Failover<D1, D2>)
    ensures
        r.primary() == d1,
        r.secondary() == d2,
{
    Failover::new(d1, d2)
}

/// Convenience methods for building drains, available on every drain.
pub trait DrainExt: Sized + Drain {
    /// Map logging errors returned by this drain with `f`.
    fn map_err<E, F: Fn(Self::Error) -> E>(self, f: F) -> (r: MapError<Self, E, F>)
        requires
            forall|e: Self::Error| #[trigger] f.requires((e,)),
        ensures
            r.inner() == self,
            r.mapping() == f,
    {
        MapError::new(self, f)
    }

    /// Make this drain ignore and not report any error.
    fn ignore_err(self) -> (r: IgnoreErr<Self>)
        ensures
            r.inner() == self,
    {
        IgnoreErr::new(self)
    }
}

impl<D: Drain> DrainExt for D {}

/// A level filter passes to its drain exactly the records at least as
/// severe as its level; it answers every other record with `Ok`.
pub proof fn lemma_level_filter_passes<D: Drain>(
    f: LevelFilter<D>,
    record: Record,
    values: OwnedKVList,
    res: Result<(), D::Error>,
)
    ensures
        record.spec_level().at_least(f.spec_level()) ==> (f.log_result(record, values, res)
            <==> f.inner().log_result(record, values, res)),
        !record.spec_level().at_least(f.spec_level()) ==> (f.log_result(record, values, res)
            <==> res is Ok),
{
}

/// Two level filters in a row pass a record exactly when it is at least as
/// severe as both levels.
pub proof fn lemma_level_filters_compose<D: Drain>(
    f: LevelFilter<LevelFilter<D>>,
    record: Record,
    values: OwnedKVList,
    res: Result<(), D::Error>,
)
    ensures
        f.log_result(record, values, res) <==> if record.spec_level().at_least(f.spec_level())
            && record.spec_level().at_least(f.inner().spec_level()) {
            f.inner().inner().log_result(record, values, res)
        } else {
            res is Ok
        },
{
}

/// A duplicate succeeds exactly when both drains succeed, and its error
/// tells which of them failed and carries their errors.
pub proof fn lemma_duplicate_result<E1, E2>(r1: Result<(), E1>, r2: Result<(), E2>)
    ensures
        duplicate_result(r1, r2) is Ok <==> (r1 is Ok && r2 is Ok),
        (r1 is Err && r2 is Ok) ==> duplicate_result(r1, r2) == Err::<(), DuplicateError<E1, E2>>(
            DuplicateError::First(r1->Err_0),
        ),
        (r1 is Ok && r2 is Err) ==> duplicate_result(r1, r2) == Err::<(), DuplicateError<E1, E2>>(
            DuplicateError::Second(r2->Err_0),
        ),
        (r1 is Err && r2 is Err) ==> duplicate_result(r1, r2) == Err::<(), DuplicateError<E1, E2>>(
            DuplicateError::Both((r1->Err_0, r2->Err_0)),
        ),
{
}

/// A failover drain whose primary drain succeeds succeeds without using its
/// secondary drain; when the primary fails, the result is the secondary's.
pub proof fn lemma_failover_result<D1: Drain, D2: Drain>(
    f: Failover<D1, D2>,
    record: Record,
    values: OwnedKVList,
    r1: Result<(), D1::Error>,
    res: Result<(), D2::Error>,
)
    requires
        f.primary().log_result(record, values, r1),
    ensures
        r1 is Ok ==> f.log_result(record, values, Ok(())),
        r1 is Err ==> (f.secondary().log_result(record, values, res) ==> f.log_result(
            record,
            values,
            res,
        )),
{
}

/// A drain that ignores errors always succeeds.
pub proof fn lemma_ignore_err_ok<D: Drain>(
    d: IgnoreErr<D>,
    record: Record,
    values: OwnedKVList,
    res: Result<(), Never>,
)
    requires
        d.log_result(record, values, res),
    ensures
        res is Ok,
{
}

} // verus!
