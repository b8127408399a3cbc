//! Loggers: handles that carry key-value context and deliver records to a
//! shared drain.
use std::sync::Arc;
use vstd::prelude::*;

use crate::drain::Drain;
use crate::kv::{arc_clone, lemma_flatten_append, lemma_flatten_cons, OwnedKVGroup, OwnedKVList};
use crate::level::Level;
use crate::record::{Record, RecordStatic, SingleKV};

verus! {

/// Anything that can be used as the message of a logging record.
pub trait IntoMsg {
    /// The text of the message.
    spec fn msg_text(&self) -> Seq<char>;

    /// The message as a string slice.
    fn as_str(&self) -> (r: &str)
        ensures
            r@ == self.msg_text(),
    ;
}

impl IntoMsg for String {
    open spec fn msg_text(&self) -> Seq<char> {
        self@
    }

    fn as_str(&self) -> (r: &str) {
        self.as_str()
    }
}

impl<'a> IntoMsg for &'a str {
    open spec fn msg_text(&self) -> Seq<char> {
        (*self)@
    }

    fn as_str(&self) -> (r: &str) {
        *self
    }
}

/// Logging handle used to execute logging statements.
///
/// A logger holds logging context (key-value pairs) and hands every logging
/// record, with that context, to its drain. Child loggers are built from
/// existing loggers, share their drain and inherit their key-value pairs.
pub struct Logger<D: Drain> {
    drain: Arc<D>,
    list: OwnedKVList,
}

impl<D: Drain> Logger<D> {
    /// The drain of the logger's hierarchy.
    pub closed spec fn spec_drain(&self) -> D {
        *self.drain
    }

    /// The key-value context of the logger.
    pub closed spec fn spec_list(&self) -> OwnedKVList {
        self.list
    }

    /// Build a root logger: it starts a new hierarchy on drain `d`, with the
    /// key-value pairs `values`.
    pub fn root(d: D, values: OwnedKVGroup) -> (r: Logger<D>)
        ensures
            r.spec_drain() == d,
            r.spec_list().groups() == seq![values],
    {
        Logger { drain: Arc::new(d), list: OwnedKVList::root(values) }
    }

    /// Build a child logger: it shares the drain of `self` and carries the
    /// pairs `values` in front of all pairs of `self`.
    pub fn new(&self, values: OwnedKVGroup) -> (r: Logger<D>)
        ensures
            r.spec_drain() == self.spec_drain(),
            r.spec_list().groups() == seq![values] + self.spec_list().groups(),
    {
        Logger { drain: arc_clone(&self.drain), list: OwnedKVList::new(values, &self.list) }
    }

    /// The key-value context of the logger.
    pub fn list(&self) -> (r: &OwnedKVList)
        ensures
            *r == self.spec_list(),
    {
        &self.list
    }

    /// Log one record: hand it, with the logger's context, to the drain.
    /// Errors of the drain are ignored.
    pub fn log(&self, record: &Record)
        ensures
            exists|res: Result<(), D::Error>| #[trigger]
                self.spec_drain().log_result(*record, self.spec_list(), res),
    {
        let res = self.drain.log(record, &self.list);
        proof {
            assert(self.spec_drain().log_result(*record, self.spec_list(), res));
        }
    }

    /// Log a record of `level` with message `msg` and key-values `values`,
    /// without location information.
    pub fn log_message<M: IntoMsg>(&self, level: Level, msg: M, values: Vec<SingleKV>)
        ensures
            exists|record: Record, res: Result<(), D::Error>|
                {
                    &&& record.spec_level() == level
                    &&& record.spec_msg() == msg.msg_text()
                    &&& record.spec_kv() == values@
                    &&& #[trigger] self.spec_drain().log_result(record, self.spec_list(), res)
                },
    {
        let rstatic = RecordStatic {
            level,
            file: String::new(),
            line: 0,
            column: 0,
            function: String::new(),
            module: String::new(),
            target: String::new(),
        };
        let text = msg.as_str().to_string();
        let record = Record::new(rstatic, text, values);
        let res = self.drain.log(&record, &self.list);
        proof {
            assert(self.spec_drain().log_result(record, self.spec_list(), res));
        }
    }

    /// Log a critical level record.
    pub fn critical<M: IntoMsg>(&self, msg: M, values: Vec<SingleKV>)
        ensures
            exists|record: Record, res: Result<(), D::Error>|
                {
                    &&& record.spec_level() == Level::Critical
                    &&& record.spec_msg() == msg.msg_text()
                    &&& record.spec_kv() == values@
                    &&& #[trigger] self.spec_drain().log_result(record, self.spec_list(), res)
                },
    {
        self.log_message(Level::Critical, msg, values)
    }

    /// Log an error level record.
    pub fn error<M: IntoMsg>(&self, msg: M, values: Vec<SingleKV>)
        ensures
            exists|record: Record, res: Result<(), D::Error>|
                {
                    &&& record.spec_level() == Level::Error
                    &&& record.spec_msg() == msg.msg_text()
                    &&& record.spec_kv() == values@
                    &&& #[trigger] self.spec_drain().log_result(record, self.spec_list(), res)
                },
    {
        self.log_message(Level::Error, msg, values)
    }

    /// Log a warning level record.
    pub fn warn<M: IntoMsg>(&self, msg: M, values: Vec<SingleKV>)
        ensures
            exists|record: Record, res: Result<(), D::Error>|
                {
                    &&& record.spec_level() == Level::Warning
                    &&& record.spec_msg() == msg.msg_text()
                    &&& record.spec_kv() == values@
                    &&& #[trigger] self.spec_drain().log_result(record, self.spec_list(), res)
                },
    {
        self.log_message(Level::Warning, msg, values)
    }

    /// Log an info level record.
    pub fn info<M: IntoMsg>(&self, msg: M, values: Vec<SingleKV>)
        ensures
            exists|record: Record, res: Result<(), D::Error>|
                {
                    &&& record.spec_level() == Level::Info
                    &&& record.spec_msg() == msg.msg_text()
                    &&& record.spec_kv() == values@
                    &&& #[trigger] self.spec_drain().log_result(record, self.spec_list(), res)
                },
    {
        self.log_message(Level::Info, msg, values)
    }

    /// Log a debug level record.
    pub fn debug<M: IntoMsg>(&self, msg: M, values: Vec<SingleKV>)
        ensures
            exists|record: Record, res: Result<(), D::Error>|
                {
                    &&& record.spec_level() == Level::Debug
                    &&& record.spec_msg() == msg.msg_text()
                    &&& record.spec_kv() == values@
                    &&& #[trigger] self.spec_drain().log_result(record, self.spec_list(), res)
                },
    {
        self.log_message(Level::Debug, msg, values)
    }

    /// Log a trace level record.
    pub fn trace<M: IntoMsg>(&self, msg: M, values: Vec<SingleKV>)
        ensures
            exists|record: Record, res: Result<(), D::Error>|
                {
                    &&& record.spec_level() == Level::Trace
                    &&& record.spec_msg() == msg.msg_text()
                    &&& record.spec_kv() == values@
                    &&& #[trigger] self.spec_drain().log_result(record, self.spec_list(), res)
                },
    {
        self.log_message(Level::Trace, msg, values)
    }

    /// The text a logger displays as for debugging: `Logger` followed by
    /// the debug text of its key-value list, such as `Logger(c, b, a)`.
    pub fn debug_string(&self) -> (r: String)
        ensures
            r@ == "Logger"@ + self.spec_list().debug_text(),
    {
        let mut s = String::new();
        s.append("Logger");
        let l = self.list.debug_string();
        s.append(l.as_str());
        s
    }
}

impl<D: Drain> Clone for Logger<D> {
    fn clone(&self) -> (r: Logger<D>)
        ensures
            r.spec_drain() == self.spec_drain(),
            r.spec_list().groups() == self.spec_list().groups(),
    {
        Logger { drain: arc_clone(&self.drain), list: self.list.clone() }
    }
}

impl<D: Drain> Drain for Logger<D> {
    type Error = D::Error;

    /// A logger used as a drain hands the record to its own drain, with the
    /// given context followed by the logger's own context.
    open spec fn log_result(
        &self,
        record: Record,
        values: OwnedKVList,
        res: Result<(), D::Error>,
    ) -> bool {
        exists|chained: OwnedKVList|
            {
                &&& chained.groups() == values.groups() + self.spec_list().groups()
                &&& #[trigger] self.spec_drain().log_result(record, chained, res)
            }
    }

    fn log(&self, record: &Record, values: &OwnedKVList) -> (res: Result<(), D::Error>) {
        let chained = values.append(&self.list);
        let res = self.drain.log(record, &chained);
        proof {
            assert(self.spec_drain().log_result(*record, chained, res));
        }
        res
    }
}

/// A child logger carries its own pairs first, then every pair of its
/// parent, in the parent's order.
pub proof fn lemma_child_logger_entries<D: Drain>(
    parent: Logger<D>,
    child: Logger<D>,
    values: OwnedKVGroup,
)
    requires
        child.spec_list().groups() == seq![values] + parent.spec_list().groups(),
    ensures
        child.spec_list().entries() == values.entries() + parent.spec_list().entries(),
{
    lemma_flatten_cons(values, parent.spec_list().groups());
}

/// A logger used as the drain of another logger hands each record on with
/// the pairs it was given first, then its own pairs.
pub proof fn lemma_logger_drain_entries(
    values: OwnedKVList,
    own: OwnedKVList,
    chained: OwnedKVList,
)
    requires
        chained.groups() == values.groups() + own.groups(),
    ensures
        chained.entries() == values.entries() + own.entries(),
{
    lemma_flatten_append(values.groups(), own.groups());
}

} // verus!
