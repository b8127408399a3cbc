//! Record information with a lazily taken timestamp.
use vstd::prelude::*;

use crate::level::Level;

verus! {

/// A UTC time: whole seconds since the Unix epoch and the nanoseconds
/// past them.
#[derive(Copy, Clone, Debug, PartialEq, Eq, Structural)]
pub struct Timestamp {
    /// Seconds since 1970-01-01T00:00:00Z
    pub secs: i64,
    /// Nanoseconds past `secs`
    pub nanos: u32,
}

/// `chrono::Utc::now()`, as seconds since the epoch and nanoseconds past
/// them. It depends on the clock: nothing is stated of it.
#[verifier::external_body]
fn utc_now() -> (r: Timestamp) {
    let t = chrono::Utc::now();
    Timestamp { secs: t.timestamp(), nanos: t.timestamp_subsec_nanos() }
}

/// Common information about a logging record: its level, its message, and
/// a timestamp taken when it is first asked for.
pub struct RecordInfo {
    ts: Option<Timestamp>,
    level: Level,
    msg: String,
}

impl RecordInfo {
    /// The timestamp, once taken or set.
    pub closed spec fn spec_ts(&self) -> Option<Timestamp> {
        self.ts
    }

    /// The logging level.
    pub closed spec fn spec_level(&self) -> Level {
        self.level
    }

    /// The message.
    pub closed spec fn spec_msg(&self) -> Seq<char> {
        self.msg@
    }

    /// New record information; no timestamp is taken yet.
    pub fn new(level: Level, msg: &str) -> (r: Self)
        ensures
            r.spec_ts() is None,
            r.spec_level() == level,
            r.spec_msg() == msg@,
    {
        RecordInfo { ts: None, level, msg: msg.to_string() }
    }

    /// The timestamp: taken from the clock on the first call, and the same
    /// on every later call.
    pub fn ts(&mut self) -> (r: Timestamp)
        ensures
            old(self).spec_ts() matches Some(t) ==> r == t,
            final(self).spec_ts() == Some(r),
            final(self).spec_level() == old(self).spec_level(),
            final(self).spec_msg() == old(self).spec_msg(),
    {
        match self.ts {
            Some(t) => t,
            None => {
                let now = utc_now();
                self.ts = Some(now);
                now
            },
        }
    }

    /// Set the timestamp.
    pub fn set_ts(&mut self, ts: Timestamp)
        ensures
            final(self).spec_ts() == Some(ts),
            final(self).spec_level() == old(self).spec_level(),
            final(self).spec_msg() == old(self).spec_msg(),
    {
        self.ts = Some(ts);
    }

    /// The message.
    pub fn msg(&self) -> (r: &str)
        ensures
            r@ == self.spec_msg(),
    {
        self.msg.as_str()
    }

    /// The logging level.
    pub fn level(&self) -> (r: Level)
        ensures
            r == self.spec_level(),
    {
        self.level
    }
}

} // verus!
