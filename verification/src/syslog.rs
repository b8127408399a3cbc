//! Syslog severities and the key-separator-value format of RFC 3164
//! messages.
use vstd::prelude::*;

use crate::kv::OwnedKVList;
use crate::level::Level;
use crate::record::{Record, SingleKV};
use crate::value::Value;

verus! {

/// Syslog severity of a message.
#[derive(Copy, Clone, Debug, PartialEq, Eq, Structural)]
pub enum Severity {
    /// System is unusable
    Emergency,
    /// Action must be taken immediately
    Alert,
    /// Critical conditions
    Critical,
    /// Error conditions
    Error,
    /// Warning conditions
    Warning,
    /// Normal but significant condition
    Notice,
    /// Informational
    Info,
    /// Debug-level messages
    Debug,
}

impl Severity {
    /// The numeric code of the severity, as in syslog: 0 for `Emergency`
    /// through 7 for `Debug`.
    pub open spec fn spec_code(self) -> int {
        match self {
            Severity::Emergency => 0,
            Severity::Alert => 1,
            Severity::Critical => 2,
            Severity::Error => 3,
            Severity::Warning => 4,
            Severity::Notice => 5,
            Severity::Info => 6,
            Severity::Debug => 7,
        }
    }

    /// The numeric code of the severity.
    pub fn code(&self) -> (r: i32)
        ensures
            r == self.spec_code(),
    {
        match self {
            Severity::Emergency => 0,
            Severity::Alert => 1,
            Severity::Critical => 2,
            Severity::Error => 3,
            Severity::Warning => 4,
            Severity::Notice => 5,
            Severity::Info => 6,
            Severity::Debug => 7,
        }
    }
}

/// The syslog severity of each logging level.
pub open spec fn severity_of(level: Level) -> Severity {
    match level {
        Level::Critical => Severity::Critical,
        Level::Error => Severity::Error,
        Level::Warning => Severity::Warning,
        Level::Info => Severity::Notice,
        Level::Debug => Severity::Info,
        Level::Trace => Severity::Debug,
    }
}

/// The syslog severity of a logging level.
pub fn level_to_severity(level: Level) -> (r: Severity)
    ensures
        r == severity_of(level),
{
    match level {
        Level::Critical => Severity::Critical,
        Level::Error => Severity::Error,
        Level::Warning => Severity::Warning,
        Level::Info => Severity::Notice,
        Level::Debug => Severity::Info,
        Level::Trace => Severity::Debug,
    }
}

/// The text of one pair in key-separator-value form: the key alone for `()`,
/// `key`, separator, `None` for an absent value, and `key`, separator, value
/// text otherwise.
pub open spec fn ksv_text(sep: Seq<char>, e: SingleKV) -> Seq<char> {
    match e.1 {
        Value::Unit => e.0@,
        _ => e.0@ + sep + e.1.display_text(),
    }
}

/// The pairs, each followed by a space.
pub open spec fn ksv_all(sep: Seq<char>, es: Seq<SingleKV>) -> Seq<char>
    decreases es.len(),
{
    if es.len() == 0 {
        Seq::empty()
    } else {
        ksv_all(sep, es.drop_last()) + ksv_text(sep, es.last()) + " "@
    }
}

/// The text of a record in the RFC 3164 format: every pair of the logger
/// context and then of the record, as `key=value` followed by a space.
pub open spec fn format3164_text(record: Record, values: OwnedKVList) -> Seq<char> {
    ksv_all("="@, values.entries()) + ksv_all("="@, record.spec_kv())
}

/// Key-separator-value serializer writing into a text buffer.
pub struct KSV {
    separator: String,
    out: String,
}

impl KSV {
    /// The separator between keys and values.
    pub closed spec fn spec_separator(&self) -> Seq<char> {
        self.separator@
    }

    /// The text written so far.
    pub closed spec fn spec_out(&self) -> Seq<char> {
        self.out@
    }

    /// New serializer with the given separator and an empty buffer.
    pub fn new(separator: &str) -> (r: KSV)
        ensures
            r.spec_separator() == separator@,
            r.spec_out() == Seq::<char>::empty(),
    {
        KSV { separator: separator.to_string(), out: String::new() }
    }

    /// The text written so far.
    pub fn io(&self) -> (r: &String)
        ensures
            r@ == self.spec_out(),
    {
        &self.out
    }

    /// Write raw text.
    pub fn write_str(&mut self, text: &str)
        ensures
            final(self).spec_out() == old(self).spec_out() + text@,
            final(self).spec_separator() == old(self).spec_separator(),
    {
        self.out.append(text);
    }

    /// Serialize one pair.
    pub fn emit(&mut self, e: &SingleKV)
        ensures
            final(self).spec_out() == old(self).spec_out() + ksv_text(
                old(self).spec_separator(),
                *e,
            ),
            final(self).spec_separator() == old(self).spec_separator(),
    {
        self.out.append(e.0.as_str());
        match &e.1 {
            Value::Unit => {},
            _ => {
                self.out.append(self.separator.as_str());
                let t = e.1.to_display_string();
                self.out.append(t.as_str());
            },
        }
    }

    /// Serialize every pair, each followed by a space.
    pub fn emit_all(&mut self, es: &Vec<SingleKV>)
        ensures
            final(self).spec_out() == old(self).spec_out() + ksv_all(old(self).spec_separator(), es@),
            final(self).spec_separator() == old(self).spec_separator(),
    {
        let ghost start = self.out@;
        let mut i: usize = 0;
        while i < es.len()
            invariant
                i <= es@.len(),
                self.separator@ == old(self).spec_separator(),
                self.out@ == start + ksv_all(self.separator@, es@.subrange(0, i as int)),
            decreases es@.len() - i,
        {
            self.emit(&es[i]);
            self.write_str(" ");
            proof {
                assert(es@.subrange(0, i + 1).drop_last() =~= es@.subrange(0, i as int));
            }
            i = i + 1;
        }
        proof {
            assert(es@.subrange(0, es@.len() as int) =~= es@);
        }
    }
}

/// Formatter to the format defined in RFC 3164.
pub struct Format3164;

impl Format3164 {
    /// Create new `Format3164`.
    pub fn new() -> (r: Self) {
        Format3164
    }

    /// Format a record: every pair of the logger context and of the record,
    /// as `key=value` followed by a space.
    pub fn format(&self, record: &Record, values: &OwnedKVList) -> (r: String)
        ensures
            r@ == format3164_text(*record, *values),
    {
        let mut ser = KSV::new("=");
        proof {
            reveal_strlit("=");
        }
        let logger_values = values.iter_single();
        ser.emit_all(&logger_values);
        ser.emit_all(record.values());
        ser.io().clone()
    }
}

/// A message for syslog: its severity and text.
pub struct SyslogMessage {
    /// Severity
    pub severity: Severity,
    /// Text
    pub text: String,
}

/// Syslog facility: the kind of program that sends a message.
#[allow(non_camel_case_types)]
#[derive(Copy, Clone, Debug, PartialEq, Eq, Structural)]
pub enum Facility {
    /// Kernel messages
    LOG_KERN,
    /// User-level messages
    LOG_USER,
    /// Mail system
    LOG_MAIL,
    /// System daemons
    LOG_DAEMON,
    /// Security/authorization messages
    LOG_AUTH,
    /// Messages generated internally by syslogd
    LOG_SYSLOG,
    /// Line printer subsystem
    LOG_LPR,
    /// Network news subsystem
    LOG_NEWS,
    /// UUCP subsystem
    LOG_UUCP,
    /// Clock daemon
    LOG_CRON,
    /// Security/authorization messages
    LOG_AUTHPRIV,
    /// FTP daemon
    LOG_FTP,
    /// NTP subsystem
    LOG_NTP,
    /// Log audit
    LOG_AUDIT,
    /// Log alert
    LOG_ALERT,
    /// Clock daemon
    LOG_CLOCK_DAEMON,
    /// Local use 0
    LOG_LOCAL0,
    /// Local use 1
    LOG_LOCAL1,
    /// Local use 2
    LOG_LOCAL2,
    /// Local use 3
    LOG_LOCAL3,
    /// Local use 4
    LOG_LOCAL4,
    /// Local use 5
    LOG_LOCAL5,
    /// Local use 6
    LOG_LOCAL6,
    /// Local use 7
    LOG_LOCAL7,
}

/// Drain target sending records to syslog in the RFC 3164 format, under a
/// facility.
pub struct Streamer3164 {
    format: Format3164,
    facility: Facility,
}

impl Streamer3164 {
    /// The facility the messages are sent under.
    pub closed spec fn spec_facility(&self) -> Facility {
        self.facility
    }

    /// New streamer sending under `facility`.
    pub fn new(facility: Facility) -> (r: Self)
        ensures
            r.spec_facility() == facility,
    {
        Streamer3164 { format: Format3164::new(), facility }
    }

    /// The facility the messages are sent under.
    pub fn facility(&self) -> (r: Facility)
        ensures
            r == self.spec_facility(),
    {
        self.facility
    }

    /// The message to send for a record: the severity of its level and its
    /// RFC 3164 text.
    pub fn message(&self, record: &Record, values: &OwnedKVList) -> (r: SyslogMessage)
        ensures
            r.severity == severity_of(record.spec_level()),
            r.text@ == format3164_text(*record, *values),
    {
        SyslogMessage {
            severity: level_to_severity(record.level()),
            text: self.format.format(record, values),
        }
    }
}

/// Streamer to the local Unix syslog in the RFC 3164 format, under
/// `facility`.
pub fn unix_3164(facility: Facility) -> (r: Streamer3164)
    ensures
        r.spec_facility() == facility,
{
    Streamer3164::new(facility)
}

/// More severe levels get lower (more urgent) syslog severity codes, and
/// distinct levels distinct codes.
pub proof fn lemma_severity_order(a: Level, b: Level)
    ensures
        a.at_least(b) <==> severity_of(a).spec_code() <= severity_of(b).spec_code(),
        severity_of(a) == severity_of(b) ==> a == b,
{
}

} // verus!
