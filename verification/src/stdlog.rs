//! Adapter from the `log` crate's records to logging records.
use vstd::prelude::*;

use crate::level::Level;
use crate::record::{Record, RecordStatic, SingleKV};

verus! {

/// The levels of the `log` crate.
#[derive(Copy, Clone, Debug, PartialEq, Eq, Structural)]
pub enum LogLevel {
    /// Error
    Error,
    /// Warn
    Warn,
    /// Info
    Info,
    /// Debug
    Debug,
    /// Trace
    Trace,
}

/// The logging level of each `log` level.
pub open spec fn slog_level_of(level: LogLevel) -> Level {
    match level {
        LogLevel::Trace => Level::Trace,
        LogLevel::Debug => Level::Debug,
        LogLevel::Info => Level::Info,
        LogLevel::Warn => Level::Warning,
        LogLevel::Error => Level::Error,
    }
}

/// The logging level of a `log` level.
pub fn log_to_slog_level(level: LogLevel) -> (r: Level)
    ensures
        r == slog_level_of(level),
{
    match level {
        LogLevel::Trace => Level::Trace,
        LogLevel::Debug => Level::Debug,
        LogLevel::Info => Level::Info,
        LogLevel::Warn => Level::Warning,
        LogLevel::Error => Level::Error,
    }
}

/// The `log` level of each logging level: `Critical` and `Error` are both
/// errors there.
pub open spec fn log_level_of(level: Level) -> LogLevel {
    match level {
        Level::Critical => LogLevel::Error,
        Level::Error => LogLevel::Error,
        Level::Warning => LogLevel::Warn,
        Level::Info => LogLevel::Info,
        Level::Debug => LogLevel::Debug,
        Level::Trace => LogLevel::Trace,
    }
}

/// The `log` level of a logging level.
pub fn slog_to_log_level(level: Level) -> (r: LogLevel)
    ensures
        r == log_level_of(level),
{
    match level {
        Level::Critical => LogLevel::Error,
        Level::Error => LogLevel::Error,
        Level::Warning => LogLevel::Warn,
        Level::Info => LogLevel::Info,
        Level::Debug => LogLevel::Debug,
        Level::Trace => LogLevel::Trace,
    }
}

/// Going to the `log` levels and back keeps every level but `Critical`,
/// which comes back as `Error`.
pub proof fn lemma_log_level_roundtrip(level: Level, l: LogLevel)
    ensures
        level != Level::Critical ==> slog_level_of(log_level_of(level)) == level,
        slog_level_of(log_level_of(Level::Critical)) == Level::Error,
        log_level_of(slog_level_of(l)) == l,
{
}

/// The record for a `log` record: its level, message, file, line and
/// module, and no key-value pairs.
pub fn log_record(level: LogLevel, msg: &str, file: &str, line: u32, module: &str) -> (r: Record)
    ensures
        r.spec_level() == slog_level_of(level),
        r.spec_msg() == msg@,
        r.spec_file() == file@,
        r.spec_line() == line,
        r.spec_column() == 0,
        r.spec_function() == Seq::<char>::empty(),
        r.spec_module() == module@,
        r.spec_target() == Seq::<char>::empty(),
        r.spec_kv() == Seq::<SingleKV>::empty(),
{
    let rstatic = RecordStatic {
        level: log_to_slog_level(level),
        file: file.to_string(),
        line,
        column: 0,
        function: String::new(),
        module: module.to_string(),
        target: String::new(),
    };
    let r = Record::new(rstatic, msg.to_string(), Vec::new());
    proof {
        assert(r.spec_kv() =~= Seq::<SingleKV>::empty());
    }
    r
}

} // verus!
