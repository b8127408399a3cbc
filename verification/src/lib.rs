//! Structured, composable logging: levels, key-value context, drains,
//! loggers and record formats.
pub mod bunyan;
pub mod compact;
pub mod decorator;
pub mod drain;
pub mod journald;
pub mod json;
pub mod key;
pub mod kv;
pub mod level;
pub mod logger;
pub mod record;
pub mod record_info;
pub mod scope;
pub mod ser;
pub mod stdlog;
pub mod syslog;
pub mod term;
pub mod value;

pub use decorator::{ColorDecorator, ColorRecordDecorator, Decorator, RecordDecorator};
pub use drain::{
    discard, duplicate, failover, filter, filter_level, level_filter, Discard, Drain, DrainExt,
    Duplicate, DuplicateError, Failover, Filter, IgnoreErr, LevelFilter, MapError, Never,
};
pub use journald::{sanitize_key, JournaldDrain};
pub use json::SerdeSerializer;
pub use key::Key;
pub use kv::{OwnedKVGroup, OwnedKVList};
pub use level::{FilterLevel, Level};
pub use logger::{IntoMsg, Logger};
pub use record::{Record, RecordStatic, SingleKV};
pub use ser::{AsFmtSerializer, AsStrSerializer, SerError, SyncKV, SyncValue};
pub use syslog::{level_to_severity, unix_3164, Facility, Format3164, Severity, Streamer3164, KSV};
pub use term::{streamer, FormatMode, StreamerBuilder, TermFormat};
pub use value::Value;
