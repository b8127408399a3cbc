//! Logging records.
use vstd::prelude::*;

use crate::key::Key;
use crate::level::Level;
use crate::value::Value;

verus! {

/// A single key-value pair.
pub struct SingleKV(pub Key, pub Value);

impl Clone for SingleKV {
    fn clone(&self) -> (r: SingleKV)
        ensures
            r == *self,
    {
        SingleKV(self.0.clone(), self.1.clone())
    }
}

impl SingleKV {
    /// A pair of the key with the given text and the given value.
    pub fn new(key: &str, value: Value) -> (r: SingleKV)
        ensures
            r.0@ == key@,
            r.1 == value,
    {
        SingleKV(Key::from_text(key), value)
    }
}

/// Information about a logging statement that is fixed at the place where
/// the statement stands.
pub struct RecordStatic {
    /// Logging level
    pub level: Level,
    /// File
    pub file: String,
    /// Line
    pub line: u32,
    /// Column
    pub column: u32,
    /// Function
    pub function: String,
    /// Module
    pub module: String,
    /// Target
    pub target: String,
}

/// One logging record: its static information, its formatted message, and
/// the key-value pairs given with the logging statement, in written order.
pub struct Record {
    rstatic: RecordStatic,
    msg: String,
    kv: Vec<SingleKV>,
}

impl Record {
    /// Level of the record.
    pub closed spec fn spec_level(self) -> Level {
        self.rstatic.level
    }

    /// Message of the record.
    pub closed spec fn spec_msg(self) -> Seq<char> {
        self.msg@
    }

    /// File of the record.
    pub closed spec fn spec_file(self) -> Seq<char> {
        self.rstatic.file@
    }

    /// Line of the record.
    pub closed spec fn spec_line(self) -> u32 {
        self.rstatic.line
    }

    /// Column of the record.
    pub closed spec fn spec_column(self) -> u32 {
        self.rstatic.column
    }

    /// Function of the record.
    pub closed spec fn spec_function(self) -> Seq<char> {
        self.rstatic.function@
    }

    /// Module of the record.
    pub closed spec fn spec_module(self) -> Seq<char> {
        self.rstatic.module@
    }

    /// Target of the record.
    pub closed spec fn spec_target(self) -> Seq<char> {
        self.rstatic.target@
    }

    /// Key-value pairs of the record, in written order.
    pub closed spec fn spec_kv(self) -> Seq<SingleKV> {
        self.kv@
    }

    /// A record of the given static information, message and key-values.
    pub fn new(rstatic: RecordStatic, msg: String, kv: Vec<SingleKV>) -> (r: Record)
        ensures
            r.spec_level() == rstatic.level,
            r.spec_msg() == msg@,
            r.spec_file() == rstatic.file@,
            r.spec_line() == rstatic.line,
            r.spec_column() == rstatic.column,
            r.spec_function() == rstatic.function@,
            r.spec_module() == rstatic.module@,
            r.spec_target() == rstatic.target@,
            r.spec_kv() == kv@,
    {
        Record { rstatic, msg, kv }
    }

    /// A record of the given level and message, with empty location and no
    /// key-values.
    pub fn with_message(level: Level, msg: &str) -> (r: Record)
        ensures
            r.spec_level() == level,
            r.spec_msg() == msg@,
            r.spec_file() == Seq::<char>::empty(),
            r.spec_line() == 0,
            r.spec_column() == 0,
            r.spec_function() == Seq::<char>::empty(),
            r.spec_module() == Seq::<char>::empty(),
            r.spec_target() == Seq::<char>::empty(),
            r.spec_kv() == Seq::<SingleKV>::empty(),
    {
        Record {
            rstatic: RecordStatic {
                level,
                file: String::new(),
                line: 0,
                column: 0,
                function: String::new(),
                module: String::new(),
                target: String::new(),
            },
            msg: msg.to_string(),
            kv: Vec::new(),
        }
    }

    /// Logging level of the record.
    pub fn level(&self) -> (r: Level)
        ensures
            r == self.spec_level(),
    {
        self.rstatic.level
    }

    /// Message of the record.
    pub fn msg(&self) -> (r: &str)
        ensures
            r@ == self.spec_msg(),
    {
        self.msg.as_str()
    }

    /// File where the logging statement stands.
    pub fn file(&self) -> (r: &str)
        ensures
            r@ == self.spec_file(),
    {
        self.rstatic.file.as_str()
    }

    /// Line where the logging statement stands.
    pub fn line(&self) -> (r: u32)
        ensures
            r == self.spec_line(),
    {
        self.rstatic.line
    }

    /// Column where the logging statement stands.
    pub fn column(&self) -> (r: u32)
        ensures
            r == self.spec_column(),
    {
        self.rstatic.column
    }

    /// Function where the logging statement stands.
    pub fn function(&self) -> (r: &str)
        ensures
            r@ == self.spec_function(),
    {
        self.rstatic.function.as_str()
    }

    /// Module where the logging statement stands.
    pub fn module(&self) -> (r: &str)
        ensures
            r@ == self.spec_module(),
    {
        self.rstatic.module.as_str()
    }

    /// Target of the logging statement.
    pub fn target(&self) -> (r: &str)
        ensures
            r@ == self.spec_target(),
    {
        self.rstatic.target.as_str()
    }

    /// Key-value pairs of the logging statement, in written order.
    pub fn values(&self) -> (r: &Vec<SingleKV>)
        ensures
            r@ == self.spec_kv(),
    {
        &self.kv
    }
}

} // verus!
