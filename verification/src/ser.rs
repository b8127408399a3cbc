//! Serialization of key-value pairs: errors and text serializers.
use vstd::prelude::*;

use crate::value::Value;

verus! {

/// Serialization error.
#[derive(Copy, Clone, Debug, PartialEq, Eq, Structural)]
pub enum SerError {
    /// An input/output error
    Io,
    /// A formatting error
    Fmt,
    /// Other error
    Other,
}

/// The text a value is handed on as by the text serializers: `()` for
/// unit, nothing for an absent value, and the displayed text otherwise.
pub open spec fn arg_text(v: Value) -> Seq<char> {
    match v {
        Value::Unit => "()"@,
        Value::Absent => Seq::empty(),
        _ => v.display_text(),
    }
}

/// The text a value is handed on as by the text serializers.
pub fn arg_string(v: &Value) -> (r: String)
    ensures
        r@ == arg_text(*v),
{
    match v {
        Value::Absent => String::new(),
        _ => v.to_display_string(),
    }
}

/// Serializer that formats every value as text and hands the key and the
/// text to the given function.
pub struct AsFmtSerializer<F: Fn(&str, &str) -> Result<(), SerError>>(pub F);

impl<F: Fn(&str, &str) -> Result<(), SerError>> AsFmtSerializer<F> {
    /// Serialize one pair: the function gets the key and the value's text,
    /// and its result is returned.
    pub fn emit(&self, key: &str, val: &Value) -> (r: Result<(), SerError>)
        requires
            forall|k: &str, t: &str| #[trigger] self.0.requires((k, t)),
        ensures
            exists|t: &str| t@ == arg_text(*val) && #[trigger] self.0.ensures((key, t), r),
    {
        let text = arg_string(val);
        let t = text.as_str();
        let r = (self.0)(key, t);
        proof {
            assert(self.0.ensures((key, t), r));
        }
        r
    }
}

/// Serializer that formats all values as strings and hands the key and the
/// string to the given function.
pub struct AsStrSerializer<F: Fn(&str, &str) -> Result<(), SerError>>(pub F);

impl<F: Fn(&str, &str) -> Result<(), SerError>> AsStrSerializer<F> {
    /// Serialize one pair: the function gets the key and the value's text,
    /// and its result is returned.
    pub fn emit(&self, key: &str, val: &Value) -> (r: Result<(), SerError>)
        requires
            forall|k: &str, t: &str| #[trigger] self.0.requires((k, t)),
        ensures
            exists|t: &str| t@ == arg_text(*val) && #[trigger] self.0.ensures((key, t), r),
    {
        let text = arg_string(val);
        let t = text.as_str();
        let r = (self.0)(key, t);
        proof {
            assert(self.0.ensures((key, t), r));
        }
        r
    }
}

/// A value that can be shared between threads.
pub trait SyncValue: Send + Sync {}

impl<V: Send + Sync> SyncValue for V {}

/// Key-value pairs that can be shared between threads, and so can be stored
/// as part of a logger.
pub trait SyncKV: Send + Sync {}

impl<T: Send + Sync> SyncKV for T {}

} // verus!
