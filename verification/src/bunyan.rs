//! Bunyan formatting of records: a JSON format with the fields that Bunyan
//! tools read.
use vstd::prelude::*;

use crate::json::{FieldKV, FieldValue, Format, FormatBuilder};
use crate::value::Value;

verus! {

/// The id of the running process, from `nix::unistd::getpid`. It depends on
/// the process: nothing is stated of it.
#[verifier::external_body]
fn process_id() -> (r: i64) {
    nix::unistd::getpid().as_raw() as i64
}

/// The host name of the machine, from `nix::unistd::gethostname`, with what
/// is not UTF-8 replaced; `None` where the call fails. It depends on the
/// machine: nothing is stated of it.
#[verifier::external_body]
fn host_name() -> (r: Option<String>) {
    match nix::unistd::gethostname() {
        Ok(h) => Some(h.to_string_lossy().into_owned()),
        Err(_) => None,
    }
}

/// The host name to print: the name that was had, or `n/a`.
pub fn hostname_or_default(host: Option<String>) -> (r: String)
    ensures
        match host {
            Some(h) => r@ == h@,
            None => r@ == "n/a"@,
        },
{
    match host {
        Some(h) => h,
        None => "n/a".to_string(),
    }
}

/// The host name of the machine, or `n/a` when it cannot be had.
pub fn get_hostname() -> (r: String) {
    hostname_or_default(host_name())
}

/// `fields` are the Bunyan fields of process `pid` on host `host`: `pid`,
/// `host`, `time`, `level` (the Bunyan number), `name` (`slog-rs`), `v` (0)
/// and `msg`, in this order.
pub open spec fn is_bunyan_fields(fields: Seq<FieldKV>, pid: i64, host: Seq<char>) -> bool {
    &&& fields.len() == 7
    &&& fields[0].0@ == "pid"@ && fields[0].1 == FieldValue::Static(Value::Int(pid))
    &&& fields[1].0@ == "host"@ && (fields[1].1 matches FieldValue::Static(Value::Str(s))
        && s@ == host)
    &&& fields[2].0@ == "time"@ && fields[2].1 == FieldValue::Timestamp
    &&& fields[3].0@ == "level"@ && fields[3].1 == FieldValue::LevelNumber
    &&& fields[4].0@ == "name"@ && (fields[4].1 matches FieldValue::Static(Value::Str(s))
        && s@ == "slog-rs"@)
    &&& fields[5].0@ == "v"@ && fields[5].1 == FieldValue::Static(Value::Uint(0))
    &&& fields[6].0@ == "msg"@ && fields[6].1 == FieldValue::Message
}

/// The Bunyan fields of process `pid` on host `host`.
pub fn bunyan_fields(pid: i64, host: String) -> (r: Vec<FieldKV>)
    ensures
        is_bunyan_fields(r@, pid, host@),
{
    let mut v: Vec<FieldKV> = Vec::new();
    v.push(FieldKV::new("pid", FieldValue::Static(Value::Int(pid))));
    v.push(FieldKV::new("host", FieldValue::Static(Value::Str(host))));
    v.push(FieldKV::new("time", FieldValue::Timestamp));
    v.push(FieldKV::new("level", FieldValue::LevelNumber));
    v.push(FieldKV::new("name", FieldValue::Static(Value::Str("slog-rs".to_string()))));
    v.push(FieldKV::new("v", FieldValue::Static(Value::Uint(0))));
    v.push(FieldKV::new("msg", FieldValue::Message));
    v
}

/// A JSON format builder with the Bunyan fields of process `pid` on host
/// `host`.
pub fn new_with_process(pid: i64, host: String) -> (r: FormatBuilder)
    ensures
        r.spec_newlines(),
        is_bunyan_fields(r.spec_values(), pid, host@),
{
    let fields = bunyan_fields(pid, host);
    let r = Format::new().add_key_values(fields);
    proof {
        assert(r.spec_values() =~= fields@);
    }
    r
}

/// A JSON format builder with the Bunyan fields of this process and host.
pub fn new() -> (r: FormatBuilder)
    ensures
        r.spec_newlines(),
        exists|pid: i64, host: Seq<char>| is_bunyan_fields(r.spec_values(), pid, host),
{
    let pid = process_id();
    let host = get_hostname();
    new_with_process(pid, host)
}

/// The Bunyan JSON format of this process and host.
pub fn default() -> (r: Format)
    ensures
        r.spec_newlines(),
        exists|pid: i64, host: Seq<char>| is_bunyan_fields(r.spec_values(), pid, host),
{
    new().build()
}

} // verus!
