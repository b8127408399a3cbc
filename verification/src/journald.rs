//! Journald structured fields of records.
use vstd::prelude::*;

use crate::kv::OwnedKVList;
use crate::level::Level;
use crate::record::{Record, SingleKV};
use crate::syslog::{level_to_severity, severity_of};
use crate::value::{i64_to_decimal, int_decimal, nat_decimal, u64_to_decimal, Value};

verus! {

/// An uppercase ASCII letter.
pub open spec fn is_upper(c: char) -> bool {
    'A' <= c && c <= 'Z'
}

/// A lowercase ASCII letter.
pub open spec fn is_lower(c: char) -> bool {
    'a' <= c && c <= 'z'
}

/// An ASCII digit.
pub open spec fn is_digit(c: char) -> bool {
    '0' <= c && c <= '9'
}

/// A character that may stand in a journald key.
pub open spec fn is_key_char(c: char) -> bool {
    is_upper(c) || is_digit(c) || c == '_'
}

/// A valid journald key: only uppercase letters, digits and underscores,
/// and not beginning with an underscore.
pub open spec fn is_journald_key(k: Seq<char>) -> bool {
    &&& forall|i: int| 0 <= i < k.len() ==> is_key_char(#[trigger] k[i])
    &&& k.len() > 0 ==> k[0] != '_'
}

/// The key sanitized for journald: lowercase letters are capitalized,
/// uppercase letters and digits kept, underscores kept except at the start
/// of the result, and all other characters removed.
pub open spec fn sanitize_spec(s: Seq<char>) -> Seq<char>
    decreases s.len(),
{
    if s.len() == 0 {
        Seq::empty()
    } else {
        let prev = sanitize_spec(s.drop_last());
        let c = s.last();
        if is_upper(c) || is_digit(c) {
            prev.push(c)
        } else if is_lower(c) {
            prev.push(((c as int) - 32) as char)
        } else if c == '_' && prev.len() > 0 {
            prev.push('_')
        } else {
            prev
        }
    }
}

/// Journald keys must consist only of uppercase letters, numbers and
/// underscores, and cannot begin with an underscore: capitalize the key and
/// remove any invalid character.
pub fn sanitize_key(key: &str) -> (r: String)
    ensures
        r@ == sanitize_spec(key@),
{
    let n = key.unicode_len();
    let mut out = String::new();
    let mut i: usize = 0;
    while i < n
        invariant
            n == key@.len(),
            i <= n,
            out@ == sanitize_spec(key@.subrange(0, i as int)),
        decreases n - i,
    {
        let c = key.get_char(i);
        proof {
            assert(key@.subrange(0, i + 1).drop_last() =~= key@.subrange(0, i as int));
            assert(key@.subrange(0, i + 1).last() == c);
        }
        if ('A' <= c && c <= 'Z') || ('0' <= c && c <= '9') {
            out.push(c);
        } else if 'a' <= c && c <= 'z' {
            let b: u8 = c as u8;
            out.push((b - 32) as char);
        } else if c == '_' && out.unicode_len() > 0 {
            out.push('_');
        }
        i = i + 1;
    }
    proof {
        assert(key@.subrange(0, n as int) =~= key@);
    }
    out
}

/// A sanitized key is a valid journald key.
pub proof fn lemma_sanitize_valid(s: Seq<char>)
    ensures
        is_journald_key(sanitize_spec(s)),
    decreases s.len(),
{
    if s.len() > 0 {
        lemma_sanitize_valid(s.drop_last());
        let prev = sanitize_spec(s.drop_last());
        let r = sanitize_spec(s);
        assert forall|i: int| 0 <= i < r.len() implies is_key_char(#[trigger] r[i]) by {
            if i < prev.len() {
                assert(r[i] == prev[i]);
            }
        }
        if r.len() > 0 && prev.len() > 0 {
            assert(r[0] == prev[0]);
        }
    }
}

/// Sanitizing a valid key changes nothing, so sanitizing twice is the same
/// as sanitizing once.
pub proof fn lemma_sanitize_idempotent(s: Seq<char>)
    ensures
        sanitize_spec(sanitize_spec(s)) == sanitize_spec(s),
{
    lemma_sanitize_valid(s);
    lemma_sanitize_keeps_valid(sanitize_spec(s));
}

/// Sanitizing a valid journald key gives it back unchanged.
pub proof fn lemma_sanitize_keeps_valid(k: Seq<char>)
    requires
        is_journald_key(k),
    ensures
        sanitize_spec(k) == k,
    decreases k.len(),
{
    if k.len() > 0 {
        let p = k.drop_last();
        assert(is_journald_key(p)) by {
            assert forall|i: int| 0 <= i < p.len() implies is_key_char(#[trigger] p[i]) by {
                assert(p[i] == k[i]);
            }
            if p.len() > 0 {
                assert(p[0] == k[0]);
            }
        }
        lemma_sanitize_keeps_valid(p);
        let c = k.last();
        assert(is_key_char(k[k.len() - 1]));
        if c == '_' {
            assert(k.len() > 1);
        }
        assert(sanitize_spec(k) =~= k);
    }
}

/// The text of a value in a journald field: empty for `()`, `None` for an
/// absent value, and the displayed text otherwise.
pub open spec fn journald_value_text(v: Value) -> Seq<char> {
    match v {
        Value::Unit => Seq::empty(),
        _ => v.display_text(),
    }
}

/// A journald field: the key, `=`, and the value.
pub open spec fn field_text(key: Seq<char>, value: Seq<char>) -> Seq<char> {
    key + "="@ + value
}

/// The field of one pair: the sanitized key, `=`, and the value text.
pub open spec fn journald_kv_field(e: SingleKV) -> Seq<char> {
    field_text(sanitize_spec(e.0@), journald_value_text(e.1))
}

/// The fixed fields of a record: priority, message, file, line, module and
/// function.
pub open spec fn journald_record_fields(record: Record) -> Seq<Seq<char>> {
    seq![
        field_text("PRIORITY"@, int_decimal(severity_of(record.spec_level()).spec_code())),
        field_text("MESSAGE"@, record.spec_msg()),
        field_text("CODE_FILE"@, record.spec_file()),
        field_text("CODE_LINE"@, nat_decimal(record.spec_line() as nat)),
        field_text("CODE_MODULE"@, record.spec_module()),
        field_text("CODE_FUNCTION"@, record.spec_function()),
    ]
}

/// All fields of a record: the fixed fields, then a field for every pair of
/// the logger context, then for every pair of the record.
pub open spec fn journald_fields(record: Record, values: OwnedKVList) -> Seq<Seq<char>> {
    journald_record_fields(record) + values.entries().map_values(|e: SingleKV| journald_kv_field(e))
        + record.spec_kv().map_values(|e: SingleKV| journald_kv_field(e))
}

/// The journald priority of a level: the syslog severity code.
pub fn level_to_priority(level: Level) -> (r: i32)
    ensures
        r == severity_of(level).spec_code(),
{
    level_to_severity(level).code()
}

/// `key=value` for a fixed field.
fn field(key: &str, value: &str) -> (r: String)
    ensures
        r@ == field_text(key@, value@),
{
    let mut s = key.to_string();
    s.append("=");
    s.append(value);
    s
}

/// The field of one pair.
pub fn kv_field(e: &SingleKV) -> (r: String)
    ensures
        r@ == journald_kv_field(*e),
{
    let k = sanitize_key(e.0.as_str());
    let v = match &e.1 {
        Value::Unit => String::new(),
        _ => e.1.to_display_string(),
    };
    field(k.as_str(), v.as_str())
}

/// Append the fields of the pairs.
fn push_kv_fields(fields: &mut Vec<String>, es: &Vec<SingleKV>)
    ensures
        final(fields)@.map_values(|s: String| s@) == old(fields)@.map_values(|s: String| s@)
            + es@.map_values(|e: SingleKV| journald_kv_field(e)),
{
    let ghost start = fields@.map_values(|s: String| s@);
    let mut i: usize = 0;
    while i < es.len()
        invariant
            i <= es@.len(),
            fields@.map_values(|s: String| s@) == start + es@.subrange(0, i as int).map_values(
                |e: SingleKV| journald_kv_field(e),
            ),
        decreases es@.len() - i,
    {
        let f = kv_field(&es[i]);
        let ghost before = fields@;
        fields.push(f);
        proof {
            assert(fields@ == before.push(f));
            assert(fields@.map_values(|s: String| s@) =~= before.map_values(|s: String| s@).push(
                f@,
            ));
            assert(es@.subrange(0, i + 1).map_values(|e: SingleKV| journald_kv_field(e))
                =~= es@.subrange(0, i as int).map_values(|e: SingleKV| journald_kv_field(e)).push(
                journald_kv_field(es@[i as int]),
            ));
        }
        i = i + 1;
    }
    proof {
        assert(es@.subrange(0, es@.len() as int) =~= es@);
    }
}

/// Drain target sending records to journald as structured data.
///
/// Journald requires keys to be uppercase alphanumeric, so logging keys are
/// capitalized and all other characters are removed.
pub struct JournaldDrain;

impl JournaldDrain {
    /// The fields to send for a record: priority, message, file, line,
    /// module and function, then every pair of the logger context and of
    /// the record under its sanitized key.
    pub fn fields(&self, record: &Record, values: &OwnedKVList) -> (r: Vec<String>)
        ensures
            r@.map_values(|s: String| s@) == journald_fields(*record, *values),
    {
        let mut fields: Vec<String> = Vec::new();
        let prio = level_to_priority(record.level());
        let prio_text = i64_to_decimal(prio as i64);
        fields.push(field("PRIORITY", prio_text.as_str()));
        fields.push(field("MESSAGE", record.msg()));
        fields.push(field("CODE_FILE", record.file()));
        let line = u64_to_decimal(record.line() as u64);
        fields.push(field("CODE_LINE", line.as_str()));
        fields.push(field("CODE_MODULE", record.module()));
        fields.push(field("CODE_FUNCTION", record.function()));
        proof {
            assert(fields@.map_values(|s: String| s@) =~~= journald_record_fields(*record));
        }
        let logger_values = values.iter_single();
        push_kv_fields(&mut fields, &logger_values);
        push_kv_fields(&mut fields, record.values());
        fields
    }
}

} // verus!
