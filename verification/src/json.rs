//! JSON formatting of records: every record is printed as one JSON map.
use vstd::prelude::*;

use crate::key::Key;
use crate::kv::{join_with, OwnedKVList};
use crate::level::{log_level_short_name, Level};
use crate::record::{Record, SingleKV};
use crate::ser::SerError;
use crate::value::{bool_text, bool_to_string, i64_to_decimal, int_decimal, nat_decimal, u64_to_decimal, Value};

verus! {

#[verifier::external_type_specification]
#[verifier::external_body]
pub struct ExJsonError(serde_json::Error);

/// A lowercase hexadecimal digit, for `d < 16`.
pub open spec fn hex_digit(d: int) -> char {
    if d < 10 {
        (48 + d) as char
    } else {
        (87 + d) as char
    }
}

/// How one character stands inside a JSON string literal: quote and
/// backslash behind a backslash; backspace, form feed, line feed, carriage
/// return and tab as `\b`, `\f`, `\n`, `\r`, `\t`; the other control
/// characters below 0x20 as `\u00` and two lowercase hexadecimal digits;
/// every other character as it is.
pub open spec fn json_escape(c: char) -> Seq<char> {
    if c == '"' {
        seq!['\\', '"']
    } else if c == '\\' {
        seq!['\\', '\\']
    } else if c == '\x08' {
        seq!['\\', 'b']
    } else if c == '\x0c' {
        seq!['\\', 'f']
    } else if c == '\n' {
        seq!['\\', 'n']
    } else if c == '\r' {
        seq!['\\', 'r']
    } else if c == '\t' {
        seq!['\\', 't']
    } else if (c as int) < 0x20 {
        seq!['\\', 'u', '0', '0', hex_digit((c as int) / 16), hex_digit((c as int) % 16)]
    } else {
        seq![c]
    }
}

/// The characters of `s`, each as it stands inside a JSON string literal.
pub open spec fn json_escaped(s: Seq<char>) -> Seq<char>
    decreases s.len(),
{
    if s.len() == 0 {
        Seq::empty()
    } else {
        json_escaped(s.drop_last()) + json_escape(s.last())
    }
}

/// The JSON string literal of `s`: its escaped characters in double quotes.
pub open spec fn json_string_literal(s: Seq<char>) -> Seq<char> {
    seq!['"'] + json_escaped(s) + seq!['"']
}

/// Escaping loses no character: every character gives at least one, so a
/// string literal is at least two characters longer than its string, and
/// only the empty string gives the empty literal `""`.
pub proof fn lemma_json_literal_keeps_length(s: Seq<char>)
    ensures
        json_escaped(s).len() >= s.len(),
        json_string_literal(s).len() >= s.len() + 2,
        json_string_literal(s).len() == 2 ==> s.len() == 0,
    decreases s.len(),
{
    if s.len() > 0 {
        lemma_json_literal_keeps_length(s.drop_last());
        assert(json_escape(s.last()).len() >= 1);
    }
}

/// `serde_json::to_string` on a string slice: it writes the slice as a
/// JSON string literal into a vector, which cannot fail.
#[verifier::external_body]
fn json_quote(s: &str) -> (r: Result<String, serde_json::Error>)
    ensures
        r is Ok,
        r matches Ok(t) ==> t@ == json_string_literal(s@),
{
    serde_json::to_string(s)
}

/// The JSON string literal of a string.
pub fn quote(s: &str) -> (r: Result<String, SerError>)
    ensures
        r is Ok,
        r matches Ok(t) ==> t@ == json_string_literal(s@),
{
    match json_quote(s) {
        Ok(t) => Ok(t),
        Err(_) => Err(SerError::Io),
    }
}

/// The JSON text of a value: `null` for `()` and for an absent value,
/// `true`/`false`, decimal numbers, and string literals for characters and
/// strings.
pub open spec fn json_value_text(v: Value) -> Seq<char> {
    match v {
        Value::Unit => "null"@,
        Value::Absent => "null"@,
        Value::Bool(b) => bool_text(b),
        Value::Char(c) => json_string_literal(seq![c]),
        Value::Uint(n) => nat_decimal(n as nat),
        Value::Int(i) => int_decimal(i as int),
        Value::Str(s) => json_string_literal(s@),
    }
}

/// The JSON text of a value.
pub fn value_json(v: &Value) -> (r: Result<String, SerError>)
    ensures
        r is Ok,
        r matches Ok(t) ==> t@ == json_value_text(*v),
{
    match v {
        Value::Unit => {
            proof {
                reveal_strlit("null");
            }
            Ok("null".to_string())
        },
        Value::Absent => {
            proof {
                reveal_strlit("null");
            }
            Ok("null".to_string())
        },
        Value::Bool(b) => Ok(bool_to_string(*b)),
        Value::Char(c) => {
            let mut s = String::new();
            s.push(*c);
            proof {
                assert(s@ =~= seq![*c]);
            }
            quote(s.as_str())
        },
        Value::Uint(n) => Ok(u64_to_decimal(*n)),
        Value::Int(i) => Ok(i64_to_decimal(*i)),
        Value::Str(s) => quote(s.as_str()),
    }
}

/// One entry of a JSON map: the key literal, `:`, and the value text.
pub open spec fn entry_text(key: Seq<char>, value: Seq<char>) -> Seq<char> {
    json_string_literal(key) + ":"@ + value
}

/// A JSON map of the given entries, separated by commas.
pub open spec fn object_text(entries: Seq<Seq<char>>) -> Seq<char> {
    "{"@ + join_with(entries, ","@) + "}"@
}

/// JSON map serializer: collects the entries of one map.
pub struct SerdeSerializer {
    entries: Vec<String>,
}

impl SerdeSerializer {
    /// The texts of the entries written so far, in order.
    pub closed spec fn spec_entries(&self) -> Seq<Seq<char>> {
        self.entries@.map_values(|s: String| s@)
    }

    /// Start serializing a map.
    pub fn start() -> (r: Self)
        ensures
            r.spec_entries() == Seq::<Seq<char>>::empty(),
    {
        let r = SerdeSerializer { entries: Vec::new() };
        proof {
            assert(r.spec_entries() =~= Seq::<Seq<char>>::empty());
        }
        r
    }

    /// Add an entry whose value text is already JSON.
    pub fn emit_json(&mut self, key: &str, value: &str) -> (r: Result<(), SerError>)
        ensures
            r is Ok,
            r is Ok ==> final(self).spec_entries() == old(self).spec_entries().push(
                entry_text(key@, value@),
            ),
            r is Err ==> final(self).spec_entries() == old(self).spec_entries(),
    {
        let k = quote(key);
        match k {
            Ok(k) => {
                let mut entry = k;
                entry.append(":");
                entry.append(value);
                let ghost before = self.entries@;
                self.entries.push(entry);
                proof {
                    assert(self.entries@ == before.push(entry));
                    assert(self.spec_entries() =~= before.map_values(|s: String| s@).push(
                        entry@,
                    ));
                }
                Ok(())
            },
            Err(e) => Err(e),
        }
    }

    /// Serialize one key-value pair.
    pub fn emit(&mut self, key: &str, val: &Value) -> (r: Result<(), SerError>)
        ensures
            r is Ok,
            r is Ok ==> final(self).spec_entries() == old(self).spec_entries().push(
                entry_text(key@, json_value_text(*val)),
            ),
            r is Err ==> final(self).spec_entries() == old(self).spec_entries(),
    {
        match value_json(val) {
            Ok(v) => self.emit_json(key, v.as_str()),
            Err(e) => Err(e),
        }
    }

    /// Serialize every pair, in order, stopping at the first failure.
    pub fn emit_all(&mut self, pairs: &Vec<SingleKV>) -> (r: Result<(), SerError>)
        ensures
            r is Ok,
            r is Ok ==> final(self).spec_entries() == old(self).spec_entries() + pairs@.map_values(
                |e: SingleKV| entry_text(e.0@, json_value_text(e.1)),
            ),
    {
        let ghost start = self.spec_entries();
        let mut i: usize = 0;
        while i < pairs.len()
            invariant
                i <= pairs@.len(),
                self.spec_entries() == start + pairs@.subrange(0, i as int).map_values(
                    |e: SingleKV| entry_text(e.0@, json_value_text(e.1)),
                ),
            decreases pairs@.len() - i,
        {
            let r = self.emit(pairs[i].0.as_str(), &pairs[i].1);
            if r.is_err() {
                return r;
            }
            proof {
                assert(pairs@.subrange(0, i + 1).map_values(
                    |e: SingleKV| entry_text(e.0@, json_value_text(e.1)),
                ) =~= pairs@.subrange(0, i as int).map_values(
                    |e: SingleKV| entry_text(e.0@, json_value_text(e.1)),
                ).push(entry_text(pairs@[i as int].0@, json_value_text(pairs@[i as int].1))));
            }
            i = i + 1;
        }
        proof {
            assert(pairs@.subrange(0, pairs@.len() as int) =~= pairs@);
        }
        Ok(())
    }

    /// Finish the map: its entries separated by commas, in braces.
    pub fn end(self) -> (r: String)
        ensures
            r@ == object_text(self.spec_entries()),
    {
        let ghost parts = self.spec_entries();
        let mut out = String::new();
        out.append("{");
        let mut i: usize = 0;
        while i < self.entries.len()
            invariant
                i <= self.entries@.len(),
                parts == self.spec_entries(),
                out@ == "{"@ + join_with(parts.subrange(0, i as int), ","@),
            decreases self.entries@.len() - i,
        {
            proof {
                assert(parts.subrange(0, i + 1).drop_last() =~= parts.subrange(0, i as int));
                assert(parts[i as int] == self.entries@[i as int]@);
            }
            if i > 0 {
                out.append(",");
            } else {
                proof {
                    assert(parts.subrange(0, 0) =~= Seq::<Seq<char>>::empty());
                }
            }
            out.append(self.entries[i].as_str());
            i = i + 1;
            proof {
                if i == 1 {
                    assert(out@ =~= "{"@ + parts.subrange(0, 1)[0]);
                } else {
                    assert(out@ =~= "{"@ + join_with(parts.subrange(0, i as int), ","@));
                }
            }
        }
        out.append("}");
        proof {
            assert(parts.subrange(0, parts.len() as int) =~= parts);
        }
        out
    }
}

/// The current local time in RFC 3339 form, from `chrono`: a date, `T`, a
/// time and an offset, so never empty. Which time it is depends on the clock
/// and the time zone of the machine, and is not stated.
#[verifier::external_body]
fn local_now_rfc3339() -> (r: String)
    ensures
        r@.len() > 0,
{
    chrono::Local::now().to_rfc3339()
}

/// The current UTC time in RFC 3339 form, from `chrono`: a date, `T`, a
/// time and an offset, so never empty. Which time it is depends on the clock,
/// and is not stated.
#[verifier::external_body]
fn utc_now_rfc3339() -> (r: String)
    ensures
        r@.len() > 0,
{
    chrono::Utc::now().to_rfc3339()
}

/// A value that a JSON format prints with every record.
pub enum FieldValue {
    /// A fixed value
    Static(Value),
    /// The time the record is formatted at, in RFC 3339 form
    Timestamp,
    /// The short name of the record's level
    LevelName,
    /// The Bunyan number of the record's level
    LevelNumber,
    /// The message of the record
    Message,
}

impl Clone for FieldValue {
    fn clone(&self) -> (r: FieldValue)
        ensures
            r == *self,
    {
        match self {
            FieldValue::Static(v) => FieldValue::Static(v.clone()),
            FieldValue::Timestamp => FieldValue::Timestamp,
            FieldValue::LevelName => FieldValue::LevelName,
            FieldValue::LevelNumber => FieldValue::LevelNumber,
            FieldValue::Message => FieldValue::Message,
        }
    }
}

/// A key with the value a JSON format prints under it.
pub struct FieldKV(pub Key, pub FieldValue);

impl Clone for FieldKV {
    fn clone(&self) -> (r: FieldKV)
        ensures
            r == *self,
    {
        FieldKV(self.0.clone(), self.1.clone())
    }
}

impl FieldKV {
    /// A field with the key of the given text.
    pub fn new(key: &str, value: FieldValue) -> (r: FieldKV)
        ensures
            r.0@ == key@,
            r.1 == value,
    {
        FieldKV(Key::from_text(key), value)
    }
}

/// The Bunyan number of a level: 60 for `Critical` down to 10 for `Trace`.
pub open spec fn bunyan_level(level: Level) -> int {
    match level {
        Level::Critical => 60,
        Level::Error => 50,
        Level::Warning => 40,
        Level::Info => 30,
        Level::Debug => 20,
        Level::Trace => 10,
    }
}

/// The Bunyan number of a level.
pub fn level_number(level: Level) -> (r: i8)
    ensures
        r == bunyan_level(level),
{
    match level {
        Level::Critical => 60,
        Level::Error => 50,
        Level::Warning => 40,
        Level::Info => 30,
        Level::Debug => 20,
        Level::Trace => 10,
    }
}

/// The JSON text of a field for a record formatted at time `ts`.
pub open spec fn field_json_text(v: FieldValue, ts: Seq<char>, record: Record) -> Seq<char> {
    match v {
        FieldValue::Static(v) => json_value_text(v),
        FieldValue::Timestamp => json_string_literal(ts),
        FieldValue::LevelName => json_string_literal(log_level_short_name(record.spec_level().index())),
        FieldValue::LevelNumber => int_decimal(bunyan_level(record.spec_level())),
        FieldValue::Message => json_string_literal(record.spec_msg()),
    }
}

/// The JSON text of a field for a record formatted at time `ts`.
pub fn field_json(v: &FieldValue, ts: &str, record: &Record) -> (r: Result<String, SerError>)
    ensures
        r is Ok,
        r matches Ok(t) ==> t@ == field_json_text(*v, ts@, *record),
{
    match v {
        FieldValue::Static(v) => value_json(v),
        FieldValue::Timestamp => quote(ts),
        FieldValue::LevelName => quote(record.level().as_short_str()),
        FieldValue::LevelNumber => Ok(i64_to_decimal(level_number(record.level()) as i64)),
        FieldValue::Message => quote(record.msg()),
    }
}

/// The map entries of the fields of a format.
pub open spec fn field_entries(fields: Seq<FieldKV>, ts: Seq<char>, record: Record) -> Seq<Seq<char>> {
    fields.map_values(|f: FieldKV| entry_text(f.0@, field_json_text(f.1, ts, record)))
}

/// The map entries of key-value pairs.
pub open spec fn pair_entries(pairs: Seq<SingleKV>) -> Seq<Seq<char>> {
    pairs.map_values(|e: SingleKV| entry_text(e.0@, json_value_text(e.1)))
}

/// The JSON text of a record: one map of the format's own fields, then the
/// pairs of the logger context, then the pairs of the record, followed by a
/// newline when `newlines` is set.
pub open spec fn json_record_text(
    fields: Seq<FieldKV>,
    newlines: bool,
    ts: Seq<char>,
    record: Record,
    values: OwnedKVList,
) -> Seq<char> {
    object_text(
        field_entries(fields, ts, record) + pair_entries(values.entries()) + pair_entries(
            record.spec_kv(),
        ),
    ) + if newlines {
        "\n"@
    } else {
        Seq::empty()
    }
}

/// Format a record as JSON at time `ts`.
fn format_record(
    fields: &Vec<FieldKV>,
    newlines: bool,
    ts: &str,
    record: &Record,
    values: &OwnedKVList,
) -> (r: Result<String, SerError>)
    ensures
        r is Ok,
        r matches Ok(t) ==> t@ == json_record_text(fields@, newlines, ts@, *record, *values),
{
    let mut ser = SerdeSerializer::start();
    let mut i: usize = 0;
    while i < fields.len()
        invariant
            i <= fields@.len(),
            ser.spec_entries() == field_entries(fields@.subrange(0, i as int), ts@, *record),
        decreases fields@.len() - i,
    {
        let v = field_json(&fields[i].1, ts, record);
        match v {
            Ok(v) => {
                let r = ser.emit_json(fields[i].0.as_str(), v.as_str());
                if r.is_err() {
                    return Err(SerError::Io);
                }
            },
            Err(e) => {
                return Err(e);
            },
        }
        proof {
            assert(field_entries(fields@.subrange(0, i + 1), ts@, *record) =~= field_entries(
                fields@.subrange(0, i as int),
                ts@,
                *record,
            ).push(entry_text(fields@[i as int].0@, field_json_text(fields@[i as int].1, ts@, *record))));
        }
        i = i + 1;
    }
    proof {
        assert(fields@.subrange(0, fields@.len() as int) =~= fields@);
    }
    let logger_values = values.iter_single();
    let r = ser.emit_all(&logger_values);
    if r.is_err() {
        return Err(SerError::Io);
    }
    let r = ser.emit_all(record.values());
    if r.is_err() {
        return Err(SerError::Io);
    }
    let mut out = ser.end();
    if newlines {
        out.append("\n");
    }
    Ok(out)
}

/// JSON format: every record is printed as one JSON map.
pub struct Format {
    newlines: bool,
    values: Vec<FieldKV>,
}

impl Format {
    /// A newline is written after every record.
    pub closed spec fn spec_newlines(&self) -> bool {
        self.newlines
    }

    /// The format's own fields, printed first in every record.
    pub closed spec fn spec_values(&self) -> Seq<FieldKV> {
        self.values@
    }

    /// Build a JSON format.
    pub fn new() -> (r: FormatBuilder)
        ensures
            r.spec_newlines(),
            r.spec_values() == Seq::<FieldKV>::empty(),
    {
        FormatBuilder::new()
    }

    /// Format a record as formatted at time `ts`.
    pub fn format_at(&self, ts: &str, record: &Record, values: &OwnedKVList) -> (r: Result<
        String,
        SerError,
    >)
        ensures
            r matches Ok(t) ==> t@ == json_record_text(
                self.spec_values(),
                self.spec_newlines(),
                ts@,
                *record,
                *values,
            ),
            r is Ok,
    {
        format_record(&self.values, self.newlines, ts, record, values)
    }

    /// Format a record at the current local time.
    pub fn format(&self, record: &Record, values: &OwnedKVList) -> (r: Result<String, SerError>)
        ensures
            r is Ok,
            exists|ts: Seq<char>|
                {
                    &&& ts.len() > 0
                    &&& (r is Ok ==> r->Ok_0@ == json_record_text(
                        self.spec_values(),
                        self.spec_newlines(),
                        ts,
                        *record,
                        *values,
                    ))
                },
    {
        let ts = local_now_rfc3339();
        let r = self.format_at(ts.as_str(), record, values);
        proof {
            assert(r is Ok ==> r->Ok_0@ == json_record_text(
                self.spec_values(),
                self.spec_newlines(),
                ts@,
                *record,
                *values,
            ));
        }
        r
    }
}

/// Builder of a JSON format.
pub struct FormatBuilder {
    newlines: bool,
    values: Vec<FieldKV>,
}

impl FormatBuilder {
    /// A newline will be written after every record.
    pub closed spec fn spec_newlines(&self) -> bool {
        self.newlines
    }

    /// The fields added so far.
    pub closed spec fn spec_values(&self) -> Seq<FieldKV> {
        self.values@
    }

    /// A builder with newlines and no fields.
    pub fn new() -> (r: Self)
        ensures
            r.spec_newlines(),
            r.spec_values() == Seq::<FieldKV>::empty(),
    {
        FormatBuilder { newlines: true, values: Vec::new() }
    }

    /// Build the format; this consumes the builder.
    pub fn build(self) -> (r: Format)
        ensures
            r.spec_newlines() == self.spec_newlines(),
            r.spec_values() == self.spec_values(),
    {
        Format { values: self.values, newlines: self.newlines }
    }

    /// Set writing a newline after every record.
    pub fn set_newlines(self, enabled: bool) -> (r: Self)
        ensures
            r.spec_newlines() == enabled,
            r.spec_values() == self.spec_values(),
    {
        FormatBuilder { newlines: enabled, values: self.values }
    }

    /// Add fields to be printed with every record, after those added so far.
    pub fn add_key_values(self, values: Vec<FieldKV>) -> (r: Self)
        ensures
            r.spec_newlines() == self.spec_newlines(),
            r.spec_values() == self.spec_values() + values@,
    {
        let mut all = self.values;
        let mut more = values;
        all.append(&mut more);
        FormatBuilder { newlines: self.newlines, values: all }
    }

    /// Add one field to be printed with every record.
    pub fn add_key_value(self, value: FieldKV) -> (r: Self)
        ensures
            r.spec_newlines() == self.spec_newlines(),
            r.spec_values() == self.spec_values().push(value),
    {
        let mut all = self.values;
        all.push(value);
        FormatBuilder { newlines: self.newlines, values: all }
    }

    /// Add the default fields: `ts` (the time), `level` (the short name of
    /// the level) and `msg` (the message).
    pub fn add_default_keys(self) -> (r: Self)
        ensures
            r.spec_newlines() == self.spec_newlines(),
            r.spec_values().len() == self.spec_values().len() + 3int,
            r.spec_values().subrange(0, self.spec_values().len() as int) == self.spec_values(),
            is_default_fields(
                r.spec_values().subrange(
                    self.spec_values().len() as int,
                    self.spec_values().len() + 3int,
                ),
            ),
    {
        let keys = default_keys();
        let r = self.add_key_values(keys);
        proof {
            assert(r.spec_values().subrange(0, self.spec_values().len() as int) =~= self.spec_values());
            assert(r.spec_values().subrange(
                self.spec_values().len() as int,
                self.spec_values().len() + 3int,
            ) =~= keys@);
        }
        r
    }
}

/// `fields` are the default fields: `ts` (the time), `level` (the short
/// level name) and `msg` (the message), in this order.
pub open spec fn is_default_fields(fields: Seq<FieldKV>) -> bool {
    &&& fields.len() == 3
    &&& fields[0].0@ == "ts"@ && fields[0].1 == FieldValue::Timestamp
    &&& fields[1].0@ == "level"@ && fields[1].1 == FieldValue::LevelName
    &&& fields[2].0@ == "msg"@ && fields[2].1 == FieldValue::Message
}

/// The default fields.
pub fn default_keys() -> (r: Vec<FieldKV>)
    ensures
        is_default_fields(r@),
{
    let mut v: Vec<FieldKV> = Vec::new();
    v.push(FieldKV::new("ts", FieldValue::Timestamp));
    v.push(FieldKV::new("level", FieldValue::LevelName));
    v.push(FieldKV::new("msg", FieldValue::Message));
    v
}

/// JSON format with a builder that works in place.
pub struct Json {
    newlines: bool,
    values: Vec<FieldKV>,
}

impl Json {
    /// A newline is written after every record.
    pub closed spec fn spec_newlines(&self) -> bool {
        self.newlines
    }

    /// The format's own fields, printed first in every record.
    pub closed spec fn spec_values(&self) -> Seq<FieldKV> {
        self.values@
    }

    /// New JSON format with the default fields (`ts`, `level`, `msg`),
    /// writing a newline after every record.
    pub fn new() -> (r: Self)
        ensures
            r.spec_newlines(),
            is_default_fields(r.spec_values()),
    {
        Json { newlines: true, values: default_keys() }
    }

    /// Build a JSON format with custom settings.
    pub fn build() -> (r: JsonBuilder)
        ensures
            r.spec_newlines(),
            r.spec_values() == Seq::<FieldKV>::empty(),
    {
        JsonBuilder::new()
    }

    /// New JSON format with the default fields that writes no newline after
    /// a record.
    pub fn new_nonewline() -> (r: Self)
        ensures
            !r.spec_newlines(),
            is_default_fields(r.spec_values()),
    {
        let mut json = Json::new();
        json.newlines = false;
        json
    }

    /// Format a record as formatted at time `ts`.
    pub fn format_at(&self, ts: &str, record: &Record, values: &OwnedKVList) -> (r: Result<
        String,
        SerError,
    >)
        ensures
            r matches Ok(t) ==> t@ == json_record_text(
                self.spec_values(),
                self.spec_newlines(),
                ts@,
                *record,
                *values,
            ),
            r is Ok,
    {
        format_record(&self.values, self.newlines, ts, record, values)
    }

    /// Format a record at the current UTC time.
    pub fn format(&self, record: &Record, values: &OwnedKVList) -> (r: Result<String, SerError>)
        ensures
            r is Ok,
            exists|ts: Seq<char>|
                {
                    &&& ts.len() > 0
                    &&& (r is Ok ==> r->Ok_0@ == json_record_text(
                        self.spec_values(),
                        self.spec_newlines(),
                        ts,
                        *record,
                        *values,
                    ))
                },
    {
        let ts = utc_now_rfc3339();
        let r = self.format_at(ts.as_str(), record, values);
        proof {
            assert(r is Ok ==> r->Ok_0@ == json_record_text(
                self.spec_values(),
                self.spec_newlines(),
                ts@,
                *record,
                *values,
            ));
        }
        r
    }
}

/// Builder of a `Json` format.
pub struct JsonBuilder {
    newlines: bool,
    values: Vec<FieldKV>,
}

impl JsonBuilder {
    /// A newline will be written after every record.
    pub closed spec fn spec_newlines(&self) -> bool {
        self.newlines
    }

    /// The fields added so far.
    pub closed spec fn spec_values(&self) -> Seq<FieldKV> {
        self.values@
    }

    /// A builder with newlines and no fields.
    pub fn new() -> (r: Self)
        ensures
            r.spec_newlines(),
            r.spec_values() == Seq::<FieldKV>::empty(),
    {
        JsonBuilder { newlines: true, values: Vec::new() }
    }

    /// Build the format; this consumes the builder.
    pub fn build(self) -> (r: Json)
        ensures
            r.spec_newlines() == self.spec_newlines(),
            r.spec_values() == self.spec_values(),
    {
        Json { values: self.values, newlines: self.newlines }
    }

    /// Set writing a newline after every record.
    pub fn set_newlines(&mut self, enabled: bool) -> (r: &mut Self)
        ensures
            r.spec_newlines() == enabled,
            r.spec_values() == old(self).spec_values(),
            *final(self) == *final(r),
    {
        self.newlines = enabled;
        self
    }

    /// Add fields to be printed with every record, after those added so far.
    pub fn add_key_values(&mut self, values: &Vec<FieldKV>) -> (r: &mut Self)
        ensures
            r.spec_newlines() == old(self).spec_newlines(),
            r.spec_values() == old(self).spec_values() + values@,
            *final(self) == *final(r),
    {
        let mut i: usize = 0;
        while i < values.len()
            invariant
                i <= values@.len(),
                self.newlines == old(self).spec_newlines(),
                self.values@ == old(self).spec_values() + values@.subrange(0, i as int),
            decreases values@.len() - i,
        {
            let v = values[i].clone();
            self.values.push(v);
            i = i + 1;
            proof {
                assert(self.values@ =~= old(self).spec_values() + values@.subrange(0, i as int));
            }
        }
        proof {
            assert(values@.subrange(0, values@.len() as int) =~= values@);
        }
        self
    }

    /// Add one field to be printed with every record.
    pub fn add_key_value(&mut self, value: FieldKV) -> (r: &mut Self)
        ensures
            r.spec_newlines() == old(self).spec_newlines(),
            r.spec_values() == old(self).spec_values().push(value),
            *final(self) == *final(r),
    {
        self.values.push(value);
        self
    }
}

/// Build a `Format`, starting with no fields.
pub fn new() -> (r: FormatBuilder)
    ensures
        r.spec_newlines(),
        r.spec_values() == Seq::<FieldKV>::empty(),
{
    Format::new()
}

/// The default JSON format: the default fields (`ts`, `level`, `msg`) and a
/// newline after every record.
pub fn default() -> (r: Format)
    ensures
        r.spec_newlines(),
        is_default_fields(r.spec_values()),
{
    let b = Format::new().add_default_keys();
    let r = b.build();
    proof {
        assert(r.spec_values().subrange(0, 3) =~= r.spec_values());
    }
    r
}

/// Build a `Json` format with custom settings.
pub fn build() -> (r: JsonBuilder)
    ensures
        r.spec_newlines(),
        r.spec_values() == Seq::<FieldKV>::empty(),
{
    Json::build()
}

/// More severe levels get higher Bunyan numbers, and distinct levels
/// distinct numbers.
pub proof fn lemma_bunyan_level_order(a: Level, b: Level)
    ensures
        a.at_least(b) <==> bunyan_level(a) >= bunyan_level(b),
        bunyan_level(a) == bunyan_level(b) ==> a == b,
{
}

} // verus!
