use std::cell::RefCell;

use slog::bunyan;
use slog::json::{self, FieldKV, FieldValue, Json};
use slog::record_info::RecordInfo;
use slog::scope::ScopeStack;
use slog::ser::{arg_string, AsFmtSerializer, AsStrSerializer, SerError};
use slog::stdlog::{log_record, log_to_slog_level, slog_to_log_level, LogLevel};
use slog::{
    Discard, Level, Logger, OwnedKVGroup, OwnedKVList, Record, RecordStatic, SerdeSerializer,
    SingleKV, Value,
};

fn empty() -> OwnedKVList {
    OwnedKVList::root(OwnedKVGroup::empty())
}

fn bunyan_record() -> Record {
    Record::new(
        RecordStatic {
            level: Level::Info,
            file: "filepath".to_string(),
            line: 11192,
            column: 0,
            function: "".to_string(),
            module: "modulepath".to_string(),
            target: "target".to_string(),
        },
        "message".to_string(),
        vec![],
    )
}

#[test]
fn trivial() {
    let format = bunyan::new().build();
    let text = format
        .format_at("2014-07-08T09:10:11+00:00", &bunyan_record(), &empty())
        .unwrap();
    assert_eq!(
        text,
        "{\"pid\":".to_string()
            + &nix::unistd::getpid().to_string()
            + ",\"host\":\""
            + &bunyan::get_hostname()
            + "\",\"time\":\"2014-07-08T09:10:11+00:00\",\"level\":30,\"name\":\"slog-rs\",\
               \"v\":0,\"msg\":\"message\"}\n"
    );
}

#[test]
fn bunyan_with_process() {
    let format = bunyan::new_with_process(77, "box".to_string()).set_newlines(false).build();
    let rec = Record::with_message(Level::Critical, "down");
    assert_eq!(
        format.format_at("T", &rec, &empty()).unwrap(),
        "{\"pid\":77,\"host\":\"box\",\"time\":\"T\",\"level\":60,\"name\":\"slog-rs\",\"v\":0,\"msg\":\"down\"}"
    );
    assert_eq!(json::level_number(Level::Trace), 10);
    assert_eq!(bunyan::hostname_or_default(None), "n/a");
    assert_eq!(bunyan::hostname_or_default(Some("h".to_string())), "h");
}

#[test]
fn json_default_format() {
    let format = json::default();
    let list = OwnedKVList::root(OwnedKVGroup::new(vec![SingleKV::new("build-id", Value::Str("8dfljdf".to_string()))]));
    let rec = Record::new(
        RecordStatic {
            level: Level::Warning,
            file: String::new(),
            line: 0,
            column: 0,
            function: String::new(),
            module: String::new(),
            target: String::new(),
        },
        "say \"hi\"".to_string(),
        vec![
            SingleKV::new("n", Value::Int(-5)),
            SingleKV::new("ok", Value::Bool(false)),
            SingleKV::new("none", Value::Absent),
            SingleKV::new("c", Value::Char('\n')),
        ],
    );
    assert_eq!(
        format.format_at("TS", &rec, &list).unwrap(),
        "{\"ts\":\"TS\",\"level\":\"WARN\",\"msg\":\"say \\\"hi\\\"\",\"build-id\":\"8dfljdf\",\
         \"n\":-5,\"ok\":false,\"none\":null,\"c\":\"\\n\"}\n"
    );
}

#[test]
fn json_builders() {
    let plain = json::new().build();
    assert_eq!(plain.format_at("T", &Record::with_message(Level::Info, "m"), &empty()).unwrap(), "{}\n");

    let custom = json::new()
        .add_key_value(FieldKV::new("app", FieldValue::Static(Value::Str("x".to_string()))))
        .add_key_values(vec![FieldKV::new("lvl", FieldValue::LevelName), FieldKV::new("u", FieldValue::Static(Value::Unit))])
        .set_newlines(false)
        .build();
    assert_eq!(
        custom.format_at("T", &Record::with_message(Level::Debug, "m"), &empty()).unwrap(),
        "{\"app\":\"x\",\"lvl\":\"DEBG\",\"u\":null}"
    );

    let j = Json::new_nonewline();
    assert_eq!(
        j.format_at("T", &Record::with_message(Level::Error, "e"), &empty()).unwrap(),
        "{\"ts\":\"T\",\"level\":\"ERRO\",\"msg\":\"e\"}"
    );
    let mut b = json::build();
    b.set_newlines(false).add_key_value(FieldKV::new("m", FieldValue::Message));
    b.add_key_values(&vec![FieldKV::new("v", FieldValue::Static(Value::Uint(1)))]);
    let j = b.build();
    assert_eq!(
        j.format_at("T", &Record::with_message(Level::Error, "e"), &empty()).unwrap(),
        "{\"m\":\"e\",\"v\":1}"
    );
    assert!(Json::new().format(&Record::with_message(Level::Info, "now"), &empty()).is_ok());
}

#[test]
fn json_values_and_map() {
    assert_eq!(json::quote("a\"b\\c").unwrap(), "\"a\\\"b\\\\c\"");
    assert_eq!(json::value_json(&Value::Uint(7)).unwrap(), "7");
    assert_eq!(json::value_json(&Value::Unit).unwrap(), "null");
    assert_eq!(json::value_json(&Value::Bool(true)).unwrap(), "true");
    let mut ser = SerdeSerializer::start();
    ser.emit("a", &Value::Int(1)).unwrap();
    ser.emit_json("b", "[1,2]").unwrap();
    assert_eq!(ser.end(), "{\"a\":1,\"b\":[1,2]}");
    assert_eq!(SerdeSerializer::start().end(), "{}");
}

#[test]
fn text_serializers() {
    let seen: RefCell<Vec<(String, String)>> = RefCell::new(Vec::new());
    let push = |k: &str, t: &str| -> Result<(), SerError> {
        seen.borrow_mut().push((k.to_string(), t.to_string()));
        Ok(())
    };
    let s = AsFmtSerializer(push);
    s.emit("u", &Value::Unit).unwrap();
    s.emit("n", &Value::Absent).unwrap();
    s.emit("i", &Value::Int(-1)).unwrap();
    let t = AsStrSerializer(|_k: &str, t: &str| -> Result<(), SerError> {
        if t == "bad" {
            Err(SerError::Other)
        } else {
            Ok(())
        }
    });
    assert_eq!(t.emit("k", &Value::Str("bad".to_string())), Err(SerError::Other));
    assert_eq!(t.emit("k", &Value::Str("good".to_string())), Ok(()));
    assert_eq!(
        seen.into_inner(),
        vec![
            ("u".to_string(), "()".to_string()),
            ("n".to_string(), "".to_string()),
            ("i".to_string(), "-1".to_string())
        ]
    );
    assert_eq!(arg_string(&Value::Char('z')), "z");
}

#[test]
fn scope_stack_nesting() {
    let global = Logger::root(Discard, OwnedKVGroup::new(vec![SingleKV::new("g", Value::Unit)]));
    let mut scopes: ScopeStack<Discard> = ScopeStack::new();
    assert_eq!(scopes.current(&global).debug_string(), "Logger(g)");
    let inner = global.new(OwnedKVGroup::new(vec![SingleKV::new("scope", Value::Uint(1))]));
    scopes.push(inner);
    assert_eq!(scopes.depth(), 1);
    assert_eq!(scopes.current(&global).debug_string(), "Logger(scope, g)");
    let popped = scopes.pop();
    assert_eq!(popped.debug_string(), "Logger(scope, g)");
    assert_eq!(scopes.depth(), 0);
    assert_eq!(scopes.current(&global).debug_string(), "Logger(g)");
}

#[test]
fn stdlog_adapter() {
    assert_eq!(log_to_slog_level(LogLevel::Warn), Level::Warning);
    assert_eq!(log_to_slog_level(LogLevel::Trace), Level::Trace);
    assert_eq!(log_to_slog_level(LogLevel::Error), Level::Error);
    assert_eq!(slog_to_log_level(Level::Critical), LogLevel::Error);
    assert_eq!(slog_to_log_level(Level::Warning), LogLevel::Warn);
    assert_eq!(log_to_slog_level(slog_to_log_level(Level::Debug)), Level::Debug);
    let r = log_record(LogLevel::Info, "legacy", "lib.rs", 3, "my::module");
    assert_eq!(r.level(), Level::Info);
    assert_eq!(r.msg(), "legacy");
    assert_eq!(r.file(), "lib.rs");
    assert_eq!(r.line(), 3);
    assert_eq!(r.module(), "my::module");
    assert!(r.values().is_empty());
}

#[test]
fn record_info_timestamp_is_stable() {
    let mut info = RecordInfo::new(Level::Info, "m");
    let t1 = info.ts();
    let t2 = info.ts();
    assert_eq!(t1, t2);
    let fixed = slog::record_info::Timestamp { secs: 1, nanos: 2 };
    info.set_ts(fixed);
    assert_eq!(info.ts(), fixed);
    assert_eq!(info.msg(), "m");
    assert_eq!(info.level(), Level::Info);
}

#[test]
fn json_string_escapes() {
    assert_eq!(json::quote("\u{1}\t\r\u{8}\u{c}\u{1f}é/").unwrap(), "\"\\u0001\\t\\r\\b\\f\\u001fé/\"");
    assert_eq!(json::quote("").unwrap(), "\"\"");
    assert_eq!(json::value_json(&Value::Char('"')).unwrap(), "\"\\\"\"");
}

#[test]
fn json_format_now_succeeds() {
    let text = Json::new().format(&Record::with_message(Level::Info, "m"), &empty()).unwrap();
    assert!(text.starts_with("{\"ts\":\""));
    assert!(text.contains("+00:00\",\"level\":\"INFO\",\"msg\":\"m\"}"));
}
