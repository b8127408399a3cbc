use slog::decorator::severity_to_color;
use slog::syslog::Facility;
use slog::term::{color_format, print_indent, should_print};
use slog::{
    sanitize_key, streamer, unix_3164, ColorDecorator, ColorRecordDecorator, Decorator,
    Format3164, FormatMode, JournaldDrain, Level, OwnedKVGroup, OwnedKVList, Record,
    RecordDecorator, RecordStatic, Severity, SingleKV, StreamerBuilder, TermFormat, Value, KSV,
};

fn kv(k: &str, v: Value) -> SingleKV {
    SingleKV::new(k, v)
}

fn record(level: Level, msg: &str, values: Vec<SingleKV>) -> Record {
    Record::new(
        RecordStatic {
            level,
            file: "src/main.rs".to_string(),
            line: 42,
            column: 7,
            function: "main".to_string(),
            module: "app::main".to_string(),
            target: "app".to_string(),
        },
        msg.to_string(),
        values,
    )
}

fn context() -> OwnedKVList {
    let root = OwnedKVList::root(OwnedKVGroup::new(vec![kv("a", Value::Uint(1))]));
    OwnedKVList::new(OwnedKVGroup::new(vec![kv("b", Value::Bool(true))]), &root)
}

#[test]
fn ansi_decorations() {
    let colored = ColorRecordDecorator { level_color: Some(2), bold: true };
    assert_eq!(colored.fmt_level("INFO "), "\x1b[38;5;2mINFO \x1b[0m");
    assert_eq!(colored.fmt_msg("hello"), "\x1b[1mhello\x1b[0m");
    assert_eq!(colored.fmt_key("k"), "\x1b[1mk\x1b[0m");
    assert_eq!(colored.fmt_separator(": "), ": ");
    let red = ColorRecordDecorator { level_color: Some(9), bold: false };
    assert_eq!(red.fmt_level("ERRO "), "\x1b[38;5;9mERRO \x1b[0m");
    assert_eq!(red.fmt_msg("hello"), "hello");
    let plain = ColorRecordDecorator { level_color: None, bold: false };
    assert_eq!(plain.fmt_level("INFO "), "INFO ");
}

#[test]
fn color_decorators() {
    let rec = record(Level::Warning, "m", vec![]);
    let d = ColorDecorator::new_colored().decorate(&rec);
    assert_eq!(d.level_color, Some(3));
    assert!(d.bold);
    let p = ColorDecorator::new_plain().decorate(&rec);
    assert_eq!(p.level_color, None);
    assert!(!p.bold);
    assert_eq!(severity_to_color(Level::Critical), 1);
    assert_eq!(severity_to_color(Level::Error), 9);
    assert_eq!(severity_to_color(Level::Trace), 4);
}

#[test]
fn term_full_format_plain() {
    let f = color_format(FormatMode::Full, false);
    let rec = record(Level::Info, "started", vec![kv("port", Value::Uint(8080))]);
    assert_eq!(
        f.format_full("Jan 01 00:00:00.000", &rec, &context()),
        "Jan 01 00:00:00.000 INFO started, b: true, a: 1, port: 8080\n"
    );
}

#[test]
fn term_full_format_colored() {
    let f = color_format(FormatMode::Full, true);
    let rec = record(Level::Error, "boom", vec![]);
    let list = OwnedKVList::root(OwnedKVGroup::new(vec![kv("x", Value::Unit)]));
    assert_eq!(
        f.format_full("T", &rec, &list),
        "T \x1b[38;5;9mERRO \x1b[0m\x1b[1mboom\x1b[0m, \x1b[1mx\x1b[0m: ()\n"
    );
}

#[test]
fn term_compact_prints_context_once() {
    let mut f = TermFormat::new(FormatMode::Compact, ColorDecorator::new_plain());
    let list = context();
    let addresses = vec![200usize, 100usize];
    let first = f.format_compact("T1", &record(Level::Info, "one", vec![]), &list, &addresses);
    assert_eq!(first, "a: 1\n  b: true\n    T1 INFO one\n");
    let second = f.format_compact(
        "T2",
        &record(Level::Debug, "two", vec![kv("k", Value::Char('c'))]),
        &list,
        &addresses,
    );
    assert_eq!(second, "    T2 DEBG two, k: c\n");
    let other = vec![300usize, 100usize];
    let third = f.format_compact("T3", &record(Level::Info, "three", vec![]), &list, &other);
    assert_eq!(third, "  b: true\n    T3 INFO three\n");
}

#[test]
fn term_format_at_dispatches_on_mode() {
    let list = context();
    let addresses = vec![2usize, 1usize];
    let mut full = TermFormat::new(FormatMode::Full, ColorDecorator::new_plain());
    assert_eq!(
        full.format_at("T", &record(Level::Info, "m", vec![]), &list, &addresses),
        "T INFO m, b: true, a: 1\n"
    );
    let mut compact = TermFormat::new(FormatMode::Compact, ColorDecorator::new_plain());
    assert_eq!(
        compact.format_at("T", &record(Level::Info, "m", vec![]), &list, &addresses),
        "a: 1\n  b: true\n    T INFO m\n"
    );
}

#[test]
fn compact_crate_format() {
    let mut f = slog::compact::Format::new();
    let list = context();
    let addresses = vec![20usize, 10usize];
    assert_eq!(
        f.format_at("T", &record(Level::Trace, "x", vec![]), &list, &addresses),
        "a: 1\n  b: true\n    T TRCE x\n"
    );
    assert_eq!(
        f.format_at("U", &record(Level::Trace, "y", vec![]), &list, &addresses),
        "    U TRCE y\n"
    );
}

#[test]
fn should_print_history() {
    let mut h: Vec<usize> = Vec::new();
    assert!(should_print(&mut h, 5, 0));
    assert!(!should_print(&mut h, 5, 0));
    assert!(should_print(&mut h, 6, 0));
    assert!(should_print(&mut h, 7, 1));
    assert_eq!(h, vec![6, 7]);
    assert_eq!(print_indent(3), "      ");
    assert_eq!(print_indent(0), "");
}

#[test]
fn streamer_builder_settings() {
    let c = streamer().config(true, false);
    assert!(c.use_color);
    assert!(c.stdout);
    assert!(!c.async_mode);
    assert!(c.compact);
    let c = StreamerBuilder::new().stderr().full().async_mode().config(true, false);
    assert!(!c.use_color);
    assert!(!c.stdout);
    assert!(c.async_mode);
    assert!(!c.compact);
    let c = streamer().plain().config(true, true);
    assert!(!c.use_color);
    let c = streamer().stderr().color().sync().compact().stdout().auto_color().config(false, true);
    assert!(!c.use_color);
    assert!(c.stdout);
    let c = streamer().color().build_config();
    assert!(c.use_color);
}

#[test]
fn syslog_ksv_format() {
    let rec = record(Level::Warning, "m", vec![kv("k", Value::Str("v".to_string())), kv("u", Value::Unit)]);
    assert_eq!(Format3164::new().format(&rec, &context()), "b=true a=1 k=v u ");
    let s = unix_3164(Facility::LOG_USER);
    assert_eq!(s.facility(), Facility::LOG_USER);
    let msg = s.message(&rec, &context());
    assert_eq!(msg.severity, Severity::Warning);
    assert_eq!(msg.severity.code(), 4);
    assert_eq!(msg.text, "b=true a=1 k=v u ");
    let mut ksv = KSV::new(" -> ");
    ksv.emit(&kv("n", Value::Absent));
    ksv.write_str(";");
    assert_eq!(ksv.io(), "n -> None;");
}

#[test]
fn syslog_severities() {
    assert_eq!(slog::level_to_severity(Level::Critical), Severity::Critical);
    assert_eq!(slog::level_to_severity(Level::Info), Severity::Notice);
    assert_eq!(slog::level_to_severity(Level::Debug), Severity::Info);
    assert_eq!(slog::level_to_severity(Level::Trace).code(), 7);
}

#[test]
fn journald_keys() {
    assert_eq!(sanitize_key("foo-bar_baz"), "FOOBAR_BAZ");
    assert_eq!(sanitize_key("_x"), "X");
    assert_eq!(sanitize_key("__a_b"), "A_B");
    assert_eq!(sanitize_key("Build9"), "BUILD9");
    assert_eq!(sanitize_key("żółw"), "W");
    assert_eq!(sanitize_key(""), "");
    let once = sanitize_key("a.b-c_d");
    assert_eq!(sanitize_key(&once), once);
}

#[test]
fn journald_fields() {
    let rec = record(Level::Info, "hello", vec![kv("user-id", Value::Int(-3))]);
    let list = OwnedKVList::root(OwnedKVGroup::new(vec![kv("build_di", Value::Str("12344".to_string())), kv("u", Value::Unit)]));
    let fields = JournaldDrain.fields(&rec, &list);
    assert_eq!(
        fields,
        vec![
            "PRIORITY=5",
            "MESSAGE=hello",
            "CODE_FILE=src/main.rs",
            "CODE_LINE=42",
            "CODE_MODULE=app::main",
            "CODE_FUNCTION=main",
            "U=",
            "BUILD_DI=12344",
            "USERID=-3",
        ]
    );
    assert_eq!(slog::journald::level_to_priority(Level::Critical), 2);
    assert_eq!(slog::journald::level_to_priority(Level::Trace), 7);
}
