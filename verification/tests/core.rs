use std::collections::HashSet;

use slog::level::{level_enabled, MaxLevelFeatures};
use slog::{
    Discard, FilterLevel, Key, Level, Logger, Never, OwnedKVGroup, OwnedKVList, SingleKV, Value,
};

#[test]
fn level_at_least() {
    assert!(Level::Debug.is_at_least(Level::Debug));
    assert!(Level::Debug.is_at_least(Level::Trace));
    assert!(!Level::Debug.is_at_least(Level::Info));
}

#[test]
fn filterlevel_sanity() {
    assert!(Level::Critical.as_usize() > FilterLevel::Off.as_usize());
    assert!(Level::Critical.as_usize() <= FilterLevel::Critical.as_usize());
    assert!(Level::Trace.as_usize() <= FilterLevel::Trace.as_usize());
}

#[test]
#[allow(unreachable_code, unused_variables)]
fn test_never_type_clone() {
    // Only has to compile: a `Never` value can be cloned.
    #[allow(dead_code)]
    fn _do_not_run() {
        let x: Never = panic!("Can't actually construct a Never type here!");
        let y = x.clone();
    }
}

#[test]
fn can_hash_keys() {
    let _tab: HashSet<Key> = ["foo"].iter().map(|&k| k.into()).collect();
}

#[test]
fn test_o_macro_expansion() {
    let _ = Logger::root(
        Discard,
        OwnedKVGroup::new(vec![SingleKV::new("a", Value::Str("aa".to_string()))]),
    );
}

#[test]
fn test_slog_o_macro_expansion() {
    let _ = Logger::root(
        Discard,
        OwnedKVGroup::new(vec![SingleKV::new("a", Value::Str("aa".to_string()))]),
    );
}

#[test]
fn test_key_values() {
    let g = OwnedKVGroup::new(vec![SingleKV::new("a", Value::Str("A".to_string()))]);
    assert_eq!(g.len(), 1);
    let entries = g.to_entries();
    assert_eq!(entries[0].0.as_str(), "a");
}

#[test]
fn test_log() {
    let logger = Logger::root(Discard, OwnedKVGroup::empty());
    logger.log_message(Level::Info, "logger message", vec![]);
    logger.log_message(Level::Info, "42", vec![SingleKV::new("id", Value::Int(42))]);
    logger.trace("message", vec![]);
    logger.debug("message", vec![]);
    logger.info("message", vec![]);
    logger.warn("message", vec![]);
    logger.error("message", vec![]);
    logger.critical("message", vec![]);
}

fn group(keys: &[&str]) -> OwnedKVGroup {
    OwnedKVGroup::new(
        keys.iter()
            .map(|k| SingleKV::new(k, Value::Str("x".to_string())))
            .collect(),
    )
}

#[test]
fn logger_fmt_debug_sanity() {
    let root = Logger::root(Discard, group(&["a"]));
    let log = root.new(group(&["b", "c"]));
    assert_eq!(log.debug_string(), "Logger(c, b, a)");
}

/// Drain checking that the message of every record is the debug text of
/// the logger context it comes with.
struct CheckOwned;

impl slog::Drain for CheckOwned {
    type Error = Never;

    fn log(&self, record: &slog::Record, values: &OwnedKVList) -> Result<(), Never> {
        assert_eq!(record.msg(), values.debug_string());
        Ok(())
    }
}

#[test]
fn multichain() {
    let root = Logger::root(CheckOwned, group(&["a"]));
    let log = root.new(group(&["b1", "b2"]));
    log.info("(b2, b1, a)", vec![]);

    let log = Logger::root(log, group(&["c"]));
    log.info("(c, b2, b1, a)", vec![]);
    let log = Logger::root(log, group(&["d1", "d2"]));
    log.info("(d2, d1, c, b2, b1, a)", vec![]);
}

#[test]
fn level_names() {
    assert_eq!(Level::Critical.as_str(), "CRITICAL");
    assert_eq!(Level::Warning.as_str(), "WARN");
    assert_eq!(Level::Debug.as_short_str(), "DEBG");
    assert_eq!(Level::Trace.as_short_str(), "TRCE");
    assert_eq!(Level::Info.to_display_string(), "INFO");
}

#[test]
fn level_usize_roundtrip() {
    for u in 0..10usize {
        match Level::from_usize(u) {
            Some(l) => assert_eq!(l.as_usize(), u),
            None => assert!(u == 0 || u > 6),
        }
        match FilterLevel::from_usize(u) {
            Some(l) => assert_eq!(l.as_usize(), u),
            None => assert!(u > 6),
        }
    }
    assert_eq!(FilterLevel::max(), FilterLevel::Trace);
    assert_eq!(FilterLevel::min(), FilterLevel::Off);
}

#[test]
fn filter_level_from_str() {
    assert_eq!(FilterLevel::from_str_name("info"), Ok(FilterLevel::Info));
    assert_eq!(FilterLevel::from_str_name("TRACE"), Ok(FilterLevel::Trace));
    assert_eq!(FilterLevel::from_str_name("Off"), Ok(FilterLevel::Off));
    assert_eq!(FilterLevel::from_str_name("warn"), Ok(FilterLevel::Warning));
    assert_eq!(FilterLevel::from_str_name("warning"), Err(()));
    assert_eq!(FilterLevel::from_str_name(""), Err(()));
    assert_eq!("Debug".parse::<FilterLevel>(), Ok(FilterLevel::Debug));
    assert_eq!("CRITICAL".parse::<FilterLevel>(), Ok(FilterLevel::Critical));
    assert_eq!("crit".parse::<FilterLevel>(), Err(()));
}

#[test]
fn static_max_level_choices() {
    let none = MaxLevelFeatures { off: false, error: false, warn: false, info: false, debug: false, trace: false };
    let warn = MaxLevelFeatures { warn: true, trace: true, ..none };
    let off = MaxLevelFeatures { off: true, ..none };
    assert_eq!(slog::level::__slog_static_max_level(true, &none, &none), FilterLevel::Debug);
    assert_eq!(slog::level::__slog_static_max_level(false, &none, &none), FilterLevel::Info);
    assert_eq!(slog::level::__slog_static_max_level(false, &off, &warn), FilterLevel::Off);
    assert_eq!(slog::level::__slog_static_max_level(true, &off, &warn), FilterLevel::Warning);
    assert!(level_enabled(Level::Info, FilterLevel::Info));
    assert!(!level_enabled(Level::Debug, FilterLevel::Info));
    assert!(!level_enabled(Level::Critical, FilterLevel::Off));
}

#[test]
fn key_conversions() {
    let k = Key::from_text("foo");
    assert_eq!(k.as_str(), "foo");
    assert_eq!(k.as_ref(), "foo");
    assert_eq!(k.into_string(), "foo".to_string());
    assert_eq!(k.into_owned(), "foo".to_string());
    assert!(k.eq_str("foo"));
    assert!(!k.eq_str("bar"));
    let k2: Key = String::from("foo").into();
    assert!(k == k2);
    let k3 = Key::from_strings(&vec!["fo".to_string(), "o".to_string()]);
    assert!(k3 == k);
    assert_eq!(Key::default().as_str(), "");
}

#[test]
fn value_texts() {
    assert_eq!(Value::Unit.to_display_string(), "()");
    assert_eq!(Value::Absent.to_display_string(), "None");
    assert_eq!(Value::Bool(true).to_display_string(), "true");
    assert_eq!(Value::Char('x').to_display_string(), "x");
    assert_eq!(Value::Uint(0).to_display_string(), "0");
    assert_eq!(Value::Uint(18446744073709551615).to_display_string(), "18446744073709551615");
    assert_eq!(Value::Int(-9223372036854775808).to_display_string(), "-9223372036854775808");
    assert_eq!(Value::Int(1200).to_display_string(), "1200");
    assert_eq!(Value::Str("s".to_string()).to_display_string(), "s");
    assert!(matches!(Value::from_option(None), Value::Absent));
    assert!(matches!(Value::from_option(Some(Value::Uint(3))), Value::Uint(3)));
}

#[test]
fn kv_list_order() {
    let root = OwnedKVList::root(group(&["k1", "k2"]));
    let child = OwnedKVList::new(group(&["k3", "k4"]), &root);
    let keys: Vec<String> = child.iter_single().iter().map(|e| e.0.as_str().to_string()).collect();
    assert_eq!(keys, vec!["k4", "k3", "k2", "k1"]);
    assert_eq!(child.num_groups(), 2);
    let groups = child.iter_groups();
    assert_eq!(groups.len(), 2);
    assert_eq!(groups[0][0].0.as_str(), "k4");
    assert_eq!(groups[1][1].0.as_str(), "k1");
    let both = child.append(&root);
    assert_eq!(both.debug_string(), "(k4, k3, k2, k1, k2, k1)");
    assert_eq!(OwnedKVList::root(OwnedKVGroup::empty()).debug_string(), "()");
}

#[test]
fn child_logger_context() {
    let root = Logger::root(Discard, group(&["a"]));
    let child = root.new(group(&["b"]));
    let grandchild = child.new(group(&["c", "d"]));
    assert_eq!(grandchild.list().debug_string(), "(d, c, b, a)");
    assert_eq!(root.clone().debug_string(), "Logger(a)");
}

#[test]
fn key_as_ref_str() {
    fn text<T: AsRef<str>>(t: &T) -> String {
        t.as_ref().to_string()
    }
    assert_eq!(text(&Key::from_text("k")), "k");
}
