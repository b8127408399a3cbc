use std::sync::{Arc, Mutex};

use slog::{
    discard, duplicate, failover, filter, filter_level, level_filter, Drain, DrainExt,
    DuplicateError, Level, Never, OwnedKVGroup, OwnedKVList, Record,
};

/// Drain recording the messages it gets, and failing when told to.
#[derive(Clone)]
struct Collect {
    seen: Arc<Mutex<Vec<String>>>,
    fail: Option<u32>,
}

impl Collect {
    fn new(fail: Option<u32>) -> Self {
        Collect { seen: Arc::new(Mutex::new(Vec::new())), fail }
    }

    fn seen(&self) -> Vec<String> {
        self.seen.lock().unwrap().clone()
    }
}

impl Drain for Collect {
    type Error = u32;

    fn log(&self, record: &Record, _values: &OwnedKVList) -> Result<(), u32> {
        self.seen.lock().unwrap().push(record.msg().to_string());
        match self.fail {
            Some(e) => Err(e),
            None => Ok(()),
        }
    }
}

fn empty() -> OwnedKVList {
    OwnedKVList::root(OwnedKVGroup::empty())
}

#[test]
fn discard_accepts_everything() {
    let d = discard();
    let r: Result<(), Never> = d.log(&Record::with_message(Level::Critical, "m"), &empty());
    assert!(r.is_ok());
}

#[test]
fn level_filter_passes_severe_records() {
    let c = Collect::new(None);
    let f = level_filter(Level::Info, c.clone());
    f.log(&Record::with_message(Level::Critical, "crit"), &empty()).unwrap();
    f.log(&Record::with_message(Level::Info, "info"), &empty()).unwrap();
    f.log(&Record::with_message(Level::Debug, "debug"), &empty()).unwrap();
    f.log(&Record::with_message(Level::Trace, "trace"), &empty()).unwrap();
    assert_eq!(c.seen(), vec!["crit", "info"]);
}

#[test]
fn level_filter_blocked_record_is_ok() {
    let c = Collect::new(Some(7));
    let f = filter_level(Level::Error, c.clone());
    assert_eq!(f.log(&Record::with_message(Level::Warning, "w"), &empty()), Ok(()));
    assert_eq!(f.log(&Record::with_message(Level::Error, "e"), &empty()), Err(7));
    assert_eq!(c.seen(), vec!["e"]);
}

#[test]
fn nested_level_filters() {
    let c = Collect::new(None);
    let f = level_filter(Level::Debug, level_filter(Level::Warning, c.clone()));
    for l in [Level::Critical, Level::Error, Level::Warning, Level::Info, Level::Debug, Level::Trace] {
        f.log(&Record::with_message(l, l.as_str()), &empty()).unwrap();
    }
    assert_eq!(c.seen(), vec!["CRITICAL", "ERROR", "WARN"]);
}

#[test]
fn closure_filter() {
    let c = Collect::new(None);
    let f = filter(|r: &Record| r.msg().starts_with('k'), c.clone());
    f.log(&Record::with_message(Level::Info, "keep"), &empty()).unwrap();
    f.log(&Record::with_message(Level::Info, "drop"), &empty()).unwrap();
    assert_eq!(c.seen(), vec!["keep"]);
}

#[test]
fn duplicate_results() {
    let ok1 = Collect::new(None);
    let ok2 = Collect::new(None);
    let bad1 = Collect::new(Some(1));
    let bad2 = Collect::new(Some(2));
    let rec = Record::with_message(Level::Info, "m");
    assert!(matches!(duplicate(ok1.clone(), ok2.clone()).log(&rec, &empty()), Ok(())));
    assert!(matches!(
        duplicate(bad1.clone(), ok2.clone()).log(&rec, &empty()),
        Err(DuplicateError::First(1))
    ));
    assert!(matches!(
        duplicate(ok1.clone(), bad2.clone()).log(&rec, &empty()),
        Err(DuplicateError::Second(2))
    ));
    assert!(matches!(
        duplicate(bad1.clone(), bad2.clone()).log(&rec, &empty()),
        Err(DuplicateError::Both((1, 2)))
    ));
    assert_eq!(ok1.seen().len(), 2);
    assert_eq!(bad2.seen().len(), 2);
}

#[test]
fn failover_uses_second_on_failure() {
    let primary = Collect::new(Some(3));
    let secondary = Collect::new(None);
    let f = failover(primary.clone(), secondary.clone());
    assert_eq!(f.log(&Record::with_message(Level::Info, "m"), &empty()), Ok(()));
    assert_eq!(primary.seen(), vec!["m"]);
    assert_eq!(secondary.seen(), vec!["m"]);

    let good = Collect::new(None);
    let unused = Collect::new(Some(4));
    let f = failover(good.clone(), unused.clone());
    assert_eq!(f.log(&Record::with_message(Level::Info, "n"), &empty()), Ok(()));
    assert!(unused.seen().is_empty());

    let f = failover(Collect::new(Some(5)), Collect::new(Some(6)));
    assert_eq!(f.log(&Record::with_message(Level::Info, "o"), &empty()), Err(6));
}

#[test]
fn ignore_and_map_errors() {
    let bad = Collect::new(Some(9));
    let ignoring = bad.clone().ignore_err();
    assert!(ignoring.log(&Record::with_message(Level::Info, "m"), &empty()).is_ok());
    assert_eq!(bad.seen(), vec!["m"]);

    let mapped = bad.clone().map_err(|e: u32| e + 1);
    assert_eq!(mapped.log(&Record::with_message(Level::Info, "n"), &empty()), Err(10));
}

#[test]
fn logger_delivers_records() {
    let c = Collect::new(None);
    let log = slog::Logger::root(level_filter(Level::Info, c.clone()), OwnedKVGroup::empty());
    log.info("shown", vec![]);
    log.debug("hidden", vec![]);
    log.critical("also shown", vec![]);
    assert_eq!(c.seen(), vec!["shown", "also shown"]);
}

#[test]
fn boxed_and_shared_drains() {
    let c = Collect::new(Some(8));
    let boxed: Box<Collect> = Box::new(c.clone());
    assert_eq!(boxed.log(&Record::with_message(Level::Info, "b"), &empty()), Err(8));
    let shared: Arc<Collect> = Arc::new(c.clone());
    assert_eq!(shared.log(&Record::with_message(Level::Info, "s"), &empty()), Err(8));
    assert_eq!(c.seen(), vec!["b", "s"]);
}

#[test]
fn group_handles_follow_groups() {
    let root = OwnedKVList::root(OwnedKVGroup::empty());
    let child = OwnedKVList::new(OwnedKVGroup::empty(), &root);
    let handles = child.group_handles();
    assert_eq!(handles.len(), 2);
    assert_eq!(child.group_handles().len(), child.num_groups());
    assert!(Arc::ptr_eq(&handles[1], &root.group_handles()[0]));
}
