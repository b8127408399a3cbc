//! Logging levels and logging filter levels.
use vstd::prelude::*;

verus! {

/// Log record level.
///
/// `Critical` is the most severe level, `Trace` the least.
#[derive(Copy, Clone, Debug, PartialEq, Eq, Structural, PartialOrd, Ord, Hash)]
pub enum Level {
    /// Critical
    Critical,
    /// Error
    Error,
    /// Warning
    Warning,
    /// Info
    Info,
    /// Debug
    Debug,
    /// Trace
    Trace,
}

/// Logging filtering level.
#[derive(Copy, Clone, Debug, PartialEq, Eq, Structural, PartialOrd, Ord, Hash)]
pub enum FilterLevel {
    /// Log nothing
    Off,
    /// Log critical level only
    Critical,
    /// Log only error level and above
    Error,
    /// Log only warning level and above
    Warning,
    /// Log only info level and above
    Info,
    /// Log only debug level and above
    Debug,
    /// Log everything
    Trace,
}

/// The official capitalized level names, in order of `as_usize()`:
/// `OFF`, `CRITICAL`, `ERROR`, `WARN`, `INFO`, `DEBUG`, `TRACE`.
pub open spec fn log_level_name(i: nat) -> Seq<char> {
    if i == 0 {
        "OFF"@
    } else if i == 1 {
        "CRITICAL"@
    } else if i == 2 {
        "ERROR"@
    } else if i == 3 {
        "WARN"@
    } else if i == 4 {
        "INFO"@
    } else if i == 5 {
        "DEBUG"@
    } else {
        "TRACE"@
    }
}

/// The official capitalized short level names, in order of `as_usize()`:
/// `OFF`, `CRIT`, `ERRO`, `WARN`, `INFO`, `DEBG`, `TRCE`.
pub open spec fn log_level_short_name(i: nat) -> Seq<char> {
    if i == 0 {
        "OFF"@
    } else if i == 1 {
        "CRIT"@
    } else if i == 2 {
        "ERRO"@
    } else if i == 3 {
        "WARN"@
    } else if i == 4 {
        "INFO"@
    } else if i == 5 {
        "DEBG"@
    } else {
        "TRCE"@
    }
}

/// ASCII lower-casing of one character; other characters are unchanged.
pub open spec fn ascii_lower(c: char) -> char {
    if 'A' <= c && c <= 'Z' {
        ((c as int) + 32) as char
    } else {
        c
    }
}

/// Two strings are equal when ASCII letters are compared without regard to case.
pub open spec fn eq_ignore_ascii_case_spec(a: Seq<char>, b: Seq<char>) -> bool {
    &&& a.len() == b.len()
    &&& forall|i: int| 0 <= i < a.len() ==> ascii_lower(#[trigger] a[i]) == ascii_lower(b[i])
}

impl Level {
    /// The ordering integer of a level: `Critical` is 1, `Trace` is 6.
    pub open spec fn index(self) -> nat {
        match self {
            Level::Critical => 1,
            Level::Error => 2,
            Level::Warning => 3,
            Level::Info => 4,
            Level::Debug => 5,
            Level::Trace => 6,
        }
    }

    /// The level whose ordering integer is `u`, if any.
    pub open spec fn from_index(u: int) -> Option<Level> {
        if u == 1 {
            Some(Level::Critical)
        } else if u == 2 {
            Some(Level::Error)
        } else if u == 3 {
            Some(Level::Warning)
        } else if u == 4 {
            Some(Level::Info)
        } else if u == 5 {
            Some(Level::Debug)
        } else if u == 6 {
            Some(Level::Trace)
        } else {
            None
        }
    }

    /// `self` is at least as severe as `other`.
    pub open spec fn at_least(self, other: Level) -> bool {
        self.index() <= other.index()
    }

    /// Convert to the short name from the official short names list.
    pub fn as_short_str(&self) -> (r: &'static str)
        ensures
            r@ == log_level_short_name(self.index()),
    {
        match self {
            Level::Critical => "CRIT",
            Level::Error => "ERRO",
            Level::Warning => "WARN",
            Level::Info => "INFO",
            Level::Debug => "DEBG",
            Level::Trace => "TRCE",
        }
    }

    /// Convert to the name from the official names list.
    pub fn as_str(&self) -> (r: &'static str)
        ensures
            r@ == log_level_name(self.index()),
    {
        match self {
            Level::Critical => "CRITICAL",
            Level::Error => "ERROR",
            Level::Warning => "WARN",
            Level::Info => "INFO",
            Level::Debug => "DEBUG",
            Level::Trace => "TRACE",
        }
    }

    /// Cast `Level` to its ordering integer.
    ///
    /// `Critical` is the smallest and `Trace` the biggest value.
    pub fn as_usize(&self) -> (r: usize)
        ensures
            r == self.index(),
    {
        match self {
            Level::Critical => 1,
            Level::Error => 2,
            Level::Warning => 3,
            Level::Info => 4,
            Level::Debug => 5,
            Level::Trace => 6,
        }
    }

    /// Get a `Level` from a `usize`; complements `as_usize`.
    pub fn from_usize(u: usize) -> (r: Option<Level>)
        ensures
            r == Level::from_index(u as int),
    {
        match u {
            1 => Some(Level::Critical),
            2 => Some(Level::Error),
            3 => Some(Level::Warning),
            4 => Some(Level::Info),
            5 => Some(Level::Debug),
            6 => Some(Level::Trace),
            _ => None,
        }
    }

    /// Returns true if `self` is at least `level` logging level.
    pub fn is_at_least(&self, level: Level) -> (r: bool)
        ensures
            r == self.at_least(level),
    {
        self.as_usize() <= level.as_usize()
    }

    /// The text a `Level` displays as: its short name.
    pub fn to_display_string(&self) -> (r: String)
        ensures
            r@ == log_level_short_name(self.index()),
    {
        self.as_short_str().to_string()
    }
}

impl FilterLevel {
    /// The ordering integer of a filter level: `Off` is 0, `Trace` is 6.
    pub open spec fn index(self) -> nat {
        match self {
            FilterLevel::Off => 0,
            FilterLevel::Critical => 1,
            FilterLevel::Error => 2,
            FilterLevel::Warning => 3,
            FilterLevel::Info => 4,
            FilterLevel::Debug => 5,
            FilterLevel::Trace => 6,
        }
    }

    /// The filter level whose ordering integer is `u`, if any.
    pub open spec fn from_index(u: int) -> Option<FilterLevel> {
        if u == 0 {
            Some(FilterLevel::Off)
        } else if u == 1 {
            Some(FilterLevel::Critical)
        } else if u == 2 {
            Some(FilterLevel::Error)
        } else if u == 3 {
            Some(FilterLevel::Warning)
        } else if u == 4 {
            Some(FilterLevel::Info)
        } else if u == 5 {
            Some(FilterLevel::Debug)
        } else if u == 6 {
            Some(FilterLevel::Trace)
        } else {
            None
        }
    }

    /// Convert to a `usize` value: `Off` is 0, and `Trace` 6.
    pub fn as_usize(&self) -> (r: usize)
        ensures
            r == self.index(),
    {
        match self {
            FilterLevel::Off => 0,
            FilterLevel::Critical => 1,
            FilterLevel::Error => 2,
            FilterLevel::Warning => 3,
            FilterLevel::Info => 4,
            FilterLevel::Debug => 5,
            FilterLevel::Trace => 6,
        }
    }

    /// Get a `FilterLevel` from a `usize`; complements `as_usize`.
    pub fn from_usize(u: usize) -> (r: Option<FilterLevel>)
        ensures
            r == FilterLevel::from_index(u as int),
    {
        match u {
            0 => Some(FilterLevel::Off),
            1 => Some(FilterLevel::Critical),
            2 => Some(FilterLevel::Error),
            3 => Some(FilterLevel::Warning),
            4 => Some(FilterLevel::Info),
            5 => Some(FilterLevel::Debug),
            6 => Some(FilterLevel::Trace),
            _ => None,
        }
    }

    /// Maximum logging level (log everything).
    pub fn max() -> (r: Self)
        ensures
            r == FilterLevel::Trace,
    {
        FilterLevel::Trace
    }

    /// Minimum logging level (log nothing).
    pub fn min() -> (r: Self)
        ensures
            r == FilterLevel::Off,
    {
        FilterLevel::Off
    }

    /// Parse a filter level from its name (`"off"`, `"Info"`, `"TRACE"`, ...),
    /// ignoring ASCII case; `Err(())` when the text names no level.
    pub fn from_str_name(level: &str) -> (r: Result<FilterLevel, ()>)
        ensures
            (exists|i: nat| i <= 6 && eq_ignore_ascii_case_spec(log_level_name(i), level@))
                <==> r is Ok,
            r is Ok ==> eq_ignore_ascii_case_spec(log_level_name(r->Ok_0.index()), level@),
            forall|g: FilterLevel|
                eq_ignore_ascii_case_spec(log_level_name(#[trigger] g.index()), level@) ==> r == Ok::<
                    FilterLevel,
                    (),
                >(g),
    {
        let names: [&str; 7] = ["OFF", "CRITICAL", "ERROR", "WARN", "INFO", "DEBUG", "TRACE"];
        proof {
            reveal_strlit("OFF");
            reveal_strlit("CRITICAL");
            reveal_strlit("ERROR");
            reveal_strlit("WARN");
            reveal_strlit("INFO");
            reveal_strlit("DEBUG");
            reveal_strlit("TRACE");
        }
        let mut p: usize = 0;
        while p < 7
            invariant
                p <= 7,
                forall|j: int| 0 <= j < 7 ==> (#[trigger] names@[j])@ == log_level_name(j as nat),
                forall|j: nat| j < p ==> !eq_ignore_ascii_case_spec(log_level_name(j), level@),
            decreases 7 - p,
        {
            if eq_ignore_ascii_case(names[p], level) {
                let r = FilterLevel::from_usize(p);
                let f = r.unwrap();
                proof {
                    assert forall|g: FilterLevel|
                        eq_ignore_ascii_case_spec(
                            log_level_name(#[trigger] g.index()),
                            level@,
                        ) implies f == g by {
                        lemma_same_name_same_index(f.index(), g.index(), level@);
                    }
                }
                return Ok(f);
            }
            p = p + 1;
        }
        Err(())
    }
}

impl std::str::FromStr for FilterLevel {
    type Err = ();

    /// Parse a filter level from its name, ignoring ASCII case.
    fn from_str(level: &str) -> (r: Result<FilterLevel, ()>)
        ensures
            (exists|i: nat| i <= 6 && eq_ignore_ascii_case_spec(log_level_name(i), level@))
                <==> r is Ok,
            r is Ok ==> eq_ignore_ascii_case_spec(log_level_name(r->Ok_0.index()), level@),
            forall|g: FilterLevel|
                eq_ignore_ascii_case_spec(log_level_name(#[trigger] g.index()), level@) ==> r == Ok::<
                    FilterLevel,
                    (),
                >(g),
    {
        FilterLevel::from_str_name(level)
    }
}

/// Compare two strings without regard to ASCII case.
pub fn eq_ignore_ascii_case(a: &str, b: &str) -> (r: bool)
    ensures
        r == eq_ignore_ascii_case_spec(a@, b@),
{
    let n = a.unicode_len();
    let m = b.unicode_len();
    if n != m {
        return false;
    }
    let mut i: usize = 0;
    while i < n
        invariant
            n == a@.len(),
            m == b@.len(),
            n == m,
            i <= n,
            forall|j: int| 0 <= j < i ==> ascii_lower(#[trigger] a@[j]) == ascii_lower(b@[j]),
        decreases n - i,
    {
        let ca = to_ascii_lower(a.get_char(i));
        let cb = to_ascii_lower(b.get_char(i));
        if ca != cb {
            return false;
        }
        i = i + 1;
    }
    true
}

/// ASCII lower-casing of one character.
pub fn to_ascii_lower(c: char) -> (r: char)
    ensures
        r == ascii_lower(c),
{
    if 'A' <= c && c <= 'Z' {
        let b: u8 = c as u8;
        (b + 32) as char
    } else {
        c
    }
}

/// Ordering integers of levels and of filter levels: `Level::Critical` is
/// above `FilterLevel::Off`, and each level is at most its namesake filter level.
pub proof fn lemma_level_vs_filter_level(l: Level)
    ensures
        l.index() > FilterLevel::Off.index(),
        l.index() <= FilterLevel::Trace.index(),
        Level::Critical.index() <= FilterLevel::Critical.index(),
{
}

/// `from_usize` undoes `as_usize`, and `as_usize` undoes a successful `from_usize`.
pub proof fn lemma_level_usize_roundtrip(l: Level, u: int)
    ensures
        Level::from_index(l.index() as int) == Some(l),
        Level::from_index(u) is Some ==> Level::from_index(u)->Some_0.index() == u,
        Level::from_index(u) is Some <==> 1 <= u <= 6,
{
}

/// `from_usize` undoes `as_usize` for filter levels, and the other way round.
pub proof fn lemma_filter_level_usize_roundtrip(f: FilterLevel, u: int)
    ensures
        FilterLevel::from_index(f.index() as int) == Some(f),
        FilterLevel::from_index(u) is Some ==> FilterLevel::from_index(u)->Some_0.index() == u,
        FilterLevel::from_index(u) is Some <==> 0 <= u <= 6,
{
}

/// `is_at_least` is a total preorder on levels, and antisymmetric.
pub proof fn lemma_at_least_total_order(a: Level, b: Level, c: Level)
    ensures
        a.at_least(a),
        a.at_least(b) || b.at_least(a),
        a.at_least(b) && b.at_least(c) ==> a.at_least(c),
        a.at_least(b) && b.at_least(a) ==> a == b,
{
}

/// Which of the maximum-level build features are enabled.
#[derive(Copy, Clone, Debug, PartialEq, Eq, Structural)]
pub struct MaxLevelFeatures {
    /// `..._off`
    pub off: bool,
    /// `..._error`
    pub error: bool,
    /// `..._warn`
    pub warn: bool,
    /// `..._info`
    pub info: bool,
    /// `..._debug`
    pub debug: bool,
    /// `..._trace`
    pub trace: bool,
}

/// The level of the first enabled feature, in the order off, error, warn,
/// info, debug, trace.
pub open spec fn first_feature_level(f: MaxLevelFeatures) -> Option<FilterLevel> {
    if f.off {
        Some(FilterLevel::Off)
    } else if f.error {
        Some(FilterLevel::Error)
    } else if f.warn {
        Some(FilterLevel::Warning)
    } else if f.info {
        Some(FilterLevel::Info)
    } else if f.debug {
        Some(FilterLevel::Debug)
    } else if f.trace {
        Some(FilterLevel::Trace)
    } else {
        None
    }
}

/// The level of the first enabled feature.
fn first_feature(f: &MaxLevelFeatures) -> (r: Option<FilterLevel>)
    ensures
        r == first_feature_level(*f),
{
    if f.off {
        Some(FilterLevel::Off)
    } else if f.error {
        Some(FilterLevel::Error)
    } else if f.warn {
        Some(FilterLevel::Warning)
    } else if f.info {
        Some(FilterLevel::Info)
    } else if f.debug {
        Some(FilterLevel::Debug)
    } else if f.trace {
        Some(FilterLevel::Trace)
    } else {
        None
    }
}

/// The most verbose level that logging statements keep, fixed at build time:
/// without debug assertions a `release_max_level_*` feature decides first;
/// then a `max_level_*` feature; else `Info` without debug assertions and
/// `Debug` with them.
pub fn __slog_static_max_level(
    debug_assertions: bool,
    release_max: &MaxLevelFeatures,
    max: &MaxLevelFeatures,
) -> (r: FilterLevel)
    ensures
        r == if !debug_assertions && first_feature_level(*release_max) is Some {
            first_feature_level(*release_max)->Some_0
        } else if first_feature_level(*max) is Some {
            first_feature_level(*max)->Some_0
        } else if !debug_assertions {
            FilterLevel::Info
        } else {
            FilterLevel::Debug
        },
{
    if !debug_assertions {
        match first_feature(release_max) {
            Some(l) => {
                return l;
            },
            None => {},
        }
    }
    match first_feature(max) {
        Some(l) => l,
        None => if !debug_assertions {
            FilterLevel::Info
        } else {
            FilterLevel::Debug
        },
    }
}

/// The feature named after filter level `l` is enabled in `f`; no feature
/// is named after `Critical`.
pub open spec fn feature_enabled(f: MaxLevelFeatures, l: FilterLevel) -> bool {
    match l {
        FilterLevel::Off => f.off,
        FilterLevel::Critical => false,
        FilterLevel::Error => f.error,
        FilterLevel::Warning => f.warn,
        FilterLevel::Info => f.info,
        FilterLevel::Debug => f.debug,
        FilterLevel::Trace => f.trace,
    }
}

/// The first enabled feature decides: the level it gives is the one the
/// feature is named after, that feature is enabled and none before it (in
/// the order off, error, warn, info, debug, trace) is; no level is given
/// exactly when no feature is enabled.
pub proof fn lemma_first_feature_names_its_level(f: MaxLevelFeatures, l: FilterLevel)
    ensures
        first_feature_level(f) == Some(l) <==> (feature_enabled(f, l) && forall|m: FilterLevel|
            m.index() < l.index() ==> !#[trigger] feature_enabled(f, m)),
        first_feature_level(f) is None <==> forall|m: FilterLevel| !#[trigger] feature_enabled(f, m),
{
    assert(feature_enabled(f, FilterLevel::Off) == f.off);
    assert(feature_enabled(f, FilterLevel::Error) == f.error);
    assert(feature_enabled(f, FilterLevel::Warning) == f.warn);
    assert(feature_enabled(f, FilterLevel::Info) == f.info);
    assert(feature_enabled(f, FilterLevel::Debug) == f.debug);
    assert(feature_enabled(f, FilterLevel::Trace) == f.trace);
    assert(!feature_enabled(f, FilterLevel::Critical));
}

/// A logging statement of `level` is kept under the maximum level `max`.
pub fn level_enabled(level: Level, max: FilterLevel) -> (r: bool)
    ensures
        r == (level.index() <= max.index()),
{
    level.as_usize() <= max.as_usize()
}

/// No two level names are equal without regard to ASCII case.
pub proof fn lemma_level_names_distinct(i: nat, j: nat)
    requires
        i <= 6,
        j <= 6,
        i != j,
    ensures
        !eq_ignore_ascii_case_spec(log_level_name(i), log_level_name(j)),
{
    reveal_strlit("OFF");
    reveal_strlit("CRITICAL");
    reveal_strlit("ERROR");
    reveal_strlit("WARN");
    reveal_strlit("INFO");
    reveal_strlit("DEBUG");
    reveal_strlit("TRACE");
    let a = log_level_name(i);
    let b = log_level_name(j);
    if a.len() == b.len() {
        assert(ascii_lower(a[0]) != ascii_lower(b[0]));
    }
}

/// A text that names two levels without regard to case names the same level
/// twice.
pub proof fn lemma_same_name_same_index(i: nat, j: nat, s: Seq<char>)
    requires
        i <= 6,
        j <= 6,
        eq_ignore_ascii_case_spec(log_level_name(i), s),
        eq_ignore_ascii_case_spec(log_level_name(j), s),
    ensures
        i == j,
{
    if i != j {
        lemma_level_names_distinct(i, j);
        let a = log_level_name(i);
        let b = log_level_name(j);
        assert(eq_ignore_ascii_case_spec(a, b)) by {
            assert forall|k: int| 0 <= k < a.len() implies ascii_lower(#[trigger] a[k])
                == ascii_lower(b[k]) by {
                assert(ascii_lower(a[k]) == ascii_lower(s[k]));
                assert(ascii_lower(b[k]) == ascii_lower(s[k]));
            }
        }
    }
}

/// Parsing the name of a filter level, in any ASCII case, gives that filter
/// level: names are told apart whatever their case.
pub proof fn lemma_filter_level_name_roundtrip(f: FilterLevel, g: FilterLevel, s: Seq<char>)
    requires
        eq_ignore_ascii_case_spec(log_level_name(f.index()), s),
        eq_ignore_ascii_case_spec(log_level_name(g.index()), s),
    ensures
        f == g,
{
    lemma_same_name_same_index(f.index(), g.index(), s);
}

/// Short level names tell levels apart, and each is four characters long
/// and begins as the level's full name does.
pub proof fn lemma_short_names_distinct(a: Level, b: Level)
    ensures
        a != b ==> log_level_short_name(a.index()) != log_level_short_name(b.index()),
        log_level_short_name(a.index()).len() == 4,
        log_level_short_name(a.index())[0] == log_level_name(a.index())[0],
{
    reveal_strlit("CRIT");
    reveal_strlit("ERRO");
    reveal_strlit("WARN");
    reveal_strlit("INFO");
    reveal_strlit("DEBG");
    reveal_strlit("TRCE");
    reveal_strlit("CRITICAL");
    reveal_strlit("ERROR");
    reveal_strlit("DEBUG");
    reveal_strlit("TRACE");
    let sa = log_level_short_name(a.index());
    let sb = log_level_short_name(b.index());
    if a != b {
        assert(sa[0] != sb[0] || sa[1] != sb[1]);
    }
}

} // verus!
