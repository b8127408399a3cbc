//! Terminal format: full and compact text lines with optional color.
use vstd::prelude::*;

use crate::decorator::{ColorDecorator, Decorator, RecordDecorator};
use crate::kv::OwnedKVList;
use crate::level::log_level_short_name;
use crate::record::{Record, SingleKV};

verus! {

/// Formatting mode.
pub enum FormatMode {
    /// Compact logging format
    Compact,
    /// Full logging format
    Full,
}

/// The text of one key-value pair: `key: value`, each part decorated.
pub open spec fn kv_text<RD: RecordDecorator>(rd: RD, e: SingleKV) -> Seq<char> {
    rd.spec_fmt_key(e.0@) + rd.spec_fmt_separator(": "@) + rd.spec_fmt_value(e.1.display_text())
}

/// The pairs each preceded by a decorated `, `.
pub open spec fn comma_kvs<RD: RecordDecorator>(rd: RD, es: Seq<SingleKV>) -> Seq<char>
    decreases es.len(),
{
    if es.len() == 0 {
        Seq::empty()
    } else {
        comma_kvs(rd, es.drop_last()) + rd.spec_fmt_separator(", "@) + kv_text(rd, es.last())
    }
}

/// The pairs separated by a decorated `, `.
pub open spec fn joined_kvs<RD: RecordDecorator>(rd: RD, es: Seq<SingleKV>) -> Seq<char>
    decreases es.len(),
{
    if es.len() == 0 {
        Seq::empty()
    } else if es.len() == 1 {
        kv_text(rd, es[0])
    } else {
        joined_kvs(rd, es.drop_last()) + rd.spec_fmt_separator(", "@) + kv_text(rd, es.last())
    }
}

/// The message header of a record: the timestamp, the short level name and
/// the message, separated by spaces.
pub open spec fn header_text<RD: RecordDecorator>(rd: RD, ts: Seq<char>, record: Record) -> Seq<
    char,
> {
    rd.spec_fmt_timestamp(ts + " "@) + rd.spec_fmt_level(
        log_level_short_name(record.spec_level().index()) + " "@,
    ) + rd.spec_fmt_msg(record.spec_msg())
}

/// A full-mode line: the header, then every pair of the logger context and
/// of the record, each after a comma, then a newline.
pub open spec fn full_text<RD: RecordDecorator>(
    rd: RD,
    ts: Seq<char>,
    record: Record,
    values: OwnedKVList,
) -> Seq<char> {
    header_text(rd, ts, record) + comma_kvs(rd, values.entries()) + comma_kvs(rd, record.spec_kv())
        + "\n"@
}

/// `n` levels of indentation, two spaces each.
pub open spec fn indent_text(n: nat) -> Seq<char>
    decreases n,
{
    if n == 0 {
        Seq::empty()
    } else {
        indent_text((n - 1) as nat) + "  "@
    }
}

/// Whether the group `address` is printed at indentation `indent`, and the
/// history afterwards: a group is printed unless it is the one recorded last
/// at that indentation.
pub open spec fn should_print_spec(history: Seq<usize>, address: usize, indent: nat) -> (bool, Seq<
    usize,
>) {
    if history.len() <= indent {
        (true, history.push(address))
    } else {
        (history[indent as int] != address, history.update(indent as int, address))
    }
}

/// State of compact formatting after some groups: text so far, history and
/// indentation.
pub struct CompactState {
    /// Text written so far
    pub text: Seq<char>,
    /// Group last printed at each indentation
    pub history: Seq<usize>,
    /// Current indentation
    pub indent: nat,
}

/// One group in compact formatting: a non-empty group takes one level of
/// indentation, and is printed on its own indented line unless it is the
/// group printed last at that indentation.
pub open spec fn compact_step<RD: RecordDecorator>(
    rd: RD,
    st: CompactState,
    entries: Seq<SingleKV>,
    address: usize,
) -> CompactState {
    if entries.len() == 0 {
        st
    } else {
        let (print, history) = should_print_spec(st.history, address, st.indent);
        CompactState {
            text: if print {
                st.text + indent_text(st.indent) + joined_kvs(rd, entries) + "\n"@
            } else {
                st.text
            },
            history,
            indent: st.indent + 1,
        }
    }
}

/// Compact formatting of the `k` oldest groups of `values` (the last `k` in
/// list order), oldest first; `addresses[i]` identifies group `i`.
pub open spec fn compact_fold<RD: RecordDecorator>(
    rd: RD,
    values: OwnedKVList,
    addresses: Seq<usize>,
    history: Seq<usize>,
    k: nat,
) -> CompactState
    decreases k,
{
    if k == 0 {
        CompactState { text: Seq::empty(), history, indent: 0 }
    } else {
        let n = values.groups().len();
        let i = n - k;
        compact_step(
            rd,
            compact_fold(rd, values, addresses, history, (k - 1) as nat),
            values.groups()[i].entries(),
            addresses[i],
        )
    }
}

/// Full-state compact formatting of a record: the context groups oldest
/// first, then the indented header and the record's pairs.
pub open spec fn compact_result<RD: RecordDecorator>(
    rd: RD,
    ts: Seq<char>,
    record: Record,
    values: OwnedKVList,
    addresses: Seq<usize>,
    history: Seq<usize>,
) -> CompactState {
    let st = compact_fold(rd, values, addresses, history, values.groups().len());
    CompactState {
        text: st.text + indent_text(st.indent) + header_text(rd, ts, record) + comma_kvs(
            rd,
            record.spec_kv(),
        ) + "\n"@,
        history: st.history,
        indent: st.indent,
    }
}

/// Terminal format, in full or compact mode, with a decorator.
///
/// In compact mode the format remembers, for every indentation, the group
/// printed last, so that context shared by consecutive records is printed
/// once.
pub struct TermFormat<D: Decorator> {
    mode: FormatMode,
    decorator: D,
    history: Vec<usize>,
}

/// Record in `history` that the group `address` is printed at `indent`;
/// returns whether it should be printed.
pub fn should_print(history: &mut Vec<usize>, address: usize, indent: usize) -> (r: bool)
    ensures
        (r, final(history)@) == should_print_spec(old(history)@, address, indent as nat),
{
    if history.len() <= indent {
        history.push(address);
        true
    } else {
        let should = history[indent] != address;
        history.set(indent, address);
        should
    }
}

/// `n` levels of indentation, two spaces each.
pub fn print_indent(n: usize) -> (r: String)
    ensures
        r@ == indent_text(n as nat),
{
    let mut s = String::new();
    let mut i: usize = 0;
    while i < n
        invariant
            i <= n,
            s@ == indent_text(i as nat),
        decreases n - i,
    {
        s.append("  ");
        i = i + 1;
    }
    s
}

/// The text of one key-value pair.
pub fn format_kv<RD: RecordDecorator>(rd: &RD, e: &SingleKV) -> (r: String)
    ensures
        r@ == kv_text(*rd, *e),
{
    let mut s = rd.fmt_key(e.0.as_str());
    let sep = rd.fmt_separator(": ");
    s.append(sep.as_str());
    let text = e.1.to_display_string();
    let v = rd.fmt_value(text.as_str());
    s.append(v.as_str());
    s
}

/// Append each pair, preceded by a decorated `, `.
pub fn append_comma_kvs<RD: RecordDecorator>(rd: &RD, out: &mut String, es: &Vec<SingleKV>)
    ensures
        final(out)@ == old(out)@ + comma_kvs(*rd, es@),
{
    let ghost start = out@;
    let mut i: usize = 0;
    while i < es.len()
        invariant
            i <= es@.len(),
            out@ == start + comma_kvs(*rd, es@.subrange(0, i as int)),
        decreases es@.len() - i,
    {
        let sep = rd.fmt_separator(", ");
        out.append(sep.as_str());
        let kv = format_kv(rd, &es[i]);
        out.append(kv.as_str());
        proof {
            assert(es@.subrange(0, i + 1).drop_last() =~= es@.subrange(0, i as int));
        }
        i = i + 1;
    }
    proof {
        assert(es@.subrange(0, es@.len() as int) =~= es@);
    }
}

/// Append the pairs, separated by a decorated `, `.
pub fn append_joined_kvs<RD: RecordDecorator>(rd: &RD, out: &mut String, es: &Vec<SingleKV>)
    ensures
        final(out)@ == old(out)@ + joined_kvs(*rd, es@),
{
    let ghost start = out@;
    let mut i: usize = 0;
    while i < es.len()
        invariant
            i <= es@.len(),
            out@ == start + joined_kvs(*rd, es@.subrange(0, i as int)),
        decreases es@.len() - i,
    {
        if i != 0 {
            let sep = rd.fmt_separator(", ");
            out.append(sep.as_str());
        }
        let kv = format_kv(rd, &es[i]);
        out.append(kv.as_str());
        proof {
            let sub = es@.subrange(0, i + 1);
            assert(sub.drop_last() =~= es@.subrange(0, i as int));
            if i == 0 {
                assert(es@.subrange(0, 0) =~= Seq::<SingleKV>::empty());
                assert(sub[0] == es@[0]);
            }
        }
        i = i + 1;
    }
    proof {
        assert(es@.subrange(0, es@.len() as int) =~= es@);
    }
}

/// The message header of a record.
pub fn print_msg_header<RD: RecordDecorator>(rd: &RD, ts: &str, record: &Record) -> (r: String)
    ensures
        r@ == header_text(*rd, ts@, *record),
{
    let mut t = ts.to_string();
    t.append(" ");
    let mut s = rd.fmt_timestamp(t.as_str());
    let mut l = record.level().as_short_str().to_string();
    l.append(" ");
    let lv = rd.fmt_level(l.as_str());
    s.append(lv.as_str());
    let m = rd.fmt_msg(record.msg());
    s.append(m.as_str());
    s
}

impl<D: Decorator> TermFormat<D> {
    /// The decorator.
    pub closed spec fn spec_decorator(&self) -> D {
        self.decorator
    }

    /// The format is in compact mode.
    pub closed spec fn spec_compact(&self) -> bool {
        self.mode is Compact
    }

    /// The group printed last at each indentation.
    pub closed spec fn spec_history(&self) -> Seq<usize> {
        self.history@
    }

    /// New format of the given mode and decorator, with an empty history.
    pub fn new(mode: FormatMode, d: D) -> (r: Self)
        ensures
            r.spec_decorator() == d,
            r.spec_compact() == (mode is Compact),
            r.spec_history() == Seq::<usize>::empty(),
    {
        TermFormat { mode, decorator: d, history: Vec::new() }
    }

    /// Format a record in full mode: one line with the header and every
    /// key-value pair, the logger context first.
    pub fn format_full(&self, ts: &str, record: &Record, values: &OwnedKVList) -> (r: String)
        ensures
            r@ == full_text(self.spec_decorator().spec_decorate(*record), ts@, *record, *values),
    {
        let rd = self.decorator.decorate(record);
        let mut s = print_msg_header(&rd, ts, record);
        let logger_values = values.iter_single();
        append_comma_kvs(&rd, &mut s, &logger_values);
        append_comma_kvs(&rd, &mut s, record.values());
        s.append("\n");
        s
    }

    /// Format a record in compact mode. Context groups are printed oldest
    /// first, each indented by its depth, and only when they differ from the
    /// group last printed at that depth; `addresses[i]` identifies the
    /// `i`-th group of `values`.
    pub fn format_compact(
        &mut self,
        ts: &str,
        record: &Record,
        values: &OwnedKVList,
        addresses: &Vec<usize>,
    ) -> (r: String)
        requires
            addresses@.len() == values.groups().len(),
        ensures
            ({
                let res = compact_result(
                    old(self).spec_decorator().spec_decorate(*record),
                    ts@,
                    *record,
                    *values,
                    addresses@,
                    old(self).spec_history(),
                );
                &&& r@ == res.text
                &&& final(self).spec_history() == res.history
            }),
            final(self).spec_decorator() == old(self).spec_decorator(),
            final(self).spec_compact() == old(self).spec_compact(),
    {
        let rd = self.decorator.decorate(record);
        let groups = values.iter_groups();
        let n = groups.len();
        let mut text = String::new();
        let mut indent: usize = 0;
        let mut k: usize = 0;
        while k < n
            invariant
                n == values.groups().len(),
                groups@.len() == n,
                forall|i: int| 0 <= i < n ==> (#[trigger] groups@[i])@ == values.groups()[i].entries(),
                addresses@.len() == n,
                k <= n,
                indent <= k,
                rd == self.spec_decorator().spec_decorate(*record),
                self.spec_decorator() == old(self).spec_decorator(),
                self.spec_compact() == old(self).spec_compact(),
                ({
                    let st = compact_fold(rd, *values, addresses@, old(self).spec_history(), k as nat);
                    &&& text@ == st.text
                    &&& self.history@ == st.history
                    &&& indent == st.indent
                }),
            decreases n - k,
        {
            let i = n - 1 - k;
            let entries = &groups[i];
            if entries.len() != 0 {
                let p = should_print(&mut self.history, addresses[i], indent);
                if p {
                    let ind = print_indent(indent);
                    text.append(ind.as_str());
                    append_joined_kvs(&rd, &mut text, entries);
                    text.append("\n");
                }
                indent = indent + 1;
            }
            k = k + 1;
        }
        let ind = print_indent(indent);
        text.append(ind.as_str());
        let h = print_msg_header(&rd, ts, record);
        text.append(h.as_str());
        append_comma_kvs(&rd, &mut text, record.values());
        text.append("\n");
        text
    }
}

/// `isatty::stdout_isatty()`: whether stdout is a terminal. It depends on
/// how the process was started: nothing is stated of it.
#[verifier::external_body]
fn stdout_is_terminal() -> (r: bool) {
    isatty::stdout_isatty()
}

/// `isatty::stderr_isatty()`: whether stderr is a terminal. It depends on
/// how the process was started: nothing is stated of it.
#[verifier::external_body]
fn stderr_is_terminal() -> (r: bool) {
    isatty::stderr_isatty()
}

/// The current UTC time as `chrono` formats it with
/// `%b %d %H:%M:%S%.3f`: month name, day and time, so never empty. Which time
/// it is depends on the clock, and is not stated.
#[verifier::external_body]
pub(crate) fn utc_timestamp() -> (r: String)
    ensures
        r@.len() > 0,
{
    chrono::Utc::now().format("%b %d %H:%M:%S%.3f").to_string()
}

/// The current local time as `chrono` formats it with
/// `%b %d %H:%M:%S%.3f`: month name, day and time, so never empty. Which time
/// it is depends on the clock and the time zone of the machine, and is not
/// stated.
#[verifier::external_body]
fn local_timestamp() -> (r: String)
    ensures
        r@.len() > 0,
{
    chrono::Local::now().format("%b %d %H:%M:%S%.3f").to_string()
}

impl<D: Decorator> TermFormat<D> {
    /// The text of a record formatted at time `ts` in the format's mode,
    /// and the history after it.
    pub open spec fn spec_format(
        &self,
        ts: Seq<char>,
        record: Record,
        values: OwnedKVList,
        addresses: Seq<usize>,
    ) -> (Seq<char>, Seq<usize>) {
        let rd = self.spec_decorator().spec_decorate(record);
        if self.spec_compact() {
            let res = compact_result(rd, ts, record, values, addresses, self.spec_history());
            (res.text, res.history)
        } else {
            (full_text(rd, ts, record, values), self.spec_history())
        }
    }

    /// Format a record at time `ts` in the format's mode; `addresses[i]`
    /// identifies the `i`-th group of `values`.
    pub fn format_at(
        &mut self,
        ts: &str,
        record: &Record,
        values: &OwnedKVList,
        addresses: &Vec<usize>,
    ) -> (r: String)
        requires
            addresses@.len() == values.groups().len(),
        ensures
            (r@, final(self).spec_history()) == old(self).spec_format(
                ts@,
                *record,
                *values,
                addresses@,
            ),
            final(self).spec_decorator() == old(self).spec_decorator(),
            final(self).spec_compact() == old(self).spec_compact(),
    {
        match self.mode {
            FormatMode::Compact => self.format_compact(ts, record, values, addresses),
            FormatMode::Full => self.format_full(ts, record, values),
        }
    }

    /// Format a record at the current local time in the format's mode.
    pub fn format(&mut self, record: &Record, values: &OwnedKVList, addresses: &Vec<usize>) -> (r:
        String)
        requires
            addresses@.len() == values.groups().len(),
        ensures
            exists|ts: Seq<char>|
                ts.len() > 0 && (r@, final(self).spec_history()) == old(self).spec_format(
                    ts,
                    *record,
                    *values,
                    addresses@,
                ),
            final(self).spec_decorator() == old(self).spec_decorator(),
            final(self).spec_compact() == old(self).spec_compact(),
    {
        let ts = local_timestamp();
        let r = self.format_at(ts.as_str(), record, values, addresses);
        proof {
            assert((r@, self.spec_history()) == old(self).spec_format(
                ts@,
                *record,
                *values,
                addresses@,
            ));
        }
        r
    }
}

/// A terminal format with the color decorator.
pub fn color_format(mode: FormatMode, use_color: bool) -> (r: TermFormat<ColorDecorator>)
    ensures
        r.spec_decorator().spec_use_color() == use_color,
        r.spec_compact() == (mode is Compact),
        r.spec_history() == Seq::<usize>::empty(),
{
    TermFormat::new(mode, ColorDecorator::new(use_color))
}

/// Settings of a terminal streamer: color (or automatic), output stream,
/// synchronous or asynchronous writing, and format mode.
pub struct StreamerBuilder {
    color: Option<bool>,
    stdout: bool,
    async_mode: bool,
    mode: FormatMode,
}

/// Resolved settings of a terminal streamer.
pub struct StreamerConfig {
    /// Use color
    pub use_color: bool,
    /// Write to stdout (else stderr)
    pub stdout: bool,
    /// Write asynchronously
    pub async_mode: bool,
    /// Use compact mode (else full)
    pub compact: bool,
}

impl StreamerBuilder {
    /// Forced color choice, `None` for automatic.
    pub closed spec fn spec_color(&self) -> Option<bool> {
        self.color
    }

    /// Output goes to stdout (else stderr).
    pub closed spec fn spec_stdout(&self) -> bool {
        self.stdout
    }

    /// Asynchronous writing.
    pub closed spec fn spec_async(&self) -> bool {
        self.async_mode
    }

    /// Compact mode (else full).
    pub closed spec fn spec_compact(&self) -> bool {
        self.mode is Compact
    }

    /// New `StreamerBuilder`: automatic color, stdout, synchronous, compact
    /// mode.
    pub fn new() -> (r: Self)
        ensures
            r.spec_color() is None,
            r.spec_stdout(),
            !r.spec_async(),
            r.spec_compact(),
    {
        StreamerBuilder { color: None, stdout: true, async_mode: false, mode: FormatMode::Compact }
    }

    /// Force colored output.
    pub fn color(self) -> (r: Self)
        ensures
            r.spec_color() == Some(true),
            r.spec_stdout() == self.spec_stdout(),
            r.spec_async() == self.spec_async(),
            r.spec_compact() == self.spec_compact(),
    {
        StreamerBuilder { color: Some(true), ..self }
    }

    /// Force plain output.
    pub fn plain(self) -> (r: Self)
        ensures
            r.spec_color() == Some(false),
            r.spec_stdout() == self.spec_stdout(),
            r.spec_async() == self.spec_async(),
            r.spec_compact() == self.spec_compact(),
    {
        StreamerBuilder { color: Some(false), ..self }
    }

    /// Auto detect color (default).
    pub fn auto_color(self) -> (r: Self)
        ensures
            r.spec_color() is None,
            r.spec_stdout() == self.spec_stdout(),
            r.spec_async() == self.spec_async(),
            r.spec_compact() == self.spec_compact(),
    {
        StreamerBuilder { color: None, ..self }
    }

    /// Output to stderr.
    pub fn stderr(self) -> (r: Self)
        ensures
            r.spec_color() == self.spec_color(),
            !r.spec_stdout(),
            r.spec_async() == self.spec_async(),
            r.spec_compact() == self.spec_compact(),
    {
        StreamerBuilder { stdout: false, ..self }
    }

    /// Output to stdout (default).
    pub fn stdout(self) -> (r: Self)
        ensures
            r.spec_color() == self.spec_color(),
            r.spec_stdout(),
            r.spec_async() == self.spec_async(),
            r.spec_compact() == self.spec_compact(),
    {
        StreamerBuilder { stdout: true, ..self }
    }

    /// Output using full mode.
    pub fn full(self) -> (r: Self)
        ensures
            r.spec_color() == self.spec_color(),
            r.spec_stdout() == self.spec_stdout(),
            r.spec_async() == self.spec_async(),
            !r.spec_compact(),
    {
        StreamerBuilder { mode: FormatMode::Full, ..self }
    }

    /// Output using compact mode (default).
    pub fn compact(self) -> (r: Self)
        ensures
            r.spec_color() == self.spec_color(),
            r.spec_stdout() == self.spec_stdout(),
            r.spec_async() == self.spec_async(),
            r.spec_compact(),
    {
        StreamerBuilder { mode: FormatMode::Compact, ..self }
    }

    /// Use an asynchronous streamer.
    pub fn async_mode(self) -> (r: Self)
        ensures
            r.spec_color() == self.spec_color(),
            r.spec_stdout() == self.spec_stdout(),
            r.spec_async(),
            r.spec_compact() == self.spec_compact(),
    {
        StreamerBuilder { async_mode: true, ..self }
    }

    /// Use a synchronous streamer (default).
    pub fn sync(self) -> (r: Self)
        ensures
            r.spec_color() == self.spec_color(),
            r.spec_stdout() == self.spec_stdout(),
            !r.spec_async(),
            r.spec_compact() == self.spec_compact(),
    {
        StreamerBuilder { async_mode: false, ..self }
    }

    /// The settings to build with, given whether stdout and stderr are
    /// terminals: without a forced choice, color is used when the chosen
    /// output is a terminal.
    pub fn config(&self, stdout_is_tty: bool, stderr_is_tty: bool) -> (r: StreamerConfig)
        ensures
            r.use_color == match self.spec_color() {
                Some(c) => c,
                None => if self.spec_stdout() {
                    stdout_is_tty
                } else {
                    stderr_is_tty
                },
            },
            r.stdout == self.spec_stdout(),
            r.async_mode == self.spec_async(),
            r.compact == self.spec_compact(),
    {
        let auto = if self.stdout {
            stdout_is_tty
        } else {
            stderr_is_tty
        };
        let use_color = match self.color {
            Some(c) => c,
            None => auto,
        };
        let compact = match self.mode {
            FormatMode::Compact => true,
            FormatMode::Full => false,
        };
        StreamerConfig { use_color, stdout: self.stdout, async_mode: self.async_mode, compact }
    }

    /// The settings to build with, asking whether the chosen output is a
    /// terminal.
    pub fn build_config(&self) -> (r: StreamerConfig)
        ensures
            self.spec_color() matches Some(c) ==> r.use_color == c,
            r.stdout == self.spec_stdout(),
            r.async_mode == self.spec_async(),
            r.compact == self.spec_compact(),
    {
        let tty = if self.stdout {
            stdout_is_terminal()
        } else {
            stderr_is_terminal()
        };
        self.config(tty, tty)
    }
}

/// Start building a terminal streamer.
pub fn streamer() -> (r: StreamerBuilder)
    ensures
        r.spec_color() is None,
        r.spec_stdout(),
        !r.spec_async(),
        r.spec_compact(),
{
    StreamerBuilder::new()
}

/// Shape of compact formatting: the indentation grows by at most one per
/// group, and the history always reaches the current indentation.
proof fn lemma_fold_shape<RD: RecordDecorator>(
    rd: RD,
    values: OwnedKVList,
    addresses: Seq<usize>,
    history: Seq<usize>,
    k: nat,
)
    requires
        k <= values.groups().len(),
        addresses.len() == values.groups().len(),
    ensures
        compact_fold(rd, values, addresses, history, k).indent <= k,
        compact_fold(rd, values, addresses, history, k).history.len() >= compact_fold(
            rd,
            values,
            addresses,
            history,
            k,
        ).indent,
    decreases k,
{
    if k > 0 {
        lemma_fold_shape(rd, values, addresses, history, (k - 1) as nat);
    }
}

/// One non-empty group in compact formatting takes the next indentation and
/// records its address there.
proof fn lemma_fold_step<RD: RecordDecorator>(
    rd: RD,
    values: OwnedKVList,
    addresses: Seq<usize>,
    history: Seq<usize>,
    k: nat,
)
    requires
        0 < k <= values.groups().len(),
        addresses.len() == values.groups().len(),
    ensures
        ({
            let n = values.groups().len();
            let i = n - k;
            let before = compact_fold(rd, values, addresses, history, (k - 1) as nat);
            let after = compact_fold(rd, values, addresses, history, k);
            if values.groups()[i].entries().len() == 0 {
                after.indent == before.indent && after.history == before.history
            } else {
                &&& after.indent == before.indent + 1
                &&& after.history.len() > before.indent
                &&& after.history[before.indent as int] == addresses[i]
                &&& forall|j: int|
                    0 <= j < before.indent ==> #[trigger] after.history[j] == before.history[j]
            }
        }),
{
    lemma_fold_shape(rd, values, addresses, history, (k - 1) as nat);
}

/// Later groups never change the history below an earlier indentation.
proof fn lemma_fold_stable<RD: RecordDecorator>(
    rd: RD,
    values: OwnedKVList,
    addresses: Seq<usize>,
    history: Seq<usize>,
    k: nat,
    m: nat,
)
    requires
        k <= m <= values.groups().len(),
        addresses.len() == values.groups().len(),
    ensures
        compact_fold(rd, values, addresses, history, m).indent >= compact_fold(
            rd,
            values,
            addresses,
            history,
            k,
        ).indent,
        forall|j: int|
            0 <= j < compact_fold(rd, values, addresses, history, k).indent ==> #[trigger] compact_fold(
                rd,
                values,
                addresses,
                history,
                m,
            ).history[j] == compact_fold(rd, values, addresses, history, k).history[j],
    decreases m - k,
{
    if k < m {
        lemma_fold_stable(rd, values, addresses, history, k, (m - 1) as nat);
        lemma_fold_step(rd, values, addresses, history, m);
    }
}

/// A second compact pass over the same groups, started from the history the
/// first pass left, prints nothing and keeps that history.
proof fn lemma_second_pass<RD: RecordDecorator>(
    rd1: RD,
    rd2: RD,
    values: OwnedKVList,
    addresses: Seq<usize>,
    history: Seq<usize>,
    k: nat,
)
    requires
        k <= values.groups().len(),
        addresses.len() == values.groups().len(),
    ensures
        ({
            let n = values.groups().len();
            let h = compact_fold(rd1, values, addresses, history, n).history;
            let second = compact_fold(rd2, values, addresses, h, k);
            &&& second.text == Seq::<char>::empty()
            &&& second.history == h
            &&& second.indent == compact_fold(rd1, values, addresses, history, k).indent
        }),
    decreases k,
{
    let n = values.groups().len();
    let h = compact_fold(rd1, values, addresses, history, n).history;
    if k > 0 {
        lemma_second_pass(rd1, rd2, values, addresses, history, (k - 1) as nat);
        lemma_fold_step(rd1, values, addresses, history, k);
        let i = n - k;
        let t = compact_fold(rd1, values, addresses, history, (k - 1) as nat).indent;
        if values.groups()[i].entries().len() > 0 {
            lemma_fold_shape(rd1, values, addresses, history, n);
            lemma_fold_stable(rd1, values, addresses, history, k, n);
            assert(h[t as int] == compact_fold(rd1, values, addresses, history, k).history[t as int]);
            assert(h.update(t as int, addresses[i]) =~= h);
        }
    }
}

/// In compact mode, context shared by consecutive records is printed once:
/// formatting a second record with the same context, from the history the
/// first left, prints no context line (only the indented header and the
/// record's own pairs) and leaves the history as it was.
pub proof fn lemma_compact_context_printed_once<RD: RecordDecorator>(
    rd1: RD,
    rd2: RD,
    ts1: Seq<char>,
    ts2: Seq<char>,
    record1: Record,
    record2: Record,
    values: OwnedKVList,
    addresses: Seq<usize>,
    history: Seq<usize>,
)
    requires
        addresses.len() == values.groups().len(),
    ensures
        ({
            let first = compact_result(rd1, ts1, record1, values, addresses, history);
            let second = compact_result(rd2, ts2, record2, values, addresses, first.history);
            &&& second.history == first.history
            &&& second.indent == first.indent
            &&& second.text == indent_text(first.indent) + header_text(rd2, ts2, record2)
                + comma_kvs(rd2, record2.spec_kv()) + "\n"@
        }),
{
    lemma_second_pass(rd1, rd2, values, addresses, history, values.groups().len());
}

/// `small` stands in `big` from position `k` on.
pub open spec fn occurs_at(big: Seq<char>, small: Seq<char>, k: int) -> bool {
    &&& 0 <= k
    &&& k + small.len() <= big.len()
    &&& big.subrange(k, k + small.len()) == small
}

/// `small` stands somewhere in `big`.
pub open spec fn stands_in(big: Seq<char>, small: Seq<char>) -> bool {
    exists|k: int| #[trigger] occurs_at(big, small, k)
}

/// A text stands in itself.
proof fn lemma_stands_in_self(t: Seq<char>)
    ensures
        stands_in(t, t),
{
    assert(t.subrange(0, t.len() as int) =~= t);
    assert(occurs_at(t, t, 0));
}

/// A text standing in `b` also stands in `a + b + c`.
proof fn lemma_stands_in_shift(a: Seq<char>, b: Seq<char>, c: Seq<char>, small: Seq<char>)
    requires
        stands_in(b, small),
    ensures
        stands_in(a + b + c, small),
{
    let k = choose|k: int| #[trigger] occurs_at(b, small, k);
    assert((a + b + c).subrange(k + a.len(), k + a.len() + small.len()) =~= b.subrange(
        k,
        k + small.len(),
    ));
    assert(occurs_at(a + b + c, small, k + a.len()));
}

/// The pairs of a group joined on its compact line keep every pair: the
/// text of each pair stands in the line, after the text of the pairs before
/// it.
pub proof fn lemma_joined_kvs_keeps_every_pair<RD: RecordDecorator>(rd: RD, es: Seq<SingleKV>)
    ensures
        forall|i: int|
            0 <= i < es.len() ==> stands_in(joined_kvs(rd, es), #[trigger] kv_text(rd, es[i])),
        es.len() > 0 ==> joined_kvs(rd, es).len() >= joined_kvs(rd, es.drop_last()).len()
            + kv_text(rd, es.last()).len(),
    decreases es.len(),
{
    if es.len() > 0 {
        let p = es.drop_last();
        lemma_joined_kvs_keeps_every_pair(rd, p);
        let sep = rd.spec_fmt_separator(", "@);
        let last = kv_text(rd, es.last());
        let e = Seq::<char>::empty();
        if es.len() == 1 {
            assert(p =~= Seq::<SingleKV>::empty());
            assert(joined_kvs(rd, es) == kv_text(rd, es[0]));
            lemma_stands_in_self(kv_text(rd, es[0]));
        } else {
            assert(joined_kvs(rd, es) == joined_kvs(rd, p) + sep + last);
            assert forall|i: int| 0 <= i < es.len() implies stands_in(
                joined_kvs(rd, es),
                #[trigger] kv_text(rd, es[i]),
            ) by {
                if i < es.len() - 1 {
                    assert(es[i] == p[i]);
                    lemma_stands_in_shift(e, joined_kvs(rd, p), sep + last, kv_text(rd, es[i]));
                    assert(e + joined_kvs(rd, p) + (sep + last) =~= joined_kvs(rd, es));
                } else {
                    lemma_stands_in_self(last);
                    lemma_stands_in_shift(joined_kvs(rd, p) + sep, last, e, last);
                    assert(joined_kvs(rd, p) + sep + last + e =~= joined_kvs(rd, es));
                }
            }
        }
    }
}

/// Pairs written each after a comma keep every pair: the separator and the
/// text of each pair stand in the result.
pub proof fn lemma_comma_kvs_keeps_every_pair<RD: RecordDecorator>(rd: RD, es: Seq<SingleKV>)
    ensures
        forall|i: int|
            0 <= i < es.len() ==> stands_in(
                comma_kvs(rd, es),
                rd.spec_fmt_separator(", "@) + #[trigger] kv_text(rd, es[i]),
            ),
    decreases es.len(),
{
    if es.len() > 0 {
        let p = es.drop_last();
        lemma_comma_kvs_keeps_every_pair(rd, p);
        let sep = rd.spec_fmt_separator(", "@);
        let item = sep + kv_text(rd, es.last());
        let e = Seq::<char>::empty();
        assert(comma_kvs(rd, es) =~= comma_kvs(rd, p) + item);
        assert forall|i: int| 0 <= i < es.len() implies stands_in(
            comma_kvs(rd, es),
            sep + #[trigger] kv_text(rd, es[i]),
        ) by {
            if i < es.len() - 1 {
                assert(es[i] == p[i]);
                lemma_stands_in_shift(e, comma_kvs(rd, p), item, sep + kv_text(rd, es[i]));
                assert(e + comma_kvs(rd, p) + item =~= comma_kvs(rd, es));
            } else {
                lemma_stands_in_self(item);
                lemma_stands_in_shift(comma_kvs(rd, p), item, e, item);
                assert(comma_kvs(rd, p) + item + e =~= comma_kvs(rd, es));
            }
        }
    }
}

/// A full-mode line keeps every pair: each pair of the logger context and
/// each pair of the record stands in it after a separator, and the line ends
/// with a newline.
pub proof fn lemma_full_text_keeps_every_pair<RD: RecordDecorator>(
    rd: RD,
    ts: Seq<char>,
    record: Record,
    values: OwnedKVList,
)
    ensures
        forall|i: int|
            0 <= i < record.spec_kv().len() ==> stands_in(
                full_text(rd, ts, record, values),
                rd.spec_fmt_separator(", "@) + #[trigger] kv_text(rd, record.spec_kv()[i]),
            ),
        forall|i: int|
            0 <= i < values.entries().len() ==> stands_in(
                full_text(rd, ts, record, values),
                rd.spec_fmt_separator(", "@) + #[trigger] kv_text(rd, values.entries()[i]),
            ),
        full_text(rd, ts, record, values).last() == '\n',
{
    reveal_strlit("\n");
    let sep = rd.spec_fmt_separator(", "@);
    let h = header_text(rd, ts, record);
    let cv = comma_kvs(rd, values.entries());
    let cr = comma_kvs(rd, record.spec_kv());
    let full = full_text(rd, ts, record, values);
    let nl = "\n"@;
    lemma_comma_kvs_keeps_every_pair(rd, record.spec_kv());
    lemma_comma_kvs_keeps_every_pair(rd, values.entries());
    assert forall|i: int| 0 <= i < record.spec_kv().len() implies stands_in(
        full,
        sep + #[trigger] kv_text(rd, record.spec_kv()[i]),
    ) by {
        lemma_stands_in_shift(h + cv, cr, nl, sep + kv_text(rd, record.spec_kv()[i]));
        assert(h + cv + cr + nl =~= full);
    }
    assert forall|i: int| 0 <= i < values.entries().len() implies stands_in(
        full,
        sep + #[trigger] kv_text(rd, values.entries()[i]),
    ) by {
        lemma_stands_in_shift(h, cv, cr + nl, sep + kv_text(rd, values.entries()[i]));
        assert(h + cv + (cr + nl) =~= full);
    }
}

/// A context group that compact formatting prints gets a line that keeps
/// every one of its pairs.
pub proof fn lemma_compact_line_keeps_every_pair<RD: RecordDecorator>(
    rd: RD,
    st: CompactState,
    entries: Seq<SingleKV>,
    address: usize,
)
    requires
        entries.len() > 0,
        should_print_spec(st.history, address, st.indent).0,
    ensures
        forall|i: int|
            0 <= i < entries.len() ==> stands_in(
                compact_step(rd, st, entries, address).text,
                #[trigger] kv_text(rd, entries[i]),
            ),
{
    let j = joined_kvs(rd, entries);
    let before = st.text + indent_text(st.indent);
    let nl = "\n"@;
    lemma_joined_kvs_keeps_every_pair(rd, entries);
    assert(before + j + nl =~= compact_step(rd, st, entries, address).text);
    assert forall|i: int| 0 <= i < entries.len() implies stands_in(
        compact_step(rd, st, entries, address).text,
        #[trigger] kv_text(rd, entries[i]),
    ) by {
        lemma_stands_in_shift(before, j, nl, kv_text(rd, entries[i]));
    }
}

} // verus!
