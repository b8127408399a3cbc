//! Decorators: how the parts of a formatted record are dressed, for example
//! with terminal colors.
use vstd::prelude::*;

use crate::level::Level;
use crate::record::Record;
use crate::value::nat_decimal;

verus! {

/// Per-record decorator: how each part of a formatted record is written.
pub trait RecordDecorator {
    /// How a message is written.
    spec fn spec_fmt_msg(&self, text: Seq<char>) -> Seq<char>;

    /// How a key is written.
    spec fn spec_fmt_key(&self, text: Seq<char>) -> Seq<char>;

    /// How a separator is written.
    spec fn spec_fmt_separator(&self, text: Seq<char>) -> Seq<char>;

    /// How a value is written.
    spec fn spec_fmt_value(&self, text: Seq<char>) -> Seq<char>;

    /// How a timestamp is written.
    spec fn spec_fmt_timestamp(&self, text: Seq<char>) -> Seq<char>;

    /// How a level is written.
    spec fn spec_fmt_level(&self, text: Seq<char>) -> Seq<char>;

    /// Format a message.
    fn fmt_msg(&self, text: &str) -> (r: String)
        ensures
            r@ == self.spec_fmt_msg(text@),
    ;

    /// Format a key.
    fn fmt_key(&self, text: &str) -> (r: String)
        ensures
            r@ == self.spec_fmt_key(text@),
    ;

    /// Format a separator.
    fn fmt_separator(&self, text: &str) -> (r: String)
        ensures
            r@ == self.spec_fmt_separator(text@),
    ;

    /// Format a value.
    fn fmt_value(&self, text: &str) -> (r: String)
        ensures
            r@ == self.spec_fmt_value(text@),
    ;

    /// Format a timestamp.
    fn fmt_timestamp(&self, text: &str) -> (r: String)
        ensures
            r@ == self.spec_fmt_timestamp(text@),
    ;

    /// Format a level.
    fn fmt_level(&self, text: &str) -> (r: String)
        ensures
            r@ == self.spec_fmt_level(text@),
    ;
}

/// Formatted stream decorator: gives the per-record decorator of a record.
pub trait Decorator {
    /// Per-record decorator
    type RecordDecorator: RecordDecorator;

    /// The per-record decorator of `record`.
    spec fn spec_decorate(&self, record: Record) -> Self::RecordDecorator;

    /// Get the `RecordDecorator` for a given `record`.
    fn decorate(&self, record: &Record) -> (r: Self::RecordDecorator)
        ensures
            r == self.spec_decorate(*record),
    ;
}

/// The terminal text of `text` in the fixed (256-color palette) foreground
/// color `color`: the escape `ESC [ 38 ; 5 ; color m`, the text, and the
/// reset escape `ESC [ 0 m`.
pub open spec fn ansi_fixed(color: u8, text: Seq<char>) -> Seq<char> {
    "\x1b[38;5;"@ + nat_decimal(color as nat) + "m"@ + text + "\x1b[0m"@
}

/// The terminal text of `text` in bold: the escape `ESC [ 1 m`, the text,
/// and the reset escape `ESC [ 0 m`.
pub open spec fn ansi_bold(text: Seq<char>) -> Seq<char> {
    "\x1b[1m"@ + text + "\x1b[0m"@
}

/// `ansi_term::Colour::Fixed(color).paint(text)`, displayed: the text
/// between the escape that selects the fixed color and the reset escape.
#[verifier::external_body]
fn paint_fixed(color: u8, text: &str) -> (r: String)
    ensures
        r@ == ansi_fixed(color, text@),
{
    ansi_term::Colour::Fixed(color).paint(text).to_string()
}

/// `ansi_term::Style::new().bold().paint(text)`, displayed: the text between
/// the bold escape and the reset escape.
#[verifier::external_body]
fn paint_bold(text: &str) -> (r: String)
    ensures
        r@ == ansi_bold(text@),
{
    ansi_term::Style::new().bold().paint(text).to_string()
}

/// The terminal color of each level.
pub open spec fn severity_color(level: Level) -> u8 {
    match level {
        Level::Critical => 1,
        Level::Error => 9,
        Level::Warning => 3,
        Level::Info => 2,
        Level::Debug => 6,
        Level::Trace => 4,
    }
}

/// The terminal color of a level.
pub fn severity_to_color(level: Level) -> (r: u8)
    ensures
        r == severity_color(level),
{
    match level {
        Level::Critical => 1,
        Level::Error => 9,
        Level::Warning => 3,
        Level::Info => 2,
        Level::Debug => 6,
        Level::Trace => 4,
    }
}

/// Decorator that colors records, or leaves them plain.
pub struct ColorDecorator {
    use_color: bool,
}

/// Per-record decorator of `ColorDecorator`: the level in the level's color,
/// messages and keys in bold; without color, everything plain.
pub struct ColorRecordDecorator {
    /// The color of the level, if any
    pub level_color: Option<u8>,
    /// Messages and keys are bold
    pub bold: bool,
}

impl ColorDecorator {
    /// Whether records are colored.
    pub closed spec fn spec_use_color(&self) -> bool {
        self.use_color
    }

    /// New decorator that colors records.
    pub fn new_colored() -> (r: Self)
        ensures
            r.spec_use_color(),
    {
        ColorDecorator { use_color: true }
    }

    /// New decorator that does not color records.
    pub fn new_plain() -> (r: Self)
        ensures
            !r.spec_use_color(),
    {
        ColorDecorator { use_color: false }
    }

    /// New decorator that colors records when `use_color` holds.
    pub fn new(use_color: bool) -> (r: Self)
        ensures
            r.spec_use_color() == use_color,
    {
        ColorDecorator { use_color }
    }
}

impl Decorator for ColorDecorator {
    type RecordDecorator = ColorRecordDecorator;

    open spec fn spec_decorate(&self, record: Record) -> ColorRecordDecorator {
        if self.spec_use_color() {
            ColorRecordDecorator {
                level_color: Some(severity_color(record.spec_level())),
                bold: true,
            }
        } else {
            ColorRecordDecorator { level_color: None, bold: false }
        }
    }

    fn decorate(&self, record: &Record) -> (r: ColorRecordDecorator) {
        if self.use_color {
            ColorRecordDecorator { level_color: Some(severity_to_color(record.level())), bold: true }
        } else {
            ColorRecordDecorator { level_color: None, bold: false }
        }
    }
}

/// A copy of `text`.
fn copy_text(text: &str) -> (r: String)
    ensures
        r@ == text@,
{
    text.to_string()
}

impl RecordDecorator for ColorRecordDecorator {
    open spec fn spec_fmt_msg(&self, text: Seq<char>) -> Seq<char> {
        if self.bold {
            ansi_bold(text)
        } else {
            text
        }
    }

    open spec fn spec_fmt_key(&self, text: Seq<char>) -> Seq<char> {
        if self.bold {
            ansi_bold(text)
        } else {
            text
        }
    }

    open spec fn spec_fmt_separator(&self, text: Seq<char>) -> Seq<char> {
        text
    }

    open spec fn spec_fmt_value(&self, text: Seq<char>) -> Seq<char> {
        text
    }

    open spec fn spec_fmt_timestamp(&self, text: Seq<char>) -> Seq<char> {
        text
    }

    open spec fn spec_fmt_level(&self, text: Seq<char>) -> Seq<char> {
        match self.level_color {
            Some(c) => ansi_fixed(c, text),
            None => text,
        }
    }

    fn fmt_msg(&self, text: &str) -> (r: String) {
        if self.bold {
            paint_bold(text)
        } else {
            copy_text(text)
        }
    }

    fn fmt_key(&self, text: &str) -> (r: String) {
        self.fmt_msg(text)
    }

    fn fmt_separator(&self, text: &str) -> (r: String) {
        copy_text(text)
    }

    fn fmt_value(&self, text: &str) -> (r: String) {
        copy_text(text)
    }

    fn fmt_timestamp(&self, text: &str) -> (r: String) {
        copy_text(text)
    }

    fn fmt_level(&self, text: &str) -> (r: String) {
        match self.level_color {
            Some(c) => paint_fixed(c, text),
            None => copy_text(text),
        }
    }
}

} // verus!
