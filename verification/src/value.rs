//! Values that can be logged, and their text.
use vstd::prelude::*;

verus! {

/// A value that can be serialized into a log record.
///
/// Every unsigned integer width is carried as `Uint`, every signed one as
/// `Int`; all of them are written in decimal.
pub enum Value {
    /// `()`
    Unit,
    /// An absent optional value
    Absent,
    /// A boolean
    Bool(bool),
    /// A character
    Char(char),
    /// An unsigned integer
    Uint(u64),
    /// A signed integer
    Int(i64),
    /// A string
    Str(String),
}

/// The character of a decimal digit `d < 10`.
pub open spec fn digit_char(d: nat) -> char {
    (48 + d) as char
}

/// The decimal text of a natural number, without leading zeros.
pub open spec fn nat_decimal(n: nat) -> Seq<char>
    decreases n,
{
    if n < 10 {
        seq![digit_char(n)]
    } else {
        nat_decimal(n / 10).push(digit_char(n % 10))
    }
}

/// The decimal text of an integer, with a leading `-` when it is negative.
pub open spec fn int_decimal(i: int) -> Seq<char> {
    if i < 0 {
        seq!['-'] + nat_decimal((-i) as nat)
    } else {
        nat_decimal(i as nat)
    }
}

/// The text `true` or `false`.
pub open spec fn bool_text(b: bool) -> Seq<char> {
    if b {
        "true"@
    } else {
        "false"@
    }
}

impl Value {
    /// The text a value displays as: `()` for unit, `None` for an absent value,
    /// and the usual text of booleans, characters, integers and strings.
    pub open spec fn display_text(self) -> Seq<char> {
        match self {
            Value::Unit => "()"@,
            Value::Absent => "None"@,
            Value::Bool(b) => bool_text(b),
            Value::Char(c) => seq![c],
            Value::Uint(n) => nat_decimal(n as nat),
            Value::Int(i) => int_decimal(i as int),
            Value::Str(s) => s@,
        }
    }

    /// The text of the value as displayed.
    pub fn to_display_string(&self) -> (r: String)
        ensures
            r@ == self.display_text(),
    {
        match self {
            Value::Unit => "()".to_string(),
            Value::Absent => "None".to_string(),
            Value::Bool(b) => bool_to_string(*b),
            Value::Char(c) => {
                let mut s = String::new();
                s.push(*c);
                proof {
                    assert(s@ =~= seq![*c]);
                }
                s
            },
            Value::Uint(n) => u64_to_decimal(*n),
            Value::Int(i) => i64_to_decimal(*i),
            Value::Str(s) => s.clone(),
        }
    }
}

impl Value {
    /// The value of an optional value: the value itself, or `Absent`.
    pub fn from_option(v: Option<Value>) -> (r: Value)
        ensures
            match v {
                Some(x) => r == x,
                None => r == Value::Absent,
            },
    {
        match v {
            Some(x) => x,
            None => Value::Absent,
        }
    }
}

impl Clone for Value {
    fn clone(&self) -> (r: Value)
        ensures
            r == *self,
    {
        match self {
            Value::Unit => Value::Unit,
            Value::Absent => Value::Absent,
            Value::Bool(b) => Value::Bool(*b),
            Value::Char(c) => Value::Char(*c),
            Value::Uint(n) => Value::Uint(*n),
            Value::Int(i) => Value::Int(*i),
            Value::Str(s) => Value::Str(s.clone()),
        }
    }
}

/// The text `true` or `false`.
pub fn bool_to_string(b: bool) -> (r: String)
    ensures
        r@ == bool_text(b),
{
    if b {
        "true".to_string()
    } else {
        "false".to_string()
    }
}

/// The character of a decimal digit.
fn digit(d: u64) -> (r: char)
    requires
        d < 10,
    ensures
        r == digit_char(d as nat),
{
    let b: u8 = d as u8;
    (b + 48) as char
}

/// The decimal text of an unsigned integer.
pub fn u64_to_decimal(n: u64) -> (r: String)
    ensures
        r@ == nat_decimal(n as nat),
{
    let mut m: u64 = n;
    // the digits below `m`, least significant first
    let mut low: Vec<char> = Vec::new();
    while m >= 10
        invariant
            nat_decimal(n as nat) == nat_decimal(m as nat) + low@.reverse(),
        decreases m,
    {
        let d = digit(m % 10);
        proof {
            assert(low@.push(d).reverse() =~= seq![d] + low@.reverse());
        }
        low.push(d);
        m = m / 10;
    }
    let mut s = String::new();
    s.push(digit(m));
    proof {
        assert(s@ =~= nat_decimal(m as nat));
    }
    let mut i: usize = low.len();
    while i > 0
        invariant
            i <= low.len(),
            nat_decimal(n as nat) == nat_decimal(m as nat) + low@.reverse(),
            s@ == nat_decimal(m as nat) + low@.subrange(i as int, low@.len() as int).reverse(),
        decreases i,
    {
        i = i - 1;
        let ghost before = s@;
        s.push(low[i]);
        proof {
            assert(low@.subrange(i as int, low@.len() as int).reverse() =~= low@.subrange(
                i + 1,
                low@.len() as int,
            ).reverse().push(low@[i as int]));
            assert(s@ =~= nat_decimal(m as nat) + low@.subrange(
                i as int,
                low@.len() as int,
            ).reverse());
        }
    }
    proof {
        assert(low@.subrange(0, low@.len() as int) =~= low@);
    }
    s
}

/// The decimal text of a signed integer.
pub fn i64_to_decimal(i: i64) -> (r: String)
    ensures
        r@ == int_decimal(i as int),
{
    if i < 0 {
        let magnitude: u64 = ((-(i + 1)) as u64) + 1;
        let digits = u64_to_decimal(magnitude);
        let mut s = String::new();
        s.push('-');
        s.append(digits.as_str());
        proof {
            assert(s@ =~= seq!['-'] + nat_decimal((-i) as nat));
        }
        s
    } else {
        u64_to_decimal(i as u64)
    }
}

} // verus!
