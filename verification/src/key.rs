//! Owned logging keys.
use vstd::prelude::*;
use vstd::std_specs::cmp::PartialEqSpecImpl;
use vstd::std_specs::convert::FromSpecImpl;

verus! {

/// `String::push` appends one character.
pub assume_specification[ String::push ](string: &mut String, ch: char)
    ensures
        final(string)@ == old(string)@.push(ch),
;

/// An owned logging key: its text.
#[derive(Debug, Hash)]
pub struct Key {
    data: String,
}

impl View for Key {
    type V = Seq<char>;

    closed spec fn view(&self) -> Seq<char> {
        self.data@
    }
}

/// The concatenation of a sequence of strings.
pub open spec fn concat_all(parts: Seq<Seq<char>>) -> Seq<char>
    decreases parts.len(),
{
    if parts.len() == 0 {
        Seq::empty()
    } else {
        concat_all(parts.drop_last()) + parts.last()
    }
}

impl Key {
    /// A key with the given text.
    pub fn from_text(text: &str) -> (r: Key)
        ensures
            r@ == text@,
    {
        Key { data: text.to_string() }
    }

    /// A key that owns the given string.
    pub fn from_string(text: String) -> (r: Key)
        ensures
            r@ == text@,
    {
        Key { data: text }
    }

    /// A key made of the given characters, in order.
    pub fn from_chars(chars: &Vec<char>) -> (r: Key)
        ensures
            r@ == chars@,
    {
        let mut data = String::new();
        let mut i: usize = 0;
        while i < chars.len()
            invariant
                i <= chars.len(),
                data@ == chars@.subrange(0, i as int),
            decreases chars.len() - i,
        {
            data.push(chars[i]);
            i = i + 1;
            proof {
                assert(data@ =~= chars@.subrange(0, i as int));
            }
        }
        proof {
            assert(chars@.subrange(0, chars@.len() as int) =~= chars@);
        }
        Key { data }
    }

    /// A key made of the given strings, concatenated in order.
    pub fn from_strings(parts: &Vec<String>) -> (r: Key)
        ensures
            r@ == concat_all(parts@.map_values(|s: String| s@)),
    {
        let ghost views = parts@.map_values(|s: String| s@);
        let mut data = String::new();
        let mut i: usize = 0;
        while i < parts.len()
            invariant
                i <= parts.len(),
                views == parts@.map_values(|s: String| s@),
                data@ == concat_all(views.subrange(0, i as int)),
            decreases parts.len() - i,
        {
            data.append(parts[i].as_str());
            proof {
                assert(views.subrange(0, i + 1).drop_last() =~= views.subrange(0, i as int));
            }
            i = i + 1;
        }
        proof {
            assert(views.subrange(0, parts@.len() as int) =~= views);
        }
        Key { data }
    }

    /// The text of the key.
    pub fn as_str(&self) -> (r: &str)
        ensures
            r@ == self@,
    {
        self.data.as_str()
    }

    /// The text of the key.
    pub fn as_ref(&self) -> (r: &str)
        ensures
            r@ == self@,
    {
        self.as_str()
    }

    /// A copy of the text of the key.
    pub fn into_string(&self) -> (r: String)
        ensures
            r@ == self@,
    {
        self.data.clone()
    }

    /// A copy of the text of the key.
    pub fn into_owned(&self) -> (r: String)
        ensures
            r@ == self@,
    {
        self.data.clone()
    }

    /// The key's text equals `other`.
    pub fn eq_str(&self, other: &str) -> (r: bool)
        ensures
            r == (self@ == other@),
    {
        let o = other.to_string();
        self.data == o
    }

    /// The text a key displays as: its text.
    pub fn to_display_string(&self) -> (r: String)
        ensures
            r@ == self@,
    {
        self.data.clone()
    }
}

impl Clone for Key {
    fn clone(&self) -> (r: Key)
        ensures
            r == *self,
    {
        Key { data: self.data.clone() }
    }
}

impl AsRef<str> for Key {
    fn as_ref(&self) -> (r: &str)
        ensures
            r@ == self@,
    {
        self.as_str()
    }
}

impl Default for Key {
    fn default() -> (r: Key)
        ensures
            r@ == Seq::<char>::empty(),
    {
        Key { data: String::new() }
    }
}

impl PartialEq for Key {
    fn eq(&self, other: &Key) -> (r: bool) {
        self.data == other.data
    }
}

impl PartialEqSpecImpl for Key {
    open spec fn obeys_eq_spec() -> bool {
        true
    }

    open spec fn eq_spec(&self, other: &Key) -> bool {
        self@ == other@
    }
}

impl Eq for Key {}

impl From<&'static str> for Key {
    fn from(data: &'static str) -> (r: Key)
        ensures
            r@ == data@,
    {
        Key::from_text(data)
    }
}

impl FromSpecImpl<&'static str> for Key {
    open spec fn obeys_from_spec() -> bool {
        false
    }

    open spec fn from_spec(v: &'static str) -> Key {
        arbitrary()
    }
}

impl From<String> for Key {
    fn from(data: String) -> (r: Key)
        ensures
            r@ == data@,
    {
        Key::from_string(data)
    }
}

impl FromSpecImpl<String> for Key {
    open spec fn obeys_from_spec() -> bool {
        false
    }

    open spec fn from_spec(v: String) -> Key {
        arbitrary()
    }
}

} // verus!
