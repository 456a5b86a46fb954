//! A JSON document as the library reads it: the replies of Discord's REST API
//! and the events of its gateway, with the lookups the rest of the crate makes
//! on them.
use vstd::prelude::*;

verus! {

/// One JSON value.
///
/// A number keeps its value when it fits an `i64`; a float, or an integer
/// above `i64::MAX`, is a number with no `i64` value (`Number(None)`).
/// An object is a list of members. One read by `parse_json` comes out sorted
/// by key, each key once (a key repeated in the text keeps its last value);
/// a lookup by name finds the first member of that name.
#[derive(Debug)]
pub enum JsonValue {
    Null,
    Bool(bool),
    Number(Option<i64>),
    Str(String),
    Array(Vec<JsonValue>),
    Object(Vec<(String, JsonValue)>),
}

/// `v[index]`: the element at `index` of an array, and `Null` for an index
/// past its end or for any value that is not an array.
pub open spec fn spec_at(v: JsonValue, index: int) -> JsonValue {
    match v {
        JsonValue::Array(items) => if 0 <= index < items@.len() {
            items@[index]
        } else {
            JsonValue::Null
        },
        _ => JsonValue::Null,
    }
}

/// The value of the first member named `key` among `entries`.
pub open spec fn entry_lookup(entries: Seq<(String, JsonValue)>, key: Seq<char>) -> Option<
    JsonValue,
>
    decreases entries.len(),
{
    if entries.len() == 0 {
        None
    } else if entries[0].0@ == key {
        Some(entries[0].1)
    } else {
        entry_lookup(entries.drop_first(), key)
    }
}

/// `v.get(key)`: the member `key` of an object, and nothing for a value that
/// is not an object.
pub open spec fn spec_get(v: JsonValue, key: Seq<char>) -> Option<JsonValue> {
    match v {
        JsonValue::Object(entries) => entry_lookup(entries@, key),
        _ => None,
    }
}

/// The member `key` of `v[index]`, or, where it has none, the member `key`
/// of `v` itself.
pub open spec fn spec_lookup(v: JsonValue, index: int, key: Seq<char>) -> Option<JsonValue> {
    match spec_get(spec_at(v, index), key) {
        Some(found) => Some(found),
        None => spec_get(v, key),
    }
}

/// The character of the decimal digit `d`.
pub open spec fn digit_char(d: int) -> char {
    (48 + d) as char
}

/// The decimal digits of `n`, most significant first, with no leading zero.
pub open spec fn nat_decimal(n: nat) -> Seq<char>
    decreases n,
{
    if n < 10 {
        seq![digit_char(n as int)]
    } else {
        nat_decimal(n / 10).push(digit_char((n % 10) as int))
    }
}

/// `n` written in decimal, with a leading `-` when it is negative.
pub open spec fn int_decimal(n: int) -> Seq<char> {
    if n < 0 {
        seq!['-'] + nat_decimal((-n) as nat)
    } else {
        nat_decimal(n as nat)
    }
}

/// The text of a member value: a string as it is, a number that fits an
/// `i64` in decimal.
pub open spec fn spec_text(v: JsonValue) -> Option<Seq<char>> {
    match v {
        JsonValue::Str(s) => Some(s@),
        JsonValue::Number(Some(n)) => Some(int_decimal(n as int)),
        _ => None,
    }
}

/// The text of the member `key` of `v`, or the empty text where `v` has no
/// such member or its value is neither a string nor an `i64` number.
pub open spec fn spec_field_text(v: JsonValue, key: Seq<char>) -> Seq<char> {
    match spec_get(v, key) {
        Some(found) => match spec_text(found) {
            Some(t) => t,
            None => Seq::empty(),
        },
        None => Seq::empty(),
    }
}

/// `serde_json::Value`, carried through as it is.
#[verifier::external_type_specification]
#[verifier::external_body]
pub struct ExSerdeValue(serde_json::Value);

/// What `serde_json::from_str` reads from `text`, one value for one: nothing
/// where `text` is not JSON.
pub uninterp spec fn json_of_text(text: Seq<char>) -> Option<JsonValue>;

/// `serde_json::from_str` into a `serde_json::Value`, turned into a
/// `JsonValue` value for value: a number keeps its `i64` value where it has
/// one. The result depends on `text` alone; what it holds for a given text is
/// not spelled out here.
#[verifier::external_body]
pub fn parse_json(text: &str) -> (r: Option<JsonValue>)
    ensures
        r == json_of_text(text@),
{
    match serde_json::from_str::<serde_json::Value>(text) {
        Ok(value) => Some(from_serde(&value)),
        Err(_) => None,
    }
}

/// Turns a `serde_json::Value` into a `JsonValue`, variant for variant
/// (a number by `as_i64`); the part of `parse_json` that converts its result.
#[verifier::external_body]
fn from_serde(v: &serde_json::Value) -> JsonValue {
    match v {
        serde_json::Value::Null => JsonValue::Null,
        serde_json::Value::Bool(b) => JsonValue::Bool(*b),
        serde_json::Value::Number(n) => JsonValue::Number(n.as_i64()),
        serde_json::Value::String(s) => JsonValue::Str(s.clone()),
        serde_json::Value::Array(items) => JsonValue::Array(items.iter().map(from_serde).collect()),
        serde_json::Value::Object(members) => JsonValue::Object(
            members.iter().map(|(k, m)| (k.clone(), from_serde(m))).collect(),
        ),
    }
}

/// `String::push`: appends `c` to `s`.
#[verifier::external_body]
pub(crate) fn push_char(s: &mut String, c: char)
    ensures
        final(s)@ == old(s)@.push(c),
{
    s.push(c);
}

/// `String::pop`: removes the last character of `s`, if there is one, and
/// hands it back.
#[verifier::external_body]
pub(crate) fn pop_char(s: &mut String) -> (r: Option<char>)
    ensures
        old(s)@.len() == 0 ==> r is None && final(s)@ == old(s)@,
        old(s)@.len() > 0 ==> r == Some(old(s)@.last()) && final(s)@ == old(s)@.drop_last(),
{
    s.pop()
}

/// `str == str`: whether the two texts are the same.
#[verifier::external_body]
pub(crate) fn str_eq(a: &str, b: &str) -> (r: bool)
    ensures
        r == (a@ == b@),
{
    a == b
}

/// Appends the characters of `chars` to `s`.
pub(crate) fn push_chars(s: &mut String, chars: &Vec<char>)
    ensures
        final(s)@ == old(s)@ + chars@,
{
    let mut i: usize = 0;
    while i < chars.len()
        invariant
            i <= chars.len(),
            s@ == old(s)@ + chars@.take(i as int),
        decreases chars.len() - i,
    {
        push_char(s, chars[i]);
        i = i + 1;
        assert(chars@.take(i as int) == chars@.take(i - 1).push(chars@[i - 1]));
    }
    assert(chars@.take(chars.len() as int) == chars@);
}

/// The decimal digits of `n`.
fn nat_digits(n: u64) -> (r: Vec<char>)
    ensures
        r@ == nat_decimal(n as nat),
{
    let mut m: u64 = n;
    let mut suffix: Vec<char> = Vec::new();
    while m >= 10
        invariant
            nat_decimal(n as nat) == nat_decimal(m as nat) + suffix@,
        decreases m,
    {
        let d: u64 = m % 10;
        let c: char = char_of_digit(d);
        let ghost old_suffix = suffix@;
        suffix.insert(0, c);
        assert(nat_decimal(m as nat) == nat_decimal((m / 10) as nat).push(digit_char(d as int)));
        assert(nat_decimal((m / 10) as nat).push(digit_char(d as int)) + old_suffix
            == nat_decimal((m / 10) as nat) + suffix@);
        m = m / 10;
    }
    let c: char = char_of_digit(m);
    suffix.insert(0, c);
    suffix
}

/// The character of the decimal digit `d`.
fn char_of_digit(d: u64) -> (c: char)
    requires
        d < 10,
    ensures
        c == digit_char(d as int),
{
    match d {
        0 => '0',
        1 => '1',
        2 => '2',
        3 => '3',
        4 => '4',
        5 => '5',
        6 => '6',
        7 => '7',
        8 => '8',
        _ => '9',
    }
}

/// `n` written in decimal (`i64::to_string`).
pub fn decimal(n: i64) -> (r: String)
    ensures
        r@ == int_decimal(n as int),
{
    let mut r = String::new();
    let magnitude: u64 = if n < 0 {
        if n == i64::MIN {
            9223372036854775808u64
        } else {
            (-n) as u64
        }
    } else {
        n as u64
    };
    if n < 0 {
        push_char(&mut r, '-');
    }
    let digits = nat_digits(magnitude);
    push_chars(&mut r, &digits);
    r
}

impl JsonValue {
    /// `self[index]` where it is an element: the element at `index` of an
    /// array, and nothing otherwise (where `self[index]` reads as `Null`).
    pub fn at(&self, index: usize) -> (r: Option<&JsonValue>)
        ensures
            match *self {
                JsonValue::Array(items) => if index < items@.len() {
                    r == Some(&items@[index as int])
                } else {
                    r is None
                },
                _ => r is None,
            },
            match r {
                Some(item) => spec_at(*self, index as int) == *item,
                None => spec_at(*self, index as int) == JsonValue::Null,
            },
    {
        match self {
            JsonValue::Array(items) => {
                if index < items.len() {
                    Some(&items[index])
                } else {
                    None
                }
            },
            _ => None,
        }
    }

    /// The member `key` of an object, and nothing for a value that is not an
    /// object or has no such member.
    pub fn get(&self, key: &str) -> (r: Option<&JsonValue>)
        ensures
            match r {
                Some(found) => spec_get(*self, key@) == Some(*found),
                None => spec_get(*self, key@) is None,
            },
    {
        match self {
            JsonValue::Object(entries) => {
                let mut i: usize = 0;
                assert(entries@.skip(0) == entries@);
                while i < entries.len()
                    invariant
                        i <= entries.len(),
                        spec_get(*self, key@) == entry_lookup(entries@, key@),
                        entry_lookup(entries@, key@) == entry_lookup(entries@.skip(i as int), key@),
                    decreases entries.len() - i,
                {
                    assert(entries@.skip(i as int).drop_first() == entries@.skip(i + 1));
                    assert(entries@.skip(i as int)[0] == entries@[i as int]);
                    if str_eq(entries[i].0.as_str(), key) {
                        return Some(&entries[i].1);
                    }
                    i = i + 1;
                }
                assert(entries@.skip(i as int).len() == 0);
                None
            },
            _ => None,
        }
    }

    /// The number of elements of an array.
    pub fn array_len(&self) -> (r: Option<usize>)
        ensures
            match *self {
                JsonValue::Array(items) => r matches Some(n) && n == items@.len(),
                _ => r is None,
            },
    {
        match self {
            JsonValue::Array(items) => Some(items.len()),
            _ => None,
        }
    }
}

/// The text of a member value: a string as it is, a number that fits an
/// `i64` in decimal, and nothing for any other value.
pub fn text_of(v: &JsonValue) -> (r: Option<String>)
    ensures
        match r {
            Some(t) => spec_text(*v) == Some(t@),
            None => spec_text(*v) is None,
        },
{
    match v {
        JsonValue::Str(s) => Some(s.clone()),
        JsonValue::Number(Some(n)) => Some(decimal(*n)),
        _ => None,
    }
}

/// The text of the member `key` of `v`; empty where there is none.
pub fn field_text(v: &JsonValue, key: &str) -> (r: String)
    ensures
        r@ == spec_field_text(*v, key@),
{
    match v.get(key) {
        Some(found) => match text_of(found) {
            Some(t) => t,
            None => String::new(),
        },
        None => String::new(),
    }
}

} // verus!
