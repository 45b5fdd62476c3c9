//! A JSON value as the configuration logic reads it.  An object keeps its
//! entries in order, one per key; a number that is not a whole number is
//! held by the text it is written with.
use vstd::prelude::*;
use crate::string_map::entry_value;
use crate::text::{chars_of, decimal, decimal_chars, str_equal, string_of, trim, trim_chars};

verus! {

/// A JSON number.
#[derive(Clone, Debug)]
pub enum JsonNumber {
    /// A whole number that is not negative.
    PosInt(u64),
    /// A negative whole number.
    NegInt(i64),
    /// Any other number, by its text.
    Float(String),
}

/// A JSON value.
#[derive(Debug)]
pub enum JsonValue {
    Null,
    Bool(bool),
    Number(JsonNumber),
    String(String),
    Array(Vec<JsonValue>),
    Object(Vec<(String, JsonValue)>),
}

/// The value of the entry with key `key`, if any (the first such entry).
pub open spec fn obj_get(entries: Seq<(String, JsonValue)>, key: Seq<char>) -> Option<JsonValue> {
    entry_value(entries, key)
}

/// The value of the first of `keys` that the object has, if any.
pub open spec fn obj_get_any(entries: Seq<(String, JsonValue)>, keys: Seq<Seq<char>>) -> Option<JsonValue>
    decreases keys.len(),
{
    if keys.len() == 0 {
        None
    } else if obj_get(entries, keys[0]) is Some {
        obj_get(entries, keys[0])
    } else {
        obj_get_any(entries, keys.drop_first())
    }
}

/// The entry of key `key`.
pub fn object_get<'a>(entries: &'a Vec<(String, JsonValue)>, key: &str) -> (r: Option<&'a JsonValue>)
    ensures
        r matches Some(v) ==> obj_get(entries@, key@) == Some(*v),
        r is None ==> obj_get(entries@, key@) is None,
{
    let mut i: usize = 0;
    assert(entries@.skip(0) =~= entries@);
    while i < entries.len()
        invariant
            i <= entries.len(),
            obj_get(entries@, key@) == obj_get(entries@.skip(i as int), key@),
        decreases entries.len() - i,
    {
        assert(entries@.skip(i as int).drop_first() =~= entries@.skip(i + 1));
        if str_equal(entries[i].0.as_str(), key) {
            return Some(&entries[i].1);
        }
        i = i + 1;
    }
    None
}

/// The entry of the first of `keys` that the object has.
pub fn object_get_any<'a>(entries: &'a Vec<(String, JsonValue)>, keys: &Vec<&str>) -> (r: Option<&'a JsonValue>)
    ensures
        r matches Some(v) ==> obj_get_any(entries@, keys@.map_values(|k: &str| k@)) == Some(*v),
        r is None ==> obj_get_any(entries@, keys@.map_values(|k: &str| k@)) is None,
{
    let ghost kv = keys@.map_values(|k: &str| k@);
    let mut i: usize = 0;
    assert(kv.skip(0) =~= kv);
    while i < keys.len()
        invariant
            i <= keys.len(),
            kv == keys@.map_values(|k: &str| k@),
            obj_get_any(entries@, kv) == obj_get_any(entries@, kv.skip(i as int)),
        decreases keys.len() - i,
    {
        assert(kv.skip(i as int).drop_first() =~= kv.skip(i + 1));
        assert(kv.skip(i as int)[0] == keys@[i as int]@);
        match object_get(entries, keys[i]) {
            Some(v) => {
                return Some(v);
            },
            None => {},
        }
        i = i + 1;
    }
    None
}

/// The text of a string (trimmed) or a number (as written); `None` for
/// other values.
pub open spec fn text_of(v: JsonValue) -> Option<Seq<char>> {
    match v {
        JsonValue::String(s) => Some(trim(s@)),
        JsonValue::Number(JsonNumber::PosInt(n)) => Some(decimal(n as nat)),
        JsonValue::Number(JsonNumber::NegInt(n)) => if n < 0 {
            Some(seq!['-'] + decimal((-n) as nat))
        } else {
            Some(decimal(n as nat))
        },
        JsonValue::Number(JsonNumber::Float(t)) => Some(t@),
        _ => None,
    }
}

/// The value's text (see `text_of`).
pub fn value_text(v: &JsonValue) -> (r: Option<String>)
    ensures
        r matches Some(t) ==> text_of(*v) == Some(t@),
        r is None ==> text_of(*v) is None,
{
    match v {
        JsonValue::String(s) => Some(string_of(&trim_chars(&chars_of(s.as_str())))),
        JsonValue::Number(JsonNumber::PosInt(n)) => Some(string_of(&decimal_chars(*n))),
        JsonValue::Number(JsonNumber::NegInt(n)) => {
            if *n < 0 {
                let magnitude: u64 = if *n == -9223372036854775808 {
                    9223372036854775808
                } else {
                    (-*n) as u64
                };
                let mut t: Vec<char> = Vec::new();
                t.push('-');
                let d = decimal_chars(magnitude);
                let all = crate::text::concat_chars(&t, &d);
                assert(t@ =~= seq!['-']);
                Some(string_of(&all))
            } else {
                Some(string_of(&decimal_chars(*n as u64)))
            }
        },
        JsonValue::Number(JsonNumber::Float(t)) => Some(t.clone()),
        _ => None,
    }
}

} // verus!
