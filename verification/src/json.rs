//! JSON values as the clients' RPC interfaces exchange them, and the accessors that
//! reading them needs.
use vstd::prelude::*;
use crate::text::{parse_u64, parse_i64, chars_of, parse_u64_chars, parse_i64_chars, str_eq};

verus! {

/// A JSON number: a non-negative integer, a negative integer, or a floating-point number
/// given by the bits of its IEEE 754 double.
#[derive(Clone, Copy, Debug)]
pub enum JsonNumber {
    PosInt(u64),
    NegInt(i64),
    Float(u64),
}

/// A JSON value. Object members keep their order; a key is looked up at its first member.
#[derive(Debug)]
pub enum JsonValue {
    Null,
    Bool(bool),
    Number(JsonNumber),
    Str(String),
    Array(Vec<JsonValue>),
    Object(Vec<(String, JsonValue)>),
}

/// The value of the first member named `key`.
pub open spec fn entry(entries: Seq<(String, JsonValue)>, key: Seq<char>) -> Option<JsonValue>
    decreases entries.len(),
{
    if entries.len() == 0 {
        None
    } else if entries[0].0@ == key {
        Some(entries[0].1)
    } else {
        entry(entries.drop_first(), key)
    }
}

/// The member `key` of an object; nothing for other values.
pub open spec fn member(v: JsonValue, key: Seq<char>) -> Option<JsonValue> {
    match v {
        JsonValue::Object(entries) => entry(entries@, key),
        _ => None,
    }
}

/// `value[key]`: the member, or `null` when there is none.
pub open spec fn index(v: JsonValue, key: Seq<char>) -> JsonValue {
    match member(v, key) {
        Some(m) => m,
        None => JsonValue::Null,
    }
}

pub open spec fn as_str(v: JsonValue) -> Option<Seq<char>> {
    match v {
        JsonValue::Str(s) => Some(s@),
        _ => None,
    }
}

pub open spec fn as_bool(v: JsonValue) -> Option<bool> {
    match v {
        JsonValue::Bool(b) => Some(b),
        _ => None,
    }
}

/// `Value::as_u64`: non-negative integers.
pub open spec fn as_u64(v: JsonValue) -> Option<u64> {
    match v {
        JsonValue::Number(JsonNumber::PosInt(n)) => Some(n),
        _ => None,
    }
}

/// `Value::as_i64`: integers within the range of `i64`.
pub open spec fn as_i64(v: JsonValue) -> Option<i64> {
    match v {
        JsonValue::Number(JsonNumber::PosInt(n)) => if n <= i64::MAX {
            Some(n as i64)
        } else {
            None
        },
        JsonValue::Number(JsonNumber::NegInt(n)) => Some(n),
        _ => None,
    }
}

/// The value read as an unsigned integer: a non-negative integer, or a string that
/// parses as one.
pub open spec fn json_u64_spec(v: JsonValue) -> Option<u64> {
    match as_u64(v) {
        Some(n) => Some(n),
        None => match as_i64(v) {
            Some(n) => if n >= 0 {
                Some(n as u64)
            } else {
                match as_str(v) {
                    Some(s) => parse_u64(s),
                    None => None,
                }
            },
            None => match as_str(v) {
                Some(s) => parse_u64(s),
                None => None,
            },
        },
    }
}

/// The value read as a signed integer: an integer, or a string that parses as one.
pub open spec fn json_i64_spec(v: JsonValue) -> Option<i64> {
    match as_i64(v) {
        Some(n) => Some(n),
        None => match as_str(v) {
            Some(s) => parse_i64(s),
            None => None,
        },
    }
}

/// The member `key` of an object, if there is one.
pub fn get_member<'a>(v: &'a JsonValue, key: &str) -> (r: Option<&'a JsonValue>)
    ensures
        match r {
            Some(m) => member(*v, key@) == Some(*m),
            None => member(*v, key@) is None,
        },
{
    match v {
        JsonValue::Object(entries) => {
            let mut i: usize = 0;
            assert(entries@.skip(0) =~= entries@);
            while i < entries.len()
                invariant
                    i <= entries.len(),
                    member(*v, key@) == entry(entries@, key@),
                    entry(entries@, key@) == entry(entries@.skip(i as int), key@),
                decreases entries.len() - i,
            {
                assert(entries@.skip(i as int).drop_first() =~= entries@.skip(i + 1));
                if str_eq(entries[i].0.as_str(), key) {
                    assert(entries@.skip(i as int)[0] == entries@[i as int]);
                    assert(entries@[i as int].0@ == key@);
                    assert(entry(entries@.skip(i as int), key@) == Some(entries@[i as int].1));
                    return Some(&entries[i].1);
                }
                i += 1;
            }
            assert(entries@.skip(i as int) =~= Seq::<(String, JsonValue)>::empty());
            None
        },
        _ => None,
    }
}

/// `value[key]` by value: the member, or `null` when there is none.
pub fn take_member(v: JsonValue, key: &str) -> (r: JsonValue)
    ensures
        r == index(v, key@),
{
    let ghost m = member(v, key@);
    match v {
        JsonValue::Object(mut entries) => {
            let ghost all = entries@;
            let mut i: usize = 0;
            assert(all.skip(0) =~= all);
            while i < entries.len()
                invariant
                    i <= entries.len(),
                    entries@ == all,
                    m == entry(all, key@),
                    m == member(v, key@),
                    entry(all, key@) == entry(all.skip(i as int), key@),
                decreases entries.len() - i,
            {
                assert(all.skip(i as int).drop_first() =~= all.skip(i + 1));
                if str_eq(entries[i].0.as_str(), key) {
                    assert(all.skip(i as int)[0] == all[i as int]);
                    assert(all[i as int].0@ == key@);
                    assert(entry(all.skip(i as int), key@) == Some(all[i as int].1));
                    let pair = entries.remove(i);
                    assert(pair == all[i as int]);
                    return pair.1;
                }
                i += 1;
            }
            assert(all.skip(i as int) =~= Seq::<(String, JsonValue)>::empty());
            JsonValue::Null
        },
        _ => JsonValue::Null,
    }
}

pub fn get_str<'a>(v: &'a JsonValue) -> (r: Option<&'a String>)
    ensures
        match r {
            Some(s) => as_str(*v) == Some(s@),
            None => as_str(*v) is None,
        },
{
    match v {
        JsonValue::Str(s) => Some(s),
        _ => None,
    }
}

pub fn get_bool(v: &JsonValue) -> (r: Option<bool>)
    ensures
        r == as_bool(*v),
{
    match v {
        JsonValue::Bool(b) => Some(*b),
        _ => None,
    }
}

pub fn is_null(v: &JsonValue) -> (r: bool)
    ensures
        r == (*v is Null),
{
    match v {
        JsonValue::Null => true,
        _ => false,
    }
}

pub fn get_u64(v: &JsonValue) -> (r: Option<u64>)
    ensures
        r == as_u64(*v),
{
    match v {
        JsonValue::Number(JsonNumber::PosInt(n)) => Some(*n),
        _ => None,
    }
}

pub fn get_i64(v: &JsonValue) -> (r: Option<i64>)
    ensures
        r == as_i64(*v),
{
    match v {
        JsonValue::Number(JsonNumber::PosInt(n)) => if *n <= 9223372036854775807u64 {
            Some(*n as i64)
        } else {
            None
        },
        JsonValue::Number(JsonNumber::NegInt(n)) => Some(*n),
        _ => None,
    }
}

/// A value read as an unsigned integer (an integer, or a string that parses as one).
pub fn json_u64(v: &JsonValue) -> (r: Option<u64>)
    ensures
        r == json_u64_spec(*v),
{
    if let Some(n) = get_u64(v) {
        return Some(n);
    }
    if let Some(n) = get_i64(v) {
        if n >= 0 {
            return Some(n as u64);
        }
    }
    match get_str(v) {
        Some(s) => {
            let cs = chars_of(s.as_str());
            parse_u64_chars(&cs)
        },
        None => None,
    }
}

/// A value read as a signed integer (an integer, or a string that parses as one).
pub fn json_i64(v: &JsonValue) -> (r: Option<i64>)
    ensures
        r == json_i64_spec(*v),
{
    if let Some(n) = get_i64(v) {
        return Some(n);
    }
    match get_str(v) {
        Some(s) => {
            let cs = chars_of(s.as_str());
            parse_i64_chars(&cs)
        },
        None => None,
    }
}

// ---------------------------------------------------------------------------
// Parsing
// ---------------------------------------------------------------------------

#[verifier::external_type_specification]
#[verifier::external_body]
pub struct ExSerdeJsonValue(serde_json::Value);

#[verifier::external_type_specification]
#[verifier::external_body]
pub struct ExSerdeJsonNumber(serde_json::Number);

/// What `serde_json::from_str::<serde_json::Value>` makes of `text`, in this library's
/// model: the value, or the text of the parser's error.
pub uninterp spec fn parsed_json(text: Seq<char>) -> Result<JsonValue, Seq<char>>;

/// A `serde_json` number in this library's model: integers as they are, other numbers
/// by the bits of their `f64`.
#[verifier::external_body]
fn json_number_model(n: &serde_json::Number) -> JsonNumber {
    match (n.as_u64(), n.as_i64()) {
        (Some(u), _) => JsonNumber::PosInt(u),
        (None, Some(i)) => JsonNumber::NegInt(i),
        _ => JsonNumber::Float(n.as_f64().map_or(0, |x| x.to_bits())),
    }
}

/// A `serde_json` value in this library's model, variant for variant; object members in
/// the order the parsed map holds them.
#[verifier::external_body]
fn json_value_model(v: &serde_json::Value) -> JsonValue {
    match v {
        serde_json::Value::Null => JsonValue::Null,
        serde_json::Value::Bool(b) => JsonValue::Bool(*b),
        serde_json::Value::Number(n) => JsonValue::Number(json_number_model(n)),
        serde_json::Value::String(s) => JsonValue::Str(s.clone()),
        serde_json::Value::Array(a) => JsonValue::Array(a.iter().map(json_value_model).collect()),
        serde_json::Value::Object(m) => JsonValue::Object(m.iter().map(|(k, x)| (k.clone(), json_value_model(x))).collect()),
    }
}

/// `serde_json::from_str::<serde_json::Value>`: the parsed value, or the parser's error
/// as text. The result depends on the text alone; what it is is left to the name
/// `parsed_json`.
#[verifier::external_body]
pub(crate) fn parse_json(text: &str) -> (r: Result<JsonValue, String>)
    ensures
        parsed_json(text@) == match r {
            Ok(v) => Ok::<JsonValue, Seq<char>>(v),
            Err(e) => Err::<JsonValue, Seq<char>>(e@),
        },
{
    match serde_json::from_str::<serde_json::Value>(text) {
        Ok(v) => Ok(json_value_model(&v)),
        Err(e) => Err(e.to_string()),
    }
}

} // verus!
