//! A JSON document as plain values, and lookups into it.

use vstd::prelude::*;
use crate::text::same_text;

verus! {

/// A parsed JSON value.
///
/// Numbers keep only what the stream decoders read from them: the value as a `u64`
/// where it is a non-negative integer that fits, `None` for any other number.
pub enum Json {
    Null,
    Bool(bool),
    Number(Option<u64>),
    Str(String),
    Array(Vec<Json>),
    Object(Vec<(String, Json)>),
}

#[verifier::external_type_specification]
#[verifier::external_body]
pub struct ExJsonValue(serde_json::Value);

/// What `serde_json` makes of a text: `None` where it is no JSON document.
pub uninterp spec fn json_parsed(text: Seq<char>) -> Option<Json>;

/// Relies on `serde_json::from_str::<serde_json::Value>`: it fails exactly on text that
/// is not one JSON document, and its result depends on the text alone.
#[verifier::external_body]
pub(crate) fn parse_json(text: &str) -> (r: Option<Json>)
    ensures
        r == json_parsed(text@),
{
    match serde_json::from_str::<serde_json::Value>(text) {
        Ok(v) => Some(json_of_value(v)),
        Err(_) => None,
    }
}

/// Carries a `serde_json::Value` over node by node, for `parse_json`: each variant maps
/// to the one of the same name; numbers keep what `serde_json::Number::as_u64` gives.
#[verifier::external_body]
fn json_of_value(v: serde_json::Value) -> Json {
    match v {
        serde_json::Value::Null => Json::Null,
        serde_json::Value::Bool(b) => Json::Bool(b),
        serde_json::Value::Number(n) => Json::Number(n.as_u64()),
        serde_json::Value::String(s) => Json::Str(s),
        serde_json::Value::Array(a) => Json::Array(a.into_iter().map(json_of_value).collect()),
        serde_json::Value::Object(m) => Json::Object(
            m.into_iter().map(|(k, x)| (k, json_of_value(x))).collect(),
        ),
    }
}

/// The value of the first entry named `key` among `entries`.
pub open spec fn entry_value(entries: Seq<(String, Json)>, key: Seq<char>) -> Option<Json>
    decreases entries.len(),
{
    if entries.len() == 0 {
        None
    } else if entries[0].0@ == key {
        Some(entries[0].1)
    } else {
        entry_value(entries.drop_first(), key)
    }
}

/// The member `key` of an object; `None` for a missing member or a value that is no object.
pub open spec fn member(j: Json, key: Seq<char>) -> Option<Json> {
    match j {
        Json::Object(entries) => entry_value(entries@, key),
        _ => None,
    }
}

/// The member `key` of `j` where it is a string.
pub open spec fn str_member(j: Json, key: Seq<char>) -> Option<String> {
    match member(j, key) {
        Some(Json::Str(s)) => Some(s),
        _ => None,
    }
}

/// The member `key` of `j` where it is a boolean.
pub open spec fn bool_member(j: Json, key: Seq<char>) -> Option<bool> {
    match member(j, key) {
        Some(Json::Bool(b)) => Some(b),
        _ => None,
    }
}

/// The member `key` of `j` where it is an integer that fits in a `u32`.
pub open spec fn u32_member(j: Json, key: Seq<char>) -> Option<u32> {
    match member(j, key) {
        Some(Json::Number(Some(n))) => if n <= u32::MAX {
            Some(n as u32)
        } else {
            None
        },
        _ => None,
    }
}

/// The first element of `j` where it is a non-empty array.
pub open spec fn first_element(j: Json) -> Option<Json> {
    match j {
        Json::Array(items) => if items@.len() > 0 {
            Some(items@[0])
        } else {
            None
        },
        _ => None,
    }
}

fn lookup_entry<'a>(entries: &'a Vec<(String, Json)>, key: &str) -> (r: Option<&'a Json>)
    ensures
        match r {
            Some(v) => entry_value(entries@, key@) == Some(*v),
            None => entry_value(entries@, key@) is None,
        },
{
    let mut i: usize = 0;
    assert(entries@.subrange(0, entries@.len() as int) == entries@);
    while i < entries.len()
        invariant
            i <= entries@.len(),
            entry_value(entries@, key@) == entry_value(entries@.subrange(i as int, entries@.len() as int), key@),
        decreases entries.len() - i,
    {
        let ghost rest = entries@.subrange(i as int, entries@.len() as int);
        assert(rest.drop_first() == entries@.subrange(i + 1, entries@.len() as int));
        if same_text(entries[i].0.as_str(), key) {
            return Some(&entries[i].1);
        }
        i = i + 1;
    }
    None
}

/// The member `key` of `j`.
pub fn get<'a>(j: &'a Json, key: &str) -> (r: Option<&'a Json>)
    ensures
        match r {
            Some(v) => member(*j, key@) == Some(*v),
            None => member(*j, key@) is None,
        },
{
    match j {
        Json::Object(entries) => lookup_entry(entries, key),
        _ => None,
    }
}

/// The member `key` of `j` where it is a string.
pub fn get_str<'a>(j: &'a Json, key: &str) -> (r: Option<&'a String>)
    ensures
        match r {
            Some(s) => str_member(*j, key@) == Some(*s),
            None => str_member(*j, key@) is None,
        },
{
    match get(j, key) {
        Some(Json::Str(s)) => Some(s),
        _ => None,
    }
}

/// The member `key` of `j` where it is a boolean.
pub fn get_bool(j: &Json, key: &str) -> (r: Option<bool>)
    ensures
        r == bool_member(*j, key@),
{
    match get(j, key) {
        Some(Json::Bool(b)) => Some(*b),
        _ => None,
    }
}

/// The member `key` of `j` where it is an integer that fits in a `u32`.
pub fn get_u32(j: &Json, key: &str) -> (r: Option<u32>)
    ensures
        r == u32_member(*j, key@),
{
    match get(j, key) {
        Some(Json::Number(Some(n))) => if *n <= u32::MAX as u64 {
            Some(*n as u32)
        } else {
            None
        },
        _ => None,
    }
}

/// The first element of `j` where it is a non-empty array.
pub fn first<'a>(j: &'a Json) -> (r: Option<&'a Json>)
    ensures
        match r {
            Some(v) => first_element(*j) == Some(*v),
            None => first_element(*j) is None,
        },
{
    match j {
        Json::Array(items) => if items.len() > 0 {
            Some(&items[0])
        } else {
            None
        },
        _ => None,
    }
}

} // verus!
