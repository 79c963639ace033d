//! JSON values as the library reads them, through serde_json.
//!
//! serde_json reads a text into its `Value`; the library holds the same tree
//! as a `Json` of its own and reads members from it with the functions
//! below.  Canonical JSON text is what `serde_json::to_string` writes for a
//! value: compact, with object keys in sorted order.
use vstd::prelude::*;

use crate::text::{json_string, push_char, str_eq};
use serde_json::{Number, Value};

verus! {

#[verifier::external_type_specification]
#[verifier::external_body]
pub struct ExValue(Value);

/// A JSON number as serde_json holds it.
pub enum JsonNumber {
    /// A number serde_json reads as a non-negative integer.
    Unsigned(u64),
    /// A number serde_json reads as a negative integer.
    Negative(i64),
    /// Any other number, by the text serde_json writes for it.
    Float(String),
}

/// A JSON value.  An object lists its members in the order serde_json's map
/// walks them, each key once.
pub enum Json {
    Null,
    Bool(bool),
    Number(JsonNumber),
    Str(String),
    Array(Vec<Json>),
    Object(Vec<(String, Json)>),
}

/// The tree `serde_json::from_str::<Value>` reads from a text; `None` where
/// the text is not JSON.
pub uninterp spec fn serde_json_tree(text: Seq<char>) -> Option<Json>;

/// The text `serde_json::to_string` writes for a value; `None` where it
/// reports an error.
pub uninterp spec fn serde_json_text(v: Json) -> Option<Seq<char>>;

/// The canonical text of the JSON a text holds: read, then written back.
pub open spec fn canonical_json(text: Seq<char>) -> Option<Seq<char>> {
    match serde_json_tree(text) {
        Some(v) => serde_json_text(v),
        None => None,
    }
}

/// The view of an optional text.
pub open spec fn opt_text(o: Option<String>) -> Option<Seq<char>> {
    match o {
        Some(s) => Some(s@),
        None => None,
    }
}

/// Reads a number value the way serde_json's `Number` holds it.
#[verifier::external_body]
fn json_number_of(n: &Value) -> JsonNumber {
    match (n.as_u64(), n.as_i64()) {
        (Some(u), _) => JsonNumber::Unsigned(u),
        (None, Some(i)) => JsonNumber::Negative(i),
        _ => JsonNumber::Float(n.to_string()),
    }
}

/// Reads a value the way serde_json's `Value` holds it.
#[verifier::external_body]
fn json_of_value(v: Value) -> Json {
    match v {
        Value::Null => Json::Null,
        Value::Bool(b) => Json::Bool(b),
        Value::Number(_) => Json::Number(json_number_of(&v)),
        Value::String(s) => Json::Str(s),
        Value::Array(items) => Json::Array(items.into_iter().map(json_of_value).collect()),
        Value::Object(m) => Json::Object(m.into_iter().map(|(k, x)| (k, json_of_value(x))).collect()),
    }
}

/// Turns a number back into serde_json's `Number`.
#[verifier::external_body]
fn number_value(n: &JsonNumber) -> Value {
    match n {
        JsonNumber::Unsigned(u) => Value::Number(Number::from(*u)),
        JsonNumber::Negative(i) => Value::Number(Number::from(*i)),
        JsonNumber::Float(t) => t.parse::<Number>().map(Value::Number).unwrap_or(Value::Null),
    }
}

/// Turns a value back into serde_json's `Value`.
#[verifier::external_body]
fn value_of_json(v: &Json) -> Value {
    match v {
        Json::Null => Value::Null,
        Json::Bool(b) => Value::Bool(*b),
        Json::Number(n) => number_value(n),
        Json::Str(s) => Value::String(s.clone()),
        Json::Array(items) => Value::Array(items.iter().map(value_of_json).collect()),
        Json::Object(m) => Value::Object(m.iter().map(|(k, x)| (k.clone(), value_of_json(x))).collect()),
    }
}

/// `serde_json::from_str::<Value>`: the value a text holds, if it is JSON.
#[verifier::external_body]
pub(crate) fn parse_json(text: &str) -> (r: Option<Json>)
    ensures
        r == serde_json_tree(text@),
{
    match serde_json::from_str::<Value>(text) {
        Ok(v) => Some(json_of_value(v)),
        Err(_) => None,
    }
}

/// `serde_json::to_string` of a value: its canonical text.
#[verifier::external_body]
pub(crate) fn canonicalize_value(v: &Json) -> (r: Option<String>)
    ensures
        opt_text(r) == serde_json_text(*v),
{
    serde_json::to_string(&value_of_json(v)).ok()
}

/// The index of the first member at or after `from` with the key.
pub open spec fn key_index_from(fields: Seq<(String, Json)>, key: Seq<char>, from: int) -> Option<int>
    decreases fields.len() - from,
{
    if from < 0 || from >= fields.len() {
        None
    } else if fields[from].0@ == key {
        Some(from)
    } else {
        key_index_from(fields, key, from + 1)
    }
}

/// The member of an object under a key (`Value::get`); `None` for a value
/// that is not an object or has no such member.
pub open spec fn json_get(v: Json, key: Seq<char>) -> Option<Json> {
    match v {
        Json::Object(fields) => match key_index_from(fields@, key, 0) {
            Some(i) => Some(fields@[i].1),
            None => None,
        },
        _ => None,
    }
}

/// The text of a string value (`Value::as_str`).
pub open spec fn json_str(v: Json) -> Option<Seq<char>> {
    match v {
        Json::Str(s) => Some(s@),
        _ => None,
    }
}

/// A non-negative integer value (`Value::as_u64`).
pub open spec fn json_u64(v: Json) -> Option<u64> {
    match v {
        Json::Number(JsonNumber::Unsigned(n)) => Some(n),
        _ => None,
    }
}

/// Looks a member of an object up by its key.
pub fn json_member<'a>(v: &'a Json, key: &str) -> (r: Option<&'a Json>)
    ensures
        match r {
            Some(m) => json_get(*v, key@) == Some(*m),
            None => json_get(*v, key@) is None,
        },
{
    match v {
        Json::Object(fields) => {
            let mut i: usize = 0;
            while i < fields.len()
                invariant
                    i <= fields@.len(),
                    *v == Json::Object(*fields),
                    key_index_from(fields@, key@, 0) == key_index_from(fields@, key@, i as int),
                decreases fields@.len() - i,
            {
                if str_eq(fields[i].0.as_str(), key) {
                    assert(key_index_from(fields@, key@, i as int) == Some(i as int));
                    return Some(&fields[i].1);
                }
                i = i + 1;
            }
            None
        },
        _ => None,
    }
}

/// The text of a string value.
pub fn json_as_str(v: &Json) -> (r: Option<String>)
    ensures
        opt_text(r) == json_str(*v),
{
    match v {
        Json::Str(s) => Some(s.clone()),
        _ => None,
    }
}

/// A non-negative integer value.
pub fn json_as_u64(v: &Json) -> (r: Option<u64>)
    ensures
        r == json_u64(*v),
{
    match v {
        Json::Number(JsonNumber::Unsigned(n)) => Some(*n),
        _ => None,
    }
}

/// The JSON array of strings `["a","b",...]`.
pub open spec fn json_string_array(v: Seq<String>) -> Seq<char>
    decreases v.len(),
{
    if v.len() == 0 {
        seq!['[', ']']
    } else {
        seq!['['] + json_string_items(v) + seq![']']
    }
}

/// The comma-separated JSON strings of a non-empty list.
pub open spec fn json_string_items(v: Seq<String>) -> Seq<char>
    decreases v.len(),
{
    if v.len() <= 1 {
        if v.len() == 1 { json_string(v[0]@) } else { Seq::empty() }
    } else {
        json_string_items(v.drop_last()) + seq![','] + json_string(v.last()@)
    }
}

/// `serde_json::to_string` of a list of strings: the array of the strings,
/// each escaped as serde_json escapes strings, with no spaces.  Serializing a
/// `Vec<String>` cannot fail.
#[verifier::external_body]
pub(crate) fn string_list_json(v: &Vec<String>) -> (r: String)
    ensures
        r@ == json_string_array(v@),
{
    match serde_json::to_string(v) {
        Ok(s) => s,
        Err(_) => String::new(),
    }
}

/// The canonical JSON text of a value.
pub struct JsonText {
    text: String,
}

impl View for JsonText {
    type V = Seq<char>;

    closed spec fn view(&self) -> Seq<char> {
        self.text@
    }
}

impl JsonText {
    /// The canonical text of a value, if serde_json can write it.
    pub fn from_json(v: &Json) -> (r: Option<JsonText>)
        ensures
            match r {
                Some(t) => serde_json_text(*v) == Some(t@),
                None => serde_json_text(*v) is None,
            },
    {
        match canonicalize_value(v) {
            Some(text) => Some(JsonText { text }),
            None => None,
        }
    }

    /// The canonical text of the JSON a text holds; `None` where the text is
    /// not JSON (`serde_json::from_str` then `serde_json::to_string`).
    pub fn parse(text: &str) -> (r: Option<JsonText>)
        ensures
            match r {
                Some(t) => canonical_json(text@) == Some(t@),
                None => canonical_json(text@) is None,
            },
    {
        match parse_json(text) {
            Some(v) => JsonText::from_json(&v),
            None => None,
        }
    }

    /// `{}`: the empty object.
    pub fn empty_object() -> (r: JsonText)
        ensures
            r@ == seq!['{', '}'],
    {
        let mut text = String::new();
        push_char(&mut text, '{');
        push_char(&mut text, '}');
        JsonText { text }
    }

    /// `[]`: the empty array.
    pub fn empty_array() -> (r: JsonText)
        ensures
            r@ == seq!['[', ']'],
    {
        let mut text = String::new();
        push_char(&mut text, '[');
        push_char(&mut text, ']');
        JsonText { text }
    }

    /// The text.
    pub fn as_str(&self) -> (r: &str)
        ensures
            r@ == self@,
    {
        self.text.as_str()
    }
}

impl Clone for JsonText {
    fn clone(&self) -> (r: Self)
        ensures
            r@ == self@,
    {
        JsonText { text: self.text.clone() }
    }
}

} // verus!
