//! JSON documents, read and written by serde_json.
//!
//! A document stays a `serde_json::Value`. What it holds is named by
//! `json_model`, a tree of plain values, and the functions that read a
//! text, look into a value, build one and write it state their results
//! over that tree. Their bodies are calls into serde_json: nothing below is
//! proved of them.

use serde::Serialize;
use serde_json::ser::PrettyFormatter;
use serde_json::{Serializer, Value};
use vstd::prelude::*;

use crate::text::{decimal, decimal_text, same_text};

verus! {

#[verifier::external_type_specification]
#[verifier::external_body]
pub struct ExValue(serde_json::Value);

#[verifier::external_type_specification]
#[verifier::external_body]
pub struct ExError(serde_json::Error);

/// What a JSON document holds.
pub enum JsonValue {
    Null,
    Bool(bool),
    /// A whole number from 0 to 2^64 - 1.
    Unsigned(u64),
    /// Any other number, in the digits that serde_json writes for it.
    Number(Seq<char>),
    Text(Seq<char>),
    Array(Seq<JsonValue>),
    /// The entries of an object in the order of the document. serde_json
    /// keeps one entry for each key.
    Object(Seq<(Seq<char>, JsonValue)>),
}

/// What a `serde_json::Value` holds.
pub uninterp spec fn json_model(v: serde_json::Value) -> JsonValue;

/// The document that serde_json reads from a text, if the text is JSON.
pub uninterp spec fn document_of_text(text: Seq<char>) -> Option<JsonValue>;

/// The text that serde_json writes for a document, one entry to a line and
/// four spaces to a level.
pub uninterp spec fn text_of_document(doc: JsonValue) -> Seq<char>;

/// The value of the first entry under `key` from the entry `from` on.
pub open spec fn find_from(entries: Seq<(Seq<char>, JsonValue)>, key: Seq<char>, from: int) -> Option<
    JsonValue,
>
    decreases entries.len() - from,
{
    if from < 0 || from >= entries.len() {
        None
    } else if entries[from].0 == key {
        Some(entries[from].1)
    } else {
        find_from(entries, key, from + 1)
    }
}

/// No two entries have the same key.
pub open spec fn distinct_keys(keys: Seq<Seq<char>>) -> bool {
    forall|i: int, j: int| 0 <= i < j < keys.len() ==> keys[i] != keys[j]
}

impl JsonValue {
    /// The value under `key`, where the document is an object that has it.
    pub open spec fn field(self, key: Seq<char>) -> Option<JsonValue> {
        match self {
            JsonValue::Object(entries) => find_from(entries, key, 0),
            _ => None,
        }
    }

    /// A short text for a value in an error: a scalar as it is written,
    /// the text of a string, and a mark for a list or an object.
    pub open spec fn gist(self) -> Seq<char> {
        match self {
            JsonValue::Null => "null"@,
            JsonValue::Bool(b) => if b {
                "true"@
            } else {
                "false"@
            },
            JsonValue::Unsigned(n) => decimal(n as nat),
            JsonValue::Number(digits) => digits,
            JsonValue::Text(text) => text,
            JsonValue::Array(_) => "[...]"@,
            JsonValue::Object(_) => "{...}"@,
        }
    }
}

/// One level of a document: what kind of value it is, its content where it
/// is a scalar, and its children where it is a list or an object.
pub enum Node<'a> {
    Null,
    Bool(bool),
    /// A number: its value where it is a whole number from 0 to 2^64 - 1,
    /// and its digits.
    Number(Option<u64>, String),
    Text(&'a str),
    Array(Vec<&'a Value>),
    Object(Vec<(&'a str, &'a Value)>),
}

/// What a list of values holds.
pub open spec fn item_models(items: Seq<&Value>) -> Seq<JsonValue> {
    items.map_values(|item: &Value| json_model(*item))
}

/// What the entries of an object hold.
pub open spec fn entry_models(entries: Seq<(&str, &Value)>) -> Seq<(Seq<char>, JsonValue)> {
    entries.map_values(|entry: (&str, &Value)| (entry.0@, json_model(*entry.1)))
}

/// What a list of owned values holds.
pub open spec fn owned_item_models(items: Seq<Value>) -> Seq<JsonValue> {
    items.map_values(|item: Value| json_model(item))
}

/// What a list of owned entries holds.
pub open spec fn owned_entry_models(entries: Seq<(String, Value)>) -> Seq<(Seq<char>, JsonValue)> {
    entries.map_values(|entry: (String, Value)| (entry.0@, json_model(entry.1)))
}

/// The keys of a list of owned entries.
pub open spec fn owned_keys(entries: Seq<(String, Value)>) -> Seq<Seq<char>> {
    entries.map_values(|entry: (String, Value)| entry.0@)
}

impl<'a> Node<'a> {
    /// The document that the level belongs to.
    pub open spec fn model(self) -> JsonValue {
        match self {
            Node::Null => JsonValue::Null,
            Node::Bool(b) => JsonValue::Bool(b),
            Node::Number(Some(n), _) => JsonValue::Unsigned(n),
            Node::Number(None, digits) => JsonValue::Number(digits@),
            Node::Text(text) => JsonValue::Text(text@),
            Node::Array(items) => JsonValue::Array(item_models(items@)),
            Node::Object(entries) => JsonValue::Object(entry_models(entries@)),
        }
    }

    /// A short text for the value in an error.
    pub fn gist(&self) -> (r: String)
        ensures
            r@ == self.model().gist(),
    {
        match self {
            Node::Null => String::from_str("null"),
            Node::Bool(b) => if *b {
                String::from_str("true")
            } else {
                String::from_str("false")
            },
            Node::Number(Some(n), _) => decimal_text(*n),
            Node::Number(None, digits) => digits.clone(),
            Node::Text(text) => String::from_str(text),
            Node::Array(_) => String::from_str("[...]"),
            Node::Object(_) => String::from_str("{...}"),
        }
    }
}

/// serde_json's `from_str` at the type `Value`. Claimed: the value that
/// comes back holds the document named `document_of_text`, and an error
/// comes back where that name gives none.
#[verifier::external_body]
pub(crate) fn parse_value(text: &str) -> (r: Result<Value, serde_json::Error>)
    ensures
        r matches Ok(v) ==> document_of_text(text@) == Some(json_model(v)),
        r is Err ==> document_of_text(text@) is None,
{
    serde_json::from_str::<Value>(text)
}

/// `to_string` on a `serde_json::Error`: the message with line and column.
/// Nothing is claimed of it.
#[verifier::external_body]
pub(crate) fn error_text(error: &serde_json::Error) -> String {
    error.to_string()
}

/// The variants of `serde_json::Value`, one arm each, with `as_u64` and
/// `to_string` on a number and `iter` on a list and on an object. Claimed:
/// what comes back is one level of what the value holds, the entries of an
/// object in the order in which the map hands them out.
#[verifier::external_body]
pub(crate) fn inspect<'a>(v: &'a Value) -> (r: Node<'a>)
    ensures
        r.model() == json_model(*v),
{
    match v {
        Value::Null => Node::Null,
        Value::Bool(b) => Node::Bool(*b),
        Value::Number(n) => Node::Number(n.as_u64(), n.to_string()),
        Value::String(text) => Node::Text(text.as_str()),
        Value::Array(items) => Node::Array(items.iter().collect()),
        Value::Object(entries) => Node::Object(entries.iter().map(|(k, v)| (k.as_str(), v)).collect()),
    }
}

/// `Value::Null`.
#[verifier::external_body]
pub(crate) fn null_value() -> (r: Value)
    ensures
        json_model(r) == JsonValue::Null,
{
    Value::Null
}

/// `Value::String` on a copy of the text.
#[verifier::external_body]
pub(crate) fn text_value(text: &str) -> (r: Value)
    ensures
        json_model(r) == JsonValue::Text(text@),
{
    Value::String(text.to_owned())
}

/// serde_json's `Value::from` at `u64`, which makes a number that `as_u64`
/// gives back.
#[verifier::external_body]
pub(crate) fn unsigned_value(n: u64) -> (r: Value)
    ensures
        json_model(r) == JsonValue::Unsigned(n),
{
    Value::from(n)
}

/// `Value::Array`.
#[verifier::external_body]
pub(crate) fn array_value(items: Vec<Value>) -> (r: Value)
    ensures
        json_model(r) == JsonValue::Array(owned_item_models(items@)),
{
    Value::Array(items)
}

/// `Value::Object` on the map that serde_json collects from the entries.
/// Claimed for entries with different keys: the map keeps them all, in
/// the order given. (With the same key twice the map would keep one.)
#[verifier::external_body]
pub(crate) fn object_value(entries: Vec<(String, Value)>) -> (r: Value)
    requires
        distinct_keys(owned_keys(entries@)),
    ensures
        json_model(r) == JsonValue::Object(owned_entry_models(entries@)),
{
    Value::Object(entries.into_iter().collect())
}

/// serde_json's `Serializer` with a `PrettyFormatter` of four spaces, run
/// on the value into a buffer. Claimed: the text depends on nothing but
/// what the value holds; it is the text named `text_of_document`. An error
/// of the serializer, which writing a value to memory does not raise,
/// would leave the text cut short.
#[verifier::external_body]
pub(crate) fn pretty_text(v: &Value) -> (r: String)
    ensures
        r@ == text_of_document(json_model(*v)),
{
    let mut buf = Vec::new();
    let formatter = PrettyFormatter::with_indent(b"    ");
    let mut ser = Serializer::with_formatter(&mut buf, formatter);
    let _ = v.serialize(&mut ser);
    String::from_utf8_lossy(&buf).into_owned()
}

/// Looks up the first entry under `key`.
pub fn find_entry<'a>(entries: &Vec<(&'a str, &'a Value)>, key: &str) -> (r: Option<&'a Value>)
    ensures
        match r {
            Some(v) => find_from(entry_models(entries@), key@, 0) == Some(json_model(*v)),
            None => find_from(entry_models(entries@), key@, 0) is None,
        },
{
    let mut i: usize = 0;
    while i < entries.len()
        invariant
            i <= entries.len(),
            find_from(entry_models(entries@), key@, 0) == find_from(
                entry_models(entries@),
                key@,
                i as int,
            ),
        decreases entries.len() - i,
    {
        if same_text(entries[i].0, key) {
            return Some(entries[i].1);
        }
        i += 1;
    }
    None
}

} // verus!
