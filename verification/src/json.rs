//! JSON columns that SQLite stores as text: reading them back into documents,
//! with the default each column falls back to, and writing them as text.

use vstd::prelude::*;
use serde_json::Value;
use crate::outside::{parse_json, parsed_json, serialize_json, serialized_json};

verus! {

/// The document stored as `text`, if any was stored and it is JSON.
pub open spec fn stored_json(text: Option<String>) -> Option<Value> {
    match text {
        Some(t) => parsed_json(t@),
        None => None,
    }
}

/// The document stored as `text`, if any was stored and it reads as JSON.
pub fn json_opt(text: Option<String>) -> (r: Option<Value>)
    ensures
        r == stored_json(text),
{
    match text {
        Some(t) => parse_json(t.as_str()),
        None => None,
    }
}

/// The empty JSON array, as `[]` reads.
pub open spec fn empty_array() -> Value {
    parsed_json("[]"@)->0
}

/// The empty JSON object, as `{}` reads.
pub open spec fn empty_object() -> Value {
    parsed_json("{}"@)->0
}

/// JSON null, as `null` reads.
pub open spec fn json_null() -> Value {
    parsed_json("null"@)->0
}

/// The document stored as `text`, else the empty array (a tag list).
pub fn json_or_empty_array(text: Option<String>) -> (r: Value)
    ensures
        r == match stored_json(text) {
            Some(v) => v,
            None => empty_array(),
        },
{
    match json_opt(text) {
        Some(v) => v,
        None => parse_json("[]").unwrap(),
    }
}

/// The document stored as `text`, else the empty object (environment
/// variables).
pub fn json_or_empty_object(text: Option<String>) -> (r: Value)
    ensures
        r == match stored_json(text) {
            Some(v) => v,
            None => empty_object(),
        },
{
    match json_opt(text) {
        Some(v) => v,
        None => parse_json("{}").unwrap(),
    }
}

/// The document written as `text`, else JSON null (action details).
pub fn json_or_null(text: &str) -> (r: Value)
    ensures
        r == match parsed_json(text@) {
            Some(v) => v,
            None => json_null(),
        },
{
    match parse_json(text) {
        Some(v) => v,
        None => parse_json("null").unwrap(),
    }
}

/// The text of a document as it is stored; `{}` when it cannot be written.
pub fn json_text_or_empty_object(v: &Value) -> (r: String)
    ensures
        r@ == match serialized_json(*v) {
            Some(t) => t,
            None => "{}"@,
        },
{
    match serialize_json(v) {
        Some(t) => t,
        None => "{}".to_owned(),
    }
}

} // verus!
