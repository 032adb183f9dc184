//! The dynamically typed values that a projected row holds.

use vstd::prelude::*;

verus! {

/// A JSON value as a row can hold it: null, an integer or a text.
#[derive(Clone, Debug, PartialEq, Eq)]
pub enum JsonValue {
    Null,
    Number(i64),
    Text(String),
}

/// The mathematical value of a [`JsonValue`].
pub ghost enum JsonModel {
    Null,
    Number(int),
    Text(Seq<char>),
}

impl View for JsonValue {
    type V = JsonModel;

    open spec fn view(&self) -> JsonModel {
        match self {
            JsonValue::Null => JsonModel::Null,
            JsonValue::Number(v) => JsonModel::Number(*v as int),
            JsonValue::Text(s) => JsonModel::Text(s@),
        }
    }
}

/// Calls `serde_json::to_value` on an `i64`. serde_json's value serializer
/// turns every `i64` into `Value::Number` of the same integer, and
/// `Number::as_i64` hands that integer back; the contract claims both.
#[verifier::external_body]
fn serialize_number(v: i64) -> (r: Option<JsonValue>)
    ensures
        r == Some(JsonValue::Number(v)),
{
    match serde_json::to_value(v) {
        Ok(serde_json::Value::Number(n)) => n.as_i64().map(JsonValue::Number),
        _ => None,
    }
}

/// Calls `serde_json::to_value` on a `&str`. serde_json's value serializer
/// turns every text into `Value::String` of a copy of it; the contract
/// claims that.
#[verifier::external_body]
fn serialize_text(s: &str) -> (r: Option<JsonValue>)
    ensures
        r is Some,
        r.unwrap()@ == JsonModel::Text(s@),
{
    match serde_json::to_value(s) {
        Ok(serde_json::Value::String(t)) => Some(JsonValue::Text(t)),
        _ => None,
    }
}

impl JsonValue {
    /// The JSON number for a 32-bit integer.
    pub fn from_i32(v: i32) -> (json: JsonValue)
        ensures
            json@ == JsonModel::Number(v as int),
    {
        match serialize_number(v as i64) {
            Some(json) => json,
            None => JsonValue::Null,
        }
    }

    /// The JSON number for a 64-bit integer.
    pub fn from_i64(v: i64) -> (json: JsonValue)
        ensures
            json@ == JsonModel::Number(v as int),
    {
        match serialize_number(v) {
            Some(json) => json,
            None => JsonValue::Null,
        }
    }

    /// The JSON string for a text.
    pub fn from_text(s: &str) -> (json: JsonValue)
        ensures
            json@ == JsonModel::Text(s@),
    {
        match serialize_text(s) {
            Some(json) => json,
            None => JsonValue::Null,
        }
    }
}

} // verus!
