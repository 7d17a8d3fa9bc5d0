use vstd::prelude::*;

use crate::json::{DecodeError, JValue, Json, JsonNumber};
use crate::wire::Wire;

verus! {

#[verifier::external_type_specification]
#[verifier::external_body]
pub struct ExValue(serde_json::Value);

/// The document serde_json reads from a text, as a model; nothing when the text
/// holds no JSON document.
pub uninterp spec fn parsed_json(text: Seq<char>) -> Option<JValue>;

/// The text serde_json writes for a document.
pub uninterp spec fn printed_json(j: JValue) -> Seq<char>;

/// Turns a `serde_json::Value` into a `Json`, variant by variant: an integer that
/// fits in `i64` stays an integer, any other number keeps its decimal text.
/// Used only by the bodies of `parse_json`.
#[verifier::external_body]
fn json_from_value(v: serde_json::Value) -> Json {
    match v {
        serde_json::Value::Null => Json::Null,
        serde_json::Value::Bool(b) => Json::Bool(b),
        serde_json::Value::Number(n) => Json::Number(
            n.as_i64().map_or_else(|| JsonNumber::Decimal(n.to_string()), JsonNumber::Int),
        ),
        serde_json::Value::String(s) => Json::Str(s),
        serde_json::Value::Array(a) => Json::Array(a.into_iter().map(json_from_value).collect()),
        serde_json::Value::Object(m) => Json::Object(
            m.into_iter().map(|(k, x)| (k, json_from_value(x))).collect(),
        ),
    }
}

/// Turns a `Json` into a `serde_json::Value`, variant by variant; a decimal text
/// that `serde_json::Number` does not parse becomes `null`. Used only by the body
/// of `print_json`.
#[verifier::external_body]
fn json_to_value(j: &Json) -> serde_json::Value {
    match j {
        Json::Null => serde_json::Value::Null,
        Json::Bool(b) => serde_json::Value::Bool(*b),
        Json::Number(JsonNumber::Int(n)) => serde_json::Value::from(*n),
        Json::Number(JsonNumber::Decimal(s)) => s.parse::<serde_json::Number>().map_or(
            serde_json::Value::Null, serde_json::Value::Number),
        Json::Str(s) => serde_json::Value::String(s.clone()),
        Json::Array(a) => serde_json::Value::Array(a.iter().map(json_to_value).collect()),
        Json::Object(m) => serde_json::Value::Object(
            m.iter().map(|(k, x)| (k.clone(), json_to_value(x))).collect()),
    }
}

/// Relies on serde_json::from_str into a `serde_json::Value`: the result depends
/// on the text alone, and there is none when the text holds no JSON document.
#[verifier::external_body]
pub(crate) fn parse_json(text: &str) -> (r: Option<Json>)
    ensures
        match r {
            Some(j) => parsed_json(text@) == Some(j@),
            None => parsed_json(text@) is None,
        },
{
    serde_json::from_str::<serde_json::Value>(text).ok().map(json_from_value)
}

/// Relies on the `Display` of `serde_json::Value` (compact JSON text): the text
/// depends on the document alone.
#[verifier::external_body]
pub(crate) fn print_json(j: &Json) -> (r: String)
    ensures
        r@ == printed_json(j@),
{
    json_to_value(j).to_string()
}

/// Reads a protocol value from JSON text.
///
/// Text that holds no JSON document gives `Syntax`; otherwise the document is read
/// as `T::from_json` reads it.
pub fn decode_text<T: Wire>(text: &str) -> (r: Result<T, DecodeError>)
    ensures
        match parsed_json(text@) {
            None => r == Err::<T, DecodeError>(DecodeError::Syntax),
            Some(j) => match r {
                Ok(v) => T::read(j) == Some(v.wire()),
                Err(_) => T::read(j) is None,
            },
        },
{
    match parse_json(text) {
        None => Err(DecodeError::Syntax),
        Some(j) => T::from_json(&j),
    }
}

/// Writes a protocol value as JSON text: the text serde_json writes for its
/// canonical form.
pub fn encode_text<T: Wire>(v: &T) -> (r: String)
    ensures
        r@ == printed_json(v.wire()),
{
    let j = v.to_json();
    print_json(&j)
}

} // verus!
