//! The library's JSON values as `serde_json` sees them: conversions to and
//! from `serde_json::Value`, and the compact text `serde_json` writes.

use vstd::prelude::*;
use crate::mcp::types::{JsonValue, JsonView};

verus! {

/// `serde_json::Value`, carried through as an opaque value.
#[verifier::external_type_specification]
#[verifier::external_body]
pub struct ExSerdeJsonValue(serde_json::Value);

/// Converts a `serde_json::Value` into the library's JSON value, one for one
/// (numbers by their JSON text, object members in the order serde_json keeps).
#[verifier::external_body]
pub(crate) fn json_from_serde(v: &serde_json::Value) -> (r: JsonValue) {
    match v {
        serde_json::Value::Null => JsonValue::Null,
        serde_json::Value::Bool(b) => JsonValue::Bool(*b),
        serde_json::Value::Number(n) => JsonValue::Number(n.to_string()),
        serde_json::Value::String(s) => JsonValue::Str(s.clone()),
        serde_json::Value::Array(a) => JsonValue::Array(a.iter().map(json_from_serde).collect()),
        serde_json::Value::Object(m) => JsonValue::Object(m.iter().map(|(k, x)| (k.clone(), json_from_serde(x))).collect()),
    }
}

/// Converts the library's JSON value into a `serde_json::Value`, one for one;
/// a number is its text read as `serde_json::Number` (a text that is not a
/// JSON number becomes `null`), and of two members with one key the later is
/// kept (`serde_json::Map::insert`).
#[verifier::external_body]
pub(crate) fn json_to_serde(v: &JsonValue) -> (r: serde_json::Value) {
    match v {
        JsonValue::Null => serde_json::Value::Null,
        JsonValue::Bool(b) => serde_json::Value::Bool(*b),
        JsonValue::Number(n) => n.parse::<serde_json::Number>().map(serde_json::Value::Number).unwrap_or(serde_json::Value::Null),
        JsonValue::Str(s) => serde_json::Value::String(s.clone()),
        JsonValue::Array(a) => serde_json::Value::Array(a.iter().map(json_to_serde).collect()),
        JsonValue::Object(m) => serde_json::Value::Object(m.iter().map(|(k, x)| (k.clone(), json_to_serde(x))).collect()),
    }
}

/// What `serde_json` writes for a value (the `Display` of `serde_json::Value`,
/// compact) once converted by [`json_to_serde`].
pub uninterp spec fn serde_json_text(v: JsonView) -> Seq<char>;

/// Wraps the `Display` of `serde_json::Value` (`to_string`), on the value
/// converted one for one.
#[verifier::external_body]
pub(crate) fn to_json_text(v: &JsonValue) -> (r: String)
    ensures
        r@ == serde_json_text(v@),
{
    json_to_serde(v).to_string()
}

} // verus!
