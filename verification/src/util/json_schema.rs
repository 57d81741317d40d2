//! JSON Schema helpers: schema preparation and validation of values against
//! a schema (through the `jsonschema` crate).

use vstd::prelude::*;
use crate::mcp::types::{json_view, JsonValue, JsonView};
use crate::util::json_text::json_to_serde;

verus! {

/// Optimizes a JSON schema for validation. The schema is kept as it is.
pub fn optimize_schema(schema: &JsonValue) -> (r: JsonValue)
    ensures
        json_view(r) == json_view(*schema),
{
    schema.deep_copy()
}

/// The outcome of checking a value against a schema.
pub enum SchemaCheck {
    /// The value satisfies the schema.
    Valid,
    /// The value violates the schema: the error's message and the location of
    /// the offending part of the value.
    Invalid { error: String, path: String },
    /// The schema could not be used (it is not a valid schema); the message says why.
    Unusable(String),
}

/// Model of a [`SchemaCheck`].
pub ghost enum SchemaCheckView {
    Valid,
    Invalid(Seq<char>, Seq<char>),
    Unusable(Seq<char>),
}

impl View for SchemaCheck {
    type V = SchemaCheckView;

    open spec fn view(&self) -> SchemaCheckView {
        match self {
            SchemaCheck::Valid => SchemaCheckView::Valid,
            SchemaCheck::Invalid { error, path } => SchemaCheckView::Invalid(error@, path@),
            SchemaCheck::Unusable(m) => SchemaCheckView::Unusable(m@),
        }
    }
}

/// What `jsonschema::validator_for` and `Validator::validate` (with default
/// options) give for a schema and a value, each converted to a
/// `serde_json::Value`: valid, the first error with its instance location, or
/// the reason the schema is unusable.
pub uninterp spec fn schema_check(schema: JsonView, value: JsonView) -> SchemaCheckView;

/// Wraps `jsonschema::validator_for` and `Validator::validate`, on the two
/// values converted to `serde_json::Value`.
#[verifier::external_body]
fn check_json_values(schema: &JsonValue, value: &JsonValue) -> (r: SchemaCheck)
    ensures
        r@ == schema_check(schema@, value@),
{
    let (schema, value) = (json_to_serde(schema), json_to_serde(value));
    match jsonschema::validator_for(&schema) {
        Ok(validator) => match validator.validate(&value) {
            Ok(()) => SchemaCheck::Valid,
            Err(e) => SchemaCheck::Invalid { error: e.to_string(), path: e.instance_path().to_string() },
        },
        Err(e) => SchemaCheck::Unusable(e.to_string()),
    }
}

/// Checks `value` against `schema`.
pub fn check_against_schema(schema: &JsonValue, value: &JsonValue) -> (r: SchemaCheck)
    ensures
        r@ == schema_check(schema@, value@),
{
    check_json_values(schema, value)
}

} // verus!
