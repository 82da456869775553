//! JSON as text: reading and writing with `serde_json`.

use vstd::prelude::*;
use serde_json::Value;
use crate::json::{opt_json_view, JsonNumber, JsonValue, JsonView};

verus! {

#[verifier::external_type_specification]
#[verifier::external_body]
pub struct ExSerdeValue(serde_json::Value);

/// The value a JSON text reads as with `serde_json::from_str`; none when
/// the text is no JSON document.
pub uninterp spec fn json_text_value(text: Seq<char>) -> Option<JsonView>;

/// The compact text `serde_json::to_string` writes for a value.
pub uninterp spec fn json_text_of(v: JsonView) -> Seq<char>;

/// The library value of a `serde_json` value, variant by variant: a
/// number is a non-negative integer, a negative one, or else its text; an
/// object keeps the entries in the order `serde_json` holds them.
#[verifier::external_body]
fn json_of_serde(v: &Value) -> JsonValue {
    match v {
        Value::Null => JsonValue::Null,
        Value::Bool(b) => JsonValue::Bool(*b),
        Value::Number(n) => JsonValue::Number(match (n.as_u64(), n.as_i64()) {
            (Some(u), _) => JsonNumber::PosInt(u),
            (None, Some(i)) => JsonNumber::NegInt(i),
            (None, None) => JsonNumber::Float(n.to_string()),
        }),
        Value::String(s) => JsonValue::String(s.clone()),
        Value::Array(a) => JsonValue::Array(a.iter().map(json_of_serde).collect()),
        Value::Object(m) => JsonValue::Object(m.iter().map(|(k, x)| (k.clone(), json_of_serde(x))).collect()),
    }
}

/// The `serde_json` value of a library value, variant by variant. A number
/// kept as text is read by `serde_json`, and a text that is no number
/// becomes `null`. An object's entries go into the map last to first, so
/// that of two entries with one key the first counts, as in `JsonValue`.
#[verifier::external_body]
fn serde_of_json(v: &JsonValue) -> Value {
    match v {
        JsonValue::Null => Value::Null,
        JsonValue::Bool(b) => Value::Bool(*b),
        JsonValue::Number(JsonNumber::PosInt(n)) => Value::from(*n),
        JsonValue::Number(JsonNumber::NegInt(n)) => Value::from(*n),
        JsonValue::Number(JsonNumber::Float(t)) => serde_json::from_str(t).unwrap_or(Value::Null),
        JsonValue::String(s) => Value::String(s.clone()),
        JsonValue::Array(a) => Value::Array(a.iter().map(serde_of_json).collect()),
        JsonValue::Object(es) => Value::Object(es.iter().rev().map(|(k, x)| (k.clone(), serde_of_json(x))).collect()),
    }
}

/// Reads a JSON text with `serde_json::from_str`; the value it gives is
/// named `json_text_value`, a function of the text alone.
#[verifier::external_body]
pub fn parse_json_text(text: &str) -> (r: Option<JsonValue>)
    ensures
        opt_json_view(match &r { Some(v) => Some(v), None => None }) == json_text_value(text@),
{
    serde_json::from_str::<serde_json::Value>(text).ok().map(|v| json_of_serde(&v))
}

/// Writes a value as compact JSON text with `serde_json::to_string`; the
/// text is named `json_text_of`, a function of the value alone.
#[verifier::external_body]
pub fn json_to_text(v: &JsonValue) -> (r: String)
    ensures
        r@ == json_text_of(v@),
{
    serde_json::Value::to_string(&serde_of_json(v))
}

} // verus!
