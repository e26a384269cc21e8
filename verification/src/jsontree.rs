//! The trusted boundary to the JSON parsing library. The tree values it
//! yields are opaque here: every contract of this crate is stated over the
//! plain values the accessors below hand out, and the verified extraction
//! code accepts whatever they return.

use vstd::prelude::*;

verus! {

#[verifier::external_type_specification]
#[verifier::external_body]
pub struct ExJsonValue(json::JsonValue);

#[verifier::external_type_specification]
#[verifier::external_body]
pub struct ExJsonError(json::Error);

#[verifier::external_type_specification]
#[verifier::external_body]
pub struct ExJsonNumber(json::number::Number);

/// Whether `json::parse` accepts the text. The parse is a function of its
/// text argument alone, so its success can be named even though the tree it
/// builds stays opaque.
pub uninterp spec fn parses_as_json(text: Seq<char>) -> bool;

/// Relies on `json::parse`: parses text into a JSON tree, failing exactly
/// on malformed input; whether it fails depends on the text alone.
#[verifier::external_body]
pub(crate) fn json_parse(text: &str) -> (r: Result<json::JsonValue, json::Error>)
    ensures
        (r is Ok) == parses_as_json(text@),
{
    json::parse(text)
}

/// Relies on the `Index<&str>` impl of `json::JsonValue`: yields the
/// object's member for the key, or a null value for a missing key and for
/// non-object values.
#[verifier::external_body]
pub(crate) fn json_get<'a>(v: &'a json::JsonValue, key: &str) -> &'a json::JsonValue {
    &v[key]
}

/// Relies on `JsonValue::as_str`: a string value's text, `None` for every
/// other kind of value.
#[verifier::external_body]
pub(crate) fn json_as_str(v: &json::JsonValue) -> Option<String> {
    match v.as_str() {
        Some(s) => Some(s.to_string()),
        None => None,
    }
}

/// Relies on `JsonValue::as_bool`: a boolean value's flag, `None` for every
/// other kind of value.
#[verifier::external_body]
pub(crate) fn json_as_bool(v: &json::JsonValue) -> Option<bool> {
    v.as_bool()
}

/// Relies on `JsonValue::as_number`: a numeric value's number, `None` for
/// every other kind of value.
#[verifier::external_body]
pub(crate) fn json_as_number(v: &json::JsonValue) -> Option<json::number::Number> {
    v.as_number()
}

/// Relies on `Number::as_parts`: the sign, decimal mantissa and decimal
/// exponent the number is stored as.
#[verifier::external_body]
pub(crate) fn number_parts(n: &json::number::Number) -> (bool, u64, i16) {
    n.as_parts()
}

/// Relies on `JsonValue::has_key`: whether an object value carries the key.
#[verifier::external_body]
pub(crate) fn json_has_key(v: &json::JsonValue, key: &str) -> bool {
    v.has_key(key)
}

/// Relies on `JsonValue::members` and the `Clone` impl of `json::JsonValue`:
/// the elements of an array value in order, owned; empty for every other
/// kind of value.
#[verifier::external_body]
pub(crate) fn json_members(v: &json::JsonValue) -> Vec<json::JsonValue> {
    v.members().cloned().collect()
}

} // verus!
