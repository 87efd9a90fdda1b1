//! The parts of serde_json that the library relies on, with what they are
//! trusted to do.

use vstd::prelude::*;

verus! {

#[verifier::external_type_specification]
#[verifier::external_body]
pub struct ExJsonValue(serde_json::Value);

#[verifier::external_type_specification]
#[verifier::external_body]
pub struct ExJsonError(serde_json::Error);

/// The JSON value that `text` holds, when the whole of `text` is one JSON
/// document.
pub uninterp spec fn json_document(text: Seq<char>) -> Option<serde_json::Value>;

/// The member named `key` of `value`, when `value` is an object that has one.
pub uninterp spec fn json_member(value: serde_json::Value, key: Seq<char>) -> Option<serde_json::Value>;

/// The boolean that `value` is, when it is a boolean.
pub uninterp spec fn json_bool(value: serde_json::Value) -> Option<bool>;

/// Relies on `serde_json::from_str::<serde_json::Value>`: it fails exactly
/// when the text is not one JSON document, and otherwise yields the value
/// that the text holds.
#[verifier::external_body]
pub(crate) fn parse_document(text: &str) -> (r: Result<serde_json::Value, serde_json::Error>)
    ensures
        match r {
            Ok(v) => json_document(text@) == Some(v),
            Err(_) => json_document(text@) is None,
        },
{
    serde_json::from_str(text)
}

/// Relies on `serde_json::Value::get` with a string key: the member of an
/// object under that key, and nothing for a missing key or a value that is
/// not an object.
#[verifier::external_body]
pub(crate) fn member<'a>(value: &'a serde_json::Value, key: &str) -> (r: Option<&'a serde_json::Value>)
    ensures
        match r {
            Some(m) => json_member(*value, key@) == Some(*m),
            None => json_member(*value, key@) is None,
        },
{
    value.get(key)
}

/// Relies on `serde_json::Value::as_bool`: the boolean held by a boolean
/// value, and nothing for any other value.
pub assume_specification[ serde_json::Value::as_bool ](value: &serde_json::Value) -> (r: Option<bool>)
    ensures
        r == json_bool(*value),
;

} // verus!
