//! The user's answer to the update question, as the page sends it back: a
//! JSON object whose `approved` member is a boolean.

use vstd::prelude::*;
use crate::json::{json_bool, json_document, json_member, member, parse_document};

verus! {

/// The event by which the shell asks the page to put the update question.
pub const PROMPT_EVENT: &'static str = "messterial:prompt-update";

/// The event by which the page sends the user's answer back.
pub const DECISION_EVENT: &'static str = "messterial:update-decision";

/// The member of the answer that holds the user's decision.
pub const APPROVAL_FIELD: &'static str = "approved";

/// The decision held by an answer that has been read as JSON: its
/// `approved` member, when that member is a boolean.
pub open spec fn approval_in(value: serde_json::Value) -> Option<bool> {
    match json_member(value, APPROVAL_FIELD@) {
        Some(field) => json_bool(field),
        None => None,
    }
}

/// The decision held by the text of an answer. Text that is not JSON holds
/// none.
pub open spec fn approval_of(payload: Seq<char>) -> Option<bool> {
    match json_document(payload) {
        Some(value) => approval_in(value),
        None => None,
    }
}

/// Reads the decision from an answer that has been read as JSON.
pub fn approval_from_value(value: &serde_json::Value) -> (r: Option<bool>)
    ensures
        r == approval_in(*value),
{
    match member(value, APPROVAL_FIELD) {
        Some(field) => field.as_bool(),
        None => None,
    }
}

/// Reads the decision from the text of an answer. An answer that is not
/// JSON, or whose `approved` member is missing or not a boolean, holds no
/// decision.
pub fn approval_from_payload(payload: &str) -> (r: Option<bool>)
    ensures
        r == approval_of(payload@),
{
    match parse_document(payload) {
        Ok(value) => approval_from_value(&value),
        Err(_) => None,
    }
}

} // verus!
