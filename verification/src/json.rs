//! What a JSON text holds at its top level, as `serde_json` reads it.

use vstd::prelude::*;

verus! {

/// The kind of a JSON value.
#[derive(Debug, Clone, PartialEq, Eq)]
pub enum JsonKind {
    Null,
    Bool,
    Number,
    Text,
    Array,
    Object,
}

/// What `serde_json::from_str::<serde_json::Value>` makes of a text: the
/// kind of the value read, or nothing when the text is not JSON.
pub uninterp spec fn spec_json_kind(text: Seq<char>) -> Option<JsonKind>;

/// `serde_json::from_str::<serde_json::Value>`, giving the kind of the value
/// read. Claimed: the answer is the one named by `spec_json_kind`.
#[verifier::external_body]
pub(crate) fn json_kind(text: &str) -> (k: Option<JsonKind>)
    ensures
        k == spec_json_kind(text@),
{
    match serde_json::from_str::<serde_json::Value>(text) {
        Err(_) => None,
        Ok(serde_json::Value::Null) => Some(JsonKind::Null),
        Ok(serde_json::Value::Bool(_)) => Some(JsonKind::Bool),
        Ok(serde_json::Value::Number(_)) => Some(JsonKind::Number),
        Ok(serde_json::Value::String(_)) => Some(JsonKind::Text),
        Ok(serde_json::Value::Array(_)) => Some(JsonKind::Array),
        Ok(serde_json::Value::Object(_)) => Some(JsonKind::Object),
    }
}

/// The text is a JSON object.
pub open spec fn is_json_object(text: Seq<char>) -> bool {
    spec_json_kind(text) == Some(JsonKind::Object)
}

/// The text is a JSON array.
pub open spec fn is_json_array(text: Seq<char>) -> bool {
    spec_json_kind(text) == Some(JsonKind::Array)
}

/// Whether a text is a JSON object.
pub fn json_is_object(text: &str) -> (b: bool)
    ensures
        b == is_json_object(text@),
{
    match json_kind(text) {
        Some(JsonKind::Object) => true,
        _ => false,
    }
}

/// Whether a text is a JSON array.
pub fn json_is_array(text: &str) -> (b: bool)
    ensures
        b == is_json_array(text@),
{
    match json_kind(text) {
        Some(JsonKind::Array) => true,
        _ => false,
    }
}

/// Whether a text is JSON at all.
pub fn json_is_valid(text: &str) -> (b: bool)
    ensures
        b == (spec_json_kind(text@) is Some),
{
    json_kind(text).is_some()
}

} // verus!
