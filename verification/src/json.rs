//! JSON texts.
use vstd::prelude::*;

use crate::tree;

verus! {

/// Whether a text is one JSON value.
pub open spec fn json_value_ok(text: Seq<char>) -> bool {
    tree::json_shape(text) is Some
}

/// Tests whether a text is one JSON value.
pub(crate) fn is_json_value(text: &str) -> (r: bool)
    ensures
        r == json_value_ok(text@),
{
    tree::parse_json(text).is_some()
}

/// Whether a text is one JSON array.
pub uninterp spec fn json_array_ok(text: Seq<char>) -> bool;

/// `serde_json::from_str` into a `Vec<serde_json::Value>`: whether it succeeds depends on the
/// text alone.
#[verifier::external_body]
pub(crate) fn is_json_array(text: &str) -> (r: bool)
    ensures
        r == json_array_ok(text@),
{
    serde_json::from_str::<Vec<serde_json::Value>>(text).is_ok()
}

/// Whether a text is one JSON object.
pub uninterp spec fn json_object_ok(text: Seq<char>) -> bool;

/// `serde_json::from_str` into a map from `String` to `serde_json::Value`: whether it succeeds
/// depends on the text alone.
#[verifier::external_body]
pub(crate) fn is_json_object(text: &str) -> (r: bool)
    ensures
        r == json_object_ok(text@),
{
    serde_json::from_str::<std::collections::HashMap<String, serde_json::Value>>(text).is_ok()
}

} // verus!
