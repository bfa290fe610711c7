//! The JSON payloads that interactions carry.
//!
//! A payload is a `serde_json::Value`. The crate never looks inside one
//! except for the members of an object and the text of a string; both are
//! named here and the functions below are believed to compute them.

use vstd::prelude::*;

verus! {

/// `serde_json::Value`, a JSON document in memory.
#[verifier::external_type_specification]
#[verifier::external_body]
pub struct ExValue(serde_json::Value);

/// Cloning a JSON value gives a value with the same content.
pub assume_specification[ <serde_json::Value as Clone>::clone ](
    value: &serde_json::Value,
) -> (copy: serde_json::Value)
    ensures
        copy == *value,
;

/// The member that a JSON value holds under `key`: some value when the
/// value is an object with that key, nothing for an object without it and
/// for every value that is not an object.
pub uninterp spec fn json_member(value: serde_json::Value, key: Seq<char>) -> Option<
    serde_json::Value,
>;

/// The text of a JSON value: its characters when the value is a string,
/// nothing otherwise.
pub uninterp spec fn json_text(value: serde_json::Value) -> Option<Seq<char>>;

/// `value` is an object whose only member is `inner`, under `tag`.
pub open spec fn is_tagged(value: serde_json::Value, tag: Seq<char>, inner: serde_json::Value)
    -> bool {
    &&& json_text(value) is None
    &&& forall|key: Seq<char>| #[trigger]
        json_member(value, key) == if key == tag {
            Some(inner)
        } else {
            None
        }
}

/// `value` is the JSON string `text`.
pub open spec fn is_text(value: serde_json::Value, text: Seq<char>) -> bool {
    &&& json_text(value) == Some(text)
    &&& forall|key: Seq<char>| #[trigger] json_member(value, key) is None
}

/// Looks `key` up with `serde_json::Value::get`, which returns the member of
/// an object and `None` for a missing key or another kind of value.
#[verifier::external_body]
pub(crate) fn member<'a>(value: &'a serde_json::Value, key: &str) -> (found: Option<
    &'a serde_json::Value,
>)
    ensures
        match found {
            Some(m) => json_member(*value, key@) == Some(*m),
            None => json_member(*value, key@) is None,
        },
{
    value.get(key)
}

/// Reads a JSON string with `serde_json::Value::as_str`, which returns
/// `None` for every other kind of value.
#[verifier::external_body]
pub(crate) fn as_text<'a>(value: &'a serde_json::Value) -> (found: Option<&'a str>)
    ensures
        match found {
            Some(s) => json_text(*value) == Some(s@),
            None => json_text(*value) is None,
        },
{
    value.as_str()
}

/// Builds the JSON string `text` with `serde_json::Value::String`.
#[verifier::external_body]
pub(crate) fn text_value(text: &str) -> (value: serde_json::Value)
    ensures
        is_text(value, text@),
{
    serde_json::Value::String(text.to_string())
}

/// Builds the JSON object `{ tag: inner }`: a new `serde_json::Map` that
/// receives one entry through `insert`.
#[verifier::external_body]
pub(crate) fn tagged(tag: &str, inner: serde_json::Value) -> (value: serde_json::Value)
    ensures
        is_tagged(value, tag@, inner),
{
    let mut members = serde_json::Map::new();
    members.insert(tag.to_string(), inner);
    serde_json::Value::Object(members)
}

} // verus!
