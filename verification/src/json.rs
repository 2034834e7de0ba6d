//! JSON values as `serde_json` holds them, and what the library needs to
//! say about them.
//!
//! A `serde_json::Value` is opaque to the verifier. [`Json`] is its
//! mathematical counterpart; [`json_value`] and [`json_object`] relate the
//! two. The contracts below hold for `serde_json` built without its
//! `preserve_order` feature, in which the members of an object are kept
//! sorted by key, so that an object is determined by its keys and values.

use serde_json::{Error, Number, Value};
use vstd::prelude::*;

verus! {

#[verifier::external_type_specification]
#[verifier::external_body]
pub struct ExValue(Value);

#[verifier::external_type_specification]
#[verifier::external_body]
#[verifier::reject_recursive_types(K)]
#[verifier::reject_recursive_types(V)]
pub struct ExObject<K, V>(serde_json::Map<K, V>);

#[verifier::external_type_specification]
#[verifier::external_body]
pub struct ExNumber(Number);

#[verifier::external_type_specification]
#[verifier::external_body]
pub struct ExError(Error);

/// A JSON value.
pub enum Json {
    Null,
    Bool(bool),
    Number(Number),
    Text(Seq<char>),
    Array(Seq<Json>),
    Object(Map<Seq<char>, Json>),
}

/// The JSON value that a `serde_json::Value` holds.
pub uninterp spec fn json_value(value: Value) -> Json;

/// The members that a `serde_json::Map` holds, by key.
pub uninterp spec fn json_object(object: serde_json::Map<String, Value>) -> Map<Seq<char>, Json>;

/// An object without members.
pub open spec fn no_members() -> Map<Seq<char>, Json> {
    Map::empty()
}

/// The JSON value that `serde_json::from_str` reads from `text`, or nothing
/// where it reports an error.
pub uninterp spec fn json_parsed(text: Seq<char>) -> Option<Json>;

/// The text that `serde_json::to_string_pretty` writes for an object with
/// these members, or nothing where it reports an error.
pub uninterp spec fn json_pretty(members: Map<Seq<char>, Json>) -> Option<Seq<char>>;

/// `serde_json::from_str`, reading a `Value`: the value that the text
/// denotes, or an error where the text is not one JSON value.
#[verifier::external_body]
pub(crate) fn json_from_str(text: &str) -> (parsed: Result<Value, Error>)
    ensures
        match json_parsed(text@) {
            Some(json) => parsed matches Ok(value) && json_value(value) == json,
            None => parsed is Err,
        },
{
    serde_json::from_str(text)
}

/// `Value::as_object_mut`: the members of a value that is an object, to be
/// changed in place, and nothing for any other value.
#[verifier::external_body]
pub(crate) fn json_as_object_mut(value: &mut Value) -> (object: Option<
    &mut serde_json::Map<String, Value>,
>)
    ensures
        match json_value(*old(value)) {
            Json::Object(members) => object matches Some(found) && json_object(*found) == members
                && json_value(*final(value)) == Json::Object(json_object(*final(found))),
            _ => object is None && json_value(*final(value)) == json_value(*old(value)),
        },
{
    value.as_object_mut()
}

/// `Map::new`: an object without members.
#[verifier::external_body]
pub(crate) fn json_object_new() -> (object: serde_json::Map<String, Value>)
    ensures
        json_object(object) == no_members(),
{
    serde_json::Map::new()
}

/// `Map::insert`: sets the member `key` to `value` and returns the value
/// that the member had before, if there was such a member.
#[verifier::external_body]
pub(crate) fn json_object_insert(
    object: &mut serde_json::Map<String, Value>,
    key: String,
    value: Value,
) -> (previous: Option<Value>)
    ensures
        json_object(*final(object)) == json_object(*old(object)).insert(key@, json_value(value)),
        match previous {
            Some(before) => json_object(*old(object)).contains_key(key@) && json_value(before)
                == json_object(*old(object))[key@],
            None => !json_object(*old(object)).contains_key(key@),
        },
{
    object.insert(key, value)
}

/// `Value::String`: the JSON string with this text.
#[verifier::external_body]
pub(crate) fn json_text(text: String) -> (value: Value)
    ensures
        json_value(value) == Json::Text(text@),
{
    Value::String(text)
}

/// `Value::Object`: the JSON object with these members.
#[verifier::external_body]
pub(crate) fn json_from_object(object: serde_json::Map<String, Value>) -> (value: Value)
    ensures
        json_value(value) == Json::Object(json_object(object)),
{
    Value::Object(object)
}

/// `serde_json::to_string_pretty` of an object: its text over several
/// lines, indented by two spaces and without a newline at the end.
#[verifier::external_body]
pub(crate) fn json_to_string_pretty(object: &serde_json::Map<String, Value>) -> (printed: Result<
    String,
    Error,
>)
    ensures
        match json_pretty(json_object(*object)) {
            Some(text) => printed matches Ok(output) && output@ == text,
            None => printed is Err,
        },
{
    serde_json::to_string_pretty(object)
}

} // verus!
