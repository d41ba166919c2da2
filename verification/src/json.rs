//! The JSON boundary: a mathematical model of JSON values, and the handful of
//! `serde_json` operations the rest of the crate builds its payloads with.
//!
//! Everything in this file that touches `serde_json` is trusted rather than
//! proved. Each such item says which `serde_json` function it stands for and
//! what is claimed of it.
use vstd::prelude::*;

verus! {

/// A JSON number as `serde_json` tells numbers apart: an integer, or a finite
/// binary64 value given by its bit pattern.
pub enum JsonNumber {
    Integer(int),
    Binary64(u64),
}

/// A JSON value as a mathematical object. Objects are unordered maps from key
/// text to value, so two objects with the same members are equal.
pub enum Json {
    Null,
    Flag(bool),
    Number(JsonNumber),
    Text(Seq<char>),
    List(Seq<Json>),
    Object(Map<Seq<char>, Json>),
}

/// Declares `serde_json::Value` to the verifier as an opaque type.
#[verifier::external_type_specification]
#[verifier::external_body]
pub struct ExValue(serde_json::Value);

/// Declares `serde_json::Map` to the verifier as an opaque type.
#[verifier::external_type_specification]
#[verifier::external_body]
#[verifier::reject_recursive_types(K)]
#[verifier::reject_recursive_types(V)]
pub struct ExMap<K, V>(serde_json::Map<K, V>);

/// The JSON value that a `serde_json::Value` holds.
pub uninterp spec fn json_view(value: serde_json::Value) -> Json;

/// The members that a `serde_json::Map` holds, by key.
pub uninterp spec fn object_entries(object: serde_json::Map<String, serde_json::Value>) -> Map<
    Seq<char>,
    Json,
>;

/// The members of the empty object.
pub open spec fn no_members() -> Map<Seq<char>, Json> {
    Map::empty()
}

/// The views of a sequence of values, in order.
pub open spec fn json_views(values: Seq<serde_json::Value>) -> Seq<Json> {
    values.map_values(|value: serde_json::Value| json_view(value))
}

/// Trusted: `serde_json::Map::new`. Claims that the new map has no members.
#[verifier::external_body]
pub(crate) fn new_object() -> (object: serde_json::Map<String, serde_json::Value>)
    ensures
        object_entries(object) == no_members(),
{
    serde_json::Map::new()
}

/// Trusted: `serde_json::Map::insert`. Claims that afterwards the map holds
/// `value` under `key` and is otherwise unchanged, and that the value
/// displaced, if the key was present, is handed back.
#[verifier::external_body]
pub(crate) fn object_insert(
    object: &mut serde_json::Map<String, serde_json::Value>,
    key: String,
    value: serde_json::Value,
) -> (displaced: Option<serde_json::Value>)
    ensures
        object_entries(*final(object)) == object_entries(*old(object)).insert(
            key@,
            json_view(value),
        ),
        displaced is Some <==> object_entries(*old(object)).dom().contains(key@),
        displaced matches Some(previous) ==> json_view(previous) == object_entries(
            *old(object),
        )[key@],
{
    object.insert(key, value)
}

/// Trusted: the variant constructor `serde_json::Value::Object`. Claims that
/// the value is the object with exactly the map's members.
#[verifier::external_body]
pub(crate) fn object_value(object: serde_json::Map<String, serde_json::Value>) -> (value:
    serde_json::Value)
    ensures
        json_view(value) == Json::Object(object_entries(object)),
{
    serde_json::Value::Object(object)
}

/// Trusted: the variant constructor `serde_json::Value::String`. Claims that
/// the value is the JSON string with the given text.
#[verifier::external_body]
pub(crate) fn text_value(text: String) -> (value: serde_json::Value)
    ensures
        json_view(value) == Json::Text(text@),
{
    serde_json::Value::String(text)
}

/// Trusted: the variant constructor `serde_json::Value::Array`. Claims that
/// the value is the JSON array of the given items, in order.
#[verifier::external_body]
pub(crate) fn list_value(items: Vec<serde_json::Value>) -> (value: serde_json::Value)
    ensures
        json_view(value) == Json::List(json_views(items@)),
{
    serde_json::Value::Array(items)
}

/// Trusted: `<serde_json::Value as From<i32>>::from`. Claims that the value is
/// the JSON integer `number`.
#[verifier::external_body]
pub(crate) fn integer_value(number: i32) -> (value: serde_json::Value)
    ensures
        json_view(value) == Json::Number(JsonNumber::Integer(number as int)),
{
    serde_json::Value::from(number)
}

} // verus!
