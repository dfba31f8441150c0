//! What this crate takes from `serde_json`: the JSON types, and the functions of the library that
//! it calls. Every executable function here is trusted, as its comment says.

use vstd::prelude::*;

verus! {

/// `serde_json::Value`, an opaque type. What a value holds is [`json`].
#[verifier::external_type_specification]
#[verifier::external_body]
pub struct ExJsonValue(serde_json::Value);

/// `serde_json::Map`, an opaque type. What a map holds is [`entries`].
#[verifier::external_type_specification]
#[verifier::external_body]
#[verifier::reject_recursive_types(K)]
#[verifier::reject_recursive_types(V)]
pub struct ExJsonMap<K, V>(serde_json::Map<K, V>);

/// `serde_json::Error`, an opaque type. What it says is [`error_text`].
#[verifier::external_type_specification]
#[verifier::external_body]
pub struct ExJsonError(serde_json::Error);

/// The contents of a JSON value.
pub enum Json {
    /// An object: its members by name.
    Object(Map<Seq<char>, serde_json::Value>),
    /// An array: its elements in order.
    Array(Seq<serde_json::Value>),
    /// A string.
    Text(Seq<char>),
    /// A boolean.
    Flag(bool),
    /// A number that is held as an integer.
    Integer(int),
    /// Null, or a number that is held as a floating-point number.
    Other,
}

/// What a `serde_json::Value` holds.
pub uninterp spec fn json(value: serde_json::Value) -> Json;

/// The members that a `serde_json::Map` holds, by name. The order in which the map keeps them is
/// not part of this.
pub uninterp spec fn entries(map: serde_json::Map<String, serde_json::Value>) -> Map<
    Seq<char>,
    serde_json::Value,
>;

/// What a `serde_json::Error` is displayed as.
pub uninterp spec fn error_text(error: serde_json::Error) -> Seq<char>;

/// The member `key` of a JSON value: none where the value is no object or has no such member.
pub open spec fn member(value: serde_json::Value, key: Seq<char>) -> Option<serde_json::Value> {
    match json(value) {
        Json::Object(members) if members.contains_key(key) => Some(members[key]),
        _ => None,
    }
}

/// Calls `serde_json::Map::new` and wraps the map as `serde_json::Value::Object`: an object
/// without members.
#[verifier::external_body]
pub(crate) fn empty_object() -> (value: serde_json::Value)
    ensures
        json(value) == Json::Object(Map::empty()),
{
    serde_json::Value::Object(serde_json::Map::new())
}

/// Builds `serde_json::Value::String`: a JSON string that holds `text`.
#[verifier::external_body]
pub(crate) fn text_value(text: String) -> (value: serde_json::Value)
    ensures
        json(value) == Json::Text(text@),
{
    serde_json::Value::String(text)
}

/// Builds `serde_json::Value::Bool`: a JSON boolean that holds `flag`.
#[verifier::external_body]
pub(crate) fn flag_value(flag: bool) -> (value: serde_json::Value)
    ensures
        json(value) == Json::Flag(flag),
{
    serde_json::Value::Bool(flag)
}

/// Calls `serde_json::Value::get` with a string: the member of that name, if the value is an object
/// that has one.
#[verifier::external_body]
pub(crate) fn get<'a>(value: &'a serde_json::Value, key: &str) -> (found: Option<
    &'a serde_json::Value,
>)
    ensures
        match found {
            Some(found) => member(*value, key@) == Some(*found),
            None => member(*value, key@) is None,
        },
{
    value.get(key)
}

/// Calls `serde_json::Value::as_str`: the text, if the value is a string.
#[verifier::external_body]
pub(crate) fn as_str(value: &serde_json::Value) -> (text: Option<&str>)
    ensures
        match text {
            Some(text) => json(*value) == Json::Text(text@),
            None => !(json(*value) is Text),
        },
{
    value.as_str()
}

/// Calls `serde_json::Value::is_object`: whether the value is an object.
#[verifier::external_body]
pub(crate) fn is_object(value: &serde_json::Value) -> (answer: bool)
    ensures
        answer == (json(*value) is Object),
{
    value.is_object()
}

/// Calls `serde_json::Value::as_object_mut`: the map of an object, through which its members can be
/// changed in place; nothing where the value is no object.
#[verifier::external_body]
pub(crate) fn as_object_mut(value: &mut serde_json::Value) -> (object: Option<
    &mut serde_json::Map<String, serde_json::Value>,
>)
    ensures
        object is Some <==> json(*old(value)) is Object,
        object matches Some(map) ==> json(*old(value)) == Json::Object(entries(*map)) && json(
            *final(value),
        ) == Json::Object(entries(*final(map))),
        object is None ==> *final(value) == *old(value),
{
    value.as_object_mut()
}

/// Calls `serde_json::Map::entry` and then `or_insert` on the entry: the place of `key` in the
/// map, which gets `default` where the map has no such key.
#[verifier::external_body]
pub(crate) fn entry_or_insert(
    map: &mut serde_json::Map<String, serde_json::Value>,
    key: String,
    default: serde_json::Value,
) -> (slot: &mut serde_json::Value)
    ensures
        *slot == if entries(*old(map)).contains_key(key@) {
            entries(*old(map))[key@]
        } else {
            default
        },
        entries(*final(map)) == entries(*old(map)).insert(key@, *final(slot)),
{
    map.entry(key).or_insert(default)
}

/// Calls `serde_json::Map::insert`: `key` now maps to `value`, whatever it mapped to before.
#[verifier::external_body]
pub(crate) fn insert(
    map: &mut serde_json::Map<String, serde_json::Value>,
    key: String,
    value: serde_json::Value,
)
    ensures
        entries(*final(map)) == entries(*old(map)).insert(key@, value),
{
    map.insert(key, value);
}

/// Calls `to_string` on a `serde_json::Error`: the error as it is displayed.
#[verifier::external_body]
pub(crate) fn describe(error: &serde_json::Error) -> (text: String)
    ensures
        text@ == error_text(*error),
{
    error.to_string()
}

} // verus!
