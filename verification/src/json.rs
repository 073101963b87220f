//! The JSON documents that records travel in, read and built through `serde_json`.
//!
//! A `serde_json::Value` is opaque here. What it holds is named by `json_of`,
//! as a [`Json`], and the functions of this module say over that name what
//! each call into `serde_json` gives.

use vstd::prelude::*;

verus! {

/// `serde_json::Value`, a JSON document, carried through as it is.
#[verifier::external_type_specification]
#[verifier::external_body]
pub struct ExValue(serde_json::Value);

/// `serde_json::Error`, the reason for which bytes were refused or a value
/// was not written. Nothing is read from it.
#[verifier::external_type_specification]
#[verifier::external_body]
pub struct ExJsonError(serde_json::Error);

/// `serde_json::Map`, the keys and values of a JSON object.
#[verifier::external_type_specification]
#[verifier::external_body]
#[verifier::reject_recursive_types(K)]
#[verifier::reject_recursive_types(V)]
pub struct ExJsonMap<K, V>(serde_json::Map<K, V>);

/// What a JSON document holds, as far as the record schema reads it.
pub enum Json {
    /// A string.
    Text(Seq<char>),
    /// An array.
    List(Seq<Json>),
    /// An object: its keys, and the value under each.
    Object(Map<Seq<char>, Json>),
    /// `null`.
    Null,
    /// `true`, `false` or a number.
    Other,
}

/// The document that a `serde_json::Value` holds.
pub uninterp spec fn json_of(v: serde_json::Value) -> Json;

/// The keys of a `serde_json::Map`, and the document under each.
pub uninterp spec fn fields_of(m: serde_json::Map<String, serde_json::Value>) -> Map<
    Seq<char>,
    Json,
>;

/// The document that `serde_json::from_slice` reads from `bytes`, if it reads one.
pub uninterp spec fn json_parsed(bytes: Seq<u8>) -> Option<Json>;

/// The bytes that `serde_json::to_vec` writes for a value, if it writes any.
pub uninterp spec fn json_written(v: serde_json::Value) -> Option<Seq<u8>>;

/// The fields of an object without keys.
pub open spec fn no_fields() -> Map<Seq<char>, Json> {
    Map::empty()
}

/// The documents that the values of a list hold, in order.
pub open spec fn jsons_of(items: Seq<serde_json::Value>) -> Seq<Json> {
    items.map_values(|v: serde_json::Value| json_of(v))
}

/// `serde_json::from_slice` at the type `Value`: the bytes hold one JSON
/// document, which the value then holds, or they are refused.
#[verifier::external_body]
pub(crate) fn parse(bytes: &[u8]) -> (r: Result<serde_json::Value, serde_json::Error>)
    ensures
        match r {
            Ok(v) => json_parsed(bytes@) == Some(json_of(v)),
            Err(_) => json_parsed(bytes@) is None,
        },
{
    serde_json::from_slice::<serde_json::Value>(bytes)
}

/// `serde_json::to_vec` on a `Value`: the bytes written, or an error.
#[verifier::external_body]
pub(crate) fn render(v: &serde_json::Value) -> (r: Result<Vec<u8>, serde_json::Error>)
    ensures
        match r {
            Ok(bytes) => json_written(*v) == Some(bytes@),
            Err(_) => json_written(*v) is None,
        },
{
    serde_json::to_vec(v)
}

/// `Value::is_null`: whether the value is `null`.
#[verifier::external_body]
pub(crate) fn is_null(v: &serde_json::Value) -> (b: bool)
    ensures
        b == (json_of(*v) is Null),
{
    v.is_null()
}

/// `Value::as_object`: the map of an object, and nothing for any other value.
#[verifier::external_body]
pub(crate) fn as_object<'a>(v: &'a serde_json::Value) -> (r: Option<
    &'a serde_json::Map<String, serde_json::Value>,
>)
    ensures
        match r {
            Some(m) => json_of(*v) == Json::Object(fields_of(*m)),
            None => !(json_of(*v) is Object),
        },
{
    v.as_object()
}

/// `Value::as_str`: the characters of a string, and nothing for any other value.
#[verifier::external_body]
pub(crate) fn as_text<'a>(v: &'a serde_json::Value) -> (r: Option<&'a str>)
    ensures
        match r {
            Some(s) => json_of(*v) == Json::Text(s@),
            None => !(json_of(*v) is Text),
        },
{
    v.as_str()
}

/// `Value::as_array`: the items of an array, and nothing for any other value.
#[verifier::external_body]
pub(crate) fn as_items<'a>(v: &'a serde_json::Value) -> (r: Option<&'a Vec<serde_json::Value>>)
    ensures
        match r {
            Some(items) => json_of(*v) == Json::List(jsons_of(items@)),
            None => !(json_of(*v) is List),
        },
{
    v.as_array()
}

/// `Map::get` with a string key: the value under the key, if the map has it.
#[verifier::external_body]
pub(crate) fn get<'a>(m: &'a serde_json::Map<String, serde_json::Value>, key: &str) -> (r: Option<
    &'a serde_json::Value,
>)
    ensures
        match r {
            Some(v) => fields_of(*m).contains_key(key@) && fields_of(*m)[key@] == json_of(*v),
            None => !fields_of(*m).contains_key(key@),
        },
{
    m.get(key)
}

/// `Map::new`: a map without keys.
#[verifier::external_body]
pub(crate) fn new_map() -> (m: serde_json::Map<String, serde_json::Value>)
    ensures
        fields_of(m) == no_fields(),
{
    serde_json::Map::new()
}

/// `Map::insert`: the map then has `value` under `key`, in place of what it
/// had there, and is otherwise unchanged.
#[verifier::external_body]
pub(crate) fn insert(
    m: &mut serde_json::Map<String, serde_json::Value>,
    key: &str,
    value: serde_json::Value,
)
    ensures
        fields_of(*final(m)) == fields_of(*old(m)).insert(key@, json_of(value)),
{
    m.insert(key.to_owned(), value);
}

/// `Value::Object`: the object with the keys and values of the map.
#[verifier::external_body]
pub(crate) fn object_value(m: serde_json::Map<String, serde_json::Value>) -> (v: serde_json::Value)
    ensures
        json_of(v) == Json::Object(fields_of(m)),
{
    serde_json::Value::Object(m)
}

/// `Value::String`: the string with the characters of `s`.
#[verifier::external_body]
pub(crate) fn text_value(s: String) -> (v: serde_json::Value)
    ensures
        json_of(v) == Json::Text(s@),
{
    serde_json::Value::String(s)
}

/// `Value::Array`: the array of the given items, in their order.
#[verifier::external_body]
pub(crate) fn list_value(items: Vec<serde_json::Value>) -> (v: serde_json::Value)
    ensures
        json_of(v) == Json::List(jsons_of(items@)),
{
    serde_json::Value::Array(items)
}

} // verus!
