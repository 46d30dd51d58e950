//! The JSON boundary: a mathematical model of JSON documents, and the
//! trusted `serde_json` calls that parse a text and read a parsed value.
//!
//! A parsed `serde_json::Value` is opaque to the verifier, so its content is
//! named: `value_model` gives the tree a value holds, and `json_doc` the tree
//! that parsing a given text yields. Every reading call promises its result
//! against those names, and the decode layer is verified on top of them.

use vstd::prelude::*;

use serde_json;

verus! {

/// A JSON document as a mathematical value. Numbers carry no payload:
/// the pipeline never reads one.
pub enum JsonTree {
    Null,
    Bool(bool),
    Number,
    Text(Seq<char>),
    Array(Seq<JsonTree>),
    Object(Map<Seq<char>, JsonTree>),
}

#[verifier::external_type_specification]
#[verifier::external_body]
pub struct ExValue(serde_json::Value);

#[verifier::external_type_specification]
#[verifier::external_body]
pub struct ExJsonError(serde_json::Error);

/// Whether `serde_json` accepts a text as a JSON document.
pub uninterp spec fn json_parses(s: Seq<char>) -> bool;

/// The tree a parsed `serde_json::Value` holds.
pub uninterp spec fn value_model(v: serde_json::Value) -> JsonTree;

/// The tree that parsing an accepted text yields.
pub uninterp spec fn json_doc(s: Seq<char>) -> JsonTree;

/// Relies on serde_json::from_str::<Value>: deterministic in its input, it
/// returns Ok exactly on the texts it accepts as JSON documents, and the
/// parsed value holds the tree the text encodes.
#[verifier::external_body]
pub(crate) fn parse_json(s: &str) -> (r: Result<serde_json::Value, serde_json::Error>)
    ensures
        r is Ok <==> json_parses(s@),
        r matches Ok(v) ==> value_model(v) == json_doc(s@),
{
    serde_json::from_str(s)
}

/// Relies on serde_json::Value::get with a string key: Some exactly when
/// the value is an object holding the key, with the value under the key.
#[verifier::external_body]
pub(crate) fn get_field<'a>(v: &'a serde_json::Value, key: &str) -> (r: Option<
    &'a serde_json::Value,
>)
    ensures
        r is Some <==> (value_model(*v) matches JsonTree::Object(m) && m.contains_key(key@)),
        r matches Some(f) ==> (value_model(*v) matches JsonTree::Object(m) && m.contains_key(key@)
            && value_model(*f) == m[key@]),
{
    v.get(key)
}

/// Relies on serde_json::Value::as_str: Some exactly when the value is a
/// JSON string, with its text.
#[verifier::external_body]
pub(crate) fn value_as_str<'a>(v: &'a serde_json::Value) -> (r: Option<&'a str>)
    ensures
        r is Some <==> value_model(*v) is Text,
        r matches Some(s) ==> value_model(*v) == JsonTree::Text(s@),
{
    v.as_str()
}

/// Relies on serde_json::Value::as_array: Some exactly when the value is a
/// JSON array, with its elements in order.
#[verifier::external_body]
pub(crate) fn value_as_array<'a>(v: &'a serde_json::Value) -> (r: Option<
    &'a Vec<serde_json::Value>,
>)
    ensures
        r is Some <==> value_model(*v) is Array,
        r matches Some(a) ==> (value_model(*v) matches JsonTree::Array(ts) && a@.len() == ts.len()
            && forall|i: int| 0 <= i < ts.len() ==> value_model(#[trigger] a@[i]) == ts[i]),
{
    v.as_array()
}

/// Relies on serde_json::Value::is_null: true exactly when the value is
/// JSON null.
#[verifier::external_body]
pub(crate) fn value_is_null(v: &serde_json::Value) -> (r: bool)
    ensures
        r == (value_model(*v) is Null),
{
    v.is_null()
}

} // verus!
