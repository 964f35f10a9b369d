//! JSON documents, read through `serde_json`.
//!
//! A parsed document stays a `serde_json::Value`. What such a value holds is
//! named by [`json_tree`], and every accessor used by this crate is described
//! in terms of that tree.

use vstd::prelude::*;

verus! {

/// What a JSON value holds, as far as this crate looks into it. Numbers are
/// not told apart.
pub ghost enum Json {
    Null,
    Bool(bool),
    Number,
    Text(Seq<char>),
    Array(Seq<Json>),
    Object(Map<Seq<char>, Json>),
}

/// `serde_json::Value`, taken whole: nothing inside a value is seen but
/// through [`json_tree`].
#[verifier::external_type_specification]
#[verifier::external_body]
pub struct ExValue(serde_json::Value);

/// `serde_json::Error`, carried through unread.
#[verifier::external_type_specification]
#[verifier::external_body]
pub struct ExError(serde_json::Error);

/// The tree that a `serde_json::Value` holds.
pub uninterp spec fn json_tree(value: serde_json::Value) -> Json;

/// The tree that `serde_json::from_str` reads from a text, or `None` where it
/// rejects the text.
pub uninterp spec fn json_parse(text: Seq<char>) -> Option<Json>;

/// The trees of a run of values, one for one.
pub open spec fn json_trees(values: Seq<serde_json::Value>) -> Seq<Json> {
    values.map_values(|value: serde_json::Value| json_tree(value))
}

/// The member of an object under a key; `Null` where the key is absent or
/// the tree is no object.
pub open spec fn json_member(tree: Json, key: Seq<char>) -> Json {
    match tree {
        Json::Object(members) => if members.contains_key(key) {
            members[key]
        } else {
            Json::Null
        },
        _ => Json::Null,
    }
}

/// The text of a JSON string, and the empty text for anything else.
pub open spec fn text_or_empty(tree: Json) -> Seq<char> {
    match tree {
        Json::Text(text) => text,
        _ => Seq::empty(),
    }
}

/// `serde_json::from_str` at type `Value`: it succeeds exactly on the texts
/// that [`json_parse`] reads, and the value then holds the tree read.
#[verifier::external_body]
pub(crate) fn parse_value(text: &str) -> (r: Result<serde_json::Value, serde_json::Error>)
    ensures
        r is Ok <==> json_parse(text@) is Some,
        r matches Ok(value) ==> json_parse(text@) == Some(json_tree(value)),
{
    serde_json::from_str::<serde_json::Value>(text)
}

/// The `Display` text of a `serde_json::Error`. Nothing is claimed of it.
#[verifier::external_body]
pub(crate) fn error_text(error: &serde_json::Error) -> (r: String) {
    error.to_string()
}

/// `Value::as_array`: the elements of an array, in order, and `None` for any
/// other value.
pub assume_specification<'a>[ serde_json::Value::as_array ](value: &'a serde_json::Value) -> (r:
    Option<&'a Vec<serde_json::Value>>)
    ensures
        match json_tree(*value) {
            Json::Array(items) => r is Some && json_trees(r.unwrap()@) == items,
            _ => r is None,
        },
;

/// `Value::as_str`: the text of a string, and `None` for any other value.
pub assume_specification<'a>[ serde_json::Value::as_str ](value: &'a serde_json::Value) -> (r:
    Option<&'a str>)
    ensures
        match json_tree(*value) {
            Json::Text(text) => r is Some && r.unwrap()@ == text,
            _ => r is None,
        },
;

/// Indexing a `Value` by a string key: the member under that key, and a
/// `Null` value where the key is absent or the value is no object.
#[verifier::external_body]
pub(crate) fn member<'a>(value: &'a serde_json::Value, key: &str) -> (r: &'a serde_json::Value)
    ensures
        json_tree(*r) == json_member(json_tree(*value), key@),
{
    &value[key]
}

/// `Value::from_iter` on one pair of a key and a string: an object whose one
/// member, under `key`, is the string `text`.
#[verifier::external_body]
pub(crate) fn single_text_object(key: &str, text: &str) -> (r: serde_json::Value)
    ensures
        json_tree(r) == Json::Object(Map::empty().insert(key@, Json::Text(text@))),
{
    serde_json::Value::from_iter([(key, text)])
}

} // verus!
