//! JSON documents, read through `serde_json`.
//!
//! A document is kept as `serde_json` made it and looked into with its own
//! methods. What those methods return is named here, so that the readers of
//! manifests and tokenizer settings can say which fields they take.

use vstd::prelude::*;

verus! {

/// `serde_json::Value`, a JSON document or a part of one. Nothing inside it
/// is seen here; it is read through the functions below.
#[verifier::external_type_specification]
#[verifier::external_body]
pub struct ExJsonValue(serde_json::Value);

/// The document that `serde_json::from_str` reads from a text, if it reads
/// one.
pub uninterp spec fn json_document(text: Seq<char>) -> Option<serde_json::Value>;

/// The member that `serde_json::Value::get` finds under a key: the value
/// under that key where the document is an object that has the key.
pub uninterp spec fn json_member(value: serde_json::Value, key: Seq<char>) -> Option<
    serde_json::Value,
>;

/// The items that `serde_json::Value::as_array` returns: those of an array.
pub uninterp spec fn json_elements(value: serde_json::Value) -> Option<Seq<serde_json::Value>>;

/// The text that `serde_json::Value::as_str` returns: that of a string.
pub uninterp spec fn json_text(value: serde_json::Value) -> Option<Seq<char>>;

/// The number that `serde_json::Value::as_i64` returns: that of an integer
/// between the least and the greatest `i64`.
pub uninterp spec fn json_integer(value: serde_json::Value) -> Option<i64>;

/// The text of the member under `key`, where there is such a member and it
/// is a string.
pub open spec fn member_text(value: serde_json::Value, key: Seq<char>) -> Option<Seq<char>> {
    match json_member(value, key) {
        Some(member) => json_text(member),
        None => None,
    }
}

/// The number of the member under `key`, where there is such a member and
/// it is an integer.
pub open spec fn member_integer(value: serde_json::Value, key: Seq<char>) -> Option<i64> {
    match json_member(value, key) {
        Some(member) => json_integer(member),
        None => None,
    }
}

/// The items of the member under `key`, where there is such a member and it
/// is an array.
pub open spec fn member_elements(value: serde_json::Value, key: Seq<char>) -> Option<
    Seq<serde_json::Value>,
> {
    match json_member(value, key) {
        Some(member) => json_elements(member),
        None => None,
    }
}

/// Parses a JSON text with `serde_json::from_str`; `None` where it reports
/// an error. What it reads depends on the text alone.
#[verifier::external_body]
pub(crate) fn parse(text: &str) -> (doc: Option<serde_json::Value>)
    ensures
        doc == json_document(text@),
{
    serde_json::from_str::<serde_json::Value>(text).ok()
}

/// Looks a key up with `serde_json::Value::get`, which finds nothing in a
/// value that is no object.
#[verifier::external_body]
pub(crate) fn member<'a>(value: &'a serde_json::Value, key: &str) -> (found: Option<
    &'a serde_json::Value,
>)
    ensures
        found matches Some(v) ==> json_member(*value, key@) == Some(*v),
        found is None ==> json_member(*value, key@) is None,
{
    value.get(key)
}

/// The items of an array, by `serde_json::Value::as_array`.
#[verifier::external_body]
pub(crate) fn elements<'a>(value: &'a serde_json::Value) -> (items: Option<
    &'a Vec<serde_json::Value>,
>)
    ensures
        items matches Some(list) ==> json_elements(*value) == Some(list@),
        items is None ==> json_elements(*value) is None,
{
    value.as_array()
}

/// The text of a string, by `serde_json::Value::as_str`.
#[verifier::external_body]
pub(crate) fn text<'a>(value: &'a serde_json::Value) -> (s: Option<&'a str>)
    ensures
        s matches Some(t) ==> json_text(*value) == Some(t@),
        s is None ==> json_text(*value) is None,
{
    value.as_str()
}

/// The number of an integer, by `serde_json::Value::as_i64`.
#[verifier::external_body]
pub(crate) fn integer(value: &serde_json::Value) -> (n: Option<i64>)
    ensures
        n == json_integer(*value),
{
    value.as_i64()
}

/// The text of the member under `key`.
pub fn text_of_member(value: &serde_json::Value, key: &str) -> (s: Option<String>)
    ensures
        crate::model::text_view(s) == member_text(*value, key@),
{
    match member(value, key) {
        Some(m) => match text(m) {
            Some(t) => Some(t.to_owned()),
            None => None,
        },
        None => None,
    }
}

/// The number of the member under `key`.
pub fn integer_of_member(value: &serde_json::Value, key: &str) -> (n: Option<i64>)
    ensures
        n == member_integer(*value, key@),
{
    match member(value, key) {
        Some(m) => integer(m),
        None => None,
    }
}

/// Whether a text is a JSON document.
pub fn is_document(text: &str) -> (valid: bool)
    ensures
        valid == json_document(text@) is Some,
{
    parse(text).is_some()
}

} // verus!
