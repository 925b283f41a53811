//! JSON documents, read by `serde_json`.
//!
//! The parser and the documents it builds are `serde_json`'s. This module
//! gives a parsed document a mathematical reading, [`Json`], and states over
//! that reading what the few operations the crate uses return. Nothing here
//! is proved: the contracts are what the rest of the crate trusts about
//! `serde_json`.

use vstd::prelude::*;

verus! {

/// A JSON document as a tree. Booleans and numbers are told apart from the
/// other kinds of value but their values are not read.
pub enum Json {
    Null,
    Bool,
    Number,
    Text(Seq<char>),
    Array(Seq<Json>),
    Object(Map<Seq<char>, Json>),
}

impl Json {
    /// The member `key` of an object; `None` where the value is no object or
    /// the object has no such member.
    pub open spec fn member(self, key: Seq<char>) -> Option<Json> {
        match self {
            Json::Object(members) => if members.contains_key(key) {
                Some(members[key])
            } else {
                None
            },
            _ => None,
        }
    }
}

/// `serde_json::Value`, a parsed document. Nothing of its inside is known
/// but what the contracts below say.
#[verifier::external_type_specification]
#[verifier::external_body]
pub struct ExValue(serde_json::Value);

/// `serde_json::Error`, the parser's complaint about a text.
#[verifier::external_type_specification]
#[verifier::external_body]
pub struct ExError(serde_json::Error);

/// The tree that a parsed document holds.
pub uninterp spec fn tree(value: serde_json::Value) -> Json;

/// The trees that the elements of an array hold.
pub open spec fn trees(items: Seq<serde_json::Value>) -> Seq<Json> {
    Seq::new(items.len(), |i: int| tree(items[i]))
}

/// What parsing `text` as one JSON document gives: the tree, or the parser's
/// complaint.
pub uninterp spec fn parsed(text: Seq<char>) -> Result<Json, Seq<char>>;

/// The text that a parse error displays as.
pub uninterp spec fn complaint(error: serde_json::Error) -> Seq<char>;

/// `serde_json::from_str` at `serde_json::Value`. Trusted: the outcome
/// depends on the text alone.
#[verifier::external_body]
pub(crate) fn parse(text: &str) -> (outcome: Result<serde_json::Value, serde_json::Error>)
    ensures
        match outcome {
            Ok(value) => parsed(text@) == Ok::<Json, Seq<char>>(tree(value)),
            Err(error) => parsed(text@) == Err::<Json, Seq<char>>(complaint(error)),
        },
{
    serde_json::from_str::<serde_json::Value>(text)
}

/// `serde_json::Error`'s `to_string`. Trusted: the text depends on the error
/// alone.
#[verifier::external_body]
pub(crate) fn error_message(error: &serde_json::Error) -> (message: String)
    ensures
        message@ == complaint(*error),
{
    error.to_string()
}

/// `serde_json::Value::get` with a string key. Trusted: it returns the member
/// of that name where the value is an object that has one, and nothing
/// otherwise.
#[verifier::external_body]
pub(crate) fn member<'a>(value: &'a serde_json::Value, key: &str) -> (found: Option<
    &'a serde_json::Value,
>)
    ensures
        match found {
            Some(inner) => tree(*value).member(key@) == Some(tree(*inner)),
            None => tree(*value).member(key@) is None,
        },
{
    value.get(key)
}

/// `serde_json::Value::as_array`. Trusted: an array hands out its elements
/// in order, and only an array hands out any.
pub assume_specification[ serde_json::Value::as_array ](value: &serde_json::Value) -> (items:
    Option<&Vec<serde_json::Value>>)
    ensures
        match items {
            Some(items) => tree(*value) == Json::Array(trees(items@)),
            None => !(tree(*value) is Array),
        },
;

/// `serde_json::Value::as_str`. Trusted: a string hands out its characters,
/// and only a string hands out any.
pub assume_specification[ serde_json::Value::as_str ](value: &serde_json::Value) -> (text: Option<
    &str,
>)
    ensures
        match text {
            Some(text) => tree(*value) == Json::Text(text@),
            None => !(tree(*value) is Text),
        },
;

/// `serde_json::Value::is_null`. Trusted: tells `null` from every other
/// value.
pub assume_specification[ serde_json::Value::is_null ](value: &serde_json::Value) -> (null: bool)
    ensures
        null == (tree(*value) is Null),
;

/// `serde_json::Value::is_object`. Trusted: tells objects from every other
/// value.
pub assume_specification[ serde_json::Value::is_object ](value: &serde_json::Value) -> (object:
    bool)
    ensures
        object == (tree(*value) is Object),
;

} // verus!
