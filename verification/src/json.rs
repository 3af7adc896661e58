//! JSON values, as `serde_json` parses and reads them. Nothing in this file
//! is proved: each function states what the named function of `serde_json`
//! does, and the rest of the library is proved against these statements.

use vstd::prelude::*;

verus! {

#[verifier::external_type_specification]
#[verifier::external_body]
pub struct ExJsonValue(serde_json::Value);

#[verifier::external_type_specification]
#[verifier::external_body]
pub struct ExJsonError(serde_json::Error);

/// What a JSON value holds, as far as the library reads it. Of a number
/// only the unsigned integer of 64 bits is kept, where the number is one.
pub enum JsonTree {
    Null,
    Bool(bool),
    Number(Option<u64>),
    Text(Seq<char>),
    Array(Seq<JsonTree>),
    Object(Map<Seq<char>, JsonTree>),
}

/// What the value holds.
pub uninterp spec fn json_tree(value: serde_json::Value) -> JsonTree;

/// What `serde_json::from_str` parses from the text: the contents of the
/// value, where the parser takes the text as one JSON document, and
/// nothing where it refuses the text.
pub uninterp spec fn json_document(text: Seq<char>) -> Option<JsonTree>;

/// `serde_json::from_str` at the type `Value`: parses the whole text as one
/// JSON document. The outcome depends on the text alone. Which texts the
/// parser refuses is not stated here.
#[verifier::external_body]
pub(crate) fn parse_json(text: &str) -> (r: Result<serde_json::Value, serde_json::Error>)
    ensures
        match r {
            Ok(value) => json_document(text@) == Some(json_tree(value)),
            Err(_) => json_document(text@) is None,
        },
{
    serde_json::from_str::<serde_json::Value>(text)
}

/// The `Display` text of a `serde_json::Error`. Nothing is stated of it.
#[verifier::external_body]
pub(crate) fn error_text(error: &serde_json::Error) -> String {
    error.to_string()
}

/// `Value::get` with a string key: the member of an object under the key,
/// and nothing for a missing key or for a value that is no object.
#[verifier::external_body]
pub(crate) fn member<'a>(value: &'a serde_json::Value, key: &str) -> (r: Option<
    &'a serde_json::Value,
>)
    ensures
        match json_tree(*value) {
            JsonTree::Object(members) => if members.contains_key(key@) {
                r matches Some(m) && json_tree(*m) == members[key@]
            } else {
                r is None
            },
            _ => r is None,
        },
{
    value.get(key)
}

/// `Value::as_str`: the contents of a string, and nothing for another
/// value.
#[verifier::external_body]
pub(crate) fn as_text<'a>(value: &'a serde_json::Value) -> (r: Option<&'a str>)
    ensures
        match json_tree(*value) {
            JsonTree::Text(t) => r matches Some(s) && s@ == t,
            _ => r is None,
        },
{
    value.as_str()
}

/// `Value::as_u64`: the number, where the value is an integer from zero to
/// the largest of 64 bits, and nothing for another value.
#[verifier::external_body]
pub(crate) fn as_unsigned(value: &serde_json::Value) -> (r: Option<u64>)
    ensures
        match json_tree(*value) {
            JsonTree::Number(n) => r == n,
            _ => r is None,
        },
{
    value.as_u64()
}

/// `Value::as_array`: the elements of an array, in order, and nothing for
/// another value.
#[verifier::external_body]
pub(crate) fn as_items<'a>(value: &'a serde_json::Value) -> (r: Option<&'a Vec<serde_json::Value>>)
    ensures
        match json_tree(*value) {
            JsonTree::Array(items) => {
                &&& r is Some
                &&& r->0@.len() == items.len()
                &&& forall|i: int|
                    0 <= i < items.len() ==> json_tree(#[trigger] r->0@[i]) == items[i]
            },
            _ => r is None,
        },
{
    value.as_array()
}

} // verus!
