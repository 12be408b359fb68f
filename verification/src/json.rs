//! JSON documents, read and written by `serde_json`.
//!
//! A document that was read is looked into by JSON Pointers, which name a
//! place in it: `/issue/user/login` is member `login` of member `user` of
//! member `issue`, and `/tags/0` is the first element of member `tags`. In a
//! pointer `~0` stands for `~`. A document to be written is an object whose
//! members are texts.

use vstd::prelude::*;

verus! {

/// `serde_json::Value`, a JSON document. Nothing is seen of what it holds
/// but through the functions below.
#[verifier::external_type_specification]
#[verifier::external_body]
pub struct ExJsonValue(serde_json::Value);

/// `serde_json::Map`, the members of a JSON object.
#[verifier::external_type_specification]
#[verifier::external_body]
#[verifier::reject_recursive_types(K)]
#[verifier::reject_recursive_types(V)]
pub struct ExJsonMap<K, V>(serde_json::Map<K, V>);

/// The document that `serde_json::from_slice` reads from the bytes, or
/// nothing where they are no JSON.
pub uninterp spec fn json_parsed(body: Seq<u8>) -> Option<serde_json::Value>;

/// The text at the place that `pointer` names in `doc`, or nothing where the
/// place does not exist or holds no text.
pub uninterp spec fn json_text_at(doc: serde_json::Value, pointer: Seq<char>) -> Option<Seq<char>>;

/// The integer at the place that `pointer` names in `doc`, or nothing where
/// the place does not exist or holds no integer that fits 64 bits with sign.
pub uninterp spec fn json_integer_at(doc: serde_json::Value, pointer: Seq<char>) -> Option<i64>;

/// The length of the array at the place that `pointer` names in `doc`, or
/// nothing where the place does not exist or holds no array.
pub uninterp spec fn json_length_at(doc: serde_json::Value, pointer: Seq<char>) -> Option<nat>;

/// The members of an object whose members are texts, each under its key.
pub uninterp spec fn json_members(object: serde_json::Map<String, serde_json::Value>) -> Map<
    Seq<char>,
    Seq<char>,
>;

/// The JSON text that `serde_json::to_string` writes for an object with
/// these members.
pub uninterp spec fn json_object_text(members: Map<Seq<char>, Seq<char>>) -> Seq<char>;

/// An object's members where it has none.
pub open spec fn no_members() -> Map<Seq<char>, Seq<char>> {
    Map::empty()
}

/// `serde_json::from_slice` for a `Value`: the document that the bytes spell.
#[verifier::external_body]
pub(crate) fn parse(body: &[u8]) -> (r: Option<serde_json::Value>)
    ensures
        r == json_parsed(body@),
{
    serde_json::from_slice::<serde_json::Value>(body).ok()
}

/// `Value::pointer`, then `Value::as_str`: the text at the place that
/// `pointer` names.
#[verifier::external_body]
pub(crate) fn text_at(doc: &serde_json::Value, pointer: &str) -> (r: Option<String>)
    ensures
        match r {
            Some(text) => json_text_at(*doc, pointer@) == Some(text@),
            None => json_text_at(*doc, pointer@) is None,
        },
{
    doc.pointer(pointer).and_then(|v| v.as_str()).map(|s| s.to_owned())
}

/// `Value::pointer`, then `Value::as_i64`: the integer at the place that
/// `pointer` names.
#[verifier::external_body]
pub(crate) fn integer_at(doc: &serde_json::Value, pointer: &str) -> (r: Option<i64>)
    ensures
        r == json_integer_at(*doc, pointer@),
{
    doc.pointer(pointer).and_then(|v| v.as_i64())
}

/// `Value::pointer`, then `Value::as_array` and `Vec::len`: the length of
/// the array at the place that `pointer` names.
#[verifier::external_body]
pub(crate) fn length_at(doc: &serde_json::Value, pointer: &str) -> (r: Option<usize>)
    ensures
        match r {
            Some(n) => json_length_at(*doc, pointer@) == Some(n as nat),
            None => json_length_at(*doc, pointer@) is None,
        },
{
    doc.pointer(pointer).and_then(|v| v.as_array()).map(|a| a.len())
}

/// `serde_json::Map::new`: an object without members.
#[verifier::external_body]
pub(crate) fn object_new() -> (r: serde_json::Map<String, serde_json::Value>)
    ensures
        json_members(r) == no_members(),
{
    serde_json::Map::new()
}

/// `serde_json::Map::insert` of a `Value::String`: the object gets the text
/// as its member under `key`, in place of what it had there.
#[verifier::external_body]
pub(crate) fn object_insert(
    object: &mut serde_json::Map<String, serde_json::Value>,
    key: &str,
    text: String,
)
    ensures
        json_members(*final(object)) == json_members(*old(object)).insert(key@, text@),
{
    object.insert(key.to_owned(), serde_json::Value::String(text));
}

/// `serde_json::to_string` of an object: its JSON text. Writing an object
/// whose keys are strings into memory does not fail.
#[verifier::external_body]
pub(crate) fn object_text(object: &serde_json::Map<String, serde_json::Value>) -> (r: String)
    ensures
        r@ == json_object_text(json_members(*object)),
{
    serde_json::to_string(object).unwrap_or_default()
}

} // verus!
