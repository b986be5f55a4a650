//! JSON, as `serde_json` builds and writes it.
//!
//! A value is built from strings, truth values and objects, and then written
//! as text. What is written is `serde_json`'s to say: the library says which
//! members an object has, and takes the text as it comes.
use vstd::prelude::*;

verus! {

/// A JSON value. Nothing is seen inside it; what counts is its text.
#[verifier::external_type_specification]
#[verifier::external_body]
pub struct ExValue(serde_json::Value);

/// The JSON text of a value: what `serde_json::to_string` writes for it.
pub uninterp spec fn json_text(value: serde_json::Value) -> Seq<char>;

/// The JSON text of a string: the string between double quotes, with the
/// characters that JSON does not take as they are written as escapes.
pub uninterp spec fn json_string(s: Seq<char>) -> Seq<char>;

/// The JSON text of an object, given the name of each member and the JSON
/// text of its value, in the order in which the members were handed in.
pub uninterp spec fn json_object(members: Seq<(Seq<char>, Seq<char>)>) -> Seq<char>;

/// The JSON text of a truth value.
pub open spec fn json_bool(b: bool) -> Seq<char> {
    if b {
        seq!['t', 'r', 'u', 'e']
    } else {
        seq!['f', 'a', 'l', 's', 'e']
    }
}

/// The name of each member of `members` with the JSON text of its value, in
/// order.
pub open spec fn member_texts(members: Seq<(String, serde_json::Value)>) -> Seq<
    (Seq<char>, Seq<char>),
> {
    members.map_values(|m: (String, serde_json::Value)| (m.0@, json_text(m.1)))
}

/// The value that is the string `s`.
///
/// Calls `serde_json::Value::from` on a string slice, which gives
/// `Value::String`. Such a value is written as the string is, so its text is
/// a function of `s` alone, named [`json_string`].
#[verifier::external_body]
pub(crate) fn string_value(s: &str) -> (value: serde_json::Value)
    ensures
        json_text(value) == json_string(s@),
{
    serde_json::Value::from(s)
}

/// The value that is the truth value `b`.
///
/// Calls `serde_json::Value::from` on a `bool`, which gives `Value::Bool`.
/// Such a value is written as the word `true` or the word `false`.
#[verifier::external_body]
pub(crate) fn bool_value(b: bool) -> (value: serde_json::Value)
    ensures
        json_text(value) == json_bool(b),
{
    serde_json::Value::from(b)
}

/// The object with the members of `members`.
///
/// Collects the members into a `serde_json::Map` and makes `Value::Object`
/// of it. An object is written member by member, each as its name and the
/// text of its value, so its text is a function of the names and those
/// texts, named [`json_object`]. In which order the members are written,
/// and which of two members of one name is kept, is the map's to say.
#[verifier::external_body]
pub(crate) fn object_value(members: Vec<(String, serde_json::Value)>) -> (value: serde_json::Value)
    ensures
        json_text(value) == json_object(member_texts(members@)),
{
    serde_json::Value::Object(members.into_iter().collect())
}

/// Writes a value as JSON text.
///
/// Calls `serde_json::to_string`. The call cannot fail: a value serializes
/// itself as null, a truth value, a number, a string, an array or a map with
/// strings for keys, and the serializer writes each of them into a byte
/// vector, which takes whatever is written.
#[verifier::external_body]
pub(crate) fn value_text(value: &serde_json::Value) -> (text: String)
    ensures
        text@ == json_text(*value),
{
    match serde_json::to_string(value) {
        Ok(text) => text,
        Err(_) => String::new(),
    }
}

} // verus!
