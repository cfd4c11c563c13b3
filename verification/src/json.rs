//! JSON text for request bodies.

use vstd::prelude::*;

verus! {

#[verifier::external_type_specification]
#[verifier::external_body]
pub struct ExJsonError(serde_json::Error);

/// The compact JSON text of an object with three members: a text, a number
/// and another text, each under its name.
pub uninterp spec fn json_members(
    name_a: Seq<char>,
    text_a: Seq<char>,
    name_n: Seq<char>,
    number: u64,
    name_b: Seq<char>,
    text_b: Seq<char>,
) -> Seq<char>;

/// Builds a `serde_json::Map` by three calls of `insert`, wraps it in
/// `serde_json::Value::Object` and writes it with `serde_json::to_string`.
///
/// Two things are claimed of that call. It succeeds: for an object whose
/// names are strings and whose members are strings and an unsigned number,
/// the serializer reports only what its writer reports, and `to_string`
/// writes into a vector in memory, which reports nothing. And the text that
/// comes out is determined by the six arguments.
#[verifier::external_body]
pub(crate) fn encode_members(
    name_a: &str,
    text_a: &str,
    name_n: &str,
    number: u64,
    name_b: &str,
    text_b: &str,
) -> (text: Result<String, serde_json::Error>)
    ensures
        text is Ok,
        text.unwrap()@ == json_members(name_a@, text_a@, name_n@, number, name_b@, text_b@),
{
    let mut members = serde_json::Map::new();
    members.insert(name_a.to_string(), serde_json::Value::from(text_a));
    members.insert(name_n.to_string(), serde_json::Value::from(number));
    members.insert(name_b.to_string(), serde_json::Value::from(text_b));
    serde_json::to_string(&serde_json::Value::Object(members))
}

} // verus!
