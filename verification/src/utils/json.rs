//! The boundary to `serde_json`: a mathematical model of a JSON document and
//! the few accessors through which the library reads one.

use vstd::prelude::*;

verus! {

/// What a JSON document holds, as far as this library reads it.
pub enum Json {
    Null,
    Bool(bool),
    /// A number; the payload is what it gives as an unsigned 64-bit integer:
    /// its value where it was written as a non-negative integer that fits,
    /// and nothing otherwise.
    Number(Option<u64>),
    String(Seq<char>),
    Array(Seq<Json>),
    Object(Map<Seq<char>, Json>),
}

#[verifier::external_type_specification]
#[verifier::external_body]
pub struct ExValue(serde_json::Value);

/// The document that a parsed value holds.
pub uninterp spec fn json_model(v: serde_json::Value) -> Json;

/// The document that a text denotes, where it is well-formed JSON.
pub uninterp spec fn json_document(text: Seq<char>) -> Option<Json>;

/// The documents that a sequence of parsed values holds.
pub open spec fn json_models(items: Seq<serde_json::Value>) -> Seq<Json> {
    items.map_values(|v: serde_json::Value| json_model(v))
}

/// The member `key` of `doc`, where `doc` is an object that has one.
pub open spec fn member_of(doc: Json, key: Seq<char>) -> Option<Json> {
    match doc {
        Json::Object(members) => if members.contains_key(key) {
            Some(members[key])
        } else {
            None
        },
        _ => None,
    }
}

/// The text of `doc`, where it is a string.
pub open spec fn text_of(doc: Json) -> Option<Seq<char>> {
    match doc {
        Json::String(s) => Some(s),
        _ => None,
    }
}

/// What `doc` gives as an unsigned 64-bit integer, where it is a number that
/// gives one.
pub open spec fn unsigned_of(doc: Json) -> Option<u64> {
    match doc {
        Json::Number(n) => n,
        _ => None,
    }
}

/// The elements of `doc`, where it is an array.
pub open spec fn elements_of(doc: Json) -> Option<Seq<Json>> {
    match doc {
        Json::Array(items) => Some(items),
        _ => None,
    }
}

/// The text of the member `key` of `doc`, where there is such a member and
/// it is a string.
pub open spec fn text_member(doc: Json, key: Seq<char>) -> Option<Seq<char>> {
    match member_of(doc, key) {
        Some(m) => text_of(m),
        None => None,
    }
}

/// The value of the member `key` of `doc`, where there is such a member
/// and it is an unsigned integer.
pub open spec fn unsigned_member(doc: Json, key: Seq<char>) -> Option<u64> {
    match member_of(doc, key) {
        Some(m) => unsigned_of(m),
        None => None,
    }
}

/// The elements of the member `key` of `doc`, where there is such a member
/// and it is an array.
pub open spec fn array_member(doc: Json, key: Seq<char>) -> Option<Seq<Json>> {
    match member_of(doc, key) {
        Some(m) => elements_of(m),
        None => None,
    }
}

/// `serde_json::from_str` at type `Value`. The result depends on the text
/// alone: it is the document that the text denotes, or `None` where the
/// parser rejects the text.
#[verifier::external_body]
pub(crate) fn parse_document(text: &str) -> (r: Option<serde_json::Value>)
    ensures
        r matches Some(v) ==> json_document(text@) == Some(json_model(v)),
        r is None ==> json_document(text@) is None,
{
    serde_json::from_str::<serde_json::Value>(text).ok()
}

/// `Value::get` with a string key: the member of an object under that key;
/// `None` where the value is no object or has no such member.
#[verifier::external_body]
pub(crate) fn member<'a>(v: &'a serde_json::Value, key: &str) -> (r: Option<&'a serde_json::Value>)
    ensures
        r is Some <==> member_of(json_model(*v), key@) is Some,
        r matches Some(child) ==> Some(json_model(*child)) == member_of(json_model(*v), key@),
{
    v.get(key)
}

/// `Value::as_str`: the text of a string value, `None` for any other value.
#[verifier::external_body]
pub(crate) fn as_text<'a>(v: &'a serde_json::Value) -> (r: Option<&'a str>)
    ensures
        r is Some <==> text_of(json_model(*v)) is Some,
        r matches Some(s) ==> Some(s@) == text_of(json_model(*v)),
{
    v.as_str()
}

/// `Value::as_u64`: the value of a number that is a non-negative integer
/// within `u64`, `None` for any other value.
#[verifier::external_body]
pub(crate) fn as_unsigned(v: &serde_json::Value) -> (r: Option<u64>)
    ensures
        r == unsigned_of(json_model(*v)),
{
    v.as_u64()
}

/// `Value::as_array`: the elements of an array in order, `None` for any
/// other value.
#[verifier::external_body]
pub(crate) fn as_elements<'a>(v: &'a serde_json::Value) -> (r: Option<&'a Vec<serde_json::Value>>)
    ensures
        r is Some <==> elements_of(json_model(*v)) is Some,
        r matches Some(items) ==> Some(json_models(items@)) == elements_of(json_model(*v)),
{
    v.as_array()
}

/// Reads the text of the member `key`.
pub fn read_text<'a>(v: &'a serde_json::Value, key: &str) -> (r: Option<&'a str>)
    ensures
        r is Some <==> text_member(json_model(*v), key@) is Some,
        r matches Some(s) ==> Some(s@) == text_member(json_model(*v), key@),
{
    match member(v, key) {
        Some(child) => as_text(child),
        None => None,
    }
}

/// Reads the unsigned integer that is the member `key`.
pub fn read_unsigned(v: &serde_json::Value, key: &str) -> (r: Option<u64>)
    ensures
        r == unsigned_member(json_model(*v), key@),
{
    match member(v, key) {
        Some(child) => as_unsigned(child),
        None => None,
    }
}

/// Reads the elements of the array that is the member `key`.
pub fn read_array<'a>(v: &'a serde_json::Value, key: &str) -> (r: Option<&'a Vec<serde_json::Value>>)
    ensures
        r is Some <==> array_member(json_model(*v), key@) is Some,
        r matches Some(items) ==> Some(json_models(items@)) == array_member(json_model(*v), key@),
{
    match member(v, key) {
        Some(child) => as_elements(child),
        None => None,
    }
}

} // verus!
