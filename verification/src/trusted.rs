//! What the gateway parser takes from `serde_json`, from `bytes` and from the
//! standard library's UTF-8 validation. Nothing in this file is proved: each
//! contract restates what the function it wraps is documented to do.

use vstd::prelude::*;
use vstd::string::*;
use vstd::utf8::*;

verus! {

#[verifier::external_type_specification]
#[verifier::external_body]
pub struct ExValue(serde_json::Value);

#[verifier::external_type_specification]
#[verifier::external_body]
pub struct ExJsonError(serde_json::Error);

#[verifier::external_type_specification]
#[verifier::external_body]
pub struct ExBytes(bytes::Bytes);

/// The bytes that a `bytes::Bytes` holds.
pub uninterp spec fn bytes_contents(bytes: bytes::Bytes) -> Seq<u8>;

/// The document that `serde_json::from_str` reads from `text`, or `None`
/// where it refuses the text.
pub uninterp spec fn json_document(text: Seq<char>) -> Option<serde_json::Value>;

/// The members of a JSON object whose value is an integer that fits `i64`,
/// by name. Empty for a document that is not an object.
pub uninterp spec fn json_integers(doc: serde_json::Value) -> Map<Seq<char>, i64>;

/// The members of a JSON object whose value is a string, by name. Empty
/// for a document that is not an object.
pub uninterp spec fn json_strings(doc: serde_json::Value) -> Map<Seq<char>, Seq<char>>;

/// `<bytes::Bytes as AsRef<[u8]>>::as_ref`: the slice is what the buffer holds.
#[verifier::external_body]
pub(crate) fn payload_bytes(bytes: &bytes::Bytes) -> (r: &[u8])
    ensures
        r@ == bytes_contents(*bytes),
{
    bytes.as_ref()
}

/// `std::str::from_utf8`: succeeds exactly on well-formed UTF-8, and the
/// text then has the very bytes it was given.
#[verifier::external_body]
pub(crate) fn text_of(bytes: &[u8]) -> (r: Option<&str>)
    ensures
        r is Some == valid_utf8(bytes@),
        r matches Some(text) ==> text.spec_bytes() == bytes@,
{
    match std::str::from_utf8(bytes) {
        Ok(text) => Some(text),
        Err(_) => None,
    }
}

/// `serde_json::from_str` at `serde_json::Value`: the document read from
/// `text` depends on `text` alone.
#[verifier::external_body]
pub(crate) fn parse_document(text: &str) -> (r: Result<serde_json::Value, serde_json::Error>)
    ensures
        r is Ok == json_document(text@) is Some,
        r matches Ok(doc) ==> json_document(text@) == Some(doc),
{
    serde_json::from_str::<serde_json::Value>(text)
}

/// `Value::get` with a name, then `Value::as_i64`: the member `key` of the
/// object `doc` if it is an integer that fits `i64`.
#[verifier::external_body]
pub(crate) fn integer_member(doc: &serde_json::Value, key: &str) -> (r: Option<i64>)
    ensures
        r is Some == json_integers(*doc).contains_key(key@),
        r matches Some(n) ==> n == json_integers(*doc)[key@],
{
    match doc.get(key) {
        Some(member) => member.as_i64(),
        None => None,
    }
}

/// `Value::get` with a name, then `Value::as_str`: a copy of the member
/// `key` of the object `doc` if it is a string.
#[verifier::external_body]
pub(crate) fn string_member(doc: &serde_json::Value, key: &str) -> (r: Option<String>)
    ensures
        r is Some == json_strings(*doc).contains_key(key@),
        r matches Some(s) ==> s@ == json_strings(*doc)[key@],
{
    match doc.get(key) {
        Some(member) => match member.as_str() {
            Some(s) => Some(s.to_owned()),
            None => None,
        },
        None => None,
    }
}

} // verus!
