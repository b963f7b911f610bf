//! The JSON reader that the library relies on: `serde_json`, reached
//! through a handful of trusted declarations.
//!
//! A parsed document stays opaque.  What the library needs to know about
//! one is named here, and the verified code states its results over those
//! names.

use vstd::prelude::*;

verus! {

/// Trusted: makes `serde_json::Value`, a parsed JSON document, known as an
/// opaque type.
#[verifier::external_type_specification]
#[verifier::external_body]
pub struct ExJsonValue(serde_json::Value);

/// Trusted: makes `serde_json::Error` known as an opaque type.
#[verifier::external_type_specification]
#[verifier::external_body]
pub struct ExJsonError(serde_json::Error);

/// The document that `serde_json::from_str` reads from a text, or `None`
/// where it reports an error.
pub uninterp spec fn json_document(text: Seq<char>) -> Option<serde_json::Value>;

/// The member that `serde_json::Value::get` finds under a string key, or
/// `None` where the document is no object or has no such member.
pub uninterp spec fn json_member(doc: serde_json::Value, key: Seq<char>) -> Option<
    serde_json::Value,
>;

/// The element that `serde_json::Value::get` finds at a position, or `None`
/// where the document is no array or is too short.
pub uninterp spec fn json_element(doc: serde_json::Value, index: nat) -> Option<
    serde_json::Value,
>;

/// The characters that `serde_json::Value::as_str` finds in a document that
/// is a JSON string, or `None` for any other document.
pub uninterp spec fn json_string(doc: serde_json::Value) -> Option<Seq<char>>;

/// Whether `serde_json::Value::is_null` holds of a document.
pub uninterp spec fn json_is_null(doc: serde_json::Value) -> bool;

/// Reads a text as one JSON document.
///
/// Trusted: calls `serde_json::from_str` at the type `serde_json::Value`.
/// The contract claims only that the outcome is a function of the text:
/// equal texts give equal documents, or fail alike.
#[verifier::external_body]
pub(crate) fn parse_json(text: &str) -> (r: Result<serde_json::Value, serde_json::Error>)
    ensures
        match r {
            Ok(doc) => json_document(text@) == Some(doc),
            Err(_) => json_document(text@) is None,
        },
{
    serde_json::from_str::<serde_json::Value>(text)
}

/// Looks up a member of an object by its key.
///
/// Trusted: calls `serde_json::Value::get` with a string key, which returns
/// the member's value, and `None` for a missing key or a document that is
/// no object.  The contract names that result.
#[verifier::external_body]
pub(crate) fn member<'a>(doc: &'a serde_json::Value, key: &str) -> (r: Option<
    &'a serde_json::Value,
>)
    ensures
        match r {
            Some(found) => json_member(*doc, key@) == Some(*found),
            None => json_member(*doc, key@) is None,
        },
{
    doc.get(key)
}

/// Looks up an element of an array by its position.
///
/// Trusted: calls `serde_json::Value::get` with a `usize` index, which
/// returns the element, and `None` for a position past the end or a
/// document that is no array.  The contract names that result.
#[verifier::external_body]
pub(crate) fn element<'a>(doc: &'a serde_json::Value, index: usize) -> (r: Option<
    &'a serde_json::Value,
>)
    ensures
        match r {
            Some(found) => json_element(*doc, index as nat) == Some(*found),
            None => json_element(*doc, index as nat) is None,
        },
{
    doc.get(index)
}

/// The text of a document that is a JSON string.
///
/// Trusted: calls `serde_json::Value::as_str`, which returns the string's
/// contents for a string and `None` for every other kind of value.  The
/// contract names that result.
#[verifier::external_body]
pub(crate) fn string_of<'a>(doc: &'a serde_json::Value) -> (r: Option<&'a str>)
    ensures
        match r {
            Some(text) => json_string(*doc) == Some(text@),
            None => json_string(*doc) is None,
        },
{
    doc.as_str()
}

/// Whether a document is the JSON value `null`.
///
/// Trusted: calls `serde_json::Value::is_null`.  The contract names that
/// result.
#[verifier::external_body]
pub(crate) fn is_null(doc: &serde_json::Value) -> (r: bool)
    ensures
        r == json_is_null(*doc),
{
    doc.is_null()
}

} // verus!
