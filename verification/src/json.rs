//! The JSON documents of the node's replies, read with `serde_json`.
//!
//! Nothing in this file is proved. A [`serde_json::Value`] is opaque to the
//! verifier; each function below makes one call into `serde_json` and its
//! contract only gives the outcome of that call a name, so that callers can
//! say exactly which calls their own results come from.

use vstd::prelude::*;

verus! {

/// A parsed JSON document, `serde_json::Value`.
#[verifier::external_type_specification]
#[verifier::external_body]
pub struct ExValue(serde_json::Value);

/// Why a text is not a JSON document, `serde_json::Error`.
#[verifier::external_type_specification]
#[verifier::external_body]
pub struct ExError(serde_json::Error);

/// The document that `serde_json::from_slice` reads from `bytes`, or `None`
/// where it reports an error.
pub uninterp spec fn json_document(bytes: Seq<u8>) -> Option<serde_json::Value>;

/// What `serde_json::Value::get` finds under `key` in `doc`.
pub uninterp spec fn json_member(doc: serde_json::Value, key: Seq<char>) -> Option<serde_json::Value>;

/// What `serde_json::Value::as_u64` makes of `doc`.
pub uninterp spec fn json_u64(doc: serde_json::Value) -> Option<u64>;

/// What `serde_json::Value::as_array` makes of `doc`.
pub uninterp spec fn json_elements(doc: serde_json::Value) -> Option<Seq<serde_json::Value>>;

/// The compact text that `serde_json` writes for `doc`.
pub uninterp spec fn json_text(doc: serde_json::Value) -> Seq<char>;

/// The document that holds the string `text`.
pub uninterp spec fn json_string(text: Seq<char>) -> serde_json::Value;

/// `serde_json::from_slice::<Value>`: parses `bytes` as one JSON document.
/// Trusted: the outcome is a function of the bytes alone, named
/// [`json_document`].
#[verifier::external_body]
pub(crate) fn parse(bytes: &[u8]) -> (r: Result<serde_json::Value, serde_json::Error>)
    ensures
        match r {
            Ok(doc) => json_document(bytes@) == Some(doc),
            Err(_) => json_document(bytes@) is None,
        },
{
    serde_json::from_slice::<serde_json::Value>(bytes)
}

/// `serde_json::Value::get` with a string key: the member of an object under
/// that key; `None` where `doc` is no object or has no such member. Trusted:
/// the outcome is a function of the document and the key, named
/// [`json_member`].
#[verifier::external_body]
pub(crate) fn member<'a>(doc: &'a serde_json::Value, key: &str) -> (r: Option<&'a serde_json::Value>)
    ensures
        match r {
            Some(found) => json_member(*doc, key@) == Some(*found),
            None => json_member(*doc, key@) is None,
        },
{
    doc.get(key)
}

/// `serde_json::Value::as_u64`: the number in `doc` where it is a
/// non-negative integer that fits 64 bits; else `None`. Trusted: the outcome
/// is a function of the document, named [`json_u64`].
#[verifier::external_body]
pub(crate) fn as_u64(doc: &serde_json::Value) -> (r: Option<u64>)
    ensures
        r == json_u64(*doc),
{
    doc.as_u64()
}

/// `serde_json::Value::as_array`: the elements of `doc` where it is an array;
/// else `None`. Trusted: the outcome is a function of the document, named
/// [`json_elements`].
#[verifier::external_body]
pub(crate) fn as_array<'a>(doc: &'a serde_json::Value) -> (r: Option<&'a Vec<serde_json::Value>>)
    ensures
        match r {
            Some(items) => json_elements(*doc) == Some(items@),
            None => json_elements(*doc) is None,
        },
{
    doc.as_array()
}

/// `serde_json::Value`'s `Display` through `to_string`: the document as
/// compact JSON text. Trusted: the text is a function of the document, named
/// [`json_text`].
#[verifier::external_body]
pub(crate) fn to_text(doc: &serde_json::Value) -> (r: String)
    ensures
        r@ == json_text(*doc),
{
    doc.to_string()
}

/// `serde_json::Value::from` on a `&str`: the document that holds this
/// string. Trusted: the document is a function of the string, named
/// [`json_string`].
#[verifier::external_body]
pub(crate) fn string_value(text: &str) -> (r: serde_json::Value)
    ensures
        r == json_string(text@),
{
    serde_json::Value::from(text)
}

} // verus!
