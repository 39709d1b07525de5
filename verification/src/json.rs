//! Trusted boundary to `serde_json`.
//!
//! The authorization server answers with JSON documents.  Reading a field of
//! such a document is delegated to `serde_json`; what a call returns is a
//! function of the document text and the key alone, so each result is given a
//! name that the rest of the library's contracts can speak about.

use vstd::prelude::*;

verus! {

// The string field `key` of the JSON document `s`: `Some` exactly when `s`
// parses and holds a string under that key, reading top-level object fields
// the way `serde_json::Value::get` does.
pub uninterp spec fn json_str_field(s: Seq<char>, key: Seq<char>) -> Option<Seq<char>>;

// The unsigned-integer field `key` of the JSON document `s`.
pub uninterp spec fn json_u64_field(s: Seq<char>, key: Seq<char>) -> Option<u64>;

// Whether `s` is a well-formed JSON document.
pub uninterp spec fn json_document_valid(s: Seq<char>) -> bool;

// The JSON string literal (quotes and escapes included) that encodes `s`.
pub uninterp spec fn json_quoted(s: Seq<char>) -> Seq<char>;

/// Relies on `serde_json::from_str::<Value>`, `Value::get` and
/// `Value::as_str`: parsing a document and reading one of its string fields
/// depends on the document text and the key alone.
#[verifier::external_body]
pub(crate) fn json_get_str(s: &str, key: &str) -> (r: Option<String>)
    ensures
        (match r {
            Some(t) => json_str_field(s@, key@) == Some(t@),
            None => json_str_field(s@, key@) is None,
        }),
{
    match serde_json::from_str::<serde_json::Value>(s) {
        Ok(v) => match v.get(key) {
            Some(f) => match f.as_str() {
                Some(t) => Some(t.to_string()),
                None => None,
            },
            None => None,
        },
        Err(_) => None,
    }
}

/// Relies on `serde_json::from_str::<Value>`, `Value::get` and
/// `Value::as_u64`: parsing a document and reading one of its unsigned-integer
/// fields depends on the document text and the key alone.
#[verifier::external_body]
pub(crate) fn json_get_u64(s: &str, key: &str) -> (r: Option<u64>)
    ensures
        r == json_u64_field(s@, key@),
{
    match serde_json::from_str::<serde_json::Value>(s) {
        Ok(v) => match v.get(key) {
            Some(f) => f.as_u64(),
            None => None,
        },
        Err(_) => None,
    }
}

/// Relies on `serde_json::from_str::<Value>`: whether a document parses
/// depends on its text alone.
#[verifier::external_body]
pub(crate) fn json_parses(s: &str) -> (r: bool)
    ensures
        r == json_document_valid(s@),
{
    serde_json::from_str::<serde_json::Value>(s).is_ok()
}

/// Relies on `serde_json::Value::to_string` on a `Value::String`: the encoded
/// JSON string literal, quotes and escapes included, depends on the wrapped
/// text alone.
#[verifier::external_body]
pub(crate) fn json_quote(s: &str) -> (r: String)
    ensures
        r@ == json_quoted(s@),
{
    serde_json::Value::String(s.to_string()).to_string()
}

} // verus!
