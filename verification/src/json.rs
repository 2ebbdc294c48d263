//! JSON as the bridge needs it: quoting text, and checking and normalising a
//! document that arrived from outside. The encoding itself is `serde_json`'s;
//! this module gives its results names that contracts can speak of.

use vstd::prelude::*;
use vstd::string::*;

verus! {

/// Trusted: the type `serde_json::Value`, a JSON document held in memory.
/// Nothing is known of what is inside; it is only carried from the parser
/// to the writer.
#[verifier::external_type_specification]
#[verifier::external_body]
pub struct ExJsonValue(serde_json::Value);

/// Trusted: the type `serde_json::Error`, the parser's reason for refusing
/// an input. Nothing is known of what is inside.
#[verifier::external_type_specification]
#[verifier::external_body]
pub struct ExJsonError(serde_json::Error);

/// The JSON string literal that `serde_json` writes for a text: the text in
/// double quotes, with the escapes JSON asks for.
pub uninterp spec fn json_string_text(s: Seq<char>) -> Seq<char>;

/// The compact JSON text that `serde_json` writes for a document it holds.
pub uninterp spec fn json_document_text(v: serde_json::Value) -> Seq<char>;

/// What `serde_json` makes of a byte string: `None` where the bytes are no
/// JSON document, else the compact text of the document they spell.
pub uninterp spec fn json_parse(bytes: Seq<u8>) -> Option<Seq<char>>;

/// Trusted: `serde_json::to_string` on a `str`. The result is named
/// `json_string_text`; nothing else is claimed of it. Writing a `str` into
/// memory cannot fail, so the error arm is never taken.
#[verifier::external_body]
pub(crate) fn quote(s: &str) -> (r: String)
    ensures
        r@ == json_string_text(s@),
{
    match serde_json::to_string(s) {
        Ok(t) => t,
        Err(_) => String::new(),
    }
}

/// Trusted: `serde_json::from_slice` at the type `serde_json::Value`. It
/// succeeds exactly on the inputs on which `json_parse` is defined, and the
/// document it returns is the one whose compact text `json_parse` names.
#[verifier::external_body]
pub(crate) fn parse_document(bytes: &[u8]) -> (r: Result<serde_json::Value, serde_json::Error>)
    ensures
        match r {
            Ok(v) => json_parse(bytes@) == Some(json_document_text(v)),
            Err(_) => json_parse(bytes@) is None,
        },
{
    serde_json::from_slice::<serde_json::Value>(bytes)
}

/// Trusted: `serde_json::to_string` on a `serde_json::Value`. The result is
/// named `json_document_text`. A `Value` has string keys and finite numbers
/// only, so the error arm is never taken.
#[verifier::external_body]
pub(crate) fn render_document(v: &serde_json::Value) -> (r: String)
    ensures
        r@ == json_document_text(*v),
{
    match serde_json::to_string(v) {
        Ok(t) => t,
        Err(_) => String::new(),
    }
}

} // verus!
