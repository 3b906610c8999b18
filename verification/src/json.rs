//! JSON documents, read with `serde_json`.
//!
//! Nothing in this file is proved: it states what the library takes from
//! `serde_json` on trust.

use vstd::prelude::*;

verus! {

/// A JSON document, `serde_json::Value`. Its inside is not visible to the
/// verifier.
#[verifier::external_type_specification]
#[verifier::external_body]
pub struct ExJsonValue(serde_json::Value);

/// The members of a document that are strings, by their name. A document
/// that is no object has none.
pub uninterp spec fn text_members(document: serde_json::Value) -> Map<Seq<char>, Seq<char>>;

/// The string members of the document that the bytes spell out, and `None`
/// for bytes that spell out none.
pub uninterp spec fn document_text_members(payload: Seq<u8>) -> Option<Map<Seq<char>, Seq<char>>>;

/// The member of that name if there is one, else `None`.
pub open spec fn member(members: Map<Seq<char>, Seq<char>>, name: Seq<char>) -> Option<Seq<char>> {
    if members.dom().contains(name) {
        Some(members[name])
    } else {
        None
    }
}

/// `serde_json::from_slice` at `serde_json::Value`: reads the bytes as one
/// JSON document. The contract claims only that the outcome is a function of
/// the bytes: a failure is always a failure, and the document read has always
/// the same string members.
#[verifier::external_body]
pub(crate) fn parse_document(payload: &[u8]) -> (document: Option<serde_json::Value>)
    ensures
        match document {
            Some(d) => document_text_members(payload@) == Some(text_members(d)),
            None => document_text_members(payload@) is None,
        },
{
    match serde_json::from_slice::<serde_json::Value>(payload) {
        Ok(document) => Some(document),
        Err(_) => None,
    }
}

/// `serde_json::Value::get` with a name, which finds a member of an object
/// and nothing in any other document. The contract claims that the text
/// handed out is the string member of that name, and that `None` comes back
/// where the document has no member of that name or one that is no string.
#[verifier::external_body]
pub(crate) fn text_member(document: &serde_json::Value, name: &str) -> (text: Option<String>)
    ensures
        text.deep_view() == member(text_members(*document), name@),
{
    match document.get(name) {
        Some(serde_json::Value::String(text)) => Some(text.clone()),
        _ => None,
    }
}

} // verus!
