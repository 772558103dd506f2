//! Reading strings out of JSON documents.

use vstd::prelude::*;

verus! {

/// The string that the JSON document `doc` holds at the JSON pointer `pointer`,
/// if `doc` parses and holds a string there.
pub uninterp spec fn json_text_at(doc: Seq<char>, pointer: Seq<char>) -> Option<Seq<char>>;

/// Relies on serde_json::from_str, serde_json::Value::pointer and
/// serde_json::Value::as_str: the string at a pointer of a parsed document, which
/// depends on the text of the document and of the pointer alone.
#[verifier::external_body]
pub(crate) fn text_at(doc: &str, pointer: &str) -> (r: Option<String>)
    ensures
        r is Some <==> json_text_at(doc@, pointer@) is Some,
        r is Some ==> json_text_at(doc@, pointer@) == Some(r->0@),
{
    let v: serde_json::Value = serde_json::from_str(doc).ok()?;
    v.pointer(pointer).and_then(|x| x.as_str()).map(|x| x.to_string())
}

/// Whether `doc` is a JSON document.
pub uninterp spec fn json_valid(doc: Seq<char>) -> bool;

/// Relies on serde_json::from_str: whether the text parses as a JSON value.
#[verifier::external_body]
pub(crate) fn is_json(doc: &str) -> (r: bool)
    ensures
        r == json_valid(doc@),
{
    serde_json::from_str::<serde_json::Value>(doc).is_ok()
}

/// The number of elements of the JSON document `doc`, if it is an array.
pub uninterp spec fn json_array_len(doc: Seq<char>) -> Option<usize>;

/// Relies on serde_json::from_str and serde_json::Value::as_array: the length
/// of the document's top-level array, which depends on its text alone.
#[verifier::external_body]
pub(crate) fn array_len(doc: &str) -> (r: Option<usize>)
    ensures
        r == json_array_len(doc@),
{
    serde_json::from_str::<serde_json::Value>(doc).ok().and_then(|v| v.as_array().map(|a| a.len()))
}

} // verus!
