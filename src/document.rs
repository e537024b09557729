//! Loosely typed key-value documents, held as `serde_json` values.

use vstd::prelude::*;

verus! {

#[verifier::external_type_specification]
#[verifier::external_body]
pub struct ExValue(serde_json::Value);

/// The string-valued entries of a document: for an object, each key whose
/// value is a JSON string, mapped to that string. Other values hold none.
pub uninterp spec fn string_fields(doc: serde_json::Value) -> Map<Seq<char>, Seq<char>>;

/// The string stored under `key` in `doc`, if there is one.
pub open spec fn doc_string(doc: serde_json::Value, key: Seq<char>) -> Option<Seq<char>> {
    if string_fields(doc).contains_key(key) {
        Some(string_fields(doc)[key])
    } else {
        None
    }
}

/// Relies on serde_json::Value::get with a `&str` key: on an object it looks the
/// key up, on any other value it returns None. A hit that is a JSON string is
/// handed out; any other hit counts as absent.
#[verifier::external_body]
pub(crate) fn string_field(doc: &serde_json::Value, key: &str) -> (r: Option<String>)
    ensures
        match r {
            Some(s) => string_fields(*doc).contains_key(key@) && string_fields(*doc)[key@] == s@,
            None => !string_fields(*doc).contains_key(key@),
        },
{
    match doc.get(key) {
        Some(serde_json::Value::String(s)) => Some(s.clone()),
        _ => None,
    }
}

} // verus!
