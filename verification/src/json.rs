//! Trusted view of the JSON reader: the release index answers with a JSON
//! document, and the library reads two kinds of fact from it — whether the
//! text parses at all, and the string value at a top-level key. Both are
//! functions of the text alone; their values are left uninterpreted.

use vstd::prelude::*;

verus! {

pub uninterp spec fn json_wf(s: Seq<char>) -> bool;

pub uninterp spec fn json_str_field(s: Seq<char>, key: Seq<char>) -> Option<Seq<char>>;

/// Relies on serde_json::from_str::<Value>: whether a text parses as JSON
/// depends on its characters alone.
#[verifier::external_body]
pub(crate) fn json_body_parses(body: &str) -> (r: bool)
    ensures
        r == json_wf(body@),
{
    serde_json::from_str::<serde_json::Value>(body).is_ok()
}

/// Relies on serde_json::from_str::<Value>, Value::get and Value::as_str:
/// the string value under a top-level key, None where the text is not JSON,
/// the key is absent, or the value under it is not a string. All three are
/// functions of their arguments alone.
#[verifier::external_body]
pub(crate) fn json_top_level_str(body: &str, key: &str) -> (r: Option<String>)
    ensures
        r.deep_view() == json_str_field(body@, key@),
{
    match serde_json::from_str::<serde_json::Value>(body) {
        Ok(document) => match document.get(key) {
            Some(field) => match field.as_str() {
                Some(text) => Some(text.to_string()),
                None => None,
            },
            None => None,
        },
        Err(_) => None,
    }
}

} // verus!
