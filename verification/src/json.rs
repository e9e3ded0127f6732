//! Trusted view of the few JSON shapes the pipeline reads.
//!
//! The pipeline never builds a JSON document tree; it pulls one string
//! field out of a response body, or the list of message ids of a Gmail
//! list response.  Each extraction is one trusted item whose result is
//! named by an uninterpreted function of the body alone.

use vstd::prelude::*;

verus! {

/// The top-level string field `key` of the JSON document `body`:
/// present exactly when `body` parses as a JSON object carrying `key`
/// as a string.
pub uninterp spec fn json_str_field(body: Seq<u8>, key: Seq<char>) -> Option<Seq<char>>;

/// Relies on `serde_json::from_slice` and `Value::get` / `Value::as_str`:
/// reads one top-level string field of a JSON object.
#[verifier::external_body]
pub(crate) fn json_top_level_str(body: &[u8], key: &str) -> (r: Option<String>)
    ensures
        match r {
            Some(s) => json_str_field(body@, key@) == Some(s@),
            None => json_str_field(body@, key@) is None,
        },
{
    let v: serde_json::Value = serde_json::from_slice(body).ok()?;
    Some(v.get(key)?.as_str()?.to_string())
}

/// The `id` fields of the `messages` array of a Gmail list response:
/// `None` when `body` is not a JSON object or an entry lacks a string
/// `id`; an absent `messages` field reads as the empty list.
pub uninterp spec fn json_message_id_list(body: Seq<u8>) -> Option<Seq<Seq<char>>>;

/// The views of a vector of strings.
pub open spec fn strings_view(v: Seq<String>) -> Seq<Seq<char>> {
    v.map_values(|s: String| s@)
}

/// Relies on `serde_json::from_slice` and `Value::get` / `Value::as_array`
/// / `Value::as_str`: reads the message ids of a Gmail list response.
#[verifier::external_body]
pub(crate) fn json_message_ids(body: &[u8]) -> (r: Option<Vec<String>>)
    ensures
        match r {
            Some(v) => json_message_id_list(body@) == Some(strings_view(v@)),
            None => json_message_id_list(body@) is None,
        },
{
    let v: serde_json::Value = serde_json::from_slice(body).ok()?;
    if !v.is_object() {
        return None;
    }
    let mut out: Vec<String> = Vec::new();
    match v.get("messages") {
        None => Some(out),
        Some(arr) => {
            for m in arr.as_array()? {
                out.push(m.get("id")?.as_str()?.to_string());
            }
            Some(out)
        },
    }
}

} // verus!
