//! The Gmail REST ingestion path, as pure logic.
//!
//! The host performs three HTTPS calls — list unread ids, fetch one raw
//! message, mark it read — and hands each status and body back.  The
//! functions here build the request URLs and bodies and decide exactly
//! what each response means.  Fetch-before-mark ordering and the
//! id-mismatch guard of mark-as-read are part of the contracts.

use vstd::prelude::*;
use vstd::string::StringExecFns;

use crate::b64::{b64url_decode, b64url_decoded};
use crate::error::{AppError, AppResult};
use crate::json::{json_message_id_list, json_str_field, json_top_level_str, strings_view};
use crate::oauth::{form_urlencoded, pairs_view, status_success};
use crate::text::{dec_string, decimal_string};

verus! {

/// The list-unread query parameters, in wire order.
pub open spec fn list_query_params(max_results: u32) -> Seq<(Seq<char>, Seq<char>)> {
    seq![("q"@, "is:unread"@), ("maxResults"@, dec_string(max_results as int))]
}

/// Build the URL listing unread message ids.
pub fn gmail_list_unread_url(max_results: u32) -> (r: String)
    ensures
        r@ == "https://gmail.googleapis.com/gmail/v1/users/me/messages?"@ + form_urlencoded(
            list_query_params(max_results),
        ),
{
    let mut params: Vec<(String, String)> = Vec::new();
    params.push((String::from_str("q"), String::from_str("is:unread")));
    params.push((String::from_str("maxResults"), decimal_string(max_results as u64)));
    proof {
        assert(pairs_view(params@) =~= list_query_params(max_results));
    }
    let query = crate::oauth::urlencode_pairs(&params);
    let mut url = String::from_str("https://gmail.googleapis.com/gmail/v1/users/me/messages?");
    url.append(query.as_str());
    url
}

/// Build the URL fetching one message in raw form.
pub fn gmail_fetch_message_url(message_id: &str) -> (r: String)
    ensures
        r@ == "https://gmail.googleapis.com/gmail/v1/users/me/messages/"@ + message_id@
            + "?format=raw"@,
{
    let mut url = String::from_str("https://gmail.googleapis.com/gmail/v1/users/me/messages/");
    url.append(message_id);
    url.append("?format=raw");
    url
}

/// Build the URL marking one message read.
pub fn gmail_modify_message_url(message_id: &str) -> (r: String)
    ensures
        r@ == "https://gmail.googleapis.com/gmail/v1/users/me/messages/"@ + message_id@
            + "/modify"@,
{
    let mut url = String::from_str("https://gmail.googleapis.com/gmail/v1/users/me/messages/");
    url.append(message_id);
    url.append("/modify");
    url
}

/// The JSON body of the mark-as-read request: remove the `UNREAD` label.
pub fn mark_as_read_body() -> (r: String)
    ensures
        r@ == "{\"removeLabelIds\": [\"UNREAD\"]}"@,
{
    String::from_str("{\"removeLabelIds\": [\"UNREAD\"]}")
}

/// Interpret the list response: on a success status whose body is a
/// well-formed list, the message ids in order (the empty list when
/// nothing is unread); an Auth error otherwise.
pub fn parse_unread_list(status: u16, body: &[u8]) -> (r: AppResult<Vec<String>>)
    ensures
        match r {
            Ok(ids) => status_success(status) && json_message_id_list(body@) == Some(
                strings_view(ids@),
            ),
            Err(e) => (!status_success(status) || json_message_id_list(body@) is None)
                && e matches AppError::Auth(_),
        },
{
    if !(200 <= status && status < 300) {
        return Err(
            AppError::Auth(String::from_str("Messages list request returned error status")),
        );
    }
    match crate::json::json_message_ids(body) {
        Some(ids) => Ok(ids),
        None => Err(
            AppError::Auth(String::from_str("Failed to parse messages list response JSON")),
        ),
    }
}

/// The one message this invocation fetches: the first listed unread
/// id, or nothing when nothing is unread.
pub fn next_unread_id(ids: &Vec<String>) -> (r: Option<String>)
    ensures
        match r {
            Some(id) => ids@.len() > 0 && id@ == ids@[0]@,
            None => ids@.len() == 0,
        },
{
    if ids.len() == 0 {
        None
    } else {
        Some(ids[0].clone())
    }
}

/// Interpret the fetch response: on a success status whose body carries
/// a top-level `raw` string that decodes as URL-safe base64, the raw
/// message bytes; an Auth error otherwise.
pub fn parse_raw_message(status: u16, body: &[u8]) -> (r: AppResult<Vec<u8>>)
    ensures
        match r {
            Ok(raw) => {
                &&& status_success(status)
                &&& json_str_field(body@, "raw"@) matches Some(enc) && b64url_decoded(enc)
                    == Some(raw@)
            },
            Err(e) => e matches AppError::Auth(_) && (!status_success(status) || json_str_field(
                body@,
                "raw"@,
            ) is None || (json_str_field(body@, "raw"@) matches Some(enc) && b64url_decoded(
                enc,
            ) is None)),
        },
{
    if !(200 <= status && status < 300) {
        return Err(
            AppError::Auth(String::from_str("Message fetch request returned error status")),
        );
    }
    let enc: String = match json_top_level_str(body, "raw") {
        Some(s) => s,
        None => {
            return Err(
                AppError::Auth(
                    String::from_str("Failed to parse message fetch response JSON"),
                ),
            );
        },
    };
    match b64url_decode(enc.as_str()) {
        Some(raw) => Ok(raw),
        None => Err(AppError::Auth(String::from_str("Failed to decode raw message body"))),
    }
}

/// Interpret the mark-as-read response.  Succeeds exactly on a success
/// status whose body's `id` equals the requested id; a differing id is
/// an Auth error — the guard against silently marking the wrong
/// message.  The caller must have fetched the message already: a fetch
/// failure never reaches this call, so no message is marked read on a
/// fetch failure.
pub fn check_mark_as_read(status: u16, body: &[u8], message_id: &str) -> (r: AppResult<()>)
    ensures
        match r {
            Ok(_) => status_success(status) && json_str_field(body@, "id"@) == Some(
                message_id@,
            ),
            Err(e) => (!status_success(status) || json_str_field(body@, "id"@) != Some(
                message_id@,
            )) && e matches AppError::Auth(_),
        },
{
    if !(200 <= status && status < 300) {
        return Err(
            AppError::Auth(
                String::from_str("Message mark-as-read request returned error status"),
            ),
        );
    }
    let id: String = match json_top_level_str(body, "id") {
        Some(s) => s,
        None => {
            return Err(
                AppError::Auth(
                    String::from_str("Failed to parse message mark-as-read response JSON"),
                ),
            );
        },
    };
    if crate::text::str_eq(id.as_str(), message_id) {
        Ok(())
    } else {
        Err(AppError::Auth(String::from_str("Marked message ID does not match")))
    }
}

} // verus!
