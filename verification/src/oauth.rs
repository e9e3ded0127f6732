//! The OAuth2 refresh-token exchange, as pure logic.
//!
//! The host posts the form-encoded body built here to the token
//! endpoint and hands the response status and body back; the functions
//! here decide exactly what each response means.  The same applies to
//! the profile request resolving the account's mailbox address.

use vstd::prelude::*;
use vstd::string::StringExecFns;

use crate::error::{AppError, AppResult};
use crate::json::json_str_field;
use crate::json::json_top_level_str;

verus! {

/// The `application/x-www-form-urlencoded` encoding of key/value pairs.
pub uninterp spec fn form_urlencoded(params: Seq<(Seq<char>, Seq<char>)>) -> Seq<char>;

/// The views of a vector of string pairs.
pub open spec fn pairs_view(params: Seq<(String, String)>) -> Seq<(Seq<char>, Seq<char>)> {
    params.map_values(|p: (String, String)| (p.0@, p.1@))
}

/// Relies on `serde_urlencoded::to_string`: the form encoding of the
/// pairs, in order.  Serializing a sequence of string pairs cannot
/// fail — the serializer errors only on unsupported data shapes — so
/// the encoding is total here.
#[verifier::external_body]
pub(crate) fn urlencode_pairs(params: &Vec<(String, String)>) -> (r: String)
    ensures
        r@ == form_urlencoded(pairs_view(params@)),
{
    serde_urlencoded::to_string(params).unwrap_or_default()
}

/// An HTTP status that counts as success.
pub open spec fn status_success(status: u16) -> bool {
    200 <= status < 300
}

/// The token endpoint of the OAuth2 exchange.
pub fn oauth_token_url() -> (r: String)
    ensures
        r@ == "https://oauth2.googleapis.com/token"@,
{
    String::from_str("https://oauth2.googleapis.com/token")
}

/// The profile endpoint resolving the account's mailbox address.
pub fn gmail_profile_url() -> (r: String)
    ensures
        r@ == "https://gmail.googleapis.com/gmail/v1/users/me/profile"@,
{
    String::from_str("https://gmail.googleapis.com/gmail/v1/users/me/profile")
}

/// The parameters of the refresh-token exchange, in wire order.
pub open spec fn token_request_params(
    client_id: Seq<char>,
    client_secret: Seq<char>,
    refresh_token: Seq<char>,
) -> Seq<(Seq<char>, Seq<char>)> {
    seq![
        ("client_id"@, client_id),
        ("client_secret"@, client_secret),
        ("refresh_token"@, refresh_token),
        ("grant_type"@, "refresh_token"@),
    ]
}

/// Build the form-encoded body of the refresh-token exchange.
pub fn oauth_token_request_body(
    client_id: &str,
    client_secret: &str,
    refresh_token: &str,
) -> (r: String)
    ensures
        r@ == form_urlencoded(token_request_params(client_id@, client_secret@, refresh_token@)),
{
    let mut params: Vec<(String, String)> = Vec::new();
    params.push((String::from_str("client_id"), client_id.to_owned()));
    params.push((String::from_str("client_secret"), client_secret.to_owned()));
    params.push((String::from_str("refresh_token"), refresh_token.to_owned()));
    params.push((String::from_str("grant_type"), String::from_str("refresh_token")));
    proof {
        assert(pairs_view(params@) =~= token_request_params(
            client_id@,
            client_secret@,
            refresh_token@,
        ));
    }
    urlencode_pairs(&params)
}

/// Interpret the token endpoint's response: on a success status whose
/// body carries a top-level `access_token` string, that token; an Auth
/// error otherwise.
pub fn parse_token_response(status: u16, body: &[u8]) -> (r: AppResult<String>)
    ensures
        match r {
            Ok(t) => status_success(status) && json_str_field(body@, "access_token"@) == Some(
                t@,
            ),
            Err(e) => (!status_success(status) || json_str_field(body@, "access_token"@)
                is None) && e matches AppError::Auth(_),
        },
{
    if !(200 <= status && status < 300) {
        return Err(AppError::Auth(String::from_str("OAuth2 request returned error status")));
    }
    match json_top_level_str(body, "access_token") {
        Some(t) => Ok(t),
        None => Err(AppError::Auth(String::from_str("No access_token in OAuth2 response"))),
    }
}

/// Interpret the profile endpoint's response: on a success status whose
/// body carries a top-level `emailAddress` string, that address; an
/// Auth error otherwise.
pub fn parse_profile_response(status: u16, body: &[u8]) -> (r: AppResult<String>)
    ensures
        match r {
            Ok(a) => status_success(status) && json_str_field(body@, "emailAddress"@) == Some(
                a@,
            ),
            Err(e) => (!status_success(status) || json_str_field(body@, "emailAddress"@)
                is None) && e matches AppError::Auth(_),
        },
{
    if !(200 <= status && status < 300) {
        return Err(AppError::Auth(String::from_str("Profile request returned error status")));
    }
    match json_top_level_str(body, "emailAddress") {
        Some(a) => Ok(a),
        None => Err(AppError::Auth(String::from_str("No emailAddress in Profile response"))),
    }
}

} // verus!
