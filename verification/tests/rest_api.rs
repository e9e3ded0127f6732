use email_reader::error::AppError;
use email_reader::oauth::{
    gmail_profile_url, oauth_token_request_body, oauth_token_url, parse_profile_response,
    parse_token_response,
};
use email_reader::rest::{
    check_mark_as_read, gmail_fetch_message_url, gmail_list_unread_url, gmail_modify_message_url,
    mark_as_read_body, next_unread_id, parse_raw_message, parse_unread_list,
};

#[test]
fn token_request_body_is_form_encoded() {
    let b = oauth_token_request_body("cid", "cs", "rt");
    assert_eq!(
        b,
        "client_id=cid&client_secret=cs&refresh_token=rt&grant_type=refresh_token"
    );
}

#[test]
fn token_request_body_percent_encodes() {
    let b = oauth_token_request_body("c d", "s&1", "r=t");
    assert_eq!(
        b,
        "client_id=c+d&client_secret=s%261&refresh_token=r%3Dt&grant_type=refresh_token"
    );
}

#[test]
fn endpoints_are_pinned() {
    assert_eq!(oauth_token_url(), "https://oauth2.googleapis.com/token");
    assert_eq!(
        gmail_profile_url(),
        "https://gmail.googleapis.com/gmail/v1/users/me/profile"
    );
    assert_eq!(
        gmail_list_unread_url(1),
        "https://gmail.googleapis.com/gmail/v1/users/me/messages?q=is%3Aunread&maxResults=1"
    );
    assert_eq!(
        gmail_fetch_message_url("abc123"),
        "https://gmail.googleapis.com/gmail/v1/users/me/messages/abc123?format=raw"
    );
    assert_eq!(
        gmail_modify_message_url("abc123"),
        "https://gmail.googleapis.com/gmail/v1/users/me/messages/abc123/modify"
    );
    assert_eq!(mark_as_read_body(), "{\"removeLabelIds\": [\"UNREAD\"]}");
}

#[test]
fn token_response_parses_or_fails() {
    let t = parse_token_response(200, b"{\"access_token\":\"tok\",\"expires_in\":3599}")
        .unwrap();
    assert_eq!(t, "tok");
    assert!(matches!(
        parse_token_response(401, b"{\"access_token\":\"tok\"}"),
        Err(AppError::Auth(_))
    ));
    assert!(matches!(
        parse_token_response(200, b"{\"token_type\":\"Bearer\"}"),
        Err(AppError::Auth(_))
    ));
    assert!(matches!(
        parse_token_response(200, b"not json"),
        Err(AppError::Auth(_))
    ));
}

#[test]
fn profile_response_parses_or_fails() {
    let a = parse_profile_response(200, b"{\"emailAddress\":\"me@example.com\"}").unwrap();
    assert_eq!(a, "me@example.com");
    assert!(matches!(
        parse_profile_response(200, b"{}"),
        Err(AppError::Auth(_))
    ));
}

#[test]
fn empty_message_list_yields_no_ids() {
    let ids = parse_unread_list(200, b"{\"messages\": [], \"resultSizeEstimate\": 0}").unwrap();
    assert!(ids.is_empty());
    let ids = parse_unread_list(200, b"{\"resultSizeEstimate\": 0}").unwrap();
    assert!(ids.is_empty());
}

#[test]
fn message_list_extracts_ids_in_order() {
    let body =
        b"{\"messages\": [{\"id\": \"m1\", \"threadId\": \"t\"}, {\"id\": \"m2\"}], \"nextPageToken\": \"x\"}";
    let ids = parse_unread_list(200, body).unwrap();
    assert_eq!(ids, vec!["m1".to_string(), "m2".to_string()]);
    assert!(matches!(
        parse_unread_list(500, body),
        Err(AppError::Auth(_))
    ));
    assert!(matches!(
        parse_unread_list(200, b"[1,2]"),
        Err(AppError::Auth(_))
    ));
}

#[test]
fn raw_message_is_base64url_decoded() {
    let raw = parse_raw_message(200, b"{\"raw\":\"aGVsbG8=\",\"id\":\"m1\"}").unwrap();
    assert_eq!(raw, b"hello".to_vec());
    assert!(matches!(
        parse_raw_message(200, b"{\"raw\":\"!!!\"}"),
        Err(AppError::Auth(_))
    ));
    assert!(matches!(
        parse_raw_message(200, b"{\"id\":\"m1\"}"),
        Err(AppError::Auth(_))
    ));
}

#[test]
fn mark_as_read_id_mismatch_is_an_auth_error() {
    assert!(check_mark_as_read(200, b"{\"id\":\"m1\"}", "m1").is_ok());
    match check_mark_as_read(200, b"{\"id\":\"other\"}", "m1") {
        Err(AppError::Auth(_)) => {}
        other => panic!("expected Auth error, got {:?}", other),
    }
    assert!(matches!(
        check_mark_as_read(503, b"{\"id\":\"m1\"}", "m1"),
        Err(AppError::Auth(_))
    ));
}

#[test]
fn the_first_unread_id_is_fetched() {
    let ids = vec!["m1".to_string(), "m2".to_string()];
    assert_eq!(next_unread_id(&ids), Some("m1".to_string()));
    assert_eq!(next_unread_id(&Vec::new()), None);
}
