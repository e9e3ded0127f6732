use email_reader::auth::{xoauth2_decode, xoauth2_response};

#[test]
fn xoauth2_string_is_exact() {
    let s = xoauth2_response("u@x.com", "T");
    assert_eq!(s, "user=u@x.com\x01auth=Bearer T\x01\x01");
}

#[test]
fn xoauth2_round_trip() {
    let s = xoauth2_response("u@x.com", "T");
    let (user, token) = xoauth2_decode(&s).unwrap();
    assert_eq!(user, "u@x.com");
    assert_eq!(token, "T");
}

#[test]
fn xoauth2_round_trip_empty_token() {
    let s = xoauth2_response("someone@example.org", "");
    let (user, token) = xoauth2_decode(&s).unwrap();
    assert_eq!(user, "someone@example.org");
    assert_eq!(token, "");
}

#[test]
fn xoauth2_decode_rejects_malformed() {
    assert!(xoauth2_decode("").is_none());
    assert!(xoauth2_decode("user=a\x01auth=Bearer b\x01").is_none());
    assert!(xoauth2_decode("user=a\x01auth=Basic b\x01\x01").is_none());
    assert!(xoauth2_decode("auth=Bearer b\x01\x01").is_none());
    assert!(xoauth2_decode("user=a\x01auth=Bearer b\x01\x01trailing").is_none());
}
