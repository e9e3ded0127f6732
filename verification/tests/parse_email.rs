use email_reader::error::AppError;
use email_reader::imap::{ImapSession, ImapStatus};
use email_reader::parser::EmailMessage;

fn raw(msg: &str) -> Vec<u8> {
    msg.as_bytes().to_vec()
}

#[test]
fn two_dkim_signatures_keep_header_order() {
    let m = EmailMessage::parse(
        raw(
            "DKIM-Signature: v=1; a=rsa-sha256; d=first.example; s=one; b=AAA\r\nFrom: Alice <alice@example.com>\r\nDKIM-Signature: v=1; a=rsa-sha256; d=second.example; s=two; b=BBB\r\nSubject: hello\r\n\r\nbody\r\n",
        ),
        None,
    )
    .unwrap();
    assert_eq!(m.dkim_signatures.len(), 2);
    assert!(m.dkim_signatures[0].contains("first.example"));
    assert!(m.dkim_signatures[1].contains("second.example"));
}

#[test]
fn no_sender_anywhere_is_an_error() {
    let r = EmailMessage::parse(
        raw("Subject: hello\r\n\r\nbody\r\n"),
        None,
    );
    match r {
        Err(AppError::MessageParse(_)) => {}
        other => panic!("expected MessageParse, got {:?}", other),
    }
}

#[test]
fn sender_priority_is_resent_from_then_from_then_sender() {
    let m = EmailMessage::parse(
        raw(
            "From: second@example.com\r\nResent-From: first@example.com\r\nSender: third@example.com\r\n\r\nx\r\n",
        ),
        None,
    )
    .unwrap();
    assert_eq!(m.original_sender, "first@example.com");

    let m = EmailMessage::parse(
        raw("Sender: third@example.com\r\nFrom: second@example.com\r\n\r\nx\r\n"),
        None,
    )
    .unwrap();
    assert_eq!(m.original_sender, "second@example.com");
}

#[test]
fn envelope_sender_is_the_last_resort() {
    let m = EmailMessage::parse(
        raw("Subject: s\r\n\r\nx\r\n"),
        Some("envelope@example.com".to_string()),
    )
    .unwrap();
    assert_eq!(m.original_sender, "envelope@example.com");

    let m = EmailMessage::parse(
        raw("From: header@example.com\r\n\r\nx\r\n"),
        Some("envelope@example.com".to_string()),
    )
    .unwrap();
    assert_eq!(m.original_sender, "header@example.com");
}

#[test]
fn subject_matches_case_insensitively() {
    let m = EmailMessage::parse(
        raw("From: a@b.c\r\nSUBJECT: Shouting\r\n\r\nx\r\n"),
        None,
    )
    .unwrap();
    assert_eq!(m.subject.as_deref(), Some("Shouting"));
}

#[test]
fn raw_bytes_are_kept_verbatim() {
    let bytes = raw("From: a@b.c\r\nSubject: s\r\n\r\nthe body\r\n");
    let m = EmailMessage::parse(bytes.clone(), None).unwrap();
    assert_eq!(m.raw_bytes, bytes);
    assert_eq!(m.body_text.as_deref(), Some("the body\r\n"));
}

#[test]
fn fetch_without_result_is_a_hard_error() {
    let mut s = ImapSession::new();
    let _ = s.login_command("u", "p");
    s.confirm_auth(ImapStatus::Okay).unwrap();
    let _ = s.select_command();
    assert!(s.handle_select(ImapStatus::Okay, 1).unwrap());
    let _ = s.search_command();
    assert_eq!(s.handle_search(ImapStatus::Okay, &vec![41u32, 42]).unwrap(), Some(42));
    let _ = s.fetch_command();
    match s.handle_fetch(ImapStatus::Okay, None) {
        Err(AppError::FailedToFetchEmail(uid)) => assert_eq!(uid, 42),
        other => panic!("expected FailedToFetchEmail, got {:?}", other),
    }
}

#[test]
fn fetched_message_parses_through_the_session() {
    let mut s = ImapSession::new();
    let _ = s.login_command("u", "p");
    s.confirm_auth(ImapStatus::Okay).unwrap();
    let _ = s.select_command();
    assert!(s.handle_select(ImapStatus::Okay, 1).unwrap());
    let _ = s.search_command();
    assert_eq!(s.handle_search(ImapStatus::Okay, &vec![7u32]).unwrap(), Some(7));
    let _ = s.fetch_command();
    let m = s
        .handle_fetch(
            ImapStatus::Okay,
            Some((raw("From: a@b.c\r\nSubject: hi\r\n\r\nx\r\n"), None)),
        )
        .unwrap();
    assert_eq!(m.original_sender, "a@b.c");
    assert_eq!(m.subject.as_deref(), Some("hi"));
}
