use base64::Engine;
use email_reader::imap::{
    max_uid, parse_exists_line, parse_search_line, parse_tagged_status, xoauth2_continuation,
    ImapSession, ImapState, ImapStatus,
};

#[test]
fn login_command_is_exact() {
    let mut s = ImapSession::new();
    let c = s.login_command("joe@example.com", "hunter2");
    assert_eq!(c, "a1 LOGIN \"joe@example.com\" \"hunter2\"\r\n");
    assert_eq!(s.next_tag, 2);
}

#[test]
fn login_command_escapes_quotes_and_backslashes() {
    let mut s = ImapSession::new();
    let c = s.login_command("a\"b", "c\\d");
    assert_eq!(c, "a1 LOGIN \"a\\\"b\" \"c\\\\d\"\r\n");
}

#[test]
fn xoauth2_command_and_continuation() {
    let mut s = ImapSession::new();
    let c = s.xoauth2_command();
    assert_eq!(c, "a1 AUTHENTICATE XOAUTH2\r\n");
    let line = xoauth2_continuation("user=u@x.com\x01auth=Bearer T\x01\x01");
    assert_eq!(line, "dXNlcj11QHguY29tAWF1dGg9QmVhcmVyIFQBAQ==\r\n");
    let direct = base64::prelude::BASE64_STANDARD
        .encode("user=u@x.com\x01auth=Bearer T\x01\x01".as_bytes());
    assert_eq!(line, format!("{}\r\n", direct));
}

#[test]
fn select_search_fetch_commands_are_exact() {
    let mut s = ImapSession::new();
    let _ = s.login_command("u", "p");
    s.confirm_auth(ImapStatus::Okay).unwrap();
    let c = s.select_command();
    assert_eq!(c, "a2 SELECT INBOX\r\n");
    assert!(s.handle_select(ImapStatus::Okay, 3).unwrap());
    let c = s.search_command();
    assert_eq!(c, "a3 UID SEARCH UNSEEN\r\n");
    let uids = vec![3u32, 7, 5];
    let chosen = s.handle_search(ImapStatus::Okay, &uids).unwrap();
    assert_eq!(chosen, Some(7));
    let c = s.fetch_command();
    assert_eq!(c, "a4 UID FETCH 7 (ENVELOPE BODY[])\r\n");
}

#[test]
fn empty_mailbox_finishes_without_search() {
    let mut s = ImapSession::new();
    let _ = s.login_command("u", "p");
    s.confirm_auth(ImapStatus::Okay).unwrap();
    let _ = s.select_command();
    let proceed = s.handle_select(ImapStatus::Okay, 0).unwrap();
    assert!(!proceed);
    assert_eq!(s.state, ImapState::Finished);
}

#[test]
fn empty_search_finishes_without_fetch() {
    let mut s = ImapSession::new();
    let _ = s.login_command("u", "p");
    s.confirm_auth(ImapStatus::Okay).unwrap();
    let _ = s.select_command();
    assert!(s.handle_select(ImapStatus::Okay, 2).unwrap());
    let _ = s.search_command();
    let chosen = s.handle_search(ImapStatus::Okay, &Vec::new()).unwrap();
    assert_eq!(chosen, None);
    assert_eq!(s.state, ImapState::Finished);
}

#[test]
fn highest_uid_wins_not_first() {
    let uids = vec![3u32, 7, 5];
    assert_eq!(max_uid(&uids), Some(7));
    assert_eq!(max_uid(&Vec::new()), None);
    assert_eq!(max_uid(&vec![9u32]), Some(9));
}

#[test]
fn search_line_parses_in_server_order() {
    assert_eq!(parse_search_line("* SEARCH 3 7 5"), Some(vec![3u32, 7, 5]));
    assert_eq!(parse_search_line("* SEARCH"), Some(Vec::new()));
    assert_eq!(parse_search_line("* SEARCH 12"), Some(vec![12u32]));
    assert_eq!(parse_search_line("* SEARCH  7"), None);
    assert_eq!(parse_search_line("* SEARCH 7x"), None);
    assert_eq!(parse_search_line("* RECENT 7"), None);
    assert_eq!(parse_search_line("* SEARCH 4294967296"), None);
}

#[test]
fn exists_line_parses() {
    assert_eq!(parse_exists_line("* 23 EXISTS"), Some(23));
    assert_eq!(parse_exists_line("* 0 EXISTS"), Some(0));
    assert_eq!(parse_exists_line("* EXISTS"), None);
    assert_eq!(parse_exists_line("* 23 RECENT"), None);
    assert_eq!(parse_exists_line("23 EXISTS"), None);
}

#[test]
fn tagged_status_parses() {
    assert_eq!(
        parse_tagged_status("a1 OK LOGIN completed", 1),
        Some(ImapStatus::Okay)
    );
    assert_eq!(parse_tagged_status("a2 NO [AUTHENTICATIONFAILED]", 2), Some(ImapStatus::No));
    assert_eq!(parse_tagged_status("a3 BAD", 3), Some(ImapStatus::Bad));
    assert_eq!(parse_tagged_status("a1 OK done", 2), None);
    assert_eq!(parse_tagged_status("* OK greeting", 1), None);
    assert_eq!(parse_tagged_status("a1 OKAY", 1), None);
}

#[test]
fn failed_auth_is_an_error() {
    let mut s = ImapSession::new();
    let _ = s.login_command("u", "p");
    assert!(s.confirm_auth(ImapStatus::No).is_err());
    assert_eq!(s.state, ImapState::Finished);
}

#[test]
fn capability_command_is_exact() {
    let mut s = ImapSession::new();
    let _ = s.login_command("u", "p");
    s.confirm_auth(ImapStatus::Okay).unwrap();
    let c = s.capability_command();
    assert_eq!(c, "a2 CAPABILITY\r\n");
    let c = s.select_command();
    assert_eq!(c, "a3 SELECT INBOX\r\n");
}
