use email_reader::error::AppError;
use email_reader::parser::EmailMessage;
use email_reader::verify::{dkim_domain, extract_domain, interpret_dkim, DkimStatus};

#[test]
fn sender_without_at_sign_cannot_yield_a_domain() {
    match extract_domain("no-at-sign") {
        Err(AppError::CannotExtractDomain(s)) => assert_eq!(s, "no-at-sign"),
        other => panic!("expected CannotExtractDomain, got {:?}", other),
    }
}

#[test]
fn domain_is_the_part_after_the_first_at() {
    assert_eq!(extract_domain("alice@example.com").unwrap(), "example.com");
    assert_eq!(extract_domain("a@b@c").unwrap(), "b");
    assert_eq!(extract_domain("a@").unwrap(), "");
}

#[test]
fn dkim_domain_reads_the_parsed_sender() {
    let m = EmailMessage::parse(
        b"From: alice@mail.example\r\n\r\nx\r\n".to_vec(),
        None,
    )
    .unwrap();
    assert_eq!(dkim_domain(&m).unwrap(), "mail.example");
}

#[test]
fn dkim_outcomes_map_to_their_error_categories() {
    assert!(interpret_dkim(DkimStatus::Pass).is_ok());
    match interpret_dkim(DkimStatus::Fail("neutral".to_string())) {
        Err(AppError::DkimResult(m)) => assert_eq!(m, "neutral"),
        other => panic!("expected DkimResult, got {:?}", other),
    }
    match interpret_dkim(DkimStatus::Error("no key".to_string())) {
        Err(AppError::Dkim(m)) => assert_eq!(m, "no key"),
        other => panic!("expected Dkim, got {:?}", other),
    }
}
