use sha2::Digest;

use email_reader::hex::{hex_decode, hex_encode};
use email_reader::parser::EmailMessage;
use email_reader::pipeline::{is_read_mail_command, plan_invocation, submit_packet, InvocationPlan};
use email_reader::config::EnvVars;
use email_reader::error::AppError;
use email_reader::registry_api::UserId;
use email_reader::service_api::{CustomExecuteMsg, Email, EmailEvent};
use email_reader::text::{decimal_string, parse_u16, parse_u64, trim_crlf_str, trim_quotes_str};
use email_reader::tooling::{AuthKind, ComponentKind, ContractKind, DeployTarget, HexBytes};
use email_reader::transport::{
    connect_step, handshake_step, read_step, resolve_step, socket_endpoint, teardown_order,
    write_step, ConnectEvent, ConnectStep, Connection, HandshakeEvent, HandshakeStep, IpAddress,
    IpFamily, ReadStep, ResolveEvent, ResolveStep, TransportLayer, TransportResource, WriteStep,
};
use email_reader::error::ConnectionError;
use email_reader::imap::{ImapSession, ImapStatus};

#[test]
fn hex_round_trips_and_matches_known_values() {
    assert_eq!(hex_encode(&[0x01, 0x02, 0x03, 0x0f, 0x10]), "0102030f10");
    assert_eq!(hex_encode(&[]), "");
    assert_eq!(hex_decode("0102030f10").unwrap(), vec![1, 2, 3, 15, 16]);
    assert_eq!(hex_decode("0xDEADbeef").unwrap(), vec![0xde, 0xad, 0xbe, 0xef]);
    assert!(hex_decode("abc").is_none());
    assert!(hex_decode("zz").is_none());
    let bytes = vec![0u8, 255, 16, 32];
    assert_eq!(hex_decode(&hex_encode(&bytes)).unwrap(), bytes);
}

#[test]
fn user_id_digest_is_salted_sha256_hex() {
    let id = UserId::new_email_address("joe@example.com");
    assert_eq!(
        id.as_str(),
        "2bbdf7b06d1a514615bcc29d237fca6fd65a4afeb2172bd49125b8bca5c2b1dc"
    );
    let with_display_name = UserId::new_email_address("Joe <joe@example.com>");
    assert_eq!(id.as_str(), with_display_name.as_str());
    let raw = UserId::new_raw("custom".to_string());
    assert_eq!(raw.as_str(), "custom");
}

#[test]
fn submit_packet_encodes_email_and_salts_with_sha256() {
    let raw = b"From: a@b.c\r\nSubject: Hi \"there\"\r\n\r\nx\r\n".to_vec();
    let m = EmailMessage::parse(raw.clone(), None).unwrap();
    let packet = submit_packet(&m);
    assert_eq!(
        String::from_utf8(packet.payload.clone()).unwrap(),
        "{\"email\":{\"from\":\"a@b.c\",\"subject\":\"Hi \\\"there\\\"\"}}"
    );
    let mut hasher = sha2::Sha256::new();
    hasher.update(&raw);
    assert_eq!(packet.event_id_salt, hasher.finalize().to_vec());
    let parsed: serde_json::Value = serde_json::from_slice(&packet.payload).unwrap();
    assert_eq!(
        parsed.get("email").unwrap().get("from").unwrap().as_str().unwrap(),
        "a@b.c"
    );
}

#[test]
fn execute_message_encoding_escapes_json() {
    let msg = CustomExecuteMsg::Email(Email {
        from: "a\\b@c".to_string(),
        subject: "line\nbreak\ttab\u{1}ctl".to_string(),
    });
    let s = msg.encode_string();
    assert_eq!(
        s,
        "{\"email\":{\"from\":\"a\\\\b@c\",\"subject\":\"line\\nbreak\\ttab\\u0001ctl\"}}"
    );
    let v: serde_json::Value = serde_json::from_str(&s).unwrap();
    assert_eq!(
        v.get("email").unwrap().get("subject").unwrap().as_str().unwrap(),
        "line\nbreak\ttab\u{1}ctl"
    );
}

#[test]
fn email_event_attributes_round_trip() {
    let ev = EmailEvent {
        email: Email { from: "joe@example.com".to_string(), subject: "hello world!".to_string() },
        pagination_id: 42,
    };
    let attrs = ev.attributes();
    let back = EmailEvent::from_attributes("email", &attrs).unwrap();
    assert_eq!(back.email.from, "joe@example.com");
    assert_eq!(back.email.subject, "hello world!");
    assert_eq!(back.pagination_id, 42);
    let back = EmailEvent::from_attributes("wasm-email", &attrs).unwrap();
    assert_eq!(back.pagination_id, 42);
    assert!(EmailEvent::from_attributes("transfer", &attrs).is_err());
    let mut missing = attrs.clone();
    missing.retain(|p| p.0 != "pagination-id");
    assert!(EmailEvent::from_attributes("email", &missing).is_err());
}

#[test]
fn plan_invocation_dispatches_on_kind() {
    let mut env = EnvVars::new();
    env.push("MAIL_CREDENTIAL_KIND".to_string(), "gmail-rest-api".to_string());
    env.push("GMAIL_CLIENT_ID".to_string(), "cid".to_string());
    env.push("GMAIL_CLIENT_SECRET".to_string(), "cs".to_string());
    env.push("GMAIL_TOKEN".to_string(), "rt".to_string());
    match plan_invocation(&env).unwrap() {
        InvocationPlan::Rest(c) => assert_eq!(c.client_id, "cid"),
        other => panic!("expected the REST plan, got {:?}", other),
    }
    let empty = EnvVars::new();
    assert!(matches!(
        plan_invocation(&empty),
        Err(AppError::MissingEnv { .. })
    ));
}

#[test]
fn trigger_command_is_matched_exactly() {
    assert!(is_read_mail_command(b"read-mail"));
    assert!(!is_read_mail_command(b"read-mail "));
    assert!(!is_read_mail_command(b"READ-MAIL"));
    assert!(!is_read_mail_command(b""));
}

#[test]
fn text_helpers_behave() {
    assert_eq!(trim_quotes_str("\"quoted\""), "quoted");
    assert_eq!(trim_quotes_str("\"\""), "");
    assert_eq!(trim_quotes_str("plain"), "plain");
    assert_eq!(trim_crlf_str("* OK ready\r\n"), "* OK ready");
    assert_eq!(decimal_string(0), "0");
    assert_eq!(decimal_string(90210), "90210");
    assert_eq!(parse_u16("993"), Some(993));
    assert_eq!(parse_u16("65536"), None);
    assert_eq!(parse_u64("18446744073709551615"), Some(u64::MAX));
    assert_eq!(parse_u64("18446744073709551616"), None);
    assert_eq!(parse_u64("12a"), None);
    assert_eq!(parse_u64(""), None);
}

#[test]
fn tooling_names_are_stable() {
    assert_eq!(ContractKind::ServiceHandler.as_str(), "service-handler");
    assert_eq!(ContractKind::Proxy.as_str(), "proxy");
    assert_eq!(AuthKind::User.as_str(), "user");
    assert_eq!(AuthKind::ServiceManager.as_str(), "service_manager");
    assert_eq!(ComponentKind::Operator.as_str(), "operator");
    assert_eq!(ComponentKind::Aggregator.as_str(), "aggregator");
    assert_eq!(DeployTarget::parse("testnet"), Some(DeployTarget::Testnet));
    assert_eq!(DeployTarget::parse("staging"), None);
    let h = HexBytes::from_hex("0a0b").unwrap();
    assert_eq!(h.into_inner(), vec![10, 11]);
}

#[test]
fn transport_decisions_are_deterministic() {
    let ep = socket_endpoint(IpAddress::V4(127, 0, 0, 1), 993);
    assert_eq!(ep.family, IpFamily::V4);
    assert_eq!(ep.port, 993);
    assert_eq!(ep.scope_id, 0);
    assert_eq!(read_step(0), ReadStep::Eof);
    assert_eq!(read_step(5), ReadStep::Deliver(5));
    assert_eq!(write_step(0, 10), WriteStep::Wait);
    assert_eq!(write_step(4, 10), WriteStep::Write(4));
    assert_eq!(write_step(10, 4), WriteStep::Write(4));
    let order = teardown_order(TransportLayer::Tls);
    assert_eq!(order.first(), Some(&TransportResource::Pollable));
    assert_eq!(order.last(), Some(&TransportResource::TcpSocket));
    let config = email_reader::config::ImapConfig {
        host: "imap.example.com".to_string(),
        port: 143,
        tls: false,
        credentials: email_reader::config::ImapCredentials::Plain {
            username: "u".to_string(),
            password: "p".to_string(),
        },
    };
    let conn = Connection::new(&config);
    assert_eq!(conn.layer, TransportLayer::Plain);
    let conn = conn.upgrade_tls();
    assert_eq!(conn.layer, TransportLayer::Tls);
}

#[test]
fn polling_events_map_to_their_outcomes() {
    match resolve_step(ResolveEvent::Exhausted, "imap.example.com") {
        ResolveStep::Fail(ConnectionError::NoAddress { host }) => {
            assert_eq!(host, "imap.example.com")
        }
        other => panic!("expected NoAddress, got {:?}", other),
    }
    assert!(matches!(
        resolve_step(ResolveEvent::WouldBlock, "h"),
        ResolveStep::Wait
    ));
    assert!(matches!(
        connect_step(ConnectEvent::WouldBlock),
        ConnectStep::Wait
    ));
    match connect_step(ConnectEvent::Failed("refused".to_string())) {
        ConnectStep::Fail(ConnectionError::Tcp(m)) => assert_eq!(m, "refused"),
        other => panic!("expected Tcp failure, got {:?}", other),
    }
    match handshake_step(HandshakeEvent::Consumed) {
        HandshakeStep::Fail(ConnectionError::TlsHandshakeError(m)) => {
            assert_eq!(m, "stream consumed")
        }
        other => panic!("expected handshake failure, got {:?}", other),
    }
    assert!(matches!(
        handshake_step(HandshakeEvent::Done),
        HandshakeStep::Proceed
    ));
}

#[test]
fn refused_select_is_a_client_error() {
    let mut s = ImapSession::new();
    let _ = s.login_command("u", "p");
    s.confirm_auth(ImapStatus::Okay).unwrap();
    let _ = s.select_command();
    match s.handle_select(ImapStatus::No, 0) {
        Err(AppError::Client(_)) => {}
        other => panic!("expected Client error, got {:?}", other),
    }
}

#[test]
fn message_only_keeps_the_subject() {
    let e = Email { from: "a@b.c".to_string(), subject: "s".to_string() };
    let only = email_reader::service_api::EmailMessageOnly::of_email(&e);
    assert_eq!(only.subject, "s");
}

#[test]
fn a_complete_imap_snapshot_always_plans() {
    let mut env = EnvVars::new();
    env.push("MAIL_CREDENTIAL_KIND".to_string(), "plain-imap".to_string());
    env.push("IMAP_USERNAME".to_string(), "u@example.com".to_string());
    env.push("IMAP_PASSWORD".to_string(), "secret".to_string());
    env.push("IMAP_HOST".to_string(), "imap.example.com".to_string());
    env.push("IMAP_PORT".to_string(), "993".to_string());
    env.push("IMAP_TLS".to_string(), "true".to_string());
    env.push("IMAP_DEBUG_GREETING".to_string(), "1".to_string());
    match plan_invocation(&env).unwrap() {
        InvocationPlan::Imap(c, d) => {
            assert_eq!(c.host, "imap.example.com");
            assert_eq!(c.port, 993);
            assert!(c.tls);
            assert!(d.print_imap_greeting);
            assert!(!d.print_imap_capabilities);
        }
        other => panic!("expected the IMAP plan, got {:?}", other),
    }
    let mut partial = EnvVars::new();
    partial.push("MAIL_CREDENTIAL_KIND".to_string(), "plain-imap".to_string());
    match plan_invocation(&partial) {
        Err(AppError::MissingEnv { key }) => assert_eq!(key, "IMAP_USERNAME"),
        other => panic!("expected MissingEnv for the username, got {:?}", other),
    }
    let mut rest_partial = EnvVars::new();
    rest_partial.push("MAIL_CREDENTIAL_KIND".to_string(), "gmail-rest-api".to_string());
    rest_partial.push("GMAIL_CLIENT_ID".to_string(), "cid".to_string());
    match plan_invocation(&rest_partial) {
        Err(AppError::MissingEnv { key }) => assert_eq!(key, "GMAIL_CLIENT_SECRET"),
        other => panic!("expected MissingEnv for the client secret, got {:?}", other),
    }
}
