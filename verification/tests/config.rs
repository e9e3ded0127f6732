use email_reader::config::{
    get_env_var, get_env_var_bool, mail_credential_kind, parse_mail_credential_kind,
    DebugSettings, EnvVars, GmailRestApiConfig, ImapConfig, ImapCredentialKind, ImapCredentials,
    MailCredentialKind,
};
use email_reader::error::AppError;

fn env_of(pairs: &[(&str, &str)]) -> EnvVars {
    let mut env = EnvVars::new();
    for (k, v) in pairs {
        env.push(k.to_string(), v.to_string());
    }
    env
}

#[test]
fn missing_credential_kind_is_missing_env() {
    let env = env_of(&[("IMAP_HOST", "imap.example.com")]);
    match mail_credential_kind(&env) {
        Err(AppError::MissingEnv { key }) => assert_eq!(key, "MAIL_CREDENTIAL_KIND"),
        other => panic!("expected MissingEnv, got {:?}", other),
    }
}

#[test]
fn blank_credential_kind_is_missing_env() {
    let env = env_of(&[("MAIL_CREDENTIAL_KIND", "\"\"")]);
    assert!(matches!(
        mail_credential_kind(&env),
        Err(AppError::MissingEnv { .. })
    ));
}

#[test]
fn invalid_credential_kind_is_invalid_env() {
    let env = env_of(&[("MAIL_CREDENTIAL_KIND", "carrier-pigeon")]);
    match mail_credential_kind(&env) {
        Err(AppError::InvalidEnv { key, .. }) => assert_eq!(key, "MAIL_CREDENTIAL_KIND"),
        other => panic!("expected InvalidEnv, got {:?}", other),
    }
}

#[test]
fn credential_kinds_parse_case_insensitively() {
    assert_eq!(
        parse_mail_credential_kind("Plain-IMAP"),
        Some(MailCredentialKind::PlainImap)
    );
    assert_eq!(
        parse_mail_credential_kind("gmail-imap"),
        Some(MailCredentialKind::GmailImap)
    );
    assert_eq!(
        parse_mail_credential_kind("GMAIL-REST-API"),
        Some(MailCredentialKind::GmailRestApi)
    );
    assert_eq!(parse_mail_credential_kind("plain"), None);
}

#[test]
fn env_values_are_unquoted() {
    let env = env_of(&[("IMAP_HOST", "\"imap.example.com\"")]);
    assert_eq!(get_env_var(&env, "IMAP_HOST").unwrap(), "imap.example.com");
}

#[test]
fn first_pair_wins() {
    let env = env_of(&[("K", "first"), ("K", "second")]);
    assert_eq!(get_env_var(&env, "K").unwrap(), "first");
}

#[test]
fn env_bool_accepts_true_and_one() {
    let env = env_of(&[("A", "TRUE"), ("B", "1"), ("C", "yes")]);
    assert_eq!(get_env_var_bool(&env, "A").unwrap(), true);
    assert_eq!(get_env_var_bool(&env, "B").unwrap(), true);
    assert_eq!(get_env_var_bool(&env, "C").unwrap(), false);
    assert!(matches!(
        get_env_var_bool(&env, "D"),
        Err(AppError::MissingEnv { .. })
    ));
}

#[test]
fn debug_settings_default_off() {
    let env = env_of(&[]);
    let d = DebugSettings::from_env(&env);
    assert!(!d.print_imap_greeting);
    assert!(!d.print_imap_capabilities);
    let env = env_of(&[("IMAP_DEBUG_GREETING", "true")]);
    let d = DebugSettings::from_env(&env);
    assert!(d.print_imap_greeting);
    assert!(!d.print_imap_capabilities);
}

#[test]
fn imap_config_plain_happy_path() {
    let env = env_of(&[
        ("MAIL_CREDENTIAL_KIND", "plain-imap"),
        ("IMAP_USERNAME", "u@example.com"),
        ("IMAP_PASSWORD", "secret"),
        ("IMAP_HOST", "imap.example.com"),
        ("IMAP_PORT", "993"),
        ("IMAP_TLS", "true"),
    ]);
    let c = ImapConfig::new(&env).unwrap();
    assert_eq!(c.host, "imap.example.com");
    assert_eq!(c.port, 993);
    assert!(c.tls);
    match &c.credentials {
        ImapCredentials::Plain { username, password } => {
            assert_eq!(username, "u@example.com");
            assert_eq!(password, "secret");
        }
        other => panic!("expected plain credentials, got {:?}", other),
    }
    assert_eq!(c.credentials.kind(), ImapCredentialKind::Plain);
}

#[test]
fn imap_config_gmail_happy_path() {
    let env = env_of(&[
        ("MAIL_CREDENTIAL_KIND", "gmail-imap"),
        ("GMAIL_CLIENT_ID", "cid"),
        ("GMAIL_CLIENT_SECRET", "cs"),
        ("GMAIL_TOKEN", "rt"),
        ("IMAP_HOST", "imap.gmail.com"),
        ("IMAP_PORT", "993"),
        ("IMAP_TLS", "TRUE"),
    ]);
    let c = ImapConfig::new(&env).unwrap();
    assert!(c.tls);
    assert_eq!(c.credentials.kind(), ImapCredentialKind::OAuth2);
}

#[test]
fn imap_config_rejects_bad_port_and_tls() {
    let base = [
        ("MAIL_CREDENTIAL_KIND", "plain-imap"),
        ("IMAP_USERNAME", "u"),
        ("IMAP_PASSWORD", "p"),
        ("IMAP_HOST", "h"),
    ];
    let mut pairs = base.to_vec();
    pairs.push(("IMAP_PORT", "70000"));
    pairs.push(("IMAP_TLS", "true"));
    match ImapConfig::new(&env_of(&pairs)) {
        Err(AppError::InvalidEnv { key, .. }) => assert_eq!(key, "IMAP_PORT"),
        other => panic!("expected InvalidEnv for port, got {:?}", other),
    }
    let mut pairs = base.to_vec();
    pairs.push(("IMAP_PORT", "143"));
    pairs.push(("IMAP_TLS", "maybe"));
    match ImapConfig::new(&env_of(&pairs)) {
        Err(AppError::InvalidEnv { key, .. }) => assert_eq!(key, "IMAP_TLS"),
        other => panic!("expected InvalidEnv for tls, got {:?}", other),
    }
}

#[test]
fn gmail_rest_config_reports_first_missing_key() {
    let env = env_of(&[("GMAIL_CLIENT_ID", "cid")]);
    match GmailRestApiConfig::new(&env) {
        Err(AppError::MissingEnv { key }) => assert_eq!(key, "GMAIL_CLIENT_SECRET"),
        other => panic!("expected MissingEnv, got {:?}", other),
    }
    let env = env_of(&[
        ("GMAIL_CLIENT_ID", "cid"),
        ("GMAIL_CLIENT_SECRET", "cs"),
        ("GMAIL_TOKEN", "rt"),
    ]);
    let c = GmailRestApiConfig::new(&env).unwrap();
    assert_eq!(c.client_id, "cid");
    assert_eq!(c.client_secret, "cs");
    assert_eq!(c.refresh_token, "rt");
}

#[test]
fn config_summary_never_shows_credentials() {
    let env = env_of(&[
        ("MAIL_CREDENTIAL_KIND", "plain-imap"),
        ("IMAP_USERNAME", "u@example.com"),
        ("IMAP_PASSWORD", "secret"),
        ("IMAP_HOST", "imap.example.com"),
        ("IMAP_PORT", "993"),
        ("IMAP_TLS", "true"),
    ]);
    let c = ImapConfig::new(&env).unwrap();
    assert_eq!(c.summary(), "IMAP imap.example.com:993 (TLS: true)");
}
