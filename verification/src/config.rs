//! Configuration of one pipeline invocation.
//!
//! All configuration arrives as plain key/value pairs (the host snapshots
//! its environment into an [`EnvVars`] before calling in).  Values may be
//! wrapped in stray double quotes; those are trimmed, and a blank value
//! counts as missing.  Every constructor states exactly which values it
//! reads, when it succeeds, and which error it returns otherwise.

use vstd::prelude::*;
use vstd::string::StringExecFns;

use crate::error::{AppError, AppResult};
use crate::text::{
    dec_value, is_digits, lower, parse_u16, str_eq, str_eq_ignore_case, trim_quotes,
};

verus! {

/// A snapshot of the configuration environment: ordered key/value pairs.
/// The first pair with a given key wins.
#[derive(Debug, Clone)]
pub struct EnvVars {
    pub vars: Vec<(String, String)>,
}

/// The raw value of `key` in `vars`; the empty sequence when absent.
pub open spec fn env_raw(vars: Seq<(String, String)>, key: Seq<char>) -> Seq<char>
    decreases vars.len(),
{
    if vars.len() == 0 {
        Seq::empty()
    } else if vars[0].0@ == key {
        vars[0].1@
    } else {
        env_raw(vars.drop_first(), key)
    }
}

/// The cleaned value of `key`: raw value with wrapping quotes trimmed.
pub open spec fn env_value(env: &EnvVars, key: Seq<char>) -> Seq<char> {
    trim_quotes(env_raw(env.vars@, key))
}

/// Whether the cleaned value of `key` is present (non-blank).
pub open spec fn env_present(env: &EnvVars, key: Seq<char>) -> bool {
    env_value(env, key).len() > 0
}

/// The boolean reading of a cleaned value: `true` (any ASCII case) or `1`.
pub open spec fn spec_bool_value(v: Seq<char>) -> bool {
    lower(v) == lower("true"@) || v == "1"@
}

/// A present flag that reads as true.
pub open spec fn env_flag(env: &EnvVars, key: Seq<char>) -> bool {
    env_present(env, key) && spec_bool_value(env_value(env, key))
}

impl EnvVars {
    /// An empty environment snapshot.
    pub fn new() -> (r: EnvVars)
        ensures
            r.vars@.len() == 0,
    {
        EnvVars { vars: Vec::new() }
    }

    /// Append one key/value pair.
    pub fn push(&mut self, key: String, value: String)
        ensures
            final(self).vars@ == old(self).vars@.push((key, value)),
    {
        self.vars.push((key, value));
    }
}

/// Find the first pair whose key matches.
fn env_find(env: &EnvVars, key: &str) -> (r: Option<usize>)
    ensures
        match r {
            Some(j) => j < env.vars@.len() && env.vars@[j as int].0@ == key@ && env_raw(
                env.vars@,
                key@,
            ) == env.vars@[j as int].1@,
            None => env_raw(env.vars@, key@) == Seq::<char>::empty(),
        },
{
    let n: usize = env.vars.len();
    let mut i: usize = 0;
    proof {
        assert(env.vars@.skip(0) =~= env.vars@);
    }
    while i < n
        invariant
            n == env.vars@.len(),
            i <= n,
            env_raw(env.vars@, key@) == env_raw(env.vars@.skip(i as int), key@),
        decreases n - i,
    {
        proof {
            assert(env.vars@.skip(i as int)[0] == env.vars@[i as int]);
            assert(env.vars@.skip(i as int).drop_first() =~= env.vars@.skip(i + 1));
        }
        if str_eq(env.vars[i].0.as_str(), key) {
            return Some(i);
        }
        i += 1;
    }
    proof {
        assert(env.vars@.skip(n as int) =~= Seq::<(String, String)>::empty());
    }
    None
}

/// Look up `key` and clean its value.  Returns the cleaned value when it
/// is non-blank, and `MissingEnv` otherwise (absent, blank, or nothing
/// but quotes).
pub fn get_env_var(env: &EnvVars, key: &'static str) -> (r: AppResult<String>)
    ensures
        match r {
            Ok(v) => v@ == env_value(env, key@) && env_present(env, key@),
            Err(e) => !env_present(env, key@) && (e matches AppError::MissingEnv { key: k }
                && k@ == key@),
        },
{
    let cleaned: String = match env_find(env, key) {
        Some(j) => crate::text::trim_quotes_str(env.vars[j].1.as_str()),
        None => String::new(),
    };
    if cleaned.as_str().unicode_len() == 0 {
        Err(AppError::MissingEnv { key: key.to_owned() })
    } else {
        Ok(cleaned)
    }
}

/// Look up `key` and read it as a boolean: `true` (any ASCII case) or
/// `1` count as true, anything else as false.  Missing keys fail as in
/// [`get_env_var`].
pub fn get_env_var_bool(env: &EnvVars, key: &'static str) -> (r: AppResult<bool>)
    ensures
        match r {
            Ok(b) => env_present(env, key@) && b == spec_bool_value(env_value(env, key@)),
            Err(e) => !env_present(env, key@) && (e matches AppError::MissingEnv { key: k }
                && k@ == key@),
        },
{
    match get_env_var(env, key) {
        Ok(v) => Ok(
            str_eq_ignore_case(v.as_str(), "true") || str_eq(v.as_str(), "1"),
        ),
        Err(e) => Err(e),
    }
}

/// Debug toggles, all defaulting to off; never required for correctness.
#[derive(Debug, Clone)]
pub struct DebugSettings {
    pub print_imap_greeting: bool,
    pub print_imap_capabilities: bool,
}

impl DebugSettings {
    /// Read the toggles from the environment; a missing toggle is off.
    pub fn from_env(env: &EnvVars) -> (r: DebugSettings)
        ensures
            r.print_imap_greeting == env_flag(env, "IMAP_DEBUG_GREETING"@),
            r.print_imap_capabilities == env_flag(env, "IMAP_DEBUG_CAPABILITIES"@),
    {
        let print_imap_greeting: bool = match get_env_var_bool(env, "IMAP_DEBUG_GREETING") {
            Ok(b) => b,
            Err(_) => false,
        };
        let print_imap_capabilities: bool = match get_env_var_bool(env, "IMAP_DEBUG_CAPABILITIES")
            {
            Ok(b) => b,
            Err(_) => false,
        };
        DebugSettings { print_imap_greeting, print_imap_capabilities }
    }
}

impl Default for DebugSettings {
    /// Both toggles off.
    fn default() -> (r: DebugSettings)
        ensures
            !r.print_imap_greeting,
            !r.print_imap_capabilities,
    {
        DebugSettings { print_imap_greeting: false, print_imap_capabilities: false }
    }
}

/// The credential kind selecting the ingestion path.
#[derive(Debug, Clone, Copy, PartialEq, Eq, Structural)]
pub enum MailCredentialKind {
    PlainImap,
    GmailImap,
    GmailRestApi,
}

/// The credential kind denoted by a cleaned value, compared ASCII
/// case-insensitively against the three accepted spellings.
pub open spec fn spec_mail_credential_kind(v: Seq<char>) -> Option<MailCredentialKind> {
    if lower(v) == lower("plain-imap"@) {
        Some(MailCredentialKind::PlainImap)
    } else if lower(v) == lower("gmail-imap"@) {
        Some(MailCredentialKind::GmailImap)
    } else if lower(v) == lower("gmail-rest-api"@) {
        Some(MailCredentialKind::GmailRestApi)
    } else {
        None
    }
}

/// Parse a cleaned `MAIL_CREDENTIAL_KIND` value.
pub fn parse_mail_credential_kind(v: &str) -> (r: Option<MailCredentialKind>)
    ensures
        r == spec_mail_credential_kind(v@),
{
    if str_eq_ignore_case(v, "plain-imap") {
        Some(MailCredentialKind::PlainImap)
    } else if str_eq_ignore_case(v, "gmail-imap") {
        Some(MailCredentialKind::GmailImap)
    } else if str_eq_ignore_case(v, "gmail-rest-api") {
        Some(MailCredentialKind::GmailRestApi)
    } else {
        None
    }
}

/// Selects the ingestion path from the environment.  Fails with
/// `MissingEnv` when `MAIL_CREDENTIAL_KIND` is absent or blank, and with
/// `InvalidEnv` when it is present but not one of the three accepted
/// kinds; in neither failure case is any connection attempted.
pub fn mail_credential_kind(env: &EnvVars) -> (r: AppResult<MailCredentialKind>)
    ensures
        match r {
            Ok(k) => env_present(env, "MAIL_CREDENTIAL_KIND"@)
                && spec_mail_credential_kind(env_value(env, "MAIL_CREDENTIAL_KIND"@))
                == Some(k),
            Err(e) => if !env_present(env, "MAIL_CREDENTIAL_KIND"@) {
                e matches AppError::MissingEnv { key } && key@ == "MAIL_CREDENTIAL_KIND"@
            } else {
                spec_mail_credential_kind(env_value(env, "MAIL_CREDENTIAL_KIND"@)) is None
                    && (e matches AppError::InvalidEnv { key, .. }
                    && key@ == "MAIL_CREDENTIAL_KIND"@)
            },
        },
{
    let v = get_env_var(env, "MAIL_CREDENTIAL_KIND")?;
    match parse_mail_credential_kind(v.as_str()) {
        Some(k) => Ok(k),
        None => Err(
            AppError::InvalidEnv {
                key: "MAIL_CREDENTIAL_KIND",
                reason: "Not a valid credential kind (expected 'plain-imap', 'gmail-imap', or 'gmail-rest-api')",
            },
        ),
    }
}

/// Credentials for the IMAP path: a direct login, or an OAuth2 triple
/// exchanged for a bearer token at authentication time.
#[derive(Debug, Clone)]
pub enum ImapCredentials {
    Plain { username: String, password: String },
    Gmail { client_id: String, client_secret: String, refresh_token: String },
}

/// The tag of an [`ImapCredentials`] value.
#[derive(Debug, Clone, Copy, PartialEq, Eq, Structural)]
pub enum ImapCredentialKind {
    Plain,
    OAuth2,
}

impl ImapCredentials {
    /// Which authentication mechanism these credentials use.
    pub fn kind(&self) -> (r: ImapCredentialKind)
        ensures
            r == ImapCredentialKind::Plain <==> self matches ImapCredentials::Plain { .. },
            r == ImapCredentialKind::OAuth2 <==> self matches ImapCredentials::Gmail { .. },
    {
        match self {
            ImapCredentials::Plain { .. } => ImapCredentialKind::Plain,
            ImapCredentials::Gmail { .. } => ImapCredentialKind::OAuth2,
        }
    }
}

/// The OAuth2 triple of the Gmail REST path (and of OAuth2-over-IMAP).
#[derive(Debug, Clone)]
pub struct GmailRestApiConfig {
    pub client_id: String,
    pub client_secret: String,
    pub refresh_token: String,
}

/// All three OAuth2 values are present.
pub open spec fn gmail_env_ok(env: &EnvVars) -> bool {
    env_present(env, "GMAIL_CLIENT_ID"@) && env_present(env, "GMAIL_CLIENT_SECRET"@)
        && env_present(env, "GMAIL_TOKEN"@)
}

/// The key of the first missing OAuth2 value, reading in order.
pub open spec fn gmail_env_missing_key(env: &EnvVars) -> Seq<char> {
    if !env_present(env, "GMAIL_CLIENT_ID"@) {
        "GMAIL_CLIENT_ID"@
    } else if !env_present(env, "GMAIL_CLIENT_SECRET"@) {
        "GMAIL_CLIENT_SECRET"@
    } else {
        "GMAIL_TOKEN"@
    }
}

impl GmailRestApiConfig {
    /// Read the OAuth2 triple.  Succeeds exactly when all three values
    /// are present; otherwise reports the first missing key.
    pub fn new(env: &EnvVars) -> (r: AppResult<GmailRestApiConfig>)
        ensures
            match r {
                Ok(c) => gmail_env_ok(env) && c.client_id@ == env_value(env, "GMAIL_CLIENT_ID"@)
                    && c.client_secret@ == env_value(env, "GMAIL_CLIENT_SECRET"@)
                    && c.refresh_token@ == env_value(env, "GMAIL_TOKEN"@),
                Err(e) => !gmail_env_ok(env) && (e matches AppError::MissingEnv { key }
                    && key@ == gmail_env_missing_key(env)),
            },
    {
        let client_id = get_env_var(env, "GMAIL_CLIENT_ID")?;
        let client_secret = get_env_var(env, "GMAIL_CLIENT_SECRET")?;
        let refresh_token = get_env_var(env, "GMAIL_TOKEN")?;
        Ok(GmailRestApiConfig { client_id, client_secret, refresh_token })
    }
}

/// Configuration of the IMAP path.
#[derive(Debug, Clone)]
pub struct ImapConfig {
    pub host: String,
    pub port: u16,
    pub tls: bool,
    pub credentials: ImapCredentials,
}

/// The boolean denoted by a cleaned `IMAP_TLS` value: exactly `true` or
/// `false`, ASCII case-insensitively.
pub open spec fn spec_tls_flag(v: Seq<char>) -> Option<bool> {
    if lower(v) == lower("true"@) {
        Some(true)
    } else if lower(v) == lower("false"@) {
        Some(false)
    } else {
        None
    }
}

/// The username/password pair is present.
pub open spec fn plain_env_ok(env: &EnvVars) -> bool {
    env_present(env, "IMAP_USERNAME"@) && env_present(env, "IMAP_PASSWORD"@)
}

/// Host, port and TLS flag are present and well-formed.
pub open spec fn imap_endpoint_ok(env: &EnvVars) -> bool {
    &&& env_present(env, "IMAP_HOST"@)
    &&& env_present(env, "IMAP_PORT"@)
    &&& is_digits(env_value(env, "IMAP_PORT"@))
    &&& dec_value(env_value(env, "IMAP_PORT"@)) <= u16::MAX
    &&& env_present(env, "IMAP_TLS"@)
    &&& spec_tls_flag(env_value(env, "IMAP_TLS"@)) is Some
}

/// The key of the first missing plain-login value, reading in order.
pub open spec fn plain_env_missing_key(env: &EnvVars) -> Seq<char> {
    if !env_present(env, "IMAP_USERNAME"@) {
        "IMAP_USERNAME"@
    } else {
        "IMAP_PASSWORD"@
    }
}

/// The credentials the IMAP configuration must carry, per kind.
pub open spec fn imap_creds_match(env: &EnvVars, k: MailCredentialKind, c: ImapCredentials) -> bool {
    match k {
        MailCredentialKind::PlainImap => c matches ImapCredentials::Plain { username, password }
            && username@ == env_value(env, "IMAP_USERNAME"@)
            && password@ == env_value(env, "IMAP_PASSWORD"@),
        MailCredentialKind::GmailImap => c matches ImapCredentials::Gmail {
            client_id,
            client_secret,
            refresh_token,
        } && client_id@ == env_value(env, "GMAIL_CLIENT_ID"@)
            && client_secret@ == env_value(env, "GMAIL_CLIENT_SECRET"@)
            && refresh_token@ == env_value(env, "GMAIL_TOKEN"@),
        MailCredentialKind::GmailRestApi => false,
    }
}

/// What a successfully read IMAP configuration holds for kind `k`:
/// the credentials of that kind and the endpoint fields, all tied to
/// the environment.
pub open spec fn spec_imap_config_ok(env: &EnvVars, k: MailCredentialKind, c: ImapConfig) -> bool {
    &&& imap_creds_match(env, k, c.credentials)
    &&& imap_endpoint_ok(env)
    &&& c.host@ == env_value(env, "IMAP_HOST"@)
    &&& c.port == dec_value(env_value(env, "IMAP_PORT"@))
    &&& Some(c.tls) == spec_tls_flag(env_value(env, "IMAP_TLS"@))
}

/// The error owed when the IMAP configuration cannot be read for kind
/// `k`, walking the reads in their order: credentials, then host, port
/// and TLS presence, then port and TLS validity.  False when nothing
/// is wrong — so a reader of this predicate knows failure is only
/// allowed on a broken environment.
pub open spec fn spec_imap_config_error(env: &EnvVars, k: MailCredentialKind, e: AppError) -> bool {
    if k == MailCredentialKind::PlainImap && !plain_env_ok(env) {
        e matches AppError::MissingEnv { key } && key@ == plain_env_missing_key(env)
    } else if k == MailCredentialKind::GmailImap && !gmail_env_ok(env) {
        e matches AppError::MissingEnv { key } && key@ == gmail_env_missing_key(env)
    } else if !env_present(env, "IMAP_HOST"@) {
        e matches AppError::MissingEnv { key } && key@ == "IMAP_HOST"@
    } else if !env_present(env, "IMAP_PORT"@) {
        e matches AppError::MissingEnv { key } && key@ == "IMAP_PORT"@
    } else if !env_present(env, "IMAP_TLS"@) {
        e matches AppError::MissingEnv { key } && key@ == "IMAP_TLS"@
    } else if !(is_digits(env_value(env, "IMAP_PORT"@)) && dec_value(
        env_value(env, "IMAP_PORT"@),
    ) <= u16::MAX) {
        e matches AppError::InvalidEnv { key, .. } && key@ == "IMAP_PORT"@
    } else {
        spec_tls_flag(env_value(env, "IMAP_TLS"@)) is None && (
        e matches AppError::InvalidEnv { key, .. } && key@ == "IMAP_TLS"@)
    }
}

impl ImapConfig {
    /// Read the IMAP configuration.  Reads the credential kind first and
    /// fails as [`mail_credential_kind`] does when it is missing,
    /// invalid, or names the REST path; then reads the credentials for
    /// that kind, then host, port and TLS flag.  No connection is
    /// attempted here.
    pub fn new(env: &EnvVars) -> (r: AppResult<ImapConfig>)
        ensures
            match r {
                Ok(c) => spec_mail_credential_kind(env_value(env, "MAIL_CREDENTIAL_KIND"@))
                    matches Some(k) && spec_imap_config_ok(env, k, c),
                Err(e) => {
                    let kind = spec_mail_credential_kind(
                        env_value(env, "MAIL_CREDENTIAL_KIND"@),
                    );
                    if !env_present(env, "MAIL_CREDENTIAL_KIND"@) {
                        e matches AppError::MissingEnv { key }
                            && key@ == "MAIL_CREDENTIAL_KIND"@
                    } else if kind is None || kind == Some(MailCredentialKind::GmailRestApi) {
                        e matches AppError::InvalidEnv { key, .. }
                            && key@ == "MAIL_CREDENTIAL_KIND"@
                    } else {
                        kind matches Some(k) && spec_imap_config_error(env, k, e)
                    }
                },
            },
    {
        let kind = mail_credential_kind(env)?;
        let credentials: ImapCredentials = match kind {
            MailCredentialKind::PlainImap => {
                let username = get_env_var(env, "IMAP_USERNAME")?;
                let password = get_env_var(env, "IMAP_PASSWORD")?;
                ImapCredentials::Plain { username, password }
            },
            MailCredentialKind::GmailImap => {
                let client_id = get_env_var(env, "GMAIL_CLIENT_ID")?;
                let client_secret = get_env_var(env, "GMAIL_CLIENT_SECRET")?;
                let refresh_token = get_env_var(env, "GMAIL_TOKEN")?;
                ImapCredentials::Gmail { client_id, client_secret, refresh_token }
            },
            MailCredentialKind::GmailRestApi => {
                return Err(
                    AppError::InvalidEnv {
                        key: "MAIL_CREDENTIAL_KIND",
                        reason: "The REST credential kind does not configure an IMAP session",
                    },
                );
            },
        };
        let host = get_env_var(env, "IMAP_HOST")?;
        let port_raw = get_env_var(env, "IMAP_PORT")?;
        let tls_raw = get_env_var(env, "IMAP_TLS")?;
        let port: u16 = match parse_u16(port_raw.as_str()) {
            Some(p) => p,
            None => {
                return Err(
                    AppError::InvalidEnv { key: "IMAP_PORT", reason: "Not a valid u16" },
                );
            },
        };
        let tls: bool = if str_eq_ignore_case(tls_raw.as_str(), "true") {
            true
        } else if str_eq_ignore_case(tls_raw.as_str(), "false") {
            false
        } else {
            return Err(AppError::InvalidEnv { key: "IMAP_TLS", reason: "Not a valid boolean" });
        };
        Ok(ImapConfig { host, port, tls, credentials })
    }

    /// A printable summary of the endpoint: `IMAP <host>:<port> (TLS:
    /// true|false)`.  Credentials never appear in it.
    pub fn summary(&self) -> (r: String)
        ensures
            r@ == "IMAP "@ + self.host@ + ":"@ + crate::text::dec_string(self.port as int)
                + " (TLS: "@ + (if self.tls { "true"@ } else { "false"@ }) + ")"@,
    {
        let mut s = String::from_str("IMAP ");
        s.append(self.host.as_str());
        s.append(":");
        crate::text::push_decimal(&mut s, self.port as u64);
        s.append(" (TLS: ");
        if self.tls {
            s.append("true");
        } else {
            s.append("false");
        }
        s.append(")");
        proof {
            assert(s@ =~= "IMAP "@ + self.host@ + ":"@ + crate::text::dec_string(
                self.port as int,
            ) + " (TLS: "@ + (if self.tls { "true"@ } else { "false"@ }) + ")"@);
        }
        s
    }
}

} // verus!
