//! The invocation's top level, as pure decisions.
//!
//! One invocation plans its ingestion path from the configuration
//! snapshot, and — once a message is fetched, parsed and verified —
//! builds the payload and event salt handed to the submission layer.
//! No network is touched here; failing configurations fail before any
//! connection could be attempted.

use vstd::prelude::*;
use vstd::string::StrSliceExecFns;
use vstd::string::StringExecFns;
use vstd::string::StringSliceAdditionalSpecFns;

use crate::config::{
    env_flag, env_present, env_value, gmail_env_missing_key, gmail_env_ok,
    mail_credential_kind, spec_imap_config_error, spec_imap_config_ok,
    spec_mail_credential_kind, DebugSettings, EnvVars, GmailRestApiConfig, ImapConfig,
    MailCredentialKind,
};
use crate::error::{AppError, AppResult};
use crate::parser::EmailMessage;
use crate::registry_api::sha256_of;
use crate::service_api::{spec_email_msg_json, CustomExecuteMsg, Email};

verus! {

/// What one invocation will do: drive an IMAP session, or poll the
/// Gmail REST interface.
#[derive(Debug, Clone)]
pub enum InvocationPlan {
    Imap(ImapConfig, DebugSettings),
    Rest(GmailRestApiConfig),
}

/// Plan the invocation from the configuration snapshot.  A returned
/// plan carries exactly the configuration the snapshot holds: on the
/// IMAP path the credentials of the selected kind, the endpoint
/// fields and the debug toggles; on the REST path the OAuth2 triple.
/// With `MAIL_CREDENTIAL_KIND` absent the plan fails with
/// `MissingEnv`, with an unrecognized kind with `InvalidEnv`, and
/// otherwise only when a value of the selected path is missing or
/// malformed — a complete snapshot always plans.  No connection is
/// attempted here: only the returned plan reaches the network at all.
pub fn plan_invocation(env: &EnvVars) -> (r: AppResult<InvocationPlan>)
    ensures
        match r {
            Ok(plan) => spec_mail_credential_kind(env_value(env, "MAIL_CREDENTIAL_KIND"@))
                matches Some(kind) && (match plan {
                InvocationPlan::Imap(c, d) => {
                    &&& kind == MailCredentialKind::PlainImap || kind
                        == MailCredentialKind::GmailImap
                    &&& spec_imap_config_ok(env, kind, c)
                    &&& d.print_imap_greeting == env_flag(env, "IMAP_DEBUG_GREETING"@)
                    &&& d.print_imap_capabilities == env_flag(
                        env,
                        "IMAP_DEBUG_CAPABILITIES"@,
                    )
                },
                InvocationPlan::Rest(c) => {
                    &&& kind == MailCredentialKind::GmailRestApi
                    &&& gmail_env_ok(env)
                    &&& c.client_id@ == env_value(env, "GMAIL_CLIENT_ID"@)
                    &&& c.client_secret@ == env_value(env, "GMAIL_CLIENT_SECRET"@)
                    &&& c.refresh_token@ == env_value(env, "GMAIL_TOKEN"@)
                },
            }),
            Err(e) => {
                let kind = spec_mail_credential_kind(env_value(env, "MAIL_CREDENTIAL_KIND"@));
                if !env_present(env, "MAIL_CREDENTIAL_KIND"@) {
                    e matches AppError::MissingEnv { key } && key@ == "MAIL_CREDENTIAL_KIND"@
                } else if kind is None {
                    e matches AppError::InvalidEnv { key, .. } && key@
                        == "MAIL_CREDENTIAL_KIND"@
                } else if kind == Some(MailCredentialKind::GmailRestApi) {
                    !gmail_env_ok(env) && (e matches AppError::MissingEnv { key } && key@
                        == gmail_env_missing_key(env))
                } else {
                    kind matches Some(k) && spec_imap_config_error(env, k, e)
                }
            },
        },
{
    match mail_credential_kind(env)? {
        MailCredentialKind::PlainImap | MailCredentialKind::GmailImap => {
            let config = ImapConfig::new(env)?;
            let debug = DebugSettings::from_env(env);
            Ok(InvocationPlan::Imap(config, debug))
        },
        MailCredentialKind::GmailRestApi => {
            let config = GmailRestApiConfig::new(env)?;
            Ok(InvocationPlan::Rest(config))
        },
    }
}

/// Whether trigger data carries the ad-hoc read command.
pub fn is_read_mail_command(data: &[u8]) -> (r: bool)
    ensures
        r == (data@ == "read-mail".spec_bytes()),
{
    let cmd: &[u8] = "read-mail".as_bytes();
    if data.len() != cmd.len() {
        return false;
    }
    let n: usize = data.len();
    let mut i: usize = 0;
    while i < n
        invariant
            n == data@.len(),
            n == "read-mail".spec_bytes().len(),
            cmd@ == "read-mail".spec_bytes(),
            n == cmd@.len(),
            i <= n,
            forall|k: int| 0 <= k < i ==> data@[k] == "read-mail".spec_bytes()[k],
        decreases n - i,
    {
        if data[i] != cmd[i] {
            return false;
        }
        i += 1;
    }
    proof {
        assert(data@ =~= "read-mail".spec_bytes());
    }
    true
}

/// What one fetched and parsed message submits: the encoded execute
/// payload and the event-id salt.
#[derive(Debug, Clone)]
pub struct SubmitPacket {
    pub payload: Vec<u8>,
    pub event_id_salt: Vec<u8>,
}

/// Build the submission for one message: the payload is the JSON
/// `email` execute message carrying the sender and the subject (an
/// absent subject submits as empty), and the salt is the SHA-256 of
/// the raw wire bytes, so identical wire messages salt identically.
pub fn submit_packet(email: &EmailMessage) -> (r: SubmitPacket)
    ensures
        r.payload@ == vstd::utf8::encode_utf8(
            spec_email_msg_json(
                email.original_sender@,
                match email.subject {
                    Some(s) => s@,
                    None => Seq::<char>::empty(),
                },
            ),
        ),
        r.event_id_salt@ == sha256_of(email.raw_bytes@),
{
    let subject: String = match &email.subject {
        Some(s) => s.clone(),
        None => String::new(),
    };
    let msg = CustomExecuteMsg::Email(
        Email { from: email.original_sender.clone(), subject },
    );
    let payload = msg.encode();
    let event_id_salt = crate::registry_api::sha256(email.raw_bytes.as_slice());
    SubmitPacket { payload, event_id_salt }
}

} // verus!
