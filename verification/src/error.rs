//! Error taxonomy of the pipeline.
//!
//! Every step returns a typed failure; nothing panics and nothing is
//! retried.  Transport failures, protocol failures, configuration
//! failures, parse failures and verification failures are kept apart so
//! that the caller can decide policy per category.

use vstd::prelude::*;

verus! {

/// Failures while resolving, connecting, upgrading to TLS, or moving bytes.
#[derive(Debug, Clone)]
pub enum ConnectionError {
    /// The underlying byte stream reported an error.
    Stream(String),
    /// A TCP-level operation failed.
    Tcp(String),
    /// The peer closed the connection.
    ConnectionClosed,
    /// The TLS handshake failed; terminal for this connection.
    TlsHandshakeError(String),
    /// The resolver returned no address for the host.
    NoAddress { host: String },
    /// A line from the server was not valid UTF-8.
    Utf8(String),
}

/// Top-level error of one pipeline invocation.
#[derive(Debug, Clone)]
pub enum AppError {
    /// Transport-level failure (DNS, TCP, TLS).
    Connection(ConnectionError),
    /// IMAP protocol-level failure reported by the session.
    Client(String),
    /// A required configuration value is absent or blank.
    MissingEnv { key: String },
    /// A configuration value is present but malformed.
    InvalidEnv { key: &'static str, reason: &'static str },
    /// Search returned a UID but fetching it produced no message.
    FailedToFetchEmail(u32),
    /// The raw message could not be parsed into an `EmailMessage`.
    MessageParse(String),
    /// OAuth2 / HTTP authorization failure, or an id mismatch on
    /// mark-as-read.
    Auth(String),
    /// DKIM verification failed with an error.
    Dkim(String),
    /// DKIM verification completed with a non-pass result.
    DkimResult(String),
    /// The sender address holds no `@domain` part.
    CannotExtractDomain(String),
}

pub type AppResult<T> = Result<T, AppError>;

} // verus!
