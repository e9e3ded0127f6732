//! Verified core of a single-shot email ingestion pipeline.
//!
//! One invocation reads at most one unseen message from a mailbox — over
//! IMAP or over Gmail's REST interface — parses it into a normalized
//! [`parser::EmailMessage`], and prepares it for DKIM verification against
//! the sending domain.  All protocol decisions, wire formats and parsing
//! live here as verified functions on plain values; sockets, HTTP and the
//! cryptographic verifier itself are driven by the (unverified) host around
//! this library.

pub mod auth;
pub mod b64;
pub mod config;
pub mod error;
pub mod hex;
pub mod imap;
pub mod json;
pub mod oauth;
pub mod parser;
pub mod pipeline;
pub mod registry_api;
pub mod rest;
pub mod service_api;
pub mod text;
pub mod tooling;
pub mod transport;
pub mod verify;
