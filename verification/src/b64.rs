//! Trusted base64 codecs from the `base64` crate.
//!
//! The standard alphabet (with padding) encodes the XOAUTH2 SASL line;
//! the URL-safe alphabet (with padding) decodes Gmail's `raw` message
//! bodies.  Both results are named functions of the input alone.

use base64::Engine;
use vstd::prelude::*;

verus! {

/// The standard-alphabet base64 encoding (with padding) of `bytes`.
pub uninterp spec fn b64_of(bytes: Seq<u8>) -> Seq<char>;

/// Relies on `base64`'s `BASE64_STANDARD.encode`: the standard-alphabet
/// encoding with padding; empty input encodes to the empty string.
#[verifier::external_body]
pub(crate) fn b64_encode(bytes: &[u8]) -> (r: String)
    ensures
        r@ == b64_of(bytes@),
        bytes@.len() == 0 ==> r@.len() == 0,
{
    base64::prelude::BASE64_STANDARD.encode(bytes)
}

/// The bytes denoted by a URL-safe-alphabet base64 string (with
/// padding), when it is well-formed.
pub uninterp spec fn b64url_decoded(s: Seq<char>) -> Option<Seq<u8>>;

/// Relies on `base64`'s `BASE64_URL_SAFE.decode`: the URL-safe-alphabet
/// decoding with padding.
#[verifier::external_body]
pub(crate) fn b64url_decode(s: &str) -> (r: Option<Vec<u8>>)
    ensures
        match r {
            Some(v) => b64url_decoded(s@) == Some(v@),
            None => b64url_decoded(s@) is None,
        },
{
    base64::prelude::BASE64_URL_SAFE.decode(s).ok()
}

} // verus!
