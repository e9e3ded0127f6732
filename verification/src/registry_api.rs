//! The user-registry interface: stable user identifiers derived from
//! email addresses, and the registry's messages.

use sha2::Digest;
use vstd::prelude::*;
use vstd::string::StrSliceExecFns;

use crate::hex::{hex_encode, hex_lower};

verus! {

/// SHA-256 of a byte sequence.
pub uninterp spec fn sha256_of(bytes: Seq<u8>) -> Seq<u8>;

/// Relies on `sha2::Sha256`: the 32-byte SHA-256 digest.
#[verifier::external_body]
pub(crate) fn sha256(bytes: &[u8]) -> (r: Vec<u8>)
    ensures
        r@ == sha256_of(bytes@),
        r@.len() == 32,
{
    let mut hasher = sha2::Sha256::new();
    hasher.update(bytes);
    hasher.finalize().to_vec()
}

/// The first address of an RFC 5322 address list, when one parses:
/// a lone address's mailbox, or the first mailbox of a group.
pub uninterp spec fn first_addr_of(s: Seq<char>) -> Option<Seq<char>>;

/// Relies on `mailparse::addrparse`: the first parsed address.
#[verifier::external_body]
fn addr_first(input: &str) -> (r: Option<String>)
    ensures
        match r {
            Some(a) => first_addr_of(input@) == Some(a@),
            None => first_addr_of(input@) is None,
        },
{
    let parsed = mailparse::addrparse(input).ok()?;
    match parsed.get(0)? {
        mailparse::MailAddr::Single(single) => Some(single.addr.clone()),
        mailparse::MailAddr::Group(group) => group.addrs.first().map(|a| a.addr.clone()),
    }
}

/// The salt mixed into every identifier digest.
pub open spec fn user_id_salt() -> Seq<u8> {
    seq![104u8, 121u8, 100u8, 114u8, 111u8, 45u8, 101u8, 109u8, 97u8, 105u8, 108u8, 33u8]
}

/// The salt as bytes.
pub fn user_id_salt_bytes() -> (r: Vec<u8>)
    ensures
        r@ == user_id_salt(),
{
    let mut v: Vec<u8> = Vec::new();
    v.push(104);
    v.push(121);
    v.push(100);
    v.push(114);
    v.push(111);
    v.push(45);
    v.push(101);
    v.push(109);
    v.push(97);
    v.push(105);
    v.push(108);
    v.push(33);
    proof {
        assert(v@ =~= user_id_salt());
    }
    v
}

/// The address a user identifier is derived from: the first parsed
/// address of the input, or the input itself when it does not parse.
pub open spec fn canonical_address(email: Seq<char>) -> Seq<char> {
    match first_addr_of(email) {
        Some(a) => a,
        None => email,
    }
}

/// A stable user identifier.
#[derive(Debug, Clone)]
pub struct UserId(pub String);

impl UserId {
    /// Wrap an already-derived identifier.
    pub fn new_raw(user_id: String) -> (r: UserId)
        ensures
            r.0@ == user_id@,
    {
        UserId(user_id)
    }

    /// Derive the identifier of an email address: the lower-case hex
    /// of the salted SHA-256 of its canonical address.
    pub fn new_email_address(email: &str) -> (r: UserId)
        ensures
            r.0@ == hex_lower(
                sha256_of(
                    vstd::utf8::encode_utf8(canonical_address(email@)) + user_id_salt(),
                ),
            ),
    {
        let addr: String = match addr_first(email) {
            Some(a) => a,
            None => email.to_owned(),
        };
        let mut data: Vec<u8> = addr.as_str().as_bytes_vec();
        let mut salt = user_id_salt_bytes();
        data.append(&mut salt);
        let digest = sha256(data.as_slice());
        UserId(hex_encode(digest.as_slice()))
    }

    /// The identifier as a string.
    pub fn as_str(&self) -> (r: &str)
        ensures
            r@ == self.0@,
    {
        self.0.as_str()
    }
}

/// Instantiation of the registry: the accounts allowed to register
/// users.
#[derive(Debug, Clone)]
pub struct InstantiateMsg {
    pub admins: Vec<String>,
}

} // verus!
