//! The service-handler interface: the messages the pipeline's output is
//! encoded into, and the event emitted when an email is recorded.
//!
//! The execute payload is framed here as exact JSON bytes — string
//! escaping included — so the encoding the pipeline submits is verified
//! character by character.

use vstd::prelude::*;
use vstd::string::StrSliceExecFns;
use vstd::string::StringExecFns;

use crate::hex::hex_digit;
use crate::text::{dec_string, dec_value, is_digits, parse_u64, push_char};

verus! {

/// One recorded email: sender and subject.
#[derive(Debug, Clone)]
pub struct Email {
    pub from: String,
    pub subject: String,
}

/// An email stripped of its sender, as queries return it.
#[derive(Debug, Clone)]
pub struct EmailMessageOnly {
    pub subject: String,
}

impl EmailMessageOnly {
    /// Keep only the subject.
    pub fn of_email(src: &Email) -> (r: EmailMessageOnly)
        ensures
            r.subject@ == src.subject@,
    {
        EmailMessageOnly { subject: src.subject.clone() }
    }
}

/// Instantiation of the service handler: who may execute privileged
/// methods.
#[derive(Debug, Clone)]
pub struct InstantiateMsg {
    pub auth: Auth,
}

/// The authorization mode of the service handler.
#[derive(Debug, Clone)]
pub enum Auth {
    /// Validate submissions against this service manager.
    ServiceManager(String),
    /// One admin account, for tests.
    Admin(String),
}

/// The custom queries of the service handler.
#[derive(Debug, Clone)]
pub enum CustomQueryMsg {
    EmailAddrs { limit: Option<u32>, start_after: Option<String> },
    EmailsFrom { from: String, limit: Option<u32>, start_after: Option<u64> },
    Emails { limit: Option<u32>, start_after: Option<u64> },
    Admin {},
}

/// Emails of one sender, with pagination keys.
#[derive(Debug, Clone)]
pub struct EmailsFromResponse {
    pub emails: Vec<(EmailMessageOnly, u64)>,
}

/// The known sender addresses.
#[derive(Debug, Clone)]
pub struct EmailAddrsResponse {
    pub email_addrs: Vec<String>,
}

/// All recorded emails, with pagination keys.
#[derive(Debug, Clone)]
pub struct EmailsResponse {
    pub emails: Vec<(Email, u64)>,
}

/// The configured admin, if any.
#[derive(Debug, Clone)]
pub struct AdminResponse {
    pub admin: Option<String>,
}

/// The migration message (nothing to carry).
#[derive(Debug, Clone)]
pub struct MigrateMsg {}

/// The escaping of one character inside a JSON string: quote and
/// backslash are escaped, the five short control escapes are used
/// where JSON defines them, any other control character becomes a
/// `\u00..` sequence, and everything else stands as itself.
pub open spec fn json_escape_char(c: char) -> Seq<char> {
    if c == '"' {
        seq!['\\', '"']
    } else if c == '\\' {
        seq!['\\', '\\']
    } else if c == '\u{8}' {
        seq!['\\', 'b']
    } else if c == '\u{9}' {
        seq!['\\', 't']
    } else if c == '\u{a}' {
        seq!['\\', 'n']
    } else if c == '\u{c}' {
        seq!['\\', 'f']
    } else if c == '\u{d}' {
        seq!['\\', 'r']
    } else if (c as u32) < 32 {
        seq!['\\', 'u', '0', '0'] + seq![hex_digit((c as u32) as int / 16)] + seq![
            hex_digit((c as u32) as int % 16),
        ]
    } else {
        seq![c]
    }
}

/// The escaping of a whole string.
pub open spec fn json_escaped(s: Seq<char>) -> Seq<char>
    decreases s.len(),
{
    if s.len() == 0 {
        Seq::empty()
    } else {
        json_escape_char(s[0]) + json_escaped(s.drop_first())
    }
}

/// Escaping distributes over appending one character.
proof fn lemma_json_escape_snoc(s: Seq<char>, c: char)
    ensures
        json_escaped(s.push(c)) == json_escaped(s) + json_escape_char(c),
    decreases s.len(),
{
    if s.len() == 0 {
        assert(s.push(c).drop_first() =~= Seq::<char>::empty());
        assert(s.push(c)[0] == c);
        assert(json_escaped(Seq::<char>::empty()) == Seq::<char>::empty());
        assert(json_escaped(s.push(c)) =~= json_escaped(s) + json_escape_char(c));
    } else {
        assert(s.push(c).drop_first() =~= s.drop_first().push(c));
        assert(s.push(c)[0] == s[0]);
        lemma_json_escape_snoc(s.drop_first(), c);
        assert(json_escaped(s.push(c)) =~= json_escaped(s) + json_escape_char(c));
    }
}

/// Append the JSON escaping of `s` to `out`.
fn push_json_escaped(out: &mut String, s: &str)
    ensures
        final(out)@ == old(out)@ + json_escaped(s@),
{
    let n: usize = s.unicode_len();
    let mut i: usize = 0;
    proof {
        assert(s@.take(0) =~= Seq::<char>::empty());
        assert(out@ =~= old(out)@ + json_escaped(s@.take(0)));
    }
    while i < n
        invariant
            n == s@.len(),
            i <= n,
            out@ == old(out)@ + json_escaped(s@.take(i as int)),
        decreases n - i,
    {
        let c: char = s.get_char(i);
        let v: u32 = c as u32;
        if c == '"' {
            push_char(out, '\\');
            push_char(out, '"');
        } else if c == '\\' {
            push_char(out, '\\');
            push_char(out, '\\');
        } else if v == 8 {
            push_char(out, '\\');
            push_char(out, 'b');
        } else if v == 9 {
            push_char(out, '\\');
            push_char(out, 't');
        } else if v == 10 {
            push_char(out, '\\');
            push_char(out, 'n');
        } else if v == 12 {
            push_char(out, '\\');
            push_char(out, 'f');
        } else if v == 13 {
            push_char(out, '\\');
            push_char(out, 'r');
        } else if v < 32 {
            push_char(out, '\\');
            push_char(out, 'u');
            push_char(out, '0');
            push_char(out, '0');
            let hi: u32 = v / 16;
            let lo: u32 = v % 16;
            push_char(out, if hi < 10 {
                ((hi + 48) as u8) as char
            } else {
                ((hi + 87) as u8) as char
            });
            push_char(out, if lo < 10 {
                ((lo + 48) as u8) as char
            } else {
                ((lo + 87) as u8) as char
            });
        } else {
            push_char(out, c);
        }
        proof {
            assert(s@.take(i as int).push(c) =~= s@.take(i + 1));
            lemma_json_escape_snoc(s@.take(i as int), c);
            assert(out@ =~= old(out)@ + json_escaped(s@.take(i + 1)));
        }
        i += 1;
    }
    proof {
        assert(s@.take(n as int) =~= s@);
    }
}

/// The JSON encoding of the email execute message.
pub open spec fn spec_email_msg_json(from: Seq<char>, subject: Seq<char>) -> Seq<char> {
    "{\"email\":{\"from\":\""@ + json_escaped(from) + "\",\"subject\":\""@ + json_escaped(
        subject,
    ) + "\"}}"@
}

/// The custom execute message of the service handler.
#[derive(Debug, Clone)]
pub enum CustomExecuteMsg {
    /// Got an email.
    Email(Email),
}

impl CustomExecuteMsg {
    /// Encode the message as JSON text.
    pub fn encode_string(&self) -> (r: String)
        ensures
            self matches CustomExecuteMsg::Email(e) ==> r@ == spec_email_msg_json(
                e.from@,
                e.subject@,
            ),
    {
        match self {
            CustomExecuteMsg::Email(e) => {
                let mut out = String::from_str("{\"email\":{\"from\":\"");
                push_json_escaped(&mut out, e.from.as_str());
                out.append("\",\"subject\":\"");
                push_json_escaped(&mut out, e.subject.as_str());
                out.append("\"}}");
                proof {
                    assert(out@ =~= spec_email_msg_json(e.from@, e.subject@));
                }
                out
            },
        }
    }

    /// Encode the message as JSON bytes.
    pub fn encode(&self) -> (r: Vec<u8>)
        ensures
            self matches CustomExecuteMsg::Email(e) ==> r@ == vstd::utf8::encode_utf8(
                spec_email_msg_json(e.from@, e.subject@),
            ),
    {
        let s = self.encode_string();
        s.as_str().as_bytes_vec()
    }
}

/// The event emitted when one email is recorded: its content and the
/// pagination key it was stored under.
#[derive(Debug, Clone)]
pub struct EmailEvent {
    pub email: Email,
    pub pagination_id: u64,
}

/// The attribute list an [`EmailEvent`] is serialized into.
pub open spec fn spec_event_attributes(e: EmailEvent) -> Seq<(Seq<char>, Seq<char>)> {
    seq![
        ("email-from"@, e.email.from@),
        ("email-subject"@, e.email.subject@),
        ("pagination-id"@, dec_string(e.pagination_id as int)),
    ]
}

/// The first value of `key` among attributes, if any.
pub open spec fn attr_value(attrs: Seq<(Seq<char>, Seq<char>)>, key: Seq<char>) -> Option<
    Seq<char>,
>
    decreases attrs.len(),
{
    if attrs.len() == 0 {
        None
    } else if attrs[0].0 == key {
        Some(attrs[0].1)
    } else {
        attr_value(attrs.drop_first(), key)
    }
}

/// The views of attribute pairs.
pub open spec fn attrs_view(attrs: Seq<(String, String)>) -> Seq<(Seq<char>, Seq<char>)> {
    attrs.map_values(|p: (String, String)| (p.0@, p.1@))
}

/// Find the first attribute with this key.
fn find_attr(attrs: &Vec<(String, String)>, key: &str) -> (r: Option<String>)
    ensures
        match r {
            Some(v) => attr_value(attrs_view(attrs@), key@) == Some(v@),
            None => attr_value(attrs_view(attrs@), key@) is None,
        },
{
    let n: usize = attrs.len();
    let mut i: usize = 0;
    proof {
        assert(attrs_view(attrs@).skip(0) =~= attrs_view(attrs@));
    }
    while i < n
        invariant
            n == attrs@.len(),
            i <= n,
            attr_value(attrs_view(attrs@), key@) == attr_value(
                attrs_view(attrs@).skip(i as int),
                key@,
            ),
        decreases n - i,
    {
        proof {
            assert(attrs_view(attrs@).skip(i as int)[0] == attrs_view(attrs@)[i as int]);
            assert(attrs_view(attrs@).skip(i as int).drop_first() =~= attrs_view(attrs@).skip(
                i + 1,
            ));
        }
        if crate::text::str_eq(attrs[i].0.as_str(), key) {
            return Some(attrs[i].1.clone());
        }
        i += 1;
    }
    proof {
        assert(attrs_view(attrs@).skip(n as int) =~= Seq::<(Seq<char>, Seq<char>)>::empty());
    }
    None
}

impl EmailEvent {
    /// The attributes this event serializes into, in order.
    pub fn attributes(&self) -> (r: Vec<(String, String)>)
        ensures
            attrs_view(r@) == spec_event_attributes(*self),
    {
        let mut r: Vec<(String, String)> = Vec::new();
        r.push((String::from_str("email-from"), self.email.from.clone()));
        r.push((String::from_str("email-subject"), self.email.subject.clone()));
        r.push((String::from_str("pagination-id"), crate::text::decimal_string(
            self.pagination_id,
        )));
        proof {
            assert(attrs_view(r@) =~= spec_event_attributes(*self));
        }
        r
    }

    /// Rebuild an event from an event's type and attributes.  Succeeds
    /// exactly when the type is `email` (or its wasm-wrapped form) and
    /// the three attributes are present, with a decimal pagination key
    /// that fits; the error text names what was wrong.
    pub fn from_attributes(ty: &str, attrs: &Vec<(String, String)>) -> (r: Result<
        EmailEvent,
        String,
    >)
        ensures
            match r {
                Ok(e) => {
                    &&& ty@ == "email"@ || ty@ == "wasm-email"@
                    &&& attr_value(attrs_view(attrs@), "email-from"@) == Some(e.email.from@)
                    &&& attr_value(attrs_view(attrs@), "email-subject"@) == Some(
                        e.email.subject@,
                    )
                    &&& attr_value(attrs_view(attrs@), "pagination-id"@) matches Some(p)
                        && is_digits(p) && dec_value(p) == e.pagination_id
                },
                Err(_) => {
                    ||| ty@ != "email"@ && ty@ != "wasm-email"@
                    ||| attr_value(attrs_view(attrs@), "email-from"@) is None
                    ||| attr_value(attrs_view(attrs@), "email-subject"@) is None
                    ||| attr_value(attrs_view(attrs@), "pagination-id"@) is None
                    ||| (attr_value(attrs_view(attrs@), "pagination-id"@) matches Some(p) && (
                    !is_digits(p) || dec_value(p) > u64::MAX))
                },
            },
    {
        if !crate::text::str_eq(ty, "email") && !crate::text::str_eq(ty, "wasm-email") {
            return Err(String::from_str("Unexpected event type"));
        }
        let from = match find_attr(attrs, "email-from") {
            Some(v) => v,
            None => {
                return Err(String::from_str("Missing attribute: email-from"));
            },
        };
        let subject = match find_attr(attrs, "email-subject") {
            Some(v) => v,
            None => {
                return Err(String::from_str("Missing attribute: email-subject"));
            },
        };
        let pagination_raw = match find_attr(attrs, "pagination-id") {
            Some(v) => v,
            None => {
                return Err(String::from_str("Missing attribute: pagination-id"));
            },
        };
        let pagination_id: u64 = match parse_u64(pagination_raw.as_str()) {
            Some(v) => v,
            None => {
                return Err(String::from_str("Invalid pagination-id"));
            },
        };
        Ok(EmailEvent { email: Email { from, subject }, pagination_id })
    }
}

} // verus!
