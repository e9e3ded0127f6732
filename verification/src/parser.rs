//! Parsing a raw RFC 5322 / MIME message into a normalized
//! [`EmailMessage`].
//!
//! Header splitting and decoding is delegated to the `mailparse` crate
//! behind one trusted item; everything after that — subject lookup,
//! sender resolution, DKIM-signature collection — is verified logic
//! over the resulting header list.  The raw bytes are retained verbatim
//! so DKIM verification can re-parse the exact wire bytes.

use vstd::prelude::*;

use crate::error::AppError;
use crate::text::{lower, str_eq_ignore_case};
use vstd::string::StrSliceExecFns;
use vstd::string::StringExecFns;

verus! {

/// One decoded header: name and value.
#[derive(Debug, Clone)]
pub struct EmailHeader {
    pub name: String,
    pub value: String,
}

impl View for EmailHeader {
    type V = (Seq<char>, Seq<char>);

    open spec fn view(&self) -> (Seq<char>, Seq<char>) {
        (self.name@, self.value@)
    }
}

/// The views of a header list.
pub open spec fn headers_view(hs: Seq<EmailHeader>) -> Seq<(Seq<char>, Seq<char>)> {
    hs.map_values(|h: EmailHeader| h@)
}

/// The views of a vector of strings.
pub open spec fn values_view(v: Seq<String>) -> Seq<Seq<char>> {
    v.map_values(|s: String| s@)
}

/// The decoded headers of the MIME message `raw`, in document order,
/// when `raw` parses; header names keep their original spelling.
pub uninterp spec fn mime_headers(raw: Seq<u8>) -> Option<Seq<(Seq<char>, Seq<char>)>>;

/// The best-effort decoded text body of the MIME message `raw`.
pub uninterp spec fn mime_body_text(raw: Seq<u8>) -> Option<Seq<char>>;

/// The pieces of one parsed message, as plain values.
pub struct MailParts {
    pub headers: Vec<EmailHeader>,
    pub body_text: Option<String>,
}

/// Relies on `mailparse::parse_mail`: the message's decoded headers in
/// document order, and its best-effort decoded text body.
#[verifier::external_body]
fn parse_mail_parts(raw: &[u8]) -> (r: Option<MailParts>)
    ensures
        match r {
            Some(p) => mime_headers(raw@) == Some(headers_view(p.headers@)) && (match p
                .body_text {
                Some(b) => mime_body_text(raw@) == Some(b@),
                None => mime_body_text(raw@) is None,
            }),
            None => mime_headers(raw@) is None,
        },
{
    let msg = mailparse::parse_mail(raw).ok()?;
    let mut headers: Vec<EmailHeader> = Vec::new();
    for h in &msg.headers {
        headers.push(EmailHeader { name: h.get_key(), value: h.get_value() });
    }
    let body_text = msg.get_body().ok();
    Some(MailParts { headers, body_text })
}

/// Whether a header's name matches `name`, ASCII case-insensitively.
pub open spec fn header_matches(h: (Seq<char>, Seq<char>), name: Seq<char>) -> bool {
    lower(h.0) == lower(name)
}

/// The value of the first header matching `name`.
pub open spec fn find_header(hs: Seq<(Seq<char>, Seq<char>)>, name: Seq<char>) -> Option<
    Seq<char>,
>
    decreases hs.len(),
{
    if hs.len() == 0 {
        None
    } else if header_matches(hs[0], name) {
        Some(hs[0].1)
    } else {
        find_header(hs.drop_first(), name)
    }
}

/// The values of all headers matching `name`, in document order.
pub open spec fn collect_headers(hs: Seq<(Seq<char>, Seq<char>)>, name: Seq<char>) -> Seq<
    Seq<char>,
>
    decreases hs.len(),
{
    if hs.len() == 0 {
        Seq::empty()
    } else if header_matches(hs[0], name) {
        seq![hs[0].1] + collect_headers(hs.drop_first(), name)
    } else {
        collect_headers(hs.drop_first(), name)
    }
}

/// Find the first header matching `name` and clone its value.
fn find_header_value(headers: &Vec<EmailHeader>, name: &str) -> (r: Option<String>)
    ensures
        match r {
            Some(v) => find_header(headers_view(headers@), name@) == Some(v@),
            None => find_header(headers_view(headers@), name@) is None,
        },
{
    let n: usize = headers.len();
    let mut i: usize = 0;
    proof {
        assert(headers_view(headers@).skip(0) =~= headers_view(headers@));
    }
    while i < n
        invariant
            n == headers@.len(),
            i <= n,
            find_header(headers_view(headers@), name@) == find_header(
                headers_view(headers@).skip(i as int),
                name@,
            ),
        decreases n - i,
    {
        proof {
            assert(headers_view(headers@).skip(i as int)[0] == headers_view(headers@)[
                i as int]);
            assert(headers_view(headers@).skip(i as int).drop_first() =~= headers_view(
                headers@,
            ).skip(i + 1));
        }
        if str_eq_ignore_case(headers[i].name.as_str(), name) {
            return Some(headers[i].value.clone());
        }
        i += 1;
    }
    proof {
        assert(headers_view(headers@).skip(n as int) =~= Seq::<(Seq<char>, Seq<char>)>::empty());
    }
    None
}

/// Collect the values of all headers matching `name`, in order.
fn collect_header_values(headers: &Vec<EmailHeader>, name: &str) -> (r: Vec<String>)
    ensures
        values_view(r@) == collect_headers(headers_view(headers@), name@),
{
    let n: usize = headers.len();
    let mut i: usize = 0;
    let mut out: Vec<String> = Vec::new();
    proof {
        assert(headers_view(headers@).skip(0) =~= headers_view(headers@));
        assert(values_view(out@) + collect_headers(headers_view(headers@), name@)
            =~= collect_headers(headers_view(headers@), name@));
    }
    while i < n
        invariant
            n == headers@.len(),
            i <= n,
            collect_headers(headers_view(headers@), name@) == values_view(out@)
                + collect_headers(headers_view(headers@).skip(i as int), name@),
        decreases n - i,
    {
        proof {
            assert(headers_view(headers@).skip(i as int)[0] == headers_view(headers@)[
                i as int]);
            assert(headers_view(headers@).skip(i as int).drop_first() =~= headers_view(
                headers@,
            ).skip(i + 1));
        }
        if str_eq_ignore_case(headers[i].name.as_str(), name) {
            let ghost old_out = out@;
            out.push(headers[i].value.clone());
            proof {
                assert(values_view(out@) =~= values_view(old_out).push(
                    headers@[i as int].value@,
                ));
                assert(values_view(out@) + collect_headers(
                    headers_view(headers@).skip(i + 1),
                    name@,
                ) =~= values_view(old_out) + (seq![headers_view(headers@)[i as int].1]
                    + collect_headers(headers_view(headers@).skip(i + 1), name@)));
            }
        }
        i += 1;
    }
    proof {
        assert(headers_view(headers@).skip(n as int) =~= Seq::<(Seq<char>, Seq<char>)>::empty());
        assert(values_view(out@) + Seq::<Seq<char>>::empty() =~= values_view(out@));
    }
    out
}

/// The resolved original sender: the first `Resent-From` header, else
/// the first `From`, else the first `Sender`, else the envelope sender
/// the fetch supplied, if any.
pub open spec fn spec_sender(
    hs: Seq<(Seq<char>, Seq<char>)>,
    envelope_from: Option<Seq<char>>,
) -> Option<Seq<char>> {
    match find_header(hs, "Resent-From"@) {
        Some(v) => Some(v),
        None => match find_header(hs, "From"@) {
            Some(v) => Some(v),
            None => match find_header(hs, "Sender"@) {
                Some(v) => Some(v),
                None => envelope_from,
            },
        },
    }
}

/// The view of an optional envelope sender.
pub open spec fn opt_view(s: Option<String>) -> Option<Seq<char>> {
    match s {
        Some(v) => Some(v@),
        None => None,
    }
}

/// The relation a successful parse establishes between the raw bytes,
/// the envelope sender, and the resulting message.
pub open spec fn parse_ok(raw: Seq<u8>, envelope_from: Option<Seq<char>>, m: EmailMessage) -> bool {
    &&& mime_headers(raw) matches Some(hs) && {
        &&& spec_sender(hs, envelope_from) == Some(m.original_sender@)
        &&& m.original_sender@.len() > 0
        &&& values_view(m.dkim_signatures@) == collect_headers(hs, "DKIM-Signature"@)
        &&& opt_view(m.subject) == find_header(hs, "Subject"@)
    }
    &&& opt_view(m.body_text) == mime_body_text(raw)
    &&& m.raw_bytes@ == raw
}

/// When a parse is allowed to fail: the bytes do not parse, or no
/// non-empty sender can be resolved.
pub open spec fn parse_failed(raw: Seq<u8>, envelope_from: Option<Seq<char>>) -> bool {
    match mime_headers(raw) {
        None => true,
        Some(hs) => match spec_sender(hs, envelope_from) {
            None => true,
            Some(s) => s.len() == 0,
        },
    }
}

/// A normalized email message.
#[derive(Debug, Clone)]
pub struct EmailMessage {
    /// Best-effort original sender; never empty once constructed.
    pub original_sender: String,
    /// All `DKIM-Signature` header values, preserving header order.
    pub dkim_signatures: Vec<String>,
    /// The decoded subject, when present.
    pub subject: Option<String>,
    /// Best-effort decoded text body.
    pub body_text: Option<String>,
    /// The raw message bytes, kept verbatim for DKIM verification.
    pub raw_bytes: Vec<u8>,
}

impl EmailMessage {
    /// Parse raw message bytes (plus the envelope sender of an IMAP
    /// fetch, if any) into a normalized message.  Fails when the bytes
    /// do not parse as a MIME message, and when every sender source is
    /// exhausted or resolves to an empty string — there is no default
    /// sender.
    pub fn parse(raw: Vec<u8>, envelope_from: Option<String>) -> (r: Result<
        EmailMessage,
        AppError,
    >)
        ensures
            match r {
                Ok(m) => parse_ok(raw@, opt_view(envelope_from), m),
                Err(e) => e matches AppError::MessageParse(_) && parse_failed(
                    raw@,
                    opt_view(envelope_from),
                ),
            },
    {
        let parts: MailParts = match parse_mail_parts(raw.as_slice()) {
            Some(p) => p,
            None => {
                return Err(
                    AppError::MessageParse(
                        String::from_str("Failed to parse email message"),
                    ),
                );
            },
        };
        let sender: Option<String> = match find_header_value(&parts.headers, "Resent-From") {
            Some(v) => Some(v),
            None => match find_header_value(&parts.headers, "From") {
                Some(v) => Some(v),
                None => match find_header_value(&parts.headers, "Sender") {
                    Some(v) => Some(v),
                    None => envelope_from,
                },
            },
        };
        let original_sender: String = match sender {
            Some(v) => v,
            None => {
                return Err(
                    AppError::MessageParse(
                        String::from_str("Failed to extract original sender"),
                    ),
                );
            },
        };
        if original_sender.as_str().unicode_len() == 0 {
            return Err(
                AppError::MessageParse(
                    String::from_str("Failed to extract original sender"),
                ),
            );
        }
        let dkim_signatures = collect_header_values(&parts.headers, "DKIM-Signature");
        let subject = find_header_value(&parts.headers, "Subject");
        Ok(
            EmailMessage {
                original_sender,
                dkim_signatures,
                subject,
                body_text: parts.body_text,
                raw_bytes: raw,
            },
        )
    }
}

} // verus!
