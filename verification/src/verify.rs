//! DKIM verification orchestration.
//!
//! The cryptographic check and the DNS TXT-record lookup are an outside
//! collaborator driven by the host; this module holds the verified
//! decisions around it: extracting the claimed sending domain from the
//! message's sender, and interpreting the collaborator's outcome.  A
//! verification failure is a reported outcome, distinct from transport
//! and parse errors, so callers may log-and-continue.

use vstd::prelude::*;
use vstd::string::StrSliceExecFns;

use crate::error::{AppError, AppResult};
use crate::parser::EmailMessage;
use crate::text::{find_char, find_char_from};

verus! {

/// The domain claimed by a sender string: the part between the first
/// `@` and the following `@` or the end; nothing when there is no `@`.
pub open spec fn spec_domain(s: Seq<char>) -> Option<Seq<char>> {
    match find_char(s, '@') {
        None => None,
        Some(i) => {
            let rest = s.skip(i + 1);
            match find_char(rest, '@') {
                Some(j) => Some(rest.take(j)),
                None => Some(rest),
            }
        },
    }
}

/// Extract the claimed sending domain from a sender string.  A sender
/// without an `@` is a hard error carrying the sender itself.
pub fn extract_domain(sender: &str) -> (r: AppResult<String>)
    ensures
        match r {
            Ok(d) => spec_domain(sender@) == Some(d@),
            Err(e) => spec_domain(sender@) is None && (
                e matches AppError::CannotExtractDomain(s) && s@ == sender@),
        },
{
    let n: usize = sender.unicode_len();
    proof {
        assert(sender@.skip(0) =~= sender@);
    }
    let i: usize = match find_char_from(sender, '@', 0) {
        Some(i) => i,
        None => {
            return Err(AppError::CannotExtractDomain(sender.to_owned()));
        },
    };
    match find_char_from(sender, '@', i + 1) {
        Some(j) => {
            proof {
                assert(sender@.skip(i + 1).take(j - (i + 1)) =~= sender@.subrange(
                    i + 1,
                    j as int,
                ));
            }
            Ok(sender.substring_char(i + 1, j).to_owned())
        },
        None => {
            proof {
                assert(sender@.skip(i + 1) =~= sender@.subrange(i + 1, n as int));
            }
            Ok(sender.substring_char(i + 1, n).to_owned())
        },
    }
}

/// Extract the claimed sending domain of a parsed message.
pub fn dkim_domain(email: &EmailMessage) -> (r: AppResult<String>)
    ensures
        match r {
            Ok(d) => spec_domain(email.original_sender@) == Some(d@),
            Err(e) => spec_domain(email.original_sender@) is None && (
                e matches AppError::CannotExtractDomain(s) && s@ == email.original_sender@),
        },
{
    extract_domain(email.original_sender.as_str())
}

/// What the outside DKIM collaborator reported for one message.
#[derive(Debug, Clone)]
pub enum DkimStatus {
    /// A signature of the claimed domain verified.
    Pass,
    /// Verification completed with a non-pass summary.
    Fail(String),
    /// Verification could not be carried out.
    Error(String),
}

/// Turn the collaborator's outcome into the pipeline's result: a pass
/// succeeds, a non-pass summary becomes `DkimResult`, an execution
/// error becomes `Dkim`.
pub fn interpret_dkim(status: DkimStatus) -> (r: AppResult<()>)
    ensures
        match status {
            DkimStatus::Pass => r is Ok,
            DkimStatus::Fail(reason) => r matches Err(AppError::DkimResult(m)) && m@ == reason@,
            DkimStatus::Error(msg) => r matches Err(AppError::Dkim(m)) && m@ == msg@,
        },
{
    match status {
        DkimStatus::Pass => Ok(()),
        DkimStatus::Fail(reason) => Err(AppError::DkimResult(reason)),
        DkimStatus::Error(msg) => Err(AppError::Dkim(msg)),
    }
}

} // verus!
