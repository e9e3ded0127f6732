//! The IMAP protocol, sans I/O.
//!
//! Commands are built here character-exactly — `LOGIN`, `AUTHENTICATE
//! XOAUTH2`, `SELECT INBOX`, `UID SEARCH UNSEEN`, `UID FETCH` — and the
//! untagged and tagged response lines the pipeline depends on are
//! parsed here.  The session state machine in this module moves
//! strictly forward (connected, authenticated, mailbox selected,
//! searched, finished); each invocation opens a fresh session and
//! fetches at most one message.

use vstd::prelude::*;
use vstd::string::StrSliceExecFns;
use vstd::string::StringExecFns;
use vstd::string::StringSliceAdditionalSpecFns;

use crate::b64::{b64_encode, b64_of};
use crate::error::{AppError, AppResult};
use crate::parser::{opt_view, parse_failed, parse_ok, EmailMessage};
use crate::text::{
    dec_string, dec_value, digits_run, is_digit, is_digits, lemma_digits_run_scan, occurs_at,
    parse_u32, push_char, push_decimal, str_occurs_at,
};

verus! {

/// The tag prefixed to the `n`-th command of a session.
pub open spec fn spec_tag(tag: int) -> Seq<char> {
    "a"@ + dec_string(tag)
}

/// Build the tag string for command number `tag`.
pub fn tag_string(tag: u64) -> (r: String)
    ensures
        r@ == spec_tag(tag as int),
{
    let mut s = String::from_str("a");
    push_decimal(&mut s, tag);
    s
}

/// The escaping of one character inside an IMAP quoted string.
pub open spec fn escape_char(c: char) -> Seq<char> {
    if c == '"' || c == '\\' {
        seq!['\\', c]
    } else {
        seq![c]
    }
}

/// The escaping of a whole string.
pub open spec fn escape_quoted(s: Seq<char>) -> Seq<char>
    decreases s.len(),
{
    if s.len() == 0 {
        Seq::empty()
    } else {
        escape_char(s[0]) + escape_quoted(s.drop_first())
    }
}

/// An IMAP quoted string: the escaped text between double quotes.
pub open spec fn imap_quoted(s: Seq<char>) -> Seq<char> {
    seq!['"'] + escape_quoted(s) + seq!['"']
}

/// Escaping distributes over appending one character.
proof fn lemma_escape_snoc(s: Seq<char>, c: char)
    ensures
        escape_quoted(s.push(c)) == escape_quoted(s) + escape_char(c),
    decreases s.len(),
{
    if s.len() == 0 {
        assert(s.push(c).drop_first() =~= Seq::<char>::empty());
        assert(s.push(c)[0] == c);
        assert(escape_quoted(Seq::<char>::empty()) == Seq::<char>::empty());
        assert(escape_quoted(s.push(c)) =~= escape_quoted(s) + escape_char(c));
    } else {
        assert(s.push(c).drop_first() =~= s.drop_first().push(c));
        assert(s.push(c)[0] == s[0]);
        lemma_escape_snoc(s.drop_first(), c);
        assert(escape_quoted(s.push(c)) =~= escape_quoted(s) + escape_char(c));
    }
}

/// Append the IMAP quoted form of `s` to `out`.
fn push_quoted(out: &mut String, s: &str)
    ensures
        final(out)@ == old(out)@ + imap_quoted(s@),
{
    let n: usize = s.unicode_len();
    push_char(out, '"');
    let mut i: usize = 0;
    proof {
        assert(s@.take(0) =~= Seq::<char>::empty());
        assert(out@ =~= old(out)@ + seq!['"'] + escape_quoted(s@.take(0)));
    }
    while i < n
        invariant
            n == s@.len(),
            i <= n,
            out@ == old(out)@ + seq!['"'] + escape_quoted(s@.take(i as int)),
        decreases n - i,
    {
        let c: char = s.get_char(i);
        if c == '"' || c == '\\' {
            push_char(out, '\\');
        }
        push_char(out, c);
        proof {
            assert(s@.take(i as int).push(c) =~= s@.take(i + 1));
            lemma_escape_snoc(s@.take(i as int), c);
            assert(out@ =~= old(out)@ + seq!['"'] + escape_quoted(s@.take(i + 1)));
        }
        i += 1;
    }
    push_char(out, '"');
    proof {
        assert(s@.take(n as int) =~= s@);
        assert(out@ =~= old(out)@ + imap_quoted(s@));
    }
}

/// The `LOGIN` command with quoted credentials.
pub open spec fn spec_login_command(tag: int, user: Seq<char>, pass: Seq<char>) -> Seq<char> {
    spec_tag(tag) + " LOGIN "@ + imap_quoted(user) + " "@ + imap_quoted(pass) + "\r\n"@
}

/// The `AUTHENTICATE XOAUTH2` command.
pub open spec fn spec_xoauth2_command(tag: int) -> Seq<char> {
    spec_tag(tag) + " AUTHENTICATE XOAUTH2\r\n"@
}

/// The `CAPABILITY` command; its answer is informational only and
/// never gates a later step.
pub open spec fn spec_capability_command(tag: int) -> Seq<char> {
    spec_tag(tag) + " CAPABILITY\r\n"@
}

/// The `SELECT INBOX` command.
pub open spec fn spec_select_command(tag: int) -> Seq<char> {
    spec_tag(tag) + " SELECT INBOX\r\n"@
}

/// The `UID SEARCH UNSEEN` command.
pub open spec fn spec_search_command(tag: int) -> Seq<char> {
    spec_tag(tag) + " UID SEARCH UNSEEN\r\n"@
}

/// The `UID FETCH` command for one UID, asking for envelope and body.
pub open spec fn spec_fetch_command(tag: int, uid: int) -> Seq<char> {
    spec_tag(tag) + " UID FETCH "@ + dec_string(uid) + " (ENVELOPE BODY[])\r\n"@
}

/// The continuation line answering an XOAUTH2 challenge: the base64 of
/// the SASL response, then CRLF.
pub fn xoauth2_continuation(sasl: &str) -> (r: String)
    ensures
        r@ == b64_of(sasl.spec_bytes()) + "\r\n"@,
{
    let mut s = b64_encode(sasl.as_bytes());
    s.append("\r\n");
    s
}

/// A tagged status reply.
#[derive(Debug, Clone, Copy, PartialEq, Eq, Structural)]
pub enum ImapStatus {
    /// `OK` — the command completed.
    Okay,
    /// `NO` — the server refused the command.
    No,
    /// `BAD` — protocol error.
    Bad,
}

/// The status word at position `at`, which must end the line or be
/// followed by a space.
pub open spec fn status_word_at(s: Seq<char>, at: int, word: Seq<char>) -> bool {
    occurs_at(s, at, word) && (s.len() == at + word.len() || s[at + word.len()] == ' ')
}

/// The tagged status of a reply line for command number `tag`, if the
/// line is such a reply.
pub open spec fn spec_tagged_status(s: Seq<char>, tag: int) -> Option<ImapStatus> {
    let t = spec_tag(tag) + " "@;
    if occurs_at(s, 0, t) {
        if status_word_at(s, t.len() as int, "OK"@) {
            Some(ImapStatus::Okay)
        } else if status_word_at(s, t.len() as int, "NO"@) {
            Some(ImapStatus::No)
        } else if status_word_at(s, t.len() as int, "BAD"@) {
            Some(ImapStatus::Bad)
        } else {
            None
        }
    } else {
        None
    }
}

/// Check one status word at `at`.
fn check_status_word(s: &str, at: usize, word: &str) -> (r: bool)
    requires
        at <= s@.len(),
    ensures
        r == status_word_at(s@, at as int, word@),
{
    if !str_occurs_at(s, at, word) {
        return false;
    }
    let wl: usize = word.unicode_len();
    let n: usize = s.unicode_len();
    if at + wl == n {
        true
    } else {
        s.get_char(at + wl) == ' '
    }
}

/// Parse the tagged status reply of command number `tag`.
pub fn parse_tagged_status(line: &str, tag: u64) -> (r: Option<ImapStatus>)
    ensures
        r == spec_tagged_status(line@, tag as int),
{
    let mut t = tag_string(tag);
    t.append(" ");
    let tl: usize = t.as_str().unicode_len();
    if !str_occurs_at(line, 0, t.as_str()) {
        return None;
    }
    if check_status_word(line, tl, "OK") {
        Some(ImapStatus::Okay)
    } else if check_status_word(line, tl, "NO") {
        Some(ImapStatus::No)
    } else if check_status_word(line, tl, "BAD") {
        Some(ImapStatus::Bad)
    } else {
        None
    }
}

/// The message count of an untagged `* <n> EXISTS` line, if the line
/// has that form and the count fits in a `u32`.
pub open spec fn spec_exists_line(s: Seq<char>) -> Option<int> {
    if s.len() >= 2 && s.subrange(0, 2) == "* "@ {
        let rest = s.skip(2);
        let d = digits_run(rest);
        if d > 0 && rest.skip(d) == " EXISTS"@ && dec_value(rest.take(d)) <= u32::MAX {
            Some(dec_value(rest.take(d)))
        } else {
            None
        }
    } else {
        None
    }
}

/// Parse an untagged `* <n> EXISTS` line.
pub fn parse_exists_line(line: &str) -> (r: Option<u32>)
    ensures
        match r {
            Some(v) => spec_exists_line(line@) == Some(v as int),
            None => spec_exists_line(line@) is None,
        },
{
    let n: usize = line.unicode_len();
    if !str_occurs_at(line, 0, "* ") {
        proof {
            reveal_strlit("* ");
        }
        return None;
    }
    proof {
        reveal_strlit("* ");
    }
    let mut j: usize = 2;
    while j < n && crate::text::is_digit_char(line.get_char(j))
        invariant
            n == line@.len(),
            2 <= j <= n,
            forall|k: int| 2 <= k < j ==> is_digit(#[trigger] line@[k]),
        decreases n - j,
    {
        j += 1;
    }
    proof {
        lemma_digits_run_scan(line@.skip(2), j - 2);
    }
    let d: usize = j - 2;
    if d == 0 {
        return None;
    }
    proof {
        assert(line@.skip(2).take(d as int) =~= line@.subrange(2, j as int));
    }
    let v: u32 = match parse_u32(line.substring_char(2, j)) {
        Some(v) => v,
        None => {
            proof {
                assert(is_digits(line@.skip(2).take(d as int)));
            }
            return None;
        },
    };
    if str_occurs_at(line, j, " EXISTS") && n - j == 7 {
        proof {
            reveal_strlit(" EXISTS");
            assert(line@.skip(2).skip(d as int) =~= line@.subrange(j as int, n as int));
            assert(line@.subrange(j as int, j + 7) =~= line@.subrange(j as int, n as int));
        }
        Some(v)
    } else {
        proof {
            reveal_strlit(" EXISTS");
            assert(line@.skip(2).skip(d as int) =~= line@.subrange(j as int, n as int));
            if line@.skip(2).skip(d as int) == " EXISTS"@ {
                assert(n - j == 7);
                assert(line@.subrange(j as int, j + 7) =~= line@.subrange(
                    j as int,
                    n as int,
                ));
            }
        }
        None
    }
}

/// The UIDs of an untagged `* SEARCH ...` line: each following token is
/// one or more digits, space-separated, each fitting a `u32`.
pub open spec fn parse_uid_list(s: Seq<char>) -> Option<Seq<int>>
    decreases s.len(),
    via check_parse_uid_list_decreases
{
    if s.len() == 0 {
        Some(Seq::empty())
    } else if s[0] == ' ' {
        let rest = s.skip(1);
        let d = digits_run(rest);
        if d == 0 {
            None
        } else if dec_value(rest.take(d)) > u32::MAX {
            None
        } else {
            match parse_uid_list(rest.skip(d)) {
                Some(t) => Some(seq![dec_value(rest.take(d))] + t),
                None => None,
            }
        }
    } else {
        None
    }
}

#[via_fn]
proof fn check_parse_uid_list_decreases(s: Seq<char>) {
    if s.len() > 0 && s[0] == ' ' {
        crate::text::lemma_digits_run_bounds(s.skip(1));
    }
}

/// The UID list of a `* SEARCH` line, if the line is one.
pub open spec fn spec_search_line(s: Seq<char>) -> Option<Seq<int>> {
    if s.len() >= 8 && s.subrange(0, 8) == "* SEARCH"@ {
        parse_uid_list(s.skip(8))
    } else {
        None
    }
}

/// The values of a `u32` vector, as mathematical integers.
pub open spec fn uids_view(v: Seq<u32>) -> Seq<int> {
    v.map_values(|x: u32| x as int)
}

/// Parse an untagged `* SEARCH ...` line into its UIDs.
pub fn parse_search_line(line: &str) -> (r: Option<Vec<u32>>)
    ensures
        match r {
            Some(v) => spec_search_line(line@) == Some(uids_view(v@)),
            None => spec_search_line(line@) is None,
        },
{
    let n: usize = line.unicode_len();
    if !str_occurs_at(line, 0, "* SEARCH") {
        proof {
            reveal_strlit("* SEARCH");
        }
        return None;
    }
    proof {
        reveal_strlit("* SEARCH");
    }
    let mut out: Vec<u32> = Vec::new();
    let mut i: usize = 8;
    proof {
        assert(uids_view(out@) =~= Seq::<int>::empty());
        assert(uids_view(out@) + parse_uid_list(line@.skip(8))->Some_0 =~= parse_uid_list(
            line@.skip(8),
        )->Some_0);
    }
    while i < n
        invariant
            n == line@.len(),
            8 <= i <= n,
            parse_uid_list(line@.skip(8)) is Some <==> parse_uid_list(line@.skip(i as int))
                is Some,
            parse_uid_list(line@.skip(8)) matches Some(full) ==> (parse_uid_list(
                line@.skip(i as int),
            ) matches Some(t) && full == uids_view(out@) + t),
        decreases n - i,
    {
        if line.get_char(i) != ' ' {
            proof {
                assert(line@.skip(i as int)[0] == line@[i as int]);
                assert(parse_uid_list(line@.skip(i as int)) is None);
            }
            return None;
        }
        let mut j: usize = i + 1;
        while j < n && crate::text::is_digit_char(line.get_char(j))
            invariant
                n == line@.len(),
                i + 1 <= j <= n,
                forall|k: int| i + 1 <= k < j ==> is_digit(#[trigger] line@[k]),
            decreases n - j,
        {
            j += 1;
        }
        proof {
            assert(line@.skip(i as int)[0] == line@[i as int]);
            assert(line@.skip(i as int).skip(1) =~= line@.skip(i + 1));
            lemma_digits_run_scan(line@.skip(i + 1), j - (i + 1));
        }
        let d: usize = j - (i + 1);
        if d == 0 {
            proof {
                assert(parse_uid_list(line@.skip(i as int)) is None);
            }
            return None;
        }
        proof {
            assert(line@.skip(i + 1).take(d as int) =~= line@.subrange(i + 1, j as int));
        }
        let v: u32 = match parse_u32(line.substring_char(i + 1, j)) {
            Some(v) => v,
            None => {
                proof {
                    assert(is_digits(line@.skip(i + 1).take(d as int)));
                    assert(parse_uid_list(line@.skip(i as int)) is None);
                }
                return None;
            },
        };
        let ghost old_out = out@;
        out.push(v);
        proof {
            assert(line@.skip(i + 1).skip(d as int) =~= line@.skip(j as int));
            assert(uids_view(out@) =~= uids_view(old_out).push(v as int));
            if parse_uid_list(line@.skip(8)) is Some {
                let t = parse_uid_list(line@.skip(i as int))->Some_0;
                let t2 = parse_uid_list(line@.skip(j as int))->Some_0;
                assert(t =~= seq![v as int] + t2);
                assert(uids_view(old_out) + t =~= uids_view(out@) + t2);
            }
        }
        i = j;
    }
    proof {
        assert(line@.skip(n as int) =~= Seq::<char>::empty());
        assert(uids_view(out@) + Seq::<int>::empty() =~= uids_view(out@));
    }
    Some(out)
}

/// The numerically largest UID, when any: the most recently assigned
/// unseen message wins.
pub fn max_uid(uids: &Vec<u32>) -> (r: Option<u32>)
    ensures
        match r {
            Some(m) => uids@.len() > 0 && uids@.contains(m) && forall|k: int|
                0 <= k < uids@.len() ==> uids@[k] <= m,
            None => uids@.len() == 0,
        },
{
    if uids.len() == 0 {
        return None;
    }
    let mut best: u32 = uids[0];
    let mut i: usize = 1;
    while i < uids.len()
        invariant
            1 <= i <= uids@.len(),
            uids@.contains(best),
            forall|k: int| 0 <= k < i ==> uids@[k] <= best,
        decreases uids@.len() - i,
    {
        if uids[i] > best {
            best = uids[i];
        }
        i += 1;
    }
    Some(best)
}


/// The protocol position of one session.  Transitions are strictly
/// forward; no state is ever revisited.
#[derive(Debug, Clone, Copy, PartialEq, Eq, Structural)]
pub enum ImapState {
    /// Greeting read, nothing sent yet.
    Connected,
    /// The server accepted the credentials.
    Authenticated,
    /// `INBOX` is selected and reports this many existing messages.
    Selected { exists: u32 },
    /// The unseen search picked this UID to fetch.
    Searched { latest_uid: u32 },
    /// The session is over: one message fetched, none to fetch, or a
    /// terminal failure.
    Finished,
}

/// One IMAP session: protocol state plus the next command tag.  The
/// session is discarded after one fetch.
#[derive(Debug, Clone)]
pub struct ImapSession {
    pub state: ImapState,
    pub next_tag: u64,
}

impl ImapSession {
    /// A fresh session on a newly connected transport.
    pub fn new() -> (r: ImapSession)
        ensures
            r.state == ImapState::Connected,
            r.next_tag == 1,
    {
        ImapSession { state: ImapState::Connected, next_tag: 1 }
    }

    /// The `LOGIN` command for plain credentials.
    pub fn login_command(&mut self, username: &str, password: &str) -> (r: String)
        requires
            old(self).state == ImapState::Connected,
            old(self).next_tag < u64::MAX,
        ensures
            r@ == spec_login_command(old(self).next_tag as int, username@, password@),
            final(self).state == ImapState::Connected,
            final(self).next_tag == old(self).next_tag + 1,
    {
        let mut c = tag_string(self.next_tag);
        c.append(" LOGIN ");
        push_quoted(&mut c, username);
        c.append(" ");
        push_quoted(&mut c, password);
        c.append("\r\n");
        self.next_tag = self.next_tag + 1;
        proof {
            assert(c@ =~= spec_login_command(old(self).next_tag as int, username@, password@));
        }
        c
    }

    /// The `AUTHENTICATE XOAUTH2` command; the base64 SASL line follows
    /// as a continuation, built by [`xoauth2_continuation`].
    pub fn xoauth2_command(&mut self) -> (r: String)
        requires
            old(self).state == ImapState::Connected,
            old(self).next_tag < u64::MAX,
        ensures
            r@ == spec_xoauth2_command(old(self).next_tag as int),
            final(self).state == ImapState::Connected,
            final(self).next_tag == old(self).next_tag + 1,
    {
        let mut c = tag_string(self.next_tag);
        c.append(" AUTHENTICATE XOAUTH2\r\n");
        self.next_tag = self.next_tag + 1;
        proof {
            assert(c@ =~= spec_xoauth2_command(old(self).next_tag as int));
        }
        c
    }

    /// Record the server's answer to the authentication command.  An
    /// `OK` moves the session forward; anything else is an Auth error
    /// and finishes the session.
    pub fn confirm_auth(&mut self, status: ImapStatus) -> (r: AppResult<()>)
        requires
            old(self).state == ImapState::Connected,
        ensures
            status == ImapStatus::Okay ==> r is Ok && final(self).state
                == ImapState::Authenticated,
            status != ImapStatus::Okay ==> (r matches Err(AppError::Auth(_)))
                && final(self).state == ImapState::Finished,
            final(self).next_tag == old(self).next_tag,
    {
        match status {
            ImapStatus::Okay => {
                self.state = ImapState::Authenticated;
                Ok(())
            },
            _ => {
                self.state = ImapState::Finished;
                Err(AppError::Auth(String::from_str("Authentication refused by server")))
            },
        }
    }

    /// The `CAPABILITY` command, for the debug listing; the reply
    /// never gates a later step.
    pub fn capability_command(&mut self) -> (r: String)
        requires
            old(self).state == ImapState::Authenticated,
            old(self).next_tag < u64::MAX,
        ensures
            r@ == spec_capability_command(old(self).next_tag as int),
            final(self).state == ImapState::Authenticated,
            final(self).next_tag == old(self).next_tag + 1,
    {
        let mut c = tag_string(self.next_tag);
        c.append(" CAPABILITY\r\n");
        self.next_tag = self.next_tag + 1;
        proof {
            assert(c@ =~= spec_capability_command(old(self).next_tag as int));
        }
        c
    }

    /// The `SELECT INBOX` command.
    pub fn select_command(&mut self) -> (r: String)
        requires
            old(self).state == ImapState::Authenticated,
            old(self).next_tag < u64::MAX,
        ensures
            r@ == spec_select_command(old(self).next_tag as int),
            final(self).state == ImapState::Authenticated,
            final(self).next_tag == old(self).next_tag + 1,
    {
        let mut c = tag_string(self.next_tag);
        c.append(" SELECT INBOX\r\n");
        self.next_tag = self.next_tag + 1;
        proof {
            assert(c@ =~= spec_select_command(old(self).next_tag as int));
        }
        c
    }

    /// Record the outcome of `SELECT`.  On success the returned flag
    /// says whether to search at all: a mailbox with zero existing
    /// messages finishes the session at once — no search and no fetch
    /// command can be issued from the finished state, and the
    /// invocation yields no message.
    pub fn handle_select(&mut self, status: ImapStatus, exists: u32) -> (r: AppResult<bool>)
        requires
            old(self).state == ImapState::Authenticated,
        ensures
            final(self).next_tag == old(self).next_tag,
            match r {
                Ok(proceed) => {
                    &&& status == ImapStatus::Okay
                    &&& proceed == (exists != 0)
                    &&& exists == 0 ==> final(self).state == ImapState::Finished
                    &&& exists != 0 ==> final(self).state == (ImapState::Selected { exists })
                },
                Err(e) => status != ImapStatus::Okay && (e matches AppError::Client(_))
                    && final(self).state == ImapState::Finished,
            },
    {
        match status {
            ImapStatus::Okay => {
                if exists == 0 {
                    self.state = ImapState::Finished;
                    Ok(false)
                } else {
                    self.state = ImapState::Selected { exists };
                    Ok(true)
                }
            },
            _ => {
                self.state = ImapState::Finished;
                Err(AppError::Client(String::from_str("SELECT failed")))
            },
        }
    }

    /// The `UID SEARCH UNSEEN` command.
    pub fn search_command(&mut self) -> (r: String)
        requires
            old(self).state matches ImapState::Selected { .. },
            old(self).next_tag < u64::MAX,
        ensures
            r@ == spec_search_command(old(self).next_tag as int),
            final(self).state == old(self).state,
            final(self).next_tag == old(self).next_tag + 1,
    {
        let mut c = tag_string(self.next_tag);
        c.append(" UID SEARCH UNSEEN\r\n");
        self.next_tag = self.next_tag + 1;
        proof {
            assert(c@ =~= spec_search_command(old(self).next_tag as int));
        }
        c
    }

    /// Record the outcome of the unseen search.  An empty result
    /// finishes the session with no message; otherwise the numerically
    /// highest UID — the most recently assigned — is the one message
    /// this invocation will fetch, whatever order the server returned.
    pub fn handle_search(&mut self, status: ImapStatus, uids: &Vec<u32>) -> (r: AppResult<
        Option<u32>,
    >)
        requires
            old(self).state matches ImapState::Selected { .. },
        ensures
            final(self).next_tag == old(self).next_tag,
            match r {
                Ok(choice) => status == ImapStatus::Okay && match choice {
                    Some(m) => {
                        &&& uids@.len() > 0
                        &&& uids@.contains(m)
                        &&& forall|k: int| 0 <= k < uids@.len() ==> uids@[k] <= m
                        &&& final(self).state == (ImapState::Searched { latest_uid: m })
                    },
                    None => uids@.len() == 0 && final(self).state == ImapState::Finished,
                },
                Err(e) => status != ImapStatus::Okay && (e matches AppError::Client(_))
                    && final(self).state == ImapState::Finished,
            },
    {
        match status {
            ImapStatus::Okay => match max_uid(uids) {
                Some(m) => {
                    self.state = ImapState::Searched { latest_uid: m };
                    Ok(Some(m))
                },
                None => {
                    self.state = ImapState::Finished;
                    Ok(None)
                },
            },
            _ => {
                self.state = ImapState::Finished;
                Err(AppError::Client(String::from_str("UID SEARCH failed")))
            },
        }
    }

    /// The `UID FETCH` command for the chosen UID.
    pub fn fetch_command(&mut self) -> (r: String)
        requires
            old(self).state matches ImapState::Searched { .. },
            old(self).next_tag < u64::MAX,
        ensures
            old(self).state matches ImapState::Searched { latest_uid } ==> r@
                == spec_fetch_command(old(self).next_tag as int, latest_uid as int),
            final(self).state == old(self).state,
            final(self).next_tag == old(self).next_tag + 1,
    {
        let uid: u32 = match self.state {
            ImapState::Searched { latest_uid } => latest_uid,
            _ => 0,
        };
        let mut c = tag_string(self.next_tag);
        c.append(" UID FETCH ");
        push_decimal(&mut c, uid as u64);
        c.append(" (ENVELOPE BODY[])\r\n");
        self.next_tag = self.next_tag + 1;
        proof {
            assert(c@ =~= spec_fetch_command(old(self).next_tag as int, uid as int));
        }
        c
    }

    /// Record the outcome of the fetch and parse the message.  A UID
    /// that the search just returned but the fetch did not produce is a
    /// hard error, never silently skipped; otherwise the raw bytes and
    /// the envelope sender go through [`EmailMessage::parse`].
    pub fn handle_fetch(
        &mut self,
        status: ImapStatus,
        fetched: Option<(Vec<u8>, Option<String>)>,
    ) -> (r: AppResult<EmailMessage>)
        requires
            old(self).state matches ImapState::Searched { .. },
        ensures
            final(self).state == ImapState::Finished,
            final(self).next_tag == old(self).next_tag,
            match r {
                Ok(m) => {
                    &&& status == ImapStatus::Okay
                    &&& fetched matches Some(f) && parse_ok(f.0@, opt_view(f.1), m)
                },
                Err(e) => match e {
                    AppError::Client(_) => status != ImapStatus::Okay,
                    AppError::FailedToFetchEmail(uid) => status == ImapStatus::Okay
                        && fetched is None && old(self).state == (ImapState::Searched {
                        latest_uid: uid,
                    }),
                    AppError::MessageParse(_) => status == ImapStatus::Okay && (
                    fetched matches Some(f) && parse_failed(f.0@, opt_view(f.1))),
                    _ => false,
                },
            },
    {
        let uid: u32 = match self.state {
            ImapState::Searched { latest_uid } => latest_uid,
            _ => 0,
        };
        self.state = ImapState::Finished;
        match status {
            ImapStatus::Okay => match fetched {
                Some((raw, envelope_from)) => EmailMessage::parse(raw, envelope_from),
                None => Err(AppError::FailedToFetchEmail(uid)),
            },
            _ => Err(AppError::Client(String::from_str("UID FETCH failed"))),
        }
    }
}

} // verus!
