//! The XOAUTH2 SASL initial response.
//!
//! IMAP authentication with an OAuth2 bearer token sends one string whose
//! layout must match the server's expectation exactly:
//! `user=<address>\x01auth=Bearer <token>\x01\x01`.  The encoder builds
//! that string; the decoder recovers the address and token from a
//! well-formed response, and the round-trip law below ties the two
//! together.

use vstd::prelude::*;
use vstd::string::StrSliceExecFns;
use vstd::string::StringExecFns;

use crate::text::{occurs_at, push_char, str_occurs_at};

verus! {

/// The XOAUTH2 SASL response for a mailbox address and access token.
pub open spec fn xoauth2_sasl(user: Seq<char>, token: Seq<char>) -> Seq<char> {
    "user="@ + user + seq!['\x01'] + "auth=Bearer "@ + token + seq!['\x01', '\x01']
}

/// Build the XOAUTH2 SASL response string.
pub fn xoauth2_response(username: &str, access_token: &str) -> (r: String)
    ensures
        r@ == xoauth2_sasl(username@, access_token@),
{
    let mut s = String::from_str("user=");
    s.append(username);
    push_char(&mut s, '\x01');
    s.append("auth=Bearer ");
    s.append(access_token);
    push_char(&mut s, '\x01');
    push_char(&mut s, '\x01');
    proof {
        assert(s@ =~= xoauth2_sasl(username@, access_token@));
    }
    s
}

/// The position of the first `\x01` control byte, if any.
pub open spec fn find_ctrl(s: Seq<char>) -> Option<int> {
    crate::text::find_char(s, '\x01')
}

/// The decoding of an XOAUTH2 SASL response: the mailbox address and the
/// bearer token, when the string has exactly the expected layout.
pub open spec fn spec_xoauth2_decode(s: Seq<char>) -> Option<(Seq<char>, Seq<char>)> {
    if s.len() >= 5 && s.subrange(0, 5) == "user="@ {
        let rest = s.skip(5);
        match find_ctrl(rest) {
            Some(i) => {
                let user = rest.take(i);
                let after_user = rest.skip(i + 1);
                if after_user.len() >= 12 && after_user.subrange(0, 12) == "auth=Bearer "@ {
                    let rest2 = after_user.skip(12);
                    match find_ctrl(rest2) {
                        Some(j) => {
                            let token = rest2.take(j);
                            if rest2.skip(j + 1) =~= seq!['\x01'] {
                                Some((user, token))
                            } else {
                                None
                            }
                        },
                        None => None,
                    }
                } else {
                    None
                }
            },
            None => None,
        }
    } else {
        None
    }
}

/// Find the first `\x01` at or after `from`.
fn find_ctrl_from(s: &str, from: usize) -> (r: Option<usize>)
    requires
        from <= s@.len(),
    ensures
        match r {
            Some(i) => from <= i < s@.len() && find_ctrl(s@.skip(from as int)) == Some(
                i - from as int,
            ),
            None => find_ctrl(s@.skip(from as int)) is None,
        },
{
    crate::text::find_char_from(s, '\x01', from)
}

/// Decode an XOAUTH2 SASL response back into address and token.
pub fn xoauth2_decode(s: &str) -> (r: Option<(String, String)>)
    ensures
        match r {
            Some(p) => spec_xoauth2_decode(s@) == Some((p.0@, p.1@)),
            None => spec_xoauth2_decode(s@) is None,
        },
{
    let n: usize = s.unicode_len();
    proof {
        reveal_strlit("user=");
        reveal_strlit("auth=Bearer ");
    }
    if !str_occurs_at(s, 0, "user=") {
        return None;
    }
    let i: usize = match find_ctrl_from(s, 5) {
        Some(i) => i,
        None => {
            return None;
        },
    };
    proof {
        assert(s@.skip(5).take(i - 5) =~= s@.subrange(5, i as int));
    }
    let user: String = s.substring_char(5, i).to_owned();
    if i + 1 > n || !str_occurs_at(s, i + 1, "auth=Bearer ") {
        proof {
            assert(s@.skip(5).skip(i - 5 + 1) =~= s@.skip(i + 1));
            if s@.skip(i + 1).len() >= 12 {
                assert(s@.skip(i + 1).subrange(0, 12) =~= s@.subrange(i + 1, i + 13));
            }
        }
        return None;
    }
    proof {
        assert(s@.skip(5).skip(i - 5 + 1) =~= s@.skip(i + 1));
        assert(s@.skip(i + 1).subrange(0, 12) =~= s@.subrange(i + 1, i + 13));
    }
    let j: usize = match find_ctrl_from(s, i + 13) {
        Some(j) => j,
        None => {
            proof {
                assert(s@.skip(i + 1).skip(12) =~= s@.skip(i + 13));
            }
            return None;
        },
    };
    proof {
        assert(s@.skip(i + 1).skip(12) =~= s@.skip(i + 13));
        assert(s@.skip(i + 13).take(j - (i + 13)) =~= s@.subrange(i + 13, j as int));
    }
    let token: String = s.substring_char(i + 13, j).to_owned();
    if n - j == 2 && s.get_char(j + 1) == '\x01' {
        proof {
            assert(s@.skip(i + 13).skip(j - (i + 13) + 1) =~= s@.skip(j + 1));
            assert(s@.skip(j + 1) =~= seq!['\x01']);
        }
        Some((user, token))
    } else {
        proof {
            assert(s@.skip(i + 13).skip(j - (i + 13) + 1) =~= s@.skip(j + 1));
            assert(s@.skip(j + 1).len() == n - j - 1);
            if n - j == 2 {
                assert(s@.skip(j + 1)[0] == s@[j + 1]);
                assert(s@.skip(j + 1) != seq!['\x01']);
            } else {
                assert(seq!['\x01'].len() == 1);
                assert(s@.skip(j + 1) != seq!['\x01']);
            }
        }
        None
    }
}

/// Concatenation law: the first control byte of `x + [^A] + y` sits at
/// the end of a control-free `x`.
proof fn lemma_find_ctrl_concat(x: Seq<char>, y: Seq<char>)
    requires
        forall|k: int| 0 <= k < x.len() ==> x[k] != '\x01',
    ensures
        find_ctrl(x + seq!['\x01'] + y) == Some(x.len() as int),
{
    let s = x + seq!['\x01'] + y;
    assert(forall|k: int| 0 <= k < x.len() ==> s[k] == x[k]);
    assert(s[x.len() as int] == '\x01');
    crate::text::lemma_find_char_at(s, '\x01', x.len() as int);
}

/// Round trip: decoding the encoding of an address and token that hold
/// no `\x01` byte yields them back exactly.
pub proof fn lemma_xoauth2_round_trip(user: Seq<char>, token: Seq<char>)
    requires
        forall|k: int| 0 <= k < user.len() ==> user[k] != '\x01',
        forall|k: int| 0 <= k < token.len() ==> token[k] != '\x01',
    ensures
        spec_xoauth2_decode(xoauth2_sasl(user, token)) == Some((user, token)),
{
    let s = xoauth2_sasl(user, token);
    reveal_strlit("user=");
    reveal_strlit("auth=Bearer ");
    assert(s.subrange(0, 5) =~= "user="@);
    let rest = s.skip(5);
    assert(rest =~= user + seq!['\x01'] + ("auth=Bearer "@ + token + seq!['\x01', '\x01']));
    lemma_find_ctrl_concat(user, "auth=Bearer "@ + token + seq!['\x01', '\x01']);
    assert(find_ctrl(rest) == Some(user.len() as int));
    assert(rest.take(user.len() as int) =~= user);
    let after_user = rest.skip(user.len() as int + 1);
    assert(after_user =~= "auth=Bearer "@ + token + seq!['\x01', '\x01']);
    assert(after_user.subrange(0, 12) =~= "auth=Bearer "@);
    let rest2 = after_user.skip(12);
    assert(rest2 =~= token + seq!['\x01'] + seq!['\x01']);
    lemma_find_ctrl_concat(token, seq!['\x01']);
    assert(find_ctrl(rest2) == Some(token.len() as int));
    assert(rest2.take(token.len() as int) =~= token);
    assert(rest2.skip(token.len() as int + 1) =~= seq!['\x01']);
}

} // verus!
