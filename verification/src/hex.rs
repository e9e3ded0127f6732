//! Lower-case hex encoding and decoding, verified end to end.
//!
//! Decoding accepts an optional `0x`/`0X` prefix, rejects odd-length
//! input before the prefix is stripped, and accepts digits of either
//! case — the conventions of the deployment tooling's hex arguments.

use vstd::prelude::*;
use vstd::string::StrSliceExecFns;

use crate::text::push_char;

verus! {

/// The lower-case hex digit for a value below sixteen.
pub open spec fn hex_digit(d: int) -> char {
    if d < 10 {
        ((d + 48) as u8) as char
    } else {
        ((d + 87) as u8) as char
    }
}

/// The lower-case hex encoding of a byte sequence: two digits per byte.
pub open spec fn hex_lower(bytes: Seq<u8>) -> Seq<char>
    decreases bytes.len(),
{
    if bytes.len() == 0 {
        Seq::empty()
    } else {
        hex_lower(bytes.drop_last()) + seq![
            hex_digit(bytes.last() as int / 16),
            hex_digit(bytes.last() as int % 16),
        ]
    }
}

/// Append the two hex digits of one byte.
fn push_hex_byte(out: &mut String, b: u8)
    ensures
        final(out)@ == old(out)@ + seq![hex_digit(b as int / 16), hex_digit(b as int % 16)],
{
    let hi: u8 = b / 16;
    let lo: u8 = b % 16;
    let hc: char = if hi < 10 {
        ((hi + 48) as u8) as char
    } else {
        ((hi + 87) as u8) as char
    };
    let lc: char = if lo < 10 {
        ((lo + 48) as u8) as char
    } else {
        ((lo + 87) as u8) as char
    };
    push_char(out, hc);
    push_char(out, lc);
    proof {
        assert(out@ =~= old(out)@ + seq![hex_digit(b as int / 16), hex_digit(b as int % 16)]);
    }
}

/// Encode bytes as lower-case hex.
pub fn hex_encode(bytes: &[u8]) -> (r: String)
    ensures
        r@ == hex_lower(bytes@),
{
    let n: usize = bytes.len();
    let mut out = String::new();
    let mut i: usize = 0;
    proof {
        assert(bytes@.take(0) =~= Seq::<u8>::empty());
        assert(out@ =~= hex_lower(bytes@.take(0)));
    }
    while i < n
        invariant
            n == bytes@.len(),
            i <= n,
            out@ == hex_lower(bytes@.take(i as int)),
        decreases n - i,
    {
        push_hex_byte(&mut out, bytes[i]);
        proof {
            assert(bytes@.take(i + 1).drop_last() =~= bytes@.take(i as int));
            assert(bytes@.take(i + 1).last() == bytes@[i as int]);
            assert(out@ =~= hex_lower(bytes@.take(i + 1)));
        }
        i += 1;
    }
    proof {
        assert(bytes@.take(n as int) =~= bytes@);
    }
    out
}

/// Whether `c` is a hex digit of either case.
pub open spec fn is_hex_digit(c: char) -> bool {
    ('0' <= c && c <= '9') || ('a' <= c && c <= 'f') || ('A' <= c && c <= 'F')
}

/// The value of a hex digit.
pub open spec fn hex_val(c: char) -> int {
    if '0' <= c && c <= '9' {
        c as u32 - 48
    } else if 'a' <= c && c <= 'f' {
        c as u32 - 87
    } else {
        c as u32 - 55
    }
}

/// The digit characters with an optional `0x`/`0X` prefix stripped.
pub open spec fn strip_hex_prefix(s: Seq<char>) -> Seq<char> {
    if s.len() >= 2 && s[0] == '0' && (s[1] == 'x' || s[1] == 'X') {
        s.skip(2)
    } else {
        s
    }
}

/// The bytes a hex string denotes: defined when the input's length is
/// even (counted before the prefix is stripped) and every character
/// after the prefix is a hex digit.
pub open spec fn hex_decoded(s: Seq<char>) -> Option<Seq<u8>> {
    if s.len() % 2 != 0 {
        None
    } else {
        let t = strip_hex_prefix(s);
        if forall|k: int| 0 <= k < t.len() ==> is_hex_digit(#[trigger] t[k]) {
            Some(Seq::new((t.len() / 2) as nat, |i: int| (hex_val(t[2 * i]) * 16 + hex_val(
                t[2 * i + 1],
            )) as u8))
        } else {
            None
        }
    }
}

/// The value of one hex digit character, or 255 when it is none.
fn hex_val_exec(c: char) -> (r: u8)
    ensures
        is_hex_digit(c) ==> r == hex_val(c) && r < 16,
        !is_hex_digit(c) ==> r == 255,
{
    let v: u32 = c as u32;
    if 48 <= v && v <= 57 {
        (v - 48) as u8
    } else if 97 <= v && v <= 102 {
        (v - 87) as u8
    } else if 65 <= v && v <= 70 {
        (v - 55) as u8
    } else {
        255
    }
}

/// Decode a hex string, accepting an optional `0x`/`0X` prefix and
/// digits of either case.
pub fn hex_decode(s: &str) -> (r: Option<Vec<u8>>)
    ensures
        match r {
            Some(v) => hex_decoded(s@) == Some(v@),
            None => hex_decoded(s@) is None,
        },
{
    let n: usize = s.unicode_len();
    if n % 2 != 0 {
        return None;
    }
    let start: usize = if n >= 2 && s.get_char(0) == '0' && (s.get_char(1) == 'x' || s.get_char(
        1,
    ) == 'X') {
        2
    } else {
        0
    };
    let ghost t = strip_hex_prefix(s@);
    proof {
        assert(t =~= s@.skip(start as int));
    }
    let mut out: Vec<u8> = Vec::new();
    let mut i: usize = start;
    while i < n
        invariant
            n == s@.len(),
            n % 2 == 0,
            start == 0 || start == 2,
            start <= i <= n,
            (i - start) % 2 == 0,
            t == s@.skip(start as int),
            t == strip_hex_prefix(s@),
            forall|k: int| 0 <= k < i - start ==> is_hex_digit(#[trigger] t[k]),
            out@.len() == (i - start) / 2,
            forall|j: int| 0 <= j < out@.len() ==> out@[j] == (hex_val(t[2 * j]) * 16
                + hex_val(t[2 * j + 1])) as u8,
        decreases n - i,
    {
        proof {
            assert(i % 2 == 0 && n % 2 == 0);
            assert(i + 1 < n);
            assert(t[i - start] == s@[i as int]);
            assert(t[i - start + 1] == s@[i + 1]);
        }
        let hi: u8 = hex_val_exec(s.get_char(i));
        let lo: u8 = hex_val_exec(s.get_char(i + 1));
        if hi == 255 || lo == 255 {
            proof {
                if hi == 255 {
                    assert(!is_hex_digit(strip_hex_prefix(s@)[i - start]));
                } else {
                    assert(!is_hex_digit(strip_hex_prefix(s@)[i - start + 1]));
                }
                assert(hex_decoded(s@) is None);
            }
            return None;
        }
        out.push(hi * 16 + lo);
        i += 2;
    }
    proof {
        assert(t.len() == n - start);
        assert(hex_decoded(s@) matches Some(v) && v =~= out@);
    }
    Some(out)
}

} // verus!
