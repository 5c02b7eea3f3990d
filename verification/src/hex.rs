//! Hex address and hash strings: `0x`-prefixed parsing and formatting.

use vstd::prelude::*;
use vstd::string::StrSliceExecFns;
use vstd::string::StringExecFns;

verus! {

/// ASCII code of '0'.
pub const DIGIT_ZERO: u32 = 48;

/// ASCII code of '9'.
pub const DIGIT_NINE: u32 = 57;

/// ASCII code of 'a'.
pub const LOWER_A: u32 = 97;

/// ASCII code of 'f'.
pub const LOWER_F: u32 = 102;

/// ASCII code of 'A'.
pub const UPPER_A: u32 = 65;

/// ASCII code of 'F'.
pub const UPPER_F: u32 = 70;

/// `c` is a hex digit, in either case.
pub open spec fn is_hex_digit(c: char) -> bool {
    ||| (DIGIT_ZERO <= c as u32 && c as u32 <= DIGIT_NINE)
    ||| (LOWER_A <= c as u32 && c as u32 <= LOWER_F)
    ||| (UPPER_A <= c as u32 && c as u32 <= UPPER_F)
}

/// The numeric value of a hex digit.
pub open spec fn hex_val(c: char) -> u8
    recommends
        is_hex_digit(c),
{
    if DIGIT_ZERO <= c as u32 && c as u32 <= DIGIT_NINE {
        (c as u32 - DIGIT_ZERO) as u8
    } else if LOWER_A <= c as u32 && c as u32 <= LOWER_F {
        (c as u32 - LOWER_A + 10) as u8
    } else {
        (c as u32 - UPPER_A + 10) as u8
    }
}

/// `s` is `0x` followed by exactly `2 * n` hex digits.
pub open spec fn is_hex_string(s: Seq<char>, n: int) -> bool {
    &&& s.len() == 2 + 2 * n
    &&& s[0] == '0'
    &&& s[1] == 'x'
    &&& forall|i: int| 2 <= i < s.len() ==> is_hex_digit(#[trigger] s[i])
}

/// The bytes encoded by a sequence of hex digit pairs.
pub open spec fn hex_decode(digits: Seq<char>) -> Seq<u8> {
    Seq::new(
        digits.len() / 2,
        |i: int| (hex_val(digits[2 * i]) * 16 + hex_val(digits[2 * i + 1])) as u8,
    )
}

/// The lowercase hex digit for a value below 16.
pub open spec fn hex_char(v: u8) -> char
    recommends
        v < 16,
{
    if v < 10 {
        (DIGIT_ZERO + v) as char
    } else {
        (LOWER_A + v - 10) as char
    }
}

/// The lowercase hex digits of a byte string, two per byte.
pub open spec fn hex_encode(b: Seq<u8>) -> Seq<char> {
    Seq::new(
        2 * b.len(),
        |i: int|
            if i % 2 == 0 {
                hex_char(b[i / 2] / 16)
            } else {
                hex_char(b[i / 2] % 16)
            },
    )
}

/// The `0x`-prefixed lowercase rendering of a byte string.
pub open spec fn hex_display(b: Seq<u8>) -> Seq<char> {
    seq!['0', 'x'] + hex_encode(b)
}

/// Formatting then parsing is the identity: the rendering of any byte
/// string is a well-formed hex string that decodes to the same bytes.
pub proof fn lemma_hex_round_trip(b: Seq<u8>)
    ensures
        is_hex_string(hex_display(b), b.len() as int),
        hex_decode(hex_display(b).skip(2)) == b,
{
    let s = hex_display(b);
    assert forall|i: int| 2 <= i < s.len() implies is_hex_digit(#[trigger] s[i]) by {
        let v = if (i - 2) % 2 == 0 {
            b[(i - 2) / 2] / 16
        } else {
            b[(i - 2) / 2] % 16
        };
        assert(s[i] == hex_char(v));
        assert(v < 16);
    }
    assert(s.skip(2) =~= hex_encode(b));
    assert forall|i: int| 0 <= i < b.len() implies hex_decode(hex_encode(b))[i] == b[i] by {
        let hi = b[i] / 16;
        let lo = b[i] % 16;
        assert(hex_encode(b)[2 * i] == hex_char(hi));
        assert(hex_encode(b)[2 * i + 1] == hex_char(lo));
        assert(hex_val(hex_char(hi)) == hi);
        assert(hex_val(hex_char(lo)) == lo);
    }
    assert(hex_decode(hex_encode(b)) =~= b);
}

/// The value of one hex digit character, if it is one.
fn hex_val_of(c: char) -> (r: Option<u8>)
    ensures
        match r {
            Some(v) => is_hex_digit(c) && v == hex_val(c) && v < 16,
            None => !is_hex_digit(c),
        },
{
    let u = c as u32;
    if DIGIT_ZERO <= u && u <= DIGIT_NINE {
        Some((u - DIGIT_ZERO) as u8)
    } else if LOWER_A <= u && u <= LOWER_F {
        Some((u - LOWER_A + 10) as u8)
    } else if UPPER_A <= u && u <= UPPER_F {
        Some((u - UPPER_A + 10) as u8)
    } else {
        None
    }
}

/// Parses a `0x`-prefixed hex string of exactly `n` bytes.
///
/// Returns the decoded bytes exactly when `s` has that shape, and `None`
/// exactly when it does not.
pub fn parse_hex_bytes(s: &str, n: usize) -> (r: Option<Vec<u8>>)
    requires
        n <= 1000,
    ensures
        match r {
            Some(v) => is_hex_string(s@, n as int) && v@ == hex_decode(s@.skip(2)) && v@.len()
                == n,
            None => !is_hex_string(s@, n as int),
        },
{
    let len = s.unicode_len();
    if len != 2 + 2 * n {
        return None;
    }
    if s.get_char(0) != '0' || s.get_char(1) != 'x' {
        return None;
    }
    let ghost digits = s@.skip(2);
    let mut out: Vec<u8> = Vec::new();
    let mut i: usize = 0;
    while i < n
        invariant
            i <= n,
            n <= 1000,
            s@.len() == 2 + 2 * n,
            digits == s@.skip(2),
            out@.len() == i,
            forall|j: int| 2 <= j < 2 + 2 * i ==> is_hex_digit(#[trigger] s@[j]),
            forall|j: int|
                0 <= j < i ==> out@[j] == (hex_val(digits[2 * j]) * 16 + hex_val(
                    digits[2 * j + 1],
                )) as u8,
        decreases n - i,
    {
        let hi = match hex_val_of(s.get_char(2 + 2 * i)) {
            Some(v) => v,
            None => {
                return None;
            },
        };
        let lo = match hex_val_of(s.get_char(2 + 2 * i + 1)) {
            Some(v) => v,
            None => {
                return None;
            },
        };
        out.push(hi * 16 + lo);
        proof {
            assert(digits[2 * i as int] == s@[2 + 2 * i as int]);
            assert(digits[2 * i as int + 1] == s@[2 + 2 * i as int + 1]);
        }
        i += 1;
    }
    proof {
        assert(out@ =~= hex_decode(s@.skip(2)));
    }
    Some(out)
}

/// Relies on String::push: appends exactly the one character.
#[verifier::external_body]
pub(crate) fn push_char(s: &mut String, c: char)
    ensures
        final(s)@ == old(s)@.push(c),
{
    s.push(c);
}

/// Renders bytes as a `0x`-prefixed lowercase hex string, as the
/// addresses and hashes in configuration files are written.
pub fn format_hex(b: &[u8]) -> (r: String)
    ensures
        r@ == hex_display(b@),
{
    let mut out = String::from_str("0x");
    proof {
        reveal_strlit("0x");
        assert(out@ =~= seq!['0', 'x']);
    }
    let n = b.len();
    let mut i: usize = 0;
    while i < n
        invariant
            i <= n,
            n == b@.len(),
            out@ == seq!['0', 'x'] + hex_encode(b@).take(2 * i as int),
        decreases n - i,
    {
        let byte = b[i];
        let hi = byte / 16;
        let lo = byte % 16;
        let hc = if hi < 10 {
            ((DIGIT_ZERO as u8) + hi) as char
        } else {
            ((LOWER_A as u8) + hi - 10) as char
        };
        let lc = if lo < 10 {
            ((DIGIT_ZERO as u8) + lo) as char
        } else {
            ((LOWER_A as u8) + lo - 10) as char
        };
        proof {
            assert(hc == hex_char(b@[i as int] / 16));
            assert(lc == hex_char(b@[i as int] % 16));
        }
        push_char(&mut out, hc);
        push_char(&mut out, lc);
        proof {
            assert(hex_encode(b@).take(2 * (i + 1)) =~= hex_encode(b@).take(2 * i as int).push(
                hex_char(b@[i as int] / 16),
            ).push(hex_char(b@[i as int] % 16)));
            assert(out@ =~= seq!['0', 'x'] + hex_encode(b@).take(2 * (i + 1)));
        }
        i += 1;
    }
    proof {
        assert(hex_encode(b@).take(2 * n as int) =~= hex_encode(b@));
        assert(out@ =~= hex_display(b@));
    }
    out
}

} // verus!
