//! Hex encoding and decoding.
//!
//! The secret token in the repository configuration is hex text, and the
//! delivery signature is sent as the hex form of an HMAC digest.  Encoding
//! uses upper-case digits; decoding accepts either case.

use crate::errors::Error;
use vstd::prelude::*;
use vstd::string::StrSliceExecFns;
use vstd::string::StringExecFns;

verus! {

/// Whether `c` is a hex digit (either case).
pub open spec fn is_hex_digit(c: char) -> bool {
    let u = c as u32;
    (48 <= u && u <= 57) || (65 <= u && u <= 70) || (97 <= u && u <= 102)
}

/// The value of the hex digit `c`, in `0 .. 16`.
pub open spec fn hex_digit_val(c: char) -> u8 {
    let u = c as u32;
    if 48 <= u && u <= 57 {
        (u - 48) as u8
    } else if 65 <= u && u <= 70 {
        (u - 55) as u8
    } else {
        (u - 87) as u8
    }
}

/// Whether every character of `s` is a hex digit.
pub open spec fn all_hex_digits(s: Seq<char>) -> bool {
    forall|i: int| 0 <= i < s.len() ==> is_hex_digit(#[trigger] s[i])
}

/// The bytes denoted by the hex text `s`, two digits per byte.
/// Meaningful when `s` has even length.
pub open spec fn hex_decoded(s: Seq<char>) -> Seq<u8>
    decreases s.len(),
{
    if s.len() < 2 {
        Seq::empty()
    } else {
        hex_decoded(s.drop_last().drop_last()) + seq![
            (hex_digit_val(s[s.len() - 2]) * 16 + hex_digit_val(s[s.len() - 1])) as u8,
        ]
    }
}

/// The upper-case hex digit for the value `n`, in `0 .. 16`.
pub open spec fn hex_upper_digit(n: u8) -> char {
    if n < 10 {
        ((48 + n) as u8) as char
    } else {
        ((55 + n) as u8) as char
    }
}

/// The upper-case hex text for the bytes `bs`, two digits per byte.
pub open spec fn hex_upper_of(bs: Seq<u8>) -> Seq<char>
    decreases bs.len(),
{
    if bs.len() == 0 {
        Seq::empty()
    } else {
        hex_upper_of(bs.drop_last()) + seq![
            hex_upper_digit(bs.last() / 16),
            hex_upper_digit(bs.last() % 16),
        ]
    }
}

/// The value of a hex digit character, or `None` when `c` is no hex digit.
fn hex_val(c: char) -> (r: Option<u8>)
    ensures
        r is Some <==> is_hex_digit(c),
        r matches Some(v) ==> v == hex_digit_val(c) && v < 16,
{
    let u = c as u32;
    if 48 <= u && u <= 57 {
        Some((u - 48) as u8)
    } else if 65 <= u && u <= 70 {
        Some((u - 55) as u8)
    } else if 97 <= u && u <= 102 {
        Some((u - 87) as u8)
    } else {
        None
    }
}

/// Decodes hex text to bytes.  Succeeds exactly on even-length strings of
/// hex digits; anything else is a configuration error, as the only hex the
/// relay reads is the configured secret token.
pub fn hex_decode(s: &str) -> (r: Result<Vec<u8>, Error>)
    ensures
        r is Ok <==> (s@.len() % 2 == 0 && all_hex_digits(s@)),
        r matches Ok(v) ==> v@ == hex_decoded(s@),
        r matches Err(e) ==> e matches Error::Configuration { .. },
{
    let n = s.unicode_len();
    if n % 2 != 0 {
        return Err(Error::Configuration { detail: String::from_str("odd-length hex value") });
    }
    let mut out: Vec<u8> = Vec::new();
    let mut i: usize = 0;
    while i < n
        invariant
            n == s@.len(),
            n % 2 == 0,
            i % 2 == 0,
            i <= n,
            out@ == hex_decoded(s@.take(i as int)),
            forall|j: int| 0 <= j < i ==> is_hex_digit(#[trigger] s@[j]),
        decreases n - i,
    {
        let c1 = s.get_char(i);
        let c2 = s.get_char(i + 1);
        let v1 = match hex_val(c1) {
            Some(v) => v,
            None => {
                return Err(
                    Error::Configuration { detail: String::from_str("invalid hex digit") },
                );
            },
        };
        let v2 = match hex_val(c2) {
            Some(v) => v,
            None => {
                return Err(
                    Error::Configuration { detail: String::from_str("invalid hex digit") },
                );
            },
        };
        out.push(v1 * 16 + v2);
        proof {
            assert(s@.take(i + 2).drop_last().drop_last() =~= s@.take(i as int));
        }
        i = i + 2;
    }
    proof {
        assert(s@.take(n as int) =~= s@);
    }
    Ok(out)
}

/// The upper-case hex digit for `n`, as a one-character string.
fn hex_digit_str(n: u8) -> (r: &'static str)
    requires
        n < 16,
    ensures
        r@ =~= seq![hex_upper_digit(n)],
{
    proof {
        reveal_strlit("0");
        reveal_strlit("1");
        reveal_strlit("2");
        reveal_strlit("3");
        reveal_strlit("4");
        reveal_strlit("5");
        reveal_strlit("6");
        reveal_strlit("7");
        reveal_strlit("8");
        reveal_strlit("9");
        reveal_strlit("A");
        reveal_strlit("B");
        reveal_strlit("C");
        reveal_strlit("D");
        reveal_strlit("E");
        reveal_strlit("F");
    }
    match n {
        0 => "0",
        1 => "1",
        2 => "2",
        3 => "3",
        4 => "4",
        5 => "5",
        6 => "6",
        7 => "7",
        8 => "8",
        9 => "9",
        10 => "A",
        11 => "B",
        12 => "C",
        13 => "D",
        14 => "E",
        _ => "F",
    }
}

/// Encodes bytes as upper-case hex text, two digits per byte.
pub fn hex_encode(bs: &Vec<u8>) -> (r: String)
    ensures
        r@ == hex_upper_of(bs@),
{
    let mut out = String::new();
    let mut i: usize = 0;
    while i < bs.len()
        invariant
            i <= bs@.len(),
            out@ == hex_upper_of(bs@.take(i as int)),
        decreases bs@.len() - i,
    {
        let b = bs[i];
        out.append(hex_digit_str(b / 16));
        out.append(hex_digit_str(b % 16));
        proof {
            assert(bs@.take(i + 1).drop_last() =~= bs@.take(i as int));
            assert(bs@.take(i + 1).last() == bs@[i as int]);
        }
        i = i + 1;
    }
    proof {
        assert(bs@.take(bs@.len() as int) =~= bs@);
    }
    out
}

} // verus!
