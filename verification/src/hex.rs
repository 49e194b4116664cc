//! Lowercase hexadecimal encoding and decoding, byte-exact: the integrity
//! digest is sent as a 40-character lowercase hex string, and resource hashes
//! travel as hex strings too.

use vstd::prelude::*;

use crate::strutil::string_push_char;

verus! {

/// The lowercase hex digit for a nibble value.
pub open spec fn hex_char(n: u8) -> char
    recommends
        n < 16,
{
    if n < 10 {
        (48 + n) as char
    } else {
        (87 + n) as char
    }
}

/// Lowercase hex encoding of a byte string, two digits per byte, high nibble
/// first.
pub open spec fn hex_of(b: Seq<u8>) -> Seq<char>
    decreases b.len(),
{
    if b.len() == 0 {
        Seq::empty()
    } else {
        hex_of(b.drop_last()).push(hex_char(b.last() / 16)).push(hex_char(b.last() % 16))
    }
}

fn hex_char_exec(n: u8) -> (c: char)
    requires
        n < 16,
    ensures
        c == hex_char(n),
{
    if n < 10 {
        (48 + n) as char
    } else {
        (87 + n) as char
    }
}

/// Lowercase hex encoding of `data`.
pub fn to_hex(data: &[u8]) -> (r: String)
    ensures
        r@ == hex_of(data@),
        r@.len() == 2 * data@.len(),
{
    let mut r = String::new();
    let mut i: usize = 0;
    while i < data.len()
        invariant
            i <= data.len(),
            r@ == hex_of(data@.subrange(0, i as int)),
            r@.len() == 2 * i,
        decreases data.len() - i,
    {
        let b = data[i];
        string_push_char(&mut r, hex_char_exec(b / 16));
        string_push_char(&mut r, hex_char_exec(b % 16));
        i = i + 1;
        proof {
            assert(data@.subrange(0, i as int).drop_last() =~= data@.subrange(0, i - 1));
        }
    }
    proof {
        assert(data@.subrange(0, data@.len() as int) =~= data@);
    }
    r
}

/// Whether a byte is the ASCII code of a lowercase-or-uppercase hex digit.
pub open spec fn is_hex_digit(b: u8) -> bool {
    (48 <= b < 58) || (97 <= b < 103) || (65 <= b < 71)
}

/// The value of an ASCII hex digit.
pub open spec fn hex_digit_val(b: u8) -> u8
    recommends
        is_hex_digit(b),
{
    if 48 <= b < 58 {
        (b - 48) as u8
    } else if 97 <= b < 103 {
        (b - 87) as u8
    } else {
        (b - 55) as u8
    }
}

/// The bytes spelled by an even-length string of hex digits, high nibble
/// first.
pub open spec fn bytes_from_hex(s: Seq<u8>) -> Seq<u8>
    recommends
        s.len() % 2 == 0,
    decreases s.len(),
{
    if s.len() < 2 {
        Seq::empty()
    } else {
        bytes_from_hex(s.drop_last().drop_last()).push(
            (hex_digit_val(s[s.len() - 2]) * 16 + hex_digit_val(s.last())) as u8,
        )
    }
}

fn hex_digit_val_exec(b: u8) -> (r: Option<u8>)
    ensures
        r is Some <==> is_hex_digit(b),
        r matches Some(v) ==> v == hex_digit_val(b) && v < 16,
{
    if 48 <= b && b < 58 {
        Some(b - 48)
    } else if 97 <= b && b < 103 {
        Some(b - 87)
    } else if 65 <= b && b < 71 {
        Some(b - 55)
    } else {
        None
    }
}

/// Decodes a hex digit string into bytes: `None` if the length is odd or any
/// byte is not a hex digit.
pub fn from_hex(s: &[u8]) -> (r: Option<Vec<u8>>)
    ensures
        r is Some <==> (s@.len() % 2 == 0 && (forall|j: int|
            0 <= j < s@.len() ==> is_hex_digit(s@[j]))),
        r matches Some(v) ==> v@ == bytes_from_hex(s@) && v@.len() * 2 == s@.len(),
{
    if s.len() % 2 != 0 {
        return None;
    }
    let mut out: Vec<u8> = Vec::new();
    let mut i: usize = 0;
    while i < s.len()
        invariant
            i <= s.len(),
            i % 2 == 0,
            s.len() % 2 == 0,
            forall|j: int| 0 <= j < i ==> is_hex_digit(s@[j]),
            out@ == bytes_from_hex(s@.subrange(0, i as int)),
            out@.len() * 2 == i,
        decreases s.len() - i,
    {
        let hi = match hex_digit_val_exec(s[i]) {
            Some(v) => v,
            None => {
                return None;
            },
        };
        let lo = match hex_digit_val_exec(s[i + 1]) {
            Some(v) => v,
            None => {
                return None;
            },
        };
        out.push(hi * 16 + lo);
        i = i + 2;
        proof {
            assert(s@.subrange(0, i as int).drop_last().drop_last() =~= s@.subrange(0, i - 2));
        }
    }
    proof {
        assert(s@.subrange(0, s@.len() as int) =~= s@);
    }
    Some(out)
}

} // verus!
