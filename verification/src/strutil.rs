//! Byte-string helpers shared by the decoder and the digest engine: exact
//! byte equality, trailing-NUL trimming, and the UTF-8 conversions the wire
//! format needs. String payloads arrive as raw bytes; they become `String`
//! values only after validation, and trailing NUL padding is cut at the byte
//! level, which always cuts on a character boundary.

use vstd::prelude::*;

use vstd::utf8::{
    decode_utf8, is_char_boundary_iff_not_is_continuation_byte, valid_utf8, valid_utf8_split,
};

verus! {

/// `b` with every trailing zero byte removed.
pub open spec fn trim_trailing_zeros(b: Seq<u8>) -> Seq<u8>
    decreases b.len(),
{
    if b.len() > 0 && b.last() == 0 {
        trim_trailing_zeros(b.drop_last())
    } else {
        b
    }
}

/// Trimming trailing zero bytes keeps UTF-8 validity: a zero byte is a
/// one-byte scalar, so the cut always falls on a character boundary.
pub proof fn lemma_trim_trailing_zeros_valid_utf8(b: Seq<u8>)
    requires
        valid_utf8(b),
    ensures
        valid_utf8(trim_trailing_zeros(b)),
    decreases b.len(),
{
    if b.len() > 0 && b.last() == 0 {
        let n = b.len() - 1;
        is_char_boundary_iff_not_is_continuation_byte(b, n as int);
        valid_utf8_split(b, n as int);
        assert(b.subrange(0, n as int) =~= b.drop_last());
        lemma_trim_trailing_zeros_valid_utf8(b.drop_last());
    }
}

/// Exact equality of two byte strings.
pub fn bytes_eq(a: &[u8], b: &[u8]) -> (r: bool)
    ensures
        r == (a@ == b@),
{
    if a.len() != b.len() {
        return false;
    }
    let mut i: usize = 0;
    while i < a.len()
        invariant
            i <= a.len(),
            a@.len() == b@.len(),
            forall|j: int| 0 <= j < i ==> a@[j] == b@[j],
        decreases a.len() - i,
    {
        if a[i] != b[i] {
            return false;
        }
        i = i + 1;
    }
    proof {
        assert(a@ =~= b@);
    }
    true
}

/// Copy of `v` with every trailing zero byte removed.
pub fn trim_trailing_zeros_vec(v: &[u8]) -> (r: Vec<u8>)
    ensures
        r@ == trim_trailing_zeros(v@),
{
    let mut end = v.len();
    proof {
        assert(v@.subrange(0, end as int) =~= v@);
    }
    while end > 0 && v[end - 1] == 0
        invariant
            end <= v.len(),
            trim_trailing_zeros(v@) == trim_trailing_zeros(v@.subrange(0, end as int)),
        decreases end,
    {
        proof {
            assert(v@.subrange(0, end as int).drop_last() =~= v@.subrange(0, end - 1));
        }
        end = end - 1;
    }
    vstd::slice::slice_to_vec(vstd::slice::slice_subrange(v, 0, end))
}

/// Relies on `String::from_utf8`: it succeeds exactly on valid UTF-8 input,
/// and the returned string holds exactly the given bytes.
#[verifier::external_body]
pub(crate) fn string_from_utf8(bytes: Vec<u8>) -> (r: Option<String>)
    ensures
        r is Some <==> valid_utf8(bytes@),
        r matches Some(s) ==> s@ == decode_utf8(bytes@),
{
    String::from_utf8(bytes).ok()
}

/// Relies on `String::push`: it appends exactly one character.
#[verifier::external_body]
pub(crate) fn string_push_char(s: &mut String, c: char)
    ensures
        final(s)@ == old(s)@.push(c),
{
    s.push(c);
}

/// Appends all of `src`.
pub fn append_bytes(dst: &mut Vec<u8>, src: &[u8])
    ensures
        final(dst)@ == old(dst)@ + src@,
{
    let mut i: usize = 0;
    proof {
        assert(dst@ =~= old(dst)@ + src@.subrange(0, 0));
    }
    while i < src.len()
        invariant
            i <= src.len(),
            dst@ == old(dst)@ + src@.subrange(0, i as int),
        decreases src.len() - i,
    {
        dst.push(src[i]);
        i = i + 1;
        proof {
            assert(old(dst)@ + src@.subrange(0, i - 1) + seq![src@[i - 1]] =~= old(dst)@
                + src@.subrange(0, i as int));
        }
    }
    proof {
        assert(src@.subrange(0, src@.len() as int) =~= src@);
    }
}

} // verus!
