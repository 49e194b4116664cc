//! An explicit cursor over an immutable byte buffer.
//!
//! The ticket decoder needs to remember byte offsets (the body section's
//! start and end, the signature data's start) so that signature verification
//! can later slice the exact ranges back out. The cursor owns the buffer,
//! advances a position on each typed read, and exposes that position.
//! Every read is fallible: running off the end yields `Truncated`.

use vstd::prelude::*;

use crate::error::DecodeError;

verus! {

/// Numeric value of a byte string read in big-endian order (most significant
/// byte first).
pub open spec fn be_val(b: Seq<u8>) -> nat
    decreases b.len(),
{
    if b.len() == 0 {
        0
    } else {
        (be_val(b.drop_last()) * 256 + b.last()) as nat
    }
}

/// 256 raised to the power `n`: the number of distinct values of an `n`-byte
/// big-endian field.
pub open spec fn pow256(n: nat) -> nat
    decreases n,
{
    if n == 0 {
        1
    } else {
        256 * pow256((n - 1) as nat)
    }
}

pub proof fn lemma_pow256_mono(a: nat, b: nat)
    requires
        a <= b,
    ensures
        pow256(a) <= pow256(b),
    decreases b,
{
    if a < b {
        lemma_pow256_mono(a, (b - 1) as nat);
    }
}

/// An `n`-byte field's value fits in `n` bytes.
pub proof fn lemma_be_val_bound(b: Seq<u8>)
    ensures
        be_val(b) < pow256(b.len()),
    decreases b.len(),
{
    if b.len() > 0 {
        lemma_be_val_bound(b.drop_last());
    }
}

/// Appending a byte multiplies the value by 256 and adds the byte.
pub proof fn lemma_be_val_push(b: Seq<u8>, x: u8)
    ensures
        be_val(b.push(x)) == be_val(b) * 256 + x,
{
    assert(b.push(x).drop_last() =~= b);
}

/// A cursor over an immutable byte buffer: the buffer never changes, only the
/// position advances.
pub struct ByteCursor {
    pub data: Vec<u8>,
    pub pos: usize,
}

impl ByteCursor {
    /// The position never runs past the end of the buffer.
    pub open spec fn wf(&self) -> bool {
        self.pos <= self.data.len()
    }

    pub fn new(data: Vec<u8>) -> (r: ByteCursor)
        ensures
            r.data == data,
            r.pos == 0,
            r.wf(),
    {
        ByteCursor { data, pos: 0 }
    }

    /// Current offset from the start of the buffer.
    pub fn position(&self) -> (r: usize)
        ensures
            r == self.pos,
    {
        self.pos
    }

    /// Total buffer length.
    pub fn len(&self) -> (r: usize)
        ensures
            r == self.data.len(),
    {
        self.data.len()
    }

    /// Gives the underlying buffer back, for slicing recorded byte ranges.
    pub fn into_inner(self) -> (r: Vec<u8>)
        ensures
            r == self.data,
    {
        self.data
    }

    /// Moves the cursor to an absolute offset.
    pub fn set_position(&mut self, n: usize)
        requires
            n <= old(self).data.len(),
        ensures
            final(self).data == old(self).data,
            final(self).pos == n,
            final(self).wf(),
    {
        self.pos = n;
    }

    pub fn read_u8(&mut self) -> (r: Result<u8, DecodeError>)
        requires
            old(self).wf(),
        ensures
            final(self).wf(),
            final(self).data == old(self).data,
            old(self).pos + 1 <= old(self).data.len() ==> ({
                &&& r matches Ok(v)
                &&& v == old(self).data[old(self).pos as int]
                &&& final(self).pos == old(self).pos + 1
            }),
            old(self).pos + 1 > old(self).data.len() ==> r == Err::<u8, DecodeError>(
                DecodeError::Truncated,
            ) && final(self).pos == old(self).pos,
    {
        if self.pos < self.data.len() {
            let b = self.data[self.pos];
            self.pos = self.pos + 1;
            Ok(b)
        } else {
            Err(DecodeError::Truncated)
        }
    }

    /// Reads an `n`-byte big-endian unsigned value, `n` at most 8.
    pub fn read_be(&mut self, n: usize) -> (r: Result<u64, DecodeError>)
        requires
            old(self).wf(),
            n <= 8,
        ensures
            final(self).wf(),
            final(self).data == old(self).data,
            old(self).pos + n <= old(self).data.len() ==> ({
                &&& r matches Ok(v)
                &&& v == be_val(old(self).data@.subrange(old(self).pos as int, old(self).pos + n))
                &&& final(self).pos == old(self).pos + n
            }),
            old(self).pos + n > old(self).data.len() ==> r == Err::<u64, DecodeError>(
                DecodeError::Truncated,
            ) && final(self).pos == old(self).pos,
    {
        if n > self.data.len() - self.pos {
            return Err(DecodeError::Truncated);
        }
        let start = self.pos;
        let ghost buf = self.data@;
        let mut acc: u64 = 0;
        let mut i: usize = 0;
        while i < n
            invariant
                self.data == old(self).data,
                self.data@ == buf,
                self.pos == start + i,
                i <= n,
                n <= 8,
                start + n <= self.data.len(),
                acc == be_val(buf.subrange(start as int, start + i)),
                acc < pow256(i as nat),
            decreases n - i,
        {
            let b = self.data[self.pos];
            proof {
                lemma_pow256_mono((i + 1) as nat, 8);
                reveal_with_fuel(pow256, 9);
                lemma_be_val_push(buf.subrange(start as int, start + i), b);
                assert(buf.subrange(start as int, start + i).push(b) =~= buf.subrange(
                    start as int,
                    start + i + 1,
                ));
            }
            acc = acc * 256 + (b as u64);
            self.pos = self.pos + 1;
            i = i + 1;
        }
        Ok(acc)
    }

    pub fn read_u16_be(&mut self) -> (r: Result<u16, DecodeError>)
        requires
            old(self).wf(),
        ensures
            final(self).wf(),
            final(self).data == old(self).data,
            old(self).pos + 2 <= old(self).data.len() ==> ({
                &&& r matches Ok(v)
                &&& v == be_val(old(self).data@.subrange(old(self).pos as int, old(self).pos + 2))
                &&& final(self).pos == old(self).pos + 2
            }),
            old(self).pos + 2 > old(self).data.len() ==> r == Err::<u16, DecodeError>(
                DecodeError::Truncated,
            ) && final(self).pos == old(self).pos,
    {
        let ghost range = old(self).data@.subrange(old(self).pos as int, old(self).pos + 2);
        match self.read_be(2) {
            Ok(v) => {
                proof {
                    lemma_be_val_bound(range);
                    reveal_with_fuel(pow256, 3);
                }
                Ok(v as u16)
            },
            Err(e) => Err(e),
        }
    }

    pub fn read_u32_be(&mut self) -> (r: Result<u32, DecodeError>)
        requires
            old(self).wf(),
        ensures
            final(self).wf(),
            final(self).data == old(self).data,
            old(self).pos + 4 <= old(self).data.len() ==> ({
                &&& r matches Ok(v)
                &&& v == be_val(old(self).data@.subrange(old(self).pos as int, old(self).pos + 4))
                &&& final(self).pos == old(self).pos + 4
            }),
            old(self).pos + 4 > old(self).data.len() ==> r == Err::<u32, DecodeError>(
                DecodeError::Truncated,
            ) && final(self).pos == old(self).pos,
    {
        let ghost range = old(self).data@.subrange(old(self).pos as int, old(self).pos + 4);
        match self.read_be(4) {
            Ok(v) => {
                proof {
                    lemma_be_val_bound(range);
                    reveal_with_fuel(pow256, 5);
                }
                Ok(v as u32)
            },
            Err(e) => Err(e),
        }
    }

    pub fn read_u64_be(&mut self) -> (r: Result<u64, DecodeError>)
        requires
            old(self).wf(),
        ensures
            final(self).wf(),
            final(self).data == old(self).data,
            old(self).pos + 8 <= old(self).data.len() ==> ({
                &&& r matches Ok(v)
                &&& v == be_val(old(self).data@.subrange(old(self).pos as int, old(self).pos + 8))
                &&& final(self).pos == old(self).pos + 8
            }),
            old(self).pos + 8 > old(self).data.len() ==> r == Err::<u64, DecodeError>(
                DecodeError::Truncated,
            ) && final(self).pos == old(self).pos,
    {
        self.read_be(8)
    }

    /// Reads `n` raw bytes.
    pub fn read_bytes(&mut self, n: usize) -> (r: Result<Vec<u8>, DecodeError>)
        requires
            old(self).wf(),
        ensures
            final(self).wf(),
            final(self).data == old(self).data,
            old(self).pos + n <= old(self).data.len() ==> ({
                &&& r matches Ok(v)
                &&& v@ == old(self).data@.subrange(old(self).pos as int, old(self).pos + n)
                &&& final(self).pos == old(self).pos + n
            }),
            old(self).pos + n > old(self).data.len() ==> r == Err::<Vec<u8>, DecodeError>(
                DecodeError::Truncated,
            ) && final(self).pos == old(self).pos,
    {
        if n > self.data.len() - self.pos {
            return Err(DecodeError::Truncated);
        }
        let s = vstd::slice::slice_subrange(self.data.as_slice(), self.pos, self.pos + n);
        let v = vstd::slice::slice_to_vec(s);
        self.pos = self.pos + n;
        Ok(v)
    }

    /// Advances past `n` bytes without reading them.
    pub fn skip(&mut self, n: usize) -> (r: Result<(), DecodeError>)
        requires
            old(self).wf(),
        ensures
            final(self).wf(),
            final(self).data == old(self).data,
            old(self).pos + n <= old(self).data.len() ==> ({
                &&& r matches Ok(v)
                &&& final(self).pos == old(self).pos + n
            }),
            old(self).pos + n > old(self).data.len() ==> r == Err::<(), DecodeError>(
                DecodeError::Truncated,
            ) && final(self).pos == old(self).pos,
    {
        if n > self.data.len() - self.pos {
            return Err(DecodeError::Truncated);
        }
        self.pos = self.pos + n;
        Ok(())
    }
}

} // verus!
