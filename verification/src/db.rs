//! Order-preserving conversions between the signed 64-bit ids a database
//! stores and the unsigned 64-bit ids tickets carry: each function shifts by
//! half the 64-bit range, so the two are exact inverses and `<` is kept.

use vstd::prelude::*;

verus! {

/// Maps a stored signed id to the unsigned id space by adding half the
/// 64-bit range.
pub fn wrap_to_u64(x: i64) -> (r: u64)
    ensures
        r == x + 0x8000_0000_0000_0000,
{
    if x >= 0 {
        (x as u64) + 0x8000_0000_0000_0000
    } else {
        (x - i64::MIN) as u64
    }
}

/// Maps an unsigned id back to the stored signed id space by subtracting
/// half the 64-bit range.
pub fn wrap_to_i64(x: u64) -> (r: i64)
    ensures
        r == x - 0x8000_0000_0000_0000,
{
    if x >= 0x8000_0000_0000_0000 {
        (x - 0x8000_0000_0000_0000) as i64
    } else {
        (x as i64) + i64::MIN
    }
}

} // verus!
