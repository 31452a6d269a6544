//! Double-precision numbers, carried as their IEEE 754 bit patterns.
//!
//! A table cell holds a real number as the 64 bits of its binary64 encoding.
//! The order used for envelopes is the total order of that encoding: negative
//! values below positive ones, larger magnitudes further from zero, and the
//! negative zero directly below the positive zero.

use vstd::prelude::*;

verus! {

/// The bit pattern of the negative zero: the sign bit alone.
pub const SIGN_BIT: u64 = 0x8000_0000_0000_0000;

/// The place of a bit pattern in the total order: the magnitude bits for a
/// pattern without the sign bit, and the magnitude bits counted downwards
/// from minus one for a pattern with it.
pub open spec fn rank(bits: u64) -> int {
    if bits < SIGN_BIT {
        bits as int
    } else {
        SIGN_BIT - 1 - bits
    }
}

/// The rank, moved into the unsigned range.
fn ordering_key(bits: u64) -> (key: u64)
    ensures
        key == rank(bits) + SIGN_BIT,
{
    if bits < SIGN_BIT {
        bits + SIGN_BIT
    } else {
        u64::MAX - bits
    }
}

/// Whether `a` comes strictly before `b` in the total order.
pub fn precedes(a: u64, b: u64) -> (r: bool)
    ensures
        r == (rank(a) < rank(b)),
{
    ordering_key(a) < ordering_key(b)
}

/// The earlier of two bit patterns in the total order.
pub fn lower(a: u64, b: u64) -> (r: u64)
    ensures
        r == if rank(b) < rank(a) { b } else { a },
{
    if precedes(b, a) {
        b
    } else {
        a
    }
}

/// The later of two bit patterns in the total order.
pub fn upper(a: u64, b: u64) -> (r: u64)
    ensures
        r == if rank(a) < rank(b) { b } else { a },
{
    if precedes(a, b) {
        b
    } else {
        a
    }
}

/// Two bit patterns with the same rank are the same pattern.
pub proof fn rank_is_injective(a: u64, b: u64)
    requires
        rank(a) == rank(b),
    ensures
        a == b,
{
}

} // verus!
