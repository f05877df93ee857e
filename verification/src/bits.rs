//! Small facts about bytes and unsigned numbers.
//!
//! The three specifications at the end are trusted: they describe methods
//! of the standard library and are not checked by the verifier.
use vstd::prelude::*;

verus! {

/// How many of the eight bits of `x` are set.
pub open spec fn popcount(x: u8) -> nat {
    ((x & 1) + ((x >> 1) & 1) + ((x >> 2) & 1) + ((x >> 3) & 1) + ((x >> 4) & 1) + ((x >> 5) & 1)
        + ((x >> 6) & 1) + ((x >> 7) & 1)) as nat
}

/// The distance between two numbers, whichever is larger.
pub open spec fn distance(a: int, b: int) -> int {
    if a >= b {
        a - b
    } else {
        b - a
    }
}

/// The smaller of two numbers.
pub open spec fn smaller(a: int, b: int) -> int {
    if a <= b {
        a
    } else {
        b
    }
}

/// A byte has at most eight bits set.
pub proof fn lemma_popcount_at_most_eight(x: u8)
    ensures
        popcount(x) <= 8,
{
    assert(((x & 1) + ((x >> 1) & 1) + ((x >> 2) & 1) + ((x >> 3) & 1) + ((x >> 4) & 1) + ((x >> 5)
        & 1) + ((x >> 6) & 1) + ((x >> 7) & 1)) <= 8) by (bit_vector);
}

/// `u8::count_ones`: the number of ones in the binary representation.
pub assume_specification[ u8::count_ones ](x: u8) -> (ones: u32)
    ensures
        ones == popcount(x),
;

/// `u8::abs_diff`: the absolute difference of the two bytes.
pub assume_specification[ u8::abs_diff ](x: u8, other: u8) -> (gap: u8)
    ensures
        gap == distance(x as int, other as int),
;

/// `u64::abs_diff`: the absolute difference of the two numbers.
pub assume_specification[ u64::abs_diff ](x: u64, other: u64) -> (gap: u64)
    ensures
        gap == distance(x as int, other as int),
;

} // verus!
