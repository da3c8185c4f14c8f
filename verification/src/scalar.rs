//! Scalar values as IEEE-754 binary64 bit patterns.
//!
//! Every real-valued quantity of a simulation (parameter values, state
//! amounts, sample times) is carried through this crate as the `u64` bit
//! pattern of the corresponding binary64 value.  The layout is fixed by
//! IEEE 754: bit 63 is the sign, bits 52..=62 the biased exponent, bits
//! 0..=51 the significand.  A value is finite exactly when the exponent
//! field is not all ones, and for finite non-negative values the unsigned
//! order of the bit patterns coincides with the numeric order, so sample
//! times (which are finite and non-negative) are compared as plain `u64`s.

use vstd::prelude::*;

verus! {

/// The biased exponent field of a binary64 bit pattern.
pub open spec fn exponent_bits(b: u64) -> u64 {
    (b >> 52) & 0x7ff
}

/// The sign bit of a binary64 bit pattern.
pub open spec fn sign_bit(b: u64) -> u64 {
    b >> 63
}

/// A binary64 value is finite (neither an infinity nor a NaN) exactly
/// when its exponent field is not all ones.
pub open spec fn is_finite_bits(b: u64) -> bool {
    exponent_bits(b) != 0x7ff
}

/// The sign bit is clear: the value is positive, or a (positive) zero.
pub open spec fn is_nonneg_bits(b: u64) -> bool {
    sign_bit(b) == 0
}

/// A valid sample time: finite and non-negative.  For such bit patterns
/// the unsigned integer order is the numeric order of the values.
pub open spec fn is_time_bits(b: u64) -> bool {
    is_finite_bits(b) && is_nonneg_bits(b)
}

/// Whether the bit pattern denotes a finite binary64 value.
pub fn scalar_is_finite(b: u64) -> (r: bool)
    ensures
        r == is_finite_bits(b),
{
    (b >> 52) & 0x7ff != 0x7ff
}

/// Whether the sign bit is clear.
pub fn scalar_is_nonneg(b: u64) -> (r: bool)
    ensures
        r == is_nonneg_bits(b),
{
    (b >> 63) == 0
}

/// Whether the bit pattern is a valid sample time (finite, non-negative).
pub fn scalar_is_time(b: u64) -> (r: bool)
    ensures
        r == is_time_bits(b),
{
    scalar_is_finite(b) && scalar_is_nonneg(b)
}

/// Whether every entry of a vector of scalars is finite.
pub open spec fn all_finite(s: Seq<u64>) -> bool {
    forall|i: int| 0 <= i < s.len() ==> is_finite_bits(#[trigger] s[i])
}

/// Checks that every entry of a state vector is finite.
pub fn state_all_finite(y: &Vec<u64>) -> (r: bool)
    ensures
        r == all_finite(y@),
{
    let mut i: usize = 0;
    while i < y.len()
        invariant
            i <= y@.len(),
            forall|j: int| 0 <= j < i ==> is_finite_bits(#[trigger] y@[j]),
        decreases y@.len() - i,
    {
        if !scalar_is_finite(y[i]) {
            return false;
        }
        i += 1;
    }
    true
}

} // verus!
