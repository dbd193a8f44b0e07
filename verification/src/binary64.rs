//! Classification of IEEE-754 binary64 values by their bit patterns.
//!
//! A pattern has a sign bit, eleven exponent bits and fifty-two fraction bits.
//! Read as an unsigned integer, the patterns of one sign are ordered as the
//! magnitudes they denote, with the infinity last among the numbers and the
//! NaNs after it. The predicates below are ranges over that integer.

use vstd::prelude::*;

verus! {

/// The pattern of negative zero: the sign bit alone.
pub const NEGATIVE_ZERO: u64 = 0x8000_0000_0000_0000;

/// The pattern of positive infinity.
pub const POSITIVE_INFINITY: u64 = 0x7FF0_0000_0000_0000;

/// The pattern of negative infinity.
pub const NEGATIVE_INFINITY: u64 = 0xFFF0_0000_0000_0000;

/// The pattern denotes a number: neither an infinity nor a NaN.
pub open spec fn spec_is_finite(bits: u64) -> bool {
    bits < POSITIVE_INFINITY || NEGATIVE_ZERO <= bits < NEGATIVE_INFINITY
}

/// The pattern denotes zero, of either sign.
pub open spec fn spec_is_zero(bits: u64) -> bool {
    bits == 0 || bits == NEGATIVE_ZERO
}

/// The pattern denotes a value greater than zero; positive infinity is one.
pub open spec fn spec_is_positive(bits: u64) -> bool {
    0 < bits <= POSITIVE_INFINITY
}

/// The pattern denotes a value less than zero; negative infinity is one.
pub open spec fn spec_is_negative(bits: u64) -> bool {
    NEGATIVE_ZERO < bits <= NEGATIVE_INFINITY
}

#[verifier::when_used_as_spec(spec_is_finite)]
pub fn is_finite(bits: u64) -> (r: bool)
    ensures
        r == spec_is_finite(bits),
{
    bits < POSITIVE_INFINITY || (NEGATIVE_ZERO <= bits && bits < NEGATIVE_INFINITY)
}

#[verifier::when_used_as_spec(spec_is_zero)]
pub fn is_zero(bits: u64) -> (r: bool)
    ensures
        r == spec_is_zero(bits),
{
    bits == 0 || bits == NEGATIVE_ZERO
}

#[verifier::when_used_as_spec(spec_is_positive)]
pub fn is_positive(bits: u64) -> (r: bool)
    ensures
        r == spec_is_positive(bits),
{
    0 < bits && bits <= POSITIVE_INFINITY
}

#[verifier::when_used_as_spec(spec_is_negative)]
pub fn is_negative(bits: u64) -> (r: bool)
    ensures
        r == spec_is_negative(bits),
{
    NEGATIVE_ZERO < bits && bits <= NEGATIVE_INFINITY
}

} // verus!
