//! Doubles by their bit patterns.
//!
//! A number is held as the 64 bits of its IEEE 754 binary64 encoding: the sign
//! in the top bit, then eleven bits of exponent and fifty-two of fraction.
//! What the scalar's rules ask of a number (is it zero, is it one within the
//! tolerance, what is its negation) is decided here on those bits alone.
use vstd::prelude::*;

verus! {

/// The sign bit. Patterns from here upwards are the negative ones.
pub const SIGN: u64 = 0x8000_0000_0000_0000;

/// Positive zero.
pub const ZERO: u64 = 0;

/// The number one.
pub const ONE: u64 = 0x3FF0_0000_0000_0000;

/// The largest double below one, half a machine epsilon away from it.
pub const BELOW_ONE: u64 = 0x3FEF_FFFF_FFFF_FFFF;

/// The absolute tolerance: the machine epsilon, two to the power -52.
pub const ATOL: u64 = 0x3CB0_0000_0000_0000;

/// The relative tolerance: the double nearest to 1e-8.
pub const RTOL: u64 = 0x3E45_798E_E230_8C3A;

/// The pattern with its sign bit cleared.
pub open spec fn magnitude_spec(bits: u64) -> u64 {
    if bits >= SIGN {
        (bits - SIGN) as u64
    } else {
        bits
    }
}

/// The pattern with its sign bit flipped.
pub open spec fn negate_spec(bits: u64) -> u64 {
    if bits >= SIGN {
        (bits - SIGN) as u64
    } else {
        (bits + SIGN) as u64
    }
}

/// The number compares equal to zero: it is positive or negative zero.
pub open spec fn is_zero_spec(bits: u64) -> bool {
    magnitude_spec(bits) == 0
}

/// The number is less than the absolute tolerance away from one. Doubles are
/// spaced a whole epsilon apart above one and half an epsilon below it, so
/// these are one itself and its predecessor.
pub open spec fn near_one_spec(bits: u64) -> bool {
    bits == ONE || bits == BELOW_ONE
}

/// Clears the sign bit: the absolute value, of a NaN too.
#[verifier::when_used_as_spec(magnitude_spec)]
pub fn magnitude(bits: u64) -> (out: u64)
    ensures
        out == magnitude_spec(bits),
{
    if bits >= SIGN {
        bits - SIGN
    } else {
        bits
    }
}

/// Flips the sign bit: the negation, of a zero, an infinity or a NaN too.
#[verifier::when_used_as_spec(negate_spec)]
pub fn negate(bits: u64) -> (out: u64)
    ensures
        out == negate_spec(bits),
{
    if bits >= SIGN {
        bits - SIGN
    } else {
        bits + SIGN
    }
}

/// Whether the number compares equal to zero.
#[verifier::when_used_as_spec(is_zero_spec)]
pub fn is_zero(bits: u64) -> (out: bool)
    ensures
        out == is_zero_spec(bits),
{
    bits == ZERO || bits == SIGN
}

/// Whether the number is one within the absolute tolerance.
#[verifier::when_used_as_spec(near_one_spec)]
pub fn near_one(bits: u64) -> (out: bool)
    ensures
        out == near_one_spec(bits),
{
    bits == ONE || bits == BELOW_ONE
}

/// Negating twice gives the pattern back, and negation keeps the magnitude.
pub proof fn lemma_negate_involution(bits: u64)
    ensures
        negate_spec(negate_spec(bits)) == bits,
        magnitude_spec(negate_spec(bits)) == magnitude_spec(bits),
        negate_spec(bits) != bits,
{
}

/// The magnitude has no sign, and taking it again changes nothing.
pub proof fn lemma_magnitude_idempotent(bits: u64)
    ensures
        magnitude_spec(bits) < SIGN,
        magnitude_spec(magnitude_spec(bits)) == magnitude_spec(bits),
{
}

} // verus!
