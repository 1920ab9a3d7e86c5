//! The doubles that are whole numbers.
//!
//! Every integer of 32 bits is a double, exactly. Its bit pattern is found
//! here with integer arithmetic alone, and stated by what the pattern means:
//! it is the number whose value is the integer.
use vstd::prelude::*;
use vstd::arithmetic::power2::{
    lemma2_to64,
    lemma2_to64_rest,
    lemma_pow2_adds,
    lemma_pow2_pos,
    lemma_pow2_unfold,
    pow2,
};
use crate::bits::{magnitude_spec, SIGN, ZERO};
use crate::model::{
    exponent,
    exponent_field,
    fraction_field,
    is_finite,
    lemma_value_determines_bits,
    scaled_value,
    significand,
    HIDDEN,
    UNIT_EXPONENT,
};

verus! {

/// The exponent field of one, the smallest that a nonzero whole number has.
pub const ONE_EXPONENT: u64 = 1023;

/// The pattern is the double whose value is the integer `v`, with positive
/// zero for zero.
pub open spec fn denotes(bits: u64, v: int) -> bool {
    &&& is_finite(bits)
    &&& scaled_value(bits) == v * pow2(UNIT_EXPONENT as nat)
    &&& v == 0 ==> bits == ZERO
}

/// The double whose value is the integer `v`.
pub open spec fn int_bits(v: int) -> u64 {
    choose|bits: u64| denotes(bits, v)
}

/// No integer has two patterns.
pub proof fn lemma_denotes_unique(a: u64, b: u64, v: int)
    requires
        denotes(a, v),
        denotes(b, v),
    ensures
        a == b,
{
    if v != 0 {
        lemma_pow2_pos(UNIT_EXPONENT as nat);
        assert(v * pow2(UNIT_EXPONENT as nat) != 0) by (nonlinear_arith)
            requires
                v != 0,
                pow2(UNIT_EXPONENT as nat) > 0,
        ;
        lemma_value_determines_bits(a, b);
    }
}

/// The pattern with exponent field `e` and significand `sig`, signed or not,
/// has the value of the integer that `sig` is a shift of.
proof fn lemma_packed_denotes(m: nat, sig: nat, e: nat, negative: bool, bits: u64)
    requires
        0 < m,
        HIDDEN <= sig < 2 * HIDDEN,
        ONE_EXPONENT <= e <= UNIT_EXPONENT,
        sig == m * pow2((UNIT_EXPONENT - e) as nat),
        bits == e * HIDDEN + (sig - HIDDEN) + if negative {
            SIGN as int
        } else {
            0
        },
    ensures
        denotes(
            bits,
            if negative {
                -(m as int)
            } else {
                m as int
            },
        ),
{
    let shift = (UNIT_EXPONENT - e) as nat;
    assert(magnitude_spec(bits) == e * HIDDEN + (sig - HIDDEN));
    assert(exponent_field(bits) == e);
    assert(fraction_field(bits) == sig - HIDDEN);
    assert(exponent(bits) == e && significand(bits) == sig);
    lemma_pow2_adds(shift, e);
    assert(sig * pow2(e) == m * pow2(UNIT_EXPONENT as nat)) by (nonlinear_arith)
        requires
            sig == m * pow2(shift),
            pow2(UNIT_EXPONENT as nat) == pow2(shift) * pow2(e),
    ;
    assert((-(m as int)) * pow2(UNIT_EXPONENT as nat) == -(m * pow2(UNIT_EXPONENT as nat)))
        by (nonlinear_arith);
}

/// Shifting a significand up by one bit under an exponent one lower keeps it
/// a shift of the same integer, and there is room for it while the hidden bit
/// is not reached.
proof fn lemma_shift_step(m: nat, sig: nat, e: nat)
    requires
        0 < m,
        sig < HIDDEN,
        ONE_EXPONENT <= e <= UNIT_EXPONENT,
        sig == m * pow2((UNIT_EXPONENT - e) as nat),
    ensures
        e > ONE_EXPONENT,
        2 * sig == m * pow2((UNIT_EXPONENT - (e - 1)) as nat),
{
    let shift = (UNIT_EXPONENT - e) as nat;
    lemma2_to64_rest();
    lemma_pow2_pos(shift);
    assert(m * pow2(shift) >= pow2(shift)) by (nonlinear_arith)
        requires
            m > 0,
            pow2(shift) > 0,
    ;
    if e == ONE_EXPONENT {
        assert(shift == 52);
    }
    lemma_pow2_unfold(shift + 1);
    assert(m * pow2(shift + 1) == 2 * (m * pow2(shift))) by (nonlinear_arith)
        requires
            pow2(shift + 1) == 2 * pow2(shift),
    ;
}

/// A positive integer below `2^53` has a pattern: the one reached by shifting
/// it up to the hidden bit.
proof fn lemma_magnitude_has_bits(m: nat, sig: nat, e: nat, negative: bool) -> (bits: u64)
    requires
        0 < m,
        sig < 2 * HIDDEN,
        ONE_EXPONENT <= e <= UNIT_EXPONENT,
        sig == m * pow2((UNIT_EXPONENT - e) as nat),
    ensures
        denotes(
            bits,
            if negative {
                -(m as int)
            } else {
                m as int
            },
        ),
    decreases e,
{
    if sig < HIDDEN {
        lemma_shift_step(m, sig, e);
        lemma_magnitude_has_bits(m, 2 * sig, (e - 1) as nat, negative)
    } else {
        let sign: int = if negative {
            SIGN as int
        } else {
            0
        };
        let bits = (e * HIDDEN + (sig - HIDDEN) + sign) as u64;
        lemma_packed_denotes(m, sig, e, negative, bits);
        bits
    }
}

/// Every integer of magnitude below `2^53` is a double: `int_bits` is its
/// pattern.
pub proof fn lemma_int_bits_denotes(v: int)
    requires
        -2 * HIDDEN < v < 2 * HIDDEN,
    ensures
        denotes(int_bits(v), v),
{
    lemma2_to64();
    if v == 0 {
        lemma_zero_denotes();
    } else if v > 0 {
        assert(v * pow2(0) == v) by (nonlinear_arith)
            requires
                pow2(0) == 1,
        ;
        let bits = lemma_magnitude_has_bits(v as nat, v as nat, UNIT_EXPONENT as nat, false);
        assert(denotes(bits, v));
    } else {
        let m = (-v) as nat;
        assert(m * pow2(0) == m) by (nonlinear_arith)
            requires
                pow2(0) == 1,
        ;
        let bits = lemma_magnitude_has_bits(m, m, UNIT_EXPONENT as nat, true);
        assert(denotes(bits, v));
    }
}

/// The pattern of the nonzero integer of magnitude `m`, negative or not.
fn encode(m: u64, negative: bool) -> (bits: u64)
    requires
        0 < m < 2 * HIDDEN,
    ensures
        denotes(
            bits,
            if negative {
                -(m as int)
            } else {
                m as int
            },
        ),
{
    let mut sig: u64 = m;
    let mut e: u64 = UNIT_EXPONENT;
    proof {
        lemma2_to64();
        assert(m * pow2(0) == m) by (nonlinear_arith)
            requires
                pow2(0) == 1,
        ;
    }
    while sig < HIDDEN
        invariant
            0 < m,
            ONE_EXPONENT <= e <= UNIT_EXPONENT,
            sig == m * pow2((UNIT_EXPONENT - e) as nat),
            sig < 2 * HIDDEN,
        decreases e,
    {
        proof {
            lemma_shift_step(m as nat, sig as nat, e as nat);
        }
        sig = sig * 2;
        e = e - 1;
    }
    let positive: u64 = e * HIDDEN + (sig - HIDDEN);
    let bits: u64 = if negative {
        positive + SIGN
    } else {
        positive
    };
    proof {
        lemma_packed_denotes(m as nat, sig as nat, e as nat, negative, bits);
    }
    bits
}

/// Positive zero is the pattern of the integer zero.
proof fn lemma_zero_denotes()
    ensures
        denotes(ZERO, 0),
{
    assert(exponent_field(ZERO) == 0 && fraction_field(ZERO) == 0);
    assert(0 * pow2(1) == 0) by (nonlinear_arith);
    assert(0 * pow2(UNIT_EXPONENT as nat) == 0) by (nonlinear_arith);
}

/// What the two encoders return is the one pattern of their integer.
proof fn lemma_int_bits_is(bits: u64, v: int)
    requires
        denotes(bits, v),
    ensures
        bits == int_bits(v),
{
    lemma_denotes_unique(bits, int_bits(v), v);
}

/// The double equal to a signed integer of 32 bits.
pub fn from_i32(item: i32) -> (bits: u64)
    ensures
        denotes(bits, item as int),
        bits == int_bits(item as int),
{
    let bits: u64 = if item == 0 {
        ZERO
    } else if item < 0 {
        encode((-(item as i64)) as u64, true)
    } else {
        encode(item as u64, false)
    };
    proof {
        lemma_zero_denotes();
        lemma_int_bits_is(bits, item as int);
    }
    bits
}

/// The double equal to an unsigned integer of 32 bits.
pub fn from_u32(item: u32) -> (bits: u64)
    ensures
        denotes(bits, item as int),
        bits == int_bits(item as int),
{
    let bits: u64 = if item == 0 {
        ZERO
    } else {
        encode(item as u64, false)
    };
    proof {
        lemma_zero_denotes();
        lemma_int_bits_is(bits, item as int);
    }
    bits
}

} // verus!
