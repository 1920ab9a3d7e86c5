//! What a bit pattern means.
//!
//! A finite double with exponent field `e` and fraction field `f` has the
//! value `s * 2^(x - 1075)`, where a normal one (`e > 0`) has the significand
//! `s = 2^52 + f` and the exponent `x = e`, and a subnormal one or a zero
//! (`e = 0`) has `s = f` and `x = 1`. To stay with integers the value is held
//! here times `2^1075`, which is `s * 2^x` with the sign. The tests that the
//! scalar's rules make on bits are shown to be what they claim of this value.
use vstd::prelude::*;
use vstd::arithmetic::power2::{
    lemma2_to64_rest,
    lemma_pow2_adds,
    lemma_pow2_pos,
    lemma_pow2_strictly_increases,
    pow2,
};
use crate::bits::{
    is_zero_spec,
    magnitude_spec,
    near_one_spec,
    negate_spec,
    ATOL,
    BELOW_ONE,
    ONE,
    SIGN,
    ZERO,
};

verus! {

/// Two to the power 52: the weight of the exponent field within a pattern, and
/// the hidden leading bit of a normal significand.
pub const HIDDEN: u64 = 0x10_0000_0000_0000;

/// The exponent field that only infinities and NaNs have.
pub const TOP_EXPONENT: u64 = 2047;

/// The exponent at which a significand counts in units of one.
pub const UNIT_EXPONENT: u64 = 1075;

/// The eleven bits of exponent.
pub open spec fn exponent_field(bits: u64) -> nat {
    (magnitude_spec(bits) / HIDDEN) as nat
}

/// The fifty-two bits of fraction.
pub open spec fn fraction_field(bits: u64) -> nat {
    (magnitude_spec(bits) % HIDDEN) as nat
}

/// The pattern is a number: neither an infinity nor a NaN.
pub open spec fn is_finite(bits: u64) -> bool {
    exponent_field(bits) < TOP_EXPONENT
}

/// The significand of a finite double, with the hidden bit of a normal one.
pub open spec fn significand(bits: u64) -> nat {
    if exponent_field(bits) == 0 {
        fraction_field(bits)
    } else {
        (HIDDEN + fraction_field(bits)) as nat
    }
}

/// The exponent of a finite double, as it weighs the significand.
pub open spec fn exponent(bits: u64) -> nat {
    if exponent_field(bits) == 0 {
        1
    } else {
        exponent_field(bits)
    }
}

/// The value of a finite double, times two to the power 1075.
pub open spec fn scaled_value(bits: u64) -> int {
    if bits >= SIGN {
        -(significand(bits) * pow2(exponent(bits)))
    } else {
        (significand(bits) * pow2(exponent(bits))) as int
    }
}

/// The distance between two integers.
pub open spec fn distance(a: int, b: int) -> int {
    if a < b {
        b - a
    } else {
        a - b
    }
}

/// A pattern is its sign, its exponent field and its fraction field, and the
/// fields stay within their bits.
pub proof fn lemma_fields(bits: u64)
    ensures
        magnitude_spec(bits) == exponent_field(bits) * HIDDEN + fraction_field(bits),
        fraction_field(bits) < HIDDEN,
        exponent_field(bits) <= TOP_EXPONENT,
        significand(bits) < 2 * HIDDEN,
        1 <= exponent(bits) <= TOP_EXPONENT,
{
}

/// One has the value one and the absolute tolerance the value `2^-52`.
pub proof fn lemma_constants()
    ensures
        is_finite(ZERO) && scaled_value(ZERO) == 0,
        is_finite(ONE) && scaled_value(ONE) == pow2(1075),
        is_finite(ATOL) && scaled_value(ATOL) == pow2(1023),
        is_finite(BELOW_ONE) && scaled_value(BELOW_ONE) == pow2(1075) - pow2(1022),
{
    lemma2_to64_rest();
    assert(exponent_field(ZERO) == 0 && fraction_field(ZERO) == 0);
    assert(0 * pow2(1) == 0) by (nonlinear_arith);
    assert(exponent_field(ONE) == 1023 && fraction_field(ONE) == 0);
    assert(exponent_field(ATOL) == 971 && fraction_field(ATOL) == 0);
    assert(exponent_field(BELOW_ONE) == 1022 && fraction_field(BELOW_ONE) == HIDDEN - 1);
    lemma_pow2_adds(52, 1023);
    lemma_pow2_adds(52, 971);
    lemma_pow2_adds(53, 1022);
    assert((2 * HIDDEN - 1) * pow2(1022) == pow2(53) * pow2(1022) - pow2(1022))
        by (nonlinear_arith)
        requires
            pow2(53) == 2 * HIDDEN,
    ;
}

/// A pattern compares equal to zero exactly where it is a number of value
/// zero.
pub proof fn lemma_is_zero_means_zero(bits: u64)
    ensures
        is_zero_spec(bits) <==> is_finite(bits) && scaled_value(bits) == 0,
{
    lemma_pow2_pos(exponent(bits));
    let s = significand(bits) as int;
    let p = pow2(exponent(bits)) as int;
    assert(s * p == 0 <==> s == 0) by (nonlinear_arith)
        requires
            p > 0,
            s >= 0,
    ;
}

/// Negation negates the value, and the magnitude is the absolute value.
pub proof fn lemma_sign_changes(bits: u64)
    ensures
        is_finite(negate_spec(bits)) == is_finite(bits),
        scaled_value(negate_spec(bits)) == -scaled_value(bits),
        is_finite(magnitude_spec(bits)) == is_finite(bits),
        scaled_value(magnitude_spec(bits)) == distance(scaled_value(bits), 0),
{
    lemma_pow2_pos(exponent(bits));
    let s = significand(bits) as int;
    let p = pow2(exponent(bits)) as int;
    assert(s * p >= 0) by (nonlinear_arith)
        requires
            p > 0,
            s >= 0,
    ;
    assert(magnitude_spec(negate_spec(bits)) == magnitude_spec(bits));
    assert(magnitude_spec(magnitude_spec(bits)) == magnitude_spec(bits));
}

/// Two numbers of the same value, other than zero, are the same pattern.
pub proof fn lemma_value_determines_bits(a: u64, b: u64)
    requires
        is_finite(a),
        is_finite(b),
        scaled_value(a) == scaled_value(b),
        scaled_value(a) != 0,
    ensures
        a == b,
{
    lemma_fields(a);
    lemma_fields(b);
    let ea = exponent(a);
    let eb = exponent(b);
    let sa = significand(a) as int;
    let sb = significand(b) as int;
    let pa = pow2(ea) as int;
    let pb = pow2(eb) as int;
    let hidden = HIDDEN as int;
    lemma_pow2_pos(ea);
    lemma_pow2_pos(eb);
    assert(sa * pa >= 0 && sb * pb >= 0) by (nonlinear_arith)
        requires
            sa >= 0,
            sb >= 0,
            pa > 0,
            pb > 0,
    ;
    assert((a >= SIGN) == (b >= SIGN));
    assert(sa * pa == sb * pb);
    if ea < eb {
        lemma_exponent_gap(sa, ea, sb, eb);
    }
    if eb < ea {
        lemma_exponent_gap(sb, eb, sa, ea);
    }
    assert(ea == eb);
    assert(sa == sb) by (nonlinear_arith)
        requires
            sa * pa == sb * pb,
            pa == pb,
            pa > 0,
    ;
    assert(exponent_field(a) == exponent_field(b));
    assert(fraction_field(a) == fraction_field(b));
    assert(magnitude_spec(a) == magnitude_spec(b));
}

/// A significand under a smaller exponent cannot make the value of a nonzero
/// one under a larger exponent: it would need a bit more than it has.
proof fn lemma_exponent_gap(small_s: int, small_e: nat, large_s: int, large_e: nat)
    requires
        1 <= small_e < large_e,
        0 <= small_s < 2 * HIDDEN,
        large_s >= HIDDEN,
    ensures
        small_s * pow2(small_e) != large_s * pow2(large_e),
{
    let gap = (large_e - small_e) as nat;
    let p = pow2(small_e) as int;
    let k = pow2(gap) as int;
    lemma_pow2_adds(gap, small_e);
    lemma_pow2_pos(small_e);
    vstd::arithmetic::power2::lemma2_to64();
    if gap > 1 {
        lemma_pow2_strictly_increases(1, gap);
    }
    assert(k >= 2);
    assert(large_s * (k * p) >= (2 * HIDDEN) * p) by (nonlinear_arith)
        requires
            large_s >= HIDDEN,
            k >= 2,
            p > 0,
    ;
    assert(small_s * p < (2 * HIDDEN) * p) by (nonlinear_arith)
        requires
            small_s < 2 * HIDDEN,
            p > 0,
    ;
}

/// A pattern is one within the absolute tolerance exactly where it is a
/// number whose value is less than the tolerance away from one.
pub proof fn lemma_near_one_means_close(bits: u64)
    ensures
        near_one_spec(bits) <==> is_finite(bits) && distance(
            scaled_value(bits),
            scaled_value(ONE),
        ) < scaled_value(ATOL),
{
    lemma_constants();
    lemma_fields(bits);
    let e = exponent(bits);
    let f = fraction_field(bits) as int;
    let s = significand(bits) as int;
    let p = pow2(e) as int;
    let one = pow2(1075) as int;
    let tol = pow2(1023) as int;
    let half = pow2(1022) as int;
    let hidden = HIDDEN as int;
    lemma_pow2_pos(e);
    lemma_pow2_pos(1022);
    lemma_pow2_adds(52, 1023);
    lemma_pow2_adds(1, 1022);
    lemma_pow2_adds(1, 1021);
    lemma_pow2_adds(1, 1023);
    lemma2_to64_rest();
    vstd::arithmetic::power2::lemma2_to64();
    assert(tol == 2 * half);
    assert(one == hidden * tol);
    assert(one == 2 * hidden * half) by (nonlinear_arith)
        requires
            one == hidden * tol,
            tol == 2 * half,
    ;
    assert(one >= 2 * tol) by (nonlinear_arith)
        requires
            one == hidden * tol,
            hidden >= 2,
            tol > 0,
    ;
    assert(s * p >= 0) by (nonlinear_arith)
        requires
            s >= 0,
            p > 0,
    ;
    if !is_finite(bits) {
        assert(exponent_field(ONE) == 1023 && exponent_field(BELOW_ONE) == 1022);
    } else if bits >= SIGN {
        assert(distance(scaled_value(bits), one) >= one);
    } else if e >= 1024 {
        if e > 1024 {
            lemma_pow2_strictly_increases(1024, e);
        }
        assert(pow2(1024) == 2 * tol);
        assert(s * p >= 2 * one) by (nonlinear_arith)
            requires
                s >= hidden,
                p >= 2 * tol,
                one == hidden * tol,
                tol > 0,
                hidden > 0,
        ;
    } else if e <= 1021 {
        if e < 1021 {
            lemma_pow2_strictly_increases(e, 1021);
        }
        let low = pow2(1021) as int;
        assert(half == 2 * low);
        assert(2 * (s * p) < one) by (nonlinear_arith)
            requires
                0 <= s < 2 * hidden,
                0 < p <= low,
                half == 2 * low,
                one == 2 * hidden * half,
        ;
    } else if e == 1023 {
        assert(s == hidden + f);
        assert(s * p - one == f * tol) by (nonlinear_arith)
            requires
                s == hidden + f,
                p == tol,
                one == hidden * tol,
        ;
        assert(f * tol < tol <==> f == 0) by (nonlinear_arith)
            requires
                f >= 0,
                tol > 0,
        ;
        assert(bits == ONE <==> f == 0);
    } else {
        assert(e == 1022);
        assert(s == hidden + f);
        let gap = 2 * hidden - s;
        assert(one - s * p == gap * half) by (nonlinear_arith)
            requires
                gap == 2 * hidden - s,
                p == half,
                one == 2 * hidden * half,
        ;
        assert(gap * half < 2 * half <==> gap < 2) by (nonlinear_arith)
            requires
                gap > 0,
                half > 0,
        ;
        assert(gap * half > 0) by (nonlinear_arith)
            requires
                gap > 0,
                half > 0,
        ;
        assert(bits == BELOW_ONE <==> f == hidden - 1);
    }
}

} // verus!
