//! What holds of the operations for every operand.
use vstd::prelude::*;
use crate::arith::{add_spec, div_spec, is_zero_divisor, minus, mul_spec, over, plus, sub_spec, times};
use crate::bits::{is_zero_spec, near_one_spec, ONE, SIGN, ZERO};
use crate::functions::neg_spec;
use crate::outcome::Outcome;
use crate::text::infix;
use crate::token::{read_spec, write_spec};
use crate::value::Scalar;

verus! {

/// Writing a scalar as a token and reading the token gives the scalar back: a
/// number always, bit for bit, and a symbolic expression where its text does
/// not spell a number.
pub proof fn lemma_token_round_trip(value: Scalar, parsed: Option<u64>)
    requires
        value is Str ==> parsed is None,
    ensures
        read_spec(write_spec(value), parsed) == Some(value),
{
}

/// A symbolic expression times a number that is zero is the number zero,
/// whatever the expression and on either side.
pub proof fn lemma_mul_zero_absorbs(text: Seq<char>, zero: u64)
    requires
        is_zero_spec(zero),
    ensures
        mul_spec(Scalar::Str(text), Scalar::Float(zero)) == Outcome::Known(Scalar::Float(ZERO)),
        mul_spec(Scalar::Float(zero), Scalar::Str(text)) == Outcome::Known(Scalar::Float(ZERO)),
{
}

/// A symbolic expression times a number that is one within the tolerance is
/// the expression unchanged, on either side.
pub proof fn lemma_mul_one_keeps(text: Seq<char>, one: u64)
    requires
        near_one_spec(one),
    ensures
        mul_spec(Scalar::Str(text), Scalar::Float(one)) == Outcome::Known(Scalar::Str(text)),
        mul_spec(Scalar::Float(one), Scalar::Str(text)) == Outcome::Known(Scalar::Str(text)),
{
}

/// A symbolic expression plus a number that is zero is the expression
/// unchanged, on either side.
pub proof fn lemma_add_zero_keeps(text: Seq<char>, zero: u64)
    requires
        is_zero_spec(zero),
    ensures
        add_spec(Scalar::Float(zero), Scalar::Str(text)) == Outcome::Known(Scalar::Str(text)),
        add_spec(Scalar::Str(text), Scalar::Float(zero)) == Outcome::Known(Scalar::Str(text)),
{
}

/// A symbolic expression minus zero is the expression unchanged, and zero
/// minus a symbolic expression is its negation.
pub proof fn lemma_sub_zero(text: Seq<char>, zero: u64)
    requires
        is_zero_spec(zero),
    ensures
        sub_spec(Scalar::Str(text), Scalar::Float(zero)) == Outcome::Known(Scalar::Str(text)),
        sub_spec(Scalar::Float(zero), Scalar::Str(text)) == Outcome::Known(
            neg_spec(Scalar::Str(text)),
        ),
{
}

/// Zero over a symbolic expression is the number zero, and a symbolic
/// expression over a number that is one within the tolerance is the
/// expression unchanged.
pub proof fn lemma_div_identities(text: Seq<char>, zero: u64, one: u64)
    requires
        is_zero_spec(zero),
        near_one_spec(one),
    ensures
        div_spec(Scalar::Float(zero), Scalar::Str(text)) == Outcome::Known(Scalar::Float(ZERO)),
        div_spec(Scalar::Str(text), Scalar::Float(one)) == Outcome::Known(Scalar::Str(text)),
{
}

/// Division refuses exactly the numbers that are zero, of either sign. One is
/// no such divisor, and no symbolic expression is, whatever it may stand for.
pub proof fn lemma_refused_divisors(rhs: Scalar)
    ensures
        is_zero_divisor(rhs) <==> rhs == Scalar::Float(ZERO) || rhs == Scalar::Float(SIGN),
        !is_zero_divisor(Scalar::Float(ONE)),
        rhs is Str ==> !is_zero_divisor(rhs),
{
}

/// Two symbolic expressions combine into the expression `(lhs op rhs)`, with
/// no simplification, under each of the four operators.
pub proof fn lemma_symbolic_pairs(lhs: Seq<char>, rhs: Seq<char>)
    ensures
        add_spec(Scalar::Str(lhs), Scalar::Str(rhs)) == Outcome::Known(
            Scalar::Str(infix(lhs, plus(), rhs)),
        ),
        sub_spec(Scalar::Str(lhs), Scalar::Str(rhs)) == Outcome::Known(
            Scalar::Str(infix(lhs, minus(), rhs)),
        ),
        mul_spec(Scalar::Str(lhs), Scalar::Str(rhs)) == Outcome::Known(
            Scalar::Str(infix(lhs, times(), rhs)),
        ),
        div_spec(Scalar::Str(lhs), Scalar::Str(rhs)) == Outcome::Known(
            Scalar::Str(infix(lhs, over(), rhs)),
        ),
{
}

/// The sum of two symbolic expressions, character by character: an opening
/// parenthesis, the left text, a plus sign between two spaces, the right text
/// and a closing parenthesis.
pub proof fn lemma_symbolic_sum_text(lhs: Seq<char>, rhs: Seq<char>)
    ensures
        infix(lhs, plus(), rhs) == seq!['('] + lhs + seq![' ', '+', ' '] + rhs + seq![')'],
        infix(lhs, plus(), rhs).len() == lhs.len() + rhs.len() + 5,
{
}

/// An operation with a symbolic side never computes in floating point, and one
/// on two numbers always does: the outcome is `Computed` exactly for two
/// numbers.
pub proof fn lemma_computed_only_for_numbers(lhs: Scalar, rhs: Scalar)
    ensures
        add_spec(lhs, rhs) is Computed <==> lhs is Float && rhs is Float,
        sub_spec(lhs, rhs) is Computed <==> lhs is Float && rhs is Float,
        mul_spec(lhs, rhs) is Computed <==> lhs is Float && rhs is Float,
        div_spec(lhs, rhs) is Computed <==> lhs is Float && rhs is Float,
{
}

} // verus!
