//! The four arithmetic operators, by value and in place.
use vstd::prelude::*;
use crate::bits::{is_zero, is_zero_spec, near_one, near_one_spec, ZERO};
use crate::outcome::{infix_number_first, infix_number_last, realizes, Outcome, Shape};
use crate::text::{infix, negated, write_infix, write_negated};
use crate::value::{CalculatorFloat, Scalar};

verus! {

/// The plus sign between two operands.
pub open spec fn plus() -> Seq<char> {
    seq![' ', '+', ' ']
}

/// The minus sign between two operands.
pub open spec fn minus() -> Seq<char> {
    seq![' ', '-', ' ']
}

/// The multiplication sign between two operands.
pub open spec fn times() -> Seq<char> {
    seq![' ', '*', ' ']
}

/// The division sign between two operands.
pub open spec fn over() -> Seq<char> {
    seq![' ', '/', ' ']
}

/// The power sign between two operands.
pub open spec fn caret() -> Seq<char> {
    seq![' ', '^', ' ']
}

/// What addition decides for `lhs + rhs`.
///
/// Two numbers are added in floating point. A zero beside a symbolic operand
/// is dropped, which leaves that operand. Every other pair with a symbolic
/// side is written out around the plus sign, in the order of the operands.
pub open spec fn add_spec(lhs: Scalar, rhs: Scalar) -> Outcome {
    match lhs {
        Scalar::Float(x) => match rhs {
            Scalar::Float(y) => Outcome::Computed(x, y),
            Scalar::Str(t) => if is_zero_spec(x) {
                Outcome::Known(Scalar::Str(t))
            } else {
                Outcome::NumberFirst(x, Shape::Infix(plus()), t)
            },
        },
        Scalar::Str(s) => match rhs {
            Scalar::Float(y) => if is_zero_spec(y) {
                Outcome::Known(Scalar::Str(s))
            } else {
                Outcome::NumberLast(s, Shape::Infix(plus()), y)
            },
            Scalar::Str(t) => Outcome::Known(Scalar::Str(infix(s, plus(), t))),
        },
    }
}

/// What subtraction decides for `lhs - rhs`.
///
/// Two numbers are subtracted in floating point. Zero minus a symbolic operand
/// is that operand negated, and a symbolic operand minus zero is itself. Every
/// other pair with a symbolic side is written out around the minus sign.
pub open spec fn sub_spec(lhs: Scalar, rhs: Scalar) -> Outcome {
    match lhs {
        Scalar::Float(x) => match rhs {
            Scalar::Float(y) => Outcome::Computed(x, y),
            Scalar::Str(t) => if is_zero_spec(x) {
                Outcome::Known(Scalar::Str(negated(t)))
            } else {
                Outcome::NumberFirst(x, Shape::Infix(minus()), t)
            },
        },
        Scalar::Str(s) => match rhs {
            Scalar::Float(y) => if is_zero_spec(y) {
                Outcome::Known(Scalar::Str(s))
            } else {
                Outcome::NumberLast(s, Shape::Infix(minus()), y)
            },
            Scalar::Str(t) => Outcome::Known(Scalar::Str(infix(s, minus(), t))),
        },
    }
}

/// What a number `factor` makes of the symbolic operand `text` that it
/// multiplies: zero absorbs it and one leaves it; `None` where the product has
/// to be written out.
pub open spec fn scaled(factor: u64, text: Seq<char>) -> Option<Scalar> {
    if is_zero_spec(factor) {
        Some(Scalar::Float(ZERO))
    } else if near_one_spec(factor) {
        Some(Scalar::Str(text))
    } else {
        None
    }
}

/// What multiplication decides for `lhs * rhs`.
///
/// Two numbers are multiplied in floating point. A symbolic operand times zero
/// is the number zero, and times a number that is one within the tolerance it
/// is itself, on either side. Every other pair with a symbolic side is written
/// out around the multiplication sign.
pub open spec fn mul_spec(lhs: Scalar, rhs: Scalar) -> Outcome {
    match lhs {
        Scalar::Float(x) => match rhs {
            Scalar::Float(y) => Outcome::Computed(x, y),
            Scalar::Str(t) => match scaled(x, t) {
                Some(value) => Outcome::Known(value),
                None => Outcome::NumberFirst(x, Shape::Infix(times()), t),
            },
        },
        Scalar::Str(s) => match rhs {
            Scalar::Float(y) => match scaled(y, s) {
                Some(value) => Outcome::Known(value),
                None => Outcome::NumberLast(s, Shape::Infix(times()), y),
            },
            Scalar::Str(t) => Outcome::Known(Scalar::Str(infix(s, times(), t))),
        },
    }
}

/// Whether `rhs` is a number that compares equal to zero: the one divisor that
/// division refuses.
pub open spec fn is_zero_divisor(rhs: Scalar) -> bool {
    match rhs {
        Scalar::Float(y) => is_zero_spec(y),
        Scalar::Str(_) => false,
    }
}

/// What division decides for `lhs / rhs`.
///
/// Two numbers are divided in floating point. A zero dividend over a symbolic
/// divisor is zero, and a symbolic dividend over a divisor that is one within
/// the tolerance is itself. Every other pair with a symbolic side is written
/// out around the division sign. Nothing is said of a divisor that is a number
/// equal to zero: division refuses it.
pub open spec fn div_spec(lhs: Scalar, rhs: Scalar) -> Outcome
    recommends
        !is_zero_divisor(rhs),
{
    match lhs {
        Scalar::Float(x) => match rhs {
            Scalar::Float(y) => Outcome::Computed(x, y),
            Scalar::Str(t) => if is_zero_spec(x) {
                Outcome::Known(Scalar::Float(ZERO))
            } else {
                Outcome::NumberFirst(x, Shape::Infix(over()), t)
            },
        },
        Scalar::Str(s) => match rhs {
            Scalar::Float(y) => if near_one_spec(y) {
                Outcome::Known(Scalar::Str(s))
            } else {
                Outcome::NumberLast(s, Shape::Infix(over()), y)
            },
            Scalar::Str(t) => Outcome::Known(Scalar::Str(infix(s, over(), t))),
        },
    }
}

impl CalculatorFloat {
    /// Whether dividing by this scalar is refused: it is a number that compares
    /// equal to zero.
    pub fn is_zero_divisor(&self) -> (res: bool)
        ensures
            res == is_zero_divisor(self@),
    {
        match self {
            CalculatorFloat::Float(y) => is_zero(*y),
            CalculatorFloat::Str(_) => false,
        }
    }

    /// `self + other`. Two numbers are added by `float_add`; a number beside a
    /// symbolic operand is written as `render` gives it.
    pub fn add<F: Fn(u64, u64) -> u64, R: Fn(u64) -> String>(
        self,
        other: CalculatorFloat,
        float_add: F,
        render: R,
    ) -> (res: CalculatorFloat)
        requires
            forall|x: u64, y: u64| float_add.requires((x, y)),
            forall|x: u64| render.requires((x,)),
        ensures
            realizes(add_spec(self@, other@), float_add, render, res@),
    {
        proof {
            reveal_strlit(" + ");
            assert(" + "@ =~= plus());
        }
        match self {
            CalculatorFloat::Float(x) => match other {
                CalculatorFloat::Float(y) => CalculatorFloat::Float(float_add(x, y)),
                CalculatorFloat::Str(t) => {
                    if is_zero(x) {
                        CalculatorFloat::Str(t)
                    } else {
                        infix_number_first(x, " + ", t.as_str(), render)
                    }
                },
            },
            CalculatorFloat::Str(s) => match other {
                CalculatorFloat::Float(y) => {
                    if is_zero(y) {
                        CalculatorFloat::Str(s)
                    } else {
                        infix_number_last(s.as_str(), " + ", y, render)
                    }
                },
                CalculatorFloat::Str(t) => CalculatorFloat::Str(
                    write_infix(s.as_str(), " + ", t.as_str()),
                ),
            },
        }
    }

    /// `self - other`. Two numbers are subtracted by `float_sub`; a number
    /// beside a symbolic operand is written as `render` gives it.
    pub fn sub<F: Fn(u64, u64) -> u64, R: Fn(u64) -> String>(
        self,
        other: CalculatorFloat,
        float_sub: F,
        render: R,
    ) -> (res: CalculatorFloat)
        requires
            forall|x: u64, y: u64| float_sub.requires((x, y)),
            forall|x: u64| render.requires((x,)),
        ensures
            realizes(sub_spec(self@, other@), float_sub, render, res@),
    {
        proof {
            reveal_strlit(" - ");
            assert(" - "@ =~= minus());
        }
        match self {
            CalculatorFloat::Float(x) => match other {
                CalculatorFloat::Float(y) => CalculatorFloat::Float(float_sub(x, y)),
                CalculatorFloat::Str(t) => {
                    if is_zero(x) {
                        CalculatorFloat::Str(write_negated(t.as_str()))
                    } else {
                        infix_number_first(x, " - ", t.as_str(), render)
                    }
                },
            },
            CalculatorFloat::Str(s) => match other {
                CalculatorFloat::Float(y) => {
                    if is_zero(y) {
                        CalculatorFloat::Str(s)
                    } else {
                        infix_number_last(s.as_str(), " - ", y, render)
                    }
                },
                CalculatorFloat::Str(t) => CalculatorFloat::Str(
                    write_infix(s.as_str(), " - ", t.as_str()),
                ),
            },
        }
    }

    /// `self * other`. Two numbers are multiplied by `float_mul`; a number
    /// beside a symbolic operand is written as `render` gives it.
    pub fn mul<F: Fn(u64, u64) -> u64, R: Fn(u64) -> String>(
        self,
        other: CalculatorFloat,
        float_mul: F,
        render: R,
    ) -> (res: CalculatorFloat)
        requires
            forall|x: u64, y: u64| float_mul.requires((x, y)),
            forall|x: u64| render.requires((x,)),
        ensures
            realizes(mul_spec(self@, other@), float_mul, render, res@),
    {
        proof {
            reveal_strlit(" * ");
            assert(" * "@ =~= times());
        }
        match self {
            CalculatorFloat::Float(x) => match other {
                CalculatorFloat::Float(y) => CalculatorFloat::Float(float_mul(x, y)),
                CalculatorFloat::Str(t) => {
                    if is_zero(x) {
                        CalculatorFloat::Float(ZERO)
                    } else if near_one(x) {
                        CalculatorFloat::Str(t)
                    } else {
                        infix_number_first(x, " * ", t.as_str(), render)
                    }
                },
            },
            CalculatorFloat::Str(s) => match other {
                CalculatorFloat::Float(y) => {
                    if is_zero(y) {
                        CalculatorFloat::Float(ZERO)
                    } else if near_one(y) {
                        CalculatorFloat::Str(s)
                    } else {
                        infix_number_last(s.as_str(), " * ", y, render)
                    }
                },
                CalculatorFloat::Str(t) => CalculatorFloat::Str(
                    write_infix(s.as_str(), " * ", t.as_str()),
                ),
            },
        }
    }

    /// `self / other`. Two numbers are divided by `float_div`; a number beside
    /// a symbolic operand is written as `render` gives it. The divisor must not
    /// be a number equal to zero.
    pub fn div<F: Fn(u64, u64) -> u64, R: Fn(u64) -> String>(
        self,
        other: CalculatorFloat,
        float_div: F,
        render: R,
    ) -> (res: CalculatorFloat)
        requires
            !is_zero_divisor(other@),
            forall|x: u64, y: u64| float_div.requires((x, y)),
            forall|x: u64| render.requires((x,)),
        ensures
            realizes(div_spec(self@, other@), float_div, render, res@),
    {
        proof {
            reveal_strlit(" / ");
            assert(" / "@ =~= over());
        }
        match self {
            CalculatorFloat::Float(x) => match other {
                CalculatorFloat::Float(y) => CalculatorFloat::Float(float_div(x, y)),
                CalculatorFloat::Str(t) => {
                    if is_zero(x) {
                        CalculatorFloat::Float(ZERO)
                    } else {
                        infix_number_first(x, " / ", t.as_str(), render)
                    }
                },
            },
            CalculatorFloat::Str(s) => match other {
                CalculatorFloat::Float(y) => {
                    if near_one(y) {
                        CalculatorFloat::Str(s)
                    } else {
                        infix_number_last(s.as_str(), " / ", y, render)
                    }
                },
                CalculatorFloat::Str(t) => CalculatorFloat::Str(
                    write_infix(s.as_str(), " / ", t.as_str()),
                ),
            },
        }
    }

    /// `self + other` for a borrowed left operand, which is copied.
    pub fn add_ref<F: Fn(u64, u64) -> u64, R: Fn(u64) -> String>(
        &self,
        other: CalculatorFloat,
        float_add: F,
        render: R,
    ) -> (res: CalculatorFloat)
        requires
            forall|x: u64, y: u64| float_add.requires((x, y)),
            forall|x: u64| render.requires((x,)),
        ensures
            realizes(add_spec(self@, other@), float_add, render, res@),
    {
        self.clone().add(other, float_add, render)
    }

    /// `self += other`: the scalar becomes what `add` gives for its old value.
    pub fn add_assign<F: Fn(u64, u64) -> u64, R: Fn(u64) -> String>(
        &mut self,
        other: CalculatorFloat,
        float_add: F,
        render: R,
    )
        requires
            forall|x: u64, y: u64| float_add.requires((x, y)),
            forall|x: u64| render.requires((x,)),
        ensures
            realizes(add_spec(old(self)@, other@), float_add, render, final(self)@),
    {
        let lhs = self.clone();
        *self = lhs.add(other, float_add, render);
    }

    /// `self -= other`: the scalar becomes what `sub` gives for its old value.
    pub fn sub_assign<F: Fn(u64, u64) -> u64, R: Fn(u64) -> String>(
        &mut self,
        other: CalculatorFloat,
        float_sub: F,
        render: R,
    )
        requires
            forall|x: u64, y: u64| float_sub.requires((x, y)),
            forall|x: u64| render.requires((x,)),
        ensures
            realizes(sub_spec(old(self)@, other@), float_sub, render, final(self)@),
    {
        let lhs = self.clone();
        *self = lhs.sub(other, float_sub, render);
    }

    /// `self *= other`: the scalar becomes what `mul` gives for its old value.
    pub fn mul_assign<F: Fn(u64, u64) -> u64, R: Fn(u64) -> String>(
        &mut self,
        other: CalculatorFloat,
        float_mul: F,
        render: R,
    )
        requires
            forall|x: u64, y: u64| float_mul.requires((x, y)),
            forall|x: u64| render.requires((x,)),
        ensures
            realizes(mul_spec(old(self)@, other@), float_mul, render, final(self)@),
    {
        let lhs = self.clone();
        *self = lhs.mul(other, float_mul, render);
    }

    /// `self /= other`: the scalar becomes what `div` gives for its old value.
    /// The divisor must not be a number equal to zero.
    pub fn div_assign<F: Fn(u64, u64) -> u64, R: Fn(u64) -> String>(
        &mut self,
        other: CalculatorFloat,
        float_div: F,
        render: R,
    )
        requires
            !is_zero_divisor(other@),
            forall|x: u64, y: u64| float_div.requires((x, y)),
            forall|x: u64| render.requires((x,)),
        ensures
            realizes(div_spec(old(self)@, other@), float_div, render, final(self)@),
    {
        let lhs = self.clone();
        *self = lhs.div(other, float_div, render);
    }
}

} // verus!
