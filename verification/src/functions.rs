//! Negation, the elementary functions, powers and approximate equality.
use vstd::prelude::*;
use crate::arith::caret;
use crate::bits::{magnitude, magnitude_spec, negate, negate_spec};
use crate::outcome::{
    call_number_first,
    call_number_last,
    infix_number_first,
    infix_number_last,
    realizes,
    rendered,
    Outcome,
    Shape,
};
use crate::text::{call, negated, reciprocal};
use crate::text::{write_call, write_call2, write_infix, write_negated, write_reciprocal};
use crate::value::{CalculatorFloat, Scalar};

verus! {

/// `res` is what a function makes of `arg`: for a number, a number that
/// `float_fn` gives for it, and for a symbolic expression, the function's
/// name applied to it.
pub open spec fn applied<F: Fn(u64) -> u64>(
    float_fn: F,
    name: Seq<char>,
    arg: Scalar,
    res: Scalar,
) -> bool {
    match arg {
        Scalar::Float(x) => res is Float && float_fn.ensures((x,), res->Float_0),
        Scalar::Str(text) => res == Scalar::Str(call(name, text)),
    }
}

/// The negation of a scalar: the number with its sign flipped, or the
/// expression with a minus sign in parentheses.
pub open spec fn neg_spec(arg: Scalar) -> Scalar {
    match arg {
        Scalar::Float(x) => Scalar::Float(negate_spec(x)),
        Scalar::Str(text) => Scalar::Str(negated(text)),
    }
}

/// The absolute value of a scalar: the number without its sign, or `abs`
/// applied to the expression.
pub open spec fn abs_spec(arg: Scalar) -> Scalar {
    match arg {
        Scalar::Float(x) => Scalar::Float(magnitude_spec(x)),
        Scalar::Str(text) => Scalar::Str(call("abs"@, text)),
    }
}

/// What a binary operation without identities decides: two numbers are
/// computed, and any pair with a symbolic side is written out in `shape`.
pub open spec fn plain_spec(lhs: Scalar, shape: Shape, rhs: Scalar) -> Outcome {
    match lhs {
        Scalar::Float(x) => match rhs {
            Scalar::Float(y) => Outcome::Computed(x, y),
            Scalar::Str(t) => Outcome::NumberFirst(x, shape, t),
        },
        Scalar::Str(s) => match rhs {
            Scalar::Float(y) => Outcome::NumberLast(s, shape, y),
            Scalar::Str(t) => Outcome::Known(Scalar::Str(shape.write(s, t))),
        },
    }
}

/// What the two-argument arctangent decides: `atan2(lhs, rhs)`.
pub open spec fn atan2_spec(lhs: Scalar, rhs: Scalar) -> Outcome {
    plain_spec(lhs, Shape::Call("atan2"@), rhs)
}

/// What raising to a power decides: `(lhs ^ rhs)`.
pub open spec fn powf_spec(lhs: Scalar, rhs: Scalar) -> Outcome {
    plain_spec(lhs, Shape::Infix(caret()), rhs)
}

/// What approximate equality decides for a pair of operands.
pub ghost enum Comparison {
    /// Two numbers: the floating-point comparison within the tolerances
    /// decides, with the right operand as the one that scales the tolerance.
    Computed(u64, u64),
    /// A number and a symbolic expression: they are close where the number's
    /// rendering is the expression's text.
    Shown(u64, Seq<char>),
    /// Two symbolic expressions: this is the answer.
    Known(bool),
}

/// What approximate equality decides for `lhs` and `rhs`.
pub open spec fn isclose_spec(lhs: Scalar, rhs: Scalar) -> Comparison {
    match lhs {
        Scalar::Float(x) => match rhs {
            Scalar::Float(y) => Comparison::Computed(x, y),
            Scalar::Str(t) => Comparison::Shown(x, t),
        },
        Scalar::Str(s) => match rhs {
            Scalar::Float(y) => Comparison::Shown(y, s),
            Scalar::Str(t) => Comparison::Known(s == t),
        },
    }
}

/// `res` says whether a rendering of the number `x` is the text.
pub open spec fn shown_is<R: Fn(u64) -> String>(
    render: R,
    x: u64,
    text: Seq<char>,
    res: bool,
) -> bool {
    exists|shown: String| #[trigger] rendered(render, x, shown) && res == (shown@ == text)
}

/// `res` is an answer that `comparison` admits, with `float_close` as the
/// comparison of two numbers and `render` as the rendering.
pub open spec fn answers<C: Fn(u64, u64) -> bool, R: Fn(u64) -> String>(
    comparison: Comparison,
    float_close: C,
    render: R,
    res: bool,
) -> bool {
    match comparison {
        Comparison::Computed(x, y) => float_close.ensures((x, y), res),
        Comparison::Shown(x, text) => shown_is(render, x, text, res),
        Comparison::Known(answer) => res == answer,
    }
}

impl CalculatorFloat {
    /// A function of one argument: `float_fn` for a number, `name(..)` around
    /// a symbolic expression.
    fn apply<F: Fn(u64) -> u64>(&self, name: &str, float_fn: F) -> (res: CalculatorFloat)
        requires
            forall|x: u64| float_fn.requires((x,)),
        ensures
            applied(float_fn, name@, self@, res@),
    {
        match self {
            CalculatorFloat::Float(x) => CalculatorFloat::Float(float_fn(*x)),
            CalculatorFloat::Str(text) => CalculatorFloat::Str(write_call(name, text.as_str())),
        }
    }

    /// The square root: `float_sqrt` of a number, `sqrt(..)` of an expression.
    pub fn sqrt<F: Fn(u64) -> u64>(&self, float_sqrt: F) -> (res: CalculatorFloat)
        requires
            forall|x: u64| float_sqrt.requires((x,)),
        ensures
            applied(float_sqrt, "sqrt"@, self@, res@),
    {
        self.apply("sqrt", float_sqrt)
    }

    /// The exponential: `float_exp` of a number, `exp(..)` of an expression.
    pub fn exp<F: Fn(u64) -> u64>(&self, float_exp: F) -> (res: CalculatorFloat)
        requires
            forall|x: u64| float_exp.requires((x,)),
        ensures
            applied(float_exp, "exp"@, self@, res@),
    {
        self.apply("exp", float_exp)
    }

    /// The sine: `float_sin` of a number, `sin(..)` of an expression.
    pub fn sin<F: Fn(u64) -> u64>(&self, float_sin: F) -> (res: CalculatorFloat)
        requires
            forall|x: u64| float_sin.requires((x,)),
        ensures
            applied(float_sin, "sin"@, self@, res@),
    {
        self.apply("sin", float_sin)
    }

    /// The cosine: `float_cos` of a number, `cos(..)` of an expression.
    pub fn cos<F: Fn(u64) -> u64>(&self, float_cos: F) -> (res: CalculatorFloat)
        requires
            forall|x: u64| float_cos.requires((x,)),
        ensures
            applied(float_cos, "cos"@, self@, res@),
    {
        self.apply("cos", float_cos)
    }

    /// The arccosine: `float_acos` of a number, `acos(..)` of an expression.
    pub fn acos<F: Fn(u64) -> u64>(&self, float_acos: F) -> (res: CalculatorFloat)
        requires
            forall|x: u64| float_acos.requires((x,)),
        ensures
            applied(float_acos, "acos"@, self@, res@),
    {
        self.apply("acos", float_acos)
    }

    /// The sign: `float_signum` of a number, `sign(..)` of an expression.
    pub fn signum<F: Fn(u64) -> u64>(&self, float_signum: F) -> (res: CalculatorFloat)
        requires
            forall|x: u64| float_signum.requires((x,)),
        ensures
            applied(float_signum, "sign"@, self@, res@),
    {
        self.apply("sign", float_signum)
    }

    /// The absolute value: a number loses its sign, an expression is wrapped
    /// as `abs(..)`.
    pub fn abs(&self) -> (res: CalculatorFloat)
        ensures
            res@ == abs_spec(self@),
    {
        match self {
            CalculatorFloat::Float(x) => CalculatorFloat::Float(magnitude(*x)),
            CalculatorFloat::Str(text) => CalculatorFloat::Str(write_call("abs", text.as_str())),
        }
    }

    /// The negation: a number changes its sign, an expression is wrapped as
    /// `(-..)`.
    pub fn neg(self) -> (res: CalculatorFloat)
        ensures
            res@ == neg_spec(self@),
    {
        match self {
            CalculatorFloat::Float(x) => CalculatorFloat::Float(negate(x)),
            CalculatorFloat::Str(text) => CalculatorFloat::Str(write_negated(text.as_str())),
        }
    }

    /// The reciprocal: `float_recip` of a number, `(1 / ..)` around an
    /// expression.
    pub fn recip<F: Fn(u64) -> u64>(&self, float_recip: F) -> (res: CalculatorFloat)
        requires
            forall|x: u64| float_recip.requires((x,)),
        ensures
            match self@ {
                Scalar::Float(x) => res@ is Float && float_recip.ensures((x,), res@->Float_0),
                Scalar::Str(text) => res@ == Scalar::Str(reciprocal(text)),
            },
    {
        match self {
            CalculatorFloat::Float(x) => CalculatorFloat::Float(float_recip(*x)),
            CalculatorFloat::Str(text) => CalculatorFloat::Str(write_reciprocal(text.as_str())),
        }
    }

    /// The arctangent of `self / other` by quadrant. Two numbers go to
    /// `float_atan2`; with a symbolic side the result is `atan2(.., ..)`, a
    /// number in it written as `render` gives it.
    pub fn atan2<F: Fn(u64, u64) -> u64, R: Fn(u64) -> String>(
        &self,
        other: CalculatorFloat,
        float_atan2: F,
        render: R,
    ) -> (res: CalculatorFloat)
        requires
            forall|x: u64, y: u64| float_atan2.requires((x, y)),
            forall|x: u64| render.requires((x,)),
        ensures
            realizes(atan2_spec(self@, other@), float_atan2, render, res@),
    {
        match self {
            CalculatorFloat::Float(x) => match other {
                CalculatorFloat::Float(y) => CalculatorFloat::Float(float_atan2(*x, y)),
                CalculatorFloat::Str(t) => call_number_first("atan2", *x, t.as_str(), render),
            },
            CalculatorFloat::Str(s) => match other {
                CalculatorFloat::Float(y) => call_number_last("atan2", s.as_str(), y, render),
                CalculatorFloat::Str(t) => CalculatorFloat::Str(
                    write_call2("atan2", s.as_str(), t.as_str()),
                ),
            },
        }
    }

    /// `self` to the power `other`. Two numbers go to `float_powf`; with a
    /// symbolic side the result is `(.. ^ ..)`, a number in it written as
    /// `render` gives it.
    pub fn powf<F: Fn(u64, u64) -> u64, R: Fn(u64) -> String>(
        &self,
        other: CalculatorFloat,
        float_powf: F,
        render: R,
    ) -> (res: CalculatorFloat)
        requires
            forall|x: u64, y: u64| float_powf.requires((x, y)),
            forall|x: u64| render.requires((x,)),
        ensures
            realizes(powf_spec(self@, other@), float_powf, render, res@),
    {
        proof {
            reveal_strlit(" ^ ");
            assert(" ^ "@ =~= caret());
        }
        match self {
            CalculatorFloat::Float(x) => match other {
                CalculatorFloat::Float(y) => CalculatorFloat::Float(float_powf(*x, y)),
                CalculatorFloat::Str(t) => infix_number_first(*x, " ^ ", t.as_str(), render),
            },
            CalculatorFloat::Str(s) => match other {
                CalculatorFloat::Float(y) => infix_number_last(s.as_str(), " ^ ", y, render),
                CalculatorFloat::Str(t) => CalculatorFloat::Str(
                    write_infix(s.as_str(), " ^ ", t.as_str()),
                ),
            },
        }
    }

    /// Whether `self` is close to `other`. Two numbers are compared by
    /// `float_close`; a number and an expression are close where the number,
    /// written as `render` gives it, is the expression's text; two expressions
    /// are close where their texts are the same.
    pub fn isclose<C: Fn(u64, u64) -> bool, R: Fn(u64) -> String>(
        &self,
        other: CalculatorFloat,
        float_close: C,
        render: R,
    ) -> (res: bool)
        requires
            forall|x: u64, y: u64| float_close.requires((x, y)),
            forall|x: u64| render.requires((x,)),
        ensures
            answers(isclose_spec(self@, other@), float_close, render, res),
    {
        match self {
            CalculatorFloat::Float(x) => match other {
                CalculatorFloat::Float(y) => float_close(*x, y),
                CalculatorFloat::Str(t) => {
                    let shown = render(*x);
                    let res = shown == t;
                    assert(rendered(render, *x, shown) && res == (shown@ == t@));
                    res
                },
            },
            CalculatorFloat::Str(s) => match other {
                CalculatorFloat::Float(y) => {
                    let shown = render(y);
                    let res = *s == shown;
                    assert(rendered(render, y, shown) && res == (shown@ == s@));
                    res
                },
                CalculatorFloat::Str(t) => *s == t,
            },
        }
    }
}

} // verus!
