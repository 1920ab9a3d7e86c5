//! What an operation decides, and what it leaves to floating point.
//!
//! The scalar's rules never compute with doubles themselves. An operation
//! takes the floating-point primitive it may need as a function on bit
//! patterns, and a second function that renders a number in scientific
//! notation. What the rules decide for a pair of operands is an `Outcome`;
//! `realizes` says which results the two functions leave possible for it.
use vstd::prelude::*;
use crate::text::{call2, infix, write_call2, write_infix};
use crate::value::{CalculatorFloat, Scalar};

verus! {

/// How two operands are written as one expression.
pub ghost enum Shape {
    /// `(lhs op rhs)`, with the operator and its spacing.
    Infix(Seq<char>),
    /// `name(lhs, rhs)`, with the function's name.
    Call(Seq<char>),
}

impl Shape {
    /// The expression for the operands `lhs` and `rhs`.
    pub open spec fn write(self, lhs: Seq<char>, rhs: Seq<char>) -> Seq<char> {
        match self {
            Shape::Infix(op) => infix(lhs, op, rhs),
            Shape::Call(name) => call2(name, lhs, rhs),
        }
    }
}

/// What the rules decide for a binary operation.
pub ghost enum Outcome {
    /// The result is this value as it stands.
    Known(Scalar),
    /// Both operands are numbers: the result is the number that the
    /// floating-point primitive gives for them, in this order.
    Computed(u64, u64),
    /// The left operand is a number and the right one symbolic: the result is
    /// the expression with the number's rendering on the left.
    NumberFirst(u64, Shape, Seq<char>),
    /// The left operand is symbolic and the right one a number: the result is
    /// the expression with the number's rendering on the right.
    NumberLast(Seq<char>, Shape, u64),
}

/// `shown` is a rendering that `render` gives for the number `bits`.
pub open spec fn rendered<R: Fn(u64) -> String>(render: R, bits: u64, shown: String) -> bool {
    render.ensures((bits,), shown)
}

/// `res` is the expression that `shape` writes with a rendering of the number
/// `x` on the left and the text `rhs` on the right.
pub open spec fn written_first<R: Fn(u64) -> String>(
    render: R,
    x: u64,
    shape: Shape,
    rhs: Seq<char>,
    res: Scalar,
) -> bool {
    exists|shown: String| #[trigger]
        rendered(render, x, shown) && res == Scalar::Str(shape.write(shown@, rhs))
}

/// `res` is the expression that `shape` writes with the text `lhs` on the left
/// and a rendering of the number `y` on the right.
pub open spec fn written_last<R: Fn(u64) -> String>(
    render: R,
    lhs: Seq<char>,
    shape: Shape,
    y: u64,
    res: Scalar,
) -> bool {
    exists|shown: String| #[trigger]
        rendered(render, y, shown) && res == Scalar::Str(shape.write(lhs, shown@))
}

/// `res` is a result that `outcome` admits, with `float_op` as the primitive
/// and `render` as the rendering.
pub open spec fn realizes<F: Fn(u64, u64) -> u64, R: Fn(u64) -> String>(
    outcome: Outcome,
    float_op: F,
    render: R,
    res: Scalar,
) -> bool {
    match outcome {
        Outcome::Known(value) => res == value,
        Outcome::Computed(x, y) => res is Float && float_op.ensures((x, y), res->Float_0),
        Outcome::NumberFirst(x, shape, rhs) => written_first(render, x, shape, rhs, res),
        Outcome::NumberLast(lhs, shape, y) => written_last(render, lhs, shape, y, res),
    }
}

/// A known outcome admits its value and no other, whatever the two functions
/// are: they are not asked.
pub proof fn lemma_known_is_result<F: Fn(u64, u64) -> u64, R: Fn(u64) -> String>(
    value: Scalar,
    float_op: F,
    render: R,
    res: Scalar,
)
    ensures
        realizes(Outcome::Known(value), float_op, render, res) <==> res == value,
{
}

/// Where the primitive and the rendering each give one result for an input,
/// an outcome admits one result.
pub proof fn lemma_outcome_is_function<F: Fn(u64, u64) -> u64, R: Fn(u64) -> String>(
    outcome: Outcome,
    float_op: F,
    render: R,
    first: Scalar,
    second: Scalar,
)
    requires
        forall|x: u64, y: u64, a: u64, b: u64|
            float_op.ensures((x, y), a) && float_op.ensures((x, y), b) ==> a == b,
        forall|x: u64, s: String, t: String|
            render.ensures((x,), s) && render.ensures((x,), t) ==> s@ == t@,
        realizes(outcome, float_op, render, first),
        realizes(outcome, float_op, render, second),
    ensures
        first == second,
{
}

/// Writes `(x op rhs)` with the number `x` as `render` gives it.
pub(crate) fn infix_number_first<R: Fn(u64) -> String>(
    x: u64,
    op: &str,
    rhs: &str,
    render: R,
) -> (res: CalculatorFloat)
    requires
        render.requires((x,)),
    ensures
        written_first(render, x, Shape::Infix(op@), rhs@, res@),
{
    let shown = render(x);
    let res = CalculatorFloat::Str(write_infix(shown.as_str(), op, rhs));
    assert(rendered(render, x, shown));
    res
}

/// Writes `(lhs op y)` with the number `y` as `render` gives it.
pub(crate) fn infix_number_last<R: Fn(u64) -> String>(
    lhs: &str,
    op: &str,
    y: u64,
    render: R,
) -> (res: CalculatorFloat)
    requires
        render.requires((y,)),
    ensures
        written_last(render, lhs@, Shape::Infix(op@), y, res@),
{
    let shown = render(y);
    let res = CalculatorFloat::Str(write_infix(lhs, op, shown.as_str()));
    assert(rendered(render, y, shown));
    res
}

/// Writes `name(x, rhs)` with the number `x` as `render` gives it.
pub(crate) fn call_number_first<R: Fn(u64) -> String>(
    name: &str,
    x: u64,
    rhs: &str,
    render: R,
) -> (res: CalculatorFloat)
    requires
        render.requires((x,)),
    ensures
        written_first(render, x, Shape::Call(name@), rhs@, res@),
{
    let shown = render(x);
    let res = CalculatorFloat::Str(write_call2(name, shown.as_str(), rhs));
    assert(rendered(render, x, shown));
    res
}

/// Writes `name(lhs, y)` with the number `y` as `render` gives it.
pub(crate) fn call_number_last<R: Fn(u64) -> String>(
    name: &str,
    lhs: &str,
    y: u64,
    render: R,
) -> (res: CalculatorFloat)
    requires
        render.requires((y,)),
    ensures
        written_last(render, lhs@, Shape::Call(name@), y, res@),
{
    let shown = render(y);
    let res = CalculatorFloat::Str(write_call2(name, lhs, shown.as_str()));
    assert(rendered(render, y, shown));
    res
}

} // verus!
