//! The text of symbolic expressions: how operands are joined and wrapped.
use vstd::prelude::*;
use vstd::string::StringExecFns;

verus! {

/// `(lhs op rhs)`: two operands joined by an operator and enclosed in
/// parentheses. The operator carries its own spacing.
pub open spec fn infix(lhs: Seq<char>, op: Seq<char>, rhs: Seq<char>) -> Seq<char> {
    seq!['('] + lhs + op + rhs + seq![')']
}

/// `name(arg)`: a function applied to one argument.
pub open spec fn call(name: Seq<char>, arg: Seq<char>) -> Seq<char> {
    name + seq!['('] + arg + seq![')']
}

/// `name(first, second)`: a function applied to two arguments.
pub open spec fn call2(name: Seq<char>, first: Seq<char>, second: Seq<char>) -> Seq<char> {
    name + seq!['('] + first + seq![',', ' '] + second + seq![')']
}

/// `(-arg)`: the negation of an expression.
pub open spec fn negated(arg: Seq<char>) -> Seq<char> {
    seq!['(', '-'] + arg + seq![')']
}

/// `(1 / arg)`: the reciprocal of an expression.
pub open spec fn reciprocal(arg: Seq<char>) -> Seq<char> {
    seq!['(', '1', ' ', '/', ' '] + arg + seq![')']
}

/// Builds `(lhs op rhs)`.
pub fn write_infix(lhs: &str, op: &str, rhs: &str) -> (out: String)
    ensures
        out@ == infix(lhs@, op@, rhs@),
{
    let mut out = String::from_str("(");
    out.append(lhs);
    out.append(op);
    out.append(rhs);
    out.append(")");
    proof {
        reveal_strlit("(");
        reveal_strlit(")");
        assert("("@ =~= seq!['(']);
        assert(")"@ =~= seq![')']);
    }
    out
}

/// Builds `name(arg)`.
pub fn write_call(name: &str, arg: &str) -> (out: String)
    ensures
        out@ == call(name@, arg@),
{
    let mut out = String::from_str(name);
    out.append("(");
    out.append(arg);
    out.append(")");
    proof {
        reveal_strlit("(");
        reveal_strlit(")");
        assert("("@ =~= seq!['(']);
        assert(")"@ =~= seq![')']);
    }
    out
}

/// Builds `name(first, second)`.
pub fn write_call2(name: &str, first: &str, second: &str) -> (out: String)
    ensures
        out@ == call2(name@, first@, second@),
{
    let mut out = String::from_str(name);
    out.append("(");
    out.append(first);
    out.append(", ");
    out.append(second);
    out.append(")");
    proof {
        reveal_strlit("(");
        reveal_strlit(", ");
        reveal_strlit(")");
        assert("("@ =~= seq!['(']);
        assert(", "@ =~= seq![',', ' ']);
        assert(")"@ =~= seq![')']);
    }
    out
}

/// Builds `(-arg)`.
pub fn write_negated(arg: &str) -> (out: String)
    ensures
        out@ == negated(arg@),
{
    let mut out = String::from_str("(-");
    out.append(arg);
    out.append(")");
    proof {
        reveal_strlit("(-");
        reveal_strlit(")");
        assert("(-"@ =~= seq!['(', '-']);
        assert(")"@ =~= seq![')']);
    }
    out
}

/// Builds `(1 / arg)`.
pub fn write_reciprocal(arg: &str) -> (out: String)
    ensures
        out@ == reciprocal(arg@),
{
    let mut out = String::from_str("(1 / ");
    out.append(arg);
    out.append(")");
    proof {
        reveal_strlit("(1 / ");
        reveal_strlit(")");
        assert("(1 / "@ =~= seq!['(', '1', ' ', '/', ' ']);
        assert(")"@ =~= seq![')']);
    }
    out
}

} // verus!
