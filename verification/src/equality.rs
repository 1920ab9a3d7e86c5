//! Strict equality: the same variant with the same payload.
//!
//! Two numbers are equal where their bits are, so a NaN equals itself and the
//! two zeros differ. No tolerance enters here; for that see `isclose`.
use vstd::prelude::*;
use crate::error::CalculatorError;
use crate::token::Token;
use crate::value::CalculatorFloat;

verus! {

impl PartialEq for CalculatorFloat {
    fn eq(&self, other: &Self) -> (res: bool) {
        match self {
            CalculatorFloat::Float(x) => match other {
                CalculatorFloat::Float(y) => *x == *y,
                CalculatorFloat::Str(_) => false,
            },
            CalculatorFloat::Str(s) => match other {
                CalculatorFloat::Float(_) => false,
                CalculatorFloat::Str(t) => *s == *t,
            },
        }
    }
}

impl vstd::std_specs::cmp::PartialEqSpecImpl for CalculatorFloat {
    open spec fn obeys_eq_spec() -> bool {
        true
    }

    open spec fn eq_spec(&self, other: &Self) -> bool {
        self@ == other@
    }
}

impl PartialEq for CalculatorError {
    fn eq(&self, other: &Self) -> (res: bool) {
        match self {
            CalculatorError::FloatSymbolicNotConvertable { val: s } => match other {
                CalculatorError::FloatSymbolicNotConvertable { val: t } => *s == *t,
            },
        }
    }
}

impl vstd::std_specs::cmp::PartialEqSpecImpl for CalculatorError {
    open spec fn obeys_eq_spec() -> bool {
        true
    }

    open spec fn eq_spec(&self, other: &Self) -> bool {
        self.offending_text() == other.offending_text()
    }
}

impl PartialEq for Token {
    fn eq(&self, other: &Self) -> (res: bool) {
        match self {
            Token::F64(x) => match other {
                Token::F64(y) => *x == *y,
                _ => false,
            },
            Token::I32(x) => match other {
                Token::I32(y) => *x == *y,
                _ => false,
            },
            Token::U32(x) => match other {
                Token::U32(y) => *x == *y,
                _ => false,
            },
            Token::Str(s) => match other {
                Token::Str(t) => *s == *t,
                _ => false,
            },
            Token::Other => match other {
                Token::Other => true,
                _ => false,
            },
        }
    }
}

impl vstd::std_specs::cmp::PartialEqSpecImpl for Token {
    open spec fn obeys_eq_spec() -> bool {
        true
    }

    open spec fn eq_spec(&self, other: &Self) -> bool {
        self@ == other@
    }
}

} // verus!
