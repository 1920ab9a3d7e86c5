//! The one recoverable failure.
use vstd::prelude::*;

verus! {

/// Why a scalar could not be turned into a number.
#[derive(Debug)]
pub enum CalculatorError {
    /// The scalar is symbolic; `val` is its text.
    FloatSymbolicNotConvertable { val: String },
}

impl CalculatorError {
    /// The text of the symbolic value that was refused.
    pub open spec fn offending_text(&self) -> Seq<char> {
        match self {
            CalculatorError::FloatSymbolicNotConvertable { val } => val@,
        }
    }
}

} // verus!
