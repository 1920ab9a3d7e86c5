//! A scalar that is either a concrete double-precision number or a symbolic
//! expression kept as text.
//!
//! Arithmetic on two numbers is floating-point arithmetic. As soon as one
//! operand is symbolic, the result is a new expression that spells the
//! operation out, unless an identity applies: a zero term is dropped, a factor
//! of one is dropped, and a factor of zero makes the product zero.
//!
//! The rules are verified, and they hold a number by the 64 bits of its
//! IEEE 754 encoding. What they need to know of a number (whether it is zero,
//! whether it is one within the tolerance, its negation, the double for an
//! integer) they decide on those bits, and `model` shows that these decisions
//! mean what they say of the number's value. The floating-point arithmetic
//! itself, the parsing of a number and its rendering in scientific notation
//! are the caller's: each operation takes the primitive it may need as a
//! function on bit patterns, and its contract says which results that function
//! leaves possible.
pub mod arith;
pub mod bits;
pub mod equality;
pub mod error;
pub mod functions;
pub mod integer;
pub mod laws;
pub mod model;
pub mod outcome;
pub mod text;
pub mod token;
pub mod value;

pub use crate::error::CalculatorError;
pub use crate::value::CalculatorFloat;
pub use crate::value::Scalar;
