//! The scalar itself, its model and its conversions.
use vstd::prelude::*;
use vstd::string::StringExecFns;
use crate::error::CalculatorError;
use crate::integer::{from_i32, from_u32, int_bits};
use crate::outcome::rendered;

verus! {

/// A scalar that is a concrete number or a symbolic expression.
#[derive(Debug)]
pub enum CalculatorFloat {
    /// A double, held as the bits of its IEEE 754 encoding.
    Float(u64),
    /// A symbolic expression, kept as text and never read.
    Str(String),
}

/// What a scalar is, as the contracts see it.
pub ghost enum Scalar {
    /// A number, by its bits.
    Float(u64),
    /// A symbolic expression, by its characters.
    Str(Seq<char>),
}

impl View for CalculatorFloat {
    type V = Scalar;

    open spec fn view(&self) -> Scalar {
        match self {
            CalculatorFloat::Float(bits) => Scalar::Float(*bits),
            CalculatorFloat::Str(text) => Scalar::Str(text@),
        }
    }
}

/// `parsed` is a reading that `parse` gives for the text: the number that the
/// text spells, or nothing where it spells none.
pub open spec fn parses<P: Fn(&str) -> Option<u64>>(
    parse: P,
    text: Seq<char>,
    parsed: Option<u64>,
) -> bool {
    exists|item: &str| item@ == text && #[trigger] parse.ensures((item,), parsed)
}

/// The scalar for a text that was read as `parsed`: the number, if it spells
/// one, and otherwise the text itself as a symbolic expression.
pub open spec fn from_parsed(text: Seq<char>, parsed: Option<u64>) -> Scalar {
    match parsed {
        Some(bits) => Scalar::Float(bits),
        None => Scalar::Str(text),
    }
}

/// `res` is a scalar that `parse` admits for the text.
pub open spec fn read_from<P: Fn(&str) -> Option<u64>>(
    parse: P,
    text: Seq<char>,
    res: Scalar,
) -> bool {
    exists|parsed: Option<u64>| #[trigger]
        parses(parse, text, parsed) && res == from_parsed(text, parsed)
}

impl Clone for CalculatorFloat {
    /// A deep copy: the same variant with the same payload.
    fn clone(&self) -> (res: Self)
        ensures
            res@ == self@,
    {
        match self {
            CalculatorFloat::Float(bits) => CalculatorFloat::Float(*bits),
            CalculatorFloat::Str(text) => CalculatorFloat::Str(text.clone()),
        }
    }
}

impl CalculatorFloat {
    /// The number equal to a signed integer.
    pub fn from_i32(item: i32) -> (res: Self)
        ensures
            res@ == Scalar::Float(int_bits(item as int)),
    {
        CalculatorFloat::Float(from_i32(item))
    }

    /// The number equal to an unsigned integer.
    pub fn from_u32(item: u32) -> (res: Self)
        ensures
            res@ == Scalar::Float(int_bits(item as int)),
    {
        CalculatorFloat::Float(from_u32(item))
    }

    /// The number with the given bits.
    pub fn from_bits(bits: u64) -> (res: Self)
        ensures
            res@ == Scalar::Float(bits),
    {
        CalculatorFloat::Float(bits)
    }

    /// The scalar for a text: the number that `parse` reads from it, or, where
    /// it reads none, the text as a symbolic expression. No text is refused.
    pub fn from_text<P: Fn(&str) -> Option<u64>>(item: &str, parse: P) -> (res: Self)
        requires
            forall|text: &str| parse.requires((text,)),
        ensures
            read_from(parse, item@, res@),
    {
        let parsed = parse(item);
        let res = match parsed {
            Some(bits) => CalculatorFloat::Float(bits),
            None => CalculatorFloat::Str(String::from_str(item)),
        };
        assert(parses(parse, item@, parsed));
        res
    }

    /// As `from_text`, for an owned text, which a symbolic scalar keeps.
    pub fn from_string<P: Fn(&str) -> Option<u64>>(item: String, parse: P) -> (res: Self)
        requires
            forall|text: &str| parse.requires((text,)),
        ensures
            read_from(parse, item@, res@),
    {
        let parsed = parse(item.as_str());
        assert(parses(parse, item@, parsed));
        match parsed {
            Some(bits) => CalculatorFloat::Float(bits),
            None => CalculatorFloat::Str(item),
        }
    }

    /// The text of the scalar: a number as `render` gives it, a symbolic
    /// expression as it stands.
    pub fn to_text<R: Fn(u64) -> String>(&self, render: R) -> (res: String)
        requires
            forall|x: u64| render.requires((x,)),
        ensures
            match self@ {
                Scalar::Float(bits) => rendered(render, bits, res),
                Scalar::Str(text) => res@ == text,
            },
    {
        match self {
            CalculatorFloat::Float(bits) => render(*bits),
            CalculatorFloat::Str(text) => text.clone(),
        }
    }

    /// Whether the scalar is a concrete number.
    pub fn is_float(&self) -> (res: bool)
        ensures
            res == (self@ is Float),
    {
        match self {
            CalculatorFloat::Float(_) => true,
            CalculatorFloat::Str(_) => false,
        }
    }

    /// The number, if the scalar is one; a symbolic scalar is refused with its
    /// text.
    pub fn to_float(self) -> (res: Result<u64, CalculatorError>)
        ensures
            match self@ {
                Scalar::Float(bits) => res == Ok::<u64, CalculatorError>(bits),
                Scalar::Str(text) => res is Err && res->Err_0.offending_text() == text,
            },
    {
        match self {
            CalculatorFloat::Float(bits) => Ok(bits),
            CalculatorFloat::Str(text) => Err(
                CalculatorError::FloatSymbolicNotConvertable { val: text },
            ),
        }
    }
}

} // verus!
