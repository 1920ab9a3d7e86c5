//! The serialized form: one token of the enclosing document.
//!
//! A number is written as a floating-point token and a symbolic expression as
//! a string token. On the way in, a floating-point token, an integer token of
//! 32 bits or a string token is accepted; a string is read as any text is, so
//! one that spells a number comes back as that number.
use vstd::prelude::*;
use crate::integer::int_bits;
use crate::value::{from_parsed, parses, CalculatorFloat, Scalar};

verus! {

/// A token as a document hands it over.
#[derive(Debug)]
pub enum Token {
    /// A floating-point number, by its bits.
    F64(u64),
    /// A signed integer.
    I32(i32),
    /// An unsigned integer.
    U32(u32),
    /// A string.
    Str(String),
    /// A token of any other kind.
    Other,
}

/// What a token is, as the contracts see it.
pub ghost enum TokenView {
    /// A floating-point number, by its bits.
    F64(u64),
    /// A signed integer.
    I32(i32),
    /// An unsigned integer.
    U32(u32),
    /// A string, by its characters.
    Str(Seq<char>),
    /// A token of any other kind.
    Other,
}

impl View for Token {
    type V = TokenView;

    open spec fn view(&self) -> TokenView {
        match self {
            Token::F64(bits) => TokenView::F64(*bits),
            Token::I32(item) => TokenView::I32(*item),
            Token::U32(item) => TokenView::U32(*item),
            Token::Str(text) => TokenView::Str(text@),
            Token::Other => TokenView::Other,
        }
    }
}

/// The token that a scalar is written as.
pub open spec fn write_spec(value: Scalar) -> TokenView {
    match value {
        Scalar::Float(bits) => TokenView::F64(bits),
        Scalar::Str(text) => TokenView::Str(text),
    }
}

/// The scalar that a token is read as, where `parsed` is the reading of a
/// string token's text; `None` for a token that is neither a number nor a
/// string.
pub open spec fn read_spec(token: TokenView, parsed: Option<u64>) -> Option<Scalar> {
    match token {
        TokenView::F64(bits) => Some(Scalar::Float(bits)),
        TokenView::I32(item) => Some(Scalar::Float(int_bits(item as int))),
        TokenView::U32(item) => Some(Scalar::Float(int_bits(item as int))),
        TokenView::Str(text) => Some(from_parsed(text, parsed)),
        TokenView::Other => None,
    }
}

/// `parsed` is a reading that `parse` gives for the token's text, if the token
/// is a string. Of any other token nothing is asked.
pub open spec fn token_parses<P: Fn(&str) -> Option<u64>>(
    parse: P,
    token: TokenView,
    parsed: Option<u64>,
) -> bool {
    match token {
        TokenView::Str(text) => parses(parse, text, parsed),
        _ => true,
    }
}

/// The view of a scalar that may be missing.
pub open spec fn view_of(value: Option<CalculatorFloat>) -> Option<Scalar> {
    match value {
        Some(scalar) => Some(scalar@),
        None => None,
    }
}

/// What a reader says it expects where it refuses a token.
pub fn expecting() -> (res: &'static str)
    ensures
        res@ == "float or string"@,
{
    "float or string"
}

impl CalculatorFloat {
    /// The token for this scalar: a number as a floating-point token, a
    /// symbolic expression as a string token.
    pub fn to_token(&self) -> (res: Token)
        ensures
            res@ == write_spec(self@),
    {
        match self {
            CalculatorFloat::Float(bits) => Token::F64(*bits),
            CalculatorFloat::Str(text) => Token::Str(text.clone()),
        }
    }

    /// The scalar for a token. Numbers of either kind become numbers, a string
    /// is read with `parse` as any text is, and a token of another kind is
    /// refused with `None`.
    pub fn from_token<P: Fn(&str) -> Option<u64>>(token: Token, parse: P) -> (res: Option<Self>)
        requires
            forall|text: &str| parse.requires((text,)),
        ensures
            exists|parsed: Option<u64>| #[trigger]
                token_parses(parse, token@, parsed) && view_of(res) == read_spec(token@, parsed),
    {
        match token {
            Token::F64(bits) => {
                assert(token_parses(parse, token@, None));
                Some(CalculatorFloat::Float(bits))
            },
            Token::I32(item) => {
                assert(token_parses(parse, token@, None));
                Some(CalculatorFloat::from_i32(item))
            },
            Token::U32(item) => {
                assert(token_parses(parse, token@, None));
                Some(CalculatorFloat::from_u32(item))
            },
            Token::Str(text) => {
                let res = CalculatorFloat::from_string(text, parse);
                let ghost parsed = choose|parsed: Option<u64>| #[trigger]
                    parses(parse, text@, parsed) && res@ == from_parsed(text@, parsed);
                assert(token_parses(parse, token@, parsed));
                Some(res)
            },
            Token::Other => {
                assert(token_parses(parse, token@, None));
                None
            },
        }
    }
}

} // verus!
