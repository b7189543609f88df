//! The tokens of the lexer and the ways in which lexing fails.

use vstd::prelude::*;

verus! {

/// One lexical token.
///
/// A number with a decimal point keeps the text it was written with: the
/// caller decides how to read it.
#[derive(PartialEq, Debug)]
pub enum Token {
    ObjectStart,
    ObjectEnd,
    ArrayStart,
    ArrayEnd,
    /// An object key: a string that is followed by a colon.
    Identifier(String),
    String(String),
    Integer(i64),
    /// The literal's text: digits around one decimal point, with an
    /// optional leading `-`.
    Float(String),
    Bool(bool),
    Null,
}

/// A token as a mathematical value.
pub enum TokenView {
    ObjectStart,
    ObjectEnd,
    ArrayStart,
    ArrayEnd,
    Identifier(Seq<char>),
    String(Seq<char>),
    Integer(i64),
    Float(Seq<char>),
    Bool(bool),
    Null,
}

impl View for Token {
    type V = TokenView;

    open spec fn view(&self) -> TokenView {
        match *self {
            Token::ObjectStart => TokenView::ObjectStart,
            Token::ObjectEnd => TokenView::ObjectEnd,
            Token::ArrayStart => TokenView::ArrayStart,
            Token::ArrayEnd => TokenView::ArrayEnd,
            Token::Identifier(text) => TokenView::Identifier(text@),
            Token::String(text) => TokenView::String(text@),
            Token::Integer(value) => TokenView::Integer(value),
            Token::Float(text) => TokenView::Float(text@),
            Token::Bool(value) => TokenView::Bool(value),
            Token::Null => TokenView::Null,
        }
    }
}

/// Why the lexer gave up. Every one of these ends the token sequence.
#[derive(PartialEq, Eq, Debug, Clone, Copy, Structural)]
pub enum LexError {
    /// A byte outside ASCII.
    NonAscii,
    /// A byte with which no token starts.
    UnexpectedCharacter(u8),
    /// A number with two decimal points, without a digit, or an integer
    /// that does not fit in 64 bits.
    MalformedNumber,
    /// A word that starts like `true`, `false` or `null` and is none of them.
    MalformedLiteral,
    /// A string without its closing quote.
    UnterminatedString,
}

} // verus!
