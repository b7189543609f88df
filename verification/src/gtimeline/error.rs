//! The two ways in which reading a record fails.

use vstd::prelude::*;
use crate::json::token::LexError;

verus! {

/// Why the structure of the input cannot be trusted from some token on.
#[derive(Debug, PartialEq, Eq, Clone, Copy, Structural)]
pub enum StructureError {
    /// The lexer gave up.
    Lex(LexError),
    /// The input ended inside the document.
    UnexpectedEnd,
    /// A token stands where the schema has no place for it.
    UnexpectedToken,
    /// An object key that the schema does not know.
    UnknownField,
    /// A timestamp that is no integer of 64 bits.
    InvalidTimestamp,
}

/// Why a pull yields no record.
#[derive(Debug, PartialEq, Eq)]
pub enum ParseError {
    /// The record was read to its end and failed validation: the message
    /// says why. The sequence goes on behind it.
    Invalid(String),
    /// The input is corrupt. The sequence ends here.
    Corrupt(StructureError),
}

/// A `ParseError` as a mathematical value.
pub enum ParseErrorView {
    Invalid(Seq<char>),
    Corrupt(StructureError),
}

impl View for ParseError {
    type V = ParseErrorView;

    open spec fn view(&self) -> ParseErrorView {
        match *self {
            ParseError::Invalid(message) => ParseErrorView::Invalid(message@),
            ParseError::Corrupt(error) => ParseErrorView::Corrupt(error),
        }
    }
}

/// What a pull hands out, as a mathematical value.
pub open spec fn item_view<T: View>(item: Option<Result<T, ParseError>>) -> Option<
    Result<T::V, ParseErrorView>,
> {
    match item {
        Some(Ok(record)) => Some(Ok(record@)),
        Some(Err(error)) => Some(Err(error@)),
        None => None,
    }
}

/// What a pull hands out where the input is known to be sound, as a
/// mathematical value: the failure of a record is the message of its
/// validation.
pub open spec fn record_view<T: View>(item: Option<Result<T, String>>) -> Option<
    Result<T::V, ParseErrorView>,
> {
    match item {
        Some(Ok(record)) => Some(Ok(record@)),
        Some(Err(message)) => Some(Err(ParseErrorView::Invalid(message@))),
        None => None,
    }
}

} // verus!
