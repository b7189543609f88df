//! The nested parsers: locations, the classifications of a location, and
//! the activities of a classification, all on one token cursor.

pub mod activity_iterator;
pub mod classification_iterator;
pub mod error;
pub mod fields;
pub mod grammar;
pub mod laws;
pub mod location_iterator;
pub mod progress;

use vstd::prelude::*;
use crate::json::source::ByteSource;
use crate::json::token::Token;
use crate::json::tokenizer::JsonTokenizer;
use crate::text::str_eq;
use grammar::document_start;

pub use activity_iterator::ActivityIterator;
pub use classification_iterator::ClassificationIterator;
pub use error::{ParseError, StructureError};
pub use location_iterator::LocationIterator;

verus! {

/// Reads the opening of the document, `{"locations": [`, and hands back the
/// sequence of its locations. The document must open so: where it may not,
/// `try_parse_locations` is the function to call.
pub fn parse_locations<T: ByteSource>(tokenizer: JsonTokenizer<T>) -> (locations: LocationIterator<
    T,
>)
    requires
        document_start(tokenizer.stream()).outcome is Ok,
    ensures
        locations.stream() == document_start(tokenizer.stream()).rest,
        !locations.finished(),
{
    let mut tokenizer = tokenizer;
    let ghost start = tokenizer.stream();
    tokenizer.next_token();
    tokenizer.next_token();
    assert(start.skip(1).skip(1) =~= start.skip(2));
    tokenizer.next_token();
    LocationIterator::new(tokenizer)
}

/// The short name of `parse_locations`.
pub fn parse<T: ByteSource>(tokenizer: JsonTokenizer<T>) -> (locations: LocationIterator<T>)
    requires
        document_start(tokenizer.stream()).outcome is Ok,
    ensures
        locations.stream() == document_start(tokenizer.stream()).rest,
        !locations.finished(),
{
    parse_locations(tokenizer)
}

/// Reads the opening of the document, `{"locations": [`, and hands back the
/// sequence of its locations, or says how the document fails to open so.
pub fn try_parse_locations<T: ByteSource>(tokenizer: JsonTokenizer<T>) -> (result: Result<
    LocationIterator<T>,
    StructureError,
>)
    ensures
        match result {
            Ok(locations) => {
                &&& document_start(tokenizer.stream()).outcome == Ok::<(), StructureError>(())
                &&& locations.stream() == document_start(tokenizer.stream()).rest
                &&& !locations.finished()
            },
            Err(error) => document_start(tokenizer.stream()).outcome == Err::<(), StructureError>(
                error,
            ),
        },
{
    let mut tokenizer = tokenizer;
    match tokenizer.try_next_token() {
        Ok(Some(Token::ObjectStart)) => {},
        Ok(Some(_)) => {
            return Err(StructureError::UnexpectedToken);
        },
        Ok(None) => {
            return Err(StructureError::UnexpectedEnd);
        },
        Err(error) => {
            return Err(StructureError::Lex(error));
        },
    }
    match tokenizer.try_next_token() {
        Ok(Some(Token::Identifier(name))) => {
            if !str_eq(name.as_str(), "locations") {
                return Err(StructureError::UnknownField);
            }
        },
        Ok(Some(_)) => {
            return Err(StructureError::UnexpectedToken);
        },
        Ok(None) => {
            return Err(StructureError::UnexpectedEnd);
        },
        Err(error) => {
            return Err(StructureError::Lex(error));
        },
    }
    match tokenizer.try_next_token() {
        Ok(Some(Token::ArrayStart)) => {},
        Ok(Some(_)) => {
            return Err(StructureError::UnexpectedToken);
        },
        Ok(None) => {
            return Err(StructureError::UnexpectedEnd);
        },
        Err(error) => {
            return Err(StructureError::Lex(error));
        },
    }
    Ok(LocationIterator::new(tokenizer))
}

} // verus!
