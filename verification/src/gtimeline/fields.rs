//! Reading single values off the token cursor, and decoding them.

use vstd::prelude::*;
use crate::gtimeline::error::StructureError;
use crate::gtimeline::grammar::{
    latitude_e7, longitude_e7, read_array_start, read_integer, read_seconds, read_string,
};
use crate::json::source::ByteSource;
use crate::json::token::Token;
use crate::json::tokenizer::JsonTokenizer;
use crate::text::parse_i64;

verus! {

/// Takes the next token, which must be a string.
pub fn expect_string<T: ByteSource>(tokenizer: &mut JsonTokenizer<T>) -> (result: Result<
    String,
    StructureError,
>)
    ensures
        final(tokenizer).stream() == read_string(old(tokenizer).stream()).rest,
        match result {
            Ok(text) => read_string(old(tokenizer).stream()).outcome == Ok::<
                Seq<char>,
                StructureError,
            >(text@),
            Err(error) => read_string(old(tokenizer).stream()).outcome == Err::<
                Seq<char>,
                StructureError,
            >(error),
        },
{
    match tokenizer.try_next_token() {
        Ok(Some(Token::String(text))) => Ok(text),
        Ok(Some(_)) => Err(StructureError::UnexpectedToken),
        Ok(None) => Err(StructureError::UnexpectedEnd),
        Err(error) => Err(StructureError::Lex(error)),
    }
}

/// Takes the next token, which must be an integer.
pub fn expect_integer<T: ByteSource>(tokenizer: &mut JsonTokenizer<T>) -> (result: Result<
    i64,
    StructureError,
>)
    ensures
        final(tokenizer).stream() == read_integer(old(tokenizer).stream()).rest,
        result == read_integer(old(tokenizer).stream()).outcome,
{
    match tokenizer.try_next_token() {
        Ok(Some(Token::Integer(value))) => Ok(value),
        Ok(Some(_)) => Err(StructureError::UnexpectedToken),
        Ok(None) => Err(StructureError::UnexpectedEnd),
        Err(error) => Err(StructureError::Lex(error)),
    }
}

/// Takes the next token, which must open an array.
pub fn expect_array_start<T: ByteSource>(tokenizer: &mut JsonTokenizer<T>) -> (result: Result<
    (),
    StructureError,
>)
    ensures
        final(tokenizer).stream() == read_array_start(old(tokenizer).stream()).rest,
        result == read_array_start(old(tokenizer).stream()).outcome,
{
    match tokenizer.try_next_token() {
        Ok(Some(Token::ArrayStart)) => Ok(()),
        Ok(Some(_)) => Err(StructureError::UnexpectedToken),
        Ok(None) => Err(StructureError::UnexpectedEnd),
        Err(error) => Err(StructureError::Lex(error)),
    }
}

/// Takes the next token, which must be a string that holds milliseconds
/// since the epoch, and hands back the seconds: the milliseconds divided by
/// 1000, the remainder dropped.
pub fn expect_seconds<T: ByteSource>(tokenizer: &mut JsonTokenizer<T>) -> (result: Result<
    i64,
    StructureError,
>)
    ensures
        final(tokenizer).stream() == read_seconds(old(tokenizer).stream()).rest,
        result == read_seconds(old(tokenizer).stream()).outcome,
{
    match expect_string(tokenizer) {
        Ok(text) => match parse_i64(text.as_str()) {
            Some(millis) => Ok(millis / 1000),
            None => Err(StructureError::InvalidTimestamp),
        },
        Err(error) => Err(error),
    }
}

/// Decodes a latitude in degrees times ten million: a value above
/// 900,000,000 has wrapped around 32 bits and is taken back by 2^32.
pub fn decode_latitude_e7(raw: i64) -> (decoded: i64)
    ensures
        decoded == latitude_e7(raw),
        raw <= 900000000 ==> decoded == raw,
        raw > 900000000 ==> decoded == raw - 4294967296,
{
    if raw > 900000000 {
        raw - 4294967296
    } else {
        raw
    }
}

/// Decodes a longitude in degrees times ten million: a value above
/// 1,800,000,000 has wrapped around 32 bits and is taken back by 2^32.
pub fn decode_longitude_e7(raw: i64) -> (decoded: i64)
    ensures
        decoded == longitude_e7(raw),
        raw <= 1800000000 ==> decoded == raw,
        raw > 1800000000 ==> decoded == raw - 4294967296,
{
    if raw > 1800000000 {
        raw - 4294967296
    } else {
        raw
    }
}

} // verus!
