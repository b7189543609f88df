//! The frame of a parser that is put together from rules.

use std::collections::HashMap;
use vstd::prelude::*;
use crate::json::lexis::{behind, TokenStream};
use crate::json::source::ByteSource;
use crate::json::token::{Token, TokenView};
use crate::json::tokenizer::JsonTokenizer;

verus! {

/// One rule of a parser: takes tokens off the front of the cursor and
/// yields a value, a failure, or `None` where it has nothing to yield.
pub trait ParseFn<T, S: ByteSource> {
    fn next(&mut self, tokenizer: &mut JsonTokenizer<S>) -> (item: Option<Result<T, ()>>)
        ensures
            behind(old(tokenizer).stream(), final(tokenizer).stream(), 0),
    ;
}

/// A token cursor together with the rule that reads it.
#[verifier::reject_recursive_types(T)]
#[verifier::reject_recursive_types(S)]
pub struct LazyParser<T, S: ByteSource> {
    tokenizer: JsonTokenizer<S>,
    parse_fn: Box<dyn ParseFn<T, S>>,
}

impl<T, S: ByteSource> LazyParser<T, S> {
    /// The tokens that the cursor has still to hand out.
    pub closed spec fn stream(&self) -> TokenStream {
        self.tokenizer.stream()
    }

    /// A parser that reads `tokenizer` by the rule `parse_fn`.
    pub fn new(tokenizer: JsonTokenizer<S>, parse_fn: Box<dyn ParseFn<T, S>>) -> (parser:
        LazyParser<T, S>)
        ensures
            parser.stream() == tokenizer.stream(),
    {
        LazyParser { tokenizer, parse_fn }
    }

    /// What the rule yields next. What it is lies with the rule; the cursor
    /// only moves forward.
    pub fn next(&mut self) -> (item: Option<Result<T, ()>>)
        ensures
            behind(old(self).stream(), final(self).stream(), 0),
    {
        self.parse_fn.next(&mut self.tokenizer)
    }
}

/// What a rule yields that wants exactly the two tokens `first` and
/// `second`: a failure at the first token that is another, or that is not
/// there; else nothing.
pub open spec fn expect_pair(s: TokenStream, first: TokenView, second: TokenView) -> (
    Option<Result<(), ()>>,
    TokenStream,
) {
    if s.tokens.len() == 0 {
        (Some(Err(())), s)
    } else if s.tokens[0] != first {
        (Some(Err(())), s.skip(1))
    } else if s.tokens.len() == 1 {
        (Some(Err(())), s.skip(1))
    } else if s.tokens[1] != second {
        (Some(Err(())), s.skip(2))
    } else {
        (None, s.skip(2))
    }
}

/// The rule for an object. It accepts the empty object and yields nothing
/// for it.
#[verifier::reject_recursive_types(T)]
#[verifier::reject_recursive_types(S)]
pub struct ExpectObject<T, S: ByteSource> {
    pub rules: HashMap<String, Box<dyn ParseFn<T, S>>>,
}

impl<T, S: ByteSource> ParseFn<T, S> for ExpectObject<T, S> {
    fn next(&mut self, tokenizer: &mut JsonTokenizer<S>) -> (item: Option<Result<T, ()>>)
        ensures
            item is None <==> expect_pair(
                old(tokenizer).stream(),
                TokenView::ObjectStart,
                TokenView::ObjectEnd,
            ).0 is None,
            item matches Some(failure) ==> failure is Err,
            final(tokenizer).stream() == expect_pair(
                old(tokenizer).stream(),
                TokenView::ObjectStart,
                TokenView::ObjectEnd,
            ).1,
    {
        let ghost s = tokenizer.stream();
        assert(s.skip(0) =~= s);
        match tokenizer.try_next_token() {
            Ok(Some(Token::ObjectStart)) => {},
            _ => {
                return Some(Err(()));
            },
        }
        proof {
            if s.tokens.len() >= 2 {
                assert(s.skip(1).skip(1) =~= s.skip(2));
            }
        }
        match tokenizer.try_next_token() {
            Ok(Some(Token::ObjectEnd)) => {},
            _ => {
                return Some(Err(()));
            },
        }
        None
    }
}

/// The rule for an array. It accepts the empty array and yields nothing for
/// it.
#[verifier::reject_recursive_types(T)]
#[verifier::reject_recursive_types(S)]
pub struct ExpectArray<T, S: ByteSource> {
    pub rule: Box<dyn ParseFn<T, S>>,
}

impl<T, S: ByteSource> ParseFn<T, S> for ExpectArray<T, S> {
    fn next(&mut self, tokenizer: &mut JsonTokenizer<S>) -> (item: Option<Result<T, ()>>)
        ensures
            item is None <==> expect_pair(
                old(tokenizer).stream(),
                TokenView::ArrayStart,
                TokenView::ArrayEnd,
            ).0 is None,
            item matches Some(failure) ==> failure is Err,
            final(tokenizer).stream() == expect_pair(
                old(tokenizer).stream(),
                TokenView::ArrayStart,
                TokenView::ArrayEnd,
            ).1,
    {
        let ghost s = tokenizer.stream();
        assert(s.skip(0) =~= s);
        match tokenizer.try_next_token() {
            Ok(Some(Token::ArrayStart)) => {},
            _ => {
                return Some(Err(()));
            },
        }
        proof {
            if s.tokens.len() >= 2 {
                assert(s.skip(1).skip(1) =~= s.skip(2));
            }
        }
        match tokenizer.try_next_token() {
            Ok(Some(Token::ArrayEnd)) => {},
            _ => {
                return Some(Err(()));
            },
        }
        None
    }
}

} // verus!
