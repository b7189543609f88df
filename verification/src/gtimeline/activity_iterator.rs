//! The innermost parser: the activities of one classification.

use vstd::prelude::*;
use crate::gtimeline::error::{
    item_view, record_view, ParseError, ParseErrorView, StructureError,
};
use crate::gtimeline::fields::{expect_integer, expect_string};
use crate::gtimeline::grammar::{activity_fields, as_item, next_activity};
use crate::json::lexis::TokenStream;
use crate::json::source::ByteSource;
use crate::json::token::Token;
use crate::json::tokenizer::JsonTokenizer;
use crate::model::activity::{Activity, ActivityBuilder, ActivityBuilderView};
use crate::text::str_eq;

verus! {

/// Pulls activities off a borrowed token cursor that stands behind the
/// opening of their array.
pub struct ActivityIterator<'a, T: ByteSource> {
    pub tokenizer: &'a mut JsonTokenizer<T>,
}

impl<'a, T: ByteSource> ActivityIterator<'a, T> {
    /// The tokens that the cursor has still to hand out.
    pub open spec fn stream(&self) -> TokenStream {
        self.tokenizer.stream()
    }

    /// An iterator on the cursor, which it gives back when it goes away.
    pub fn new(tokenizer: &'a mut JsonTokenizer<T>) -> (iterator: ActivityIterator<'a, T>)
        ensures
            *iterator.tokenizer == *old(tokenizer),
            *final(iterator.tokenizer) == *final(tokenizer),
    {
        ActivityIterator { tokenizer }
    }

    /// The next activity of the array, where the array is sound up to the
    /// end of that activity.
    ///
    /// `None` says that the array has ended. An activity that fails
    /// validation comes as the message of its failure, and the array goes on
    /// behind it.
    pub fn next(&mut self) -> (item: Option<Result<Activity, String>>)
        requires
            !(next_activity(old(self).stream()).item matches Some(
                Err(ParseErrorView::Corrupt(_)),
            )),
        ensures
            *final(final(self).tokenizer) == *final(old(self).tokenizer),
            record_view(item) == next_activity(old(self).stream()).item,
            final(self).stream() == next_activity(old(self).stream()).rest,
    {
        match self.try_next() {
            Some(Ok(activity)) => Some(Ok(activity)),
            Some(Err(ParseError::Invalid(message))) => Some(Err(message)),
            Some(Err(ParseError::Corrupt(_))) => vstd::pervasive::unreached(),
            None => None,
        }
    }

    /// The next activity of the array, whatever the input holds.
    ///
    /// `None` says that the array has ended. An activity that fails
    /// validation comes as `Invalid`, and the array goes on behind it. A
    /// structural failure comes as `Corrupt`.
    pub fn try_next(&mut self) -> (item: Option<Result<Activity, ParseError>>)
        ensures
            *final(final(self).tokenizer) == *final(old(self).tokenizer),
            item_view(item) == next_activity(old(self).stream()).item,
            final(self).stream() == next_activity(old(self).stream()).rest,
    {
        match self.tokenizer.try_next_token() {
            Ok(Some(Token::ObjectStart)) => {},
            Ok(Some(Token::ArrayEnd)) => {
                return None;
            },
            Ok(Some(_)) => {
                return Some(Err(ParseError::Corrupt(StructureError::UnexpectedToken)));
            },
            Ok(None) => {
                return Some(Err(ParseError::Corrupt(StructureError::UnexpectedEnd)));
            },
            Err(error) => {
                return Some(Err(ParseError::Corrupt(StructureError::Lex(error))));
            },
        }
        let ghost start = self.stream();
        let mut builder = ActivityBuilder::new();
        loop
            invariant
                *final(self.tokenizer) == *final(old(self).tokenizer),
                start == old(self).stream().skip(1),
                next_activity(old(self).stream()).item == Some(
                    as_item(activity_fields(start, ActivityBuilderView::empty()).outcome),
                ),
                next_activity(old(self).stream()).rest == activity_fields(
                    start,
                    ActivityBuilderView::empty(),
                ).rest,
                activity_fields(start, ActivityBuilderView::empty()) == activity_fields(
                    self.stream(),
                    builder@,
                ),
            decreases self.stream().tokens.len(),
        {
            match self.tokenizer.try_next_token() {
                Ok(Some(Token::Identifier(identifier))) => {
                    if str_eq(identifier.as_str(), "type") {
                        match expect_string(self.tokenizer) {
                            Ok(v) => {
                                builder.type_(v);
                            },
                            Err(error) => {
                                return Some(Err(ParseError::Corrupt(error)));
                            },
                        }
                    } else if str_eq(identifier.as_str(), "confidence") {
                        match expect_integer(self.tokenizer) {
                            Ok(confidence) => {
                                builder.confidence_from_integer(confidence);
                            },
                            Err(error) => {
                                return Some(Err(ParseError::Corrupt(error)));
                            },
                        }
                    } else {
                        return Some(Err(ParseError::Corrupt(StructureError::UnknownField)));
                    }
                },
                Ok(Some(Token::ObjectEnd)) => {
                    return Some(
                        match builder.build() {
                            Ok(activity) => Ok(activity),
                            Err(message) => Err(ParseError::Invalid(message)),
                        },
                    );
                },
                Ok(Some(_)) => {
                    return Some(Err(ParseError::Corrupt(StructureError::UnexpectedToken)));
                },
                Ok(None) => {
                    return Some(Err(ParseError::Corrupt(StructureError::UnexpectedEnd)));
                },
                Err(error) => {
                    return Some(Err(ParseError::Corrupt(StructureError::Lex(error))));
                },
            }
        }
    }
}

} // verus!
