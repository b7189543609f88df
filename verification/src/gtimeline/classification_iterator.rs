//! The middle parser: the classifications of one location.

use vstd::prelude::*;
use crate::gtimeline::activity_iterator::ActivityIterator;
use crate::gtimeline::error::{
    item_view, record_view, ParseError, ParseErrorView, StructureError,
};
use crate::gtimeline::fields::{expect_array_start, expect_seconds};
use crate::gtimeline::grammar::{
    activity_list, as_item, classification_fields, next_classification,
};
use crate::gtimeline::progress::{lemma_activity_list_advances, lemma_next_activity_advances};
use crate::json::lexis::TokenStream;
use crate::json::source::ByteSource;
use crate::json::token::Token;
use crate::json::tokenizer::JsonTokenizer;
use crate::model::activity::Activity;
use crate::model::classification::{
    Classification, ClassificationBuilder, ClassificationBuilderView,
};
use crate::text::str_eq;

verus! {

/// Pulls classifications off a borrowed token cursor that stands behind the
/// opening of their array.
pub struct ClassificationIterator<'a, T: ByteSource> {
    pub tokenizer: &'a mut JsonTokenizer<T>,
}

/// Reads the activities of an array to its end and keeps the valid ones, in
/// the order of the source. One that fails validation is left out; a
/// structural failure ends the reading.
pub fn collect_activities<T: ByteSource>(tokenizer: &mut JsonTokenizer<T>) -> (result: Result<
    Vec<Activity>,
    StructureError,
>)
    ensures
        final(tokenizer).stream() == activity_list(old(tokenizer).stream()).rest,
        match result {
            Ok(list) => activity_list(old(tokenizer).stream()).outcome == Ok::<
                Seq<Activity>,
                StructureError,
            >(list@),
            Err(error) => activity_list(old(tokenizer).stream()).outcome == Err::<
                Seq<Activity>,
                StructureError,
            >(error),
        },
{
    let ghost start = tokenizer.stream();
    let mut activities = ActivityIterator::new(tokenizer);
    let mut list: Vec<Activity> = Vec::new();
    loop
        invariant_except_break
            activity_list(start).rest == activity_list(activities.stream()).rest,
            activity_list(start).outcome == match activity_list(activities.stream()).outcome {
                Ok(tail) => Ok::<Seq<Activity>, StructureError>(list@ + tail),
                Err(error) => Err(error),
            },
        invariant
            *final(activities.tokenizer) == *after_borrow(tokenizer),
            start == old(tokenizer).stream(),
        ensures
            *final(activities.tokenizer) == *after_borrow(tokenizer),
            activities.stream() == activity_list(start).rest,
            activity_list(start).outcome == Ok::<Seq<Activity>, StructureError>(list@),
        decreases activities.stream().tokens.len(),
    {
        let ghost before = activities.stream();
        proof {
            lemma_next_activity_advances(before);
        }
        match activities.try_next() {
            None => {
                break ;
            },
            Some(Ok(activity)) => {
                proof {
                    let tail = activity_list(activities.stream()).outcome;
                    if tail is Ok {
                        assert(list@ + (seq![activity] + tail->Ok_0) =~= list@.push(activity)
                            + tail->Ok_0);
                    }
                }
                list.push(activity);
            },
            Some(Err(ParseError::Invalid(_))) => {},
            Some(Err(ParseError::Corrupt(error))) => {
                return Err(error);
            },
        }
    }
    Ok(list)
}

impl<'a, T: ByteSource> ClassificationIterator<'a, T> {
    /// The tokens that the cursor has still to hand out.
    pub open spec fn stream(&self) -> TokenStream {
        self.tokenizer.stream()
    }

    /// An iterator on the cursor, which it gives back when it goes away.
    pub fn new(tokenizer: &'a mut JsonTokenizer<T>) -> (iterator: ClassificationIterator<'a, T>)
        ensures
            *iterator.tokenizer == *old(tokenizer),
            *final(iterator.tokenizer) == *final(tokenizer),
    {
        ClassificationIterator { tokenizer }
    }

    /// The next classification of the array, where the array is sound up to
    /// the end of that classification.
    ///
    /// `None` says that the array has ended. A classification that fails
    /// validation comes as the message of its failure, and the array goes on
    /// behind it.
    pub fn next(&mut self) -> (item: Option<Result<Classification, String>>)
        requires
            !(next_classification(old(self).stream()).item matches Some(
                Err(ParseErrorView::Corrupt(_)),
            )),
        ensures
            *final(final(self).tokenizer) == *final(old(self).tokenizer),
            record_view(item) == next_classification(old(self).stream()).item,
            final(self).stream() == next_classification(old(self).stream()).rest,
    {
        match self.try_next() {
            Some(Ok(classification)) => Some(Ok(classification)),
            Some(Err(ParseError::Invalid(message))) => Some(Err(message)),
            Some(Err(ParseError::Corrupt(_))) => vstd::pervasive::unreached(),
            None => None,
        }
    }

    /// The next classification of the array, whatever the input holds.
    ///
    /// `None` says that the array has ended. A classification that fails
    /// validation comes as `Invalid`, and the array goes on behind it. A
    /// structural failure comes as `Corrupt`.
    pub fn try_next(&mut self) -> (item: Option<Result<Classification, ParseError>>)
        ensures
            *final(final(self).tokenizer) == *final(old(self).tokenizer),
            item_view(item) == next_classification(old(self).stream()).item,
            final(self).stream() == next_classification(old(self).stream()).rest,
    {
        match self.tokenizer.try_next_token() {
            Ok(Some(Token::ObjectStart)) => {},
            Ok(Some(Token::ArrayEnd)) => {
                return None;
            },
            Ok(Some(_)) => {
                return Some(Err(ParseError::Corrupt(StructureError::UnexpectedToken)));
            },
            Ok(None) => {
                return Some(Err(ParseError::Corrupt(StructureError::UnexpectedEnd)));
            },
            Err(error) => {
                return Some(Err(ParseError::Corrupt(StructureError::Lex(error))));
            },
        }
        let ghost start = self.stream();
        let mut builder = ClassificationBuilder::new();
        loop
            invariant
                *final(self.tokenizer) == *final(old(self).tokenizer),
                start == old(self).stream().skip(1),
                next_classification(old(self).stream()).item == Some(
                    as_item(
                        classification_fields(start, ClassificationBuilderView::empty()).outcome,
                    ),
                ),
                next_classification(old(self).stream()).rest == classification_fields(
                    start,
                    ClassificationBuilderView::empty(),
                ).rest,
                classification_fields(start, ClassificationBuilderView::empty())
                    == classification_fields(self.stream(), builder@),
            decreases self.stream().tokens.len(),
        {
            match self.tokenizer.try_next_token() {
                Ok(Some(Token::Identifier(identifier))) => {
                    if str_eq(identifier.as_str(), "timestampMs") {
                        match expect_seconds(self.tokenizer) {
                            Ok(secs) => {
                                builder.timestamp(secs);
                            },
                            Err(error) => {
                                return Some(Err(ParseError::Corrupt(error)));
                            },
                        }
                    } else if str_eq(identifier.as_str(), "activity") {
                        match expect_array_start(self.tokenizer) {
                            Ok(()) => {},
                            Err(error) => {
                                return Some(Err(ParseError::Corrupt(error)));
                            },
                        }
                        proof {
                            lemma_activity_list_advances(self.stream());
                        }
                        match collect_activities(self.tokenizer) {
                            Ok(activities) => {
                                builder.activities(activities);
                            },
                            Err(error) => {
                                return Some(Err(ParseError::Corrupt(error)));
                            },
                        }
                    } else {
                        return Some(Err(ParseError::Corrupt(StructureError::UnknownField)));
                    }
                },
                Ok(Some(Token::ObjectEnd)) => {
                    return Some(
                        match builder.build() {
                            Ok(classification) => Ok(classification),
                            Err(message) => Err(ParseError::Invalid(message)),
                        },
                    );
                },
                Ok(Some(_)) => {
                    return Some(Err(ParseError::Corrupt(StructureError::UnexpectedToken)));
                },
                Ok(None) => {
                    return Some(Err(ParseError::Corrupt(StructureError::UnexpectedEnd)));
                },
                Err(error) => {
                    return Some(Err(ParseError::Corrupt(StructureError::Lex(error))));
                },
            }
        }
    }
}

} // verus!
