//! The outermost parser: the locations of the document.

use vstd::prelude::*;
use crate::gtimeline::classification_iterator::ClassificationIterator;
use crate::gtimeline::error::{
    item_view, record_view, ParseError, ParseErrorView, StructureError,
};
use crate::gtimeline::fields::{
    decode_latitude_e7, decode_longitude_e7, expect_array_start, expect_integer, expect_seconds,
};
use crate::gtimeline::grammar::{
    as_item, classification_list, ends_sequence, location_fields, location_items, next_location,
};
use crate::gtimeline::progress::{
    lemma_classification_list_advances, lemma_next_classification_advances,
    lemma_next_location_advances,
};
use crate::json::lexis::{behind, TokenStream};
use crate::json::source::ByteSource;
use crate::json::token::Token;
use crate::json::tokenizer::JsonTokenizer;
use crate::model::classification::{classification_views, Classification, ClassificationView};
use crate::model::location::{Location, LocationBuilder, LocationBuilderView, LocationView};
use crate::text::str_eq;

verus! {

/// Pulls locations off a token cursor that stands behind the opening of
/// their array. The sequence runs once: a record that was handed out is
/// gone from the cursor, and a sequence that has ended stays ended.
pub struct LocationIterator<T: ByteSource> {
    tokenizer: JsonTokenizer<T>,
    finished: bool,
}

/// Reads the classifications of an array to its end and keeps the valid
/// ones, in the order of the source. One that fails validation is left out;
/// a structural failure ends the reading.
pub fn collect_classifications<T: ByteSource>(tokenizer: &mut JsonTokenizer<T>) -> (result: Result<
    Vec<Classification>,
    StructureError,
>)
    ensures
        final(tokenizer).stream() == classification_list(old(tokenizer).stream()).rest,
        match result {
            Ok(list) => classification_list(old(tokenizer).stream()).outcome == Ok::<
                Seq<ClassificationView>,
                StructureError,
            >(classification_views(list@)),
            Err(error) => classification_list(old(tokenizer).stream()).outcome == Err::<
                Seq<ClassificationView>,
                StructureError,
            >(error),
        },
{
    let ghost start = tokenizer.stream();
    let mut classifications = ClassificationIterator::new(tokenizer);
    let mut list: Vec<Classification> = Vec::new();
    loop
        invariant_except_break
            classification_list(start).rest == classification_list(classifications.stream()).rest,
            classification_list(start).outcome == match classification_list(
                classifications.stream(),
            ).outcome {
                Ok(tail) => Ok::<Seq<ClassificationView>, StructureError>(
                    classification_views(list@) + tail,
                ),
                Err(error) => Err(error),
            },
        invariant
            *final(classifications.tokenizer) == *after_borrow(tokenizer),
            start == old(tokenizer).stream(),
        ensures
            *final(classifications.tokenizer) == *after_borrow(tokenizer),
            classifications.stream() == classification_list(start).rest,
            classification_list(start).outcome == Ok::<Seq<ClassificationView>, StructureError>(
                classification_views(list@),
            ),
        decreases classifications.stream().tokens.len(),
    {
        let ghost before = classifications.stream();
        proof {
            lemma_next_classification_advances(before);
        }
        match classifications.try_next() {
            None => {
                break ;
            },
            Some(Ok(classification)) => {
                proof {
                    let tail = classification_list(classifications.stream()).outcome;
                    assert(classification_views(list@.push(classification))
                        =~= classification_views(list@).push(classification@));
                    if tail is Ok {
                        assert(classification_views(list@) + (seq![classification@] + tail->Ok_0)
                            =~= classification_views(list@).push(classification@) + tail->Ok_0);
                    }
                }
                list.push(classification);
            },
            Some(Err(ParseError::Invalid(_))) => {},
            Some(Err(ParseError::Corrupt(error))) => {
                return Err(error);
            },
        }
    }
    Ok(list)
}

impl<T: ByteSource> LocationIterator<T> {
    /// The tokens that the cursor has still to hand out.
    pub closed spec fn stream(&self) -> TokenStream {
        self.tokenizer.stream()
    }

    /// Whether the sequence has ended.
    pub closed spec fn finished(&self) -> bool {
        self.finished
    }

    /// The items that the sequence has still to hand out, in order.
    pub open spec fn pending(&self) -> Seq<Result<LocationView, ParseErrorView>> {
        if self.finished() {
            Seq::empty()
        } else {
            location_items(self.stream())
        }
    }

    /// An iterator on a cursor that stands behind the opening of the array
    /// of locations.
    pub fn new(tokenizer: JsonTokenizer<T>) -> (iterator: LocationIterator<T>)
        ensures
            iterator.stream() == tokenizer.stream(),
            !iterator.finished(),
    {
        LocationIterator { tokenizer, finished: false }
    }

    /// The next location of the document, where the document is sound up to
    /// the end of that location.
    ///
    /// `None` says that the sequence has ended: at the end of the array, at
    /// the end of the input, or because it had ended before. A location that
    /// fails validation comes as the message of its failure, and the
    /// sequence goes on behind it.
    ///
    /// Each pull hands out the first of the pending items and leaves the
    /// others pending: no item comes twice, and behind the end comes nothing.
    pub fn next(&mut self) -> (item: Option<Result<Location, String>>)
        requires
            old(self).finished() || !(next_location(old(self).stream()).item matches Some(
                Err(ParseErrorView::Corrupt(_)),
            )),
        ensures
            match record_view(item) {
                Some(first) => {
                    &&& old(self).pending().len() > 0
                    &&& old(self).pending()[0] == first
                    &&& final(self).pending() == old(self).pending().skip(1)
                },
                None => old(self).pending().len() == 0 && final(self).pending().len() == 0,
            },
            old(self).finished() ==> {
                &&& item is None
                &&& final(self).finished()
                &&& final(self).stream() == old(self).stream()
            },
            !old(self).finished() ==> {
                &&& record_view(item) == next_location(old(self).stream()).item
                &&& final(self).stream() == next_location(old(self).stream()).rest
                &&& final(self).finished() == (item is None)
            },
            item is Some ==> behind(old(self).stream(), final(self).stream(), 2),
    {
        match self.try_next() {
            Some(Ok(location)) => Some(Ok(location)),
            Some(Err(ParseError::Invalid(message))) => Some(Err(message)),
            Some(Err(ParseError::Corrupt(_))) => vstd::pervasive::unreached(),
            None => None,
        }
    }

    /// The next location of the document, whatever the input holds.
    ///
    /// `None` says that the sequence has ended: at the end of the array, at
    /// the end of the input, or because it had ended before. A location that
    /// fails validation comes as `Invalid`, and the sequence goes on behind
    /// it. A structural failure comes as `Corrupt` and ends the sequence. A
    /// pull that hands out an item and does not end the sequence takes at
    /// least two tokens off the cursor.
    ///
    /// Each pull hands out the first of the pending items and leaves the
    /// others pending: no item comes twice, and behind the end comes nothing.
    pub fn try_next(&mut self) -> (item: Option<Result<Location, ParseError>>)
        ensures
            match item_view(item) {
                Some(first) => {
                    &&& old(self).pending().len() > 0
                    &&& old(self).pending()[0] == first
                    &&& final(self).pending() == old(self).pending().skip(1)
                },
                None => old(self).pending().len() == 0 && final(self).pending().len() == 0,
            },
            old(self).finished() ==> {
                &&& item is None
                &&& final(self).finished()
                &&& final(self).stream() == old(self).stream()
            },
            !old(self).finished() ==> {
                &&& item_view(item) == next_location(old(self).stream()).item
                &&& final(self).stream() == next_location(old(self).stream()).rest
                &&& final(self).finished() == ends_sequence(item_view(item))
            },
            item is Some && !final(self).finished() ==> behind(
                old(self).stream(),
                final(self).stream(),
                2,
            ),
    {
        if self.finished {
            return None;
        }
        proof {
            lemma_next_location_advances(self.stream());
        }
        let item = self.read();
        match &item {
            None => {
                self.finished = true;
            },
            Some(Err(ParseError::Corrupt(_))) => {
                self.finished = true;
            },
            _ => {},
        }
        item
    }

    /// Reads one location off the cursor.
    fn read(&mut self) -> (item: Option<Result<Location, ParseError>>)
        ensures
            item_view(item) == next_location(old(self).stream()).item,
            final(self).stream() == next_location(old(self).stream()).rest,
            final(self).finished() == old(self).finished(),
    {
        match self.tokenizer.try_next_token() {
            Ok(Some(Token::ObjectStart)) => {},
            Ok(Some(Token::ArrayEnd)) => {
                return None;
            },
            Ok(Some(_)) => {
                return Some(Err(ParseError::Corrupt(StructureError::UnexpectedToken)));
            },
            Ok(None) => {
                return None;
            },
            Err(error) => {
                return Some(Err(ParseError::Corrupt(StructureError::Lex(error))));
            },
        }
        let ghost start = self.stream();
        let mut builder = LocationBuilder::new();
        loop
            invariant
                self.finished() == old(self).finished(),
                start == old(self).stream().skip(1),
                next_location(old(self).stream()).item == Some(
                    as_item(location_fields(start, LocationBuilderView::empty()).outcome),
                ),
                next_location(old(self).stream()).rest == location_fields(
                    start,
                    LocationBuilderView::empty(),
                ).rest,
                location_fields(start, LocationBuilderView::empty()) == location_fields(
                    self.stream(),
                    builder@,
                ),
            decreases self.stream().tokens.len(),
        {
            match self.tokenizer.try_next_token() {
                Ok(Some(Token::Identifier(identifier))) => {
                    if str_eq(identifier.as_str(), "timestampMs") {
                        match expect_seconds(&mut self.tokenizer) {
                            Ok(secs) => {
                                builder.timestamp(secs);
                            },
                            Err(error) => {
                                return Some(Err(ParseError::Corrupt(error)));
                            },
                        }
                    } else if str_eq(identifier.as_str(), "latitudeE7") {
                        match expect_integer(&mut self.tokenizer) {
                            Ok(latitude_e7) => {
                                builder.point_y(decode_latitude_e7(latitude_e7));
                            },
                            Err(error) => {
                                return Some(Err(ParseError::Corrupt(error)));
                            },
                        }
                    } else if str_eq(identifier.as_str(), "longitudeE7") {
                        match expect_integer(&mut self.tokenizer) {
                            Ok(longitude_e7) => {
                                builder.point_x(decode_longitude_e7(longitude_e7));
                            },
                            Err(error) => {
                                return Some(Err(ParseError::Corrupt(error)));
                            },
                        }
                    } else if str_eq(identifier.as_str(), "accuracy") {
                        match expect_integer(&mut self.tokenizer) {
                            Ok(accuracy) => {
                                builder.accuracy(accuracy);
                            },
                            Err(error) => {
                                return Some(Err(ParseError::Corrupt(error)));
                            },
                        }
                    } else if str_eq(identifier.as_str(), "activity") {
                        match expect_array_start(&mut self.tokenizer) {
                            Ok(()) => {},
                            Err(error) => {
                                return Some(Err(ParseError::Corrupt(error)));
                            },
                        }
                        proof {
                            lemma_classification_list_advances(self.stream());
                        }
                        match collect_classifications(&mut self.tokenizer) {
                            Ok(classifications) => {
                                builder.classifications(classifications);
                            },
                            Err(error) => {
                                return Some(Err(ParseError::Corrupt(error)));
                            },
                        }
                    } else {
                        return Some(Err(ParseError::Corrupt(StructureError::UnknownField)));
                    }
                },
                Ok(Some(Token::ObjectEnd)) => {
                    return Some(
                        match builder.build() {
                            Ok(location) => Ok(location),
                            Err(message) => Err(ParseError::Invalid(message)),
                        },
                    );
                },
                Ok(Some(_)) => {
                    return Some(Err(ParseError::Corrupt(StructureError::UnexpectedToken)));
                },
                Ok(None) => {
                    return Some(Err(ParseError::Corrupt(StructureError::UnexpectedEnd)));
                },
                Err(error) => {
                    return Some(Err(ParseError::Corrupt(StructureError::Lex(error))));
                },
            }
        }
    }
}

} // verus!
