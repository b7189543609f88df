//! The schema of the document, as functions on token streams.
//!
//! Each function says what the parser of that layer yields on a stream and
//! which stream it leaves behind. A stream that is left behind a structural
//! failure starts behind the token at which the failure was found.

use vstd::prelude::*;
use crate::gtimeline::error::{ParseErrorView, StructureError};
use crate::gtimeline::progress::{
    lemma_activity_list_advances, lemma_classification_list_advances,
    lemma_next_activity_advances, lemma_next_classification_advances,
    lemma_next_location_advances,
};
use crate::json::lexis::TokenStream;
use crate::json::token::TokenView;
use crate::model::activity::{Activity, ActivityBuilderView};
use crate::model::classification::{ClassificationBuilderView, ClassificationView};
use crate::model::location::{LocationBuilderView, LocationView};
use crate::model::moment::seconds_of_millis;
use crate::text::i64_of_text;

verus! {

/// What reading a part of a record yields: the part or the structural
/// failure, and the stream that is left.
pub struct Read<T> {
    pub outcome: Result<T, StructureError>,
    pub rest: TokenStream,
}

/// What one pull yields: a record, a failure, or `None` at the end of the
/// collection; and the stream that is left.
pub struct Pull<T> {
    pub item: Option<Result<T, ParseErrorView>>,
    pub rest: TokenStream,
}

/// Why a stream without tokens has none: the lexer's failure, or the end of
/// the input.
pub open spec fn stop(s: TokenStream) -> StructureError {
    match s.end {
        Some(error) => StructureError::Lex(error),
        None => StructureError::UnexpectedEnd,
    }
}

/// A string value.
pub open spec fn read_string(s: TokenStream) -> Read<Seq<char>> {
    if s.tokens.len() == 0 {
        Read { outcome: Err(stop(s)), rest: s }
    } else {
        match s.tokens[0] {
            TokenView::String(text) => Read { outcome: Ok(text), rest: s.skip(1) },
            _ => Read { outcome: Err(StructureError::UnexpectedToken), rest: s.skip(1) },
        }
    }
}

/// An integer value.
pub open spec fn read_integer(s: TokenStream) -> Read<i64> {
    if s.tokens.len() == 0 {
        Read { outcome: Err(stop(s)), rest: s }
    } else {
        match s.tokens[0] {
            TokenView::Integer(value) => Read { outcome: Ok(value), rest: s.skip(1) },
            _ => Read { outcome: Err(StructureError::UnexpectedToken), rest: s.skip(1) },
        }
    }
}

/// The opening of an array.
pub open spec fn read_array_start(s: TokenStream) -> Read<()> {
    if s.tokens.len() == 0 {
        Read { outcome: Err(stop(s)), rest: s }
    } else {
        match s.tokens[0] {
            TokenView::ArrayStart => Read { outcome: Ok(()), rest: s.skip(1) },
            _ => Read { outcome: Err(StructureError::UnexpectedToken), rest: s.skip(1) },
        }
    }
}

/// A timestamp: a string that holds milliseconds since the epoch as an
/// integer of 64 bits. Yields the seconds.
pub open spec fn read_seconds(s: TokenStream) -> Read<i64> {
    let text = read_string(s);
    Read {
        outcome: match text.outcome {
            Ok(millis) => match i64_of_text(millis) {
                Some(value) => Ok(seconds_of_millis(value as int) as i64),
                None => Err(StructureError::InvalidTimestamp),
            },
            Err(error) => Err(error),
        },
        rest: text.rest,
    }
}

/// A latitude as the source holds it, decoded: a value above 900,000,000
/// went through an unsigned 32-bit integer and is taken back by 2^32.
pub open spec fn latitude_e7(raw: i64) -> i64 {
    if raw > 900000000 {
        (raw - 4294967296) as i64
    } else {
        raw
    }
}

/// A longitude as the source holds it, decoded: a value above 1,800,000,000
/// went through an unsigned 32-bit integer and is taken back by 2^32.
pub open spec fn longitude_e7(raw: i64) -> i64 {
    if raw > 1800000000 {
        (raw - 4294967296) as i64
    } else {
        raw
    }
}

/// The fields of an activity, up to the end of its object, on top of what
/// the builder holds already.
pub open spec fn activity_fields(s: TokenStream, builder: ActivityBuilderView) -> Read<
    Result<Activity, Seq<char>>,
>
    decreases s.tokens.len(),
{
    if s.tokens.len() == 0 {
        Read { outcome: Err(stop(s)), rest: s }
    } else {
        match s.tokens[0] {
            TokenView::Identifier(name) => {
                if name == "type"@ {
                    let value = read_string(s.skip(1));
                    match value.outcome {
                        Ok(tag) => activity_fields(value.rest, builder.with_type(tag)),
                        Err(error) => Read { outcome: Err(error), rest: value.rest },
                    }
                } else if name == "confidence"@ {
                    let value = read_integer(s.skip(1));
                    match value.outcome {
                        Ok(confidence) => activity_fields(
                            value.rest,
                            builder.with_confidence(confidence as int),
                        ),
                        Err(error) => Read { outcome: Err(error), rest: value.rest },
                    }
                } else {
                    Read { outcome: Err(StructureError::UnknownField), rest: s.skip(1) }
                }
            },
            TokenView::ObjectEnd => Read { outcome: Ok(builder.built()), rest: s.skip(1) },
            _ => Read { outcome: Err(StructureError::UnexpectedToken), rest: s.skip(1) },
        }
    }
}

/// What reading one record yields, as the item of a pull.
pub open spec fn as_item<T>(read: Result<Result<T, Seq<char>>, StructureError>) -> Result<
    T,
    ParseErrorView,
> {
    match read {
        Ok(Ok(record)) => Ok(record),
        Ok(Err(message)) => Err(ParseErrorView::Invalid(message)),
        Err(error) => Err(ParseErrorView::Corrupt(error)),
    }
}

/// One pull on the activities of an array: an object is read as an
/// activity, the end of the array ends the collection.
pub open spec fn next_activity(s: TokenStream) -> Pull<Activity> {
    if s.tokens.len() == 0 {
        Pull { item: Some(Err(ParseErrorView::Corrupt(stop(s)))), rest: s }
    } else {
        match s.tokens[0] {
            TokenView::ObjectStart => {
                let read = activity_fields(s.skip(1), ActivityBuilderView::empty());
                Pull { item: Some(as_item(read.outcome)), rest: read.rest }
            },
            TokenView::ArrayEnd => Pull { item: None, rest: s.skip(1) },
            _ => Pull {
                item: Some(Err(ParseErrorView::Corrupt(StructureError::UnexpectedToken))),
                rest: s.skip(1),
            },
        }
    }
}

/// The records that a collection keeps of one pull: a valid record, and
/// nothing of one that failed validation.
pub open spec fn kept<T>(item: Result<T, ParseErrorView>) -> Seq<T> {
    match item {
        Ok(record) => seq![record],
        Err(_) => Seq::empty(),
    }
}

/// The activities of an array, up to its end: the valid ones, in the order of
/// the source.
pub open spec fn activity_list(s: TokenStream) -> Read<Seq<Activity>>
    decreases s.tokens.len(),
    via activity_list_terminates
{
    let pull = next_activity(s);
    match pull.item {
        None => Read { outcome: Ok(Seq::empty()), rest: pull.rest },
        Some(Err(ParseErrorView::Corrupt(error))) => Read { outcome: Err(error), rest: pull.rest },
        Some(item) => {
            let tail = activity_list(pull.rest);
            Read {
                outcome: match tail.outcome {
                    Ok(list) => Ok(kept(item) + list),
                    Err(error) => Err(error),
                },
                rest: tail.rest,
            }
        },
    }
}

#[via_fn]
proof fn activity_list_terminates(s: TokenStream) {
    lemma_next_activity_advances(s);
}

/// The fields of a classification, up to the end of its object, on top of
/// what the builder holds already.
pub open spec fn classification_fields(s: TokenStream, builder: ClassificationBuilderView) -> Read<
    Result<ClassificationView, Seq<char>>,
>
    decreases s.tokens.len(),
    via classification_fields_terminates
{
    if s.tokens.len() == 0 {
        Read { outcome: Err(stop(s)), rest: s }
    } else {
        match s.tokens[0] {
            TokenView::Identifier(name) => {
                if name == "timestampMs"@ {
                    let value = read_seconds(s.skip(1));
                    match value.outcome {
                        Ok(seconds) => classification_fields(
                            value.rest,
                            builder.with_timestamp(seconds as int),
                        ),
                        Err(error) => Read { outcome: Err(error), rest: value.rest },
                    }
                } else if name == "activity"@ {
                    let start = read_array_start(s.skip(1));
                    match start.outcome {
                        Ok(_) => {
                            let list = activity_list(start.rest);
                            match list.outcome {
                                Ok(activities) => classification_fields(
                                    list.rest,
                                    builder.with_activities(activities),
                                ),
                                Err(error) => Read { outcome: Err(error), rest: list.rest },
                            }
                        },
                        Err(error) => Read { outcome: Err(error), rest: start.rest },
                    }
                } else {
                    Read { outcome: Err(StructureError::UnknownField), rest: s.skip(1) }
                }
            },
            TokenView::ObjectEnd => Read { outcome: Ok(builder.built()), rest: s.skip(1) },
            _ => Read { outcome: Err(StructureError::UnexpectedToken), rest: s.skip(1) },
        }
    }
}

#[via_fn]
proof fn classification_fields_terminates(s: TokenStream, builder: ClassificationBuilderView) {
    if s.tokens.len() > 0 {
        lemma_activity_list_advances(read_array_start(s.skip(1)).rest);
    }
}

/// One pull on the classifications of an array.
pub open spec fn next_classification(s: TokenStream) -> Pull<ClassificationView> {
    if s.tokens.len() == 0 {
        Pull { item: Some(Err(ParseErrorView::Corrupt(stop(s)))), rest: s }
    } else {
        match s.tokens[0] {
            TokenView::ObjectStart => {
                let read = classification_fields(s.skip(1), ClassificationBuilderView::empty());
                Pull { item: Some(as_item(read.outcome)), rest: read.rest }
            },
            TokenView::ArrayEnd => Pull { item: None, rest: s.skip(1) },
            _ => Pull {
                item: Some(Err(ParseErrorView::Corrupt(StructureError::UnexpectedToken))),
                rest: s.skip(1),
            },
        }
    }
}

/// The classifications of an array, up to its end: the valid ones, in the
/// order of the source.
pub open spec fn classification_list(s: TokenStream) -> Read<Seq<ClassificationView>>
    decreases s.tokens.len(),
    via classification_list_terminates
{
    let pull = next_classification(s);
    match pull.item {
        None => Read { outcome: Ok(Seq::empty()), rest: pull.rest },
        Some(Err(ParseErrorView::Corrupt(error))) => Read { outcome: Err(error), rest: pull.rest },
        Some(item) => {
            let tail = classification_list(pull.rest);
            Read {
                outcome: match tail.outcome {
                    Ok(list) => Ok(kept(item) + list),
                    Err(error) => Err(error),
                },
                rest: tail.rest,
            }
        },
    }
}

#[via_fn]
proof fn classification_list_terminates(s: TokenStream) {
    lemma_next_classification_advances(s);
}

/// The fields of a location, up to the end of its object, on top of what the
/// builder holds already.
pub open spec fn location_fields(s: TokenStream, builder: LocationBuilderView) -> Read<
    Result<LocationView, Seq<char>>,
>
    decreases s.tokens.len(),
    via location_fields_terminates
{
    if s.tokens.len() == 0 {
        Read { outcome: Err(stop(s)), rest: s }
    } else {
        match s.tokens[0] {
            TokenView::Identifier(name) => {
                if name == "timestampMs"@ {
                    let value = read_seconds(s.skip(1));
                    match value.outcome {
                        Ok(seconds) => location_fields(
                            value.rest,
                            builder.with_timestamp(seconds as int),
                        ),
                        Err(error) => Read { outcome: Err(error), rest: value.rest },
                    }
                } else if name == "latitudeE7"@ {
                    let value = read_integer(s.skip(1));
                    match value.outcome {
                        Ok(raw) => location_fields(
                            value.rest,
                            builder.with_point_y(latitude_e7(raw)),
                        ),
                        Err(error) => Read { outcome: Err(error), rest: value.rest },
                    }
                } else if name == "longitudeE7"@ {
                    let value = read_integer(s.skip(1));
                    match value.outcome {
                        Ok(raw) => location_fields(
                            value.rest,
                            builder.with_point_x(longitude_e7(raw)),
                        ),
                        Err(error) => Read { outcome: Err(error), rest: value.rest },
                    }
                } else if name == "accuracy"@ {
                    let value = read_integer(s.skip(1));
                    match value.outcome {
                        Ok(accuracy) => location_fields(
                            value.rest,
                            builder.with_accuracy(accuracy as int),
                        ),
                        Err(error) => Read { outcome: Err(error), rest: value.rest },
                    }
                } else if name == "activity"@ {
                    let start = read_array_start(s.skip(1));
                    match start.outcome {
                        Ok(_) => {
                            let list = classification_list(start.rest);
                            match list.outcome {
                                Ok(classifications) => location_fields(
                                    list.rest,
                                    builder.with_classifications(classifications),
                                ),
                                Err(error) => Read { outcome: Err(error), rest: list.rest },
                            }
                        },
                        Err(error) => Read { outcome: Err(error), rest: start.rest },
                    }
                } else {
                    Read { outcome: Err(StructureError::UnknownField), rest: s.skip(1) }
                }
            },
            TokenView::ObjectEnd => Read { outcome: Ok(builder.built()), rest: s.skip(1) },
            _ => Read { outcome: Err(StructureError::UnexpectedToken), rest: s.skip(1) },
        }
    }
}

#[via_fn]
proof fn location_fields_terminates(s: TokenStream, builder: LocationBuilderView) {
    if s.tokens.len() > 0 {
        lemma_classification_list_advances(read_array_start(s.skip(1)).rest);
    }
}

/// One pull on the locations of the document. The end of the array and the
/// end of the input both end the sequence.
pub open spec fn next_location(s: TokenStream) -> Pull<LocationView> {
    if s.tokens.len() == 0 {
        match s.end {
            Some(error) => Pull {
                item: Some(Err(ParseErrorView::Corrupt(StructureError::Lex(error)))),
                rest: s,
            },
            None => Pull { item: None, rest: s },
        }
    } else {
        match s.tokens[0] {
            TokenView::ObjectStart => {
                let read = location_fields(s.skip(1), LocationBuilderView::empty());
                Pull { item: Some(as_item(read.outcome)), rest: read.rest }
            },
            TokenView::ArrayEnd => Pull { item: None, rest: s.skip(1) },
            _ => Pull {
                item: Some(Err(ParseErrorView::Corrupt(StructureError::UnexpectedToken))),
                rest: s.skip(1),
            },
        }
    }
}

/// The opening of the document: `{`, the key `locations`, and `[`.
pub open spec fn document_start(s: TokenStream) -> Read<()> {
    if s.tokens.len() == 0 {
        Read { outcome: Err(stop(s)), rest: s }
    } else if s.tokens[0] != TokenView::ObjectStart {
        Read { outcome: Err(StructureError::UnexpectedToken), rest: s.skip(1) }
    } else if s.tokens.len() == 1 {
        Read { outcome: Err(stop(s.skip(1))), rest: s.skip(1) }
    } else {
        match s.tokens[1] {
            TokenView::Identifier(name) => if name == "locations"@ {
                read_array_start(s.skip(2))
            } else {
                Read { outcome: Err(StructureError::UnknownField), rest: s.skip(2) }
            },
            _ => Read { outcome: Err(StructureError::UnexpectedToken), rest: s.skip(2) },
        }
    }
}

/// Whether an item is the last that a sequence of locations hands out: the
/// end itself, and a structural failure.
pub open spec fn ends_sequence(item: Option<Result<LocationView, ParseErrorView>>) -> bool {
    match item {
        None => true,
        Some(Err(ParseErrorView::Corrupt(_))) => true,
        _ => false,
    }
}

/// Everything that the sequence of locations hands out on a stream, in
/// order: the records, valid or not, up to the end of the array or of the
/// input, or up to and with the first structural failure.
pub open spec fn location_items(s: TokenStream) -> Seq<Result<LocationView, ParseErrorView>>
    decreases s.tokens.len(),
    via location_items_terminates
{
    let pull = next_location(s);
    match pull.item {
        None => Seq::empty(),
        Some(item) => if ends_sequence(pull.item) {
            seq![item]
        } else {
            seq![item] + location_items(pull.rest)
        },
    }
}

#[via_fn]
proof fn location_items_terminates(s: TokenStream) {
    lemma_next_location_advances(s);
}

} // verus!
