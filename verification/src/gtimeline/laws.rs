//! What holds of the nested parsers on every input: a collection keeps its
//! valid entries and fails on none of the others, and the decoding of
//! coordinates undoes the wrap that they went through.

use vstd::prelude::*;
use crate::gtimeline::error::ParseErrorView;
use crate::gtimeline::grammar::{
    activity_list, classification_fields, classification_list, ends_sequence, kept, latitude_e7,
    location_items, longitude_e7, next_activity, next_classification, next_location,
    read_array_start,
};
use crate::gtimeline::progress::{
    lemma_next_activity_advances, lemma_next_classification_advances,
};
use crate::json::lexis::TokenStream;
use crate::json::token::TokenView;
use crate::model::activity::Activity;
use crate::model::classification::{ClassificationBuilderView, ClassificationView};

verus! {

/// The record of an entry that passed validation, and `None` for one that
/// did not.
pub open spec fn valid_record<T>(entry: Result<T, ParseErrorView>) -> Option<T> {
    match entry {
        Ok(record) => Some(record),
        Err(_) => None,
    }
}

/// The records of the entries that passed validation, in the order of the
/// entries.
pub open spec fn valid_records<T>(entries: Seq<Result<T, ParseErrorView>>) -> Seq<T> {
    entries.filter_map(|entry: Result<T, ParseErrorView>| valid_record(entry))
}

/// Every activity of an array up to its end or to the first structural
/// failure, those that failed validation too, in the order of the source.
pub open spec fn activity_entries(s: TokenStream) -> Seq<Result<Activity, ParseErrorView>>
    decreases s.tokens.len(),
    via activity_entries_terminates
{
    let pull = next_activity(s);
    match pull.item {
        None => Seq::empty(),
        Some(Err(ParseErrorView::Corrupt(_))) => Seq::empty(),
        Some(entry) => seq![entry] + activity_entries(pull.rest),
    }
}

#[via_fn]
proof fn activity_entries_terminates(s: TokenStream) {
    lemma_next_activity_advances(s);
}

/// Every classification of an array up to its end or to the first structural
/// failure, those that failed validation too, in the order of the source.
pub open spec fn classification_entries(s: TokenStream) -> Seq<
    Result<ClassificationView, ParseErrorView>,
>
    decreases s.tokens.len(),
    via classification_entries_terminates
{
    let pull = next_classification(s);
    match pull.item {
        None => Seq::empty(),
        Some(Err(ParseErrorView::Corrupt(_))) => Seq::empty(),
        Some(entry) => seq![entry] + classification_entries(pull.rest),
    }
}

#[via_fn]
proof fn classification_entries_terminates(s: TokenStream) {
    lemma_next_classification_advances(s);
}

/// The valid records of a sequence of entries are those of its first entry
/// followed by those of the rest.
pub proof fn lemma_valid_records_unfold<T>(
    first: Result<T, ParseErrorView>,
    rest: Seq<Result<T, ParseErrorView>>,
)
    ensures
        valid_records(seq![first] + rest) == kept(first) + valid_records(rest),
    decreases rest.len(),
{
    if rest.len() == 0 {
        reveal_with_fuel(Seq::filter_map, 2);
    } else {
        lemma_valid_records_unfold(first, rest.drop_last());
        assert((seq![first] + rest).drop_last() =~= seq![first] + rest.drop_last());
    }
}

/// Where an array of activities is read to its end, the list that it yields
/// holds the valid entries of the array and no others, in the order of the
/// source. An entry that fails validation is left out and fails nothing.
pub proof fn lemma_activity_list_is_valid_entries(s: TokenStream)
    ensures
        activity_list(s).outcome matches Ok(list) ==> list == valid_records(activity_entries(s)),
    decreases s.tokens.len(),
{
    let pull = next_activity(s);
    lemma_next_activity_advances(s);
    match pull.item {
        None => {},
        Some(Err(ParseErrorView::Corrupt(_))) => {},
        Some(entry) => {
            lemma_activity_list_is_valid_entries(pull.rest);
            lemma_valid_records_unfold(entry, activity_entries(pull.rest));
        },
    }
}

/// Where an array of classifications is read to its end, the list that it
/// yields holds the valid entries of the array and no others, in the order
/// of the source.
pub proof fn lemma_classification_list_is_valid_entries(s: TokenStream)
    ensures
        classification_list(s).outcome matches Ok(list) ==> list == valid_records(
            classification_entries(s),
        ),
    decreases s.tokens.len(),
{
    let pull = next_classification(s);
    lemma_next_classification_advances(s);
    match pull.item {
        None => {},
        Some(Err(ParseErrorView::Corrupt(_))) => {},
        Some(entry) => {
            lemma_classification_list_is_valid_entries(pull.rest);
            lemma_valid_records_unfold(entry, classification_entries(pull.rest));
        },
    }
}

/// A classification does not fail on the activities in it: where the key
/// `activity` opens an array that is read to its end, the reading of the
/// classification goes on behind the array with the valid entries of the
/// array as its activities, however many entries failed validation.
pub proof fn lemma_classification_keeps_valid_activities(
    s: TokenStream,
    builder: ClassificationBuilderView,
)
    requires
        s.tokens.len() >= 2,
        s.tokens[0] == TokenView::Identifier("activity"@),
        s.tokens[1] == TokenView::ArrayStart,
        activity_list(s.skip(2)).outcome is Ok,
    ensures
        classification_fields(s, builder) == classification_fields(
            activity_list(s.skip(2)).rest,
            builder.with_activities(valid_records(activity_entries(s.skip(2)))),
        ),
{
    reveal_strlit("activity");
    reveal_strlit("timestampMs");
    assert("activity"@ != "timestampMs"@) by {
        assert("activity"@.len() != "timestampMs"@.len());
    }
    assert(read_array_start(s.skip(1)).rest == s.skip(2));
    lemma_activity_list_is_valid_entries(s.skip(2));
}

/// A classification whose timestamp was set and against which nothing was
/// recorded is built from any entries of activities, valid or not, and holds
/// the valid ones.
pub proof fn lemma_invalid_activities_fail_no_classification(
    builder: ClassificationBuilderView,
    entries: Seq<Result<Activity, ParseErrorView>>,
)
    requires
        builder.errors.len() == 0,
        builder.timestamp is Some,
    ensures
        builder.with_activities(valid_records(entries)).built() == Ok::<
            ClassificationView,
            Seq<char>,
        >(
            ClassificationView {
                timestamp: builder.timestamp->0,
                activities: valid_records(entries),
            },
        ),
{
}

/// A coordinate in degrees times ten million as it stands in the source
/// when it went through an unsigned integer of 32 bits: a negative one has
/// 2^32 added.
pub open spec fn wrapped_e7(degrees_e7: int) -> int {
    if degrees_e7 < 0 {
        degrees_e7 + 4294967296
    } else {
        degrees_e7
    }
}

/// Decoding undoes the wrap of every latitude from -90 to 90 degrees.
pub proof fn lemma_latitude_decoding_undoes_wrap(degrees_e7: i64)
    requires
        -900000000 <= degrees_e7 <= 900000000,
    ensures
        latitude_e7(wrapped_e7(degrees_e7 as int) as i64) == degrees_e7,
        latitude_e7(degrees_e7) == degrees_e7,
{
}

/// Decoding undoes the wrap of every longitude from -180 to 180 degrees.
pub proof fn lemma_longitude_decoding_undoes_wrap(degrees_e7: i64)
    requires
        -1800000000 <= degrees_e7 <= 1800000000,
    ensures
        longitude_e7(wrapped_e7(degrees_e7 as int) as i64) == degrees_e7,
        longitude_e7(degrees_e7) == degrees_e7,
{
}

/// The locations of a stream come one by one and each comes once: what a
/// stream hands out is what one pull yields, followed by what the stream
/// that the pull leaves hands out; and behind the end of the sequence comes
/// nothing.
pub proof fn lemma_locations_come_once(s: TokenStream)
    ensures
        match next_location(s).item {
            None => location_items(s).len() == 0,
            Some(item) => {
                &&& location_items(s).len() > 0
                &&& location_items(s)[0] == item
                &&& location_items(s).skip(1) == if ends_sequence(next_location(s).item) {
                    Seq::empty()
                } else {
                    location_items(next_location(s).rest)
                }
            },
        },
{
}

} // verus!
