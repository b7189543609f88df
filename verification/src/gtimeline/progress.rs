//! The parsers only move forward: what a reading leaves of a stream is a
//! suffix of it, and a reading that yields something has taken tokens.

use vstd::prelude::*;
use crate::gtimeline::error::ParseErrorView;
use crate::gtimeline::grammar::{
    activity_fields, activity_list, classification_fields, classification_list, ends_sequence,
    latitude_e7, location_fields, longitude_e7, next_activity, next_classification,
    next_location, read_array_start, read_integer, read_seconds, read_string,
};
use crate::json::lexis::{behind, lemma_behind_chain, TokenStream};
use crate::json::token::TokenView;
use crate::model::activity::ActivityBuilderView;
use crate::model::classification::ClassificationBuilderView;
use crate::model::location::LocationBuilderView;

verus! {

/// What reading one value leaves of the stream behind a key.
proof fn lemma_value_advances(s: TokenStream, after: TokenStream, rest: TokenStream)
    requires
        s.tokens.len() > 0,
        after == s.skip(1),
        rest == after || (after.tokens.len() > 0 && rest == after.skip(1)),
    ensures
        behind(s, rest, 1),
{
    if rest != after {
        assert(after.skip(1) =~= s.skip(2));
    }
}

/// Reading the fields of an activity leaves a suffix of the stream.
pub proof fn lemma_activity_fields_advances(s: TokenStream, builder: ActivityBuilderView)
    ensures
        behind(s, activity_fields(s, builder).rest, 0),
        activity_fields(s, builder).outcome is Ok ==> behind(
            s,
            activity_fields(s, builder).rest,
            1,
        ),
    decreases s.tokens.len(),
{
    assert(s.skip(0) =~= s);
    if s.tokens.len() > 0 {
        let after = s.skip(1);
        match s.tokens[0] {
            TokenView::Identifier(name) => {
                if name == "type"@ {
                    let value = read_string(after);
                    lemma_value_advances(s, after, value.rest);
                    if value.outcome is Ok {
                        lemma_activity_fields_advances(
                            value.rest,
                            builder.with_type(value.outcome->Ok_0),
                        );
                        lemma_behind_chain(s, value.rest, activity_fields(s, builder).rest, 1, 0);
                    }
                } else if name == "confidence"@ {
                    let value = read_integer(after);
                    lemma_value_advances(s, after, value.rest);
                    if value.outcome is Ok {
                        lemma_activity_fields_advances(
                            value.rest,
                            builder.with_confidence(value.outcome->Ok_0 as int),
                        );
                        lemma_behind_chain(s, value.rest, activity_fields(s, builder).rest, 1, 0);
                    }
                }
            },
            _ => {},
        }
    }
}

/// A pull that yields an item which is no structural failure takes at
/// least one token.
pub proof fn lemma_next_activity_advances(s: TokenStream)
    ensures
        behind(s, next_activity(s).rest, 0),
        next_activity(s).item matches Some(item) && !(item matches Err(
            ParseErrorView::Corrupt(_),
        )) ==> next_activity(s).rest.tokens.len() < s.tokens.len(),
        next_activity(s).item is None ==> next_activity(s).rest.tokens.len() < s.tokens.len(),
{
    assert(s.skip(0) =~= s);
    if s.tokens.len() > 0 {
        lemma_activity_fields_advances(s.skip(1), ActivityBuilderView::empty());
        lemma_behind_chain(
            s,
            s.skip(1),
            activity_fields(s.skip(1), ActivityBuilderView::empty()).rest,
            1,
            0,
        );
    }
}

/// Reading the activities of an array leaves a suffix of the stream, and a
/// proper one where the array was read to its end.
pub proof fn lemma_activity_list_advances(s: TokenStream)
    ensures
        behind(s, activity_list(s).rest, 0),
        activity_list(s).outcome is Ok ==> activity_list(s).rest.tokens.len() < s.tokens.len(),
    decreases s.tokens.len(),
{
    lemma_next_activity_advances(s);
    let pull = next_activity(s);
    match pull.item {
        None => {},
        Some(Err(ParseErrorView::Corrupt(error))) => {},
        Some(item) => {
            lemma_activity_list_advances(pull.rest);
            lemma_behind_chain(s, pull.rest, activity_list(pull.rest).rest, 0, 0);
        },
    }
}

/// Reading the fields of a classification leaves a suffix of the stream.
pub proof fn lemma_classification_fields_advances(
    s: TokenStream,
    builder: ClassificationBuilderView,
)
    ensures
        behind(s, classification_fields(s, builder).rest, 0),
        classification_fields(s, builder).outcome is Ok ==> behind(
            s,
            classification_fields(s, builder).rest,
            1,
        ),
    decreases s.tokens.len(),
{
    assert(s.skip(0) =~= s);
    if s.tokens.len() > 0 {
        let after = s.skip(1);
        match s.tokens[0] {
            TokenView::Identifier(name) => {
                if name == "timestampMs"@ {
                    let value = read_seconds(after);
                    lemma_value_advances(s, after, value.rest);
                    if value.outcome is Ok {
                        lemma_classification_fields_advances(
                            value.rest,
                            builder.with_timestamp(value.outcome->Ok_0 as int),
                        );
                        lemma_behind_chain(
                            s,
                            value.rest,
                            classification_fields(s, builder).rest,
                            1,
                            0,
                        );
                    }
                } else if name == "activity"@ {
                    let start = read_array_start(after);
                    lemma_value_advances(s, after, start.rest);
                    if start.outcome is Ok {
                        let list = activity_list(start.rest);
                        lemma_activity_list_advances(start.rest);
                        lemma_behind_chain(s, start.rest, list.rest, 1, 0);
                        if list.outcome is Ok {
                            lemma_classification_fields_advances(
                                list.rest,
                                builder.with_activities(list.outcome->Ok_0),
                            );
                            lemma_behind_chain(
                                s,
                                list.rest,
                                classification_fields(s, builder).rest,
                                1,
                                0,
                            );
                        }
                    }
                }
            },
            _ => {},
        }
    }
}

/// A pull that yields an item which is no structural failure takes at
/// least one token.
pub proof fn lemma_next_classification_advances(s: TokenStream)
    ensures
        behind(s, next_classification(s).rest, 0),
        next_classification(s).item matches Some(item) && !(item matches Err(
            ParseErrorView::Corrupt(_),
        )) ==> next_classification(s).rest.tokens.len() < s.tokens.len(),
        next_classification(s).item is None ==> next_classification(s).rest.tokens.len()
            < s.tokens.len(),
{
    assert(s.skip(0) =~= s);
    if s.tokens.len() > 0 {
        lemma_classification_fields_advances(s.skip(1), ClassificationBuilderView::empty());
        lemma_behind_chain(
            s,
            s.skip(1),
            classification_fields(s.skip(1), ClassificationBuilderView::empty()).rest,
            1,
            0,
        );
    }
}

/// Reading the classifications of an array leaves a suffix of the stream,
/// and a proper one where the array was read to its end.
pub proof fn lemma_classification_list_advances(s: TokenStream)
    ensures
        behind(s, classification_list(s).rest, 0),
        classification_list(s).outcome is Ok ==> classification_list(s).rest.tokens.len()
            < s.tokens.len(),
    decreases s.tokens.len(),
{
    lemma_next_classification_advances(s);
    let pull = next_classification(s);
    match pull.item {
        None => {},
        Some(Err(ParseErrorView::Corrupt(error))) => {},
        Some(item) => {
            lemma_classification_list_advances(pull.rest);
            lemma_behind_chain(s, pull.rest, classification_list(pull.rest).rest, 0, 0);
        },
    }
}

/// Reading the fields of a location leaves a suffix of the stream.
pub proof fn lemma_location_fields_advances(s: TokenStream, builder: LocationBuilderView)
    ensures
        behind(s, location_fields(s, builder).rest, 0),
        location_fields(s, builder).outcome is Ok ==> behind(
            s,
            location_fields(s, builder).rest,
            1,
        ),
    decreases s.tokens.len(),
{
    assert(s.skip(0) =~= s);
    if s.tokens.len() > 0 {
        let after = s.skip(1);
        let rest = location_fields(s, builder).rest;
        match s.tokens[0] {
            TokenView::Identifier(name) => {
                if name == "timestampMs"@ {
                    let value = read_seconds(after);
                    lemma_value_advances(s, after, value.rest);
                    if value.outcome is Ok {
                        lemma_location_fields_advances(
                            value.rest,
                            builder.with_timestamp(value.outcome->Ok_0 as int),
                        );
                        lemma_behind_chain(s, value.rest, rest, 1, 0);
                    }
                } else if name == "latitudeE7"@ {
                    let value = read_integer(after);
                    lemma_value_advances(s, after, value.rest);
                    if value.outcome is Ok {
                        lemma_location_fields_advances(
                            value.rest,
                            builder.with_point_y(
                                latitude_e7(value.outcome->Ok_0),
                            ),
                        );
                        lemma_behind_chain(s, value.rest, rest, 1, 0);
                    }
                } else if name == "longitudeE7"@ {
                    let value = read_integer(after);
                    lemma_value_advances(s, after, value.rest);
                    if value.outcome is Ok {
                        lemma_location_fields_advances(
                            value.rest,
                            builder.with_point_x(
                                longitude_e7(value.outcome->Ok_0),
                            ),
                        );
                        lemma_behind_chain(s, value.rest, rest, 1, 0);
                    }
                } else if name == "accuracy"@ {
                    let value = read_integer(after);
                    lemma_value_advances(s, after, value.rest);
                    if value.outcome is Ok {
                        lemma_location_fields_advances(
                            value.rest,
                            builder.with_accuracy(value.outcome->Ok_0 as int),
                        );
                        lemma_behind_chain(s, value.rest, rest, 1, 0);
                    }
                } else if name == "activity"@ {
                    let start = read_array_start(after);
                    lemma_value_advances(s, after, start.rest);
                    if start.outcome is Ok {
                        let list = classification_list(start.rest);
                        lemma_classification_list_advances(start.rest);
                        lemma_behind_chain(s, start.rest, list.rest, 1, 0);
                        if list.outcome is Ok {
                            lemma_location_fields_advances(
                                list.rest,
                                builder.with_classifications(list.outcome->Ok_0),
                            );
                            lemma_behind_chain(s, list.rest, rest, 1, 0);
                        }
                    }
                }
            },
            _ => {},
        }
    }
}

/// A pull on the locations leaves a suffix of the stream; one that hands
/// out a record, valid or not, takes at least two tokens.
pub proof fn lemma_next_location_advances(s: TokenStream)
    ensures
        behind(s, next_location(s).rest, 0),
        next_location(s).item is Some && !ends_sequence(next_location(s).item) ==> behind(
            s,
            next_location(s).rest,
            2,
        ),
{
    assert(s.skip(0) =~= s);
    if s.tokens.len() > 0 {
        lemma_location_fields_advances(s.skip(1), LocationBuilderView::empty());
        lemma_behind_chain(
            s,
            s.skip(1),
            location_fields(s.skip(1), LocationBuilderView::empty()).rest,
            1,
            0,
        );
    }
}

} // verus!
