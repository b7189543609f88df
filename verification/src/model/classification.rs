//! The activities that were recognized at one point in time.

use vstd::prelude::*;
use chrono::NaiveDateTime;
use crate::model::activity::Activity;
use crate::model::moment::{moment_from_seconds, moment_of_seconds};
use crate::text::{decimal_text, join, joined, message_with_value, texts};

verus! {

/// A point in time and the candidate activities that were recognized then,
/// in the order of the source.
#[derive(Debug, PartialEq)]
pub struct Classification {
    pub timestamp: NaiveDateTime,
    pub activities: Vec<Activity>,
}

/// A classification as a mathematical value.
pub struct ClassificationView {
    pub timestamp: NaiveDateTime,
    pub activities: Seq<Activity>,
}

impl View for Classification {
    type V = ClassificationView;

    open spec fn view(&self) -> ClassificationView {
        ClassificationView { timestamp: self.timestamp, activities: self.activities@ }
    }
}

/// The views of a sequence of classifications.
pub open spec fn classification_views(items: Seq<Classification>) -> Seq<ClassificationView> {
    items.map_values(|item: Classification| item@)
}

/// Collects the fields of one classification and validates them on `build`.
pub struct ClassificationBuilder {
    errors: Vec<String>,
    timestamp_ms: Option<NaiveDateTime>,
    activities: Option<Vec<Activity>>,
}

/// What a `ClassificationBuilder` holds.
pub struct ClassificationBuilderView {
    /// The messages recorded so far, oldest first.
    pub errors: Seq<Seq<char>>,
    /// The point in time, if one was set.
    pub timestamp: Option<NaiveDateTime>,
    /// The activities, if they were set; an empty sequence counts as set.
    pub activities: Option<Seq<Activity>>,
}

impl ClassificationBuilderView {
    /// The view of a fresh builder.
    pub open spec fn empty() -> ClassificationBuilderView {
        ClassificationBuilderView { errors: Seq::empty(), timestamp: None, activities: None }
    }

    /// After a timestamp was set, given the date and time that chrono made
    /// of the seconds: where it made none, a message is recorded and the
    /// timestamp stays as it was.
    pub open spec fn with_moment(
        self,
        seconds: int,
        moment: Option<NaiveDateTime>,
    ) -> ClassificationBuilderView {
        match moment {
            Some(moment) => ClassificationBuilderView { timestamp: Some(moment), ..self },
            None => ClassificationBuilderView {
                errors: self.errors.push(
                    "classification.timestamp_ms out of range ("@ + decimal_text(seconds) + ")"@,
                ),
                ..self
            },
        }
    }

    /// After a timestamp was set.
    pub open spec fn with_timestamp(self, seconds: int) -> ClassificationBuilderView {
        self.with_moment(seconds, moment_of_seconds(seconds))
    }

    /// After the activities were set.
    pub open spec fn with_activities(self, activities: Seq<Activity>) -> ClassificationBuilderView {
        ClassificationBuilderView { activities: Some(activities), ..self }
    }

    /// Every message that `build` reports: those recorded, then one for each
    /// field that was never set.
    pub open spec fn all_errors(self) -> Seq<Seq<char>> {
        self.errors + (if self.timestamp is None {
            seq!["classification.timestamp_ms missing"@]
        } else {
            Seq::empty()
        }) + (if self.activities is None {
            seq!["classification.activities missing"@]
        } else {
            Seq::empty()
        })
    }

    /// What `build` returns.
    pub open spec fn built(self) -> Result<ClassificationView, Seq<char>> {
        if self.all_errors().len() == 0 {
            Ok(ClassificationView { timestamp: self.timestamp->0, activities: self.activities->0 })
        } else {
            Err(joined(self.all_errors(), "; "@))
        }
    }
}

impl View for ClassificationBuilder {
    type V = ClassificationBuilderView;

    closed spec fn view(&self) -> ClassificationBuilderView {
        ClassificationBuilderView {
            errors: texts(self.errors@),
            timestamp: self.timestamp_ms,
            activities: match self.activities {
                Some(activities) => Some(activities@),
                None => None,
            },
        }
    }
}

impl ClassificationBuilder {
    /// A builder with no field set and no message recorded.
    pub fn new() -> (builder: ClassificationBuilder)
        ensures
            builder@ == ClassificationBuilderView::empty(),
    {
        let builder = ClassificationBuilder {
            errors: Vec::new(),
            timestamp_ms: None,
            activities: None,
        };
        assert(builder@.errors =~= Seq::empty());
        builder
    }

    /// Sets the point in time, given in seconds since the epoch; a later
    /// call replaces an earlier one. Seconds that chrono cannot represent
    /// are recorded as a message; it can represent every count up to eight
    /// million millions on either side of the epoch.
    pub fn timestamp(&mut self, seconds: i64) -> (builder: &mut ClassificationBuilder)
        ensures
            builder@ == old(self)@.with_timestamp(seconds as int),
            *final(self) == *final(builder),
            -8_000_000_000_000 <= seconds <= 8_000_000_000_000 ==> moment_of_seconds(
                seconds as int,
            ) is Some,
    {
        self.set_moment(seconds, moment_from_seconds(seconds))
    }

    /// Sets the point in time to `moment`, the date and time that chrono
    /// made of `seconds`; where it made none, records that as a message.
    pub fn set_moment(&mut self, seconds: i64, moment: Option<NaiveDateTime>) -> (builder:
        &mut ClassificationBuilder)
        ensures
            builder@ == old(self)@.with_moment(seconds as int, moment),
            *final(self) == *final(builder),
    {
        match moment {
            Some(moment) => {
                self.timestamp_ms = Some(moment);
            },
            None => {
                let message = message_with_value(
                    "classification.timestamp_ms out of range (",
                    seconds,
                    ")",
                );
                proof {
                    assert(texts(self.errors@.push(message)) =~= texts(self.errors@).push(
                        message@,
                    ));
                }
                self.errors.push(message);
            },
        }
        self
    }

    /// Sets the activities; a later call replaces an earlier one.
    pub fn activities(&mut self, activities: Vec<Activity>) -> (builder: &mut ClassificationBuilder)
        ensures
            builder@ == old(self)@.with_activities(activities@),
            *final(self) == *final(builder),
    {
        self.activities = Some(activities);
        self
    }

    /// The classification, if both fields were set and nothing was
    /// recorded; else every message joined by `"; "`.
    pub fn build(self) -> (result: Result<Classification, String>)
        ensures
            match result {
                Ok(classification) => self@.built() == Ok::<ClassificationView, Seq<char>>(
                    classification@,
                ),
                Err(message) => self@.built() == Err::<ClassificationView, Seq<char>>(message@),
            },
    {
        let mut errors = self.errors;
        if self.timestamp_ms.is_none() {
            let message = String::from_str("classification.timestamp_ms missing");
            errors.push(message);
        }
        if self.activities.is_none() {
            let message = String::from_str("classification.activities missing");
            errors.push(message);
        }
        assert(texts(errors@) =~= self@.all_errors());
        if errors.len() == 0 {
            match (self.timestamp_ms, self.activities) {
                (Some(timestamp), Some(activities)) => Ok(Classification { timestamp, activities }),
                // not reached: a field that is missing has left its message
                _ => Err(String::new()),
            }
        } else {
            Err(join(&errors, "; "))
        }
    }
}

} // verus!
