//! One position fix: when, where, how accurate, and what the device was
//! thought to be doing.

use vstd::prelude::*;
use chrono::NaiveDateTime;
use crate::model::classification::{classification_views, Classification, ClassificationView};
use crate::model::moment::{moment_from_seconds, moment_of_seconds};
use crate::model::percent::Percent;
use crate::text::{decimal_text, join, joined, message_with_value, texts};

verus! {

/// The greatest accuracy value that a location may carry.
pub const ACCURACY_MAX: i64 = 100;

/// A position in degrees times ten million: `x` is the longitude, `y` the
/// latitude.
#[derive(Debug, PartialEq, Eq, Clone, Copy, Structural)]
pub struct Coordinates {
    pub x: i64,
    pub y: i64,
}

/// One position fix. A value of this type is made by `LocationBuilder`
/// alone, from fields that were all present and in range.
#[derive(Debug, PartialEq)]
pub struct Location {
    pub timestamp: NaiveDateTime,
    pub coordinates: Coordinates,
    pub accuracy: i32,
    pub classifications: Vec<Classification>,
}

/// A location as a mathematical value.
pub struct LocationView {
    pub timestamp: NaiveDateTime,
    pub coordinates: Coordinates,
    pub accuracy: i32,
    pub classifications: Seq<ClassificationView>,
}

impl View for Location {
    type V = LocationView;

    open spec fn view(&self) -> LocationView {
        LocationView {
            timestamp: self.timestamp,
            coordinates: self.coordinates,
            accuracy: self.accuracy,
            classifications: classification_views(self.classifications@),
        }
    }
}

/// Collects the fields of one location and validates them on `build`.
pub struct LocationBuilder {
    errors: Vec<String>,
    timestamp: Option<NaiveDateTime>,
    point_x: Option<i64>,
    point_y: Option<i64>,
    accuracy: Option<Percent>,
    classifications: Option<Vec<Classification>>,
}

/// What a `LocationBuilder` holds.
pub struct LocationBuilderView {
    /// The messages recorded so far, oldest first.
    pub errors: Seq<Seq<char>>,
    /// The point in time, if one was set.
    pub timestamp: Option<NaiveDateTime>,
    /// The longitude in degrees times ten million, if it was set.
    pub point_x: Option<i64>,
    /// The latitude in degrees times ten million, if it was set.
    pub point_y: Option<i64>,
    /// The accuracy, if it was set; 0 in place of a value out of range.
    pub accuracy: Option<u8>,
    /// The classifications, if they were set.
    pub classifications: Option<Seq<ClassificationView>>,
}

impl LocationBuilderView {
    /// The view of a fresh builder.
    pub open spec fn empty() -> LocationBuilderView {
        LocationBuilderView {
            errors: Seq::empty(),
            timestamp: None,
            point_x: None,
            point_y: None,
            accuracy: None,
            classifications: None,
        }
    }

    /// After a timestamp was set, given the date and time that chrono made
    /// of the seconds: where it made none, a message is recorded and the
    /// timestamp stays as it was.
    pub open spec fn with_moment(
        self,
        seconds: int,
        moment: Option<NaiveDateTime>,
    ) -> LocationBuilderView {
        match moment {
            Some(moment) => LocationBuilderView { timestamp: Some(moment), ..self },
            None => LocationBuilderView {
                errors: self.errors.push(
                    "location.timestamp out of range ("@ + decimal_text(seconds) + ")"@,
                ),
                ..self
            },
        }
    }

    /// After a timestamp was set.
    pub open spec fn with_timestamp(self, seconds: int) -> LocationBuilderView {
        self.with_moment(seconds, moment_of_seconds(seconds))
    }

    /// After the longitude was set.
    pub open spec fn with_point_x(self, value: i64) -> LocationBuilderView {
        LocationBuilderView { point_x: Some(value), ..self }
    }

    /// After the latitude was set.
    pub open spec fn with_point_y(self, value: i64) -> LocationBuilderView {
        LocationBuilderView { point_y: Some(value), ..self }
    }

    /// After an accuracy was set: a value outside 0 to `ACCURACY_MAX` leaves
    /// a message and 0.
    pub open spec fn with_accuracy(self, value: int) -> LocationBuilderView {
        if 0 <= value <= ACCURACY_MAX {
            LocationBuilderView { accuracy: Some(value as u8), ..self }
        } else {
            LocationBuilderView {
                errors: self.errors.push(
                    "location.accuracy out of range ("@ + decimal_text(value) + ")"@,
                ),
                accuracy: Some(0u8),
                ..self
            }
        }
    }

    /// After the classifications were set.
    pub open spec fn with_classifications(
        self,
        classifications: Seq<ClassificationView>,
    ) -> LocationBuilderView {
        LocationBuilderView { classifications: Some(classifications), ..self }
    }

    /// The messages for the required fields that were never set, in the
    /// order timestamp, longitude, latitude, accuracy.
    pub open spec fn missing(self) -> Seq<Seq<char>> {
        (if self.timestamp is None {
            seq!["location.timestamp missing"@]
        } else {
            Seq::empty()
        }) + (if self.point_x is None {
            seq!["location.point_x missing"@]
        } else {
            Seq::empty()
        }) + (if self.point_y is None {
            seq!["location.point_y missing"@]
        } else {
            Seq::empty()
        }) + (if self.accuracy is None {
            seq!["location.accuracy missing"@]
        } else {
            Seq::empty()
        })
    }

    /// How many of the four required fields were never set.
    pub open spec fn missing_count(self) -> nat {
        (if self.timestamp is None {
            1nat
        } else {
            0nat
        }) + (if self.point_x is None {
            1nat
        } else {
            0nat
        }) + (if self.point_y is None {
            1nat
        } else {
            0nat
        }) + (if self.accuracy is None {
            1nat
        } else {
            0nat
        })
    }

    /// Every message that `build` reports: those recorded, then those for
    /// the missing fields.
    pub open spec fn all_errors(self) -> Seq<Seq<char>> {
        self.errors + self.missing()
    }

    /// What `build` returns. Classifications that were never set count as
    /// none.
    pub open spec fn built(self) -> Result<LocationView, Seq<char>> {
        if self.all_errors().len() == 0 {
            Ok(
                LocationView {
                    timestamp: self.timestamp->0,
                    coordinates: Coordinates { x: self.point_x->0, y: self.point_y->0 },
                    accuracy: self.accuracy->0 as i32,
                    classifications: match self.classifications {
                        Some(classifications) => classifications,
                        None => Seq::empty(),
                    },
                },
            )
        } else {
            Err(joined(self.all_errors(), "; "@))
        }
    }
}

impl View for LocationBuilder {
    type V = LocationBuilderView;

    closed spec fn view(&self) -> LocationBuilderView {
        LocationBuilderView {
            errors: texts(self.errors@),
            timestamp: self.timestamp,
            point_x: self.point_x,
            point_y: self.point_y,
            accuracy: match self.accuracy {
                Some(percent) => Some(percent.value),
                None => None,
            },
            classifications: match self.classifications {
                Some(classifications) => Some(classification_views(classifications@)),
                None => None,
            },
        }
    }
}

impl LocationBuilder {
    /// A builder with no field set and no message recorded.
    pub fn new() -> (builder: LocationBuilder)
        ensures
            builder@ == LocationBuilderView::empty(),
    {
        let builder = LocationBuilder {
            errors: Vec::new(),
            timestamp: None,
            point_x: None,
            point_y: None,
            accuracy: None,
            classifications: None,
        };
        assert(builder@.errors =~= Seq::empty());
        builder
    }

    /// Sets the point in time, given in seconds since the epoch; a later
    /// call replaces an earlier one. Seconds that chrono cannot represent
    /// are recorded as a message; it can represent every count up to eight
    /// million millions on either side of the epoch.
    pub fn timestamp(&mut self, seconds: i64) -> (builder: &mut LocationBuilder)
        ensures
            builder@ == old(self)@.with_timestamp(seconds as int),
            *final(self) == *final(builder),
            -8_000_000_000_000 <= seconds <= 8_000_000_000_000 ==> moment_of_seconds(
                seconds as int,
            ) is Some,
    {
        self.set_moment(seconds, moment_from_seconds(seconds))
    }

    /// Sets the point in time to `moment`, the date and time that chrono
    /// made of `seconds`; where it made none, records that as a message.
    pub fn set_moment(&mut self, seconds: i64, moment: Option<NaiveDateTime>) -> (builder:
        &mut LocationBuilder)
        ensures
            builder@ == old(self)@.with_moment(seconds as int, moment),
            *final(self) == *final(builder),
    {
        match moment {
            Some(moment) => {
                self.timestamp = Some(moment);
            },
            None => {
                let message = message_with_value("location.timestamp out of range (", seconds, ")");
                proof {
                    assert(texts(self.errors@.push(message)) =~= texts(self.errors@).push(
                        message@,
                    ));
                }
                self.errors.push(message);
            },
        }
        self
    }

    /// Sets the longitude, in degrees times ten million; a later call
    /// replaces an earlier one.
    pub fn point_x(&mut self, val: i64) -> (builder: &mut LocationBuilder)
        ensures
            builder@ == old(self)@.with_point_x(val),
            *final(self) == *final(builder),
    {
        self.point_x = Some(val);
        self
    }

    /// Sets the latitude, in degrees times ten million; a later call
    /// replaces an earlier one.
    pub fn point_y(&mut self, val: i64) -> (builder: &mut LocationBuilder)
        ensures
            builder@ == old(self)@.with_point_y(val),
            *final(self) == *final(builder),
    {
        self.point_y = Some(val);
        self
    }

    /// Sets the accuracy; a later call replaces an earlier one. A value
    /// outside 0 to `ACCURACY_MAX` is recorded as a message and replaced by
    /// 0.
    pub fn accuracy(&mut self, val: i64) -> (builder: &mut LocationBuilder)
        ensures
            builder@ == old(self)@.with_accuracy(val as int),
            *final(self) == *final(builder),
    {
        if val < 0 || val > ACCURACY_MAX {
            let message = message_with_value("location.accuracy out of range (", val, ")");
            proof {
                assert(texts(self.errors@.push(message)) =~= texts(self.errors@).push(message@));
            }
            self.errors.push(message);
            self.accuracy = Some(Percent { value: 0 });
        } else {
            self.accuracy = Some(Percent { value: val as u8 });
        }
        self
    }

    /// Sets the classifications; a later call replaces an earlier one.
    pub fn classifications(&mut self, activity_classifications: Vec<Classification>) -> (builder:
        &mut LocationBuilder)
        ensures
            builder@ == old(self)@.with_classifications(
                classification_views(activity_classifications@),
            ),
            *final(self) == *final(builder),
    {
        self.classifications = Some(activity_classifications);
        self
    }

    /// The location, if the four required fields were set and nothing was
    /// recorded; else every message joined by `"; "`.
    pub fn build(self) -> (result: Result<Location, String>)
        ensures
            match result {
                Ok(location) => self@.built() == Ok::<LocationView, Seq<char>>(location@),
                Err(message) => self@.built() == Err::<LocationView, Seq<char>>(message@),
            },
            result matches Ok(location) ==> 0 <= location.accuracy <= ACCURACY_MAX,
    {
        let mut errors = self.errors;
        if self.timestamp.is_none() {
            let message = String::from_str("location.timestamp missing");
            errors.push(message);
        }
        if self.point_x.is_none() {
            let message = String::from_str("location.point_x missing");
            errors.push(message);
        }
        if self.point_y.is_none() {
            let message = String::from_str("location.point_y missing");
            errors.push(message);
        }
        if self.accuracy.is_none() {
            let message = String::from_str("location.accuracy missing");
            errors.push(message);
        }
        assert(texts(errors@) =~= self@.all_errors());
        if errors.len() == 0 {
            match (self.timestamp, self.point_x, self.point_y, self.accuracy) {
                (Some(timestamp), Some(x), Some(y), Some(accuracy)) => {
                    proof {
                        use_type_invariant(&accuracy);
                    }
                    let classifications = match self.classifications {
                        Some(classifications) => classifications,
                        None => {
                            let none: Vec<Classification> = Vec::new();
                            assert(classification_views(none@) =~= Seq::empty());
                            none
                        },
                    };
                    Ok(
                        Location {
                            timestamp,
                            coordinates: Coordinates { x, y },
                            accuracy: accuracy.value as i32,
                            classifications,
                        },
                    )
                },
                // not reached: a field that is missing has left its message
                _ => Err(String::new()),
            }
        } else {
            Err(join(&errors, "; "))
        }
    }
}

/// A builder reports one message for each recorded complaint and one for
/// each required field that was never set, and builds a location only where
/// there is none of either.
pub proof fn lemma_every_gap_is_reported(builder: LocationBuilderView)
    ensures
        builder.all_errors().len() == builder.errors.len() + builder.missing_count(),
        builder.built() is Ok <==> builder.errors.len() == 0 && builder.missing_count() == 0,
{
}

/// Setters do not depend on one another and keep the latest value: setting
/// a field twice is worth setting it once to the second value, and two
/// fields may be set in either order.
pub proof fn lemma_setters_keep_latest(
    builder: LocationBuilderView,
    earlier: i64,
    later: i64,
    other: i64,
    first: Seq<ClassificationView>,
    second: Seq<ClassificationView>,
)
    ensures
        builder.with_point_x(earlier).with_point_x(later) == builder.with_point_x(later),
        builder.with_point_y(earlier).with_point_y(later) == builder.with_point_y(later),
        builder.with_classifications(first).with_classifications(second)
            == builder.with_classifications(second),
        builder.with_point_x(later).with_point_y(other) == builder.with_point_y(
            other,
        ).with_point_x(later),
        builder.with_point_x(later).with_classifications(second) == builder.with_classifications(
            second,
        ).with_point_x(later),
{
}

/// An accuracy that is set twice keeps the second value where that is in
/// range, and what the first call recorded stays recorded.
pub proof fn lemma_accuracy_keeps_latest(builder: LocationBuilderView, earlier: int, later: int)
    requires
        0 <= later <= ACCURACY_MAX,
    ensures
        builder.with_accuracy(earlier).with_accuracy(later).accuracy == Some(later as u8),
        builder.with_accuracy(earlier).with_accuracy(later).errors == builder.with_accuracy(
            earlier,
        ).errors,
{
}

} // verus!
