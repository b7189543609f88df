//! A recognized way of moving, with the confidence of its recognition.

use vstd::prelude::*;
use crate::model::percent::Percent;
use crate::text::{decimal_text, join, joined, message_with_text, message_with_value, str_eq, texts};

verus! {

/// One kind of movement out of a closed catalog, with a confidence from 0
/// to 100.
#[derive(Debug, PartialEq, Eq, Clone, Copy, Structural)]
pub enum Activity {
    Unknown(u8),
    InVehicle(u8),
    OnBicycle(u8),
    OnFoot(u8),
    Walking(u8),
    Running(u8),
    Still(u8),
    InRoadVehicle(u8),
    InRailVehicle(u8),
    InFourWheelerVehicle(u8),
    InCar(u8),
}

impl View for Activity {
    type V = Activity;

    open spec fn view(&self) -> Activity {
        *self
    }
}

impl Activity {
    /// The activity that a tag names, with the confidence `v`; `None` for a
    /// tag outside the catalog.
    pub open spec fn tagged(tag: Seq<char>, v: u8) -> Option<Activity> {
        if tag == "UNKNOWN"@ {
            Some(Activity::Unknown(v))
        } else if tag == "IN_VEHICLE"@ {
            Some(Activity::InVehicle(v))
        } else if tag == "ON_BICYCLE"@ {
            Some(Activity::OnBicycle(v))
        } else if tag == "ON_FOOT"@ {
            Some(Activity::OnFoot(v))
        } else if tag == "WALKING"@ {
            Some(Activity::Walking(v))
        } else if tag == "RUNNING"@ {
            Some(Activity::Running(v))
        } else if tag == "STILL"@ {
            Some(Activity::Still(v))
        } else if tag == "IN_ROAD_VEHICLE"@ {
            Some(Activity::InRoadVehicle(v))
        } else if tag == "IN_RAIL_VEHICLE"@ {
            Some(Activity::InRailVehicle(v))
        } else if tag == "IN_FOUR_WHEELER_VEHICLE"@ {
            Some(Activity::InFourWheelerVehicle(v))
        } else if tag == "IN_CAR"@ {
            Some(Activity::InCar(v))
        } else {
            None
        }
    }

    /// The confidence that the activity carries.
    pub open spec fn confidence(self) -> u8 {
        match self {
            Activity::Unknown(v) => v,
            Activity::InVehicle(v) => v,
            Activity::OnBicycle(v) => v,
            Activity::OnFoot(v) => v,
            Activity::Walking(v) => v,
            Activity::Running(v) => v,
            Activity::Still(v) => v,
            Activity::InRoadVehicle(v) => v,
            Activity::InRailVehicle(v) => v,
            Activity::InFourWheelerVehicle(v) => v,
            Activity::InCar(v) => v,
        }
    }

    /// The activity that the tag `s` names, with the confidence `v`.
    pub fn from_str(s: &str, v: u8) -> (activity: Option<Activity>)
        ensures
            activity == Activity::tagged(s@, v),
    {
        if str_eq(s, "UNKNOWN") {
            Some(Activity::Unknown(v))
        } else if str_eq(s, "IN_VEHICLE") {
            Some(Activity::InVehicle(v))
        } else if str_eq(s, "ON_BICYCLE") {
            Some(Activity::OnBicycle(v))
        } else if str_eq(s, "ON_FOOT") {
            Some(Activity::OnFoot(v))
        } else if str_eq(s, "WALKING") {
            Some(Activity::Walking(v))
        } else if str_eq(s, "RUNNING") {
            Some(Activity::Running(v))
        } else if str_eq(s, "STILL") {
            Some(Activity::Still(v))
        } else if str_eq(s, "IN_ROAD_VEHICLE") {
            Some(Activity::InRoadVehicle(v))
        } else if str_eq(s, "IN_RAIL_VEHICLE") {
            Some(Activity::InRailVehicle(v))
        } else if str_eq(s, "IN_FOUR_WHEELER_VEHICLE") {
            Some(Activity::InFourWheelerVehicle(v))
        } else if str_eq(s, "IN_CAR") {
            Some(Activity::InCar(v))
        } else {
            None
        }
    }
}

/// Collects the fields of one activity and validates them on `build`.
pub struct ActivityBuilder {
    errors: Vec<String>,
    tag: Option<String>,
    confidence: Option<Percent>,
}


/// What an `ActivityBuilder` holds.
pub struct ActivityBuilderView {
    /// The messages recorded so far, oldest first.
    pub errors: Seq<Seq<char>>,
    /// The type tag, if one was set.
    pub tag: Option<Seq<char>>,
    /// The confidence, if one was set; 0 in place of a value out of range.
    pub confidence: Option<u8>,
}

impl ActivityBuilderView {
    /// The view of a fresh builder.
    pub open spec fn empty() -> ActivityBuilderView {
        ActivityBuilderView { errors: Seq::empty(), tag: None, confidence: None }
    }

    /// After the type tag was set.
    pub open spec fn with_type(self, tag: Seq<char>) -> ActivityBuilderView {
        ActivityBuilderView { tag: Some(tag), ..self }
    }

    /// After a confidence was set: a value above 100 leaves a message and 0.
    pub open spec fn with_confidence(self, value: int) -> ActivityBuilderView {
        if 0 <= value <= 100 {
            ActivityBuilderView { confidence: Some(value as u8), ..self }
        } else {
            ActivityBuilderView {
                errors: self.errors.push(
                    "activity.confidence out of range ("@ + decimal_text(value) + ")"@,
                ),
                confidence: Some(0u8),
                ..self
            }
        }
    }

    /// Every message that `build` reports: those recorded, then one for each
    /// field that was never set.
    pub open spec fn all_errors(self) -> Seq<Seq<char>> {
        self.errors + (if self.tag is None {
            seq!["activity.type missing"@]
        } else {
            Seq::empty()
        }) + (if self.confidence is None {
            seq!["activity.confidence missing"@]
        } else {
            Seq::empty()
        })
    }

    /// What `build` returns.
    pub open spec fn built(self) -> Result<Activity, Seq<char>> {
        if self.all_errors().len() == 0 {
            match Activity::tagged(self.tag->0, self.confidence->0) {
                Some(activity) => Ok(activity),
                None => Err("Unexpected activity type '"@ + self.tag->0 + "'"@),
            }
        } else {
            Err(joined(self.all_errors(), "; "@))
        }
    }
}

impl View for ActivityBuilder {
    type V = ActivityBuilderView;

    closed spec fn view(&self) -> ActivityBuilderView {
        ActivityBuilderView {
            errors: texts(self.errors@),
            tag: match self.tag {
                Some(tag) => Some(tag@),
                None => None,
            },
            confidence: match self.confidence {
                Some(percent) => Some(percent.value),
                None => None,
            },
        }
    }
}

impl ActivityBuilder {
    /// A builder with no field set and no message recorded.
    pub fn new() -> (builder: ActivityBuilder)
        ensures
            builder@ == ActivityBuilderView::empty(),
    {
        let builder = ActivityBuilder { errors: Vec::new(), tag: None, confidence: None };
        assert(builder@.errors =~= Seq::empty());
        builder
    }

    /// Sets the type tag; a later call replaces an earlier one.
    pub fn type_(&mut self, value: String) -> (builder: &mut ActivityBuilder)
        ensures
            builder@ == old(self)@.with_type(value@),
            *final(self) == *final(builder),
    {
        self.tag = Some(value);
        self
    }

    /// Sets the confidence; a later call replaces an earlier one. A value
    /// above 100 is recorded as a message and replaced by 0.
    pub fn confidence(&mut self, value: u8) -> (builder: &mut ActivityBuilder)
        ensures
            builder@ == old(self)@.with_confidence(value as int),
            *final(self) == *final(builder),
    {
        self.confidence_from_integer(value as i64)
    }

    /// Sets the confidence from an integer of any size; one outside 0 to 100
    /// is recorded as a message and replaced by 0.
    pub fn confidence_from_integer(&mut self, value: i64) -> (builder: &mut ActivityBuilder)
        ensures
            builder@ == old(self)@.with_confidence(value as int),
            *final(self) == *final(builder),
    {
        if value < 0 || value > 100 {
            let message = message_with_value("activity.confidence out of range (", value, ")");
            proof {
                assert(texts(self.errors@.push(message)) =~= texts(self.errors@).push(message@));
            }
            self.errors.push(message);
            self.confidence = Some(Percent { value: 0 });
        } else {
            self.confidence = Some(Percent { value: value as u8 });
        }
        self
    }

    /// The activity, if both fields were set, the confidence was in range
    /// and the tag is in the catalog; else every message joined by `"; "`,
    /// or the complaint about the tag.
    pub fn build(self) -> (result: Result<Activity, String>)
        ensures
            match result {
                Ok(activity) => self@.built() == Ok::<Activity, Seq<char>>(activity),
                Err(message) => self@.built() == Err::<Activity, Seq<char>>(message@),
            },
            result matches Ok(activity) ==> activity.confidence() <= 100,
    {
        let mut errors = self.errors;
        if self.tag.is_none() {
            let message = String::from_str("activity.type missing");
            errors.push(message);
        }
        if self.confidence.is_none() {
            let message = String::from_str("activity.confidence missing");
            errors.push(message);
        }
        assert(texts(errors@) =~= self@.all_errors());
        if errors.len() == 0 {
            match (self.tag, self.confidence) {
                (Some(tag), Some(confidence)) => {
                    proof {
                        use_type_invariant(&confidence);
                    }
                    match Activity::from_str(tag.as_str(), confidence.value) {
                        Some(activity) => Ok(activity),
                        None => Err(
                            message_with_text("Unexpected activity type '", tag.as_str(), "'"),
                        ),
                    }
                },
                // not reached: a field that is missing has left its message
                _ => Err(String::new()),
            }
        } else {
            Err(join(&errors, "; "))
        }
    }
}

} // verus!
