//! The records of a semantic location history, as the export holds them.
//! Coordinates are degrees times ten million; timestamps are texts that
//! hold milliseconds since the epoch.

use vstd::prelude::*;

verus! {

/// One line of the export: an activity segment, a place visit, or neither.
#[derive(Debug, PartialEq, Eq)]
pub struct Wrapper {
    pub activity_segment: Option<ActivitySegment>,
    pub place_visit: Option<PlaceVisit>,
}

/// A stretch of movement between two places.
#[derive(Debug, PartialEq, Eq)]
pub struct ActivitySegment {
    pub duration: Duration,
    /// The distance covered, in metres.
    pub distance: Option<i32>,
    pub start_location: Location,
    pub end_location: Location,
    pub activity_type: String,
    pub waypoint_path: Option<WaypointPath>,
}

/// A stay at one place.
#[derive(Debug, PartialEq, Eq)]
pub struct PlaceVisit {}

/// A place at one end of an activity segment.
#[derive(Debug, PartialEq, Eq)]
pub struct Location {
    pub latitude_e7: Option<i64>,
    pub longitude_e7: Option<i64>,
    pub address: Option<String>,
    pub name: Option<String>,
}

/// The start and the end of an activity segment.
#[derive(Debug, PartialEq, Eq)]
pub struct Duration {
    pub start_timestamp_ms_string: String,
    pub end_timestamp_ms_string: String,
}

/// The points that an activity segment passed through.
#[derive(Debug, PartialEq, Eq)]
pub struct WaypointPath {
    pub waypoints: Vec<Waypoint>,
}

/// One point on the way.
#[derive(Debug, PartialEq, Eq)]
pub struct Waypoint {
    pub lat_e7: i64,
    pub lng_e7: i64,
}

/// One raw position fix.
#[derive(Debug, PartialEq, Eq)]
pub struct RawLocation {
    pub timestamp_ms: String,
    pub latitude_e7: Option<i64>,
    pub longitude_e7: Option<i64>,
}

} // verus!
