//! Activity segments as the search index takes them, and the mapping from
//! the records of the export.
//!
//! Coordinates stay in degrees times ten million, `x` the longitude and `y`
//! the latitude. The average speed of a segment is a quotient of floating
//! point numbers and is left to the caller, who finds the distance and both
//! timestamps in the mapped segment.

use vstd::prelude::*;
use crate::google;
use crate::google::RawLocation;
use crate::model::location::Coordinates;
use crate::text::{parse_u64, u64_of_text};

verus! {

/// An activity segment, ready for the index.
#[derive(Debug, PartialEq, Eq)]
pub struct ActivitySegment {
    /// Milliseconds since the epoch.
    pub start_timestamp: u64,
    /// Milliseconds since the epoch.
    pub end_timestamp: u64,
    /// Metres; 0 where the export gave none.
    pub distance: i32,
    pub activity_type: String,
    /// The way as the export describes it: start, waypoints, end.
    pub semantic_waypoints: Option<GeoLineString>,
    /// The way as the raw position fixes of that time describe it.
    pub raw_waypoints: Option<GeoLineString>,
}

/// A place visit, ready for the index.
#[derive(Debug, PartialEq, Eq)]
pub struct PlaceVisit {}

/// A line through a sequence of points.
#[derive(Debug, PartialEq, Eq)]
pub struct GeoLineString {
    /// Always `linestring`.
    pub kind: String,
    pub coordinates: Vec<Coordinates>,
}

/// A line as a mathematical value.
pub struct GeoLineStringView {
    pub kind: Seq<char>,
    pub coordinates: Seq<Coordinates>,
}

impl View for GeoLineString {
    type V = GeoLineStringView;

    open spec fn view(&self) -> GeoLineStringView {
        GeoLineStringView { kind: self.kind@, coordinates: self.coordinates@ }
    }
}

/// An activity segment as a mathematical value.
pub struct ActivitySegmentView {
    pub start_timestamp: u64,
    pub end_timestamp: u64,
    pub distance: i32,
    pub activity_type: Seq<char>,
    pub semantic_waypoints: Option<GeoLineStringView>,
    pub raw_waypoints: Option<GeoLineStringView>,
}

impl View for ActivitySegment {
    type V = ActivitySegmentView;

    open spec fn view(&self) -> ActivitySegmentView {
        ActivitySegmentView {
            start_timestamp: self.start_timestamp,
            end_timestamp: self.end_timestamp,
            distance: self.distance,
            activity_type: self.activity_type@,
            semantic_waypoints: match self.semantic_waypoints {
                Some(line) => Some(line@),
                None => None,
            },
            raw_waypoints: match self.raw_waypoints {
                Some(line) => Some(line@),
                None => None,
            },
        }
    }
}

/// The line through the given points, if there are any.
pub open spec fn line_through(points: Seq<Coordinates>) -> Option<GeoLineStringView> {
    if points.len() == 0 {
        None
    } else {
        Some(GeoLineStringView { kind: "linestring"@, coordinates: points })
    }
}

/// The point of a pair of coordinates, if both are there.
pub open spec fn point_of(latitude_e7: Option<i64>, longitude_e7: Option<i64>) -> Option<
    Coordinates,
> {
    match (latitude_e7, longitude_e7) {
        (Some(lat_e7), Some(lng_e7)) => Some(Coordinates { x: lng_e7, y: lat_e7 }),
        _ => None,
    }
}

/// A point as a sequence of no or one point.
pub open spec fn point_seq(point: Option<Coordinates>) -> Seq<Coordinates> {
    match point {
        Some(p) => seq![p],
        None => Seq::empty(),
    }
}

/// The points of a sequence of waypoints.
pub open spec fn waypoint_points(waypoints: Seq<google::Waypoint>) -> Seq<Coordinates> {
    waypoints.map_values(|w: google::Waypoint| Coordinates { x: w.lng_e7, y: w.lat_e7 })
}

/// The points of the way as the export describes it: the start where it has
/// coordinates, the waypoints, the end where it has coordinates. None where
/// the segment has no waypoint path.
pub open spec fn semantic_points(segment: google::ActivitySegment) -> Seq<Coordinates> {
    match segment.waypoint_path {
        Some(path) => point_seq(
            point_of(segment.start_location.latitude_e7, segment.start_location.longitude_e7),
        ) + waypoint_points(path.waypoints@) + point_seq(
            point_of(segment.end_location.latitude_e7, segment.end_location.longitude_e7),
        ),
        None => Seq::empty(),
    }
}

/// The timestamp of a raw location, if it is an unsigned number.
pub open spec fn timestamp_of(location: RawLocation) -> Option<u64> {
    u64_of_text(location.timestamp_ms@)
}

/// The points of the raw locations from index `from` on that are taken:
/// those up to the first whose timestamp lies behind `end`, as far as they
/// have both coordinates. `None` where a timestamp that has to be read is
/// no number.
pub open spec fn taken_points(locations: Seq<RawLocation>, end: u64, from: int) -> Option<
    Seq<Coordinates>,
>
    decreases locations.len() - from,
{
    if from < 0 || from >= locations.len() {
        Some(Seq::empty())
    } else {
        match timestamp_of(locations[from]) {
            None => None,
            Some(timestamp) => if timestamp <= end {
                match taken_points(locations, end, from + 1) {
                    Some(tail) => Some(
                        point_seq(
                            point_of(locations[from].latitude_e7, locations[from].longitude_e7),
                        ) + tail,
                    ),
                    None => None,
                }
            } else {
                Some(Seq::empty())
            },
        }
    }
}

/// The points of the raw locations between two timestamps, both included:
/// the locations from index `from` on are passed over as long as their
/// timestamp lies before `start`, and taken from the first on that does
/// not. `None` where a timestamp that has to be read is no number.
pub open spec fn points_between(
    locations: Seq<RawLocation>,
    start: u64,
    end: u64,
    from: int,
) -> Option<Seq<Coordinates>>
    decreases locations.len() - from,
{
    if from < 0 || from >= locations.len() {
        Some(Seq::empty())
    } else {
        match timestamp_of(locations[from]) {
            None => None,
            Some(timestamp) => if timestamp < start {
                points_between(locations, start, end, from + 1)
            } else {
                taken_points(locations, end, from)
            },
        }
    }
}

/// What `map_activity_segement` makes of a segment and the raw locations;
/// `None` where a timestamp that it has to read is no unsigned number.
pub open spec fn mapped_segment(
    segment: google::ActivitySegment,
    raw_locations: Seq<RawLocation>,
) -> Option<ActivitySegmentView> {
    match (
        u64_of_text(segment.duration.start_timestamp_ms_string@),
        u64_of_text(segment.duration.end_timestamp_ms_string@),
    ) {
        (Some(start), Some(end)) => match points_between(raw_locations, start, end, 0) {
            Some(raw_points) => Some(
                ActivitySegmentView {
                    start_timestamp: start,
                    end_timestamp: end,
                    distance: match segment.distance {
                        Some(distance) => distance,
                        None => 0,
                    },
                    activity_type: segment.activity_type@,
                    semantic_waypoints: line_through(semantic_points(segment)),
                    raw_waypoints: line_through(raw_points),
                },
            ),
            None => None,
        },
        _ => None,
    }
}

/// Maps an activity segment of the export, together with the raw locations
/// of its time, to the segment that the index takes. Every timestamp that
/// the mapping has to read must be an unsigned number: where one may not
/// be, `try_map_activity_segement` is the function to call.
pub fn map_activity_segement(
    google_activity_segment: google::ActivitySegment,
    raw_locations: &Vec<RawLocation>,
) -> (mapped: ActivitySegment)
    requires
        mapped_segment(google_activity_segment, raw_locations@) is Some,
    ensures
        mapped_segment(google_activity_segment, raw_locations@) == Some(mapped@),
{
    match try_map_activity_segement(google_activity_segment, raw_locations) {
        Some(mapped) => mapped,
        None => vstd::pervasive::unreached(),
    }
}

/// Maps an activity segment of the export, together with the raw locations
/// of its time, to the segment that the index takes. `None` where a
/// timestamp that the mapping has to read is no unsigned number.
pub fn try_map_activity_segement(
    google_activity_segment: google::ActivitySegment,
    raw_locations: &Vec<RawLocation>,
) -> (mapped: Option<ActivitySegment>)
    ensures
        match mapped {
            Some(segment) => mapped_segment(google_activity_segment, raw_locations@) == Some(
                segment@,
            ),
            None => mapped_segment(google_activity_segment, raw_locations@) is None,
        },
{
    let start_timestamp = match parse_u64(
        google_activity_segment.duration.start_timestamp_ms_string.as_str(),
    ) {
        Some(timestamp) => timestamp,
        None => {
            return None;
        },
    };
    let end_timestamp = match parse_u64(
        google_activity_segment.duration.end_timestamp_ms_string.as_str(),
    ) {
        Some(timestamp) => timestamp,
        None => {
            return None;
        },
    };
    let distance = match google_activity_segment.distance {
        Some(distance) => distance,
        None => 0,
    };
    let raw_coordinates = match try_get_coordinates_between(
        start_timestamp,
        end_timestamp,
        raw_locations,
    ) {
        Some(coordinates) => coordinates,
        None => {
            return None;
        },
    };
    let semantic_coordinates = match &google_activity_segment.waypoint_path {
        Some(path) => {
            let start_coordindate = google_activity_segment.start_location.to_coordinates();
            let end_coordindate = google_activity_segment.end_location.to_coordinates();
            let mut coordinates: Vec<Coordinates> = Vec::new();
            if let Some(start) = start_coordindate {
                coordinates.push(start);
            }
            let ghost head = coordinates@;
            let mut i: usize = 0;
            while i < path.waypoints.len()
                invariant
                    i <= path.waypoints@.len(),
                    coordinates@ == head + waypoint_points(path.waypoints@).take(i as int),
                decreases path.waypoints@.len() - i,
            {
                let waypoint = &path.waypoints[i];
                coordinates.push(Coordinates { x: waypoint.lng_e7, y: waypoint.lat_e7 });
                i += 1;
            }
            if let Some(end) = end_coordindate {
                coordinates.push(end);
            }
            assert(coordinates@ =~= semantic_points(google_activity_segment));
            coordinates
        },
        None => Vec::new(),
    };
    let semantic_waypoints = if semantic_coordinates.len() == 0 {
        None
    } else {
        Some(GeoLineString::of(semantic_coordinates))
    };
    let raw_waypoints = if raw_coordinates.len() == 0 {
        None
    } else {
        Some(GeoLineString::of(raw_coordinates))
    };
    Some(
        ActivitySegment {
            start_timestamp,
            end_timestamp,
            distance,
            activity_type: google_activity_segment.activity_type,
            semantic_waypoints,
            raw_waypoints,
        },
    )
}

/// The points of the raw locations between two timestamps, both included.
/// The locations are read in order: those before `start_timestamp` are
/// passed over, the following are taken up to the first that lies behind
/// `end_timestamp`, and of those taken the ones with both coordinates give a
/// point. Every timestamp that has to be read must be an unsigned number:
/// where one may not be, `try_get_coordinates_between` is the function to
/// call.
pub fn get_coordinates_between(
    start_timestamp: u64,
    end_timestamp: u64,
    raw_locations: &Vec<RawLocation>,
) -> (coordinates: Vec<Coordinates>)
    requires
        points_between(raw_locations@, start_timestamp, end_timestamp, 0) is Some,
    ensures
        points_between(raw_locations@, start_timestamp, end_timestamp, 0) == Some(coordinates@),
{
    match try_get_coordinates_between(start_timestamp, end_timestamp, raw_locations) {
        Some(coordinates) => coordinates,
        None => vstd::pervasive::unreached(),
    }
}

/// The points of the raw locations between two timestamps, both included,
/// read as `get_coordinates_between` reads them. `None` where a timestamp
/// that has to be read is no unsigned number.
pub fn try_get_coordinates_between(
    start_timestamp: u64,
    end_timestamp: u64,
    raw_locations: &Vec<RawLocation>,
) -> (coordinates: Option<Vec<Coordinates>>)
    ensures
        match coordinates {
            Some(points) => points_between(raw_locations@, start_timestamp, end_timestamp, 0)
                == Some(points@),
            None => points_between(raw_locations@, start_timestamp, end_timestamp, 0) is None,
        },
{
    let mut i: usize = 0;
    loop
        invariant_except_break
            points_between(raw_locations@, start_timestamp, end_timestamp, 0) == points_between(
                raw_locations@,
                start_timestamp,
                end_timestamp,
                i as int,
            ),
        invariant
            i <= raw_locations@.len(),
        ensures
            points_between(raw_locations@, start_timestamp, end_timestamp, 0) == taken_points(
                raw_locations@,
                end_timestamp,
                i as int,
            ),
        decreases raw_locations@.len() - i,
    {
        if i >= raw_locations.len() {
            break ;
        }
        match parse_u64(raw_locations[i].timestamp_ms.as_str()) {
            None => {
                return None;
            },
            Some(timestamp) => {
                if timestamp < start_timestamp {
                    i += 1;
                } else {
                    break ;
                }
            },
        }
    }
    let mut points: Vec<Coordinates> = Vec::new();
    let ghost first = i as int;
    while i < raw_locations.len()
        invariant
            i <= raw_locations@.len(),
            points_between(raw_locations@, start_timestamp, end_timestamp, 0) == taken_points(
                raw_locations@,
                end_timestamp,
                first,
            ),
            taken_points(raw_locations@, end_timestamp, first) == match taken_points(
                raw_locations@,
                end_timestamp,
                i as int,
            ) {
                Some(tail) => Some(points@ + tail),
                None => None,
            },
        decreases raw_locations@.len() - i,
    {
        let location = &raw_locations[i];
        match parse_u64(location.timestamp_ms.as_str()) {
            None => {
                return None;
            },
            Some(timestamp) => {
                if timestamp > end_timestamp {
                    return Some(points);
                }
                match (location.latitude_e7, location.longitude_e7) {
                    (Some(lat_e7), Some(lng_e7)) => {
                        points.push(Coordinates { x: lng_e7, y: lat_e7 });
                    },
                    _ => {},
                }
                i += 1;
            },
        }
    }
    Some(points)
}

impl google::Location {
    /// The point of the place, if it has both coordinates.
    pub fn to_coordinates(&self) -> (point: Option<Coordinates>)
        ensures
            point == point_of(self.latitude_e7, self.longitude_e7),
    {
        if let (Some(lat_e7), Some(lng_e7)) = (self.latitude_e7, self.longitude_e7) {
            Some(Coordinates { x: lng_e7, y: lat_e7 })
        } else {
            None
        }
    }
}

/// Maps a place visit of the export to the one that the index takes.
pub fn map_place_visit(place_visit: google::PlaceVisit) -> (mapped: PlaceVisit)
    ensures
        mapped == (PlaceVisit {  }),
{
    PlaceVisit {  }
}

impl GeoLineString {
    /// The line through the given points.
    pub fn of(coordinates: Vec<Coordinates>) -> (line: GeoLineString)
        ensures
            line@ == (GeoLineStringView { kind: "linestring"@, coordinates: coordinates@ }),
    {
        GeoLineString { kind: String::from_str("linestring"), coordinates }
    }
}

/// Whether every timestamp is an unsigned number and none is smaller than
/// one before it.
pub open spec fn ascending(locations: Seq<RawLocation>) -> bool {
    &&& forall|i: int| 0 <= i < locations.len() ==> (#[trigger] timestamp_of(locations[i])) is Some
    &&& forall|i: int, j: int|
        0 <= i <= j < locations.len() ==> (#[trigger] timestamp_of(locations[i]))->0 <= (
        #[trigger] timestamp_of(locations[j]))->0
}

/// The points of the raw locations from index `from` on whose timestamp
/// lies between `start` and `end`, both included.
pub open spec fn points_within(
    locations: Seq<RawLocation>,
    start: u64,
    end: u64,
    from: int,
) -> Seq<Coordinates>
    decreases locations.len() - from,
{
    if from < 0 || from >= locations.len() {
        Seq::empty()
    } else {
        (match timestamp_of(locations[from]) {
            Some(timestamp) if start <= timestamp <= end => point_seq(
                point_of(locations[from].latitude_e7, locations[from].longitude_e7),
            ),
            _ => Seq::empty(),
        }) + points_within(locations, start, end, from + 1)
    }
}

/// Where the raw locations are in the order of their time, the points
/// between two timestamps are the points of exactly the locations whose
/// timestamp lies between the two.
pub proof fn lemma_points_between_of_ascending(locations: Seq<RawLocation>, start: u64, end: u64)
    requires
        ascending(locations),
    ensures
        points_between(locations, start, end, 0) == Some(points_within(locations, start, end, 0)),
{
    lemma_passed_over_lie_before(locations, start, end, 0);
}

proof fn lemma_passed_over_lie_before(
    locations: Seq<RawLocation>,
    start: u64,
    end: u64,
    from: int,
)
    requires
        ascending(locations),
        0 <= from <= locations.len(),
    ensures
        points_between(locations, start, end, from) == Some(
            points_within(locations, start, end, from),
        ),
    decreases locations.len() - from,
{
    if from < locations.len() {
        let timestamp = timestamp_of(locations[from])->0;
        if timestamp < start {
            lemma_passed_over_lie_before(locations, start, end, from + 1);
        } else {
            lemma_taken_lie_within(locations, start, end, from);
        }
    }
}

proof fn lemma_taken_lie_within(locations: Seq<RawLocation>, start: u64, end: u64, from: int)
    requires
        ascending(locations),
        0 <= from <= locations.len(),
        from < locations.len() ==> timestamp_of(locations[from])->0 >= start,
    ensures
        taken_points(locations, end, from) == Some(points_within(locations, start, end, from)),
    decreases locations.len() - from,
{
    if from < locations.len() {
        let timestamp = timestamp_of(locations[from])->0;
        if timestamp <= end {
            lemma_taken_lie_within(locations, start, end, from + 1);
        } else {
            lemma_none_lie_behind(locations, start, end, from);
        }
    }
}

proof fn lemma_none_lie_behind(locations: Seq<RawLocation>, start: u64, end: u64, from: int)
    requires
        ascending(locations),
        0 <= from <= locations.len(),
        from < locations.len() ==> timestamp_of(locations[from])->0 > end,
    ensures
        points_within(locations, start, end, from) == Seq::<Coordinates>::empty(),
    decreases locations.len() - from,
{
    if from < locations.len() {
        lemma_none_lie_behind(locations, start, end, from + 1);
    }
}

} // verus!
