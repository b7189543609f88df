use location_history::es::{
    get_coordinates_between, map_activity_segement, map_place_visit,
    try_get_coordinates_between, try_map_activity_segement, GeoLineString,
};
use location_history::google;
use location_history::model::Coordinates;

fn raw(timestamp_ms: &str, latitude_e7: Option<i64>, longitude_e7: Option<i64>) -> google::RawLocation {
    google::RawLocation { timestamp_ms: timestamp_ms.to_string(), latitude_e7, longitude_e7 }
}

fn place(latitude_e7: Option<i64>, longitude_e7: Option<i64>) -> google::Location {
    google::Location { latitude_e7, longitude_e7, address: None, name: None }
}

fn segment(start: &str, end: &str) -> google::ActivitySegment {
    google::ActivitySegment {
        duration: google::Duration {
            start_timestamp_ms_string: start.to_string(),
            end_timestamp_ms_string: end.to_string(),
        },
        distance: Some(372),
        start_location: place(Some(498746569), Some(86486560)),
        end_location: place(Some(498743210), Some(86577130)),
        activity_type: "WALKING".to_string(),
        waypoint_path: Some(google::WaypointPath {
            waypoints: vec![
                google::Waypoint { lat_e7: 498776969, lng_e7: 86550121 },
                google::Waypoint { lat_e7: 498756523, lng_e7: 86569156 },
            ],
        }),
    }
}

#[test]
fn coordinates_between_takes_the_fixes_of_the_time() {
    let locations = vec![
        raw("100", Some(1), Some(10)),
        raw("200", Some(2), Some(20)),
        raw("300", None, Some(30)),
        raw("400", Some(4), Some(40)),
        raw("500", Some(5), Some(50)),
        raw("600", Some(6), Some(60)),
    ];
    assert_eq!(
        try_get_coordinates_between(200, 500, &locations),
        Some(vec![
            Coordinates { x: 20, y: 2 },
            Coordinates { x: 40, y: 4 },
            Coordinates { x: 50, y: 5 },
        ])
    );
    assert_eq!(try_get_coordinates_between(0, 99, &locations), Some(vec![]));
    assert_eq!(try_get_coordinates_between(601, 700, &locations), Some(vec![]));
    assert_eq!(try_get_coordinates_between(500, 200, &locations), Some(vec![]));
    assert_eq!(
        try_get_coordinates_between(600, 600, &locations),
        Some(vec![Coordinates { x: 60, y: 6 }])
    );
    assert_eq!(try_get_coordinates_between(0, 1000, &vec![]), Some(vec![]));
}

#[test]
fn coordinates_between_stops_at_the_first_fix_behind_the_end() {
    let locations = vec![
        raw("100", Some(1), Some(10)),
        raw("900", Some(9), Some(90)),
        raw("200", Some(2), Some(20)),
        raw("not a number", Some(3), Some(30)),
    ];
    assert_eq!(
        try_get_coordinates_between(100, 500, &locations),
        Some(vec![Coordinates { x: 10, y: 1 }])
    );
}

#[test]
fn coordinates_between_needs_the_timestamps_it_reads() {
    let locations = vec![raw("100", Some(1), Some(10)), raw("x", Some(2), Some(20))];
    assert_eq!(try_get_coordinates_between(100, 500, &locations), None);
    assert_eq!(try_get_coordinates_between(200, 500, &locations), None);
    assert_eq!(
        try_get_coordinates_between(0, 50, &locations),
        Some(vec![])
    );
    let locations = vec![raw("-5", Some(1), Some(10))];
    assert_eq!(try_get_coordinates_between(0, 50, &locations), None);
}

#[test]
fn to_coordinates_needs_both() {
    assert_eq!(
        place(Some(498746569), Some(86486560)).to_coordinates(),
        Some(Coordinates { x: 86486560, y: 498746569 })
    );
    assert_eq!(place(None, Some(86486560)).to_coordinates(), None);
    assert_eq!(place(Some(498746569), None).to_coordinates(), None);
    assert_eq!(place(None, None).to_coordinates(), None);
}

#[test]
fn line_string_of_points() {
    let line = GeoLineString::of(vec![Coordinates { x: 1, y: 2 }]);
    assert_eq!(line.kind, "linestring");
    assert_eq!(line.coordinates, vec![Coordinates { x: 1, y: 2 }]);
}

#[test]
fn activity_segment_is_mapped() {
    let locations = vec![
        raw("1354530532486", Some(1), Some(10)),
        raw("1354530532487", Some(2), Some(20)),
        raw("1354530712585", Some(3), Some(30)),
        raw("1354530712586", Some(4), Some(40)),
    ];
    let mapped = try_map_activity_segement(segment("1354530532487", "1354530712585"), &locations).unwrap();
    assert_eq!(mapped.start_timestamp, 1354530532487);
    assert_eq!(mapped.end_timestamp, 1354530712585);
    assert_eq!(mapped.distance, 372);
    assert_eq!(mapped.activity_type, "WALKING");
    let semantic = mapped.semantic_waypoints.unwrap();
    assert_eq!(semantic.kind, "linestring");
    assert_eq!(
        semantic.coordinates,
        vec![
            Coordinates { x: 86486560, y: 498746569 },
            Coordinates { x: 86550121, y: 498776969 },
            Coordinates { x: 86569156, y: 498756523 },
            Coordinates { x: 86577130, y: 498743210 },
        ]
    );
    let raw_line = mapped.raw_waypoints.unwrap();
    assert_eq!(
        raw_line.coordinates,
        vec![Coordinates { x: 20, y: 2 }, Coordinates { x: 30, y: 3 }]
    );
}

#[test]
fn activity_segment_without_ways() {
    let mut input = segment("10", "20");
    input.waypoint_path = None;
    input.distance = None;
    let mapped = try_map_activity_segement(input, &vec![]).unwrap();
    assert_eq!(mapped.distance, 0);
    assert!(mapped.semantic_waypoints.is_none());
    assert!(mapped.raw_waypoints.is_none());

    let mut input = segment("10", "20");
    input.waypoint_path = Some(google::WaypointPath { waypoints: vec![] });
    input.start_location = place(None, None);
    input.end_location = place(Some(1), None);
    let mapped = try_map_activity_segement(input, &vec![]).unwrap();
    assert!(mapped.semantic_waypoints.is_none());
}

#[test]
fn activity_segment_needs_its_timestamps() {
    assert!(try_map_activity_segement(segment("", "20"), &vec![]).is_none());
    assert!(try_map_activity_segement(segment("10", "2o"), &vec![]).is_none());
    assert!(try_map_activity_segement(segment("-10", "20"), &vec![]).is_none());
    assert!(try_map_activity_segement(segment("10", "20"), &vec![raw("?", None, None)]).is_none());
}

#[test]
fn place_visit_is_mapped() {
    let _mapped = map_place_visit(google::PlaceVisit {});
}

#[test]
fn mapping_with_readable_timestamps() {
    let locations = vec![
        raw("100", Some(1), Some(10)),
        raw("200", Some(2), Some(20)),
        raw("300", Some(3), Some(30)),
    ];
    assert_eq!(
        get_coordinates_between(150, 300, &locations),
        vec![Coordinates { x: 20, y: 2 }, Coordinates { x: 30, y: 3 }]
    );
    let mapped = map_activity_segement(segment("100", "200"), &locations);
    assert_eq!(mapped.start_timestamp, 100);
    assert_eq!(mapped.end_timestamp, 200);
    assert_eq!(
        mapped.raw_waypoints.unwrap().coordinates,
        vec![Coordinates { x: 10, y: 1 }, Coordinates { x: 20, y: 2 }]
    );
    assert_eq!(mapped.semantic_waypoints.unwrap().coordinates.len(), 4);
}
