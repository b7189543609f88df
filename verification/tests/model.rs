use chrono::DateTime;
use location_history::model::location::ACCURACY_MAX;
use location_history::model::{
    Activity, ActivityBuilder, Classification, ClassificationBuilder, Coordinates, LocationBuilder,
};

#[test]
fn activity_from_str_knows_the_catalog() {
    assert_eq!(Activity::from_str("UNKNOWN", 1), Some(Activity::Unknown(1)));
    assert_eq!(Activity::from_str("IN_VEHICLE", 2), Some(Activity::InVehicle(2)));
    assert_eq!(Activity::from_str("ON_BICYCLE", 3), Some(Activity::OnBicycle(3)));
    assert_eq!(Activity::from_str("ON_FOOT", 4), Some(Activity::OnFoot(4)));
    assert_eq!(Activity::from_str("WALKING", 5), Some(Activity::Walking(5)));
    assert_eq!(Activity::from_str("RUNNING", 6), Some(Activity::Running(6)));
    assert_eq!(Activity::from_str("STILL", 7), Some(Activity::Still(7)));
    assert_eq!(Activity::from_str("IN_ROAD_VEHICLE", 8), Some(Activity::InRoadVehicle(8)));
    assert_eq!(Activity::from_str("IN_RAIL_VEHICLE", 9), Some(Activity::InRailVehicle(9)));
    assert_eq!(
        Activity::from_str("IN_FOUR_WHEELER_VEHICLE", 10),
        Some(Activity::InFourWheelerVehicle(10))
    );
    assert_eq!(Activity::from_str("IN_CAR", 11), Some(Activity::InCar(11)));
}

#[test]
fn activity_from_str_rejects_other_tags() {
    assert_eq!(Activity::from_str("FLYING", 1), None);
    assert_eq!(Activity::from_str("walking", 1), None);
    assert_eq!(Activity::from_str("", 1), None);
    assert_eq!(Activity::from_str("WALKING ", 1), None);
    assert_eq!(Activity::from_str("IN_", 1), None);
}

#[test]
fn activity_builder_builds_a_valid_activity() {
    let mut builder = ActivityBuilder::new();
    builder.type_("WALKING".to_string()).confidence(80);
    assert_eq!(builder.build(), Ok(Activity::Walking(80)));

    let mut builder = ActivityBuilder::new();
    builder.confidence(0);
    builder.type_("STILL".to_string());
    assert_eq!(builder.build(), Ok(Activity::Still(0)));

    let mut builder = ActivityBuilder::new();
    builder.type_("IN_CAR".to_string()).confidence_from_integer(100);
    assert_eq!(builder.build(), Ok(Activity::InCar(100)));
}

#[test]
fn activity_builder_reports_every_missing_field() {
    assert_eq!(
        ActivityBuilder::new().build(),
        Err("activity.type missing; activity.confidence missing".to_string())
    );
    let mut builder = ActivityBuilder::new();
    builder.confidence(5);
    assert_eq!(builder.build(), Err("activity.type missing".to_string()));
    let mut builder = ActivityBuilder::new();
    builder.type_("WALKING".to_string());
    assert_eq!(builder.build(), Err("activity.confidence missing".to_string()));
}

#[test]
fn activity_builder_reports_confidence_out_of_range() {
    let mut builder = ActivityBuilder::new();
    builder.type_("WALKING".to_string()).confidence(101);
    assert_eq!(builder.build(), Err("activity.confidence out of range (101)".to_string()));

    let mut builder = ActivityBuilder::new();
    builder.confidence_from_integer(-1);
    assert_eq!(
        builder.build(),
        Err("activity.confidence out of range (-1); activity.type missing".to_string())
    );

    let mut builder = ActivityBuilder::new();
    builder.type_("WALKING".to_string()).confidence_from_integer(356);
    assert_eq!(builder.build(), Err("activity.confidence out of range (356)".to_string()));
}

#[test]
fn activity_builder_reports_an_unknown_tag() {
    let mut builder = ActivityBuilder::new();
    builder.type_("FLYING".to_string()).confidence(10);
    assert_eq!(builder.build(), Err("Unexpected activity type 'FLYING'".to_string()));
}

#[test]
fn setters_keep_the_latest_value() {
    let mut builder = ActivityBuilder::new();
    builder.type_("FLYING".to_string()).confidence(10);
    builder.type_("RUNNING".to_string()).confidence(20);
    assert_eq!(builder.build(), Ok(Activity::Running(20)));

    let mut builder = LocationBuilder::new();
    builder.timestamp(1).point_x(2).point_y(3).accuracy(4);
    builder.timestamp(10).point_x(20).point_y(30).accuracy(40);
    let location = builder.build().unwrap();
    assert_eq!(location.timestamp.and_utc().timestamp(), 10);
    assert_eq!(location.coordinates, Coordinates { x: 20, y: 30 });
    assert_eq!(location.accuracy, 40);
}

#[test]
fn classification_builder_builds_with_empty_activities() {
    let mut builder = ClassificationBuilder::new();
    builder.timestamp(1354530532).activities(vec![]);
    let classification = builder.build().unwrap();
    assert_eq!(
        classification.timestamp,
        DateTime::from_timestamp(1354530532, 0).unwrap().naive_utc()
    );
    assert!(classification.activities.is_empty());
}

#[test]
fn classification_builder_keeps_activities_in_order() {
    let mut builder = ClassificationBuilder::new();
    builder.activities(vec![Activity::Walking(60), Activity::Still(30), Activity::Walking(10)]);
    builder.timestamp(-1);
    assert_eq!(
        builder.build(),
        Ok(Classification {
            timestamp: DateTime::from_timestamp(-1, 0).unwrap().naive_utc(),
            activities: vec![Activity::Walking(60), Activity::Still(30), Activity::Walking(10)],
        })
    );
}

#[test]
fn classification_builder_reports_every_missing_field() {
    assert_eq!(
        ClassificationBuilder::new().build(),
        Err("classification.timestamp_ms missing; classification.activities missing".to_string())
    );
    let mut builder = ClassificationBuilder::new();
    builder.timestamp(5);
    assert_eq!(builder.build(), Err("classification.activities missing".to_string()));
    let mut builder = ClassificationBuilder::new();
    builder.activities(vec![]);
    assert_eq!(builder.build(), Err("classification.timestamp_ms missing".to_string()));
}

#[test]
fn timestamps_beyond_chrono_are_reported() {
    let mut builder = ClassificationBuilder::new();
    builder.timestamp(i64::MAX).activities(vec![]);
    assert_eq!(
        builder.build(),
        Err("classification.timestamp_ms out of range (9223372036854775807); \
             classification.timestamp_ms missing"
            .to_string())
    );

    let mut builder = LocationBuilder::new();
    builder.timestamp(5).timestamp(i64::MIN).point_x(1).point_y(2).accuracy(3);
    assert_eq!(
        builder.build(),
        Err("location.timestamp out of range (-9223372036854775808)".to_string())
    );

    let mut builder = LocationBuilder::new();
    builder.set_moment(77, None).point_x(1).point_y(2).accuracy(3);
    assert_eq!(
        builder.build(),
        Err("location.timestamp out of range (77); location.timestamp missing".to_string())
    );
}

#[test]
fn location_builder_builds_a_valid_location() {
    let mut builder = LocationBuilder::new();
    builder.timestamp(1000).point_x(86486560).point_y(498746569).accuracy(10);
    let location = builder.build().unwrap();
    assert_eq!(location.timestamp, DateTime::from_timestamp(1000, 0).unwrap().naive_utc());
    assert_eq!(location.timestamp.to_string(), "1970-01-01 00:16:40");
    assert_eq!(location.coordinates, Coordinates { x: 86486560, y: 498746569 });
    assert_eq!(location.accuracy, 10);
    assert!(location.classifications.is_empty());
}

#[test]
fn location_builder_takes_classifications() {
    let classification = Classification {
        timestamp: DateTime::from_timestamp(1, 0).unwrap().naive_utc(),
        activities: vec![Activity::OnFoot(50)],
    };
    let mut builder = LocationBuilder::new();
    builder.timestamp(1).point_x(2).point_y(3).accuracy(4);
    builder.classifications(vec![classification]);
    let location = builder.build().unwrap();
    assert_eq!(location.classifications.len(), 1);
    assert_eq!(location.classifications[0].activities, vec![Activity::OnFoot(50)]);
}

#[test]
fn location_missing_accuracy_and_longitude_reports_two_messages() {
    let mut builder = LocationBuilder::new();
    builder.timestamp(1000).point_y(498746569);
    let message = builder.build().unwrap_err();
    assert_eq!(message, "location.point_x missing; location.accuracy missing");
    assert_eq!(message.split("; ").count(), 2);
}

#[test]
fn location_builder_reports_every_missing_field() {
    assert_eq!(
        LocationBuilder::new().build(),
        Err("location.timestamp missing; location.point_x missing; \
             location.point_y missing; location.accuracy missing"
            .to_string())
    );
}

#[test]
fn location_builder_reports_accuracy_out_of_range() {
    assert_eq!(ACCURACY_MAX, 100);
    for accuracy in [-1, 101, 255, 256, 10001, i64::MIN, i64::MAX] {
        let mut builder = LocationBuilder::new();
        builder.timestamp(1).point_x(2).point_y(3).accuracy(accuracy);
        assert_eq!(
            builder.build(),
            Err(format!("location.accuracy out of range ({})", accuracy))
        );
    }
    for accuracy in [0, 1, 99, 100] {
        let mut builder = LocationBuilder::new();
        builder.timestamp(1).point_x(2).point_y(3).accuracy(accuracy);
        assert_eq!(builder.build().unwrap().accuracy as i64, accuracy);
    }
}

#[test]
fn recorded_messages_come_before_missing_fields() {
    let mut builder = LocationBuilder::new();
    builder.accuracy(500).accuracy(7).point_x(1);
    assert_eq!(
        builder.build(),
        Err("location.accuracy out of range (500); location.timestamp missing; \
             location.point_y missing"
            .to_string())
    );
}

#[test]
fn chrono_has_a_date_for_eight_million_million_seconds() {
    for seconds in [-8_000_000_000_000i64, -1, 0, 1, 8_000_000_000_000] {
        let mut builder = LocationBuilder::new();
        builder.timestamp(seconds).point_x(1).point_y(2).accuracy(3);
        assert_eq!(builder.build().unwrap().timestamp.and_utc().timestamp(), seconds);
    }
}
