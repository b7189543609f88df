use location_history::gtimeline::classification_iterator::collect_activities;
use location_history::gtimeline::fields::{
    decode_latitude_e7, decode_longitude_e7, expect_array_start, expect_integer, expect_seconds,
    expect_string,
};
use location_history::gtimeline::location_iterator::collect_classifications;
use location_history::gtimeline::{
    parse, parse_locations, try_parse_locations, ActivityIterator, ClassificationIterator, LocationIterator,
    ParseError, StructureError,
};
use location_history::json::{JsonTokenizer, LexError, Token};
use location_history::model::Activity;

fn tokenizer(source: &str) -> JsonTokenizer<&[u8]> {
    JsonTokenizer::new(source.as_bytes())
}

#[test]
fn latitude_decoding() {
    assert_eq!(decode_latitude_e7(498746569), 498746569);
    assert_eq!(decode_latitude_e7(498746569) as f64 / 1e7, 49.8746569);
    assert_eq!(decode_latitude_e7(950000000), 950000000 - 4294967296);
    assert_eq!(decode_latitude_e7(950000000), -3344967296);
    assert_eq!(decode_latitude_e7(950000000) as f64 / 1e7, -334.4967296);
    assert_eq!(decode_latitude_e7(900000000), 900000000);
    assert_eq!(decode_latitude_e7(900000001), -3394967295);
    assert_eq!(decode_latitude_e7(4294967295), -1);
    assert_eq!(decode_latitude_e7(-337000000), -337000000);
    assert_eq!(decode_latitude_e7(i64::MAX), i64::MAX - 4294967296);
    assert_eq!(decode_latitude_e7(i64::MIN), i64::MIN);
}

#[test]
fn longitude_decoding() {
    assert_eq!(decode_longitude_e7(86486560), 86486560);
    assert_eq!(decode_longitude_e7(86486560) as f64 / 1e7, 8.648656);
    assert_eq!(decode_longitude_e7(1800000000), 1800000000);
    assert_eq!(decode_longitude_e7(1800000001), 1800000001 - 4294967296);
    assert_eq!(decode_longitude_e7(1850000000), -2444967296);
    assert_eq!(decode_longitude_e7(1850000000) as f64 / 1e7, -244.4967296);
    assert_eq!(decode_longitude_e7(950000000), 950000000);
    assert_eq!(decode_longitude_e7(4294967295 - 1224000000), -1224000001);
}

#[test]
fn expect_functions_take_one_token() {
    let mut cursor = tokenizer(r#""text" 12 [ "1999" "-1999" "1.5" 7"#);
    assert_eq!(expect_string(&mut cursor), Ok("text".to_string()));
    assert_eq!(expect_integer(&mut cursor), Ok(12));
    assert_eq!(expect_array_start(&mut cursor), Ok(()));
    assert_eq!(expect_seconds(&mut cursor), Ok(1));
    assert_eq!(expect_seconds(&mut cursor), Ok(-1));
    assert_eq!(expect_seconds(&mut cursor), Err(StructureError::InvalidTimestamp));
    assert_eq!(expect_seconds(&mut cursor), Err(StructureError::UnexpectedToken));
    assert_eq!(expect_string(&mut cursor), Err(StructureError::UnexpectedEnd));
    assert_eq!(cursor.try_next_token(), Ok(None));
}

#[test]
fn expect_functions_report_other_tokens() {
    let mut cursor = tokenizer(r#"1 "a" { tru"#);
    assert_eq!(expect_string(&mut cursor), Err(StructureError::UnexpectedToken));
    assert_eq!(expect_integer(&mut cursor), Err(StructureError::UnexpectedToken));
    assert_eq!(expect_array_start(&mut cursor), Err(StructureError::UnexpectedToken));
    assert_eq!(
        expect_array_start(&mut cursor),
        Err(StructureError::Lex(LexError::MalformedLiteral))
    );
}

#[test]
fn timestamps_are_cut_to_seconds() {
    for (text, seconds) in [
        ("\"0\"", 0),
        ("\"999\"", 0),
        ("\"1000\"", 1),
        ("\"1000000\"", 1000),
        ("\"1354530532487\"", 1354530532),
        ("\"-1\"", 0),
        ("\"-1000\"", -1),
        ("\"-1001\"", -1),
        ("\"+2500\"", 2),
    ] {
        assert_eq!(expect_seconds(&mut tokenizer(text)), Ok(seconds), "{}", text);
    }
}

#[test]
fn activity_iterator_pulls_until_the_array_ends() {
    let mut cursor = tokenizer(
        r#"{"type":"WALKING","confidence":80},{"confidence":5,"type":"FLYING"},{"type":"STILL"}] 7"#,
    );
    let mut activities = ActivityIterator::new(&mut cursor);
    assert_eq!(activities.try_next(), Some(Ok(Activity::Walking(80))));
    assert_eq!(
        activities.try_next(),
        Some(Err(ParseError::Invalid("Unexpected activity type 'FLYING'".to_string())))
    );
    assert_eq!(
        activities.try_next(),
        Some(Err(ParseError::Invalid("activity.confidence missing".to_string())))
    );
    assert_eq!(activities.try_next(), None);
    assert_eq!(cursor.try_next_token(), Ok(Some(Token::Integer(7))));
}

#[test]
fn activity_iterator_reports_structural_failures() {
    for (source, error) in [
        (r#"{"type":1}"#, StructureError::UnexpectedToken),
        (r#"{"confidence":"1"}"#, StructureError::UnexpectedToken),
        (r#"{"kind":"WALKING"}"#, StructureError::UnknownField),
        (r#"{"type":"WALKING""#, StructureError::UnexpectedEnd),
        (r#"{"type""#, StructureError::UnexpectedToken),
        (r#"{["#, StructureError::UnexpectedToken),
        (r#"7"#, StructureError::UnexpectedToken),
        (r#""#, StructureError::UnexpectedEnd),
        (r#"{"type":x"#, StructureError::Lex(LexError::UnexpectedCharacter(b'x'))),
        (r#"{"confidence":1.2.3"#, StructureError::Lex(LexError::MalformedNumber)),
    ] {
        let mut cursor = tokenizer(source);
        assert_eq!(
            ActivityIterator::new(&mut cursor).try_next(),
            Some(Err(ParseError::Corrupt(error))),
            "{}",
            source
        );
    }
}

#[test]
fn confidence_out_of_range_is_a_validation_failure() {
    for confidence in ["101", "256", "356", "-1", "9223372036854775807"] {
        let source = format!(r#"{{"type":"WALKING","confidence":{}}}"#, confidence);
        let mut cursor = tokenizer(&source);
        assert_eq!(
            ActivityIterator::new(&mut cursor).try_next(),
            Some(Err(ParseError::Invalid(format!(
                "activity.confidence out of range ({})",
                confidence
            ))))
        );
    }
}

#[test]
fn collect_activities_keeps_valid_entries_in_order() {
    let mut cursor = tokenizer(
        r#"{"type":"WALKING","confidence":1},{"type":"FLYING","confidence":2},
           {"type":"STILL","confidence":3},{"type":"RUNNING","confidence":200},{},
           {"type":"WALKING","confidence":6}] "behind""#,
    );
    assert_eq!(
        collect_activities(&mut cursor),
        Ok(vec![Activity::Walking(1), Activity::Still(3), Activity::Walking(6)])
    );
    assert_eq!(cursor.try_next_token(), Ok(Some(Token::String("behind".to_string()))));

    assert_eq!(collect_activities(&mut tokenizer("]")), Ok(vec![]));
    assert_eq!(
        collect_activities(&mut tokenizer(r#"{"type":"WALKING","confidence":1},{"speed":1}]"#)),
        Err(StructureError::UnknownField)
    );
    assert_eq!(
        collect_activities(&mut tokenizer(r#"{"type":"WALKING","confidence":1}"#)),
        Err(StructureError::UnexpectedEnd)
    );
}

#[test]
fn classification_still_builds_with_malformed_activities() {
    let mut cursor = tokenizer(
        r#"{"timestampMs":"5000","activity":[
             {"type":"FLYING","confidence":1},
             {"type":"ON_FOOT","confidence":2},
             {"confidence":3},
             {"type":"IN_VEHICLE","confidence":4},
             {"type":"IN_VEHICLE","confidence":400}]}]"#,
    );
    let mut classifications = ClassificationIterator::new(&mut cursor);
    let classification = classifications.try_next().unwrap().unwrap();
    assert_eq!(classification.timestamp.and_utc().timestamp(), 5);
    assert_eq!(classification.activities, vec![Activity::OnFoot(2), Activity::InVehicle(4)]);
    assert_eq!(classifications.try_next(), None);

    let mut cursor = tokenizer(
        r#"{"activity":[{"type":"FLYING","confidence":1},{}],"timestampMs":"5000"}"#,
    );
    let classification = ClassificationIterator::new(&mut cursor).try_next().unwrap().unwrap();
    assert!(classification.activities.is_empty());
}

#[test]
fn classification_iterator_reports_failures() {
    let mut cursor = tokenizer(r#"{"timestampMs":"5000"},{"activity":[]},{"timestampMs":"x"}"#);
    let mut classifications = ClassificationIterator::new(&mut cursor);
    assert_eq!(
        classifications.try_next(),
        Some(Err(ParseError::Invalid("classification.activities missing".to_string())))
    );
    assert_eq!(
        classifications.try_next(),
        Some(Err(ParseError::Invalid("classification.timestamp_ms missing".to_string())))
    );
    assert_eq!(
        classifications.try_next(),
        Some(Err(ParseError::Corrupt(StructureError::InvalidTimestamp)))
    );

    for (source, error) in [
        (r#"{"activity":{}}"#, StructureError::UnexpectedToken),
        (r#"{"activity":[{"type":1}]}"#, StructureError::UnexpectedToken),
        (r#"{"activity":[7]}"#, StructureError::UnexpectedToken),
        (r#"{"activity":["#, StructureError::UnexpectedEnd),
        (r#"{"timestampMs":5000}"#, StructureError::UnexpectedToken),
        (r#"{"timestamp":"5000"}"#, StructureError::UnknownField),
        (r#"{"timestampMs":"9223372036854775808"}"#, StructureError::InvalidTimestamp),
    ] {
        let mut cursor = tokenizer(source);
        assert_eq!(
            ClassificationIterator::new(&mut cursor).try_next(),
            Some(Err(ParseError::Corrupt(error))),
            "{}",
            source
        );
    }
}

#[test]
fn collect_classifications_leaves_out_invalid_entries() {
    let mut cursor = tokenizer(
        r#"{"timestampMs":"1000","activity":[]},{"activity":[]},
           {"timestampMs":"3000","activity":[{"type":"STILL","confidence":9}]}] 1"#,
    );
    let classifications = collect_classifications(&mut cursor).unwrap();
    assert_eq!(classifications.len(), 2);
    assert_eq!(classifications[0].timestamp.and_utc().timestamp(), 1);
    assert_eq!(classifications[1].timestamp.and_utc().timestamp(), 3);
    assert_eq!(classifications[1].activities, vec![Activity::Still(9)]);
    assert_eq!(cursor.try_next_token(), Ok(Some(Token::Integer(1))));
}

#[test]
fn coordinates_are_decoded_on_the_way() {
    let source = r#"{"locations":[
        {"timestampMs":"0","latitudeE7":950000000,"longitudeE7":1850000000,"accuracy":0},
        {"timestampMs":"0","latitudeE7":-337000000,"longitudeE7":1511000000,"accuracy":100}]}"#;
    let mut locations = try_parse_locations(tokenizer(source)).unwrap();
    let first = locations.try_next().unwrap().unwrap();
    assert_eq!(first.coordinates.y, -3344967296);
    assert_eq!(first.coordinates.x, -2444967296);
    let second = locations.try_next().unwrap().unwrap();
    assert_eq!(second.coordinates.y, -337000000);
    assert_eq!(second.coordinates.x, 1511000000);
    assert_eq!(second.accuracy, 100);
    assert_eq!(locations.try_next(), None);
}

#[test]
fn records_come_in_document_order_and_only_once() {
    let mut source = String::from(r#"{"locations":["#);
    for i in 0..300 {
        source.push_str(&format!(
            r#"{{"timestampMs":"{}000","latitudeE7":{},"longitudeE7":{},"accuracy":{}}},"#,
            i,
            i * 10,
            i * 100,
            i % 101
        ));
    }
    source.push_str("]}");
    let mut locations = try_parse_locations(tokenizer(&source)).unwrap();
    for i in 0..300 {
        let location = locations.try_next().unwrap().unwrap();
        assert_eq!(location.timestamp.and_utc().timestamp(), i);
        assert_eq!(location.coordinates.y, i * 10);
        assert_eq!(location.coordinates.x, i * 100);
        assert_eq!(location.accuracy as i64, i % 101);
    }
    for _ in 0..3 {
        assert_eq!(locations.try_next(), None);
    }
}

#[test]
fn the_consumer_may_stop_early() {
    let source = r#"{"locations":[
        {"timestampMs":"1000","latitudeE7":1,"longitudeE7":2,"accuracy":3}, garbage"#;
    let mut locations = try_parse_locations(tokenizer(source)).unwrap();
    assert!(locations.try_next().unwrap().is_ok());
}

#[test]
fn the_input_may_end_behind_a_record() {
    let source = r#"{"locations":[{"timestampMs":"1000","latitudeE7":1,"longitudeE7":2,"accuracy":3}"#;
    let mut locations = try_parse_locations(tokenizer(source)).unwrap();
    assert!(locations.try_next().unwrap().is_ok());
    assert_eq!(locations.try_next(), None);
    assert_eq!(locations.try_next(), None);
}

#[test]
fn a_truncated_record_is_corrupt() {
    let source = r#"{"locations":[{"timestampMs":"1000","latitudeE7":1"#;
    let mut locations = try_parse_locations(tokenizer(source)).unwrap();
    assert_eq!(
        locations.try_next(),
        Some(Err(ParseError::Corrupt(StructureError::UnexpectedEnd)))
    );
    assert_eq!(locations.try_next(), None);
}

#[test]
fn location_iterator_reports_structural_failures() {
    for (body, error) in [
        (r#"7"#, StructureError::UnexpectedToken),
        (r#"{"latitudeE7":"1"}"#, StructureError::UnexpectedToken),
        (r#"{"longitudeE7":1.5}"#, StructureError::UnexpectedToken),
        (r#"{"accuracy":null}"#, StructureError::UnexpectedToken),
        (r#"{"timestampMs":"12ab"}"#, StructureError::InvalidTimestamp),
        (r#"{"velocity":1}"#, StructureError::UnknownField),
        (r#"{"activity":7}"#, StructureError::UnexpectedToken),
        (r#"{"activity":[{"timestampMs":"1","activity":[{"type":7}]}]}"#, StructureError::UnexpectedToken),
        (r#"{"accuracy":1 "x"}"#, StructureError::UnexpectedToken),
        (r#"{"accuracy":é}"#, StructureError::Lex(LexError::NonAscii)),
    ] {
        let source = format!(r#"{{"locations":[{}]}}"#, body);
        let mut locations = try_parse_locations(tokenizer(&source)).unwrap();
        assert_eq!(
            locations.try_next(),
            Some(Err(ParseError::Corrupt(error))),
            "{}",
            body
        );
        assert_eq!(locations.try_next(), None);
    }
}

#[test]
fn location_iterator_on_a_bare_array() {
    let mut locations = LocationIterator::new(tokenizer(
        r#"{"timestampMs":"1000","latitudeE7":1,"longitudeE7":2,"accuracy":3}]"#,
    ));
    assert!(locations.try_next().unwrap().is_ok());
    assert_eq!(locations.try_next(), None);
}

#[test]
fn parse_is_parse_locations() {
    let source = r#"{"locations":[{"timestampMs":"1000","latitudeE7":1,"longitudeE7":2,"accuracy":3}]}"#;
    let mut locations = parse(tokenizer(source));
    let location = locations.next().unwrap().unwrap();
    assert_eq!(location.timestamp.and_utc().timestamp(), 1);
    assert_eq!(locations.next(), None);
    let mut locations = parse_locations(tokenizer(source));
    let location = locations.next().unwrap().unwrap();
    assert_eq!(location.timestamp.and_utc().timestamp(), 1);
    assert_eq!(locations.next(), None);
}

#[test]
fn sound_input_is_pulled_without_a_failure_to_tell() {
    let source = r#"{"locations":[
        {"timestampMs":"1000","latitudeE7":1,"longitudeE7":2,"accuracy":3,
         "activity":[{"timestampMs":"4000","activity":[
            {"type":"STILL","confidence":100},{"type":"FLYING","confidence":1}]},
            {"activity":[]}]},
        {"timestampMs":"2000","latitudeE7":4},
        {"timestampMs":"3000","latitudeE7":4,"longitudeE7":5,"accuracy":6}]}"#;
    let mut locations = parse_locations(tokenizer(source));
    let first = locations.next().unwrap().unwrap();
    assert_eq!(first.classifications.len(), 1);
    assert_eq!(first.classifications[0].activities, vec![Activity::Still(100)]);
    assert_eq!(
        locations.next(),
        Some(Err("location.point_x missing; location.accuracy missing".to_string()))
    );
    let third = locations.next().unwrap().unwrap();
    assert_eq!(third.timestamp.and_utc().timestamp(), 3);
    assert_eq!(locations.next(), None);
    assert_eq!(locations.next(), None);
}

#[test]
fn inner_iterators_on_sound_input() {
    let mut cursor = tokenizer(
        r#"{"type":"WALKING","confidence":80},{"confidence":5,"type":"FLYING"}] 7"#,
    );
    let mut activities = ActivityIterator::new(&mut cursor);
    assert_eq!(activities.next(), Some(Ok(Activity::Walking(80))));
    assert_eq!(activities.next(), Some(Err("Unexpected activity type 'FLYING'".to_string())));
    assert_eq!(activities.next(), None);
    assert_eq!(cursor.next_token(), Some(Token::Integer(7)));

    let mut cursor = tokenizer(
        r#"{"timestampMs":"5000","activity":[{"type":"ON_FOOT","confidence":2}]},{"activity":[]}]"#,
    );
    let mut classifications = ClassificationIterator::new(&mut cursor);
    let classification = classifications.next().unwrap().unwrap();
    assert_eq!(classification.activities, vec![Activity::OnFoot(2)]);
    assert_eq!(
        classifications.next(),
        Some(Err("classification.timestamp_ms missing".to_string()))
    );
    assert_eq!(classifications.next(), None);
    assert_eq!(cursor.next_token(), None);
}
