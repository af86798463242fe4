use isignkit::instant::{parse_iso8601, parse_rfc3339, parse_string_seconds, DateTime};

/// Reads the `timestamp` member of a JSON object as a text of seconds since
/// the Unix epoch, as the repository formats write it.
fn timestamp_of(json: &str) -> Option<DateTime> {
    let value: serde_json::Value = serde_json::from_str(json).ok()?;
    let text = value.get("timestamp")?.as_str()?;
    parse_string_seconds(text)
}

#[test]
fn chrono_string_seconds_valid() {
    let json = r#"{"timestamp": "1695024538"}"#;
    let result = timestamp_of(json);
    assert_eq!(result.unwrap().timestamp(), 1_695_024_538);

    let json = r#"{"timestamp": "1695024538.111111"}"#;
    let result = timestamp_of(json);
    assert_eq!(result.unwrap().timestamp(), 1_695_024_538);
}

#[test]
fn chrono_string_seconds_invalid() {
    let json = r#"{"timestamp": 1695024538}"#;
    let result = timestamp_of(json);
    assert!(result.is_none());

    let json = r#"{"timestamp": "timestamp"}"#;
    let result = timestamp_of(json);
    assert!(result.is_none());
}

#[test]
fn serialize() {
    let timestamp = DateTime::from_timestamp(61, 0).unwrap();
    let mut object = serde_json::Map::new();
    object.insert("timestamp".to_string(), serde_json::Value::String(timestamp.format_seconds()));
    let result = serde_json::to_string(&object).unwrap();
    let json = r#"{"timestamp":"61"}"#;
    assert_eq!(result, json);
}

#[test]
fn string_seconds_read_fraction_as_nanoseconds() {
    // `%f` reads the digits after the dot as a count of nanoseconds
    let d = parse_string_seconds("1695024538.5").unwrap();
    assert_eq!(d.timestamp(), 1_695_024_538);
    assert_eq!(d.timestamp_subsec_nanos(), 5);
    let d = parse_string_seconds("1695024538.111111").unwrap();
    assert_eq!(d.timestamp_subsec_nanos(), 111_111);
}

#[test]
fn rfc3339_round_trip() {
    let d = parse_rfc3339("2023-09-18T08:08:58+00:00").unwrap();
    assert_eq!(d.timestamp(), 1_695_024_538);
    assert_eq!(d.to_rfc3339(), "2023-09-18T08:08:58+00:00");
    assert!(parse_rfc3339("2023-09-18").is_none());
}

#[test]
fn iso8601_forms() {
    assert_eq!(parse_iso8601("2023-09-18T08:08:58Z").unwrap().timestamp(), 1_695_024_538);
    assert_eq!(parse_iso8601("2023-09-18").unwrap().timestamp(), 1_694_995_200);
    assert!(parse_iso8601("yesterday").is_none());
}

#[test]
fn earlier_compares_instants() {
    let a = DateTime::from_timestamp(10, 0).unwrap();
    let b = DateTime::from_timestamp(10, 1).unwrap();
    assert!(a.is_earlier_than(&b));
    assert!(!b.is_earlier_than(&a));
    assert!(!a.is_earlier_than(&a));
}

#[test]
fn iso8601_date_with_minutes() {
    assert_eq!(parse_iso8601("2023-09-18T08:08").unwrap().timestamp(), 1_695_024_480);
    assert!(parse_iso8601("2023-09-18T08").is_none());
}

#[test]
fn representable_instants_end_where_chrono_ends() {
    assert!(DateTime::from_timestamp(8_210_266_876_799, 999_999_999).is_some());
    assert!(DateTime::from_timestamp(8_210_266_876_800, 0).is_none());
    assert!(DateTime::from_timestamp(-8_334_601_228_800, 0).is_some());
    assert!(DateTime::from_timestamp(-8_334_601_228_801, 0).is_none());
}

#[test]
fn nanoseconds_pass_a_second_only_in_a_leap_second() {
    assert!(DateTime::from_timestamp(59, 1_500_000_000).is_some());
    assert!(DateTime::from_timestamp(58, 1_000_000_000).is_none());
    assert!(DateTime::from_timestamp(-1, 1_999_999_999).is_some());
    assert!(DateTime::from_timestamp(0, 2_000_000_000).is_none());
}
