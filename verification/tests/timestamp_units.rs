use to_unix_timestamp::kind::ValueKind;
use to_unix_timestamp::timestamp::Timestamp;
use to_unix_timestamp::to_unix_timestamp::Unit;
use to_unix_timestamp::value::Value;

#[test]
fn unit_round_trip_and_names() {
    assert_eq!(Unit::Seconds.as_str(), "seconds");
    assert_eq!(Unit::Milliseconds.as_str(), "milliseconds");
    assert_eq!(Unit::Nanoseconds.as_str(), "nanoseconds");
    assert_eq!(Unit::from_str("seconds"), Ok(Unit::Seconds));
    assert_eq!(Unit::from_str("milliseconds"), Ok(Unit::Milliseconds));
    assert_eq!(Unit::from_str("nanoseconds"), Ok(Unit::Nanoseconds));
    assert_eq!(Unit::from_str("hours"), Err("unit not recognized"));
    assert_eq!(Unit::all_str(), vec!["seconds", "milliseconds", "nanoseconds"]);
    assert_eq!(Unit::default(), Unit::Seconds);
}

#[test]
fn timestamp_new_checks_sub_second_part() {
    assert!(Timestamp::new(0, 999_999_999).is_some());
    assert!(Timestamp::new(0, 1_000_000_000).is_none());
}

#[test]
fn epoch_counts_at_epoch() {
    let t = Timestamp::from_civil(1970, 1, 1, 0, 0, 0, 0).unwrap();
    assert_eq!(t.epoch_seconds(), 0);
    assert_eq!(t.epoch_millis(), Some(0));
    assert_eq!(t.epoch_nanos(), Some(0));
}

#[test]
fn epoch_counts_floor_before_epoch() {
    // Half a second before the epoch: counts are floors, never rounded
    // toward zero.
    let t = Timestamp::new(-1, 500_000_000).unwrap();
    assert_eq!(t.epoch_seconds(), -1);
    assert_eq!(t.epoch_millis(), Some(-500));
    assert_eq!(t.epoch_nanos(), Some(-500_000_000));
}

#[test]
fn unit_scaling_at_whole_seconds() {
    let t = Timestamp::from_civil(2010, 1, 1, 0, 0, 0, 0).unwrap();
    let secs = t.epoch_seconds();
    assert_eq!(t.epoch_millis(), Some(secs * 1000));
    assert_eq!(t.epoch_nanos(), Some(secs * 1_000_000_000));
}

#[test]
fn unit_scaling_at_whole_milliseconds() {
    let t = Timestamp::new(946684800, 250_000_000).unwrap();
    let millis = t.epoch_millis().unwrap();
    assert_eq!(millis, 946684800250);
    assert_eq!(t.epoch_nanos(), Some(millis * 1_000_000));
}

#[test]
fn epoch_counts_monotone() {
    let instants = [
        Timestamp::new(-1000, 999_999_999).unwrap(),
        Timestamp::new(-1, 0).unwrap(),
        Timestamp::new(0, 1).unwrap(),
        Timestamp::from_civil(2000, 1, 1, 0, 0, 0, 0).unwrap(),
        Timestamp::from_civil(2000, 1, 1, 0, 0, 0, 1).unwrap(),
        Timestamp::from_civil(2262, 1, 1, 0, 0, 0, 0).unwrap(),
    ];
    for pair in instants.windows(2) {
        assert!(pair[0].epoch_seconds() <= pair[1].epoch_seconds());
        assert!(pair[0].epoch_millis().unwrap() <= pair[1].epoch_millis().unwrap());
    }
}

#[test]
fn nanoseconds_range_is_explicit() {
    // The documented representable range of a 64-bit nanosecond count is
    // roughly the years 1677 to 2262; outside it the count is refused,
    // never wrapped.
    let late = Timestamp::from_civil(2263, 1, 1, 0, 0, 0, 0).unwrap();
    assert_eq!(late.epoch_nanos(), None);
    let early = Timestamp::from_civil(1677, 1, 1, 0, 0, 0, 0).unwrap();
    assert_eq!(early.epoch_nanos(), None);
    let inside = Timestamp::from_civil(2262, 1, 1, 0, 0, 0, 0).unwrap();
    assert!(inside.epoch_nanos().is_some());
}

#[test]
fn from_civil_known_dates() {
    let cases = [
        ((2000i64, 1u8, 1u8), 946684800i64),
        ((2010, 1, 1), 1262304000),
        ((2020, 1, 1), 1577836800),
        ((2021, 1, 1), 1609459200),
        ((2020, 2, 29), 1582934400),
        ((1969, 12, 31), -86400),
    ];
    for ((y, m, d), expected) in cases {
        let t = Timestamp::from_civil(y, m, d, 0, 0, 0, 0).unwrap();
        assert_eq!(t.epoch_seconds(), expected, "{}-{}-{}", y, m, d);
    }
    let noon = Timestamp::from_civil(2000, 1, 1, 12, 34, 56, 0).unwrap();
    assert_eq!(noon.epoch_seconds(), 946684800 + 12 * 3600 + 34 * 60 + 56);
}

#[test]
fn from_civil_rejects_invalid_fields() {
    assert!(Timestamp::from_civil(2021, 2, 29, 0, 0, 0, 0).is_none());
    assert!(Timestamp::from_civil(2021, 13, 1, 0, 0, 0, 0).is_none());
    assert!(Timestamp::from_civil(2021, 0, 1, 0, 0, 0, 0).is_none());
    assert!(Timestamp::from_civil(2021, 4, 31, 0, 0, 0, 0).is_none());
    assert!(Timestamp::from_civil(2021, 1, 0, 0, 0, 0, 0).is_none());
    assert!(Timestamp::from_civil(2021, 1, 1, 24, 0, 0, 0).is_none());
    assert!(Timestamp::from_civil(2021, 1, 1, 0, 60, 0, 0).is_none());
    assert!(Timestamp::from_civil(2021, 1, 1, 0, 0, 60, 0).is_none());
    assert!(Timestamp::from_civil(2021, 1, 1, 0, 0, 0, 1_000_000_000).is_none());
    assert!(Timestamp::from_civil(1_000_001, 1, 1, 0, 0, 0, 0).is_none());
    assert!(Timestamp::from_civil(-1_000_001, 1, 1, 0, 0, 0, 0).is_none());
}

#[test]
fn from_civil_leap_rules() {
    // A century year is a leap year only when divisible by 400.
    assert!(Timestamp::from_civil(2000, 2, 29, 0, 0, 0, 0).is_some());
    assert!(Timestamp::from_civil(1900, 2, 29, 0, 0, 0, 0).is_none());
    assert!(Timestamp::from_civil(2004, 2, 29, 0, 0, 0, 0).is_some());
}

#[test]
fn value_kinds() {
    assert_eq!(Value::Integer(1).kind(), ValueKind::Integer);
    assert_eq!(Value::Text("x".to_string()).kind(), ValueKind::Text);
    assert_eq!(
        Value::Timestamp(Timestamp::new(0, 0).unwrap()).kind(),
        ValueKind::Timestamp
    );
    assert_eq!(Value::Boolean(true).kind(), ValueKind::Boolean);
    assert_eq!(Value::Null.kind(), ValueKind::Null);
    assert_eq!(ValueKind::Timestamp.as_str(), "timestamp");
    assert_eq!(ValueKind::Text.as_str(), "string");
}
