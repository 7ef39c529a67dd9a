use cfb_time_puller::timestamp::{parse_timestamp, Timestamp};

#[test]
fn parse_valid_timestamp() {
    let t = parse_timestamp("2022-09-03T23:30:00Z").unwrap();
    assert_eq!(
        t,
        Timestamp { year: 2022, month: 9, day: 3, hour: 23, minute: 30, second: 0 }
    );
}

#[test]
fn parse_extreme_fields() {
    let t = parse_timestamp("0000-01-01T00:00:00Z").unwrap();
    assert_eq!(
        t,
        Timestamp { year: 0, month: 1, day: 1, hour: 0, minute: 0, second: 0 }
    );
    let t = parse_timestamp("9999-12-31T23:59:59Z").unwrap();
    assert_eq!(
        t,
        Timestamp { year: 9999, month: 12, day: 31, hour: 23, minute: 59, second: 59 }
    );
}

#[test]
fn parse_rejects_wrong_length() {
    assert_eq!(parse_timestamp(""), None);
    assert_eq!(parse_timestamp("2022-09-03T23:30:00"), None);
    assert_eq!(parse_timestamp("2022-09-03T23:30:00Z "), None);
}

#[test]
fn parse_rejects_wrong_separators() {
    assert_eq!(parse_timestamp("2022/09/03T23:30:00Z"), None);
    assert_eq!(parse_timestamp("2022-09-03 23:30:00Z"), None);
    assert_eq!(parse_timestamp("2022-09-03T23.30.00Z"), None);
    assert_eq!(parse_timestamp("2022-09-03T23:30:00X"), None);
}

#[test]
fn parse_rejects_non_digits() {
    assert_eq!(parse_timestamp("20x2-09-03T23:30:00Z"), None);
    assert_eq!(parse_timestamp("2022-o9-03T23:30:00Z"), None);
}

#[test]
fn parse_rejects_out_of_range_fields() {
    assert_eq!(parse_timestamp("2022-00-03T23:30:00Z"), None);
    assert_eq!(parse_timestamp("2022-13-03T23:30:00Z"), None);
    assert_eq!(parse_timestamp("2022-09-00T23:30:00Z"), None);
    assert_eq!(parse_timestamp("2022-09-32T23:30:00Z"), None);
    assert_eq!(parse_timestamp("2022-09-03T24:30:00Z"), None);
    assert_eq!(parse_timestamp("2022-09-03T23:60:00Z"), None);
    assert_eq!(parse_timestamp("2022-09-03T23:30:60Z"), None);
}
