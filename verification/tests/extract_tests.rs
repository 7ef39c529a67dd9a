use cfb_time_puller::extract::{extract, EventRecord, ExtractError, GameRecord};
use cfb_time_puller::timestamp::parse_timestamp;

fn game(start: &str) -> GameRecord {
    GameRecord { start_date: start.to_string() }
}

fn event(ts: &str) -> EventRecord {
    EventRecord { timestamp: ts.to_string() }
}

#[test]
fn extract_empty_events_leaves_kickoff_end_absent() {
    let g = game("2022-09-03T17:00:00Z");
    let times = extract(&g, &Vec::new()).unwrap();
    assert_eq!(Some(times.start), parse_timestamp("2022-09-03T17:00:00Z"));
    assert_eq!(times.kickoff, None);
    assert_eq!(times.end, None);
}

#[test]
fn extract_single_event_kickoff_equals_end() {
    let g = game("2022-09-03T17:00:00Z");
    let events = vec![event("2022-09-04T00:10:00Z")];
    let times = extract(&g, &events).unwrap();
    assert_eq!(times.kickoff, times.end);
    assert_eq!(times.kickoff, parse_timestamp("2022-09-04T00:10:00Z"));
}

#[test]
fn extract_takes_first_and_last_event() {
    let g = game("2022-09-03T17:00:00Z");
    let events = vec![
        event("2022-09-04T00:10:00Z"),
        event("2022-09-04T01:05:00Z"),
        event("2022-09-04T03:40:00Z"),
    ];
    let times = extract(&g, &events).unwrap();
    assert_eq!(times.kickoff, parse_timestamp("2022-09-04T00:10:00Z"));
    assert_eq!(times.end, parse_timestamp("2022-09-04T03:40:00Z"));
}

#[test]
fn extract_fails_on_bad_start() {
    let g = game("tomorrow afternoon");
    let events = vec![event("2022-09-04T00:10:00Z")];
    assert_eq!(extract(&g, &events), Err(ExtractError::BadStart));
}

#[test]
fn extract_fails_on_bad_event() {
    let g = game("2022-09-03T17:00:00Z");
    let events = vec![event("just after the anthem")];
    assert_eq!(extract(&g, &events), Err(ExtractError::BadEvent));
    let events = vec![
        event("2022-09-04T00:10:00Z"),
        event("not recorded"),
    ];
    assert_eq!(extract(&g, &events), Err(ExtractError::BadEvent));
}

#[test]
fn extract_ignores_middle_events_entirely() {
    let g = game("2022-09-03T17:00:00Z");
    let events = vec![
        event("2022-09-04T00:10:00Z"),
        event("garbage in the middle"),
        event("2022-09-04T03:40:00Z"),
    ];
    let times = extract(&g, &events).unwrap();
    assert_eq!(times.kickoff, parse_timestamp("2022-09-04T00:10:00Z"));
    assert_eq!(times.end, parse_timestamp("2022-09-04T03:40:00Z"));
}
