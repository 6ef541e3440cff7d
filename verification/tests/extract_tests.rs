use lookout_g::extract::extract_event;
use lookout_g::model::{RawEventBlock, RawProperty};

fn property(name: &str, value: Option<&str>) -> RawProperty {
    RawProperty { name: name.to_string(), value: value.map(|v| v.to_string()), params: None }
}

fn with_zone(name: &str, value: &str, alias: &str) -> RawProperty {
    RawProperty {
        name: name.to_string(),
        value: Some(value.to_string()),
        params: Some(vec![("TZID".to_string(), vec![alias.to_string()])]),
    }
}

#[test]
fn every_known_property_fills_its_field() {
    let block = RawEventBlock {
        properties: vec![
            property("UID", Some("id-1")),
            property("SUMMARY", Some("Stand-up")),
            property("LOCATION", Some("Room 4")),
            property("DESCRIPTION", Some("Daily")),
            with_zone("DTSTART", "20230801T090000", "Romance Standard Time"),
            with_zone("DTEND", "20230801T100000", "UTC"),
        ],
    };
    let event = extract_event(block);
    assert_eq!(event.id, Some("id-1".to_string()));
    assert_eq!(event.summary, "Stand-up");
    assert_eq!(event.location, Some("Room 4".to_string()));
    assert_eq!(event.description, Some("Daily".to_string()));
    assert_eq!(event.start.date_time, "20230801T090000");
    assert_eq!(
        event.start.params,
        Some(vec![("TZID".to_string(), vec!["Romance Standard Time".to_string()])])
    );
    assert_eq!(event.end.date_time, "20230801T100000");
    assert_eq!(event.end.params, Some(vec![("TZID".to_string(), vec!["UTC".to_string()])]));
}

#[test]
fn empty_block_gives_an_empty_event() {
    let event = extract_event(RawEventBlock { properties: Vec::new() });
    assert_eq!(event.id, None);
    assert_eq!(event.summary, "");
    assert_eq!(event.location, None);
    assert_eq!(event.description, None);
    assert_eq!(event.start.date_time, "");
    assert_eq!(event.start.params, Some(Vec::new()));
    assert_eq!(event.end.date_time, "");
    assert_eq!(event.end.params, Some(Vec::new()));
}

#[test]
fn the_last_property_of_a_name_counts() {
    let block = RawEventBlock {
        properties: vec![
            property("SUMMARY", Some("first")),
            property("UID", Some("a")),
            with_zone("DTSTART", "20230801T090000", "UTC"),
            property("SUMMARY", Some("second")),
            property("UID", None),
            property("DTSTART", Some("20240101")),
        ],
    };
    let event = extract_event(block);
    assert_eq!(event.summary, "second");
    assert_eq!(event.id, None);
    assert_eq!(event.start.date_time, "20240101");
    assert_eq!(event.start.params, None);
}

#[test]
fn a_missing_value_gives_empty_text() {
    let block = RawEventBlock {
        properties: vec![
            property("SUMMARY", Some("x")),
            property("SUMMARY", None),
            property("DTSTART", None),
            property("DTEND", None),
        ],
    };
    let event = extract_event(block);
    assert_eq!(event.summary, "");
    assert_eq!(event.start.date_time, "");
    assert_eq!(event.start.params, None);
    assert_eq!(event.end.date_time, "");
}

#[test]
fn other_names_are_ignored() {
    let block = RawEventBlock {
        properties: vec![
            property("summary", Some("lower case")),
            property("X-CUSTOM", Some("v")),
            property("DTSTAMP", Some("20230801T090000")),
            property("", Some("nameless")),
        ],
    };
    let event = extract_event(block);
    assert_eq!(event.summary, "");
    assert_eq!(event.id, None);
    assert_eq!(event.start.date_time, "");
    assert_eq!(event.end.date_time, "");
}
