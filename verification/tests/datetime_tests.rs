use lookout_g::datetime::{assemble_moment, date_only, date_time_to_naive};
use lookout_g::model::UtcDateTime;
use lookout_g::{convert_event_datetime, outlook_to_google, OutlookEvent, OutlookEventDateTime};

fn moment(year: i32, month: u32, day: u32, hour: u32, minute: u32, second: u32) -> UtcDateTime {
    UtcDateTime { year, month, day, hour, minute, second, nanosecond: 0 }
}

fn raw(text: &str, alias: Option<&str>) -> OutlookEventDateTime {
    OutlookEventDateTime {
        date_time: text.to_string(),
        params: alias.map(|a| vec![("TZID".to_string(), vec![a.to_string()])]),
    }
}

#[test]
fn test_outlook_to_google_conversion() {
    let outlook_event = OutlookEvent {
        id: Some("event123".to_string()),
        summary: "Meeting".to_string(),
        location: Some("Boardroom".to_string()),
        description: Some("Discuss project updates".to_string()),
        start: OutlookEventDateTime { date_time: "20231111T100000".to_string(), params: None },
        end: OutlookEventDateTime { date_time: "20231111T110000".to_string(), params: None },
    };

    let google_event = outlook_to_google(outlook_event);
    assert_eq!(google_event.summary, "Meeting");
    assert_eq!(google_event.location.unwrap(), "Boardroom");
    assert_eq!(google_event.description.unwrap(), "Discuss project updates");
    assert!(google_event.start.date_time.is_some());
    assert!(google_event.end.date_time.is_some());
    assert_eq!(google_event.id, Some("event123".to_string()));
    assert_eq!(google_event.start.date_time, Some(moment(2023, 11, 11, 10, 0, 0)));
    assert_eq!(google_event.end.date_time, Some(moment(2023, 11, 11, 11, 0, 0)));
    assert_eq!(google_event.start.time_zone, None);
}

#[test]
fn test_convert_event_datetime_valid() {
    let outlook_dt = OutlookEventDateTime {
        date_time: "20231111T100000".to_string(),
        params: Some(vec![("TZID".to_string(), vec!["UTC".to_string()])]),
    };

    let event_dt = convert_event_datetime(outlook_dt);
    assert!(event_dt.date_time.is_some());
    assert_eq!(event_dt.time_zone.unwrap(), "UTC");
}

#[test]
fn test_convert_event_datetime_invalid_date() {
    let outlook_dt = OutlookEventDateTime {
        date_time: "invalid_date".to_string(),
        params: Some(vec![("TZID".to_string(), vec!["UTC".to_string()])]),
    };

    let event_dt = convert_event_datetime(outlook_dt);
    assert!(event_dt.date_time.is_none());
}

#[test]
fn full_timestamp_gives_moment_and_no_day() {
    let out = convert_event_datetime(raw("20230801T090000", Some("Romance Standard Time")));
    assert_eq!(out.date_time, Some(moment(2023, 8, 1, 9, 0, 0)));
    assert_eq!(out.date, None);
    assert_eq!(out.time_zone, Some("Europe/Paris".to_string()));
}

#[test]
fn full_timestamp_fields_are_read_exactly() {
    assert_eq!(date_time_to_naive("19991231T235959"), Some(moment(1999, 12, 31, 23, 59, 59)));
    assert_eq!(date_time_to_naive("20240229T000000"), Some(moment(2024, 2, 29, 0, 0, 0)));
    assert_eq!(date_time_to_naive("00000101T000000"), Some(moment(0, 1, 1, 0, 0, 0)));
}

#[test]
fn unreadable_full_timestamp_gives_nothing() {
    for text in ["20230229T000000", "20231301T000000", "20230801T240000", "20230801X090000",
        "abcdefghijklmnopq", "20230801T0900000", "20230801T090000Z"]
    {
        let out = convert_event_datetime(raw(text, None));
        assert_eq!(out.date_time, None, "{}", text);
        assert_eq!(out.date, None, "{}", text);
    }
}

#[test]
fn short_timestamp_gives_day_and_no_moment() {
    let out = convert_event_datetime(raw("20230801", Some("UTC")));
    assert_eq!(out.date, Some("2023-08-01".to_string()));
    assert_eq!(out.date_time, None);
    assert_eq!(out.time_zone, Some("UTC".to_string()));
    assert_eq!(date_only("20230801T0900"), Some("2023-08-01".to_string()));
    assert_eq!(date_only("20230801T09000"), Some("2023-08-01".to_string()));
}

#[test]
fn day_passes_its_digits_through_unchecked() {
    assert_eq!(date_only("20231345"), Some("2023-13-45".to_string()));
    assert_eq!(date_only("invalid_date"), Some("inva-li-d_".to_string()));
}

#[test]
fn length_is_counted_in_characters() {
    assert_eq!(date_only("äbcdéfgh"), Some("äbcd-éf-gh".to_string()));
    assert_eq!(date_only("ääää"), None);
}

#[test]
fn tiny_timestamp_gives_nothing() {
    for text in ["", "2", "2023080"] {
        let out = convert_event_datetime(raw(text, Some("UTC")));
        assert_eq!(out.date, None);
        assert_eq!(out.date_time, None);
        assert_eq!(out.time_zone, Some("UTC".to_string()));
    }
}

#[test]
fn day_only_needs_eight_to_fourteen_characters() {
    assert_eq!(date_only("2023080"), None);
    assert_eq!(date_only("20230801T090000"), None);
    assert_eq!(date_time_to_naive("20230801T09000"), None);
    assert_eq!(date_time_to_naive("20230801"), None);
}

#[test]
fn assembled_moment_follows_the_length_of_the_text() {
    let parsed = Some(moment(2001, 2, 3, 4, 5, 6));
    let long = assemble_moment("20010203T040506", parsed, None);
    assert_eq!(long.date_time, parsed);
    assert_eq!(long.date, None);
    let short = assemble_moment("20010203", parsed, Some("Europe/Berlin".to_string()));
    assert_eq!(short.date_time, None);
    assert_eq!(short.date, Some("2001-02-03".to_string()));
    assert_eq!(short.time_zone, Some("Europe/Berlin".to_string()));
    let tiny = assemble_moment("2001", parsed, None);
    assert_eq!(tiny.date_time, None);
    assert_eq!(tiny.date, None);
    let unread = assemble_moment("20010203T040506", None, None);
    assert_eq!(unread.date_time, None);
    assert_eq!(unread.date, None);
}

#[test]
fn zone_is_attached_whatever_the_text() {
    let unknown = convert_event_datetime(raw("20230801T090000", Some("Mars Standard Time")));
    assert_eq!(unknown.time_zone, None);
    assert_eq!(unknown.date_time, Some(moment(2023, 8, 1, 9, 0, 0)));
    let none = convert_event_datetime(raw("20230801T090000", None));
    assert_eq!(none.time_zone, None);
    let bad_text = convert_event_datetime(raw("nonsense_nonsense", Some("GMT Standard Time")));
    assert_eq!(bad_text.time_zone, Some("Europe/London".to_string()));
    assert_eq!(bad_text.date_time, None);
}

#[test]
fn a_leap_second_keeps_its_nanoseconds() {
    assert_eq!(
        date_time_to_naive("20231231T235960"),
        Some(UtcDateTime {
            year: 2023,
            month: 12,
            day: 31,
            hour: 23,
            minute: 59,
            second: 59,
            nanosecond: 1_000_000_000,
        })
    );
}

fn days_in(year: i32, month: u32) -> u32 {
    let leap = year % 4 == 0 && (year % 100 != 0 || year % 400 == 0);
    match month {
        2 => {
            if leap {
                29
            } else {
                28
            }
        }
        4 | 6 | 9 | 11 => 30,
        _ => 31,
    }
}

#[test]
fn every_day_of_the_calendar_is_read_as_written() {
    for year in [0, 1, 4, 100, 400, 1900, 1999, 2000, 2023, 2024, 2100, 9999] {
        for month in 1..=12u32 {
            for day in 1..=days_in(year, month) {
                let text = format!("{:04}{:02}{:02}T{:02}{:02}{:02}", year, month, day, 7, 8, 9);
                assert_eq!(
                    date_time_to_naive(&text),
                    Some(moment(year, month, day, 7, 8, 9)),
                    "{}",
                    text
                );
            }
            let beyond = format!("{:04}{:02}{:02}T000000", year, month, days_in(year, month) + 1);
            assert_eq!(date_time_to_naive(&beyond), None, "{}", beyond);
            let day_zero = format!("{:04}{:02}00T000000", year, month);
            assert_eq!(date_time_to_naive(&day_zero), None, "{}", day_zero);
        }
        let month_zero = format!("{:04}0001T000000", year);
        assert_eq!(date_time_to_naive(&month_zero), None);
    }
}

#[test]
fn every_time_of_day_is_read_as_written() {
    for hour in 0..24u32 {
        for minute in 0..60u32 {
            for second in [0u32, 1, 30, 59] {
                let text = format!("20230801T{:02}{:02}{:02}", hour, minute, second);
                assert_eq!(
                    date_time_to_naive(&text),
                    Some(moment(2023, 8, 1, hour, minute, second)),
                    "{}",
                    text
                );
            }
        }
    }
    assert_eq!(date_time_to_naive("20230801T236000"), None);
    assert_eq!(date_time_to_naive("20230801T235961"), None);
}
