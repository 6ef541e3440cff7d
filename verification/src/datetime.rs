//! Normalising the timestamp text of a start or an end.

use crate::model::{EventDateTime, MomentText, OutlookEventDateTime, RawMomentText, UtcDateTime};
use crate::timezone::{resolve_params, resolved_zone};
use chrono::{Datelike, NaiveDateTime, Timelike};
use vstd::prelude::*;
use vstd::string::*;

verus! {

/// The format of a full timestamp: `YYYYMMDDTHHMMSS`.
pub open spec fn basic_format() -> Seq<char> {
    "%Y%m%dT%H%M%S"@
}

/// What `chrono` reads from `text` under `format`: the wall-clock fields, or
/// `None` where it rejects the text.
pub uninterp spec fn parsed_naive_datetime(text: Seq<char>, format: Seq<char>) -> Option<
    UtcDateTime,
>;

/// Whether `c` is one of the digits `0` to `9`.
pub open spec fn is_digit(c: char) -> bool {
    '0' <= c <= '9'
}

/// The number that the digits of `text` from `from` up to `to` write.
pub open spec fn number_at(text: Seq<char>, from: int, to: int) -> int
    decreases to - from,
{
    if to <= from {
        0
    } else {
        10 * number_at(text, from, to - 1) + (text[to - 1] as int - '0' as int)
    }
}

/// Whether `year` is a leap year of the Gregorian calendar.
pub open spec fn is_leap_year(year: int) -> bool {
    year % 4 == 0 && (year % 100 != 0 || year % 400 == 0)
}

/// The number of days of a month; 0 where `month` is no month.
pub open spec fn days_in_month(year: int, month: int) -> int {
    if month == 2 {
        if is_leap_year(year) {
            29
        } else {
            28
        }
    } else if month == 4 || month == 6 || month == 9 || month == 11 {
        30
    } else if 1 <= month <= 12 {
        31
    } else {
        0
    }
}

/// Whether `text` is exactly a timestamp `YYYYMMDDTHHMMSS` that names a day of
/// the calendar and a time of day.
pub open spec fn is_basic_timestamp(text: Seq<char>) -> bool {
    &&& text.len() == 15
    &&& forall|i: int| 0 <= i < 15 && i != 8 ==> is_digit(#[trigger] text[i])
    &&& text[8] == 'T'
    &&& 1 <= number_at(text, 4, 6) <= 12
    &&& 1 <= number_at(text, 6, 8) <= days_in_month(number_at(text, 0, 4), number_at(text, 4, 6))
    &&& number_at(text, 9, 11) <= 23
    &&& number_at(text, 11, 13) <= 59
    &&& number_at(text, 13, 15) <= 59
}

/// The moment that a timestamp `YYYYMMDDTHHMMSS` writes.
pub open spec fn basic_timestamp_value(text: Seq<char>) -> UtcDateTime {
    UtcDateTime {
        year: number_at(text, 0, 4) as i32,
        month: number_at(text, 4, 6) as u32,
        day: number_at(text, 6, 8) as u32,
        hour: number_at(text, 9, 11) as u32,
        minute: number_at(text, 11, 13) as u32,
        second: number_at(text, 13, 15) as u32,
        nanosecond: 0,
    }
}

/// Calls `chrono::NaiveDateTime::parse_from_str` and reads the fields of what it
/// returns. Trusted: that the outcome depends on `text` and `format` alone, and
/// that under the format `%Y%m%dT%H%M%S` a text of exactly fifteen characters,
/// digits around a `T`, which names a day of the calendar and a time of day, is
/// accepted with the fields that it writes.
#[verifier::external_body]
fn parse_naive_datetime(text: &str, format: &str) -> (moment: Option<UtcDateTime>)
    ensures
        moment == parsed_naive_datetime(text@, format@),
        format@ == basic_format() && is_basic_timestamp(text@) ==> moment == Some(
            basic_timestamp_value(text@),
        ),
{
    match NaiveDateTime::parse_from_str(text, format) {
        Ok(t) => Some(
            UtcDateTime {
                year: t.year(),
                month: t.month(),
                day: t.day(),
                hour: t.hour(),
                minute: t.minute(),
                second: t.second(),
                nanosecond: t.nanosecond(),
            },
        ),
        Err(_) => None,
    }
}

/// The moment that a timestamp text gives: for a text of fifteen characters or
/// more, what reading it as `YYYYMMDDTHHMMSS` yields; for a shorter one, none.
pub open spec fn moment_of(text: Seq<char>) -> Option<UtcDateTime> {
    if text.len() >= 15 {
        parsed_naive_datetime(text, basic_format())
    } else {
        None
    }
}

/// Reads a timestamp text of fifteen characters or more as a moment.
pub fn date_time_to_naive(date_str: &str) -> (moment: Option<UtcDateTime>)
    ensures
        moment == moment_of(date_str@),
        is_basic_timestamp(date_str@) ==> moment == Some(basic_timestamp_value(date_str@)),
{
    if date_str.unicode_len() >= 15 {
        parse_naive_datetime(date_str, "%Y%m%dT%H%M%S")
    } else {
        None
    }
}

/// The first eight characters of `text`, written as `YYYY-MM-DD`.
pub open spec fn dashed_date(text: Seq<char>) -> Seq<char>
    recommends
        text.len() >= 8,
{
    text.subrange(0, 4) + seq!['-'] + text.subrange(4, 6) + seq!['-'] + text.subrange(6, 8)
}

/// The day that a timestamp text gives: for a text of eight to fourteen
/// characters its first eight, written as `YYYY-MM-DD`, whatever they are; for
/// any other length, none.
pub open spec fn day_of(text: Seq<char>) -> Option<Seq<char>> {
    if 8 <= text.len() < 15 {
        Some(dashed_date(text))
    } else {
        None
    }
}

/// Writes the day of a date-only timestamp text.
pub fn date_only(date_str: &str) -> (day: Option<String>)
    ensures
        day.deep_view() == day_of(date_str@),
{
    let length = date_str.unicode_len();
    if 8 <= length && length < 15 {
        proof {
            reveal_strlit("-");
        }
        let mut day = String::from_str(date_str.substring_char(0, 4));
        day.append("-");
        day.append(date_str.substring_char(4, 6));
        day.append("-");
        day.append(date_str.substring_char(6, 8));
        Some(day)
    } else {
        None
    }
}

/// The normalised form of a start or an end, given what reading its text as a
/// moment yielded and the zone that its parameters resolved to.
pub open spec fn assembled_moment(
    text: Seq<char>,
    parsed: Option<UtcDateTime>,
    zone: Option<Seq<char>>,
) -> MomentText {
    MomentText {
        date: day_of(text),
        date_time: if text.len() >= 15 {
            parsed
        } else {
            None
        },
        time_zone: zone,
    }
}

/// Puts a normalised start or end together from its timestamp text, the moment
/// read from it and the resolved zone. The zone is attached whichever form the
/// text has.
pub fn assemble_moment(date_str: &str, parsed: Option<UtcDateTime>, zone: Option<String>) -> (moment:
    EventDateTime)
    ensures
        moment@ == assembled_moment(date_str@, parsed, zone.deep_view()),
        moment@.well_formed(),
{
    let date_time = if date_str.unicode_len() >= 15 {
        parsed
    } else {
        None
    };
    EventDateTime { date: date_only(date_str), date_time, time_zone: zone }
}

/// The normalised form of a start or an end as the feed gave it.
pub open spec fn normalized_moment(raw: RawMomentText) -> MomentText {
    assembled_moment(raw.date_time, moment_of(raw.date_time), resolved_zone(raw.params))
}

/// Normalises a start or an end: a text of fifteen characters or more becomes a
/// moment where it can be read as one, a text of eight to fourteen characters
/// becomes a day, and the zone is resolved from the parameters.
pub fn convert_event_datetime(event_datetime: OutlookEventDateTime) -> (moment: EventDateTime)
    ensures
        moment@ == normalized_moment(event_datetime@),
        moment@.well_formed(),
        is_basic_timestamp(event_datetime@.date_time) ==> moment@.date_time == Some(
            basic_timestamp_value(event_datetime@.date_time),
        ),
{
    let parsed = date_time_to_naive(event_datetime.date_time.as_str());
    let zone = resolve_params(&event_datetime.params);
    assemble_moment(event_datetime.date_time.as_str(), parsed, zone)
}

} // verus!
