//! Deciding which events are still to come.

use crate::model::{CalendarDate, Event, EventText};
use vstd::prelude::*;

verus! {

/// What becomes of an event when a feed is filtered.
#[derive(Clone, Copy, Debug, PartialEq, Eq, Structural)]
pub enum Decision {
    /// The event is kept.
    Retain,
    /// The event started before the reference day and is left out.
    Elapsed,
    /// The event has no start that could be read; it is left out and reported.
    NoStart,
}

/// The decision on an event, seen from the day `today`.
///
/// An event that starts at a moment is kept when the day of that moment is
/// `today` or later; the time of day plays no part. An event that starts on a
/// day without a time is always kept. An event with neither is reported.
pub open spec fn decision(event: EventText, today: CalendarDate) -> Decision {
    match event.start.date_time {
        Some(moment) => if moment.spec_date().is_on_or_after(today) {
            Decision::Retain
        } else {
            Decision::Elapsed
        },
        None => if event.start.date is Some {
            Decision::Retain
        } else {
            Decision::NoStart
        },
    }
}

/// Whether an event is kept, seen from the day `today`.
pub open spec fn is_retained(event: EventText, today: CalendarDate) -> bool {
    decision(event, today) == Decision::Retain
}

/// Decides what becomes of an event, seen from the day `today`.
pub fn decide(event: &Event, today: CalendarDate) -> (outcome: Decision)
    ensures
        outcome == decision(event@, today),
{
    match event.start.date_time {
        Some(moment) => {
            if moment.date().on_or_after(&today) {
                Decision::Retain
            } else {
                Decision::Elapsed
            }
        },
        None => {
            if event.start.date.is_some() {
                Decision::Retain
            } else {
                Decision::NoStart
            }
        },
    }
}

} // verus!
