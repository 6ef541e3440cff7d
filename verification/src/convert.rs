//! Turning an event as read from the feed into a normalised event.

use crate::datetime::{convert_event_datetime, normalized_moment};
use crate::model::{Event, EventText, OutlookEvent, RawEventText};
use vstd::prelude::*;

verus! {

/// The normalised form of an event: its texts as they are, its start and end
/// normalised.
pub open spec fn normalized_event(raw: RawEventText) -> EventText {
    EventText {
        id: raw.id,
        summary: raw.summary,
        location: raw.location,
        description: raw.description,
        start: normalized_moment(raw.start),
        end: normalized_moment(raw.end),
    }
}

/// Normalises an event.
pub fn outlook_to_google(outlook_event: OutlookEvent) -> (event: Event)
    ensures
        event@ == normalized_event(outlook_event@),
        event@.well_formed(),
{
    Event {
        id: outlook_event.id,
        summary: outlook_event.summary,
        location: outlook_event.location,
        description: outlook_event.description,
        start: convert_event_datetime(outlook_event.start),
        end: convert_event_datetime(outlook_event.end),
    }
}

} // verus!
