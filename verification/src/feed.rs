//! From the bytes of a feed to the events that are still to come.

use crate::convert::{normalized_event, outlook_to_google};
use crate::extract::{extract_event, extracted_event};
use crate::filter::{decide, decision, is_retained, Decision};
use crate::model::{
    CalendarDate, CalendarObject, Event, EventText, ObjectText, PropertyText, RawEventBlock,
    RawProperty,
};
use chrono::{Datelike, Utc};
use ical::IcalParser;
use std::io::Cursor;
use vstd::prelude::*;

verus! {

/// Something that went wrong with a part of a feed, without stopping the rest.
#[derive(Clone, Debug, PartialEq, Eq)]
pub enum Diagnostic {
    /// The calendar object at this place in the feed could not be read.
    MalformedObject { object: usize, reason: String },
    /// The event at this place in this calendar object has no start that could
    /// be read.
    MissingStart { object: usize, event: usize },
}

/// What a [`Diagnostic`] holds, as text.
pub ghost enum DiagnosticText {
    MalformedObject { object: nat, reason: Seq<char> },
    MissingStart { object: nat, event: nat },
}

impl View for Diagnostic {
    type V = DiagnosticText;

    open spec fn view(&self) -> DiagnosticText {
        match self {
            Diagnostic::MalformedObject { object, reason } => DiagnosticText::MalformedObject {
                object: *object as nat,
                reason: reason@,
            },
            Diagnostic::MissingStart { object, event } => DiagnosticText::MissingStart {
                object: *object as nat,
                event: *event as nat,
            },
        }
    }
}

impl DeepView for Diagnostic {
    type V = DiagnosticText;

    open spec fn deep_view(&self) -> DiagnosticText {
        self@
    }
}

/// The events kept of a feed, in feed order, and what was reported on the way.
#[derive(Clone, Debug, PartialEq, Eq)]
pub struct FeedOutcome {
    pub events: Vec<Event>,
    pub diagnostics: Vec<Diagnostic>,
}

/// What a [`FeedOutcome`] holds, as text.
pub ghost struct OutcomeText {
    pub events: Seq<EventText>,
    pub diagnostics: Seq<DiagnosticText>,
}

impl View for FeedOutcome {
    type V = OutcomeText;

    open spec fn view(&self) -> OutcomeText {
        OutcomeText {
            events: self.events.deep_view(),
            diagnostics: self.diagnostics.deep_view(),
        }
    }
}

/// The normalised event that an event block gives.
pub open spec fn event_of_block(block: Seq<PropertyText>) -> EventText {
    normalized_event(extracted_event(block))
}

/// The events kept of a run of event blocks, in the order of the blocks.
pub open spec fn block_events(blocks: Seq<Seq<PropertyText>>, today: CalendarDate) -> Seq<
    EventText,
>
    decreases blocks.len(),
{
    if blocks.len() == 0 {
        Seq::empty()
    } else {
        let earlier = block_events(blocks.drop_last(), today);
        let event = event_of_block(blocks.last());
        if is_retained(event, today) {
            earlier.push(event)
        } else {
            earlier
        }
    }
}

/// The reports on a run of event blocks of the calendar object at place
/// `object`: one for each event without a start, in the order of the blocks.
pub open spec fn block_reports(
    blocks: Seq<Seq<PropertyText>>,
    object: nat,
    today: CalendarDate,
) -> Seq<DiagnosticText>
    decreases blocks.len(),
{
    if blocks.len() == 0 {
        Seq::empty()
    } else {
        let earlier = block_reports(blocks.drop_last(), object, today);
        if decision(event_of_block(blocks.last()), today) == Decision::NoStart {
            earlier.push(
                DiagnosticText::MissingStart { object, event: (blocks.len() - 1) as nat },
            )
        } else {
            earlier
        }
    }
}

/// The events kept of one calendar object; a malformed one gives none.
pub open spec fn object_events(object: ObjectText, today: CalendarDate) -> Seq<EventText> {
    match object {
        ObjectText::Parsed(blocks) => block_events(blocks, today),
        ObjectText::Malformed(_) => Seq::empty(),
    }
}

/// The reports on the calendar object at place `index`; a malformed one gives
/// one report, with the reason.
pub open spec fn object_reports(object: ObjectText, index: nat, today: CalendarDate) -> Seq<
    DiagnosticText,
> {
    match object {
        ObjectText::Parsed(blocks) => block_reports(blocks, index, today),
        ObjectText::Malformed(reason) => seq![
            DiagnosticText::MalformedObject { object: index, reason },
        ],
    }
}

/// The events kept of a feed: those of its calendar objects, one object after
/// the other.
pub open spec fn feed_events(objects: Seq<ObjectText>, today: CalendarDate) -> Seq<EventText>
    decreases objects.len(),
{
    if objects.len() == 0 {
        Seq::empty()
    } else {
        feed_events(objects.drop_last(), today) + object_events(objects.last(), today)
    }
}

/// The reports on a feed: those on its calendar objects, one object after the
/// other.
pub open spec fn feed_reports(objects: Seq<ObjectText>, today: CalendarDate) -> Seq<
    DiagnosticText,
>
    decreases objects.len(),
{
    if objects.len() == 0 {
        Seq::empty()
    } else {
        feed_reports(objects.drop_last(), today) + object_reports(
            objects.last(),
            (objects.len() - 1) as nat,
            today,
        )
    }
}

/// The outcome of filtering a feed, seen from the day `today`.
pub open spec fn feed_outcome(objects: Seq<ObjectText>, today: CalendarDate) -> OutcomeText {
    OutcomeText { events: feed_events(objects, today), diagnostics: feed_reports(objects, today) }
}

/// Normalises the events of one calendar object, keeps those that are still to
/// come and reports those without a start.
pub fn retain_upcoming(blocks: Vec<RawEventBlock>, object: usize, today: CalendarDate) -> (outcome:
    FeedOutcome)
    ensures
        outcome@.events == block_events(blocks.deep_view(), today),
        outcome@.diagnostics == block_reports(blocks.deep_view(), object as nat, today),
{
    let ghost texts = blocks.deep_view();
    let mut events: Vec<Event> = Vec::with_capacity(blocks.len());
    let mut diagnostics: Vec<Diagnostic> = Vec::new();
    let mut place: usize = 0;
    for block in it: blocks
        invariant
            it.seq().len() == texts.len(),
            texts.len() <= usize::MAX,
            forall|i: int| 0 <= i < texts.len() ==> (#[trigger] it.seq()[i])@ == texts[i],
            place == it.index(),
            events.deep_view() == block_events(texts.take(it.index() as int), today),
            diagnostics.deep_view() == block_reports(
                texts.take(it.index() as int),
                object as nat,
                today,
            ),
    {
        assert(texts.take(it.index() + 1).drop_last() =~= texts.take(it.index() as int));
        let event = outlook_to_google(extract_event(block));
        match decide(&event, today) {
            Decision::Retain => {
                events.push(event);
            },
            Decision::Elapsed => {},
            Decision::NoStart => {
                let report = Diagnostic::MissingStart { object, event: place };
                diagnostics.push(report);
            },
        }
        place += 1;
    }
    assert(texts.take(texts.len() as int) =~= texts);
    FeedOutcome { events, diagnostics }
}

/// Filters a feed that has been read into calendar objects: normalises every
/// event, keeps those that are still to come on the day `today`, in feed order,
/// and reports each malformed object and each event without a start. Nothing
/// here stops the run.
pub fn upcoming_events(objects: Vec<CalendarObject>, today: CalendarDate) -> (outcome: FeedOutcome)
    ensures
        outcome@ == feed_outcome(objects.deep_view(), today),
{
    let ghost texts = objects.deep_view();
    let mut events: Vec<Event> = Vec::new();
    let mut diagnostics: Vec<Diagnostic> = Vec::with_capacity(objects.len());
    let mut place: usize = 0;
    for object in it: objects
        invariant
            it.seq().len() == texts.len(),
            texts.len() <= usize::MAX,
            forall|i: int| 0 <= i < texts.len() ==> (#[trigger] it.seq()[i])@ == texts[i],
            place == it.index(),
            events.deep_view() == feed_events(texts.take(it.index() as int), today),
            diagnostics.deep_view() == feed_reports(texts.take(it.index() as int), today),
    {
        assert(texts.take(it.index() + 1).drop_last() =~= texts.take(it.index() as int));
        match object {
            CalendarObject::Parsed(blocks) => {
                let part = retain_upcoming(blocks, place, today);
                let mut kept = part.events;
                let mut reports = part.diagnostics;
                events.append(&mut kept);
                diagnostics.append(&mut reports);
            },
            CalendarObject::Malformed(reason) => {
                let report = Diagnostic::MalformedObject { object: place, reason };
                diagnostics.push(report);
            },
        }
        place += 1;
    }
    assert(texts.take(texts.len() as int) =~= texts);
    FeedOutcome { events, diagnostics }
}

/// The calendar objects that the feed parser reads from the bytes of a feed,
/// each with its event blocks or with the reason why it was rejected.
pub uninterp spec fn ical_objects(bytes: Seq<u8>) -> Seq<ObjectText>;

/// Runs `ical::IcalParser` over the bytes and copies what it yields: for each
/// calendar object that it reads, the properties of its event blocks; for each
/// one that it rejects, the error as text. Trusted: that what the parser yields
/// depends on the bytes alone.
#[verifier::external_body]
fn read_calendar_objects(bytes: &[u8]) -> (objects: Vec<CalendarObject>)
    ensures
        objects.deep_view() == ical_objects(bytes@),
{
    IcalParser::new(Cursor::new(bytes)).map(|parsed| match parsed {
        Ok(calendar) => CalendarObject::Parsed(
            calendar.events.into_iter().map(|event| RawEventBlock {
                properties: event.properties.into_iter().map(|p| RawProperty {
                    name: p.name,
                    value: p.value,
                    params: p.params,
                }).collect(),
            }).collect(),
        ),
        Err(error) => CalendarObject::Malformed(format!("{:?}", error)),
    }).collect()
}

/// Reads the bytes of a feed and filters its events, seen from the day `today`.
pub fn parse_ics(ics_data: &[u8], today: CalendarDate) -> (outcome: FeedOutcome)
    ensures
        outcome@ == feed_outcome(ical_objects(ics_data@), today),
{
    upcoming_events(read_calendar_objects(ics_data), today)
}

/// Calls `chrono::Utc::now` and reads the day of what it returns. Nothing is
/// claimed of the result: it is whatever the system clock says. `chrono` panics
/// where that clock stands before the year 1970.
#[verifier::external_body]
fn utc_today() -> (today: CalendarDate) {
    let day = Utc::now().date_naive();
    CalendarDate { year: day.year(), month: day.month(), day: day.day() }
}

/// A feed's outcome together with the day from which it was seen.
#[derive(Clone, Debug, PartialEq, Eq)]
pub struct DatedOutcome {
    pub today: CalendarDate,
    pub outcome: FeedOutcome,
}

/// Reads the bytes of a feed and filters its events, seen from the present day
/// in UTC. The day that was used is handed back with the outcome.
pub fn parse_ics_today(ics_data: &[u8]) -> (dated: DatedOutcome)
    ensures
        dated.outcome@ == feed_outcome(ical_objects(ics_data@), dated.today),
{
    let today = utc_today();
    DatedOutcome { today, outcome: parse_ics(ics_data, today) }
}

} // verus!
