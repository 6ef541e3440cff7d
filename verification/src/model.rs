//! The data that flows through the engine, each with its mathematical view.

use vstd::prelude::*;

verus! {

/// Parameter list of a property as plain text: parameter name, then its values.
pub type ParamsText = Seq<(Seq<char>, Seq<Seq<char>>)>;

/// One property line of a feed, split into its parts.
#[derive(Clone, Debug, PartialEq, Eq)]
pub struct RawProperty {
    pub name: String,
    pub value: Option<String>,
    pub params: Option<Vec<(String, Vec<String>)>>,
}

/// What a [`RawProperty`] holds, as text.
pub ghost struct PropertyText {
    pub name: Seq<char>,
    pub value: Option<Seq<char>>,
    pub params: Option<ParamsText>,
}

impl View for RawProperty {
    type V = PropertyText;

    open spec fn view(&self) -> PropertyText {
        PropertyText {
            name: self.name@,
            value: self.value.deep_view(),
            params: self.params.deep_view(),
        }
    }
}

impl DeepView for RawProperty {
    type V = PropertyText;

    open spec fn deep_view(&self) -> PropertyText {
        self@
    }
}

/// The properties of one event block, in feed order.
#[derive(Clone, Debug, PartialEq, Eq)]
pub struct RawEventBlock {
    pub properties: Vec<RawProperty>,
}

impl View for RawEventBlock {
    type V = Seq<PropertyText>;

    open spec fn view(&self) -> Seq<PropertyText> {
        self.properties.deep_view()
    }
}

impl DeepView for RawEventBlock {
    type V = Seq<PropertyText>;

    open spec fn deep_view(&self) -> Seq<PropertyText> {
        self@
    }
}

/// One calendar object of a feed: either its event blocks, or the reason why it
/// could not be read.
#[derive(Clone, Debug, PartialEq, Eq)]
pub enum CalendarObject {
    Parsed(Vec<RawEventBlock>),
    Malformed(String),
}

/// What a [`CalendarObject`] holds, as text.
pub ghost enum ObjectText {
    Parsed(Seq<Seq<PropertyText>>),
    Malformed(Seq<char>),
}

impl View for CalendarObject {
    type V = ObjectText;

    open spec fn view(&self) -> ObjectText {
        match self {
            CalendarObject::Parsed(blocks) => ObjectText::Parsed(blocks.deep_view()),
            CalendarObject::Malformed(reason) => ObjectText::Malformed(reason@),
        }
    }
}

impl DeepView for CalendarObject {
    type V = ObjectText;

    open spec fn deep_view(&self) -> ObjectText {
        self@
    }
}

/// A start or end as the feed gave it: the timestamp text and the parameters of
/// the property that carried it.
#[derive(Clone, Debug, PartialEq, Eq)]
pub struct OutlookEventDateTime {
    pub date_time: String,
    pub params: Option<Vec<(String, Vec<String>)>>,
}

/// What an [`OutlookEventDateTime`] holds, as text.
pub ghost struct RawMomentText {
    pub date_time: Seq<char>,
    pub params: Option<ParamsText>,
}

impl View for OutlookEventDateTime {
    type V = RawMomentText;

    open spec fn view(&self) -> RawMomentText {
        RawMomentText { date_time: self.date_time@, params: self.params.deep_view() }
    }
}

/// An event as read from one event block, before its times are normalised.
#[derive(Clone, Debug, PartialEq, Eq)]
pub struct OutlookEvent {
    pub id: Option<String>,
    pub summary: String,
    pub location: Option<String>,
    pub description: Option<String>,
    pub start: OutlookEventDateTime,
    pub end: OutlookEventDateTime,
}

/// What an [`OutlookEvent`] holds, as text.
pub ghost struct RawEventText {
    pub id: Option<Seq<char>>,
    pub summary: Seq<char>,
    pub location: Option<Seq<char>>,
    pub description: Option<Seq<char>>,
    pub start: RawMomentText,
    pub end: RawMomentText,
}

impl View for OutlookEvent {
    type V = RawEventText;

    open spec fn view(&self) -> RawEventText {
        RawEventText {
            id: self.id.deep_view(),
            summary: self.summary@,
            location: self.location.deep_view(),
            description: self.description.deep_view(),
            start: self.start@,
            end: self.end@,
        }
    }
}

/// A calendar day.
#[derive(Clone, Copy, Debug, PartialEq, Eq, Structural)]
pub struct CalendarDate {
    pub year: i32,
    pub month: u32,
    pub day: u32,
}

impl CalendarDate {
    /// Whether this day is the same as `other` or comes after it.
    pub open spec fn is_on_or_after(self, other: CalendarDate) -> bool {
        ||| self.year > other.year
        ||| self.year == other.year && self.month > other.month
        ||| self.year == other.year && self.month == other.month && self.day >= other.day
    }

    /// Decides [`Self::is_on_or_after`].
    pub fn on_or_after(&self, other: &CalendarDate) -> (later: bool)
        ensures
            later == self.is_on_or_after(*other),
    {
        if self.year != other.year {
            self.year > other.year
        } else if self.month != other.month {
            self.month > other.month
        } else {
            self.day >= other.day
        }
    }
}

/// A moment given by its wall-clock fields, read as UTC.
#[derive(Clone, Copy, Debug, PartialEq, Eq, Structural)]
pub struct UtcDateTime {
    pub year: i32,
    pub month: u32,
    pub day: u32,
    pub hour: u32,
    pub minute: u32,
    pub second: u32,
    pub nanosecond: u32,
}

impl UtcDateTime {
    /// The calendar day on which this moment falls.
    pub open spec fn spec_date(self) -> CalendarDate {
        CalendarDate { year: self.year, month: self.month, day: self.day }
    }

    /// The calendar day on which this moment falls.
    #[verifier::when_used_as_spec(spec_date)]
    pub fn date(self) -> (day: CalendarDate)
        ensures
            day == self.spec_date(),
    {
        CalendarDate { year: self.year, month: self.month, day: self.day }
    }
}

/// A normalised start or end: a day, or a moment, and the zone it was given in.
#[derive(Clone, Debug, PartialEq, Eq)]
pub struct EventDateTime {
    pub date: Option<String>,
    pub date_time: Option<UtcDateTime>,
    pub time_zone: Option<String>,
}

/// What an [`EventDateTime`] holds, as text.
pub ghost struct MomentText {
    pub date: Option<Seq<char>>,
    pub date_time: Option<UtcDateTime>,
    pub time_zone: Option<Seq<char>>,
}

impl MomentText {
    /// A day and a moment are never given together.
    pub open spec fn well_formed(self) -> bool {
        !(self.date is Some && self.date_time is Some)
    }
}

impl View for EventDateTime {
    type V = MomentText;

    open spec fn view(&self) -> MomentText {
        MomentText {
            date: self.date.deep_view(),
            date_time: self.date_time,
            time_zone: self.time_zone.deep_view(),
        }
    }
}

/// A normalised event.
#[derive(Clone, Debug, PartialEq, Eq)]
pub struct Event {
    pub id: Option<String>,
    pub summary: String,
    pub location: Option<String>,
    pub description: Option<String>,
    pub start: EventDateTime,
    pub end: EventDateTime,
}

/// What an [`Event`] holds, as text.
pub ghost struct EventText {
    pub id: Option<Seq<char>>,
    pub summary: Seq<char>,
    pub location: Option<Seq<char>>,
    pub description: Option<Seq<char>>,
    pub start: MomentText,
    pub end: MomentText,
}

impl EventText {
    /// Both ends of the event are well formed.
    pub open spec fn well_formed(self) -> bool {
        self.start.well_formed() && self.end.well_formed()
    }
}

impl View for Event {
    type V = EventText;

    open spec fn view(&self) -> EventText {
        EventText {
            id: self.id.deep_view(),
            summary: self.summary@,
            location: self.location.deep_view(),
            description: self.description.deep_view(),
            start: self.start@,
            end: self.end@,
        }
    }
}

impl DeepView for Event {
    type V = EventText;

    open spec fn deep_view(&self) -> EventText {
        self@
    }
}

} // verus!
