//! Reading one event block into an event.

use crate::model::{
    OutlookEvent, OutlookEventDateTime, ParamsText, PropertyText, RawEventBlock, RawEventText,
    RawMomentText,
};
use crate::text::same_text;
use vstd::prelude::*;

verus! {

/// The last property of `props` that is called `name`, if there is one.
pub open spec fn last_named(props: Seq<PropertyText>, name: Seq<char>) -> Option<PropertyText>
    decreases props.len(),
{
    if props.len() == 0 {
        None
    } else if props.last().name == name {
        Some(props.last())
    } else {
        last_named(props.drop_last(), name)
    }
}

/// The value of the last property called `name`; none where there is no such
/// property or where it has no value.
pub open spec fn last_value(props: Seq<PropertyText>, name: Seq<char>) -> Option<Seq<char>> {
    match last_named(props, name) {
        Some(property) => property.value,
        None => None,
    }
}

/// A value's text, or the empty text where there is no value.
pub open spec fn text_or_empty(value: Option<Seq<char>>) -> Seq<char> {
    match value {
        Some(text) => text,
        None => Seq::empty(),
    }
}

/// The start or end that the last property called `name` gives: its value and
/// its parameters. Where there is no such property, the empty text and an empty
/// parameter list.
pub open spec fn last_moment(props: Seq<PropertyText>, name: Seq<char>) -> RawMomentText {
    match last_named(props, name) {
        Some(property) => RawMomentText {
            date_time: text_or_empty(property.value),
            params: property.params,
        },
        None => RawMomentText { date_time: Seq::empty(), params: Some(Seq::empty()) },
    }
}

/// The event that a block's properties give. Of several properties with one
/// name the last counts; properties with other names count for nothing.
pub open spec fn extracted_event(props: Seq<PropertyText>) -> RawEventText {
    RawEventText {
        id: last_value(props, "UID"@),
        summary: text_or_empty(last_value(props, "SUMMARY"@)),
        location: last_value(props, "LOCATION"@),
        description: last_value(props, "DESCRIPTION"@),
        start: last_moment(props, "DTSTART"@),
        end: last_moment(props, "DTEND"@),
    }
}

/// The six property names differ from each other.
proof fn lemma_names_differ()
    ensures
        "UID"@.len() == 3,
        "SUMMARY"@.len() == 7,
        "LOCATION"@.len() == 8,
        "DESCRIPTION"@.len() == 11,
        "DTSTART"@.len() == 7,
        "DTEND"@.len() == 5,
        "SUMMARY"@[0] == 'S',
        "DTSTART"@[0] == 'D',
{
    reveal_strlit("UID");
    reveal_strlit("SUMMARY");
    reveal_strlit("LOCATION");
    reveal_strlit("DESCRIPTION");
    reveal_strlit("DTSTART");
    reveal_strlit("DTEND");
}

/// A value's text, or the empty text where there is no value.
fn value_or_empty(value: Option<String>) -> (text: String)
    ensures
        text@ == text_or_empty(value.deep_view()),
{
    match value {
        Some(text) => text,
        None => String::new(),
    }
}

/// Reads one event block into an event, in a single pass over its properties.
pub fn extract_event(block: RawEventBlock) -> (event: OutlookEvent)
    ensures
        event@ == extracted_event(block@),
{
    let ghost texts = block@;
    let mut event = OutlookEvent {
        id: None,
        summary: String::new(),
        location: None,
        description: None,
        start: OutlookEventDateTime { date_time: String::new(), params: Some(Vec::new()) },
        end: OutlookEventDateTime { date_time: String::new(), params: Some(Vec::new()) },
    };
    assert(event.start.params.deep_view() == Some(ParamsText::empty()));
    assert(event.end.params.deep_view() == Some(ParamsText::empty()));
    let properties = block.properties;
    for property in it: properties
        invariant
            it.seq().len() == texts.len(),
            forall|i: int| 0 <= i < texts.len() ==> (#[trigger] it.seq()[i])@ == texts[i],
            event@ == extracted_event(texts.take(it.index() as int)),
    {
        proof {
            lemma_names_differ();
            assert(texts.take(it.index() + 1).drop_last() =~= texts.take(it.index() as int));
        }
        let name = property.name.as_str();
        if same_text(name, "UID") {
            event.id = property.value;
        } else if same_text(name, "SUMMARY") {
            event.summary = value_or_empty(property.value);
        } else if same_text(name, "LOCATION") {
            event.location = property.value;
        } else if same_text(name, "DESCRIPTION") {
            event.description = property.value;
        } else if same_text(name, "DTSTART") {
            event.start.date_time = value_or_empty(property.value);
            event.start.params = property.params;
        } else if same_text(name, "DTEND") {
            event.end.date_time = value_or_empty(property.value);
            event.end.params = property.params;
        }
    }
    assert(texts.take(texts.len() as int) =~= texts);
    event
}

} // verus!
