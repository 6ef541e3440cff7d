//! What holds of the engine as a whole.

use crate::datetime::{basic_format, dashed_date, normalized_moment, parsed_naive_datetime};
use crate::extract::{extracted_event, last_named};
use crate::feed::{
    block_events, block_reports, event_of_block, feed_events, feed_reports, DiagnosticText,
};
use crate::filter::{decision, is_retained, Decision};
use crate::model::{CalendarDate, EventText, ObjectText, PropertyText, RawMomentText};
use crate::timezone::{resolve_alias, resolved_zone};
use vstd::prelude::*;

verus! {

/// A timestamp text of fifteen characters or more that can be read as
/// `YYYYMMDDTHHMMSS` gives a moment and no day.
pub proof fn lemma_full_timestamp_gives_moment(raw: RawMomentText)
    requires
        raw.date_time.len() >= 15,
        parsed_naive_datetime(raw.date_time, basic_format()) is Some,
    ensures
        normalized_moment(raw).date_time == parsed_naive_datetime(raw.date_time, basic_format()),
        normalized_moment(raw).date_time is Some,
        normalized_moment(raw).date is None,
{
}

/// A timestamp text of fifteen characters or more that cannot be read gives
/// neither a moment nor a day.
pub proof fn lemma_unreadable_timestamp_gives_nothing(raw: RawMomentText)
    requires
        raw.date_time.len() >= 15,
        parsed_naive_datetime(raw.date_time, basic_format()) is None,
    ensures
        normalized_moment(raw).date_time is None,
        normalized_moment(raw).date is None,
{
}

/// A timestamp text of eight to fourteen characters gives a day and no moment.
/// The day has the form `YYYY-MM-DD` and is made of the first eight characters
/// of the text, whatever they are.
pub proof fn lemma_short_timestamp_gives_day(raw: RawMomentText)
    requires
        8 <= raw.date_time.len() < 15,
    ensures
        normalized_moment(raw).date_time is None,
        normalized_moment(raw).date == Some(dashed_date(raw.date_time)),
        dashed_date(raw.date_time).len() == 10,
        dashed_date(raw.date_time)[4] == '-',
        dashed_date(raw.date_time)[7] == '-',
        dashed_date(raw.date_time).subrange(0, 4) == raw.date_time.subrange(0, 4),
        dashed_date(raw.date_time).subrange(5, 7) == raw.date_time.subrange(4, 6),
        dashed_date(raw.date_time).subrange(8, 10) == raw.date_time.subrange(6, 8),
{
}

/// A timestamp text of fewer than eight characters gives neither a moment nor a
/// day.
pub proof fn lemma_tiny_timestamp_gives_nothing(raw: RawMomentText)
    requires
        raw.date_time.len() < 8,
    ensures
        normalized_moment(raw).date_time is None,
        normalized_moment(raw).date is None,
{
}

/// A normalised start or end never holds a day and a moment together, and its
/// zone is the one that its parameters resolve to, whatever its text is.
pub proof fn lemma_moment_is_well_formed(raw: RawMomentText)
    ensures
        normalized_moment(raw).well_formed(),
        normalized_moment(raw).time_zone == resolved_zone(raw.params),
{
}

/// Resolving an alias depends on the alias alone: the same alias gives the same
/// zone identifier, or none, every time.
pub proof fn lemma_resolution_depends_on_alias_alone(first: Seq<char>, second: Seq<char>)
    requires
        first == second,
    ensures
        resolve_alias(first) == resolve_alias(second),
{
}

/// A block without a property of this name has no last property of this name.
pub proof fn lemma_absent_name_has_no_last(props: Seq<PropertyText>, name: Seq<char>)
    requires
        forall|i: int| 0 <= i < props.len() ==> (#[trigger] props[i]).name != name,
    ensures
        last_named(props, name) is None,
    decreases props.len(),
{
    if props.len() > 0 {
        lemma_absent_name_has_no_last(props.drop_last(), name);
    }
}

/// An event block without any `DTSTART` property gives an event without a
/// start, which is reported and not kept, whatever the day.
pub proof fn lemma_missing_start_is_dropped(block: Seq<PropertyText>, today: CalendarDate)
    requires
        forall|i: int| 0 <= i < block.len() ==> (#[trigger] block[i]).name != "DTSTART"@,
    ensures
        event_of_block(block).start.date is None,
        event_of_block(block).start.date_time is None,
        decision(event_of_block(block), today) == Decision::NoStart,
        !is_retained(event_of_block(block), today),
{
    lemma_absent_name_has_no_last(block, "DTSTART"@);
}

/// An event block without any `DTSTART` property adds nothing to the events
/// kept.
pub proof fn lemma_missing_start_adds_no_event(
    blocks: Seq<Seq<PropertyText>>,
    block: Seq<PropertyText>,
    today: CalendarDate,
)
    requires
        forall|i: int| 0 <= i < block.len() ==> (#[trigger] block[i]).name != "DTSTART"@,
    ensures
        block_events(blocks.push(block), today) == block_events(blocks, today),
{
    lemma_missing_start_is_dropped(block, today);
    assert(blocks.push(block).drop_last() =~= blocks);
}

/// A malformed calendar object adds nothing to the events kept, and the events
/// of the objects around it are kept as they would be without it.
pub proof fn lemma_malformed_object_adds_no_event(
    before: Seq<ObjectText>,
    reason: Seq<char>,
    after: Seq<ObjectText>,
    today: CalendarDate,
)
    ensures
        feed_events(before.push(ObjectText::Malformed(reason)) + after, today) == feed_events(
            before + after,
            today,
        ),
    decreases after.len(),
{
    let bad = ObjectText::Malformed(reason);
    if after.len() == 0 {
        assert(before.push(bad).drop_last() =~= before);
    } else {
        lemma_malformed_object_adds_no_event(before, reason, after.drop_last(), today);
        assert((before.push(bad) + after).drop_last() =~= before.push(bad) + after.drop_last());
        assert((before + after).drop_last() =~= before + after.drop_last());
    }
}

/// All events of a run of event blocks, kept or not, in the order of the
/// blocks.
pub open spec fn all_block_events(blocks: Seq<Seq<PropertyText>>) -> Seq<EventText> {
    blocks.map_values(|block: Seq<PropertyText>| event_of_block(block))
}

/// All events of a feed, kept or not, in feed order.
pub open spec fn all_feed_events(objects: Seq<ObjectText>) -> Seq<EventText>
    decreases objects.len(),
{
    if objects.len() == 0 {
        Seq::empty()
    } else {
        all_feed_events(objects.drop_last()) + match objects.last() {
            ObjectText::Parsed(blocks) => all_block_events(blocks),
            ObjectText::Malformed(_) => Seq::empty(),
        }
    }
}

/// Whether `places` picks `kept` out of `all` from left to right: each kept
/// event stands in `all` at its place, each place holds an event that is
/// retained, and the places rise.
pub open spec fn picks_in_order(
    places: Seq<int>,
    kept: Seq<EventText>,
    all: Seq<EventText>,
    today: CalendarDate,
) -> bool {
    &&& places.len() == kept.len()
    &&& forall|k: int|
        0 <= k < places.len() ==> 0 <= #[trigger] places[k] < all.len() && kept[k] == all[places[k]]
            && is_retained(all[places[k]], today)
    &&& forall|j: int, k: int| 0 <= j < k < places.len() ==> places[j] < places[k]
    &&& forall|i: int|
        0 <= i < all.len() && is_retained(#[trigger] all[i], today) ==> places.contains(i)
}

/// The places in `all_block_events` of the events kept of a run of blocks.
pub open spec fn kept_block_places(blocks: Seq<Seq<PropertyText>>, today: CalendarDate) -> Seq<int>
    decreases blocks.len(),
{
    if blocks.len() == 0 {
        Seq::empty()
    } else {
        let earlier = kept_block_places(blocks.drop_last(), today);
        if is_retained(event_of_block(blocks.last()), today) {
            earlier.push(blocks.len() - 1)
        } else {
            earlier
        }
    }
}

/// The events kept of a run of event blocks are exactly the retained ones among
/// all its events, in the order of the blocks.
pub proof fn lemma_block_order_is_kept(blocks: Seq<Seq<PropertyText>>, today: CalendarDate)
    ensures
        picks_in_order(
            kept_block_places(blocks, today),
            block_events(blocks, today),
            all_block_events(blocks),
            today,
        ),
    decreases blocks.len(),
{
    let places = kept_block_places(blocks, today);
    let all = all_block_events(blocks);
    if blocks.len() > 0 {
        let shorter = blocks.drop_last();
        lemma_block_order_is_kept(shorter, today);
        let earlier = kept_block_places(shorter, today);
        let all_earlier = all_block_events(shorter);
        assert(forall|i: int| 0 <= i < all_earlier.len() ==> all_earlier[i] == all[i]);
        assert forall|i: int|
            0 <= i < all.len() && is_retained(#[trigger] all[i], today) implies places.contains(
            i,
        ) by {
            if i < all.len() - 1 {
                let k = choose|k: int| 0 <= k < earlier.len() && earlier[k] == i;
                assert(places[k] == i);
            } else {
                assert(places[places.len() - 1] == i);
            }
        }
    }
}

/// The places in `all_feed_events` of the events kept of a feed.
pub open spec fn kept_feed_places(objects: Seq<ObjectText>, today: CalendarDate) -> Seq<int>
    decreases objects.len(),
{
    if objects.len() == 0 {
        Seq::empty()
    } else {
        let shift = all_feed_events(objects.drop_last()).len() as int;
        kept_feed_places(objects.drop_last(), today) + match objects.last() {
            ObjectText::Parsed(blocks) => kept_block_places(blocks, today).map_values(
                |place: int| place + shift,
            ),
            ObjectText::Malformed(_) => Seq::empty(),
        }
    }
}

/// The events kept of a feed are exactly the retained ones among all events of
/// its well-formed calendar objects, in feed order: nothing is sorted anew.
pub proof fn lemma_feed_order_is_kept(objects: Seq<ObjectText>, today: CalendarDate)
    ensures
        picks_in_order(
            kept_feed_places(objects, today),
            feed_events(objects, today),
            all_feed_events(objects),
            today,
        ),
    decreases objects.len(),
{
    let places = kept_feed_places(objects, today);
    let kept = feed_events(objects, today);
    let all = all_feed_events(objects);
    if objects.len() > 0 {
        let shorter = objects.drop_last();
        lemma_feed_order_is_kept(shorter, today);
        let earlier = kept_feed_places(shorter, today);
        let shift = all_feed_events(shorter).len() as int;
        match objects.last() {
            ObjectText::Parsed(blocks) => {
                lemma_block_order_is_kept(blocks, today);
                let local = kept_block_places(blocks, today);
                assert(places == earlier + local.map_values(|place: int| place + shift));
                assert(kept == feed_events(shorter, today) + block_events(blocks, today));
                assert(all == all_feed_events(shorter) + all_block_events(blocks));
                assert forall|i: int|
                    0 <= i < all.len() && is_retained(#[trigger] all[i], today) implies places.contains(
                    i,
                ) by {
                    if i < shift {
                        let k = choose|k: int| 0 <= k < earlier.len() && earlier[k] == i;
                        assert(places[k] == i);
                    } else {
                        let m = choose|m: int| 0 <= m < local.len() && local[m] == i - shift;
                        assert(places[earlier.len() + m] == i);
                    }
                }
            },
            ObjectText::Malformed(_) => {
                assert(places =~= earlier);
                assert(kept =~= feed_events(shorter, today));
                assert(all =~= all_feed_events(shorter));
            },
        }
    }
}

/// A malformed calendar object is reported once, with its place in the feed and
/// the reason, after the reports on the objects before it.
pub proof fn lemma_malformed_object_is_reported(
    before: Seq<ObjectText>,
    reason: Seq<char>,
    today: CalendarDate,
)
    ensures
        feed_reports(before.push(ObjectText::Malformed(reason)), today) == feed_reports(
            before,
            today,
        ).push(DiagnosticText::MalformedObject { object: before.len(), reason }),
        feed_events(before.push(ObjectText::Malformed(reason)), today) == feed_events(
            before,
            today,
        ),
{
    let objects = before.push(ObjectText::Malformed(reason));
    assert(objects.drop_last() =~= before);
    assert(feed_reports(objects, today) =~= feed_reports(before, today).push(
        DiagnosticText::MalformedObject { object: before.len(), reason },
    ));
}

/// An event block without any `DTSTART` property is reported once, with its
/// place, after the reports on the blocks before it.
pub proof fn lemma_missing_start_is_reported(
    blocks: Seq<Seq<PropertyText>>,
    block: Seq<PropertyText>,
    object: nat,
    today: CalendarDate,
)
    requires
        forall|i: int| 0 <= i < block.len() ==> (#[trigger] block[i]).name != "DTSTART"@,
    ensures
        block_reports(blocks.push(block), object, today) == block_reports(
            blocks,
            object,
            today,
        ).push(DiagnosticText::MissingStart { object, event: blocks.len() }),
{
    lemma_missing_start_is_dropped(block, today);
    assert(blocks.push(block).drop_last() =~= blocks);
}

/// Every event kept of a run of event blocks is retained on the day `today`,
/// and neither its start nor its end holds a day and a moment together.
pub proof fn lemma_kept_block_events_are_sound(
    blocks: Seq<Seq<PropertyText>>,
    today: CalendarDate,
)
    ensures
        forall|k: int|
            0 <= k < block_events(blocks, today).len() ==> {
                let event = #[trigger] block_events(blocks, today)[k];
                event.well_formed() && is_retained(event, today)
            },
    decreases blocks.len(),
{
    if blocks.len() > 0 {
        lemma_kept_block_events_are_sound(blocks.drop_last(), today);
    }
}

/// Every event kept of a feed is retained on the day `today`, and neither its
/// start nor its end holds a day and a moment together.
pub proof fn lemma_kept_feed_events_are_sound(objects: Seq<ObjectText>, today: CalendarDate)
    ensures
        forall|k: int|
            0 <= k < feed_events(objects, today).len() ==> {
                let event = #[trigger] feed_events(objects, today)[k];
                event.well_formed() && is_retained(event, today)
            },
    decreases objects.len(),
{
    if objects.len() > 0 {
        lemma_kept_feed_events_are_sound(objects.drop_last(), today);
        match objects.last() {
            ObjectText::Parsed(blocks) => {
                lemma_kept_block_events_are_sound(blocks, today);
            },
            ObjectText::Malformed(_) => {},
        }
    }
}

} // verus!
