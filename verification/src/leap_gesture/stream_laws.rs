//! What the recognizer promises of a hand from the moment it starts tracking.

use crate::leap_gesture::laws;
use crate::leap_gesture::laws::{Family, Glimpse};
use crate::leap_gesture::recognizer;
use crate::leap_gesture::recognizer::{GrabState, HandTracker};
use crate::leap_gesture::types;
use crate::leap_gesture::types::{
    DragReading, DragReference, LeapAxis, LeapChirality, LeapGestureEvent, LeapHandData,
    LeapPresenceEvent, LeapTuning, SwipeDirection,
};
use crate::measure::Measure;
use vstd::prelude::*;

verus! {

/// The tracker of a hand after a stream of glimpses, from its first frame on.
pub open spec fn tracker_after(chirality: LeapChirality, stream: Seq<Glimpse>) -> HandTracker {
    laws::run(HandTracker::initial(), chirality, stream).0
}

/// All events of a hand over a stream of glimpses, from its first frame on.
pub open spec fn events_of(chirality: LeapChirality, stream: Seq<Glimpse>) -> Seq<
    LeapGestureEvent,
> {
    laws::run(HandTracker::initial(), chirality, stream).1
}

/// The events that glimpse `i` of a stream makes a hand fire.
pub open spec fn events_at(chirality: LeapChirality, stream: Seq<Glimpse>, i: int) -> Seq<
    LeapGestureEvent,
> {
    laws::glimpse_step(tracker_after(chirality, stream.take(i)), chirality, stream[i]).1
}

proof fn last_events(chirality: LeapChirality, stream: Seq<Glimpse>)
    requires
        stream.len() > 0,
    ensures
        ({
            let step = laws::glimpse_step(
                tracker_after(chirality, stream.drop_last()),
                chirality,
                stream.last(),
            );
            &&& events_at(chirality, stream, stream.len() - 1) == step.1
            &&& tracker_after(chirality, stream) == step.0
            &&& events_of(chirality, stream) == events_of(chirality, stream.drop_last()) + step.1
        }),
        forall|i: int|
            0 <= i < stream.len() - 1 ==> #[trigger] events_at(chirality, stream, i) == events_at(
                chirality,
                stream.drop_last(),
                i,
            ),
{
    let shorter = stream.drop_last();
    assert(stream.take(stream.len() - 1) =~= shorter);
    assert forall|i: int| 0 <= i < stream.len() - 1 implies #[trigger] events_at(
        chirality,
        stream,
        i,
    ) == events_at(chirality, shorter, i) by {
        assert(stream.take(i) =~= shorter.take(i));
        assert(stream[i] == shorter[i]);
    }
}

/// The hand is in the last frame.
pub open spec fn in_view(stream: Seq<Glimpse>) -> bool {
    stream.len() > 0 && stream.last().hand is Some
}

/// When the hand last came into or left the view; it is out of view from time 0 on.
pub open spec fn changed_us(stream: Seq<Glimpse>) -> i64
    decreases stream.len(),
{
    if stream.len() == 0 {
        0
    } else if in_view(stream) == in_view(stream.drop_last()) {
        changed_us(stream.drop_last())
    } else {
        stream.last().now_us
    }
}

/// The hand was last reported present, if it was (not) before the events.
pub open spec fn shown_after(was: bool, events: Seq<LeapGestureEvent>) -> bool
    decreases events.len(),
{
    if events.len() == 0 {
        was
    } else {
        match events.last() {
            LeapGestureEvent::Presence { hand, event } => event is Appear,
            _ => shown_after(was, events.drop_last()),
        }
    }
}

/// None of the events is about presence.
pub open spec fn no_presence(events: Seq<LeapGestureEvent>) -> bool {
    forall|i: int| 0 <= i < events.len() ==> !(#[trigger] events[i] is Presence)
}

proof fn no_presence_concat(a: Seq<LeapGestureEvent>, b: Seq<LeapGestureEvent>)
    requires
        no_presence(a),
        no_presence(b),
    ensures
        no_presence(a + b),
{
    assert forall|i: int| 0 <= i < (a + b).len() implies !(#[trigger] (a + b)[i] is Presence) by {
        if i < a.len() {
            assert((a + b)[i] == a[i]);
        } else {
            assert((a + b)[i] == b[i - a.len()]);
        }
    }
}

proof fn shown_concat(was: bool, a: Seq<LeapGestureEvent>, b: Seq<LeapGestureEvent>)
    ensures
        shown_after(was, a + b) == shown_after(shown_after(was, a), b),
    decreases b.len(),
{
    if b.len() == 0 {
        assert(a + b =~= a);
    } else {
        shown_concat(was, a, b.drop_last());
        assert((a + b).drop_last() =~= a + b.drop_last());
    }
}

proof fn shown_unchanged(was: bool, events: Seq<LeapGestureEvent>)
    requires
        no_presence(events),
    ensures
        shown_after(was, events) == was,
    decreases events.len(),
{
    if events.len() > 0 {
        assert(!(events[events.len() - 1] is Presence));
        assert forall|i: int| 0 <= i < events.drop_last().len() implies !(
        #[trigger] events.drop_last()[i] is Presence) by {
            assert(events.drop_last()[i] == events[i]);
        }
        shown_unchanged(was, events.drop_last());
    }
}

proof fn sighting_shows_nothing(
    t: HandTracker,
    chirality: LeapChirality,
    hand: LeapHandData,
    now_us: i64,
    tuning: LeapTuning,
)
    ensures
        no_presence(recognizer::sighting_step(t, chirality, hand, now_us, tuning).1),
{
    let grabbing = t.grabbing(hand, tuning);
    let sighted = HandTracker { last_seen_us: now_us, ..t };
    let pinch = recognizer::pinch_step(sighted, chirality, hand, grabbing, tuning);
    let swipe = recognizer::swipe_step(pinch.0, chirality, hand, grabbing, now_us, tuning);
    let pose = recognizer::pose_step(swipe.0, chirality, hand, grabbing, now_us, tuning);
    let grab = recognizer::grab_step(pose.0, chirality, hand, now_us, tuning);
    assert(no_presence(pinch.1));
    assert(no_presence(swipe.1));
    assert(no_presence(pose.1));
    assert(no_presence(grab.1));
    no_presence_concat(pinch.1, swipe.1);
    no_presence_concat(pinch.1 + swipe.1, pose.1);
    no_presence_concat(pinch.1 + swipe.1 + pose.1, grab.1);
}

/// What a glimpse fires besides presence.
spec fn actions_of(t: HandTracker, chirality: LeapChirality, g: Glimpse) -> Seq<
    LeapGestureEvent,
> {
    let loss = recognizer::loss_step(t, chirality, g.hand is Some, g.now_us);
    let presence = recognizer::presence_step(
        loss.0,
        chirality,
        g.hand is Some,
        g.now_us,
        g.tuning,
    );
    match g.hand {
        Some(hand) => loss.1 + recognizer::sighting_step(
            presence.0,
            chirality,
            hand,
            g.now_us,
            g.tuning,
        ).1,
        None => loss.1,
    }
}

/// Presence comes first among the events of a glimpse.
proof fn presence_first(t: HandTracker, chirality: LeapChirality, g: Glimpse)
    ensures
        ({
            let presence = recognizer::presence_step(
                t,
                chirality,
                g.hand is Some,
                g.now_us,
                g.tuning,
            );
            let actions = actions_of(t, chirality, g);
            &&& laws::glimpse_step(t, chirality, g).1 == presence.1 + actions
            &&& no_presence(actions)
        }),
{
    let loss = recognizer::loss_step(t, chirality, g.hand is Some, g.now_us);
    let presence = recognizer::presence_step(
        loss.0,
        chirality,
        g.hand is Some,
        g.now_us,
        g.tuning,
    );
    let actions = actions_of(t, chirality, g);
    let events = laws::glimpse_step(t, chirality, g).1;
    assert(no_presence(loss.1));
    assert(presence.1 == recognizer::presence_step(
        t,
        chirality,
        g.hand is Some,
        g.now_us,
        g.tuning,
    ).1);
    if let Some(hand) = g.hand {
        sighting_shows_nothing(presence.0, chirality, hand, g.now_us, g.tuning);
        let rest = recognizer::sighting_step(presence.0, chirality, hand, g.now_us, g.tuning);
        no_presence_concat(loss.1, rest.1);
        assert(events =~= presence.1 + actions);
    } else {
        assert(events =~= presence.1 + actions);
    }
}

proof fn presence_tracked(chirality: LeapChirality, stream: Seq<Glimpse>)
    ensures
        ({
            let t = tracker_after(chirality, stream);
            &&& t.raw_visible == in_view(stream)
            &&& t.raw_since_us == changed_us(stream)
            &&& t.visible == shown_after(false, events_of(chirality, stream))
        }),
    decreases stream.len(),
{
    if stream.len() > 0 {
        let shorter = stream.drop_last();
        let g = stream.last();
        let t = tracker_after(chirality, shorter);
        presence_tracked(chirality, shorter);
        last_events(chirality, stream);
        laws::presence_of_glimpse(t, chirality, g);
        presence_first(t, chirality, g);
        let presence = recognizer::presence_step(
            t,
            chirality,
            g.hand is Some,
            g.now_us,
            g.tuning,
        );
        let actions = actions_of(t, chirality, g);
        shown_concat(false, events_of(chirality, shorter), presence.1 + actions);
        shown_concat(t.visible, presence.1, actions);
        shown_unchanged(shown_after(t.visible, presence.1), actions);
        if presence.1.len() > 0 {
            assert(presence.1.last() == presence.1[0]);
        }
    }
}

/// Presence is reported exactly when it is due: when the hand has been in view (out of view) for
/// the debounce interval and was last reported gone (present). The report is the frame's only one
/// and comes ahead of all its other events.
pub proof fn presence_follows_the_view(chirality: LeapChirality, stream: Seq<Glimpse>)
    requires
        stream.len() > 0,
    ensures
        ({
            let events = events_at(chirality, stream, stream.len() - 1);
            let due = in_view(stream) != shown_after(
                false,
                events_of(chirality, stream.drop_last()),
            ) && stream.last().now_us - changed_us(stream)
                >= stream.last().tuning.presence_debounce_us;
            &&& due ==> events.len() > 0 && events[0] == (LeapGestureEvent::Presence {
                hand: chirality,
                event: if in_view(stream) {
                    LeapPresenceEvent::Appear
                } else {
                    LeapPresenceEvent::Vanish
                },
            })
            &&& forall|i: int|
                0 <= i < events.len() && #[trigger] events[i] is Presence ==> due && i == 0
        }),
{
    let shorter = stream.drop_last();
    let g = stream.last();
    let t = tracker_after(chirality, shorter);
    last_events(chirality, stream);
    presence_tracked(chirality, shorter);
    presence_tracked(chirality, stream);
    laws::presence_of_glimpse(t, chirality, g);
    presence_first(t, chirality, g);
    let presence = recognizer::presence_step(t, chirality, g.hand is Some, g.now_us, g.tuning);
    let actions = actions_of(t, chirality, g);
    let events = events_at(chirality, stream, stream.len() - 1);
    assert forall|i: int| 0 <= i < events.len() && #[trigger] events[i] is Presence implies i
        < presence.1.len() by {
        if i >= presence.1.len() {
            assert(events[i] == actions[i - presence.1.len()]);
        }
    }
    if presence.1.len() > 0 {
        assert(events[0] == presence.1[0]);
    }
}

/// When the hand was last in a frame; 0 if it never was.
pub open spec fn seen_us(stream: Seq<Glimpse>) -> i64
    decreases stream.len(),
{
    if stream.len() == 0 {
        0
    } else if stream.last().hand is Some {
        stream.last().now_us
    } else {
        seen_us(stream.drop_last())
    }
}

proof fn sight_tracked(chirality: LeapChirality, stream: Seq<Glimpse>)
    ensures
        tracker_after(chirality, stream).last_seen_us == seen_us(stream),
        laws::drag_after(None, events_of(chirality, stream)) == Some(
            tracker_after(chirality, stream).latched_axis(),
        ),
    decreases stream.len(),
{
    laws::drag_events_nest(HandTracker::initial(), chirality, stream);
    if stream.len() > 0 {
        let t = tracker_after(chirality, stream.drop_last());
        sight_tracked(chirality, stream.drop_last());
        last_events(chirality, stream);
        laws::grab_of_glimpse(t, chirality, stream.last(), Family::GrabEnd);
    }
}

/// A frame without the hand reports at most that the hand is gone, and then that its drag is
/// over: the latter exactly when a drag is open and the hand was last seen longer than the grace
/// period ago.
pub proof fn absent_hand_only_vanishes_or_ends_its_drag(
    chirality: LeapChirality,
    stream: Seq<Glimpse>,
)
    requires
        stream.len() > 0,
        stream.last().hand is None,
    ensures
        ({
            let shorter = stream.drop_last();
            let vanished = if shown_after(false, events_of(chirality, shorter))
                && stream.last().now_us - changed_us(stream)
                >= stream.last().tuning.presence_debounce_us {
                seq![
                    LeapGestureEvent::Presence {
                        hand: chirality,
                        event: LeapPresenceEvent::Vanish,
                    },
                ]
            } else {
                seq![]
            };
            let ended = match laws::drag_after(None, events_of(chirality, shorter)) {
                Some(Some(axis)) if stream.last().now_us - seen_us(shorter)
                    > recognizer::GRAB_LOSS_GRACE_US => seq![
                    LeapGestureEvent::GrabEnd { hand: chirality, axis },
                ],
                _ => seq![],
            };
            events_at(chirality, stream, stream.len() - 1) == vanished + ended
        }),
{
    let shorter = stream.drop_last();
    let g = stream.last();
    let t = tracker_after(chirality, shorter);
    last_events(chirality, stream);
    presence_tracked(chirality, shorter);
    presence_tracked(chirality, stream);
    laws::presence_of_glimpse(t, chirality, g);
    presence_first(t, chirality, g);
    sight_tracked(chirality, shorter);
}

/// How many of the events are about a drag.
pub open spec fn drag_events(events: Seq<LeapGestureEvent>) -> nat
    decreases events.len(),
{
    if events.len() == 0 {
        0
    } else {
        drag_events(events.drop_last()) + if laws::is_drag_event(events.last()) {
            1nat
        } else {
            0nat
        }
    }
}

proof fn drag_events_concat(a: Seq<LeapGestureEvent>, b: Seq<LeapGestureEvent>)
    ensures
        drag_events(a + b) == drag_events(a) + drag_events(b),
    decreases b.len(),
{
    if b.len() == 0 {
        assert(a + b =~= a);
    } else {
        drag_events_concat(a, b.drop_last());
        assert((a + b).drop_last() =~= a + b.drop_last());
    }
}

proof fn drag_events_short(events: Seq<LeapGestureEvent>)
    requires
        events.len() <= 1,
    ensures
        drag_events(events) == if events.len() == 1 && laws::is_drag_event(events[0]) {
            1nat
        } else {
            0nat
        },
{
    if events.len() == 1 {
        assert(drag_events(events.drop_last()) == 0);
    }
}

proof fn sighting_drag_events(
    t: HandTracker,
    chirality: LeapChirality,
    hand: LeapHandData,
    now_us: i64,
    tuning: LeapTuning,
)
    ensures
        drag_events(recognizer::sighting_step(t, chirality, hand, now_us, tuning).1) <= 1,
        t.grab is None ==> drag_events(
            recognizer::sighting_step(t, chirality, hand, now_us, tuning).1,
        ) == 0,
{
    let grabbing = t.grabbing(hand, tuning);
    let sighted = HandTracker { last_seen_us: now_us, ..t };
    let pinch = recognizer::pinch_step(sighted, chirality, hand, grabbing, tuning);
    let swipe = recognizer::swipe_step(pinch.0, chirality, hand, grabbing, now_us, tuning);
    let pose = recognizer::pose_step(swipe.0, chirality, hand, grabbing, now_us, tuning);
    let grab = recognizer::grab_step(pose.0, chirality, hand, now_us, tuning);
    drag_events_short(pinch.1);
    drag_events_short(swipe.1);
    drag_events_short(pose.1);
    drag_events_short(grab.1);
    assert(drag_events(pinch.1) == 0);
    assert(drag_events(swipe.1) == 0);
    assert(drag_events(pose.1) == 0);
    drag_events_concat(pinch.1, swipe.1);
    drag_events_concat(pinch.1 + swipe.1, pose.1);
    drag_events_concat(pinch.1 + swipe.1 + pose.1, grab.1);
}

/// A frame fires at most one drag event.
pub proof fn one_drag_event_per_frame(t: HandTracker, chirality: LeapChirality, g: Glimpse)
    ensures
        drag_events(laws::glimpse_step(t, chirality, g).1) <= 1,
{
    let loss = recognizer::loss_step(t, chirality, g.hand is Some, g.now_us);
    let presence = recognizer::presence_step(
        loss.0,
        chirality,
        g.hand is Some,
        g.now_us,
        g.tuning,
    );
    drag_events_short(loss.1);
    drag_events_short(presence.1);
    assert(drag_events(presence.1) == 0);
    drag_events_concat(presence.1, loss.1);
    match g.hand {
        Some(hand) => {
            let rest = recognizer::sighting_step(presence.0, chirality, hand, g.now_us, g.tuning);
            sighting_drag_events(presence.0, chirality, hand, g.now_us, g.tuning);
            drag_events_concat(presence.1 + loss.1, rest.1);
        },
        None => {
            drag_events_concat(presence.1 + loss.1, seq![]);
        },
    }
}

/// The drag events of a hand come in groups: a begin, updates, an end, all of one axis and one
/// hand, at most one of them per frame. Nothing ends that has not begun.
pub proof fn drag_events_form_groups(chirality: LeapChirality, stream: Seq<Glimpse>)
    ensures
        laws::drag_after(None, events_of(chirality, stream)) is Some,
        laws::all_of(events_of(chirality, stream), chirality),
        forall|i: int|
            0 <= i < stream.len() ==> drag_events(#[trigger] events_at(chirality, stream, i)) <= 1,
    decreases stream.len(),
{
    laws::drag_events_nest(HandTracker::initial(), chirality, stream);
    assert forall|i: int| 0 <= i < stream.len() implies drag_events(
        #[trigger] events_at(chirality, stream, i),
    ) <= 1 by {
        one_drag_event_per_frame(
            tracker_after(chirality, stream.take(i)),
            chirality,
            stream[i],
        );
    }
    if stream.len() > 0 {
        let shorter = stream.drop_last();
        drag_events_form_groups(chirality, shorter);
        last_events(chirality, stream);
        laws::events_name_their_hand(
            tracker_after(chirality, shorter),
            chirality,
            stream.last(),
        );
        laws::all_of_concat(
            events_of(chirality, shorter),
            events_at(chirality, stream, stream.len() - 1),
            chirality,
        );
    }
}

/// The displacement that the last update among the events reports; `start` if there is none.
pub open spec fn last_total(start: Measure, events: Seq<LeapGestureEvent>) -> Measure
    decreases events.len(),
{
    if events.len() == 0 {
        start
    } else {
        match events.last() {
            LeapGestureEvent::GrabUpdate { hand, axis, delta_mm, total_mm } => total_mm,
            _ => last_total(start, events.drop_last()),
        }
    }
}

proof fn last_total_concat(
    start: Measure,
    a: Seq<LeapGestureEvent>,
    b: Seq<LeapGestureEvent>,
)
    ensures
        last_total(start, a + b) == last_total(last_total(start, a), b),
    decreases b.len(),
{
    if b.len() == 0 {
        assert(a + b =~= a);
    } else {
        last_total_concat(start, a, b.drop_last());
        assert((a + b).drop_last() =~= a + b.drop_last());
    }
}

proof fn last_total_short(start: Measure, events: Seq<LeapGestureEvent>)
    requires
        events.len() <= 1,
    ensures
        last_total(start, events) == if events.len() == 1 {
            match events[0] {
                LeapGestureEvent::GrabUpdate { hand, axis, delta_mm, total_mm } => total_mm,
                _ => start,
            }
        } else {
            start
        },
{
    if events.len() == 1 {
        assert(last_total(start, events.drop_last()) == start);
    }
}

proof fn sighting_total(
    t: HandTracker,
    chirality: LeapChirality,
    hand: LeapHandData,
    now_us: i64,
    tuning: LeapTuning,
    start: Measure,
)
    ensures
        last_total(start, recognizer::sighting_step(t, chirality, hand, now_us, tuning).1)
            == last_total(start, recognizer::grab_step(t, chirality, hand, now_us, tuning).1),
{
    let grabbing = t.grabbing(hand, tuning);
    let sighted = HandTracker { last_seen_us: now_us, ..t };
    let pinch = recognizer::pinch_step(sighted, chirality, hand, grabbing, tuning);
    let swipe = recognizer::swipe_step(pinch.0, chirality, hand, grabbing, now_us, tuning);
    let pose = recognizer::pose_step(swipe.0, chirality, hand, grabbing, now_us, tuning);
    let grab = recognizer::grab_step(pose.0, chirality, hand, now_us, tuning);
    assert(pose.0.grab == t.grab);
    assert(grab.1 == recognizer::grab_step(t, chirality, hand, now_us, tuning).1);
    last_total_short(start, pinch.1);
    last_total_short(start, swipe.1);
    last_total_short(start, pose.1);
    assert(last_total(start, pinch.1) == start);
    assert(last_total(start, swipe.1) == start);
    assert(last_total(start, pose.1) == start);
    last_total_concat(start, pinch.1, swipe.1);
    last_total_concat(start, pinch.1 + swipe.1, pose.1);
    last_total_concat(start, pinch.1 + swipe.1 + pose.1, grab.1);
}

/// A glimpse that does not end an open drag keeps its anchor and axis, and remembers the total it
/// reports.
proof fn glimpse_keeps_reference(
    t: HandTracker,
    chirality: LeapChirality,
    g: Glimpse,
    anchor: [Measure; 3],
    axis: LeapAxis,
    total: Measure,
)
    requires
        t.reference() == Some(DragReference { anchor, latched: Some((axis, total)) }),
        !laws::fires(laws::glimpse_step(t, chirality, g).1, Family::GrabEnd),
    ensures
        laws::glimpse_step(t, chirality, g).0.reference() == Some(
            DragReference {
                anchor,
                latched: Some((axis, last_total(total, laws::glimpse_step(t, chirality, g).1))),
            },
        ),
{
    broadcast use laws::group_fires;

    laws::grab_of_glimpse(t, chirality, g, Family::GrabEnd);
    let loss = recognizer::loss_step(t, chirality, g.hand is Some, g.now_us);
    let presence = recognizer::presence_step(
        loss.0,
        chirality,
        g.hand is Some,
        g.now_us,
        g.tuning,
    );
    last_total_short(total, loss.1);
    last_total_short(total, presence.1);
    last_total_concat(total, presence.1, loss.1);
    match g.hand {
        Some(hand) => {
            let rest = recognizer::sighting_step(presence.0, chirality, hand, g.now_us, g.tuning);
            let grab = recognizer::grab_step(presence.0, chirality, hand, g.now_us, g.tuning);
            sighting_total(presence.0, chirality, hand, g.now_us, g.tuning, total);
            last_total_short(total, grab.1);
            last_total_concat(total, presence.1 + loss.1, rest.1);
        },
        None => {
            last_total_concat(total, presence.1 + loss.1, seq![]);
        },
    }
}

proof fn reference_tracked(
    t: HandTracker,
    chirality: LeapChirality,
    stream: Seq<Glimpse>,
    anchor: [Measure; 3],
    axis: LeapAxis,
    total: Measure,
)
    requires
        t.reference() == Some(DragReference { anchor, latched: Some((axis, total)) }),
        !laws::fires(laws::run(t, chirality, stream).1, Family::GrabEnd),
    ensures
        laws::run(t, chirality, stream).0.reference() == Some(
            DragReference {
                anchor,
                latched: Some((axis, last_total(total, laws::run(t, chirality, stream).1))),
            },
        ),
    decreases stream.len(),
{
    if stream.len() > 0 {
        let before = laws::run(t, chirality, stream.drop_last());
        let events = laws::glimpse_step(before.0, chirality, stream.last()).1;
        laws::fires_concat(before.1, events, Family::GrabEnd);
        reference_tracked(t, chirality, stream.drop_last(), anchor, axis, total);
        last_total_concat(total, before.1, events);
        glimpse_keeps_reference(
            before.0,
            chirality,
            stream.last(),
            anchor,
            axis,
            last_total(total, before.1),
        );
    }
}

/// Until a drag ends, its readings are measured from the palm's position at the drag's begin and
/// against the total reported last, zero before the first update. A reading of a closed fist that
/// differs from that total is reported, with the difference and the new total along the axis; one
/// that doesn't makes no drag event.
pub proof fn drag_updates_follow_the_palm(
    t: HandTracker,
    chirality: LeapChirality,
    begin: Glimpse,
    stream: Seq<Glimpse>,
    g: Glimpse,
)
    requires
        laws::fires(laws::glimpse_step(t, chirality, begin).1, Family::GrabBegin),
        !laws::fires(
            laws::run(laws::glimpse_step(t, chirality, begin).0, chirality, stream).1,
            Family::GrabEnd,
        ),
    ensures
        begin.hand is Some,
        ({
            let before = laws::run(laws::glimpse_step(t, chirality, begin).0, chirality, stream);
            let events = laws::glimpse_step(before.0, chirality, g).1;
            let axis = recognizer::dominant_axis(begin.hand->0.drag);
            &&& before.0.reference() == Some(
                DragReference {
                    anchor: begin.hand->0.palm_position,
                    latched: Some((axis, last_total(Measure { bits: 0 }, before.1))),
                },
            )
            &&& laws::holds_on(before.0, g) ==> if g.hand->0.drag.delta.same(
                Measure { bits: 0 },
            ) {
                drag_events(events) == 0
            } else {
                events.contains(
                    LeapGestureEvent::GrabUpdate {
                        hand: chirality,
                        axis,
                        delta_mm: g.hand->0.drag.delta,
                        total_mm: recognizer::total_along(axis, g.hand->0.drag),
                    },
                )
            }
        }),
{
    let t1 = laws::glimpse_step(t, chirality, begin).0;
    let before = laws::run(t1, chirality, stream);
    let axis = recognizer::dominant_axis(begin.hand->0.drag);
    laws::drag_begins_at_latch_point(t, chirality, begin);
    reference_tracked(
        t1,
        chirality,
        stream,
        begin.hand->0.palm_position,
        axis,
        Measure { bits: 0 },
    );
    if laws::holds_on(before.0, g) {
        held_drag_event(before.0, chirality, g, axis);
    }
}

/// What a closed fist with an open drag makes of a reading.
proof fn held_drag_event(t: HandTracker, chirality: LeapChirality, g: Glimpse, axis: LeapAxis)
    requires
        laws::holds_on(t, g),
        t.latched_axis() == Some(axis),
    ensures
        ({
            let events = laws::glimpse_step(t, chirality, g).1;
            let update = LeapGestureEvent::GrabUpdate {
                hand: chirality,
                axis,
                delta_mm: g.hand->0.drag.delta,
                total_mm: recognizer::total_along(axis, g.hand->0.drag),
            };
            if g.hand->0.drag.delta.same(Measure { bits: 0 }) {
                drag_events(events) == 0
            } else {
                events.contains(update)
            }
        }),
{
    let hand = g.hand->0;
    let loss = recognizer::loss_step(t, chirality, true, g.now_us);
    assert(loss.1 =~= Seq::<LeapGestureEvent>::empty());
    let presence = recognizer::presence_step(loss.0, chirality, true, g.now_us, g.tuning);
    let grabbing = presence.0.grabbing(hand, g.tuning);
    let sighted = HandTracker { last_seen_us: g.now_us, ..presence.0 };
    let pinch = recognizer::pinch_step(sighted, chirality, hand, grabbing, g.tuning);
    let swipe = recognizer::swipe_step(pinch.0, chirality, hand, grabbing, g.now_us, g.tuning);
    let pose = recognizer::pose_step(swipe.0, chirality, hand, grabbing, g.now_us, g.tuning);
    let grab = recognizer::grab_step(pose.0, chirality, hand, g.now_us, g.tuning);
    assert(pose.0.grab == t.grab);
    drag_events_short(loss.1);
    drag_events_short(presence.1);
    drag_events_short(pinch.1);
    drag_events_short(swipe.1);
    drag_events_short(pose.1);
    drag_events_short(grab.1);
    assert(drag_events(presence.1) == 0);
    assert(drag_events(pinch.1) == 0);
    assert(drag_events(swipe.1) == 0);
    assert(drag_events(pose.1) == 0);
    drag_events_concat(presence.1, loss.1);
    drag_events_concat(pinch.1, swipe.1);
    drag_events_concat(pinch.1 + swipe.1, pose.1);
    drag_events_concat(pinch.1 + swipe.1 + pose.1, grab.1);
    let rest = pinch.1 + swipe.1 + pose.1 + grab.1;
    drag_events_concat(presence.1 + loss.1, rest);
    let events = presence.1 + loss.1 + rest;
    assert(events == laws::glimpse_step(t, chirality, g).1);
    if grab.1.len() > 0 {
        assert(events.last() == grab.1[0]);
        assert(events.contains(events[events.len() - 1]));
    }
}

/// The glimpse leaves a grab as it is: the hand is not lost, and if it is in view, the fist stays
/// closed.
pub open spec fn keeps_fist(t: HandTracker, g: Glimpse) -> bool {
    &&& !t.lost(g.hand is Some, g.now_us)
    &&& g.hand matches Some(hand) ==> !g.tuning.grab_release.ge(hand.grab_strength)
}

/// Every glimpse of the stream leaves the grab as it is.
pub open spec fn fist_held(t: HandTracker, chirality: LeapChirality, stream: Seq<Glimpse>) -> bool
    decreases stream.len(),
{
    stream.len() > 0 ==> fist_held(t, chirality, stream.drop_last()) && keeps_fist(
        laws::run(t, chirality, stream.drop_last()).0,
        stream.last(),
    )
}

/// Where the palm is in the first glimpse that shows the hand at least the settle interval after
/// the fist closed.
pub open spec fn settled_palm(closed_us: i64, stream: Seq<Glimpse>) -> Option<[Measure; 3]>
    decreases stream.len(),
{
    if stream.len() == 0 {
        None
    } else {
        match (settled_palm(closed_us, stream.drop_last()), stream.last().hand) {
            (Some(palm), _) => Some(palm),
            (None, Some(hand)) if stream.last().now_us - closed_us
                >= stream.last().tuning.grab_settle_us => Some(hand.palm_position),
            _ => None,
        }
    }
}

/// A fist is anchored where the palm is once the settle interval is over, whatever it did before
/// and until an axis latches.
pub proof fn fist_is_anchored_where_it_settled(
    t: HandTracker,
    chirality: LeapChirality,
    closing: Glimpse,
    stream: Seq<Glimpse>,
)
    requires
        laws::kept(t, closing).grab is None,
        laws::glimpse_step(t, chirality, closing).0.grab is Some,
        fist_held(laws::glimpse_step(t, chirality, closing).0, chirality, stream),
        !laws::fires(
            laws::run(laws::glimpse_step(t, chirality, closing).0, chirality, stream).1,
            Family::GrabBegin,
        ),
    ensures
        laws::run(laws::glimpse_step(t, chirality, closing).0, chirality, stream).0.grab == Some(
            GrabState {
                triggered_us: closing.now_us,
                anchor: settled_palm(closing.now_us, stream),
                latched: None,
            },
        ),
    decreases stream.len(),
{
    broadcast use laws::group_fires;

    let t1 = laws::glimpse_step(t, chirality, closing).0;
    laws::grab_of_glimpse(t, chirality, closing, Family::GrabBegin);
    if stream.len() > 0 {
        let before = laws::run(t1, chirality, stream.drop_last());
        let g = stream.last();
        let r = laws::glimpse_step(before.0, chirality, g);
        laws::fires_concat(before.1, r.1, Family::GrabBegin);
        fist_is_anchored_where_it_settled(t, chirality, closing, stream.drop_last());
        laws::grab_of_glimpse(before.0, chirality, g, Family::GrabBegin);
    }
}

/// The axis that latches is the one with the largest weighted displacement; ties go to the
/// horizontal axis, then to depth.
pub proof fn latching_axis_wins_the_race(drag: DragReading)
    requires
        !drag.dx.nan(),
        !drag.weighted_dy.nan(),
        !drag.weighted_dz.nan(),
    ensures
        ({
            let sx = drag.dx.unsigned();
            let sy = drag.weighted_dy;
            let sz = drag.weighted_dz;
            let axis = recognizer::dominant_axis(drag);
            &&& axis is Horizontal <==> sx.ge(sy) && sx.ge(sz)
            &&& axis is Depth <==> sz.gt(sx) && sz.ge(sy)
            &&& axis is Vertical <==> sy.gt(sx) && sy.gt(sz)
        }),
{
}

/// The hand is in view and closes no fist.
pub open spec fn stays_open(g: Glimpse) -> bool {
    g.hand matches Some(hand) && !hand.grab_strength.ge(g.tuning.grab_trigger)
}

/// From glimpse `k` on, no event of the family fires.
pub open spec fn silent_since(
    chirality: LeapChirality,
    stream: Seq<Glimpse>,
    k: int,
    family: Family,
) -> bool {
    forall|i: int|
        k <= i < stream.len() ==> !laws::fires(#[trigger] events_at(chirality, stream, i), family)
}

/// From glimpse `k` on, the hand is in view and closes no fist.
pub open spec fn open_since(stream: Seq<Glimpse>, k: int) -> bool {
    forall|i: int| k <= i < stream.len() ==> stays_open(#[trigger] stream[i])
}

/// Glimpse `k` shows an open hand that releases its pinch; the hand has stayed in view without a
/// fist and without a pinch since.
pub open spec fn pinch_ready_since(
    chirality: LeapChirality,
    stream: Seq<Glimpse>,
    k: int,
) -> bool {
    &&& 0 <= k < stream.len()
    &&& laws::pinch_released(stream[k])
    &&& !stream[k].hand->0.grab_strength.ge(stream[k].tuning.grab_release)
    &&& open_since(stream, k)
    &&& silent_since(chirality, stream, k, Family::Pinch)
}

/// Glimpse `k` shows an open hand with a slow palm; the hand has stayed in view without a fist and
/// without a swipe since.
pub open spec fn swipe_ready_since(
    chirality: LeapChirality,
    stream: Seq<Glimpse>,
    k: int,
) -> bool {
    &&& 0 <= k < stream.len()
    &&& laws::palm_slow(stream[k])
    &&& !stream[k].hand->0.grab_strength.ge(stream[k].tuning.grab_release)
    &&& open_since(stream, k)
    &&& silent_since(chirality, stream, k, Family::Swipe)
}

/// What keeps pinch and swipe armed, and what arms them.
proof fn arming_of_glimpse(t: HandTracker, chirality: LeapChirality, g: Glimpse)
    requires
        t.pinch_armed || t.swipe_armed ==> t.grab is None,
    ensures
        ({
            let r = laws::glimpse_step(t, chirality, g).0;
            &&& r.pinch_armed || r.swipe_armed ==> r.grab is None && stays_open(g)
            &&& r.pinch_armed ==> t.pinch_armed || laws::pinch_released(g)
                && !g.hand->0.grab_strength.ge(g.tuning.grab_release)
            &&& r.swipe_armed ==> t.swipe_armed || laws::palm_slow(g)
                && !g.hand->0.grab_strength.ge(g.tuning.grab_release)
        }),
{
}

proof fn readiness_extends(
    chirality: LeapChirality,
    stream: Seq<Glimpse>,
    k: int,
    family: Family,
)
    requires
        stream.len() > 0,
        0 <= k < stream.len() - 1,
        open_since(stream.drop_last(), k),
        silent_since(chirality, stream.drop_last(), k, family),
        stays_open(stream.last()),
        !laws::fires(events_at(chirality, stream, stream.len() - 1), family),
    ensures
        open_since(stream, k),
        silent_since(chirality, stream, k, family),
        stream.drop_last()[k] == stream[k],
{
    let shorter = stream.drop_last();
    last_events(chirality, stream);
    assert forall|i: int| k <= i < stream.len() implies stays_open(#[trigger] stream[i]) by {
        if i < shorter.len() {
            assert(stream[i] == shorter[i]);
        }
    }
}

#[verifier::rlimit(30)]
proof fn readiness_tracked(chirality: LeapChirality, stream: Seq<Glimpse>)
    ensures
        ({
            let t = tracker_after(chirality, stream);
            &&& t.pinch_armed || t.swipe_armed ==> t.grab is None
            &&& t.pinch_armed ==> exists|k: int| pinch_ready_since(chirality, stream, k)
            &&& t.swipe_armed ==> exists|k: int| swipe_ready_since(chirality, stream, k)
        }),
    decreases stream.len(),
{
    if stream.len() > 0 {
        let shorter = stream.drop_last();
        let g = stream.last();
        let n = stream.len() - 1;
        let t = tracker_after(chirality, shorter);
        let r = tracker_after(chirality, stream);
        readiness_tracked(chirality, shorter);
        last_events(chirality, stream);
        arming_of_glimpse(t, chirality, g);
        laws::pinch_fires_from_armed_and_disarms(t, chirality, g);
        laws::swipe_fires_from_armed_and_disarms(t, chirality, g);
        assert(stream[n] == g);
        if r.pinch_armed {
            if t.pinch_armed {
                let k = choose|k: int| pinch_ready_since(chirality, shorter, k);
                readiness_extends(chirality, stream, k, Family::Pinch);
                assert(pinch_ready_since(chirality, stream, k));
            } else {
                assert(pinch_ready_since(chirality, stream, n));
            }
        }
        if r.swipe_armed {
            if t.swipe_armed {
                let k = choose|k: int| swipe_ready_since(chirality, shorter, k);
                readiness_extends(chirality, stream, k, Family::Swipe);
                assert(swipe_ready_since(chirality, stream, k));
            } else {
                assert(swipe_ready_since(chirality, stream, n));
            }
        }
    }
}

/// When the last glimpse of a stream fires a pinch, it shows a hand that pinches past the trigger
/// and is not near a fist. Before it, and after any pinch before, an open hand has released its
/// pinch, and stayed in view without closing a fist.
pub proof fn pinch_needs_open_release(chirality: LeapChirality, stream: Seq<Glimpse>)
    requires
        stream.len() > 0,
        laws::fires(events_at(chirality, stream, stream.len() - 1), Family::Pinch),
    ensures
        stream.last().hand matches Some(hand) && hand.pinch_strength.ge(
            stream.last().tuning.pinch_trigger,
        ) && !hand.grab_strength.ge(stream.last().tuning.grab_release),
        exists|k: int| pinch_ready_since(chirality, stream.drop_last(), k),
{
    let shorter = stream.drop_last();
    last_events(chirality, stream);
    readiness_tracked(chirality, shorter);
    laws::pinch_fires_from_armed_and_disarms(
        tracker_after(chirality, shorter),
        chirality,
        stream.last(),
    );
}

/// The palm moves in the direction fast enough to swipe, and faster than along the other axis.
pub open spec fn strokes(
    hand: LeapHandData,
    tuning: LeapTuning,
    direction: SwipeDirection,
) -> bool {
    let vx = hand.palm_velocity[0];
    let vy = hand.palm_velocity[1];
    let zero = Measure { bits: 0 };
    ||| {
        &&& vx.unsigned().gt(vy.unsigned())
        &&& vx.unsigned().ge(tuning.swipe_trigger_speed)
        &&& direction == if vx.gt(zero) {
            SwipeDirection::Right
        } else {
            SwipeDirection::Left
        }
    }
    ||| {
        &&& vy.unsigned().gt(vx.unsigned())
        &&& vy.unsigned().ge(tuning.swipe_vertical_speed)
        &&& direction == if vy.gt(zero) {
            SwipeDirection::Up
        } else {
            SwipeDirection::Down
        }
    }
}

/// When the last glimpse of a stream fires a swipe, its palm strokes in the swipe's direction.
/// Before it, and after any swipe before, an open hand has slowed down, and stayed in view without
/// closing a fist.
pub proof fn swipe_needs_open_slow_palm(
    chirality: LeapChirality,
    stream: Seq<Glimpse>,
    direction: SwipeDirection,
)
    requires
        stream.len() > 0,
        events_at(chirality, stream, stream.len() - 1).contains(
            LeapGestureEvent::Swipe { hand: chirality, direction },
        ),
    ensures
        stream.last().hand matches Some(hand) && strokes(hand, stream.last().tuning, direction),
        exists|k: int| swipe_ready_since(chirality, stream.drop_last(), k),
{
    let shorter = stream.drop_last();
    let t = tracker_after(chirality, shorter);
    last_events(chirality, stream);
    readiness_tracked(chirality, shorter);
    laws::swipe_is_no_return_stroke(t, chirality, stream.last(), direction);
}

/// The last swipe of a hand that was reported, and when; `None` if there was none.
pub open spec fn reported_swipe(chirality: LeapChirality, stream: Seq<Glimpse>) -> Option<
    (SwipeDirection, i64),
>
    decreases stream.len(),
{
    if stream.len() == 0 {
        None
    } else {
        let events = events_at(chirality, stream, stream.len() - 1);
        if laws::fires(events, Family::Swipe) {
            Some(
                (
                    choose|direction: SwipeDirection|
                        events.contains(
                            #[trigger] swipe_event(chirality, direction),
                        ),
                    stream.last().now_us,
                ),
            )
        } else {
            reported_swipe(chirality, stream.drop_last())
        }
    }
}

/// The event that reports a swipe.
pub open spec fn swipe_event(
    chirality: LeapChirality,
    direction: SwipeDirection,
) -> LeapGestureEvent {
    LeapGestureEvent::Swipe { hand: chirality, direction }
}

proof fn swipe_tracked(chirality: LeapChirality, stream: Seq<Glimpse>)
    ensures
        tracker_after(chirality, stream).last_swipe == reported_swipe(chirality, stream),
    decreases stream.len(),
{
    if stream.len() > 0 {
        let shorter = stream.drop_last();
        let g = stream.last();
        let t = tracker_after(chirality, shorter);
        last_events(chirality, stream);
        swipe_tracked(chirality, shorter);
        laws::swipe_fires_from_armed_and_disarms(t, chirality, g);
        if let Some(due) = laws::swipe_due(t, g) {
            let events = events_at(chirality, stream, stream.len() - 1);
            laws::swipe_is_no_return_stroke(t, chirality, g, due);
            assert(events.contains(swipe_event(chirality, due)));
            let direction = choose|direction: SwipeDirection|
                events.contains(#[trigger] swipe_event(chirality, direction));
            laws::swipe_is_no_return_stroke(t, chirality, g, direction);
        }
    }
}

/// Two swipes in a row that go in opposite directions are farther apart than the return window,
/// counted from the one that was reported: a stroke back inside the window is neither reported nor
/// remembered.
pub proof fn opposite_swipes_are_apart(
    chirality: LeapChirality,
    stream: Seq<Glimpse>,
    direction: SwipeDirection,
)
    requires
        stream.len() > 0,
        events_at(chirality, stream, stream.len() - 1).contains(
            LeapGestureEvent::Swipe { hand: chirality, direction },
        ),
    ensures
        reported_swipe(chirality, stream) == Some((direction, stream.last().now_us)),
        reported_swipe(chirality, stream.drop_last()) matches Some((last, last_us)) ==> last
            != types::spec_opposite_direction(direction) || stream.last().now_us - last_us
            > stream.last().tuning.swipe_return_window_us,
{
    let shorter = stream.drop_last();
    let t = tracker_after(chirality, shorter);
    last_events(chirality, stream);
    swipe_tracked(chirality, shorter);
    swipe_tracked(chirality, stream);
    laws::swipe_is_no_return_stroke(t, chirality, stream.last(), direction);
    laws::swipe_fires_from_armed_and_disarms(t, chirality, stream.last());
}

/// From glimpse `k` to glimpse `j`, the stream shows a steady hand with `count` extended fingers.
pub open spec fn steady_between(stream: Seq<Glimpse>, k: int, j: int, count: u8) -> bool {
    forall|i: int| k <= i <= j ==> laws::steady(#[trigger] stream[i], count)
}

/// No count of extended fingers other than `count` is held at rest for the settle interval.
pub open spec fn no_other_settles(stream: Seq<Glimpse>, count: u8) -> bool {
    forall|k: int, j: int, other: u8|
        0 <= k < j < stream.len() && other != count && #[trigger] steady_between(
            stream,
            k,
            j,
            other,
        ) ==> stream[j].now_us - stream[k].now_us < stream[j].tuning.pose_settle_us
}

/// The candidate is the settled count, or a steady hand has shown it since it became one.
spec fn candidate_shown(t: HandTracker, stream: Seq<Glimpse>, count: u8) -> bool {
    t.pose_candidate matches Some((other, since)) ==> other == count || exists|k: int|
        0 <= k < stream.len() && #[trigger] steady_between(stream, k, stream.len() - 1, other)
            && stream[k].now_us == since
}

proof fn settled_pose_tracked(
    t: HandTracker,
    chirality: LeapChirality,
    stream: Seq<Glimpse>,
    count: u8,
)
    requires
        t.pose_settled == Some(count),
        t.pose_candidate matches Some((candidate, since)) ==> candidate == count,
        no_other_settles(stream, count),
        !laws::fires(laws::run(t, chirality, stream).1, Family::Vanish),
    ensures
        !laws::fires(laws::run(t, chirality, stream).1, Family::Pose),
        laws::run(t, chirality, stream).0.pose_settled == Some(count),
        candidate_shown(laws::run(t, chirality, stream).0, stream, count),
    decreases stream.len(),
{
    if stream.len() > 0 {
        let shorter = stream.drop_last();
        let n = stream.len() - 1;
        let g = stream.last();
        let before = laws::run(t, chirality, shorter);
        let r = laws::glimpse_step(before.0, chirality, g);
        laws::fires_concat(before.1, r.1, Family::Vanish);
        laws::fires_concat(before.1, r.1, Family::Pose);
        assert forall|k: int, j: int, other: u8|
            0 <= k < j < shorter.len() && other != count && #[trigger] steady_between(
                shorter,
                k,
                j,
                other,
            ) implies shorter[j].now_us - shorter[k].now_us < shorter[j].tuning.pose_settle_us by {
            assert forall|i: int| k <= i <= j implies laws::steady(#[trigger] stream[i], other) by {
                assert(stream[i] == shorter[i]);
            }
            assert(steady_between(stream, k, j, other));
            assert(stream[j] == shorter[j] && stream[k] == shorter[k]);
        }
        settled_pose_tracked(t, chirality, shorter, count);
        laws::pose_of_glimpse(before.0, chirality, g);
        laws::presence_events_alternate(before.0, chirality, g);
        laws::presence_of_glimpse(before.0, chirality, g);
        assert(stream[n] == g);
        if let Some(hand) = g.hand {
            laws::count_set_bounded(hand.fingers_extended@);
            let shown = hand.extended() as u8;
            let grabbing = laws::kept(before.0, g).grabbing(hand, g.tuning);
            if !recognizer::restless(hand, grabbing, g.tuning) && shown != count {
                assert(laws::steady(g, shown));
                match before.0.pose_candidate {
                    Some((candidate, since)) if candidate == shown => {
                        let k = choose|k: int|
                            0 <= k < shorter.len() && #[trigger] steady_between(
                                shorter,
                                k,
                                shorter.len() - 1,
                                shown,
                            ) && shorter[k].now_us == since;
                        assert forall|i: int| k <= i <= n implies laws::steady(
                            #[trigger] stream[i],
                            shown,
                        ) by {
                            if i < n {
                                assert(stream[i] == shorter[i]);
                            }
                        }
                        assert(steady_between(stream, k, n, shown));
                        assert(stream[k] == shorter[k]);
                    },
                    _ => {
                        assert(steady_between(stream, n, n, shown));
                    },
                }
            }
        }
        pose_stays_silent(before.0, chirality, g, count);
    }
}

/// A settled count does not fire again, through movement, tracking flicker and passing through
/// other counts, until some other count settles or the hand is reported gone.
pub proof fn pose_repeats_only_after_another(
    t: HandTracker,
    chirality: LeapChirality,
    stream: Seq<Glimpse>,
    count: u8,
)
    requires
        t.pose_settled == Some(count),
        t.pose_candidate matches Some((candidate, since)) ==> candidate == count,
        no_other_settles(stream, count),
        !laws::fires(laws::run(t, chirality, stream).1, Family::Vanish),
    ensures
        !laws::fires(laws::run(t, chirality, stream).1, Family::Pose),
        laws::run(t, chirality, stream).0.pose_settled == Some(count),
{
    settled_pose_tracked(t, chirality, stream, count);
}

/// No pose fires on a glimpse that settles no count other than the settled one.
proof fn pose_stays_silent(t: HandTracker, chirality: LeapChirality, g: Glimpse, count: u8)
    requires
        t.pose_settled == Some(count),
        laws::glimpse_step(t, chirality, g).0.pose_settled == Some(count),
    ensures
        !laws::fires(laws::glimpse_step(t, chirality, g).1, Family::Pose),
{
    broadcast use laws::group_fires;

    laws::pose_of_glimpse(t, chirality, g);
}

} // verus!
