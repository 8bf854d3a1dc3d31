//! What the recognizer promises over whole streams of frames.

use crate::leap_gesture::recognizer;
use crate::leap_gesture::recognizer::{HandTracker, LeapGestureState, Outcome};
use crate::leap_gesture::types;
use crate::leap_gesture::types::{
    LeapAxis, LeapChirality, LeapFrame, LeapGestureEvent, LeapHandData, LeapPresenceEvent,
    LeapTuning, SwipeDirection,
};
use crate::measure::Measure;
use vstd::prelude::*;

verus! {

/// One frame as one hand sees it: the hand's entry, the clock, and the thresholds in force.
pub struct Glimpse {
    pub hand: Option<LeapHandData>,
    pub now_us: i64,
    pub tuning: LeapTuning,
}

/// One glimpse's effect on a tracker.
pub open spec fn glimpse_step(t: HandTracker, chirality: LeapChirality, g: Glimpse) -> Outcome {
    recognizer::hand_step(t, chirality, g.hand, g.now_us, g.tuning)
}

/// The tracker after a stream of glimpses, and all events on the way.
pub open spec fn run(t: HandTracker, chirality: LeapChirality, stream: Seq<Glimpse>) -> Outcome
    decreases stream.len(),
{
    if stream.len() == 0 {
        (t, seq![])
    } else {
        let before = run(t, chirality, stream.drop_last());
        let last = glimpse_step(before.0, chirality, stream.last());
        (last.0, before.1 + last.1)
    }
}

/// The tracker without a grab that the glimpse shows to be lost.
pub open spec fn kept(t: HandTracker, g: Glimpse) -> HandTracker {
    if t.lost(g.hand is Some, g.now_us) {
        HandTracker { grab: None, ..t }
    } else {
        t
    }
}

/// The families of events.
pub enum Family {
    Pinch,
    Swipe,
    Pose,
    GrabBegin,
    GrabUpdate,
    GrabEnd,
    Appear,
    Vanish,
}

pub open spec fn in_family(event: LeapGestureEvent, family: Family) -> bool {
    match event {
        LeapGestureEvent::Pinch { hand } => family is Pinch,
        LeapGestureEvent::Swipe { hand, direction } => family is Swipe,
        LeapGestureEvent::Pose { hand, fingers } => family is Pose,
        LeapGestureEvent::GrabBegin { hand, axis } => family is GrabBegin,
        LeapGestureEvent::GrabUpdate { hand, axis, delta_mm, total_mm } => family is GrabUpdate,
        LeapGestureEvent::GrabEnd { hand, axis } => family is GrabEnd,
        LeapGestureEvent::Presence { hand, event } => match event {
            LeapPresenceEvent::Appear => family is Appear,
            LeapPresenceEvent::Vanish => family is Vanish,
        },
    }
}

/// Some event of the family is among the events.
pub open spec fn fires(events: Seq<LeapGestureEvent>, family: Family) -> bool {
    exists|i: int| 0 <= i < events.len() && #[trigger] in_family(events[i], family)
}

pub broadcast proof fn fires_concat(
    a: Seq<LeapGestureEvent>,
    b: Seq<LeapGestureEvent>,
    family: Family,
)
    ensures
        #[trigger] fires(a + b, family) == (fires(a, family) || fires(b, family)),
{
    if fires(a, family) {
        let i = choose|i: int| 0 <= i < a.len() && #[trigger] in_family(a[i], family);
        assert(in_family((a + b)[i], family));
    }
    if fires(b, family) {
        let i = choose|i: int| 0 <= i < b.len() && #[trigger] in_family(b[i], family);
        assert(in_family((a + b)[a.len() + i], family));
    }
    if fires(a + b, family) {
        let i = choose|i: int| 0 <= i < (a + b).len() && #[trigger] in_family((a + b)[i], family);
        if i < a.len() {
            assert(in_family(a[i], family));
        } else {
            assert(in_family(b[i - a.len()], family));
        }
    }
}

pub broadcast proof fn fires_empty(family: Family)
    ensures
        !(#[trigger] fires(Seq::<LeapGestureEvent>::empty(), family)),
{
}

pub broadcast proof fn fires_one(event: LeapGestureEvent, family: Family)
    ensures
        #[trigger] fires(seq![event], family) == in_family(event, family),
{
    if in_family(event, family) {
        assert(in_family(seq![event][0], family));
    }
}

pub broadcast proof fn contains_concat(
    a: Seq<LeapGestureEvent>,
    b: Seq<LeapGestureEvent>,
    event: LeapGestureEvent,
)
    ensures
        #[trigger] (a + b).contains(event) == (a.contains(event) || b.contains(event)),
{
    if a.contains(event) {
        let i = choose|i: int| 0 <= i < a.len() && a[i] == event;
        assert((a + b)[i] == event);
    }
    if b.contains(event) {
        let i = choose|i: int| 0 <= i < b.len() && b[i] == event;
        assert((a + b)[a.len() + i] == event);
    }
    if (a + b).contains(event) {
        let i = choose|i: int| 0 <= i < (a + b).len() && (a + b)[i] == event;
        if i < a.len() {
            assert(a[i] == event);
        } else {
            assert(b[i - a.len()] == event);
        }
    }
}

pub broadcast proof fn contains_empty(event: LeapGestureEvent)
    ensures
        !(#[trigger] Seq::<LeapGestureEvent>::empty().contains(event)),
{
}

pub broadcast proof fn contains_one(only: LeapGestureEvent, event: LeapGestureEvent)
    ensures
        #[trigger] seq![only].contains(event) == (only == event),
{
    if only == event {
        assert(seq![only][0] == event);
    }
}

pub broadcast group group_contains {
    contains_concat,
    contains_empty,
    contains_one,
}

pub broadcast group group_fires {
    fires_concat,
    fires_empty,
    fires_one,
}

/// A pinch fires only from an armed hand that is not in a fist and pinches past the trigger, and
/// it disarms the hand.
#[verifier::rlimit(30)]
pub proof fn pinch_fires_from_armed_and_disarms(
    t: HandTracker,
    chirality: LeapChirality,
    g: Glimpse,
)
    ensures
        fires(glimpse_step(t, chirality, g).1, Family::Pinch) <==> (g.hand matches Some(hand)
            && t.pinch_armed && !kept(t, g).grabbing(hand, g.tuning) && hand.pinch_strength.ge(
            g.tuning.pinch_trigger,
        )),
        fires(glimpse_step(t, chirality, g).1, Family::Pinch) ==> !glimpse_step(
            t,
            chirality,
            g,
        ).0.pinch_armed,
{
    broadcast use group_fires;

}

/// The hand is in view with its pinch strength below the release threshold.
pub open spec fn pinch_released(g: Glimpse) -> bool {
    g.hand matches Some(hand) && g.tuning.pinch_release.gt(hand.pinch_strength)
}

/// After a pinch, no pinch fires before some frame shows the strength below the release threshold.
pub proof fn pinch_needs_release(
    t: HandTracker,
    chirality: LeapChirality,
    g: Glimpse,
    stream: Seq<Glimpse>,
)
    requires
        fires(glimpse_step(t, chirality, g).1, Family::Pinch),
        forall|i: int| 0 <= i < stream.len() ==> !pinch_released(#[trigger] stream[i]),
    ensures
        !fires(run(glimpse_step(t, chirality, g).0, chirality, stream).1, Family::Pinch),
{
    pinch_fires_from_armed_and_disarms(t, chirality, g);
    disarmed_pinch_stays_silent(glimpse_step(t, chirality, g).0, chirality, stream);
}

/// A hand that has not been seen unpinched since it entered the view, or since its last pinch,
/// fires no pinch.
pub proof fn disarmed_pinch_stays_silent(
    t: HandTracker,
    chirality: LeapChirality,
    stream: Seq<Glimpse>,
)
    requires
        !t.pinch_armed,
        forall|i: int| 0 <= i < stream.len() ==> !pinch_released(#[trigger] stream[i]),
    ensures
        !fires(run(t, chirality, stream).1, Family::Pinch),
        !run(t, chirality, stream).0.pinch_armed,
    decreases stream.len(),
{
    broadcast use group_fires;

    if stream.len() > 0 {
        let before = run(t, chirality, stream.drop_last());
        disarmed_pinch_stays_silent(t, chirality, stream.drop_last());
        pinch_fires_from_armed_and_disarms(before.0, chirality, stream.last());
        assert(!pinch_released(stream[stream.len() - 1]));
    }
}

/// A pinch that is released by an open hand can fire again.
pub proof fn released_pinch_rearms(t: HandTracker, chirality: LeapChirality, g: Glimpse)
    requires
        !t.pinch_armed,
        pinch_released(g),
        !kept(t, g).grabbing(g.hand->0, g.tuning),
        !g.hand->0.grab_strength.ge(g.tuning.grab_trigger),
    ensures
        glimpse_step(t, chirality, g).0.pinch_armed,
{
}

/// The hand is in view with its palm below the re-arm speed.
pub open spec fn palm_slow(g: Glimpse) -> bool {
    g.hand matches Some(hand) && g.tuning.swipe_rearm_speed.gt(hand.planar_speed)
}

/// A swipe can fire again once the palm of an open hand is slow.
pub proof fn slow_palm_rearms_swipe(t: HandTracker, chirality: LeapChirality, g: Glimpse)
    requires
        !t.swipe_armed,
        palm_slow(g),
        !kept(t, g).grabbing(g.hand->0, g.tuning),
        !g.hand->0.grab_strength.ge(g.tuning.grab_trigger),
    ensures
        glimpse_step(t, chirality, g).0.swipe_armed,
{
}

/// The direction in which an armed, open hand strokes, unless it only winds back.
pub open spec fn swipe_due(t: HandTracker, g: Glimpse) -> Option<SwipeDirection> {
    match g.hand {
        Some(hand) if t.swipe_armed && !kept(t, g).grabbing(
            hand,
            g.tuning,
        ) => match recognizer::stroke(hand, g.tuning) {
            Some(direction) if !recognizer::return_stroke(
                t,
                direction,
                g.now_us,
                g.tuning,
            ) => Some(direction),
            _ => None,
        },
        _ => None,
    }
}

/// A swipe fires only from an armed hand that is not in a fist, when its stroke is no return
/// stroke, and it disarms the hand. Its direction and time are remembered; nothing else changes
/// what is remembered.
pub proof fn swipe_fires_from_armed_and_disarms(
    t: HandTracker,
    chirality: LeapChirality,
    g: Glimpse,
)
    ensures
        fires(glimpse_step(t, chirality, g).1, Family::Swipe) <==> swipe_due(t, g) is Some,
        match swipe_due(t, g) {
            Some(direction) => {
                &&& !glimpse_step(t, chirality, g).0.swipe_armed
                &&& glimpse_step(t, chirality, g).0.last_swipe == Some((direction, g.now_us))
            },
            None => glimpse_step(t, chirality, g).0.last_swipe == t.last_swipe,
        },
{
    broadcast use group_fires;

}

/// A fired swipe reports the direction of its stroke, and never the direction opposite to the
/// last fired swipe within the return window.
pub proof fn swipe_is_no_return_stroke(
    t: HandTracker,
    chirality: LeapChirality,
    g: Glimpse,
    direction: SwipeDirection,
)
    ensures
        glimpse_step(t, chirality, g).1.contains(
            LeapGestureEvent::Swipe { hand: chirality, direction },
        ) <==> swipe_due(t, g) == Some(direction),
        glimpse_step(t, chirality, g).1.contains(
            LeapGestureEvent::Swipe { hand: chirality, direction },
        ) ==> (t.last_swipe matches Some((last, last_us)) ==> last
            != types::spec_opposite_direction(direction) || g.now_us - last_us
            > g.tuning.swipe_return_window_us),
{
    broadcast use group_contains;

}

/// After a swipe, no swipe fires before some frame shows the palm below the re-arm speed.
pub proof fn swipe_needs_slow_palm(
    t: HandTracker,
    chirality: LeapChirality,
    g: Glimpse,
    stream: Seq<Glimpse>,
)
    requires
        fires(glimpse_step(t, chirality, g).1, Family::Swipe),
        forall|i: int| 0 <= i < stream.len() ==> !palm_slow(#[trigger] stream[i]),
    ensures
        !fires(run(glimpse_step(t, chirality, g).0, chirality, stream).1, Family::Swipe),
{
    swipe_fires_from_armed_and_disarms(t, chirality, g);
    disarmed_swipe_stays_silent(glimpse_step(t, chirality, g).0, chirality, stream);
}

/// A hand whose palm has not been slow since it entered the view, or since its last stroke, fires
/// no swipe.
pub proof fn disarmed_swipe_stays_silent(
    t: HandTracker,
    chirality: LeapChirality,
    stream: Seq<Glimpse>,
)
    requires
        !t.swipe_armed,
        forall|i: int| 0 <= i < stream.len() ==> !palm_slow(#[trigger] stream[i]),
    ensures
        !fires(run(t, chirality, stream).1, Family::Swipe),
        !run(t, chirality, stream).0.swipe_armed,
    decreases stream.len(),
{
    broadcast use group_fires;

    if stream.len() > 0 {
        let before = run(t, chirality, stream.drop_last());
        disarmed_swipe_stays_silent(t, chirality, stream.drop_last());
        swipe_fires_from_armed_and_disarms(before.0, chirality, stream.last());
        assert(!palm_slow(stream[stream.len() - 1]));
    }
}

/// A hand that was out of view comes back with pinch and swipe disarmed: the first frame that
/// shows it again fires neither.
pub proof fn entering_hand_fires_no_pinch_or_swipe(
    t: HandTracker,
    chirality: LeapChirality,
    absent: Glimpse,
    g: Glimpse,
)
    requires
        absent.hand is None,
    ensures
        !fires(glimpse_step(glimpse_step(t, chirality, absent).0, chirality, g).1, Family::Pinch),
        !fires(glimpse_step(glimpse_step(t, chirality, absent).0, chirality, g).1, Family::Swipe),
{
    let t1 = glimpse_step(t, chirality, absent).0;
    pinch_fires_from_armed_and_disarms(t1, chirality, g);
    swipe_fires_from_armed_and_disarms(t1, chirality, g);
}

/// A hand in or near a fist fires no pinch, no swipe and no pose.
pub proof fn fist_fires_no_pinch_swipe_or_pose(
    t: HandTracker,
    chirality: LeapChirality,
    g: Glimpse,
)
    requires
        g.hand matches Some(hand) && kept(t, g).grabbing(hand, g.tuning),
    ensures
        !fires(glimpse_step(t, chirality, g).1, Family::Pinch),
        !fires(glimpse_step(t, chirality, g).1, Family::Swipe),
        !fires(glimpse_step(t, chirality, g).1, Family::Pose),
{
    broadcast use group_fires;

}

/// Which drag is open after the events, if `open` was before them; `None` if they do not nest: a
/// begin inside a drag, or an update or end that is not of the open drag's axis.
pub open spec fn drag_after(open: Option<LeapAxis>, events: Seq<LeapGestureEvent>) -> Option<
    Option<LeapAxis>,
>
    decreases events.len(),
{
    if events.len() == 0 {
        Some(open)
    } else {
        match drag_after(open, events.drop_last()) {
            None => None,
            Some(before) => match events.last() {
                LeapGestureEvent::GrabBegin { hand, axis } => if before is None {
                    Some(Some(axis))
                } else {
                    None
                },
                LeapGestureEvent::GrabUpdate { hand, axis, delta_mm, total_mm } => if before
                    == Some(axis) {
                    Some(before)
                } else {
                    None
                },
                LeapGestureEvent::GrabEnd { hand, axis } => if before == Some(axis) {
                    Some(None)
                } else {
                    None
                },
                _ => Some(before),
            },
        }
    }
}

pub(crate) proof fn drag_after_concat(
    open: Option<LeapAxis>,
    a: Seq<LeapGestureEvent>,
    b: Seq<LeapGestureEvent>,
)
    ensures
        drag_after(open, a + b) == match drag_after(open, a) {
            None => None,
            Some(mid) => drag_after(mid, b),
        },
    decreases b.len(),
{
    if b.len() == 0 {
        assert(a + b =~= a);
    } else {
        drag_after_concat(open, a, b.drop_last());
        assert((a + b).drop_last() =~= a + b.drop_last());
    }
}

proof fn drag_after_one(open: Option<LeapAxis>, event: LeapGestureEvent)
    ensures
        seq![event].drop_last() =~= Seq::<LeapGestureEvent>::empty(),
        seq![event].last() == event,
        drag_after(open, seq![event].drop_last()) == Some(open),
{
}

proof fn silent_keeps_drag(open: Option<LeapAxis>, events: Seq<LeapGestureEvent>)
    requires
        events.len() <= 1,
        forall|i: int| 0 <= i < events.len() ==> !is_drag_event(#[trigger] events[i]),
    ensures
        drag_after(open, events) == Some(open),
{
    if events.len() > 0 {
        drag_after_one(open, events[0]);
        assert(events =~= seq![events[0]]);
    }
}

/// The event is about a drag.
pub open spec fn is_drag_event(event: LeapGestureEvent) -> bool {
    event is GrabBegin || event is GrabUpdate || event is GrabEnd
}

/// A lost grab closes the drag it had begun.
proof fn loss_keeps_drag_nesting(t: HandTracker, chirality: LeapChirality, g: Glimpse)
    ensures
        ({
            let loss = recognizer::loss_step(t, chirality, g.hand is Some, g.now_us);
            drag_after(t.latched_axis(), loss.1) == Some(loss.0.latched_axis())
        }),
{
    let loss = recognizer::loss_step(t, chirality, g.hand is Some, g.now_us);
    if loss.1.len() > 0 {
        drag_after_one(t.latched_axis(), loss.1[0]);
    }
}

/// A frame with the hand keeps the drag events nested.
proof fn sighting_keeps_drag_nesting(
    t: HandTracker,
    chirality: LeapChirality,
    hand: LeapHandData,
    now_us: i64,
    tuning: LeapTuning,
)
    ensures
        drag_after(
            t.latched_axis(),
            recognizer::sighting_step(t, chirality, hand, now_us, tuning).1,
        ) == Some(
            recognizer::sighting_step(t, chirality, hand, now_us, tuning).0.latched_axis(),
        ),
{
    let open = t.latched_axis();
    let grabbing = t.grabbing(hand, tuning);
    let sighted = HandTracker { last_seen_us: now_us, ..t };
    let pinch = recognizer::pinch_step(sighted, chirality, hand, grabbing, tuning);
    let swipe = recognizer::swipe_step(pinch.0, chirality, hand, grabbing, now_us, tuning);
    let pose = recognizer::pose_step(swipe.0, chirality, hand, grabbing, now_us, tuning);
    let grab = recognizer::grab_step(pose.0, chirality, hand, now_us, tuning);
    silent_keeps_drag(open, pinch.1);
    silent_keeps_drag(open, swipe.1);
    silent_keeps_drag(open, pose.1);
    if grab.1.len() > 0 {
        drag_after_one(open, grab.1[0]);
    }
    assert(drag_after(open, grab.1) == Some(grab.0.latched_axis()));
    drag_after_concat(open, pinch.1, swipe.1);
    drag_after_concat(open, pinch.1 + swipe.1, pose.1);
    drag_after_concat(open, pinch.1 + swipe.1 + pose.1, grab.1);
}

/// One frame keeps the drag events nested, and the tracker knows which drag is open.
proof fn glimpse_keeps_drag_nesting(t: HandTracker, chirality: LeapChirality, g: Glimpse)
    ensures
        drag_after(t.latched_axis(), glimpse_step(t, chirality, g).1) == Some(
            glimpse_step(t, chirality, g).0.latched_axis(),
        ),
{
    let open = t.latched_axis();
    let loss = recognizer::loss_step(t, chirality, g.hand is Some, g.now_us);
    let p = recognizer::presence_step(loss.0, chirality, g.hand is Some, g.now_us, g.tuning);
    silent_keeps_drag(open, p.1);
    loss_keeps_drag_nesting(t, chirality, g);
    drag_after_concat(open, p.1, loss.1);
    match g.hand {
        Some(hand) => {
            let rest = recognizer::sighting_step(p.0, chirality, hand, g.now_us, g.tuning);
            sighting_keeps_drag_nesting(p.0, chirality, hand, g.now_us, g.tuning);
            drag_after_concat(open, p.1 + loss.1, rest.1);
        },
        None => {
            drag_after_concat(open, p.1 + loss.1, seq![]);
        },
    }
}

/// The drag events of a hand nest: every `GrabUpdate` and `GrabEnd` belongs to the `GrabBegin`
/// before it, on the same axis, and no drag begins inside another. A drag is open exactly while
/// the tracker has an axis latched.
pub proof fn drag_events_nest(t: HandTracker, chirality: LeapChirality, stream: Seq<Glimpse>)
    ensures
        drag_after(t.latched_axis(), run(t, chirality, stream).1) == Some(
            run(t, chirality, stream).0.latched_axis(),
        ),
    decreases stream.len(),
{
    if stream.len() > 0 {
        let before = run(t, chirality, stream.drop_last());
        drag_events_nest(t, chirality, stream.drop_last());
        glimpse_keeps_drag_nesting(before.0, chirality, stream.last());
        drag_after_concat(
            t.latched_axis(),
            before.1,
            glimpse_step(before.0, chirality, stream.last()).1,
        );
    }
}

/// Presence events alternate: a hand that is reported present can only vanish, one that is
/// reported gone can only appear, and the debounced state says which was last.
pub proof fn presence_events_alternate(t: HandTracker, chirality: LeapChirality, g: Glimpse)
    ensures
        fires(glimpse_step(t, chirality, g).1, Family::Appear) <==> !t.visible && glimpse_step(
            t,
            chirality,
            g,
        ).0.visible,
        fires(glimpse_step(t, chirality, g).1, Family::Vanish) <==> t.visible && !glimpse_step(
            t,
            chirality,
            g,
        ).0.visible,
{
    broadcast use group_fires;

}

/// From position `k` on, every glimpse of the stream has the same raw presence.
pub open spec fn presence_held(stream: Seq<Glimpse>, k: int, raw: bool) -> bool {
    forall|i: int| k <= i < stream.len() ==> (#[trigger] stream[i].hand is Some) == raw
}

/// Raw presence is tracked faithfully: the hand was never in view, or the tracker remembers when
/// the present state began.
proof fn raw_presence_tracked(chirality: LeapChirality, stream: Seq<Glimpse>)
    ensures
        ({
            let t = run(HandTracker::initial(), chirality, stream).0;
            ||| presence_held(stream, 0, false) && !t.raw_visible && !t.visible
                && t.raw_since_us == 0
            ||| exists|k: int|
                0 <= k < stream.len() && #[trigger] presence_held(stream, k, t.raw_visible)
                    && stream[k].now_us == t.raw_since_us
        }),
    decreases stream.len(),
{
    if stream.len() > 0 {
        let shorter = stream.drop_last();
        let n = stream.len() - 1;
        let before = run(HandTracker::initial(), chirality, shorter).0;
        let t = run(HandTracker::initial(), chirality, stream).0;
        let g = stream.last();
        raw_presence_tracked(chirality, shorter);
        assert(t.raw_visible == (g.hand is Some));
        if (g.hand is Some) != before.raw_visible {
            assert(presence_held(stream, n, t.raw_visible));
            assert(stream[n].now_us == t.raw_since_us);
        } else if presence_held(shorter, 0, false) && !before.raw_visible {
            assert forall|i: int| 0 <= i < stream.len() implies (#[trigger] stream[i].hand is Some)
                == false by {
                if i < n {
                    assert(stream[i] == shorter[i]);
                }
            }
            assert(presence_held(stream, 0, false));
            if before.visible {
                let k = choose|k: int|
                    0 <= k < shorter.len() && #[trigger] presence_held(
                        shorter,
                        k,
                        before.raw_visible,
                    ) && shorter[k].now_us == before.raw_since_us;
                assert(presence_held(stream, k, t.raw_visible));
                assert(stream[k] == shorter[k]);
            } else if before.raw_since_us != 0 {
                let k = choose|k: int|
                    0 <= k < shorter.len() && #[trigger] presence_held(
                        shorter,
                        k,
                        before.raw_visible,
                    ) && shorter[k].now_us == before.raw_since_us;
                assert(presence_held(stream, k, t.raw_visible));
                assert(stream[k] == shorter[k]);
            }
        } else {
            let k = choose|k: int|
                0 <= k < shorter.len() && #[trigger] presence_held(shorter, k, before.raw_visible)
                    && shorter[k].now_us == before.raw_since_us;
            assert forall|i: int| k <= i < stream.len() implies (#[trigger] stream[i].hand is Some)
                == t.raw_visible by {
                if i < n {
                    assert(stream[i] == shorter[i]);
                }
            }
            assert(presence_held(stream, k, t.raw_visible));
            assert(stream[k] == shorter[k]);
        }
    }
}

/// Presence is debounced: when the last glimpse of a stream makes a hand appear (vanish), the
/// hand has been in view (out of view) in every frame since one that lies at least the debounce
/// interval back.
pub proof fn presence_is_debounced(chirality: LeapChirality, stream: Seq<Glimpse>, family: Family)
    requires
        stream.len() > 0,
        family is Appear || family is Vanish,
        fires(
            glimpse_step(
                run(HandTracker::initial(), chirality, stream.drop_last()).0,
                chirality,
                stream.last(),
            ).1,
            family,
        ),
    ensures
        exists|k: int|
            0 <= k < stream.len() && #[trigger] presence_held(stream, k, family is Appear)
                && stream.last().now_us - stream[k].now_us
                >= stream.last().tuning.presence_debounce_us,
{
    let before = run(HandTracker::initial(), chirality, stream.drop_last()).0;
    let t = run(HandTracker::initial(), chirality, stream).0;
    let g = stream.last();
    let p = recognizer::presence_step(before, chirality, g.hand is Some, g.now_us, g.tuning);
    presence_events_alternate(before, chirality, g);
    assert(t.visible == p.0.visible && t.raw_visible == p.0.raw_visible && t.raw_since_us
        == p.0.raw_since_us);
    assert(before.visible != p.0.visible);
    assert(t.raw_visible == (family is Appear));
    assert(g.now_us - t.raw_since_us >= g.tuning.presence_debounce_us);
    raw_presence_tracked(chirality, stream);
    raw_presence_tracked(chirality, stream.drop_last());
    if presence_held(stream, 0, false) && !t.raw_visible && !t.visible && t.raw_since_us == 0 {
        assert(family is Vanish);
        let shorter = stream.drop_last();
        let k = choose|k: int|
            0 <= k < shorter.len() && #[trigger] presence_held(shorter, k, before.raw_visible)
                && shorter[k].now_us == before.raw_since_us;
        assert(shorter[k] == stream[k]);
        assert(shorter[shorter.len() - 1] == stream[shorter.len() - 1]);
        assert(!before.raw_visible);
        assert(presence_held(stream, k, false));
    } else {
        let k = choose|k: int|
            0 <= k < stream.len() && #[trigger] presence_held(stream, k, t.raw_visible)
                && stream[k].now_us == t.raw_since_us;
        assert(presence_held(stream, k, family is Appear));
    }
}

/// What one glimpse does to the pose fields.
#[verifier::rlimit(30)]
pub(crate) proof fn pose_of_glimpse(t: HandTracker, chirality: LeapChirality, g: Glimpse)
    ensures
        ({
            let r = glimpse_step(t, chirality, g);
            let p = recognizer::presence_step(
                kept(t, g),
                chirality,
                g.hand is Some,
                g.now_us,
                g.tuning,
            );
            match g.hand {
                Some(hand) => {
                    let posed = recognizer::pose_step(
                        p.0,
                        chirality,
                        hand,
                        kept(t, g).grabbing(hand, g.tuning),
                        g.now_us,
                        g.tuning,
                    );
                    &&& r.0.pose_candidate == posed.0.pose_candidate
                    &&& r.0.pose_settled == posed.0.pose_settled
                    &&& forall|fingers: u8|
                        r.1.contains(LeapGestureEvent::Pose { hand: chirality, fingers })
                            == #[trigger] posed.1.contains(
                            LeapGestureEvent::Pose { hand: chirality, fingers },
                        )
                    &&& fires(r.1, Family::Pose) == fires(posed.1, Family::Pose)
                },
                None => {
                    &&& r.0.pose_candidate is None
                    &&& r.0.pose_settled == p.0.pose_settled
                    &&& !fires(r.1, Family::Pose)
                },
            }
        }),
{
    broadcast use group_fires;

    let loss = recognizer::loss_step(t, chirality, g.hand is Some, g.now_us);
    let p = recognizer::presence_step(
        kept(t, g),
        chirality,
        g.hand is Some,
        g.now_us,
        g.tuning,
    );
    assert(loss.0 == kept(t, g));
    assert(!fires(loss.1, Family::Pose));
    assert(!fires(p.1, Family::Pose));
    if let Some(hand) = g.hand {
        let grabbing = p.0.grabbing(hand, g.tuning);
        let sighted = HandTracker { last_seen_us: g.now_us, ..p.0 };
        let pinch = recognizer::pinch_step(sighted, chirality, hand, grabbing, g.tuning);
        let swipe = recognizer::swipe_step(pinch.0, chirality, hand, grabbing, g.now_us, g.tuning);
        let pose = recognizer::pose_step(swipe.0, chirality, hand, grabbing, g.now_us, g.tuning);
        let grab = recognizer::grab_step(pose.0, chirality, hand, g.now_us, g.tuning);
        assert(!fires(pinch.1, Family::Pose));
        assert(!fires(swipe.1, Family::Pose));
        assert(!fires(grab.1, Family::Pose));
        let posed = recognizer::pose_step(p.0, chirality, hand, grabbing, g.now_us, g.tuning);
        assert(posed.1 == pose.1);
        let before = p.1 + loss.1;
        let rest = pinch.1 + swipe.1 + pose.1 + grab.1;
        assert forall|fingers: u8|
            (before + rest).contains(LeapGestureEvent::Pose { hand: chirality, fingers })
                == #[trigger] posed.1.contains(
                LeapGestureEvent::Pose { hand: chirality, fingers },
            ) by {
            let event = LeapGestureEvent::Pose { hand: chirality, fingers };
            pose_not_in(p.1, event);
            pose_not_in(loss.1, event);
            pose_not_in(pinch.1, event);
            pose_not_in(swipe.1, event);
            pose_not_in(grab.1, event);
            contains_concat(before, rest, event);
            contains_concat(p.1, loss.1, event);
            contains_concat(pinch.1 + swipe.1 + pose.1, grab.1, event);
            contains_concat(pinch.1 + swipe.1, pose.1, event);
            contains_concat(pinch.1, swipe.1, event);
        }
    }
}

proof fn pose_not_in(events: Seq<LeapGestureEvent>, event: LeapGestureEvent)
    requires
        event is Pose,
        !fires(events, Family::Pose),
    ensures
        !events.contains(event),
{
    if events.contains(event) {
        let i = choose|i: int| 0 <= i < events.len() && events[i] == event;
        assert(in_family(events[i], Family::Pose));
    }
}

pub(crate) proof fn count_set_bounded(flags: Seq<bool>)
    ensures
        types::count_set(flags) <= flags.len(),
    decreases flags.len(),
{
    if flags.len() > 0 {
        count_set_bounded(flags.drop_last());
    }
}

/// A pose event reports the number of extended fingers, between 1 and 5, and that number is then
/// settled.
pub proof fn pose_reports_extended_fingers(
    t: HandTracker,
    chirality: LeapChirality,
    g: Glimpse,
    fingers: u8,
)
    requires
        glimpse_step(t, chirality, g).1.contains(
            LeapGestureEvent::Pose { hand: chirality, fingers },
        ),
    ensures
        g.hand matches Some(hand) && hand.extended() == fingers,
        1 <= fingers <= 5,
        t.pose_settled != Some(fingers),
        glimpse_step(t, chirality, g).0.pose_settled == Some(fingers),
{
    broadcast use {group_fires, group_contains};

    pose_of_glimpse(t, chirality, g);
    if let Some(hand) = g.hand {
        count_set_bounded(hand.fingers_extended@);
    } else {
        let e = LeapGestureEvent::Pose { hand: chirality, fingers };
        let r = glimpse_step(t, chirality, g);
        let i = choose|i: int| 0 <= i < r.1.len() && r.1[i] == e;
        assert(in_family(r.1[i], Family::Pose));
    }
}

/// Whenever the stream shows the hand, it shows `count` extended fingers.
pub open spec fn count_held(stream: Seq<Glimpse>, count: u8) -> bool {
    forall|i: int|
        0 <= i < stream.len() ==> (#[trigger] stream[i].hand matches Some(hand) ==> hand.extended()
            == count)
}

/// A settled count does not fire again while it is held, through movement and through tracking
/// flicker, until the hand is reported gone.
pub proof fn pose_fires_once_per_settled_count(
    t: HandTracker,
    chirality: LeapChirality,
    stream: Seq<Glimpse>,
    count: u8,
)
    requires
        t.pose_settled == Some(count),
        count_held(stream, count),
        !fires(run(t, chirality, stream).1, Family::Vanish),
    ensures
        !fires(run(t, chirality, stream).1, Family::Pose),
        run(t, chirality, stream).0.pose_settled == Some(count),
    decreases stream.len(),
{
    if stream.len() > 0 {
        let shorter = stream.drop_last();
        let before = run(t, chirality, shorter);
        let g = stream.last();
        let r = glimpse_step(before.0, chirality, g);
        fires_concat(before.1, r.1, Family::Vanish);
        fires_concat(before.1, r.1, Family::Pose);
        assert forall|i: int| 0 <= i < shorter.len() implies (
        #[trigger] shorter[i].hand matches Some(hand) ==> hand.extended() == count) by {
            assert(shorter[i] == stream[i]);
        }
        pose_fires_once_per_settled_count(t, chirality, shorter, count);
        assert(g == stream[stream.len() - 1]);
        settled_count_stays_silent(before.0, chirality, g, count);
    }
}

proof fn settled_count_stays_silent(
    t: HandTracker,
    chirality: LeapChirality,
    g: Glimpse,
    count: u8,
)
    requires
        t.pose_settled == Some(count),
        g.hand matches Some(hand) ==> hand.extended() == count,
        !fires(glimpse_step(t, chirality, g).1, Family::Vanish),
    ensures
        !fires(glimpse_step(t, chirality, g).1, Family::Pose),
        glimpse_step(t, chirality, g).0.pose_settled == Some(count),
{
    broadcast use group_fires;

    pose_of_glimpse(t, chirality, g);
    presence_events_alternate(t, chirality, g);
}

/// The hand is in view with `count` extended fingers, out of any fist and pinch, on a palm no
/// faster than a pose allows.
pub open spec fn steady(g: Glimpse, count: u8) -> bool {
    g.hand matches Some(hand) && hand.extended() == count && !recognizer::restless(
        hand,
        hand.grab_strength.ge(g.tuning.grab_release),
        g.tuning,
    )
}

/// From position `k` on, the stream shows a steady hand with `count` extended fingers.
pub open spec fn steady_since(stream: Seq<Glimpse>, k: int, count: u8) -> bool {
    forall|i: int| k <= i < stream.len() ==> steady(#[trigger] stream[i], count)
}

/// The pose candidate is tracked faithfully: the hand has been steady since the candidate's
/// start.
proof fn pose_candidate_tracked(t: HandTracker, chirality: LeapChirality, stream: Seq<Glimpse>)
    requires
        t.pose_candidate is None,
    ensures
        run(t, chirality, stream).0.pose_candidate matches Some((count, since)) ==> exists|k: int|
            0 <= k < stream.len() && #[trigger] steady_since(stream, k, count) && stream[k].now_us
                == since,
    decreases stream.len(),
{
    if stream.len() > 0 {
        let shorter = stream.drop_last();
        let n = stream.len() - 1;
        let before = run(t, chirality, shorter).0;
        let g = stream.last();
        pose_candidate_tracked(t, chirality, shorter);
        pose_of_glimpse(before, chirality, g);
        if let Some((count, since)) = glimpse_step(before, chirality, g).0.pose_candidate {
            let hand = g.hand->0;
            count_set_bounded(hand.fingers_extended@);
            assert(steady(g, count));
            if before.pose_candidate == Some((count, since)) {
                let k = choose|k: int|
                    0 <= k < shorter.len() && #[trigger] steady_since(shorter, k, count)
                        && shorter[k].now_us == since;
                assert forall|i: int| k <= i < stream.len() implies steady(
                    #[trigger] stream[i],
                    count,
                ) by {
                    if i < n {
                        assert(stream[i] == shorter[i]);
                    }
                }
                assert(stream[k] == shorter[k]);
                assert(steady_since(stream, k, count));
            } else {
                assert(stream[n] == g);
                assert(steady_since(stream, n, count));
            }
        }
    }
}

/// A pose needs rest: when the last glimpse of a stream fires a pose, the hand has been steady
/// with that count in every frame since one that lies at least the settle interval back.
pub proof fn pose_needs_steady_hand(
    t: HandTracker,
    chirality: LeapChirality,
    stream: Seq<Glimpse>,
    fingers: u8,
)
    requires
        t.pose_candidate is None,
        stream.len() > 0,
        glimpse_step(run(t, chirality, stream.drop_last()).0, chirality, stream.last()).1.contains(
            LeapGestureEvent::Pose { hand: chirality, fingers },
        ),
    ensures
        exists|k: int|
            0 <= k < stream.len() && #[trigger] steady_since(stream, k, fingers)
                && stream.last().now_us - stream[k].now_us >= stream.last().tuning.pose_settle_us,
{
    broadcast use group_contains;

    let before = run(t, chirality, stream.drop_last()).0;
    let g = stream.last();
    pose_reports_extended_fingers(before, chirality, g, fingers);
    pose_of_glimpse(before, chirality, g);
    pose_candidate_tracked(t, chirality, stream);
    assert(run(t, chirality, stream).0.pose_candidate matches Some((count, since)) && count
        == fingers && g.now_us - since >= g.tuning.pose_settle_us);
}

/// What one glimpse does to the grab.
#[verifier::rlimit(30)]
pub(crate) proof fn grab_of_glimpse(
    t: HandTracker,
    chirality: LeapChirality,
    g: Glimpse,
    family: Family,
)
    requires
        family is GrabBegin || family is GrabUpdate || family is GrabEnd,
    ensures
        ({
            let r = glimpse_step(t, chirality, g);
            let ends = family is GrabEnd && t.lost(g.hand is Some, g.now_us)
                && t.latched_axis() is Some;
            match g.hand {
                Some(hand) => {
                    let grabbed = recognizer::grab_step(
                        kept(t, g),
                        chirality,
                        hand,
                        g.now_us,
                        g.tuning,
                    );
                    &&& r.0.grab == grabbed.0.grab
                    &&& r.0.last_seen_us == g.now_us
                    &&& fires(r.1, family) == (ends || fires(grabbed.1, family))
                },
                None => {
                    &&& r.0.grab == kept(t, g).grab
                    &&& r.0.last_seen_us == t.last_seen_us
                    &&& fires(r.1, family) == ends
                },
            }
        }),
{
    broadcast use group_fires;

}

/// All glimpses of the stream are without the hand.
pub open spec fn out_of_view(stream: Seq<Glimpse>) -> bool {
    forall|i: int| 0 <= i < stream.len() ==> #[trigger] stream[i].hand is None
}

/// A grab survives a dropout within the grace period: anchor, axis and last total stay as they
/// were, and the drag is not reported to end.
pub proof fn grab_survives_dropout(t: HandTracker, chirality: LeapChirality, stream: Seq<Glimpse>)
    requires
        out_of_view(stream),
        forall|i: int|
            0 <= i < stream.len() ==> #[trigger] stream[i].now_us - t.last_seen_us
                <= recognizer::GRAB_LOSS_GRACE_US,
    ensures
        run(t, chirality, stream).0.grab == t.grab,
        run(t, chirality, stream).0.last_seen_us == t.last_seen_us,
        !fires(run(t, chirality, stream).1, Family::GrabEnd),
    decreases stream.len(),
{
    broadcast use group_fires;

    if stream.len() > 0 {
        let shorter = stream.drop_last();
        assert forall|i: int| 0 <= i < shorter.len() implies #[trigger] shorter[i].now_us
            - t.last_seen_us <= recognizer::GRAB_LOSS_GRACE_US && shorter[i].hand is None by {
            assert(shorter[i] == stream[i]);
        }
        grab_survives_dropout(t, chirality, shorter);
        assert(stream.last() == stream[stream.len() - 1]);
        grab_of_glimpse(
            run(t, chirality, shorter).0,
            chirality,
            stream.last(),
            Family::GrabEnd,
        );
    }
}

/// A hand that stays gone longer than the grace period loses its grab, and a drag that had begun
/// is reported to end. So does a hand that comes back after that time: its old drag ends and is
/// not advanced.
pub proof fn lost_hand_ends_grab(t: HandTracker, chirality: LeapChirality, g: Glimpse)
    requires
        g.hand is None || !t.raw_visible,
        g.now_us - t.last_seen_us > recognizer::GRAB_LOSS_GRACE_US,
    ensures
        g.hand is None ==> glimpse_step(t, chirality, g).0.grab is None,
        glimpse_step(t, chirality, g).0.latched_axis() is None,
        fires(glimpse_step(t, chirality, g).1, Family::GrabEnd) <==> t.latched_axis() is Some,
        !fires(glimpse_step(t, chirality, g).1, Family::GrabBegin),
        !fires(glimpse_step(t, chirality, g).1, Family::GrabUpdate),
{
    broadcast use group_fires;

    grab_of_glimpse(t, chirality, g, Family::GrabEnd);
    grab_of_glimpse(t, chirality, g, Family::GrabBegin);
    grab_of_glimpse(t, chirality, g, Family::GrabUpdate);
}

/// The tracker's anchor, while a drag is open.
pub open spec fn drag_anchor(t: HandTracker) -> Option<[Measure; 3]> {
    match t.grab {
        Some(grab) if grab.latched is Some => grab.anchor,
        _ => None,
    }
}

/// A drag begins at the palm's position: that becomes the anchor, and the total starts at zero.
pub proof fn drag_begins_at_latch_point(t: HandTracker, chirality: LeapChirality, g: Glimpse)
    requires
        fires(glimpse_step(t, chirality, g).1, Family::GrabBegin),
    ensures
        g.hand matches Some(hand) && drag_anchor(glimpse_step(t, chirality, g).0) == Some(
            hand.palm_position,
        ) && hand.drag.distance.gt(g.tuning.grab_axis_latch_mm) && glimpse_step(
            t,
            chirality,
            g,
        ).0.grab->0.latched == Some(
            (recognizer::dominant_axis(hand.drag), Measure { bits: 0 }),
        ),
{
    broadcast use group_fires;

    grab_of_glimpse(t, chirality, g, Family::GrabBegin);
}

/// While a drag is open, displacements are measured from one point: until the drag ends, its
/// anchor and its axis do not change.
pub proof fn drag_keeps_anchor_and_axis(
    t: HandTracker,
    chirality: LeapChirality,
    stream: Seq<Glimpse>,
)
    requires
        drag_anchor(t) is Some,
        !fires(run(t, chirality, stream).1, Family::GrabEnd),
    ensures
        drag_anchor(run(t, chirality, stream).0) == drag_anchor(t),
        run(t, chirality, stream).0.latched_axis() == t.latched_axis(),
        !fires(run(t, chirality, stream).1, Family::GrabBegin),
    decreases stream.len(),
{
    broadcast use group_fires;

    if stream.len() > 0 {
        let before = run(t, chirality, stream.drop_last());
        let r = glimpse_step(before.0, chirality, stream.last());
        fires_concat(before.1, r.1, Family::GrabEnd);
        drag_keeps_anchor_and_axis(t, chirality, stream.drop_last());
        grab_of_glimpse(before.0, chirality, stream.last(), Family::GrabEnd);
        grab_of_glimpse(before.0, chirality, stream.last(), Family::GrabBegin);
    }
}

/// An update reports the signed displacement along the latched axis (positive = right, up or
/// away) and a change that is not zero; that displacement is then the last total.
#[verifier::rlimit(30)]
pub proof fn drag_update_reports_displacement(
    t: HandTracker,
    chirality: LeapChirality,
    g: Glimpse,
    axis: LeapAxis,
    delta_mm: Measure,
    total_mm: Measure,
)
    requires
        glimpse_step(t, chirality, g).1.contains(
            LeapGestureEvent::GrabUpdate { hand: chirality, axis, delta_mm, total_mm },
        ),
    ensures
        t.latched_axis() == Some(axis),
        g.hand matches Some(hand) && total_mm == recognizer::total_along(axis, hand.drag)
            && delta_mm == hand.drag.delta,
        !delta_mm.same(Measure { bits: 0 }),
        glimpse_step(t, chirality, g).0.grab matches Some(grab) && grab.latched == Some(
            (axis, total_mm),
        ),
{
    broadcast use group_contains;

}

/// The fist stays closed in a grab that has its anchor and is not lost.
pub open spec fn holds_on(t: HandTracker, g: Glimpse) -> bool {
    g.hand matches Some(hand) && kept(t, g).grab matches Some(grab) && grab.anchor is Some
        && !g.tuning.grab_release.ge(hand.grab_strength)
}

/// A drag begins exactly when an anchored fist without an axis has moved past the latch distance,
/// advances exactly when the palm has moved along the axis, and ends exactly when the fist opens
/// or the hand stays gone for longer than the grace period.
pub proof fn drag_events_are_due(t: HandTracker, chirality: LeapChirality, g: Glimpse)
    requires
        t.wf(),
    ensures
        ({
            let events = glimpse_step(t, chirality, g).1;
            &&& fires(events, Family::GrabBegin) <==> holds_on(t, g) && t.latched_axis() is None
                && g.hand->0.drag.distance.gt(g.tuning.grab_axis_latch_mm)
            &&& fires(events, Family::GrabUpdate) <==> holds_on(t, g) && t.latched_axis() is Some
                && !g.hand->0.drag.delta.same(Measure { bits: 0 })
            &&& fires(events, Family::GrabEnd) <==> t.latched_axis() is Some && (t.lost(
                g.hand is Some,
                g.now_us,
            ) || (g.hand matches Some(hand) && g.tuning.grab_release.ge(hand.grab_strength)))
        }),
{
    broadcast use group_fires;

    grab_of_glimpse(t, chirality, g, Family::GrabBegin);
    grab_of_glimpse(t, chirality, g, Family::GrabUpdate);
    grab_of_glimpse(t, chirality, g, Family::GrabEnd);
}

/// What one glimpse does to the presence fields.
pub(crate) proof fn presence_of_glimpse(t: HandTracker, chirality: LeapChirality, g: Glimpse)
    ensures
        ({
            let r = glimpse_step(t, chirality, g).0;
            let p = recognizer::presence_step(
                t,
                chirality,
                g.hand is Some,
                g.now_us,
                g.tuning,
            ).0;
            r.visible == p.visible && r.raw_visible == p.raw_visible && r.raw_since_us
                == p.raw_since_us
        }),
{
}

/// A hand that stays in view (out of view) for the debounce interval after a change is reported
/// present (gone) by the end of it.
pub proof fn held_presence_is_reported(
    t: HandTracker,
    chirality: LeapChirality,
    stream: Seq<Glimpse>,
    raw: bool,
)
    requires
        t.raw_visible != raw,
        stream.len() > 0,
        presence_held(stream, 0, raw),
        stream.last().now_us - stream[0].now_us >= stream.last().tuning.presence_debounce_us,
    ensures
        run(t, chirality, stream).0.visible == raw,
{
    change_is_remembered(t, chirality, stream, raw);
    let before = run(t, chirality, stream.drop_last()).0;
    presence_of_glimpse(before, chirality, stream.last());
    assert(stream.last() == stream[stream.len() - 1]);
    if stream.len() > 1 {
        assert forall|i: int| 0 <= i < stream.drop_last().len() implies (
        #[trigger] stream.drop_last()[i].hand is Some) == raw by {
            assert(stream.drop_last()[i] == stream[i]);
        }
        change_is_remembered(t, chirality, stream.drop_last(), raw);
    } else {
        assert(stream.drop_last() =~= Seq::<Glimpse>::empty());
    }
}

proof fn change_is_remembered(
    t: HandTracker,
    chirality: LeapChirality,
    stream: Seq<Glimpse>,
    raw: bool,
)
    requires
        t.raw_visible != raw,
        stream.len() > 0,
        presence_held(stream, 0, raw),
    ensures
        run(t, chirality, stream).0.raw_visible == raw,
        run(t, chirality, stream).0.raw_since_us == stream[0].now_us,
    decreases stream.len(),
{
    let shorter = stream.drop_last();
    presence_of_glimpse(run(t, chirality, shorter).0, chirality, stream.last());
    assert(stream.last() == stream[stream.len() - 1]);
    if stream.len() > 1 {
        assert forall|i: int| 0 <= i < shorter.len() implies (#[trigger] shorter[i].hand is Some)
            == raw by {
            assert(shorter[i] == stream[i]);
        }
        change_is_remembered(t, chirality, shorter, raw);
    } else {
        assert(shorter =~= Seq::<Glimpse>::empty());
    }
}

/// The hand is steady and does not close into a fist either.
pub open spec fn at_rest(g: Glimpse, count: u8) -> bool {
    steady(g, count) && !g.hand->0.grab_strength.ge(g.tuning.grab_trigger)
}

proof fn rest_keeps_candidate(
    t: HandTracker,
    chirality: LeapChirality,
    stream: Seq<Glimpse>,
    count: u8,
)
    requires
        t.grab is None,
        t.pose_candidate is None,
        stream.len() > 0,
        forall|i: int| 0 <= i < stream.len() ==> at_rest(#[trigger] stream[i], count),
    ensures
        ({
            let r = run(t, chirality, stream);
            &&& r.0.grab is None
            &&& r.0.pose_candidate == Some((count, stream[0].now_us))
            &&& r.0.pose_settled == t.pose_settled || r.0.pose_settled == Some(count) && (count
                >= 1 ==> fires(r.1, Family::Pose))
        }),
    decreases stream.len(),
{
    let shorter = stream.drop_last();
    let before = run(t, chirality, shorter);
    let g = stream.last();
    let r = glimpse_step(before.0, chirality, g);
    assert(g == stream[stream.len() - 1]);
    assert(at_rest(g, count));
    fires_concat(before.1, r.1, Family::Pose);
    pose_of_glimpse(before.0, chirality, g);
    grab_of_glimpse(before.0, chirality, g, Family::GrabBegin);
    if stream.len() > 1 {
        assert forall|i: int| 0 <= i < shorter.len() implies at_rest(#[trigger] shorter[i], count)
            by {
            assert(shorter[i] == stream[i]);
        }
        rest_keeps_candidate(t, chirality, shorter, count);
        assert(shorter[0] == stream[0]);
    } else {
        assert(shorter =~= Seq::<Glimpse>::empty());
    }
    broadcast use group_fires;

}

/// A count of extended fingers that is held at rest for the settle interval settles; if it differs
/// from the last settled count and is no fist, a pose fires.
pub proof fn held_pose_fires(
    t: HandTracker,
    chirality: LeapChirality,
    stream: Seq<Glimpse>,
    count: u8,
)
    requires
        t.grab is None,
        t.pose_candidate is None,
        stream.len() > 1,
        forall|i: int| 0 <= i < stream.len() ==> at_rest(#[trigger] stream[i], count),
        stream.last().now_us - stream[0].now_us >= stream.last().tuning.pose_settle_us,
    ensures
        run(t, chirality, stream).0.pose_settled == Some(count),
        t.pose_settled != Some(count) && count >= 1 ==> fires(
            run(t, chirality, stream).1,
            Family::Pose,
        ),
{
    broadcast use group_fires;

    let shorter = stream.drop_last();
    let before = run(t, chirality, shorter);
    let g = stream.last();
    let r = glimpse_step(before.0, chirality, g);
    assert(g == stream[stream.len() - 1]);
    assert(at_rest(g, count));
    assert forall|i: int| 0 <= i < shorter.len() implies at_rest(#[trigger] shorter[i], count) by {
        assert(shorter[i] == stream[i]);
    }
    rest_keeps_candidate(t, chirality, shorter, count);
    assert(shorter[0] == stream[0]);
    fires_concat(before.1, r.1, Family::Pose);
    pose_of_glimpse(before.0, chirality, g);
}

/// A hand that is reported gone takes its settled pose with it: the same count fires anew when
/// the hand comes back.
pub proof fn vanishing_hand_forgets_its_pose(t: HandTracker, chirality: LeapChirality, g: Glimpse)
    requires
        fires(glimpse_step(t, chirality, g).1, Family::Vanish),
    ensures
        glimpse_step(t, chirality, g).0.pose_settled is None,
        glimpse_step(t, chirality, g).0.pose_candidate is None,
{
    presence_events_alternate(t, chirality, g);
    pose_of_glimpse(t, chirality, g);
    presence_of_glimpse(t, chirality, g);
}

/// Every frame keeps a tracker well-formed.
pub proof fn frames_keep_trackers_well_formed(t: HandTracker, chirality: LeapChirality, g: Glimpse)
    requires
        t.wf(),
    ensures
        glimpse_step(t, chirality, g).0.wf(),
{
    pose_of_glimpse(t, chirality, g);
    grab_of_glimpse(t, chirality, g, Family::GrabBegin);
    if let Some(hand) = g.hand {
        count_set_bounded(hand.fingers_extended@);
    }
}

/// All events are about the hand.
pub open spec fn all_of(events: Seq<LeapGestureEvent>, chirality: LeapChirality) -> bool {
    forall|i: int| 0 <= i < events.len() ==> (#[trigger] events[i]).of_hand() == chirality
}

pub(crate) proof fn all_of_concat(
    a: Seq<LeapGestureEvent>,
    b: Seq<LeapGestureEvent>,
    chirality: LeapChirality,
)
    requires
        all_of(a, chirality),
        all_of(b, chirality),
    ensures
        all_of(a + b, chirality),
{
    assert forall|i: int| 0 <= i < (a + b).len() implies (#[trigger] (a + b)[i]).of_hand()
        == chirality by {
        if i < a.len() {
            assert((a + b)[i] == a[i]);
        } else {
            assert((a + b)[i] == b[i - a.len()]);
        }
    }
}

proof fn sighting_names_hand(
    t: HandTracker,
    chirality: LeapChirality,
    hand: LeapHandData,
    now_us: i64,
    tuning: LeapTuning,
)
    ensures
        all_of(recognizer::sighting_step(t, chirality, hand, now_us, tuning).1, chirality),
{
    let grabbing = t.grabbing(hand, tuning);
    let sighted = HandTracker { last_seen_us: now_us, ..t };
    let pinch = recognizer::pinch_step(sighted, chirality, hand, grabbing, tuning);
    let swipe = recognizer::swipe_step(pinch.0, chirality, hand, grabbing, now_us, tuning);
    let pose = recognizer::pose_step(swipe.0, chirality, hand, grabbing, now_us, tuning);
    let grab = recognizer::grab_step(pose.0, chirality, hand, now_us, tuning);
    assert(all_of(pinch.1, chirality));
    assert(all_of(swipe.1, chirality));
    assert(all_of(pose.1, chirality));
    assert(all_of(grab.1, chirality));
    all_of_concat(pinch.1, swipe.1, chirality);
    all_of_concat(pinch.1 + swipe.1, pose.1, chirality);
    all_of_concat(pinch.1 + swipe.1 + pose.1, grab.1, chirality);
}

/// Every event that a hand's tracker fires is about that hand.
pub proof fn events_name_their_hand(t: HandTracker, chirality: LeapChirality, g: Glimpse)
    ensures
        all_of(glimpse_step(t, chirality, g).1, chirality),
{
    let loss = recognizer::loss_step(t, chirality, g.hand is Some, g.now_us);
    let presence = recognizer::presence_step(
        loss.0,
        chirality,
        g.hand is Some,
        g.now_us,
        g.tuning,
    );
    assert(all_of(loss.1, chirality));
    assert(all_of(presence.1, chirality));
    all_of_concat(presence.1, loss.1, chirality);
    match g.hand {
        Some(hand) => {
            sighting_names_hand(presence.0, chirality, hand, g.now_us, g.tuning);
            let rest = recognizer::sighting_step(
                presence.0,
                chirality,
                hand,
                g.now_us,
                g.tuning,
            );
            all_of_concat(presence.1 + loss.1, rest.1, chirality);
        },
        None => {
            all_of_concat(presence.1 + loss.1, seq![], chirality);
        },
    }
}

/// Hands are tracked independently: what a frame does to one hand is decided by that hand's
/// tracker, its own first entry in the frame, and the clock.
pub proof fn hands_are_independent(
    a: LeapGestureState,
    b: LeapGestureState,
    frame_a: LeapFrame,
    frame_b: LeapFrame,
    tuning: LeapTuning,
    chirality: LeapChirality,
)
    requires
        a.tracker(chirality) == b.tracker(chirality),
        recognizer::first_hand(frame_a.hands@, chirality) == recognizer::first_hand(
            frame_b.hands@,
            chirality,
        ),
        frame_a.timestamp_us == frame_b.timestamp_us,
    ensures
        a.step_of(chirality, frame_a, tuning) == b.step_of(chirality, frame_b, tuning),
{
}

} // verus!
