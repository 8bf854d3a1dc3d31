//! What one frame does to one hand, in terms of the frame's numbers and the configured thresholds.

use crate::leap_gesture::laws;
use crate::leap_gesture::laws::{Family, Glimpse};
use crate::leap_gesture::recognizer;
use crate::leap_gesture::recognizer::{GrabState, HandTracker, LeapGestureState};
use crate::leap_gesture::types::{
    DragReading, LeapAxis, LeapChirality, LeapFrame, LeapGestureEvent, LeapHandData,
    LeapPresenceEvent, LeapTuning, SwipeDirection,
};
use crate::measure::Measure;
use vstd::prelude::*;

verus! {

/// The hand has a grab, is out of view in this frame or the last, and was last seen more than
/// 200 ms ago.
pub open spec fn slipped(t: HandTracker, g: Glimpse) -> bool {
    &&& t.grab is Some
    &&& g.hand is None || !t.raw_visible
    &&& g.now_us - t.last_seen_us > 200_000
}

/// The hand has a grab that has not slipped.
pub open spec fn clutching(t: HandTracker, g: Glimpse) -> bool {
    t.grab is Some && !slipped(t, g)
}

/// The hand holds on to nothing and its grab strength is below the release threshold.
pub open spec fn open_handed(t: HandTracker, g: Glimpse, hand: LeapHandData) -> bool {
    !clutching(t, g) && !hand.grab_strength.ge(g.tuning.grab_release)
}

/// The hand holds on to nothing and its grab strength reaches the trigger.
pub open spec fn making_a_fist(t: HandTracker, g: Glimpse, hand: LeapHandData) -> bool {
    !clutching(t, g) && hand.grab_strength.ge(g.tuning.grab_trigger)
}

/// How long the hand has been in view, or out of view, by the end of the frame.
pub open spec fn unchanged_for(t: HandTracker, g: Glimpse) -> int {
    if (g.hand is Some) == t.raw_visible {
        g.now_us - t.raw_since_us
    } else {
        0
    }
}

/// The report of the hand's presence that the frame makes.
pub open spec fn presence_report(t: HandTracker, chirality: LeapChirality, g: Glimpse) -> Seq<
    LeapGestureEvent,
> {
    if unchanged_for(t, g) < g.tuning.presence_debounce_us {
        seq![]
    } else if g.hand is Some && !t.visible {
        seq![LeapGestureEvent::Presence { hand: chirality, event: LeapPresenceEvent::Appear }]
    } else if g.hand is None && t.visible {
        seq![LeapGestureEvent::Presence { hand: chirality, event: LeapPresenceEvent::Vanish }]
    } else {
        seq![]
    }
}

/// The presence of a hand follows the view: the raw state at once, the reported state once the
/// raw state has lasted the debounce interval.
pub proof fn presence_of_a_frame(t: HandTracker, chirality: LeapChirality, g: Glimpse)
    ensures
        ({
            let after = laws::glimpse_step(t, chirality, g).0;
            let report = presence_report(t, chirality, g);
            &&& after.raw_visible == (g.hand is Some)
            &&& after.raw_since_us == g.now_us - unchanged_for(t, g)
            &&& after.visible == if report.len() > 0 {
                g.hand is Some
            } else {
                t.visible
            }
            &&& after.last_seen_us == if g.hand is Some {
                g.now_us
            } else {
                t.last_seen_us
            }
        }),
{
    laws::grab_of_glimpse(t, chirality, g, Family::GrabEnd);
}

/// The end of the drag of a grab that has slipped.
pub open spec fn slip_report(t: HandTracker, chirality: LeapChirality, g: Glimpse) -> Seq<
    LeapGestureEvent,
> {
    match t.grab {
        Some(GrabState { latched: Some((axis, _)), .. }) if slipped(t, g) => seq![
            LeapGestureEvent::GrabEnd { hand: chirality, axis },
        ],
        _ => seq![],
    }
}

/// The pinch that the frame fires.
pub open spec fn pinch_report(
    t: HandTracker,
    chirality: LeapChirality,
    g: Glimpse,
    hand: LeapHandData,
) -> Seq<LeapGestureEvent> {
    if t.pinch_armed && open_handed(t, g, hand) && hand.pinch_strength.ge(g.tuning.pinch_trigger) {
        seq![LeapGestureEvent::Pinch { hand: chirality }]
    } else {
        seq![]
    }
}

/// One direction is the other one turned around.
pub open spec fn turned_around(a: SwipeDirection, b: SwipeDirection) -> bool {
    ||| a is Left && b is Right
    ||| a is Right && b is Left
    ||| a is Up && b is Down
    ||| a is Down && b is Up
}

/// A swipe in the direction opposite to the last one, within the return window.
pub open spec fn winds_back(t: HandTracker, g: Glimpse, direction: SwipeDirection) -> bool {
    match t.last_swipe {
        Some((last, last_us)) => turned_around(direction, last) && g.now_us - last_us
            <= g.tuning.swipe_return_window_us,
        None => false,
    }
}

/// The palm moves fast enough to swipe: along x at the trigger speed and faster than along y, or
/// along y at the vertical trigger speed and faster than along x.
pub open spec fn fast(hand: LeapHandData, tuning: LeapTuning) -> bool {
    let speed_x = hand.palm_velocity[0].unsigned();
    let speed_y = hand.palm_velocity[1].unsigned();
    ||| speed_x.gt(speed_y) && speed_x.ge(tuning.swipe_trigger_speed)
    ||| speed_y.gt(speed_x) && speed_y.ge(tuning.swipe_vertical_speed)
}

/// Where the palm goes: right and up are positive.
pub open spec fn heading(hand: LeapHandData) -> SwipeDirection {
    let vx = hand.palm_velocity[0];
    let vy = hand.palm_velocity[1];
    if vx.unsigned().gt(vy.unsigned()) {
        if vx.rank() > 0 {
            SwipeDirection::Right
        } else {
            SwipeDirection::Left
        }
    } else {
        if vy.rank() > 0 {
            SwipeDirection::Up
        } else {
            SwipeDirection::Down
        }
    }
}

/// The swipe that the frame fires.
pub open spec fn swipe_report(
    t: HandTracker,
    chirality: LeapChirality,
    g: Glimpse,
    hand: LeapHandData,
) -> Seq<LeapGestureEvent> {
    if t.swipe_armed && open_handed(t, g, hand) && fast(hand, g.tuning) && !winds_back(
        t,
        g,
        heading(hand),
    ) {
        seq![LeapGestureEvent::Swipe { hand: chirality, direction: heading(hand) }]
    } else {
        seq![]
    }
}

pub open spec fn one_if(b: bool) -> int {
    if b {
        1
    } else {
        0
    }
}

/// The number of fingers that are extended.
pub open spec fn fingers_up(hand: LeapHandData) -> int {
    one_if(hand.fingers_extended[0]) + one_if(hand.fingers_extended[1]) + one_if(
        hand.fingers_extended[2],
    ) + one_if(hand.fingers_extended[3]) + one_if(hand.fingers_extended[4])
}

/// An open hand that does not pinch, on a palm no faster than a pose allows.
pub open spec fn still(t: HandTracker, g: Glimpse, hand: LeapHandData) -> bool {
    &&& open_handed(t, g, hand)
    &&& !hand.pinch_strength.ge(g.tuning.pinch_release)
    &&& !hand.planar_speed.gt(g.tuning.pose_max_speed)
}

/// The frame settles a count that was not settled: the still hand has shown it for the settle
/// interval.
pub open spec fn settles(t: HandTracker, g: Glimpse, hand: LeapHandData) -> bool {
    &&& still(t, g, hand)
    &&& match t.pose_candidate {
        Some((count, since)) => count == fingers_up(hand) && g.now_us - since
            >= g.tuning.pose_settle_us,
        None => false,
    }
    &&& match t.pose_settled {
        Some(count) => count != fingers_up(hand),
        None => true,
    }
}

/// The pose that the frame fires.
pub open spec fn pose_report(
    t: HandTracker,
    chirality: LeapChirality,
    g: Glimpse,
    hand: LeapHandData,
) -> Seq<LeapGestureEvent> {
    if settles(t, g, hand) && fingers_up(hand) >= 1 {
        seq![LeapGestureEvent::Pose { hand: chirality, fingers: fingers_up(hand) as u8 }]
    } else {
        seq![]
    }
}

/// The axis with the largest weighted displacement; ties go to the horizontal axis, then to
/// depth.
pub open spec fn widest_axis(drag: DragReading) -> LeapAxis {
    if drag.weighted_dy.gt(drag.dx.unsigned()) && drag.weighted_dy.gt(drag.weighted_dz) {
        LeapAxis::Vertical
    } else if drag.weighted_dz.gt(drag.dx.unsigned()) {
        LeapAxis::Depth
    } else {
        LeapAxis::Horizontal
    }
}

/// The total is the displacement along the axis: right, up, and away from the user are positive,
/// while the device counts z toward the user.
pub open spec fn measures(total: Measure, axis: LeapAxis, drag: DragReading) -> bool {
    match axis {
        LeapAxis::Horizontal => total == drag.dx,
        LeapAxis::Vertical => total == drag.dy,
        LeapAxis::Depth => {
            &&& total.rank() == -drag.dz.rank()
            &&& total.nan() == drag.dz.nan()
            &&& total.bits - drag.dz.bits == 0x8000_0000_0000_0000 || drag.dz.bits - total.bits
                == 0x8000_0000_0000_0000
        },
    }
}

/// The drag event that the hand in the frame fires, other than the end of a slipped drag.
pub open spec fn drag_report(
    t: HandTracker,
    chirality: LeapChirality,
    g: Glimpse,
    hand: LeapHandData,
    events: Seq<LeapGestureEvent>,
) -> bool {
    if !clutching(t, g) {
        events.len() == 0
    } else {
        let grab = t.grab->0;
        let opens = g.tuning.grab_release.ge(hand.grab_strength);
        match grab.latched {
            Some((axis, _)) => if opens {
                events == seq![LeapGestureEvent::GrabEnd { hand: chirality, axis }]
            } else if grab.anchor is None || hand.drag.delta.same(Measure { bits: 0 }) {
                events.len() == 0
            } else {
                &&& events.len() == 1
                &&& match events[0] {
                    LeapGestureEvent::GrabUpdate { hand: of, axis: along, delta_mm, total_mm } => of
                        == chirality && along == axis && delta_mm == hand.drag.delta && measures(
                        total_mm,
                        axis,
                        hand.drag,
                    ),
                    _ => false,
                }
            },
            None => if !opens && grab.anchor is Some && hand.drag.distance.gt(
                g.tuning.grab_axis_latch_mm,
            ) {
                events == seq![
                    LeapGestureEvent::GrabBegin { hand: chirality, axis: widest_axis(hand.drag) },
                ]
            } else {
                events.len() == 0
            },
        }
    }
}

proof fn fingers_are_counted(hand: LeapHandData)
    ensures
        hand.extended() == fingers_up(hand),
        0 <= fingers_up(hand) <= 5,
{
    use_count_of_five(hand.fingers_extended@);
}

proof fn use_count_of_five(flags: Seq<bool>)
    requires
        flags.len() == 5,
    ensures
        crate::leap_gesture::types::count_set(flags) == one_if(flags[0]) + one_if(flags[1])
            + one_if(flags[2]) + one_if(flags[3]) + one_if(flags[4]),
{
    reveal_with_fuel(crate::leap_gesture::types::count_set, 6);
    assert(flags.drop_last().last() == flags[3]);
    assert(flags.drop_last().drop_last().last() == flags[2]);
    assert(flags.drop_last().drop_last().drop_last().last() == flags[1]);
    assert(flags.drop_last().drop_last().drop_last().drop_last().last() == flags[0]);
}

/// The count of extended fingers is the number of digits whose flag is set, no matter which.
pub proof fn extended_counts_every_digit_once(hand: LeapHandData)
    ensures
        hand.extended() == fingers_up(hand),
        hand.extended() <= 5,
{
    fingers_are_counted(hand);
}

/// A frame without the hand reports a vanished hand and a slipped drag, and nothing else.
pub proof fn empty_frame_fires_exactly(t: HandTracker, chirality: LeapChirality, g: Glimpse)
    requires
        g.hand is None,
    ensures
        laws::glimpse_step(t, chirality, g).1 == presence_report(t, chirality, g) + slip_report(
            t,
            chirality,
            g,
        ),
{
    let loss = recognizer::loss_step(t, chirality, false, g.now_us);
    let presence = recognizer::presence_step(loss.0, chirality, false, g.now_us, g.tuning);
    assert(presence.1 =~= presence_report(t, chirality, g));
    assert(loss.1 =~= slip_report(t, chirality, g));
    assert(laws::glimpse_step(t, chirality, g).1 =~= presence.1 + loss.1);
}

/// A frame with the hand reports, in this order: an appeared hand, a slipped drag, a pinch, a
/// swipe, a pose and what became of a drag; and nothing else.
pub proof fn sighting_fires_exactly(
    t: HandTracker,
    chirality: LeapChirality,
    g: Glimpse,
    hand: LeapHandData,
)
    requires
        g.hand == Some(hand),
    ensures
        exists|dragged: Seq<LeapGestureEvent>|
            drag_report(t, chirality, g, hand, dragged) && laws::glimpse_step(t, chirality, g).1
                == presence_report(t, chirality, g) + slip_report(t, chirality, g) + (pinch_report(
                t,
                chirality,
                g,
                hand,
            ) + swipe_report(t, chirality, g, hand) + pose_report(t, chirality, g, hand)
                + #[trigger] same_events(dragged)),
{
    let loss = recognizer::loss_step(t, chirality, true, g.now_us);
    let presence = recognizer::presence_step(loss.0, chirality, true, g.now_us, g.tuning);
    let p = presence.0;
    let grabbing = p.grabbing(hand, g.tuning);
    let sighted = HandTracker { last_seen_us: g.now_us, ..p };
    let pinch = recognizer::pinch_step(sighted, chirality, hand, grabbing, g.tuning);
    let swipe = recognizer::swipe_step(pinch.0, chirality, hand, grabbing, g.now_us, g.tuning);
    let pose = recognizer::pose_step(swipe.0, chirality, hand, grabbing, g.now_us, g.tuning);
    let grab = recognizer::grab_step(pose.0, chirality, hand, g.now_us, g.tuning);
    assert((p.grab is Some) == clutching(t, g));
    assert(!grabbing == open_handed(t, g, hand));
    assert(presence.1 =~= presence_report(t, chirality, g));
    assert(loss.1 =~= slip_report(t, chirality, g));
    assert(pinch.1 =~= pinch_report(t, chirality, g, hand));
    swipe_stage(t, chirality, g, hand, pinch.0);
    pose_stage(t, chirality, g, hand, swipe.0);
    drag_stage(t, chirality, g, hand, pose.0);
    assert(same_events(grab.1) == grab.1);
}

/// The events themselves.
pub open spec fn same_events(events: Seq<LeapGestureEvent>) -> Seq<LeapGestureEvent> {
    events
}

proof fn swipe_stage(
    t: HandTracker,
    chirality: LeapChirality,
    g: Glimpse,
    hand: LeapHandData,
    u: HandTracker,
)
    requires
        u.swipe_armed == t.swipe_armed,
        u.last_swipe == t.last_swipe,
    ensures
        recognizer::swipe_step(
            u,
            chirality,
            hand,
            !open_handed(t, g, hand),
            g.now_us,
            g.tuning,
        ).1 == swipe_report(t, chirality, g, hand),
        recognizer::swipe_step(
            u,
            chirality,
            hand,
            !open_handed(t, g, hand),
            g.now_us,
            g.tuning,
        ).0 == (HandTracker {
            swipe_armed: if t.swipe_armed {
                !(open_handed(t, g, hand) && fast(hand, g.tuning))
            } else {
                open_handed(t, g, hand) && g.tuning.swipe_rearm_speed.gt(hand.planar_speed)
            },
            last_swipe: if swipe_report(t, chirality, g, hand).len() > 0 {
                Some((heading(hand), g.now_us))
            } else {
                t.last_swipe
            },
            ..u
        }),
{
    let zero = Measure { bits: 0 };
    let vx = hand.palm_velocity[0];
    let vy = hand.palm_velocity[1];
    assert(!zero.nan() && zero.rank() == 0);
    assert(vx.unsigned().nan() == vx.nan());
    assert(vy.unsigned().nan() == vy.nan());
    assert(recognizer::stroke(hand, g.tuning) == if fast(hand, g.tuning) {
        Some(heading(hand))
    } else {
        None
    });
    assert(recognizer::return_stroke(u, heading(hand), g.now_us, g.tuning) == winds_back(
        t,
        g,
        heading(hand),
    ));
}

proof fn pose_stage(
    t: HandTracker,
    chirality: LeapChirality,
    g: Glimpse,
    hand: LeapHandData,
    u: HandTracker,
)
    requires
        u.pose_candidate == t.pose_candidate,
        u.pose_settled == t.pose_settled,
    ensures
        recognizer::pose_step(
            u,
            chirality,
            hand,
            !open_handed(t, g, hand),
            g.now_us,
            g.tuning,
        ).1 == pose_report(t, chirality, g, hand),
        recognizer::pose_step(
            u,
            chirality,
            hand,
            !open_handed(t, g, hand),
            g.now_us,
            g.tuning,
        ).0 == (HandTracker {
            pose_candidate: next_candidate(t, g, hand),
            pose_settled: if settles(t, g, hand) {
                Some(fingers_up(hand) as u8)
            } else {
                t.pose_settled
            },
            ..u
        }),
{
    fingers_are_counted(hand);
}

/// The count that a still hand shows and since when; none if the hand is not still.
pub open spec fn next_candidate(t: HandTracker, g: Glimpse, hand: LeapHandData) -> Option<
    (u8, i64),
> {
    if !still(t, g, hand) {
        None
    } else {
        match t.pose_candidate {
            Some((count, since)) if count == fingers_up(hand) => Some((count, since)),
            _ => Some((fingers_up(hand) as u8, g.now_us)),
        }
    }
}

proof fn drag_stage(
    t: HandTracker,
    chirality: LeapChirality,
    g: Glimpse,
    hand: LeapHandData,
    u: HandTracker,
)
    requires
        clutching(t, g) ==> u.grab == t.grab,
        !clutching(t, g) ==> u.grab is None,
    ensures
        drag_report(
            t,
            chirality,
            g,
            hand,
            recognizer::grab_step(u, chirality, hand, g.now_us, g.tuning).1,
        ),
{
}

/// What becomes of the grab: it slips, is let go, starts anew with a fist, gets its anchor once
/// settled, gets a new anchor and a total of zero with its axis, and remembers each total.
pub proof fn grab_of_a_frame(t: HandTracker, chirality: LeapChirality, g: Glimpse)
    ensures
        ({
            let after = laws::glimpse_step(t, chirality, g).0.grab;
            match g.hand {
                None => after == if slipped(t, g) {
                    None
                } else {
                    t.grab
                },
                Some(hand) => if !clutching(t, g) {
                    after == if making_a_fist(t, g, hand) {
                        Some(GrabState { triggered_us: g.now_us, anchor: None, latched: None })
                    } else {
                        None
                    }
                } else if g.tuning.grab_release.ge(hand.grab_strength) {
                    after is None
                } else {
                    let grab = t.grab->0;
                    &&& after is Some
                    &&& after->0.triggered_us == grab.triggered_us
                    &&& match (grab.anchor, grab.latched) {
                        (None, latched) => after->0.latched == latched && after->0.anchor == if
                        g.now_us - grab.triggered_us >= g.tuning.grab_settle_us {
                            Some(hand.palm_position)
                        } else {
                            None
                        },
                        (Some(anchor), None) => if hand.drag.distance.gt(
                            g.tuning.grab_axis_latch_mm,
                        ) {
                            &&& after->0.anchor == Some(hand.palm_position)
                            &&& after->0.latched == Some(
                                (widest_axis(hand.drag), Measure { bits: 0 }),
                            )
                        } else {
                            after->0 == grab
                        },
                        (Some(anchor), Some((axis, total))) => {
                            &&& after->0.anchor == Some(anchor)
                            &&& if hand.drag.delta.same(Measure { bits: 0 }) {
                                after->0.latched == Some((axis, total))
                            } else {
                                after->0.latched matches Some((along, now)) && along == axis
                                    && measures(now, axis, hand.drag)
                            }
                        },
                    }
                },
            }
        }),
{
    laws::grab_of_glimpse(t, chirality, g, Family::GrabEnd);
}

/// A pinch stays armed until it fires, a fist closes or the hand leaves the view, and is armed by
/// nothing but an open hand below the release threshold.
pub proof fn pinch_armed_of_a_frame(t: HandTracker, chirality: LeapChirality, g: Glimpse)
    ensures
        laws::glimpse_step(t, chirality, g).0.pinch_armed <==> match g.hand {
            None => false,
            Some(hand) => !making_a_fist(t, g, hand) && if t.pinch_armed {
                !(open_handed(t, g, hand) && hand.pinch_strength.ge(g.tuning.pinch_trigger))
            } else {
                open_handed(t, g, hand) && g.tuning.pinch_release.gt(hand.pinch_strength)
            },
        },
{
}

/// A swipe stays armed until the palm strokes, a fist closes or the hand leaves the view, and is
/// armed by nothing but an open hand below the re-arm speed. Only a swipe that fires is
/// remembered.
#[verifier::rlimit(30)]
pub proof fn swipe_armed_of_a_frame(t: HandTracker, chirality: LeapChirality, g: Glimpse)
    ensures
        ({
            let after = laws::glimpse_step(t, chirality, g).0;
            match g.hand {
                None => !after.swipe_armed && after.last_swipe == t.last_swipe,
                Some(hand) => {
                    &&& after.swipe_armed <==> !making_a_fist(t, g, hand) && if t.swipe_armed {
                        !(open_handed(t, g, hand) && fast(hand, g.tuning))
                    } else {
                        open_handed(t, g, hand) && g.tuning.swipe_rearm_speed.gt(
                            hand.planar_speed,
                        )
                    }
                    &&& after.last_swipe == if t.swipe_armed && open_handed(t, g, hand) && fast(
                        hand,
                        g.tuning,
                    ) && !winds_back(t, g, heading(hand)) {
                        Some((heading(hand), g.now_us))
                    } else {
                        t.last_swipe
                    }
                },
            }
        }),
{
    if let Some(hand) = g.hand {
        swipe_stage(t, chirality, g, hand, t);
        let loss = recognizer::loss_step(t, chirality, true, g.now_us);
        let p = recognizer::presence_step(loss.0, chirality, true, g.now_us, g.tuning).0;
        let grabbing = p.grabbing(hand, g.tuning);
        assert(!grabbing == open_handed(t, g, hand));
        let sighted = HandTracker { last_seen_us: g.now_us, ..p };
        let pinch = recognizer::pinch_step(sighted, chirality, hand, grabbing, g.tuning);
        swipe_stage(t, chirality, g, hand, pinch.0);
    }
}

/// The settle clock runs while a still hand shows one count, and is stopped by anything else. A
/// settled count stays until another settles or the hand is reported gone.
pub proof fn pose_memory_of_a_frame(t: HandTracker, chirality: LeapChirality, g: Glimpse)
    ensures
        ({
            let after = laws::glimpse_step(t, chirality, g).0;
            match g.hand {
                None => {
                    &&& after.pose_candidate is None
                    &&& after.pose_settled == if t.visible && unchanged_for(t, g)
                        >= g.tuning.presence_debounce_us {
                        None
                    } else {
                        t.pose_settled
                    }
                },
                Some(hand) => {
                    &&& after.pose_candidate == next_candidate(t, g, hand)
                    &&& after.pose_settled == if settles(t, g, hand) {
                        Some(fingers_up(hand) as u8)
                    } else {
                        t.pose_settled
                    }
                },
            }
        }),
{
    laws::pose_of_glimpse(t, chirality, g);
    if let Some(hand) = g.hand {
        let p = recognizer::presence_step(
            laws::kept(t, g),
            chirality,
            true,
            g.now_us,
            g.tuning,
        ).0;
        assert(!laws::kept(t, g).grabbing(hand, g.tuning) == open_handed(t, g, hand));
        pose_stage(t, chirality, g, hand, p);
    }
}

/// An update's total lies as far from zero as the palm's displacement along the axis, on the side
/// that the palm has moved to: right of the anchor, above it, or farther from the user counts as
/// positive.
pub proof fn drag_total_has_the_palms_side(
    t: HandTracker,
    chirality: LeapChirality,
    g: Glimpse,
    axis: LeapAxis,
    delta_mm: Measure,
    total_mm: Measure,
)
    requires
        laws::glimpse_step(t, chirality, g).1.contains(
            LeapGestureEvent::GrabUpdate { hand: chirality, axis, delta_mm, total_mm },
        ),
    ensures
        g.hand is Some,
        axis is Horizontal ==> total_mm.rank() == g.hand->0.drag.dx.rank(),
        axis is Vertical ==> total_mm.rank() == g.hand->0.drag.dy.rank(),
        axis is Depth ==> total_mm.rank() == -g.hand->0.drag.dz.rank(),
        measures(total_mm, axis, g.hand->0.drag),
        delta_mm == g.hand->0.drag.delta,
{
    laws::drag_update_reports_displacement(t, chirality, g, axis, delta_mm, total_mm);
}

/// The displacement of one reading is that of the other, mirrored at the anchor.
pub open spec fn mirrored(a: DragReading, b: DragReading) -> bool {
    &&& a.dx.rank() == -b.dx.rank()
    &&& a.dy.rank() == -b.dy.rank()
    &&& a.dz.rank() == -b.dz.rank()
}

/// Moving the palm just as far to the other side of the anchor negates the reported total.
pub proof fn mirrored_drag_negates_the_total(
    t: HandTracker,
    chirality: LeapChirality,
    a: Glimpse,
    b: Glimpse,
    axis: LeapAxis,
    delta_a: Measure,
    total_a: Measure,
    delta_b: Measure,
    total_b: Measure,
)
    requires
        a.hand is Some && b.hand is Some && mirrored(a.hand->0.drag, b.hand->0.drag),
        laws::glimpse_step(t, chirality, a).1.contains(
            LeapGestureEvent::GrabUpdate {
                hand: chirality,
                axis,
                delta_mm: delta_a,
                total_mm: total_a,
            },
        ),
        laws::glimpse_step(t, chirality, b).1.contains(
            LeapGestureEvent::GrabUpdate {
                hand: chirality,
                axis,
                delta_mm: delta_b,
                total_mm: total_b,
            },
        ),
    ensures
        total_a.rank() == -total_b.rank(),
{
    drag_total_has_the_palms_side(t, chirality, a, axis, delta_a, total_a);
    drag_total_has_the_palms_side(t, chirality, b, axis, delta_b, total_b);
}

/// The hand is in view, closes no fist and fires no pinch: it is near a fist, or pinches below the
/// trigger.
pub open spec fn pinches_not(g: Glimpse) -> bool {
    match g.hand {
        Some(hand) => {
            &&& !hand.grab_strength.ge(g.tuning.grab_trigger)
            &&& hand.grab_strength.ge(g.tuning.grab_release) || !hand.pinch_strength.ge(
                g.tuning.pinch_trigger,
            )
        },
        None => false,
    }
}

/// An armed pinch stays armed and silent for as long as the hand stays in view, makes no fist and
/// does not pinch.
pub proof fn armed_pinch_stays_armed(
    t: HandTracker,
    chirality: LeapChirality,
    stream: Seq<Glimpse>,
)
    requires
        t.pinch_armed,
        t.grab is None,
        forall|i: int| 0 <= i < stream.len() ==> pinches_not(#[trigger] stream[i]),
    ensures
        laws::run(t, chirality, stream).0.pinch_armed,
        laws::run(t, chirality, stream).0.grab is None,
        !laws::fires(laws::run(t, chirality, stream).1, Family::Pinch),
    decreases stream.len(),
{
    broadcast use laws::group_fires;

    if stream.len() > 0 {
        let shorter = stream.drop_last();
        let before = laws::run(t, chirality, shorter);
        let g = stream.last();
        assert forall|i: int| 0 <= i < shorter.len() implies pinches_not(#[trigger] shorter[i]) by {
            assert(shorter[i] == stream[i]);
        }
        armed_pinch_stays_armed(t, chirality, shorter);
        assert(g == stream[stream.len() - 1]);
        pinch_armed_of_a_frame(before.0, chirality, g);
        grab_of_a_frame(before.0, chirality, g);
        laws::pinch_fires_from_armed_and_disarms(before.0, chirality, g);
    }
}

/// The hand is in view and neither in nor near a fist.
pub open spec fn shows_open_hand(g: Glimpse) -> bool {
    match g.hand {
        Some(hand) => !hand.grab_strength.ge(g.tuning.grab_release) && !hand.grab_strength.ge(
            g.tuning.grab_trigger,
        ),
        None => false,
    }
}

/// A pinch fires however slowly the fingers close: once an open hand has shown its pinch strength
/// below the release threshold, and has since stayed in view without a fist and without a pinch,
/// the first frame that shows it open at or past the trigger fires.
pub proof fn released_pinch_fires_at_the_trigger(
    t: HandTracker,
    chirality: LeapChirality,
    release: Glimpse,
    stream: Seq<Glimpse>,
    g: Glimpse,
)
    requires
        t.grab is None,
        shows_open_hand(release),
        release.tuning.pinch_release.gt(release.hand->0.pinch_strength),
        !release.hand->0.pinch_strength.ge(release.tuning.pinch_trigger),
        forall|i: int| 0 <= i < stream.len() ==> pinches_not(#[trigger] stream[i]),
        g.hand is Some,
        !g.hand->0.grab_strength.ge(g.tuning.grab_release),
        g.hand->0.pinch_strength.ge(g.tuning.pinch_trigger),
    ensures
        ({
            let t1 = laws::glimpse_step(t, chirality, release).0;
            let t2 = laws::run(t1, chirality, stream).0;
            laws::glimpse_step(t2, chirality, g).1.contains(
                LeapGestureEvent::Pinch { hand: chirality },
            )
        }),
{
    let t1 = laws::glimpse_step(t, chirality, release).0;
    let t2 = laws::run(t1, chirality, stream).0;
    pinch_armed_of_a_frame(t, chirality, release);
    grab_of_a_frame(t, chirality, release);
    armed_pinch_stays_armed(t1, chirality, stream);
    laws::pinch_fires_from_armed_and_disarms(t2, chirality, g);
    let events = laws::glimpse_step(t2, chirality, g).1;
    let i = choose|i: int|
        0 <= i < events.len() && #[trigger] laws::in_family(events[i], Family::Pinch);
    laws::events_name_their_hand(t2, chirality, g);
    assert(events[i] == (LeapGestureEvent::Pinch { hand: chirality }));
}

/// The hand is in view, closes no fist and makes no stroke that could fire.
pub open spec fn swipes_not(g: Glimpse) -> bool {
    match g.hand {
        Some(hand) => {
            &&& !hand.grab_strength.ge(g.tuning.grab_trigger)
            &&& hand.grab_strength.ge(g.tuning.grab_release) || !fast(hand, g.tuning)
        },
        None => false,
    }
}

/// An armed swipe stays armed and silent for as long as the hand stays in view, makes no fist and
/// does not stroke.
pub proof fn armed_swipe_stays_armed(
    t: HandTracker,
    chirality: LeapChirality,
    stream: Seq<Glimpse>,
)
    requires
        t.swipe_armed,
        t.grab is None,
        forall|i: int| 0 <= i < stream.len() ==> swipes_not(#[trigger] stream[i]),
    ensures
        laws::run(t, chirality, stream).0.swipe_armed,
        laws::run(t, chirality, stream).0.grab is None,
        laws::run(t, chirality, stream).0.last_swipe == t.last_swipe,
    decreases stream.len(),
{
    if stream.len() > 0 {
        let shorter = stream.drop_last();
        let before = laws::run(t, chirality, shorter);
        let g = stream.last();
        assert forall|i: int| 0 <= i < shorter.len() implies swipes_not(#[trigger] shorter[i]) by {
            assert(shorter[i] == stream[i]);
        }
        armed_swipe_stays_armed(t, chirality, shorter);
        assert(g == stream[stream.len() - 1]);
        swipe_armed_of_a_frame(before.0, chirality, g);
        grab_of_a_frame(before.0, chirality, g);
    }
}

/// A swipe fires however slowly the palm speeds up: once an open hand has shown its palm below the
/// re-arm speed, and has since stayed in view without a fist and without a stroke, the first stroke
/// of the open hand fires in its direction, unless it winds back.
pub proof fn slow_palm_fires_at_the_stroke(
    t: HandTracker,
    chirality: LeapChirality,
    slow: Glimpse,
    stream: Seq<Glimpse>,
    g: Glimpse,
)
    requires
        t.grab is None,
        shows_open_hand(slow),
        slow.tuning.swipe_rearm_speed.gt(slow.hand->0.planar_speed),
        !fast(slow.hand->0, slow.tuning),
        forall|i: int| 0 <= i < stream.len() ==> swipes_not(#[trigger] stream[i]),
        g.hand is Some,
        !g.hand->0.grab_strength.ge(g.tuning.grab_release),
        fast(g.hand->0, g.tuning),
        !winds_back(t, g, heading(g.hand->0)),
    ensures
        ({
            let t1 = laws::glimpse_step(t, chirality, slow).0;
            let t2 = laws::run(t1, chirality, stream).0;
            laws::glimpse_step(t2, chirality, g).1.contains(
                LeapGestureEvent::Swipe { hand: chirality, direction: heading(g.hand->0) },
            )
        }),
{
    let t1 = laws::glimpse_step(t, chirality, slow).0;
    let t2 = laws::run(t1, chirality, stream).0;
    swipe_armed_of_a_frame(t, chirality, slow);
    grab_of_a_frame(t, chirality, slow);
    armed_swipe_stays_armed(t1, chirality, stream);
    swipe_stage(t2, chirality, g, g.hand->0, t2);
    laws::swipe_is_no_return_stroke(t2, chirality, g, heading(g.hand->0));
}

/// The hand is in view with `count` fingers extended, below the grab thresholds, below the pinch
/// release threshold, and on a palm no faster than a pose allows.
pub open spec fn poses(g: Glimpse, count: u8) -> bool {
    match g.hand {
        Some(hand) => {
            &&& fingers_up(hand) == count
            &&& !hand.grab_strength.ge(g.tuning.grab_release)
            &&& !hand.grab_strength.ge(g.tuning.grab_trigger)
            &&& !hand.pinch_strength.ge(g.tuning.pinch_release)
            &&& !hand.planar_speed.gt(g.tuning.pose_max_speed)
        },
        None => false,
    }
}

proof fn posing_runs_the_clock(
    t: HandTracker,
    chirality: LeapChirality,
    stream: Seq<Glimpse>,
    count: u8,
)
    requires
        t.grab is None,
        t.pose_candidate matches Some((shown, since)) ==> shown != count || since
            <= stream[0].now_us,
        stream.len() > 0,
        forall|i: int| 0 <= i < stream.len() ==> poses(#[trigger] stream[i], count),
    ensures
        ({
            let r = laws::run(t, chirality, stream);
            &&& r.0.grab is None
            &&& r.0.pose_candidate matches Some((shown, since)) && shown == count && since
                <= stream[0].now_us
            &&& r.0.pose_settled == t.pose_settled || r.0.pose_settled == Some(count) && (count
                >= 1 ==> r.1.contains(LeapGestureEvent::Pose { hand: chirality, fingers: count }))
        }),
    decreases stream.len(),
{
    let shorter = stream.drop_last();
    let before = laws::run(t, chirality, shorter);
    let g = stream.last();
    let event = LeapGestureEvent::Pose { hand: chirality, fingers: count };
    assert(g == stream[stream.len() - 1]);
    assert(poses(g, count));
    if stream.len() > 1 {
        assert forall|i: int| 0 <= i < shorter.len() implies poses(#[trigger] shorter[i], count) by {
            assert(shorter[i] == stream[i]);
        }
        posing_runs_the_clock(t, chirality, shorter, count);
        assert(shorter[0] == stream[0]);
    } else {
        assert(shorter =~= Seq::<Glimpse>::empty());
    }
    grab_of_a_frame(before.0, chirality, g);
    pose_memory_of_a_frame(before.0, chirality, g);
    settling_frame_fires(before.0, chirality, g, g.hand->0);
    laws::contains_concat(
        before.1,
        laws::glimpse_step(before.0, chirality, g).1,
        event,
    );
}

proof fn settling_frame_fires(
    t: HandTracker,
    chirality: LeapChirality,
    g: Glimpse,
    hand: LeapHandData,
)
    requires
        g.hand == Some(hand),
    ensures
        settles(t, g, hand) && fingers_up(hand) >= 1 ==> laws::glimpse_step(
            t,
            chirality,
            g,
        ).1.contains(
            LeapGestureEvent::Pose { hand: chirality, fingers: fingers_up(hand) as u8 },
        ),
{
    let event = LeapGestureEvent::Pose { hand: chirality, fingers: fingers_up(hand) as u8 };
    laws::pose_of_glimpse(t, chirality, g);
    let p = recognizer::presence_step(laws::kept(t, g), chirality, true, g.now_us, g.tuning).0;
    assert(!laws::kept(t, g).grabbing(hand, g.tuning) == open_handed(t, g, hand));
    pose_stage(t, chirality, g, hand, p);
    laws::contains_one(event, event);
    let posed = recognizer::pose_step(
        p,
        chirality,
        hand,
        laws::kept(t, g).grabbing(hand, g.tuning),
        g.now_us,
        g.tuning,
    );
    assert(posed.1 == pose_report(t, chirality, g, hand));
}

/// A count of at least one extended finger that is not yet settled fires a pose with that count
/// when it is held for the settle interval below the thresholds of grab, pinch and palm speed,
/// whatever count was shown before.
pub proof fn held_count_fires_its_pose(
    t: HandTracker,
    chirality: LeapChirality,
    stream: Seq<Glimpse>,
    count: u8,
)
    requires
        t.grab is None,
        t.pose_candidate matches Some((shown, since)) ==> shown != count || since
            <= stream[0].now_us,
        t.pose_settled != Some(count),
        count >= 1,
        stream.len() > 1,
        forall|i: int| 0 <= i < stream.len() ==> poses(#[trigger] stream[i], count),
        stream.last().now_us - stream[0].now_us >= stream.last().tuning.pose_settle_us,
    ensures
        laws::run(t, chirality, stream).1.contains(
            LeapGestureEvent::Pose { hand: chirality, fingers: count },
        ),
        laws::run(t, chirality, stream).0.pose_settled == Some(count),
{
    let shorter = stream.drop_last();
    let before = laws::run(t, chirality, shorter);
    let g = stream.last();
    let event = LeapGestureEvent::Pose { hand: chirality, fingers: count };
    assert(g == stream[stream.len() - 1]);
    assert(poses(g, count));
    assert forall|i: int| 0 <= i < shorter.len() implies poses(#[trigger] shorter[i], count) by {
        assert(shorter[i] == stream[i]);
    }
    posing_runs_the_clock(t, chirality, shorter, count);
    assert(shorter[0] == stream[0]);
    grab_of_a_frame(before.0, chirality, g);
    pose_memory_of_a_frame(before.0, chirality, g);
    settling_frame_fires(before.0, chirality, g, g.hand->0);
    laws::contains_concat(
        before.1,
        laws::glimpse_step(before.0, chirality, g).1,
        event,
    );
}

/// Of several entries of a hand in a frame the first counts; entries of the other hand don't.
pub proof fn first_entry_of_a_hand_counts(hands: Seq<LeapHandData>, chirality: LeapChirality)
    ensures
        match recognizer::first_hand(hands, chirality) {
            Some(hand) => exists|i: int|
                0 <= i < hands.len() && #[trigger] hands[i] == hand && hand.chirality == chirality
                    && forall|k: int|
                    0 <= k < i ==> (#[trigger] hands[k]).chirality != chirality,
            None => forall|k: int|
                0 <= k < hands.len() ==> (#[trigger] hands[k]).chirality != chirality,
        },
    decreases hands.len(),
{
    if hands.len() > 0 {
        let rest = hands.drop_first();
        first_entry_of_a_hand_counts(rest, chirality);
        if hands[0].chirality == chirality {
            assert(hands[0] == recognizer::first_hand(hands, chirality)->0);
        } else {
            match recognizer::first_hand(rest, chirality) {
                Some(hand) => {
                    let i = choose|i: int|
                        0 <= i < rest.len() && #[trigger] rest[i] == hand && hand.chirality
                            == chirality && forall|k: int|
                            0 <= k < i ==> (#[trigger] rest[k]).chirality != chirality;
                    assert(hands[i + 1] == hand);
                    assert forall|k: int| 0 <= k < i + 1 implies (
                    #[trigger] hands[k]).chirality != chirality by {
                        if k > 0 {
                            assert(rest[k - 1] == hands[k]);
                        }
                    }
                },
                None => {
                    assert forall|k: int| 0 <= k < hands.len() implies (
                    #[trigger] hands[k]).chirality != chirality by {
                        if k > 0 {
                            assert(rest[k - 1] == hands[k]);
                        }
                    }
                },
            }
        }
    }
}

/// A frame advances each hand by its own tracker, its own entry and the frame's time.
pub proof fn each_hand_has_its_own_tracker(
    state: LeapGestureState,
    frame: LeapFrame,
    tuning: LeapTuning,
)
    ensures
        state.step_of(LeapChirality::Left, frame, tuning) == laws::glimpse_step(
            state.left,
            LeapChirality::Left,
            Glimpse {
                hand: recognizer::first_hand(frame.hands@, LeapChirality::Left),
                now_us: frame.timestamp_us,
                tuning,
            },
        ),
        state.step_of(LeapChirality::Right, frame, tuning) == laws::glimpse_step(
            state.right,
            LeapChirality::Right,
            Glimpse {
                hand: recognizer::first_hand(frame.hands@, LeapChirality::Right),
                now_us: frame.timestamp_us,
                tuning,
            },
        ),
{
}

/// A fired swipe goes where the palm goes: sideways if the palm moves faster along x than along
/// y, at the trigger speed at least, else up or down at the vertical trigger speed at least; right
/// and up for a positive velocity, left and down for a negative one.
pub proof fn swipe_goes_where_the_palm_goes(
    t: HandTracker,
    chirality: LeapChirality,
    g: Glimpse,
    direction: SwipeDirection,
)
    requires
        laws::glimpse_step(t, chirality, g).1.contains(
            LeapGestureEvent::Swipe { hand: chirality, direction },
        ),
    ensures
        g.hand is Some,
        t.swipe_armed,
        ({
            let vx = g.hand->0.palm_velocity[0];
            let vy = g.hand->0.palm_velocity[1];
            let trigger = g.tuning.swipe_trigger_speed.rank();
            let vertical = g.tuning.swipe_vertical_speed.rank();
            &&& !vx.nan() && !vy.nan()
            &&& direction is Right ==> vx.rank() > vy.rank() && vx.rank() > -vy.rank() && vx.rank()
                >= trigger
            &&& direction is Left ==> -vx.rank() > vy.rank() && -vx.rank() > -vy.rank()
                && -vx.rank() >= trigger
            &&& direction is Up ==> vy.rank() > vx.rank() && vy.rank() > -vx.rank() && vy.rank()
                >= vertical
            &&& direction is Down ==> -vy.rank() > vx.rank() && -vy.rank() > -vx.rank()
                && -vy.rank() >= vertical
        }),
{
    laws::swipe_is_no_return_stroke(t, chirality, g, direction);
    let zero = Measure { bits: 0 };
    assert(!zero.nan() && zero.rank() == 0);
    laws::swipe_fires_from_armed_and_disarms(t, chirality, g);
}

/// Two frames that differ in the sign of the palm's velocity fire swipes in opposite directions.
pub proof fn mirrored_palm_swipes_the_other_way(
    t: HandTracker,
    chirality: LeapChirality,
    a: Glimpse,
    b: Glimpse,
    direction_a: SwipeDirection,
    direction_b: SwipeDirection,
)
    requires
        a.hand is Some && b.hand is Some,
        a.hand->0.palm_velocity[0].rank() == -b.hand->0.palm_velocity[0].rank(),
        a.hand->0.palm_velocity[1].rank() == -b.hand->0.palm_velocity[1].rank(),
        laws::glimpse_step(t, chirality, a).1.contains(
            LeapGestureEvent::Swipe { hand: chirality, direction: direction_a },
        ),
        laws::glimpse_step(t, chirality, b).1.contains(
            LeapGestureEvent::Swipe { hand: chirality, direction: direction_b },
        ),
    ensures
        direction_a is Left <==> direction_b is Right,
        direction_a is Right <==> direction_b is Left,
        direction_a is Up <==> direction_b is Down,
        direction_a is Down <==> direction_b is Up,
{
    swipe_goes_where_the_palm_goes(t, chirality, a, direction_a);
    swipe_goes_where_the_palm_goes(t, chirality, b, direction_b);
}

/// A drag begins along the axis that leads: no other axis has a larger weighted displacement than
/// it, the vertical axis leads both others, and depth leads the horizontal axis.
pub proof fn drag_begins_along_the_leading_axis(
    t: HandTracker,
    chirality: LeapChirality,
    g: Glimpse,
    hand: LeapHandData,
    axis: LeapAxis,
)
    requires
        g.hand == Some(hand),
        !hand.drag.dx.nan(),
        !hand.drag.weighted_dy.nan(),
        !hand.drag.weighted_dz.nan(),
        laws::glimpse_step(t, chirality, g).1.contains(
            LeapGestureEvent::GrabBegin { hand: chirality, axis },
        ),
    ensures
        ({
            let x = if hand.drag.dx.rank() >= 0 {
                hand.drag.dx.rank()
            } else {
                -hand.drag.dx.rank()
            };
            let y = hand.drag.weighted_dy.rank();
            let z = hand.drag.weighted_dz.rank();
            &&& axis is Horizontal ==> x >= y && x >= z
            &&& axis is Vertical ==> y > x && y > z
            &&& axis is Depth ==> z > x && z >= y
        }),
{
    begin_is_the_dominant_axis(t, chirality, g, hand, axis);
}

#[verifier::rlimit(30)]
proof fn begin_is_the_dominant_axis(
    t: HandTracker,
    chirality: LeapChirality,
    g: Glimpse,
    hand: LeapHandData,
    axis: LeapAxis,
)
    requires
        g.hand == Some(hand),
        laws::glimpse_step(t, chirality, g).1.contains(
            LeapGestureEvent::GrabBegin { hand: chirality, axis },
        ),
    ensures
        axis == recognizer::dominant_axis(hand.drag),
{
    broadcast use laws::group_contains;

}

} // verus!
