//! The hysteresis state machine: frames in, events out.

use crate::leap_gesture::types::{
    opposite_direction, DragReading, DragReference, LeapAxis, LeapChirality, LeapFrame,
    LeapGestureEvent, LeapHandData, LeapPresenceEvent, LeapTuning, SwipeDirection,
};
use crate::measure::Measure;
use vstd::prelude::*;

verus! {

/// How long an active grab survives the hand dropping out of tracking. A fully closed fist is the
/// hardest pose for the sensor and routinely flickers out for a frame or two; without this grace
/// the drag anchor resets (or the drag dies) on every dropout. If the hand stays gone longer than
/// this, the grab ends.
pub const GRAB_LOSS_GRACE_US: i64 = 200_000;

/// A grab-drag in progress.
#[derive(Debug, Clone, Copy)]
pub struct GrabState {
    /// When the fist closed (grab strength crossed the trigger).
    pub triggered_us: i64,
    /// Drag anchor, captured `grab_settle_us` after the trigger so the palm-position shift from
    /// the fingers curling doesn't count as displacement. `None` while settling.
    pub anchor: Option<[Measure; 3]>,
    /// Set once displacement exceeds the axis-latch distance: the locked axis and the
    /// displacement reported in the previous `GrabUpdate`.
    pub latched: Option<(LeapAxis, Measure)>,
}

/// Per-hand recognition state.
#[derive(Debug, Clone, Copy)]
pub struct HandTracker {
    /// Debounced presence (what `Presence` events report).
    pub visible: bool,
    /// Raw presence as of the last frame.
    pub raw_visible: bool,
    /// Timestamp of the last raw presence flip.
    pub raw_since_us: i64,
    /// Timestamp of the last frame that actually contained this hand.
    pub last_seen_us: i64,
    /// Pinch can fire. Arms when strength drops below the release threshold, so a hand entering
    /// the view mid-pinch doesn't fire.
    pub pinch_armed: bool,
    /// Swipe can fire. Arms when the palm slows below the re-arm speed, so a hand entering the
    /// view at speed doesn't fire.
    pub swipe_armed: bool,
    /// Direction and timestamp of the last fired swipe, for return-stroke suppression.
    pub last_swipe: Option<(SwipeDirection, i64)>,
    pub grab: Option<GrabState>,
    /// Pose candidate: an extended-finger count and when it became the candidate. Resets whenever
    /// the count changes, the palm moves faster than `pose_max_speed`, the hand pinches, or a
    /// grab is in progress: the settle clock only runs on a still, idle hand.
    pub pose_candidate: Option<(u8, i64)>,
    /// The last count that completed a settle (0..=5; 0 settles silently, it's a fist). A `Pose`
    /// event fires only when a settling count differs from this. Cleared on debounced hand loss.
    pub pose_settled: Option<u8>,
}

impl HandTracker {
    /// A hand that was never seen.
    pub open spec fn initial() -> HandTracker {
        HandTracker {
            visible: false,
            raw_visible: false,
            raw_since_us: 0,
            last_seen_us: 0,
            pinch_armed: false,
            swipe_armed: false,
            last_swipe: None,
            grab: None,
            pose_candidate: None,
            pose_settled: None,
        }
    }

    /// A latched drag has an anchor, and counts of extended fingers are at most 5.
    pub open spec fn wf(self) -> bool {
        &&& self.grab matches Some(grab) ==> grab.latched is Some ==> grab.anchor is Some
        &&& self.pose_candidate matches Some((count, since)) ==> count <= 5
        &&& self.pose_settled matches Some(count) ==> count <= 5
    }

    /// The axis of the drag that has begun and not yet ended.
    pub open spec fn latched_axis(self) -> Option<LeapAxis> {
        match self.grab {
            Some(grab) => match grab.latched {
                Some((axis, total)) => Some(axis),
                None => None,
            },
            None => None,
        }
    }

    /// What the next drag reading is measured against, if anything.
    pub open spec fn reference(self) -> Option<DragReference> {
        match self.grab {
            Some(grab) => match grab.anchor {
                Some(anchor) => Some(DragReference { anchor, latched: grab.latched }),
                None => None,
            },
            None => None,
        }
    }

    /// The grab is lost: the hand is out of view, or was in the last frame, and it was last seen
    /// longer than the grace period ago. Frames that are far apart lose no grab of a hand that is
    /// in all of them.
    pub open spec fn lost(self, present: bool, now_us: i64) -> bool {
        &&& self.grab is Some
        &&& !present || !self.raw_visible
        &&& now_us - self.last_seen_us > GRAB_LOSS_GRACE_US
    }

    /// The hand is in or near a fist.
    pub open spec fn grabbing(self, hand: LeapHandData, tuning: LeapTuning) -> bool {
        self.grab is Some || hand.grab_strength.ge(tuning.grab_release)
    }
}

impl Default for HandTracker {
    fn default() -> (tracker: HandTracker)
        ensures
            tracker == HandTracker::initial(),
            !tracker.visible && !tracker.raw_visible,
            tracker.raw_since_us == 0 && tracker.last_seen_us == 0,
            !tracker.pinch_armed && !tracker.swipe_armed,
            tracker.last_swipe is None && tracker.grab is None,
            tracker.pose_candidate is None && tracker.pose_settled is None,
    {
        HandTracker {
            visible: false,
            raw_visible: false,
            raw_since_us: 0,
            last_seen_us: 0,
            pinch_armed: false,
            swipe_armed: false,
            last_swipe: None,
            grab: None,
            pose_candidate: None,
            pose_settled: None,
        }
    }
}

/// A tracker together with the events that led to it.
pub type Outcome = (HandTracker, Seq<LeapGestureEvent>);

/// Raw presence flips immediately; the debounced state (and the `Presence` event) follows only
/// after the raw state has held for the debounce interval, filtering tracking flicker at the view
/// edge. A debounced loss forgets the settled pose: a hand re-entering the view holding up N
/// fingers should fire even if N was the last pose before it left.
pub open spec fn presence_step(
    t: HandTracker,
    chirality: LeapChirality,
    raw: bool,
    now_us: i64,
    tuning: LeapTuning,
) -> Outcome {
    let since = if raw == t.raw_visible { t.raw_since_us } else { now_us };
    if raw != t.visible && now_us - since >= tuning.presence_debounce_us {
        (
            HandTracker {
                raw_visible: raw,
                raw_since_us: since,
                visible: raw,
                pose_settled: if raw { t.pose_settled } else { None },
                ..t
            },
            seq![LeapGestureEvent::Presence {
                hand: chirality,
                event: if raw { LeapPresenceEvent::Appear } else { LeapPresenceEvent::Vanish },
            }],
        )
    } else {
        (HandTracker { raw_visible: raw, raw_since_us: since, ..t }, seq![])
    }
}

/// A grab whose hand is gone, or comes back, longer than the grace period after it was last seen
/// ends; the drag it had begun is reported to end.
pub open spec fn loss_step(
    t: HandTracker,
    chirality: LeapChirality,
    present: bool,
    now_us: i64,
) -> Outcome {
    if t.lost(present, now_us) {
        (
            HandTracker { grab: None, ..t },
            match t.latched_axis() {
                Some(axis) => seq![LeapGestureEvent::GrabEnd { hand: chirality, axis }],
                None => seq![],
            },
        )
    } else {
        (t, seq![])
    }
}

/// The hand is out of view: pinch and swipe disarm and the settle clock stops.
pub open spec fn absence_step(t: HandTracker) -> HandTracker {
    HandTracker { pinch_armed: false, swipe_armed: false, pose_candidate: None, ..t }
}

/// Pinch fires when armed and at or past the trigger, and arms below the release. Neither
/// happens in or near a fist: a closing fist drives the pinch strength up too.
pub open spec fn pinch_step(
    t: HandTracker,
    chirality: LeapChirality,
    hand: LeapHandData,
    grabbing: bool,
    tuning: LeapTuning,
) -> Outcome {
    if t.pinch_armed && !grabbing && hand.pinch_strength.ge(tuning.pinch_trigger) {
        (
            HandTracker { pinch_armed: false, ..t },
            seq![LeapGestureEvent::Pinch { hand: chirality }],
        )
    } else if !t.pinch_armed && !grabbing && tuning.pinch_release.gt(hand.pinch_strength) {
        (HandTracker { pinch_armed: true, ..t }, seq![])
    } else {
        (t, seq![])
    }
}

/// The direction in which the palm moves fast enough to swipe. The dominant axis must
/// individually reach its trigger speed; vertical has one of its own, because hands enter and
/// leave the view cone vertically.
pub open spec fn stroke(hand: LeapHandData, tuning: LeapTuning) -> Option<SwipeDirection> {
    let vx = hand.palm_velocity[0];
    let vy = hand.palm_velocity[1];
    let zero = Measure { bits: 0 };
    if vx.unsigned().gt(vy.unsigned()) && vx.unsigned().ge(tuning.swipe_trigger_speed) {
        Some(if vx.gt(zero) { SwipeDirection::Right } else { SwipeDirection::Left })
    } else if vy.unsigned().gt(vx.unsigned()) && vy.unsigned().ge(tuning.swipe_vertical_speed) {
        Some(if vy.gt(zero) { SwipeDirection::Up } else { SwipeDirection::Down })
    } else {
        None
    }
}

/// A stroke that only winds the hand back: opposite to the last fired swipe, within the return
/// window.
pub open spec fn return_stroke(
    t: HandTracker,
    direction: SwipeDirection,
    now_us: i64,
    tuning: LeapTuning,
) -> bool {
    match t.last_swipe {
        Some((last_direction, last_us)) => {
            &&& last_direction == crate::leap_gesture::types::spec_opposite_direction(direction)
            &&& now_us - last_us <= tuning.swipe_return_window_us
        },
        None => false,
    }
}

/// An armed stroke disarms, and fires unless it is a return stroke: chaining swipes in one
/// direction means winding the hand back between strokes, and the wind-back is itself a fast
/// movement. Arms again once the palm slows below the re-arm speed. Neither happens in or
/// near a fist.
pub open spec fn swipe_step(
    t: HandTracker,
    chirality: LeapChirality,
    hand: LeapHandData,
    grabbing: bool,
    now_us: i64,
    tuning: LeapTuning,
) -> Outcome {
    match stroke(hand, tuning) {
        Some(direction) if t.swipe_armed && !grabbing => {
            if return_stroke(t, direction, now_us, tuning) {
                (HandTracker { swipe_armed: false, ..t }, seq![])
            } else {
                (
                    HandTracker {
                        swipe_armed: false,
                        last_swipe: Some((direction, now_us)),
                        ..t
                    },
                    seq![LeapGestureEvent::Swipe { hand: chirality, direction }],
                )
            }
        },
        _ => {
            if !t.swipe_armed && !grabbing && tuning.swipe_rearm_speed.gt(hand.planar_speed) {
                (HandTracker { swipe_armed: true, ..t }, seq![])
            } else {
                (t, seq![])
            }
        },
    }
}

/// The settle clock may not run: the hand grabs, pinches or moves. A held thumb-to-index pinch
/// leaves the other three digits extended, so without the pinch gate every pinch would settle a
/// phantom 3-finger pose.
pub open spec fn restless(hand: LeapHandData, grabbing: bool, tuning: LeapTuning) -> bool {
    grabbing || hand.pinch_strength.ge(tuning.pinch_release) || hand.planar_speed.gt(
        tuning.pose_max_speed,
    )
}

/// A candidate count settles after the settle interval on a hand that is not restless. A settling
/// count fires only if it differs from the previous settled count, and 0 (a fist) settles
/// silently.
pub open spec fn pose_step(
    t: HandTracker,
    chirality: LeapChirality,
    hand: LeapHandData,
    grabbing: bool,
    now_us: i64,
    tuning: LeapTuning,
) -> Outcome {
    let count = hand.extended() as u8;
    if restless(hand, grabbing, tuning) {
        (HandTracker { pose_candidate: None, ..t }, seq![])
    } else {
        match t.pose_candidate {
            Some((candidate, since)) if candidate == count => {
                if t.pose_settled != Some(count) && now_us - since >= tuning.pose_settle_us {
                    (
                        HandTracker { pose_settled: Some(count), ..t },
                        if count >= 1 {
                            seq![LeapGestureEvent::Pose { hand: chirality, fingers: count }]
                        } else {
                            seq![]
                        },
                    )
                } else {
                    (t, seq![])
                }
            },
            _ => (HandTracker { pose_candidate: Some((count, now_us)), ..t }, seq![]),
        }
    }
}

/// The axis that wins the three-way race on weighted magnitudes. Ties go to horizontal.
pub open spec fn dominant_axis(drag: DragReading) -> LeapAxis {
    let sx = drag.dx.unsigned();
    if drag.weighted_dy.gt(sx) && drag.weighted_dy.gt(drag.weighted_dz) {
        LeapAxis::Vertical
    } else if drag.weighted_dz.gt(sx) {
        LeapAxis::Depth
    } else {
        LeapAxis::Horizontal
    }
}

/// Signed displacement along an axis. The device's z axis grows toward the user; it is flipped so
/// that positive means pushing the fist away.
pub open spec fn total_along(axis: LeapAxis, drag: DragReading) -> Measure {
    match axis {
        LeapAxis::Horizontal => drag.dx,
        LeapAxis::Vertical => drag.dy,
        LeapAxis::Depth => drag.dz.flipped(),
    }
}

/// One frame of a fist that stays closed: capture the anchor once settled, latch an axis once the
/// palm has moved farther than the latch distance (re-anchoring at the latch point so that
/// progress starts at zero), then report every change along that axis.
pub open spec fn drag_step(
    grab: GrabState,
    chirality: LeapChirality,
    hand: LeapHandData,
    now_us: i64,
    tuning: LeapTuning,
) -> (GrabState, Seq<LeapGestureEvent>) {
    let zero = Measure { bits: 0 };
    if grab.anchor is None {
        if now_us - grab.triggered_us >= tuning.grab_settle_us {
            (GrabState { anchor: Some(hand.palm_position), ..grab }, seq![])
        } else {
            (grab, seq![])
        }
    } else {
        match grab.latched {
            None => {
                if hand.drag.distance.gt(tuning.grab_axis_latch_mm) {
                    let axis = dominant_axis(hand.drag);
                    (
                        GrabState {
                            anchor: Some(hand.palm_position),
                            latched: Some((axis, zero)),
                            ..grab
                        },
                        seq![LeapGestureEvent::GrabBegin { hand: chirality, axis }],
                    )
                } else {
                    (grab, seq![])
                }
            },
            Some((axis, last_total)) => {
                if hand.drag.delta.same(zero) {
                    (grab, seq![])
                } else {
                    let total_mm = total_along(axis, hand.drag);
                    (
                        GrabState { latched: Some((axis, total_mm)), ..grab },
                        seq![
                            LeapGestureEvent::GrabUpdate {
                                hand: chirality,
                                axis,
                                delta_mm: hand.drag.delta,
                                total_mm,
                            },
                        ],
                    )
                }
            },
        }
    }
}

/// A fist closes at the trigger and opens at the release. Closing it disarms pinch and swipe so
/// they re-arm cleanly after release.
pub open spec fn grab_step(
    t: HandTracker,
    chirality: LeapChirality,
    hand: LeapHandData,
    now_us: i64,
    tuning: LeapTuning,
) -> Outcome {
    match t.grab {
        None => {
            if hand.grab_strength.ge(tuning.grab_trigger) {
                (
                    HandTracker {
                        grab: Some(
                            GrabState { triggered_us: now_us, anchor: None, latched: None },
                        ),
                        pinch_armed: false,
                        swipe_armed: false,
                        ..t
                    },
                    seq![],
                )
            } else {
                (t, seq![])
            }
        },
        Some(grab) => {
            if tuning.grab_release.ge(hand.grab_strength) {
                (
                    HandTracker { grab: None, ..t },
                    match t.latched_axis() {
                        Some(axis) => seq![LeapGestureEvent::GrabEnd { hand: chirality, axis }],
                        None => seq![],
                    },
                )
            } else {
                let (next, events) = drag_step(grab, chirality, hand, now_us, tuning);
                (HandTracker { grab: Some(next), ..t }, events)
            }
        },
    }
}

/// One frame of a hand that is in view, after its presence was taken in.
pub open spec fn sighting_step(
    t: HandTracker,
    chirality: LeapChirality,
    hand: LeapHandData,
    now_us: i64,
    tuning: LeapTuning,
) -> Outcome {
    let grabbing = t.grabbing(hand, tuning);
    let pinch = pinch_step(
        HandTracker { last_seen_us: now_us, ..t },
        chirality,
        hand,
        grabbing,
        tuning,
    );
    let swipe = swipe_step(pinch.0, chirality, hand, grabbing, now_us, tuning);
    let pose = pose_step(swipe.0, chirality, hand, grabbing, now_us, tuning);
    let grab = grab_step(pose.0, chirality, hand, now_us, tuning);
    (grab.0, pinch.1 + swipe.1 + pose.1 + grab.1)
}

/// One frame of one hand: its presence, the loss of its grab, then what it does in or out of view.
pub open spec fn hand_step(
    t: HandTracker,
    chirality: LeapChirality,
    hand: Option<LeapHandData>,
    now_us: i64,
    tuning: LeapTuning,
) -> Outcome {
    let loss = loss_step(t, chirality, hand is Some, now_us);
    let presence = presence_step(loss.0, chirality, hand is Some, now_us, tuning);
    let rest = match hand {
        Some(hand) => sighting_step(presence.0, chirality, hand, now_us, tuning),
        None => (absence_step(presence.0), seq![]),
    };
    (rest.0, presence.1 + loss.1 + rest.1)
}

/// The first entry of a hand in a frame.
pub open spec fn first_hand(hands: Seq<LeapHandData>, chirality: LeapChirality) -> Option<
    LeapHandData,
>
    decreases hands.len(),
{
    if hands.len() == 0 {
        None
    } else if hands[0].chirality == chirality {
        Some(hands[0])
    } else {
        first_hand(hands.drop_first(), chirality)
    }
}

/// Appending one list after another appends their concatenation.
proof fn append_append(
    base: Seq<LeapGestureEvent>,
    first: Seq<LeapGestureEvent>,
    second: Seq<LeapGestureEvent>,
)
    ensures
        base + first + second == base + (first + second),
{
    assert(base + first + second =~= base + (first + second));
}

/// `at_us` lies at least `interval_us` before `now_us`.
fn elapsed(now_us: i64, at_us: i64, interval_us: i64) -> (r: bool)
    ensures
        r == (now_us - at_us >= interval_us),
{
    now_us as i128 - at_us as i128 >= interval_us as i128
}

/// [`total_along`], for whoever measures the next [`DragReading`].
pub fn drag_total(axis: LeapAxis, drag: &DragReading) -> (total: Measure)
    ensures
        total == total_along(axis, *drag),
        axis is Horizontal ==> total == drag.dx,
        axis is Vertical ==> total == drag.dy,
        axis is Depth ==> total.rank() == -drag.dz.rank() && total.nan() == drag.dz.nan(),
{
    match axis {
        LeapAxis::Horizontal => drag.dx,
        LeapAxis::Vertical => drag.dy,
        LeapAxis::Depth => drag.dz.neg(),
    }
}

fn drag_axis(drag: &DragReading) -> (axis: LeapAxis)
    ensures
        axis == dominant_axis(*drag),
{
    let sx = drag.dx.abs();
    if drag.weighted_dy.above(sx) && drag.weighted_dy.above(drag.weighted_dz) {
        LeapAxis::Vertical
    } else if drag.weighted_dz.above(sx) {
        LeapAxis::Depth
    } else {
        LeapAxis::Horizontal
    }
}

fn swipe_stroke(hand: &LeapHandData, tuning: &LeapTuning) -> (direction: Option<SwipeDirection>)
    ensures
        direction == stroke(*hand, *tuning),
{
    let vx = hand.palm_velocity[0];
    let vy = hand.palm_velocity[1];
    let speed_x = vx.abs();
    let speed_y = vy.abs();
    let zero = Measure::zero();
    if speed_x.above(speed_y) && speed_x.at_least(tuning.swipe_trigger_speed) {
        if vx.above(zero) {
            Some(SwipeDirection::Right)
        } else {
            Some(SwipeDirection::Left)
        }
    } else if speed_y.above(speed_x) && speed_y.at_least(tuning.swipe_vertical_speed) {
        if vy.above(zero) {
            Some(SwipeDirection::Up)
        } else {
            Some(SwipeDirection::Down)
        }
    } else {
        None
    }
}

impl HandTracker {
    fn advance_presence(
        &mut self,
        chirality: LeapChirality,
        raw: bool,
        now_us: i64,
        tuning: &LeapTuning,
        out: &mut Vec<LeapGestureEvent>,
    )
        ensures
            *final(self) == presence_step(*old(self), chirality, raw, now_us, *tuning).0,
            final(out)@ == old(out)@ + presence_step(
                *old(self),
                chirality,
                raw,
                now_us,
                *tuning,
            ).1,
    {
        if raw != self.raw_visible {
            self.raw_visible = raw;
            self.raw_since_us = now_us;
        }
        if raw != self.visible && elapsed(now_us, self.raw_since_us, tuning.presence_debounce_us) {
            self.visible = raw;
            if !raw {
                self.pose_settled = None;
            }
            let event = if raw { LeapPresenceEvent::Appear } else { LeapPresenceEvent::Vanish };
            out.push(LeapGestureEvent::Presence { hand: chirality, event });
        }
    }

    /// Ends a lost grab; the drag it had begun, if any.
    fn advance_loss(&mut self, chirality: LeapChirality, present: bool, now_us: i64) -> (ended:
        Option<LeapGestureEvent>)
        ensures
            *final(self) == loss_step(*old(self), chirality, present, now_us).0,
            match ended {
                Some(event) => loss_step(*old(self), chirality, present, now_us).1 == seq![event],
                None => loss_step(*old(self), chirality, present, now_us).1
                    == Seq::<LeapGestureEvent>::empty(),
            },
    {
        let mut ended: Option<LeapGestureEvent> = None;
        if let Some(grab) = self.grab {
            let gone = !present || !self.raw_visible;
            if gone && now_us as i128 - self.last_seen_us as i128 > GRAB_LOSS_GRACE_US as i128 {
                if let Some((axis, _)) = grab.latched {
                    ended = Some(LeapGestureEvent::GrabEnd { hand: chirality, axis });
                }
                self.grab = None;
            }
        }
        ended
    }

    fn advance_absence(&mut self)
        ensures
            *final(self) == absence_step(*old(self)),
    {
        self.pinch_armed = false;
        self.swipe_armed = false;
        self.pose_candidate = None;
    }

    fn advance_pinch(
        &mut self,
        chirality: LeapChirality,
        hand: &LeapHandData,
        grabbing: bool,
        tuning: &LeapTuning,
        out: &mut Vec<LeapGestureEvent>,
    )
        ensures
            *final(self) == pinch_step(*old(self), chirality, *hand, grabbing, *tuning).0,
            final(out)@ == old(out)@ + pinch_step(
                *old(self),
                chirality,
                *hand,
                grabbing,
                *tuning,
            ).1,
    {
        if self.pinch_armed && !grabbing && hand.pinch_strength.at_least(tuning.pinch_trigger) {
            self.pinch_armed = false;
            out.push(LeapGestureEvent::Pinch { hand: chirality });
        } else if !self.pinch_armed && tuning.pinch_release.above(hand.pinch_strength)
            && !grabbing {
            self.pinch_armed = true;
        }
    }

    fn advance_swipe(
        &mut self,
        chirality: LeapChirality,
        hand: &LeapHandData,
        grabbing: bool,
        now_us: i64,
        tuning: &LeapTuning,
        out: &mut Vec<LeapGestureEvent>,
    )
        ensures
            *final(self) == swipe_step(*old(self), chirality, *hand, grabbing, now_us, *tuning).0,
            final(out)@ == old(out)@ + swipe_step(
                *old(self),
                chirality,
                *hand,
                grabbing,
                now_us,
                *tuning,
            ).1,
    {
        if self.swipe_armed {
            if !grabbing {
                if let Some(direction) = swipe_stroke(hand, tuning) {
                    self.swipe_armed = false;
                    let winds_back = match self.last_swipe {
                        Some((last_direction, last_us)) => {
                            last_direction == opposite_direction(direction) && now_us as i128
                                - last_us as i128 <= tuning.swipe_return_window_us as i128
                        },
                        None => false,
                    };
                    if !winds_back {
                        self.last_swipe = Some((direction, now_us));
                        out.push(LeapGestureEvent::Swipe { hand: chirality, direction });
                    }
                }
            }
        } else if tuning.swipe_rearm_speed.above(hand.planar_speed) && !grabbing {
            self.swipe_armed = true;
        }
    }

    fn advance_pose(
        &mut self,
        chirality: LeapChirality,
        hand: &LeapHandData,
        grabbing: bool,
        now_us: i64,
        tuning: &LeapTuning,
        out: &mut Vec<LeapGestureEvent>,
    )
        ensures
            *final(self) == pose_step(*old(self), chirality, *hand, grabbing, now_us, *tuning).0,
            final(out)@ == old(out)@ + pose_step(
                *old(self),
                chirality,
                *hand,
                grabbing,
                now_us,
                *tuning,
            ).1,
    {
        let count: u8 = hand.extended_count();
        let pinching = hand.pinch_strength.at_least(tuning.pinch_release);
        if grabbing || pinching || hand.planar_speed.above(tuning.pose_max_speed) {
            self.pose_candidate = None;
            return;
        }
        let settling: Option<i64> = match self.pose_candidate {
            Some((candidate, since)) => if candidate == count {
                Some(since)
            } else {
                None
            },
            None => None,
        };
        match settling {
            Some(since) => {
                let repeated = match self.pose_settled {
                    Some(settled) => settled == count,
                    None => false,
                };
                if !repeated && elapsed(now_us, since, tuning.pose_settle_us) {
                    self.pose_settled = Some(count);
                    if count >= 1 {
                        out.push(LeapGestureEvent::Pose { hand: chirality, fingers: count });
                    }
                }
            },
            None => {
                self.pose_candidate = Some((count, now_us));
            },
        }
    }

    fn advance_grab(
        &mut self,
        chirality: LeapChirality,
        hand: &LeapHandData,
        now_us: i64,
        tuning: &LeapTuning,
        out: &mut Vec<LeapGestureEvent>,
    )
        ensures
            *final(self) == grab_step(*old(self), chirality, *hand, now_us, *tuning).0,
            final(out)@ == old(out)@ + grab_step(
                *old(self),
                chirality,
                *hand,
                now_us,
                *tuning,
            ).1,
    {
        let mut grab: GrabState = match self.grab {
            Some(grab) => grab,
            None => {
                if hand.grab_strength.at_least(tuning.grab_trigger) {
                    self.grab = Some(
                        GrabState { triggered_us: now_us, anchor: None, latched: None },
                    );
                    self.pinch_armed = false;
                    self.swipe_armed = false;
                }
                return;
            },
        };
        if hand.grab_strength.at_most(tuning.grab_release) {
            if let Some((axis, _)) = grab.latched {
                out.push(LeapGestureEvent::GrabEnd { hand: chirality, axis });
            }
            self.grab = None;
            return;
        }
        if grab.anchor.is_none() {
            // The fingers curling into the fist shift the tracked palm position, mostly
            // vertically; that must not count as displacement.
            if elapsed(now_us, grab.triggered_us, tuning.grab_settle_us) {
                grab.anchor = Some(hand.palm_position);
            }
        } else {
            match grab.latched {
                None => {
                    if hand.drag.distance.above(tuning.grab_axis_latch_mm) {
                        let axis = drag_axis(&hand.drag);
                        grab.latched = Some((axis, Measure::zero()));
                        grab.anchor = Some(hand.palm_position);
                        out.push(LeapGestureEvent::GrabBegin { hand: chirality, axis });
                    }
                },
                Some((axis, _)) => {
                    if !hand.drag.delta.equals(Measure::zero()) {
                        let total = drag_total(axis, &hand.drag);
                        grab.latched = Some((axis, total));
                        out.push(
                            LeapGestureEvent::GrabUpdate {
                                hand: chirality,
                                axis,
                                delta_mm: hand.drag.delta,
                                total_mm: total,
                            },
                        );
                    }
                },
            }
        }
        self.grab = Some(grab);
    }

    fn advance_sighting(
        &mut self,
        chirality: LeapChirality,
        hand: &LeapHandData,
        now_us: i64,
        tuning: &LeapTuning,
        out: &mut Vec<LeapGestureEvent>,
    )
        ensures
            *final(self) == sighting_step(*old(self), chirality, *hand, now_us, *tuning).0,
            final(out)@ == old(out)@ + sighting_step(
                *old(self),
                chirality,
                *hand,
                now_us,
                *tuning,
            ).1,
    {
        self.last_seen_us = now_us;
        let grabbing = self.grab.is_some() || hand.grab_strength.at_least(tuning.grab_release);
        let ghost pinch = pinch_step(*self, chirality, *hand, grabbing, *tuning);
        let ghost swipe = swipe_step(pinch.0, chirality, *hand, grabbing, now_us, *tuning);
        let ghost pose = pose_step(swipe.0, chirality, *hand, grabbing, now_us, *tuning);
        let ghost grab = grab_step(pose.0, chirality, *hand, now_us, *tuning);
        self.advance_pinch(chirality, hand, grabbing, tuning, out);
        self.advance_swipe(chirality, hand, grabbing, now_us, tuning, out);
        self.advance_pose(chirality, hand, grabbing, now_us, tuning, out);
        self.advance_grab(chirality, hand, now_us, tuning, out);
        proof {
            append_append(old(out)@, pinch.1, swipe.1);
            append_append(old(out)@, pinch.1 + swipe.1, pose.1);
            append_append(old(out)@, pinch.1 + swipe.1 + pose.1, grab.1);
        }
    }
}

/// Hysteresis state machine over leap frames; `advance` is called per tracking frame.
#[derive(Debug, Clone, Copy)]
pub struct LeapGestureState {
    pub left: HandTracker,
    pub right: HandTracker,
}

impl Default for LeapGestureState {
    fn default() -> (state: LeapGestureState)
        ensures
            state.left == HandTracker::initial(),
            state.right == HandTracker::initial(),
    {
        LeapGestureState { left: HandTracker::default(), right: HandTracker::default() }
    }
}

impl LeapGestureState {
    /// The tracker of one hand.
    pub open spec fn tracker(self, chirality: LeapChirality) -> HandTracker {
        match chirality {
            LeapChirality::Left => self.left,
            LeapChirality::Right => self.right,
        }
    }

    /// What one frame does to one hand.
    pub open spec fn step_of(
        self,
        chirality: LeapChirality,
        frame: LeapFrame,
        tuning: LeapTuning,
    ) -> Outcome {
        hand_step(
            self.tracker(chirality),
            chirality,
            first_hand(frame.hands@, chirality),
            frame.timestamp_us,
            tuning,
        )
    }

    /// Feed one frame, appending recognized events to `out` in firing order: the left hand's
    /// events, then the right hand's.
    pub fn advance(
        &mut self,
        frame: &LeapFrame,
        tuning: &LeapTuning,
        out: &mut Vec<LeapGestureEvent>,
    )
        ensures
            final(self).left == old(self).step_of(LeapChirality::Left, *frame, *tuning).0,
            final(self).right == old(self).step_of(LeapChirality::Right, *frame, *tuning).0,
            final(out)@ == old(out)@ + old(self).step_of(LeapChirality::Left, *frame, *tuning).1
                + old(self).step_of(LeapChirality::Right, *frame, *tuning).1,
    {
        let left = Self::find_hand(frame, LeapChirality::Left);
        Self::advance_hand(
            &mut self.left,
            LeapChirality::Left,
            left,
            frame.timestamp_us,
            tuning,
            out,
        );
        let right = Self::find_hand(frame, LeapChirality::Right);
        Self::advance_hand(
            &mut self.right,
            LeapChirality::Right,
            right,
            frame.timestamp_us,
            tuning,
            out,
        );
    }

    fn find_hand(frame: &LeapFrame, chirality: LeapChirality) -> (hand: Option<LeapHandData>)
        ensures
            hand == first_hand(frame.hands@, chirality),
    {
        let mut i: usize = 0;
        assert(frame.hands@.skip(0) =~= frame.hands@);
        while i < frame.hands.len()
            invariant
                i <= frame.hands@.len(),
                first_hand(frame.hands@, chirality) == first_hand(
                    frame.hands@.skip(i as int),
                    chirality,
                ),
            decreases frame.hands@.len() - i,
        {
            if frame.hands[i].chirality == chirality {
                return Some(frame.hands[i]);
            }
            assert(frame.hands@.skip(i as int).drop_first() =~= frame.hands@.skip(i + 1));
            i = i + 1;
        }
        None
    }

    /// Feed one frame's entry of one hand to its tracker, appending recognized events to `out` in
    /// firing order.
    pub fn advance_hand(
        tracker: &mut HandTracker,
        chirality: LeapChirality,
        hand: Option<LeapHandData>,
        now_us: i64,
        tuning: &LeapTuning,
        out: &mut Vec<LeapGestureEvent>,
    )
        ensures
            *final(tracker) == hand_step(*old(tracker), chirality, hand, now_us, *tuning).0,
            final(out)@ == old(out)@ + hand_step(
                *old(tracker),
                chirality,
                hand,
                now_us,
                *tuning,
            ).1,
    {
        let ghost loss = loss_step(*tracker, chirality, hand is Some, now_us);
        let ghost presence = presence_step(loss.0, chirality, hand is Some, now_us, *tuning);
        let ghost rest: Outcome = match hand {
            Some(hand) => sighting_step(presence.0, chirality, hand, now_us, *tuning),
            None => (absence_step(presence.0), seq![]),
        };
        let ended = tracker.advance_loss(chirality, hand.is_some(), now_us);
        tracker.advance_presence(chirality, hand.is_some(), now_us, tuning, out);
        let ghost announced = out@;
        if let Some(event) = ended {
            out.push(event);
        }
        assert(out@ =~= announced + loss.1);
        match hand {
            Some(hand) => {
                tracker.advance_sighting(chirality, &hand, now_us, tuning, out);
            },
            None => {
                tracker.advance_absence();
                assert(out@ =~= announced + loss.1 + rest.1);
            },
        }
        proof {
            append_append(old(out)@, presence.1, loss.1);
            append_append(old(out)@, presence.1 + loss.1, rest.1);
        }
    }

    /// What the next drag reading of a hand has to be measured against, if anything.
    pub fn drag_reference(&self, chirality: LeapChirality) -> (reference: Option<DragReference>)
        ensures
            reference == self.tracker(chirality).reference(),
            ({
                let grab = if chirality is Left { self.left.grab } else { self.right.grab };
                match reference {
                    Some(r) => grab is Some && grab->0.anchor == Some(r.anchor) && grab->0.latched
                        == r.latched,
                    None => grab is None || grab->0.anchor is None,
                }
            }),
    {
        let tracker = match chirality {
            LeapChirality::Left => self.left,
            LeapChirality::Right => self.right,
        };
        match tracker.grab {
            Some(grab) => match grab.anchor {
                Some(anchor) => Some(DragReference { anchor, latched: grab.latched }),
                None => None,
            },
            None => None,
        }
    }
}

} // verus!
