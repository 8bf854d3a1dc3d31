//! Frames, events and thresholds of the gesture recognizer.

use crate::measure::Measure;
use vstd::prelude::*;

verus! {

/// Which physical hand a frame's hand entry belongs to.
#[derive(Debug, Clone, Copy, PartialEq, Eq, Structural)]
pub enum LeapChirality {
    Left,
    Right,
}

impl LeapChirality {
    pub open spec fn spec_name(self) -> Seq<char> {
        match self {
            LeapChirality::Left => "left"@,
            LeapChirality::Right => "right"@,
        }
    }

    pub fn name(self) -> (name: &'static str)
        ensures
            name@ == self.spec_name(),
            self is Left ==> name@ == "left"@,
            self is Right ==> name@ == "right"@,
    {
        match self {
            LeapChirality::Left => "left",
            LeapChirality::Right => "right",
        }
    }
}

/// The hand that a bind asks for.
#[derive(Debug, Clone, Copy, PartialEq, Eq, Structural)]
pub enum LeapHand {
    Any,
    Left,
    Right,
}

/// The axis of a grab-drag.
#[derive(Debug, Clone, Copy, PartialEq, Eq, Structural)]
pub enum LeapAxis {
    Horizontal,
    Vertical,
    Depth,
}

/// What a debounced presence event reports.
#[derive(Debug, Clone, Copy, PartialEq, Eq, Structural)]
pub enum LeapPresenceEvent {
    Appear,
    Vanish,
}

/// Screen direction of a swipe.
#[derive(Debug, Clone, Copy, PartialEq, Eq, Structural)]
pub enum SwipeDirection {
    Left,
    Right,
    Up,
    Down,
}

pub open spec fn spec_opposite_direction(direction: SwipeDirection) -> SwipeDirection {
    match direction {
        SwipeDirection::Left => SwipeDirection::Right,
        SwipeDirection::Right => SwipeDirection::Left,
        SwipeDirection::Up => SwipeDirection::Down,
        SwipeDirection::Down => SwipeDirection::Up,
    }
}

pub fn opposite_direction(direction: SwipeDirection) -> (opposite: SwipeDirection)
    ensures
        opposite == spec_opposite_direction(direction),
        direction is Left <==> opposite is Right,
        direction is Right <==> opposite is Left,
        direction is Up <==> opposite is Down,
        direction is Down <==> opposite is Up,
{
    match direction {
        SwipeDirection::Left => SwipeDirection::Right,
        SwipeDirection::Right => SwipeDirection::Left,
        SwipeDirection::Up => SwipeDirection::Down,
        SwipeDirection::Down => SwipeDirection::Up,
    }
}

/// The palm's displacement from the drag anchor that [`DragReference`] names, as measured by
/// whoever delivers the frame. Never read while there is no anchor, nor in the frame that shows
/// the grab to be lost.
#[derive(Debug, Clone, Copy, PartialEq, Eq, Structural)]
pub struct DragReading {
    /// Displacement along each device axis, mm.
    pub dx: Measure,
    pub dy: Measure,
    pub dz: Measure,
    /// Length of the displacement, mm.
    pub distance: Measure,
    /// Length of `dy` and of `dz`, each divided by the scale configured for its axis.
    pub weighted_dy: Measure,
    pub weighted_dz: Measure,
    /// `drag_total` along the latched axis minus the total reported last. Never read before an
    /// axis has latched.
    pub delta: Measure,
}

/// What the next [`DragReading`] of a hand is measured against.
#[derive(Debug, Clone, Copy)]
pub struct DragReference {
    /// Palm position that displacements start from.
    pub anchor: [Measure; 3],
    /// The latched axis and the total reported last along it.
    pub latched: Option<(LeapAxis, Measure)>,
}

/// One tracked hand within a [`LeapFrame`].
#[derive(Debug, Clone, Copy)]
pub struct LeapHandData {
    pub chirality: LeapChirality,
    /// Palm position, mm, device coordinates.
    pub palm_position: [Measure; 3],
    /// Palm velocity, mm/s.
    pub palm_velocity: [Measure; 3],
    /// Length of the velocity's x and y components together, mm/s.
    pub planar_speed: Measure,
    /// 0..1 thumb-to-finger pinch estimate from the tracking service.
    pub pinch_strength: Measure,
    /// 0..1 fist estimate from the tracking service.
    pub grab_strength: Measure,
    /// Per-digit "more or less straight" flags from the tracking service, in anatomical order:
    /// thumb, index, middle, ring, pinky.
    pub fingers_extended: [bool; 5],
    /// Displacement from the hand's drag anchor.
    pub drag: DragReading,
}

/// How many of the flags are set.
pub open spec fn count_set(flags: Seq<bool>) -> nat
    decreases flags.len(),
{
    if flags.len() == 0 {
        0
    } else {
        count_set(flags.drop_last()) + if flags.last() { 1nat } else { 0nat }
    }
}

impl LeapHandData {
    /// Number of extended fingers.
    pub open spec fn extended(self) -> nat {
        count_set(self.fingers_extended@)
    }

    /// Number of extended fingers (0 = fist, 5 = open palm).
    pub fn extended_count(&self) -> (count: u8)
        ensures
            count == self.extended(),
            count <= 5,
    {
        let mut count: u8 = 0;
        let mut i: usize = 0;
        assert(self.fingers_extended@.take(0) =~= Seq::<bool>::empty());
        while i < 5
            invariant
                i <= 5,
                count <= i,
                self.fingers_extended@.len() == 5,
                count == count_set(self.fingers_extended@.take(i as int)),
            decreases 5 - i,
        {
            assert(self.fingers_extended@.take(i + 1).drop_last()
                =~= self.fingers_extended@.take(i as int));
            if self.fingers_extended[i] {
                count = count + 1;
            }
            i = i + 1;
        }
        assert(self.fingers_extended@.take(5) =~= self.fingers_extended@);
        count
    }
}

/// One tracking frame from the service (~100/s while a client is subscribed).
#[derive(Debug, Clone)]
pub struct LeapFrame {
    /// Service clock, microseconds.
    pub timestamp_us: i64,
    pub hands: Vec<LeapHandData>,
}

impl Default for LeapFrame {
    fn default() -> (frame: LeapFrame)
        ensures
            frame.timestamp_us == 0,
            frame.hands@.len() == 0,
    {
        LeapFrame { timestamp_us: 0, hands: Vec::new() }
    }
}

/// Recognized gesture events, consumed by the dispatch layer.
#[derive(Debug, Clone, Copy, PartialEq, Eq, Structural)]
pub enum LeapGestureEvent {
    /// An air pinch fired (already hysteresis-filtered).
    Pinch { hand: LeapChirality },
    /// A palm swipe fired.
    Swipe { hand: LeapChirality, direction: SwipeDirection },
    /// A grab-drag latched onto an axis. Followed by `GrabUpdate`s and eventually `GrabEnd`.
    GrabBegin { hand: LeapChirality, axis: LeapAxis },
    /// Palm moved during a latched grab-drag. `delta_mm` is the change since the previous update
    /// along the latched axis; `total_mm` the signed displacement from the latch point. Positive
    /// = right, up, or forward (pushing away from you) depending on the axis.
    GrabUpdate { hand: LeapChirality, axis: LeapAxis, delta_mm: Measure, total_mm: Measure },
    /// The fist opened (or the hand left the view) ending a latched grab-drag.
    GrabEnd { hand: LeapChirality, axis: LeapAxis },
    /// A hand appeared over / vanished from the sensor (debounced).
    Presence { hand: LeapChirality, event: LeapPresenceEvent },
    /// A finger-count pose settled: `fingers` (1..=5) held extended on a near-still palm for the
    /// settle interval. Fires once per stable count; the next event needs the count to change
    /// first.
    Pose { hand: LeapChirality, fingers: u8 },
}

impl LeapGestureEvent {
    /// The hand that the event is about.
    pub open spec fn of_hand(self) -> LeapChirality {
        match self {
            LeapGestureEvent::Pinch { hand } => hand,
            LeapGestureEvent::Swipe { hand, direction } => hand,
            LeapGestureEvent::GrabBegin { hand, axis } => hand,
            LeapGestureEvent::GrabUpdate { hand, axis, delta_mm, total_mm } => hand,
            LeapGestureEvent::GrabEnd { hand, axis } => hand,
            LeapGestureEvent::Presence { hand, event } => hand,
            LeapGestureEvent::Pose { hand, fingers } => hand,
        }
    }
}

/// The `input.leap` section of the configuration. Intervals are in microseconds.
#[derive(Debug, Clone, Copy, PartialEq, Eq, Structural)]
pub struct LeapInputConfig {
    pub off: bool,
    pub notify_gestures: bool,
    pub pinch_trigger_strength: Measure,
    pub pinch_release_strength: Measure,
    pub swipe_trigger_speed: Measure,
    /// The trigger speed times the vertical scale.
    pub swipe_vertical_speed: Measure,
    pub swipe_rearm_speed: Measure,
    pub swipe_return_window_us: i64,
    pub grab_trigger_strength: Measure,
    pub grab_release_strength: Measure,
    pub grab_axis_latch_distance: Measure,
    pub grab_settle_us: i64,
    pub presence_debounce_us: i64,
    pub pose_settle_us: i64,
    pub pose_max_speed: Measure,
}

/// Recognition thresholds, snapshotted from config each frame so config hot-reload takes effect
/// immediately.
#[derive(Debug, Clone, Copy, PartialEq, Eq, Structural)]
pub struct LeapTuning {
    pub pinch_trigger: Measure,
    pub pinch_release: Measure,
    pub swipe_trigger_speed: Measure,
    /// Trigger speed of an upward or downward swipe.
    pub swipe_vertical_speed: Measure,
    pub swipe_rearm_speed: Measure,
    pub swipe_return_window_us: i64,
    pub grab_trigger: Measure,
    pub grab_release: Measure,
    pub grab_axis_latch_mm: Measure,
    pub grab_settle_us: i64,
    pub presence_debounce_us: i64,
    pub pose_settle_us: i64,
    pub pose_max_speed: Measure,
}

impl LeapTuning {
    pub open spec fn of_config(config: LeapInputConfig) -> LeapTuning {
        LeapTuning {
            pinch_trigger: config.pinch_trigger_strength,
            pinch_release: config.pinch_release_strength,
            swipe_trigger_speed: config.swipe_trigger_speed,
            swipe_vertical_speed: config.swipe_vertical_speed,
            swipe_rearm_speed: config.swipe_rearm_speed,
            swipe_return_window_us: config.swipe_return_window_us,
            grab_trigger: config.grab_trigger_strength,
            grab_release: config.grab_release_strength,
            grab_axis_latch_mm: config.grab_axis_latch_distance,
            grab_settle_us: config.grab_settle_us,
            presence_debounce_us: config.presence_debounce_us,
            pose_settle_us: config.pose_settle_us,
            pose_max_speed: config.pose_max_speed,
        }
    }

    pub fn from_config(config: &LeapInputConfig) -> (tuning: LeapTuning)
        ensures
            tuning == LeapTuning::of_config(*config),
            tuning.pinch_trigger == config.pinch_trigger_strength,
            tuning.pinch_release == config.pinch_release_strength,
            tuning.swipe_trigger_speed == config.swipe_trigger_speed,
            tuning.swipe_vertical_speed == config.swipe_vertical_speed,
            tuning.swipe_rearm_speed == config.swipe_rearm_speed,
            tuning.swipe_return_window_us == config.swipe_return_window_us,
            tuning.grab_trigger == config.grab_trigger_strength,
            tuning.grab_release == config.grab_release_strength,
            tuning.grab_axis_latch_mm == config.grab_axis_latch_distance,
            tuning.grab_settle_us == config.grab_settle_us,
            tuning.presence_debounce_us == config.presence_debounce_us,
            tuning.pose_settle_us == config.pose_settle_us,
            tuning.pose_max_speed == config.pose_max_speed,
    {
        LeapTuning {
            pinch_trigger: config.pinch_trigger_strength,
            pinch_release: config.pinch_release_strength,
            swipe_trigger_speed: config.swipe_trigger_speed,
            swipe_vertical_speed: config.swipe_vertical_speed,
            swipe_rearm_speed: config.swipe_rearm_speed,
            swipe_return_window_us: config.swipe_return_window_us,
            grab_trigger: config.grab_trigger_strength,
            grab_release: config.grab_release_strength,
            grab_axis_latch_mm: config.grab_axis_latch_distance,
            grab_settle_us: config.grab_settle_us,
            presence_debounce_us: config.presence_debounce_us,
            pose_settle_us: config.pose_settle_us,
            pose_max_speed: config.pose_max_speed,
        }
    }
}

/// Every threshold is the one configured for it.
pub proof fn thresholds_are_the_configured_ones(config: LeapInputConfig)
    ensures
        LeapTuning::of_config(config).pinch_trigger == config.pinch_trigger_strength,
        LeapTuning::of_config(config).pinch_release == config.pinch_release_strength,
        LeapTuning::of_config(config).swipe_trigger_speed == config.swipe_trigger_speed,
        LeapTuning::of_config(config).swipe_vertical_speed == config.swipe_vertical_speed,
        LeapTuning::of_config(config).swipe_rearm_speed == config.swipe_rearm_speed,
        LeapTuning::of_config(config).swipe_return_window_us == config.swipe_return_window_us,
        LeapTuning::of_config(config).grab_trigger == config.grab_trigger_strength,
        LeapTuning::of_config(config).grab_release == config.grab_release_strength,
        LeapTuning::of_config(config).grab_axis_latch_mm == config.grab_axis_latch_distance,
        LeapTuning::of_config(config).grab_settle_us == config.grab_settle_us,
        LeapTuning::of_config(config).presence_debounce_us == config.presence_debounce_us,
        LeapTuning::of_config(config).pose_settle_us == config.pose_settle_us,
        LeapTuning::of_config(config).pose_max_speed == config.pose_max_speed,
{
}

/// Turning around swaps left with right and up with down; turning around twice changes nothing.
pub proof fn opposites_pair_up(direction: SwipeDirection)
    ensures
        direction is Left <==> spec_opposite_direction(direction) is Right,
        direction is Right <==> spec_opposite_direction(direction) is Left,
        direction is Up <==> spec_opposite_direction(direction) is Down,
        direction is Down <==> spec_opposite_direction(direction) is Up,
        spec_opposite_direction(spec_opposite_direction(direction)) == direction,
{
}

} // verus!
