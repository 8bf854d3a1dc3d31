//! From recognized gestures to what the compositor has to do.

use crate::leap_gesture::recognizer::LeapGestureState;
use crate::leap_gesture::types::{
    LeapAxis, LeapChirality, LeapFrame, LeapGestureEvent, LeapHand, LeapInputConfig,
    LeapPresenceEvent, LeapTuning, SwipeDirection,
};
use crate::measure::Measure;
use crate::text;
use vstd::prelude::*;
use vstd::string::*;

verus! {

/// A bind's trigger, for the leap families.
#[derive(Debug, Clone, Copy, PartialEq, Eq, Structural)]
pub enum LeapTrigger {
    LeapPinch { hand: LeapHand },
    LeapSwipe { hand: LeapHand, direction: SwipeDirection },
    LeapPresence { hand: LeapHand, event: LeapPresenceEvent },
    LeapPose { hand: LeapHand, fingers: u8 },
    LeapGrabDrag { hand: LeapHand, axis: LeapAxis },
}

/// What a gesture event asks for. Where a bind has to be looked up, the hand-specific trigger goes
/// before the fallback for any hand.
#[derive(Debug, Clone, Copy, PartialEq, Eq, Structural)]
pub enum LeapCommand {
    /// Look up a bind and fire its action.
    FireDiscrete { specific: LeapTrigger, fallback: LeapTrigger },
    /// Look up a bind and start its drag.
    GrabBegin { specific: LeapTrigger, fallback: LeapTrigger },
    /// Advance the drag in progress.
    GrabUpdate { delta_mm: Measure },
    /// Finish the drag in progress.
    GrabEnd,
}

pub open spec fn spec_specific_hand(hand: LeapChirality) -> LeapHand {
    match hand {
        LeapChirality::Left => LeapHand::Left,
        LeapChirality::Right => LeapHand::Right,
    }
}

pub fn specific_hand(hand: LeapChirality) -> (r: LeapHand)
    ensures
        r == spec_specific_hand(hand),
        r is Left <==> hand is Left,
        r is Right <==> hand is Right,
{
    match hand {
        LeapChirality::Left => LeapHand::Left,
        LeapChirality::Right => LeapHand::Right,
    }
}

/// The trigger of an event for a given hand; drags in progress have none.
pub open spec fn trigger_for(event: LeapGestureEvent, hand: LeapHand) -> Option<LeapTrigger> {
    match event {
        LeapGestureEvent::Pinch { hand: _ } => Some(LeapTrigger::LeapPinch { hand }),
        LeapGestureEvent::Swipe { hand: _, direction } => Some(
            LeapTrigger::LeapSwipe { hand, direction },
        ),
        LeapGestureEvent::Presence { hand: _, event } => Some(
            LeapTrigger::LeapPresence { hand, event },
        ),
        LeapGestureEvent::Pose { hand: _, fingers } => Some(
            LeapTrigger::LeapPose { hand, fingers },
        ),
        LeapGestureEvent::GrabBegin { hand: _, axis } => Some(
            LeapTrigger::LeapGrabDrag { hand, axis },
        ),
        LeapGestureEvent::GrabUpdate { hand: _, axis: _, delta_mm: _, total_mm: _ } => None,
        LeapGestureEvent::GrabEnd { hand: _, axis: _ } => None,
    }
}

/// The command of an event.
pub open spec fn command_of(event: LeapGestureEvent) -> LeapCommand {
    match (
        trigger_for(event, spec_specific_hand(event.of_hand())),
        trigger_for(event, LeapHand::Any),
    ) {
        (Some(specific), Some(fallback)) => if event is GrabBegin {
            LeapCommand::GrabBegin { specific, fallback }
        } else {
            LeapCommand::FireDiscrete { specific, fallback }
        },
        _ => match event {
            LeapGestureEvent::GrabUpdate { hand, axis, delta_mm, total_mm } => {
                LeapCommand::GrabUpdate { delta_mm }
            },
            _ => LeapCommand::GrabEnd,
        },
    }
}

fn gesture_command(event: LeapGestureEvent) -> (command: LeapCommand)
    ensures
        command == command_of(event),
{
    match event {
        LeapGestureEvent::Pinch { hand } => LeapCommand::FireDiscrete {
            specific: LeapTrigger::LeapPinch { hand: specific_hand(hand) },
            fallback: LeapTrigger::LeapPinch { hand: LeapHand::Any },
        },
        LeapGestureEvent::Swipe { hand, direction } => LeapCommand::FireDiscrete {
            specific: LeapTrigger::LeapSwipe { hand: specific_hand(hand), direction },
            fallback: LeapTrigger::LeapSwipe { hand: LeapHand::Any, direction },
        },
        LeapGestureEvent::Presence { hand, event } => LeapCommand::FireDiscrete {
            specific: LeapTrigger::LeapPresence { hand: specific_hand(hand), event },
            fallback: LeapTrigger::LeapPresence { hand: LeapHand::Any, event },
        },
        LeapGestureEvent::Pose { hand, fingers } => LeapCommand::FireDiscrete {
            specific: LeapTrigger::LeapPose { hand: specific_hand(hand), fingers },
            fallback: LeapTrigger::LeapPose { hand: LeapHand::Any, fingers },
        },
        LeapGestureEvent::GrabBegin { hand, axis } => LeapCommand::GrabBegin {
            specific: LeapTrigger::LeapGrabDrag { hand: specific_hand(hand), axis },
            fallback: LeapTrigger::LeapGrabDrag { hand: LeapHand::Any, axis },
        },
        LeapGestureEvent::GrabUpdate { hand: _, axis: _, delta_mm, total_mm: _ } => {
            LeapCommand::GrabUpdate { delta_mm }
        },
        LeapGestureEvent::GrabEnd { hand: _, axis: _ } => LeapCommand::GrabEnd,
    }
}

pub open spec fn direction_label(direction: SwipeDirection) -> Seq<char> {
    match direction {
        SwipeDirection::Left => "Left"@,
        SwipeDirection::Right => "Right"@,
        SwipeDirection::Up => "Up"@,
        SwipeDirection::Down => "Down"@,
    }
}

pub open spec fn axis_label(axis: LeapAxis) -> Seq<char> {
    match axis {
        LeapAxis::Horizontal => "Horizontal"@,
        LeapAxis::Vertical => "Vertical"@,
        LeapAxis::Depth => "Depth"@,
    }
}

pub open spec fn presence_label(event: LeapPresenceEvent) -> Seq<char> {
    match event {
        LeapPresenceEvent::Appear => "Appear"@,
        LeapPresenceEvent::Vanish => "Vanish"@,
    }
}

fn direction_text(direction: SwipeDirection) -> (s: &'static str)
    ensures
        s@ == direction_label(direction),
{
    match direction {
        SwipeDirection::Left => "Left",
        SwipeDirection::Right => "Right",
        SwipeDirection::Up => "Up",
        SwipeDirection::Down => "Down",
    }
}

fn axis_text(axis: LeapAxis) -> (s: &'static str)
    ensures
        s@ == axis_label(axis),
{
    match axis {
        LeapAxis::Horizontal => "Horizontal",
        LeapAxis::Vertical => "Vertical",
        LeapAxis::Depth => "Depth",
    }
}

fn presence_text(event: LeapPresenceEvent) -> (s: &'static str)
    ensures
        s@ == presence_label(event),
{
    match event {
        LeapPresenceEvent::Appear => "Appear",
        LeapPresenceEvent::Vanish => "Vanish",
    }
}

/// What a notification calls an event. Per-frame drag updates are not announced: they'd flood at
/// ~100/s.
pub open spec fn announced_as(event: LeapGestureEvent) -> Option<Seq<char>> {
    match event {
        LeapGestureEvent::Pinch { hand } => Some("Pinch"@),
        LeapGestureEvent::Swipe { hand, direction } => Some(
            "Swipe "@ + direction_label(direction),
        ),
        LeapGestureEvent::GrabBegin { hand, axis } => Some(
            "Grab-Drag "@ + axis_label(axis) + " begin"@,
        ),
        LeapGestureEvent::GrabEnd { hand, axis } => Some(
            "Grab-Drag "@ + axis_label(axis) + " end"@,
        ),
        LeapGestureEvent::Presence { hand, event } => Some("Hand "@ + presence_label(event)),
        LeapGestureEvent::Pose { hand, fingers } => Some(
            "Pose "@ + text::decimal(fingers as nat) + " finger"@ + if fingers == 1 {
                ""@
            } else {
                "s"@
            },
        ),
        LeapGestureEvent::GrabUpdate { hand, axis, delta_mm, total_mm } => None,
    }
}

/// Body of an event's notification: what it is called, then its hand.
pub open spec fn notification_of(event: LeapGestureEvent) -> Option<Seq<char>> {
    match announced_as(event) {
        Some(name) => Some(name + " ("@ + event.of_hand().spec_name() + ")"@),
        None => None,
    }
}

/// Body of the debug notification that announces an event.
pub fn notification_body(event: LeapGestureEvent) -> (body: Option<String>)
    ensures
        match body {
            Some(body) => notification_of(event) == Some(body@),
            None => notification_of(event) is None,
        },
{
    let mut body = String::new();
    let hand: LeapChirality = match event {
        LeapGestureEvent::Pinch { hand } => {
            body.append("Pinch");
            hand
        },
        LeapGestureEvent::Swipe { hand, direction } => {
            body.append("Swipe ");
            body.append(direction_text(direction));
            hand
        },
        LeapGestureEvent::GrabBegin { hand, axis } => {
            body.append("Grab-Drag ");
            body.append(axis_text(axis));
            body.append(" begin");
            hand
        },
        LeapGestureEvent::GrabEnd { hand, axis } => {
            body.append("Grab-Drag ");
            body.append(axis_text(axis));
            body.append(" end");
            hand
        },
        LeapGestureEvent::Presence { hand, event } => {
            body.append("Hand ");
            body.append(presence_text(event));
            hand
        },
        LeapGestureEvent::Pose { hand, fingers } => {
            body.append("Pose ");
            text::push_decimal(&mut body, fingers);
            body.append(" finger");
            if fingers == 1 {
                body.append("");
            } else {
                body.append("s");
            }
            hand
        },
        LeapGestureEvent::GrabUpdate { hand: _, axis: _, delta_mm: _, total_mm: _ } => {
            return None;
        },
    };
    assert(body@ =~= announced_as(event)->0);
    body.append(" (");
    body.append(hand.name());
    body.append(")");
    Some(body)
}

/// One event's consequences, to be carried out in order.
#[derive(Debug)]
pub struct LeapReaction {
    /// Command line of the notification that announces the event, if it is announced.
    pub notification: Option<Vec<String>>,
    pub command: LeapCommand,
}

impl LeapReaction {
    /// The reaction belongs to the event.
    pub open spec fn answers(self, event: LeapGestureEvent, notify_gestures: bool) -> bool {
        &&& self.command == command_of(event)
        &&& match notification_of(event) {
            Some(body) if notify_gestures => self.notification matches Some(argv) && text::texts(argv@)
                == seq!["notify-send"@, "Leap"@, body],
            _ => self.notification is None,
        }
    }
}

/// Announces an event if `notify_gestures` asks for that, independent of what it's bound to, and
/// says what it asks for.
pub fn on_leap_gesture_event(event: LeapGestureEvent, notify_gestures: bool) -> (reaction:
    LeapReaction)
    ensures
        reaction.answers(event, notify_gestures),
{
    let mut notification: Option<Vec<String>> = None;
    if notify_gestures {
        if let Some(body) = notification_body(event) {
            let mut argv: Vec<String> = Vec::new();
            let ghost said = body@;
            argv.push("notify-send".to_owned());
            argv.push("Leap".to_owned());
            argv.push(body);
            assert(text::texts(argv@) =~= seq!["notify-send"@, "Leap"@, said]);
            notification = Some(argv);
        }
    }
    LeapReaction { notification, command: gesture_command(event) }
}

/// The animation that a continuous action drives.
#[derive(Debug, Clone, Copy, PartialEq, Eq, Structural)]
pub enum ContinuousGestureKind {
    WorkspaceSwitch,
    ViewScroll,
    OverviewToggle,
    Noop,
}

/// What the dispatch reads of a configured bind.
#[derive(Debug, Clone, Copy, PartialEq, Eq, Structural)]
pub struct LeapBind {
    /// Stands for the bind's action.
    pub action: u64,
    /// The animation that the action drives, if it is continuous.
    pub kind: Option<ContinuousGestureKind>,
    pub allow_when_locked: bool,
    pub sensitivity: Option<Measure>,
    pub natural_scroll: bool,
}

/// An action to carry out.
#[derive(Debug, Clone, Copy, PartialEq, Eq, Structural)]
pub struct ActionCall {
    pub action: u64,
    pub allow_when_locked: bool,
}

/// A drag in progress that drives an animation.
#[derive(Debug, Clone, Copy, PartialEq, Eq, Structural)]
pub struct ActiveSwipeBind {
    pub kind: ContinuousGestureKind,
    pub sensitivity: Measure,
}

/// How a drag starts.
#[derive(Debug, Clone, Copy, PartialEq, Eq, Structural)]
pub enum GrabBeginStep {
    /// Nothing is bound, or nothing is animated.
    Nothing,
    /// A discrete action on a grab-drag bind fires once at latch.
    DoAction(ActionCall),
    /// Begin the overview gesture and redraw everything.
    BeginOverview,
    /// Begin a workspace switch on the output under the cursor.
    BeginWorkspaceSwitch,
    /// Begin scrolling a view: that of the workspace under the cursor, or else that of the active
    /// workspace on the output under the cursor.
    BeginViewScroll { workspace_under_cursor: bool },
}

/// How a drag advances. Amounts are in touchpad gesture units.
#[derive(Debug, Clone, Copy, PartialEq, Eq, Structural)]
pub enum GrabUpdateStep {
    Nothing,
    WorkspaceSwitch { delta: Measure },
    ViewScroll { delta: Measure },
    Overview { delta: Measure },
}

/// How a drag finishes.
#[derive(Debug, Clone, Copy, PartialEq, Eq, Structural)]
pub enum GrabEndStep {
    Nothing,
    EndWorkspaceSwitch,
    EndViewScroll,
    EndOverview,
}

/// The drag that a bind starts. `natural_scroll` inverts its direction: a negative sensitivity
/// flips every update's sign.
pub open spec fn drag_of(bind: Option<LeapBind>) -> Option<ActiveSwipeBind> {
    match bind {
        Some(bind) => match bind.kind {
            Some(kind) => {
                let sensitivity = match bind.sensitivity {
                    Some(sensitivity) => sensitivity,
                    None => Measure { bits: crate::measure::ONE_BITS },
                };
                Some(
                    ActiveSwipeBind {
                        kind,
                        sensitivity: if bind.natural_scroll {
                            sensitivity.flipped()
                        } else {
                            sensitivity
                        },
                    },
                )
            },
            None => None,
        },
        None => None,
    }
}

/// The first step of a drag on a bind.
pub open spec fn begin_step(bind: Option<LeapBind>, is_overview_open: bool) -> GrabBeginStep {
    match bind {
        None => GrabBeginStep::Nothing,
        Some(bind) => match bind.kind {
            None => GrabBeginStep::DoAction(
                ActionCall { action: bind.action, allow_when_locked: bind.allow_when_locked },
            ),
            Some(ContinuousGestureKind::OverviewToggle) => GrabBeginStep::BeginOverview,
            Some(ContinuousGestureKind::WorkspaceSwitch) => GrabBeginStep::BeginWorkspaceSwitch,
            Some(ContinuousGestureKind::ViewScroll) => GrabBeginStep::BeginViewScroll {
                workspace_under_cursor: is_overview_open,
            },
            Some(ContinuousGestureKind::Noop) => GrabBeginStep::Nothing,
        },
    }
}

/// How a drag in progress advances by `scaled` units. Hand up means fingers up on a touchpad: a
/// negative amount for a workspace switch.
pub open spec fn update_step(drag: Option<ActiveSwipeBind>, scaled: Measure) -> GrabUpdateStep {
    match drag {
        None => GrabUpdateStep::Nothing,
        Some(drag) => match drag.kind {
            ContinuousGestureKind::WorkspaceSwitch => GrabUpdateStep::WorkspaceSwitch {
                delta: scaled.flipped(),
            },
            ContinuousGestureKind::ViewScroll => GrabUpdateStep::ViewScroll { delta: scaled },
            ContinuousGestureKind::OverviewToggle => GrabUpdateStep::Overview { delta: scaled },
            ContinuousGestureKind::Noop => GrabUpdateStep::Nothing,
        },
    }
}

/// How a drag in progress finishes.
pub open spec fn end_step(drag: Option<ActiveSwipeBind>) -> GrabEndStep {
    match drag {
        None => GrabEndStep::Nothing,
        Some(drag) => match drag.kind {
            ContinuousGestureKind::WorkspaceSwitch => GrabEndStep::EndWorkspaceSwitch,
            ContinuousGestureKind::ViewScroll => GrabEndStep::EndViewScroll,
            ContinuousGestureKind::OverviewToggle => GrabEndStep::EndOverview,
            ContinuousGestureKind::Noop => GrabEndStep::Nothing,
        },
    }
}

/// The compositor's leap input state.
#[derive(Debug)]
pub struct State {
    pub leap_gesture_state: LeapGestureState,
    /// The drag that drives an animation at present.
    pub leap_grab_bind: Option<ActiveSwipeBind>,
}

impl State {
    pub fn new() -> (state: State)
        ensures
            state.leap_gesture_state.left == crate::leap_gesture::recognizer::HandTracker::initial(),
            state.leap_gesture_state.right
                == crate::leap_gesture::recognizer::HandTracker::initial(),
            state.leap_grab_bind is None,
    {
        State { leap_gesture_state: LeapGestureState::default(), leap_grab_bind: None }
    }

    /// The events that a frame makes the recognizer fire.
    pub open spec fn frame_events(self, frame: LeapFrame, config: LeapInputConfig) -> Seq<
        LeapGestureEvent,
    > {
        if config.off {
            seq![]
        } else {
            self.leap_gesture_state.step_of(
                LeapChirality::Left,
                frame,
                LeapTuning::of_config(config),
            ).1 + self.leap_gesture_state.step_of(
                LeapChirality::Right,
                frame,
                LeapTuning::of_config(config),
            ).1
        }
    }

    /// Entry point for tracking frames. Returns the frame's time on the service clock, never
    /// negative, and the reactions to its events in firing order. Nothing happens while leap
    /// input is off.
    pub fn on_leap_frame(&mut self, frame: &LeapFrame, config: &LeapInputConfig) -> (r: (
        u64,
        Vec<LeapReaction>,
    ))
        ensures
            r.0 == if frame.timestamp_us > 0 { frame.timestamp_us as int } else { 0 },
            r.1@.len() == old(self).frame_events(*frame, *config).len(),
            forall|i: int|
                0 <= i < r.1@.len() ==> (#[trigger] r.1@[i]).answers(
                    old(self).frame_events(*frame, *config)[i],
                    config.notify_gestures,
                ),
            final(self).leap_grab_bind == old(self).leap_grab_bind,
            config.off ==> final(self).leap_gesture_state == old(self).leap_gesture_state,
            !config.off ==> final(self).leap_gesture_state.left
                == old(self).leap_gesture_state.step_of(
                LeapChirality::Left,
                *frame,
                LeapTuning::of_config(*config),
            ).0,
            !config.off ==> final(self).leap_gesture_state.right
                == old(self).leap_gesture_state.step_of(
                LeapChirality::Right,
                *frame,
                LeapTuning::of_config(*config),
            ).0,
    {
        let timestamp: u64 = if frame.timestamp_us > 0 { frame.timestamp_us as u64 } else { 0 };
        let mut reactions: Vec<LeapReaction> = Vec::new();
        if config.off {
            return (timestamp, reactions);
        }
        let tuning = LeapTuning::from_config(config);
        let mut events: Vec<LeapGestureEvent> = Vec::new();
        self.leap_gesture_state.advance(frame, &tuning, &mut events);
        let ghost fired = old(self).frame_events(*frame, *config);
        assert(events@ =~= fired);
        let mut i: usize = 0;
        while i < events.len()
            invariant
                i <= events@.len(),
                events@ == fired,
                reactions@.len() == i,
                forall|j: int|
                    0 <= j < i ==> (#[trigger] reactions@[j]).answers(
                        fired[j],
                        config.notify_gestures,
                    ),
            decreases events@.len() - i,
        {
            reactions.push(on_leap_gesture_event(events[i], config.notify_gestures));
            i = i + 1;
        }
        (timestamp, reactions)
    }

    /// The bind to use, given what is configured for the hand-specific trigger and for any hand.
    pub fn leap_find_bind(specific: Option<LeapBind>, fallback: Option<LeapBind>) -> (bind: Option<
        LeapBind,
    >)
        ensures
            bind == if specific is Some { specific } else { fallback },
    {
        match specific {
            Some(bind) => Some(bind),
            None => fallback,
        }
    }

    /// The action that a discrete gesture fires.
    pub fn leap_fire_discrete(bind: Option<LeapBind>) -> (call: Option<ActionCall>)
        ensures
            match bind {
                Some(bind) => call == Some(
                    (ActionCall {
                        action: bind.action,
                        allow_when_locked: bind.allow_when_locked,
                    }),
                ),
                None => call is None,
            },
    {
        match bind {
            Some(bind) => Some(
                ActionCall { action: bind.action, allow_when_locked: bind.allow_when_locked },
            ),
            None => None,
        }
    }

    /// A drag latched onto the axis of `bind`. A continuous action becomes the drag in progress.
    pub fn leap_grab_begin(&mut self, bind: Option<LeapBind>, is_overview_open: bool) -> (step:
        GrabBeginStep)
        ensures
            step == begin_step(bind, is_overview_open),
            final(self).leap_gesture_state == old(self).leap_gesture_state,
            final(self).leap_grab_bind == match drag_of(bind) {
                Some(drag) => Some(drag),
                None => old(self).leap_grab_bind,
            },
    {
        let bind = match bind {
            Some(bind) => bind,
            None => {
                return GrabBeginStep::Nothing;
            },
        };
        let mut sensitivity: Measure = match bind.sensitivity {
            Some(sensitivity) => sensitivity,
            None => Measure::one(),
        };
        if bind.natural_scroll {
            sensitivity = sensitivity.neg();
        }
        let kind: ContinuousGestureKind = match bind.kind {
            Some(kind) => kind,
            None => {
                return GrabBeginStep::DoAction(
                    ActionCall { action: bind.action, allow_when_locked: bind.allow_when_locked },
                );
            },
        };
        self.leap_grab_bind = Some(ActiveSwipeBind { kind, sensitivity });
        match kind {
            ContinuousGestureKind::OverviewToggle => GrabBeginStep::BeginOverview,
            ContinuousGestureKind::WorkspaceSwitch => GrabBeginStep::BeginWorkspaceSwitch,
            ContinuousGestureKind::ViewScroll => GrabBeginStep::BeginViewScroll {
                workspace_under_cursor: is_overview_open,
            },
            ContinuousGestureKind::Noop => GrabBeginStep::Nothing,
        }
    }

    /// The drag in progress advanced by `scaled` touchpad gesture units, its sensitivity taken
    /// in.
    pub fn leap_grab_update(&self, scaled: Measure) -> (step: GrabUpdateStep)
        ensures
            step == update_step(self.leap_grab_bind, scaled),
    {
        match self.leap_grab_bind {
            None => GrabUpdateStep::Nothing,
            Some(drag) => match drag.kind {
                ContinuousGestureKind::WorkspaceSwitch => GrabUpdateStep::WorkspaceSwitch {
                    delta: scaled.neg(),
                },
                ContinuousGestureKind::ViewScroll => GrabUpdateStep::ViewScroll { delta: scaled },
                ContinuousGestureKind::OverviewToggle => GrabUpdateStep::Overview {
                    delta: scaled,
                },
                ContinuousGestureKind::Noop => GrabUpdateStep::Nothing,
            },
        }
    }

    /// The drag in progress is over.
    pub fn leap_grab_end(&mut self) -> (step: GrabEndStep)
        ensures
            step == end_step(old(self).leap_grab_bind),
            final(self).leap_grab_bind is None,
            final(self).leap_gesture_state == old(self).leap_gesture_state,
    {
        let drag = self.leap_grab_bind;
        self.leap_grab_bind = None;
        match drag {
            None => GrabEndStep::Nothing,
            Some(drag) => match drag.kind {
                ContinuousGestureKind::WorkspaceSwitch => GrabEndStep::EndWorkspaceSwitch,
                ContinuousGestureKind::ViewScroll => GrabEndStep::EndViewScroll,
                ContinuousGestureKind::OverviewToggle => GrabEndStep::EndOverview,
                ContinuousGestureKind::Noop => GrabEndStep::Nothing,
            },
        }
    }
}

/// A drag's begin, updates and end address the same animation, and every begun animation is
/// ended.
pub proof fn drag_steps_address_one_animation(
    bind: Option<LeapBind>,
    is_overview_open: bool,
    scaled: Measure,
)
    ensures
        ({
            let drag = drag_of(bind);
            let begin = begin_step(bind, is_overview_open);
            let update = update_step(drag, scaled);
            let end = end_step(drag);
            &&& begin is BeginOverview <==> update is Overview
            &&& begin is BeginOverview <==> end is EndOverview
            &&& begin is BeginWorkspaceSwitch <==> update is WorkspaceSwitch
            &&& begin is BeginWorkspaceSwitch <==> end is EndWorkspaceSwitch
            &&& begin is BeginViewScroll <==> update is ViewScroll
            &&& begin is BeginViewScroll <==> end is EndViewScroll
        }),
{
}

/// `natural-scroll` on a bind inverts the drag: it starts the same animation with the sensitivity
/// negated.
pub proof fn natural_scroll_negates_sensitivity(bind: LeapBind)
    ensures
        ({
            let plain = drag_of(Some(LeapBind { natural_scroll: false, ..bind }));
            let natural = drag_of(Some(LeapBind { natural_scroll: true, ..bind }));
            match plain {
                Some(plain) => natural == Some(
                    (ActiveSwipeBind { kind: plain.kind, sensitivity: plain.sensitivity.flipped() }),
                ),
                None => natural is None,
            }
        }),
{
}

} // verus!
