//! What the compositor is asked to do about a gesture, field by field.

use crate::leap_gesture::dispatch;
use crate::leap_gesture::dispatch::{
    ActiveSwipeBind, ContinuousGestureKind, GrabBeginStep, GrabUpdateStep, LeapBind, LeapCommand,
    LeapReaction, LeapTrigger, State,
};
use crate::leap_gesture::laws;
use crate::leap_gesture::laws::Glimpse;
use crate::leap_gesture::recognizer;
use crate::leap_gesture::types::{
    LeapAxis, LeapChirality, LeapFrame, LeapGestureEvent, LeapHand, LeapInputConfig, LeapTuning,
    SwipeDirection,
};
use crate::measure::Measure;
use crate::text;
use vstd::prelude::*;

verus! {

/// A bind asks for this very hand.
pub open spec fn asks_for(hand: LeapHand, chirality: LeapChirality) -> bool {
    match hand {
        LeapHand::Left => chirality is Left,
        LeapHand::Right => chirality is Right,
        LeapHand::Any => false,
    }
}

/// A discrete gesture looks up the bind of its own kind, hand and particulars, and then the bind
/// of the same kind and particulars for any hand; the begin of a drag does the same.
pub proof fn commands_carry_the_gesture(
    reaction: LeapReaction,
    event: LeapGestureEvent,
    notify_gestures: bool,
)
    requires
        reaction.answers(event, notify_gestures),
    ensures
        match event {
            LeapGestureEvent::Pinch { hand } => match reaction.command {
                LeapCommand::FireDiscrete {
                    specific: LeapTrigger::LeapPinch { hand: first },
                    fallback: LeapTrigger::LeapPinch { hand: second },
                } => asks_for(first, hand) && second is Any,
                _ => false,
            },
            LeapGestureEvent::Swipe { hand, direction } => match reaction.command {
                LeapCommand::FireDiscrete {
                    specific: LeapTrigger::LeapSwipe { hand: first, direction: a },
                    fallback: LeapTrigger::LeapSwipe { hand: second, direction: b },
                } => asks_for(first, hand) && second is Any && a == direction && b == direction,
                _ => false,
            },
            LeapGestureEvent::Presence { hand, event } => match reaction.command {
                LeapCommand::FireDiscrete {
                    specific: LeapTrigger::LeapPresence { hand: first, event: a },
                    fallback: LeapTrigger::LeapPresence { hand: second, event: b },
                } => asks_for(first, hand) && second is Any && a == event && b == event,
                _ => false,
            },
            LeapGestureEvent::Pose { hand, fingers } => match reaction.command {
                LeapCommand::FireDiscrete {
                    specific: LeapTrigger::LeapPose { hand: first, fingers: a },
                    fallback: LeapTrigger::LeapPose { hand: second, fingers: b },
                } => asks_for(first, hand) && second is Any && a == fingers && b == fingers,
                _ => false,
            },
            LeapGestureEvent::GrabBegin { hand, axis } => match reaction.command {
                LeapCommand::GrabBegin {
                    specific: LeapTrigger::LeapGrabDrag { hand: first, axis: a },
                    fallback: LeapTrigger::LeapGrabDrag { hand: second, axis: b },
                } => asks_for(first, hand) && second is Any && a == axis && b == axis,
                _ => false,
            },
            LeapGestureEvent::GrabUpdate { hand, axis, delta_mm, total_mm } => {
                match reaction.command {
                    LeapCommand::GrabUpdate { delta_mm: delta } => delta == delta_mm,
                    _ => false,
                }
            },
            LeapGestureEvent::GrabEnd { hand, axis } => reaction.command is GrabEnd,
        },
{
}

/// A gesture is announced exactly when that is asked for and it is no drag update, by a command
/// line whose last word spells the gesture and the hand out.
pub proof fn announcements_spell_the_gesture(
    reaction: LeapReaction,
    event: LeapGestureEvent,
    notify_gestures: bool,
)
    requires
        reaction.answers(event, notify_gestures),
    ensures
        reaction.notification is Some <==> notify_gestures && !(event is GrabUpdate),
        reaction.notification matches Some(argv) ==> text::texts(argv@).len() == 3 && text::texts(
            argv@,
        )[0] == "notify-send"@ && text::texts(argv@)[1] == "Leap"@ && spells(
            text::texts(argv@)[2],
            event,
        ),
        reaction.notification matches Some(argv) ==> argv@.len() == 3 && argv@[0]@
            == "notify-send"@ && argv@[1]@ == "Leap"@ && spells(argv@[2]@, event),
{
    labels(event);
    if let Some(argv) = reaction.notification {
        text::texts_are_those_of_the_strings(argv@);
        assert(text::texts(argv@)[0] == argv@[0]@);
        assert(text::texts(argv@)[1] == argv@[1]@);
        assert(text::texts(argv@)[2] == argv@[2]@);
    }
}

/// The hand, in brackets.
pub open spec fn hand_suffix(hand: LeapChirality) -> Seq<char> {
    if hand is Left {
        " ("@ + "left"@ + ")"@
    } else {
        " ("@ + "right"@ + ")"@
    }
}

pub open spec fn axis_word(axis: LeapAxis) -> Seq<char> {
    if axis is Horizontal {
        "Horizontal"@
    } else if axis is Vertical {
        "Vertical"@
    } else {
        "Depth"@
    }
}

pub open spec fn direction_word(direction: SwipeDirection) -> Seq<char> {
    if direction is Left {
        "Left"@
    } else if direction is Right {
        "Right"@
    } else if direction is Up {
        "Up"@
    } else {
        "Down"@
    }
}

/// The text spells the event out.
pub open spec fn spells(said: Seq<char>, event: LeapGestureEvent) -> bool {
    match event {
        LeapGestureEvent::Pinch { hand } => said == "Pinch"@ + hand_suffix(hand),
        LeapGestureEvent::Swipe { hand, direction } => said == "Swipe "@ + direction_word(direction)
            + hand_suffix(hand),
        LeapGestureEvent::GrabBegin { hand, axis } => said == "Grab-Drag "@ + axis_word(axis)
            + " begin"@ + hand_suffix(hand),
        LeapGestureEvent::GrabEnd { hand, axis } => said == "Grab-Drag "@ + axis_word(axis)
            + " end"@ + hand_suffix(hand),
        LeapGestureEvent::Presence { hand, event } => said == (if event is Appear {
            "Hand "@ + "Appear"@
        } else {
            "Hand "@ + "Vanish"@
        }) + hand_suffix(hand),
        LeapGestureEvent::Pose { hand, fingers } => said == "Pose "@ + text::decimal(fingers as nat)
            + " finger"@ + (if fingers == 1 {
            ""@
        } else {
            "s"@
        }) + hand_suffix(hand),
        LeapGestureEvent::GrabUpdate { hand, axis, delta_mm, total_mm } => false,
    }
}

/// What an event's notification says.
proof fn labels(event: LeapGestureEvent)
    ensures
        match dispatch::notification_of(event) {
            Some(said) => spells(said, event),
            None => event is GrabUpdate,
        },
{
    reveal_strlit("");
    match dispatch::announced_as(event) {
        Some(name) => {
            let said = name + " ("@ + event.of_hand().spec_name() + ")"@;
            assert(said =~= name + (" ("@ + event.of_hand().spec_name() + ")"@));
            assert(hand_suffix(event.of_hand()) == " ("@ + event.of_hand().spec_name() + ")"@);
        },
        None => {},
    }
}

/// Every event but a drag update has a notification, which spells the event out.
pub proof fn all_but_updates_have_notifications(event: LeapGestureEvent)
    ensures
        dispatch::notification_of(event) is None <==> event is GrabUpdate,
        dispatch::notification_of(event) matches Some(said) ==> spells(said, event),
{
    labels(event);
}

/// What starting a drag on a bind does: a bind without an animation fires its action once, a bind
/// with one begins it, with the bind's sensitivity (1.0 if it has none), negated by
/// `natural-scroll`.
pub proof fn drag_begins_as_bound(bind: LeapBind, is_overview_open: bool)
    ensures
        ({
            let step = dispatch::begin_step(Some(bind), is_overview_open);
            let drag = dispatch::drag_of(Some(bind));
            match bind.kind {
                None => {
                    &&& drag is None
                    &&& step matches GrabBeginStep::DoAction(call) && call.action == bind.action
                        && call.allow_when_locked == bind.allow_when_locked
                },
                Some(kind) => {
                    &&& drag matches Some(active) && active.kind == kind && match bind.sensitivity {
                        Some(s) => if bind.natural_scroll {
                            active.sensitivity.rank() == -s.rank() && active.sensitivity.nan()
                                == s.nan() && active.sensitivity.bits != s.bits
                        } else {
                            active.sensitivity == s
                        },
                        None => active.sensitivity.bits == if bind.natural_scroll {
                            0xBFF0_0000_0000_0000u64
                        } else {
                            0x3FF0_0000_0000_0000u64
                        },
                    }
                    &&& kind is OverviewToggle <==> step is BeginOverview
                    &&& kind is WorkspaceSwitch <==> step is BeginWorkspaceSwitch
                    &&& kind is ViewScroll <==> step is BeginViewScroll
                    &&& kind is Noop <==> step is Nothing
                    &&& step matches GrabBeginStep::BeginViewScroll { workspace_under_cursor }
                        ==> workspace_under_cursor == is_overview_open
                },
            }
        }),
        dispatch::begin_step(None, is_overview_open) is Nothing,
        dispatch::drag_of(None) is None,
{
}

/// An update moves the animation of the drag in progress: a workspace switch against the palm, as
/// fingers on a touchpad would, view and overview with it.
pub proof fn drag_advances_its_animation(drag: ActiveSwipeBind, scaled: Measure)
    ensures
        match drag.kind {
            ContinuousGestureKind::WorkspaceSwitch => {
                dispatch::update_step(Some(drag), scaled) matches GrabUpdateStep::WorkspaceSwitch {
                    delta,
                } && delta.rank() == -scaled.rank() && delta.nan() == scaled.nan() && delta.bits
                    != scaled.bits
            },
            ContinuousGestureKind::ViewScroll => {
                dispatch::update_step(Some(drag), scaled) matches GrabUpdateStep::ViewScroll {
                    delta,
                } && delta == scaled
            },
            ContinuousGestureKind::OverviewToggle => {
                dispatch::update_step(Some(drag), scaled) matches GrabUpdateStep::Overview { delta }
                    && delta == scaled
            },
            ContinuousGestureKind::Noop => dispatch::update_step(Some(drag), scaled) is Nothing,
        },
        dispatch::update_step(None, scaled) is Nothing,
{
}

/// The end of a drag ends its animation.
pub proof fn drag_ends_its_animation(drag: ActiveSwipeBind)
    ensures
        drag.kind is WorkspaceSwitch <==> dispatch::end_step(Some(drag)) is EndWorkspaceSwitch,
        drag.kind is ViewScroll <==> dispatch::end_step(Some(drag)) is EndViewScroll,
        drag.kind is OverviewToggle <==> dispatch::end_step(Some(drag)) is EndOverview,
        drag.kind is Noop <==> dispatch::end_step(Some(drag)) is Nothing,
        dispatch::end_step(None) is Nothing,
{
}

/// The events of a frame are those of the left hand and then those of the right hand, under the
/// configured thresholds; while leap input is off there are none.
pub proof fn frames_bring_both_hands_events(
    state: State,
    frame: LeapFrame,
    config: LeapInputConfig,
)
    ensures
        config.off ==> state.frame_events(frame, config).len() == 0,
        !config.off ==> state.frame_events(frame, config) == laws::glimpse_step(
            state.leap_gesture_state.left,
            LeapChirality::Left,
            Glimpse {
                hand: recognizer::first_hand(frame.hands@, LeapChirality::Left),
                now_us: frame.timestamp_us,
                tuning: LeapTuning::of_config(config),
            },
        ).1 + laws::glimpse_step(
            state.leap_gesture_state.right,
            LeapChirality::Right,
            Glimpse {
                hand: recognizer::first_hand(frame.hands@, LeapChirality::Right),
                now_us: frame.timestamp_us,
                tuning: LeapTuning::of_config(config),
            },
        ).1,
{
}

} // verus!
