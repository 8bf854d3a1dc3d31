//! What gestures make the compositor do, and the connection to the tracking service.

use niri_core::leap_gesture::dispatch::{
    notification_body, on_leap_gesture_event, specific_hand, ActionCall, ActiveSwipeBind,
    ContinuousGestureKind, GrabBeginStep, GrabEndStep, GrabUpdateStep, LeapBind, LeapCommand,
    LeapTrigger, State,
};
use niri_core::leap_gesture::service::{
    is_leap_socket, leap_socket_inodes, next_link_step, LinkOutcome, LinkStep,
};
use niri_core::leap_gesture::types::{
    opposite_direction, DragReading, LeapAxis, LeapChirality, LeapFrame, LeapGestureEvent,
    LeapHand, LeapHandData, LeapInputConfig, LeapPresenceEvent, LeapTuning, SwipeDirection,
};
use niri_core::measure::Measure;

fn m(x: f64) -> Measure {
    Measure::from_bits(x.to_bits())
}

fn config() -> LeapInputConfig {
    LeapInputConfig {
        off: false,
        notify_gestures: true,
        pinch_trigger_strength: m(0.8),
        pinch_release_strength: m(0.4),
        swipe_trigger_speed: m(400.0),
        swipe_vertical_speed: m(600.0),
        swipe_rearm_speed: m(100.0),
        swipe_return_window_us: 400_000,
        grab_trigger_strength: m(0.8),
        grab_release_strength: m(0.4),
        grab_axis_latch_distance: m(15.0),
        grab_settle_us: 50_000,
        presence_debounce_us: 250_000,
        pose_settle_us: 150_000,
        pose_max_speed: m(120.0),
    }
}

fn still_frame(timestamp_us: i64, pinch_strength: f64) -> LeapFrame {
    let none = Measure::zero();
    LeapFrame {
        timestamp_us,
        hands: vec![LeapHandData {
            chirality: LeapChirality::Right,
            palm_position: [none; 3],
            palm_velocity: [none; 3],
            planar_speed: none,
            pinch_strength: m(pinch_strength),
            grab_strength: none,
            fingers_extended: [false; 5],
            drag: DragReading {
                dx: none,
                dy: none,
                dz: none,
                distance: none,
                weighted_dy: none,
                weighted_dz: none,
                delta: none,
            },
        }],
    }
}

#[test]
fn tuning_follows_the_configuration() {
    let tuning = LeapTuning::from_config(&config());
    assert_eq!(tuning.pinch_trigger, m(0.8));
    assert_eq!(tuning.pinch_release, m(0.4));
    assert_eq!(tuning.swipe_trigger_speed, m(400.0));
    assert_eq!(tuning.swipe_vertical_speed, m(600.0));
    assert_eq!(tuning.swipe_rearm_speed, m(100.0));
    assert_eq!(tuning.swipe_return_window_us, 400_000);
    assert_eq!(tuning.grab_trigger, m(0.8));
    assert_eq!(tuning.grab_release, m(0.4));
    assert_eq!(tuning.grab_axis_latch_mm, m(15.0));
    assert_eq!(tuning.grab_settle_us, 50_000);
    assert_eq!(tuning.presence_debounce_us, 250_000);
    assert_eq!(tuning.pose_settle_us, 150_000);
    assert_eq!(tuning.pose_max_speed, m(120.0));
}

#[test]
fn frames_are_answered_with_reactions() {
    let mut state = State::new();
    let (timestamp, reactions) = state.on_leap_frame(&still_frame(-5, 0.0), &config());
    assert_eq!(timestamp, 0);
    assert!(reactions.is_empty());
    let (timestamp, reactions) = state.on_leap_frame(&still_frame(10_000, 0.9), &config());
    assert_eq!(timestamp, 10_000);
    assert_eq!(reactions.len(), 1);
    assert_eq!(
        reactions[0].command,
        LeapCommand::FireDiscrete {
            specific: LeapTrigger::LeapPinch { hand: LeapHand::Right },
            fallback: LeapTrigger::LeapPinch { hand: LeapHand::Any },
        }
    );
    assert_eq!(
        reactions[0].notification,
        Some(vec!["notify-send".to_owned(), "Leap".to_owned(), "Pinch (right)".to_owned()])
    );
}

#[test]
fn switched_off_input_is_ignored() {
    let mut state = State::new();
    let mut off = config();
    off.off = true;
    state.on_leap_frame(&still_frame(0, 0.0), &off);
    // The hand was not taken in, so it isn't armed either.
    let (_, reactions) = state.on_leap_frame(&still_frame(10_000, 0.9), &config());
    assert!(reactions.is_empty());
}

#[test]
fn commands_name_the_hand_before_any_hand() {
    let left = LeapChirality::Left;
    let command = |event| on_leap_gesture_event(event, false).command;
    assert_eq!(
        command(LeapGestureEvent::Swipe { hand: left, direction: SwipeDirection::Up }),
        LeapCommand::FireDiscrete {
            specific: LeapTrigger::LeapSwipe {
                hand: LeapHand::Left,
                direction: SwipeDirection::Up
            },
            fallback: LeapTrigger::LeapSwipe {
                hand: LeapHand::Any,
                direction: SwipeDirection::Up
            },
        }
    );
    assert_eq!(
        command(LeapGestureEvent::Presence { hand: left, event: LeapPresenceEvent::Vanish }),
        LeapCommand::FireDiscrete {
            specific: LeapTrigger::LeapPresence {
                hand: LeapHand::Left,
                event: LeapPresenceEvent::Vanish
            },
            fallback: LeapTrigger::LeapPresence {
                hand: LeapHand::Any,
                event: LeapPresenceEvent::Vanish
            },
        }
    );
    assert_eq!(
        command(LeapGestureEvent::Pose { hand: left, fingers: 4 }),
        LeapCommand::FireDiscrete {
            specific: LeapTrigger::LeapPose { hand: LeapHand::Left, fingers: 4 },
            fallback: LeapTrigger::LeapPose { hand: LeapHand::Any, fingers: 4 },
        }
    );
    assert_eq!(
        command(LeapGestureEvent::GrabBegin { hand: left, axis: LeapAxis::Depth }),
        LeapCommand::GrabBegin {
            specific: LeapTrigger::LeapGrabDrag { hand: LeapHand::Left, axis: LeapAxis::Depth },
            fallback: LeapTrigger::LeapGrabDrag { hand: LeapHand::Any, axis: LeapAxis::Depth },
        }
    );
    assert_eq!(
        command(LeapGestureEvent::GrabUpdate {
            hand: left,
            axis: LeapAxis::Depth,
            delta_mm: m(2.0),
            total_mm: m(9.0),
        }),
        LeapCommand::GrabUpdate { delta_mm: m(2.0) }
    );
    assert_eq!(
        command(LeapGestureEvent::GrabEnd { hand: left, axis: LeapAxis::Depth }),
        LeapCommand::GrabEnd
    );
    assert_eq!(specific_hand(LeapChirality::Right), LeapHand::Right);
}

#[test]
fn notifications_spell_the_gesture_out() {
    let right = LeapChirality::Right;
    let said = |event| notification_body(event);
    assert_eq!(
        said(LeapGestureEvent::Swipe { hand: right, direction: SwipeDirection::Left }),
        Some("Swipe Left (right)".to_owned())
    );
    assert_eq!(
        said(LeapGestureEvent::GrabBegin { hand: right, axis: LeapAxis::Vertical }),
        Some("Grab-Drag Vertical begin (right)".to_owned())
    );
    assert_eq!(
        said(LeapGestureEvent::GrabEnd { hand: right, axis: LeapAxis::Horizontal }),
        Some("Grab-Drag Horizontal end (right)".to_owned())
    );
    assert_eq!(
        said(LeapGestureEvent::Presence {
            hand: LeapChirality::Left,
            event: LeapPresenceEvent::Appear
        }),
        Some("Hand Appear (left)".to_owned())
    );
    assert_eq!(
        said(LeapGestureEvent::Pose { hand: right, fingers: 1 }),
        Some("Pose 1 finger (right)".to_owned())
    );
    assert_eq!(
        said(LeapGestureEvent::Pose { hand: right, fingers: 255 }),
        Some("Pose 255 fingers (right)".to_owned())
    );
    assert_eq!(
        said(LeapGestureEvent::Pose { hand: right, fingers: 0 }),
        Some("Pose 0 fingers (right)".to_owned())
    );
    assert_eq!(
        said(LeapGestureEvent::GrabUpdate {
            hand: right,
            axis: LeapAxis::Depth,
            delta_mm: m(1.0),
            total_mm: m(1.0),
        }),
        None
    );
}

#[test]
fn drag_updates_are_never_announced() {
    let update = LeapGestureEvent::GrabUpdate {
        hand: LeapChirality::Left,
        axis: LeapAxis::Depth,
        delta_mm: m(1.0),
        total_mm: m(1.0),
    };
    assert_eq!(on_leap_gesture_event(update, true).notification, None);
    let pinch = LeapGestureEvent::Pinch { hand: LeapChirality::Left };
    assert_eq!(on_leap_gesture_event(pinch, false).notification, None);
}

fn bound(kind: Option<ContinuousGestureKind>) -> LeapBind {
    LeapBind {
        action: 42,
        kind,
        allow_when_locked: true,
        sensitivity: None,
        natural_scroll: false,
    }
}

#[test]
fn hand_specific_bind_wins() {
    let mut other = bound(None);
    other.action = 7;
    assert_eq!(State::leap_find_bind(Some(bound(None)), Some(other)), Some(bound(None)));
    assert_eq!(State::leap_find_bind(None, Some(other)), Some(other));
    assert_eq!(State::leap_find_bind(None, None), None);
}

#[test]
fn discrete_binds_fire_their_action() {
    assert_eq!(
        State::leap_fire_discrete(Some(bound(None))),
        Some(ActionCall { action: 42, allow_when_locked: true })
    );
    assert_eq!(State::leap_fire_discrete(None), None);
}

#[test]
fn discrete_action_on_a_drag_fires_at_latch_only() {
    let mut state = State::new();
    assert_eq!(
        state.leap_grab_begin(Some(bound(None)), false),
        GrabBeginStep::DoAction(ActionCall { action: 42, allow_when_locked: true })
    );
    assert_eq!(state.leap_grab_update(m(3.0)), GrabUpdateStep::Nothing);
    assert_eq!(state.leap_grab_end(), GrabEndStep::Nothing);
}

#[test]
fn drags_drive_one_animation_from_begin_to_end() {
    let mut state = State::new();
    let kind = ContinuousGestureKind::WorkspaceSwitch;
    assert_eq!(
        state.leap_grab_begin(Some(bound(Some(kind))), false),
        GrabBeginStep::BeginWorkspaceSwitch
    );
    assert_eq!(state.leap_grab_bind, Some(ActiveSwipeBind { kind, sensitivity: m(1.0) }));
    // Hand up is fingers up on a touchpad.
    assert_eq!(
        state.leap_grab_update(m(3.0)),
        GrabUpdateStep::WorkspaceSwitch { delta: m(-3.0) }
    );
    assert_eq!(state.leap_grab_end(), GrabEndStep::EndWorkspaceSwitch);
    assert_eq!(state.leap_grab_update(m(3.0)), GrabUpdateStep::Nothing);
    assert_eq!(state.leap_grab_end(), GrabEndStep::Nothing);

    let kind = ContinuousGestureKind::ViewScroll;
    for overview in [false, true] {
        assert_eq!(
            state.leap_grab_begin(Some(bound(Some(kind))), overview),
            GrabBeginStep::BeginViewScroll { workspace_under_cursor: overview }
        );
    }
    assert_eq!(state.leap_grab_update(m(3.0)), GrabUpdateStep::ViewScroll { delta: m(3.0) });
    assert_eq!(state.leap_grab_end(), GrabEndStep::EndViewScroll);

    let kind = ContinuousGestureKind::OverviewToggle;
    assert_eq!(
        state.leap_grab_begin(Some(bound(Some(kind))), false),
        GrabBeginStep::BeginOverview
    );
    assert_eq!(state.leap_grab_update(m(3.0)), GrabUpdateStep::Overview { delta: m(3.0) });
    assert_eq!(state.leap_grab_end(), GrabEndStep::EndOverview);

    let kind = ContinuousGestureKind::Noop;
    assert_eq!(
        state.leap_grab_begin(Some(bound(Some(kind))), false),
        GrabBeginStep::Nothing
    );
    assert!(state.leap_grab_bind.is_some());
    assert_eq!(state.leap_grab_update(m(3.0)), GrabUpdateStep::Nothing);
    assert_eq!(state.leap_grab_end(), GrabEndStep::Nothing);
}

#[test]
fn unbound_drag_leaves_the_one_in_progress() {
    let mut state = State::new();
    let kind = ContinuousGestureKind::ViewScroll;
    state.leap_grab_begin(Some(bound(Some(kind))), false);
    assert_eq!(state.leap_grab_begin(None, false), GrabBeginStep::Nothing);
    assert_eq!(state.leap_grab_end(), GrabEndStep::EndViewScroll);
}

#[test]
fn natural_scroll_turns_the_drag_around() {
    let mut state = State::new();
    let mut bind = bound(Some(ContinuousGestureKind::ViewScroll));
    bind.sensitivity = Some(m(2.5));
    bind.natural_scroll = true;
    state.leap_grab_begin(Some(bind), false);
    assert_eq!(state.leap_grab_bind.unwrap().sensitivity, m(-2.5));
}

#[test]
fn directions_have_opposites() {
    assert_eq!(opposite_direction(SwipeDirection::Left), SwipeDirection::Right);
    assert_eq!(opposite_direction(SwipeDirection::Right), SwipeDirection::Left);
    assert_eq!(opposite_direction(SwipeDirection::Up), SwipeDirection::Down);
    assert_eq!(opposite_direction(SwipeDirection::Down), SwipeDirection::Up);
}

#[test]
fn link_reconnects_only_when_the_service_is_gone() {
    let pause = LinkStep::PauseAndReconnect { pause_ms: 5_000 };
    let expected = [
        (LinkOutcome::ReadyToConnect, LinkStep::Connect),
        (LinkOutcome::CreateFailed, pause),
        (LinkOutcome::OpenFailed, pause),
        (LinkOutcome::Opened, LinkStep::GuardSocketsAndPoll),
        (LinkOutcome::Tracking, LinkStep::SendFrame),
        (LinkOutcome::OtherMessage, LinkStep::Poll),
        (LinkOutcome::FrameSent, LinkStep::Poll),
        (LinkOutcome::ReceiverGone, LinkStep::Stop),
        (LinkOutcome::Timeout, LinkStep::Poll),
        (LinkOutcome::HandshakeIncomplete, LinkStep::Poll),
        (LinkOutcome::NotConnected, pause),
        (LinkOutcome::UnexpectedClosed, pause),
        (LinkOutcome::OtherError, LinkStep::BackOff { pause_ms: 100 }),
        (LinkOutcome::BackedOff, LinkStep::Poll),
    ];
    for (outcome, step) in expected {
        assert_eq!(next_link_step(outcome), step);
    }
}

const TCP: &str = "  sl  local_address rem_address   st tx_queue rx_queue tr tm->when retrnsmt   uid  timeout inode
   0: 0100007F:3039 00000000:0000 0A 00000000:00000000 00:00000000 00000000     0        0 11111 1 0000000000000000 100 0 0 10 0
   1: 0100007F:C350 0100007F:3039 01 00000000:00000000 00:00000000 00000000  1000        0 22222 1 0000000000000000 20 4 30 10 -1
   2: 0100007F:C351 0100007F:3038 01 00000000:00000000 00:00000000 00000000  1000        0 33333 1 0000000000000000 20 4 30 10 -1
   3: 0100007F:C352 0100007F:3039 01

   4: 0100007F:C353 0100007F:3039 01 00000000:00000000 00:00000000 00000000  1000        0 44444";

#[test]
fn sockets_of_the_service_are_found() {
    let inodes = leap_socket_inodes(TCP);
    let spelled: Vec<String> = inodes.iter().map(|inode| inode.iter().collect()).collect();
    assert_eq!(spelled, vec!["22222", "44444"]);
    assert!(is_leap_socket("socket:[22222]", &inodes));
    assert!(is_leap_socket("socket:[44444]", &inodes));
    assert!(!is_leap_socket("socket:[11111]", &inodes));
    assert!(!is_leap_socket("socket:[222222]", &inodes));
    assert!(!is_leap_socket("pipe:[22222]", &inodes));
    assert!(!is_leap_socket("socket:[22222]", &vec![]));
}

#[test]
fn heading_alone_names_no_socket() {
    assert!(leap_socket_inodes("").is_empty());
    assert!(leap_socket_inodes("a b c:3039 d e f g h i j").is_empty());
    assert_eq!(leap_socket_inodes("\na b c:3039 d e f g h i j\n").len(), 1);
}
