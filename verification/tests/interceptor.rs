use touch_simulator::contact::{Contact, Phase, Point};
use touch_simulator::engine::{apply_event, plan_injection, StepOutcome};
use touch_simulator::events::{
    decode_event, EventKind, Modifiers, MouseEvent, HIWORD, LLMHF_INJECTED, WM_LBUTTONDOWN,
    WM_LBUTTONUP, WM_MOUSEMOVE, WM_MOUSEWHEEL,
};
use touch_simulator::state::{GestureMode, TouchState};

fn ev(kind: EventKind, x: i32, y: i32) -> MouseEvent {
    MouseEvent {
        kind,
        pos: Point { x, y },
        echoed: false,
    }
}

fn mods(gesture_key: bool, second_finger_key: bool) -> Modifiers {
    Modifiers {
        gesture_key,
        second_finger_key,
    }
}

/// Plans and applies one event, pretending injection returned `ok`; returns
/// the planned batch and the outcome.
fn step(
    state: &mut TouchState,
    event: MouseEvent,
    m: Modifiers,
    ok: bool,
) -> (Option<Vec<Contact>>, StepOutcome) {
    let batch = plan_injection(state, &event, m);
    let out = apply_event(state, &event, m, ok);
    (batch, out)
}

#[test]
fn hiword_reinterprets_the_high_word() {
    assert_eq!(HIWORD(0x8000_0000), -32768);
    assert_eq!(HIWORD(0xFFFF_0000), -1);
    assert_eq!(HIWORD(0xFF88_0000), -120);
    assert_eq!(HIWORD(0x0078_0000), 120);
    assert_eq!(HIWORD(0x0001_0000), 1);
    assert_eq!(HIWORD(0x0000_FFFF), 0);
    assert_eq!(HIWORD(0x7FFF_1234), 32767);
}

#[test]
fn decode_maps_each_message_code() {
    let moved = decode_event(WM_MOUSEMOVE, 3, 4, 0, 0).unwrap();
    assert_eq!(moved.kind, EventKind::Move);
    assert_eq!(moved.pos, Point { x: 3, y: 4 });
    assert!(!moved.echoed);

    let down = decode_event(WM_LBUTTONDOWN, -1, 2, 0, 0).unwrap();
    assert_eq!(down.kind, EventKind::ButtonDown);

    let up = decode_event(WM_LBUTTONUP, 0, 0, 0, 0).unwrap();
    assert_eq!(up.kind, EventKind::ButtonUp);

    let wheel = decode_event(WM_MOUSEWHEEL, 9, 9, 0xFF88_0000, 0).unwrap();
    assert_eq!(wheel.kind, EventKind::Wheel { delta: -120 });

    assert_eq!(decode_event(0x0203, 0, 0, 0, 0), None);
    assert_eq!(decode_event(0, 0, 0, 0, 0), None);
}

#[test]
fn decode_carries_the_echo_flag() {
    let echoed = decode_event(WM_MOUSEMOVE, 0, 0, 0, LLMHF_INJECTED).unwrap();
    assert!(echoed.echoed);
    let echoed_too = decode_event(WM_LBUTTONDOWN, 0, 0, 0, LLMHF_INJECTED | 0x10).unwrap();
    assert!(echoed_too.echoed);
    let clean = decode_event(WM_LBUTTONDOWN, 0, 0, 0, 0x10).unwrap();
    assert!(!clean.echoed);
}

#[test]
fn phase_markers_follow_the_phase() {
    assert!(Phase::Down.in_range() && Phase::Down.in_contact());
    assert!(Phase::Update.in_range() && Phase::Update.in_contact());
    assert!(!Phase::Up.in_range() && !Phase::Up.in_contact());
}

#[test]
fn scenario_single_finger_drag() {
    let mut state = TouchState::new();

    // down at (100,100) with the gesture key alone
    let (batch, out) = step(&mut state, ev(EventKind::ButtonDown, 100, 100), mods(true, false), true);
    let batch = batch.expect("a down must plan a press batch");
    assert_eq!(batch.len(), 1);
    assert_eq!(batch[0].id, 0);
    assert_eq!(batch[0].pos, Point { x: 100, y: 100 });
    assert_eq!(batch[0].phase, Phase::Down);
    assert!(out.handled);
    assert!(out.wakes_keep_alive);
    assert!(!out.wakes_auto_zoom);
    assert_eq!(state.mode, GestureMode::Active);
    assert_eq!(state.contacts.len(), 1);
    assert_eq!(state.contacts[0].pos, Point { x: 100, y: 100 });
    assert_eq!(state.contacts[0].phase, Phase::Update);

    // move to (150,120): the contact follows the cursor
    let (batch, out) = step(&mut state, ev(EventKind::Move, 150, 120), mods(true, false), true);
    let batch = batch.expect("a move during a drag must re-inject");
    assert_eq!(batch.len(), 1);
    assert_eq!(batch[0].pos, Point { x: 150, y: 120 });
    assert!(!out.handled);
    assert_eq!(state.contacts[0].pos, Point { x: 150, y: 120 });
    assert_eq!(state.mode, GestureMode::Active);

    // up: the release batch lifts the contact, the set empties
    let (batch, out) = step(&mut state, ev(EventKind::ButtonUp, 150, 120), mods(true, false), true);
    let batch = batch.expect("an up during a drag must inject the release");
    assert_eq!(batch.len(), 1);
    assert_eq!(batch[0].phase, Phase::Up);
    assert!(out.handled);
    assert!(out.wakes_keep_alive);
    assert!(state.contacts.is_empty());
    assert_eq!(state.mode, GestureMode::Idle);
}

#[test]
fn scenario_two_finger_down() {
    let mut state = TouchState::new();
    let (batch, _) = step(&mut state, ev(EventKind::ButtonDown, 100, 100), mods(true, true), true);
    let batch = batch.unwrap();
    assert_eq!(batch.len(), 2);
    assert_eq!(batch[0].id, 0);
    assert_eq!(batch[1].id, 1);
    assert_eq!(batch[0].pos, Point { x: 100, y: 100 });
    assert_eq!(batch[1].pos, Point { x: 100, y: 100 });
    assert_eq!(state.contacts.len(), 2);
    assert_eq!(state.contacts[0].pos, state.contacts[1].pos);
    assert_eq!(state.mode, GestureMode::Active);

    // the move follows the most recently added contact, the second finger
    let (_, _) = step(&mut state, ev(EventKind::Move, 130, 90), mods(true, true), true);
    assert_eq!(state.contacts[0].pos, Point { x: 100, y: 100 });
    assert_eq!(state.contacts[1].pos, Point { x: 130, y: 90 });
}

#[test]
fn failed_down_injection_mutates_nothing() {
    let mut state = TouchState::new();
    let (batch, out) = step(&mut state, ev(EventKind::ButtonDown, 10, 10), mods(true, false), false);
    assert!(batch.is_some());
    assert!(out.handled); // the down path claims the event even on failure
    assert!(!out.wakes_keep_alive);
    assert!(state.contacts.is_empty());
    assert_eq!(state.mode, GestureMode::Idle);
}

#[test]
fn down_without_gesture_key_passes_through() {
    let mut state = TouchState::new();
    let (batch, out) = step(&mut state, ev(EventKind::ButtonDown, 10, 10), mods(false, true), true);
    assert!(batch.is_none());
    assert!(!out.handled);
    assert!(state.contacts.is_empty());
    assert_eq!(state.mode, GestureMode::Idle);
}

#[test]
fn echoed_events_are_ignored() {
    let mut state = TouchState::new();
    let event = MouseEvent {
        kind: EventKind::ButtonDown,
        pos: Point { x: 5, y: 5 },
        echoed: true,
    };
    let (batch, out) = step(&mut state, event, mods(true, false), true);
    assert!(batch.is_none());
    assert!(!out.handled);
    assert_eq!(state.mode, GestureMode::Idle);
}

#[test]
fn up_while_idle_passes_through() {
    let mut state = TouchState::new();
    let (batch, out) = step(&mut state, ev(EventKind::ButtonUp, 0, 0), mods(false, false), true);
    assert!(batch.is_none());
    assert!(!out.handled);
    assert!(!out.wakes_keep_alive);
}

#[test]
fn move_while_idle_passes_through() {
    let mut state = TouchState::new();
    let (batch, out) = step(&mut state, ev(EventKind::Move, 7, 7), mods(true, true), true);
    assert!(batch.is_none());
    assert!(!out.handled);
    assert!(state.contacts.is_empty());
}

#[test]
fn check_wf_accepts_engine_states_and_rejects_tampered_ones() {
    let mut state = TouchState::new();
    assert!(state.check_wf());

    step(&mut state, ev(EventKind::ButtonDown, 1, 2), mods(true, true), true);
    assert!(state.check_wf());

    // tampering with the ids breaks the invariant
    state.contacts[1].id = 5;
    assert!(!state.check_wf());

    // an idle state with contacts is ill-formed too
    let mut tampered = TouchState::new();
    tampered.contacts.push(Contact {
        id: 0,
        pos: Point { x: 0, y: 0 },
        phase: Phase::Update,
    });
    assert!(!tampered.check_wf());

    // a stored contact must be in the held phase
    let mut stale = TouchState::new();
    step(&mut stale, ev(EventKind::ButtonDown, 1, 2), mods(true, false), true);
    stale.contacts[0].phase = Phase::Down;
    assert!(!stale.check_wf());
}

#[test]
fn down_while_active_is_a_no_op() {
    let mut state = TouchState::new();
    step(&mut state, ev(EventKind::ButtonDown, 1, 1), mods(true, false), true);
    assert_eq!(state.mode, GestureMode::Active);
    let (batch, out) = step(&mut state, ev(EventKind::ButtonDown, 2, 2), mods(true, false), true);
    assert!(batch.is_none());
    assert!(!out.handled);
    assert_eq!(state.contacts.len(), 1);
    assert_eq!(state.contacts[0].pos, Point { x: 1, y: 1 });
}
