use touch_simulator::contact::{Phase, Point};
use touch_simulator::engine::apply_event;
use touch_simulator::events::{EventKind, Modifiers, MouseEvent};
use touch_simulator::keep_alive::keep_alive_refresh;
use touch_simulator::state::TouchState;

#[test]
fn refresh_of_an_empty_set_waits() {
    let state = TouchState::new();
    assert!(keep_alive_refresh(&state).is_none());
}

#[test]
fn refresh_re_injects_the_unchanged_set() {
    let mut state = TouchState::new();
    let down = MouseEvent {
        kind: EventKind::ButtonDown,
        pos: Point { x: 42, y: 7 },
        echoed: false,
    };
    let mods = Modifiers {
        gesture_key: true,
        second_finger_key: true,
    };
    apply_event(&mut state, &down, mods, true);

    let batch = keep_alive_refresh(&state).expect("an active gesture is refreshed");
    assert_eq!(batch, state.contacts);
    assert_eq!(batch.len(), 2);
    assert!(batch.iter().all(|c| c.phase == Phase::Update));

    // a refresh is a no-op on the state: refreshing twice plans the same batch
    let again = keep_alive_refresh(&state).unwrap();
    assert_eq!(again, batch);
}
