//! The event interceptor's decision logic.
//!
//! The hook callback is split into two verified halves around the one outside
//! effect, touch injection. For an event, [`plan_injection`] says which
//! contact batch must be submitted (or that the event passes through), and
//! [`apply_event`], given the injection outcome, performs the state
//! transition and says whether the event is handled and which background
//! worker must be woken. The caller injects the planned batch between the two
//! calls and otherwise never blocks.

use vstd::prelude::*;
use crate::contact::{
    copy_contacts, moved, pressed, release_batch, released, Contact, Phase, Point,
};
use crate::events::{EventKind, Modifiers, MouseEvent};
use crate::state::{GestureMode, GestureModel, TouchState, ZoomDirection};

verus! {

/// Offset, in pixels, of each pinch contact from the cursor along both axes
/// when an auto-zoom animation starts.
pub const PINCH_OFFSET: i32 = 100;

/// Whether an event reaches the gesture logic at all. Events the system
/// echoes back for the touches this engine itself injects are ignored, to
/// prevent feedback loops; and while an auto-zoom animation is in progress,
/// every event passes through untouched, so that no new gesture can start
/// mid-animation.
pub open spec fn reaches_engine(m: GestureModel, ev: MouseEvent) -> bool {
    !ev.echoed && !(m.mode is AutoZooming)
}

/// The point `d` pixels diagonally away from `p` along both axes.
pub open spec fn shifted(p: Point, d: int) -> Point {
    Point { x: (p.x + d) as i32, y: (p.y + d) as i32 }
}

/// Whether the cursor sits far enough from the numeric edge of the
/// coordinate space for both pinch offsets to be representable.
pub open spec fn wheel_fits(p: Point) -> bool {
    &&& i32::MIN + PINCH_OFFSET <= p.x <= i32::MAX - PINCH_OFFSET
    &&& i32::MIN + PINCH_OFFSET <= p.y <= i32::MAX - PINCH_OFFSET
}

/// The drag-start case: a button-down with the gesture key held while no
/// gesture owns the contact set.
pub open spec fn down_applies(m: GestureModel, ev: MouseEvent, mods: Modifiers) -> bool {
    &&& reaches_engine(m, ev)
    &&& ev.kind is ButtonDown
    &&& mods.gesture_key
    &&& m.mode is Idle
}

/// The drag-move case: a cursor move while a drag gesture is active.
pub open spec fn move_applies(m: GestureModel, ev: MouseEvent) -> bool {
    &&& reaches_engine(m, ev)
    &&& ev.kind is Move
    &&& m.mode is Active
}

/// The release case: a button-up while the contact set is non-empty.
pub open spec fn up_applies(m: GestureModel, ev: MouseEvent) -> bool {
    &&& reaches_engine(m, ev)
    &&& ev.kind is ButtonUp
    &&& m.mode is Active
}

/// The auto-zoom-start case: a wheel turn with the gesture key held while no
/// gesture owns the contact set, at a cursor position whose pinch offsets are
/// representable.
pub open spec fn wheel_applies(m: GestureModel, ev: MouseEvent, mods: Modifiers) -> bool {
    &&& reaches_engine(m, ev)
    &&& ev.kind is Wheel
    &&& mods.gesture_key
    &&& m.mode is Idle
    &&& wheel_fits(ev.pos)
}

/// The zoom direction a wheel delta asks for: negative zooms out, otherwise
/// the zoom goes in.
pub open spec fn wheel_direction(delta: i16) -> ZoomDirection {
    if delta < 0 {
        ZoomDirection::ZoomOut
    } else {
        ZoomDirection::ZoomIn
    }
}

/// The press batch of a drag start: a primary contact at the cursor, plus a
/// secondary contact at the same position if the second-finger key is held.
pub open spec fn down_batch(pos: Point, two_fingers: bool) -> Seq<Contact> {
    if two_fingers {
        seq![
            Contact { id: 0, pos, phase: Phase::Down },
            Contact { id: 1, pos, phase: Phase::Down },
        ]
    } else {
        seq![Contact { id: 0, pos, phase: Phase::Down }]
    }
}

/// The press batch of an auto-zoom start: two contacts straddling the cursor,
/// offset diagonally in opposite directions. For a zoom-out the pair starts
/// spread so the animation can diverge; for a zoom-in the offsets are
/// inverted, so the pair starts spread the other way round and the animation
/// converges.
pub open spec fn wheel_batch(pos: Point, dir: ZoomDirection) -> Seq<Contact> {
    match dir {
        ZoomDirection::ZoomOut => seq![
            Contact { id: 0, pos: shifted(pos, -PINCH_OFFSET as int), phase: Phase::Down },
            Contact { id: 1, pos: shifted(pos, PINCH_OFFSET as int), phase: Phase::Down },
        ],
        ZoomDirection::ZoomIn => seq![
            Contact { id: 0, pos: shifted(pos, PINCH_OFFSET as int), phase: Phase::Down },
            Contact { id: 1, pos: shifted(pos, -PINCH_OFFSET as int), phase: Phase::Down },
        ],
    }
}

/// The batch an event asks to inject, if any: the press batch of a starting
/// gesture, the full contact set with the cursor contact moved, or the
/// release batch of an ending drag. `None` means nothing is injected and the
/// event passes through.
pub open spec fn spec_plan(m: GestureModel, ev: MouseEvent, mods: Modifiers) -> Option<
    Seq<Contact>,
> {
    if down_applies(m, ev, mods) {
        Some(down_batch(ev.pos, mods.second_finger_key))
    } else if move_applies(m, ev) {
        Some(moved(m.contacts, ev.pos))
    } else if up_applies(m, ev) {
        Some(released(m.contacts))
    } else if wheel_applies(m, ev, mods) {
        Some(wheel_batch(ev.pos, wheel_direction(ev.kind->delta)))
    } else {
        None
    }
}

/// The state after an event, given whether injecting the planned batch
/// succeeded. A failed press injection mutates nothing; a move keeps its new
/// position and a release clears the set whatever the injection outcome, as
/// injection failures are soft everywhere.
pub open spec fn spec_step(m: GestureModel, ev: MouseEvent, mods: Modifiers, ok: bool) -> GestureModel {
    if down_applies(m, ev, mods) {
        if ok {
            GestureModel {
                contacts: pressed(down_batch(ev.pos, mods.second_finger_key)),
                mode: GestureMode::Active,
            }
        } else {
            m
        }
    } else if move_applies(m, ev) {
        GestureModel { contacts: moved(m.contacts, ev.pos), mode: m.mode }
    } else if up_applies(m, ev) {
        GestureModel { contacts: Seq::empty(), mode: GestureMode::Idle }
    } else if wheel_applies(m, ev, mods) {
        if ok {
            GestureModel {
                contacts: pressed(wheel_batch(ev.pos, wheel_direction(ev.kind->delta))),
                mode: GestureMode::AutoZooming(wheel_direction(ev.kind->delta)),
            }
        } else {
            m
        }
    } else {
        m
    }
}

/// Whether default processing of the event is suppressed: a gesture-key press
/// always claims the event, a release of an active drag does too, and a
/// wheel turn is claimed only when its press batch was injected successfully.
pub open spec fn spec_handled(m: GestureModel, ev: MouseEvent, mods: Modifiers, ok: bool) -> bool {
    ||| down_applies(m, ev, mods)
    ||| up_applies(m, ev)
    ||| (wheel_applies(m, ev, mods) && ok)
}

/// Whether the keep-alive worker must be woken: after a successful drag
/// start, so it refreshes the held contacts, and after a release, so it can
/// observe emptiness and return to waiting.
pub open spec fn spec_wakes_keep_alive(
    m: GestureModel,
    ev: MouseEvent,
    mods: Modifiers,
    ok: bool,
) -> bool {
    ||| (down_applies(m, ev, mods) && ok)
    ||| up_applies(m, ev)
}

/// Whether the auto-zoom animator must be woken: after a successful pinch
/// press.
pub open spec fn spec_wakes_auto_zoom(
    m: GestureModel,
    ev: MouseEvent,
    mods: Modifiers,
    ok: bool,
) -> bool {
    wheel_applies(m, ev, mods) && ok
}

/// What the interceptor reports back to its caller after an event.
#[derive(Clone, Copy, Debug, PartialEq, Eq, Structural)]
pub struct StepOutcome {
    /// Whether default processing of the event must be suppressed.
    pub handled: bool,
    /// Whether the keep-alive worker must be woken.
    pub wakes_keep_alive: bool,
    /// Whether the auto-zoom animator must be woken.
    pub wakes_auto_zoom: bool,
}

/// First half of the interceptor: the batch this event asks to inject, or
/// `None` when the event passes through. Reads the state, mutates nothing.
pub fn plan_injection(state: &TouchState, ev: &MouseEvent, mods: Modifiers) -> (r: Option<
    Vec<Contact>,
>)
    requires
        state@.wf(),
    ensures
        r is Some <==> spec_plan(state@, *ev, mods) is Some,
        r matches Some(v) ==> v@ == spec_plan(state@, *ev, mods)->Some_0,
{
    if ev.echoed || matches!(state.mode, GestureMode::AutoZooming(_)) {
        return None;
    }
    match ev.kind {
        EventKind::ButtonDown => {
            if mods.gesture_key && matches!(state.mode, GestureMode::Idle) {
                let mut v: Vec<Contact> = Vec::new();
                v.push(Contact { id: 0, pos: ev.pos, phase: Phase::Down });
                if mods.second_finger_key {
                    v.push(Contact { id: 1, pos: ev.pos, phase: Phase::Down });
                }
                proof {
                    assert(v@ =~= down_batch(ev.pos, mods.second_finger_key));
                }
                Some(v)
            } else {
                None
            }
        },
        EventKind::Move => {
            if matches!(state.mode, GestureMode::Active) {
                let mut v = copy_contacts(&state.contacts);
                let n = v.len();
                let last = v[n - 1];
                v.set(n - 1, Contact { id: last.id, pos: ev.pos, phase: last.phase });
                proof {
                    assert(v@ =~= moved(state@.contacts, ev.pos));
                }
                Some(v)
            } else {
                None
            }
        },
        EventKind::ButtonUp => {
            if matches!(state.mode, GestureMode::Active) {
                Some(release_batch(&state.contacts))
            } else {
                None
            }
        },
        EventKind::Wheel { delta } => {
            if mods.gesture_key && matches!(state.mode, GestureMode::Idle) && ev.pos.x
                >= i32::MIN + PINCH_OFFSET && ev.pos.x <= i32::MAX - PINCH_OFFSET && ev.pos.y
                >= i32::MIN + PINCH_OFFSET && ev.pos.y <= i32::MAX - PINCH_OFFSET {
                let off0: i32 = if delta < 0 {
                    -PINCH_OFFSET
                } else {
                    PINCH_OFFSET
                };
                let mut v: Vec<Contact> = Vec::new();
                v.push(
                    Contact {
                        id: 0,
                        pos: Point { x: ev.pos.x + off0, y: ev.pos.y + off0 },
                        phase: Phase::Down,
                    },
                );
                v.push(
                    Contact {
                        id: 1,
                        pos: Point { x: ev.pos.x - off0, y: ev.pos.y - off0 },
                        phase: Phase::Down,
                    },
                );
                proof {
                    assert(v@ =~= wheel_batch(ev.pos, wheel_direction(delta)));
                }
                Some(v)
            } else {
                None
            }
        },
    }
}

/// Second half of the interceptor: performs the state transition for this
/// event, given whether injecting the planned batch succeeded, and reports
/// whether the event is handled and which worker to wake.
pub fn apply_event(
    state: &mut TouchState,
    ev: &MouseEvent,
    mods: Modifiers,
    injection_ok: bool,
) -> (out: StepOutcome)
    requires
        old(state)@.wf(),
    ensures
        final(state)@.wf(),
        final(state)@.contacts == spec_step(old(state)@, *ev, mods, injection_ok).contacts,
        final(state)@.mode == spec_step(old(state)@, *ev, mods, injection_ok).mode,
        out.handled == spec_handled(old(state)@, *ev, mods, injection_ok),
        out.wakes_keep_alive == spec_wakes_keep_alive(old(state)@, *ev, mods, injection_ok),
        out.wakes_auto_zoom == spec_wakes_auto_zoom(old(state)@, *ev, mods, injection_ok),
{
    if ev.echoed || matches!(state.mode, GestureMode::AutoZooming(_)) {
        return StepOutcome { handled: false, wakes_keep_alive: false, wakes_auto_zoom: false };
    }
    match ev.kind {
        EventKind::ButtonDown => {
            if mods.gesture_key && matches!(state.mode, GestureMode::Idle) {
                if injection_ok {
                    let mut v: Vec<Contact> = Vec::new();
                    v.push(Contact { id: 0, pos: ev.pos, phase: Phase::Update });
                    if mods.second_finger_key {
                        v.push(Contact { id: 1, pos: ev.pos, phase: Phase::Update });
                    }
                    proof {
                        assert(v@ =~= pressed(down_batch(ev.pos, mods.second_finger_key)));
                    }
                    state.contacts = v;
                    state.mode = GestureMode::Active;
                }
                StepOutcome {
                    handled: true,
                    wakes_keep_alive: injection_ok,
                    wakes_auto_zoom: false,
                }
            } else {
                StepOutcome { handled: false, wakes_keep_alive: false, wakes_auto_zoom: false }
            }
        },
        EventKind::Move => {
            if matches!(state.mode, GestureMode::Active) {
                let n = state.contacts.len();
                let last = state.contacts[n - 1];
                state.contacts.set(n - 1, Contact { id: last.id, pos: ev.pos, phase: last.phase });
            }
            StepOutcome { handled: false, wakes_keep_alive: false, wakes_auto_zoom: false }
        },
        EventKind::ButtonUp => {
            if matches!(state.mode, GestureMode::Active) {
                state.contacts.clear();
                state.mode = GestureMode::Idle;
                StepOutcome { handled: true, wakes_keep_alive: true, wakes_auto_zoom: false }
            } else {
                StepOutcome { handled: false, wakes_keep_alive: false, wakes_auto_zoom: false }
            }
        },
        EventKind::Wheel { delta } => {
            if mods.gesture_key && matches!(state.mode, GestureMode::Idle) && ev.pos.x
                >= i32::MIN + PINCH_OFFSET && ev.pos.x <= i32::MAX - PINCH_OFFSET && ev.pos.y
                >= i32::MIN + PINCH_OFFSET && ev.pos.y <= i32::MAX - PINCH_OFFSET {
                if injection_ok {
                    let off0: i32 = if delta < 0 {
                        -PINCH_OFFSET
                    } else {
                        PINCH_OFFSET
                    };
                    let mut v: Vec<Contact> = Vec::new();
                    v.push(
                        Contact {
                            id: 0,
                            pos: Point { x: ev.pos.x + off0, y: ev.pos.y + off0 },
                            phase: Phase::Update,
                        },
                    );
                    v.push(
                        Contact {
                            id: 1,
                            pos: Point { x: ev.pos.x - off0, y: ev.pos.y - off0 },
                            phase: Phase::Update,
                        },
                    );
                    proof {
                        assert(v@ =~= pressed(wheel_batch(ev.pos, wheel_direction(delta))));
                    }
                    state.contacts = v;
                    state.mode = GestureMode::AutoZooming(
                        if delta < 0 {
                            ZoomDirection::ZoomOut
                        } else {
                            ZoomDirection::ZoomIn
                        },
                    );
                }
                StepOutcome {
                    handled: injection_ok,
                    wakes_keep_alive: false,
                    wakes_auto_zoom: injection_ok,
                }
            } else {
                StepOutcome { handled: false, wakes_keep_alive: false, wakes_auto_zoom: false }
            }
        },
    }
}

} // verus!
