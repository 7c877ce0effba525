//! Proved laws of the gesture engine: properties that relate several
//! transitions, stated over the same spec functions the executable
//! functions' contracts use.

use vstd::prelude::*;
use crate::auto_zoom::{
    spec_zoom_advance, spec_zoom_finish, spec_zoom_release, ZOOM_STEPS,
};
use crate::engine::{spec_handled, spec_plan, spec_step};
use crate::events::{Modifiers, MouseEvent};
use crate::state::GestureModel;

verus! {

/// The state after a sequence of interceptor transitions, applied first to
/// last; each entry carries the event, the modifier states read for it, and
/// the outcome of injecting its planned batch.
pub open spec fn run_steps(m: GestureModel, steps: Seq<(MouseEvent, Modifiers, bool)>) -> GestureModel
    decreases steps.len(),
{
    if steps.len() == 0 {
        m
    } else {
        run_steps(spec_step(m, steps[0].0, steps[0].1, steps[0].2), steps.drop_first())
    }
}

/// Every interceptor transition preserves well-formedness of the shared
/// state.
pub proof fn lemma_step_preserves_wf(m: GestureModel, ev: MouseEvent, mods: Modifiers, ok: bool)
    requires
        m.wf(),
    ensures
        spec_step(m, ev, mods, ok).wf(),
{
}

/// The state after ≤ [`ZOOM_STEPS`] animation steps, starting from `m`.
pub open spec fn run_zoom_steps(m: GestureModel, k: nat) -> GestureModel
    decreases k,
{
    if k == 0 {
        m
    } else {
        spec_zoom_advance(run_zoom_steps(m, (k - 1) as nat))
    }
}

/// Animation steps preserve well-formedness and never leave the auto-zoom
/// mode; only the release phase does.
pub proof fn lemma_zoom_steps_preserve(m: GestureModel, k: nat)
    requires
        m.wf(),
    ensures
        run_zoom_steps(m, k).wf(),
        run_zoom_steps(m, k).mode == m.mode,
    decreases k,
{
    if k > 0 {
        lemma_zoom_steps_preserve(m, (k - 1) as nat);
    }
}

/// For every event sequence consisting of a button-down, zero or more moves,
/// then a button-up — none echoed by the injection feedback — the contact
/// set is empty and the gesture mode is `Idle` immediately after the up,
/// whatever the modifier states and the injection outcomes were.
pub proof fn lemma_drag_sequence_resets(
    m0: GestureModel,
    down: (MouseEvent, Modifiers, bool),
    moves: Seq<(MouseEvent, Modifiers, bool)>,
    up: (MouseEvent, Modifiers, bool),
)
    requires
        m0.wf(),
        !(m0.mode is AutoZooming),
        down.0.kind is ButtonDown,
        !down.0.echoed,
        forall|i: int|
            0 <= i < moves.len() ==> (#[trigger] moves[i]).0.kind is Move && !moves[i].0.echoed,
        up.0.kind is ButtonUp,
        !up.0.echoed,
    ensures
        ({
            let m_end = spec_step(
                run_steps(spec_step(m0, down.0, down.1, down.2), moves),
                up.0,
                up.1,
                up.2,
            );
            m_end.contacts.len() == 0 && m_end.mode is Idle
        }),
{
    let m1 = spec_step(m0, down.0, down.1, down.2);
    lemma_step_preserves_wf(m0, down.0, down.1, down.2);
    lemma_moves_keep_drag(m1, moves);
    let m2 = run_steps(m1, moves);
    lemma_step_preserves_wf(m2, up.0, up.1, up.2);
}

/// Helper for [`lemma_drag_sequence_resets`]: a run of non-echoed move
/// events keeps the state well formed and out of the auto-zoom mode.
proof fn lemma_moves_keep_drag(m: GestureModel, moves: Seq<(MouseEvent, Modifiers, bool)>)
    requires
        m.wf(),
        !(m.mode is AutoZooming),
        forall|i: int|
            0 <= i < moves.len() ==> (#[trigger] moves[i]).0.kind is Move && !moves[i].0.echoed,
    ensures
        run_steps(m, moves).wf(),
        !(run_steps(m, moves).mode is AutoZooming),
    decreases moves.len(),
{
    if moves.len() > 0 {
        let m1 = spec_step(m, moves[0].0, moves[0].1, moves[0].2);
        lemma_step_preserves_wf(m, moves[0].0, moves[0].1, moves[0].2);
        assert(forall|i: int|
            0 <= i < moves.drop_first().len() ==> (#[trigger] moves.drop_first()[i]).0.kind is Move
                && !moves.drop_first()[i].0.echoed) by {
            assert(forall|i: int|
                0 <= i < moves.drop_first().len() ==> moves.drop_first()[i] == moves[i + 1]);
        }
        lemma_moves_keep_drag(m1, moves.drop_first());
    }
}

/// Every batch the interceptor plans fits the shape the injection gateway
/// submits: one or two contacts, with positional ids.
pub proof fn lemma_planned_batch_fits(m: GestureModel, ev: MouseEvent, mods: Modifiers)
    requires
        m.wf(),
        spec_plan(m, ev, mods) is Some,
    ensures
        ({
            let b = spec_plan(m, ev, mods)->Some_0;
            1 <= b.len() <= 2 && forall|i: int| 0 <= i < b.len() ==> (#[trigger] b[i]).id == i as u32
        }),
{
}

/// A button-down with both modifier keys held, taken while idle, always
/// plans exactly two contacts with ids 0 and 1 at the same starting
/// position; a successful injection stores the same pair, held, with the
/// drag gesture active.
pub proof fn lemma_two_finger_down(m: GestureModel, ev: MouseEvent, mods: Modifiers)
    requires
        m.wf(),
        m.mode is Idle,
        ev.kind is ButtonDown,
        !ev.echoed,
        mods.gesture_key,
        mods.second_finger_key,
    ensures
        spec_plan(m, ev, mods) is Some,
        ({
            let b = spec_plan(m, ev, mods)->Some_0;
            b.len() == 2 && b[0].id == 0 && b[1].id == 1 && b[0].pos == ev.pos && b[1].pos
                == ev.pos
        }),
        ({
            let after = spec_step(m, ev, mods, true);
            after.mode is Active && after.contacts.len() == 2 && after.contacts[0].id == 0
                && after.contacts[1].id == 1 && after.contacts[0].pos == ev.pos
                && after.contacts[1].pos == ev.pos
        }),
{
}

/// A wheel event taken while idle always plans exactly two contacts whose
/// positions are symmetric about the cursor point, whichever direction the
/// delta asks for.
pub proof fn lemma_wheel_symmetric(m: GestureModel, ev: MouseEvent, mods: Modifiers)
    requires
        m.wf(),
        m.mode is Idle,
        ev.kind is Wheel,
        !ev.echoed,
        mods.gesture_key,
        crate::engine::wheel_fits(ev.pos),
    ensures
        spec_plan(m, ev, mods) is Some,
        ({
            let b = spec_plan(m, ev, mods)->Some_0;
            b.len() == 2 && b[0].pos.x + b[1].pos.x == 2 * ev.pos.x && b[0].pos.y + b[1].pos.y
                == 2 * ev.pos.y
        }),
{
}

/// An auto-zoom animation always ends in the idle state: from any well
/// formed auto-zooming state, after at most [`ZOOM_STEPS`] animation steps —
/// an injection failure only shortens the prefix of steps actually taken —
/// the release phase lifts both contacts of the released pair and leaves the
/// gesture mode `Idle` with an empty contact set.
pub proof fn lemma_auto_zoom_terminates(m: GestureModel, k: nat)
    requires
        m.wf(),
        m.mode is AutoZooming,
        k <= ZOOM_STEPS,
    ensures
        ({
            let m_steps = run_zoom_steps(m, k);
            let rel = spec_zoom_release(m_steps);
            let m_end = spec_zoom_finish(m_steps);
            &&& m_end.mode is Idle
            &&& m_end.contacts.len() == 0
            &&& rel.len() == 2
            &&& forall|i: int| 0 <= i < rel.len() ==> (#[trigger] rel[i]).phase is Up
        }),
{
    lemma_zoom_steps_preserve(m, k);
}

/// While an auto-zoom animation is in progress no gesture can start and no
/// event is claimed: every event plans no injection, changes nothing, and
/// passes through to default processing.
pub proof fn lemma_no_gesture_while_auto_zooming(
    m: GestureModel,
    ev: MouseEvent,
    mods: Modifiers,
    ok: bool,
)
    requires
        m.wf(),
        m.mode is AutoZooming,
    ensures
        spec_plan(m, ev, mods) is None,
        spec_step(m, ev, mods, ok) == m,
        !spec_handled(m, ev, mods, ok),
{
}

/// While a drag gesture is active a wheel turn starts no auto-zoom: the
/// event changes nothing, and in particular the mode cannot become
/// `AutoZooming`.
pub proof fn lemma_no_auto_zoom_while_active(
    m: GestureModel,
    ev: MouseEvent,
    mods: Modifiers,
    ok: bool,
)
    requires
        m.wf(),
        m.mode is Active,
        ev.kind is Wheel,
    ensures
        spec_step(m, ev, mods, ok) == m,
        !(spec_step(m, ev, mods, ok).mode is AutoZooming),
{
}

} // verus!
