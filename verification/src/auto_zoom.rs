//! The auto-zoom animator's decision logic.
//!
//! Once woken after a successful pinch press, the animator drives a
//! fixed-length animation: up to [`ZOOM_STEPS`] steps, each moving the two
//! pinch contacts symmetrically and re-injecting the pair, then a release
//! phase that lifts both contacts and returns the engine to idle. The steps
//! and the release are decided here; the caller sleeps between steps,
//! injects each planned batch, and cuts the step loop short when an
//! injection fails — the release phase runs regardless.

use vstd::prelude::*;
use crate::contact::{copy_contacts, release_batch, released, Contact, Point};
use crate::state::{GestureModel, GestureMode, TouchState};

verus! {

/// Number of animation steps a full auto-zoom performs.
pub const ZOOM_STEPS: usize = 25;

/// Pixels each pinch contact moves along both axes in one animation step.
pub const ZOOM_STEP_DELTA: i32 = 3;

/// Whether both pinch contacts sit far enough from the numeric edge of the
/// coordinate space for one more step to be representable.
pub open spec fn zoom_step_fits(cs: Seq<Contact>) -> bool {
    forall|i: int|
        0 <= i < cs.len() ==> {
            &&& i32::MIN + ZOOM_STEP_DELTA <= (#[trigger] cs[i]).pos.x <= i32::MAX - ZOOM_STEP_DELTA
            &&& i32::MIN + ZOOM_STEP_DELTA <= cs[i].pos.y <= i32::MAX - ZOOM_STEP_DELTA
        }
}

/// One animation step over the pinch pair: the primary contact moves one
/// step down-left, the secondary one step up-right. With the offsets a wheel
/// start lays out, this diverges the pair of a zoom-out and converges the
/// pair of a zoom-in.
pub open spec fn zoom_stepped(cs: Seq<Contact>) -> Seq<Contact>
    recommends
        cs.len() == 2,
{
    seq![
        Contact {
            id: cs[0].id,
            pos: Point {
                x: (cs[0].pos.x - ZOOM_STEP_DELTA) as i32,
                y: (cs[0].pos.y - ZOOM_STEP_DELTA) as i32,
            },
            phase: cs[0].phase,
        },
        Contact {
            id: cs[1].id,
            pos: Point {
                x: (cs[1].pos.x + ZOOM_STEP_DELTA) as i32,
                y: (cs[1].pos.y + ZOOM_STEP_DELTA) as i32,
            },
            phase: cs[1].phase,
        },
    ]
}

/// The state after one animation step. A step is taken only while an
/// auto-zoom owns a full pinch pair whose moved positions are representable;
/// otherwise the state is left as it is.
pub open spec fn spec_zoom_advance(m: GestureModel) -> GestureModel {
    if m.mode is AutoZooming && m.contacts.len() == 2 && zoom_step_fits(m.contacts) {
        GestureModel { contacts: zoom_stepped(m.contacts), mode: m.mode }
    } else {
        m
    }
}

/// The release batch the animation's final phase injects: the current pinch
/// pair with both contacts lifted.
pub open spec fn spec_zoom_release(m: GestureModel) -> Seq<Contact> {
    released(m.contacts)
}

/// The state after the release phase: if an auto-zoom was in progress the
/// contact set is cleared and the mode returns to `Idle`; otherwise nothing
/// changes.
pub open spec fn spec_zoom_finish(m: GestureModel) -> GestureModel {
    if m.mode is AutoZooming {
        GestureModel { contacts: Seq::empty(), mode: GestureMode::Idle }
    } else {
        m
    }
}

/// One animation step: moves the pinch contacts symmetrically in place and
/// returns the updated pair for re-injection. Returns `None` — leaving the
/// state untouched — when no auto-zoom owns a full pinch pair, or when a
/// moved position would not be representable; the caller then skips to the
/// release phase.
pub fn zoom_advance(state: &mut TouchState) -> (r: Option<Vec<Contact>>)
    requires
        old(state)@.wf(),
    ensures
        final(state)@.wf(),
        final(state)@.contacts == spec_zoom_advance(old(state)@).contacts,
        final(state)@.mode == spec_zoom_advance(old(state)@).mode,
        r is Some <==> (old(state)@.mode is AutoZooming && old(state)@.contacts.len() == 2
            && zoom_step_fits(old(state)@.contacts)),
        r matches Some(v) ==> v@ == spec_zoom_advance(old(state)@).contacts,
{
    if !matches!(state.mode, GestureMode::AutoZooming(_)) || state.contacts.len() != 2 {
        return None;
    }
    let c0 = state.contacts[0];
    let c1 = state.contacts[1];
    if c0.pos.x < i32::MIN + ZOOM_STEP_DELTA || c0.pos.x > i32::MAX - ZOOM_STEP_DELTA
        || c0.pos.y < i32::MIN + ZOOM_STEP_DELTA || c0.pos.y > i32::MAX - ZOOM_STEP_DELTA
        || c1.pos.x < i32::MIN + ZOOM_STEP_DELTA || c1.pos.x > i32::MAX - ZOOM_STEP_DELTA
        || c1.pos.y < i32::MIN + ZOOM_STEP_DELTA || c1.pos.y > i32::MAX - ZOOM_STEP_DELTA {
        proof {
            assert(!zoom_step_fits(state@.contacts));
        }
        return None;
    }
    proof {
        assert(zoom_step_fits(state@.contacts));
    }
    state.contacts.set(
        0,
        Contact {
            id: c0.id,
            pos: Point { x: c0.pos.x - ZOOM_STEP_DELTA, y: c0.pos.y - ZOOM_STEP_DELTA },
            phase: c0.phase,
        },
    );
    state.contacts.set(
        1,
        Contact {
            id: c1.id,
            pos: Point { x: c1.pos.x + ZOOM_STEP_DELTA, y: c1.pos.y + ZOOM_STEP_DELTA },
            phase: c1.phase,
        },
    );
    proof {
        assert(state@.contacts =~= zoom_stepped(old(state)@.contacts));
    }
    Some(copy_contacts(&state.contacts))
}

/// The animation's release phase: lifts every contact, clears the set,
/// returns the mode to `Idle`, and hands back the release batch for
/// injection. Returns `None` — leaving the state untouched — when no
/// auto-zoom is in progress.
pub fn zoom_finish(state: &mut TouchState) -> (r: Option<Vec<Contact>>)
    requires
        old(state)@.wf(),
    ensures
        final(state)@.wf(),
        final(state)@.contacts == spec_zoom_finish(old(state)@).contacts,
        final(state)@.mode == spec_zoom_finish(old(state)@).mode,
        r is Some <==> old(state)@.mode is AutoZooming,
        r matches Some(v) ==> v@ == spec_zoom_release(old(state)@),
{
    if matches!(state.mode, GestureMode::AutoZooming(_)) {
        let rel = release_batch(&state.contacts);
        state.contacts.clear();
        state.mode = GestureMode::Idle;
        Some(rel)
    } else {
        None
    }
}

} // verus!
