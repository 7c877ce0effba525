//! Shared gesture state: the active contact set and the gesture mode.

use vstd::prelude::*;
use crate::contact::{Contact, Phase};

verus! {

/// Direction of an automatic pinch-zoom animation, taken from the sign of the
/// wheel delta that started it: negative zooms out, positive zooms in.
#[derive(Clone, Copy, Debug, PartialEq, Eq, Structural)]
pub enum ZoomDirection {
    ZoomIn,
    ZoomOut,
}

/// Which of the two mutually exclusive synthesis behaviours currently owns
/// the contact set. Exactly one mode holds at any instant.
#[derive(Clone, Copy, Debug, PartialEq, Eq, Structural)]
pub enum GestureMode {
    /// No synthetic gesture is in progress; the contact set is empty.
    Idle,
    /// A drag gesture (button down, moves, button up) is in progress.
    Active,
    /// An automatic pinch-zoom animation is in progress.
    AutoZooming(ZoomDirection),
}

/// The mathematical model of the shared gesture state.
#[verifier::ext_equal]
pub struct GestureModel {
    pub contacts: Seq<Contact>,
    pub mode: GestureMode,
}

impl GestureModel {
    /// Well-formedness of the shared state:
    /// - at most two contacts are active;
    /// - contact ids are positional: id 0 is the first-pressed (primary)
    ///   contact, id 1 the secondary finger;
    /// - between critical sections every stored contact is in the steady held
    ///   phase `Update`;
    /// - the mode is `Idle` exactly when the contact set is empty, and an
    ///   auto-zoom always owns a full two-contact pinch pair.
    pub open spec fn wf(self) -> bool {
        &&& self.contacts.len() <= 2
        &&& forall|i: int|
            0 <= i < self.contacts.len() ==> (#[trigger] self.contacts[i]).id == i as u32
        &&& forall|i: int|
            0 <= i < self.contacts.len() ==> (#[trigger] self.contacts[i]).phase is Update
        &&& (self.mode is Idle <==> self.contacts.len() == 0)
        &&& (self.mode is AutoZooming ==> self.contacts.len() == 2)
    }
}

/// The shared, lock-protected state: the currently active synthetic contacts
/// and the gesture mode that owns them.
pub struct TouchState {
    pub contacts: Vec<Contact>,
    pub mode: GestureMode,
}

impl View for TouchState {
    type V = GestureModel;

    open spec fn view(&self) -> GestureModel {
        GestureModel { contacts: self.contacts@, mode: self.mode }
    }
}

impl TouchState {
    /// The empty, idle state a process starts in.
    pub fn new() -> (s: TouchState)
        ensures
            s@.wf(),
            s@.contacts.len() == 0,
            s@.mode is Idle,
    {
        TouchState { contacts: Vec::new(), mode: GestureMode::Idle }
    }

    /// Runtime check of the well-formedness invariant, for callers outside
    /// the verified boundary that must test it before handing the state to
    /// the engine.
    pub fn check_wf(&self) -> (r: bool)
        ensures
            r == self@.wf(),
    {
        if self.contacts.len() > 2 {
            return false;
        }
        let mut i: usize = 0;
        while i < self.contacts.len()
            invariant
                i <= self.contacts@.len(),
                forall|j: int|
                    0 <= j < i ==> (#[trigger] self.contacts@[j]).id == j as u32
                        && self.contacts@[j].phase is Update,
            decreases self.contacts@.len() - i,
        {
            let c = self.contacts[i];
            if c.id != i as u32 || !matches!(c.phase, Phase::Update) {
                return false;
            }
            i += 1;
        }
        let idle = matches!(self.mode, GestureMode::Idle);
        if idle != (self.contacts.len() == 0) {
            return false;
        }
        if matches!(self.mode, GestureMode::AutoZooming(_)) && self.contacts.len() != 2 {
            return false;
        }
        true
    }
}

} // verus!
