//! The keep-alive worker's decision logic.
//!
//! The touch subsystem silently expires a contact that receives no injection
//! within its idle window. A background worker therefore re-injects the
//! unchanged contact set at a fixed cadence while a gesture is active. The
//! worker's loop body reduces to one decision, taken here: either the current
//! set must be refreshed, or it is empty and the worker returns to its
//! indefinite wait.

use vstd::prelude::*;
use crate::contact::{copy_contacts, Contact};
use crate::state::TouchState;

verus! {

/// The batch a keep-alive tick must re-inject: the current contact set,
/// unchanged, or `None` when the set is empty and the worker should go back
/// to waiting. A failed refresh injection is non-fatal and changes nothing,
/// so this reads the state and mutates nothing.
pub fn keep_alive_refresh(state: &TouchState) -> (r: Option<Vec<Contact>>)
    ensures
        r is Some <==> state@.contacts.len() > 0,
        r matches Some(v) ==> v@ == state@.contacts,
{
    if state.contacts.len() > 0 {
        Some(copy_contacts(&state.contacts))
    } else {
        None
    }
}

} // verus!
