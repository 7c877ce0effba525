//! Synthetic touch contacts and the batch shapes the engine injects.

use vstd::prelude::*;

verus! {

/// Phase of a synthetic touch contact, mirroring the three flag combinations
/// the touch-injection pipeline accepts: a contact is pressed (`Down`), held
/// or moved (`Update`), or lifted (`Up`).
#[derive(Clone, Copy, Debug, PartialEq, Eq, Structural)]
pub enum Phase {
    Down,
    Update,
    Up,
}

/// A pixel position on the desktop.
#[derive(Clone, Copy, Debug, PartialEq, Eq, Structural)]
pub struct Point {
    pub x: i32,
    pub y: i32,
}

/// One synthetic touch contact: a small integer id, a position, and a phase.
#[derive(Clone, Copy, Debug, PartialEq, Eq, Structural)]
pub struct Contact {
    pub id: u32,
    pub pos: Point,
    pub phase: Phase,
}

impl Phase {
    /// A contact counts as in range of the surface until it is lifted.
    pub open spec fn spec_in_range(self) -> bool {
        self !is Up
    }

    /// A contact counts as touching the surface until it is lifted.
    pub open spec fn spec_in_contact(self) -> bool {
        self !is Up
    }

    /// The in-range marker carried alongside this phase in an injected batch.
    pub fn in_range(self) -> (r: bool)
        ensures
            r == self.spec_in_range(),
    {
        match self {
            Phase::Up => false,
            _ => true,
        }
    }

    /// The in-contact marker carried alongside this phase in an injected batch.
    pub fn in_contact(self) -> (r: bool)
        ensures
            r == self.spec_in_contact(),
    {
        match self {
            Phase::Up => false,
            _ => true,
        }
    }
}

/// The same contacts with every phase flipped to `Update`: the steady state
/// stored after a press batch was injected successfully.
pub open spec fn pressed(cs: Seq<Contact>) -> Seq<Contact> {
    Seq::new(cs.len(), |i: int| (Contact { id: cs[i].id, pos: cs[i].pos, phase: Phase::Update }))
}

/// The same contacts with every phase flipped to `Up`: the release batch.
pub open spec fn released(cs: Seq<Contact>) -> Seq<Contact> {
    Seq::new(cs.len(), |i: int| (Contact { id: cs[i].id, pos: cs[i].pos, phase: Phase::Up }))
}

/// The same contacts with the position of the most recently added one — the
/// contact that follows the cursor — replaced by `pos`.
pub open spec fn moved(cs: Seq<Contact>, pos: Point) -> Seq<Contact>
    recommends
        cs.len() > 0,
{
    let last = cs[cs.len() - 1];
    cs.update(cs.len() - 1, Contact { id: last.id, pos, phase: last.phase })
}

/// Copies a contact batch, element for element.
pub fn copy_contacts(cs: &Vec<Contact>) -> (r: Vec<Contact>)
    ensures
        r@ == cs@,
{
    let mut r: Vec<Contact> = Vec::new();
    let mut i: usize = 0;
    while i < cs.len()
        invariant
            i <= cs.len(),
            r@ == cs@.take(i as int),
        decreases cs.len() - i,
    {
        r.push(cs[i]);
        i += 1;
        proof {
            assert(r@ =~= cs@.take(i as int));
        }
    }
    proof {
        assert(r@ =~= cs@);
    }
    r
}

/// Builds the release batch for the given contacts: same ids and positions,
/// every phase `Up`.
pub fn release_batch(cs: &Vec<Contact>) -> (r: Vec<Contact>)
    ensures
        r@ == released(cs@),
{
    let mut r: Vec<Contact> = Vec::new();
    let mut i: usize = 0;
    while i < cs.len()
        invariant
            i <= cs.len(),
            r@ == released(cs@).take(i as int),
        decreases cs.len() - i,
    {
        r.push(Contact { id: cs[i].id, pos: cs[i].pos, phase: Phase::Up });
        i += 1;
        proof {
            assert(r@ =~= released(cs@).take(i as int));
        }
    }
    proof {
        assert(r@ =~= released(cs@));
    }
    r
}

} // verus!
