//! The result unifier's side of the protocol, over a plain-value model of
//! the host's output slot. The host hands each call one output slot; binding
//! a produced value into it either succeeds — after which the slot holds
//! that value — or fails and leaves the slot as it was. The same pass/fail
//! contract serves the deterministic calls and the suspendable enumeration.

use vstd::prelude::*;

verus! {

/// The state of the host's integer output slot as one call observes it.
#[derive(Clone, Copy, PartialEq, Eq, Structural, Debug)]
pub enum Slot {
    /// An unbound variable: any offered value binds.
    Unbound,
    /// Already bound: only the same value unifies.
    Bound(i64),
}

impl Slot {
    /// Whether offering `v` to this slot succeeds.
    pub open spec fn accepts(self, v: i64) -> bool {
        match self {
            Slot::Unbound => true,
            Slot::Bound(w) => w == v,
        }
    }
}

/// Attempt to bind one produced value into the output slot, reporting the
/// outcome of this single attempt. On success the slot holds the value; on
/// failure it is untouched.
pub fn unify_integer(slot: &mut Slot, v: i64) -> (r: bool)
    ensures
        r == old(slot).accepts(v),
        r ==> *final(slot) == Slot::Bound(v),
        !r ==> *final(slot) == *old(slot),
{
    match *slot {
        Slot::Unbound => {
            *slot = Slot::Bound(v);
            true
        }
        Slot::Bound(w) => w == v,
    }
}

} // verus!
