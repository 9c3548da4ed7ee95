//! What each native extension declares to the host when it is installed: a
//! predicate name, a fixed arity, and whether the call may suspend and be
//! re-entered. Suspension is a capability granted at registration, not a
//! dynamic decision: only the entry registered as nondeterministic may return
//! success-with-retry.

use vstd::prelude::*;

verus! {

/// Whether a registered call may suspend and be re-entered by the host.
#[derive(Clone, Copy, PartialEq, Eq, Structural, Debug)]
pub enum Determinism {
    /// The call runs to completion and is never re-entered.
    Deterministic,
    /// The call may return success-with-retry and be re-entered with the
    /// token it issued.
    Nondeterministic,
}

/// One native extension as the host learns of it at installation.
pub struct Registration {
    /// The predicate name the host will call this extension by.
    pub name: &'static str,
    /// How many arguments the predicate takes.
    pub arity: usize,
    /// Whether the call may suspend.
    pub determinism: Determinism,
}

/// The table of extensions this library offers, in installation order. Only
/// the move-readiness enumeration may suspend; every other entry runs to
/// completion in one call.
pub fn registrations() -> (r: Vec<Registration>)
    ensures
        r@.len() == 6,
        r@[0].name@ == "lowercase"@ && r@[0].arity == 2
            && r@[0].determinism == Determinism::Deterministic,
        r@[1].name@ == "planet"@ && r@[1].arity == 1
            && r@[1].determinism == Determinism::Deterministic,
        r@[2].name@ == "unit_ids"@ && r@[2].arity == 1
            && r@[2].determinism == Determinism::Deterministic,
        r@[3].name@ == "next_turn"@ && r@[3].arity == 0
            && r@[3].determinism == Determinism::Deterministic,
        r@[4].name@ == "is_move_ready_list"@ && r@[4].arity == 1
            && r@[4].determinism == Determinism::Deterministic,
        r@[5].name@ == "is_move_ready"@ && r@[5].arity == 1
            && r@[5].determinism == Determinism::Nondeterministic,
        forall|i: int|
            0 <= i < 6 && i != 5 ==> r@[i].determinism == Determinism::Deterministic,
{
    let mut r: Vec<Registration> = Vec::new();
    r.push(Registration { name: "lowercase", arity: 2, determinism: Determinism::Deterministic });
    r.push(Registration { name: "planet", arity: 1, determinism: Determinism::Deterministic });
    r.push(Registration { name: "unit_ids", arity: 1, determinism: Determinism::Deterministic });
    r.push(Registration { name: "next_turn", arity: 0, determinism: Determinism::Deterministic });
    r.push(
        Registration {
            name: "is_move_ready_list",
            arity: 1,
            determinism: Determinism::Deterministic,
        },
    );
    r.push(
        Registration { name: "is_move_ready", arity: 1, determinism: Determinism::Nondeterministic },
    );
    r
}

} // verus!
