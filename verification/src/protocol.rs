//! The suspendable enumeration protocol. Each host invocation carries a
//! call-phase descriptor: a first call builds a fresh continuation from a
//! domain snapshot, a resumption reconstructs the one the host stored as a
//! token, and a prune reconstructs it only to release it. A live continuation
//! is stepped by offering its values, in creation order, to the output slot
//! until one binds — then the remainder suspends into a token and the call
//! reports success-with-retry — or until it is exhausted — then it is dropped
//! and the call reports failure.

use vstd::prelude::*;

use crate::continuation::{from_token, into_token, Continuation, Token};
use crate::domain::{ready_ids, GameSnapshot, Unit};
use crate::slot::{unify_integer, Slot};

verus! {

/// The call-state descriptor the host supplies on each invocation. A
/// resumption or a disposal carries the token issued by the previous
/// success-with-retry; consuming the descriptor consumes that token, so no
/// token is ever reconstructed twice.
pub enum CallPhase {
    /// The first invocation of this choice point: no token exists yet.
    First,
    /// The host asks for the next result of the suspended enumeration.
    Redo(Token),
    /// The host discards the suspended enumeration: release it, produce
    /// nothing.
    Prune(Token),
}

impl CallPhase {
    /// Any carried token is well formed.
    pub open spec fn wf(&self) -> bool {
        match self {
            CallPhase::First => true,
            CallPhase::Redo(t) => t.wf(),
            CallPhase::Prune(t) => t.wf(),
        }
    }
}

/// What one invocation reports back to the host.
pub enum CallOutcome {
    /// Ordinary failure: the enumeration is exhausted (or the deterministic
    /// call did not unify). Nothing is left to resume.
    Fail,
    /// Deterministic success: no further results will be offered.
    Succeed,
    /// A value was bound, and the suspended remainder is owned by this token;
    /// the host may ask again.
    SucceedRetry(Token),
}

/// The index of the first value of `s` that the slot accepts, if any.
pub open spec fn first_match(s: Seq<i64>, slot: Slot) -> Option<int>
    decreases s.len(),
{
    if s.len() == 0 {
        None
    } else if slot.accepts(s[0]) {
        Some(0int)
    } else {
        match first_match(s.drop_first(), slot) {
            Some(i) => Some(i + 1),
            None => None,
        }
    }
}

/// What one enumeration step over the remaining sequence `s` must report:
/// if the slot accepts some value of `s`, the step binds the first such value
/// and suspends exactly the suffix after it; otherwise the step fails and
/// leaves the slot untouched.
pub open spec fn step_spec(s: Seq<i64>, slot0: Slot, r: CallOutcome, slot1: Slot) -> bool {
    match first_match(s, slot0) {
        Some(i) => r matches CallOutcome::SucceedRetry(t) && t.wf() && t@ == s.skip(i + 1)
            && slot1 == Slot::Bound(s[i]),
        None => r is Fail && slot1 == slot0,
    }
}

/// A found first match is a genuine first match: it lies in the sequence, the
/// slot accepts it, and the slot accepts nothing before it; when none is
/// found, the slot accepts nothing at all.
pub proof fn lemma_first_match_is_first(s: Seq<i64>, slot: Slot)
    ensures
        match first_match(s, slot) {
            Some(i) => 0 <= i < s.len() && slot.accepts(s[i])
                && (forall|j: int| 0 <= j < i ==> !slot.accepts(s[j])),
            None => forall|j: int| 0 <= j < s.len() ==> !slot.accepts(s[j]),
        },
    decreases s.len(),
{
    if s.len() > 0 && !slot.accepts(s[0]) {
        lemma_first_match_is_first(s.drop_first(), slot);
        match first_match(s.drop_first(), slot) {
            Some(i) => {
                assert(s.drop_first()[i] == s[i + 1]);
                assert forall|j: int| 0 <= j < i + 1 implies !slot.accepts(s[j]) by {
                    if j > 0 {
                        assert(s[j] == s.drop_first()[j - 1]);
                    }
                }
            }
            None => {
                assert forall|j: int| 0 <= j < s.len() implies !slot.accepts(s[j]) by {
                    if j > 0 {
                        assert(s[j] == s.drop_first()[j - 1]);
                    }
                }
            }
        }
    }
}

/// Searching `s` is searching its suffix, shifted, once the whole prefix is
/// known to be rejected.
proof fn lemma_first_match_past_prefix(s: Seq<i64>, slot: Slot, i: int)
    requires
        0 <= i <= s.len(),
        forall|j: int| 0 <= j < i ==> !slot.accepts(s[j]),
    ensures
        first_match(s, slot) == match first_match(s.skip(i), slot) {
            Some(k) => Some(i + k),
            None => None::<int>,
        },
    decreases i,
{
    if i == 0 {
        assert(s.skip(0) =~= s);
    } else {
        assert(!slot.accepts(s[0]));
        assert forall|j: int| 0 <= j < i - 1 implies !slot.accepts(s.drop_first()[j]) by {
            assert(s.drop_first()[j] == s[j + 1]);
        }
        lemma_first_match_past_prefix(s.drop_first(), slot, i - 1);
        assert(s.drop_first().skip(i - 1) =~= s.skip(i));
    }
}

/// One enumeration step: offer the continuation's values to the output slot,
/// in creation order, until one binds — the not-yet-offered suffix then
/// suspends into a token — or until the sequence is exhausted — the
/// continuation is then dropped and nothing is left to resume.
#[verifier::loop_isolation(false)]
pub fn enumeration_step(cont: Continuation, slot: &mut Slot) -> (r: CallOutcome)
    requires
        cont.wf(),
    ensures
        step_spec(cont@, *old(slot), r, *final(slot)),
{
    let ghost s0 = cont@;
    let ghost slot0 = *slot;
    let mut c = cont;
    let ghost mut offered: int = 0;
    loop
        invariant
            c.wf(),
            *slot == slot0,
            0 <= offered <= s0.len(),
            c@ == s0.skip(offered),
            forall|j: int| 0 <= j < offered ==> !slot0.accepts(s0[j]),
        decreases s0.len() - offered,
    {
        match c.next() {
            None => {
                proof {
                    assert(offered == s0.len());
                    lemma_first_match_past_prefix(s0, slot0, offered);
                    assert(s0.skip(offered).len() == 0);
                }
                return CallOutcome::Fail;
            }
            Some(v) => {
                proof {
                    assert(v == s0.skip(offered)[0]);
                    assert(s0.skip(offered)[0] == s0[offered]);
                }
                if unify_integer(slot, v) {
                    proof {
                        lemma_first_match_past_prefix(s0, slot0, offered);
                        assert(first_match(s0.skip(offered), slot0) == Some(0int));
                        assert(first_match(s0, slot0) == Some(offered));
                        assert(c@ =~= s0.skip(offered + 1));
                    }
                    return CallOutcome::SucceedRetry(into_token(c));
                }
                proof {
                    assert(c@ =~= s0.skip(offered + 1));
                    offered = offered + 1;
                }
            }
        }
    }
}

/// What the dispatcher must report for each phase: a first call steps the
/// snapshot's filtered identifier sequence, a resumption steps exactly what
/// the token holds, and a prune reports trivial success and touches nothing,
/// however many values were still unconsumed.
pub open spec fn dispatch_spec(
    units: Seq<Unit>,
    phase: CallPhase,
    slot0: Slot,
    r: CallOutcome,
    slot1: Slot,
) -> bool {
    match phase {
        CallPhase::First => step_spec(ready_ids(units), slot0, r, slot1),
        CallPhase::Redo(t) => step_spec(t@, slot0, r, slot1),
        CallPhase::Prune(t) => r is Succeed && slot1 == slot0,
    }
}

/// The suspendable move-readiness enumeration: dispatch one host invocation.
/// A first call snapshots the ready identifiers eagerly — the caller copies
/// the domain out under its lock before this call, and no lock is held past
/// it — a resumption continues strictly where the previous call left off,
/// and a prune releases the suspended enumeration with no further effect.
pub fn is_move_ready_call(snapshot: &GameSnapshot, phase: CallPhase, slot: &mut Slot) -> (r:
    CallOutcome)
    requires
        phase.wf(),
    ensures
        dispatch_spec(snapshot.units@, phase, *old(slot), r, *final(slot)),
{
    match phase {
        CallPhase::First => {
            let ids = snapshot.move_ready_ids();
            enumeration_step(Continuation::new(ids), slot)
        }
        CallPhase::Redo(t) => enumeration_step(from_token(t), slot),
        CallPhase::Prune(t) => {
            let _released = from_token(t);
            CallOutcome::Succeed
        }
    }
}

/// The values a whole run produces, in call order, when each call offers into
/// a fresh unbound slot: what the first call binds, then what each resumption
/// binds, until exhaustion. Each call consumes through the first value its
/// slot accepts and suspends the suffix after it, as `step_spec` demands.
pub open spec fn run_outputs(s: Seq<i64>) -> Seq<i64>
    decreases s.len(),
{
    match first_match(s, Slot::Unbound) {
        Some(i) => if 0 <= i < s.len() {
            seq![s[i]] + run_outputs(s.skip(i + 1))
        } else {
            Seq::empty()
        },
        None => Seq::empty(),
    }
}

/// Law: the values produced across a first call and the resumptions that
/// follow it, concatenated in call order, are exactly the sequence the first
/// call computed from its snapshot — the same order, no duplicates, no
/// omissions.
pub proof fn lemma_enumeration_complete(s: Seq<i64>)
    ensures
        run_outputs(s) == s,
    decreases s.len(),
{
    if s.len() == 0 {
        assert(run_outputs(s) =~= s);
    } else {
        assert(Slot::Unbound.accepts(s[0]));
        assert(first_match(s, Slot::Unbound) == Some(0int));
        lemma_enumeration_complete(s.skip(1));
        assert(seq![s[0]] + s.skip(1) =~= s);
    }
}

/// Law: a completed run leaves no trace — the outputs of an enumeration are a
/// function of the domain snapshot alone, so a fresh first call after an
/// earlier run completed (exhausted or pruned) over an unchanged domain
/// produces the same sequence again.
pub proof fn lemma_rerun_identical(units: Seq<Unit>)
    ensures
        run_outputs(ready_ids(units)) == ready_ids(units),
{
    lemma_enumeration_complete(ready_ids(units));
}

} // verus!
