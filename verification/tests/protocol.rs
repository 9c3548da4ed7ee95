use plbattle::continuation::{from_token, into_token, Continuation, Token};
use plbattle::domain::{GameSnapshot, Planet, Unit};
use plbattle::protocol::{is_move_ready_call, CallOutcome, CallPhase};
use plbattle::slot::{unify_integer, Slot};

fn unit(id: i64, move_ready: bool) -> Unit {
    Unit { id, move_ready }
}

fn sample_snapshot() -> GameSnapshot {
    GameSnapshot {
        planet: Planet::Earth,
        units: vec![unit(1, false), unit(2, true), unit(3, false), unit(4, true)],
    }
}

fn expect_retry(outcome: CallOutcome) -> Token {
    match outcome {
        CallOutcome::SucceedRetry(t) => t,
        CallOutcome::Fail => panic!("expected success-with-retry, got failure"),
        CallOutcome::Succeed => panic!("expected success-with-retry, got plain success"),
    }
}

/// Drive a full enumeration from a fresh first call to exhaustion, each call
/// offering into a fresh unbound slot, and collect the bound values in call
/// order.
fn run_to_exhaustion(snapshot: &GameSnapshot) -> Vec<i64> {
    let mut produced: Vec<i64> = Vec::new();
    let mut phase = CallPhase::First;
    loop {
        let mut slot = Slot::Unbound;
        match is_move_ready_call(snapshot, phase, &mut slot) {
            CallOutcome::SucceedRetry(t) => {
                match slot {
                    Slot::Bound(v) => produced.push(v),
                    Slot::Unbound => panic!("success-with-retry left the slot unbound"),
                }
                phase = CallPhase::Redo(t);
            }
            CallOutcome::Fail => {
                assert_eq!(slot, Slot::Unbound);
                return produced;
            }
            CallOutcome::Succeed => panic!("an enumeration call never reports plain success"),
        }
    }
}

#[test]
fn first_call_binds_first_ready_then_redo_then_exhaustion() {
    let snapshot = sample_snapshot();

    let mut slot = Slot::Unbound;
    let token = expect_retry(is_move_ready_call(&snapshot, CallPhase::First, &mut slot));
    assert_eq!(slot, Slot::Bound(2));

    let mut slot = Slot::Unbound;
    let token = expect_retry(is_move_ready_call(&snapshot, CallPhase::Redo(token), &mut slot));
    assert_eq!(slot, Slot::Bound(4));

    let mut slot = Slot::Unbound;
    let outcome = is_move_ready_call(&snapshot, CallPhase::Redo(token), &mut slot);
    assert!(matches!(outcome, CallOutcome::Fail));
    assert_eq!(slot, Slot::Unbound);
}

#[test]
fn prune_after_first_success_reports_trivial_success_and_binds_nothing() {
    let snapshot = sample_snapshot();

    let mut slot = Slot::Unbound;
    let token = expect_retry(is_move_ready_call(&snapshot, CallPhase::First, &mut slot));
    assert_eq!(slot, Slot::Bound(2));

    let mut slot = Slot::Unbound;
    let outcome = is_move_ready_call(&snapshot, CallPhase::Prune(token), &mut slot);
    assert!(matches!(outcome, CallOutcome::Succeed));
    assert_eq!(slot, Slot::Unbound);
}

#[test]
fn empty_filter_fails_immediately_with_no_token() {
    let snapshot = GameSnapshot {
        planet: Planet::Mars,
        units: vec![unit(7, false), unit(9, false)],
    };
    let mut slot = Slot::Unbound;
    let outcome = is_move_ready_call(&snapshot, CallPhase::First, &mut slot);
    assert!(matches!(outcome, CallOutcome::Fail));
    assert_eq!(slot, Slot::Unbound);
}

#[test]
fn prune_cleanup_is_uniform_with_many_values_remaining() {
    // Three ready units: after the first success the token still holds two.
    let snapshot = GameSnapshot {
        planet: Planet::Earth,
        units: vec![unit(1, true), unit(2, true), unit(3, true)],
    };
    let mut slot = Slot::Unbound;
    let token = expect_retry(is_move_ready_call(&snapshot, CallPhase::First, &mut slot));
    let mut slot = Slot::Unbound;
    let outcome = is_move_ready_call(&snapshot, CallPhase::Prune(token), &mut slot);
    assert!(matches!(outcome, CallOutcome::Succeed));
}

#[test]
fn prune_cleanup_is_uniform_with_nothing_remaining() {
    // One ready unit: after the first success the token holds nothing.
    let snapshot = GameSnapshot {
        planet: Planet::Earth,
        units: vec![unit(1, false), unit(2, true)],
    };
    let mut slot = Slot::Unbound;
    let token = expect_retry(is_move_ready_call(&snapshot, CallPhase::First, &mut slot));
    let mut slot = Slot::Unbound;
    let outcome = is_move_ready_call(&snapshot, CallPhase::Prune(token), &mut slot);
    assert!(matches!(outcome, CallOutcome::Succeed));
}

#[test]
fn produced_values_concatenate_to_the_snapshot_sequence() {
    let snapshot = sample_snapshot();
    let produced = run_to_exhaustion(&snapshot);
    assert_eq!(produced, snapshot.move_ready_ids());
    assert_eq!(produced, vec![2, 4]);
}

#[test]
fn rerun_after_a_completed_run_produces_the_same_sequence() {
    let snapshot = sample_snapshot();
    let first_run = run_to_exhaustion(&snapshot);
    let second_run = run_to_exhaustion(&snapshot);
    assert_eq!(first_run, second_run);
}

#[test]
fn rerun_after_a_pruned_run_produces_the_same_sequence() {
    let snapshot = sample_snapshot();
    let mut slot = Slot::Unbound;
    let token = expect_retry(is_move_ready_call(&snapshot, CallPhase::First, &mut slot));
    let mut slot = Slot::Unbound;
    is_move_ready_call(&snapshot, CallPhase::Prune(token), &mut slot);
    assert_eq!(run_to_exhaustion(&snapshot), vec![2, 4]);
}

#[test]
fn a_bound_slot_skips_values_it_rejects() {
    // The output argument already holds 4: the first ready value 2 does not
    // unify, so the call continues to 4 and suspends an empty remainder.
    let snapshot = sample_snapshot();
    let mut slot = Slot::Bound(4);
    let token = expect_retry(is_move_ready_call(&snapshot, CallPhase::First, &mut slot));
    assert_eq!(slot, Slot::Bound(4));
    let mut remainder = from_token(token);
    assert_eq!(remainder.remaining(), 0);
    assert_eq!(remainder.next(), None);
}

#[test]
fn a_bound_slot_no_ready_value_matches_fails() {
    let snapshot = sample_snapshot();
    let mut slot = Slot::Bound(3);
    let outcome = is_move_ready_call(&snapshot, CallPhase::First, &mut slot);
    assert!(matches!(outcome, CallOutcome::Fail));
    assert_eq!(slot, Slot::Bound(3));
}

#[test]
fn unify_into_unbound_slot_binds() {
    let mut slot = Slot::Unbound;
    assert!(unify_integer(&mut slot, 17));
    assert_eq!(slot, Slot::Bound(17));
}

#[test]
fn unify_into_bound_slot_requires_the_same_value() {
    let mut slot = Slot::Bound(5);
    assert!(unify_integer(&mut slot, 5));
    assert_eq!(slot, Slot::Bound(5));
    assert!(!unify_integer(&mut slot, 6));
    assert_eq!(slot, Slot::Bound(5));
}

#[test]
fn continuation_offers_values_in_creation_order() {
    let mut cont = Continuation::new(vec![10, 20, 30]);
    assert_eq!(cont.remaining(), 3);
    assert_eq!(cont.next(), Some(10));
    assert_eq!(cont.next(), Some(20));
    assert_eq!(cont.remaining(), 1);
    assert_eq!(cont.next(), Some(30));
    assert_eq!(cont.next(), None);
    assert_eq!(cont.remaining(), 0);
}

#[test]
fn token_round_trip_preserves_the_remainder() {
    let mut cont = Continuation::new(vec![8, 9]);
    assert_eq!(cont.next(), Some(8));
    let token = into_token(cont);
    let mut back = from_token(token);
    assert_eq!(back.remaining(), 1);
    assert_eq!(back.next(), Some(9));
    assert_eq!(back.next(), None);
}
