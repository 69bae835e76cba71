use cadical_sys::{check_trace, FaultKind, ProofEvent, ProofLog, ProofTracer, TraceFault};

fn original(id: u64, clause: &[i32]) -> ProofEvent {
    ProofEvent::Original { id, redundant: false, clause: clause.to_vec(), restored: false }
}

fn derived(id: u64, clause: &[i32], antecedents: &[u64]) -> ProofEvent {
    ProofEvent::Derived {
        id,
        redundant: true,
        clause: clause.to_vec(),
        antecedents: antecedents.to_vec(),
    }
}

fn deleted(id: u64) -> ProofEvent {
    ProofEvent::Deleted { id, redundant: false, clause: vec![1] }
}

fn fault(event: usize, reference: usize, id: u64, kind: FaultKind) -> Result<(), TraceFault> {
    Err(TraceFault { event, reference, id, kind })
}

/// The refutation of the four clauses over two variables by resolution.
fn refutation() -> Vec<ProofEvent> {
    vec![
        original(1, &[1, 2]),
        original(2, &[-1, 2]),
        original(3, &[1, -2]),
        original(4, &[-1, -2]),
        derived(5, &[2], &[1, 2]),
        derived(6, &[-2], &[3, 4]),
        derived(7, &[], &[5, 6]),
        ProofEvent::ConcludedUnsat { conclusion_type: 1, clause_ids: vec![7] },
    ]
}

#[test]
fn an_empty_trace_is_consistent() {
    assert_eq!(check_trace(&[]), Ok(()));
}

#[test]
fn original_clauses_refer_to_nothing() {
    assert_eq!(check_trace(&[original(1, &[1, 2]), original(2, &[-1])]), Ok(()));
    assert_eq!(check_trace(&[original(7, &[1]), original(7, &[1])]), Ok(()));
}

#[test]
fn a_refutation_by_resolution_is_consistent() {
    assert_eq!(check_trace(&refutation()), Ok(()));
}

#[test]
fn an_antecedent_must_have_been_added_before() {
    let trace = [original(1, &[1]), derived(2, &[], &[1, 3]), original(3, &[-1])];
    assert_eq!(check_trace(&trace), fault(1, 1, 3, FaultKind::Dangling));
}

#[test]
fn an_antecedent_may_be_original_or_derived() {
    let trace = [original(1, &[1, 2]), derived(2, &[1], &[1]), derived(3, &[2], &[2, 1])];
    assert_eq!(check_trace(&trace), Ok(()));
}

#[test]
fn a_derivation_from_nothing_is_consistent() {
    assert_eq!(check_trace(&[derived(1, &[5], &[])]), Ok(()));
}

#[test]
fn a_clause_cannot_be_its_own_antecedent() {
    let trace = [original(1, &[1]), derived(2, &[1], &[1, 2])];
    assert_eq!(check_trace(&trace), fault(1, 1, 2, FaultKind::SelfReference));
}

#[test]
fn a_clause_cannot_be_its_own_antecedent_even_if_the_id_was_used_before() {
    let trace = [original(2, &[1]), derived(2, &[1], &[2])];
    assert_eq!(check_trace(&trace), fault(1, 0, 2, FaultKind::SelfReference));
}

#[test]
fn a_deleted_clause_must_have_been_added() {
    assert_eq!(check_trace(&[original(1, &[1]), deleted(1)]), Ok(()));
    assert_eq!(check_trace(&[original(1, &[1]), deleted(2)]), fault(1, 0, 2, FaultKind::Dangling));
    assert_eq!(check_trace(&[deleted(1), original(1, &[1])]), fault(0, 0, 1, FaultKind::Dangling));
}

#[test]
fn a_deleted_clause_may_be_derived() {
    let trace = [original(1, &[1]), derived(2, &[1], &[1]), deleted(2), deleted(1)];
    assert_eq!(check_trace(&trace), Ok(()));
}

#[test]
fn a_weakened_clause_must_have_been_added() {
    let weakened = |id| ProofEvent::Weakened { id, clause: vec![1, 2] };
    assert_eq!(check_trace(&[original(4, &[1, 2]), weakened(4)]), Ok(()));
    assert_eq!(
        check_trace(&[original(4, &[1, 2]), weakened(5)]),
        fault(1, 0, 5, FaultKind::Dangling)
    );
}

#[test]
fn a_finalized_clause_must_have_been_added() {
    let finalized = |id| ProofEvent::Finalized { id, clause: vec![1, 2] };
    assert_eq!(check_trace(&[original(4, &[1, 2]), finalized(4)]), Ok(()));
    assert_eq!(
        check_trace(&[original(4, &[1, 2]), finalized(3)]),
        fault(1, 0, 3, FaultKind::Dangling)
    );
}

#[test]
fn the_antecedents_of_an_assumption_clause_are_checked() {
    let clause = |id, antecedents: &[u64]| ProofEvent::AssumptionClause {
        id,
        clause: vec![-1],
        antecedents: antecedents.to_vec(),
    };
    assert_eq!(check_trace(&[original(1, &[1]), clause(2, &[1])]), Ok(()));
    assert_eq!(
        check_trace(&[original(1, &[1]), clause(2, &[1, 9])]),
        fault(1, 1, 9, FaultKind::Dangling)
    );
    assert_eq!(
        check_trace(&[original(1, &[1]), clause(2, &[2])]),
        fault(1, 0, 2, FaultKind::SelfReference)
    );
}

#[test]
fn an_assumption_clause_is_no_antecedent() {
    let trace = [
        original(1, &[1]),
        ProofEvent::AssumptionClause { id: 2, clause: vec![-1], antecedents: vec![1] },
        derived(3, &[], &[1, 2]),
    ];
    assert_eq!(check_trace(&trace), fault(2, 1, 2, FaultKind::Dangling));
}

#[test]
fn steps_without_references_are_never_at_fault() {
    let trace = [
        ProofEvent::Strengthened { id: 99 },
        ProofEvent::Assumption { lit: 3 },
        ProofEvent::Constraint { clause: vec![1, 2] },
        ProofEvent::AssumptionsReset,
        ProofEvent::ConcludedSat { conclusion_type: 0, model: vec![1, -2] },
        ProofEvent::ConcludedUnsat { conclusion_type: 1, clause_ids: vec![77] },
        ProofEvent::ConcludedUnknown { trail: vec![1] },
    ];
    assert_eq!(check_trace(&trace), Ok(()));
}

#[test]
fn the_first_fault_is_named() {
    let trace = [
        original(1, &[1]),
        derived(2, &[1], &[1]),
        derived(3, &[1], &[1, 2, 8, 9, 3]),
        deleted(12),
    ];
    assert_eq!(check_trace(&trace), fault(2, 2, 8, FaultKind::Dangling));
    let trace = [original(1, &[1]), deleted(5), derived(2, &[1], &[2])];
    assert_eq!(check_trace(&trace), fault(1, 0, 5, FaultKind::Dangling));
}

#[test]
fn a_long_chain_of_derivations_is_consistent() {
    let mut trace = vec![original(1, &[1, 2]), original(2, &[-1, 2]), original(3, &[-2])];
    for id in 4..40 {
        trace.push(derived(id, &[2], &[id - 1, id - 2, 1]));
    }
    let derivations = trace.iter().filter(|e| matches!(e, ProofEvent::Derived { .. })).count();
    assert!(derivations > 5);
    assert_eq!(check_trace(&trace), Ok(()));
    trace.push(derived(40, &[], &[39, 41]));
    assert_eq!(check_trace(&trace), fault(39, 1, 41, FaultKind::Dangling));
}

#[test]
fn a_new_log_is_empty() {
    let log = ProofLog::new();
    assert!(log.events().is_empty());
    assert_eq!(log.check(), Ok(()));
}

#[test]
fn a_log_keeps_what_the_tracer_is_told_in_order() {
    let mut log = ProofLog::new();
    log.add_original_clause(1, false, &[1, -3], true);
    log.add_derived_clause(2, true, &[1], &[1]);
    log.delete_clause(1, false, &[1, -3]);
    log.weaken_minus(2, &[1]);
    log.strengthen(2);
    log.finalize_clause(2, &[1]);
    log.add_assumption(-4);
    log.add_constraint(&[4, 5]);
    log.reset_assumptions();
    log.add_assumption_clause(3, &[4], &[2]);
    log.conclude_sat(7, &[1, -2]);
    log.conclude_unsat(8, &[3, 2]);
    log.conclude_unknown(&[1, 2, 3]);
    let expected = vec![
        ProofEvent::Original { id: 1, redundant: false, clause: vec![1, -3], restored: true },
        ProofEvent::Derived { id: 2, redundant: true, clause: vec![1], antecedents: vec![1] },
        ProofEvent::Deleted { id: 1, redundant: false, clause: vec![1, -3] },
        ProofEvent::Weakened { id: 2, clause: vec![1] },
        ProofEvent::Strengthened { id: 2 },
        ProofEvent::Finalized { id: 2, clause: vec![1] },
        ProofEvent::Assumption { lit: -4 },
        ProofEvent::Constraint { clause: vec![4, 5] },
        ProofEvent::AssumptionsReset,
        ProofEvent::AssumptionClause { id: 3, clause: vec![4], antecedents: vec![2] },
        ProofEvent::ConcludedSat { conclusion_type: 7, model: vec![1, -2] },
        ProofEvent::ConcludedUnsat { conclusion_type: 8, clause_ids: vec![3, 2] },
        ProofEvent::ConcludedUnknown { trail: vec![1, 2, 3] },
    ];
    assert_eq!(log.events(), expected.as_slice());
    assert_eq!(log.check(), Ok(()));
}

#[test]
fn a_log_checks_what_it_holds() {
    let mut log = ProofLog::new();
    for event in refutation() {
        log.record(event);
    }
    assert_eq!(log.events(), refutation().as_slice());
    assert_eq!(log.check(), Ok(()));
    log.add_derived_clause(8, true, &[], &[7, 9]);
    assert_eq!(log.check(), fault(8, 1, 9, FaultKind::Dangling));
    assert_eq!(log.check(), check_trace(log.events()));
}

#[test]
fn a_cleared_log_is_empty() {
    let mut log = ProofLog::new();
    log.delete_clause(3, false, &[1]);
    assert_eq!(log.check(), fault(0, 0, 3, FaultKind::Dangling));
    log.clear();
    assert!(log.events().is_empty());
    assert_eq!(log.check(), Ok(()));
    log.add_original_clause(3, false, &[1], false);
    assert_eq!(log.events().len(), 1);
}
