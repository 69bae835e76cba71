use std::collections::HashSet;
use vstd::prelude::*;
use vstd::slice::slice_to_vec;

use crate::callbacks::ProofTracer;

verus! {

/// One step of a proof as the engine reports it to a tracer.
pub enum ProofStep {
    Original { id: u64, redundant: bool, clause: Seq<i32>, restored: bool },
    Derived { id: u64, redundant: bool, clause: Seq<i32>, antecedents: Seq<u64> },
    Deleted { id: u64, redundant: bool, clause: Seq<i32> },
    Weakened { id: u64, clause: Seq<i32> },
    Strengthened { id: u64 },
    Finalized { id: u64, clause: Seq<i32> },
    Assumption { lit: i32 },
    Constraint { clause: Seq<i32> },
    AssumptionsReset,
    AssumptionClause { id: u64, clause: Seq<i32>, antecedents: Seq<u64> },
    ConcludedSat { conclusion_type: i32, model: Seq<i32> },
    ConcludedUnsat { conclusion_type: i32, clause_ids: Seq<u64> },
    ConcludedUnknown { trail: Seq<i32> },
}

impl ProofStep {
    /// The id of the clause that the step adds for later steps to refer to:
    /// that of an original or of a derived clause.
    pub open spec fn added(self) -> Option<u64> {
        match self {
            ProofStep::Original { id, .. } => Some(id),
            ProofStep::Derived { id, .. } => Some(id),
            _ => None,
        }
    }

    /// The id of the clause that the step derives from antecedents.
    pub open spec fn derived(self) -> Option<u64> {
        match self {
            ProofStep::Derived { id, .. } => Some(id),
            ProofStep::AssumptionClause { id, .. } => Some(id),
            _ => None,
        }
    }

    /// The ids by which the step refers back to clauses: the antecedents of
    /// a clause that is derived, and the id of a clause that is deleted,
    /// weakened or finalized.
    pub open spec fn references(self) -> Seq<u64> {
        match self {
            ProofStep::Derived { antecedents, .. } => antecedents,
            ProofStep::AssumptionClause { antecedents, .. } => antecedents,
            ProofStep::Deleted { id, .. } => seq![id],
            ProofStep::Weakened { id, .. } => seq![id],
            ProofStep::Finalized { id, .. } => seq![id],
            _ => Seq::empty(),
        }
    }
}

/// One step of a proof, as it is held in a log.
#[derive(Debug, Clone, PartialEq, Eq)]
pub enum ProofEvent {
    Original { id: u64, redundant: bool, clause: Vec<i32>, restored: bool },
    Derived { id: u64, redundant: bool, clause: Vec<i32>, antecedents: Vec<u64> },
    Deleted { id: u64, redundant: bool, clause: Vec<i32> },
    Weakened { id: u64, clause: Vec<i32> },
    Strengthened { id: u64 },
    Finalized { id: u64, clause: Vec<i32> },
    Assumption { lit: i32 },
    Constraint { clause: Vec<i32> },
    AssumptionsReset,
    AssumptionClause { id: u64, clause: Vec<i32>, antecedents: Vec<u64> },
    ConcludedSat { conclusion_type: i32, model: Vec<i32> },
    ConcludedUnsat { conclusion_type: i32, clause_ids: Vec<u64> },
    ConcludedUnknown { trail: Vec<i32> },
}

impl View for ProofEvent {
    type V = ProofStep;

    open spec fn view(&self) -> ProofStep {
        match *self {
            ProofEvent::Original { id, redundant, clause, restored } => ProofStep::Original {
                id,
                redundant,
                clause: clause@,
                restored,
            },
            ProofEvent::Derived { id, redundant, clause, antecedents } => ProofStep::Derived {
                id,
                redundant,
                clause: clause@,
                antecedents: antecedents@,
            },
            ProofEvent::Deleted { id, redundant, clause } => ProofStep::Deleted {
                id,
                redundant,
                clause: clause@,
            },
            ProofEvent::Weakened { id, clause } => ProofStep::Weakened { id, clause: clause@ },
            ProofEvent::Strengthened { id } => ProofStep::Strengthened { id },
            ProofEvent::Finalized { id, clause } => ProofStep::Finalized { id, clause: clause@ },
            ProofEvent::Assumption { lit } => ProofStep::Assumption { lit },
            ProofEvent::Constraint { clause } => ProofStep::Constraint { clause: clause@ },
            ProofEvent::AssumptionsReset => ProofStep::AssumptionsReset,
            ProofEvent::AssumptionClause { id, clause, antecedents } => ProofStep::AssumptionClause {
                id,
                clause: clause@,
                antecedents: antecedents@,
            },
            ProofEvent::ConcludedSat { conclusion_type, model } => ProofStep::ConcludedSat {
                conclusion_type,
                model: model@,
            },
            ProofEvent::ConcludedUnsat { conclusion_type, clause_ids } => ProofStep::ConcludedUnsat {
                conclusion_type,
                clause_ids: clause_ids@,
            },
            ProofEvent::ConcludedUnknown { trail } => ProofStep::ConcludedUnknown { trail: trail@ },
        }
    }
}

/// The proof that a sequence of logged events stands for.
pub open spec fn trace_of(events: Seq<ProofEvent>) -> Seq<ProofStep> {
    events.map_values(|e: ProofEvent| e@)
}

/// What can be wrong with a reference to a clause.
#[derive(Debug, PartialEq, Eq, Hash, Clone, Copy, Structural)]
pub enum FaultKind {
    /// A clause is derived from itself.
    SelfReference,
    /// No clause of that id was added before.
    Dangling,
}

/// The place of a faulty reference in a proof.
#[derive(Debug, PartialEq, Eq, Hash, Clone, Copy, Structural)]
pub struct TraceFault {
    /// The index of the step.
    pub event: usize,
    /// The index of the reference among the references of that step.
    pub reference: usize,
    /// The id that is referred to.
    pub id: u64,
    pub kind: FaultKind,
}

/// The ids of the clauses that the first `n` steps of `trace` add.
pub open spec fn added_before(trace: Seq<ProofStep>, n: int) -> Set<u64> {
    Set::new(
        |id: u64|
            exists|k: int| 0 <= k < n && k < trace.len() && (#[trigger] trace[k]).added() == Some(id),
    )
}

/// What is wrong with the reference `j` of the step `i`, if anything: it
/// names the clause that the step itself derives, or a clause that no
/// earlier step has added.
pub open spec fn fault_at(trace: Seq<ProofStep>, i: int, j: int) -> Option<FaultKind>
    recommends
        0 <= i < trace.len(),
        0 <= j < trace[i].references().len(),
{
    let id = trace[i].references()[j];
    if trace[i].derived() == Some(id) {
        Some(FaultKind::SelfReference)
    } else if !added_before(trace, i).contains(id) {
        Some(FaultKind::Dangling)
    } else {
        None
    }
}

/// Every reference of every step names an original or derived clause that an
/// earlier step has added, and no clause is derived from itself.
pub open spec fn consistent(trace: Seq<ProofStep>) -> bool {
    forall|i: int, j: int|
        0 <= i < trace.len() && 0 <= j < trace[i].references().len() ==> #[trigger] fault_at(
            trace,
            i,
            j,
        ) is None
}

/// Whether `f` is the first faulty reference of `trace`, by step and then by
/// place within the step.
pub open spec fn first_fault(trace: Seq<ProofStep>, f: TraceFault) -> bool {
    &&& f.event < trace.len()
    &&& f.reference < trace[f.event as int].references().len()
    &&& f.id == trace[f.event as int].references()[f.reference as int]
    &&& fault_at(trace, f.event as int, f.reference as int) == Some(f.kind)
    &&& forall|i: int, j: int|
        0 <= i < trace.len() && 0 <= j < trace[i].references().len() && (i < f.event || (i
            == f.event && j < f.reference)) ==> #[trigger] fault_at(trace, i, j) is None
}

/// A proof with a first faulty reference is not consistent, and it has no
/// other first faulty reference.
pub proof fn lemma_first_fault(trace: Seq<ProofStep>, f: TraceFault, g: TraceFault)
    requires
        first_fault(trace, f),
    ensures
        !consistent(trace),
        first_fault(trace, g) ==> f == g,
{
    assert(fault_at(trace, f.event as int, f.reference as int) is Some);
    if first_fault(trace, g) {
        assert(fault_at(trace, g.event as int, g.reference as int) is Some);
    }
}

fn check_references(seen: &HashSet<u64>, own: Option<u64>, references: &[u64]) -> (r: Option<
    (usize, FaultKind),
>)
    ensures
        match r {
            None => forall|j: int|
                0 <= j < references@.len() ==> own != Some(#[trigger] references@[j])
                    && seen@.contains(references@[j]),
            Some((at, kind)) => {
                &&& at < references@.len()
                &&& forall|j: int|
                    0 <= j < at ==> own != Some(#[trigger] references@[j]) && seen@.contains(
                        references@[j],
                    )
                &&& kind == if own == Some(references@[at as int]) {
                    FaultKind::SelfReference
                } else {
                    FaultKind::Dangling
                }
                &&& own == Some(references@[at as int]) || !seen@.contains(references@[at as int])
            },
        },
{
    broadcast use vstd::std_specs::hash::group_hash_axioms;

    let mut j: usize = 0;
    while j < references.len()
        invariant
            j <= references@.len(),
            forall|k: int|
                0 <= k < j ==> own != Some(#[trigger] references@[k]) && seen@.contains(
                    references@[k],
                ),
        decreases references.len() - j,
    {
        let id: u64 = references[j];
        let own_id = match own {
            Some(o) => o == id,
            None => false,
        };
        if own_id {
            return Some((j, FaultKind::SelfReference));
        }
        if !seen.contains(&id) {
            return Some((j, FaultKind::Dangling));
        }
        j += 1;
    }
    None
}

/// Checks the references of a logged proof, and names the first that is
/// faulty.
pub fn check_trace(events: &[ProofEvent]) -> (res: Result<(), TraceFault>)
    ensures
        res is Ok <==> consistent(trace_of(events@)),
        res matches Err(f) ==> first_fault(trace_of(events@), f),
{
    broadcast use vstd::std_specs::hash::group_hash_axioms;

    let ghost trace = trace_of(events@);
    let mut seen: HashSet<u64> = HashSet::new();
    assert(seen@ =~= added_before(trace, 0));
    let mut i: usize = 0;
    while i < events.len()
        invariant
            i <= events@.len(),
            trace == trace_of(events@),
            seen@ == added_before(trace, i as int),
            forall|a: int, b: int|
                0 <= a < i && 0 <= b < trace[a].references().len() ==> #[trigger] fault_at(
                    trace,
                    a,
                    b,
                ) is None,
        decreases events.len() - i,
    {
        let event = &events[i];
        let ghost step = trace[i as int];
        assert(step == event@);
        let single: [u64; 1];
        let found = match event {
            ProofEvent::Derived { id, antecedents, .. } => check_references(
                &seen,
                Some(*id),
                antecedents.as_slice(),
            ),
            ProofEvent::AssumptionClause { id, antecedents, .. } => check_references(
                &seen,
                Some(*id),
                antecedents.as_slice(),
            ),
            ProofEvent::Deleted { id, .. } => {
                single = [*id];
                assert(single@ =~= seq![*id]);
                check_references(&seen, None, single.as_slice())
            },
            ProofEvent::Weakened { id, .. } => {
                single = [*id];
                assert(single@ =~= seq![*id]);
                check_references(&seen, None, single.as_slice())
            },
            ProofEvent::Finalized { id, .. } => {
                single = [*id];
                assert(single@ =~= seq![*id]);
                check_references(&seen, None, single.as_slice())
            },
            _ => None,
        };
        match found {
            Some((at, kind)) => {
                let id: u64 = match event {
                    ProofEvent::Derived { antecedents, .. } => antecedents[at],
                    ProofEvent::AssumptionClause { antecedents, .. } => antecedents[at],
                    ProofEvent::Deleted { id, .. } => *id,
                    ProofEvent::Weakened { id, .. } => *id,
                    ProofEvent::Finalized { id, .. } => *id,
                    _ => 0,
                };
                let fault = TraceFault { event: i, reference: at, id, kind };
                proof {
                    assert(fault_at(trace, i as int, at as int) == Some(kind));
                    assert forall|a: int, b: int|
                        0 <= a < trace.len() && 0 <= b < trace[a].references().len() && (a < i || (a
                            == i && b < at)) implies #[trigger] fault_at(trace, a, b) is None by {
                        if a == i {
                            assert(step.references()[b] == step.references()[b]);
                        }
                    }
                    lemma_first_fault(trace, fault, fault);
                }
                return Err(fault);
            },
            None => {},
        }
        assert forall|b: int| 0 <= b < step.references().len() implies #[trigger] fault_at(
            trace,
            i as int,
            b,
        ) is None by {
            assert(seen@.contains(step.references()[b]));
        }
        match event {
            ProofEvent::Original { id, .. } => {
                seen.insert(*id);
            },
            ProofEvent::Derived { id, .. } => {
                seen.insert(*id);
            },
            _ => {},
        }
        proof {
            let before = added_before(trace, i as int);
            let after = added_before(trace, i + 1);
            assert forall|id: u64| after.contains(id) <==> (before.contains(id) || step.added()
                == Some(id)) by {
                if after.contains(id) {
                    let k = choose|k: int|
                        0 <= k < i + 1 && k < trace.len() && (#[trigger] trace[k]).added() == Some(
                            id,
                        );
                    if k < i {
                        assert(before.contains(id));
                    }
                }
                if before.contains(id) {
                    let k = choose|k: int|
                        0 <= k < i && k < trace.len() && (#[trigger] trace[k]).added() == Some(id);
                    assert(0 <= k < i + 1 && trace[k].added() == Some(id));
                }
                if step.added() == Some(id) {
                    assert(trace[i as int].added() == Some(id));
                }
            }
            assert(seen@ =~= after);
        }
        i += 1;
    }
    Ok(())
}

/// A tracer that keeps every step it is told of, in order.
pub struct ProofLog {
    events: Vec<ProofEvent>,
}

impl View for ProofLog {
    type V = Seq<ProofStep>;

    closed spec fn view(&self) -> Seq<ProofStep> {
        trace_of(self.events@)
    }
}

impl ProofLog {
    /// A log that holds nothing yet.
    #[must_use]
    pub fn new() -> (r: Self)
        ensures
            r@ == Seq::<ProofStep>::empty(),
    {
        let r = ProofLog { events: Vec::new() };
        assert(r@ =~= Seq::<ProofStep>::empty());
        r
    }

    /// The steps that were logged, first to last.
    #[must_use]
    pub fn events(&self) -> (r: &[ProofEvent])
        ensures
            trace_of(r@) == self@,
    {
        self.events.as_slice()
    }

    /// Forgets every step.
    pub fn clear(&mut self)
        ensures
            final(self)@ == Seq::<ProofStep>::empty(),
    {
        self.events.clear();
        assert(self@ =~= Seq::<ProofStep>::empty());
    }

    /// Checks the references of the proof that was logged, and names the
    /// first that is faulty.
    pub fn check(&self) -> (res: Result<(), TraceFault>)
        ensures
            res is Ok <==> consistent(self@),
            res matches Err(f) ==> first_fault(self@, f),
    {
        check_trace(self.events.as_slice())
    }

    /// Appends a step to the log.
    pub fn record(&mut self, event: ProofEvent)
        ensures
            final(self)@ == old(self)@.push(event@),
    {
        self.events.push(event);
        assert(self@ =~= old(self)@.push(event@));
    }
}

impl ProofTracer for ProofLog {
    fn add_original_clause(&mut self, id: u64, redundant: bool, clause: &[i32], restored: bool)
        ensures
            final(self)@ == old(self)@.push(
                ProofStep::Original { id, redundant, clause: clause@, restored },
            ),
    {
        self.record(ProofEvent::Original { id, redundant, clause: slice_to_vec(clause), restored });
    }

    fn add_derived_clause(&mut self, id: u64, redundant: bool, clause: &[i32], antecedents: &[u64])
        ensures
            final(self)@ == old(self)@.push(
                ProofStep::Derived { id, redundant, clause: clause@, antecedents: antecedents@ },
            ),
    {
        self.record(
            ProofEvent::Derived {
                id,
                redundant,
                clause: slice_to_vec(clause),
                antecedents: slice_to_vec(antecedents),
            },
        );
    }

    fn delete_clause(&mut self, id: u64, redundant: bool, clause: &[i32])
        ensures
            final(self)@ == old(self)@.push(ProofStep::Deleted { id, redundant, clause: clause@ }),
    {
        self.record(ProofEvent::Deleted { id, redundant, clause: slice_to_vec(clause) });
    }

    fn weaken_minus(&mut self, id: u64, clause: &[i32])
        ensures
            final(self)@ == old(self)@.push(ProofStep::Weakened { id, clause: clause@ }),
    {
        self.record(ProofEvent::Weakened { id, clause: slice_to_vec(clause) });
    }

    fn strengthen(&mut self, id: u64)
        ensures
            final(self)@ == old(self)@.push(ProofStep::Strengthened { id }),
    {
        self.record(ProofEvent::Strengthened { id });
    }

    fn finalize_clause(&mut self, id: u64, clause: &[i32])
        ensures
            final(self)@ == old(self)@.push(ProofStep::Finalized { id, clause: clause@ }),
    {
        self.record(ProofEvent::Finalized { id, clause: slice_to_vec(clause) });
    }

    fn add_assumption(&mut self, lit: i32)
        ensures
            final(self)@ == old(self)@.push(ProofStep::Assumption { lit }),
    {
        self.record(ProofEvent::Assumption { lit });
    }

    fn add_constraint(&mut self, clause: &[i32])
        ensures
            final(self)@ == old(self)@.push(ProofStep::Constraint { clause: clause@ }),
    {
        self.record(ProofEvent::Constraint { clause: slice_to_vec(clause) });
    }

    fn reset_assumptions(&mut self)
        ensures
            final(self)@ == old(self)@.push(ProofStep::AssumptionsReset),
    {
        self.record(ProofEvent::AssumptionsReset);
    }

    fn add_assumption_clause(&mut self, id: u64, clause: &[i32], antecedents: &[u64])
        ensures
            final(self)@ == old(self)@.push(
                ProofStep::AssumptionClause { id, clause: clause@, antecedents: antecedents@ },
            ),
    {
        self.record(
            ProofEvent::AssumptionClause {
                id,
                clause: slice_to_vec(clause),
                antecedents: slice_to_vec(antecedents),
            },
        );
    }

    fn conclude_sat(&mut self, conclusion_type: i32, model: &[i32])
        ensures
            final(self)@ == old(self)@.push(
                ProofStep::ConcludedSat { conclusion_type, model: model@ },
            ),
    {
        self.record(ProofEvent::ConcludedSat { conclusion_type, model: slice_to_vec(model) });
    }

    fn conclude_unsat(&mut self, conclusion_type: i32, clause_ids: &[u64])
        ensures
            final(self)@ == old(self)@.push(
                ProofStep::ConcludedUnsat { conclusion_type, clause_ids: clause_ids@ },
            ),
    {
        self.record(
            ProofEvent::ConcludedUnsat { conclusion_type, clause_ids: slice_to_vec(clause_ids) },
        );
    }

    fn conclude_unknown(&mut self, trail: &[i32])
        ensures
            final(self)@ == old(self)@.push(ProofStep::ConcludedUnknown { trail: trail@ }),
    {
        self.record(ProofEvent::ConcludedUnknown { trail: slice_to_vec(trail) });
    }
}

} // verus!
