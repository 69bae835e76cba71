use vstd::prelude::*;

verus! {

/// A connected terminator is asked regularly, during a search, whether the
/// search is to end. Once it answers `true` the engine stops as soon as it
/// can and rests in `STEADY`.
pub trait Terminator {
    fn terminated(&mut self) -> bool;
}

/// A connected learner is offered the clauses that the engine learns. It is
/// asked with `learning` whether it wants a clause of the given size; where
/// it does, the literals of the clause are handed to `learn` one by one, and
/// a zero after the last.
pub trait Learner {
    fn learning(&mut self, size: i32) -> bool;

    fn learn(&mut self, lit: i32);
}

/// A connected listener is told of every literal that becomes fixed at the
/// root level, once, at the moment it is fixed.
pub trait FixedAssignmentListener {
    fn notify_fixed_assignment(&mut self, lit: i32);
}

/// A connected external propagator takes part in the search: it is told of
/// assignments to the variables it observes, of new decision levels and of
/// backtracking, and may decide, propagate and add clauses of its own.
pub trait ExternalPropagator {
    /// A lazy propagator only checks complete assignments.
    fn is_lazy(&self) -> (r: bool)
        default_ensures
            !r,
    {
        false
    }

    /// Whether the reason clauses of this propagator may be deleted.
    fn are_reasons_forgettable(&self) -> (r: bool)
        default_ensures
            !r,
    {
        false
    }

    /// Tells the propagator of assignments to observed variables.
    fn notify_assignment(&mut self, lits: &[i32]);

    fn notify_new_decision_level(&mut self);

    fn notify_backtrack(&mut self, new_level: usize);

    /// Has the propagator check the model that was found. Where it answers
    /// `false` it has to offer an external clause at the next occasion.
    fn cb_check_found_model(&self, model: &[i32]) -> bool;

    /// Asks the propagator for the next decision literal. On zero the
    /// engine makes its own choice.
    fn cb_decide(&self) -> (r: i32)
        default_ensures
            r == 0,
    {
        0
    }

    /// Asks the propagator for a literal to propagate under the current
    /// assignment. Zero means that there is none.
    fn cb_propagate(&self) -> (r: i32)
        default_ensures
            r == 0,
    {
        0
    }

    /// Asks for the reason clause of an earlier propagation, literal by
    /// literal, closed by zero. The clause has to hold the propagated
    /// literal.
    fn cb_add_reason_clause_lit(&self, _propagated_lit: i32) -> (r: i32)
        default_ensures
            r == 0,
    {
        0
    }

    /// Asks whether the propagator has an external clause to add, and has
    /// it say whether the engine may forget that clause again.
    fn cb_has_external_clause(&self, is_forgettable: &mut bool) -> bool;

    /// Asks for the external clause, literal by literal, closed by zero.
    fn cb_add_external_clause_lit(&self) -> i32;
}

/// A visitor of the irredundant clauses that remain. Where `clause` answers
/// `false` the traversal ends early.
pub trait ClauseIterator {
    fn clause(&mut self, clause: &[i32]) -> bool;
}

/// A visitor of the clauses on the extension stack, each with its witness
/// cube. Where `witness` answers `false` the traversal ends early.
pub trait WitnessIterator {
    fn witness(&mut self, clause: &[i32], witness: &[i32], id: u64) -> bool;
}

/// A connected proof tracer is told of every step of the proof that the
/// engine produces. Clauses are known by their ids.
pub trait ProofTracer {
    fn add_original_clause(&mut self, id: u64, redundant: bool, clause: &[i32], restored: bool);

    fn add_derived_clause(&mut self, id: u64, redundant: bool, clause: &[i32], antecedents: &[u64]);

    fn delete_clause(&mut self, id: u64, redundant: bool, clause: &[i32]);

    fn weaken_minus(&mut self, id: u64, clause: &[i32]);

    fn strengthen(&mut self, id: u64);

    fn finalize_clause(&mut self, id: u64, clause: &[i32]);

    fn add_assumption(&mut self, lit: i32);

    fn add_constraint(&mut self, clause: &[i32]);

    fn reset_assumptions(&mut self);

    fn add_assumption_clause(&mut self, id: u64, clause: &[i32], antecedents: &[u64]);

    fn conclude_sat(&mut self, conclusion_type: i32, model: &[i32]);

    fn conclude_unsat(&mut self, conclusion_type: i32, clause_ids: &[u64]);

    fn conclude_unknown(&mut self, trail: &[i32]);
}

} // verus!
