use std::collections::HashMap;
use vstd::prelude::*;

use crate::literal::{
    are_valid_literals, is_valid_literal, lemma_valid_literals_push, spec_variable, valid_literal,
    valid_literals, variable,
};
use crate::session::{Callback, Operation, Pending, Session, Sink, Violation};
use crate::state::{State, StateSet};
use crate::status::Status;

verus! {

/// The record that is kept of one engine on this side of the boundary.
///
/// Each operation of the engine has a method of its name here. The method
/// decides whether the call may cross the boundary: it returns `Ok` where
/// the engine's precondition holds, and moves the record on as the engine's
/// postcondition says; it returns the violation and leaves the record as it
/// was where the precondition does not hold. The caller makes the native
/// call after an `Ok`, and only then. Where the engine's contract leaves
/// open how a call ends, the record waits until the outcome is reported
/// back, with [`CaDiCal::settle`] or [`CaDiCal::opened`].
pub struct CaDiCal {
    state: State,
    pending: Option<Pending>,
    terminator: bool,
    learner: bool,
    fixed_listener: bool,
    propagator: bool,
    tracer: bool,
    frozen: HashMap<i32, u64>,
    sink: Sink,
}

impl View for CaDiCal {
    type V = Session;

    closed spec fn view(&self) -> Session {
        Session {
            state: self.state,
            pending: self.pending,
            terminator: self.terminator,
            learner: self.learner,
            fixed_listener: self.fixed_listener,
            propagator: self.propagator,
            tracer: self.tracer,
            frozen: self.frozen@,
            sink: self.sink,
        }
    }
}

impl CaDiCal {
    /// The record of an engine that has just been constructed.
    #[must_use]
    pub fn new() -> (r: Self)
        ensures
            r@ == Session::initial(),
    {
        let r = CaDiCal {
            state: State::CONFIGURING,
            pending: None,
            terminator: false,
            learner: false,
            fixed_listener: false,
            propagator: false,
            tracer: false,
            frozen: HashMap::new(),
            sink: Sink::Unopened,
        };
        assert(r@.frozen =~= Map::<i32, u64>::empty());
        r
    }

    /// The state that the engine is in: `SOLVING` while the outcome of a
    /// search is awaited, and the state in which it last rested otherwise.
    #[must_use]
    pub fn state(&self) -> (r: State)
        ensures
            r == self@.reported(),
    {
        match self.pending {
            Some(Pending::Search) => State::SOLVING,
            _ => self.state,
        }
    }

    /// The result code that goes with the engine's state.
    #[must_use]
    pub fn status(&self) -> (r: Status)
        ensures
            r == self@.reported().spec_status(),
    {
        self.state().status()
    }

    /// The call whose outcome is awaited, if any.
    #[must_use]
    pub fn pending(&self) -> (r: Option<Pending>)
        ensures
            r == self@.pending,
    {
        self.pending
    }

    /// Whether a callback of the kind `c` is connected.
    #[must_use]
    pub fn connected(&self, c: Callback) -> (r: bool)
        ensures
            r == self@.connected(c),
    {
        match c {
            Callback::Terminator => self.terminator,
            Callback::Learner => self.learner,
            Callback::FixedListener => self.fixed_listener,
            Callback::Propagator => self.propagator,
            Callback::Tracer => self.tracer,
        }
    }

    /// Where the proof trace stands.
    #[must_use]
    pub fn sink(&self) -> (r: Sink)
        ensures
            r == self@.sink,
    {
        self.sink
    }

    fn check(&self, set: StateSet) -> (r: Result<(), Violation>)
        ensures
            r == self@.state_admits(set),
    {
        match self.pending {
            Some(Pending::Search) => {
                if set.holds(State::SOLVING) {
                    Ok(())
                } else {
                    Err(Violation::WrongState)
                }
            },
            Some(_) => Err(Violation::Unsettled),
            None => {
                if set.holds(self.state) {
                    Ok(())
                } else {
                    Err(Violation::WrongState)
                }
            },
        }
    }

    fn check_literal(&self, set: StateSet, lit: i32) -> (r: Result<(), Violation>)
        ensures
            r == if self@.state_admits(set) is Err {
                self@.state_admits(set)
            } else if !valid_literal(lit) {
                Err(Violation::InvalidLiteral)
            } else {
                Ok(())
            },
    {
        match self.check(set) {
            Err(e) => Err(e),
            Ok(()) => {
                if is_valid_literal(lit) {
                    Ok(())
                } else {
                    Err(Violation::InvalidLiteral)
                }
            },
        }
    }

    /// Adds the literal `lit` to the clause that is being built, or closes
    /// that clause where `lit` is zero.
    ///
    /// Admitted in a `VALID` state, for a literal or zero. The engine is
    /// then `ADDING`, or `STEADY` where the clause was closed.
    pub fn add(&mut self, lit: i32) -> (res: Result<(), Violation>)
        ensures
            res == old(self)@.admits(Operation::Add(lit)),
            final(self)@ == old(self)@.apply(Operation::Add(lit)),
    {
        self.check(StateSet::Valid)?;
        if lit == i32::MIN {
            return Err(Violation::InvalidLiteral);
        }
        self.state = if lit == 0 {
            State::STEADY
        } else {
            State::ADDING
        };
        Ok(())
    }

    /// Assumes the literal `lit` for the next search.
    ///
    /// Admitted in a `READY` state, for a literal. The engine is then
    /// `STEADY`.
    pub fn assume_literal(&mut self, lit: i32) -> (res: Result<(), Violation>)
        ensures
            res == old(self)@.admits(Operation::Assume(lit)),
            final(self)@ == old(self)@.apply(Operation::Assume(lit)),
    {
        self.check_literal(StateSet::Ready, lit)?;
        self.state = State::STEADY;
        Ok(())
    }

    fn close_clause(&mut self, valid: bool, Ghost(lits): Ghost<Seq<i32>>) -> (res: Result<
        (),
        Violation,
    >)
        requires
            valid == valid_literals(lits),
        ensures
            res == old(self)@.admits(Operation::Clause(lits)),
            final(self)@ == old(self)@.apply(Operation::Clause(lits)),
    {
        self.check(StateSet::Valid)?;
        if !valid {
            return Err(Violation::InvalidLiteral);
        }
        self.state = State::STEADY;
        Ok(())
    }

    /// Adds the clause of one literal.
    ///
    /// Admitted in a `VALID` state, for literals. The engine is then
    /// `STEADY`.
    pub fn clause1(&mut self, l1: i32) -> (res: Result<(), Violation>)
        ensures
            res == old(self)@.admits(Operation::Clause(seq![l1])),
            final(self)@ == old(self)@.apply(Operation::Clause(seq![l1])),
    {
        let valid = is_valid_literal(l1);
        let ghost lits = seq![l1];
        proof {
            lemma_valid_literals_push(Seq::<i32>::empty(), l1);
            assert(lits =~= Seq::<i32>::empty().push(l1));
        }
        self.close_clause(valid, Ghost(lits))
    }

    /// Adds the clause of two literals.
    ///
    /// Admitted in a `VALID` state, for literals. The engine is then
    /// `STEADY`.
    pub fn clause2(&mut self, l1: i32, l2: i32) -> (res: Result<(), Violation>)
        ensures
            res == old(self)@.admits(Operation::Clause(seq![l1, l2])),
            final(self)@ == old(self)@.apply(Operation::Clause(seq![l1, l2])),
    {
        let valid = is_valid_literal(l1) && is_valid_literal(l2);
        let ghost lits = seq![l1, l2];
        proof {
            lemma_valid_literals_push(Seq::<i32>::empty(), l1);
            lemma_valid_literals_push(Seq::<i32>::empty().push(l1), l2);
            assert(lits =~= Seq::<i32>::empty().push(l1).push(l2));
        }
        self.close_clause(valid, Ghost(lits))
    }

    /// Adds the clause of three literals.
    ///
    /// Admitted in a `VALID` state, for literals. The engine is then
    /// `STEADY`.
    pub fn clause3(&mut self, l1: i32, l2: i32, l3: i32) -> (res: Result<(), Violation>)
        ensures
            res == old(self)@.admits(Operation::Clause(seq![l1, l2, l3])),
            final(self)@ == old(self)@.apply(Operation::Clause(seq![l1, l2, l3])),
    {
        let valid = is_valid_literal(l1) && is_valid_literal(l2) && is_valid_literal(l3);
        let ghost lits = seq![l1, l2, l3];
        proof {
            lemma_valid_literals_push(Seq::<i32>::empty(), l1);
            lemma_valid_literals_push(Seq::<i32>::empty().push(l1), l2);
            lemma_valid_literals_push(Seq::<i32>::empty().push(l1).push(l2), l3);
            assert(lits =~= Seq::<i32>::empty().push(l1).push(l2).push(l3));
        }
        self.close_clause(valid, Ghost(lits))
    }

    /// Adds the clause of four literals.
    ///
    /// Admitted in a `VALID` state, for literals. The engine is then
    /// `STEADY`.
    pub fn clause4(&mut self, l1: i32, l2: i32, l3: i32, l4: i32) -> (res: Result<(), Violation>)
        ensures
            res == old(self)@.admits(Operation::Clause(seq![l1, l2, l3, l4])),
            final(self)@ == old(self)@.apply(Operation::Clause(seq![l1, l2, l3, l4])),
    {
        let valid = is_valid_literal(l1) && is_valid_literal(l2) && is_valid_literal(l3) && is_valid_literal(l4);
        let ghost lits = seq![l1, l2, l3, l4];
        proof {
            lemma_valid_literals_push(Seq::<i32>::empty(), l1);
            lemma_valid_literals_push(Seq::<i32>::empty().push(l1), l2);
            lemma_valid_literals_push(Seq::<i32>::empty().push(l1).push(l2), l3);
            lemma_valid_literals_push(Seq::<i32>::empty().push(l1).push(l2).push(l3), l4);
            assert(lits =~= Seq::<i32>::empty().push(l1).push(l2).push(l3).push(l4));
        }
        self.close_clause(valid, Ghost(lits))
    }

    /// Adds the clause of five literals.
    ///
    /// Admitted in a `VALID` state, for literals. The engine is then
    /// `STEADY`.
    pub fn clause5(&mut self, l1: i32, l2: i32, l3: i32, l4: i32, l5: i32) -> (res: Result<(), Violation>)
        ensures
            res == old(self)@.admits(Operation::Clause(seq![l1, l2, l3, l4, l5])),
            final(self)@ == old(self)@.apply(Operation::Clause(seq![l1, l2, l3, l4, l5])),
    {
        let valid = is_valid_literal(l1) && is_valid_literal(l2) && is_valid_literal(l3) && is_valid_literal(l4) && is_valid_literal(l5);
        let ghost lits = seq![l1, l2, l3, l4, l5];
        proof {
            lemma_valid_literals_push(Seq::<i32>::empty(), l1);
            lemma_valid_literals_push(Seq::<i32>::empty().push(l1), l2);
            lemma_valid_literals_push(Seq::<i32>::empty().push(l1).push(l2), l3);
            lemma_valid_literals_push(Seq::<i32>::empty().push(l1).push(l2).push(l3), l4);
            lemma_valid_literals_push(Seq::<i32>::empty().push(l1).push(l2).push(l3).push(l4), l5);
            assert(lits =~= Seq::<i32>::empty().push(l1).push(l2).push(l3).push(l4).push(l5));
        }
        self.close_clause(valid, Ghost(lits))
    }

    /// Adds the clause whose literals are `v`.
    ///
    /// Admitted in a `VALID` state, for literals. The engine is then
    /// `STEADY`.
    pub fn clause6(&mut self, v: &[i32]) -> (res: Result<(), Violation>)
        ensures
            res == old(self)@.admits(Operation::Clause(v@)),
            final(self)@ == old(self)@.apply(Operation::Clause(v@)),
    {
        let valid = are_valid_literals(v);
        self.close_clause(valid, Ghost(v@))
    }

    /// Asks whether the formula is known to be inconsistent.
    ///
    /// Admitted in every state of a live engine. The state stays as it is.
    pub fn inconsistent(&self) -> (res: Result<(), Violation>)
        ensures
            res == self@.admits(Operation::Inconsistent),
    {
        self.check(StateSet::NotDeleting)
    }

    /// Adds the literal `lit` to the constraint that is being built, or
    /// closes that constraint where `lit` is zero.
    ///
    /// Admitted in a `VALID` state, for a literal or zero. The engine is
    /// then `ADDING`, or `STEADY` where the constraint was closed.
    pub fn constrain(&mut self, lit: i32) -> (res: Result<(), Violation>)
        ensures
            res == old(self)@.admits(Operation::Constrain(lit)),
            final(self)@ == old(self)@.apply(Operation::Constrain(lit)),
    {
        self.check(StateSet::Valid)?;
        if lit == i32::MIN {
            return Err(Violation::InvalidLiteral);
        }
        self.state = if lit == 0 {
            State::STEADY
        } else {
            State::ADDING
        };
        Ok(())
    }

    /// Makes room for the variables up to a given index.
    ///
    /// Admitted in a `READY` state. The engine is then `STEADY`.
    pub fn reserve(&mut self) -> (res: Result<(), Violation>)
        ensures
            res == old(self)@.admits(Operation::Reserve),
            final(self)@ == old(self)@.apply(Operation::Reserve),
    {
        self.check(StateSet::Ready)?;
        self.state = State::STEADY;
        Ok(())
    }

    /// Starts a search for a model.
    ///
    /// Admitted in a `READY` state. The engine is then `SOLVING`, until the
    /// outcome is reported with `settle`.
    pub fn solve(&mut self) -> (res: Result<(), Violation>)
        ensures
            res == old(self)@.admits(Operation::Solve),
            final(self)@ == old(self)@.apply(Operation::Solve),
    {
        self.check(StateSet::Ready)?;
        self.pending = Some(Pending::Search);
        Ok(())
    }

    /// Starts `rounds` rounds of preprocessing.
    ///
    /// Admitted in a `READY` state, for a number of rounds that is not
    /// negative. The engine is then `SOLVING`, until the outcome is reported
    /// with `settle`.
    pub fn simplify(&mut self, rounds: i32) -> (res: Result<(), Violation>)
        ensures
            res == old(self)@.admits(Operation::Simplify(rounds)),
            final(self)@ == old(self)@.apply(Operation::Simplify(rounds)),
    {
        self.check(StateSet::Ready)?;
        if rounds < 0 {
            return Err(Violation::NegativeRounds);
        }
        self.pending = Some(Pending::Search);
        Ok(())
    }

    /// Starts the search for a literal to split on.
    ///
    /// Admitted in a `READY` state. The engine is then `SOLVING`, until the
    /// outcome is reported with `settle`.
    pub fn lookahead(&mut self) -> (res: Result<(), Violation>)
        ensures
            res == old(self)@.admits(Operation::Lookahead),
            final(self)@ == old(self)@.apply(Operation::Lookahead),
    {
        self.check(StateSet::Ready)?;
        self.pending = Some(Pending::Search);
        Ok(())
    }

    /// Starts the splitting of the formula into cubes.
    ///
    /// Admitted in a `READY` state. The engine is then `SOLVING`, until the
    /// outcome is reported with `settle`.
    pub fn generate_cubes(&mut self) -> (res: Result<(), Violation>)
        ensures
            res == old(self)@.admits(Operation::GenerateCubes),
            final(self)@ == old(self)@.apply(Operation::GenerateCubes),
    {
        self.check(StateSet::Ready)?;
        self.pending = Some(Pending::Search);
        Ok(())
    }

    /// Drops the assumptions made so far.
    ///
    /// Admitted in a `VALID` state. Where the engine rests afterwards is
    /// reported with `settle`.
    pub fn reset_assumptions(&mut self) -> (res: Result<(), Violation>)
        ensures
            res == old(self)@.admits(Operation::ResetAssumptions),
            final(self)@ == old(self)@.apply(Operation::ResetAssumptions),
    {
        self.check(StateSet::Valid)?;
        self.pending = Some(Pending::Reset);
        Ok(())
    }

    /// Drops the constraint given so far.
    ///
    /// Admitted in a `VALID` state. Where the engine rests afterwards is
    /// reported with `settle`.
    pub fn reset_constraint(&mut self) -> (res: Result<(), Violation>)
        ensures
            res == old(self)@.admits(Operation::ResetConstraint),
            final(self)@ == old(self)@.apply(Operation::ResetConstraint),
    {
        self.check(StateSet::Valid)?;
        self.pending = Some(Pending::Reset);
        Ok(())
    }

    /// Starts the reading of a DIMACS file that is open already.
    ///
    /// Admitted in a `VALID` state. Where the engine rests afterwards is
    /// reported with `settle`, whether or not the file could be read.
    pub fn read_dimacs1(&mut self) -> (res: Result<(), Violation>)
        ensures
            res == old(self)@.admits(Operation::ReadDimacs),
            final(self)@ == old(self)@.apply(Operation::ReadDimacs),
    {
        self.check(StateSet::Valid)?;
        self.pending = Some(Pending::Read);
        Ok(())
    }

    /// Starts the reading of the DIMACS file at a path.
    ///
    /// Admitted in a `VALID` state. Where the engine rests afterwards is
    /// reported with `settle`, whether or not the file could be read.
    pub fn read_dimacs2(&mut self) -> (res: Result<(), Violation>)
        ensures
            res == old(self)@.admits(Operation::ReadDimacs),
            final(self)@ == old(self)@.apply(Operation::ReadDimacs),
    {
        self.check(StateSet::Valid)?;
        self.pending = Some(Pending::Read);
        Ok(())
    }

    /// Starts the reading of a DIMACS or INCCNF file that is open already.
    ///
    /// Admitted in a `VALID` state. Where the engine rests afterwards is
    /// reported with `settle`, whether or not the file could be read.
    pub fn read_dimacs3(&mut self) -> (res: Result<(), Violation>)
        ensures
            res == old(self)@.admits(Operation::ReadDimacs),
            final(self)@ == old(self)@.apply(Operation::ReadDimacs),
    {
        self.check(StateSet::Valid)?;
        self.pending = Some(Pending::Read);
        Ok(())
    }

    /// Starts the reading of the DIMACS or INCCNF file at a path.
    ///
    /// Admitted in a `VALID` state. Where the engine rests afterwards is
    /// reported with `settle`, whether or not the file could be read.
    pub fn read_dimacs4(&mut self) -> (res: Result<(), Violation>)
        ensures
            res == old(self)@.admits(Operation::ReadDimacs),
            final(self)@ == old(self)@.apply(Operation::ReadDimacs),
    {
        self.check(StateSet::Valid)?;
        self.pending = Some(Pending::Read);
        Ok(())
    }

    /// Reports the state in which the engine rests now that the call which
    /// was let through has returned.
    ///
    /// Accepted where a call awaits such a report and can end in `observed`:
    /// a search ends in `STEADY`, `SATISFIED` or `UNSATISFIED`, a copy in
    /// `CONFIGURING` or `STEADY`, a reading or a reset in any `VALID` state.
    pub fn settle(&mut self, observed: State) -> (res: Result<(), Violation>)
        ensures
            res == old(self)@.settle_admits(observed),
            final(self)@ == old(self)@.settle(observed),
    {
        let set = match self.pending {
            Some(Pending::Search) => StateSet::Settled,
            Some(Pending::Read) => StateSet::Valid,
            Some(Pending::Copy) => StateSet::Fresh,
            Some(Pending::Reset) => StateSet::Valid,
            Some(Pending::Trace) => {
                return Err(Violation::NothingPending);
            },
            None => {
                return Err(Violation::NothingPending);
            },
        };
        if !set.holds(observed) {
            return Err(Violation::UnexpectedState);
        }
        self.state = observed;
        self.pending = None;
        Ok(())
    }

    /// Starts the copying of the clauses and options of `source` into the
    /// engine of `destination`.
    ///
    /// Admitted where the source is in a `READY` state and the destination
    /// is `CONFIGURING`. The source stays as it is. Where the destination
    /// rests afterwards is reported to it with `settle`.
    pub fn copy(source: &CaDiCal, destination: &mut CaDiCal) -> (res: Result<(), Violation>)
        ensures
            res == if source@.admits(Operation::CopyFrom) is Err {
                source@.admits(Operation::CopyFrom)
            } else {
                old(destination)@.admits(Operation::CopyInto)
            },
            final(destination)@ == if source@.admits(Operation::CopyFrom) is Ok {
                old(destination)@.apply(Operation::CopyInto)
            } else {
                old(destination)@
            },
    {
        source.check(StateSet::Ready)?;
        destination.check(StateSet::Configuring)?;
        destination.pending = Some(Pending::Copy);
        Ok(())
    }

    /// Asks for the value of the literal `lit` in the model at hand.
    ///
    /// Admitted while `SATISFIED`, for a literal. The state stays as it is.
    pub fn val(&self, lit: i32) -> (res: Result<(), Violation>)
        ensures
            res == self@.admits(Operation::Val(lit)),
    {
        self.check_literal(StateSet::Satisfied, lit)
    }

    /// Tries to flip the value of the literal `lit` in the model at hand.
    ///
    /// Admitted while `SATISFIED`, for a literal, and while no external
    /// propagator is connected. The state stays as it is.
    pub fn flip(&self, lit: i32) -> (res: Result<(), Violation>)
        ensures
            res == self@.admits(Operation::Flip(lit)),
    {
        self.check_literal(StateSet::Satisfied, lit)?;
        if self.propagator {
            return Err(Violation::PropagatorConnected);
        }
        Ok(())
    }

    /// Asks whether the value of the literal `lit` could be flipped.
    ///
    /// Admitted while `SATISFIED`, for a literal, and while no external
    /// propagator is connected. The state stays as it is.
    pub fn flippable(&self, lit: i32) -> (res: Result<(), Violation>)
        ensures
            res == self@.admits(Operation::Flippable(lit)),
    {
        self.check_literal(StateSet::Satisfied, lit)?;
        if self.propagator {
            return Err(Violation::PropagatorConnected);
        }
        Ok(())
    }

    /// Asks whether the assumed literal `lit` is in the core of the
    /// refutation at hand.
    ///
    /// Admitted while `UNSATISFIED`, for a literal. The state stays as it is.
    pub fn failed(&self, lit: i32) -> (res: Result<(), Violation>)
        ensures
            res == self@.admits(Operation::Failed(lit)),
    {
        self.check_literal(StateSet::Unsatisfied, lit)
    }

    /// Asks whether the constraint was used in the refutation at hand.
    ///
    /// Admitted while `UNSATISFIED`. The state stays as it is.
    pub fn constraint_failed(&self) -> (res: Result<(), Violation>)
        ensures
            res == self@.admits(Operation::ConstraintFailed),
    {
        self.check(StateSet::Unsatisfied)
    }

    /// Has the engine conclude the proof of the result at hand.
    ///
    /// Admitted while `SATISFIED` or `UNSATISFIED`. The state stays as it is.
    pub fn conclude(&self) -> (res: Result<(), Violation>)
        ensures
            res == self@.admits(Operation::Conclude),
    {
        self.check(StateSet::Concluded)
    }

    /// Connects a terminator. One that was connected before is superseded.
    ///
    /// Admitted in a `VALID` state. The state stays as it is.
    pub fn connect_terminator(&mut self) -> (res: Result<(), Violation>)
        ensures
            res == old(self)@.admits(Operation::Connect(Callback::Terminator)),
            final(self)@ == old(self)@.apply(Operation::Connect(Callback::Terminator)),
    {
        self.check(StateSet::Valid)?;
        self.terminator = true;
        Ok(())
    }

    /// Disconnects the terminator, if one is connected.
    ///
    /// Admitted in a `VALID` state. The state stays as it is.
    pub fn disconnect_terminator(&mut self) -> (res: Result<(), Violation>)
        ensures
            res == old(self)@.admits(Operation::Disconnect(Callback::Terminator)),
            final(self)@ == old(self)@.apply(Operation::Disconnect(Callback::Terminator)),
    {
        self.check(StateSet::Valid)?;
        self.terminator = false;
        Ok(())
    }

    /// Connects a learner. One that was connected before is superseded.
    ///
    /// Admitted in a `VALID` state. The state stays as it is.
    pub fn connect_learner(&mut self) -> (res: Result<(), Violation>)
        ensures
            res == old(self)@.admits(Operation::Connect(Callback::Learner)),
            final(self)@ == old(self)@.apply(Operation::Connect(Callback::Learner)),
    {
        self.check(StateSet::Valid)?;
        self.learner = true;
        Ok(())
    }

    /// Disconnects the learner, if one is connected.
    ///
    /// Admitted in a `VALID` state. The state stays as it is.
    pub fn disconnect_learner(&mut self) -> (res: Result<(), Violation>)
        ensures
            res == old(self)@.admits(Operation::Disconnect(Callback::Learner)),
            final(self)@ == old(self)@.apply(Operation::Disconnect(Callback::Learner)),
    {
        self.check(StateSet::Valid)?;
        self.learner = false;
        Ok(())
    }

    /// Connects a listener for fixed assignments. One that was connected
    /// before is superseded.
    ///
    /// Admitted in a `VALID` state. The state stays as it is.
    pub fn connect_fixed_listener(&mut self) -> (res: Result<(), Violation>)
        ensures
            res == old(self)@.admits(Operation::Connect(Callback::FixedListener)),
            final(self)@ == old(self)@.apply(Operation::Connect(Callback::FixedListener)),
    {
        self.check(StateSet::Valid)?;
        self.fixed_listener = true;
        Ok(())
    }

    /// Disconnects the listener for fixed assignments, if one is connected.
    ///
    /// Admitted in a `VALID` state. The state stays as it is.
    pub fn disconnect_fixed_listener(&mut self) -> (res: Result<(), Violation>)
        ensures
            res == old(self)@.admits(Operation::Disconnect(Callback::FixedListener)),
            final(self)@ == old(self)@.apply(Operation::Disconnect(Callback::FixedListener)),
    {
        self.check(StateSet::Valid)?;
        self.fixed_listener = false;
        Ok(())
    }

    /// Connects a external propagator. One that was connected before is
    /// superseded.
    ///
    /// Admitted in a `VALID` state. The state stays as it is.
    pub fn connect_external_propagator(&mut self) -> (res: Result<(), Violation>)
        ensures
            res == old(self)@.admits(Operation::Connect(Callback::Propagator)),
            final(self)@ == old(self)@.apply(Operation::Connect(Callback::Propagator)),
    {
        self.check(StateSet::Valid)?;
        self.propagator = true;
        Ok(())
    }

    /// Disconnects the external propagator, if one is connected.
    ///
    /// Admitted in a `VALID` state. The state stays as it is.
    pub fn disconnect_external_propagator(&mut self) -> (res: Result<(), Violation>)
        ensures
            res == old(self)@.admits(Operation::Disconnect(Callback::Propagator)),
            final(self)@ == old(self)@.apply(Operation::Disconnect(Callback::Propagator)),
    {
        self.check(StateSet::Valid)?;
        self.propagator = false;
        Ok(())
    }

    /// Connects a proof tracer. One that was connected before is superseded.
    ///
    /// Admitted while `CONFIGURING`. The state stays as it is.
    pub fn connect_proof_tracer1(&mut self) -> (res: Result<(), Violation>)
        ensures
            res == old(self)@.admits(Operation::Connect(Callback::Tracer)),
            final(self)@ == old(self)@.apply(Operation::Connect(Callback::Tracer)),
    {
        self.check(StateSet::Configuring)?;
        self.tracer = true;
        Ok(())
    }

    /// Disconnects the proof tracer, and says whether one was connected.
    ///
    /// Admitted in a `VALID` state. The state stays as it is.
    pub fn disconnect_proof_tracer1(&mut self) -> (res: Result<bool, Violation>)
        ensures
            match res {
                Ok(was) => old(self)@.admits(Operation::Disconnect(Callback::Tracer)) is Ok && was
                    == old(self)@.tracer,
                Err(e) => old(self)@.admits(Operation::Disconnect(Callback::Tracer)) == Err::<
                    (),
                    Violation,
                >(e),
            },
            final(self)@ == old(self)@.apply(Operation::Disconnect(Callback::Tracer)),
    {
        self.check(StateSet::Valid)?;
        let was = self.tracer;
        self.tracer = false;
        Ok(was)
    }

    /// Marks the variable `lit` as observed by the external propagator.
    ///
    /// Admitted in a `VALID` state and while `SOLVING`, for a literal. The
    /// state stays as it is.
    pub fn add_observed_var(&self, lit: i32) -> (res: Result<(), Violation>)
        ensures
            res == self@.admits(Operation::AddObservedVar(lit)),
    {
        self.check_literal(StateSet::ValidOrSolving, lit)
    }

    /// Takes the mark of an observed variable off the variable `lit`.
    ///
    /// Admitted in a `VALID` state, for a literal. The state stays as it is.
    pub fn remove_observed_var(&self, lit: i32) -> (res: Result<(), Violation>)
        ensures
            res == self@.admits(Operation::RemoveObservedVar(lit)),
    {
        self.check_literal(StateSet::Valid, lit)
    }

    /// Takes the mark of an observed variable off every variable.
    ///
    /// Admitted in a `VALID` state. The state stays as it is.
    pub fn reset_observed_vars(&self) -> (res: Result<(), Violation>)
        ensures
            res == self@.admits(Operation::ResetObservedVars),
    {
        self.check(StateSet::Valid)
    }

    /// Asks whether the observed literal `lit` was assigned by a decision.
    ///
    /// Admitted in a `VALID` state and while `SOLVING`, for a literal. The
    /// state stays as it is.
    pub fn is_decision(&self, lit: i32) -> (res: Result<(), Violation>)
        ensures
            res == self@.admits(Operation::IsDecision(lit)),
    {
        self.check_literal(StateSet::ValidOrSolving, lit)
    }

    /// Forces the search back to a decision level.
    ///
    /// Admitted while `SOLVING`. The state stays as it is.
    pub fn force_backtrack(&self) -> (res: Result<(), Violation>)
        ensures
            res == self@.admits(Operation::ForceBacktrack),
    {
        self.check(StateSet::Solving)
    }

    /// Asks the engine to end the search that is running.
    ///
    /// Admitted in a `READY` state and while `SOLVING`. The state stays as it
    /// is: where the search ends is reported when it has ended.
    pub fn terminate(&self) -> (res: Result<(), Violation>)
        ensures
            res == self@.admits(Operation::Terminate),
    {
        self.check(StateSet::ReadyOrSolving)
    }

    /// Asks for the largest variable index in use.
    ///
    /// Admitted in a `VALID` state and while `SOLVING`. The state stays as it
    /// is.
    pub fn vars(&self) -> (res: Result<(), Violation>)
        ensures
            res == self@.admits(Operation::Vars),
    {
        self.check(StateSet::ValidOrSolving)
    }

    /// Asks for the value of an option.
    ///
    /// Admitted in every state of a live engine. The state stays as it is.
    pub fn get(&self) -> (res: Result<(), Violation>)
        ensures
            res == self@.admits(Operation::Get),
    {
        self.check(StateSet::NotDeleting)
    }

    /// Sets the prefix of the messages that the engine prints.
    ///
    /// Admitted in every state of a live engine. The state stays as it is.
    pub fn prefix(&self) -> (res: Result<(), Violation>)
        ensures
            res == self@.admits(Operation::Prefix),
    {
        self.check(StateSet::NotDeleting)
    }

    /// Sets an option by name and value.
    ///
    /// Admitted while `CONFIGURING`. The state stays as it is.
    pub fn set(&self) -> (res: Result<(), Violation>)
        ensures
            res == self@.admits(Operation::SetOption),
    {
        self.check(StateSet::Configuring)
    }

    /// Sets an option written as on a command line.
    ///
    /// Admitted while `CONFIGURING`. The state stays as it is.
    pub fn set_long_option(&self) -> (res: Result<(), Violation>)
        ensures
            res == self@.admits(Operation::SetLongOption),
    {
        self.check(StateSet::Configuring)
    }

    /// Sets the options of a named configuration.
    ///
    /// Admitted while `CONFIGURING`. The state stays as it is.
    pub fn configure(&self) -> (res: Result<(), Violation>)
        ensures
            res == self@.admits(Operation::Configure),
    {
        self.check(StateSet::Configuring)
    }

    /// Raises the limits of preprocessing and inprocessing.
    ///
    /// Admitted in a `READY` state. The state stays as it is.
    pub fn optimize(&self) -> (res: Result<(), Violation>)
        ensures
            res == self@.admits(Operation::Optimize),
    {
        self.check(StateSet::Ready)
    }

    /// Sets a limit on the next search.
    ///
    /// Admitted in a `READY` state. The state stays as it is.
    pub fn limit(&self) -> (res: Result<(), Violation>)
        ensures
            res == self@.admits(Operation::Limit),
    {
        self.check(StateSet::Ready)
    }

    /// Asks whether a name is that of a limit.
    ///
    /// Admitted in every state of a live engine. The state stays as it is.
    pub fn is_valid_limit(&self) -> (res: Result<(), Violation>)
        ensures
            res == self@.admits(Operation::IsValidLimit),
    {
        self.check(StateSet::NotDeleting)
    }

    /// Asks for the number of active variables.
    ///
    /// Admitted in a `VALID` state. The state stays as it is.
    pub fn active(&self) -> (res: Result<(), Violation>)
        ensures
            res == self@.admits(Operation::Active),
    {
        self.check(StateSet::Valid)
    }

    /// Asks for the number of active redundant clauses.
    ///
    /// Admitted in a `VALID` state. The state stays as it is.
    pub fn redundant(&self) -> (res: Result<(), Violation>)
        ensures
            res == self@.admits(Operation::Redundant),
    {
        self.check(StateSet::Valid)
    }

    /// Asks for the number of active irredundant clauses.
    ///
    /// Admitted in a `VALID` state. The state stays as it is.
    pub fn irredundant(&self) -> (res: Result<(), Violation>)
        ensures
            res == self@.admits(Operation::Irredundant),
    {
        self.check(StateSet::Valid)
    }

    /// Has the engine print its statistics.
    ///
    /// Admitted in every state of a live engine. The state stays as it is.
    pub fn statistics(&self) -> (res: Result<(), Violation>)
        ensures
            res == self@.admits(Operation::Statistics),
    {
        self.check(StateSet::NotDeleting)
    }

    /// Has the engine print the time and memory it has used.
    ///
    /// Admitted in every state of a live engine. The state stays as it is.
    pub fn resources(&self) -> (res: Result<(), Violation>)
        ensures
            res == self@.admits(Operation::Resources),
    {
        self.check(StateSet::NotDeleting)
    }

    /// Has the engine print its options and their values.
    ///
    /// Admitted in a `VALID` state. The state stays as it is.
    pub fn options(&self) -> (res: Result<(), Violation>)
        ensures
            res == self@.admits(Operation::Options),
    {
        self.check(StateSet::Valid)
    }

    /// Asks whether the literal `lit` is implied by the formula.
    ///
    /// Admitted in a `VALID` state, for a literal. The state stays as it is.
    pub fn fixed(&self, lit: i32) -> (res: Result<(), Violation>)
        ensures
            res == self@.admits(Operation::Fixed(lit)),
    {
        self.check_literal(StateSet::Valid, lit)
    }

    /// Forces the phase in which the variable of `lit` is decided.
    ///
    /// Admitted in every state of a live engine, for a literal. The state
    /// stays as it is.
    pub fn phase(&self, lit: i32) -> (res: Result<(), Violation>)
        ensures
            res == self@.admits(Operation::Phase(lit)),
    {
        self.check_literal(StateSet::NotDeleting, lit)
    }

    /// Lifts a forced phase from the variable of `lit`.
    ///
    /// Admitted in every state of a live engine, for a literal. The state
    /// stays as it is.
    pub fn unphase(&self, lit: i32) -> (res: Result<(), Violation>)
        ensures
            res == self@.admits(Operation::Unphase(lit)),
    {
        self.check_literal(StateSet::NotDeleting, lit)
    }

    fn count(&self, var: i32) -> (r: u64)
        ensures
            r == self@.freezes(var),
    {
        broadcast use vstd::std_specs::hash::group_hash_axioms;

        match self.frozen.get(&var) {
            Some(c) => *c,
            None => 0,
        }
    }

    /// Says whether the variable of the literal `lit` has been frozen through
    /// this record more often than it has been melted.
    ///
    /// Admitted in a `VALID` state, for a literal. The state stays as it is.
    pub fn frozen(&self, lit: i32) -> (res: Result<bool, Violation>)
        ensures
            match res {
                Ok(b) => self@.admits(Operation::Frozen(lit)) is Ok && b == (self@.freezes(
                    spec_variable(lit),
                ) > 0),
                Err(e) => self@.admits(Operation::Frozen(lit)) == Err::<(), Violation>(e),
            },
    {
        self.check_literal(StateSet::Valid, lit)?;
        Ok(self.count(variable(lit)) > 0)
    }

    /// Freezes the variable of the literal `lit` once more.
    ///
    /// Admitted in a `VALID` state, for a literal. The state stays as it is.
    pub fn freeze(&mut self, lit: i32) -> (res: Result<(), Violation>)
        ensures
            res == old(self)@.admits(Operation::Freeze(lit)),
            final(self)@ == old(self)@.apply(Operation::Freeze(lit)),
    {
        broadcast use vstd::std_specs::hash::group_hash_axioms;

        self.check_literal(StateSet::Valid, lit)?;
        let var = variable(lit);
        let count = self.count(var);
        if count == u64::MAX {
            return Err(Violation::FreezeOverflow);
        }
        self.frozen.insert(var, count + 1);
        Ok(())
    }

    /// Melts the variable of the literal `lit` once.
    ///
    /// Admitted in a `VALID` state, for a literal whose variable is frozen.
    /// The state stays as it is.
    pub fn melt(&mut self, lit: i32) -> (res: Result<(), Violation>)
        ensures
            res == old(self)@.admits(Operation::Melt(lit)),
            final(self)@ == old(self)@.apply(Operation::Melt(lit)),
    {
        broadcast use vstd::std_specs::hash::group_hash_axioms;

        self.check_literal(StateSet::Valid, lit)?;
        let var = variable(lit);
        let count = self.count(var);
        if count == 0 {
            return Err(Violation::NotFrozen);
        }
        if count == 1 {
            self.frozen.remove(&var);
        } else {
            self.frozen.insert(var, count - 1);
        }
        assert(self@.frozen =~= old(self)@.with_freezes(var, (count - 1) as u64).frozen);
        Ok(())
    }

    /// Starts the tracing of a proof to a file that is open already.
    ///
    /// Admitted while `CONFIGURING`. A proof can be traced once. Whether the
    /// engine could write to the file is reported with `opened`.
    pub fn trace_proof1(&mut self) -> (res: Result<(), Violation>)
        ensures
            res == old(self)@.admits(Operation::TraceProof),
            final(self)@ == old(self)@.apply(Operation::TraceProof),
    {
        self.check(StateSet::Configuring)?;
        if self.sink != Sink::Unopened {
            return Err(Violation::AlreadyTraced);
        }
        self.pending = Some(Pending::Trace);
        Ok(())
    }

    /// Starts the tracing of a proof to the file at a path.
    ///
    /// Admitted while `CONFIGURING`. A proof can be traced once. Whether the
    /// engine could open the file is reported with `opened`.
    pub fn trace_proof2(&mut self) -> (res: Result<(), Violation>)
        ensures
            res == old(self)@.admits(Operation::TraceProof),
            final(self)@ == old(self)@.apply(Operation::TraceProof),
    {
        self.check(StateSet::Configuring)?;
        if self.sink != Sink::Unopened {
            return Err(Violation::AlreadyTraced);
        }
        self.pending = Some(Pending::Trace);
        Ok(())
    }

    /// Reports whether the engine opened the proof trace that was asked for.
    ///
    /// Accepted where the start of a trace awaits this report. The trace is
    /// then open, or as if it had never been asked for.
    pub fn opened(&mut self, success: bool) -> (res: Result<(), Violation>)
        ensures
            res == old(self)@.opened_admits(),
            final(self)@ == old(self)@.opened(success),
    {
        match self.pending {
            Some(Pending::Trace) => {},
            _ => {
                return Err(Violation::NothingPending);
            },
        }
        self.sink = if success {
            Sink::Open
        } else {
            Sink::Unopened
        };
        self.pending = None;
        Ok(())
    }

    /// Flushes the proof trace.
    ///
    /// Admitted in a `VALID` state, while the trace is open. The state stays
    /// as it is.
    pub fn flush_proof_trace(&self) -> (res: Result<(), Violation>)
        ensures
            res == self@.admits(Operation::FlushProofTrace),
    {
        self.check(StateSet::Valid)?;
        if self.sink != Sink::Open {
            return Err(Violation::NotTracing);
        }
        Ok(())
    }

    /// Closes the proof trace.
    ///
    /// Admitted in a `VALID` state. The trace has to be open, and is closed
    /// for good.
    pub fn close_proof_trace(&mut self) -> (res: Result<(), Violation>)
        ensures
            res == old(self)@.admits(Operation::CloseProofTrace),
            final(self)@ == old(self)@.apply(Operation::CloseProofTrace),
    {
        self.check(StateSet::Valid)?;
        if self.sink != Sink::Open {
            return Err(Violation::NotTracing);
        }
        self.sink = Sink::Closed;
        Ok(())
    }

    /// Has the engine hand its irredundant clauses to a visitor.
    ///
    /// Admitted in a `VALID` state. The state stays as it is.
    pub fn traverse_clauses(&self) -> (res: Result<(), Violation>)
        ensures
            res == self@.admits(Operation::TraverseClauses),
    {
        self.check(StateSet::Valid)
    }

    /// Has the engine hand its extension stack to a visitor, last entry
    /// first.
    ///
    /// Admitted in a `VALID` state. The state stays as it is.
    pub fn traverse_witnesses_backward(&self) -> (res: Result<(), Violation>)
        ensures
            res == self@.admits(Operation::TraverseWitnessesBackward),
    {
        self.check(StateSet::Valid)
    }

    /// Has the engine hand its extension stack to a visitor, first entry
    /// first.
    ///
    /// Admitted in a `VALID` state. The state stays as it is.
    pub fn traverse_witnesses_forward(&self) -> (res: Result<(), Violation>)
        ensures
            res == self@.admits(Operation::TraverseWitnessesForward),
    {
        self.check(StateSet::Valid)
    }

    /// Has the engine write its irredundant clauses to a DIMACS file.
    ///
    /// Admitted in a `VALID` state. The state stays as it is.
    pub fn write_dimacs(&self) -> (res: Result<(), Violation>)
        ensures
            res == self@.admits(Operation::WriteDimacs),
    {
        self.check(StateSet::Valid)
    }

    /// Has the engine write its extension stack to a file.
    ///
    /// Admitted in a `VALID` state. The state stays as it is.
    pub fn write_extension(&self) -> (res: Result<(), Violation>)
        ensures
            res == self@.admits(Operation::WriteExtension),
    {
        self.check(StateSet::Valid)
    }
}

impl Default for CaDiCal {
    fn default() -> (r: Self)
        ensures
            r@ == Session::initial(),
    {
        CaDiCal::new()
    }
}

} // verus!
