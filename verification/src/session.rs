use vstd::prelude::*;

use crate::literal::{spec_variable, valid_literal, valid_literals};
use crate::state::{State, StateSet};

verus! {

/// Why an operation was not let through to the engine.
#[derive(Debug, PartialEq, Eq, Hash, Clone, Copy, Structural)]
pub enum Violation {
    /// An earlier call has been let through and the engine's answer to it
    /// has not been reported back yet.
    Unsettled,
    /// The engine is not in a state in which the operation is permitted.
    WrongState,
    /// An argument that has to be a literal is zero or the least `i32`.
    InvalidLiteral,
    /// The number of preprocessing rounds is negative.
    NegativeRounds,
    /// The model cannot be flipped while an external propagator is connected.
    PropagatorConnected,
    /// The variable has been melted as often as it has been frozen.
    NotFrozen,
    /// The variable has been frozen as often as can be counted.
    FreezeOverflow,
    /// A proof trace has been started on this engine before.
    AlreadyTraced,
    /// No proof trace is open.
    NotTracing,
    /// An answer was reported back though no call awaits one of that kind.
    NothingPending,
    /// The engine reports a state that the pending call cannot end in.
    UnexpectedState,
}

/// The kinds of callback that can be connected, one at a time each.
#[derive(Debug, PartialEq, Eq, Hash, Clone, Copy, Structural)]
pub enum Callback {
    Terminator,
    Learner,
    FixedListener,
    Propagator,
    Tracer,
}

/// A call that has been let through and whose outcome only the engine knows.
#[derive(Debug, PartialEq, Eq, Hash, Clone, Copy, Structural)]
pub enum Pending {
    /// `solve`, `simplify`, `lookahead` or `generate_cubes`: the engine is
    /// `SOLVING`, and ends in `STEADY`, `SATISFIED` or `UNSATISFIED`.
    Search,
    /// One of the `read_dimacs` calls: the engine ends in a `VALID` state.
    Read,
    /// `copy`, seen from the destination: it ends in `CONFIGURING` or `STEADY`.
    Copy,
    /// `reset_assumptions` or `reset_constraint`: the engine ends in a `VALID`
    /// state.
    Reset,
    /// `trace_proof1` or `trace_proof2`: the engine says whether the file was
    /// opened.
    Trace,
}

impl Pending {
    /// The states that the engine may report when the call has returned.
    pub open spec fn outcome(self) -> Option<StateSet> {
        match self {
            Pending::Search => Some(StateSet::Settled),
            Pending::Read => Some(StateSet::Valid),
            Pending::Copy => Some(StateSet::Fresh),
            Pending::Reset => Some(StateSet::Valid),
            Pending::Trace => None,
        }
    }
}

/// The file or pipe that a proof is traced to.
#[derive(Debug, PartialEq, Eq, Hash, Clone, Copy, Structural)]
pub enum Sink {
    /// No trace has been started.
    Unopened,
    /// A trace is being written.
    Open,
    /// The trace has been closed. It cannot be opened again.
    Closed,
}

/// The operations of the engine that are bound by its state, each with the
/// arguments that its precondition speaks of.
pub enum Operation {
    Add(i32),
    Clause(Seq<i32>),
    Inconsistent,
    Constrain(i32),
    Assume(i32),
    Solve,
    Simplify(i32),
    Lookahead,
    GenerateCubes,
    Val(i32),
    Flip(i32),
    Flippable(i32),
    Failed(i32),
    ConstraintFailed,
    Connect(Callback),
    Disconnect(Callback),
    AddObservedVar(i32),
    RemoveObservedVar(i32),
    ResetObservedVars,
    IsDecision(i32),
    ForceBacktrack,
    ResetAssumptions,
    ResetConstraint,
    CopyFrom,
    CopyInto,
    Vars,
    Reserve,
    Get,
    Prefix,
    SetOption,
    SetLongOption,
    Configure,
    Optimize,
    Limit,
    IsValidLimit,
    Active,
    Redundant,
    Irredundant,
    Terminate,
    Frozen(i32),
    Freeze(i32),
    Melt(i32),
    Fixed(i32),
    Phase(i32),
    Unphase(i32),
    TraceProof,
    FlushProofTrace,
    CloseProofTrace,
    Conclude,
    Statistics,
    Resources,
    Options,
    TraverseClauses,
    TraverseWitnessesBackward,
    TraverseWitnessesForward,
    ReadDimacs,
    WriteDimacs,
    WriteExtension,
}

impl Operation {
    /// The states in which the engine permits the operation.
    pub open spec fn guard(self) -> StateSet {
        match self {
            Operation::Add(_) | Operation::Clause(_) | Operation::Constrain(_) => StateSet::Valid,
            Operation::Assume(_) => StateSet::Ready,
            Operation::Solve | Operation::Simplify(_) | Operation::Lookahead
            | Operation::GenerateCubes => StateSet::Ready,
            Operation::Val(_) | Operation::Flip(_) | Operation::Flippable(_) => StateSet::Satisfied,
            Operation::Failed(_) | Operation::ConstraintFailed => StateSet::Unsatisfied,
            Operation::Connect(c) => if c == Callback::Tracer {
                StateSet::Configuring
            } else {
                StateSet::Valid
            },
            Operation::Disconnect(_) => StateSet::Valid,
            Operation::AddObservedVar(_) | Operation::IsDecision(_) => StateSet::ValidOrSolving,
            Operation::RemoveObservedVar(_) | Operation::ResetObservedVars => StateSet::Valid,
            Operation::ForceBacktrack => StateSet::Solving,
            Operation::ResetAssumptions | Operation::ResetConstraint => StateSet::Valid,
            Operation::CopyFrom => StateSet::Ready,
            Operation::CopyInto => StateSet::Configuring,
            Operation::Vars => StateSet::ValidOrSolving,
            Operation::Reserve => StateSet::Ready,
            Operation::SetOption | Operation::SetLongOption | Operation::Configure
            | Operation::TraceProof => StateSet::Configuring,
            Operation::Optimize | Operation::Limit => StateSet::Ready,
            Operation::Active | Operation::Redundant | Operation::Irredundant => StateSet::Valid,
            Operation::Terminate => StateSet::ReadyOrSolving,
            Operation::Frozen(_) | Operation::Freeze(_) | Operation::Melt(_)
            | Operation::Fixed(_) => StateSet::Valid,
            Operation::Phase(_) | Operation::Unphase(_) | Operation::Inconsistent
            | Operation::Get | Operation::Prefix | Operation::IsValidLimit
            | Operation::Statistics | Operation::Resources => StateSet::NotDeleting,
            Operation::FlushProofTrace | Operation::CloseProofTrace => StateSet::Valid,
            Operation::Conclude => StateSet::Concluded,
            Operation::Options | Operation::TraverseClauses
            | Operation::TraverseWitnessesBackward | Operation::TraverseWitnessesForward
            | Operation::ReadDimacs | Operation::WriteDimacs | Operation::WriteExtension =>
                StateSet::Valid,
        }
    }

    /// Whether the arguments that have to be literals are literals. Where a
    /// clause or a constraint is given literal by literal, zero is its end
    /// and is welcome.
    pub open spec fn literals_valid(self) -> bool {
        match self {
            Operation::Add(lit) | Operation::Constrain(lit) => lit != i32::MIN,
            Operation::Clause(lits) => valid_literals(lits),
            Operation::Assume(lit) | Operation::Val(lit) | Operation::Flip(lit)
            | Operation::Flippable(lit) | Operation::Failed(lit) | Operation::AddObservedVar(lit)
            | Operation::RemoveObservedVar(lit) | Operation::IsDecision(lit)
            | Operation::Frozen(lit) | Operation::Freeze(lit) | Operation::Melt(lit)
            | Operation::Fixed(lit) | Operation::Phase(lit) | Operation::Unphase(lit) =>
                valid_literal(lit),
            _ => true,
        }
    }

    /// Whether the operation asks the engine something, or sets something
    /// inside it, without any effect on what later operations are admitted.
    pub open spec fn is_query(self) -> bool {
        match self {
            Operation::Add(_) | Operation::Clause(_) | Operation::Constrain(_)
            | Operation::Assume(_) | Operation::Solve | Operation::Simplify(_)
            | Operation::Lookahead | Operation::GenerateCubes | Operation::Connect(_)
            | Operation::Disconnect(_) | Operation::ResetAssumptions | Operation::ResetConstraint
            | Operation::CopyInto | Operation::Reserve | Operation::Freeze(_)
            | Operation::Melt(_) | Operation::TraceProof | Operation::CloseProofTrace
            | Operation::ReadDimacs => false,
            _ => true,
        }
    }
}

/// What can happen to a session: an operation is asked for, or the outcome
/// of one that was let through is reported back.
pub enum Event {
    /// The operation is asked for.
    Call(Operation),
    /// The engine is reported to rest in the state.
    Settled(State),
    /// The engine is reported to have opened the proof trace, or not.
    Opened(bool),
}

/// What is known of one engine on this side of the boundary.
pub struct Session {
    /// The state in which the engine was last known to rest.
    pub state: State,
    /// The call that has been let through and not been answered, if any.
    pub pending: Option<Pending>,
    pub terminator: bool,
    pub learner: bool,
    pub fixed_listener: bool,
    pub propagator: bool,
    pub tracer: bool,
    /// For each variable that is frozen, how often it has been frozen and
    /// not melted again.
    pub frozen: Map<i32, u64>,
    pub sink: Sink,
}

impl Session {
    /// A newly constructed engine: configuring, nothing connected, nothing
    /// frozen, no proof traced.
    pub open spec fn initial() -> Session {
        Session {
            state: State::CONFIGURING,
            pending: None,
            terminator: false,
            learner: false,
            fixed_listener: false,
            propagator: false,
            tracer: false,
            frozen: Map::empty(),
            sink: Sink::Unopened,
        }
    }

    /// The engine rests in one of the five states that are `VALID`, and
    /// every count that is kept is of a variable and is positive.
    pub open spec fn wf(self) -> bool {
        &&& StateSet::Valid.contains(self.state)
        &&& forall|v: i32| #[trigger]
            self.frozen.dom().contains(v) ==> v > 0 && self.frozen[v] > 0
    }

    /// The state that the engine is in: `SOLVING` during a search, and the
    /// state in which it last rested otherwise.
    pub open spec fn reported(self) -> State {
        if self.pending == Some(Pending::Search) {
            State::SOLVING
        } else {
            self.state
        }
    }

    /// Whether a callback of the kind `c` is connected.
    pub open spec fn connected(self, c: Callback) -> bool {
        match c {
            Callback::Terminator => self.terminator,
            Callback::Learner => self.learner,
            Callback::FixedListener => self.fixed_listener,
            Callback::Propagator => self.propagator,
            Callback::Tracer => self.tracer,
        }
    }

    /// This session with the slot of the kind `c` filled or emptied.
    pub open spec fn with_connected(self, c: Callback, on: bool) -> Session {
        match c {
            Callback::Terminator => Session { terminator: on, ..self },
            Callback::Learner => Session { learner: on, ..self },
            Callback::FixedListener => Session { fixed_listener: on, ..self },
            Callback::Propagator => Session { propagator: on, ..self },
            Callback::Tracer => Session { tracer: on, ..self },
        }
    }

    /// How often the variable `var` has been frozen and not melted again.
    pub open spec fn freezes(self, var: i32) -> nat {
        if self.frozen.dom().contains(var) {
            self.frozen[var] as nat
        } else {
            0
        }
    }

    /// This session with the count of the variable `var` set to `count`.
    pub open spec fn with_freezes(self, var: i32, count: u64) -> Session {
        Session {
            frozen: if count == 0 {
                self.frozen.remove(var)
            } else {
                self.frozen.insert(var, count)
            },
            ..self
        }
    }

    /// The first part of every precondition: no answer is awaited, unless
    /// it is that of a search, and the engine's state belongs to `set`.
    pub open spec fn state_admits(self, set: StateSet) -> Result<(), Violation> {
        if self.pending is Some && self.pending != Some(Pending::Search) {
            Err(Violation::Unsettled)
        } else if !set.contains(self.reported()) {
            Err(Violation::WrongState)
        } else {
            Ok(())
        }
    }

    /// What remains of the precondition of `op` once state and literals are
    /// in order.
    pub open spec fn rest_admits(self, op: Operation) -> Result<(), Violation> {
        match op {
            Operation::Simplify(rounds) => if rounds < 0 {
                Err(Violation::NegativeRounds)
            } else {
                Ok(())
            },
            Operation::Flip(_) | Operation::Flippable(_) => if self.propagator {
                Err(Violation::PropagatorConnected)
            } else {
                Ok(())
            },
            Operation::Freeze(lit) => if self.freezes(spec_variable(lit)) >= u64::MAX {
                Err(Violation::FreezeOverflow)
            } else {
                Ok(())
            },
            Operation::Melt(lit) => if self.freezes(spec_variable(lit)) == 0 {
                Err(Violation::NotFrozen)
            } else {
                Ok(())
            },
            Operation::TraceProof => if self.sink != Sink::Unopened {
                Err(Violation::AlreadyTraced)
            } else {
                Ok(())
            },
            Operation::FlushProofTrace | Operation::CloseProofTrace => if self.sink != Sink::Open {
                Err(Violation::NotTracing)
            } else {
                Ok(())
            },
            _ => Ok(()),
        }
    }

    /// Whether `op` may be let through to the engine, and if not, why not.
    /// The state is looked at first, then the literals, then the rest.
    pub open spec fn admits(self, op: Operation) -> Result<(), Violation> {
        if self.state_admits(op.guard()) is Err {
            self.state_admits(op.guard())
        } else if !op.literals_valid() {
            Err(Violation::InvalidLiteral)
        } else {
            self.rest_admits(op)
        }
    }

    /// The session after an admitted `op`.
    pub open spec fn effect(self, op: Operation) -> Session {
        match op {
            Operation::Add(lit) | Operation::Constrain(lit) => Session {
                state: if lit == 0 {
                    State::STEADY
                } else {
                    State::ADDING
                },
                ..self
            },
            Operation::Clause(_) | Operation::Assume(_) | Operation::Reserve => Session {
                state: State::STEADY,
                ..self
            },
            Operation::Solve | Operation::Simplify(_) | Operation::Lookahead
            | Operation::GenerateCubes => Session { pending: Some(Pending::Search), ..self },
            Operation::ReadDimacs => Session { pending: Some(Pending::Read), ..self },
            Operation::CopyInto => Session { pending: Some(Pending::Copy), ..self },
            Operation::ResetAssumptions | Operation::ResetConstraint => Session {
                pending: Some(Pending::Reset),
                ..self
            },
            Operation::TraceProof => Session { pending: Some(Pending::Trace), ..self },
            Operation::Connect(c) => self.with_connected(c, true),
            Operation::Disconnect(c) => self.with_connected(c, false),
            Operation::Freeze(lit) => self.with_freezes(
                spec_variable(lit),
                (self.freezes(spec_variable(lit)) + 1) as u64,
            ),
            Operation::Melt(lit) => self.with_freezes(
                spec_variable(lit),
                (self.freezes(spec_variable(lit)) - 1) as u64,
            ),
            Operation::CloseProofTrace => Session { sink: Sink::Closed, ..self },
            _ => self,
        }
    }

    /// The session after `op` was asked for: changed as the engine's
    /// contract says where `op` is admitted, and as before where it is not.
    pub open spec fn apply(self, op: Operation) -> Session {
        if self.admits(op) is Ok {
            self.effect(op)
        } else {
            self
        }
    }

    /// Whether the report that the engine now rests in `observed` answers
    /// the pending call.
    pub open spec fn settle_admits(self, observed: State) -> Result<(), Violation> {
        match self.pending {
            Some(p) => match p.outcome() {
                Some(set) => if set.contains(observed) {
                    Ok(())
                } else {
                    Err(Violation::UnexpectedState)
                },
                None => Err(Violation::NothingPending),
            },
            None => Err(Violation::NothingPending),
        }
    }

    /// The session after the engine was reported to rest in `observed`.
    pub open spec fn settle(self, observed: State) -> Session {
        if self.settle_admits(observed) is Ok {
            Session { state: observed, pending: None, ..self }
        } else {
            self
        }
    }

    /// Whether the report on the opening of a proof trace answers the
    /// pending call.
    pub open spec fn opened_admits(self) -> Result<(), Violation> {
        if self.pending == Some(Pending::Trace) {
            Ok(())
        } else {
            Err(Violation::NothingPending)
        }
    }

    /// The session after the engine said whether the proof trace was opened.
    pub open spec fn opened(self, success: bool) -> Session {
        if self.opened_admits() is Ok {
            Session {
                sink: if success {
                    Sink::Open
                } else {
                    Sink::Unopened
                },
                pending: None,
                ..self
            }
        } else {
            self
        }
    }

    /// The session after the event `e`.
    pub open spec fn step(self, e: Event) -> Session {
        match e {
            Event::Call(op) => self.apply(op),
            Event::Settled(observed) => self.settle(observed),
            Event::Opened(success) => self.opened(success),
        }
    }

    /// The session after the events of `events`, first to last.
    pub open spec fn run(self, events: Seq<Event>) -> Session
        decreases events.len(),
    {
        if events.len() == 0 {
            self
        } else {
            self.run(events.drop_last()).step(events.last())
        }
    }
}

} // verus!
