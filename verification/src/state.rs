use vstd::prelude::*;

use crate::status::Status;

verus! {

/// Mode of the engine. The engine numbers its modes by single bits, so that
/// a set of modes is a number too; the last three values are such sets, which
/// the engine names for use in its own preconditions.
#[allow(non_camel_case_types)]
#[derive(Debug, PartialEq, Eq, Hash, Clone, Copy, Structural)]
pub enum State {
    /// During initialization (invalid).
    INITIALIZING,
    /// Options may still be set.
    CONFIGURING,
    /// Ready to search.
    STEADY,
    /// A clause or constraint has been started and its closing zero is missing.
    ADDING,
    /// Inside a search.
    SOLVING,
    /// A model is at hand.
    SATISFIED,
    /// A refutation is at hand.
    UNSATISFIED,
    /// During and after deletion (invalid).
    DELETING,
    /// `CONFIGURING | STEADY | SATISFIED | UNSATISFIED`.
    READY,
    /// `READY | ADDING`.
    VALID,
    /// `INITIALIZING | DELETING`.
    INVALID,
}

impl State {
    /// The number that stands for this state at the engine's boundary.
    pub open spec fn spec_code(self) -> int {
        match self {
            State::INITIALIZING => 1,
            State::CONFIGURING => 2,
            State::STEADY => 4,
            State::ADDING => 8,
            State::SOLVING => 16,
            State::SATISFIED => 32,
            State::UNSATISFIED => 64,
            State::DELETING => 128,
            State::READY => 102,
            State::VALID => 110,
            State::INVALID => 129,
        }
    }

    /// Whether `val` is the number of one of the eleven states.
    pub open spec fn is_code(val: int) -> bool {
        val == 1 || val == 2 || val == 4 || val == 8 || val == 16 || val == 32 || val == 64
            || val == 128 || val == 102 || val == 110 || val == 129
    }

    /// Whether this is one of the eight modes proper, and no named set.
    pub open spec fn is_flag(self) -> bool {
        self != State::READY && self != State::VALID && self != State::INVALID
    }

    /// The state of an engine that exists and is not being torn down.
    pub open spec fn is_live(self) -> bool {
        self.is_flag() && self != State::INITIALIZING && self != State::DELETING
    }

    /// The result code that the engine reports while in this state: that of
    /// a model or of a refutation where one is at hand, and unknown otherwise.
    pub open spec fn spec_status(self) -> Status {
        match self {
            State::SATISFIED => Status::SATISFIABLE,
            State::UNSATISFIED => Status::UNSATISFIABLE,
            _ => Status::UNKNOWN,
        }
    }

    /// The number that stands for this state at the engine's boundary.
    pub fn code(self) -> (r: i32)
        ensures
            r == self.spec_code(),
    {
        match self {
            State::INITIALIZING => 1,
            State::CONFIGURING => 2,
            State::STEADY => 4,
            State::ADDING => 8,
            State::SOLVING => 16,
            State::SATISFIED => 32,
            State::UNSATISFIED => 64,
            State::DELETING => 128,
            State::READY => 102,
            State::VALID => 110,
            State::INVALID => 129,
        }
    }

    /// Reads a state code. Any other number means that the engine broke its
    /// interface, and is left out.
    pub fn from(val: i32) -> (r: State)
        requires
            State::is_code(val as int),
        ensures
            r.spec_code() == val,
    {
        match State::checked_from(val) {
            Some(s) => s,
            None => State::INVALID,
        }
    }

    /// Reads a number that may or may not be a state code.
    pub fn checked_from(val: i32) -> (r: Option<State>)
        ensures
            State::is_code(val as int) <==> r is Some,
            r matches Some(s) ==> s.spec_code() == val,
    {
        if val == 1 {
            Some(State::INITIALIZING)
        } else if val == 2 {
            Some(State::CONFIGURING)
        } else if val == 4 {
            Some(State::STEADY)
        } else if val == 8 {
            Some(State::ADDING)
        } else if val == 16 {
            Some(State::SOLVING)
        } else if val == 32 {
            Some(State::SATISFIED)
        } else if val == 64 {
            Some(State::UNSATISFIED)
        } else if val == 128 {
            Some(State::DELETING)
        } else if val == 102 {
            Some(State::READY)
        } else if val == 110 {
            Some(State::VALID)
        } else if val == 129 {
            Some(State::INVALID)
        } else {
            None
        }
    }

    /// The result code that the engine reports while in this state.
    pub fn status(self) -> (r: Status)
        ensures
            r == self.spec_status(),
    {
        match self {
            State::SATISFIED => Status::SATISFIABLE,
            State::UNSATISFIED => Status::UNSATISFIABLE,
            _ => Status::UNKNOWN,
        }
    }
}

impl Status {
    /// The state in which a search that returned this status leaves the
    /// engine.
    pub open spec fn spec_state(self) -> State {
        match self {
            Status::SATISFIABLE => State::SATISFIED,
            Status::UNSATISFIABLE => State::UNSATISFIED,
            Status::UNKNOWN => State::STEADY,
        }
    }

    /// The state in which a search that returned this status leaves the
    /// engine.
    pub fn state(self) -> (r: State)
        ensures
            r == self.spec_state(),
    {
        match self {
            Status::SATISFIABLE => State::SATISFIED,
            Status::UNSATISFIABLE => State::UNSATISFIED,
            Status::UNKNOWN => State::STEADY,
        }
    }
}

/// The sets of states that the engine's preconditions and postconditions
/// speak of.
#[derive(Debug, PartialEq, Eq, Hash, Clone, Copy, Structural)]
pub enum StateSet {
    /// `CONFIGURING` alone.
    Configuring,
    /// `CONFIGURING | STEADY`.
    Fresh,
    /// `STEADY | SATISFIED | UNSATISFIED`.
    Settled,
    /// `CONFIGURING | STEADY | SATISFIED | UNSATISFIED`.
    Ready,
    /// `READY | ADDING`.
    Valid,
    /// `VALID | SOLVING`.
    ValidOrSolving,
    /// `READY | SOLVING`.
    ReadyOrSolving,
    /// `SOLVING` alone.
    Solving,
    /// `SATISFIED` alone.
    Satisfied,
    /// `UNSATISFIED` alone.
    Unsatisfied,
    /// `SATISFIED | UNSATISFIED`.
    Concluded,
    /// Every state but `DELETING`.
    NotDeleting,
}

impl StateSet {
    /// Whether the state `s` belongs to this set.
    pub open spec fn contains(self, s: State) -> bool {
        match self {
            StateSet::Configuring => s == State::CONFIGURING,
            StateSet::Fresh => s == State::CONFIGURING || s == State::STEADY,
            StateSet::Settled => s == State::STEADY || s == State::SATISFIED || s
                == State::UNSATISFIED,
            StateSet::Ready => s == State::CONFIGURING || s == State::STEADY || s
                == State::SATISFIED || s == State::UNSATISFIED,
            StateSet::Valid => s == State::CONFIGURING || s == State::STEADY || s
                == State::SATISFIED || s == State::UNSATISFIED || s == State::ADDING,
            StateSet::ValidOrSolving => s.is_live(),
            StateSet::ReadyOrSolving => s.is_live() && s != State::ADDING,
            StateSet::Solving => s == State::SOLVING,
            StateSet::Satisfied => s == State::SATISFIED,
            StateSet::Unsatisfied => s == State::UNSATISFIED,
            StateSet::Concluded => s == State::SATISFIED || s == State::UNSATISFIED,
            StateSet::NotDeleting => s.is_flag() && s != State::DELETING,
        }
    }

    /// The number whose bits are the codes of the members.
    pub open spec fn spec_mask(self) -> int {
        match self {
            StateSet::Configuring => 2,
            StateSet::Fresh => 6,
            StateSet::Settled => 100,
            StateSet::Ready => 102,
            StateSet::Valid => 110,
            StateSet::ValidOrSolving => 126,
            StateSet::ReadyOrSolving => 118,
            StateSet::Solving => 16,
            StateSet::Satisfied => 32,
            StateSet::Unsatisfied => 64,
            StateSet::Concluded => 96,
            StateSet::NotDeleting => 127,
        }
    }

    /// The number whose bits are the codes of the members.
    pub fn mask(self) -> (r: i32)
        ensures
            r == self.spec_mask(),
    {
        match self {
            StateSet::Configuring => 2,
            StateSet::Fresh => 6,
            StateSet::Settled => 100,
            StateSet::Ready => 102,
            StateSet::Valid => 110,
            StateSet::ValidOrSolving => 126,
            StateSet::ReadyOrSolving => 118,
            StateSet::Solving => 16,
            StateSet::Satisfied => 32,
            StateSet::Unsatisfied => 64,
            StateSet::Concluded => 96,
            StateSet::NotDeleting => 127,
        }
    }

    /// Tests whether the state `s` belongs to this set, as the engine does:
    /// by the bits that the two numbers share. A named set is no state that
    /// an engine can be in, and belongs to none.
    pub fn holds(self, s: State) -> (r: bool)
        ensures
            r == self.contains(s),
    {
        match s {
            State::READY | State::VALID | State::INVALID => false,
            _ => {
                proof {
                    lemma_membership_by_bits(self, s);
                }
                (s.code() & self.mask()) != 0
            },
        }
    }
}

/// A state belongs to a set exactly if its one bit is among the bits of the
/// set's number.
pub proof fn lemma_membership_by_bits(set: StateSet, s: State)
    requires
        s.is_flag(),
    ensures
        set.contains(s) <==> ((s.spec_code() as i32) & (set.spec_mask() as i32)) != 0,
{
    let c: i32 = s.spec_code() as i32;
    let m: i32 = set.spec_mask() as i32;
    assert((c == 1 || c == 2 || c == 4 || c == 8 || c == 16 || c == 32 || c == 64 || c == 128)
        && (m == 2 || m == 6 || m == 100 || m == 102 || m == 110 || m == 126 || m == 118 || m
        == 16 || m == 32 || m == 64 || m == 96 || m == 127) ==> ((c & m != 0) <==> ((m == 2 && c
        == 2) || (m == 6 && (c == 2 || c == 4)) || (m == 100 && (c == 4 || c == 32 || c == 64))
        || (m == 102 && (c == 2 || c == 4 || c == 32 || c == 64)) || (m == 110 && (c == 2 || c
        == 4 || c == 8 || c == 32 || c == 64)) || (m == 126 && c != 1 && c != 128) || (m == 118
        && c != 1 && c != 8 && c != 128) || (m == 16 && c == 16) || (m == 32 && c == 32) || (m
        == 64 && c == 64) || (m == 96 && (c == 32 || c == 64)) || (m == 127 && c != 128))))
        by (bit_vector);
}

/// The three sets that the engine names are the unions that it documents:
/// `READY` of `CONFIGURING`, `STEADY`, `SATISFIED` and `UNSATISFIED`, `VALID` of
/// `READY` and `ADDING`, `INVALID` of `INITIALIZING` and `DELETING`.
pub proof fn lemma_named_unions()
    ensures
        State::READY.spec_code() as i32 == (State::CONFIGURING.spec_code() as i32) | (
        State::STEADY.spec_code() as i32) | (State::SATISFIED.spec_code() as i32) | (
        State::UNSATISFIED.spec_code() as i32),
        State::VALID.spec_code() as i32 == (State::READY.spec_code() as i32) | (
        State::ADDING.spec_code() as i32),
        State::INVALID.spec_code() as i32 == (State::INITIALIZING.spec_code() as i32) | (
        State::DELETING.spec_code() as i32),
        StateSet::Ready.spec_mask() == State::READY.spec_code(),
        StateSet::Valid.spec_mask() == State::VALID.spec_code(),
{
    assert(102i32 == 2i32 | 4i32 | 32i32 | 64i32 && 110i32 == 102i32 | 8i32 && 129i32 == 1i32
        | 128i32) by (bit_vector);
}

/// No two states share a code, so a code names at most one state.
pub proof fn lemma_state_code_injective(a: State, b: State)
    requires
        a.spec_code() == b.spec_code(),
    ensures
        a == b,
{
}

/// A search leaves the engine in the state whose result code is the status
/// that the search returned.
pub proof fn lemma_status_of_settled_state(status: Status)
    ensures
        status.spec_state().spec_status() == status,
        StateSet::Settled.contains(status.spec_state()),
{
}

} // verus!
