use vstd::prelude::*;

verus! {

/// Result of a search, numbered as the SAT competition numbers exit codes.
#[allow(non_camel_case_types)]
#[derive(Debug, PartialEq, Eq, Hash, Clone, Copy, Structural)]
pub enum Status {
    /// A model was found (code 10).
    SATISFIABLE,
    /// The formula was refuted (code 20).
    UNSATISFIABLE,
    /// A limit was reached or the search was interrupted (code 0).
    UNKNOWN,
}

impl Status {
    /// The number that stands for this status at the engine's boundary.
    pub open spec fn spec_code(self) -> int {
        match self {
            Status::SATISFIABLE => 10,
            Status::UNSATISFIABLE => 20,
            Status::UNKNOWN => 0,
        }
    }

    /// Whether `val` is one of the three result codes.
    pub open spec fn is_code(val: int) -> bool {
        val == 0 || val == 10 || val == 20
    }

    /// The number that stands for this status at the engine's boundary.
    pub fn code(self) -> (r: i32)
        ensures
            r == self.spec_code(),
    {
        match self {
            Status::SATISFIABLE => 10,
            Status::UNSATISFIABLE => 20,
            Status::UNKNOWN => 0,
        }
    }

    /// Reads a result code. Any number but 0, 10 and 20 means that the
    /// engine broke its interface, and is left out.
    pub fn from(val: i32) -> (r: Status)
        requires
            Status::is_code(val as int),
        ensures
            r.spec_code() == val,
    {
        if val == 10 {
            Status::SATISFIABLE
        } else if val == 20 {
            Status::UNSATISFIABLE
        } else {
            Status::UNKNOWN
        }
    }

    /// Reads a number that may or may not be a result code.
    pub fn checked_from(val: i32) -> (r: Option<Status>)
        ensures
            Status::is_code(val as int) <==> r is Some,
            r matches Some(s) ==> s.spec_code() == val,
    {
        if val == 10 {
            Some(Status::SATISFIABLE)
        } else if val == 20 {
            Some(Status::UNSATISFIABLE)
        } else if val == 0 {
            Some(Status::UNKNOWN)
        } else {
            None
        }
    }
}

/// No two statuses share a code, so a code names at most one status.
pub proof fn lemma_status_code_injective(a: Status, b: Status)
    requires
        a.spec_code() == b.spec_code(),
    ensures
        a == b,
{
}

} // verus!
