//! Typed contract layer for the CaDiCaL incremental SAT solver interface.
//!
//! The solving engine is a native component that is reached across a
//! language boundary. Every operation of that engine may only be issued in
//! certain states, and moves the engine on to another state. This crate
//! holds that discipline as verified code: the result codes and state codes
//! of the engine as enums, the session record [`CaDiCal`] that admits or
//! rejects each operation before it crosses the boundary, the callback
//! interfaces, and a checker for recorded proof traces.

pub mod callbacks;
pub mod laws;
pub mod literal;
pub mod session;
pub mod solver;
pub mod state;
pub mod status;
pub mod trace;

pub use callbacks::{
    ClauseIterator, ExternalPropagator, FixedAssignmentListener, Learner, ProofTracer, Terminator,
    WitnessIterator,
};
pub use session::{Callback, Event, Operation, Pending, Session, Sink, Violation};
pub use solver::CaDiCal;
pub use state::{State, StateSet};
pub use status::Status;
pub use trace::{check_trace, FaultKind, ProofEvent, ProofLog, ProofStep, TraceFault};
