use vstd::prelude::*;

use crate::literal::{spec_variable, valid_literals};
use crate::session::{Callback, Event, Operation, Pending, Session, Violation};
use crate::state::{State, StateSet};
use crate::status::Status;

verus! {

/// A newly constructed session is well formed.
pub proof fn lemma_initial_well_formed()
    ensures
        Session::initial().wf(),
{
}

/// No event takes a well-formed session to one that is not.
pub proof fn lemma_step_preserves_well_formed(s: Session, e: Event)
    requires
        s.wf(),
    ensures
        s.step(e).wf(),
{
    match e {
        Event::Call(Operation::Freeze(lit)) => {
            if s.admits(Operation::Freeze(lit)) is Ok {
                let t = s.apply(Operation::Freeze(lit));
                assert forall|v: i32| #[trigger] t.frozen.dom().contains(v) implies v > 0
                    && t.frozen[v] > 0 by {
                    if v != spec_variable(lit) {
                        assert(s.frozen.dom().contains(v));
                    }
                }
            }
        },
        Event::Call(Operation::Melt(lit)) => {
            if s.admits(Operation::Melt(lit)) is Ok {
                let t = s.apply(Operation::Melt(lit));
                assert forall|v: i32| #[trigger] t.frozen.dom().contains(v) implies v > 0
                    && t.frozen[v] > 0 by {
                    if v != spec_variable(lit) {
                        assert(s.frozen.dom().contains(v));
                    }
                }
            }
        },
        _ => {},
    }
}

/// Every session that is reached from a well-formed one is well formed, and
/// the engine of a well-formed session exists and is not being torn down.
pub proof fn lemma_run_preserves_well_formed(s: Session, events: Seq<Event>)
    requires
        s.wf(),
    ensures
        s.run(events).wf(),
        s.run(events).reported().is_live(),
    decreases events.len(),
{
    if events.len() > 0 {
        lemma_run_preserves_well_formed(s, events.drop_last());
        lemma_step_preserves_well_formed(s.run(events.drop_last()), events.last());
    }
}

/// An operation that only asks or sets something leaves the session as it
/// was, whether it is admitted or not.
pub proof fn lemma_query_changes_nothing(s: Session, op: Operation)
    requires
        op.is_query(),
    ensures
        s.apply(op) == s,
{
}

/// The state and the status that a session reports stay the same as long as
/// nothing but queries and rejected operations comes between two looks.
pub proof fn lemma_state_is_stable(s: Session, events: Seq<Event>)
    requires
        forall|i: int|
            0 <= i < events.len() ==> match #[trigger] events[i] {
                Event::Call(op) => op.is_query() || s.admits(op) is Err,
                _ => false,
            },
    ensures
        s.run(events) == s,
        s.run(events).reported() == s.reported(),
        s.run(events).reported().spec_status() == s.reported().spec_status(),
    decreases events.len(),
{
    if events.len() > 0 {
        let before = events.drop_last();
        assert forall|i: int| 0 <= i < before.len() implies match #[trigger] before[i] {
            Event::Call(op) => op.is_query() || s.admits(op) is Err,
            _ => false,
        } by {
            assert(before[i] == events[i]);
        }
        lemma_state_is_stable(s, before);
        assert(events.last() == events[events.len() - 1]);
    }
}

/// What the event `e` adds to the number of times that the variable `var` is
/// frozen: one for an admitted freeze of it, minus one for an admitted melt.
pub open spec fn freeze_delta(s: Session, e: Event, var: i32) -> int {
    match e {
        Event::Call(Operation::Freeze(lit)) => if s.admits(Operation::Freeze(lit)) is Ok
            && spec_variable(lit) == var {
            1
        } else {
            0
        },
        Event::Call(Operation::Melt(lit)) => if s.admits(Operation::Melt(lit)) is Ok
            && spec_variable(lit) == var {
            -1
        } else {
            0
        },
        _ => 0,
    }
}

/// The admitted freezes of the variable `var` among `events`, less the
/// admitted melts.
pub open spec fn freeze_balance(s: Session, events: Seq<Event>, var: i32) -> int
    decreases events.len(),
{
    if events.len() == 0 {
        0
    } else {
        freeze_balance(s, events.drop_last(), var) + freeze_delta(
            s.run(events.drop_last()),
            events.last(),
            var,
        )
    }
}

/// A freeze or melt changes the count of its own variable by one and no
/// other count, and no other event changes any count.
pub proof fn lemma_freeze_step(s: Session, e: Event, var: i32)
    ensures
        s.step(e).freezes(var) == s.freezes(var) + freeze_delta(s, e, var),
{
}

/// A variable is frozen for as long as it has been frozen more often than
/// melted: the count that is kept of it is the count at the start and the
/// balance of the admitted freezes and melts since.
pub proof fn lemma_freeze_balance(s: Session, events: Seq<Event>, var: i32)
    ensures
        s.run(events).freezes(var) == s.freezes(var) + freeze_balance(s, events, var),
        s.freezes(var) == 0 ==> (s.run(events).freezes(var) > 0 <==> freeze_balance(s, events, var)
            > 0),
    decreases events.len(),
{
    if events.len() > 0 {
        lemma_freeze_balance(s, events.drop_last(), var);
        lemma_freeze_step(s.run(events.drop_last()), events.last(), var);
    }
}

/// A variable that is not frozen cannot be melted: the melt is rejected and
/// nothing changes.
pub proof fn lemma_melt_needs_freeze(s: Session, lit: i32)
    requires
        s.freezes(spec_variable(lit)) == 0,
    ensures
        s.admits(Operation::Melt(lit)) is Err,
        s.apply(Operation::Melt(lit)) == s,
{
}

/// Once a callback is disconnected it stays disconnected until one of its
/// kind is connected again, whatever else happens.
pub proof fn lemma_disconnected_until_connected(s: Session, events: Seq<Event>, c: Callback)
    requires
        !s.connected(c),
        forall|i: int|
            0 <= i < events.len() ==> !(#[trigger] events[i] matches Event::Call(
                Operation::Connect(k),
            ) && k == c),
    ensures
        !s.run(events).connected(c),
    decreases events.len(),
{
    if events.len() > 0 {
        let before = events.drop_last();
        assert forall|i: int| 0 <= i < before.len() implies !(#[trigger] before[i] matches Event::Call(
            Operation::Connect(k),
        ) && k == c) by {
            assert(before[i] == events[i]);
        }
        lemma_disconnected_until_connected(s, before, c);
        assert(events.last() == events[events.len() - 1]);
    }
}

/// An admitted disconnect leaves no callback of that kind connected, and
/// changes nothing else; the other kinds stay as they are.
pub proof fn lemma_disconnect(s: Session, c: Callback, other: Callback)
    requires
        s.admits(Operation::Disconnect(c)) is Ok,
        other != c,
    ensures
        !s.apply(Operation::Disconnect(c)).connected(c),
        s.apply(Operation::Disconnect(c)).connected(other) == s.connected(other),
        s.apply(Operation::Disconnect(c)) == s.with_connected(c, false),
{
}

/// To connect a callback and disconnect it at once is to have done nothing.
pub proof fn lemma_connect_then_disconnect(s: Session, c: Callback)
    requires
        !s.connected(c),
        s.admits(Operation::Connect(c)) is Ok,
    ensures
        s.apply(Operation::Connect(c)).admits(Operation::Disconnect(c)) is Ok,
        s.apply(Operation::Connect(c)).apply(Operation::Disconnect(c)) == s,
{
}

/// The events that give a clause literal by literal: one `add` for each
/// literal, and one of zero at the end.
pub open spec fn literalwise(lits: Seq<i32>) -> Seq<Event> {
    Seq::new(
        lits.len() + 1,
        |i: int|
            if i < lits.len() {
                Event::Call(Operation::Add(lits[i]))
            } else {
                Event::Call(Operation::Add(0))
            },
    )
}

proof fn lemma_literalwise_prefix(s: Session, lits: Seq<i32>, n: int)
    requires
        valid_literals(lits),
        s.admits(Operation::Clause(lits)) is Ok,
        0 <= n <= lits.len(),
    ensures
        s.run(literalwise(lits).take(n)) == (if n == 0 {
            s
        } else {
            Session { state: State::ADDING, ..s }
        }),
    decreases n,
{
    let events = literalwise(lits).take(n);
    if n > 0 {
        lemma_literalwise_prefix(s, lits, n - 1);
        assert(events.drop_last() =~= literalwise(lits).take(n - 1));
        assert(events.last() == Event::Call(Operation::Add(lits[n - 1])));
    }
}

/// A clause added literal by literal and closed by zero leaves the session
/// where the same clause added in one piece leaves it: in `STEADY`.
pub proof fn lemma_literalwise_matches_atomic(s: Session, lits: Seq<i32>)
    requires
        valid_literals(lits),
        s.admits(Operation::Clause(lits)) is Ok,
    ensures
        s.run(literalwise(lits)) == s.apply(Operation::Clause(lits)),
        s.run(literalwise(lits)).state == State::STEADY,
{
    let events = literalwise(lits);
    lemma_literalwise_prefix(s, lits, lits.len() as int);
    assert(events.drop_last() =~= events.take(lits.len() as int));
    assert(events.last() == Event::Call(Operation::Add(0)));
}

/// A search is admitted in the `READY` states alone. While its outcome is
/// awaited the engine is `SOLVING`; once the outcome is reported, the
/// engine rests in the state of that outcome and reports its status.
pub proof fn lemma_search_settles(s: Session, status: Status)
    requires
        s.admits(Operation::Solve) is Ok,
    ensures
        StateSet::Ready.contains(s.state),
        s.apply(Operation::Solve).reported() == State::SOLVING,
        s.apply(Operation::Solve).settle(status.spec_state()).reported() == status.spec_state(),
        s.apply(Operation::Solve).settle(status.spec_state()).reported().spec_status() == status,
{
}

/// While a search is running the engine admits the operations whose
/// precondition names `SOLVING`, which a callback may ask for from inside the
/// search, and nothing else; none of them changes the session.
pub proof fn lemma_during_search(s: Session, op: Operation)
    requires
        s.pending == Some(Pending::Search),
        s.admits(op) is Ok,
    ensures
        op.guard() == StateSet::ValidOrSolving || op.guard() == StateSet::ReadyOrSolving
            || op.guard() == StateSet::Solving || op.guard() == StateSet::NotDeleting,
        op is AddObservedVar || op is IsDecision || op is Vars || op is ForceBacktrack
            || op is Terminate || op.guard() == StateSet::NotDeleting,
        s.apply(op) == s,
{
}

/// While any other call awaits its answer, no operation is admitted.
pub proof fn lemma_unsettled_admits_nothing(s: Session, op: Operation)
    requires
        s.pending is Some,
        s.pending != Some(Pending::Search),
    ensures
        s.admits(op) == Err::<(), Violation>(Violation::Unsettled),
        s.apply(op) == s,
{
}

/// An operation that is rejected leaves the session as it was.
pub proof fn lemma_rejected_changes_nothing(s: Session, e: Event)
    requires
        match e {
            Event::Call(op) => s.admits(op) is Err,
            Event::Settled(observed) => s.settle_admits(observed) is Err,
            Event::Opened(_) => s.opened_admits() is Err,
        },
    ensures
        s.step(e) == s,
{
}

} // verus!
