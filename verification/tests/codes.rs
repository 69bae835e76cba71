use cadical_sys::{State, StateSet, Status};

const STATES: [State; 11] = [
    State::INITIALIZING,
    State::CONFIGURING,
    State::STEADY,
    State::ADDING,
    State::SOLVING,
    State::SATISFIED,
    State::UNSATISFIED,
    State::DELETING,
    State::READY,
    State::VALID,
    State::INVALID,
];

const SETS: [StateSet; 12] = [
    StateSet::Configuring,
    StateSet::Fresh,
    StateSet::Settled,
    StateSet::Ready,
    StateSet::Valid,
    StateSet::ValidOrSolving,
    StateSet::ReadyOrSolving,
    StateSet::Solving,
    StateSet::Satisfied,
    StateSet::Unsatisfied,
    StateSet::Concluded,
    StateSet::NotDeleting,
];

#[test]
fn status_codes_are_the_competition_exit_codes() {
    assert_eq!(Status::SATISFIABLE.code(), 10);
    assert_eq!(Status::UNSATISFIABLE.code(), 20);
    assert_eq!(Status::UNKNOWN.code(), 0);
}

#[test]
fn status_from_reads_each_code() {
    assert_eq!(Status::from(10), Status::SATISFIABLE);
    assert_eq!(Status::from(20), Status::UNSATISFIABLE);
    assert_eq!(Status::from(0), Status::UNKNOWN);
}

#[test]
fn status_checked_from_rejects_every_other_number() {
    for val in -300..300 {
        let got = Status::checked_from(val);
        match val {
            0 => assert_eq!(got, Some(Status::UNKNOWN)),
            10 => assert_eq!(got, Some(Status::SATISFIABLE)),
            20 => assert_eq!(got, Some(Status::UNSATISFIABLE)),
            _ => assert_eq!(got, None),
        }
    }
    assert_eq!(Status::checked_from(i32::MIN), None);
    assert_eq!(Status::checked_from(i32::MAX), None);
}

#[test]
fn status_round_trips_through_its_code() {
    for status in [Status::SATISFIABLE, Status::UNSATISFIABLE, Status::UNKNOWN] {
        assert_eq!(Status::from(status.code()), status);
        assert_eq!(Status::checked_from(status.code()), Some(status));
    }
}

#[test]
fn state_codes_are_the_engine_bits() {
    assert_eq!(State::INITIALIZING.code(), 1);
    assert_eq!(State::CONFIGURING.code(), 2);
    assert_eq!(State::STEADY.code(), 4);
    assert_eq!(State::ADDING.code(), 8);
    assert_eq!(State::SOLVING.code(), 16);
    assert_eq!(State::SATISFIED.code(), 32);
    assert_eq!(State::UNSATISFIED.code(), 64);
    assert_eq!(State::DELETING.code(), 128);
    assert_eq!(State::READY.code(), 102);
    assert_eq!(State::VALID.code(), 110);
    assert_eq!(State::INVALID.code(), 129);
}

#[test]
fn state_from_reads_each_code() {
    assert_eq!(State::from(1), State::INITIALIZING);
    assert_eq!(State::from(2), State::CONFIGURING);
    assert_eq!(State::from(4), State::STEADY);
    assert_eq!(State::from(8), State::ADDING);
    assert_eq!(State::from(16), State::SOLVING);
    assert_eq!(State::from(32), State::SATISFIED);
    assert_eq!(State::from(64), State::UNSATISFIED);
    assert_eq!(State::from(128), State::DELETING);
    assert_eq!(State::from(102), State::READY);
    assert_eq!(State::from(110), State::VALID);
    assert_eq!(State::from(129), State::INVALID);
}

#[test]
fn state_round_trips_through_its_code() {
    for state in STATES {
        assert_eq!(State::from(state.code()), state);
        assert_eq!(State::checked_from(state.code()), Some(state));
    }
}

#[test]
fn state_checked_from_rejects_every_other_number() {
    let codes: Vec<i32> = STATES.iter().map(|s| s.code()).collect();
    for val in -300..300 {
        let got = State::checked_from(val);
        assert_eq!(got.is_some(), codes.contains(&val), "{val}");
        if let Some(state) = got {
            assert_eq!(state.code(), val);
        }
    }
    assert_eq!(State::checked_from(0), None);
    assert_eq!(State::checked_from(3), None);
    assert_eq!(State::checked_from(i32::MIN), None);
    assert_eq!(State::checked_from(i32::MAX), None);
}

#[test]
fn named_sets_are_the_documented_unions() {
    assert_eq!(
        State::READY.code(),
        State::CONFIGURING.code()
            | State::STEADY.code()
            | State::SATISFIED.code()
            | State::UNSATISFIED.code()
    );
    assert_eq!(State::VALID.code(), State::READY.code() | State::ADDING.code());
    assert_eq!(State::INVALID.code(), State::INITIALIZING.code() | State::DELETING.code());
    assert_eq!(StateSet::Ready.mask(), State::READY.code());
    assert_eq!(StateSet::Valid.mask(), State::VALID.code());
}

#[test]
fn set_masks_are_unions_of_state_codes() {
    let (c, st, a, so, sa, un) = (
        State::CONFIGURING.code(),
        State::STEADY.code(),
        State::ADDING.code(),
        State::SOLVING.code(),
        State::SATISFIED.code(),
        State::UNSATISFIED.code(),
    );
    assert_eq!(StateSet::Configuring.mask(), c);
    assert_eq!(StateSet::Fresh.mask(), c | st);
    assert_eq!(StateSet::Settled.mask(), st | sa | un);
    assert_eq!(StateSet::Ready.mask(), c | st | sa | un);
    assert_eq!(StateSet::Valid.mask(), c | st | sa | un | a);
    assert_eq!(StateSet::ValidOrSolving.mask(), c | st | sa | un | a | so);
    assert_eq!(StateSet::ReadyOrSolving.mask(), c | st | sa | un | so);
    assert_eq!(StateSet::Solving.mask(), so);
    assert_eq!(StateSet::Satisfied.mask(), sa);
    assert_eq!(StateSet::Unsatisfied.mask(), un);
    assert_eq!(StateSet::Concluded.mask(), sa | un);
    assert_eq!(StateSet::NotDeleting.mask(), 255 & !State::DELETING.code());
}

#[test]
fn membership_goes_by_shared_bits() {
    for set in SETS {
        for state in STATES {
            let named = matches!(state, State::READY | State::VALID | State::INVALID);
            let expected = !named && (state.code() & set.mask()) != 0;
            assert_eq!(set.holds(state), expected, "{set:?} {state:?}");
        }
    }
}

#[test]
fn ready_holds_the_four_ready_states() {
    let members: Vec<State> = STATES.iter().copied().filter(|s| StateSet::Ready.holds(*s)).collect();
    assert_eq!(
        members,
        vec![State::CONFIGURING, State::STEADY, State::SATISFIED, State::UNSATISFIED]
    );
}

#[test]
fn valid_is_ready_and_adding() {
    for state in STATES {
        let expected = StateSet::Ready.holds(state) || state == State::ADDING;
        assert_eq!(StateSet::Valid.holds(state), expected);
    }
}

#[test]
fn a_named_set_is_no_member_of_any_set() {
    for set in SETS {
        assert!(!set.holds(State::READY));
        assert!(!set.holds(State::VALID));
        assert!(!set.holds(State::INVALID));
    }
}

#[test]
fn status_of_a_state() {
    assert_eq!(State::SATISFIED.status(), Status::SATISFIABLE);
    assert_eq!(State::UNSATISFIED.status(), Status::UNSATISFIABLE);
    for state in STATES {
        if state != State::SATISFIED && state != State::UNSATISFIED {
            assert_eq!(state.status(), Status::UNKNOWN);
        }
    }
}

#[test]
fn state_of_a_status() {
    assert_eq!(Status::SATISFIABLE.state(), State::SATISFIED);
    assert_eq!(Status::UNSATISFIABLE.state(), State::UNSATISFIED);
    assert_eq!(Status::UNKNOWN.state(), State::STEADY);
    for status in [Status::SATISFIABLE, Status::UNSATISFIABLE, Status::UNKNOWN] {
        assert_eq!(status.state().status(), status);
        assert!(StateSet::Settled.holds(status.state()));
    }
}
