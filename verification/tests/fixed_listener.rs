use cadical_sys::{CaDiCal, Callback, Status};

fn add_sat_test_cnf(solver: &mut CaDiCal) {
    solver.clause6(&[-1, 3]).unwrap();
    solver.clause6(&[-2, 3]).unwrap();
    solver.clause6(&[1, 2, -3]).unwrap();
}

/// Lets a search through and plays the engine's part: the search comes
/// back with `status`.
fn solve(solver: &mut CaDiCal, status: Status) -> Status {
    solver.solve().unwrap();
    solver.settle(status.state()).unwrap();
    solver.status()
}

#[test]
fn test_fixed_listener_connect_and_disconnect() {
    let mut solver = CaDiCal::new();
    solver.connect_fixed_listener().unwrap();
    assert!(solver.connected(Callback::FixedListener));
    solver.disconnect_fixed_listener().unwrap();
    assert!(!solver.connected(Callback::FixedListener));
}

#[test]
fn test_fixed_listener_flow_solve_after_connect_disconnect() {
    let mut solver = CaDiCal::new();
    solver.connect_fixed_listener().unwrap();
    solver.disconnect_fixed_listener().unwrap();

    add_sat_test_cnf(&mut solver);
    let result = solve(&mut solver, Status::SATISFIABLE);
    assert_eq!(result, Status::SATISFIABLE);
    assert!(!solver.connected(Callback::FixedListener));
}
