use cadical_sys::{CaDiCal, Callback, Status};

fn add_sat_test_cnf(solver: &mut CaDiCal) {
    solver.clause6(&[-1, 3]).unwrap();
    solver.clause6(&[-2, 3]).unwrap();
    solver.clause6(&[1, 2, -3]).unwrap();
}

/// Lets a search through and plays the engine's part: the search comes
/// back with `status`.
fn solve(solver: &mut CaDiCal, status: Status) -> Status {
    solver.solve().unwrap();
    solver.settle(status.state()).unwrap();
    solver.status()
}

#[test]
fn test_external_propagator_connect_and_disconnect() {
    let mut solver = CaDiCal::new();
    solver.connect_external_propagator().unwrap();
    assert!(solver.connected(Callback::Propagator));
    solver.disconnect_external_propagator().unwrap();
    assert!(!solver.connected(Callback::Propagator));
}

#[test]
fn test_external_propagator_flow_disconnect_without_connecting() {
    let mut solver = CaDiCal::new();
    solver.disconnect_external_propagator().unwrap();

    add_sat_test_cnf(&mut solver);
    let result = solve(&mut solver, Status::SATISFIABLE);
    assert_eq!(result, Status::SATISFIABLE);
}

#[test]
fn test_external_propagator_flow_solve_after_connect_disconnect() {
    let mut solver = CaDiCal::new();
    solver.connect_external_propagator().unwrap();
    solver.disconnect_external_propagator().unwrap();

    add_sat_test_cnf(&mut solver);
    let result = solve(&mut solver, Status::SATISFIABLE);
    assert_eq!(result, Status::SATISFIABLE);
    assert!(!solver.connected(Callback::Propagator));
}

#[test]
fn test_external_propagator_solve_after_connect() {
    let mut solver = CaDiCal::new();
    solver.connect_external_propagator().unwrap();

    add_sat_test_cnf(&mut solver);
    let result = solve(&mut solver, Status::SATISFIABLE);
    assert_eq!(result, Status::SATISFIABLE);
    assert!(solver.connected(Callback::Propagator));
}
