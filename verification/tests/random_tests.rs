use cadical_sys::{CaDiCal, Callback, State, Status};

/// A small generator of numbers that look random, so that a run can be
/// repeated.
struct Rng(u64);

impl Rng {
    fn next(&mut self) -> u64 {
        self.0 ^= self.0 << 13;
        self.0 ^= self.0 >> 7;
        self.0 ^= self.0 << 17;
        self.0
    }

    fn below(&mut self, bound: u64) -> u64 {
        self.next() % bound
    }
}

fn get_random_cnf(rng: &mut Rng) -> Vec<Vec<i32>> {
    let n = 1 + rng.below(9);
    let mut cnf = Vec::new();
    for _ in 0..n {
        let mut clause = Vec::new();
        let m = 1 + rng.below(9);
        for _ in 0..m {
            let lit = 1 + rng.below(9) as i32;
            if rng.below(2) == 0 {
                clause.push(lit);
            } else {
                clause.push(-lit);
            }
        }
        cnf.push(clause);
    }
    cnf
}

/// Plays the engine's part where a search was let through: the search
/// comes back with `status`.
fn search_returns(solver: &mut CaDiCal, status: Status) -> Status {
    solver.settle(status.state()).unwrap();
    solver.status()
}

fn any_status(rng: &mut Rng) -> Status {
    [Status::UNKNOWN, Status::SATISFIABLE, Status::UNSATISFIABLE][rng.below(3) as usize]
}

#[test]
fn random_test() {
    const ITERATIONS: usize = 10000;
    let mut rng = Rng(0x2545_f491_4f6c_dd1d);
    for _ in 0..ITERATIONS {
        let cnf = get_random_cnf(&mut rng);
        let mut solver = CaDiCal::new();
        for clause in &cnf {
            solver.clause6(clause).unwrap();
        }
        assert_eq!(solver.state(), State::STEADY);
        solver.traverse_clauses().unwrap();
        solver.simplify(3).unwrap();
        let status = any_status(&mut rng);
        assert_eq!(search_returns(&mut solver, status), status);
        solver.traverse_clauses().unwrap();
    }
}

#[test]
fn basic_sat_solving() {
    for status in [Status::SATISFIABLE, Status::UNSATISFIABLE, Status::UNKNOWN] {
        let mut solver = CaDiCal::new();
        solver.clause2(1, 2).unwrap();
        solver.clause2(-1, 3).unwrap();
        solver.clause2(-2, -3).unwrap();
        solver.solve().unwrap();
        match search_returns(&mut solver, status) {
            Status::SATISFIABLE => {
                solver.val(1).unwrap();
                solver.val(2).unwrap();
                solver.val(3).unwrap();
            }
            Status::UNSATISFIABLE => assert!(solver.val(1).is_err()),
            Status::UNKNOWN => assert!(solver.val(1).is_err()),
        }
    }
}

#[test]
fn advanced_sat_solving() {
    let mut solver = CaDiCal::new();
    solver.configure().unwrap();
    solver.set().unwrap();
    solver.clause3(1, 2, 3).unwrap();
    solver.clause3(-1, -2, -3).unwrap();
    solver.assume_literal(1).unwrap();
    solver.solve().unwrap();
    let status = search_returns(&mut solver, Status::SATISFIABLE);
    if status == Status::SATISFIABLE {
        solver.vars().unwrap();
        for var in 1..=3 {
            solver.val(var).unwrap();
        }
    }
}

#[test]
fn dimacs_solving() {
    for rests_in in [State::CONFIGURING, State::STEADY] {
        let mut solver = CaDiCal::new();
        solver.read_dimacs1().unwrap();
        solver.settle(rests_in).unwrap();
        solver.solve().unwrap();
        let status = search_returns(&mut solver, Status::SATISFIABLE);
        if status == Status::SATISFIABLE {
            solver.write_extension().unwrap();
        }
    }
}

#[test]
fn solver_management() {
    for status in [Status::SATISFIABLE, Status::UNSATISFIABLE, Status::UNKNOWN] {
        let mut solver = CaDiCal::new();
        solver.reserve().unwrap();
        solver.add_observed_var(42).unwrap();
        solver.simplify(2).unwrap();
        let _ = search_returns(&mut solver, status);
        solver.statistics().unwrap();
        solver.resources().unwrap();
    }
}

#[test]
fn terminator_memory_test() {
    const ITERATIONS: usize = 100;
    let mut rng = Rng(0x9e37_79b9_7f4a_7c15);
    for i in 0..ITERATIONS {
        let cnf = get_random_cnf(&mut rng);
        let mut solver = CaDiCal::new();
        for clause in &cnf {
            solver.clause6(clause).unwrap();
        }
        solver.connect_terminator().unwrap();
        solver.connect_learner().unwrap();
        solver.simplify(3).unwrap();
        let status = any_status(&mut rng);
        let _ = search_returns(&mut solver, status);
        if i % 2 == 0 {
            solver.disconnect_terminator().unwrap();
        }
        assert_eq!(solver.connected(Callback::Terminator), i % 2 != 0);
        assert!(solver.connected(Callback::Learner));
    }
}

#[test]
fn frozen_and_simplify_test() {
    let mut solver = CaDiCal::new();
    solver.clause6(&[3, 4, 5]).unwrap();
    solver.clause6(&[-3, 4, -5]).unwrap();
    solver.clause6(&[3, -4, -5]).unwrap();
    solver.clause6(&[-3, -4, -5]).unwrap();
    solver.traverse_clauses().unwrap();
    assert_eq!(solver.frozen(5), Ok(false));
    solver.freeze(3).unwrap();
    solver.freeze(4).unwrap();
    solver.freeze(5).unwrap();
    assert_eq!(solver.frozen(5), Ok(true));
    solver.traverse_clauses().unwrap();
    solver.simplify(3).unwrap();
    let _ = search_returns(&mut solver, Status::UNKNOWN);
    solver.traverse_clauses().unwrap();
    solver.traverse_witnesses_forward().unwrap();
    for l in [3, 4, 5] {
        solver.fixed(l).unwrap();
    }
    assert_eq!(solver.frozen(5), Ok(true));
}
