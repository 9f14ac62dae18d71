use argmin_cg::cg::{ConjugateGradient, Error};
use argmin_cg::operator::Operator;
use argmin_cg::rational::Ratio;
use argmin_cg::termination::TerminationReason;

fn ints(xs: &[i64]) -> Vec<Ratio> {
    xs.iter().map(|&x| Ratio::from_int(x)).collect()
}

fn diagonal(entries: &[i64], y: &[i64], target_cost: Ratio) -> Operator {
    let n = entries.len();
    let mut a = vec![Ratio::zero(); n * n];
    for (i, &e) in entries.iter().enumerate() {
        a[i * n + i] = Ratio::from_int(e);
    }
    Operator::new(n, n, a, ints(y), target_cost)
}

#[test]
fn sphere_like_diagonal_converges() {
    // Identity 2x2, y = [0, 0], start at [-1, 1], target 1e-6: convergence
    // to [0, 0] within two iterations.
    let op = diagonal(&[1, 1], &[0, 0], Ratio::new(1, 1_000_000));
    let mut solver = ConjugateGradient::new();
    solver.init(&op, &ints(&[-1, 1])).unwrap();
    let mut last = None;
    for _ in 0..2 {
        let out = solver.next_iter().unwrap();
        let done = out.termination_reason != TerminationReason::NotTerminated;
        last = Some(out);
        if done {
            break;
        }
    }
    let out = last.unwrap();
    assert_eq!(out.termination_reason, TerminationReason::TargetCostReached);
    assert!(out.iter <= 2);
    assert!(out.param[0].eq_rat(Ratio::zero()));
    assert!(out.param[1].eq_rat(Ratio::zero()));
}

#[test]
fn non_square_least_squares_converges() {
    // A is 3x2: [[1, 0], [0, 1], [0, 0]]; y = [1, 2, 3] has the exact
    // least-squares solution [1, 2], found through the transpose projection.
    let op = Operator::new(
        3,
        2,
        ints(&[1, 0, 0, 1, 0, 0]),
        ints(&[1, 2, 3]),
        Ratio::zero(),
    );
    let mut solver = ConjugateGradient::new();
    solver.init(&op, &ints(&[0, 0])).unwrap();
    let out = solver.next_iter().unwrap();
    assert_eq!(out.termination_reason, TerminationReason::TargetCostReached);
    assert!(out.param[0].eq_rat(Ratio::from_int(1)));
    assert!(out.param[1].eq_rat(Ratio::from_int(2)));
}

#[test]
fn non_square_projection_shapes() {
    // The normal-equations projection maps every solver vector into the
    // domain dimension, at init and after every step alike.
    let op = Operator::new(
        3,
        2,
        ints(&[1, 0, 0, 1, 0, 0]),
        ints(&[1, 2, 3]),
        Ratio::zero(),
    );
    let mut solver = ConjugateGradient::new();
    solver.init(&op, &ints(&[7, 7])).unwrap();
    {
        let st = solver.state.as_ref().unwrap();
        assert_eq!(st.r.len(), 2);
        assert_eq!(st.p.len(), 2);
        // At init the direction is a copy of the projected residual.
        assert!(st.p[0].eq_rat(st.r[0]));
        assert!(st.p[1].eq_rat(st.r[1]));
    }
    solver.next_iter().unwrap();
    let st = solver.state.as_ref().unwrap();
    assert_eq!(st.r.len(), 2);
    assert_eq!(st.p.len(), 2);
}

#[test]
fn first_iteration_exact_values() {
    // diag(1, 2), y = [1, 1], start at the origin: the first step has
    // alpha = 2/3, parameter [2/3, 2/3], squared residual norm 2/9.
    let op = diagonal(&[1, 2], &[1, 1], Ratio::zero());
    let mut solver = ConjugateGradient::new();
    solver.init(&op, &ints(&[0, 0])).unwrap();
    let out = solver.next_iter().unwrap();
    assert_eq!(out.iter, 1);
    assert!(out.param[0].eq_rat(Ratio::new(2, 3)));
    assert!(out.param[1].eq_rat(Ratio::new(2, 3)));
    assert!(out.norm_sq.eq_rat(Ratio::new(2, 9)));
    assert_eq!(out.termination_reason, TerminationReason::NotTerminated);
}

#[test]
fn residual_norm_decreases_on_spd_system() {
    // diag(1, 2) is symmetric positive-definite; in exact arithmetic the
    // squared residual norm falls strictly from step to step until the
    // solution [1, 1/2] is exact after two iterations.
    let op = diagonal(&[1, 2], &[1, 1], Ratio::zero());
    let mut solver = ConjugateGradient::new();
    solver.init(&op, &ints(&[0, 0])).unwrap();
    let first = solver.next_iter().unwrap();
    let second = solver.next_iter().unwrap();
    assert!(second.norm_sq.le(first.norm_sq));
    assert!(!second.norm_sq.eq_rat(first.norm_sq));
    assert!(second.norm_sq.eq_rat(Ratio::zero()));
    assert_eq!(second.termination_reason, TerminationReason::TargetCostReached);
    assert!(second.param[0].eq_rat(Ratio::from_int(1)));
    assert!(second.param[1].eq_rat(Ratio::new(1, 2)));
}

#[test]
fn target_cost_tolerance_stops_early() {
    // diag(1, 2) with threshold 1/2: after one step the squared residual
    // norm is 2/9, which is at most (1/2)^2, so the run stops on the cost
    // criterion before exact convergence.
    let op = diagonal(&[1, 2], &[1, 1], Ratio::new(1, 2));
    let mut solver = ConjugateGradient::new();
    solver.init(&op, &ints(&[0, 0])).unwrap();
    let out = solver.next_iter().unwrap();
    assert_eq!(out.iter, 1);
    assert!(out.norm_sq.eq_rat(Ratio::new(2, 9)));
    assert_eq!(out.termination_reason, TerminationReason::TargetCostReached);
}

#[test]
fn iteration_cap_stops_long_run() {
    // diag(1..6) needs six exact iterations; a cap of five stops the run
    // after exactly five steps with MaxItersReached.
    let op = diagonal(&[1, 2, 3, 4, 5, 6], &[1, 1, 1, 1, 1, 1], Ratio::zero());
    let mut solver = ConjugateGradient::new();
    solver.max_iters(5);
    solver.init(&op, &ints(&[0, 0, 0, 0, 0, 0])).unwrap();
    let mut steps = 0u64;
    loop {
        let out = solver.next_iter().unwrap();
        steps += 1;
        assert_eq!(out.iter, steps);
        if out.termination_reason != TerminationReason::NotTerminated {
            assert_eq!(out.termination_reason, TerminationReason::MaxItersReached);
            break;
        }
    }
    assert_eq!(steps, 5);
    assert_eq!(solver.state.as_ref().unwrap().iter, 5);
    assert_eq!(solver.terminate(), TerminationReason::MaxItersReached);
}

#[test]
fn iter_counts_next_iter_calls() {
    let op = diagonal(&[1, 2], &[1, 1], Ratio::zero());
    let mut solver = ConjugateGradient::new();
    solver.init(&op, &ints(&[0, 0])).unwrap();
    assert_eq!(solver.state.as_ref().unwrap().iter, 0);
    for k in 1..=2u64 {
        let out = solver.next_iter().unwrap();
        assert_eq!(out.iter, k);
        assert_eq!(solver.state.as_ref().unwrap().iter, k);
    }
}

#[test]
fn terminate_is_idempotent() {
    let op = diagonal(&[1, 2], &[1, 1], Ratio::new(1, 1000));
    let mut solver = ConjugateGradient::new();
    solver.init(&op, &ints(&[0, 0])).unwrap();
    assert_eq!(solver.terminate(), solver.terminate());
    solver.next_iter().unwrap();
    let first = solver.terminate();
    let second = solver.terminate();
    assert_eq!(first, second);
}

#[test]
fn zero_iteration_cap_terminates_at_once() {
    // With max_iterations = 0 the very first check after init reports
    // MaxItersReached, before any step has run.
    let op = diagonal(&[1, 1], &[1, 1], Ratio::zero());
    let mut solver = ConjugateGradient::new();
    solver.max_iters(0);
    solver.init(&op, &ints(&[0, 0])).unwrap();
    assert_eq!(solver.terminate(), TerminationReason::MaxItersReached);
    let out = solver.next_iter().unwrap();
    assert_eq!(out.termination_reason, TerminationReason::MaxItersReached);
}

#[test]
fn reinit_fully_resets_state() {
    // Finish a run, then re-init with a different problem: iteration count
    // and norm marker start over with no influence from the prior run.
    let sphere = diagonal(&[1, 1], &[0, 0], Ratio::new(1, 1_000_000));
    let mut solver = ConjugateGradient::new();
    solver.init(&sphere, &ints(&[-1, 1])).unwrap();
    let out = solver.next_iter().unwrap();
    assert_eq!(out.termination_reason, TerminationReason::TargetCostReached);
    assert!(solver.state.as_ref().unwrap().norm_sq.is_some());

    let tall = Operator::new(
        3,
        2,
        ints(&[1, 0, 0, 1, 0, 0]),
        ints(&[1, 2, 3]),
        Ratio::zero(),
    );
    solver.init(&tall, &ints(&[5, 5])).unwrap();
    {
        let st = solver.state.as_ref().unwrap();
        assert_eq!(st.iter, 0);
        assert!(st.norm_sq.is_none());
        assert!(st.param[0].eq_rat(Ratio::from_int(5)));
        assert!(st.param[1].eq_rat(Ratio::from_int(5)));
    }
    assert_eq!(solver.terminate(), TerminationReason::NotTerminated);
    let out = solver.next_iter().unwrap();
    assert_eq!(out.iter, 1);
    assert_eq!(out.termination_reason, TerminationReason::TargetCostReached);
    assert!(out.param[0].eq_rat(Ratio::from_int(1)));
    assert!(out.param[1].eq_rat(Ratio::from_int(2)));
}

#[test]
fn run_drives_to_termination() {
    let op = diagonal(&[1, 2], &[1, 1], Ratio::zero());
    let mut solver = ConjugateGradient::new();
    let out = solver.run(&op, &ints(&[0, 0])).unwrap();
    assert_eq!(out.termination_reason, TerminationReason::TargetCostReached);
    assert_eq!(out.iter, 2);
    assert!(out.param[0].eq_rat(Ratio::from_int(1)));
    assert!(out.param[1].eq_rat(Ratio::new(1, 2)));
}

#[test]
fn run_respects_iteration_cap() {
    let op = diagonal(&[1, 2, 3, 4, 5, 6], &[1, 1, 1, 1, 1, 1], Ratio::zero());
    let mut solver = ConjugateGradient::new();
    solver.max_iters(4);
    let out = solver.run(&op, &ints(&[0, 0, 0, 0, 0, 0])).unwrap();
    assert_eq!(out.termination_reason, TerminationReason::MaxItersReached);
    assert_eq!(out.iter, 4);
}

#[test]
fn run_rejects_wrong_dimension() {
    let op = diagonal(&[1, 2], &[1, 1], Ratio::zero());
    let mut solver = ConjugateGradient::new();
    let res = solver.run(&op, &ints(&[0]));
    assert_eq!(res.err(), Some(Error::DimensionMismatch));
    assert!(solver.state.is_none());
}

#[test]
fn init_rejects_wrong_dimension() {
    let op = diagonal(&[1, 1], &[0, 0], Ratio::zero());
    let mut solver = ConjugateGradient::new();
    let res = solver.init(&op, &ints(&[1, 2, 3]));
    assert_eq!(res, Err(Error::DimensionMismatch));
    assert!(solver.state.is_none());
    // The solver is still usable after the rejection.
    solver.init(&op, &ints(&[1, 2])).unwrap();
    assert!(solver.state.is_some());
}

#[test]
fn construction_defaults() {
    let solver = ConjugateGradient::new();
    assert_eq!(solver.max_iters, u64::MAX);
    assert!(solver.state.is_none());
    let by_default: ConjugateGradient = Default::default();
    assert_eq!(by_default.max_iters, u64::MAX);
    assert!(by_default.state.is_none());
}

#[test]
fn empty_problem_terminates_on_cost() {
    // A zero-dimensional problem has a zero residual from the start; the
    // first step reports the cost threshold reached.
    let op = Operator::new(0, 0, Vec::new(), Vec::new(), Ratio::zero());
    let mut solver = ConjugateGradient::new();
    let empty: Vec<Ratio> = Vec::new();
    solver.init(&op, &empty).unwrap();
    let out = solver.next_iter().unwrap();
    assert_eq!(out.iter, 1);
    assert!(out.norm_sq.eq_rat(Ratio::zero()));
    assert_eq!(out.termination_reason, TerminationReason::TargetCostReached);
}

#[test]
fn degenerate_step_poisons_but_cap_still_fires() {
    // Iterating past exact convergence divides by a zero curvature: the
    // parameter turns undefined, the cost criterion can no longer fire, and
    // the iteration cap remains the safety net.
    let op = diagonal(&[1, 1], &[0, 0], Ratio::new(-1, 1));
    let mut solver = ConjugateGradient::new();
    solver.max_iters(3);
    solver.init(&op, &ints(&[-1, 1])).unwrap();
    solver.next_iter().unwrap(); // exact convergence; negative threshold never fires
    solver.next_iter().unwrap(); // degenerate: residual is zero, alpha undefined
    let out = solver.next_iter().unwrap();
    assert!(out.norm_sq.is_nan());
    assert!(out.param[0].is_nan());
    assert_eq!(out.iter, 3);
    assert_eq!(out.termination_reason, TerminationReason::MaxItersReached);
}
