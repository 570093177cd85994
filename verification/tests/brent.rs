use numerics_rs::root_finding::brent::{BrentRootFinder, BrentState, BrentTrial};
use numerics_rs::scalar::same_signs;
use numerics_rs::root_finding::{ConvergenceLog, RootFindingError, RootFindingIterator};

fn cubic(x: f64) -> f64 {
    x * x * x - x - 2.0
}

fn finder(
    x0: f64,
    x1: f64,
    max_iterations: usize,
    log_convergence: bool,
) -> BrentRootFinder<f64, fn(f64) -> f64> {
    BrentRootFinder {
        x0,
        x1,
        tolerance: 1e-6,
        function: cubic,
        max_iterations,
        log_convergence,
        convergence_log: ConvergenceLog::new(),
    }
}

#[test]
fn brent_wide_bracket_converges() {
    let mut finder = finder(-400.0, 400.0, 100, true);
    let res = finder.find_root();
    assert_eq!(res, Ok(1.5213797068025299));
    assert!((res.unwrap() - 1.5213797).abs() < 1e-6);
    let entries = finder.get_convergence_log().get_entries();
    assert_eq!(entries.len(), 24);
    assert_eq!(entries[1].x, vec![1.2500078128141467e-05]);
    assert_eq!(entries[2].x, vec![200.00000625003906]);
    assert_eq!(entries[23].x, vec![1.521380327764088]);
    assert_eq!(entries[23].fx, vec![3.6908539016167197e-06]);
}

#[test]
fn brent_same_sign_is_invalid_bracket() {
    let mut finder = finder(2.0, 3.0, 100, true);
    assert_eq!(finder.find_root(), Err(RootFindingError::InvalidBracket));
    let entries = finder.get_convergence_log().get_entries();
    assert_eq!(entries.len(), 1);
    assert_eq!(entries[0].iteration, 1);
    assert_eq!(entries[0].x, vec![2.0, 3.0]);
    assert_eq!(entries[0].fx, vec![4.0, 22.0]);
}

#[test]
fn brent_invalid_bracket_evaluates_only_the_ends() {
    let calls = std::cell::Cell::new(0usize);
    let counted = |x: f64| {
        calls.set(calls.get() + 1);
        x * x + 1.0
    };
    let mut finder = BrentRootFinder {
        x0: -1.0,
        x1: 1.0,
        tolerance: 1e-6,
        function: &counted,
        max_iterations: 100,
        log_convergence: false,
        convergence_log: ConvergenceLog::new(),
    };
    assert_eq!(finder.find_root(), Err(RootFindingError::InvalidBracket));
    assert_eq!(calls.get(), 2);
    assert!(finder.get_convergence_log().get_entries().is_empty());
}

#[test]
fn brent_budget_exhausted_fails_to_converge() {
    let mut finder = finder(1.0, 2.0, 5, true);
    assert_eq!(finder.find_root(), Err(RootFindingError::FailedToConverge));
    let entries = finder.get_convergence_log().get_entries();
    assert_eq!(entries.len(), 5);
    let points = [vec![1.0, 2.0], vec![1.5], vec![1.25], vec![1.375], vec![1.4375]];
    let values = [
        vec![-2.0, 4.0],
        vec![-0.125],
        vec![-1.296875],
        vec![-0.775390625],
        vec![-0.467041015625],
    ];
    for (i, entry) in entries.iter().enumerate() {
        assert_eq!(entry.iteration, i + 1);
        assert_eq!(entry.x, points[i]);
        assert_eq!(entry.fx, values[i]);
    }
}

#[test]
fn brent_with_no_rounds_left_after_the_ends() {
    for max_iterations in [0usize, 1] {
        let mut finder = finder(1.0, 2.0, max_iterations, true);
        assert_eq!(finder.find_root(), Err(RootFindingError::FailedToConverge));
        let entries = finder.get_convergence_log().get_entries();
        assert_eq!(entries.len(), 1);
        assert_eq!(entries[0].iteration, 1);
        assert_eq!(entries[0].x, vec![1.0, 2.0]);
        assert_eq!(entries[0].fx, vec![-2.0, 4.0]);
    }
}

#[test]
fn brent_steps_between_a_and_b() {
    // The fallback step halves the stretch from a to b, whether or not the
    // sign changes there: on this bracket the search closes in on 1.5.
    let mut finder = finder(1.0, 2.0, 100, true);
    assert_eq!(finder.find_root(), Ok(1.4999990463256836));
    let entries = finder.get_convergence_log().get_entries();
    assert_eq!(entries.len(), 20);
    assert_eq!(entries[19].iteration, 20);
    assert_eq!(entries[19].x, vec![1.4999980926513672]);
    assert_eq!(entries[19].fx, vec![-0.12501096723826777]);
}

#[test]
fn brent_without_logging_leaves_the_log_empty() {
    let mut finder = finder(-400.0, 400.0, 100, false);
    assert_eq!(finder.find_root(), Ok(1.5213797068025299));
    assert!(finder.get_convergence_log().get_entries().is_empty());
}

#[test]
fn brent_second_search_repeats_the_first() {
    let mut finder = finder(-400.0, 400.0, 100, true);
    let first = finder.find_root();
    let rounds = finder.get_convergence_log().get_entries().len();
    let second = finder.find_root();
    assert_eq!(first, second);
    let entries = finder.get_convergence_log().get_entries();
    assert_eq!(entries.len(), rounds);
    for (i, entry) in entries.iter().enumerate() {
        assert_eq!(entry.iteration, i + 1);
        assert_eq!(entry.x.len(), entry.fx.len());
    }
}

#[test]
fn brent_log_holds_function_values() {
    let mut finder = finder(-400.0, 400.0, 100, true);
    finder.find_root().unwrap();
    for entry in finder.get_convergence_log().get_entries() {
        for (x, fx) in entry.x.iter().zip(entry.fx.iter()) {
            assert_eq!(cubic(*x), *fx);
        }
    }
}

#[test]
fn same_signs_is_a_positive_product() {
    assert!(same_signs(4.0, 22.0));
    assert!(same_signs(-4.0, -22.0));
    assert!(!same_signs(-2.0, 4.0));
    assert!(!same_signs(0.0, 4.0));
    assert!(!same_signs(f64::NAN, 4.0));
}

#[test]
fn initial_state_puts_the_smaller_value_at_b() {
    let state = BrentState::initial(1.0, 2.0, -2.0, 4.0);
    assert_eq!((state.a, state.b, state.c), (2.0, 1.0, 2.0));
    assert_eq!((state.fa, state.fb, state.fc), (4.0, -2.0, 4.0));
    assert_eq!((state.d, state.e), (-1.0, -1.0));
    let state = BrentState::initial(1.0, 2.0, 4.0, -2.0);
    assert_eq!((state.a, state.b, state.c), (1.0, 2.0, 1.0));
    assert_eq!((state.fa, state.fb, state.fc), (4.0, -2.0, 4.0));
    assert_eq!((state.d, state.e), (1.0, 1.0));
}

#[test]
fn interpolate_picks_the_formula() {
    // fc equals fa: the secant through (a, fa) and (b, fb)
    let state = BrentState { a: 2.0, b: 1.0, c: 2.0, fa: 4.0, fb: -2.0, fc: 4.0, d: -1.0, e: -1.0 };
    assert_eq!(state.interpolate(), 1.3333333333333333);
    // three different values: inverse quadratic interpolation
    let state =
        BrentState { a: 1.0, b: 1.5, c: 2.0, fa: -2.0, fb: -0.125, fc: 4.0, d: -1.0, e: -1.0 };
    assert_eq!(state.interpolate(), 1.5272727272727271);
}

#[test]
fn accepts_only_between_the_bound_and_b() {
    let state =
        BrentState { a: 1.0, b: 1.5, c: 2.0, fa: -2.0, fb: -0.125, fc: 4.0, d: -1.0, e: -1.0 };
    // the bound is (3 * 1 + 1.5) / 4 = 1.125
    assert!(state.accepts(1.3, 1e-6));
    assert!(!state.accepts(1.125, 1e-6));
    assert!(!state.accepts(1.5, 1e-6));
    assert!(!state.accepts(1.5272727272727271, 1e-6));
    assert!(!state.accepts(1.0, 1e-6));
    // a point close to b is taken like any other between the bound and b
    assert!(state.accepts(1.4999999, 1e-6));
    // a kept step that is smaller than the tolerance
    let state = BrentState { e: 1e-7, ..state };
    assert!(!state.accepts(1.3, 1e-6));
    let state = BrentState { e: -1e-7, ..state };
    assert!(!state.accepts(1.3, 1e-6));
}

#[test]
fn propose_falls_back_to_the_midpoint() {
    let state =
        BrentState { a: 1.0, b: 1.5, c: 2.0, fa: -2.0, fb: -0.125, fc: 4.0, d: -1.0, e: -0.75 };
    let BrentTrial { s, d, e } = state.propose(1e-6);
    assert_eq!(s, 1.25);
    assert_eq!(d, 0.5);
    assert_eq!(e, -1.0);
}

#[test]
fn propose_keeps_an_accepted_point() {
    // the secant from (1, -3) to (2, -1) crosses zero at 2.5: not below b
    // the secant from (3, 3) to (2, -1) crosses zero at 2.25: b is 2, not accepted either
    // with a = 1, b = 3 the bound is 1.5 and the secant point 2.5 lies between
    let state = BrentState { a: 1.0, b: 3.0, c: 1.0, fa: -3.0, fb: 1.0, fc: -3.0, d: 2.0, e: 1.5 };
    let BrentTrial { s, d, e } = state.propose(1e-6);
    assert_eq!(s, 2.5);
    assert_eq!(d, 1.5);
    assert_eq!(e, 2.0);
}

#[test]
fn converged_on_a_small_step_or_a_small_value() {
    let state =
        BrentState { a: 1.0, b: 1.5, c: 2.0, fa: -2.0, fb: -0.125, fc: 4.0, d: -1.0, e: -1.0 };
    assert_eq!(state.converged(1.25, 1e-6), None);
    // a small step: the proposed point
    assert_eq!(state.converged(1.5000001, 1e-6), Some(1.5000001));
    // only the value at b is small: b itself
    let state = BrentState { fb: 1e-9, ..state };
    assert_eq!(state.converged(1.25, 1e-6), Some(1.5));
    // both are small: the proposed point
    assert_eq!(state.converged(1.5000001, 1e-6), Some(1.5000001));
}

#[test]
fn brent_returns_the_estimate_whose_value_is_small() {
    // the secant through the two ends meets the root 1; in the next round
    // the value at b is zero and b is the result, not the point proposed
    let line = |x: f64| x - 1.0;
    for (x0, x1) in [(-3.0, 2.0), (2.0, -3.0)] {
        let mut finder = BrentRootFinder {
            x0,
            x1,
            tolerance: 1e-6,
            function: &line,
            max_iterations: 100,
            log_convergence: true,
            convergence_log: ConvergenceLog::new(),
        };
        assert_eq!(finder.find_root(), Ok(1.0));
        let entries = finder.get_convergence_log().get_entries();
        assert_eq!(entries.len(), 2);
        assert_eq!(entries[0].x, vec![x0, x1]);
        assert_eq!(entries[1].iteration, 2);
        assert_eq!(entries[1].x, vec![1.0]);
        assert_eq!(entries[1].fx, vec![0.0]);
    }
}

#[test]
fn brent_log_holds_two_points_and_then_one() {
    let mut finder = finder(-400.0, 400.0, 100, true);
    finder.find_root().unwrap();
    for (i, entry) in finder.get_convergence_log().get_entries().iter().enumerate() {
        assert_eq!(entry.x.len(), if i == 0 { 2 } else { 1 });
        assert_eq!(entry.fx.len(), entry.x.len());
    }
}

#[test]
fn advance_shifts_and_tracks_the_sign_change() {
    let state = BrentState { a: 2.0, b: 1.0, c: 2.0, fa: 4.0, fb: -2.0, fc: 4.0, d: -1.0, e: -1.0 };
    // no sign change between the old b and the new point: c stays
    let trial = BrentTrial { s: 1.5, d: -1.0, e: -1.0 };
    let next = state.advance(&trial, -0.125);
    assert_eq!((next.a, next.b, next.c), (1.0, 1.5, 2.0));
    assert_eq!((next.fa, next.fb, next.fc), (-2.0, -0.125, 4.0));
    assert_eq!((next.d, next.e), (-1.0, -1.0));
    // a sign change: c moves to the old b
    let trial = BrentTrial { s: 1.75, d: 0.25, e: 0.5 };
    let next = state.advance(&trial, 1.609375);
    assert_eq!((next.a, next.b, next.c), (1.0, 1.75, 1.0));
    assert_eq!((next.fa, next.fb, next.fc), (-2.0, 1.609375, -2.0));
    assert_eq!((next.d, next.e), (0.25, 0.5));
    // the new point has the larger value: a and b change places
    let next = state.advance(&trial, 3.0);
    assert_eq!((next.a, next.b, next.c), (1.75, 1.0, 1.0));
    assert_eq!((next.fa, next.fb, next.fc), (3.0, -2.0, -2.0));
    assert_eq!((next.d, next.e), (0.25, 0.5));
}
