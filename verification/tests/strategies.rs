use numerics_rs::root_finding::bisection::BisectionRootFinder;
use numerics_rs::root_finding::newton_raphson::NewtonRaphsonRootFinder;
use numerics_rs::root_finding::secant::SecantRootFinder;
use numerics_rs::root_finding::strategy::Strategy;
use numerics_rs::root_finding::{RootFinder, RootFindingError};

#[test]
fn newton_first_point_is_the_guess() {
    let mut finder = NewtonRaphsonRootFinder { x0: 1.5, tolerance: 1e-6 };
    assert_eq!(finder.get_init_args(), vec![1.5]);
    assert_eq!(finder.x0, 1.5);
}

#[test]
fn newton_step_follows_the_tangent() {
    let mut finder = NewtonRaphsonRootFinder { x0: 1.5, tolerance: 1e-6 };
    // 1.5 - (-0.125) / 5.75
    assert_eq!(finder.get_next_args(&[-0.125], &[5.75]), vec![1.5217391304347827]);
    assert_eq!(finder.x0, 1.5217391304347827);
    assert_eq!(finder.tolerance, 1e-6);
}

#[test]
fn newton_stops_on_a_small_step() {
    let finder = NewtonRaphsonRootFinder { x0: 1.5, tolerance: 1e-6 };
    assert_eq!(finder.should_stop(&[-0.125], &[5.75]), None);
    // a step of 1e-7 / 2 = 5e-8
    assert_eq!(finder.should_stop(&[1e-7], &[2.0]), Some(Ok(1.5 - 1e-7 / 2.0)));
}

#[test]
fn newton_fails_on_a_vanishing_derivative() {
    let finder = NewtonRaphsonRootFinder { x0: 0.0, tolerance: 1e-6 };
    assert_eq!(
        finder.should_stop(&[1.0], &[0.0]),
        Some(Err(RootFindingError::DerivativeTooSmall))
    );
    assert_eq!(
        finder.should_stop(&[1.0], &[1e-17]),
        Some(Err(RootFindingError::DerivativeTooSmall))
    );
    assert_eq!(
        finder.should_stop(&[1.0], &[-1e-17]),
        Some(Err(RootFindingError::DerivativeTooSmall))
    );
    // a derivative of zero fails whatever the function value
    assert_eq!(
        finder.should_stop(&[0.0], &[0.0]),
        Some(Err(RootFindingError::DerivativeTooSmall))
    );
    assert_eq!(
        finder.should_stop(&[1.0], &[-0.0]),
        Some(Err(RootFindingError::DerivativeTooSmall))
    );
    // at the threshold itself the derivative is large enough
    assert_eq!(finder.should_stop(&[1.0], &[f64::EPSILON]), None);
    // a small step wins over a small derivative
    assert_eq!(finder.should_stop(&[0.0], &[1e-17]), Some(Ok(0.0)));
}

#[test]
fn secant_first_points_are_the_bracket() {
    let mut finder = SecantRootFinder { x0: 1.0, x1: 2.0, x2: 2.0, tolerance: 1e-6 };
    assert_eq!(finder.get_init_args(), vec![1.0, 2.0]);
    assert_eq!((finder.x0, finder.x1, finder.x2), (1.0, 2.0, 2.0));
}

#[test]
fn secant_step_follows_the_secant() {
    let mut finder = SecantRootFinder { x0: 1.0, x1: 2.0, x2: 2.0, tolerance: 1e-6 };
    // 2 - 4 * (2 - 1) / (4 - (-2))
    assert_eq!(finder.get_next_args(&[-2.0, 4.0], &[]), vec![2.0, 1.3333333333333335]);
    assert_eq!(
        (finder.x0, finder.x1, finder.x2),
        (2.0, 1.3333333333333335, 1.3333333333333335)
    );
}

#[test]
fn secant_stops_when_the_points_meet() {
    let finder = SecantRootFinder { x0: 1.0, x1: 2.0, x2: 2.0, tolerance: 1e-6 };
    assert_eq!(finder.should_stop(&[-2.0, 4.0], &[]), None);
    let finder = SecantRootFinder { x0: 1.5, x1: 1.5000001, x2: 1.5000001, tolerance: 1e-6 };
    assert_eq!(finder.should_stop(&[-2.0, 4.0], &[]), Some(Ok(1.5000001)));
}

#[test]
fn secant_fails_on_equal_values() {
    let finder = SecantRootFinder { x0: -1.0, x1: 1.0, x2: 1.0, tolerance: 1e-6 };
    assert_eq!(
        finder.should_stop(&[1.0, 1.0], &[]),
        Some(Err(RootFindingError::DenominatorTooSmall))
    );
    assert_eq!(
        finder.should_stop(&[1.0, 1.0 + 1e-17], &[]),
        Some(Err(RootFindingError::DenominatorTooSmall))
    );
    assert_eq!(finder.should_stop(&[1.0, 1.0 + f64::EPSILON], &[]), None);
}

#[test]
fn bisection_first_points_are_the_left_half() {
    let mut finder =
        BisectionRootFinder { x0: 1.0, x1: 2.0, tolerance: 1e-6, search_left: true };
    assert_eq!(finder.get_init_args(), vec![1.0, 1.5]);
    assert_eq!((finder.x0, finder.x1, finder.search_left), (1.0, 1.5, true));
}

#[test]
fn bisection_halves_to_the_left_on_a_sign_change() {
    let mut finder =
        BisectionRootFinder { x0: 1.5, x1: 2.0, tolerance: 1e-6, search_left: false };
    assert_eq!(finder.get_next_args(&[-0.125, 4.0], &[]), vec![1.5, 1.75]);
    assert_eq!((finder.x0, finder.x1, finder.search_left), (1.5, 1.75, true));
}

#[test]
fn bisection_moves_right_without_a_sign_change() {
    let mut finder =
        BisectionRootFinder { x0: 1.0, x1: 1.5, tolerance: 1e-6, search_left: true };
    // the right end goes back out to 1.5 * 2 - 1 = 2, the left end to the
    // midpoint of 1 and 2
    assert_eq!(finder.get_next_args(&[-2.0, -0.125], &[]), vec![1.5, 2.0]);
    assert_eq!((finder.x0, finder.x1, finder.search_left), (1.5, 2.0, false));
    // a value of zero is no sign change
    let mut finder =
        BisectionRootFinder { x0: 1.0, x1: 1.5, tolerance: 1e-6, search_left: true };
    assert_eq!(finder.get_next_args(&[0.0, 1.0], &[]), vec![1.5, 2.0]);
}

#[test]
fn bisection_stops_with_the_midpoint() {
    let finder = BisectionRootFinder { x0: 1.0, x1: 1.5, tolerance: 1e-6, search_left: true };
    assert_eq!(finder.should_stop(&[-2.0, -0.125], &[]), None);
    // the value at the right end counts after a step to the left
    assert_eq!(finder.should_stop(&[-2.0, 1e-7], &[]), Some(Ok(1.25)));
    assert_eq!(finder.should_stop(&[1e-7, -2.0], &[]), None);
    // the value at the left end counts after a step to the right
    let finder = BisectionRootFinder { x0: 1.0, x1: 1.5, tolerance: 1e-6, search_left: false };
    assert_eq!(finder.should_stop(&[1e-7, -2.0], &[]), Some(Ok(1.25)));
    assert_eq!(finder.should_stop(&[-2.0, 1e-7], &[]), None);
    // a stretch shorter than the tolerance
    let finder =
        BisectionRootFinder { x0: 1.0, x1: 1.0000005, tolerance: 1e-6, search_left: true };
    assert_eq!(finder.should_stop(&[-2.0, -2.0], &[]), Some(Ok((1.0 + 1.0000005) / 2.0)));
    // the width counts, also where x1 lies before x0
    let finder = BisectionRootFinder { x0: 2.0, x1: 1.0, tolerance: 1e-6, search_left: true };
    assert_eq!(finder.should_stop(&[-2.0, -2.0], &[]), None);
    let finder =
        BisectionRootFinder { x0: 1.0000005, x1: 1.0, tolerance: 1e-6, search_left: true };
    assert_eq!(finder.should_stop(&[-2.0, -2.0], &[]), Some(Ok((1.0000005 + 1.0) / 2.0)));
}

#[test]
fn strategy_does_what_the_strategy_inside_does() {
    let mut strategy =
        Strategy::NewtonRaphson(NewtonRaphsonRootFinder { x0: 1.5, tolerance: 1e-6 });
    assert_eq!(strategy.get_init_args(), vec![1.5]);
    assert_eq!(strategy.should_stop(&[-0.125], &[5.75]), None);
    assert_eq!(strategy.get_next_args(&[-0.125], &[5.75]), vec![1.5217391304347827]);
    assert!(matches!(strategy, Strategy::NewtonRaphson(_)));

    let mut strategy =
        Strategy::Secant(SecantRootFinder { x0: 1.0, x1: 2.0, x2: 2.0, tolerance: 1e-6 });
    assert_eq!(strategy.get_init_args(), vec![1.0, 2.0]);
    assert_eq!(strategy.should_stop(&[-2.0, 4.0], &[]), None);
    assert_eq!(strategy.get_next_args(&[-2.0, 4.0], &[]), vec![2.0, 1.3333333333333335]);
    assert!(matches!(strategy, Strategy::Secant(_)));

    let mut strategy = Strategy::Bisection(BisectionRootFinder {
        x0: 1.0,
        x1: 2.0,
        tolerance: 1e-6,
        search_left: true,
    });
    assert_eq!(strategy.get_init_args(), vec![1.0, 1.5]);
    assert_eq!(strategy.should_stop(&[-2.0, -0.125], &[]), None);
    assert_eq!(strategy.get_next_args(&[-2.0, -0.125], &[]), vec![1.5, 2.0]);
    assert!(matches!(strategy, Strategy::Bisection(_)));
}
