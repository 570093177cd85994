use numerics_rs::root_finding::builder::{BuiltRootFinder, ConfigurationError};
use numerics_rs::root_finding::strategy::Strategy;
use numerics_rs::root_finding::{RootFinderBuilder, RootFindingIterator, RootFindingMethod};
use std::cell::Cell;

fn cubic(x: f64) -> f64 {
    x * x * x - x - 2.0
}

fn cubic_slope(x: f64) -> f64 {
    3.0 * (x * x) - 1.0
}

fn methods() -> [RootFindingMethod; 5] {
    [
        RootFindingMethod::Bisection,
        RootFindingMethod::Brent,
        RootFindingMethod::Secant,
        RootFindingMethod::InverseQuadraticInterpolation,
        RootFindingMethod::NewtonRaphson,
    ]
}

#[test]
fn a_new_builder_is_empty() {
    let builder = RootFinderBuilder::<f64, _, _>::new(RootFindingMethod::Secant);
    assert!(matches!(builder.method, RootFindingMethod::Secant));
    assert!(builder.initial_guess.is_none());
    assert!(builder.boundaries.is_none());
    assert!(builder.tolerance.is_none());
    assert!(builder.max_iterations.is_none());
    assert!(builder.log_convergence.is_none());
    assert!(builder.function.is_none());
    assert!(builder.derivative.is_none());
}

#[test]
fn setters_fill_their_field() {
    let builder = RootFinderBuilder::new(RootFindingMethod::NewtonRaphson)
        .initial_guess(3.0)
        .boundaries(1.0, 2.0)
        .tolerance(1e-6)
        .max_iterations(100)
        .log_convergence(true)
        .function(cubic)
        .derivative(cubic_slope);
    assert!(matches!(builder.method, RootFindingMethod::NewtonRaphson));
    assert_eq!(builder.initial_guess, Some(3.0));
    assert_eq!(builder.boundaries, Some((1.0, 2.0)));
    assert_eq!(builder.tolerance, Some(1e-6));
    assert_eq!(builder.max_iterations, Some(100));
    assert_eq!(builder.log_convergence, Some(true));
    assert_eq!(builder.function.unwrap()(2.0), 4.0);
    assert_eq!(builder.derivative.unwrap()(2.0), 11.0);
}

#[test]
fn a_missing_function_is_reported_first() {
    for method in methods() {
        let res = RootFinderBuilder::<f64, _, _>::new(method).build();
        assert_eq!(res.err(), Some(ConfigurationError::MissingFunction));
    }
}

#[test]
fn a_missing_tolerance_is_reported_second() {
    for method in methods() {
        let res = RootFinderBuilder::new(method).function(cubic).max_iterations(10).build();
        assert_eq!(res.err(), Some(ConfigurationError::MissingTolerance));
    }
}

#[test]
fn a_missing_number_of_rounds_is_reported_third() {
    for method in methods() {
        let res = RootFinderBuilder::new(method).function(cubic).tolerance(1e-6).build();
        assert_eq!(res.err(), Some(ConfigurationError::MissingMaxIterations));
    }
}

#[test]
fn newton_raphson_needs_a_derivative() {
    let res = RootFinderBuilder::new(RootFindingMethod::NewtonRaphson)
        .function(cubic)
        .initial_guess(400.0)
        .boundaries(1.0, 2.0)
        .tolerance(1e-6)
        .max_iterations(100)
        .build();
    assert_eq!(res.err(), Some(ConfigurationError::MissingDerivative));
}

#[test]
fn newton_raphson_needs_an_initial_guess() {
    let res = RootFinderBuilder::new(RootFindingMethod::NewtonRaphson)
        .function(cubic)
        .derivative(cubic_slope)
        .boundaries(1.0, 2.0)
        .tolerance(1e-6)
        .max_iterations(100)
        .build();
    assert_eq!(res.err(), Some(ConfigurationError::MissingInitialGuess));
}

#[test]
fn bracketing_methods_need_boundaries() {
    for method in
        [RootFindingMethod::Secant, RootFindingMethod::Bisection, RootFindingMethod::Brent]
    {
        let res = RootFinderBuilder::new(method)
            .function(cubic)
            .derivative(cubic_slope)
            .initial_guess(400.0)
            .tolerance(1e-6)
            .max_iterations(100)
            .build();
        assert_eq!(res.err(), Some(ConfigurationError::MissingBoundaries));
    }
}

#[test]
fn inverse_quadratic_interpolation_is_not_supported() {
    let res = RootFinderBuilder::new(RootFindingMethod::InverseQuadraticInterpolation)
        .function(cubic)
        .derivative(cubic_slope)
        .initial_guess(400.0)
        .boundaries(1.0, 2.0)
        .tolerance(1e-6)
        .max_iterations(100)
        .build();
    assert_eq!(res.err(), Some(ConfigurationError::UnsupportedMethod));
}

#[test]
fn a_rejected_configuration_evaluates_nothing() {
    let calls = Cell::new(0usize);
    let counted = |x: f64| {
        calls.set(calls.get() + 1);
        cubic(x)
    };
    let slope_calls = Cell::new(0usize);
    let counted_slope = |x: f64| {
        slope_calls.set(slope_calls.get() + 1);
        cubic_slope(x)
    };

    // Newton-Raphson without a derivative
    let res = RootFinderBuilder::new(RootFindingMethod::NewtonRaphson)
        .function(&counted)
        .initial_guess(400.0)
        .tolerance(1e-6)
        .max_iterations(100)
        .build();
    assert_eq!(res.err(), Some(ConfigurationError::MissingDerivative));

    // the bracketing methods without boundaries
    for method in
        [RootFindingMethod::Secant, RootFindingMethod::Bisection, RootFindingMethod::Brent]
    {
        let res = RootFinderBuilder::new(method)
            .function(&counted)
            .derivative(&counted_slope)
            .tolerance(1e-6)
            .max_iterations(100)
            .build();
        assert_eq!(res.err(), Some(ConfigurationError::MissingBoundaries));
    }
    assert_eq!(calls.get(), 0);
    assert_eq!(slope_calls.get(), 0);
}

#[test]
fn building_evaluates_nothing() {
    let calls = Cell::new(0usize);
    let counted = |x: f64| {
        calls.set(calls.get() + 1);
        cubic(x)
    };
    let counted_slope = |x: f64| {
        calls.set(calls.get() + 1);
        cubic_slope(x)
    };
    for method in [
        RootFindingMethod::Secant,
        RootFindingMethod::Bisection,
        RootFindingMethod::Brent,
        RootFindingMethod::NewtonRaphson,
    ] {
        let mut finder = RootFinderBuilder::new(method)
            .function(&counted)
            .derivative(&counted_slope)
            .initial_guess(3.0)
            .boundaries(1.0, 2.0)
            .tolerance(1e-6)
            .max_iterations(100)
            .build()
            .unwrap();
        assert_eq!(calls.get(), 0);
        assert!(finder.find_root().is_ok());
        assert!(calls.get() > 0);
        calls.set(0);
    }
}

#[test]
fn the_finder_is_as_configured() {
    let finder = RootFinderBuilder::new(RootFindingMethod::NewtonRaphson)
        .function(cubic)
        .derivative(cubic_slope)
        .initial_guess(3.0)
        .tolerance(1e-6)
        .max_iterations(100)
        .log_convergence(true)
        .build()
        .unwrap();
    match finder {
        BuiltRootFinder::Driven(driver) => {
            assert_eq!(driver.num_it, 1);
            assert_eq!(driver.max_iterations, 100);
            assert!(driver.log_convergence);
            assert!(driver.derivative.is_some());
            assert!(driver.convergence_log.get_entries().is_empty());
            match driver.root_finder {
                Strategy::NewtonRaphson(strategy) => {
                    assert_eq!(strategy.x0, 3.0);
                    assert_eq!(strategy.tolerance, 1e-6);
                }
                _ => panic!("another strategy"),
            }
        }
        BuiltRootFinder::Brent(_) => panic!("another finder"),
    }

    let finder = RootFinderBuilder::new(RootFindingMethod::Secant)
        .function(cubic)
        .boundaries(1.0, 2.0)
        .tolerance(1e-6)
        .max_iterations(50)
        .build()
        .unwrap();
    match finder {
        BuiltRootFinder::Driven(driver) => {
            assert_eq!(driver.num_it, 1);
            assert_eq!(driver.max_iterations, 50);
            assert!(!driver.log_convergence);
            assert!(driver.derivative.is_none());
            match driver.root_finder {
                Strategy::Secant(strategy) => {
                    assert_eq!((strategy.x0, strategy.x1, strategy.x2), (1.0, 2.0, 2.0));
                    assert_eq!(strategy.tolerance, 1e-6);
                }
                _ => panic!("another strategy"),
            }
        }
        BuiltRootFinder::Brent(_) => panic!("another finder"),
    }

    let finder = RootFinderBuilder::new(RootFindingMethod::Bisection)
        .function(cubic)
        .boundaries(1.0, 2.0)
        .tolerance(1e-6)
        .max_iterations(50)
        .log_convergence(false)
        .build()
        .unwrap();
    match finder {
        BuiltRootFinder::Driven(driver) => {
            assert!(!driver.log_convergence);
            match driver.root_finder {
                Strategy::Bisection(strategy) => {
                    assert_eq!((strategy.x0, strategy.x1), (1.0, 2.0));
                    assert_eq!(strategy.tolerance, 1e-6);
                    assert!(strategy.search_left);
                }
                _ => panic!("another strategy"),
            }
        }
        BuiltRootFinder::Brent(_) => panic!("another finder"),
    }

    let finder = RootFinderBuilder::new(RootFindingMethod::Brent)
        .function(cubic)
        .boundaries(1.0, 2.0)
        .tolerance(1e-6)
        .max_iterations(50)
        .log_convergence(true)
        .build()
        .unwrap();
    match finder {
        BuiltRootFinder::Brent(brent) => {
            assert_eq!((brent.x0, brent.x1), (1.0, 2.0));
            assert_eq!(brent.tolerance, 1e-6);
            assert_eq!(brent.max_iterations, 50);
            assert!(brent.log_convergence);
            assert!(brent.convergence_log.get_entries().is_empty());
        }
        BuiltRootFinder::Driven(_) => panic!("another finder"),
    }
}

#[test]
fn configuration_error_messages() {
    assert_eq!(ConfigurationError::MissingFunction.message(), "Function must be specified");
    assert_eq!(ConfigurationError::MissingTolerance.message(), "Tolerance must be specified.");
    assert_eq!(
        ConfigurationError::MissingMaxIterations.message(),
        "Max iterations must be specified."
    );
    assert_eq!(ConfigurationError::MissingDerivative.message(), "Derivative must be specified");
    assert_eq!(
        ConfigurationError::MissingInitialGuess.message(),
        "Initial guess must be specified"
    );
    assert_eq!(ConfigurationError::MissingBoundaries.message(), "Boundaries must be specified");
    assert_eq!(ConfigurationError::UnsupportedMethod.message(), "Unsupported method.");
}
