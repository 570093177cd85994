//! The builder: it collects a configuration piece by piece, checks it
//! against the method selected, and assembles the finder.

use crate::root_finding::bisection::BisectionRootFinder;
use crate::root_finding::brent::{brent_searched, BrentRootFinder};
use crate::root_finding::convergencelog::{
    balanced, lemma_numbered_is_increasing, numbered_from, strictly_increasing, ConvergenceLog,
    IterationRecord,
};
use crate::root_finding::function::{total, ScalarFn, Unset};
use crate::root_finding::newton_raphson::NewtonRaphsonRootFinder;
use crate::root_finding::secant::SecantRootFinder;
use crate::root_finding::strategy::Strategy;
use crate::root_finding::{
    driver_searched, total_if_any, RootFindingError, RootFindingIterationDecorator,
    RootFindingIterator, RootFindingMethod,
};
use crate::scalar::{total_arithmetic, Scalar};
use vstd::prelude::*;

verus! {

/// What is wrong with a configuration.
#[derive(Debug, Clone, Copy, PartialEq, Eq, Structural)]
pub enum ConfigurationError {
    /// No target function is set.
    MissingFunction,
    /// No tolerance is set.
    MissingTolerance,
    /// No number of rounds is set.
    MissingMaxIterations,
    /// The method needs a derivative and none is set.
    MissingDerivative,
    /// The method needs an initial guess and none is set.
    MissingInitialGuess,
    /// The method needs the two ends of a bracket and none are set.
    MissingBoundaries,
    /// No finder exists for the method.
    UnsupportedMethod,
}

impl ConfigurationError {
    /// The text of [`ConfigurationError::message`].
    pub open spec fn spec_message(self) -> Seq<char> {
        match self {
            ConfigurationError::MissingFunction => "Function must be specified"@,
            ConfigurationError::MissingTolerance => "Tolerance must be specified."@,
            ConfigurationError::MissingMaxIterations => "Max iterations must be specified."@,
            ConfigurationError::MissingDerivative => "Derivative must be specified"@,
            ConfigurationError::MissingInitialGuess => "Initial guess must be specified"@,
            ConfigurationError::MissingBoundaries => "Boundaries must be specified"@,
            ConfigurationError::UnsupportedMethod => "Unsupported method."@,
        }
    }

    /// A sentence that says what is wrong.
    pub fn message(&self) -> (text: String)
        ensures
            text@ == self.spec_message(),
    {
        match self {
            ConfigurationError::MissingFunction => "Function must be specified".to_owned(),
            ConfigurationError::MissingTolerance => "Tolerance must be specified.".to_owned(),
            ConfigurationError::MissingMaxIterations => "Max iterations must be specified.".to_owned(),
            ConfigurationError::MissingDerivative => "Derivative must be specified".to_owned(),
            ConfigurationError::MissingInitialGuess => "Initial guess must be specified".to_owned(),
            ConfigurationError::MissingBoundaries => "Boundaries must be specified".to_owned(),
            ConfigurationError::UnsupportedMethod => "Unsupported method.".to_owned(),
        }
    }
}

/// A finder as the builder assembles it: a driver with one of its
/// strategies, or a finder of Brent.
pub enum BuiltRootFinder<T, F, D> {
    Driven(RootFindingIterationDecorator<T, F, D, Strategy<T>>),
    Brent(BrentRootFinder<T, F>),
}

/// What a search does to an assembled finder: `before` is the finder as the
/// search finds it, `after` as it leaves it, `res` what it returns. The
/// finder stays of its kind, and the search is that of the finder inside.
pub open spec fn built_searched<T: Scalar, F: ScalarFn<T>, D: ScalarFn<T>>(
    before: BuiltRootFinder<T, F, D>,
    after: BuiltRootFinder<T, F, D>,
    res: Result<T, RootFindingError>,
) -> bool {
    match (before, after) {
        (BuiltRootFinder::Driven(before), BuiltRootFinder::Driven(after)) => driver_searched(
            before,
            after,
            res,
        ),
        (BuiltRootFinder::Brent(before), BuiltRootFinder::Brent(after)) => brent_searched(
            before,
            after,
            res,
        ),
        _ => false,
    }
}

impl<T: Scalar, F: ScalarFn<T>, D: ScalarFn<T>> RootFindingIterator<T> for BuiltRootFinder<
    T,
    F,
    D,
> {
    open spec fn wf(&self) -> bool {
        match self {
            BuiltRootFinder::Driven(driver) => driver.wf(),
            BuiltRootFinder::Brent(finder) => finder.wf(),
        }
    }

    open spec fn log(&self) -> Seq<IterationRecord<T>> {
        match self {
            BuiltRootFinder::Driven(driver) => driver.log(),
            BuiltRootFinder::Brent(finder) => finder.log(),
        }
    }

    open spec fn first_round(&self) -> nat {
        match self {
            BuiltRootFinder::Driven(driver) => driver.first_round(),
            BuiltRootFinder::Brent(finder) => finder.first_round(),
        }
    }

    /// Searches as the finder inside does, as [`built_searched`] says.
    fn find_root(&mut self) -> (res: Result<T, RootFindingError>)
        ensures
            built_searched(*old(self), *final(self), res),
    {
        match self {
            BuiltRootFinder::Driven(driver) => driver.find_root(),
            BuiltRootFinder::Brent(finder) => finder.find_root(),
        }
    }

    fn get_convergence_log(&self) -> (log: &ConvergenceLog<T>) {
        match self {
            BuiltRootFinder::Driven(driver) => driver.get_convergence_log(),
            BuiltRootFinder::Brent(finder) => finder.get_convergence_log(),
        }
    }
}

/// A configuration in the making. Each setter fills one field; `build`
/// checks that the method selected has what it needs.
pub struct RootFinderBuilder<T, F, D> {
    /// The method selected.
    pub method: RootFindingMethod,
    /// Where the method of Newton and Raphson starts.
    pub initial_guess: Option<T>,
    /// The two ends of the bracket for bisection, the secant method and the
    /// method of Brent.
    pub boundaries: Option<(T, T)>,
    /// The tolerance at which a search counts as converged.
    pub tolerance: Option<T>,
    /// The number of rounds allowed.
    pub max_iterations: Option<usize>,
    /// Whether the rounds are logged; they are not where nothing is set.
    pub log_convergence: Option<bool>,
    /// The target function.
    pub function: Option<F>,
    /// The derivative of the target function.
    pub derivative: Option<D>,
}

impl<T> RootFinderBuilder<T, Unset, Unset> {
    /// An empty configuration for `method`.
    pub fn new(method: RootFindingMethod) -> (builder: Self)
        ensures
            builder.method == method,
            builder.initial_guess is None,
            builder.boundaries is None,
            builder.tolerance is None,
            builder.max_iterations is None,
            builder.log_convergence is None,
            builder.function is None,
            builder.derivative is None,
    {
        RootFinderBuilder {
            method,
            initial_guess: None,
            boundaries: None,
            tolerance: None,
            max_iterations: None,
            log_convergence: None,
            function: None,
            derivative: None,
        }
    }
}

impl<T, F, D> RootFinderBuilder<T, F, D> {
    /// Sets the point where the method of Newton and Raphson starts.
    pub fn initial_guess(self, guess: T) -> (builder: Self)
        ensures
            builder == (RootFinderBuilder { initial_guess: Some(guess), ..self }),
    {
        RootFinderBuilder { initial_guess: Some(guess), ..self }
    }

    /// Sets the two ends of the bracket.
    pub fn boundaries(self, x0: T, x1: T) -> (builder: Self)
        ensures
            builder == (RootFinderBuilder { boundaries: Some((x0, x1)), ..self }),
    {
        RootFinderBuilder { boundaries: Some((x0, x1)), ..self }
    }

    /// Sets the tolerance.
    pub fn tolerance(self, tol: T) -> (builder: Self)
        ensures
            builder == (RootFinderBuilder { tolerance: Some(tol), ..self }),
    {
        RootFinderBuilder { tolerance: Some(tol), ..self }
    }

    /// Sets the number of rounds allowed.
    pub fn max_iterations(self, max: usize) -> (builder: Self)
        ensures
            builder == (RootFinderBuilder { max_iterations: Some(max), ..self }),
    {
        RootFinderBuilder { max_iterations: Some(max), ..self }
    }

    /// Sets whether the rounds are logged.
    pub fn log_convergence(self, log: bool) -> (builder: Self)
        ensures
            builder == (RootFinderBuilder { log_convergence: Some(log), ..self }),
    {
        RootFinderBuilder { log_convergence: Some(log), ..self }
    }

    /// Sets the target function. The function is stored, not evaluated.
    pub fn function<G: ScalarFn<T>>(self, function: G) -> (builder: RootFinderBuilder<T, G, D>)
        ensures
            builder.method == self.method,
            builder.initial_guess == self.initial_guess,
            builder.boundaries == self.boundaries,
            builder.tolerance == self.tolerance,
            builder.max_iterations == self.max_iterations,
            builder.log_convergence == self.log_convergence,
            builder.function == Some(function),
            builder.derivative == self.derivative,
    {
        RootFinderBuilder {
            method: self.method,
            initial_guess: self.initial_guess,
            boundaries: self.boundaries,
            tolerance: self.tolerance,
            max_iterations: self.max_iterations,
            log_convergence: self.log_convergence,
            function: Some(function),
            derivative: self.derivative,
        }
    }

    /// Sets the derivative of the target function. The derivative is stored,
    /// not evaluated.
    pub fn derivative<G: ScalarFn<T>>(self, derivative: G) -> (builder: RootFinderBuilder<T, F, G>)
        ensures
            builder.method == self.method,
            builder.initial_guess == self.initial_guess,
            builder.boundaries == self.boundaries,
            builder.tolerance == self.tolerance,
            builder.max_iterations == self.max_iterations,
            builder.log_convergence == self.log_convergence,
            builder.function == self.function,
            builder.derivative == Some(derivative),
    {
        RootFinderBuilder {
            method: self.method,
            initial_guess: self.initial_guess,
            boundaries: self.boundaries,
            tolerance: self.tolerance,
            max_iterations: self.max_iterations,
            log_convergence: self.log_convergence,
            function: self.function,
            derivative: Some(derivative),
        }
    }

    /// What is wrong with the configuration, if anything: the first of the
    /// target function, the tolerance and the number of rounds that is
    /// missing; else the first piece missing of those that the method needs,
    /// a derivative and then an initial guess for the method of Newton and
    /// Raphson, the two ends of a bracket for bisection, the secant method
    /// and the method of Brent; and for inverse quadratic interpolation that
    /// no finder exists.
    pub open spec fn defect(self) -> Option<ConfigurationError> {
        if self.function is None {
            Some(ConfigurationError::MissingFunction)
        } else if self.tolerance is None {
            Some(ConfigurationError::MissingTolerance)
        } else if self.max_iterations is None {
            Some(ConfigurationError::MissingMaxIterations)
        } else {
            match self.method {
                RootFindingMethod::NewtonRaphson => if self.derivative is None {
                    Some(ConfigurationError::MissingDerivative)
                } else if self.initial_guess is None {
                    Some(ConfigurationError::MissingInitialGuess)
                } else {
                    None
                },
                RootFindingMethod::Bisection
                | RootFindingMethod::Secant
                | RootFindingMethod::Brent => if self.boundaries is None {
                    Some(ConfigurationError::MissingBoundaries)
                } else {
                    None
                },
                RootFindingMethod::InverseQuadraticInterpolation => Some(
                    ConfigurationError::UnsupportedMethod,
                ),
            }
        }
    }

    /// The strategy that the driver runs for the method.
    pub open spec fn strategy(self) -> Strategy<T> {
        match self.method {
            RootFindingMethod::NewtonRaphson => Strategy::NewtonRaphson(
                NewtonRaphsonRootFinder {
                    x0: self.initial_guess.unwrap(),
                    tolerance: self.tolerance.unwrap(),
                },
            ),
            RootFindingMethod::Secant => Strategy::Secant(
                SecantRootFinder {
                    x0: self.boundaries.unwrap().0,
                    x1: self.boundaries.unwrap().1,
                    x2: self.boundaries.unwrap().1,
                    tolerance: self.tolerance.unwrap(),
                },
            ),
            _ => Strategy::Bisection(
                BisectionRootFinder {
                    x0: self.boundaries.unwrap().0,
                    x1: self.boundaries.unwrap().1,
                    tolerance: self.tolerance.unwrap(),
                    search_left: true,
                },
            ),
        }
    }

    /// Whether the rounds are to be logged.
    pub open spec fn logs(self) -> bool {
        self.log_convergence == Some(true)
    }

    /// `finder` is the finder that a sound configuration describes: for the
    /// method of Brent a finder of Brent on the bracket, for the other
    /// methods a driver with the method's strategy whose first round has the
    /// number 1; each with the functions, the tolerance and the number of
    /// rounds of the configuration, and with an empty log.
    pub open spec fn describes(self, finder: BuiltRootFinder<T, F, D>) -> bool {
        match finder {
            BuiltRootFinder::Brent(brent) => {
                &&& self.method is Brent
                &&& brent.x0 == self.boundaries.unwrap().0
                &&& brent.x1 == self.boundaries.unwrap().1
                &&& brent.tolerance == self.tolerance.unwrap()
                &&& brent.function == self.function.unwrap()
                &&& brent.max_iterations == self.max_iterations.unwrap()
                &&& brent.log_convergence == self.logs()
                &&& brent.convergence_log@ == Seq::<IterationRecord<T>>::empty()
            },
            BuiltRootFinder::Driven(driver) => {
                &&& !(self.method is Brent)
                &&& driver.function == self.function.unwrap()
                &&& driver.derivative == self.derivative
                &&& driver.num_it == 1
                &&& driver.max_iterations == self.max_iterations.unwrap()
                &&& driver.log_convergence == self.logs()
                &&& driver.root_finder == self.strategy()
                &&& driver.convergence_log@ == Seq::<IterationRecord<T>>::empty()
            },
        }
    }

}

impl<T: Copy, F, D> RootFinderBuilder<T, F, D> {
    /// Checks the configuration and assembles the finder. It fails exactly
    /// where the configuration has a defect, with that defect. No function
    /// is evaluated.
    pub fn build(self) -> (res: Result<BuiltRootFinder<T, F, D>, ConfigurationError>)
        ensures
            match res {
                Ok(finder) => self.defect() is None && self.describes(finder),
                Err(error) => self.defect() == Some(error),
            },
    {
        let RootFinderBuilder {
            method,
            initial_guess,
            boundaries,
            tolerance,
            max_iterations,
            log_convergence,
            function,
            derivative,
        } = self;
        let function = match function {
            Some(function) => function,
            None => {
                return Err(ConfigurationError::MissingFunction);
            },
        };
        let tolerance = match tolerance {
            Some(tolerance) => tolerance,
            None => {
                return Err(ConfigurationError::MissingTolerance);
            },
        };
        let max_iterations = match max_iterations {
            Some(max_iterations) => max_iterations,
            None => {
                return Err(ConfigurationError::MissingMaxIterations);
            },
        };
        let log_convergence = match log_convergence {
            Some(log) => log,
            None => false,
        };
        let strategy = match method {
            RootFindingMethod::NewtonRaphson => {
                if derivative.is_none() {
                    return Err(ConfigurationError::MissingDerivative);
                }
                match initial_guess {
                    Some(x0) => Strategy::NewtonRaphson(NewtonRaphsonRootFinder { x0, tolerance }),
                    None => {
                        return Err(ConfigurationError::MissingInitialGuess);
                    },
                }
            },
            RootFindingMethod::Secant => match boundaries {
                Some((x0, x1)) => Strategy::Secant(SecantRootFinder { x0, x1, x2: x1, tolerance }),
                None => {
                    return Err(ConfigurationError::MissingBoundaries);
                },
            },
            RootFindingMethod::Bisection => match boundaries {
                Some((x0, x1)) => Strategy::Bisection(
                    BisectionRootFinder { x0, x1, tolerance, search_left: true },
                ),
                None => {
                    return Err(ConfigurationError::MissingBoundaries);
                },
            },
            RootFindingMethod::Brent => match boundaries {
                Some((x0, x1)) => {
                    return Ok(
                        BuiltRootFinder::Brent(
                            BrentRootFinder {
                                x0,
                                x1,
                                tolerance,
                                function,
                                max_iterations,
                                log_convergence,
                                convergence_log: ConvergenceLog::new(),
                            },
                        ),
                    );
                },
                None => {
                    return Err(ConfigurationError::MissingBoundaries);
                },
            },
            RootFindingMethod::InverseQuadraticInterpolation => {
                return Err(ConfigurationError::UnsupportedMethod);
            },
        };
        Ok(
            BuiltRootFinder::Driven(
                RootFindingIterationDecorator::new(
                    function,
                    derivative,
                    strategy,
                    max_iterations,
                    log_convergence,
                ),
            ),
        )
    }
}

/// A configuration without a defect has a target function, a tolerance and
/// a number of rounds, and what its method needs: a derivative and an initial
/// guess for the method of Newton and Raphson, the two ends of a bracket for
/// bisection, the secant method and the method of Brent. Every other
/// configuration has a defect, and so has every one for inverse quadratic
/// interpolation.
pub proof fn lemma_defect_free_is_complete<T, F, D>(builder: RootFinderBuilder<T, F, D>)
    ensures
        builder.defect() is None <==> {
            &&& builder.function is Some
            &&& builder.tolerance is Some
            &&& builder.max_iterations is Some
            &&& match builder.method {
                RootFindingMethod::NewtonRaphson => builder.derivative is Some
                    && builder.initial_guess is Some,
                RootFindingMethod::Bisection
                | RootFindingMethod::Secant
                | RootFindingMethod::Brent => builder.boundaries is Some,
                RootFindingMethod::InverseQuadraticInterpolation => false,
            }
        },
        builder.method is NewtonRaphson && builder.derivative is None ==> builder.defect() is Some,
        (builder.method is Secant || builder.method is Bisection || builder.method is Brent)
            && builder.boundaries is None ==> builder.defect() is Some,
{
}

/// The finder of a sound configuration is fit to search once the arithmetic
/// is total and the function, and the derivative where one is set, can be
/// evaluated everywhere. Its first search numbers its rounds from 1 on.
pub proof fn lemma_built_finder_is_fit<T: Scalar, F: ScalarFn<T>, D: ScalarFn<T>>(
    builder: RootFinderBuilder<T, F, D>,
    finder: BuiltRootFinder<T, F, D>,
)
    requires
        builder.defect() is None,
        builder.describes(finder),
        total_arithmetic::<T>(),
        total(builder.function.unwrap()),
        total_if_any(builder.derivative),
    ensures
        finder.wf(),
        finder.first_round() == 1,
        finder.log() == Seq::<IterationRecord<T>>::empty(),
        match finder {
            BuiltRootFinder::Driven(driver) => driver.wf() && driver.first_round() == 1,
            BuiltRootFinder::Brent(brent) => brent.wf() && brent.first_round() == 1,
        },
{
}

/// After the first search of an assembled finder every entry of its log
/// holds as many function values as points, and the entries are numbered
/// 1, 2, 3 and so on: the numbers grow strictly and start at 1. Where the
/// configuration does not ask for a log, the log is empty.
pub proof fn lemma_first_search_log<T: Scalar, F: ScalarFn<T>, D: ScalarFn<T>>(
    builder: RootFinderBuilder<T, F, D>,
    before: BuiltRootFinder<T, F, D>,
    after: BuiltRootFinder<T, F, D>,
    res: Result<T, RootFindingError>,
)
    requires
        builder.defect() is None,
        builder.describes(before),
        built_searched(before, after, res),
    ensures
        balanced(after.log()),
        numbered_from(after.log(), 1),
        strictly_increasing(after.log()),
        builder.logs() ==> after.log().len() >= 1 && after.log()[0].iteration == 1,
        !builder.logs() ==> after.log() == Seq::<IterationRecord<T>>::empty(),
{
    lemma_numbered_is_increasing(after.log(), 1);
}

} // verus!
