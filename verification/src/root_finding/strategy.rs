//! The strategies that the driver can run, as one type.

use crate::root_finding::bisection::BisectionRootFinder;
use crate::root_finding::newton_raphson::NewtonRaphsonRootFinder;
use crate::root_finding::secant::SecantRootFinder;
use crate::root_finding::{RootFinder, RootFindingError};
use crate::scalar::{exact_arithmetic, total_arithmetic, Scalar};
use vstd::prelude::*;

verus! {

/// One of the strategies that the driver can run. Each method does what the
/// strategy inside does.
pub enum Strategy<T> {
    Bisection(BisectionRootFinder<T>),
    Secant(SecantRootFinder<T>),
    NewtonRaphson(NewtonRaphsonRootFinder<T>),
}

/// Whether `a` and `b` hold the same kind of strategy.
pub open spec fn same_kind<T>(a: Strategy<T>, b: Strategy<T>) -> bool {
    match (a, b) {
        (Strategy::Bisection(_), Strategy::Bisection(_)) => true,
        (Strategy::Secant(_), Strategy::Secant(_)) => true,
        (Strategy::NewtonRaphson(_), Strategy::NewtonRaphson(_)) => true,
        _ => false,
    }
}

impl<T: Scalar> RootFinder<T> for Strategy<T> {
    open spec fn wf(&self) -> bool {
        total_arithmetic::<T>()
    }

    open spec fn arity(&self) -> nat {
        match self {
            Strategy::Bisection(finder) => finder.arity(),
            Strategy::Secant(finder) => finder.arity(),
            Strategy::NewtonRaphson(finder) => finder.arity(),
        }
    }

    open spec fn uses_derivative(&self) -> bool {
        match self {
            Strategy::Bisection(finder) => finder.uses_derivative(),
            Strategy::Secant(finder) => finder.uses_derivative(),
            Strategy::NewtonRaphson(finder) => finder.uses_derivative(),
        }
    }

    open spec fn exact() -> bool {
        exact_arithmetic::<T>()
    }

    open spec fn init_model(self) -> (Self, Seq<T>) {
        match self {
            Strategy::Bisection(finder) => {
                let (next, args) = finder.init_model();
                (Strategy::Bisection(next), args)
            },
            Strategy::Secant(finder) => {
                let (next, args) = finder.init_model();
                (Strategy::Secant(next), args)
            },
            Strategy::NewtonRaphson(finder) => {
                let (next, args) = finder.init_model();
                (Strategy::NewtonRaphson(next), args)
            },
        }
    }

    open spec fn next_model(self, fx: Seq<T>, dfx: Seq<T>) -> (Self, Seq<T>) {
        match self {
            Strategy::Bisection(finder) => {
                let (next, args) = finder.next_model(fx, dfx);
                (Strategy::Bisection(next), args)
            },
            Strategy::Secant(finder) => {
                let (next, args) = finder.next_model(fx, dfx);
                (Strategy::Secant(next), args)
            },
            Strategy::NewtonRaphson(finder) => {
                let (next, args) = finder.next_model(fx, dfx);
                (Strategy::NewtonRaphson(next), args)
            },
        }
    }

    open spec fn stop_model(self, fx: Seq<T>, dfx: Seq<T>) -> Option<Result<T, RootFindingError>> {
        match self {
            Strategy::Bisection(finder) => finder.stop_model(fx, dfx),
            Strategy::Secant(finder) => finder.stop_model(fx, dfx),
            Strategy::NewtonRaphson(finder) => finder.stop_model(fx, dfx),
        }
    }

    fn get_init_args(&mut self) -> (args: Vec<T>)
        ensures
            same_kind(*old(self), *final(self)),
    {
        match self {
            Strategy::Bisection(finder) => finder.get_init_args(),
            Strategy::Secant(finder) => finder.get_init_args(),
            Strategy::NewtonRaphson(finder) => finder.get_init_args(),
        }
    }

    fn get_next_args(&mut self, fx: &[T], dfx: &[T]) -> (args: Vec<T>)
        ensures
            same_kind(*old(self), *final(self)),
    {
        match self {
            Strategy::Bisection(finder) => finder.get_next_args(fx, dfx),
            Strategy::Secant(finder) => finder.get_next_args(fx, dfx),
            Strategy::NewtonRaphson(finder) => finder.get_next_args(fx, dfx),
        }
    }

    fn should_stop(&self, fx: &[T], dfx: &[T]) -> (stop: Option<Result<T, RootFindingError>>) {
        match self {
            Strategy::Bisection(finder) => finder.should_stop(fx, dfx),
            Strategy::Secant(finder) => finder.should_stop(fx, dfx),
            Strategy::NewtonRaphson(finder) => finder.should_stop(fx, dfx),
        }
    }
}

} // verus!
