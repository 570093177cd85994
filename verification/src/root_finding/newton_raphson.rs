//! The method of Newton and Raphson: from a point, follow the tangent to
//! where it crosses zero.

use crate::root_finding::{RootFinder, RootFindingError};
use crate::scalar::{
    exact_arithmetic, negligible, number, spec_negligible, spec_number, spec_within,
    total_arithmetic, within, Scalar,
};
use vstd::prelude::*;
use vstd::std_specs::cmp::PartialEqSpec;
use vstd::std_specs::ops::{DivSpec, SubSpec};

verus! {

/// The strategy of Newton and Raphson. It evaluates one point in each round
/// and reads the derivative there.
pub struct NewtonRaphsonRootFinder<T> {
    /// The current point.
    pub x0: T,
    /// The search ends when a step is smaller than this.
    pub tolerance: T,
}

/// The point where the tangent at `x`, with function value `fx` and slope
/// `dfx`, crosses zero: `x - fx / dfx`.
pub open spec fn newton_step<T: Scalar>(x: T, fx: T, dfx: T) -> T {
    x.sub_spec(fx.div_spec(dfx))
}

impl<T: Scalar> RootFinder<T> for NewtonRaphsonRootFinder<T> {
    open spec fn wf(&self) -> bool {
        total_arithmetic::<T>()
    }

    open spec fn arity(&self) -> nat {
        1
    }

    open spec fn uses_derivative(&self) -> bool {
        true
    }

    open spec fn exact() -> bool {
        exact_arithmetic::<T>()
    }

    /// The first point is the current one; the state stays.
    open spec fn init_model(self) -> (Self, Seq<T>) {
        (self, seq![self.x0])
    }

    /// The current point moves to where the tangent crosses zero.
    open spec fn next_model(self, fx: Seq<T>, dfx: Seq<T>) -> (Self, Seq<T>) {
        let x = newton_step(self.x0, fx[0], dfx[0]);
        (NewtonRaphsonRootFinder { x0: x, tolerance: self.tolerance }, seq![x])
    }

    /// The search fails where the derivative is zero. Else it ends with the
    /// next point where the step to it is smaller than the tolerance; else
    /// it fails where the derivative is below the stall threshold; else it
    /// goes on.
    open spec fn stop_model(self, fx: Seq<T>, dfx: Seq<T>) -> Option<Result<T, RootFindingError>> {
        let candidate = newton_step(self.x0, fx[0], dfx[0]);
        if dfx[0].eq_spec(&spec_number::<T>(0)) {
            Some(Err(RootFindingError::DerivativeTooSmall))
        } else if spec_within(self.x0.sub_spec(candidate), self.tolerance) {
            Some(Ok(candidate))
        } else if spec_negligible(dfx[0]) {
            Some(Err(RootFindingError::DerivativeTooSmall))
        } else {
            None
        }
    }

    fn get_init_args(&mut self) -> (args: Vec<T>)
        ensures
            *final(self) == *old(self),
            args@ == seq![old(self).x0],
    {
        vec![self.x0]
    }

    fn get_next_args(&mut self, fx: &[T], dfx: &[T]) -> (args: Vec<T>)
        ensures
            final(self).tolerance == old(self).tolerance,
            args@ == seq![final(self).x0],
    {
        self.x0 = self.x0 - fx[0] / dfx[0];
        vec![self.x0]
    }

    fn should_stop(&self, fx: &[T], dfx: &[T]) -> (stop: Option<Result<T, RootFindingError>>)
        ensures
            stop matches Some(Err(error)) ==> error == RootFindingError::DerivativeTooSmall,
    {
        let zero: T = number(0u32);
        if dfx[0] == zero {
            return Some(Err(RootFindingError::DerivativeTooSmall));
        }
        let candidate = self.x0 - fx[0] / dfx[0];
        if within(self.x0 - candidate, self.tolerance) {
            return Some(Ok(candidate));
        }
        if negligible(dfx[0]) {
            return Some(Err(RootFindingError::DerivativeTooSmall));
        }
        None
    }
}

/// With a derivative of zero the strategy fails with `DerivativeTooSmall`,
/// whatever the function value and the tolerance: it does not divide by
/// zero. With a derivative that is too close to zero to divide by it never
/// goes on to a next point: it ends with the point one step away where the
/// step is smaller than the tolerance, and else it fails with
/// `DerivativeTooSmall`. It fails in no other case, and it ends with a root
/// only where the step to it is smaller than the tolerance.
pub proof fn lemma_newton_stalls<T: Scalar>(
    finder: NewtonRaphsonRootFinder<T>,
    fx: Seq<T>,
    dfx: Seq<T>,
)
    ensures
        ({
            let candidate = newton_step(finder.x0, fx[0], dfx[0]);
            let converged = spec_within(finder.x0.sub_spec(candidate), finder.tolerance);
            let vanishing = dfx[0].eq_spec(&spec_number::<T>(0));
            let stalled = spec_negligible(dfx[0]);
            let stop = finder.stop_model(fx, dfx);
            let failure = Some(Err::<T, RootFindingError>(RootFindingError::DerivativeTooSmall));
            &&& vanishing ==> stop == failure
            &&& stalled ==> stop is Some
            &&& stalled && !converged ==> stop == failure
            &&& stop matches Some(Err(_)) ==> stalled && stop == failure
            &&& stop matches Some(Ok(root)) ==> converged && root == candidate
            &&& converged && !vanishing ==> stop == Some(Ok::<T, RootFindingError>(candidate))
        }),
{
}

} // verus!
