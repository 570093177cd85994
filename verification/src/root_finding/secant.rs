//! The secant method: from two points, follow the line through them to where
//! it crosses zero.

use crate::root_finding::{RootFinder, RootFindingError};
use crate::scalar::{
    exact_arithmetic, negligible, spec_negligible, spec_within, total_arithmetic, within, Scalar,
};
use vstd::prelude::*;
use vstd::std_specs::ops::{DivSpec, MulSpec, SubSpec};

verus! {

/// The secant strategy. It evaluates its two latest points in each round.
pub struct SecantRootFinder<T> {
    /// The point before the latest.
    pub x0: T,
    /// The latest point.
    pub x1: T,
    /// The point computed last; `x1` before any is computed.
    pub x2: T,
    /// The search ends when the two points are closer than this.
    pub tolerance: T,
}

/// The point where the line through `(x0, f0)` and `(x1, f1)` crosses zero:
/// `x1 - f1 * (x1 - x0) / (f1 - f0)`.
pub open spec fn secant_step<T: Scalar>(x0: T, x1: T, f0: T, f1: T) -> T {
    x1.sub_spec(f1.mul_spec(x1.sub_spec(x0)).div_spec(f1.sub_spec(f0)))
}

impl<T: Scalar> RootFinder<T> for SecantRootFinder<T> {
    open spec fn wf(&self) -> bool {
        total_arithmetic::<T>()
    }

    open spec fn arity(&self) -> nat {
        2
    }

    open spec fn uses_derivative(&self) -> bool {
        false
    }

    open spec fn exact() -> bool {
        exact_arithmetic::<T>()
    }

    /// The first points are the two current ones; the state stays.
    open spec fn init_model(self) -> (Self, Seq<T>) {
        (self, seq![self.x0, self.x1])
    }

    /// The latest point becomes the one before, and the point where the
    /// secant crosses zero becomes the latest.
    open spec fn next_model(self, fx: Seq<T>, dfx: Seq<T>) -> (Self, Seq<T>) {
        let x2 = secant_step(self.x0, self.x1, fx[0], fx[1]);
        (
            SecantRootFinder { x0: self.x1, x1: x2, x2, tolerance: self.tolerance },
            seq![self.x1, x2],
        )
    }

    /// The search ends with the point computed last where the two points
    /// are closer than the tolerance; else it fails where the two function
    /// values are equal or differ by less than the stall threshold, so that
    /// their difference is too close to zero to divide by; else it goes on.
    open spec fn stop_model(self, fx: Seq<T>, dfx: Seq<T>) -> Option<Result<T, RootFindingError>> {
        if spec_within(self.x0.sub_spec(self.x1), self.tolerance) {
            Some(Ok(self.x2))
        } else if spec_negligible(fx[0].sub_spec(fx[1])) {
            Some(Err(RootFindingError::DenominatorTooSmall))
        } else {
            None
        }
    }

    fn get_init_args(&mut self) -> (args: Vec<T>)
        ensures
            *final(self) == *old(self),
            args@ == seq![old(self).x0, old(self).x1],
    {
        vec![self.x0, self.x1]
    }

    fn get_next_args(&mut self, fx: &[T], dfx: &[T]) -> (args: Vec<T>)
        ensures
            final(self).x0 == old(self).x1,
            final(self).x1 == final(self).x2,
            final(self).tolerance == old(self).tolerance,
            args@ == seq![final(self).x0, final(self).x1],
    {
        self.x2 = self.x1 - fx[1] * (self.x1 - self.x0) / (fx[1] - fx[0]);
        self.x0 = self.x1;
        self.x1 = self.x2;
        vec![self.x0, self.x1]
    }

    fn should_stop(&self, fx: &[T], dfx: &[T]) -> (stop: Option<Result<T, RootFindingError>>)
        ensures
            stop matches Some(Ok(root)) ==> root == self.x2,
            stop matches Some(Err(error)) ==> error == RootFindingError::DenominatorTooSmall,
    {
        if within(self.x0 - self.x1, self.tolerance) {
            return Some(Ok(self.x2));
        }
        if negligible(fx[0] - fx[1]) {
            return Some(Err(RootFindingError::DenominatorTooSmall));
        }
        None
    }
}

/// Where the two points are not closer than the tolerance and the
/// difference of the two function values is zero, or too close to zero to
/// divide by, the strategy fails with `DenominatorTooSmall`: it does not go
/// on to divide. It fails in no other case, and it ends with a root only
/// where the two points are closer than the tolerance.
pub proof fn lemma_secant_stalls<T: Scalar>(finder: SecantRootFinder<T>, fx: Seq<T>, dfx: Seq<T>)
    ensures
        ({
            let converged = spec_within(finder.x0.sub_spec(finder.x1), finder.tolerance);
            let stalled = spec_negligible(fx[0].sub_spec(fx[1]));
            let stop = finder.stop_model(fx, dfx);
            let failure = Some(Err::<T, RootFindingError>(RootFindingError::DenominatorTooSmall));
            &&& converged <==> stop == Some(Ok::<T, RootFindingError>(finder.x2))
            &&& stalled && !converged <==> stop == failure
            &&& stop matches Some(Err(_)) ==> stop == failure
            &&& !stalled && !converged <==> stop is None
        }),
{
}

} // verus!
