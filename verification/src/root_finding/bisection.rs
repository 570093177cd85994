//! Bisection: keep a pair of points and halve the stretch between them.

use crate::root_finding::{RootFinder, RootFindingError};
use crate::scalar::{
    exact_arithmetic, midpoint, number, opposite_signs, spec_midpoint, spec_number,
    spec_opposite_signs, spec_within, total_arithmetic, within, Scalar,
};
use vstd::prelude::*;
use vstd::std_specs::ops::{MulSpec, SubSpec};

verus! {

/// The bisection strategy. It evaluates the two ends of its stretch in each
/// round.
pub struct BisectionRootFinder<T> {
    /// The left end of the stretch.
    pub x0: T,
    /// The right end of the stretch.
    pub x1: T,
    /// The search ends when the width of the stretch, or the function value
    /// at the end set last, is smaller than this.
    pub tolerance: T,
    /// Whether the step before set the right end, and so looked at the left
    /// half.
    pub search_left: bool,
}

/// The right end that lies as far beyond `x1` as `x0` lies before it:
/// `x1 * 2 - x0`.
pub open spec fn mirrored<T: Scalar>(x0: T, x1: T) -> T {
    x1.mul_spec(spec_number::<T>(2)).sub_spec(x0)
}

impl<T: Scalar> RootFinder<T> for BisectionRootFinder<T> {
    open spec fn wf(&self) -> bool {
        total_arithmetic::<T>()
    }

    open spec fn arity(&self) -> nat {
        2
    }

    open spec fn uses_derivative(&self) -> bool {
        false
    }

    open spec fn exact() -> bool {
        exact_arithmetic::<T>()
    }

    /// The right end moves to the midpoint; the first points are the two
    /// ends of the left half.
    open spec fn init_model(self) -> (Self, Seq<T>) {
        let mid = spec_midpoint(self.x0, self.x1);
        (
            BisectionRootFinder {
                x0: self.x0,
                x1: mid,
                tolerance: self.tolerance,
                search_left: self.search_left,
            },
            seq![self.x0, mid],
        )
    }

    /// Where the two function values have opposite signs the right end
    /// moves to the midpoint. Else the right end moves out to where it was
    /// before the last halving, and the left end moves to the midpoint of
    /// the widened stretch.
    open spec fn next_model(self, fx: Seq<T>, dfx: Seq<T>) -> (Self, Seq<T>) {
        if spec_opposite_signs(fx[0], fx[1]) {
            let mid = spec_midpoint(self.x0, self.x1);
            (
                BisectionRootFinder {
                    x0: self.x0,
                    x1: mid,
                    tolerance: self.tolerance,
                    search_left: true,
                },
                seq![self.x0, mid],
            )
        } else {
            let right = mirrored(self.x0, self.x1);
            let mid = spec_midpoint(self.x0, right);
            (
                BisectionRootFinder {
                    x0: mid,
                    x1: right,
                    tolerance: self.tolerance,
                    search_left: false,
                },
                seq![mid, right],
            )
        }
    }

    /// The search ends with the midpoint of the stretch where the function
    /// value at the end set last is smaller than the tolerance, or where the
    /// width of the stretch, the absolute value of `x1 - x0`, is; else it
    /// goes on.
    open spec fn stop_model(self, fx: Seq<T>, dfx: Seq<T>) -> Option<Result<T, RootFindingError>> {
        let at_moved_end = if self.search_left {
            fx[1]
        } else {
            fx[0]
        };
        if spec_within(at_moved_end, self.tolerance) || spec_within(
            self.x1.sub_spec(self.x0),
            self.tolerance,
        ) {
            Some(Ok(spec_midpoint(self.x0, self.x1)))
        } else {
            None
        }
    }

    fn get_init_args(&mut self) -> (args: Vec<T>)
        ensures
            final(self).x0 == old(self).x0,
            final(self).tolerance == old(self).tolerance,
            final(self).search_left == old(self).search_left,
            args@ == seq![final(self).x0, final(self).x1],
    {
        let mid = midpoint(self.x0, self.x1);
        self.x1 = mid;
        vec![self.x0, self.x1]
    }

    fn get_next_args(&mut self, fx: &[T], dfx: &[T]) -> (args: Vec<T>)
        ensures
            final(self).tolerance == old(self).tolerance,
            final(self).search_left ==> final(self).x0 == old(self).x0,
            args@ == seq![final(self).x0, final(self).x1],
    {
        if opposite_signs(fx[0], fx[1]) {
            let mid = midpoint(self.x0, self.x1);
            self.x1 = mid;
            self.search_left = true;
        } else {
            let two: T = number(2u32);
            self.x1 = self.x1 * two - self.x0;
            let mid = midpoint(self.x0, self.x1);
            self.x0 = mid;
            self.search_left = false;
        }
        vec![self.x0, self.x1]
    }

    fn should_stop(&self, fx: &[T], dfx: &[T]) -> (stop: Option<Result<T, RootFindingError>>)
        ensures
            !(stop matches Some(Err(_))),
    {
        let at_moved_end = if self.search_left {
            fx[1]
        } else {
            fx[0]
        };
        let mid = midpoint(self.x0, self.x1);
        if within(at_moved_end, self.tolerance) || within(self.x1 - self.x0, self.tolerance) {
            return Some(Ok(mid));
        }
        None
    }
}

/// Bisection ends exactly where the function value at the end set last, or
/// the width of the stretch, is smaller than the tolerance, and then with
/// the midpoint of the stretch. It never fails.
pub proof fn lemma_bisection_stops<T: Scalar>(
    finder: BisectionRootFinder<T>,
    fx: Seq<T>,
    dfx: Seq<T>,
)
    ensures
        ({
            let at_moved_end = if finder.search_left {
                fx[1]
            } else {
                fx[0]
            };
            let small_value = spec_within(at_moved_end, finder.tolerance);
            let narrow = spec_within(finder.x1.sub_spec(finder.x0), finder.tolerance);
            let stop = finder.stop_model(fx, dfx);
            &&& small_value || narrow <==> stop == Some(
                Ok::<T, RootFindingError>(spec_midpoint(finder.x0, finder.x1)),
            )
            &&& !(small_value || narrow) <==> stop is None
            &&& !(stop matches Some(Err(_)))
        }),
{
}

} // verus!
