//! The functions a search evaluates.

use crate::root_finding::convergencelog::IterationRecord;
use vstd::prelude::*;

verus! {

/// A function from numbers to numbers that a search can evaluate: the target
/// function, or its derivative.
///
/// Every closure and function of one argument is one. What is known of a
/// value is what the function itself ensures of it.
pub trait ScalarFn<T> {
    /// The function may be evaluated at `x`.
    spec fn defined_at(&self, x: T) -> bool;

    /// `y` is a value that an evaluation at `x` can return.
    spec fn maps(&self, x: T, y: T) -> bool;

    /// Evaluates the function at `x`.
    fn eval(&self, x: T) -> (y: T)
        requires
            self.defined_at(x),
        ensures
            self.maps(x, y),
    ;
}

impl<T, F: Fn(T) -> T> ScalarFn<T> for F {
    open spec fn defined_at(&self, x: T) -> bool {
        self.requires((x,))
    }

    open spec fn maps(&self, x: T, y: T) -> bool {
        self.ensures((x,), y)
    }

    fn eval(&self, x: T) -> (y: T) {
        self(x)
    }
}

/// Stands in a builder's type for a function that has not been supplied.
/// A builder never holds a value of it; evaluated, it returns its argument.
pub struct Unset;

impl<T> ScalarFn<T> for Unset {
    open spec fn defined_at(&self, x: T) -> bool {
        true
    }

    open spec fn maps(&self, x: T, y: T) -> bool {
        y == x
    }

    fn eval(&self, x: T) -> (y: T) {
        x
    }
}

/// The function may be evaluated everywhere.
pub open spec fn total<T, F: ScalarFn<T>>(f: F) -> bool {
    forall|x: T| #[trigger] f.defined_at(x)
}

/// The value of `f` at `x`, where `f` is single-valued.
pub open spec fn value<T, F: ScalarFn<T>>(f: F, x: T) -> T {
    choose|y: T| f.maps(x, y)
}

/// Evaluating `f` twice at one point gives one value.
pub open spec fn single_valued<T, F: ScalarFn<T>>(f: F) -> bool {
    forall|x: T, y: T| #[trigger] f.maps(x, y) ==> y == value(f, x)
}

/// `f` as a function of mathematics: it takes each point to the value of
/// `f` there.
pub open spec fn as_spec<T, F: ScalarFn<T>>(f: F) -> spec_fn(T) -> T {
    |x: T| value(f, x)
}

/// What `f` takes the points of `xs` to, in order.
pub open spec fn image<T>(f: spec_fn(T) -> T, xs: Seq<T>) -> Seq<T> {
    Seq::new(xs.len(), |i: int| f(xs[i]))
}

/// The values of `f` at the points of `xs`, in order.
pub open spec fn values<T, F: ScalarFn<T>>(f: F, xs: Seq<T>) -> Seq<T> {
    image(as_spec(f), xs)
}

/// Each of `ys` is a value of `f` at the point of `xs` in the same place.
pub open spec fn maps_all<T, F: ScalarFn<T>>(f: F, xs: Seq<T>, ys: Seq<T>) -> bool {
    &&& xs.len() == ys.len()
    &&& forall|i: int| 0 <= i < xs.len() ==> f.maps(#[trigger] xs[i], ys[i])
}

/// Every record holds function values of `f` at its points.
pub open spec fn records_of<T, F: ScalarFn<T>>(f: F, records: Seq<IterationRecord<T>>) -> bool {
    forall|i: int|
        0 <= i < records.len() ==> maps_all(f, (#[trigger] records[i]).x, records[i].fx)
}

/// At the points of every record `f` takes its value: an evaluation there
/// has returned it.
pub open spec fn seen_at<T, F: ScalarFn<T>>(f: F, records: Seq<IterationRecord<T>>) -> bool {
    forall|i: int|
        0 <= i < records.len() ==> maps_all(
            f,
            (#[trigger] records[i]).x,
            values(f, records[i].x),
        )
}

/// A function of one argument is a [`ScalarFn`] by its own contract: it is
/// defined where its precondition holds, and it maps as its postcondition
/// says.
pub proof fn lemma_function_is_scalar_fn<T, F: Fn(T) -> T>(f: F)
    ensures
        forall|x: T| #[trigger] f.defined_at(x) == f.requires((x,)),
        forall|x: T, y: T| #[trigger] f.maps(x, y) == f.ensures((x,), y),
{
}

/// Evaluates `f` at every point of `xs`.
pub fn evaluate<T: Copy, F: ScalarFn<T>>(f: &F, xs: &Vec<T>) -> (ys: Vec<T>)
    requires
        total(*f),
    ensures
        maps_all(*f, xs@, ys@),
        single_valued(*f) ==> ys@ == values(*f, xs@),
{
    let mut ys: Vec<T> = Vec::new();
    let mut i: usize = 0;
    while i < xs.len()
        invariant
            total(*f),
            i <= xs.len(),
            ys@.len() == i,
            forall|k: int| 0 <= k < i ==> f.maps(#[trigger] xs@[k], ys@[k]),
        decreases xs.len() - i,
    {
        let y = f.eval(xs[i]);
        ys.push(y);
        i += 1;
    }
    ys
}

} // verus!
