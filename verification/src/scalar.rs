//! The numbers a search computes with.
//!
//! A [`Scalar`] brings the four operations, negation, an order and the small
//! whole numbers. Contracts speak of the operators through their
//! specifications: `a.add_spec(b)` is what `a + b` is specified to return, and
//! `a.is_lt(&b)` is what `a < b` is specified to decide.
//!
//! Two facts about a number type recur in the contracts.
//! [`total_arithmetic`] says that no operator has a precondition; the
//! functions that compute require it, since they apply the operators to
//! whatever the target function returns. [`exact_arithmetic`] says that the
//! operators return what their specifications say; where it holds a function
//! returns the value that its contract names. For a number type whose
//! operators are left unspecified, as those of floating point numbers are,
//! the contracts still state what does not depend on a computed value: that
//! the function returns, how many rounds a search makes, what it logs and
//! what it leaves unchanged. The arithmetic of the whole numbers of
//! [`crate::saturating`] is both total and exact.

use core::ops::{Add, Div, Mul, Neg, Sub};
use vstd::prelude::*;
use vstd::std_specs::cmp::{PartialEqSpec, PartialOrdIs, PartialOrdSpec};
use vstd::std_specs::convert::FromSpec;
use vstd::std_specs::ops::{AddSpec, DivSpec, MulSpec, NegSpec, SubSpec};

verus! {

/// A number type that the searches can compute with: every type with the
/// four operations, negation, an order and a conversion from `u32` is one.
pub trait Scalar:
    Copy
    + PartialOrd
    + Add<Output = Self>
    + Sub<Output = Self>
    + Mul<Output = Self>
    + Div<Output = Self>
    + Neg<Output = Self>
    + From<u32>
{
}

impl<T> Scalar for T where
    T: Copy
        + PartialOrd
        + Add<Output = T>
        + Sub<Output = T>
        + Mul<Output = T>
        + Div<Output = T>
        + Neg<Output = T>
        + From<u32>
{
}

/// Every operator of `T` may be applied to every operand: none of them has a
/// precondition. This is what lets a search run without a failure of its own
/// whatever the target function returns.
pub open spec fn total_arithmetic<T: Scalar>() -> bool {
    &&& forall|a: T, b: T| #[trigger] a.add_req(b)
    &&& forall|a: T, b: T| #[trigger] a.sub_req(b)
    &&& forall|a: T, b: T| #[trigger] a.mul_req(b)
    &&& forall|a: T, b: T| #[trigger] a.div_req(b)
    &&& forall|a: T| #[trigger] a.neg_req()
}

/// Every operator of `T` returns what its specification says. Where this
/// holds, a search's result is the value its model gives.
pub open spec fn exact_arithmetic<T: Scalar>() -> bool {
    &&& T::obeys_add_spec()
    &&& T::obeys_sub_spec()
    &&& T::obeys_mul_spec()
    &&& T::obeys_div_spec()
    &&& T::obeys_neg_spec()
    &&& T::obeys_eq_spec()
    &&& T::obeys_partial_cmp_spec()
    &&& T::obeys_from_spec()
}

/// The whole number `n` as a `T`.
pub open spec fn spec_number<T: Scalar>(n: u32) -> T {
    T::from_spec(n)
}

/// The whole number `n` as a `T`.
#[verifier::when_used_as_spec(spec_number)]
pub fn number<T: Scalar>(n: u32) -> (r: T)
    ensures
        exact_arithmetic::<T>() ==> r == spec_number::<T>(n),
{
    T::from(n)
}

/// The absolute value: `-x` where `x` is below zero, else `x`.
pub open spec fn spec_magnitude<T: Scalar>(x: T) -> T {
    if x.is_lt(&spec_number::<T>(0)) {
        x.neg_spec()
    } else {
        x
    }
}

/// The absolute value of `x`.
#[verifier::when_used_as_spec(spec_magnitude)]
pub fn magnitude<T: Scalar>(x: T) -> (r: T)
    requires
        total_arithmetic::<T>(),
    ensures
        exact_arithmetic::<T>() ==> r == spec_magnitude(x),
{
    let zero: T = number(0u32);
    if x < zero {
        x.neg()
    } else {
        x
    }
}

/// Half the sum of `a` and `b`.
pub open spec fn spec_midpoint<T: Scalar>(a: T, b: T) -> T {
    a.add_spec(b).div_spec(spec_number::<T>(2))
}

/// The point halfway between `a` and `b`, computed as `(a + b) / 2`.
#[verifier::when_used_as_spec(spec_midpoint)]
pub fn midpoint<T: Scalar>(a: T, b: T) -> (m: T)
    requires
        total_arithmetic::<T>(),
    ensures
        exact_arithmetic::<T>() ==> m == spec_midpoint(a, b),
{
    let two: T = number(2u32);
    (a + b) / two
}

/// Two to the power -52, written as `1 / (2^26 * 2^26)`.
pub open spec fn spec_stall_threshold<T: Scalar>() -> T {
    spec_number::<T>(1).div_spec(
        spec_number::<T>(67108864).mul_spec(spec_number::<T>(67108864)),
    )
}

/// The bound below which a denominator counts as zero: two to the power -52,
/// the gap between one and the next double-precision number.
#[verifier::when_used_as_spec(spec_stall_threshold)]
pub fn stall_threshold<T: Scalar>() -> (r: T)
    requires
        total_arithmetic::<T>(),
    ensures
        exact_arithmetic::<T>() ==> r == spec_stall_threshold::<T>(),
{
    let one: T = number(1u32);
    let half_power: T = number(67108864u32);
    one / (half_power * half_power)
}

/// Whether `x` is too close to zero to divide by: it is zero, or its
/// absolute value is below the stall threshold.
pub open spec fn spec_negligible<T: Scalar>(x: T) -> bool {
    x.eq_spec(&spec_number::<T>(0)) || spec_within(x, spec_stall_threshold::<T>())
}

/// Whether `x` is too close to zero to divide by.
#[verifier::when_used_as_spec(spec_negligible)]
pub fn negligible<T: Scalar>(x: T) -> (r: bool)
    requires
        total_arithmetic::<T>(),
    ensures
        exact_arithmetic::<T>() ==> r == spec_negligible(x),
{
    let zero: T = number(0u32);
    x == zero || within(x, stall_threshold())
}

/// Whether `x * y` is below zero: `x` and `y` have opposite signs.
pub open spec fn spec_opposite_signs<T: Scalar>(x: T, y: T) -> bool {
    x.mul_spec(y).is_lt(&spec_number::<T>(0))
}

/// Whether `x` and `y` have opposite signs, decided as `x * y < 0`.
#[verifier::when_used_as_spec(spec_opposite_signs)]
pub fn opposite_signs<T: Scalar>(x: T, y: T) -> (r: bool)
    requires
        total_arithmetic::<T>(),
    ensures
        exact_arithmetic::<T>() ==> r == spec_opposite_signs(x, y),
{
    let zero: T = number(0u32);
    x * y < zero
}

/// Whether `x * y` is above zero: `x` and `y` have the same sign.
pub open spec fn spec_same_signs<T: Scalar>(x: T, y: T) -> bool {
    x.mul_spec(y).is_gt(&spec_number::<T>(0))
}

/// Whether `x` and `y` have the same sign, decided as `x * y > 0`.
#[verifier::when_used_as_spec(spec_same_signs)]
pub fn same_signs<T: Scalar>(x: T, y: T) -> (r: bool)
    requires
        total_arithmetic::<T>(),
    ensures
        exact_arithmetic::<T>() ==> r == spec_same_signs(x, y),
{
    let zero: T = number(0u32);
    x * y > zero
}

/// Whether the absolute value of `x` is below `bound`.
pub open spec fn spec_within<T: Scalar>(x: T, bound: T) -> bool {
    spec_magnitude(x).is_lt(&bound)
}

/// Whether the absolute value of `x` is below `bound`.
#[verifier::when_used_as_spec(spec_within)]
pub fn within<T: Scalar>(x: T, bound: T) -> (r: bool)
    requires
        total_arithmetic::<T>(),
    ensures
        exact_arithmetic::<T>() ==> r == spec_within(x, bound),
{
    magnitude(x) < bound
}

} // verus!
