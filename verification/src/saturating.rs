//! Whole numbers whose arithmetic never fails: a result beyond the range of
//! the type is held at the end of the range, and a division by zero gives the
//! end of the range on the side of the dividend.
//!
//! [`SaturatingInt`] is a [`crate::scalar::Scalar`] with total and exact
//! arithmetic, so that every function of the library can be called on it and
//! returns the value that its contract names.

use crate::scalar::{exact_arithmetic, spec_negligible, spec_stall_threshold, total_arithmetic};
use core::cmp::Ordering;
use core::ops::{Add, Div, Mul, Neg, Sub};
use vstd::prelude::*;
use vstd::std_specs::cmp::{PartialEqSpecImpl, PartialOrdSpecImpl};
use vstd::std_specs::convert::FromSpecImpl;
use vstd::std_specs::ops::{AddSpecImpl, DivSpecImpl, MulSpecImpl, NegSpecImpl, SubSpecImpl};

verus! {

/// A whole number with saturating arithmetic.
#[derive(Debug, Clone, Copy)]
pub struct SaturatingInt(pub i64);

/// The number of the type nearest to `v`.
pub open spec fn spec_clamp(v: int) -> i64 {
    if v > i64::MAX {
        i64::MAX
    } else if v < i64::MIN {
        i64::MIN
    } else {
        v as i64
    }
}

/// The number of the type nearest to `v`.
pub fn clamp(v: i128) -> (r: i64)
    ensures
        r == spec_clamp(v as int),
{
    if v > i64::MAX as i128 {
        i64::MAX
    } else if v < i64::MIN as i128 {
        i64::MIN
    } else {
        v as i64
    }
}

/// The quotient of `a` by `b` rounded toward zero, for a divisor other than
/// zero.
pub open spec fn quotient(a: int, b: int) -> int {
    let magnitude = (if a < 0 { -a } else { a }) / (if b < 0 { -b } else { b });
    if (a < 0) == (b < 0) {
        magnitude
    } else {
        -magnitude
    }
}

/// What a division gives: the quotient rounded toward zero, held in the
/// range of the type; and for a divisor of zero the largest number for a
/// positive dividend, the smallest for a negative one, zero for zero.
pub open spec fn spec_divide(a: i64, b: i64) -> i64 {
    if b != 0 {
        spec_clamp(quotient(a as int, b as int))
    } else if a > 0 {
        i64::MAX
    } else if a < 0 {
        i64::MIN
    } else {
        0
    }
}

/// What a division gives.
#[verifier::when_used_as_spec(spec_divide)]
pub fn divide(a: i64, b: i64) -> (r: i64)
    ensures
        r == spec_divide(a, b),
{
    if b == 0 {
        if a > 0 {
            i64::MAX
        } else if a < 0 {
            i64::MIN
        } else {
            0
        }
    } else {
        let wide_a: i128 = a as i128;
        let wide_b: i128 = b as i128;
        let size_a: i128 = if wide_a < 0 { -wide_a } else { wide_a };
        let size_b: i128 = if wide_b < 0 { -wide_b } else { wide_b };
        let magnitude: i128 = size_a / size_b;
        if (a < 0) == (b < 0) {
            clamp(magnitude)
        } else {
            clamp(-magnitude)
        }
    }
}

impl Add for SaturatingInt {
    type Output = SaturatingInt;

    fn add(self, rhs: SaturatingInt) -> (sum: SaturatingInt) {
        SaturatingInt(clamp(self.0 as i128 + rhs.0 as i128))
    }
}

impl AddSpecImpl for SaturatingInt {
    open spec fn obeys_add_spec() -> bool {
        true
    }

    open spec fn add_req(self, rhs: SaturatingInt) -> bool {
        true
    }

    open spec fn add_spec(self, rhs: SaturatingInt) -> SaturatingInt {
        SaturatingInt(spec_clamp(self.0 + rhs.0))
    }
}

impl Sub for SaturatingInt {
    type Output = SaturatingInt;

    fn sub(self, rhs: SaturatingInt) -> (difference: SaturatingInt) {
        SaturatingInt(clamp(self.0 as i128 - rhs.0 as i128))
    }
}

impl SubSpecImpl for SaturatingInt {
    open spec fn obeys_sub_spec() -> bool {
        true
    }

    open spec fn sub_req(self, rhs: SaturatingInt) -> bool {
        true
    }

    open spec fn sub_spec(self, rhs: SaturatingInt) -> SaturatingInt {
        SaturatingInt(spec_clamp(self.0 - rhs.0))
    }
}

impl Mul for SaturatingInt {
    type Output = SaturatingInt;

    fn mul(self, rhs: SaturatingInt) -> (product: SaturatingInt) {
        let a: i128 = self.0 as i128;
        let b: i128 = rhs.0 as i128;
        assert(-0x4000_0000_0000_0000_0000_0000_0000_0000 <= a * b
            <= 0x4000_0000_0000_0000_0000_0000_0000_0000) by (nonlinear_arith)
            requires
                -0x8000_0000_0000_0000 <= a <= 0x8000_0000_0000_0000,
                -0x8000_0000_0000_0000 <= b <= 0x8000_0000_0000_0000,
        ;
        SaturatingInt(clamp(a * b))
    }
}

impl MulSpecImpl for SaturatingInt {
    open spec fn obeys_mul_spec() -> bool {
        true
    }

    open spec fn mul_req(self, rhs: SaturatingInt) -> bool {
        true
    }

    open spec fn mul_spec(self, rhs: SaturatingInt) -> SaturatingInt {
        SaturatingInt(spec_clamp(self.0 * rhs.0))
    }
}

impl Div for SaturatingInt {
    type Output = SaturatingInt;

    fn div(self, rhs: SaturatingInt) -> (quotient: SaturatingInt) {
        SaturatingInt(divide(self.0, rhs.0))
    }
}

impl DivSpecImpl for SaturatingInt {
    open spec fn obeys_div_spec() -> bool {
        true
    }

    open spec fn div_req(self, rhs: SaturatingInt) -> bool {
        true
    }

    open spec fn div_spec(self, rhs: SaturatingInt) -> SaturatingInt {
        SaturatingInt(spec_divide(self.0, rhs.0))
    }
}

impl Neg for SaturatingInt {
    type Output = SaturatingInt;

    fn neg(self) -> (negated: SaturatingInt) {
        SaturatingInt(clamp(-(self.0 as i128)))
    }
}

impl NegSpecImpl for SaturatingInt {
    open spec fn obeys_neg_spec() -> bool {
        true
    }

    open spec fn neg_req(self) -> bool {
        true
    }

    open spec fn neg_spec(self) -> SaturatingInt {
        SaturatingInt(spec_clamp(-self.0))
    }
}

impl From<u32> for SaturatingInt {
    fn from(n: u32) -> (number: SaturatingInt) {
        SaturatingInt(n as i64)
    }
}

impl FromSpecImpl<u32> for SaturatingInt {
    open spec fn obeys_from_spec() -> bool {
        true
    }

    open spec fn from_spec(n: u32) -> SaturatingInt {
        SaturatingInt(n as i64)
    }
}

impl PartialEq for SaturatingInt {
    fn eq(&self, other: &SaturatingInt) -> (equal: bool) {
        self.0 == other.0
    }
}

impl PartialEqSpecImpl for SaturatingInt {
    open spec fn obeys_eq_spec() -> bool {
        true
    }

    open spec fn eq_spec(&self, other: &SaturatingInt) -> bool {
        self.0 == other.0
    }
}

impl PartialOrd for SaturatingInt {
    fn partial_cmp(&self, other: &SaturatingInt) -> (order: Option<Ordering>) {
        if self.0 < other.0 {
            Some(Ordering::Less)
        } else if self.0 == other.0 {
            Some(Ordering::Equal)
        } else {
            Some(Ordering::Greater)
        }
    }
}

impl PartialOrdSpecImpl for SaturatingInt {
    open spec fn obeys_partial_cmp_spec() -> bool {
        true
    }

    open spec fn partial_cmp_spec(&self, other: &SaturatingInt) -> Option<Ordering> {
        if self.0 < other.0 {
            Some(Ordering::Less)
        } else if self.0 == other.0 {
            Some(Ordering::Equal)
        } else {
            Some(Ordering::Greater)
        }
    }
}

/// The arithmetic of [`SaturatingInt`] is total and exact.
pub proof fn lemma_saturating_arithmetic()
    ensures
        total_arithmetic::<SaturatingInt>(),
        exact_arithmetic::<SaturatingInt>(),
{
}

/// Among the whole numbers the stall threshold is zero: two to the power -52
/// rounds toward zero. So zero is the one number too close to zero to divide
/// by.
pub proof fn lemma_saturating_stall_threshold()
    ensures
        spec_stall_threshold::<SaturatingInt>() == SaturatingInt(0),
        forall|x: SaturatingInt| #[trigger] spec_negligible(x) <==> x.0 == 0,
{
    assert(67108864 * 67108864 == 4503599627370496int) by (nonlinear_arith);
}

} // verus!
