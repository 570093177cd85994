//! Interpolation through a table of points: between two neighbouring points
//! the curve is a polynomial of degree up to three, or a constant.

use crate::scalar::{exact_arithmetic, number, spec_number, total_arithmetic, Scalar};
use vstd::prelude::*;
use vstd::std_specs::cmp::PartialOrdIs;
use vstd::std_specs::ops::{AddSpec, DivSpec, MulSpec, SubSpec};

verus! {

/// How the curve runs between two neighbouring points of the table.
#[derive(Debug)]
pub enum InterpolationType {
    /// A straight line between the two points.
    Linear,
    /// A quadratic spline.
    Quadratic,
    /// A natural cubic spline.
    Cubic,
    /// The value at the point before.
    ConstantBackward,
    /// The value at the point after.
    ConstantForward,
}

/// What the curve does outside the table.
#[derive(Debug)]
pub enum ExtrapolationStrategy {
    /// Nothing: the curve ends with the table.
    Disabled,
    /// It keeps the value at the nearest end.
    Constant,
    /// It continues the first or last piece.
    ExtendSpline,
}

impl InterpolationType {
    /// Whether the pieces are polynomials with coefficients of their own.
    pub open spec fn spec_is_polynomial(&self) -> bool {
        self is Linear || self is Quadratic || self is Cubic
    }

    /// Whether the pieces are polynomials with coefficients of their own.
    #[verifier::when_used_as_spec(spec_is_polynomial)]
    pub fn is_polynomial(&self) -> (r: bool)
        ensures
            r == self.spec_is_polynomial(),
    {
        match self {
            InterpolationType::Linear | InterpolationType::Quadratic | InterpolationType::Cubic => true,
            _ => false,
        }
    }
}

/// The width of piece `i`: `x[i + 1] - x[i]`.
pub open spec fn run<T: Scalar>(x: Seq<T>, i: int) -> T {
    x[i + 1].sub_spec(x[i])
}

/// The height of piece `i`: `y[i + 1] - y[i]`.
pub open spec fn rise<T: Scalar>(y: Seq<T>, i: int) -> T {
    y[i + 1].sub_spec(y[i])
}

/// The slope of the chord of piece `i`.
pub open spec fn slope<T: Scalar>(x: Seq<T>, y: Seq<T>, i: int) -> T {
    rise(y, i).div_spec(run(x, i))
}

/// The quadratic coefficient of piece `i` of a quadratic spline: the change
/// of slope from the piece before, over twice that piece's width; zero for
/// the first and the last piece.
pub open spec fn quadratic_c<T: Scalar>(x: Seq<T>, y: Seq<T>, i: int) -> T {
    if 1 <= i < x.len() - 2 {
        slope(x, y, i).sub_spec(slope(x, y, i - 1)).div_spec(
            run(x, i - 1).mul_spec(spec_number::<T>(2)),
        )
    } else {
        spec_number::<T>(0)
    }
}

/// The right-hand side of the equation for the inner point `i` of a natural
/// cubic spline: `3 / run(i) * rise(i) - 3 / run(i - 1) * rise(i - 1)`.
pub open spec fn cubic_alpha<T: Scalar>(x: Seq<T>, y: Seq<T>, i: int) -> T {
    spec_number::<T>(3).div_spec(run(x, i)).mul_spec(rise(y, i)).sub_spec(
        spec_number::<T>(3).div_spec(run(x, i - 1)).mul_spec(rise(y, i - 1)),
    )
}

/// The pivot of the elimination at the inner point `i`, from the factor
/// `mu_before` of the point before:
/// `2 * (x[i + 1] - x[i - 1]) - run(i - 1) * mu_before`.
pub open spec fn cubic_pivot<T: Scalar>(x: Seq<T>, i: int, mu_before: T) -> T {
    spec_number::<T>(2).mul_spec(x[i + 1].sub_spec(x[i - 1])).sub_spec(
        run(x, i - 1).mul_spec(mu_before),
    )
}

/// The factor of the elimination at point `i`: zero at the first point, else
/// the width of piece `i` over the pivot.
pub open spec fn cubic_mu<T: Scalar>(x: Seq<T>, i: int) -> T
    decreases i,
{
    if i <= 0 {
        spec_number::<T>(0)
    } else {
        run(x, i).div_spec(cubic_pivot(x, i, cubic_mu(x, i - 1)))
    }
}

/// The right-hand side after the elimination at point `i`: zero at the first
/// point, else `(alpha(i) - run(i - 1) * z(i - 1))` over the pivot.
pub open spec fn cubic_z<T: Scalar>(x: Seq<T>, y: Seq<T>, i: int) -> T
    decreases i,
{
    if i <= 0 {
        spec_number::<T>(0)
    } else {
        cubic_alpha(x, y, i).sub_spec(run(x, i - 1).mul_spec(cubic_z(x, y, i - 1))).div_spec(
            cubic_pivot(x, i, cubic_mu(x, i - 1)),
        )
    }
}

/// The quadratic coefficient at point `j` of a natural cubic spline, by back
/// substitution: zero at the last point, else `z(j) - mu(j) * c(j + 1)`.
pub open spec fn cubic_c<T: Scalar>(x: Seq<T>, y: Seq<T>, j: int) -> T
    decreases x.len() - j,
{
    if j >= x.len() - 1 {
        spec_number::<T>(0)
    } else {
        cubic_z(x, y, j).sub_spec(cubic_mu(x, j).mul_spec(cubic_c(x, y, j + 1)))
    }
}

/// The linear coefficient of piece `j` of a natural cubic spline:
/// `rise(j) / run(j) - run(j) * (c(j + 1) + 2 * c(j)) / 3`.
pub open spec fn cubic_b<T: Scalar>(x: Seq<T>, y: Seq<T>, j: int) -> T {
    rise(y, j).div_spec(run(x, j)).sub_spec(
        run(x, j).mul_spec(
            cubic_c(x, y, j + 1).add_spec(spec_number::<T>(2).mul_spec(cubic_c(x, y, j))),
        ).div_spec(spec_number::<T>(3)),
    )
}

/// The cubic coefficient of piece `j` of a natural cubic spline:
/// `(c(j + 1) - c(j)) / (3 * run(j))`.
pub open spec fn cubic_d<T: Scalar>(x: Seq<T>, y: Seq<T>, j: int) -> T {
    cubic_c(x, y, j + 1).sub_spec(cubic_c(x, y, j)).div_spec(
        spec_number::<T>(3).mul_spec(run(x, j)),
    )
}

/// The linear coefficients of the pieces: none for the constant kinds, the
/// slopes of the chords for the linear and the quadratic kind.
pub open spec fn spline_b<T: Scalar>(x: Seq<T>, y: Seq<T>, kind: InterpolationType) -> Seq<T> {
    match kind {
        InterpolationType::Linear | InterpolationType::Quadratic => Seq::new(
            (x.len() - 1) as nat,
            |i: int| slope(x, y, i),
        ),
        InterpolationType::Cubic => Seq::new((x.len() - 1) as nat, |i: int| cubic_b(x, y, i)),
        _ => Seq::empty(),
    }
}

/// The quadratic coefficients of the pieces: none for the constant kinds,
/// zeros for the linear kind. The cubic kind has one more, for the last
/// point.
pub open spec fn spline_c<T: Scalar>(x: Seq<T>, y: Seq<T>, kind: InterpolationType) -> Seq<T> {
    match kind {
        InterpolationType::Linear => Seq::new((x.len() - 1) as nat, |i: int| spec_number::<T>(0)),
        InterpolationType::Quadratic => Seq::new(
            (x.len() - 1) as nat,
            |i: int| quadratic_c(x, y, i),
        ),
        InterpolationType::Cubic => Seq::new(x.len(), |i: int| cubic_c(x, y, i)),
        _ => Seq::empty(),
    }
}

/// The cubic coefficients of the pieces: none for the constant kinds, zeros
/// for the linear and the quadratic kind.
pub open spec fn spline_d<T: Scalar>(x: Seq<T>, y: Seq<T>, kind: InterpolationType) -> Seq<T> {
    match kind {
        InterpolationType::Linear | InterpolationType::Quadratic => Seq::new(
            (x.len() - 1) as nat,
            |i: int| spec_number::<T>(0),
        ),
        InterpolationType::Cubic => Seq::new((x.len() - 1) as nat, |i: int| cubic_d(x, y, i)),
        _ => Seq::empty(),
    }
}

/// A vector of `n` times `value`.
pub fn filled<T: Copy>(value: T, n: usize) -> (v: Vec<T>)
    ensures
        v@ == Seq::new(n as nat, |i: int| value),
{
    let mut v: Vec<T> = Vec::new();
    let mut i: usize = 0;
    while i < n
        invariant
            i <= n,
            v@ == Seq::new(i as nat, |k: int| value),
        decreases n - i,
    {
        v.push(value);
        i += 1;
        assert(v@ =~= Seq::new(i as nat, |k: int| value));
    }
    v
}

/// The slopes of the chords of the pieces.
pub fn chord_slopes<T: Scalar>(x: &[T], y: &[T]) -> (slopes: Vec<T>)
    requires
        total_arithmetic::<T>(),
        x@.len() == y@.len(),
        x@.len() >= 2,
    ensures
        slopes@.len() == x@.len() - 1,
        exact_arithmetic::<T>() ==> slopes@ == Seq::new(
            (x@.len() - 1) as nat,
            |i: int| slope(x@, y@, i),
        ),
{
    let n: usize = x.len() - 1;
    let mut slopes: Vec<T> = Vec::new();
    let mut i: usize = 0;
    while i < n
        invariant
            total_arithmetic::<T>(),
            x@.len() == y@.len(),
            n == x@.len() - 1,
            i <= n,
            slopes@.len() == i,
            exact_arithmetic::<T>() ==> forall|k: int|
                0 <= k < i ==> slopes@[k] == slope(x@, y@, k),
        decreases n - i,
    {
        slopes.push((y[i + 1] - y[i]) / (x[i + 1] - x[i]));
        i += 1;
    }
    assert(exact_arithmetic::<T>() ==> slopes@ =~= Seq::new(
        (x@.len() - 1) as nat,
        |i: int| slope(x@, y@, i),
    ));
    slopes
}

/// The quadratic coefficients of a quadratic spline, from the slopes of the
/// chords.
fn quadratic_coefficients<T: Scalar>(x: &[T], y: &[T], slopes: &Vec<T>) -> (c: Vec<T>)
    requires
        total_arithmetic::<T>(),
        x@.len() == y@.len(),
        x@.len() >= 2,
        slopes@.len() == x@.len() - 1,
        exact_arithmetic::<T>() ==> slopes@ == Seq::new(
            (x@.len() - 1) as nat,
            |i: int| slope(x@, y@, i),
        ),
    ensures
        c@.len() == x@.len() - 1,
        exact_arithmetic::<T>() ==> c@ == Seq::new(
            (x@.len() - 1) as nat,
            |i: int| quadratic_c(x@, y@, i),
        ),
{
    let n: usize = x.len() - 1;
    let zero: T = number(0u32);
    let two: T = number(2u32);
    let mut c = filled(zero, n);
    let mut i: usize = 1;
    while i < n - 1
        invariant
            total_arithmetic::<T>(),
            x@.len() == y@.len(),
            n == x@.len() - 1,
            n >= 1,
            slopes@.len() == n,
            exact_arithmetic::<T>() ==> slopes@ == Seq::new(n as nat, |i: int| slope(x@, y@, i)),
            exact_arithmetic::<T>() ==> zero == spec_number::<T>(0) && two == spec_number::<T>(2),
            1 <= i,
            c@.len() == n,
            forall|k: int| i <= k < n ==> c@[k] == zero,
            c@[0] == zero,
            exact_arithmetic::<T>() ==> forall|k: int|
                1 <= k < i && k < n - 1 ==> c@[k] == quadratic_c(x@, y@, k),
        decreases n - i,
    {
        c[i] = (slopes[i] - slopes[i - 1]) / ((x[i] - x[i - 1]) * two);
        i += 1;
    }
    c[n - 1] = zero;
    assert(exact_arithmetic::<T>() ==> c@ =~= Seq::new(
        (x@.len() - 1) as nat,
        |i: int| quadratic_c(x@, y@, i),
    ));
    c
}

/// The factors and right-hand sides of the elimination for a natural cubic
/// spline, one of each for every point but the last.
fn cubic_elimination<T: Scalar>(x: &[T], y: &[T]) -> (swept: (Vec<T>, Vec<T>))
    requires
        total_arithmetic::<T>(),
        x@.len() == y@.len(),
        x@.len() >= 2,
    ensures
        swept.0@.len() == x@.len() - 1,
        swept.1@.len() == x@.len() - 1,
        exact_arithmetic::<T>() ==> forall|k: int|
            0 <= k < x@.len() - 1 ==> #[trigger] swept.0@[k] == cubic_mu(x@, k),
        exact_arithmetic::<T>() ==> forall|k: int|
            0 <= k < x@.len() - 1 ==> #[trigger] swept.1@[k] == cubic_z(x@, y@, k),
{
    let n: usize = x.len() - 1;
    let zero: T = number(0u32);
    let two: T = number(2u32);
    let three: T = number(3u32);
    let mut mu = filled(zero, n);
    let mut z = filled(zero, n);
    let mut i: usize = 1;
    while i < n
        invariant
            total_arithmetic::<T>(),
            x@.len() == y@.len(),
            n == x@.len() - 1,
            exact_arithmetic::<T>() ==> zero == spec_number::<T>(0) && two == spec_number::<T>(2)
                && three == spec_number::<T>(3),
            1 <= i,
            mu@.len() == n,
            z@.len() == n,
            mu@[0] == zero,
            z@[0] == zero,
            exact_arithmetic::<T>() ==> forall|k: int|
                0 <= k < i && k < n ==> #[trigger] mu@[k] == cubic_mu(x@, k),
            exact_arithmetic::<T>() ==> forall|k: int|
                0 <= k < i && k < n ==> #[trigger] z@[k] == cubic_z(x@, y@, k),
        decreases n - i,
    {
        let before = x[i] - x[i - 1];
        let after = x[i + 1] - x[i];
        let alpha = three / after * (y[i + 1] - y[i]) - three / before * (y[i] - y[i - 1]);
        let pivot = two * (x[i + 1] - x[i - 1]) - before * mu[i - 1];
        let mu_here = after / pivot;
        let z_here = (alpha - before * z[i - 1]) / pivot;
        proof {
            if exact_arithmetic::<T>() {
                assert(mu@[i - 1] == cubic_mu(x@, i - 1));
                assert(z@[i - 1] == cubic_z(x@, y@, i - 1));
                assert(before == run(x@, i - 1));
                assert(after == run(x@, i as int));
                assert(alpha == cubic_alpha(x@, y@, i as int));
                assert(pivot == cubic_pivot(x@, i as int, cubic_mu(x@, i - 1)));
                assert(mu_here == cubic_mu(x@, i as int));
                assert(z_here == cubic_z(x@, y@, i as int));
            }
        }
        mu[i] = mu_here;
        z[i] = z_here;
        i += 1;
    }
    (mu, z)
}

/// The coefficients of a natural cubic spline.
fn cubic_coefficients<T: Scalar>(x: &[T], y: &[T]) -> (coefficients: (Vec<T>, Vec<T>, Vec<T>))
    requires
        total_arithmetic::<T>(),
        x@.len() == y@.len(),
        x@.len() >= 2,
    ensures
        coefficients.0@.len() == x@.len() - 1,
        coefficients.1@.len() == x@.len(),
        coefficients.2@.len() == x@.len() - 1,
        exact_arithmetic::<T>() ==> {
            &&& coefficients.0@ == Seq::new((x@.len() - 1) as nat, |i: int| cubic_b(x@, y@, i))
            &&& coefficients.1@ == Seq::new(x@.len(), |i: int| cubic_c(x@, y@, i))
            &&& coefficients.2@ == Seq::new((x@.len() - 1) as nat, |i: int| cubic_d(x@, y@, i))
        },
{
    let n: usize = x.len() - 1;
    let zero: T = number(0u32);
    let two: T = number(2u32);
    let three: T = number(3u32);
    let (mu, z) = cubic_elimination(x, y);
    let mut b = filled(zero, n);
    let mut c = filled(zero, n + 1);
    let mut d = filled(zero, n);
    let mut j: usize = n;
    while j > 0
        invariant
            total_arithmetic::<T>(),
            x@.len() == y@.len(),
            n == x@.len() - 1,
            exact_arithmetic::<T>() ==> zero == spec_number::<T>(0) && two == spec_number::<T>(2)
                && three == spec_number::<T>(3),
            j <= n,
            mu@.len() == n,
            z@.len() == n,
            b@.len() == n,
            c@.len() == n + 1,
            d@.len() == n,
            exact_arithmetic::<T>() ==> forall|k: int|
                0 <= k < n ==> #[trigger] mu@[k] == cubic_mu(x@, k),
            exact_arithmetic::<T>() ==> forall|k: int|
                0 <= k < n ==> #[trigger] z@[k] == cubic_z(x@, y@, k),
            exact_arithmetic::<T>() ==> forall|k: int|
                j <= k <= n ==> #[trigger] c@[k] == cubic_c(x@, y@, k),
            exact_arithmetic::<T>() ==> forall|k: int|
                j <= k < n ==> #[trigger] b@[k] == cubic_b(x@, y@, k),
            exact_arithmetic::<T>() ==> forall|k: int|
                j <= k < n ==> #[trigger] d@[k] == cubic_d(x@, y@, k),
        decreases j,
    {
        j -= 1;
        let width = x[j + 1] - x[j];
        let c_after = c[j + 1];
        let c_here = z[j] - mu[j] * c_after;
        let b_here = (y[j + 1] - y[j]) / width - width * (c_after + two * c_here) / three;
        let d_here = (c_after - c_here) / (three * width);
        proof {
            if exact_arithmetic::<T>() {
                assert(c_after == cubic_c(x@, y@, j + 1));
                assert(z@[j as int] == cubic_z(x@, y@, j as int));
                assert(mu@[j as int] == cubic_mu(x@, j as int));
                assert(c_here == cubic_c(x@, y@, j as int));
                assert(width == run(x@, j as int));
                assert(b_here == cubic_b(x@, y@, j as int));
                assert(d_here == cubic_d(x@, y@, j as int));
            }
        }
        c[j] = c_here;
        b[j] = b_here;
        d[j] = d_here;
    }
    assert(exact_arithmetic::<T>() ==> b@ =~= Seq::new(
        (x@.len() - 1) as nat,
        |i: int| cubic_b(x@, y@, i),
    ));
    assert(exact_arithmetic::<T>() ==> c@ =~= Seq::new(x@.len(), |i: int| cubic_c(x@, y@, i)));
    assert(exact_arithmetic::<T>() ==> d@ =~= Seq::new(
        (x@.len() - 1) as nat,
        |i: int| cubic_d(x@, y@, i),
    ));
    (b, c, d)
}

/// The coefficients of the pieces of the curve through the points
/// `(x[i], y[i])`: for each piece the linear, the quadratic and the cubic
/// coefficient, as [`spline_b`], [`spline_c`] and [`spline_d`] give them.
pub fn compute_spline_coefficients<T: Scalar>(
    x: &[T],
    y: &[T],
    interpolation_type: &InterpolationType,
) -> (coefficients: (Vec<T>, Vec<T>, Vec<T>))
    requires
        total_arithmetic::<T>(),
        x@.len() == y@.len(),
        x@.len() >= 2,
    ensures
        coefficients.0@.len() == spline_b(x@, y@, *interpolation_type).len(),
        coefficients.1@.len() == spline_c(x@, y@, *interpolation_type).len(),
        coefficients.2@.len() == spline_d(x@, y@, *interpolation_type).len(),
        exact_arithmetic::<T>() ==> {
            &&& coefficients.0@ == spline_b(x@, y@, *interpolation_type)
            &&& coefficients.1@ == spline_c(x@, y@, *interpolation_type)
            &&& coefficients.2@ == spline_d(x@, y@, *interpolation_type)
        },
{
    let n: usize = x.len() - 1;
    match interpolation_type {
        InterpolationType::Linear => {
            let zero: T = number(0u32);
            let slopes = chord_slopes(x, y);
            let c = filled(zero, n);
            let d = filled(zero, n);
            assert(exact_arithmetic::<T>() ==> c@ =~= spline_c(x@, y@, *interpolation_type));
            assert(exact_arithmetic::<T>() ==> d@ =~= spline_d(x@, y@, *interpolation_type));
            (slopes, c, d)
        },
        InterpolationType::Quadratic => {
            let zero: T = number(0u32);
            let slopes = chord_slopes(x, y);
            let c = quadratic_coefficients(x, y, &slopes);
            let d = filled(zero, n);
            assert(exact_arithmetic::<T>() ==> d@ =~= spline_d(x@, y@, *interpolation_type));
            (slopes, c, d)
        },
        InterpolationType::Cubic => cubic_coefficients(x, y),
        _ => (Vec::new(), Vec::new(), Vec::new()),
    }
}

/// Whether `x` lies on piece `j` of the table, its two ends included.
pub open spec fn on_piece<T: Scalar>(xs: Seq<T>, x: T, j: int) -> bool {
    xs[j].is_le(&x) && x.is_le(&xs[j + 1])
}

/// The first piece from `from` on that `x` lies on, if there is one.
pub open spec fn first_piece<T: Scalar>(xs: Seq<T>, x: T, from: int) -> Option<int>
    decreases xs.len() - from,
{
    if from >= xs.len() - 1 {
        None
    } else if on_piece(xs, x, from) {
        Some(from)
    } else {
        first_piece(xs, x, from + 1)
    }
}

/// A curve through a table of points.
#[derive(Debug)]
pub struct Interpolator<T> {
    x_values: Vec<T>,
    y_values: Vec<T>,
    b_coeffs: Vec<T>,
    c_coeffs: Vec<T>,
    d_coeffs: Vec<T>,
    interpolation_type: InterpolationType,
    extrap_strategy: ExtrapolationStrategy,
}

impl<T> Interpolator<T> {
    #[verifier::type_invariant]
    spec fn shaped(self) -> bool {
        &&& self.x_values@.len() == self.y_values@.len()
        &&& self.x_values@.len() >= 2
        &&& self.interpolation_type.spec_is_polynomial() ==> {
            &&& self.b_coeffs@.len() == self.x_values@.len() - 1
            &&& self.c_coeffs@.len() >= self.x_values@.len() - 1
            &&& self.d_coeffs@.len() == self.x_values@.len() - 1
        }
    }

    /// The abscissas of the table.
    pub closed spec fn xs(&self) -> Seq<T> {
        self.x_values@
    }

    /// The ordinates of the table.
    pub closed spec fn ys(&self) -> Seq<T> {
        self.y_values@
    }

    /// The linear coefficients of the pieces.
    pub closed spec fn b(&self) -> Seq<T> {
        self.b_coeffs@
    }

    /// The quadratic coefficients of the pieces.
    pub closed spec fn c(&self) -> Seq<T> {
        self.c_coeffs@
    }

    /// The cubic coefficients of the pieces.
    pub closed spec fn d(&self) -> Seq<T> {
        self.d_coeffs@
    }

    /// How the curve runs between the points.
    pub closed spec fn kind(&self) -> InterpolationType {
        self.interpolation_type
    }

    /// What the curve does outside the table.
    pub closed spec fn strategy(&self) -> ExtrapolationStrategy {
        self.extrap_strategy
    }
}

impl<T: Scalar> Interpolator<T> {
    /// The curve through the points `(x_values[i], y_values[i])`, with its
    /// coefficients computed.
    pub fn new(
        x_values: Vec<T>,
        y_values: Vec<T>,
        interpolation_type: InterpolationType,
        extrap_strategy: ExtrapolationStrategy,
    ) -> (interpolator: Self)
        requires
            total_arithmetic::<T>(),
            x_values@.len() == y_values@.len(),
            x_values@.len() >= 2,
        ensures
            interpolator.xs() == x_values@,
            interpolator.ys() == y_values@,
            interpolator.kind() == interpolation_type,
            interpolator.strategy() == extrap_strategy,
            interpolator.b().len() == spline_b(x_values@, y_values@, interpolation_type).len(),
            interpolator.c().len() == spline_c(x_values@, y_values@, interpolation_type).len(),
            interpolator.d().len() == spline_d(x_values@, y_values@, interpolation_type).len(),
            exact_arithmetic::<T>() ==> {
                &&& interpolator.b() == spline_b(x_values@, y_values@, interpolation_type)
                &&& interpolator.c() == spline_c(x_values@, y_values@, interpolation_type)
                &&& interpolator.d() == spline_d(x_values@, y_values@, interpolation_type)
            },
    {
        let (b_coeffs, c_coeffs, d_coeffs) = compute_spline_coefficients(
            x_values.as_slice(),
            y_values.as_slice(),
            &interpolation_type,
        );
        Self {
            x_values,
            y_values,
            b_coeffs,
            c_coeffs,
            d_coeffs,
            interpolation_type,
            extrap_strategy,
        }
    }

    /// The polynomial of piece `j` at `x`: with `dx = x - xs[j]`,
    /// `ys[j] + b[j] * dx + c[j] * dx * dx + d[j] * dx * dx * dx`.
    pub open spec fn polynomial(&self, j: int, x: T) -> T {
        let dx = x.sub_spec(self.xs()[j]);
        self.ys()[j].add_spec(self.b()[j].mul_spec(dx)).add_spec(
            self.c()[j].mul_spec(dx.mul_spec(dx)),
        ).add_spec(self.d()[j].mul_spec(dx.mul_spec(dx).mul_spec(dx)))
    }

    /// The curve on piece `j` at `x`: the polynomial of the piece, or for
    /// the constant kinds the ordinate at one of its ends.
    pub open spec fn on_table(&self, j: int, x: T) -> T {
        match self.kind() {
            InterpolationType::ConstantBackward => self.ys()[j],
            InterpolationType::ConstantForward => self.ys()[j + 1],
            _ => self.polynomial(j, x),
        }
    }

    /// The curve outside the table at `x`, where it goes on there: the
    /// ordinate of the nearest end, or the polynomial of the first or last
    /// piece; the constant kinds have no piece to continue.
    pub open spec fn off_table(&self, x: T) -> Option<T> {
        let below = x.is_lt(&self.xs()[0]);
        match self.strategy() {
            ExtrapolationStrategy::Disabled => None,
            ExtrapolationStrategy::Constant => Some(
                if below {
                    self.ys()[0]
                } else {
                    self.ys().last()
                },
            ),
            ExtrapolationStrategy::ExtendSpline => if self.kind().spec_is_polynomial() {
                Some(
                    self.polynomial(
                        if below {
                            0
                        } else {
                            self.xs().len() - 2
                        },
                        x,
                    ),
                )
            } else {
                None
            },
        }
    }

    /// The curve at `x`, where it has a value: on the first piece that `x`
    /// lies on; else, where `x` is below the first or above the last
    /// abscissa, as the curve goes on outside the table.
    pub open spec fn curve(&self, x: T) -> Option<T> {
        match first_piece(self.xs(), x, 0) {
            Some(j) => Some(self.on_table(j, x)),
            None => if x.is_lt(&self.xs()[0]) || x.is_gt(&self.xs().last()) {
                self.off_table(x)
            } else {
                None
            },
        }
    }

    /// The first piece that `x` lies on.
    fn locate(&self, x: T) -> (found: Option<usize>)
        ensures
            found matches Some(j) ==> j + 1 < self.xs().len(),
            exact_arithmetic::<T>() ==> match found {
                Some(j) => first_piece(self.xs(), x, 0) == Some(j as int),
                None => first_piece(self.xs(), x, 0) is None,
            },
    {
        proof {
            use_type_invariant(self);
        }
        let pieces: usize = self.x_values.len() - 1;
        let mut j: usize = 0;
        while j < pieces
            invariant
                pieces == self.x_values@.len() - 1,
                j <= pieces,
                exact_arithmetic::<T>() ==> first_piece(self.x_values@, x, 0) == first_piece(
                    self.x_values@,
                    x,
                    j as int,
                ),
            decreases pieces - j,
        {
            if self.x_values[j] <= x && x <= self.x_values[j + 1] {
                return Some(j);
            }
            j += 1;
        }
        None
    }

    /// The polynomial of piece `j` at `x`.
    fn piece(&self, j: usize, x: T) -> (y: T)
        requires
            total_arithmetic::<T>(),
            self.kind().spec_is_polynomial(),
            j + 1 < self.xs().len(),
        ensures
            exact_arithmetic::<T>() ==> y == self.polynomial(j as int, x),
    {
        proof {
            use_type_invariant(self);
        }
        let dx = x - self.x_values[j];
        self.y_values[j] + self.b_coeffs[j] * dx + self.c_coeffs[j] * (dx * dx) + self.d_coeffs[j]
            * (dx * dx * dx)
    }

    /// The curve outside the table at `x`.
    fn extrapolate(&self, x: T) -> (y: Option<T>)
        requires
            total_arithmetic::<T>(),
        ensures
            exact_arithmetic::<T>() ==> y == self.off_table(x),
    {
        proof {
            use_type_invariant(self);
        }
        let below = x < self.x_values[0];
        match self.extrap_strategy {
            ExtrapolationStrategy::Disabled => None,
            ExtrapolationStrategy::Constant => {
                if below {
                    Some(self.y_values[0])
                } else {
                    Some(self.y_values[self.y_values.len() - 1])
                }
            },
            ExtrapolationStrategy::ExtendSpline => {
                if self.interpolation_type.is_polynomial() {
                    let j: usize = if below {
                        0
                    } else {
                        self.x_values.len() - 2
                    };
                    Some(self.piece(j, x))
                } else {
                    None
                }
            },
        }
    }

    /// The curve at `x`, or nothing where the curve has no value there.
    pub fn try_interpolate(&self, x: T) -> (y: Option<T>)
        requires
            total_arithmetic::<T>(),
        ensures
            exact_arithmetic::<T>() ==> y == self.curve(x),
    {
        proof {
            use_type_invariant(self);
        }
        let last: usize = self.x_values.len() - 1;
        match self.locate(x) {
            Some(j) => {
                let y = match self.interpolation_type {
                    InterpolationType::ConstantBackward => self.y_values[j],
                    InterpolationType::ConstantForward => self.y_values[j + 1],
                    _ => self.piece(j, x),
                };
                Some(y)
            },
            None => {
                if x < self.x_values[0] || x > self.x_values[last] {
                    self.extrapolate(x)
                } else {
                    None
                }
            },
        }
    }

    /// How the curve runs between the points.
    pub fn interpolation_type(&self) -> (kind: &InterpolationType)
        ensures
            *kind == self.kind(),
    {
        &self.interpolation_type
    }

    /// What the curve does outside the table.
    pub fn extrapolation_strategy(&self) -> (strategy: &ExtrapolationStrategy)
        ensures
            *strategy == self.strategy(),
    {
        &self.extrap_strategy
    }

    /// The curve at `x`, for an `x` at which the curve has a value. Where
    /// the arithmetic is not known to be exact, or the curve may have no
    /// value at `x`, [`Interpolator::try_interpolate`] is the function to
    /// call.
    pub fn interpolate(&self, x: T) -> (y: T)
        requires
            total_arithmetic::<T>(),
            exact_arithmetic::<T>(),
            self.curve(x) is Some,
        ensures
            Some(y) == self.curve(x),
    {
        self.try_interpolate(x).unwrap()
    }
}

} // verus!
