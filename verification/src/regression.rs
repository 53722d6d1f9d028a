//! Least-squares fit of a linear cost model to a size sweep.
//!
//! Given measured pairs `(size, raw_cost)` the fit separates a fixed base
//! cost (the intercept) from a per-unit marginal cost (the slope). All
//! arithmetic is exact: the result is returned as two integer numerators
//! over one common integer denominator, with no rounding anywhere.

use vstd::prelude::*;

verus! {

/// Sums fit in 128-bit arithmetic only for sweeps up to this length.
pub const MAX_SWEEP_LEN: usize = 1024;

/// Sums fit in 128-bit arithmetic only for sizes up to `2^20`.
pub const MAX_SWEEP_X: u64 = 0x10_0000;

/// Sums fit in 128-bit arithmetic only for raw costs up to `2^51`.
pub const MAX_SWEEP_Y: u64 = 0x8_0000_0000_0000;

/// The sum of the elements of `xs`.
pub open spec fn sum1(xs: Seq<u64>) -> int
    decreases xs.len(),
{
    if xs.len() == 0 {
        0
    } else {
        sum1(xs.drop_last()) + xs.last()
    }
}

/// The sum of the pairwise products of `xs` and `ys` (of equal length).
pub open spec fn sum_prod(xs: Seq<u64>, ys: Seq<u64>) -> int
    decreases xs.len(),
{
    if xs.len() == 0 {
        0
    } else {
        sum_prod(xs.drop_last(), ys.drop_last()) + xs.last() * ys.last()
    }
}

/// The sum of the squares of the elements of `xs`.
pub open spec fn sum_sq(xs: Seq<u64>) -> int {
    sum_prod(xs, xs)
}

/// The common denominator of the least-squares solution for `xs`:
/// `n * sum(x^2) - sum(x)^2`. It is zero exactly when no line is
/// determined (all sizes equal).
pub open spec fn fit_denominator(xs: Seq<u64>) -> int {
    xs.len() * sum_sq(xs) - sum1(xs) * sum1(xs)
}

/// The numerator of the fitted slope over `fit_denominator(xs)`.
pub open spec fn slope_numerator(xs: Seq<u64>, ys: Seq<u64>) -> int {
    xs.len() * sum_prod(xs, ys) - sum1(xs) * sum1(ys)
}

/// The numerator of the fitted intercept over `fit_denominator(xs)`.
pub open spec fn intercept_numerator(xs: Seq<u64>, ys: Seq<u64>) -> int {
    sum1(ys) * sum_sq(xs) - sum1(xs) * sum_prod(xs, ys)
}

/// The exact least-squares line through a size sweep: the intercept is
/// `intercept_num / den` and the slope is `slope_num / den`.
#[derive(Clone, Copy, Debug, PartialEq, Eq, Structural)]
pub struct LinearFit {
    pub intercept_num: i128,
    pub slope_num: i128,
    pub den: i128,
}

/// Fits `base + rate * size` to the pairs `(xs[i], ys[i])` by least
/// squares, exactly. Returns `None` exactly when the system is singular,
/// that is when all sizes are equal.
///
/// The bounds on length and magnitude are what 128-bit intermediates
/// force; they are far above any sweep the calibration takes.
pub fn least_squares_method(xs: &Vec<u64>, ys: &Vec<u64>) -> (r: Option<LinearFit>)
    requires
        xs@.len() == ys@.len(),
        2 <= xs@.len() <= MAX_SWEEP_LEN,
        forall|i: int| 0 <= i < xs@.len() ==> xs@[i] <= MAX_SWEEP_X,
        forall|i: int| 0 <= i < ys@.len() ==> ys@[i] <= MAX_SWEEP_Y,
    ensures
        r is None <==> fit_denominator(xs@) == 0,
        r matches Some(f) ==> {
            &&& f.den == fit_denominator(xs@)
            &&& f.slope_num == slope_numerator(xs@, ys@)
            &&& f.intercept_num == intercept_numerator(xs@, ys@)
            &&& f.den != i128::MIN
        },
{
    let n = xs.len();
    let mut i: usize = 0;
    let mut sx: u128 = 0;
    let mut sy: u128 = 0;
    let mut sxx: u128 = 0;
    let mut sxy: u128 = 0;
    while i < n
        invariant
            0 <= i <= n,
            n == xs@.len(),
            n == ys@.len(),
            n <= MAX_SWEEP_LEN,
            forall|j: int| 0 <= j < xs@.len() ==> xs@[j] <= MAX_SWEEP_X,
            forall|j: int| 0 <= j < ys@.len() ==> ys@[j] <= MAX_SWEEP_Y,
            sx == sum1(xs@.take(i as int)),
            sy == sum1(ys@.take(i as int)),
            sxx == sum_prod(xs@.take(i as int), xs@.take(i as int)),
            sxy == sum_prod(xs@.take(i as int), ys@.take(i as int)),
            sx <= i * (MAX_SWEEP_X as int),
            sy <= i * (MAX_SWEEP_Y as int),
            sxx <= i * ((MAX_SWEEP_X * MAX_SWEEP_X) as int),
            sxy <= i * ((MAX_SWEEP_X * MAX_SWEEP_Y) as int),
        decreases n - i,
    {
        let x = xs[i];
        let y = ys[i];
        proof {
            lemma_take_step(xs@, i as int);
            lemma_take_step(ys@, i as int);
            lemma_mul_bounds(x as int, y as int, MAX_SWEEP_X as int, MAX_SWEEP_Y as int);
            lemma_mul_bounds(x as int, x as int, MAX_SWEEP_X as int, MAX_SWEEP_X as int);
            lemma_mul_bounds(sx as int, 1, (i as int) * (MAX_SWEEP_X as int), 1);
            lemma_sum_step_bound(i as int, MAX_SWEEP_X as int);
            lemma_sum_step_bound(i as int, MAX_SWEEP_Y as int);
            lemma_sum_step_bound(i as int, (MAX_SWEEP_X * MAX_SWEEP_X) as int);
            lemma_sum_step_bound(i as int, (MAX_SWEEP_X * MAX_SWEEP_Y) as int);
        }
        sx = sx + x as u128;
        sy = sy + y as u128;
        sxx = sxx + (x as u128) * (x as u128);
        sxy = sxy + (x as u128) * (y as u128);
        i = i + 1;
    }
    proof {
        assert(xs@.take(n as int) =~= xs@);
        assert(ys@.take(n as int) =~= ys@);
        lemma_fit_products_fit(n as int, sx as int, sy as int, sxx as int, sxy as int);
    }
    let ni = n as i128;
    let sxi = sx as i128;
    let syi = sy as i128;
    let sxxi = sxx as i128;
    let sxyi = sxy as i128;
    let den = ni * sxxi - sxi * sxi;
    let slope_num = ni * sxyi - sxi * syi;
    let intercept_num = syi * sxxi - sxi * sxyi;
    if den == 0 {
        None
    } else {
        Some(LinearFit { intercept_num, slope_num, den })
    }
}

/// Taking one more element appends it after the previous prefix.
proof fn lemma_take_step(s: Seq<u64>, i: int)
    requires
        0 <= i < s.len(),
    ensures
        s.take(i + 1).drop_last() =~= s.take(i),
        s.take(i + 1).last() == s[i],
{
}

/// Products of values within the given bounds stay within the product of
/// the bounds.
proof fn lemma_mul_bounds(x: int, y: int, bx: int, by: int)
    requires
        0 <= x <= bx,
        0 <= y <= by,
    ensures
        0 <= x * y <= bx * by,
{
    assert(0 <= x * y <= bx * by) by (nonlinear_arith)
        requires
            0 <= x <= bx,
            0 <= y <= by,
    ;
}

/// A running sum bounded by `i` terms of at most `b` stays bounded by
/// `i + 1` terms after adding one more term of at most `b`.
proof fn lemma_sum_step_bound(i: int, b: int)
    requires
        0 <= i,
        0 <= b,
    ensures
        i * b + b == (i + 1) * b,
        0 <= i * b,
        0 <= (i + 1) * b,
{
    assert(i * b + b == (i + 1) * b && 0 <= i * b) by (nonlinear_arith)
        requires
            0 <= i,
            0 <= b,
    ;
}

/// With the sweep bounds in force, every product the solver forms fits in
/// a signed 128-bit value.
proof fn lemma_fit_products_fit(n: int, sx: int, sy: int, sxx: int, sxy: int)
    requires
        0 <= n <= MAX_SWEEP_LEN,
        0 <= sx <= n * (MAX_SWEEP_X as int),
        0 <= sy <= n * (MAX_SWEEP_Y as int),
        0 <= sxx <= n * ((MAX_SWEEP_X * MAX_SWEEP_X) as int),
        0 <= sxy <= n * ((MAX_SWEEP_X * MAX_SWEEP_Y) as int),
    ensures
        n * sxx <= i128::MAX,
        sx * sx <= i128::MAX,
        n * sxy <= i128::MAX,
        sx * sy <= i128::MAX,
        sy * sxx <= i128::MAX,
        sx * sxy <= i128::MAX,
        0 <= n * sxx,
        0 <= sx * sx,
        0 <= n * sxy,
        0 <= sx * sy,
        0 <= sy * sxx,
        0 <= sx * sxy,
        sx <= i128::MAX,
        sy <= i128::MAX,
        sxx <= i128::MAX,
        sxy <= i128::MAX,
{
    assert((n * sxx <= i128::MAX && sx * sx <= i128::MAX && n * sxy <= i128::MAX && sx * sy
        <= i128::MAX && sy * sxx <= i128::MAX && sx * sxy <= i128::MAX && 0 <= n * sxx && 0 <= sx
        * sx && 0 <= n * sxy && 0 <= sx * sy && 0 <= sy * sxx && 0 <= sx * sxy && sx <= i128::MAX
        && sy <= i128::MAX && sxx <= i128::MAX && sxy <= i128::MAX)) by (nonlinear_arith)
        requires
            0 <= n <= MAX_SWEEP_LEN,
            0 <= sx <= n * (MAX_SWEEP_X as int),
            0 <= sy <= n * (MAX_SWEEP_Y as int),
            0 <= sxx <= n * ((MAX_SWEEP_X * MAX_SWEEP_X) as int),
            0 <= sxy <= n * ((MAX_SWEEP_X * MAX_SWEEP_Y) as int),
    ;
}

/// On data that lies exactly on a line, the sums obey the line: the sum
/// of the outputs is `a * n + b * sum(x)` and the sum of the products is
/// `a * sum(x) + b * sum(x^2)`.
proof fn lemma_sums_of_linear_data(xs: Seq<u64>, ys: Seq<u64>, a: int, b: int)
    requires
        xs.len() == ys.len(),
        forall|i: int| 0 <= i < xs.len() ==> ys[i] == a + b * xs[i],
    ensures
        sum1(ys) == a * xs.len() + b * sum1(xs),
        sum_prod(xs, ys) == a * sum1(xs) + b * sum_sq(xs),
    decreases xs.len(),
{
    if xs.len() == 0 {
    } else {
        let xp = xs.drop_last();
        let yp = ys.drop_last();
        assert(forall|i: int| 0 <= i < xp.len() ==> yp[i] == a + b * xp[i]);
        lemma_sums_of_linear_data(xp, yp, a, b);
        let xl = xs.last() as int;
        assert(ys.last() == a + b * xl);
        assert(sum1(ys) == a * xp.len() + b * sum1(xp) + (a + b * xl));
        assert(a * xp.len() + a == a * xs.len()) by (nonlinear_arith)
            requires
                xp.len() + 1 == xs.len(),
        ;
        assert(sum1(xs) == sum1(xp) + xl);
        assert(b * sum1(xp) + b * xl == b * sum1(xs)) by (nonlinear_arith)
            requires
                sum1(xs) == sum1(xp) + xl,
        ;
        assert(sum_prod(xs, ys) == (a * sum1(xp) + b * sum_prod(xp, xp)) + xl * (a + b * xl));
        assert(xl * (a + b * xl) == a * xl + b * (xl * xl)) by (nonlinear_arith);
        assert(a * sum1(xp) + a * xl == a * sum1(xs)) by (nonlinear_arith)
            requires
                sum1(xs) == sum1(xp) + xl,
        ;
        assert(sum_sq(xs) == sum_prod(xp, xp) + xl * xl);
        assert(b * sum_prod(xp, xp) + b * (xl * xl) == b * sum_sq(xs)) by (nonlinear_arith)
            requires
                sum_sq(xs) == sum_prod(xp, xp) + xl * xl,
        ;
    }
}

/// On noise-free linear data `y = a + b * x` the least-squares fit
/// recovers the line exactly: the slope numerator is `b` times the
/// denominator and the intercept numerator is `a` times it. Whenever the
/// denominator is nonzero (the sizes are not all equal), the fitted
/// slope equals `b` and the fitted intercept equals `a` as rationals.
pub proof fn lemma_fit_recovers_line(xs: Seq<u64>, ys: Seq<u64>, a: int, b: int)
    requires
        xs.len() == ys.len(),
        forall|i: int| 0 <= i < xs.len() ==> ys[i] == a + b * xs[i],
    ensures
        slope_numerator(xs, ys) == b * fit_denominator(xs),
        intercept_numerator(xs, ys) == a * fit_denominator(xs),
{
    lemma_sums_of_linear_data(xs, ys, a, b);
    let n = xs.len() as int;
    let sx = sum1(xs);
    let sxx = sum_sq(xs);
    let sy = sum1(ys);
    let sxy = sum_prod(xs, ys);
    assert(n * sxy - sx * sy == b * (n * sxx - sx * sx)) by (nonlinear_arith)
        requires
            sy == a * n + b * sx,
            sxy == a * sx + b * sxx,
    ;
    assert(sy * sxx - sx * sxy == a * (n * sxx - sx * sx)) by (nonlinear_arith)
        requires
            sy == a * n + b * sx,
            sxy == a * sx + b * sxx,
    ;
}

} // verus!
