//! Raw measurements and protocol cost values.
//!
//! A measurement is taken under one of two physical metrics; its value is
//! kept as an exact rational number of raw units so that subtracting
//! baselines and dividing by unit counts never rounds. Only the final
//! conversion to gas rounds, and it rounds down once.

use vstd::prelude::*;

verus! {

/// Physical unit in which raw measurements are taken.
///
/// Values taken under different metrics are never comparable; every
/// arithmetic operation on costs checks that the metrics agree.
#[derive(Clone, Copy, Debug, PartialEq, Eq, Structural)]
pub enum GasMetric {
    /// Wall-clock time, in nanoseconds. Noisy and not additive across
    /// runs, so size-sweep regression refuses to fit under it.
    Time,
    /// Count of retired instructions. Deterministic and additive, the
    /// only metric eligible for size-sweep regression.
    ICount,
}

/// Gas units charged per nanosecond of measured wall-clock time.
pub const GAS_PER_NANOSECOND: u64 = 1_000_000;

/// Gas units charged per measured retired instruction.
pub const GAS_PER_INSTRUCTION: u64 = 125_000;

/// Whether doubling the measured work exactly doubles the reading, which
/// is what linear regression over a size sweep needs.
pub open spec fn spec_is_additive(m: GasMetric) -> bool {
    m is ICount
}

/// Returns whether `m` is additive, the condition for regression.
pub fn is_additive(m: GasMetric) -> (r: bool)
    ensures
        r == spec_is_additive(m),
{
    match m {
        GasMetric::Time => false,
        GasMetric::ICount => true,
    }
}

/// The fixed multiplier that turns one raw unit of `m` into gas units.
pub open spec fn gas_multiplier(m: GasMetric) -> u64 {
    match m {
        GasMetric::Time => GAS_PER_NANOSECOND,
        GasMetric::ICount => GAS_PER_INSTRUCTION,
    }
}

/// Why a cost operation was refused.
#[derive(Clone, Copy, Debug, PartialEq, Eq, Structural)]
pub enum CostError {
    /// The two operands were measured under different metrics.
    MetricMismatch,
    /// A composite measurement was smaller than the baseline subtracted
    /// from it: the baseline is miscalibrated. Never clamped to zero.
    NegativeCost,
    /// An exact result no longer fits the machine representation.
    Overflow,
}

/// A cost in raw units of one metric, kept as the exact (not necessarily
/// reduced) fraction `num / den`.
#[derive(Clone, Copy, Debug, PartialEq, Eq, Structural)]
pub struct GasCost {
    pub metric: GasMetric,
    pub num: u64,
    pub den: u64,
}

impl GasCost {
    /// The denominator of a cost is always positive.
    pub open spec fn wf(&self) -> bool {
        1 <= self.den
    }

    /// The value of this cost equals the rational `n / d` (for `d >= 1`).
    pub open spec fn value_is(&self, n: int, d: int) -> bool {
        self.num * d == n * self.den
    }

    /// What `checked_sub` returns: the exact difference, or the error
    /// that mixing metrics, a negative difference, or an unrepresentable
    /// result raises.
    pub open spec fn spec_sub(self, other: GasCost) -> Result<GasCost, CostError> {
        if self.metric != other.metric {
            Err(CostError::MetricMismatch)
        } else {
            let n = self.num * other.den - other.num * self.den;
            let d = self.den * other.den;
            if n < 0 {
                Err(CostError::NegativeCost)
            } else if n > u64::MAX || d > u64::MAX {
                Err(CostError::Overflow)
            } else {
                Ok(GasCost { metric: self.metric, num: n as u64, den: d as u64 })
            }
        }
    }

    /// What `checked_div` returns: the exact quotient, or `Overflow`.
    pub open spec fn spec_div(self, divisor: u64) -> Result<GasCost, CostError> {
        let d = self.den * divisor;
        if d > u64::MAX {
            Err(CostError::Overflow)
        } else {
            Ok(GasCost { metric: self.metric, num: self.num, den: d as u64 })
        }
    }

    /// What `to_gas` returns: the value times the metric's multiplier,
    /// rounded down, or `Overflow` when that does not fit in gas units.
    pub open spec fn spec_to_gas(self) -> Result<u64, CostError> {
        let g = (self.num * gas_multiplier(self.metric)) / (self.den as int);
        if g > u64::MAX {
            Err(CostError::Overflow)
        } else {
            Ok(g as u64)
        }
    }

    /// Packs a raw total over `count` executions into a cost value.
    pub fn new(metric: GasMetric, total_raw: u64, count: u64) -> (r: GasCost)
        requires
            1 <= count,
        ensures
            r == (GasCost { metric, num: total_raw, den: count }),
            r.wf(),
    {
        GasCost { metric, num: total_raw, den: count }
    }

    /// Subtracts a baseline from a composite measurement, exactly.
    ///
    /// Fails loudly (never saturates or wraps) when the metrics differ or
    /// the baseline exceeds the total.
    pub fn checked_sub(&self, other: &GasCost) -> (r: Result<GasCost, CostError>)
        requires
            self.wf(),
            other.wf(),
        ensures
            r == self.spec_sub(*other),
            r matches Ok(c) ==> c.wf() && c.metric == self.metric,
    {
        if self.metric != other.metric {
            return Err(CostError::MetricMismatch);
        }
        proof {
            lemma_u64_mul_fits(self.num as int, other.den as int);
            lemma_u64_mul_fits(other.num as int, self.den as int);
            lemma_u64_mul_fits(self.den as int, other.den as int);
            lemma_mul_of_positives(self.den as int, other.den as int);
        }
        let a = (self.num as u128) * (other.den as u128);
        let b = (other.num as u128) * (self.den as u128);
        let d = (self.den as u128) * (other.den as u128);
        if a < b {
            return Err(CostError::NegativeCost);
        }
        let n = a - b;
        if n > u64::MAX as u128 || d > u64::MAX as u128 {
            return Err(CostError::Overflow);
        }
        Ok(GasCost { metric: self.metric, num: n as u64, den: d as u64 })
    }

    /// Divides the cost by a positive unit count, exactly.
    pub fn checked_div(&self, divisor: u64) -> (r: Result<GasCost, CostError>)
        requires
            self.wf(),
            1 <= divisor,
        ensures
            r == self.spec_div(divisor),
            r matches Ok(c) ==> c.wf() && c.metric == self.metric,
    {
        proof {
            lemma_u64_mul_fits(self.den as int, divisor as int);
            lemma_mul_of_positives(self.den as int, divisor as int);
        }
        let d = (self.den as u128) * (divisor as u128);
        if d > u64::MAX as u128 {
            return Err(CostError::Overflow);
        }
        Ok(GasCost { metric: self.metric, num: self.num, den: d as u64 })
    }

    /// Converts the raw value into gas units, rounding down once.
    pub fn to_gas(&self) -> (r: Result<u64, CostError>)
        requires
            self.wf(),
        ensures
            r == self.spec_to_gas(),
    {
        let mult = match self.metric {
            GasMetric::Time => GAS_PER_NANOSECOND,
            GasMetric::ICount => GAS_PER_INSTRUCTION,
        };
        proof {
            lemma_u64_mul_fits(self.num as int, mult as int);
            lemma_div_of_nonneg(self.num as int * mult as int, self.den as int);
        }
        let p = (self.num as u128) * (mult as u128);
        let g = p / (self.den as u128);
        if g > u64::MAX as u128 {
            return Err(CostError::Overflow);
        }
        Ok(g as u64)
    }
}

/// The product of two positive values is at least one.
pub(crate) proof fn lemma_mul_of_positives(x: int, y: int)
    requires
        1 <= x,
        1 <= y,
    ensures
        1 <= x * y,
{
    assert(1 <= x * y) by (nonlinear_arith)
        requires
            1 <= x,
            1 <= y,
    ;
}

/// The product of two values below `2^64` fits in 128 bits.
proof fn lemma_u64_mul_fits(x: int, y: int)
    requires
        0 <= x <= u64::MAX,
        0 <= y <= u64::MAX,
    ensures
        0 <= x * y <= u64::MAX * u64::MAX,
        x * y <= u128::MAX,
{
    assert(0 <= x * y <= u64::MAX * u64::MAX) by (nonlinear_arith)
        requires
            0 <= x <= u64::MAX,
            0 <= y <= u64::MAX,
    ;
}

/// Dividing a nonnegative value by a positive one stays within the range
/// of the dividend.
proof fn lemma_div_of_nonneg(n: int, d: int)
    requires
        0 <= n,
        1 <= d,
    ensures
        0 <= n / d <= n,
{
    assert(0 <= n / d <= n) by (nonlinear_arith)
        requires
            0 <= n,
            1 <= d,
    ;
}

/// A marginal cost never clamps: when the baseline exceeds the composite
/// total, subtraction raises `NegativeCost`, and when it succeeds the
/// result is the exact difference, which is nonnegative.
pub proof fn lemma_sub_never_clamps(a: GasCost, b: GasCost)
    requires
        a.wf(),
        b.wf(),
        a.metric == b.metric,
    ensures
        a.num * b.den < b.num * a.den ==> a.spec_sub(b) == Err::<GasCost, CostError>(
            CostError::NegativeCost,
        ),
        a.spec_sub(b) matches Ok(c) ==> {
            &&& c.wf()
            &&& a.num * b.den >= b.num * a.den
            &&& c.value_is(a.num * b.den - b.num * a.den, a.den * b.den)
        },
{
    assert(a.den * b.den >= 1) by (nonlinear_arith)
        requires
            a.den >= 1,
            b.den >= 1,
    ;
}

/// Per-unit division is exact: the returned cost is the original value
/// over `den * divisor`, with no rounding.
pub proof fn lemma_div_exact(a: GasCost, divisor: u64)
    requires
        a.wf(),
        1 <= divisor,
    ensures
        a.spec_div(divisor) matches Ok(c) ==> c.wf() && c.value_is(
            a.num as int,
            a.den * divisor,
        ),
{
    lemma_mul_of_positives(a.den as int, divisor as int);
}

} // verus!
