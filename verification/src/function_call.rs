//! The function-call size sweep.
//!
//! To separate the fixed cost of calling a contract from the per-byte
//! cost of its code, contracts with a growing number of exported methods
//! are generated, measured, and fitted by least squares. The fit is only
//! made under an additive metric; under wall-clock time it is refused.

use vstd::prelude::*;

use crate::estimator::EstimatorError;
use crate::gas::{
    gas_multiplier, spec_is_additive, is_additive, CostError, GasMetric, GAS_PER_INSTRUCTION,
    GAS_PER_NANOSECOND,
};
use crate::regression::{
    fit_denominator, intercept_numerator, least_squares_method, slope_numerator, MAX_SWEEP_LEN,
    MAX_SWEEP_X, MAX_SWEEP_Y,
};
use crate::text::{dec_seq, u64_to_dec};

verus! {

/// How many measured executions the sweep averages over.
pub const REPEATS: u64 = 50;

/// Compiled contract code.
#[derive(Clone, Debug)]
pub struct ContractCode {
    pub code: Vec<u8>,
}

impl ContractCode {
    /// The compiled bytes.
    pub fn get_code(&self) -> (r: &Vec<u8>)
        ensures
            r@ == self.code@,
    {
        &self.code
    }
}

/// What the WebAssembly text translator returns for a given source:
/// `None` when the source is rejected, else the binary module.
pub uninterp spec fn wat_parse(source: Seq<char>) -> Option<Seq<u8>>;

/// Relies on wat::parse_str: translates WebAssembly text into its binary
/// encoding; the result depends on the source text alone.
#[verifier::external_body]
fn parse_wat(source: &str) -> (r: Option<Vec<u8>>)
    ensures
        r is Some <==> wat_parse(source@) is Some,
        r matches Some(v) ==> Some(v@) == wat_parse(source@),
{
    match wat::parse_str(source) {
        Ok(v) => Some(v),
        Err(_) => None,
    }
}

/// The text of the `i`-th generated method: an export named `hello<i>`
/// and a function body that pushes `i`, drops it and returns.
pub open spec fn method_snippet(i: nat) -> Seq<char> {
    "(export \"hello"@ + dec_seq(i) + "\" (func "@ + dec_seq(i) + ")) (func (;"@ + dec_seq(i)
        + ";) i32.const "@ + dec_seq(i) + " drop return) "@
}

/// The concatenated text of the first `n` generated methods.
pub open spec fn methods_wat(n: nat) -> Seq<char>
    decreases n,
{
    if n == 0 {
        Seq::empty()
    } else {
        methods_wat((n - 1) as nat) + method_snippet((n - 1) as nat)
    }
}

/// The source text of a module with `n` generated methods.
pub open spec fn module_wat(n: nat) -> Seq<char> {
    "(module "@ + methods_wat(n) + ")"@
}

/// Generates a contract that exports exactly `method_count` distinct
/// zero-argument methods, so that the compiled size is a controlled
/// function of the count. Returns `None` exactly when the translator
/// rejects the generated source.
pub fn make_many_methods_contract(method_count: i32) -> (r: Option<ContractCode>)
    requires
        0 <= method_count,
    ensures
        r is Some <==> wat_parse(module_wat(method_count as nat)) is Some,
        r matches Some(c) ==> Some(c.code@) == wat_parse(module_wat(method_count as nat)),
{
    let mut methods = String::new();
    let mut i: i32 = 0;
    while i < method_count
        invariant
            0 <= i <= method_count,
            methods@ == methods_wat(i as nat),
        decreases method_count - i,
    {
        let d = u64_to_dec(i as u64);
        methods.append("(export \"hello");
        methods.append(d.as_str());
        methods.append("\" (func ");
        methods.append(d.as_str());
        methods.append(")) (func (;");
        methods.append(d.as_str());
        methods.append(";) i32.const ");
        methods.append(d.as_str());
        methods.append(" drop return) ");
        proof {
            assert(methods@ =~= methods_wat((i + 1) as nat));
        }
        i = i + 1;
    }
    let mut source = String::from_str("(module ");
    source.append(methods.as_str());
    source.append(")");
    proof {
        assert(source@ =~= module_wat(method_count as nat));
    }
    match parse_wat(source.as_str()) {
        Some(code) => Some(ContractCode { code }),
        None => None,
    }
}

/// The method counts the function-call sweep measures.
pub open spec fn sweep_counts() -> Seq<i32> {
    seq![5i32, 20i32, 30i32, 50i32, 100i32, 200i32, 1000i32]
}

/// The method counts the function-call sweep measures, in order.
pub fn function_call_method_counts() -> (r: Vec<i32>)
    ensures
        r@ == sweep_counts(),
{
    let r = vec![5i32, 20i32, 30i32, 50i32, 100i32, 200i32, 1000i32];
    proof {
        assert(r@ =~= sweep_counts());
    }
    r
}

/// One harness run of the sweep as the backend reports it: how many
/// warmup and measured executions it performed, how many failed, and the
/// raw units summed over the measured phase.
#[derive(Clone, Copy, Debug, PartialEq, Eq, Structural)]
pub struct VmMeasurement {
    pub warmup_runs: u64,
    pub measured_runs: u64,
    pub failures: u64,
    pub total_raw: u64,
}

/// The warmup runs the harness owes: one, unless a single repeat was
/// asked for, in which case warmup is skipped.
pub open spec fn spec_expected_warmups(repeats: u64) -> u64 {
    if repeats != 1 {
        1u64
    } else {
        0u64
    }
}

/// What `compute_function_call_cost` returns.
pub open spec fn spec_compute_function_call_cost(repeats: u64, m: VmMeasurement) -> Result<
    u64,
    EstimatorError,
> {
    if m.failures != 0 {
        Err(EstimatorError::ExecutionFailure)
    } else if m.warmup_runs != spec_expected_warmups(repeats) {
        Err(EstimatorError::HarnessMismatch)
    } else if m.measured_runs != repeats {
        Err(EstimatorError::HarnessMismatch)
    } else {
        Ok(m.total_raw)
    }
}

/// The total raw cost of calling one contract method `repeats` times.
///
/// The harness must have run one warmup execution (none when `repeats`
/// is one), then exactly `repeats` measured executions, all successful;
/// any failure is fatal, and a reading of another shape is refused.
pub fn compute_function_call_cost(repeats: u64, m: &VmMeasurement) -> (r: Result<
    u64,
    EstimatorError,
>)
    ensures
        r == spec_compute_function_call_cost(repeats, *m),
{
    if m.failures != 0 {
        return Err(EstimatorError::ExecutionFailure);
    }
    let expected_warmups: u64 = if repeats != 1 {
        1
    } else {
        0
    };
    if m.warmup_runs != expected_warmups {
        return Err(EstimatorError::HarnessMismatch);
    }
    if m.measured_runs != repeats {
        return Err(EstimatorError::HarnessMismatch);
    }
    Ok(m.total_raw)
}

/// What `ratio_to_gas_signed` returns: the signed rational `num / den`
/// times the metric's multiplier, rounded toward zero, or `Overflow`
/// when an intermediate or the result does not fit.
pub open spec fn spec_ratio_to_gas_signed(m: GasMetric, num: int, den: int) -> Result<
    i64,
    CostError,
> {
    let mult = gas_multiplier(m) as int;
    let n = if num >= 0 {
        num
    } else {
        -num
    };
    let d = if den > 0 {
        den
    } else {
        -den
    };
    let positive = (num >= 0) == (den > 0);
    if n > i128::MAX || n * mult > i128::MAX {
        Err(CostError::Overflow)
    } else {
        let g = (n * mult) / d;
        if g > i64::MAX {
            Err(CostError::Overflow)
        } else if positive {
            Ok(g as i64)
        } else {
            Ok((-g) as i64)
        }
    }
}

/// Converts a signed rational number of raw units into signed gas units,
/// rounding toward zero.
pub fn ratio_to_gas_signed(metric: GasMetric, num: i128, den: i128) -> (r: Result<i64, CostError>)
    requires
        den != 0,
        den != i128::MIN,
    ensures
        r == spec_ratio_to_gas_signed(metric, num as int, den as int),
{
    let mult: i128 = match metric {
        GasMetric::Time => GAS_PER_NANOSECOND as i128,
        GasMetric::ICount => GAS_PER_INSTRUCTION as i128,
    };
    if num == i128::MIN {
        return Err(CostError::Overflow);
    }
    let n = if num >= 0 {
        num
    } else {
        -num
    };
    let d = if den > 0 {
        den
    } else {
        -den
    };
    proof {
        lemma_mul_overflow_check(n as int, mult as int, i128::MAX as int);
    }
    if n > i128::MAX / mult {
        return Err(CostError::Overflow);
    }
    let p = n * mult;
    proof {
        crate::gas::lemma_mul_of_positives(1, 1);
        assert(0 <= (p as int) / (d as int) <= p) by (nonlinear_arith)
            requires
                0 <= p,
                1 <= d,
        ;
    }
    let g = p / d;
    if g > i64::MAX as i128 {
        return Err(CostError::Overflow);
    }
    let positive = (num >= 0) == (den > 0);
    if positive {
        Ok(g as i64)
    } else {
        Ok(-g as i64)
    }
}

/// A positive quantity exceeds `max / mult` exactly when multiplying it
/// by `mult` exceeds `max`.
proof fn lemma_mul_overflow_check(n: int, mult: int, max: int)
    requires
        0 <= n,
        1 <= mult,
        0 <= max,
    ensures
        (n > max / mult) <==> (n * mult > max),
{
    vstd::arithmetic::div_mod::lemma_fundamental_div_mod(max, mult);
    vstd::arithmetic::div_mod::lemma_mod_bound(max, mult);
    let q = max / mult;
    let rem = max % mult;
    if n > q {
        assert(n * mult > max) by (nonlinear_arith)
            requires
                n >= q + 1,
                1 <= mult,
                max == mult * q + rem,
                rem < mult,
        ;
    } else {
        assert(n * mult <= max) by (nonlinear_arith)
            requires
                n <= q,
                0 <= n,
                1 <= mult,
                max == mult * q + rem,
                0 <= rem,
        ;
    }
}

/// What `fit_function_call_cost` returns: `None` under a non-additive
/// metric, for a singular system, or when a coefficient does not fit in
/// gas units; otherwise the fitted intercept and slope in gas.
pub open spec fn spec_fit_function_call(metric: GasMetric, xs: Seq<u64>, ys: Seq<u64>) -> Option<
    (i64, i64),
> {
    if !spec_is_additive(metric) {
        None
    } else {
        let d = fit_denominator(xs);
        if d == 0 {
            None
        } else {
            let ib = spec_ratio_to_gas_signed(metric, intercept_numerator(xs, ys), d);
            let sb = spec_ratio_to_gas_signed(metric, slope_numerator(xs, ys), d);
            match (ib, sb) {
                (Ok(b), Ok(s)) => Some((b, s)),
                _ => None,
            }
        }
    }
}

/// Fits the function-call sweep `(code size, raw cost)` to a linear
/// model and converts both coefficients to gas.
///
/// Regression is meaningful only under an additive metric: under
/// wall-clock time the fit is skipped, never silently produced. Under
/// the instruction count, `None` means the sizes were all equal or a
/// coefficient did not fit in gas units.
pub fn fit_function_call_cost(metric: GasMetric, xs: &Vec<u64>, ys: &Vec<u64>) -> (r: Option<
    (i64, i64),
>)
    requires
        xs@.len() == ys@.len(),
        2 <= xs@.len() <= MAX_SWEEP_LEN,
        forall|i: int| 0 <= i < xs@.len() ==> xs@[i] <= MAX_SWEEP_X,
        forall|i: int| 0 <= i < ys@.len() ==> ys@[i] <= MAX_SWEEP_Y,
    ensures
        r == spec_fit_function_call(metric, xs@, ys@),
{
    if !is_additive(metric) {
        return None;
    }
    let f = match least_squares_method(xs, ys) {
        Some(f) => f,
        None => {
            return None;
        },
    };
    let base = match ratio_to_gas_signed(metric, f.intercept_num, f.den) {
        Ok(b) => b,
        Err(_) => {
            return None;
        },
    };
    let byte = match ratio_to_gas_signed(metric, f.slope_num, f.den) {
        Ok(s) => s,
        Err(_) => {
            return None;
        },
    };
    Some((base, byte))
}

/// What the sweep's point collection computes: for each method count, in
/// order, the compiled size of the generated contract and the measured
/// raw cost per execution; or the first error, in measurement order.
pub open spec fn spec_sweep_points(counts: Seq<i32>, ms: Seq<VmMeasurement>, repeats: u64) -> Result<
    (Seq<u64>, Seq<u64>),
    EstimatorError,
>
    decreases counts.len(),
{
    if counts.len() == 0 {
        Ok((Seq::empty(), Seq::empty()))
    } else {
        let n = counts[0];
        if n < 0 {
            Err(EstimatorError::WorkloadRejected)
        } else {
            match wat_parse(module_wat(n as nat)) {
                None => Err(EstimatorError::WorkloadRejected),
                Some(code) => match spec_compute_function_call_cost(repeats, ms[0]) {
                    Err(e) => Err(e),
                    Ok(total) => match spec_sweep_points(
                        counts.drop_first(),
                        ms.drop_first(),
                        repeats,
                    ) {
                        Err(e) => Err(e),
                        Ok((xs, ys)) => Ok(
                            (
                                seq![code.len() as u64] + xs,
                                seq![(total as int / repeats as int) as u64] + ys,
                            ),
                        ),
                    },
                },
            }
        }
    }
}

/// Whether any point of the sweep lies beyond what the exact fit
/// arithmetic can take.
pub open spec fn sweep_out_of_range(xs: Seq<u64>, ys: Seq<u64>) -> bool {
    (exists|i: int| 0 <= i < xs.len() && xs[i] > MAX_SWEEP_X) || (exists|i: int|
        0 <= i < ys.len() && ys[i] > MAX_SWEEP_Y)
}

/// Runs the whole function-call size sweep: generates the contract for
/// each method count, takes its measured harness run from `measurements`
/// (one per count, in order), averages the raw total over the repeats,
/// and fits the model.
///
/// A failed or malformed harness run aborts the sweep; a rejected
/// generated workload does too. `Ok(None)` means the fit was skipped:
/// under a non-additive metric, for points beyond the exact fit's range,
/// or when no line is determined.
pub fn function_call_sweep(
    metric: GasMetric,
    repeats: u64,
    measurements: &Vec<VmMeasurement>,
) -> (r: Result<Option<(i64, i64)>, EstimatorError>)
    requires
        1 <= repeats,
    ensures
        measurements@.len() != sweep_counts().len() ==> r == Err::<
            Option<(i64, i64)>,
            EstimatorError,
        >(EstimatorError::HarnessMismatch),
        measurements@.len() == sweep_counts().len() ==> match spec_sweep_points(
            sweep_counts(),
            measurements@,
            repeats,
        ) {
            Err(e) => r == Err::<Option<(i64, i64)>, EstimatorError>(e),
            Ok((xs, ys)) => if sweep_out_of_range(xs, ys) {
                r == Ok::<Option<(i64, i64)>, EstimatorError>(None)
            } else {
                r == Ok::<Option<(i64, i64)>, EstimatorError>(
                    spec_fit_function_call(metric, xs, ys),
                )
            },
        },
{
    let counts = function_call_method_counts();
    if measurements.len() != counts.len() {
        return Err(EstimatorError::HarnessMismatch);
    }
    let mut xs: Vec<u64> = Vec::new();
    let mut ys: Vec<u64> = Vec::new();
    let mut i: usize = 0;
    proof {
        assert(counts@.skip(0) =~= counts@);
        assert(measurements@.skip(0) =~= measurements@);
    }
    while i < counts.len()
        invariant
            0 <= i <= counts@.len(),
            counts@ == sweep_counts(),
            measurements@.len() == counts@.len(),
            xs@.len() == i,
            ys@.len() == i,
            1 <= repeats,
            ({
                match spec_sweep_points(counts@.skip(i as int), measurements@.skip(i as int), repeats) {
                    Err(e) => spec_sweep_points(counts@, measurements@, repeats) == Err::<
                        (Seq<u64>, Seq<u64>),
                        EstimatorError,
                    >(e),
                    Ok((xs_s, ys_s)) => spec_sweep_points(counts@, measurements@, repeats) == Ok::<
                        (Seq<u64>, Seq<u64>),
                        EstimatorError,
                    >((xs@ + xs_s, ys@ + ys_s)),
                }
            }),
        decreases counts@.len() - i,
    {
        proof {
            assert(counts@.skip(i as int).drop_first() =~= counts@.skip(i as int + 1));
            assert(measurements@.skip(i as int).drop_first() =~= measurements@.skip(i as int + 1));
            assert(counts@.skip(i as int)[0] == counts@[i as int]);
            assert(measurements@.skip(i as int)[0] == measurements@[i as int]);
        }
        let n = counts[i];
        if n < 0 {
            return Err(EstimatorError::WorkloadRejected);
        }
        let contract = match make_many_methods_contract(n) {
            Some(c) => c,
            None => {
                return Err(EstimatorError::WorkloadRejected);
            },
        };
        let total = match compute_function_call_cost(repeats, &measurements[i]) {
            Ok(t) => t,
            Err(e) => {
                return Err(e);
            },
        };
        let x = contract.get_code().len() as u64;
        let y = total / repeats;
        let ghost xs_old = xs@;
        let ghost ys_old = ys@;
        xs.push(x);
        ys.push(y);
        proof {
            match spec_sweep_points(
                counts@.skip(i as int + 1),
                measurements@.skip(i as int + 1),
                repeats,
            ) {
                Err(_) => {},
                Ok((xs_s, ys_s)) => {
                    assert(xs@ + xs_s =~= xs_old + (seq![x] + xs_s));
                    assert(ys@ + ys_s =~= ys_old + (seq![y] + ys_s));
                },
            }
        }
        i = i + 1;
    }
    proof {
        assert(counts@.skip(i as int).len() == 0);
        assert(xs@ + Seq::<u64>::empty() =~= xs@);
        assert(ys@ + Seq::<u64>::empty() =~= ys@);
    }
    // Refuse points beyond the exact fit's range instead of overflowing.
    let mut j: usize = 0;
    while j < xs.len()
        invariant
            0 <= j <= xs@.len(),
            xs@.len() == ys@.len(),
            2 <= xs@.len() <= MAX_SWEEP_LEN,
            measurements@.len() == sweep_counts().len(),
            spec_sweep_points(sweep_counts(), measurements@, repeats) == Ok::<
                (Seq<u64>, Seq<u64>),
                EstimatorError,
            >((xs@, ys@)),
            forall|k: int| 0 <= k < j ==> xs@[k] <= MAX_SWEEP_X && ys@[k] <= MAX_SWEEP_Y,
        decreases xs@.len() - j,
    {
        if xs[j] > MAX_SWEEP_X || ys[j] > MAX_SWEEP_Y {
            proof {
                assert(sweep_out_of_range(xs@, ys@)) by {
                    assert(xs@[j as int] > MAX_SWEEP_X || ys@[j as int] > MAX_SWEEP_Y);
                }
            }
            return Ok(None);
        }
        j = j + 1;
    }
    proof {
        assert(!sweep_out_of_range(xs@, ys@));
    }
    Ok(fit_function_call_cost(metric, &xs, &ys))
}

} // verus!
