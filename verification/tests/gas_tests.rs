use params_estimator::gas::{CostError, GasCost, GasMetric};

#[test]
fn sub_is_exact() {
    // 300 - 100 raw units per transaction, both averaged over 100 runs.
    let total = GasCost::new(GasMetric::ICount, 30_000, 100);
    let base = GasCost::new(GasMetric::ICount, 10_000, 100);
    let d = total.checked_sub(&base).unwrap();
    // (30000*100 - 10000*100) / (100*100) == 200, kept unreduced.
    assert_eq!(d.num, 2_000_000);
    assert_eq!(d.den, 10_000);
    assert_eq!(d.metric, GasMetric::ICount);
}

#[test]
fn sub_raises_on_negative_never_clamps() {
    let total = GasCost::new(GasMetric::ICount, 10, 1);
    let base = GasCost::new(GasMetric::ICount, 11, 1);
    assert_eq!(total.checked_sub(&base), Err(CostError::NegativeCost));
}

#[test]
fn sub_refuses_mixed_metrics() {
    let t = GasCost::new(GasMetric::Time, 10, 1);
    let i = GasCost::new(GasMetric::ICount, 1, 1);
    assert_eq!(t.checked_sub(&i), Err(CostError::MetricMismatch));
}

#[test]
fn div_is_exact_rational() {
    // A marginal cost of 5 raw units divided over 1024*1024 bytes: the
    // per-byte rate is exactly 5 / (1024*1024), with no rounding.
    let c = GasCost::new(GasMetric::ICount, 5, 1);
    let per_byte = c.checked_div(1024 * 1024).unwrap();
    assert_eq!(per_byte.num, 5);
    assert_eq!(per_byte.den, 1024 * 1024);
    // Only the final gas conversion rounds: 5 * 125000 / 1048576 == 0.59...
    assert_eq!(per_byte.to_gas(), Ok(0));
}

#[test]
fn div_overflow_is_loud() {
    let c = GasCost::new(GasMetric::ICount, 5, 2);
    assert_eq!(c.checked_div(u64::MAX), Err(CostError::Overflow));
}

#[test]
fn to_gas_uses_metric_multiplier() {
    let time = GasCost::new(GasMetric::Time, 7, 2);
    // 3.5 ns at 1_000_000 gas per ns.
    assert_eq!(time.to_gas(), Ok(3_500_000));
    let icount = GasCost::new(GasMetric::ICount, 7, 2);
    // 3.5 instructions at 125_000 gas per instruction.
    assert_eq!(icount.to_gas(), Ok(437_500));
}

#[test]
fn to_gas_rounds_down_once() {
    let c = GasCost::new(GasMetric::Time, 1, 3);
    // 1/3 ns -> 333333.3... gas, floored.
    assert_eq!(c.to_gas(), Ok(333_333));
}
