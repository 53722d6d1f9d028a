use params_estimator::estimator::EstimatorError;
use params_estimator::function_call::{
    compute_function_call_cost, fit_function_call_cost, function_call_method_counts,
    function_call_sweep, make_many_methods_contract, ratio_to_gas_signed, VmMeasurement, REPEATS,
};
use params_estimator::gas::{CostError, GasMetric};

#[test]
fn generated_contract_compiles() {
    let c = make_many_methods_contract(3).unwrap();
    // A translated module starts with the WebAssembly magic bytes.
    let code = c.get_code();
    assert!(code.len() > 8);
    assert_eq!(&code[0..4], &[0x00, 0x61, 0x73, 0x6d]);
}

#[test]
fn generated_contract_is_deterministic() {
    // Building the same workload twice must give cost-equivalent inputs:
    // the compiled bytes are a function of the method count alone.
    let a = make_many_methods_contract(7).unwrap();
    let b = make_many_methods_contract(7).unwrap();
    assert_eq!(a.get_code(), b.get_code());
}

#[test]
fn generated_contract_grows_with_method_count() {
    let small = make_many_methods_contract(5).unwrap();
    let large = make_many_methods_contract(200).unwrap();
    assert!(small.get_code().len() < large.get_code().len());
}

#[test]
fn harness_totals_pass_through() {
    let m = VmMeasurement { warmup_runs: 1, measured_runs: REPEATS, failures: 0, total_raw: 420 };
    assert_eq!(compute_function_call_cost(REPEATS, &m), Ok(420));
}

#[test]
fn harness_skips_warmup_only_for_single_repeat() {
    let m = VmMeasurement { warmup_runs: 0, measured_runs: 1, failures: 0, total_raw: 9 };
    assert_eq!(compute_function_call_cost(1, &m), Ok(9));
    let m = VmMeasurement { warmup_runs: 0, measured_runs: 2, failures: 0, total_raw: 9 };
    assert_eq!(compute_function_call_cost(2, &m), Err(EstimatorError::HarnessMismatch));
}

#[test]
fn harness_failure_is_fatal() {
    let m = VmMeasurement { warmup_runs: 1, measured_runs: REPEATS, failures: 1, total_raw: 420 };
    assert_eq!(compute_function_call_cost(REPEATS, &m), Err(EstimatorError::ExecutionFailure));
}

#[test]
fn ratio_to_gas_signed_keeps_sign() {
    assert_eq!(ratio_to_gas_signed(GasMetric::ICount, 2, 1), Ok(250_000));
    assert_eq!(ratio_to_gas_signed(GasMetric::ICount, -2, 1), Ok(-250_000));
    assert_eq!(ratio_to_gas_signed(GasMetric::Time, 3, -2), Ok(-1_500_000));
}

#[test]
fn ratio_to_gas_signed_overflow_is_loud() {
    assert_eq!(ratio_to_gas_signed(GasMetric::Time, i128::MAX, 1), Err(CostError::Overflow));
}

#[test]
fn sweep_fit_under_instruction_count() {
    // Contracts of the sweep's method counts, with noise-free costs
    // linear in the compiled size: y = 1000 + 7 * size.
    let counts = function_call_method_counts();
    assert_eq!(counts, vec![5, 20, 30, 50, 100, 200, 1000]);
    let mut xs: Vec<u64> = Vec::new();
    let mut ys: Vec<u64> = Vec::new();
    for n in counts {
        let contract = make_many_methods_contract(n).unwrap();
        let len = contract.get_code().len() as u64;
        xs.push(len);
        ys.push(1000 + 7 * len);
    }
    let (base, byte) = fit_function_call_cost(GasMetric::ICount, &xs, &ys).unwrap();
    // The fit recovers the line exactly, so the gas values are the
    // coefficients times the instruction multiplier.
    assert_eq!(base, 1000 * 125_000);
    assert_eq!(byte, 7 * 125_000);
    assert!(base >= 0 && byte >= 0);
}

#[test]
fn full_sweep_averages_and_fits() {
    // One harness run per method count; raw totals lie exactly on
    // total = REPEATS * (1000 + 7 * compiled size).
    let counts = function_call_method_counts();
    let mut ms: Vec<VmMeasurement> = Vec::new();
    for n in counts {
        let len = make_many_methods_contract(n).unwrap().get_code().len() as u64;
        ms.push(VmMeasurement {
            warmup_runs: 1,
            measured_runs: REPEATS,
            failures: 0,
            total_raw: REPEATS * (1000 + 7 * len),
        });
    }
    let fit = function_call_sweep(GasMetric::ICount, REPEATS, &ms).unwrap();
    assert_eq!(fit, Some((1000 * 125_000, 7 * 125_000)));
    // The same sweep under wall-clock time skips the fit.
    assert_eq!(function_call_sweep(GasMetric::Time, REPEATS, &ms).unwrap(), None);
    // A sweep with a missing run is refused.
    ms.pop();
    assert_eq!(
        function_call_sweep(GasMetric::ICount, REPEATS, &ms),
        Err(EstimatorError::HarnessMismatch)
    );
}

#[test]
fn sweep_aborts_on_failed_run() {
    let counts = function_call_method_counts();
    let mut ms: Vec<VmMeasurement> = Vec::new();
    for _ in &counts {
        ms.push(VmMeasurement {
            warmup_runs: 1,
            measured_runs: REPEATS,
            failures: 0,
            total_raw: 50_000,
        });
    }
    ms[3].failures = 1;
    assert_eq!(
        function_call_sweep(GasMetric::ICount, REPEATS, &ms),
        Err(EstimatorError::ExecutionFailure)
    );
}

#[test]
fn sweep_fit_is_skipped_under_time() {
    let xs: Vec<u64> = vec![10, 20, 30];
    let ys: Vec<u64> = vec![1010, 1020, 1030];
    assert!(fit_function_call_cost(GasMetric::Time, &xs, &ys).is_none());
    assert!(fit_function_call_cost(GasMetric::ICount, &xs, &ys).is_some());
}
