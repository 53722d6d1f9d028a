use params_estimator::estimator::{
    action_receipt_creation, action_transfer, all_costs, host_function_call, run, Bench,
    CachedCosts, Config, Cost, Ctx, EstimatorError, Measurement, VmKind,
};
use params_estimator::gas::{CostError, GasMetric};
use params_estimator::workload::{ExtCostKind, WorkloadKind};

fn config(metric: GasMetric, filter: Option<Vec<Cost>>) -> Config {
    Config {
        warmup_iters_per_block: 1,
        iter_per_block: 10,
        active_accounts: 100,
        block_sizes: vec![10],
        metric,
        vm_kind: VmKind::Wasmer0,
        costs_to_measure: filter,
    }
}

fn reading(total_raw: u64) -> Measurement {
    Measurement { total_raw, failures: 0, ext_counters: Vec::new() }
}

fn reading_with_counter(total_raw: u64, kind: ExtCostKind, count: u64) -> Measurement {
    Measurement { total_raw, failures: 0, ext_counters: vec![(kind, count)] }
}

#[test]
fn transfer_is_total_minus_receipt_baseline() {
    // Each reading averages over 10 iterations * 10 transactions.
    let mut ctx = Ctx::new(config(GasMetric::ICount, None));
    let mut bench = Bench::new(vec![reading(30_000), reading(10_000)]);
    let transfer = action_transfer(&mut ctx, &mut bench).unwrap();
    // (30000/100) - (10000/100) == 200, unreduced over 100*100.
    assert_eq!(transfer.num, 2_000_000);
    assert_eq!(transfer.den, 10_000);
    assert_eq!(bench.pos, 2);

    // Recomputing the baseline returns the memoized value and re-runs
    // no measurement: the tape cursor does not move.
    let base = action_receipt_creation(&mut ctx, &mut bench).unwrap();
    assert_eq!(base.num, 10_000);
    assert_eq!(base.den, 100);
    assert_eq!(bench.pos, 2);
}

#[test]
fn memoized_baseline_measures_once() {
    let mut ctx = Ctx::new(config(GasMetric::ICount, None));
    let mut bench = Bench::new(vec![reading(500)]);
    let first = action_receipt_creation(&mut ctx, &mut bench).unwrap();
    assert_eq!(bench.pos, 1);
    let second = action_receipt_creation(&mut ctx, &mut bench).unwrap();
    assert_eq!(second, first);
    // The second call consumed nothing from the tape.
    assert_eq!(bench.pos, 1);
}

#[test]
fn negative_marginal_cost_raises() {
    // The transfer total is below the baseline: a miscalibrated
    // baseline must raise, never clamp to zero.
    let mut ctx = Ctx::new(config(GasMetric::ICount, None));
    let mut bench = Bench::new(vec![reading(5_000), reading(10_000)]);
    let r = action_transfer(&mut ctx, &mut bench);
    assert_eq!(r, Err(EstimatorError::Arithmetic { error: CostError::NegativeCost }));
}

#[test]
fn exhausted_tape_describes_next_measurement() {
    let mut ctx = Ctx::new(config(GasMetric::Time, None));
    let mut bench = Bench::new(Vec::new());
    let r = action_transfer(&mut ctx, &mut bench);
    match r {
        Err(EstimatorError::NeedMeasurement { request }) => {
            assert_eq!(request.kind, WorkloadKind::Transfer);
            assert_eq!(request.block_size, 10);
            assert_eq!(request.iter_per_block, 10);
            assert_eq!(request.warmup_iters_per_block, 1);
            assert_eq!(request.metric, GasMetric::Time);
        },
        other => panic!("expected a measurement request, got {:?}", other),
    }
    assert_eq!(bench.pos, 0);
}

#[test]
fn execution_failure_aborts() {
    let mut ctx = Ctx::new(config(GasMetric::ICount, None));
    let mut bench = Bench::new(vec![Measurement {
        total_raw: 30_000,
        failures: 1,
        ext_counters: Vec::new(),
    }]);
    assert_eq!(action_transfer(&mut ctx, &mut bench), Err(EstimatorError::ExecutionFailure));
}

#[test]
fn host_function_counter_must_match() {
    let mut ctx = Ctx::new(config(GasMetric::ICount, None));
    // The million-call workload reports a count that disagrees with the
    // statically expected million.
    let mut bench = Bench::new(vec![reading_with_counter(50_000, ExtCostKind::Base, 999_999)]);
    assert_eq!(host_function_call(&mut ctx, &mut bench), Err(EstimatorError::CounterMismatch));
}

#[test]
fn host_function_missing_counter_is_refused() {
    let mut ctx = Ctx::new(config(GasMetric::ICount, None));
    let mut bench = Bench::new(vec![reading(50_000)]);
    assert_eq!(host_function_call(&mut ctx, &mut bench), Err(EstimatorError::CounterMismatch));
}

#[test]
fn catalog_is_fixed_and_complete() {
    let costs = all_costs();
    assert_eq!(costs.len(), 21);
    assert_eq!(costs[0], Cost::ActionReceiptCreation);
    assert_eq!(costs[2], Cost::ActionTransfer);
    assert_eq!(costs[20], Cost::WriteMemoryByte);
}

#[test]
fn empty_filter_runs_nothing() {
    let mut bench = Bench::new(Vec::new());
    let table = run(config(GasMetric::ICount, Some(Vec::new())), &mut bench).unwrap();
    assert!(table.entries.is_empty());
    assert_eq!(bench.pos, 0);
}

#[test]
fn smoke() {
    // A filtered run over the host-function costs, under the time
    // metric, against a scripted tape: two measured iterations per
    // block, pool of twenty thousand accounts, blocks of one hundred.
    let metrics = vec![
        Cost::HostFunctionCall,
        Cost::ReadMemoryBase,
        Cost::ReadMemoryByte,
        Cost::WriteMemoryBase,
        Cost::WriteMemoryByte,
    ];
    let config = Config {
        warmup_iters_per_block: 1,
        iter_per_block: 2,
        active_accounts: 20000,
        block_sizes: vec![100],
        metric: GasMetric::Time,
        vm_kind: VmKind::Wasmer0,
        costs_to_measure: Some(metrics),
    };
    // Host-function workloads run blocks of 2, so 4 executions per
    // reading; the noop baseline runs full blocks, 200 executions.
    let tape = vec![
        reading_with_counter(4_000_016, ExtCostKind::Base, 1_000_000),
        reading(400),
        reading_with_counter(40_016, ExtCostKind::ReadMemoryBase, 10_000),
        reading_with_counter(125_829_120_008, ExtCostKind::ReadMemoryByte, 10_485_760_000),
        reading_with_counter(40_016, ExtCostKind::WriteMemoryBase, 10_000),
        reading_with_counter(125_829_120_008, ExtCostKind::WriteMemoryByte, 10_485_760_000),
    ];
    let mut bench = Bench::new(tape);
    let table = run(config, &mut bench).unwrap();
    assert_eq!(
        table.entries,
        vec![
            (Cost::HostFunctionCall, 1_000_002),
            (Cost::ReadMemoryBase, 1_000_200),
            (Cost::ReadMemoryByte, 3_000_000),
            (Cost::WriteMemoryBase, 1_000_200),
            (Cost::WriteMemoryByte, 3_000_000),
        ]
    );
    // Every reading was consumed, and the noop baseline only once.
    assert_eq!(bench.pos, 6);
}

#[test]
fn full_catalog_run_in_order() {
    // Every catalog entry against one scripted tape, with single-iteration
    // single-transaction blocks so that each reading is the cost of one
    // transaction. Memoized baselines appear once: 23 readings cover all
    // 21 costs.
    let config = Config {
        warmup_iters_per_block: 1,
        iter_per_block: 1,
        active_accounts: 100,
        block_sizes: vec![1],
        metric: GasMetric::Time,
        vm_kind: VmKind::Wasmer0,
        costs_to_measure: None,
    };
    let tape = vec![
        reading(10),                     // receipt creation (cross-account)
        reading(10),                     // receipt creation (self)
        reading(30),                     // transfer total
        reading(50),                     // create-account total
        reading(25),                     // delete-account total
        reading(18),                     // add full access key total
        reading(30),                     // add function access key total
        reading(50),                     // thousand-method access key total
        reading(22),                     // delete-key total
        reading(19),                     // stake total
        reading(110),                    // smallest-contract deploy total
        reading(1100),                   // large-contract deploy total
        reading(12),                     // noop function call
        reading(1060),                   // mebibyte-argument call total
        reading_with_counter(2_000_024, ExtCostKind::Base, 1_000_000),
        reading_with_counter(600, ExtCostKind::Base, 2_000),
        reading_with_counter(200, ExtCostKind::Base, 2_000),
        reading_with_counter(2_000, ExtCostKind::Base, 2_000),
        reading_with_counter(600, ExtCostKind::Base, 2_000),
        reading_with_counter(40_024, ExtCostKind::ReadMemoryBase, 10_000),
        reading_with_counter(104_857_600_024, ExtCostKind::ReadMemoryByte, 10_485_760_000),
        reading_with_counter(40_024, ExtCostKind::WriteMemoryBase, 10_000),
        reading_with_counter(104_857_600_024, ExtCostKind::WriteMemoryByte, 10_485_760_000),
    ];
    let mut bench = Bench::new(tape);
    let table = run(config, &mut bench).unwrap();
    assert_eq!(
        table.entries,
        vec![
            (Cost::ActionReceiptCreation, 10_000_000),
            (Cost::ActionSirReceiptCreation, 10_000_000),
            (Cost::ActionTransfer, 20_000_000),
            (Cost::ActionCreateAccount, 40_000_000),
            (Cost::ActionDeleteAccount, 15_000_000),
            (Cost::ActionAddFullAccessKey, 8_000_000),
            (Cost::ActionAddFunctionAccessKeyBase, 20_000_000),
            // (50 - 30) raw over the 10_000 bytes of method names.
            (Cost::ActionAddFunctionAccessKeyPerByte, 3_000),
            (Cost::ActionDeleteKey, 12_000_000),
            (Cost::ActionStake, 9_000_000),
            (Cost::ActionDeployContractBase, 100_000_000),
            // The large deploy total (1100) minus the memoized base
            // marginal (100), spread over the mebibyte, floored in gas.
            (Cost::ActionDeployContractPerByte, 953),
            (Cost::ActionFunctionCallBase, 2_000_000),
            (Cost::ActionFunctionCallPerByte, 999),
            (Cost::HostFunctionCall, 1_000_000),
            (Cost::DataReceiptCreationBase, 200_000_000),
            (Cost::DataReceiptCreationPerByte, 6),
            (Cost::ReadMemoryBase, 2_000_000),
            (Cost::ReadMemoryByte, 5_000_000),
            (Cost::WriteMemoryBase, 2_000_000),
            (Cost::WriteMemoryByte, 5_000_000),
        ]
    );
    assert_eq!(bench.pos, 23);
}

#[test]
fn identical_tapes_give_identical_tables() {
    // The engine is a function of its configuration and readings alone:
    // measuring twice with identical readings yields identical results.
    let tape = vec![reading(30_000), reading(10_000), reading(12_000)];
    let mut bench1 = Bench::new(tape.clone());
    let mut bench2 = Bench::new(tape);
    let filter = Some(vec![Cost::ActionTransfer, Cost::ActionCreateAccount]);
    let t1 = run(config(GasMetric::ICount, filter.clone()), &mut bench1).unwrap();
    let t2 = run(config(GasMetric::ICount, filter), &mut bench2).unwrap();
    assert_eq!(t1.entries, t2.entries);
}

#[test]
fn cache_starts_empty() {
    let ctx = Ctx::new(config(GasMetric::ICount, None));
    let CachedCosts {
        action_receipt_creation: a,
        action_sir_receipt_creation: b,
        action_add_function_access_key_base: c,
        action_deploy_contract_base: d,
        noop_host_function_call_cost: e,
    } = ctx.cached;
    assert!(a.is_none() && b.is_none() && c.is_none() && d.is_none() && e.is_none());
}
