//! The cost catalog and its memoizing dependency resolver.
//!
//! Each catalog entry computes one protocol cost from raw measurements.
//! The execution backend lives outside the library: the resolver walks a
//! tape of readings that the caller recorded, and when the tape runs out
//! it returns the description of the next workload to measure. Costs
//! defined as marginal costs subtract a previously computed baseline,
//! which is memoized so that one run measures each baseline at most once.

use vstd::prelude::*;

use crate::gas::{CostError, GasCost, GasMetric};
use crate::workload::{ContractSource, ExtCostKind, HostFnMethod, WorkloadKind};

verus! {

/// The closed set of protocol cost slots this tool calibrates, in
/// catalog order.
#[derive(Clone, Copy, Debug, PartialEq, Eq, Structural)]
pub enum Cost {
    ActionReceiptCreation,
    ActionSirReceiptCreation,
    ActionTransfer,
    ActionCreateAccount,
    ActionDeleteAccount,
    ActionAddFullAccessKey,
    ActionAddFunctionAccessKeyBase,
    ActionAddFunctionAccessKeyPerByte,
    ActionDeleteKey,
    ActionStake,
    ActionDeployContractBase,
    ActionDeployContractPerByte,
    ActionFunctionCallBase,
    ActionFunctionCallPerByte,
    HostFunctionCall,
    DataReceiptCreationBase,
    DataReceiptCreationPerByte,
    ReadMemoryBase,
    ReadMemoryByte,
    WriteMemoryBase,
    WriteMemoryByte,
}

/// Which virtual machine the backend runs contracts on.
#[derive(Clone, Copy, Debug, PartialEq, Eq, Structural)]
pub enum VmKind {
    Wasmer0,
    Wasmer1,
    Wasmtime,
}

/// The fixed iteration and reporting order of the catalog.
pub open spec fn catalog_order() -> Seq<Cost> {
    seq![
        Cost::ActionReceiptCreation,
        Cost::ActionSirReceiptCreation,
        Cost::ActionTransfer,
        Cost::ActionCreateAccount,
        Cost::ActionDeleteAccount,
        Cost::ActionAddFullAccessKey,
        Cost::ActionAddFunctionAccessKeyBase,
        Cost::ActionAddFunctionAccessKeyPerByte,
        Cost::ActionDeleteKey,
        Cost::ActionStake,
        Cost::ActionDeployContractBase,
        Cost::ActionDeployContractPerByte,
        Cost::ActionFunctionCallBase,
        Cost::ActionFunctionCallPerByte,
        Cost::HostFunctionCall,
        Cost::DataReceiptCreationBase,
        Cost::DataReceiptCreationPerByte,
        Cost::ReadMemoryBase,
        Cost::ReadMemoryByte,
        Cost::WriteMemoryBase,
        Cost::WriteMemoryByte,
    ]
}

/// The catalog, in its fixed order.
pub fn all_costs() -> (r: Vec<Cost>)
    ensures
        r@ == catalog_order(),
{
    let mut r: Vec<Cost> = Vec::new();
    r.push(Cost::ActionReceiptCreation);
    r.push(Cost::ActionSirReceiptCreation);
    r.push(Cost::ActionTransfer);
    r.push(Cost::ActionCreateAccount);
    r.push(Cost::ActionDeleteAccount);
    r.push(Cost::ActionAddFullAccessKey);
    r.push(Cost::ActionAddFunctionAccessKeyBase);
    r.push(Cost::ActionAddFunctionAccessKeyPerByte);
    r.push(Cost::ActionDeleteKey);
    r.push(Cost::ActionStake);
    r.push(Cost::ActionDeployContractBase);
    r.push(Cost::ActionDeployContractPerByte);
    r.push(Cost::ActionFunctionCallBase);
    r.push(Cost::ActionFunctionCallPerByte);
    r.push(Cost::HostFunctionCall);
    r.push(Cost::DataReceiptCreationBase);
    r.push(Cost::DataReceiptCreationPerByte);
    r.push(Cost::ReadMemoryBase);
    r.push(Cost::ReadMemoryByte);
    r.push(Cost::WriteMemoryBase);
    r.push(Cost::WriteMemoryByte);
    proof {
        assert(r@ =~= catalog_order());
    }
    r
}

/// The configuration of one calibration run.
#[derive(Clone, Debug)]
pub struct Config {
    /// Warmup executions per block before the measured phase.
    pub warmup_iters_per_block: u64,
    /// Measured executions per block.
    pub iter_per_block: u64,
    /// Size of the reproducible account pool.
    pub active_accounts: u64,
    /// Transactions per measured block; the first entry is used, or one
    /// hundred when empty.
    pub block_sizes: Vec<u64>,
    /// The physical metric measurements are taken under.
    pub metric: GasMetric,
    /// The virtual machine the backend runs contracts on.
    pub vm_kind: VmKind,
    /// When present, only the listed costs are measured.
    pub costs_to_measure: Option<Vec<Cost>>,
}

/// The block size a configuration asks for.
pub open spec fn spec_default_block_size(cfg: Config) -> u64 {
    if cfg.block_sizes@.len() > 0 {
        cfg.block_sizes@[0]
    } else {
        100u64
    }
}

/// Returns the block size `cfg` asks for.
pub fn default_block_size(cfg: &Config) -> (r: u64)
    ensures
        r == spec_default_block_size(*cfg),
{
    if cfg.block_sizes.len() > 0 {
        cfg.block_sizes[0]
    } else {
        100
    }
}

/// Host-function workloads run small blocks so that per-block overhead
/// stays amortized while receipts stay within per-block limits.
pub const HOST_FN_BLOCK_SIZE: u64 = 2;

impl Config {
    /// The iteration counts are positive and small enough that the
    /// number of measured executions per reading fits the machine.
    pub open spec fn wf(&self) -> bool {
        &&& 1 <= self.iter_per_block
        &&& 1 <= spec_default_block_size(*self)
        &&& self.iter_per_block * spec_default_block_size(*self) <= u64::MAX
        &&& self.iter_per_block * HOST_FN_BLOCK_SIZE <= u64::MAX
        &&& 2 <= self.active_accounts
    }
}

/// One reading handed back by the execution backend: the raw units
/// summed over every measured execution of one workload, the number of
/// executions that failed, and the internal resource counters sampled
/// from the run.
#[derive(Clone, Debug)]
pub struct Measurement {
    pub total_raw: u64,
    pub failures: u64,
    pub ext_counters: Vec<(ExtCostKind, u64)>,
}

/// The description of one measurement the resolver needs: which workload
/// to run, how many transactions per block, how many warmup and measured
/// iterations, and under which metric.
#[derive(Clone, Copy, Debug, PartialEq, Eq, Structural)]
pub struct MeasureRequest {
    pub kind: WorkloadKind,
    pub block_size: u64,
    pub warmup_iters_per_block: u64,
    pub iter_per_block: u64,
    pub metric: GasMetric,
}

/// Why a calibration run stopped.
#[derive(Clone, Copy, Debug, PartialEq, Eq, Structural)]
pub enum EstimatorError {
    /// The tape of readings ran out; the run can continue once the
    /// described measurement has been performed and appended.
    NeedMeasurement { request: MeasureRequest },
    /// An execution failed during warmup or measurement. Fatal: the
    /// numbers of a failing workload are meaningless.
    ExecutionFailure,
    /// A resource counter was missing or disagreed with the statically
    /// expected count: the workload construction or the baseline is
    /// miscalibrated.
    CounterMismatch,
    /// A reading does not describe the harness shape it was asked for.
    HarnessMismatch,
    /// A generated workload was rejected before it could run: the
    /// workload construction is broken.
    WorkloadRejected,
    /// Cost arithmetic failed; `NegativeCost` means a baseline exceeded
    /// the composite measurement it was subtracted from.
    Arithmetic { error: CostError },
}

/// The tape of readings a run consumes, with a cursor.
#[derive(Clone, Debug)]
pub struct Bench {
    pub readings: Vec<Measurement>,
    pub pos: usize,
}

impl Bench {
    pub open spec fn wf(&self) -> bool {
        self.pos <= self.readings@.len()
    }

    /// A tape positioned at its first reading.
    pub fn new(readings: Vec<Measurement>) -> (r: Bench)
        ensures
            r.readings == readings,
            r.pos == 0,
            r.wf(),
    {
        Bench { readings, pos: 0 }
    }
}

/// The request the resolver makes for one workload measurement.
pub open spec fn spec_request(cfg: Config, kind: WorkloadKind, block_size: u64) -> MeasureRequest {
    MeasureRequest {
        kind,
        block_size,
        warmup_iters_per_block: cfg.warmup_iters_per_block,
        iter_per_block: cfg.iter_per_block,
        metric: cfg.metric,
    }
}

/// What measuring one workload returns: the average cost per
/// transaction, kept exact as `total / (iterations * block size)`; the
/// next needed measurement when the tape is exhausted; or the fatal
/// error when an execution failed.
pub open spec fn spec_measure(
    cfg: Config,
    kind: WorkloadKind,
    block_size: u64,
    tape: Seq<Measurement>,
    pos: int,
) -> Result<GasCost, EstimatorError> {
    if pos >= tape.len() {
        Err(EstimatorError::NeedMeasurement { request: spec_request(cfg, kind, block_size) })
    } else if tape[pos].failures != 0 {
        Err(EstimatorError::ExecutionFailure)
    } else {
        Ok(
            GasCost {
                metric: cfg.metric,
                num: tape[pos].total_raw,
                den: (cfg.iter_per_block * block_size) as u64,
            },
        )
    }
}

/// Consumes the next reading as the total cost of `kind`, averaged over
/// the executions of the measured phase.
fn measure_total(cfg: &Config, kind: WorkloadKind, block_size: u64, bench: &mut Bench) -> (r:
    Result<GasCost, EstimatorError>)
    requires
        cfg.wf(),
        old(bench).wf(),
        1 <= block_size,
        cfg.iter_per_block * block_size <= u64::MAX,
    ensures
        final(bench).wf(),
        final(bench).readings == old(bench).readings,
        r == spec_measure(*cfg, kind, block_size, old(bench).readings@, old(bench).pos as int),
        r is Ok ==> final(bench).pos == old(bench).pos + 1,
        !(r is Ok) ==> final(bench).pos == old(bench).pos,
        r matches Ok(c) ==> c.wf() && c.metric == cfg.metric,
{
    if bench.pos >= bench.readings.len() {
        return Err(
            EstimatorError::NeedMeasurement {
                request: MeasureRequest {
                    kind,
                    block_size,
                    warmup_iters_per_block: cfg.warmup_iters_per_block,
                    iter_per_block: cfg.iter_per_block,
                    metric: cfg.metric,
                },
            },
        );
    }
    if bench.readings[bench.pos].failures != 0 {
        return Err(EstimatorError::ExecutionFailure);
    }
    let total = bench.readings[bench.pos].total_raw;
    bench.pos = bench.pos + 1;
    proof {
        crate::gas::lemma_mul_of_positives(cfg.iter_per_block as int, block_size as int);
    }
    Ok(GasCost { metric: cfg.metric, num: total, den: cfg.iter_per_block * block_size })
}

/// The value of the first entry for `k` in a counter list.
pub open spec fn spec_counter_lookup(cs: Seq<(ExtCostKind, u64)>, k: ExtCostKind) -> Option<u64>
    decreases cs.len(),
{
    if cs.len() == 0 {
        None
    } else if cs[0].0 == k {
        Some(cs[0].1)
    } else {
        spec_counter_lookup(cs.drop_first(), k)
    }
}

/// Looks `k` up in a reading's counter list.
fn find_counter(cs: &Vec<(ExtCostKind, u64)>, k: ExtCostKind) -> (r: Option<u64>)
    ensures
        r == spec_counter_lookup(cs@, k),
{
    let mut i: usize = 0;
    proof {
        assert(cs@.skip(0) =~= cs@);
    }
    while i < cs.len()
        invariant
            0 <= i <= cs@.len(),
            spec_counter_lookup(cs@, k) == spec_counter_lookup(cs@.skip(i as int), k),
        decreases cs@.len() - i,
    {
        if cs[i].0 == k {
            proof {
                assert(cs@.skip(i as int)[0] == cs@[i as int]);
            }
            return Some(cs[i].1);
        }
        proof {
            assert(cs@.skip(i as int).drop_first() =~= cs@.skip(i as int + 1));
        }
        i = i + 1;
    }
    proof {
        assert(cs@.skip(i as int).len() == 0);
    }
    None
}

/// What measuring a host-function workload returns: the average cost
/// and the observed value of the requested resource counter.
pub open spec fn spec_measure_with_counter(
    cfg: Config,
    method: HostFnMethod,
    counter: ExtCostKind,
    tape: Seq<Measurement>,
    pos: int,
) -> Result<(GasCost, u64), EstimatorError> {
    let kind = WorkloadKind::FunctionCall { method, arg_len: 0 };
    match spec_measure(cfg, kind, HOST_FN_BLOCK_SIZE, tape, pos) {
        Err(e) => Err(e),
        Ok(c) => match spec_counter_lookup(tape[pos].ext_counters@, counter) {
            None => Err(EstimatorError::CounterMismatch),
            Some(v) => Ok((c, v)),
        },
    }
}

/// Consumes the next reading as a host-function measurement, together
/// with the requested resource counter.
fn measure_with_counter(
    cfg: &Config,
    method: HostFnMethod,
    counter: ExtCostKind,
    bench: &mut Bench,
) -> (r: Result<(GasCost, u64), EstimatorError>)
    requires
        cfg.wf(),
        old(bench).wf(),
    ensures
        final(bench).wf(),
        final(bench).readings == old(bench).readings,
        r == spec_measure_with_counter(
            *cfg,
            method,
            counter,
            old(bench).readings@,
            old(bench).pos as int,
        ),
        r is Ok ==> final(bench).pos == old(bench).pos + 1,
        !(r is Ok) ==> final(bench).pos == old(bench).pos,
        r matches Ok(c) ==> c.0.wf() && c.0.metric == cfg.metric,
{
    if bench.pos >= bench.readings.len() {
        return Err(
            EstimatorError::NeedMeasurement {
                request: MeasureRequest {
                    kind: WorkloadKind::FunctionCall { method, arg_len: 0 },
                    block_size: HOST_FN_BLOCK_SIZE,
                    warmup_iters_per_block: cfg.warmup_iters_per_block,
                    iter_per_block: cfg.iter_per_block,
                    metric: cfg.metric,
                },
            },
        );
    }
    if bench.readings[bench.pos].failures != 0 {
        return Err(EstimatorError::ExecutionFailure);
    }
    let v = match find_counter(&bench.readings[bench.pos].ext_counters, counter) {
        Some(v) => v,
        None => {
            return Err(EstimatorError::CounterMismatch);
        },
    };
    let total = bench.readings[bench.pos].total_raw;
    bench.pos = bench.pos + 1;
    proof {
        crate::gas::lemma_mul_of_positives(cfg.iter_per_block as int, HOST_FN_BLOCK_SIZE as int);
    }
    Ok((GasCost { metric: cfg.metric, num: total, den: cfg.iter_per_block * HOST_FN_BLOCK_SIZE }, v))
}

/// The memoization cache of one run: one named slot per cost whose value
/// other costs subtract as a baseline. Populated lazily, never
/// invalidated within a run.
#[derive(Clone, Copy, Debug)]
pub struct CachedCosts {
    pub action_receipt_creation: Option<GasCost>,
    pub action_sir_receipt_creation: Option<GasCost>,
    pub action_add_function_access_key_base: Option<GasCost>,
    pub action_deploy_contract_base: Option<GasCost>,
    pub noop_host_function_call_cost: Option<GasCost>,
}

/// The cache of a run that has measured nothing yet.
pub open spec fn empty_cache() -> CachedCosts {
    CachedCosts {
        action_receipt_creation: None,
        action_sir_receipt_creation: None,
        action_add_function_access_key_base: None,
        action_deploy_contract_base: None,
        noop_host_function_call_cost: None,
    }
}

/// A cache slot holds a well-formed cost taken under the run's metric.
pub open spec fn slot_wf(s: Option<GasCost>, m: GasMetric) -> bool {
    s matches Some(c) ==> c.wf() && c.metric == m
}

/// The state of one calibration run: its configuration and its
/// memoization cache.
#[derive(Clone, Debug)]
pub struct Ctx {
    pub config: Config,
    pub cached: CachedCosts,
}

impl Ctx {
    pub open spec fn wf(&self) -> bool {
        &&& self.config.wf()
        &&& slot_wf(self.cached.action_receipt_creation, self.config.metric)
        &&& slot_wf(self.cached.action_sir_receipt_creation, self.config.metric)
        &&& slot_wf(self.cached.action_add_function_access_key_base, self.config.metric)
        &&& slot_wf(self.cached.action_deploy_contract_base, self.config.metric)
        &&& slot_wf(self.cached.noop_host_function_call_cost, self.config.metric)
    }

    /// A run over `config` that has measured nothing yet.
    pub fn new(config: Config) -> (r: Ctx)
        requires
            config.wf(),
        ensures
            r.config == config,
            r.cached == empty_cache(),
            r.wf(),
    {
        Ctx {
            config,
            cached: CachedCosts {
                action_receipt_creation: None,
                action_sir_receipt_creation: None,
                action_add_function_access_key_base: None,
                action_deploy_contract_base: None,
                noop_host_function_call_cost: None,
            },
        }
    }
}

/// A memoized plain measurement: the cached value when the slot is
/// filled, else the next reading, which then fills the slot.
pub open spec fn spec_memo_measure(
    cfg: Config,
    slot: Option<GasCost>,
    kind: WorkloadKind,
    block_size: u64,
    tape: Seq<Measurement>,
    pos: int,
) -> (Result<GasCost, EstimatorError>, Option<GasCost>, int) {
    match slot {
        Some(c) => (Ok(c), slot, pos),
        None => match spec_measure(cfg, kind, block_size, tape, pos) {
            Ok(c) => (Ok(c), Some(c), pos + 1),
            Err(e) => (Err(e), None, pos),
        },
    }
}

/// A successful subtraction is the marginal cost; a failed one is fatal.
pub open spec fn spec_marginal(total: GasCost, baseline: GasCost) -> Result<
    GasCost,
    EstimatorError,
> {
    match total.spec_sub(baseline) {
        Ok(c) => Ok(c),
        Err(e) => Err(EstimatorError::Arithmetic { error: e }),
    }
}

/// What `action_receipt_creation` computes, with the cache and cursor it
/// leaves behind.
pub open spec fn spec_action_receipt_creation(
    cfg: Config,
    cache: CachedCosts,
    tape: Seq<Measurement>,
    pos: int,
) -> (Result<GasCost, EstimatorError>, CachedCosts, int) {
    let (r, slot, p) = spec_memo_measure(
        cfg,
        cache.action_receipt_creation,
        WorkloadKind::EmptyCrossAccount,
        spec_default_block_size(cfg),
        tape,
        pos,
    );
    (r, CachedCosts { action_receipt_creation: slot, ..cache }, p)
}

/// The cost of creating one action receipt between two distinct
/// accounts: the average cost of an empty cross-account transaction.
/// Memoized: the baseline of several marginal costs.
pub fn action_receipt_creation(ctx: &mut Ctx, bench: &mut Bench) -> (r: Result<
    GasCost,
    EstimatorError,
>)
    requires
        old(ctx).wf(),
        old(bench).wf(),
    ensures
        final(ctx).wf(),
        final(bench).wf(),
        final(ctx).config == old(ctx).config,
        final(bench).readings == old(bench).readings,
        ({
            let (sr, sc, sp) = spec_action_receipt_creation(
                old(ctx).config,
                old(ctx).cached,
                old(bench).readings@,
                old(bench).pos as int,
            );
            r == sr && final(ctx).cached == sc && final(bench).pos as int == sp
        }),
        r matches Ok(c) ==> c.wf() && c.metric == old(ctx).config.metric,
{
    if let Some(c) = ctx.cached.action_receipt_creation {
        return Ok(c);
    }
    let bs = default_block_size(&ctx.config);
    let c = match measure_total(&ctx.config, WorkloadKind::EmptyCrossAccount, bs, bench) {
        Ok(c) => c,
        Err(e) => {
            return Err(e);
        },
    };
    ctx.cached.action_receipt_creation = Some(c);
    Ok(c)
}

/// What `action_sir_receipt_creation` computes.
pub open spec fn spec_action_sir_receipt_creation(
    cfg: Config,
    cache: CachedCosts,
    tape: Seq<Measurement>,
    pos: int,
) -> (Result<GasCost, EstimatorError>, CachedCosts, int) {
    let (r, slot, p) = spec_memo_measure(
        cfg,
        cache.action_sir_receipt_creation,
        WorkloadKind::EmptySelf,
        spec_default_block_size(cfg),
        tape,
        pos,
    );
    (r, CachedCosts { action_sir_receipt_creation: slot, ..cache }, p)
}

/// The cost of creating one action receipt when the sender is the
/// receiver: the average cost of an empty self-directed transaction.
/// Memoized.
pub fn action_sir_receipt_creation(ctx: &mut Ctx, bench: &mut Bench) -> (r: Result<
    GasCost,
    EstimatorError,
>)
    requires
        old(ctx).wf(),
        old(bench).wf(),
    ensures
        final(ctx).wf(),
        final(bench).wf(),
        final(ctx).config == old(ctx).config,
        final(bench).readings == old(bench).readings,
        ({
            let (sr, sc, sp) = spec_action_sir_receipt_creation(
                old(ctx).config,
                old(ctx).cached,
                old(bench).readings@,
                old(bench).pos as int,
            );
            r == sr && final(ctx).cached == sc && final(bench).pos as int == sp
        }),
        r matches Ok(c) ==> c.wf() && c.metric == old(ctx).config.metric,
{
    if let Some(c) = ctx.cached.action_sir_receipt_creation {
        return Ok(c);
    }
    let bs = default_block_size(&ctx.config);
    let c = match measure_total(&ctx.config, WorkloadKind::EmptySelf, bs, bench) {
        Ok(c) => c,
        Err(e) => {
            return Err(e);
        },
    };
    ctx.cached.action_sir_receipt_creation = Some(c);
    Ok(c)
}

/// What `noop_host_function_call_cost` computes.
pub open spec fn spec_noop_host_function_call_cost(
    cfg: Config,
    cache: CachedCosts,
    tape: Seq<Measurement>,
    pos: int,
) -> (Result<GasCost, EstimatorError>, CachedCosts, int) {
    let (r, slot, p) = spec_memo_measure(
        cfg,
        cache.noop_host_function_call_cost,
        WorkloadKind::FunctionCall { method: HostFnMethod::Noop, arg_len: 0 },
        spec_default_block_size(cfg),
        tape,
        pos,
    );
    (r, CachedCosts { noop_host_function_call_cost: slot, ..cache }, p)
}

/// The cost of calling a contract method that does nothing, the baseline
/// of every host-function cost. Memoized.
pub fn noop_host_function_call_cost(ctx: &mut Ctx, bench: &mut Bench) -> (r: Result<
    GasCost,
    EstimatorError,
>)
    requires
        old(ctx).wf(),
        old(bench).wf(),
    ensures
        final(ctx).wf(),
        final(bench).wf(),
        final(ctx).config == old(ctx).config,
        final(bench).readings == old(bench).readings,
        ({
            let (sr, sc, sp) = spec_noop_host_function_call_cost(
                old(ctx).config,
                old(ctx).cached,
                old(bench).readings@,
                old(bench).pos as int,
            );
            r == sr && final(ctx).cached == sc && final(bench).pos as int == sp
        }),
        r matches Ok(c) ==> c.wf() && c.metric == old(ctx).config.metric,
{
    if let Some(c) = ctx.cached.noop_host_function_call_cost {
        return Ok(c);
    }
    let bs = default_block_size(&ctx.config);
    let kind = WorkloadKind::FunctionCall { method: HostFnMethod::Noop, arg_len: 0 };
    let c = match measure_total(&ctx.config, kind, bs, bench) {
        Ok(c) => c,
        Err(e) => {
            return Err(e);
        },
    };
    ctx.cached.noop_host_function_call_cost = Some(c);
    Ok(c)
}

/// A composite measurement of `kind` minus the memoized receipt-creation
/// baseline.
pub open spec fn spec_total_minus_receipt(
    cfg: Config,
    cache: CachedCosts,
    kind: WorkloadKind,
    tape: Seq<Measurement>,
    pos: int,
) -> (Result<GasCost, EstimatorError>, CachedCosts, int) {
    match spec_measure(cfg, kind, spec_default_block_size(cfg), tape, pos) {
        Err(e) => (Err(e), cache, pos),
        Ok(total) => {
            let (br, cache2, pos2) = spec_action_receipt_creation(cfg, cache, tape, pos + 1);
            match br {
                Err(e) => (Err(e), cache2, pos2),
                Ok(base) => (spec_marginal(total, base), cache2, pos2),
            }
        },
    }
}

/// Measures `kind` and subtracts the receipt-creation baseline.
fn total_minus_receipt(ctx: &mut Ctx, bench: &mut Bench, kind: WorkloadKind) -> (r: Result<
    GasCost,
    EstimatorError,
>)
    requires
        old(ctx).wf(),
        old(bench).wf(),
    ensures
        final(ctx).wf(),
        final(bench).wf(),
        final(ctx).config == old(ctx).config,
        final(bench).readings == old(bench).readings,
        ({
            let (sr, sc, sp) = spec_total_minus_receipt(
                old(ctx).config,
                old(ctx).cached,
                kind,
                old(bench).readings@,
                old(bench).pos as int,
            );
            r == sr && final(ctx).cached == sc && final(bench).pos as int == sp
        }),
        r matches Ok(c) ==> c.wf() && c.metric == old(ctx).config.metric,
{
    let bs = default_block_size(&ctx.config);
    let total = match measure_total(&ctx.config, kind, bs, bench) {
        Ok(c) => c,
        Err(e) => {
            return Err(e);
        },
    };
    let base = match action_receipt_creation(ctx, bench) {
        Ok(c) => c,
        Err(e) => {
            return Err(e);
        },
    };
    match total.checked_sub(&base) {
        Ok(c) => Ok(c),
        Err(e) => Err(EstimatorError::Arithmetic { error: e }),
    }
}

/// A composite measurement of `kind` minus the memoized self-directed
/// receipt-creation baseline.
pub open spec fn spec_total_minus_sir(
    cfg: Config,
    cache: CachedCosts,
    kind: WorkloadKind,
    tape: Seq<Measurement>,
    pos: int,
) -> (Result<GasCost, EstimatorError>, CachedCosts, int) {
    match spec_measure(cfg, kind, spec_default_block_size(cfg), tape, pos) {
        Err(e) => (Err(e), cache, pos),
        Ok(total) => {
            let (br, cache2, pos2) = spec_action_sir_receipt_creation(cfg, cache, tape, pos + 1);
            match br {
                Err(e) => (Err(e), cache2, pos2),
                Ok(base) => (spec_marginal(total, base), cache2, pos2),
            }
        },
    }
}

/// Measures `kind` and subtracts the self-directed baseline.
fn total_minus_sir(ctx: &mut Ctx, bench: &mut Bench, kind: WorkloadKind) -> (r: Result<
    GasCost,
    EstimatorError,
>)
    requires
        old(ctx).wf(),
        old(bench).wf(),
    ensures
        final(ctx).wf(),
        final(bench).wf(),
        final(ctx).config == old(ctx).config,
        final(bench).readings == old(bench).readings,
        ({
            let (sr, sc, sp) = spec_total_minus_sir(
                old(ctx).config,
                old(ctx).cached,
                kind,
                old(bench).readings@,
                old(bench).pos as int,
            );
            r == sr && final(ctx).cached == sc && final(bench).pos as int == sp
        }),
        r matches Ok(c) ==> c.wf() && c.metric == old(ctx).config.metric,
{
    let bs = default_block_size(&ctx.config);
    let total = match measure_total(&ctx.config, kind, bs, bench) {
        Ok(c) => c,
        Err(e) => {
            return Err(e);
        },
    };
    let base = match action_sir_receipt_creation(ctx, bench) {
        Ok(c) => c,
        Err(e) => {
            return Err(e);
        },
    };
    match total.checked_sub(&base) {
        Ok(c) => Ok(c),
        Err(e) => Err(EstimatorError::Arithmetic { error: e }),
    }
}

/// What `action_transfer` computes.
pub open spec fn spec_action_transfer(
    cfg: Config,
    cache: CachedCosts,
    tape: Seq<Measurement>,
    pos: int,
) -> (Result<GasCost, EstimatorError>, CachedCosts, int) {
    spec_total_minus_receipt(cfg, cache, WorkloadKind::Transfer, tape, pos)
}

/// The marginal cost of one transfer action: the measured cost of a
/// one-token transfer minus the receipt-creation baseline.
pub fn action_transfer(ctx: &mut Ctx, bench: &mut Bench) -> (r: Result<GasCost, EstimatorError>)
    requires
        old(ctx).wf(),
        old(bench).wf(),
    ensures
        final(ctx).wf(),
        final(bench).wf(),
        final(ctx).config == old(ctx).config,
        final(bench).readings == old(bench).readings,
        ({
            let (sr, sc, sp) = spec_action_transfer(
                old(ctx).config,
                old(ctx).cached,
                old(bench).readings@,
                old(bench).pos as int,
            );
            r == sr && final(ctx).cached == sc && final(bench).pos as int == sp
        }),
        r matches Ok(c) ==> c.wf() && c.metric == old(ctx).config.metric,
{
    total_minus_receipt(ctx, bench, WorkloadKind::Transfer)
}

/// What `action_create_account` computes.
pub open spec fn spec_action_create_account(
    cfg: Config,
    cache: CachedCosts,
    tape: Seq<Measurement>,
    pos: int,
) -> (Result<GasCost, EstimatorError>, CachedCosts, int) {
    spec_total_minus_receipt(cfg, cache, WorkloadKind::CreateAccount, tape, pos)
}

/// The marginal cost of creating one account, endowed with a deposit,
/// over the receipt-creation baseline.
pub fn action_create_account(ctx: &mut Ctx, bench: &mut Bench) -> (r: Result<
    GasCost,
    EstimatorError,
>)
    requires
        old(ctx).wf(),
        old(bench).wf(),
    ensures
        final(ctx).wf(),
        final(bench).wf(),
        final(ctx).config == old(ctx).config,
        final(bench).readings == old(bench).readings,
        ({
            let (sr, sc, sp) = spec_action_create_account(
                old(ctx).config,
                old(ctx).cached,
                old(bench).readings@,
                old(bench).pos as int,
            );
            r == sr && final(ctx).cached == sc && final(bench).pos as int == sp
        }),
        r matches Ok(c) ==> c.wf() && c.metric == old(ctx).config.metric,
{
    total_minus_receipt(ctx, bench, WorkloadKind::CreateAccount)
}

/// What `action_delete_account` computes.
pub open spec fn spec_action_delete_account(
    cfg: Config,
    cache: CachedCosts,
    tape: Seq<Measurement>,
    pos: int,
) -> (Result<GasCost, EstimatorError>, CachedCosts, int) {
    spec_total_minus_sir(cfg, cache, WorkloadKind::DeleteAccount, tape, pos)
}

/// The marginal cost of deleting an account, over the self-directed
/// baseline.
pub fn action_delete_account(ctx: &mut Ctx, bench: &mut Bench) -> (r: Result<
    GasCost,
    EstimatorError,
>)
    requires
        old(ctx).wf(),
        old(bench).wf(),
    ensures
        final(ctx).wf(),
        final(bench).wf(),
        final(ctx).config == old(ctx).config,
        final(bench).readings == old(bench).readings,
        ({
            let (sr, sc, sp) = spec_action_delete_account(
                old(ctx).config,
                old(ctx).cached,
                old(bench).readings@,
                old(bench).pos as int,
            );
            r == sr && final(ctx).cached == sc && final(bench).pos as int == sp
        }),
        r matches Ok(c) ==> c.wf() && c.metric == old(ctx).config.metric,
{
    total_minus_sir(ctx, bench, WorkloadKind::DeleteAccount)
}

/// What `action_add_full_access_key` computes.
pub open spec fn spec_action_add_full_access_key(
    cfg: Config,
    cache: CachedCosts,
    tape: Seq<Measurement>,
    pos: int,
) -> (Result<GasCost, EstimatorError>, CachedCosts, int) {
    spec_total_minus_sir(cfg, cache, WorkloadKind::AddFullAccessKey, tape, pos)
}

/// The marginal cost of adding one full-access key, over the
/// self-directed baseline.
pub fn action_add_full_access_key(ctx: &mut Ctx, bench: &mut Bench) -> (r: Result<
    GasCost,
    EstimatorError,
>)
    requires
        old(ctx).wf(),
        old(bench).wf(),
    ensures
        final(ctx).wf(),
        final(bench).wf(),
        final(ctx).config == old(ctx).config,
        final(bench).readings == old(bench).readings,
        ({
            let (sr, sc, sp) = spec_action_add_full_access_key(
                old(ctx).config,
                old(ctx).cached,
                old(bench).readings@,
                old(bench).pos as int,
            );
            r == sr && final(ctx).cached == sc && final(bench).pos as int == sp
        }),
        r matches Ok(c) ==> c.wf() && c.metric == old(ctx).config.metric,
{
    total_minus_sir(ctx, bench, WorkloadKind::AddFullAccessKey)
}

/// What `action_delete_key` computes.
pub open spec fn spec_action_delete_key(
    cfg: Config,
    cache: CachedCosts,
    tape: Seq<Measurement>,
    pos: int,
) -> (Result<GasCost, EstimatorError>, CachedCosts, int) {
    spec_total_minus_sir(cfg, cache, WorkloadKind::DeleteKey, tape, pos)
}

/// The marginal cost of deleting one access key, over the self-directed
/// baseline.
pub fn action_delete_key(ctx: &mut Ctx, bench: &mut Bench) -> (r: Result<GasCost, EstimatorError>)
    requires
        old(ctx).wf(),
        old(bench).wf(),
    ensures
        final(ctx).wf(),
        final(bench).wf(),
        final(ctx).config == old(ctx).config,
        final(bench).readings == old(bench).readings,
        ({
            let (sr, sc, sp) = spec_action_delete_key(
                old(ctx).config,
                old(ctx).cached,
                old(bench).readings@,
                old(bench).pos as int,
            );
            r == sr && final(ctx).cached == sc && final(bench).pos as int == sp
        }),
        r matches Ok(c) ==> c.wf() && c.metric == old(ctx).config.metric,
{
    total_minus_sir(ctx, bench, WorkloadKind::DeleteKey)
}

/// What `action_stake` computes.
pub open spec fn spec_action_stake(
    cfg: Config,
    cache: CachedCosts,
    tape: Seq<Measurement>,
    pos: int,
) -> (Result<GasCost, EstimatorError>, CachedCosts, int) {
    spec_total_minus_sir(cfg, cache, WorkloadKind::Stake, tape, pos)
}

/// The marginal cost of one staking action, over the self-directed
/// baseline.
pub fn action_stake(ctx: &mut Ctx, bench: &mut Bench) -> (r: Result<GasCost, EstimatorError>)
    requires
        old(ctx).wf(),
        old(bench).wf(),
    ensures
        final(ctx).wf(),
        final(bench).wf(),
        final(ctx).config == old(ctx).config,
        final(bench).readings == old(bench).readings,
        ({
            let (sr, sc, sp) = spec_action_stake(
                old(ctx).config,
                old(ctx).cached,
                old(bench).readings@,
                old(bench).pos as int,
            );
            r == sr && final(ctx).cached == sc && final(bench).pos as int == sp
        }),
        r matches Ok(c) ==> c.wf() && c.metric == old(ctx).config.metric,
{
    total_minus_sir(ctx, bench, WorkloadKind::Stake)
}

/// Each of the thousand method names of the many-method access-key
/// workload is ten bytes, so one transaction adds this many bytes.
pub const ACCESS_KEY_METHOD_BYTES: u64 = 10_000;

/// Both deploy and function-call per-byte workloads carry exactly one
/// mebibyte of payload.
pub const BYTES_PER_PAYLOAD: u64 = 1_048_576;

/// What `action_add_function_access_key_base` computes.
pub open spec fn spec_action_add_function_access_key_base(
    cfg: Config,
    cache: CachedCosts,
    tape: Seq<Measurement>,
    pos: int,
) -> (Result<GasCost, EstimatorError>, CachedCosts, int) {
    match cache.action_add_function_access_key_base {
        Some(c) => (Ok(c), cache, pos),
        None => {
            let (r, cache2, pos2) = spec_total_minus_sir(
                cfg,
                cache,
                WorkloadKind::AddFunctionAccessKeyBase,
                tape,
                pos,
            );
            match r {
                Ok(c) => (
                    Ok(c),
                    CachedCosts { action_add_function_access_key_base: Some(c), ..cache2 },
                    pos2,
                ),
                Err(e) => (Err(e), cache2, pos2),
            }
        },
    }
}

/// The marginal cost of adding one function-call access key with a
/// single short method name, over the self-directed baseline. Memoized:
/// the baseline of the per-byte access-key cost.
pub fn action_add_function_access_key_base(ctx: &mut Ctx, bench: &mut Bench) -> (r: Result<
    GasCost,
    EstimatorError,
>)
    requires
        old(ctx).wf(),
        old(bench).wf(),
    ensures
        final(ctx).wf(),
        final(bench).wf(),
        final(ctx).config == old(ctx).config,
        final(bench).readings == old(bench).readings,
        ({
            let (sr, sc, sp) = spec_action_add_function_access_key_base(
                old(ctx).config,
                old(ctx).cached,
                old(bench).readings@,
                old(bench).pos as int,
            );
            r == sr && final(ctx).cached == sc && final(bench).pos as int == sp
        }),
        r matches Ok(c) ==> c.wf() && c.metric == old(ctx).config.metric,
{
    if let Some(c) = ctx.cached.action_add_function_access_key_base {
        return Ok(c);
    }
    let c = match total_minus_sir(ctx, bench, WorkloadKind::AddFunctionAccessKeyBase) {
        Ok(c) => c,
        Err(e) => {
            return Err(e);
        },
    };
    ctx.cached.action_add_function_access_key_base = Some(c);
    Ok(c)
}

/// What `action_add_function_access_key_per_byte` computes.
pub open spec fn spec_action_add_function_access_key_per_byte(
    cfg: Config,
    cache: CachedCosts,
    tape: Seq<Measurement>,
    pos: int,
) -> (Result<GasCost, EstimatorError>, CachedCosts, int) {
    match spec_measure(
        cfg,
        WorkloadKind::AddFunctionAccessKeyManyMethods,
        spec_default_block_size(cfg),
        tape,
        pos,
    ) {
        Err(e) => (Err(e), cache, pos),
        Ok(total) => {
            let (br, cache2, pos2) = spec_action_add_function_access_key_base(
                cfg,
                cache,
                tape,
                pos + 1,
            );
            match br {
                Err(e) => (Err(e), cache2, pos2),
                Ok(base) => match total.spec_sub(base) {
                    Err(e) => (Err(EstimatorError::Arithmetic { error: e }), cache2, pos2),
                    Ok(m) => match m.spec_div(ACCESS_KEY_METHOD_BYTES) {
                        Err(e) => (Err(EstimatorError::Arithmetic { error: e }), cache2, pos2),
                        Ok(c) => (Ok(c), cache2, pos2),
                    },
                },
            }
        },
    }
}

/// The per-byte cost of the method names carried by one added
/// function-call access key: a thousand ten-byte names, minus the
/// one-name baseline, divided by the ten thousand bytes of one
/// transaction.
pub fn action_add_function_access_key_per_byte(ctx: &mut Ctx, bench: &mut Bench) -> (r: Result<
    GasCost,
    EstimatorError,
>)
    requires
        old(ctx).wf(),
        old(bench).wf(),
    ensures
        final(ctx).wf(),
        final(bench).wf(),
        final(ctx).config == old(ctx).config,
        final(bench).readings == old(bench).readings,
        ({
            let (sr, sc, sp) = spec_action_add_function_access_key_per_byte(
                old(ctx).config,
                old(ctx).cached,
                old(bench).readings@,
                old(bench).pos as int,
            );
            r == sr && final(ctx).cached == sc && final(bench).pos as int == sp
        }),
        r matches Ok(c) ==> c.wf() && c.metric == old(ctx).config.metric,
{
    let bs = default_block_size(&ctx.config);
    let total = match measure_total(
        &ctx.config,
        WorkloadKind::AddFunctionAccessKeyManyMethods,
        bs,
        bench,
    ) {
        Ok(c) => c,
        Err(e) => {
            return Err(e);
        },
    };
    let base = match action_add_function_access_key_base(ctx, bench) {
        Ok(c) => c,
        Err(e) => {
            return Err(e);
        },
    };
    let m = match total.checked_sub(&base) {
        Ok(c) => c,
        Err(e) => {
            return Err(EstimatorError::Arithmetic { error: e });
        },
    };
    match m.checked_div(ACCESS_KEY_METHOD_BYTES) {
        Ok(c) => Ok(c),
        Err(e) => Err(EstimatorError::Arithmetic { error: e }),
    }
}

/// What `action_deploy_contract_base` computes.
pub open spec fn spec_action_deploy_contract_base(
    cfg: Config,
    cache: CachedCosts,
    tape: Seq<Measurement>,
    pos: int,
) -> (Result<GasCost, EstimatorError>, CachedCosts, int) {
    match cache.action_deploy_contract_base {
        Some(c) => (Ok(c), cache, pos),
        None => {
            let (r, cache2, pos2) = spec_total_minus_sir(
                cfg,
                cache,
                WorkloadKind::DeployContract { source: ContractSource::Smallest },
                tape,
                pos,
            );
            match r {
                Ok(c) => (
                    Ok(c),
                    CachedCosts { action_deploy_contract_base: Some(c), ..cache2 },
                    pos2,
                ),
                Err(e) => (Err(e), cache2, pos2),
            }
        },
    }
}

/// The marginal cost of deploying the smallest valid contract, over the
/// self-directed baseline. Memoized: the baseline of the per-byte deploy
/// cost.
pub fn action_deploy_contract_base(ctx: &mut Ctx, bench: &mut Bench) -> (r: Result<
    GasCost,
    EstimatorError,
>)
    requires
        old(ctx).wf(),
        old(bench).wf(),
    ensures
        final(ctx).wf(),
        final(bench).wf(),
        final(ctx).config == old(ctx).config,
        final(bench).readings == old(bench).readings,
        ({
            let (sr, sc, sp) = spec_action_deploy_contract_base(
                old(ctx).config,
                old(ctx).cached,
                old(bench).readings@,
                old(bench).pos as int,
            );
            r == sr && final(ctx).cached == sc && final(bench).pos as int == sp
        }),
        r matches Ok(c) ==> c.wf() && c.metric == old(ctx).config.metric,
{
    if let Some(c) = ctx.cached.action_deploy_contract_base {
        return Ok(c);
    }
    let kind = WorkloadKind::DeployContract { source: ContractSource::Smallest };
    let c = match total_minus_sir(ctx, bench, kind) {
        Ok(c) => c,
        Err(e) => {
            return Err(e);
        },
    };
    ctx.cached.action_deploy_contract_base = Some(c);
    Ok(c)
}

/// What `action_deploy_contract_per_byte` computes.
pub open spec fn spec_action_deploy_contract_per_byte(
    cfg: Config,
    cache: CachedCosts,
    tape: Seq<Measurement>,
    pos: int,
) -> (Result<GasCost, EstimatorError>, CachedCosts, int) {
    match spec_measure(
        cfg,
        WorkloadKind::DeployContract { source: ContractSource::Large },
        spec_default_block_size(cfg),
        tape,
        pos,
    ) {
        Err(e) => (Err(e), cache, pos),
        Ok(total) => {
            let (br, cache2, pos2) = spec_action_deploy_contract_base(cfg, cache, tape, pos + 1);
            match br {
                Err(e) => (Err(e), cache2, pos2),
                Ok(base) => match total.spec_sub(base) {
                    Err(e) => (Err(EstimatorError::Arithmetic { error: e }), cache2, pos2),
                    Ok(m) => match m.spec_div(BYTES_PER_PAYLOAD) {
                        Err(e) => (Err(EstimatorError::Arithmetic { error: e }), cache2, pos2),
                        Ok(c) => (Ok(c), cache2, pos2),
                    },
                },
            }
        },
    }
}

/// The per-byte cost of deployed contract code: a one-mebibyte contract
/// minus the smallest-contract baseline, divided by the mebibyte.
pub fn action_deploy_contract_per_byte(ctx: &mut Ctx, bench: &mut Bench) -> (r: Result<
    GasCost,
    EstimatorError,
>)
    requires
        old(ctx).wf(),
        old(bench).wf(),
    ensures
        final(ctx).wf(),
        final(bench).wf(),
        final(ctx).config == old(ctx).config,
        final(bench).readings == old(bench).readings,
        ({
            let (sr, sc, sp) = spec_action_deploy_contract_per_byte(
                old(ctx).config,
                old(ctx).cached,
                old(bench).readings@,
                old(bench).pos as int,
            );
            r == sr && final(ctx).cached == sc && final(bench).pos as int == sp
        }),
        r matches Ok(c) ==> c.wf() && c.metric == old(ctx).config.metric,
{
    let bs = default_block_size(&ctx.config);
    let kind = WorkloadKind::DeployContract { source: ContractSource::Large };
    let total = match measure_total(&ctx.config, kind, bs, bench) {
        Ok(c) => c,
        Err(e) => {
            return Err(e);
        },
    };
    let base = match action_deploy_contract_base(ctx, bench) {
        Ok(c) => c,
        Err(e) => {
            return Err(e);
        },
    };
    let m = match total.checked_sub(&base) {
        Ok(c) => c,
        Err(e) => {
            return Err(EstimatorError::Arithmetic { error: e });
        },
    };
    match m.checked_div(BYTES_PER_PAYLOAD) {
        Ok(c) => Ok(c),
        Err(e) => Err(EstimatorError::Arithmetic { error: e }),
    }
}

/// What `action_function_call_base` computes.
pub open spec fn spec_action_function_call_base(
    cfg: Config,
    cache: CachedCosts,
    tape: Seq<Measurement>,
    pos: int,
) -> (Result<GasCost, EstimatorError>, CachedCosts, int) {
    let (tr, cache_a, pos_a) = spec_noop_host_function_call_cost(cfg, cache, tape, pos);
    match tr {
        Err(e) => (Err(e), cache_a, pos_a),
        Ok(total) => {
            let (br, cache2, pos2) = spec_action_sir_receipt_creation(cfg, cache_a, tape, pos_a);
            match br {
                Err(e) => (Err(e), cache2, pos2),
                Ok(base) => (spec_marginal(total, base), cache2, pos2),
            }
        },
    }
}

/// The marginal cost of one function-call action: the cost of calling a
/// method that does nothing, minus the self-directed baseline.
pub fn action_function_call_base(ctx: &mut Ctx, bench: &mut Bench) -> (r: Result<
    GasCost,
    EstimatorError,
>)
    requires
        old(ctx).wf(),
        old(bench).wf(),
    ensures
        final(ctx).wf(),
        final(bench).wf(),
        final(ctx).config == old(ctx).config,
        final(bench).readings == old(bench).readings,
        ({
            let (sr, sc, sp) = spec_action_function_call_base(
                old(ctx).config,
                old(ctx).cached,
                old(bench).readings@,
                old(bench).pos as int,
            );
            r == sr && final(ctx).cached == sc && final(bench).pos as int == sp
        }),
        r matches Ok(c) ==> c.wf() && c.metric == old(ctx).config.metric,
{
    let total = match noop_host_function_call_cost(ctx, bench) {
        Ok(c) => c,
        Err(e) => {
            return Err(e);
        },
    };
    let base = match action_sir_receipt_creation(ctx, bench) {
        Ok(c) => c,
        Err(e) => {
            return Err(e);
        },
    };
    match total.checked_sub(&base) {
        Ok(c) => Ok(c),
        Err(e) => Err(EstimatorError::Arithmetic { error: e }),
    }
}

/// What `action_function_call_per_byte` computes.
pub open spec fn spec_action_function_call_per_byte(
    cfg: Config,
    cache: CachedCosts,
    tape: Seq<Measurement>,
    pos: int,
) -> (Result<GasCost, EstimatorError>, CachedCosts, int) {
    match spec_measure(
        cfg,
        WorkloadKind::FunctionCall { method: HostFnMethod::Noop, arg_len: BYTES_PER_PAYLOAD },
        spec_default_block_size(cfg),
        tape,
        pos,
    ) {
        Err(e) => (Err(e), cache, pos),
        Ok(total) => {
            let (br, cache2, pos2) = spec_noop_host_function_call_cost(cfg, cache, tape, pos + 1);
            match br {
                Err(e) => (Err(e), cache2, pos2),
                Ok(base) => match total.spec_sub(base) {
                    Err(e) => (Err(EstimatorError::Arithmetic { error: e }), cache2, pos2),
                    Ok(m) => match m.spec_div(BYTES_PER_PAYLOAD) {
                        Err(e) => (Err(EstimatorError::Arithmetic { error: e }), cache2, pos2),
                        Ok(c) => (Ok(c), cache2, pos2),
                    },
                },
            }
        },
    }
}

/// The per-byte cost of function-call arguments: a call with one
/// mebibyte of argument minus the empty-argument baseline, divided by
/// the mebibyte.
pub fn action_function_call_per_byte(ctx: &mut Ctx, bench: &mut Bench) -> (r: Result<
    GasCost,
    EstimatorError,
>)
    requires
        old(ctx).wf(),
        old(bench).wf(),
    ensures
        final(ctx).wf(),
        final(bench).wf(),
        final(ctx).config == old(ctx).config,
        final(bench).readings == old(bench).readings,
        ({
            let (sr, sc, sp) = spec_action_function_call_per_byte(
                old(ctx).config,
                old(ctx).cached,
                old(bench).readings@,
                old(bench).pos as int,
            );
            r == sr && final(ctx).cached == sc && final(bench).pos as int == sp
        }),
        r matches Ok(c) ==> c.wf() && c.metric == old(ctx).config.metric,
{
    let bs = default_block_size(&ctx.config);
    let kind = WorkloadKind::FunctionCall {
        method: HostFnMethod::Noop,
        arg_len: BYTES_PER_PAYLOAD,
    };
    let total = match measure_total(&ctx.config, kind, bs, bench) {
        Ok(c) => c,
        Err(e) => {
            return Err(e);
        },
    };
    let base = match noop_host_function_call_cost(ctx, bench) {
        Ok(c) => c,
        Err(e) => {
            return Err(e);
        },
    };
    let m = match total.checked_sub(&base) {
        Ok(c) => c,
        Err(e) => {
            return Err(EstimatorError::Arithmetic { error: e });
        },
    };
    match m.checked_div(BYTES_PER_PAYLOAD) {
        Ok(c) => Ok(c),
        Err(e) => Err(EstimatorError::Arithmetic { error: e }),
    }
}

/// The generic per-call host-function cost: one measured method whose
/// resource counter must equal the statically expected count, minus the
/// noop baseline, divided by that count.
pub open spec fn spec_host_fn_cost(
    cfg: Config,
    cache: CachedCosts,
    method: HostFnMethod,
    counter: ExtCostKind,
    expected: u64,
    tape: Seq<Measurement>,
    pos: int,
) -> (Result<GasCost, EstimatorError>, CachedCosts, int) {
    match spec_measure_with_counter(cfg, method, counter, tape, pos) {
        Err(e) => (Err(e), cache, pos),
        Ok((total, count)) => if count != expected {
            (Err(EstimatorError::CounterMismatch), cache, pos + 1)
        } else {
            let (br, cache2, pos2) = spec_noop_host_function_call_cost(cfg, cache, tape, pos + 1);
            match br {
                Err(e) => (Err(e), cache2, pos2),
                Ok(base) => match total.spec_sub(base) {
                    Err(e) => (Err(EstimatorError::Arithmetic { error: e }), cache2, pos2),
                    Ok(m) => match m.spec_div(expected) {
                        Err(e) => (Err(EstimatorError::Arithmetic { error: e }), cache2, pos2),
                        Ok(c) => (Ok(c), cache2, pos2),
                    },
                },
            }
        },
    }
}

/// Measures `method`, checks that the observed `counter` equals the
/// statically `expected` count, subtracts the noop baseline and divides
/// by the count. The division never uses the observed value directly:
/// only the expected constant, after the two were checked equal.
fn host_fn_cost(
    ctx: &mut Ctx,
    bench: &mut Bench,
    method: HostFnMethod,
    counter: ExtCostKind,
    expected: u64,
) -> (r: Result<GasCost, EstimatorError>)
    requires
        old(ctx).wf(),
        old(bench).wf(),
        1 <= expected,
    ensures
        final(ctx).wf(),
        final(bench).wf(),
        final(ctx).config == old(ctx).config,
        final(bench).readings == old(bench).readings,
        ({
            let (sr, sc, sp) = spec_host_fn_cost(
                old(ctx).config,
                old(ctx).cached,
                method,
                counter,
                expected,
                old(bench).readings@,
                old(bench).pos as int,
            );
            r == sr && final(ctx).cached == sc && final(bench).pos as int == sp
        }),
        r matches Ok(c) ==> c.wf() && c.metric == old(ctx).config.metric,
{
    let (total, count) = match measure_with_counter(&ctx.config, method, counter, bench) {
        Ok(p) => p,
        Err(e) => {
            return Err(e);
        },
    };
    if count != expected {
        return Err(EstimatorError::CounterMismatch);
    }
    let base = match noop_host_function_call_cost(ctx, bench) {
        Ok(c) => c,
        Err(e) => {
            return Err(e);
        },
    };
    let m = match total.checked_sub(&base) {
        Ok(c) => c,
        Err(e) => {
            return Err(EstimatorError::Arithmetic { error: e });
        },
    };
    match m.checked_div(expected) {
        Ok(c) => Ok(c),
        Err(e) => Err(EstimatorError::Arithmetic { error: e }),
    }
}

/// The method that exercises the cheapest host function runs it exactly
/// this many times.
pub const BASE_CALLS_PER_RUN: u64 = 1_000_000;

/// What `host_function_call` computes.
pub open spec fn spec_host_function_call(
    cfg: Config,
    cache: CachedCosts,
    tape: Seq<Measurement>,
    pos: int,
) -> (Result<GasCost, EstimatorError>, CachedCosts, int) {
    spec_host_fn_cost(
        cfg,
        cache,
        HostFnMethod::Base1M,
        ExtCostKind::Base,
        BASE_CALLS_PER_RUN,
        tape,
        pos,
    )
}

/// The cost of one invocation of the cheapest host function: a million
/// invocations minus the noop baseline, divided by the million, which
/// the observed counter must confirm.
pub fn host_function_call(ctx: &mut Ctx, bench: &mut Bench) -> (r: Result<GasCost, EstimatorError>)
    requires
        old(ctx).wf(),
        old(bench).wf(),
    ensures
        final(ctx).wf(),
        final(bench).wf(),
        final(ctx).config == old(ctx).config,
        final(bench).readings == old(bench).readings,
        ({
            let (sr, sc, sp) = spec_host_function_call(
                old(ctx).config,
                old(ctx).cached,
                old(bench).readings@,
                old(bench).pos as int,
            );
            r == sr && final(ctx).cached == sc && final(bench).pos as int == sp
        }),
        r matches Ok(c) ==> c.wf() && c.metric == old(ctx).config.metric,
{
    host_fn_cost(ctx, bench, HostFnMethod::Base1M, ExtCostKind::Base, BASE_CALLS_PER_RUN)
}

/// What `data_receipt_creation_base` computes: the ten-byte data-receipt
/// workload minus its receipt-free twin. No memo slot is involved.
pub open spec fn spec_data_receipt_creation_base(
    cfg: Config,
    cache: CachedCosts,
    tape: Seq<Measurement>,
    pos: int,
) -> (Result<GasCost, EstimatorError>, CachedCosts, int) {
    match spec_measure_with_counter(
        cfg,
        HostFnMethod::DataReceipt10b1000,
        ExtCostKind::Base,
        tape,
        pos,
    ) {
        Err(e) => (Err(e), cache, pos),
        Ok((total, _)) => match spec_measure_with_counter(
            cfg,
            HostFnMethod::DataReceiptBase10b1000,
            ExtCostKind::Base,
            tape,
            pos + 1,
        ) {
            Err(e) => (Err(e), cache, pos + 1),
            Ok((base, _)) => (spec_marginal(total, base), cache, pos + 2),
        },
    }
}

/// The base cost of producing one data receipt: a thousand ten-byte
/// receipts minus the workload that does everything but produce them.
pub fn data_receipt_creation_base(ctx: &mut Ctx, bench: &mut Bench) -> (r: Result<
    GasCost,
    EstimatorError,
>)
    requires
        old(ctx).wf(),
        old(bench).wf(),
    ensures
        final(ctx).wf(),
        final(bench).wf(),
        final(ctx).config == old(ctx).config,
        final(bench).readings == old(bench).readings,
        ({
            let (sr, sc, sp) = spec_data_receipt_creation_base(
                old(ctx).config,
                old(ctx).cached,
                old(bench).readings@,
                old(bench).pos as int,
            );
            r == sr && final(ctx).cached == sc && final(bench).pos as int == sp
        }),
        r matches Ok(c) ==> c.wf() && c.metric == old(ctx).config.metric,
{
    let (total, _) = match measure_with_counter(
        &ctx.config,
        HostFnMethod::DataReceipt10b1000,
        ExtCostKind::Base,
        bench,
    ) {
        Ok(p) => p,
        Err(e) => {
            return Err(e);
        },
    };
    let (base, _) = match measure_with_counter(
        &ctx.config,
        HostFnMethod::DataReceiptBase10b1000,
        ExtCostKind::Base,
        bench,
    ) {
        Ok(p) => p,
        Err(e) => {
            return Err(e);
        },
    };
    match total.checked_sub(&base) {
        Ok(c) => Ok(c),
        Err(e) => Err(EstimatorError::Arithmetic { error: e }),
    }
}

/// One transaction of the large data-receipt workload carries a thousand
/// receipts of a hundred kibibytes each.
pub const DATA_RECEIPT_BYTES: u64 = 102_400_000;

/// What `data_receipt_creation_per_byte` computes.
pub open spec fn spec_data_receipt_creation_per_byte(
    cfg: Config,
    cache: CachedCosts,
    tape: Seq<Measurement>,
    pos: int,
) -> (Result<GasCost, EstimatorError>, CachedCosts, int) {
    match spec_measure_with_counter(
        cfg,
        HostFnMethod::DataReceipt100kib1000,
        ExtCostKind::Base,
        tape,
        pos,
    ) {
        Err(e) => (Err(e), cache, pos),
        Ok((total, _)) => match spec_measure_with_counter(
            cfg,
            HostFnMethod::DataReceipt10b1000,
            ExtCostKind::Base,
            tape,
            pos + 1,
        ) {
            Err(e) => (Err(e), cache, pos + 1),
            Ok((base, _)) => match total.spec_sub(base) {
                Err(e) => (Err(EstimatorError::Arithmetic { error: e }), cache, pos + 2),
                Ok(m) => match m.spec_div(DATA_RECEIPT_BYTES) {
                    Err(e) => (Err(EstimatorError::Arithmetic { error: e }), cache, pos + 2),
                    Ok(c) => (Ok(c), cache, pos + 2),
                },
            },
        },
    }
}

/// The per-byte cost of data-receipt payloads: hundred-kibibyte receipts
/// minus ten-byte receipts, divided by the payload bytes of one
/// transaction.
pub fn data_receipt_creation_per_byte(ctx: &mut Ctx, bench: &mut Bench) -> (r: Result<
    GasCost,
    EstimatorError,
>)
    requires
        old(ctx).wf(),
        old(bench).wf(),
    ensures
        final(ctx).wf(),
        final(bench).wf(),
        final(ctx).config == old(ctx).config,
        final(bench).readings == old(bench).readings,
        ({
            let (sr, sc, sp) = spec_data_receipt_creation_per_byte(
                old(ctx).config,
                old(ctx).cached,
                old(bench).readings@,
                old(bench).pos as int,
            );
            r == sr && final(ctx).cached == sc && final(bench).pos as int == sp
        }),
        r matches Ok(c) ==> c.wf() && c.metric == old(ctx).config.metric,
{
    let (total, _) = match measure_with_counter(
        &ctx.config,
        HostFnMethod::DataReceipt100kib1000,
        ExtCostKind::Base,
        bench,
    ) {
        Ok(p) => p,
        Err(e) => {
            return Err(e);
        },
    };
    let (base, _) = match measure_with_counter(
        &ctx.config,
        HostFnMethod::DataReceipt10b1000,
        ExtCostKind::Base,
        bench,
    ) {
        Ok(p) => p,
        Err(e) => {
            return Err(e);
        },
    };
    let m = match total.checked_sub(&base) {
        Ok(c) => c,
        Err(e) => {
            return Err(EstimatorError::Arithmetic { error: e });
        },
    };
    match m.checked_div(DATA_RECEIPT_BYTES) {
        Ok(c) => Ok(c),
        Err(e) => Err(EstimatorError::Arithmetic { error: e }),
    }
}

/// The memory workloads repeat their host call ten thousand times.
pub const MEMORY_CALLS_PER_RUN: u64 = 10_000;

/// The large memory workloads touch one mebibyte per call, ten thousand
/// times.
pub const MEMORY_BYTES_PER_RUN: u64 = 10_485_760_000;

/// What `read_memory_base` computes.
pub open spec fn spec_read_memory_base(
    cfg: Config,
    cache: CachedCosts,
    tape: Seq<Measurement>,
    pos: int,
) -> (Result<GasCost, EstimatorError>, CachedCosts, int) {
    spec_host_fn_cost(
        cfg,
        cache,
        HostFnMethod::ReadMemory10b10k,
        ExtCostKind::ReadMemoryBase,
        MEMORY_CALLS_PER_RUN,
        tape,
        pos,
    )
}

/// The base cost of one guest-memory read.
pub fn read_memory_base(ctx: &mut Ctx, bench: &mut Bench) -> (r: Result<GasCost, EstimatorError>)
    requires
        old(ctx).wf(),
        old(bench).wf(),
    ensures
        final(ctx).wf(),
        final(bench).wf(),
        final(ctx).config == old(ctx).config,
        final(bench).readings == old(bench).readings,
        ({
            let (sr, sc, sp) = spec_read_memory_base(
                old(ctx).config,
                old(ctx).cached,
                old(bench).readings@,
                old(bench).pos as int,
            );
            r == sr && final(ctx).cached == sc && final(bench).pos as int == sp
        }),
        r matches Ok(c) ==> c.wf() && c.metric == old(ctx).config.metric,
{
    host_fn_cost(
        ctx,
        bench,
        HostFnMethod::ReadMemory10b10k,
        ExtCostKind::ReadMemoryBase,
        MEMORY_CALLS_PER_RUN,
    )
}

/// What `read_memory_byte` computes.
pub open spec fn spec_read_memory_byte(
    cfg: Config,
    cache: CachedCosts,
    tape: Seq<Measurement>,
    pos: int,
) -> (Result<GasCost, EstimatorError>, CachedCosts, int) {
    spec_host_fn_cost(
        cfg,
        cache,
        HostFnMethod::ReadMemory1Mib10k,
        ExtCostKind::ReadMemoryByte,
        MEMORY_BYTES_PER_RUN,
        tape,
        pos,
    )
}

/// The per-byte cost of guest-memory reads.
pub fn read_memory_byte(ctx: &mut Ctx, bench: &mut Bench) -> (r: Result<GasCost, EstimatorError>)
    requires
        old(ctx).wf(),
        old(bench).wf(),
    ensures
        final(ctx).wf(),
        final(bench).wf(),
        final(ctx).config == old(ctx).config,
        final(bench).readings == old(bench).readings,
        ({
            let (sr, sc, sp) = spec_read_memory_byte(
                old(ctx).config,
                old(ctx).cached,
                old(bench).readings@,
                old(bench).pos as int,
            );
            r == sr && final(ctx).cached == sc && final(bench).pos as int == sp
        }),
        r matches Ok(c) ==> c.wf() && c.metric == old(ctx).config.metric,
{
    host_fn_cost(
        ctx,
        bench,
        HostFnMethod::ReadMemory1Mib10k,
        ExtCostKind::ReadMemoryByte,
        MEMORY_BYTES_PER_RUN,
    )
}

/// What `write_memory_base` computes.
pub open spec fn spec_write_memory_base(
    cfg: Config,
    cache: CachedCosts,
    tape: Seq<Measurement>,
    pos: int,
) -> (Result<GasCost, EstimatorError>, CachedCosts, int) {
    spec_host_fn_cost(
        cfg,
        cache,
        HostFnMethod::WriteMemory10b10k,
        ExtCostKind::WriteMemoryBase,
        MEMORY_CALLS_PER_RUN,
        tape,
        pos,
    )
}

/// The base cost of one guest-memory write.
pub fn write_memory_base(ctx: &mut Ctx, bench: &mut Bench) -> (r: Result<GasCost, EstimatorError>)
    requires
        old(ctx).wf(),
        old(bench).wf(),
    ensures
        final(ctx).wf(),
        final(bench).wf(),
        final(ctx).config == old(ctx).config,
        final(bench).readings == old(bench).readings,
        ({
            let (sr, sc, sp) = spec_write_memory_base(
                old(ctx).config,
                old(ctx).cached,
                old(bench).readings@,
                old(bench).pos as int,
            );
            r == sr && final(ctx).cached == sc && final(bench).pos as int == sp
        }),
        r matches Ok(c) ==> c.wf() && c.metric == old(ctx).config.metric,
{
    host_fn_cost(
        ctx,
        bench,
        HostFnMethod::WriteMemory10b10k,
        ExtCostKind::WriteMemoryBase,
        MEMORY_CALLS_PER_RUN,
    )
}

/// What `write_memory_byte` computes.
pub open spec fn spec_write_memory_byte(
    cfg: Config,
    cache: CachedCosts,
    tape: Seq<Measurement>,
    pos: int,
) -> (Result<GasCost, EstimatorError>, CachedCosts, int) {
    spec_host_fn_cost(
        cfg,
        cache,
        HostFnMethod::WriteMemory1Mib10k,
        ExtCostKind::WriteMemoryByte,
        MEMORY_BYTES_PER_RUN,
        tape,
        pos,
    )
}

/// The per-byte cost of guest-memory writes.
pub fn write_memory_byte(ctx: &mut Ctx, bench: &mut Bench) -> (r: Result<GasCost, EstimatorError>)
    requires
        old(ctx).wf(),
        old(bench).wf(),
    ensures
        final(ctx).wf(),
        final(bench).wf(),
        final(ctx).config == old(ctx).config,
        final(bench).readings == old(bench).readings,
        ({
            let (sr, sc, sp) = spec_write_memory_byte(
                old(ctx).config,
                old(ctx).cached,
                old(bench).readings@,
                old(bench).pos as int,
            );
            r == sr && final(ctx).cached == sc && final(bench).pos as int == sp
        }),
        r matches Ok(c) ==> c.wf() && c.metric == old(ctx).config.metric,
{
    host_fn_cost(
        ctx,
        bench,
        HostFnMethod::WriteMemory1Mib10k,
        ExtCostKind::WriteMemoryByte,
        MEMORY_BYTES_PER_RUN,
    )
}

/// What computing one catalog entry does.
pub open spec fn spec_compute_cost(
    cost: Cost,
    cfg: Config,
    cache: CachedCosts,
    tape: Seq<Measurement>,
    pos: int,
) -> (Result<GasCost, EstimatorError>, CachedCosts, int) {
    match cost {
        Cost::ActionReceiptCreation => spec_action_receipt_creation(cfg, cache, tape, pos),
        Cost::ActionSirReceiptCreation => spec_action_sir_receipt_creation(cfg, cache, tape, pos),
        Cost::ActionTransfer => spec_action_transfer(cfg, cache, tape, pos),
        Cost::ActionCreateAccount => spec_action_create_account(cfg, cache, tape, pos),
        Cost::ActionDeleteAccount => spec_action_delete_account(cfg, cache, tape, pos),
        Cost::ActionAddFullAccessKey => spec_action_add_full_access_key(cfg, cache, tape, pos),
        Cost::ActionAddFunctionAccessKeyBase => spec_action_add_function_access_key_base(
            cfg,
            cache,
            tape,
            pos,
        ),
        Cost::ActionAddFunctionAccessKeyPerByte => spec_action_add_function_access_key_per_byte(
            cfg,
            cache,
            tape,
            pos,
        ),
        Cost::ActionDeleteKey => spec_action_delete_key(cfg, cache, tape, pos),
        Cost::ActionStake => spec_action_stake(cfg, cache, tape, pos),
        Cost::ActionDeployContractBase => spec_action_deploy_contract_base(cfg, cache, tape, pos),
        Cost::ActionDeployContractPerByte => spec_action_deploy_contract_per_byte(
            cfg,
            cache,
            tape,
            pos,
        ),
        Cost::ActionFunctionCallBase => spec_action_function_call_base(cfg, cache, tape, pos),
        Cost::ActionFunctionCallPerByte => spec_action_function_call_per_byte(
            cfg,
            cache,
            tape,
            pos,
        ),
        Cost::HostFunctionCall => spec_host_function_call(cfg, cache, tape, pos),
        Cost::DataReceiptCreationBase => spec_data_receipt_creation_base(cfg, cache, tape, pos),
        Cost::DataReceiptCreationPerByte => spec_data_receipt_creation_per_byte(
            cfg,
            cache,
            tape,
            pos,
        ),
        Cost::ReadMemoryBase => spec_read_memory_base(cfg, cache, tape, pos),
        Cost::ReadMemoryByte => spec_read_memory_byte(cfg, cache, tape, pos),
        Cost::WriteMemoryBase => spec_write_memory_base(cfg, cache, tape, pos),
        Cost::WriteMemoryByte => spec_write_memory_byte(cfg, cache, tape, pos),
    }
}

/// Computes one catalog entry.
pub fn compute_cost(cost: Cost, ctx: &mut Ctx, bench: &mut Bench) -> (r: Result<
    GasCost,
    EstimatorError,
>)
    requires
        old(ctx).wf(),
        old(bench).wf(),
    ensures
        final(ctx).wf(),
        final(bench).wf(),
        final(ctx).config == old(ctx).config,
        final(bench).readings == old(bench).readings,
        ({
            let (sr, sc, sp) = spec_compute_cost(
                cost,
                old(ctx).config,
                old(ctx).cached,
                old(bench).readings@,
                old(bench).pos as int,
            );
            r == sr && final(ctx).cached == sc && final(bench).pos as int == sp
        }),
        r matches Ok(c) ==> c.wf() && c.metric == old(ctx).config.metric,
{
    match cost {
        Cost::ActionReceiptCreation => action_receipt_creation(ctx, bench),
        Cost::ActionSirReceiptCreation => action_sir_receipt_creation(ctx, bench),
        Cost::ActionTransfer => action_transfer(ctx, bench),
        Cost::ActionCreateAccount => action_create_account(ctx, bench),
        Cost::ActionDeleteAccount => action_delete_account(ctx, bench),
        Cost::ActionAddFullAccessKey => action_add_full_access_key(ctx, bench),
        Cost::ActionAddFunctionAccessKeyBase => action_add_function_access_key_base(ctx, bench),
        Cost::ActionAddFunctionAccessKeyPerByte => action_add_function_access_key_per_byte(
            ctx,
            bench,
        ),
        Cost::ActionDeleteKey => action_delete_key(ctx, bench),
        Cost::ActionStake => action_stake(ctx, bench),
        Cost::ActionDeployContractBase => action_deploy_contract_base(ctx, bench),
        Cost::ActionDeployContractPerByte => action_deploy_contract_per_byte(ctx, bench),
        Cost::ActionFunctionCallBase => action_function_call_base(ctx, bench),
        Cost::ActionFunctionCallPerByte => action_function_call_per_byte(ctx, bench),
        Cost::HostFunctionCall => host_function_call(ctx, bench),
        Cost::DataReceiptCreationBase => data_receipt_creation_base(ctx, bench),
        Cost::DataReceiptCreationPerByte => data_receipt_creation_per_byte(ctx, bench),
        Cost::ReadMemoryBase => read_memory_base(ctx, bench),
        Cost::ReadMemoryByte => read_memory_byte(ctx, bench),
        Cost::WriteMemoryBase => write_memory_base(ctx, bench),
        Cost::WriteMemoryByte => write_memory_byte(ctx, bench),
    }
}

/// Whether the inclusion filter selects `cost`; no filter selects all.
pub open spec fn spec_included(cost: Cost, filter: Option<Vec<Cost>>) -> bool {
    match filter {
        None => true,
        Some(v) => v@.contains(cost),
    }
}

/// Returns whether `v` lists `cost`.
fn contains_cost(v: &Vec<Cost>, cost: Cost) -> (r: bool)
    ensures
        r == v@.contains(cost),
{
    let mut i: usize = 0;
    while i < v.len()
        invariant
            0 <= i <= v@.len(),
            forall|j: int| 0 <= j < i ==> v@[j] != cost,
        decreases v@.len() - i,
    {
        if v[i] == cost {
            proof {
                assert(v@.contains(cost)) by {
                    assert(v@[i as int] == cost);
                }
            }
            return true;
        }
        i = i + 1;
    }
    proof {
        assert(!v@.contains(cost));
    }
    false
}

/// Returns whether the filter selects `cost`.
fn included(cost: Cost, filter: &Option<Vec<Cost>>) -> (r: bool)
    ensures
        r == spec_included(cost, *filter),
{
    match filter {
        None => true,
        Some(v) => contains_cost(v, cost),
    }
}

/// The final report: one gas value per measured catalog entry, in
/// catalog order. Created empty, populated once per entry, then handed
/// to the caller.
#[derive(Clone, Debug)]
pub struct CostTable {
    pub entries: Vec<(Cost, u64)>,
}

/// What a whole run computes: the costs of `costs` that the filter
/// selects, converted to gas, appended to `acc` in order; or the first
/// error.
pub open spec fn spec_run(
    costs: Seq<Cost>,
    cfg: Config,
    cache: CachedCosts,
    tape: Seq<Measurement>,
    pos: int,
    acc: Seq<(Cost, u64)>,
) -> Result<Seq<(Cost, u64)>, EstimatorError>
    decreases costs.len(),
{
    if costs.len() == 0 {
        Ok(acc)
    } else {
        let cost = costs[0];
        if !spec_included(cost, cfg.costs_to_measure) {
            spec_run(costs.drop_first(), cfg, cache, tape, pos, acc)
        } else {
            let (r, cache2, pos2) = spec_compute_cost(cost, cfg, cache, tape, pos);
            match r {
                Err(e) => Err(e),
                Ok(v) => match v.spec_to_gas() {
                    Err(e) => Err(EstimatorError::Arithmetic { error: e }),
                    Ok(g) => spec_run(
                        costs.drop_first(),
                        cfg,
                        cache2,
                        tape,
                        pos2,
                        acc.push((cost, g)),
                    ),
                },
            }
        }
    }
}

/// Walks the catalog in its fixed order, computing every cost the filter
/// selects against the tape of readings, and reports the gas values in
/// catalog order. Memoized baselines are measured at most once per run.
pub fn run(config: Config, bench: &mut Bench) -> (r: Result<CostTable, EstimatorError>)
    requires
        config.wf(),
        old(bench).wf(),
    ensures
        final(bench).wf(),
        final(bench).readings@ == old(bench).readings@,
        r matches Ok(t) ==> spec_run(
            catalog_order(),
            config,
            empty_cache(),
            old(bench).readings@,
            old(bench).pos as int,
            Seq::empty(),
        ) == Ok::<Seq<(Cost, u64)>, EstimatorError>(t.entries@),
        r matches Err(e) ==> spec_run(
            catalog_order(),
            config,
            empty_cache(),
            old(bench).readings@,
            old(bench).pos as int,
            Seq::empty(),
        ) == Err::<Seq<(Cost, u64)>, EstimatorError>(e),
{
    let costs = all_costs();
    let mut ctx = Ctx::new(config);
    let mut table = CostTable { entries: Vec::new() };
    let mut i: usize = 0;
    proof {
        assert(catalog_order().skip(0) =~= catalog_order());
    }
    while i < costs.len()
        invariant
            0 <= i <= costs@.len(),
            costs@ == catalog_order(),
            ctx.wf(),
            bench.wf(),
            ctx.config == config,
            bench.readings@ == old(bench).readings@,
            spec_run(
                catalog_order().skip(i as int),
                config,
                ctx.cached,
                old(bench).readings@,
                bench.pos as int,
                table.entries@,
            ) == spec_run(
                catalog_order(),
                config,
                empty_cache(),
                old(bench).readings@,
                old(bench).pos as int,
                Seq::empty(),
            ),
        decreases costs@.len() - i,
    {
        let cost = costs[i];
        proof {
            assert(catalog_order().skip(i as int).drop_first() =~= catalog_order().skip(
                i as int + 1,
            ));
            assert(catalog_order().skip(i as int)[0] == catalog_order()[i as int]);
        }
        if included(cost, &ctx.config.costs_to_measure) {
            let v = match compute_cost(cost, &mut ctx, bench) {
                Ok(v) => v,
                Err(e) => {
                    return Err(e);
                },
            };
            let g = match v.to_gas() {
                Ok(g) => g,
                Err(e) => {
                    return Err(EstimatorError::Arithmetic { error: e });
                },
            };
            table.entries.push((cost, g));
        }
        i = i + 1;
    }
    proof {
        assert(catalog_order().skip(i as int).len() == 0);
    }
    Ok(table)
}

/// Every marginal cost the resolver produces respects its baseline: a
/// successful subtraction means the composite total was at least the
/// baseline (comparing the rationals by cross-multiplication), and a
/// smaller total raises `NegativeCost` rather than clamping to zero.
pub proof fn lemma_marginal_never_clamps(total: GasCost, baseline: GasCost)
    requires
        total.wf(),
        baseline.wf(),
        total.metric == baseline.metric,
    ensures
        total.num * baseline.den < baseline.num * total.den ==> spec_marginal(total, baseline)
            == Err::<GasCost, EstimatorError>(
            EstimatorError::Arithmetic { error: CostError::NegativeCost },
        ),
        spec_marginal(total, baseline) matches Ok(c) ==> c.wf() && total.num * baseline.den
            >= baseline.num * total.den && c.value_is(
            total.num * baseline.den - baseline.num * total.den,
            total.den * baseline.den,
        ),
{
    crate::gas::lemma_sub_never_clamps(total, baseline);
}

/// Memoization: once a memoized measurement has succeeded, asking for it
/// again consumes no reading, changes nothing, and returns the value the
/// slot holds.
pub proof fn lemma_memo_measure_idempotent(
    cfg: Config,
    slot: Option<GasCost>,
    kind: WorkloadKind,
    block_size: u64,
    tape: Seq<Measurement>,
    pos: int,
)
    ensures
        ({
            let (r, slot2, pos2) = spec_memo_measure(cfg, slot, kind, block_size, tape, pos);
            r matches Ok(c) ==> spec_memo_measure(cfg, slot2, kind, block_size, tape, pos2) == (
                Ok::<GasCost, EstimatorError>(c),
                slot2,
                pos2,
            )
        }),
{
}

/// Memoization of the receipt-creation baseline: recomputing it after a
/// successful computation re-runs no measurement and returns the cached
/// value.
pub proof fn lemma_receipt_creation_memoized(
    cfg: Config,
    cache: CachedCosts,
    tape: Seq<Measurement>,
    pos: int,
)
    ensures
        ({
            let (r, cache2, pos2) = spec_action_receipt_creation(cfg, cache, tape, pos);
            r matches Ok(c) ==> spec_action_receipt_creation(cfg, cache2, tape, pos2) == (
                Ok::<GasCost, EstimatorError>(c),
                cache2,
                pos2,
            )
        }),
{
}

/// Memoization of the self-directed baseline.
pub proof fn lemma_sir_receipt_creation_memoized(
    cfg: Config,
    cache: CachedCosts,
    tape: Seq<Measurement>,
    pos: int,
)
    ensures
        ({
            let (r, cache2, pos2) = spec_action_sir_receipt_creation(cfg, cache, tape, pos);
            r matches Ok(c) ==> spec_action_sir_receipt_creation(cfg, cache2, tape, pos2) == (
                Ok::<GasCost, EstimatorError>(c),
                cache2,
                pos2,
            )
        }),
{
}

/// Memoization of the noop-call baseline.
pub proof fn lemma_noop_call_memoized(
    cfg: Config,
    cache: CachedCosts,
    tape: Seq<Measurement>,
    pos: int,
)
    ensures
        ({
            let (r, cache2, pos2) = spec_noop_host_function_call_cost(cfg, cache, tape, pos);
            r matches Ok(c) ==> spec_noop_host_function_call_cost(cfg, cache2, tape, pos2) == (
                Ok::<GasCost, EstimatorError>(c),
                cache2,
                pos2,
            )
        }),
{
}

/// Memoization of the function-call access-key baseline.
pub proof fn lemma_access_key_base_memoized(
    cfg: Config,
    cache: CachedCosts,
    tape: Seq<Measurement>,
    pos: int,
)
    ensures
        ({
            let (r, cache2, pos2) = spec_action_add_function_access_key_base(
                cfg,
                cache,
                tape,
                pos,
            );
            r matches Ok(c) ==> spec_action_add_function_access_key_base(cfg, cache2, tape, pos2)
                == (Ok::<GasCost, EstimatorError>(c), cache2, pos2)
        }),
{
}

/// Memoization of the contract-deploy baseline.
pub proof fn lemma_deploy_base_memoized(
    cfg: Config,
    cache: CachedCosts,
    tape: Seq<Measurement>,
    pos: int,
)
    ensures
        ({
            let (r, cache2, pos2) = spec_action_deploy_contract_base(cfg, cache, tape, pos);
            r matches Ok(c) ==> spec_action_deploy_contract_base(cfg, cache2, tape, pos2) == (
                Ok::<GasCost, EstimatorError>(c),
                cache2,
                pos2,
            )
        }),
{
}

} // verus!
