//! Calibration engine for protocol cost parameters.
//!
//! The library estimates the gas cost of ledger operations: it models raw
//! physical measurements (wall-clock time or retired-instruction counts),
//! isolates marginal costs by subtracting previously measured baselines,
//! divides per-unit costs by statically known unit counts, fits linear
//! models to size sweeps, and converts raw units into protocol gas units.
//! The execution backend that actually runs workloads is outside the
//! library: callers perform the measurements it asks for and hand the raw
//! readings back.

pub mod estimator;
pub mod function_call;
pub mod gas;
pub mod receipts;
pub mod regression;
pub mod text;
pub mod workload;
