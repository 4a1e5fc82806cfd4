//! The SummitX pre-trade risk engine: positions, limits, violations, the
//! order lifecycle, and the risk manager. Time is passed in as nanoseconds.
pub mod order;
pub mod risk;
pub mod types;

use vstd::prelude::*;

verus! {

/// The version of the risk engine.
pub const VERSION: &'static str = "0.1.0";

/// The validation latency aimed for, in microseconds.
pub const TARGET_LATENCY_US: u64 = 100;

} // verus!
