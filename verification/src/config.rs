//! Configuration constants for the simulation.

use vstd::prelude::*;

verus! {

/// The in-game date and time at which the simulation starts, as whole
/// seconds since the epoch.
pub const TIMESTAMP_START: i64 = 2481201120;

/// The time step between usage updates, in milliseconds of simulated time.
pub const STEP_USAGE_MILLIS: u64 = 100;

} // verus!
