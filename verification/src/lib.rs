//! Simulation core for a virtual computer whose resource load fluctuates
//! over time according to a schedule.
//!
//! The library tracks a machine's power state, enforces a shared capacity
//! bound across four load consumers, smooths instantaneous load toward a
//! scheduled target with a bounded random walk, and accumulates work to
//! gate boot and shutdown transitions.

use vstd::prelude::*;

pub mod computer;
pub mod config;
pub mod machine;
pub mod materials;
pub mod schedule;
pub mod ui;
