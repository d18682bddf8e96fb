//! Per-core and aggregate CPU utilization for a periodically polled system
//! monitor.
//!
//! The crate turns raw, cumulative time-in-state counters (or, on platforms
//! whose OS layer already smooths them, ready-made percentages) into a stable,
//! ordered list of utilization readings. It handles the two platform data
//! sources, bootstraps a meaningful first reading when no prior sample
//! exists, tolerates counter anomalies (resets, zero deltas, partial read
//! failures) without corrupting cross-cycle state, and keeps core identity
//! stable across cycles even as the core count changes.
//!
//! The OS counter source itself is a capability of the caller: the caller
//! performs the (possibly asynchronous) reads and hands the readings in as
//! plain values; this crate owns every decision and computation in between.

pub mod calc;
pub mod data;
pub mod delta;
pub mod direct;
