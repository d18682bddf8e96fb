//! The delta calculator: two counter snapshots in, an exact usage ratio out;
//! and the conversion from one raw time-in-state reading to a snapshot.

use vstd::prelude::*;

use crate::data::CounterSnapshot;
use crate::data::UsageRatio;

verus! {

/// One raw reading for a core: cumulative clock ticks spent in each time
/// category since an arbitrary fixed epoch.
#[derive(Clone, Copy, PartialEq, Eq, Structural, Debug)]
pub struct CpuTimeReading {
    pub user: u64,
    pub nice: u64,
    pub system: u64,
    pub irq: u64,
    pub soft_irq: u64,
    pub steal: u64,
    pub idle: u64,
    pub io_wait: u64,
}

/// Cumulative working time of a reading: the sum of its non-idle categories.
pub open spec fn spec_working_time(t: CpuTimeReading) -> int {
    t.user + t.nice + t.system + t.irq + t.soft_irq + t.steal
}

/// Cumulative total time of a reading: working time plus idle and io-wait.
pub open spec fn spec_total_time(t: CpuTimeReading) -> int {
    spec_working_time(t) + t.idle + t.io_wait
}

/// Work done between two snapshots: the increase in cumulative working time,
/// clamped to zero when the counter regressed (a reset or rollback).
pub open spec fn spec_work_delta(prev: CounterSnapshot, curr: CounterSnapshot) -> int {
    if curr.working > prev.working {
        curr.working - prev.working
    } else {
        0
    }
}

/// Denominator of the usage ratio: the increase in cumulative total time,
/// defaulted to 1 when total time has not advanced (two samples taken too
/// close together, or a stalled counter). Always at least 1.
pub open spec fn spec_total_delta(prev: CounterSnapshot, curr: CounterSnapshot) -> int {
    if curr.total > prev.total {
        curr.total - prev.total
    } else {
        1
    }
}

/// The usage percentage between two snapshots, as the exact ratio
/// `work_delta * 100 / total_delta`. Deliberately unclamped above 100: a
/// nonzero work delta over a zero total delta yields `work_delta * 100 / 1`.
pub open spec fn spec_usage(prev: CounterSnapshot, curr: CounterSnapshot) -> UsageRatio {
    UsageRatio {
        num: (100 * spec_work_delta(prev, curr)) as u128,
        den: spec_total_delta(prev, curr) as u64,
    }
}

/// The delta calculator. Negative work deltas clamp to zero; a total-time
/// delta that is not positive defaults the denominator to 1 instead of
/// failing, so identical snapshots yield exactly zero percent and a stalled
/// total counter can yield more than one hundred percent.
pub fn calculate_cpu_usage_percentage(prev: CounterSnapshot, curr: CounterSnapshot) -> (r:
    UsageRatio)
    ensures
        r == spec_usage(prev, curr),
        r.den >= 1,
{
    let work_delta: u64 = if curr.working > prev.working {
        curr.working - prev.working
    } else {
        0
    };
    let total_delta: u64 = if curr.total > prev.total {
        curr.total - prev.total
    } else {
        1
    };
    UsageRatio { num: (work_delta as u128) * 100, den: total_delta }
}

/// Folds one raw reading into a counter snapshot: working time is the sum of
/// the six non-idle categories, total time adds idle and io-wait on top. The
/// caller keeps the category sum within the counter type; raw OS tick counts
/// sit far below that bound.
pub fn convert_cpu_times(cpu_time: &CpuTimeReading) -> (s: CounterSnapshot)
    requires
        spec_total_time(*cpu_time) <= u64::MAX,
    ensures
        s.working == spec_working_time(*cpu_time),
        s.total == spec_total_time(*cpu_time),
{
    let working_time: u64 = cpu_time.user + cpu_time.nice + cpu_time.system + cpu_time.irq
        + cpu_time.soft_irq + cpu_time.steal;
    CounterSnapshot { working: working_time, total: working_time + cpu_time.idle + cpu_time.io_wait }
}

} // verus!
