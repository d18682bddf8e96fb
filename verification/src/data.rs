//! The data model: counter snapshots, exact usage ratios, and the labelled
//! records a harvest cycle returns.

use vstd::prelude::*;

verus! {

/// Cumulative time-in-state counters for one core (or for the whole machine)
/// at one instant, in clock ticks since an arbitrary fixed epoch. Under
/// normal operation both counters are non-decreasing from cycle to cycle;
/// nothing here relies on that, and regressions are tolerated downstream.
#[derive(Clone, Copy, PartialEq, Eq, Structural, Debug)]
pub struct CounterSnapshot {
    /// Cumulative non-idle time: user, nice, system, irq, soft-irq and steal.
    pub working: u64,
    /// Cumulative total time: working time plus idle and io-wait.
    pub total: u64,
}

/// A utilization percentage as an exact ratio `num / den` of percent.
/// `den` is always at least 1. The ratio is deliberately not clamped to 100:
/// when total time has not advanced between two snapshots the denominator
/// defaults to 1, which can yield values far above 100.
#[derive(Clone, Copy, PartialEq, Eq, Structural, Debug)]
pub struct UsageRatio {
    /// One hundred times the work delta between the two snapshots.
    pub num: u128,
    /// The total-time delta, or 1 when total time has not advanced.
    pub den: u64,
}

/// Which kind of reading a record carries.
#[derive(Clone, Copy, PartialEq, Eq, Structural, Debug)]
pub enum CpuLabel {
    /// The machine-wide aggregate reading.
    Avg,
    /// One core's reading.
    Cpu,
}

/// One utilization reading handed back to the harvesting loop.
#[derive(Clone, Copy, PartialEq, Eq, Debug)]
pub struct CpuData {
    /// `Avg` for the aggregate record, `Cpu` for a core record.
    pub cpu_prefix: CpuLabel,
    /// The core's index in enumeration order; `None` only on the `Avg` record.
    pub cpu_count: Option<usize>,
    /// The reading itself.
    pub cpu_usage: UsageRatio,
}

/// What one cycle returns: the ordered sequence of records.
pub type CpuHarvest = Vec<CpuData>;

/// The ratio reported where no delta could be computed: exactly zero percent.
pub open spec fn spec_zero_usage() -> UsageRatio {
    UsageRatio { num: 0, den: 1 }
}

/// The record for core `i` with reading `u`.
pub open spec fn spec_core_record(i: int, u: UsageRatio) -> CpuData {
    CpuData { cpu_prefix: CpuLabel::Cpu, cpu_count: Some(i as usize), cpu_usage: u }
}

/// The aggregate record with reading `u`.
pub open spec fn spec_avg_record(u: UsageRatio) -> CpuData {
    CpuData { cpu_prefix: CpuLabel::Avg, cpu_count: None, cpu_usage: u }
}

/// How many records precede the core records: one when the aggregate was
/// requested, none otherwise.
pub open spec fn spec_offset(show_average_cpu: bool) -> int {
    if show_average_cpu {
        1
    } else {
        0
    }
}

/// The ordering contract of a harvest: when the aggregate was requested it
/// comes first, labelled `Avg` with no index; every remaining record is
/// labelled `Cpu` and carries its core's index, so indices are exactly
/// 0, 1, 2, ... in order.
pub open spec fn spec_well_labelled(show_average_cpu: bool, records: Seq<CpuData>) -> bool {
    if show_average_cpu {
        &&& records.len() >= 1
        &&& records[0].cpu_prefix == CpuLabel::Avg
        &&& records[0].cpu_count is None
        &&& forall|i: int|
            1 <= i < records.len() ==> (#[trigger] records[i]).cpu_prefix == CpuLabel::Cpu
                && records[i].cpu_count == Some((i - 1) as usize)
    } else {
        forall|i: int|
            0 <= i < records.len() ==> (#[trigger] records[i]).cpu_prefix == CpuLabel::Cpu
                && records[i].cpu_count == Some(i as usize)
    }
}

} // verus!
