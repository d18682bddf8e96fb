//! The delta-based harvest cycle: bootstrap when no prior state exists,
//! steady-state diffing against the stored snapshots, the cross-cycle state
//! store, and the assembled, labelled result.
//!
//! The caller owns the OS counter source: it performs the batch reads (and
//! the short pause between the two bootstrap reads) and hands the readings
//! in as plain values, one optional snapshot per core — `None` marks a
//! single core whose read failed inside an otherwise successful batch. A
//! whole-batch failure never reaches this module: the caller propagates it
//! without calling in, which leaves the stored state untouched.

use vstd::prelude::*;

use crate::calc::calculate_cpu_usage_percentage;
use crate::calc::spec_usage;
use crate::data::CounterSnapshot;
use crate::data::CpuData;
use crate::data::CpuHarvest;
use crate::data::CpuLabel;
use crate::data::UsageRatio;
use crate::data::spec_avg_record;
use crate::data::spec_core_record;
use crate::data::spec_offset;
use crate::data::spec_well_labelled;
use crate::data::spec_zero_usage;

verus! {

/// The snapshot stored for a core that has no known-good reading yet: both
/// counters at the epoch, so the next successful read diffs against zero.
pub open spec fn spec_empty_snapshot() -> CounterSnapshot {
    CounterSnapshot { working: 0, total: 0 }
}

/// How many cores a bootstrap covers: the two batch reads paired by index,
/// stopping at the shorter batch.
pub open spec fn spec_zip_len(
    first: Seq<Option<CounterSnapshot>>,
    second: Seq<Option<CounterSnapshot>>,
) -> int {
    if first.len() < second.len() {
        first.len() as int
    } else {
        second.len() as int
    }
}

/// What the bootstrap stores for core `i`: the second read's snapshot where
/// both reads succeeded, the empty snapshot otherwise.
pub open spec fn spec_boot_prior(
    first: Seq<Option<CounterSnapshot>>,
    second: Seq<Option<CounterSnapshot>>,
    i: int,
) -> CounterSnapshot {
    if first[i] is Some && second[i] is Some {
        second[i]->0
    } else {
        spec_empty_snapshot()
    }
}

/// What the bootstrap reports for core `i`: the delta between its two reads
/// where both succeeded, zero percent otherwise.
pub open spec fn spec_boot_usage(
    first: Seq<Option<CounterSnapshot>>,
    second: Seq<Option<CounterSnapshot>>,
    i: int,
) -> UsageRatio {
    if first[i] is Some && second[i] is Some {
        spec_usage(first[i]->0, second[i]->0)
    } else {
        spec_zero_usage()
    }
}

/// What a steady cycle stores for core `i`: a successful read's snapshot; on
/// a failed read the old snapshot where one exists, else the empty one.
pub open spec fn spec_steady_prior(
    prior: Seq<CounterSnapshot>,
    current: Seq<Option<CounterSnapshot>>,
    i: int,
) -> CounterSnapshot {
    match current[i] {
        Some(c) => c,
        None => if i < prior.len() {
            prior[i]
        } else {
            spec_empty_snapshot()
        },
    }
}

/// What a steady cycle reports for core `i`: the delta against the stored
/// snapshot on a successful read; zero percent on a failed read or for a
/// core the store does not know yet (the count grew this cycle).
pub open spec fn spec_steady_usage(
    prior: Seq<CounterSnapshot>,
    current: Seq<Option<CounterSnapshot>>,
    i: int,
) -> UsageRatio {
    if i < prior.len() {
        match current[i] {
            Some(c) => spec_usage(prior[i], c),
            None => spec_zero_usage(),
        }
    } else {
        spec_zero_usage()
    }
}

/// The whole store after a steady cycle: one slot per core the adapter
/// reported this cycle, in index order.
pub open spec fn spec_steady_priors(
    prior: Seq<CounterSnapshot>,
    current: Seq<Option<CounterSnapshot>>,
) -> Seq<CounterSnapshot> {
    Seq::new(current.len() as nat, |i: int| spec_steady_prior(prior, current, i))
}

/// The bootstrap decision: a cycle must bootstrap exactly when no prior
/// per-core state exists.
pub fn needs_bootstrap(previous_cpu_times: &Vec<CounterSnapshot>) -> (b: bool)
    ensures
        b <==> previous_cpu_times@.len() == 0,
{
    previous_cpu_times.is_empty()
}

/// The aggregate's bootstrap decision: its own two-read micro-cycle is due
/// exactly when no aggregate snapshot is stored.
pub fn needs_average_bootstrap(previous_average_cpu_time: &Option<CounterSnapshot>) -> (b: bool)
    ensures
        b <==> (*previous_average_cpu_time) is None,
{
    previous_average_cpu_time.is_none()
}

/// The bootstrap micro-cycle over the two per-core batch reads, paired by
/// index (the pairing stops at the shorter batch). Where both of a core's
/// reads succeeded, the reported usage is the delta between them and the
/// second read's snapshot is committed; where either failed, the core
/// reports zero percent and the empty snapshot is committed. The store is
/// overwritten whole, so afterwards it has exactly one slot per covered
/// core.
#[verifier::loop_isolation(false)]
pub fn bootstrap_cycle(
    cpu_times: &Vec<Option<CounterSnapshot>>,
    second_cpu_times: &Vec<Option<CounterSnapshot>>,
    previous_cpu_times: &mut Vec<CounterSnapshot>,
) -> (records: Vec<CpuData>)
    ensures
        records@.len() == spec_zip_len(cpu_times@, second_cpu_times@),
        final(previous_cpu_times)@.len() == spec_zip_len(cpu_times@, second_cpu_times@),
        forall|i: int|
            0 <= i < records@.len() ==> records@[i] == spec_core_record(
                i,
                #[trigger] spec_boot_usage(cpu_times@, second_cpu_times@, i),
            ),
        forall|i: int|
            0 <= i < records@.len() ==> final(previous_cpu_times)@[i] == spec_boot_prior(
                cpu_times@,
                second_cpu_times@,
                i,
            ),
{
    let n: usize = if cpu_times.len() < second_cpu_times.len() {
        cpu_times.len()
    } else {
        second_cpu_times.len()
    };
    let mut new_cpu_times: Vec<CounterSnapshot> = Vec::new();
    let mut records: Vec<CpuData> = Vec::new();
    let mut itx: usize = 0;
    while itx < n
        invariant
            itx <= n,
            records@.len() == itx,
            new_cpu_times@.len() == itx,
            forall|i: int|
                0 <= i < itx ==> records@[i] == spec_core_record(
                    i,
                    #[trigger] spec_boot_usage(cpu_times@, second_cpu_times@, i),
                ),
            forall|i: int|
                0 <= i < itx ==> new_cpu_times@[i] == spec_boot_prior(
                    cpu_times@,
                    second_cpu_times@,
                    i,
                ),
        decreases n - itx,
    {
        match (cpu_times[itx], second_cpu_times[itx]) {
            (Some(past), Some(present)) => {
                new_cpu_times.push(present);
                records.push(
                    CpuData {
                        cpu_prefix: CpuLabel::Cpu,
                        cpu_count: Some(itx),
                        cpu_usage: calculate_cpu_usage_percentage(past, present),
                    },
                );
            },
            _ => {
                new_cpu_times.push(CounterSnapshot { working: 0, total: 0 });
                records.push(
                    CpuData {
                        cpu_prefix: CpuLabel::Cpu,
                        cpu_count: Some(itx),
                        cpu_usage: UsageRatio { num: 0, den: 1 },
                    },
                );
            },
        }
        itx = itx + 1;
    }
    *previous_cpu_times = new_cpu_times;
    records
}

/// One steady-state cycle over the freshly read batch, paired with the
/// stored state by explicit index so that a changed core count is a case of
/// its own, never silently dropped data. Per core: a successful read diffs
/// against the stored snapshot and overwrites it; a failed read reports
/// zero percent and keeps the stored snapshot for the next successful diff;
/// a core beyond the stored state (the count grew) reports zero percent and
/// has its snapshot appended at the end, leaving lower indices untouched.
/// The store afterwards has exactly one slot per core reported this cycle.
#[verifier::loop_isolation(false)]
pub fn steady_cycle(
    cpu_times: &Vec<Option<CounterSnapshot>>,
    previous_cpu_times: &mut Vec<CounterSnapshot>,
) -> (records: Vec<CpuData>)
    ensures
        records@.len() == cpu_times@.len(),
        final(previous_cpu_times)@ == spec_steady_priors(old(previous_cpu_times)@, cpu_times@),
        forall|i: int|
            0 <= i < records@.len() ==> records@[i] == spec_core_record(
                i,
                #[trigger] spec_steady_usage(old(previous_cpu_times)@, cpu_times@, i),
            ),
{
    let ghost prior: Seq<CounterSnapshot> = previous_cpu_times@;
    let n: usize = cpu_times.len();
    let mut new_cpu_times: Vec<CounterSnapshot> = Vec::new();
    let mut records: Vec<CpuData> = Vec::new();
    let mut itx: usize = 0;
    while itx < n
        invariant
            itx <= n,
            records@.len() == itx,
            new_cpu_times@.len() == itx,
            forall|i: int|
                0 <= i < itx ==> records@[i] == spec_core_record(
                    i,
                    #[trigger] spec_steady_usage(prior, cpu_times@, i),
                ),
            forall|i: int| 0 <= i < itx ==> new_cpu_times@[i] == spec_steady_prior(prior, cpu_times@, i),
        decreases n - itx,
    {
        let (snapshot, usage): (CounterSnapshot, UsageRatio) = if itx < previous_cpu_times.len() {
            match cpu_times[itx] {
                Some(current_cpu) => (
                    current_cpu,
                    calculate_cpu_usage_percentage(previous_cpu_times[itx], current_cpu),
                ),
                None => (previous_cpu_times[itx], UsageRatio { num: 0, den: 1 }),
            }
        } else {
            match cpu_times[itx] {
                Some(current_cpu) => (current_cpu, UsageRatio { num: 0, den: 1 }),
                None => (CounterSnapshot { working: 0, total: 0 }, UsageRatio { num: 0, den: 1 }),
            }
        };
        new_cpu_times.push(snapshot);
        records.push(
            CpuData { cpu_prefix: CpuLabel::Cpu, cpu_count: Some(itx), cpu_usage: usage },
        );
        itx = itx + 1;
    }
    proof {
        assert(new_cpu_times@ =~= spec_steady_priors(prior, cpu_times@));
    }
    *previous_cpu_times = new_cpu_times;
    records
}

/// The aggregate's steady path: diff the fresh aggregate snapshot against
/// the stored one, then commit the fresh one.
pub fn steady_average(
    cpu_time: CounterSnapshot,
    previous_average_cpu_time: &mut Option<CounterSnapshot>,
) -> (r: UsageRatio)
    requires
        (*old(previous_average_cpu_time)) is Some,
    ensures
        r == spec_usage((*old(previous_average_cpu_time))->0, cpu_time),
        *final(previous_average_cpu_time) == Some(cpu_time),
{
    let previous = previous_average_cpu_time.unwrap();
    *previous_average_cpu_time = Some(cpu_time);
    calculate_cpu_usage_percentage(previous, cpu_time)
}

/// The aggregate's bootstrap micro-cycle over its own two reads: report the
/// delta between them and commit the second read's snapshot.
pub fn bootstrap_average(
    cpu_time: CounterSnapshot,
    second_cpu_time: CounterSnapshot,
    previous_average_cpu_time: &mut Option<CounterSnapshot>,
) -> (r: UsageRatio)
    ensures
        r == spec_usage(cpu_time, second_cpu_time),
        *final(previous_average_cpu_time) == Some(second_cpu_time),
{
    *previous_average_cpu_time = Some(second_cpu_time);
    calculate_cpu_usage_percentage(cpu_time, second_cpu_time)
}

/// The aggregate reading one cycle reports: against the stored snapshot
/// where one exists, else between the cycle's own two aggregate reads.
pub open spec fn spec_avg_usage(
    prior: Option<CounterSnapshot>,
    cpu_time: CounterSnapshot,
    second_cpu_time: Option<CounterSnapshot>,
) -> UsageRatio {
    match prior {
        Some(p) => spec_usage(p, cpu_time),
        None => spec_usage(cpu_time, second_cpu_time->0),
    }
}

/// The aggregate snapshot one cycle commits: the fresh read, or the second
/// of the cycle's two bootstrap reads.
pub open spec fn spec_avg_prior(
    prior: Option<CounterSnapshot>,
    cpu_time: CounterSnapshot,
    second_cpu_time: Option<CounterSnapshot>,
) -> CounterSnapshot {
    match prior {
        Some(_) => cpu_time,
        None => second_cpu_time->0,
    }
}

/// How many cores one whole cycle reports: a bootstrap is bounded by its
/// shorter batch, a steady cycle by this cycle's batch.
pub open spec fn spec_core_count(
    prior: Seq<CounterSnapshot>,
    cpu_times: Seq<Option<CounterSnapshot>>,
    second_cpu_times: Option<Vec<Option<CounterSnapshot>>>,
) -> int {
    if prior.len() == 0 {
        spec_zip_len(cpu_times, second_cpu_times->0@)
    } else {
        cpu_times.len() as int
    }
}

/// The usage one whole cycle reports for core `i`, bootstrap or steady.
pub open spec fn spec_cycle_usage(
    prior: Seq<CounterSnapshot>,
    cpu_times: Seq<Option<CounterSnapshot>>,
    second_cpu_times: Option<Vec<Option<CounterSnapshot>>>,
    i: int,
) -> UsageRatio {
    if prior.len() == 0 {
        spec_boot_usage(cpu_times, second_cpu_times->0@, i)
    } else {
        spec_steady_usage(prior, cpu_times, i)
    }
}

/// The snapshot one whole cycle commits for core `i`, bootstrap or steady.
pub open spec fn spec_cycle_prior(
    prior: Seq<CounterSnapshot>,
    cpu_times: Seq<Option<CounterSnapshot>>,
    second_cpu_times: Option<Vec<Option<CounterSnapshot>>>,
    i: int,
) -> CounterSnapshot {
    if prior.len() == 0 {
        spec_boot_prior(cpu_times, second_cpu_times->0@, i)
    } else {
        spec_steady_prior(prior, cpu_times, i)
    }
}

/// One whole delta-based harvest cycle, computed from the reads the caller
/// performed this cycle: `cpu_times` is the per-core batch, present for
/// every cycle; `second_cpu_times` is the second batch a bootstrap takes
/// after its short pause, and is handed in exactly when the store is empty;
/// `cpu_time` is the machine-wide aggregate read, owed whenever the
/// aggregate was requested; `second_cpu_time` is the aggregate's own second
/// bootstrap read, owed exactly when the aggregate was requested and no
/// aggregate snapshot is stored. All new state is committed within this one
/// call — a cycle abandoned before it never touches the store.
#[verifier::loop_isolation(false)]
pub fn get_cpu_data_list(
    show_average_cpu: bool,
    previous_cpu_times: &mut Vec<CounterSnapshot>,
    previous_average_cpu_time: &mut Option<CounterSnapshot>,
    cpu_times: Vec<Option<CounterSnapshot>>,
    second_cpu_times: Option<Vec<Option<CounterSnapshot>>>,
    cpu_time: Option<CounterSnapshot>,
    second_cpu_time: Option<CounterSnapshot>,
) -> (records: CpuHarvest)
    requires
        second_cpu_times is Some <==> old(previous_cpu_times)@.len() == 0,
        show_average_cpu ==> cpu_time is Some,
        second_cpu_time is Some <==> (show_average_cpu && (*old(previous_average_cpu_time))
            is None),
    ensures
        spec_well_labelled(show_average_cpu, records@),
        records@.len() == spec_offset(show_average_cpu) + spec_core_count(
            old(previous_cpu_times)@,
            cpu_times@,
            second_cpu_times,
        ),
        final(previous_cpu_times)@.len() == spec_core_count(
            old(previous_cpu_times)@,
            cpu_times@,
            second_cpu_times,
        ),
        forall|i: int|
            0 <= i < final(previous_cpu_times)@.len() ==> final(previous_cpu_times)@[i]
                == spec_cycle_prior(old(previous_cpu_times)@, cpu_times@, second_cpu_times, i),
        forall|i: int|
            0 <= i < final(previous_cpu_times)@.len() ==> records@[spec_offset(show_average_cpu)
                + i] == spec_core_record(
                i,
                #[trigger] spec_cycle_usage(
                    old(previous_cpu_times)@,
                    cpu_times@,
                    second_cpu_times,
                    i,
                ),
            ),
        show_average_cpu ==> records@[0] == spec_avg_record(
            spec_avg_usage(*old(previous_average_cpu_time), cpu_time->0, second_cpu_time),
        ),
        show_average_cpu ==> *final(previous_average_cpu_time) == Some(
            spec_avg_prior(*old(previous_average_cpu_time), cpu_time->0, second_cpu_time),
        ),
        !show_average_cpu ==> *final(previous_average_cpu_time) == *old(
            previous_average_cpu_time,
        ),
{
    let ghost prior: Seq<CounterSnapshot> = previous_cpu_times@;
    let ghost prior_avg: Option<CounterSnapshot> = *previous_average_cpu_time;
    let ghost second_batch: Option<Vec<Option<CounterSnapshot>>> = second_cpu_times;
    let core_records: Vec<CpuData> = if previous_cpu_times.is_empty() {
        let second_batch_times = second_cpu_times.unwrap();
        bootstrap_cycle(&cpu_times, &second_batch_times, previous_cpu_times)
    } else {
        steady_cycle(&cpu_times, previous_cpu_times)
    };
    let mut records: Vec<CpuData> = Vec::new();
    if show_average_cpu {
        let current = cpu_time.unwrap();
        let avg_usage: UsageRatio = if previous_average_cpu_time.is_some() {
            steady_average(current, previous_average_cpu_time)
        } else {
            bootstrap_average(current, second_cpu_time.unwrap(), previous_average_cpu_time)
        };
        records.push(CpuData { cpu_prefix: CpuLabel::Avg, cpu_count: None, cpu_usage: avg_usage });
    }
    let mut itx: usize = 0;
    while itx < core_records.len()
        invariant
            itx <= core_records@.len(),
            records@.len() == spec_offset(show_average_cpu) + itx,
            show_average_cpu ==> records@[0] == spec_avg_record(
                spec_avg_usage(prior_avg, cpu_time->0, second_cpu_time),
            ),
            forall|i: int|
                0 <= i < itx ==> records@[spec_offset(show_average_cpu) + i] == spec_core_record(
                    i,
                    #[trigger] spec_cycle_usage(prior, cpu_times@, second_batch, i),
                ),
        decreases core_records@.len() - itx,
    {
        records.push(core_records[itx]);
        itx = itx + 1;
    }
    proof {
        assert forall|i: int|
            spec_offset(show_average_cpu) <= i < records@.len() implies (#[trigger] records@[i]).cpu_prefix
            == CpuLabel::Cpu && records@[i].cpu_count == Some(
            (i - spec_offset(show_average_cpu)) as usize,
        ) by {
            let j: int = i - spec_offset(show_average_cpu);
            assert(records@[i] == spec_core_record(
                j,
                spec_cycle_usage(prior, cpu_times@, second_batch, j),
            ));
        }
    }
    records
}

/// Law: a bootstrap commits the second read's values — for every core whose
/// two reads both succeeded, the snapshot the bootstrap stores is exactly
/// the second read's snapshot.
pub proof fn lemma_bootstrap_commits_second_read(
    first: Seq<Option<CounterSnapshot>>,
    second: Seq<Option<CounterSnapshot>>,
    i: int,
)
    requires
        first[i] is Some,
        second[i] is Some,
    ensures
        spec_boot_prior(first, second, i) == second[i]->0,
{
}

/// Law: when the adapter reports one more core than the stored state knows,
/// the steady cycle reports the new core at the next index with zero usage
/// and appends its snapshot at the end, and every already-known core's
/// reading and committed snapshot are exactly what they would have been had
/// the count not grown.
pub proof fn lemma_core_growth(
    prior: Seq<CounterSnapshot>,
    current: Seq<Option<CounterSnapshot>>,
    grown: Seq<Option<CounterSnapshot>>,
)
    requires
        current.len() == prior.len(),
        grown.len() == prior.len() + 1,
        forall|i: int| 0 <= i < current.len() ==> grown[i] == current[i],
    ensures
        forall|i: int|
            0 <= i < prior.len() ==> #[trigger] spec_steady_usage(prior, grown, i)
                == spec_steady_usage(prior, current, i),
        forall|i: int|
            0 <= i < prior.len() ==> #[trigger] spec_steady_priors(prior, grown)[i]
                == spec_steady_priors(prior, current)[i],
        spec_steady_usage(prior, grown, prior.len() as int) == spec_zero_usage(),
        spec_steady_priors(prior, grown).len() == prior.len() + 1,
{
}

/// Law: a core whose read failed inside an otherwise successful batch
/// reports zero percent for that cycle while its stored snapshot stays
/// exactly what it was, so a subsequent successful read diffs against the
/// last known-good snapshot, not against a zero or garbage value.
pub proof fn lemma_failed_read_keeps_snapshot(
    prior: Seq<CounterSnapshot>,
    current: Seq<Option<CounterSnapshot>>,
    next: Seq<Option<CounterSnapshot>>,
    k: int,
    c: CounterSnapshot,
)
    requires
        0 <= k < prior.len(),
        k < current.len(),
        k < next.len(),
        current[k] is None,
        next[k] == Some(c),
    ensures
        spec_steady_usage(prior, current, k) == spec_zero_usage(),
        spec_steady_priors(prior, current)[k] == prior[k],
        spec_steady_usage(spec_steady_priors(prior, current), next, k) == spec_usage(prior[k], c),
{
}

} // verus!
