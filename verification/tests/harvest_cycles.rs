use cpu_harvest::data::CounterSnapshot;
use cpu_harvest::data::CpuLabel;
use cpu_harvest::data::UsageRatio;
use cpu_harvest::delta::bootstrap_cycle;
use cpu_harvest::delta::get_cpu_data_list;
use cpu_harvest::delta::needs_average_bootstrap;
use cpu_harvest::delta::needs_bootstrap;
use cpu_harvest::delta::steady_cycle;

fn snap(working: u64, total: u64) -> CounterSnapshot {
    CounterSnapshot { working, total }
}

fn percent(r: UsageRatio) -> f64 {
    r.num as f64 / r.den as f64
}

#[test]
fn bootstrap_commits_second_read_as_prior_state() {
    let first = vec![Some(snap(10, 20)), Some(snap(0, 10))];
    let second = vec![Some(snap(15, 30)), Some(snap(5, 10))];
    let mut prior: Vec<CounterSnapshot> = Vec::new();
    let records = bootstrap_cycle(&first, &second, &mut prior);
    assert_eq!(prior, vec![snap(15, 30), snap(5, 10)]);
    assert_eq!(records.len(), 2);
    assert_eq!(records[0].cpu_prefix, CpuLabel::Cpu);
    assert_eq!(records[0].cpu_count, Some(0));
    assert_eq!(percent(records[0].cpu_usage), 50.0);
    // Second core: total time did not advance, denominator defaults to 1.
    assert_eq!(percent(records[1].cpu_usage), 500.0);
}

#[test]
fn bootstrap_failed_read_reports_zero_and_stores_empty_snapshot() {
    let first = vec![Some(snap(10, 20)), Some(snap(10, 20))];
    let second = vec![Some(snap(15, 30)), None];
    let mut prior: Vec<CounterSnapshot> = Vec::new();
    let records = bootstrap_cycle(&first, &second, &mut prior);
    assert_eq!(records.len(), 2);
    assert_eq!(percent(records[1].cpu_usage), 0.0);
    assert_eq!(prior[1], snap(0, 0));
}

#[test]
fn bootstrap_pairs_stop_at_shorter_batch() {
    let first = vec![Some(snap(10, 20)), Some(snap(0, 10))];
    let second = vec![Some(snap(15, 30))];
    let mut prior: Vec<CounterSnapshot> = Vec::new();
    let records = bootstrap_cycle(&first, &second, &mut prior);
    assert_eq!(records.len(), 1);
    assert_eq!(prior.len(), 1);
}

#[test]
fn bootstrap_of_empty_batches_yields_nothing() {
    let mut prior: Vec<CounterSnapshot> = Vec::new();
    let records = bootstrap_cycle(&Vec::new(), &Vec::new(), &mut prior);
    assert!(records.is_empty());
    assert!(prior.is_empty());
}

#[test]
fn steady_cycle_diffs_and_overwrites() {
    let mut prior = vec![snap(10, 20)];
    let records = steady_cycle(&vec![Some(snap(15, 30))], &mut prior);
    assert_eq!(records.len(), 1);
    assert_eq!(percent(records[0].cpu_usage), 50.0);
    assert_eq!(prior, vec![snap(15, 30)]);
}

#[test]
fn steady_failed_read_keeps_snapshot_for_next_diff() {
    let mut prior = vec![snap(10, 20), snap(1, 2)];
    // First cycle: core 0's read fails. It reports 0% and keeps its snapshot.
    let records = steady_cycle(&vec![None, Some(snap(2, 4))], &mut prior);
    assert_eq!(percent(records[0].cpu_usage), 0.0);
    assert_eq!(prior[0], snap(10, 20));
    // Next cycle: core 0 reads fine and diffs against the pre-failure value.
    let records = steady_cycle(&vec![Some(snap(15, 30)), Some(snap(3, 6))], &mut prior);
    assert_eq!(percent(records[0].cpu_usage), 50.0);
    assert_eq!(prior[0], snap(15, 30));
}

#[test]
fn steady_core_growth_appends_without_disturbing_lower_indices() {
    let mut prior = vec![snap(10, 20), snap(0, 10)];
    let current = vec![Some(snap(15, 30)), Some(snap(5, 20)), Some(snap(7, 9))];
    let records = steady_cycle(&current, &mut prior);
    assert_eq!(records.len(), 3);
    // Indices 0..1 read exactly as they would have without the new core.
    assert_eq!(records[0].cpu_count, Some(0));
    assert_eq!(percent(records[0].cpu_usage), 50.0);
    assert_eq!(records[1].cpu_count, Some(1));
    assert_eq!(percent(records[1].cpu_usage), 50.0);
    // The new core appears at index 2 with no prior to diff against.
    assert_eq!(records[2].cpu_count, Some(2));
    assert_eq!(percent(records[2].cpu_usage), 0.0);
    assert_eq!(prior, vec![snap(15, 30), snap(5, 20), snap(7, 9)]);
}

#[test]
fn steady_core_shrink_truncates_the_store() {
    let mut prior = vec![snap(10, 20), snap(0, 10)];
    let records = steady_cycle(&vec![Some(snap(15, 30))], &mut prior);
    assert_eq!(records.len(), 1);
    assert_eq!(prior, vec![snap(15, 30)]);
}

#[test]
fn bootstrap_decisions_follow_the_store() {
    let mut prior: Vec<CounterSnapshot> = Vec::new();
    assert!(needs_bootstrap(&prior));
    prior.push(snap(1, 2));
    assert!(!needs_bootstrap(&prior));
    assert!(needs_average_bootstrap(&None));
    assert!(!needs_average_bootstrap(&Some(snap(1, 2))));
}

#[test]
fn full_bootstrap_cycle_with_average_leads_with_avg() {
    let mut prior: Vec<CounterSnapshot> = Vec::new();
    let mut prior_avg: Option<CounterSnapshot> = None;
    let records = get_cpu_data_list(
        true,
        &mut prior,
        &mut prior_avg,
        vec![Some(snap(10, 20)), Some(snap(10, 20))],
        Some(vec![Some(snap(15, 30)), Some(snap(12, 30))]),
        Some(snap(100, 200)),
        Some(snap(130, 240)),
    );
    assert_eq!(records.len(), 3);
    assert_eq!(records[0].cpu_prefix, CpuLabel::Avg);
    assert_eq!(records[0].cpu_count, None);
    // Aggregate bootstrap: (130 - 100) * 100 / (240 - 200) = 75%.
    assert_eq!(percent(records[0].cpu_usage), 75.0);
    assert_eq!(records[1].cpu_prefix, CpuLabel::Cpu);
    assert_eq!(records[1].cpu_count, Some(0));
    assert_eq!(percent(records[1].cpu_usage), 50.0);
    assert_eq!(records[2].cpu_count, Some(1));
    assert_eq!(percent(records[2].cpu_usage), 20.0);
    // The second read's values are the new prior state.
    assert_eq!(prior, vec![snap(15, 30), snap(12, 30)]);
    assert_eq!(prior_avg, Some(snap(130, 240)));
}

#[test]
fn full_steady_cycle_without_average_has_no_avg_record() {
    let mut prior = vec![snap(10, 20)];
    let mut prior_avg: Option<CounterSnapshot> = Some(snap(1, 2));
    let records = get_cpu_data_list(
        false,
        &mut prior,
        &mut prior_avg,
        vec![Some(snap(15, 30))],
        None,
        None,
        None,
    );
    assert_eq!(records.len(), 1);
    assert_eq!(records[0].cpu_prefix, CpuLabel::Cpu);
    assert_eq!(records[0].cpu_count, Some(0));
    assert_eq!(percent(records[0].cpu_usage), 50.0);
    // The aggregate store is untouched when no average was requested.
    assert_eq!(prior_avg, Some(snap(1, 2)));
}

#[test]
fn full_steady_cycle_with_average_diffs_against_stored_aggregate() {
    let mut prior = vec![snap(10, 20)];
    let mut prior_avg: Option<CounterSnapshot> = Some(snap(100, 200));
    let records = get_cpu_data_list(
        true,
        &mut prior,
        &mut prior_avg,
        vec![Some(snap(15, 30))],
        None,
        Some(snap(125, 300)),
        None,
    );
    assert_eq!(records.len(), 2);
    assert_eq!(records[0].cpu_prefix, CpuLabel::Avg);
    // (125 - 100) * 100 / (300 - 200) = 25%.
    assert_eq!(percent(records[0].cpu_usage), 25.0);
    assert_eq!(prior_avg, Some(snap(125, 300)));
}
