use create2_vanity::budget::{partition_budget, WorkSlice};
use create2_vanity::oracle::DeploymentContext;
use create2_vanity::pattern::{PatternSet, PatternSpec};
use create2_vanity::progress::ProgressTracker;
use create2_vanity::worker::{run_worker, MatchRecord, SendState};
use std::sync::mpsc::sync_channel;

#[test]
fn partition_sums_to_budget() {
    let slices = partition_budget(1_000_003, 4);
    assert_eq!(slices.len(), 4);
    assert_eq!(slices[0], WorkSlice { start: 0, end: 250_000 });
    assert_eq!(slices[3], WorkSlice { start: 750_000, end: 1_000_003 });
    let total: u64 = slices.iter().map(|s| s.end - s.start).sum();
    assert_eq!(total, 1_000_003);
    for w in slices.windows(2) {
        assert_eq!(w[0].end, w[1].start);
    }
}

#[test]
fn partition_more_workers_than_attempts() {
    let slices = partition_budget(3, 5);
    assert_eq!(slices.len(), 5);
    let total: u64 = slices.iter().map(|s| s.end - s.start).sum();
    assert_eq!(total, 3);
    assert_eq!(slices[4], WorkSlice { start: 0, end: 3 });
    assert_eq!(slices[0], WorkSlice { start: 0, end: 0 });
}

#[test]
fn partition_single_worker() {
    assert_eq!(partition_budget(10, 1), vec![WorkSlice { start: 0, end: 10 }]);
    assert_eq!(partition_budget(0, 2), vec![WorkSlice { start: 0, end: 0 }, WorkSlice { start: 0, end: 0 }]);
}

#[test]
fn tracker_deltas_sum_to_trials() {
    let mut t = ProgressTracker::new(3);
    let mut deltas = Vec::new();
    for _ in 0..8 {
        if let Some(d) = t.record_trial() {
            deltas.push(d);
        }
    }
    if let Some(d) = t.finish() {
        deltas.push(d);
    }
    assert_eq!(deltas, vec![3, 3, 2]);
    let mut exact = ProgressTracker::new(4);
    let mut sum = 0;
    for _ in 0..8 {
        sum += exact.record_trial().unwrap_or(0);
    }
    assert_eq!(exact.finish(), None);
    assert_eq!(sum, 8);
}

fn no_patterns() -> PatternSet {
    PatternSet::compile(&Vec::new()).ok().unwrap()
}

#[test]
fn worker_progress_is_conserved() {
    let ctx = DeploymentContext::new([0x11u8; 20], [0x22u8; 32]);
    let set = no_patterns();
    let (mtx, mrx) = sync_channel::<MatchRecord>(16);
    let (ptx, prx) = sync_channel::<u64>(16);
    let report = run_worker(&ctx, &set, WorkSlice { start: 10, end: 35 }, 10, &mtx, &ptx);
    drop(ptx);
    drop(mtx);
    let deltas: Vec<u64> = prx.iter().collect();
    assert_eq!(deltas, vec![10, 10, 5]);
    assert!(report.completed);
    assert_eq!(report.tried, 25);
    assert_eq!(report.emitted, 25);
    assert_eq!(report.delivered, 25);
    assert_eq!(mrx.iter().count(), 0);
}

#[test]
fn worker_sends_every_match() {
    let ctx = DeploymentContext::new([0x11u8; 20], [0x22u8; 32]);
    let set = PatternSet::compile(&vec![PatternSpec { kind: "prefix".to_string(), value: String::new() }])
        .ok()
        .unwrap();
    let (mtx, mrx) = sync_channel::<MatchRecord>(64);
    let (ptx, prx) = sync_channel::<u64>(64);
    let report = run_worker(&ctx, &set, WorkSlice { start: 100, end: 105 }, 50_000, &mtx, &ptx);
    drop(mtx);
    drop(ptx);
    let recs: Vec<MatchRecord> = mrx.iter().collect();
    assert_eq!(recs.len(), 5);
    let attempts: Vec<u64> = recs.iter().map(|r| r.attempt).collect();
    assert_eq!(attempts, vec![0, 1, 2, 3, 4]);
    assert!(recs.iter().all(|r| r.salt.starts_with("0x1111111111111111111111111111111111111111") && r.salt.len() == 66));
    assert!(recs.iter().all(|r| r.address.starts_with("0x") && r.address.len() == 42));
    assert_eq!(prx.iter().collect::<Vec<u64>>(), vec![5]);
    assert!(report.completed);
}

#[test]
fn worker_stops_when_coordinator_is_gone() {
    let ctx = DeploymentContext::new([0x11u8; 20], [0x22u8; 32]);
    let set = no_patterns();
    let (mtx, _mrx) = sync_channel::<MatchRecord>(4);
    let (ptx, prx) = sync_channel::<u64>(4);
    drop(prx);
    let report = run_worker(&ctx, &set, WorkSlice { start: 0, end: 100 }, 10, &mtx, &ptx);
    assert!(!report.completed);
    assert!(!report.progress_open);
    assert!(report.matches_open);
    assert_eq!(report.tried, 10);
    assert_eq!(report.emitted, 10);
    assert_eq!(report.delivered, 0);
}

#[test]
fn worker_reports_remainder_after_failed_match_send() {
    let ctx = DeploymentContext::new([0x11u8; 20], [0x22u8; 32]);
    let set = PatternSet::compile(&vec![PatternSpec { kind: "prefix".to_string(), value: String::new() }])
        .ok()
        .unwrap();
    let (mtx, mrx) = sync_channel::<MatchRecord>(4);
    drop(mrx);
    let (ptx, prx) = sync_channel::<u64>(4);
    let report = run_worker(&ctx, &set, WorkSlice { start: 0, end: 1000 }, 10, &mtx, &ptx);
    drop(ptx);
    assert!(!report.completed);
    assert!(!report.matches_open);
    assert!(report.progress_open);
    assert_eq!(report.tried, 1);
    assert_eq!(report.emitted, 1);
    assert_eq!(report.delivered, 1);
    assert_eq!(prx.iter().collect::<Vec<u64>>(), vec![1]);
}

#[test]
fn send_state_steps() {
    let s = SendState::new();
    assert_eq!(s, SendState { delivered: 0, matches_open: true, progress_open: true });
    let s = s.after_progress_send(7, true);
    assert_eq!(s.delivered, 7);
    let s = s.after_match_send(true);
    assert!(s.matches_open);
    let failed = s.after_progress_send(5, false);
    assert_eq!(failed, SendState { delivered: 7, matches_open: true, progress_open: false });
    let closed = s.after_match_send(false);
    assert_eq!(closed, SendState { delivered: 7, matches_open: false, progress_open: true });
}

#[test]
fn worker_empty_slice() {
    let ctx = DeploymentContext::new([0x11u8; 20], [0x22u8; 32]);
    let set = no_patterns();
    let (mtx, _mrx) = sync_channel::<MatchRecord>(4);
    let (ptx, prx) = sync_channel::<u64>(4);
    let report = run_worker(&ctx, &set, WorkSlice { start: 7, end: 7 }, 10, &mtx, &ptx);
    drop(ptx);
    assert!(report.completed);
    assert_eq!(report.tried, 0);
    assert_eq!(report.delivered, 0);
    assert_eq!(prx.iter().count(), 0);
}
