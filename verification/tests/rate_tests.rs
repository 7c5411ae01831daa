//! Tests for the rate estimator: window bound, exact rate values, and
//! out-of-order handling.

use topic_monitor::rate::{IntervalHistory, RateEstimator, DEFAULT_WINDOW_SIZE};

#[test]
fn window_bound_after_many_observations() {
    // More strictly increasing observations than the window holds: the
    // window ends up holding exactly DEFAULT_WINDOW_SIZE gaps.
    let mut est = RateEstimator::new(DEFAULT_WINDOW_SIZE);
    let key = String::from("t1");
    let n: u64 = 25;
    for i in 0..n {
        est.observe(&key, 1_000 + 100 * i);
    }
    assert_eq!(est.entries.len(), 1);
    assert_eq!(est.entries[0].hist.deltas.len(), DEFAULT_WINDOW_SIZE);
}

#[test]
fn rate_correctness_scenario() {
    // Ingest "t1" at [1000, 1100, 1200, 1300]: after the 4th observation the
    // window is [100, 100, 100], the mean gap is 100 ms, and the estimate is
    // 10 Hz, i.e. 10_000 millihertz.
    let mut est = RateEstimator::new(DEFAULT_WINDOW_SIZE);
    let key = String::from("t1");
    est.observe(&key, 1000);
    est.observe(&key, 1100);
    est.observe(&key, 1200);
    let hz = est.observe(&key, 1300);
    assert_eq!(est.entries[0].hist.deltas, vec![100, 100, 100]);
    assert_eq!(hz, 10_000);
}

#[test]
fn rate_rounds_down() {
    // Gaps [100, 200]: mean 150 ms, 1_000_000 * 2 / 300 = 6666 millihertz.
    let mut est = RateEstimator::new(DEFAULT_WINDOW_SIZE);
    let key = String::from("t");
    est.observe(&key, 1000);
    est.observe(&key, 1100);
    let hz = est.observe(&key, 1300);
    assert_eq!(hz, 6_666);
}

#[test]
fn first_observation_has_no_rate() {
    let mut est = RateEstimator::new(DEFAULT_WINDOW_SIZE);
    let hz = est.observe(&String::from("t1"), 1000);
    assert_eq!(hz, 0);
    assert_eq!(est.entries[0].hist.deltas.len(), 0);
}

#[test]
fn out_of_order_observation_skips_window() {
    // Ingest at t=1000 then t=900: the second observation appends no gap but
    // still moves last_seen to 900; the estimate stays 0.
    let mut est = RateEstimator::new(DEFAULT_WINDOW_SIZE);
    let key = String::from("t1");
    est.observe(&key, 1000);
    let hz = est.observe(&key, 900);
    assert_eq!(hz, 0);
    assert_eq!(est.entries[0].hist.last_seen, 900);
    assert_eq!(est.entries[0].hist.deltas.len(), 0);
}

#[test]
fn duplicate_timestamp_skips_window() {
    let mut est = RateEstimator::new(DEFAULT_WINDOW_SIZE);
    let key = String::from("t1");
    est.observe(&key, 1000);
    let hz = est.observe(&key, 1000);
    assert_eq!(hz, 0);
    assert_eq!(est.entries[0].hist.last_seen, 1000);
    assert_eq!(est.entries[0].hist.deltas.len(), 0);
}

#[test]
fn zero_window_never_estimates() {
    // W = 0 degenerates to "no rate estimation, always 0": gaps are evicted
    // as soon as they are pushed, and nothing panics.
    let mut est = RateEstimator::new(0);
    let key = String::from("t1");
    for i in 0..5u64 {
        let hz = est.observe(&key, 1_000 + 100 * i);
        assert_eq!(hz, 0);
    }
    assert_eq!(est.entries[0].hist.deltas.len(), 0);
}

#[test]
fn window_evicts_oldest_first() {
    // Window of 2: after gaps [100, 200, 400] only [200, 400] remain.
    let mut est = RateEstimator::new(2);
    let key = String::from("t1");
    est.observe(&key, 1000);
    est.observe(&key, 1100);
    est.observe(&key, 1300);
    let hz = est.observe(&key, 1700);
    assert_eq!(est.entries[0].hist.deltas, vec![200, 400]);
    // 1_000_000 * 2 / 600 = 3333 millihertz.
    assert_eq!(hz, 3_333);
}

#[test]
fn histories_are_kept_per_key() {
    let mut est = RateEstimator::new(DEFAULT_WINDOW_SIZE);
    let a = String::from("a");
    let b = String::from("b");
    est.observe(&a, 1000);
    est.observe(&b, 2000);
    let hz_a = est.observe(&a, 1500);
    let hz_b = est.observe(&b, 2100);
    // a: one gap of 500 ms -> 2 Hz; b: one gap of 100 ms -> 10 Hz.
    assert_eq!(hz_a, 2_000);
    assert_eq!(hz_b, 10_000);
}

#[test]
fn fresh_history_is_seeded_with_first_timestamp() {
    let h = IntervalHistory::new(4242);
    assert_eq!(h.last_seen, 4242);
    assert_eq!(h.deltas.len(), 0);
}
