use aether_fast_core::AnalyzerError;
use aether_fast_core::MicrostructureAnalyzer;
use aether_fast_core::Side;
use aether_fast_core::VpinScore;

fn ratio(s: VpinScore) -> f64 {
    if s.total_volume > 0 {
        s.imbalance as f64 / s.total_volume as f64
    } else {
        0.0
    }
}

#[test]
fn window_length_is_min_of_ticks_and_capacity() {
    let mut a = MicrostructureAnalyzer::new(100, 3).unwrap();
    assert_eq!(a.volume_buckets.len(), 0);
    for n in 1..=7usize {
        a.calculate_vpin(50, 10, Side::Buy).unwrap();
        assert_eq!(a.volume_buckets.len(), n.min(3));
        assert_eq!(a.buy_volume_buckets.len(), n.min(3));
    }
}

#[test]
fn windows_stay_aligned_after_every_call() {
    let mut a = MicrostructureAnalyzer::new(100, 4).unwrap();
    let ticks = [
        (10, Side::Buy),
        (3, Side::Sell),
        (0, Side::Buy),
        (7, Side::Sell),
        (2, Side::Buy),
        (9, Side::Sell),
    ];
    for (v, side) in ticks {
        a.calculate_vpin(50, v, side).unwrap();
        assert_eq!(a.volume_buckets.len(), a.buy_volume_buckets.len());
        for i in 0..a.volume_buckets.len() {
            assert!(0 <= a.buy_volume_buckets[i]);
            assert!(a.buy_volume_buckets[i] <= a.volume_buckets[i]);
        }
    }
}

#[test]
fn score_is_bounded_for_valid_inputs() {
    let mut a = MicrostructureAnalyzer::new(100, 5).unwrap();
    let ticks = [
        (4, Side::Buy),
        (11, Side::Sell),
        (0, Side::Sell),
        (23, Side::Buy),
        (1, Side::Buy),
        (8, Side::Sell),
        (15, Side::Buy),
    ];
    for (v, side) in ticks {
        let s = a.calculate_vpin(50, v, side).unwrap();
        assert!(s.imbalance <= s.total_volume);
        let r = ratio(s);
        assert!(0.0 <= r && r <= 1.0);
    }
}

#[test]
fn all_buy_full_window_scores_one() {
    let mut a = MicrostructureAnalyzer::new(100, 3).unwrap();
    let mut last = a.calculate_vpin(50, 5, Side::Buy).unwrap();
    for _ in 0..5 {
        last = a.calculate_vpin(50, 5, Side::Buy).unwrap();
    }
    assert_eq!(a.volume_buckets.len(), 3);
    assert_eq!(last.imbalance, last.total_volume);
    assert!(last.total_volume > 0);
    assert_eq!(ratio(last), 1.0);
}

#[test]
fn all_sell_full_window_scores_one() {
    let mut a = MicrostructureAnalyzer::new(100, 3).unwrap();
    let mut last = a.calculate_vpin(50, 5, Side::Sell).unwrap();
    for _ in 0..5 {
        last = a.calculate_vpin(50, 5, Side::Sell).unwrap();
    }
    assert_eq!(a.volume_buckets.len(), 3);
    assert_eq!(last.imbalance, last.total_volume);
    assert!(last.total_volume > 0);
    assert_eq!(ratio(last), 1.0);
}

#[test]
fn alternating_full_side_ticks_still_score_one() {
    // Per-bucket imbalance, not netting across buckets, drives the metric:
    // one all-buy tick and one all-sell tick of equal volume give
    // total = 20 and imbalance = |10 - 0| + |0 - 10| = 20, a score of 1.
    let mut a = MicrostructureAnalyzer::new(100, 2).unwrap();
    a.calculate_vpin(50, 10, Side::Buy).unwrap();
    let s = a.calculate_vpin(50, 10, Side::Sell).unwrap();
    assert_eq!(s.total_volume, 20);
    assert_eq!(s.imbalance, 20);
    assert_eq!(ratio(s), 1.0);
}

#[test]
fn half_buy_buckets_score_zero() {
    // A half-buy bucket cannot arise from single-sided ticks, so build the
    // window state directly: every bucket's buy side is half its volume.
    let a = MicrostructureAnalyzer {
        volume_buckets: vec![10, 10, 6],
        buy_volume_buckets: vec![5, 5, 3],
        bucket_size: 100,
        max_buckets: 4,
    };
    let s = a.current_vpin();
    assert_eq!(s.imbalance, 0);
    assert_eq!(s.total_volume, 26);
    assert_eq!(ratio(s), 0.0);
}

#[test]
fn zero_volume_tick_on_empty_window_scores_zero() {
    let mut a = MicrostructureAnalyzer::new(100, 4).unwrap();
    let s = a.calculate_vpin(100, 0, Side::Buy).unwrap();
    assert_eq!(s.total_volume, 0);
    assert_eq!(s.imbalance, 0);
    assert_eq!(ratio(s), 0.0);
}

#[test]
fn eviction_drops_exactly_the_oldest_bucket() {
    let mut a = MicrostructureAnalyzer::new(100, 2).unwrap();
    a.calculate_vpin(50, 5, Side::Buy).unwrap();
    a.calculate_vpin(50, 5, Side::Sell).unwrap();
    a.calculate_vpin(50, 10, Side::Buy).unwrap();
    assert_eq!(a.volume_buckets, vec![5, 10]);
    assert_eq!(a.buy_volume_buckets, vec![0, 10]);
}

#[test]
fn reading_the_score_twice_gives_the_same_value() {
    let mut a = MicrostructureAnalyzer::new(100, 3).unwrap();
    a.calculate_vpin(50, 7, Side::Buy).unwrap();
    a.calculate_vpin(50, 4, Side::Sell).unwrap();
    let first = a.current_vpin();
    let second = a.current_vpin();
    assert_eq!(first, second);
}

#[test]
fn mixed_window_exact_score() {
    let a = MicrostructureAnalyzer {
        volume_buckets: vec![10, 8],
        buy_volume_buckets: vec![2, 8],
        bucket_size: 100,
        max_buckets: 4,
    };
    // bucket 1: |2 - 8| = 6; bucket 2: |8 - 0| = 8; total volume 18.
    let s = a.current_vpin();
    assert_eq!(s.imbalance, 14);
    assert_eq!(s.total_volume, 18);
}

#[test]
fn empty_window_scores_zero() {
    let a = MicrostructureAnalyzer::new(100, 4).unwrap();
    let s = a.current_vpin();
    assert_eq!(s, VpinScore { imbalance: 0, total_volume: 0 });
    assert_eq!(ratio(s), 0.0);
}

#[test]
fn zero_capacity_is_rejected() {
    let r = MicrostructureAnalyzer::new(100, 0);
    assert_eq!(r.unwrap_err(), AnalyzerError::InvalidConfiguration);
}

#[test]
fn negative_bucket_size_is_rejected() {
    let r = MicrostructureAnalyzer::new(-1, 4);
    assert_eq!(r.unwrap_err(), AnalyzerError::InvalidConfiguration);
}

#[test]
fn negative_volume_is_rejected_and_state_unchanged() {
    let mut a = MicrostructureAnalyzer::new(100, 3).unwrap();
    a.calculate_vpin(50, 6, Side::Buy).unwrap();
    let before_vols = a.volume_buckets.clone();
    let before_buys = a.buy_volume_buckets.clone();
    let r = a.calculate_vpin(50, -1, Side::Sell);
    assert_eq!(r.unwrap_err(), AnalyzerError::InvalidInput);
    assert_eq!(a.volume_buckets, before_vols);
    assert_eq!(a.buy_volume_buckets, before_buys);
}
