use rust_miner::stats::MinerStats;
use std::time::Instant;

#[test]
fn new_record_starts_empty_at_now() {
    let origin = Instant::now();
    let now = origin.elapsed().as_millis() as u64;
    let stats = MinerStats::new(now);
    let later = origin.elapsed().as_millis() as u64;
    assert_eq!(stats.total_hashes, 0);
    assert_eq!(stats.hash_rate, 0);
    assert!(stats.start_time <= later && later - stats.start_time < 50);
}

#[test]
fn default_record_begins_at_clock_origin() {
    let stats = MinerStats::default();
    assert_eq!(stats, MinerStats { start_time: 0, hash_rate: 0, total_hashes: 0 });
}

#[test]
fn record_update_replaces_rate_and_adds() {
    let mut stats = MinerStats::new(7);
    stats.record_update(42, 1000);
    assert_eq!(stats, MinerStats { start_time: 7, hash_rate: 42, total_hashes: 1000 });
    stats.record_update(5, 250);
    assert_eq!(stats, MinerStats { start_time: 7, hash_rate: 5, total_hashes: 1250 });
}

#[test]
fn record_update_saturates_at_largest_count() {
    let mut stats = MinerStats { start_time: 0, hash_rate: 0, total_hashes: u64::MAX - 10 };
    stats.record_update(1, 1000);
    assert_eq!(stats.total_hashes, u64::MAX);
    stats.record_update(1, 1000);
    assert_eq!(stats.total_hashes, u64::MAX);
}

#[test]
fn record_update_with_zero_increment_keeps_count() {
    let mut stats = MinerStats::new(0);
    stats.record_update(3, 0);
    assert_eq!(stats.total_hashes, 0);
    assert_eq!(stats.hash_rate, 3);
}
