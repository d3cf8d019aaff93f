use influx_receiver::nonce_cache::{ExpiringNonceCache, RotationPolicy};
use influx_receiver::timing::TimeSpan;

fn secs(s: u64) -> TimeSpan {
    TimeSpan::from_secs(s)
}

#[test]
fn novel_nonce_is_accepted() {
    let mut c = ExpiringNonceCache::new(secs(60), secs(0), RotationPolicy::GapSinceLastCall);
    assert!(c.insert(42, secs(1)));
    assert!(c.contains(42));
    assert_eq!(c.total_len(), 1);
}

#[test]
fn immediate_duplicate_is_refused() {
    let mut c = ExpiringNonceCache::new(secs(60), secs(0), RotationPolicy::GapSinceLastCall);
    assert!(c.insert(7, secs(1)));
    assert!(!c.insert(7, secs(2)));
    assert!(c.insert(8, secs(3)));
}

#[test]
fn duplicate_across_rotation_is_refused() {
    let mut c = ExpiringNonceCache::new(secs(60), secs(0), RotationPolicy::GapSinceLastCall);
    assert!(c.insert(9, secs(1)));
    // an idle gap longer than the window rotates the generations
    assert!(!c.insert(9, secs(100)));
}

#[test]
fn expiring_generation_is_dropped_by_second_rotation() {
    let mut c = ExpiringNonceCache::new(secs(60), secs(0), RotationPolicy::GapSinceLastCall);
    assert!(c.insert(1, secs(1)));
    assert!(c.insert(2, secs(100)));
    assert!(c.contains(1));
    assert!(c.contains(2));
    assert!(c.insert(3, secs(200)));
    assert!(!c.contains(1));
    assert!(c.contains(2));
    assert!(c.contains(3));
}

#[test]
fn gap_of_exactly_the_window_does_not_rotate() {
    let mut c = ExpiringNonceCache::new(secs(60), secs(0), RotationPolicy::GapSinceLastCall);
    assert!(c.insert(1, secs(0)));
    assert!(c.insert(2, secs(60)));
    assert!(c.insert(3, secs(120)));
    assert!(c.contains(1));
    assert!(c.insert(4, secs(181)));
    assert!(c.contains(1));
    assert!(c.insert(5, secs(242)));
    assert!(!c.contains(1));
}

#[test]
fn steady_traffic_grows_without_bound_when_rotating_on_gaps() {
    let mut c = ExpiringNonceCache::new(secs(10), secs(0), RotationPolicy::GapSinceLastCall);
    for i in 0..1000u64 {
        assert!(c.insert(i as u128, secs(i)));
    }
    // one call per second against a ten-second window: nothing ever rotates
    assert_eq!(c.total_len(), 1000);
}

#[test]
fn steady_traffic_stays_bounded_with_fixed_cadence() {
    let mut c = ExpiringNonceCache::new(secs(10), secs(0), RotationPolicy::FixedCadence);
    for i in 0..1000u64 {
        assert!(c.insert(i as u128, secs(i)));
        assert!(c.total_len() <= 22);
    }
    assert!(c.contains(999));
    assert!(!c.contains(900));
}

#[test]
fn fixed_cadence_still_refuses_recent_replays() {
    let mut c = ExpiringNonceCache::new(secs(10), secs(0), RotationPolicy::FixedCadence);
    for i in 0..100u64 {
        assert!(c.insert(i as u128, secs(i)));
        if i > 0 {
            assert!(!c.insert((i - 1) as u128, secs(i)));
        }
    }
}
