use shard_store::wait_stats::{WaitStats, WAIT_SAMPLE_CAPACITY};

#[test]
fn average_is_none_without_samples() {
    let s = WaitStats::new();
    assert_eq!(s.average(), None);
}

#[test]
fn average_is_the_integer_mean() {
    let mut s = WaitStats::new();
    s.add(10);
    assert_eq!(s.average(), Some(10));
    s.add(21);
    assert_eq!(s.average(), Some(15));
    s.add(2);
    assert_eq!(s.average(), Some(11));
}

#[test]
fn gauge_value_is_zero_only_without_data() {
    let mut s = WaitStats::new();
    assert_eq!(s.add_and_gauge(0), 0);
    assert_eq!(s.add_and_gauge(6), 3);
}

#[test]
fn a_full_ring_replaces_its_oldest_sample() {
    let mut s = WaitStats::new();
    for _ in 0..WAIT_SAMPLE_CAPACITY {
        s.add(0);
    }
    assert_eq!(s.average(), Some(0));
    // one more sample replaces an old zero instead of growing the ring
    s.add(WAIT_SAMPLE_CAPACITY as u64);
    assert_eq!(s.average(), Some(1));
    // replacing every sample with its index leaves the mean of 0..512
    for i in 0..WAIT_SAMPLE_CAPACITY {
        s.add(i as u64);
    }
    assert_eq!(s.average(), Some((WAIT_SAMPLE_CAPACITY as u64 - 1) / 2));
}
