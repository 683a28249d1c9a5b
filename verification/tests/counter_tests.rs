use framefetch::counter::ThreadSafeCounter;

#[test]
fn counter_starts_at_zero() {
    let c = ThreadSafeCounter::new();
    assert_eq!(c.get_count(), 0);
}

#[test]
fn increments_return_distinct_new_counts() {
    let mut c = ThreadSafeCounter::new();
    let n = 100;
    let mut seen = Vec::new();
    for _ in 0..n {
        let v = c.increment_and_get();
        assert!(!seen.contains(&v));
        seen.push(v);
    }
    assert_eq!(c.get_count(), n);
    for (i, v) in seen.iter().enumerate() {
        assert_eq!(*v, i as i32 + 1);
    }
}

#[test]
fn reset_sets_count_back_to_zero() {
    let mut c = ThreadSafeCounter::new();
    c.increment_and_get();
    c.increment_and_get();
    assert_eq!(c.get_count(), 2);
    c.reset();
    assert_eq!(c.get_count(), 0);
}
