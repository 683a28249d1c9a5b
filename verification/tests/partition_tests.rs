use framefetch::partition::split_integer_into_intervals;

#[test]
fn split_even() {
    let r = split_integer_into_intervals(10, 2);
    assert_eq!(r, vec![(0, 5), (5, 10)]);
}

#[test]
fn split_remainder_goes_to_last() {
    let r = split_integer_into_intervals(10, 3);
    assert_eq!(r, vec![(0, 3), (3, 6), (6, 10)]);
}

#[test]
fn split_single_worker() {
    let r = split_integer_into_intervals(7, 1);
    assert_eq!(r, vec![(0, 7)]);
}

#[test]
fn split_total_below_worker_count_leaves_empty_intervals() {
    let r = split_integer_into_intervals(2, 4);
    assert_eq!(r, vec![(0, 0), (0, 0), (0, 0), (0, 2)]);
}

#[test]
fn split_zero_total_is_all_empty() {
    let r = split_integer_into_intervals(0, 3);
    assert_eq!(r, vec![(0, 0), (0, 0), (0, 0)]);
}

#[test]
fn split_intervals_are_disjoint_and_cover() {
    let total = 97;
    let workers = 8;
    let r = split_integer_into_intervals(total, workers);
    assert_eq!(r.len(), workers);
    assert_eq!(r[0].0, 0);
    assert_eq!(r[workers - 1].1, total);
    for w in 0..workers {
        assert!(r[w].0 <= r[w].1);
        if w + 1 < workers {
            assert_eq!(r[w].1, r[w + 1].0);
            assert_eq!(r[w].1 - r[w].0, total / workers as i32);
        } else {
            assert_eq!(r[w].1 - r[w].0, total / workers as i32 + total % workers as i32);
        }
    }
}
