//! Splitting a frame count into balanced, contiguous work intervals.
//!
//! A total of `total` frame indices is divided among `workers` workers.  Every
//! worker gets a half-open interval of `total / workers` indices; the
//! remainder `total % workers` is appended entirely to the last interval.

use vstd::arithmetic::div_mod::{
    lemma_div_of0, lemma_div_pos_is_pos, lemma_fundamental_div_mod,
};
use vstd::arithmetic::mul::{
    lemma_mul_basics_2, lemma_mul_inequality, lemma_mul_is_distributive_add_other_way,
};
use vstd::prelude::*;

verus! {

/// Number of indices every interval but the last receives.
pub open spec fn base_size(total: int, workers: int) -> int
    recommends
        workers >= 1,
{
    total / workers
}

/// Closed form of the partitioner's output: interval `i` starts at
/// `i * base_size`, every interval but the last ends one base size later, and
/// the last interval absorbs the remainder by ending exactly at `total`.
pub open spec fn is_balanced_partition(r: Seq<(i32, i32)>, total: int, workers: int) -> bool {
    &&& r.len() == workers
    &&& forall|i: int|
        0 <= i < workers ==> (#[trigger] r[i]).0 == i * base_size(total, workers)
    &&& forall|i: int|
        0 <= i < workers - 1 ==> (#[trigger] r[i]).1 == (i + 1) * base_size(total, workers)
    &&& r[workers - 1].1 == total
}

/// Splits the range `[0, integer)` into `n` contiguous intervals whose sizes
/// differ only by the remainder `integer % n`, which goes to the last one.
pub fn split_integer_into_intervals(integer: i32, n: usize) -> (r: Vec<(i32, i32)>)
    requires
        0 <= integer,
        1 <= n,
    ensures
        is_balanced_partition(r@, integer as int, n as int),
{
    let total: usize = integer as usize;
    let size: usize = total / n;
    proof {
        assert(n * size <= total) by (nonlinear_arith)
            requires
                size == total as int / n as int,
                n >= 1,
                total >= 0,
        ;
    }
    let mut intervals: Vec<(i32, i32)> = Vec::new();
    let mut i: usize = 0;
    while i < n
        invariant
            i <= n,
            1 <= n,
            size == total as int / n as int,
            n * size <= total,
            total == integer as int,
            intervals@.len() == i,
            forall|k: int| 0 <= k < i ==> (#[trigger] intervals@[k]).0 == k * (size as int),
            forall|k: int| 0 <= k < i ==> (#[trigger] intervals@[k]).1 == (k + 1) * (size as int),
        decreases n - i,
    {
        proof {
            assert((i + 1) * size <= n * size) by (nonlinear_arith)
                requires
                    i + 1 <= n,
                    size >= 0,
            ;
            assert(i * size <= (i + 1) * size) by (nonlinear_arith)
                requires
                    size >= 0,
            ;
        }
        let lo: usize = i * size;
        let hi: usize = (i + 1) * size;
        intervals.push((lo as i32, hi as i32));
        i += 1;
    }
    let last = intervals.pop().unwrap();
    intervals.push((last.0, integer));
    intervals
}

/// Whether the frame index `k` falls inside one of the intervals of `r`.
pub open spec fn in_some_interval(r: Seq<(i32, i32)>, k: int) -> bool {
    exists|i: int| 0 <= i < r.len() && (#[trigger] r[i]).0 <= k < r[i].1
}

/// The intervals of a balanced partition are ascending, contiguous, pairwise
/// disjoint and cover exactly `[0, total)`; every interval but the last spans
/// `total / workers` indices and the last additionally takes the remainder
/// `total % workers`.
pub proof fn lemma_partition_covers(r: Seq<(i32, i32)>, total: int, workers: int)
    requires
        0 <= total,
        1 <= workers,
        is_balanced_partition(r, total, workers),
    ensures
        r[0].0 == 0,
        r[workers - 1].1 == total,
        forall|i: int| 0 <= i < workers ==> (#[trigger] r[i]).0 <= r[i].1,
        forall|i: int| 0 <= i < workers - 1 ==> (#[trigger] r[i]).1 == r[i + 1].0,
        forall|i: int, j: int|
            0 <= i < j < workers ==> (#[trigger] r[i]).1 <= (#[trigger] r[j]).0,
        forall|k: int| 0 <= k < total ==> #[trigger] in_some_interval(r, k),
        forall|i: int|
            0 <= i < workers - 1 ==> (#[trigger] r[i]).1 - r[i].0 == base_size(total, workers),
        r[workers - 1].1 - r[workers - 1].0 == base_size(total, workers) + total % workers,
{
    let b = base_size(total, workers);
    lemma_fundamental_div_mod(total, workers);
    lemma_div_pos_is_pos(total, workers);
    assert(total == workers * b + total % workers);
    assert(0 <= total % workers < workers);
    lemma_mul_basics_2(b);

    // Every start sits below the next start: i * b <= (i + 1) * b, and the
    // last interval's start sits below total.
    assert forall|i: int| 0 <= i < workers implies (#[trigger] r[i]).0 <= r[i].1 by {
        lemma_mul_is_distributive_add_other_way(b, i, 1);
        if i < workers - 1 {
            assert(r[i].1 - r[i].0 == b);
        } else {
            lemma_mul_inequality(i, workers, b);
            assert(i * b <= workers * b);
        }
    }
    assert forall|i: int, j: int| 0 <= i < j < workers implies (#[trigger] r[i]).1
        <= (#[trigger] r[j]).0 by {
        if i < workers - 1 {
            lemma_mul_inequality(i + 1, j, b);
        }
    }
    assert forall|i: int| 0 <= i < workers - 1 implies (#[trigger] r[i]).1 - r[i].0 == base_size(
        total,
        workers,
    ) by {
        lemma_mul_is_distributive_add_other_way(b, i, 1);
    }
    assert(r[workers - 1].0 == (workers - 1) * b);
    assert((workers - 1) * b == workers * b - b) by {
        lemma_mul_is_distributive_add_other_way(b, workers - 1, 1);
    }
    assert(r[workers - 1].1 - r[workers - 1].0 == b + total % workers);

    assert forall|k: int| 0 <= k < total implies #[trigger] in_some_interval(r, k) by {
        if b == 0 {
            let w = workers - 1;
            assert(r[w].0 == w * 0 == 0) by {
                lemma_mul_basics_2(w);
            }
            assert(r[w].0 <= k < r[w].1);
        } else {
            let q = k / b;
            lemma_fundamental_div_mod(k, b);
            lemma_div_pos_is_pos(k, b);
            assert(k == b * q + k % b);
            assert(0 <= k % b < b);
            if q < workers - 1 {
                assert(r[q].0 == q * b);
                assert(r[q].1 == (q + 1) * b);
                assert((q + 1) * b == q * b + b) by {
                    lemma_mul_is_distributive_add_other_way(b, q, 1);
                }
                assert(r[q].0 <= k < r[q].1);
            } else {
                let w = workers - 1;
                lemma_mul_inequality(w, q, b);
                assert(w * b <= q * b);
                assert(r[w].0 <= k < r[w].1);
            }
        }
    }
}

/// With no frames to fetch, every interval of the partition is empty.
pub proof fn lemma_partition_of_zero_is_empty(r: Seq<(i32, i32)>, workers: int)
    requires
        1 <= workers,
        is_balanced_partition(r, 0, workers),
    ensures
        forall|i: int| 0 <= i < workers ==> (#[trigger] r[i]).0 == 0 && r[i].1 == 0,
{
    lemma_div_of0(workers);
    assert(base_size(0, workers) == 0);
    assert forall|i: int| 0 <= i < workers implies (#[trigger] r[i]).0 == 0 && r[i].1 == 0 by {
        lemma_mul_basics_2(i);
        lemma_mul_basics_2(i + 1);
    }
}

} // verus!
