//! The progress counter shared by all workers.
//!
//! One counter exists per download run.  Every worker calls
//! `increment_and_get` once per frame it has fetched and written, so under
//! mutual exclusion the count is exactly the number of persisted frames.  The
//! application wraps the counter in a lock and routes every access through
//! these methods; the contracts here pin down what each critical section does
//! to the value, so that no interleaving of workers can lose or double-count
//! an increment.

use vstd::prelude::*;

verus! {

/// Monotonic counter of successfully persisted frames.
pub struct ThreadSafeCounter {
    count: i32,
}

impl ThreadSafeCounter {
    /// The current count; the field itself stays private so the value can
    /// only move through the methods below.
    pub closed spec fn spec_count(&self) -> int {
        self.count as int
    }

    pub fn new() -> (c: Self)
        ensures
            c.spec_count() == 0,
    {
        ThreadSafeCounter { count: 0 }
    }

    /// One critical section: adds one and reports the new count.
    pub fn increment_and_get(&mut self) -> (r: i32)
        requires
            old(self).spec_count() < 0x7fff_ffff,
        ensures
            final(self).spec_count() == old(self).spec_count() + 1,
            r == final(self).spec_count(),
    {
        self.count = self.count + 1;
        self.count
    }

    /// Sets the count back to zero for the next run.
    pub fn reset(&mut self)
        ensures
            final(self).spec_count() == 0,
    {
        self.count = 0;
    }

    pub fn get_count(&self) -> (r: i32)
        ensures
            r == self.spec_count(),
    {
        self.count
    }
}

/// A history of counts produced by successive increments: it starts at zero
/// and each increment raises the count by exactly one, which is what
/// `increment_and_get` ensures for every critical section.
pub open spec fn is_increment_history(h: Seq<int>) -> bool {
    &&& h.len() >= 1
    &&& h[0] == 0
    &&& forall|i: int| 0 < i < h.len() ==> #[trigger] h[i] == h[i - 1] + 1
}

/// Exact counting under mutual exclusion: after `n` increments the count is
/// exactly `n`, and no two increments observe the same returned value (the
/// value returned by the `i`-th increment is `h[i] == i`).
pub proof fn lemma_increments_are_exact(h: Seq<int>)
    requires
        is_increment_history(h),
    ensures
        forall|i: int| 0 <= i < h.len() ==> h[i] == i,
        forall|i: int, j: int| 0 <= i < j < h.len() ==> h[i] != h[j],
        h.last() == h.len() - 1,
    decreases h.len(),
{
    if h.len() > 1 {
        lemma_increments_are_exact(h.drop_last());
        assert forall|i: int| 0 <= i < h.len() implies h[i] == i by {
            if i < h.len() - 1 {
                assert(h.drop_last()[i] == h[i]);
            }
        }
    }
}

} // verus!
