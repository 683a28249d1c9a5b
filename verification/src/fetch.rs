//! The bounded-retry policy of the resilient fetcher.
//!
//! One frame is retrieved by up to `MAX_ATTEMPTS` transport attempts; after
//! every failed attempt the caller backs off for `RETRY_BACKOFF_SECONDS`
//! before the next one.  Exhausting the attempts degrades to `Missing`, which
//! is a per-frame signal, never a run-level error.  The transport itself (the
//! HTTP request and the sleep) is carried out by the application, which hands
//! each attempt's outcome to `fetch_step`; `resolve_fetch` states what the
//! whole retry loop yields for any sequence of outcomes.

use vstd::prelude::*;

verus! {

/// Attempt cap of the fetcher: a frame is tried at most this many times.
pub const MAX_ATTEMPTS: usize = 5;

/// Fixed backoff, in seconds, between two attempts for the same frame.
pub const RETRY_BACKOFF_SECONDS: u64 = 2;

/// What one transport attempt produced: the full body of a success response,
/// or a failure (a transport error or a non-success status, treated alike).
pub enum AttemptOutcome {
    Delivered { bytes: Vec<u8> },
    Failed,
}

/// What the whole retry loop yields for one frame.
pub enum FetchResult {
    Fetched { bytes: Vec<u8> },
    Missing,
}

/// What the retry loop does after one attempt: stop with a result, or back
/// off and try again, now carrying `failures` failed attempts.
pub enum FetchStep {
    Done { result: FetchResult },
    RetryAfterBackoff { failures: usize },
}

/// The first `n` outcomes are all failures.
pub open spec fn fails_before(outcomes: Seq<AttemptOutcome>, n: int) -> bool {
    forall|j: int| 0 <= j < n ==> !((#[trigger] outcomes[j]) is Delivered)
}

/// Decides the retry loop's next move after one attempt, `failures` attempts
/// having already failed: a delivery ends the loop with its payload; a
/// failure either exhausts the cap, yielding `Missing`, or asks for one
/// backoff and another attempt.
pub fn fetch_step(failures: usize, outcome: AttemptOutcome) -> (r: FetchStep)
    requires
        failures < MAX_ATTEMPTS,
    ensures
        outcome matches AttemptOutcome::Delivered { bytes } ==> r == (FetchStep::Done {
            result: FetchResult::Fetched { bytes },
        }),
        outcome is Failed && failures + 1 < MAX_ATTEMPTS ==> r == (FetchStep::RetryAfterBackoff {
            failures: (failures + 1) as usize,
        }),
        outcome is Failed && failures + 1 == MAX_ATTEMPTS ==> r == (FetchStep::Done {
            result: FetchResult::Missing,
        }),
{
    match outcome {
        AttemptOutcome::Delivered { bytes } => FetchStep::Done {
            result: FetchResult::Fetched { bytes },
        },
        AttemptOutcome::Failed => {
            if failures + 1 == MAX_ATTEMPTS {
                FetchStep::Done { result: FetchResult::Missing }
            } else {
                FetchStep::RetryAfterBackoff { failures: failures + 1 }
            }
        },
    }
}

/// Runs the retry policy over a prescribed sequence of attempt outcomes and
/// reports the result together with the number of attempts performed: if the
/// first `k < MAX_ATTEMPTS` outcomes fail and the next one delivers, the
/// delivery is returned after exactly `k + 1` attempts; if the first
/// `MAX_ATTEMPTS` outcomes all fail, `Missing` is returned after exactly
/// `MAX_ATTEMPTS` attempts.
#[verifier::loop_isolation(false)]
pub fn resolve_fetch(outcomes: Vec<AttemptOutcome>) -> (r: (FetchResult, usize))
    requires
        outcomes@.len() >= MAX_ATTEMPTS,
    ensures
        fails_before(outcomes@, MAX_ATTEMPTS as int) ==> r.0 is Missing && r.1 == MAX_ATTEMPTS,
        forall|i: int|
            0 <= i < MAX_ATTEMPTS && (#[trigger] outcomes@[i]) is Delivered && fails_before(
                outcomes@,
                i,
            ) ==> r.1 == i + 1 && r.0 is Fetched && r.0->Fetched_bytes
                == outcomes@[i]->Delivered_bytes,
{
    let ghost orig = outcomes@;
    let mut rest = outcomes;
    let mut attempts: usize = 0;
    while attempts < MAX_ATTEMPTS
        invariant
            attempts <= MAX_ATTEMPTS,
            orig.len() >= MAX_ATTEMPTS,
            rest@ == orig.subrange(attempts as int, orig.len() as int),
            fails_before(orig, attempts as int),
        decreases MAX_ATTEMPTS - attempts,
    {
        let outcome = rest.remove(0);
        proof {
            assert(outcome == orig[attempts as int]);
            assert(rest@ =~= orig.subrange(attempts as int + 1, orig.len() as int));
        }
        match outcome {
            AttemptOutcome::Delivered { bytes } => {
                proof {
                    assert(orig[attempts as int] == AttemptOutcome::Delivered { bytes });
                    assert forall|i: int|
                        0 <= i < MAX_ATTEMPTS && (#[trigger] orig[i]) is Delivered && fails_before(
                            orig,
                            i,
                        ) implies i == attempts as int by {
                        if i < attempts as int {
                            assert(!(orig[i] is Delivered));
                        }
                        if i > attempts as int {
                            assert(!(orig[attempts as int] is Delivered));
                        }
                    }
                }
                return (FetchResult::Fetched { bytes }, attempts + 1);
            },
            AttemptOutcome::Failed => {
                attempts = attempts + 1;
            },
        }
    }
    proof {
        assert forall|i: int|
            0 <= i < MAX_ATTEMPTS && (#[trigger] orig[i]) is Delivered implies !fails_before(
            orig,
            i,
        ) by {
            assert(!(orig[i] is Delivered));
        }
    }
    (FetchResult::Missing, MAX_ATTEMPTS)
}

} // verus!
