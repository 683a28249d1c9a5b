//! The download coordinator's decisions.
//!
//! The coordinator spawns one worker per interval, waits on the join barrier,
//! and surfaces at most one aggregate failure for the whole run.  The
//! spawning and joining of threads belong to the application; what is decided
//! here is the verdict of the join barrier and the fixed order of the run's
//! phases.

use vstd::prelude::*;

verus! {

/// The phases of one run, in the order they are taken.
pub enum RunPhase {
    Idle,
    Partitioning,
    Downloading,
    Assembling,
    Done,
}

/// Advances the run to its next phase.  Downloading always moves on to
/// assembling, regardless of per-frame failures, and assembling always
/// reaches done, whether or not the encoder actually ran; a finished run
/// stays done.
pub fn next_phase(phase: RunPhase) -> (r: RunPhase)
    ensures
        phase is Idle ==> r is Partitioning,
        phase is Partitioning ==> r is Downloading,
        phase is Downloading ==> r is Assembling,
        phase is Assembling ==> r is Done,
        phase is Done ==> r is Done,
{
    match phase {
        RunPhase::Idle => RunPhase::Partitioning,
        RunPhase::Partitioning => RunPhase::Downloading,
        RunPhase::Downloading => RunPhase::Assembling,
        RunPhase::Assembling => RunPhase::Done,
        RunPhase::Done => RunPhase::Done,
    }
}

/// The join barrier's verdict over the workers' termination flags (`true`
/// for a normal return): the run succeeds — `None` — exactly when every
/// worker returned normally, however many frames stayed missing; otherwise
/// the first abnormally terminated worker is surfaced as the run's single
/// aggregate failure.
#[verifier::loop_isolation(false)]
pub fn coordinate_join(worker_ok: &Vec<bool>) -> (r: Option<usize>)
    ensures
        r is None <==> (forall|i: int| 0 <= i < worker_ok@.len() ==> #[trigger] worker_ok@[i]),
        r matches Some(w) ==> w < worker_ok@.len() && !worker_ok@[w as int] && (forall|i: int|
            0 <= i < w ==> #[trigger] worker_ok@[i]),
{
    let mut i: usize = 0;
    while i < worker_ok.len()
        invariant
            i <= worker_ok@.len(),
            forall|j: int| 0 <= j < i ==> #[trigger] worker_ok@[j],
        decreases worker_ok@.len() - i,
    {
        if !worker_ok[i] {
            return Some(i);
        }
        i = i + 1;
    }
    None
}

} // verus!
