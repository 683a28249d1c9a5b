//! The per-frame logic of one download worker.
//!
//! A worker owns one half-open interval of frame indices and walks it in
//! order.  For every index it asks the transport for the frame's URL; what
//! the retry loop yielded decides the worker's action: a fetched frame is
//! persisted at the frame's local path (after which the worker advances the
//! shared progress counter), a missing frame is skipped and never aborts the
//! worker or the run.  The fetching, the file write and the thread the worker
//! runs on belong to the application.

use crate::fetch::FetchResult;
use crate::naming::frame_path;
use crate::naming::frame_path_rep;
use crate::naming::frame_url;
use crate::naming::frame_url_rep;
use vstd::prelude::*;

verus! {

/// What a worker does with one frame after the retry loop has finished.
pub enum FrameAction {
    /// Write `bytes` to `path` (creating the directory if need be), then
    /// advance the progress counter.
    Persist { path: String, bytes: Vec<u8> },
    /// The frame stayed missing: log and move to the next index.
    SkipMissing,
}

/// Decides a worker's action for frame `index` of the movie from what the
/// retry loop yielded: a fetched payload is persisted at exactly the frame's
/// local path; a missing frame is skipped.
pub fn frame_outcome_action(movie: &str, index: u64, fetched: FetchResult) -> (a: FrameAction)
    ensures
        fetched matches FetchResult::Fetched { bytes } ==> a matches FrameAction::Persist {
            path,
            bytes: written,
        } && path@ == frame_path_rep(movie@, index as nat) && written == bytes,
        fetched is Missing ==> a is SkipMissing,
{
    match fetched {
        FetchResult::Fetched { bytes } => {
            let path = frame_path(movie, index);
            FrameAction::Persist { path, bytes }
        },
        FetchResult::Missing => FrameAction::SkipMissing,
    }
}

/// Builds, in order, the remote URL of every frame index in the worker's
/// interval `[start, end)`; an empty interval yields no URLs, so a worker
/// whose interval is empty completes as an immediate no-op.
#[verifier::loop_isolation(false)]
pub fn interval_urls(uuid: &str, resolution: &str, start: i32, end: i32) -> (urls: Vec<String>)
    requires
        0 <= start <= end,
    ensures
        urls@.len() == end - start,
        forall|k: int|
            0 <= k < end - start ==> (#[trigger] urls@[k])@ == frame_url_rep(
                uuid@,
                resolution@,
                (start + k) as nat,
            ),
{
    let mut urls: Vec<String> = Vec::new();
    let mut i: i32 = start;
    while i < end
        invariant
            start <= i <= end,
            urls@.len() == i - start,
            forall|k: int|
                0 <= k < i - start ==> (#[trigger] urls@[k])@ == frame_url_rep(
                    uuid@,
                    resolution@,
                    (start + k) as nat,
                ),
        decreases end - i,
    {
        let url = frame_url(uuid, resolution, i as u64);
        urls.push(url);
        i = i + 1;
    }
    urls
}

} // verus!
