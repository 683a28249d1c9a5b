//! End-to-end runs of the pipeline logic: partition the frame range, resolve
//! each frame's fetch from prescribed attempt outcomes, record progress, and
//! assemble the manifest from the resulting presence flags.

use framefetch::assembly::plan_assembly;
use framefetch::counter::ThreadSafeCounter;
use framefetch::fetch::{resolve_fetch, AttemptOutcome, FetchResult, MAX_ATTEMPTS};
use framefetch::partition::split_integer_into_intervals;
use framefetch::worker::{frame_outcome_action, FrameAction};

fn attempt_script(index: i32, fetchable: bool) -> Vec<AttemptOutcome> {
    let mut outcomes = Vec::new();
    if fetchable {
        outcomes.push(AttemptOutcome::Delivered {
            bytes: format!("frame-{}", index).into_bytes(),
        });
    }
    while outcomes.len() < MAX_ATTEMPTS {
        outcomes.push(AttemptOutcome::Failed);
    }
    outcomes
}

fn run_pipeline(total_count: i32, workers: usize, unfetchable: Option<i32>) -> (Vec<bool>, i32) {
    let intervals = split_integer_into_intervals(total_count, workers);
    assert_eq!(intervals.len(), workers);
    let mut counter = ThreadSafeCounter::new();
    counter.reset();
    let mut present = vec![false; total_count as usize];
    for (start, end) in intervals {
        for i in start..end {
            let fetchable = unfetchable != Some(i);
            let (result, _attempts) = resolve_fetch(attempt_script(i, fetchable));
            match frame_outcome_action("title", i as u64, result) {
                FrameAction::Persist { path, bytes } => {
                    assert_eq!(path, format!("downloads/title/video{}.jpeg", i));
                    assert_eq!(bytes, format!("frame-{}", i).into_bytes());
                    present[i as usize] = true;
                    counter.increment_and_get();
                }
                FrameAction::SkipMissing => {
                    assert_eq!(Some(i), unfetchable);
                }
            }
        }
    }
    let count = counter.get_count();
    (present, count)
}

#[test]
fn all_frames_fetched_gives_a_full_ordered_manifest() {
    let (present, counted) = run_pipeline(10, 3, None);
    assert_eq!(counted, 10);
    let plan = plan_assembly(&present, false);
    assert_eq!(plan.manifest_lines.len(), 10);
    for (i, line) in plan.manifest_lines.iter().enumerate() {
        assert_eq!(*line, format!("file 'video{}.jpeg'", i));
    }
    assert_eq!(plan.found_count, 10);
    assert_eq!(plan.expected_count, 10);
    assert_eq!(plan.found_count as f64 / plan.expected_count as f64, 1.0);
    assert!(plan.invoke_encoder);
}

#[test]
fn one_unfetchable_frame_leaves_a_gap_but_still_encodes() {
    let (present, counted) = run_pipeline(10, 3, Some(4));
    assert_eq!(counted, 9);
    let plan = plan_assembly(&present, false);
    assert_eq!(plan.manifest_lines.len(), 9);
    assert!(!plan.manifest_lines.contains(&"file 'video4.jpeg'".to_string()));
    assert_eq!(plan.found_count, 9);
    assert_eq!(plan.expected_count, 10);
    assert_eq!(plan.found_count as f64 / plan.expected_count as f64, 0.9);
    assert!(plan.invoke_encoder);
}
