use framefetch::fetch::FetchResult;
use framefetch::worker::{frame_outcome_action, interval_urls, FrameAction};

#[test]
fn fetched_frame_is_persisted_at_its_path() {
    let action = frame_outcome_action(
        "title",
        4,
        FetchResult::Fetched {
            bytes: vec![1, 2, 3],
        },
    );
    match action {
        FrameAction::Persist { path, bytes } => {
            assert_eq!(path, "downloads/title/video4.jpeg");
            assert_eq!(bytes, vec![1, 2, 3]);
        }
        FrameAction::SkipMissing => panic!("a fetched frame must be persisted"),
    }
}

#[test]
fn missing_frame_is_skipped() {
    let action = frame_outcome_action("title", 4, FetchResult::Missing);
    assert!(matches!(action, FrameAction::SkipMissing));
}

#[test]
fn interval_urls_walk_the_interval_in_order() {
    let urls = interval_urls("uuid-1", "720p", 2, 5);
    assert_eq!(
        urls,
        vec![
            "https://surrit.com/uuid-1/720p/video2.jpeg".to_string(),
            "https://surrit.com/uuid-1/720p/video3.jpeg".to_string(),
            "https://surrit.com/uuid-1/720p/video4.jpeg".to_string(),
        ]
    );
}

#[test]
fn empty_interval_yields_no_work() {
    let urls = interval_urls("uuid-1", "720p", 3, 3);
    assert!(urls.is_empty());
}
