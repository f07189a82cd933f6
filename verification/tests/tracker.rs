use downloader::getter::{chunk_message, end_message, failure_message, size_message};
use downloader::tracker::{content_size_message, ProgressTracker, INTERVAL_MS};
use downloader::tui::message::Message;

#[test]
fn one_line_per_chunk_when_chunks_are_slow() {
    let mut tracker = ProgressTracker::new(5_000_000, 0);
    let expected = [
        " 20.0%  [⣿·········] | 833.3 kB/s | 1s | estimated 0 min",
        " 40.0%  [⣿⣿⣿·······] | 833.3 kB/s | 2s | estimated 0 min",
        " 60.0%  [⣿⣿⣿⣿⣿·····] | 833.3 kB/s | 3s | estimated 0 min",
        " 80.0%  [⣿⣿⣿⣿⣿⣿⣿···] | 833.3 kB/s | 4s | estimated 0 min",
        "100.0%  [⣿⣿⣿⣿⣿⣿⣿⣿⣿·] | 833.3 kB/s | 6s | estimated 0 min",
    ];
    let mut lines = 0;
    for chunk in 1..=5u64 {
        let line = tracker.update(1_000_000, chunk * 1200);
        assert_eq!(line.as_deref(), Some(expected[(chunk - 1) as usize]));
        lines += 1;
    }
    assert_eq!(lines, 5);
    assert_eq!(tracker.total_read(), 5_000_000);
    assert!(tracker.is_complete());
    assert_eq!(tracker.flush(6000), "5000000/5000000 complete");
}

#[test]
fn flush_reports_a_short_download_as_truncated() {
    let mut tracker = ProgressTracker::new(5_000_000, 0);
    assert_eq!(tracker.update(1_000_000, 10), None);
    assert_eq!(tracker.update(2_999_999, 20), None);
    assert!(!tracker.is_complete());
    assert_eq!(tracker.flush(30), "3999999/5000000 truncated");
}

#[test]
fn flush_reports_too_many_bytes_as_truncated() {
    let mut tracker = ProgressTracker::new(10, 0);
    assert_eq!(tracker.update(11, 1), None);
    assert_eq!(tracker.flush(2), "11/10 truncated");
}

#[test]
fn flush_of_an_empty_download_is_complete() {
    let mut tracker = ProgressTracker::new(0, 7);
    assert_eq!(tracker.flush(7), "0/0 complete");
}

#[test]
fn many_small_chunks_give_one_line_per_interval() {
    let mut tracker = ProgressTracker::new(10_000_000, 0);
    let mut emitted_at: Vec<u64> = Vec::new();
    // Ten chunks per millisecond, for five seconds.
    for tick in 0..50_000u64 {
        let now = tick / 10;
        if tracker.update(100, now).is_some() {
            emitted_at.push(now);
        }
    }
    assert_eq!(emitted_at, vec![1001, 2002, 3003, 4004]);
    for pair in emitted_at.windows(2) {
        assert!(pair[1] - pair[0] > INTERVAL_MS);
    }
    assert_eq!(tracker.total_read(), 5_000_000);
}

#[test]
fn no_line_at_exactly_one_interval() {
    let mut tracker = ProgressTracker::new(100, 500);
    assert_eq!(tracker.update(1, 1500), None);
    assert!(tracker.update(1, 1501).is_some());
    // The window now starts at 1501.
    assert_eq!(tracker.update(1, 2501), None);
    assert!(tracker.update(1, 2502).is_some());
}

#[test]
fn a_clock_that_goes_back_emits_nothing() {
    let mut tracker = ProgressTracker::new(100, 5000);
    assert_eq!(tracker.update(1, 0), None);
    assert_eq!(tracker.total_read(), 1);
}

#[test]
fn fast_downloads_are_shown_in_megabytes() {
    let mut tracker = ProgressTracker::new(100_000_000, 0);
    assert_eq!(
        tracker.update(50_000_000, 2000).as_deref(),
        Some(" 50.0%  [⣿⣿⣿⣿······] |  25.0 MB/s | 2s | estimated 0 min")
    );
}

#[test]
fn exactly_one_thousand_kilobytes_stays_in_kilobytes() {
    let mut tracker = ProgressTracker::new(4_000_000, 0);
    assert_eq!(
        tracker.update(2_000_000, 2000).as_deref(),
        Some(" 50.0%  [⣿⣿⣿⣿······] | 1000.0 kB/s | 2s | estimated 0 min")
    );
}

#[test]
fn the_estimate_counts_whole_minutes() {
    let mut tracker = ProgressTracker::new(1_000_000_000, 0);
    assert_eq!(
        tracker.update(1_000_000, 1001).as_deref(),
        Some("  0.1%  [··········] | 999.0 kB/s | 1s | estimated 16 min")
    );
}

#[test]
fn no_estimate_while_the_average_rate_is_zero() {
    let mut tracker = ProgressTracker::new(1000, 0);
    assert_eq!(
        tracker.update(1, 5000).as_deref(),
        Some("  0.1%  [··········] |   0.0 kB/s | 5s")
    );
}

#[test]
fn long_downloads_show_minutes() {
    let mut tracker = ProgressTracker::new(1000, 0);
    assert_eq!(
        tracker.update(500, 125_000).as_deref(),
        Some(" 50.0%  [⣿⣿⣿⣿······] |   0.0 kB/s | 2min5s | estimated 2 min")
    );
}

#[test]
fn an_empty_download_stands_at_zero_percent() {
    let mut tracker = ProgressTracker::new(0, 0);
    assert_eq!(
        tracker.update(0, 2000).as_deref(),
        Some("  0.0%  [··········] |   0.0 kB/s | 2s")
    );
}

#[test]
fn more_than_announced_fills_the_bar() {
    let mut tracker = ProgressTracker::new(100, 0);
    assert_eq!(
        tracker.update(250, 2000).as_deref(),
        Some("250.0%  [⣿⣿⣿⣿⣿⣿⣿⣿⣿⣿] |   0.1 kB/s | 2s | estimated 0 min")
    );
}

#[test]
fn new_tracker_has_received_nothing() {
    let tracker = ProgressTracker::new(42, 9);
    assert_eq!(tracker.content_length(), 42);
    assert_eq!(tracker.total_read(), 0);
    assert!(!tracker.is_complete());
}

#[test]
fn content_size_is_announced_in_megabytes_and_bytes() {
    assert_eq!(content_size_message(5_000_000), "Content Size 5.0mb (5000000 bytes)");
    assert_eq!(content_size_message(123_456_789), "Content Size 123.4mb (123456789 bytes)");
    assert_eq!(content_size_message(0), "Content Size 0.0mb (0 bytes)");
}

#[test]
fn the_size_is_a_status_update() {
    match size_message(1_500_000) {
        Message::VersionUpdate(text) => assert_eq!(text, "Content Size 1.5mb (1500000 bytes)"),
        other => panic!("unexpected message {:?}", other),
    }
}

#[test]
fn a_chunk_gives_an_update_only_with_a_line() {
    let mut tracker = ProgressTracker::new(2000, 0);
    assert!(chunk_message(&mut tracker, 1000, 500).is_none());
    match chunk_message(&mut tracker, 1000, 2000) {
        Some(Message::VersionUpdate(text)) => {
            assert_eq!(text, "100.0%  [⣿⣿⣿⣿⣿⣿⣿⣿⣿·] |   1.0 kB/s | 2s | estimated 0 min")
        }
        other => panic!("unexpected message {:?}", other),
    }
}

#[test]
fn the_end_of_a_complete_download_names_the_file() {
    let mut tracker = ProgressTracker::new(3, 0);
    tracker.update(3, 1);
    match end_message(&mut tracker, "store/blender.tar.xz".to_string(), 2) {
        Message::VersionResult(path) => assert_eq!(path, "store/blender.tar.xz"),
        other => panic!("unexpected message {:?}", other),
    }
}

#[test]
fn the_end_of_a_short_download_is_a_failure() {
    let mut tracker = ProgressTracker::new(3, 0);
    tracker.update(2, 1);
    match end_message(&mut tracker, "store/blender.tar.xz".to_string(), 2) {
        Message::VersionFailed(text) => assert_eq!(text, "2/3 truncated"),
        other => panic!("unexpected message {:?}", other),
    }
}

#[test]
fn a_transport_error_is_a_failure() {
    match failure_message("connection reset".to_string()) {
        Message::VersionFailed(text) => assert_eq!(text, "connection reset"),
        other => panic!("unexpected message {:?}", other),
    }
}
