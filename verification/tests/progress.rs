use just_download::progress::DownloadProgress;
use just_download::progress::ReadOutcome;

#[test]
fn a_new_counter_has_read_nothing() {
    let progress = DownloadProgress::new(100);
    assert_eq!(progress, DownloadProgress { total: 100, position: 0, finished: false });
}

#[test]
fn the_counter_stands_at_the_bytes_read() {
    let mut progress = DownloadProgress::new(10);
    assert_eq!(progress.record(ReadOutcome::Bytes(4)), 4);
    assert_eq!(progress.record(ReadOutcome::Bytes(0)), 0);
    assert_eq!(progress.record(ReadOutcome::Bytes(6)), 6);
    assert_eq!(progress.position, 10);
    assert_eq!(progress.total, 10);
}

#[test]
fn a_failed_read_leaves_the_counter() {
    let mut progress = DownloadProgress::new(10);
    progress.record(ReadOutcome::Bytes(3));
    let before = progress;
    assert_eq!(progress.record(ReadOutcome::Failed), 0);
    assert_eq!(progress, before);
}

#[test]
fn the_counter_may_pass_the_declared_total() {
    let mut progress = DownloadProgress::new(2);
    progress.record(ReadOutcome::Bytes(5));
    assert_eq!(progress.position, 5);
    assert_eq!(progress.total, 2);
}

#[test]
fn the_counter_stops_at_its_largest_value() {
    let mut progress = DownloadProgress { total: 0, position: u64::MAX - 2, finished: false };
    assert_eq!(progress.record(ReadOutcome::Bytes(5)), 2);
    assert_eq!(progress.position, u64::MAX);
    assert_eq!(progress.record(ReadOutcome::Bytes(1)), 0);
    assert_eq!(progress.position, u64::MAX);
}

#[test]
fn finish_marks_the_counter_and_keeps_the_count() {
    let mut progress = DownloadProgress::new(8);
    progress.record(ReadOutcome::Bytes(8));
    progress.finish();
    assert_eq!(progress, DownloadProgress { total: 8, position: 8, finished: true });
}
