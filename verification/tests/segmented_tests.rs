use backend::model::{DownloadStatus, DownloadTask};
use backend::segmented::{
    close_direct_download, finish_direct_download, partial_content, worker_stopped, progress_save_due, speed_reading_due,
    transfer_accepted, head_probe, plan_segments, range_header, total_from_content_range,
    SizeProbe, SpeedMeter,
};

fn task(status: DownloadStatus) -> DownloadTask {
    DownloadTask {
        id: "h".to_string(),
        url: "https://x.org/a.bin".to_string(),
        file_name: "a.bin".to_string(),
        save_path: "/dl".to_string(),
        downloaded_bytes: 0,
        total_bytes: 100,
        speed: 3,
        status,
        created_at: 0,
        format_id: None,
        error_message: None,
    }
}

fn covers(total: u64, parts: &[(u64, u64)]) {
    assert!(!parts.is_empty() && parts.len() <= 8);
    assert_eq!(parts[0].0, 0);
    assert_eq!(parts[parts.len() - 1].1, total - 1);
    for w in parts.windows(2) {
        assert_eq!(w[1].0, w[0].1 + 1);
    }
    for p in parts {
        assert!(p.0 <= p.1);
    }
}

#[test]
fn eight_even_parts() {
    let parts = plan_segments(16);
    assert_eq!(parts, vec![(0, 1), (2, 3), (4, 5), (6, 7), (8, 9), (10, 11), (12, 13), (14, 15)]);
}

#[test]
fn uneven_sizes_still_cover() {
    assert_eq!(plan_segments(10), vec![(0, 1), (2, 3), (4, 5), (6, 7), (8, 9)]);
    assert_eq!(plan_segments(1), vec![(0, 0)]);
    for total in [1u64, 2, 7, 8, 9, 15, 17, 5242881, 123456789, u64::MAX - 8] {
        covers(total, &plan_segments(total));
    }
}

#[test]
fn range_headers() {
    assert_eq!(range_header(0, 0), "bytes=0-0");
    assert_eq!(range_header(655360, 1310719), "bytes=655360-1310719");
}

#[test]
fn size_from_content_range() {
    assert_eq!(total_from_content_range("bytes 0-0/12345"), 12345);
    assert_eq!(total_from_content_range("bytes 0-0/*"), 0);
    assert_eq!(total_from_content_range("12"), 12);
}

#[test]
fn probing_the_size() {
    let p = head_probe(Some(9000000), Some("bytes".to_string()));
    assert_eq!(p, SizeProbe { total: 9000000, accept_ranges: true });
    assert!(p.segmented());
    assert!(!p.needs_range_probe());
    let q = head_probe(None, Some("none".to_string()));
    assert_eq!(q, SizeProbe { total: 0, accept_ranges: false });
    assert!(q.needs_range_probe());
    let r = q.after_range_probe(true, Some("bytes 0-0/6000000".to_string()));
    assert_eq!(r, SizeProbe { total: 6000000, accept_ranges: true });
    assert!(r.segmented());
    assert_eq!(q.after_range_probe(false, Some("bytes 0-0/6".to_string())), q);
    assert_eq!(q.after_range_probe(true, None), SizeProbe { total: 0, accept_ranges: true });
    assert!(!SizeProbe { total: 5242880, accept_ranges: true }.segmented());
    assert!(!SizeProbe { total: 9000000, accept_ranges: false }.segmented());
}

#[test]
fn progress_ticks() {
    let mut m = SpeedMeter::new();
    let mut t = task(DownloadStatus::Downloading);
    assert!(!m.tick(&mut t, 500, false));
    assert_eq!((t.downloaded_bytes, t.speed, m.last_bytes), (500, 3, 0));
    assert!(!m.tick(&mut t, 800, true));
    assert_eq!((t.downloaded_bytes, t.speed, m.last_bytes), (800, 800, 800));
    assert!(!m.tick(&mut t, 700, true));
    assert_eq!((t.downloaded_bytes, t.speed, m.last_bytes), (700, 0, 700));
    t.status = DownloadStatus::Paused;
    assert!(m.tick(&mut t, 900, true));
    assert_eq!((t.downloaded_bytes, m.last_bytes), (700, 700));
}

#[test]
fn finishing_a_direct_download() {
    let mut t = task(DownloadStatus::Downloading);
    finish_direct_download(&mut t, 4321);
    assert_eq!(t.status, DownloadStatus::Completed);
    assert_eq!((t.downloaded_bytes, t.speed, t.total_bytes), (4321, 0, 100));
}

#[test]
fn reading_and_saving_intervals() {
    assert!(!speed_reading_due(999_999_999));
    assert!(speed_reading_due(1_000_000_000));
    assert!(!progress_save_due(1_999_999_999));
    assert!(progress_save_due(2_000_000_000));
    assert!(SizeProbe { total: 1, accept_ranges: false }.preallocate());
    assert!(!SizeProbe { total: 0, accept_ranges: true }.preallocate());
}

#[test]
fn new_downloads() {
    let mut t = task(DownloadStatus::Queued);
    assert!(t.is_new());
    t.downloaded_bytes = 1;
    assert!(!t.is_new());
    t.set_status(DownloadStatus::Paused);
    assert!(t.is_paused());
}

#[test]
fn answer_statuses() {
    assert!(transfer_accepted(200));
    assert!(transfer_accepted(206));
    assert!(transfer_accepted(299));
    assert!(!transfer_accepted(199));
    assert!(!transfer_accepted(300));
    assert!(!transfer_accepted(404));
    assert!(partial_content(206));
    assert!(!partial_content(200));
}

#[test]
fn worker_error_fails_download_and_stops_others() {
    let mut failed = false;
    assert!(!worker_stopped(&mut failed, false));
    assert!(!failed);
    assert!(worker_stopped(&mut failed, true));
    assert!(failed);
    assert!(!worker_stopped(&mut failed, false));
    assert!(failed);
}

#[test]
fn close_direct_download_failed_worker() {
    let mut t = task(DownloadStatus::Downloading);
    t.downloaded_bytes = 40;
    t.speed = 7;
    let r = close_direct_download(&mut t, true, 90);
    assert_eq!(r, Err("Download failed across one or more segments".to_string()));
    assert_eq!(t.status, DownloadStatus::Downloading);
    assert_eq!(t.downloaded_bytes, 40);
    assert_eq!(t.speed, 7);
}

#[test]
fn close_direct_download_success() {
    let mut t = task(DownloadStatus::Downloading);
    t.speed = 7;
    assert_eq!(close_direct_download(&mut t, false, 100), Ok(()));
    assert_eq!(t.status, DownloadStatus::Completed);
    assert_eq!(t.downloaded_bytes, 100);
    assert_eq!(t.speed, 0);
}
