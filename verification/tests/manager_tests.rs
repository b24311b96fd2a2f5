use backend::manager::{DownloadManager, ManagerError, PendingDownload, ResumeAction};
use backend::model::{DownloadStatus, DownloadTask};

fn task(id: &str, url: &str, status: DownloadStatus) -> DownloadTask {
    DownloadTask {
        id: id.to_string(),
        url: url.to_string(),
        file_name: "f.bin".to_string(),
        save_path: "/dl".to_string(),
        downloaded_bytes: 10,
        total_bytes: 100,
        speed: 5,
        status,
        created_at: 1700000000,
        format_id: None,
        error_message: None,
    }
}

#[test]
fn new_manager_is_empty() {
    let m = DownloadManager::new("history.db".to_string());
    assert_eq!(m.db_path(), "history.db");
    assert_eq!(m.get_task("x"), None);
}

#[test]
fn insert_then_read_back() {
    let mut m = DownloadManager::new("h.db".to_string());
    m.insert_task(task("a", "https://x.org/a", DownloadStatus::Queued));
    m.insert_task(task("b", "https://x.org/b", DownloadStatus::Queued));
    assert_eq!(m.get_task("a").unwrap().url, "https://x.org/a");
    let mut replaced = task("a", "https://x.org/other", DownloadStatus::Completed);
    replaced.total_bytes = 7;
    m.insert_task(replaced.clone());
    assert_eq!(m.get_task("a"), Some(replaced));
    assert_eq!(m.get_task("b").unwrap().url, "https://x.org/b");
}

#[test]
fn pause_sets_paused() {
    let mut m = DownloadManager::new("h.db".to_string());
    m.insert_task(task("a", "https://x.org/a", DownloadStatus::Downloading));
    assert_eq!(m.pause_download("a"), Ok(()));
    let t = m.get_task("a").unwrap();
    assert_eq!(t.status, DownloadStatus::Paused);
    assert_eq!(t.downloaded_bytes, 10);
}

#[test]
fn pause_unknown_is_not_found() {
    let mut m = DownloadManager::new("h.db".to_string());
    assert_eq!(m.pause_download("nope"), Err(ManagerError::TaskNotFound));
    assert_eq!(ManagerError::TaskNotFound.message(), "Task not found");
}

#[test]
fn resume_paused_or_failed_restarts() {
    let mut m = DownloadManager::new("h.db".to_string());
    m.insert_task(task("a", "https://x.org/a.zip", DownloadStatus::Paused));
    m.insert_task(task("b", "MAGNET:?xt=1", DownloadStatus::Failed));
    assert_eq!(m.resume_download("a"), Ok(ResumeAction::Restart { torrent: false }));
    assert_eq!(m.get_task("a").unwrap().status, DownloadStatus::Downloading);
    assert_eq!(m.resume_download("b"), Ok(ResumeAction::Restart { torrent: true }));
    assert_eq!(m.get_task("b").unwrap().status, DownloadStatus::Downloading);
}

#[test]
fn resume_other_states_changes_nothing() {
    let mut m = DownloadManager::new("h.db".to_string());
    for (id, st) in [
        ("q", DownloadStatus::Queued),
        ("d", DownloadStatus::Downloading),
        ("c", DownloadStatus::Completed),
    ] {
        m.insert_task(task(id, "https://x.org/a", st));
        assert_eq!(m.resume_download(id), Ok(ResumeAction::Unchanged));
        assert_eq!(m.get_task(id).unwrap().status, st);
    }
    assert_eq!(m.resume_download("zz"), Err(ManagerError::TaskNotFound));
}

#[test]
fn pause_then_resume_is_downloading() {
    let mut m = DownloadManager::new("h.db".to_string());
    m.insert_task(task("a", "https://x.org/a", DownloadStatus::Downloading));
    m.pause_download("a").unwrap();
    m.resume_download("a").unwrap();
    assert_eq!(m.get_task("a").unwrap().status, DownloadStatus::Downloading);
}

#[test]
fn delete_forgets_only_that_download() {
    let mut m = DownloadManager::new("h.db".to_string());
    m.insert_task(task("a", "https://x.org/a", DownloadStatus::Queued));
    m.insert_task(task("b", "https://x.org/b", DownloadStatus::Queued));
    m.delete_download("a");
    assert_eq!(m.get_task("a"), None);
    assert!(m.get_task("b").is_some());
    m.delete_download("a");
    assert!(m.get_task("b").is_some());
}

#[test]
fn update_only_touches_live_downloads() {
    let mut m = DownloadManager::new("h.db".to_string());
    assert!(!m.update_task(task("a", "u", DownloadStatus::Completed)));
    assert_eq!(m.get_task("a"), None);
    m.insert_task(task("a", "u", DownloadStatus::Queued));
    assert!(m.update_task(task("a", "u", DownloadStatus::Completed)));
    assert_eq!(m.get_task("a").unwrap().status, DownloadStatus::Completed);
}

#[test]
fn start_download_plans_the_download() {
    let m = DownloadManager::new("h.db".to_string());
    let p = m.start_download(
        "https://x.org/files/a.iso?sig=1".to_string(),
        None,
        Some("mp4".to_string()),
        None,
        Some("/home/u".to_string()),
    );
    assert_eq!(p.id.len(), 36);
    assert!(p.id.chars().enumerate().all(|(i, c)| if [8, 13, 18, 23].contains(&i) {
        c == '-'
    } else {
        c.is_ascii_hexdigit() && !c.is_ascii_uppercase()
    }));
    let digits: Vec<char> = p.id.chars().collect();
    assert_eq!(digits[14], '4');
    assert!(['8', '9', 'a', 'b'].contains(&digits[19]));
    assert_eq!(p.url, "https://x.org/files/a.iso?sig=1");
    assert_eq!(p.save_path, "/home/u/Downloads");
    assert_eq!(p.file_name, "a.iso");
    assert_eq!(p.format_id, Some("mp4".to_string()));
    let other = m.start_download("https://x.org/".to_string(), Some("/d".to_string()), None, None, None);
    assert_ne!(other.id, p.id);
    assert_eq!(other.file_name, "x.org");
}

#[test]
fn start_download_default_name_uses_id() {
    let m = DownloadManager::new("h.db".to_string());
    let p = m.start_download("///".to_string(), None, None, Some("  ".to_string()), None);
    assert_eq!(p.save_path, "downloads");
    assert_eq!(p.file_name, format!("download-{}", p.id));
}

#[test]
fn queued_record_from_plan() {
    let p = PendingDownload {
        id: "id7".to_string(),
        url: "https://x.org/a".to_string(),
        save_path: "/d".to_string(),
        file_name: "a".to_string(),
        format_id: None,
    };
    let t = p.clone().queued_task_at("a (1)".to_string(), 42);
    assert_eq!(t.id, "id7");
    assert_eq!(t.file_name, "a (1)");
    assert_eq!(t.status, DownloadStatus::Queued);
    assert_eq!((t.downloaded_bytes, t.total_bytes, t.speed, t.created_at), (0, 0, 0, 42));
    assert_eq!(t.error_message, None);
    let now = p.queued_task("a".to_string());
    assert!(now.created_at > 1600000000);
}

#[test]
fn history_shows_live_progress() {
    let mut m = DownloadManager::new("h.db".to_string());
    let mut live = task("a", "https://x.org/a", DownloadStatus::Downloading);
    live.downloaded_bytes = 77;
    live.total_bytes = 200;
    live.speed = 9;
    m.insert_task(live);
    let mut stored_a = task("a", "https://x.org/a", DownloadStatus::Queued);
    stored_a.downloaded_bytes = 0;
    stored_a.speed = 0;
    stored_a.file_name = "stored.bin".to_string();
    let stored_b = task("b", "https://x.org/b", DownloadStatus::Completed);
    let rows = m.get_all_tasks(vec![stored_a, stored_b.clone()]);
    assert_eq!(rows.len(), 2);
    assert_eq!(rows[0].downloaded_bytes, 77);
    assert_eq!(rows[0].total_bytes, 200);
    assert_eq!(rows[0].speed, 9);
    assert_eq!(rows[0].status, DownloadStatus::Downloading);
    assert_eq!(rows[0].file_name, "stored.bin");
    assert_eq!(rows[1], stored_b);
}

#[test]
fn failure_is_recorded_readably() {
    let mut t = task("a", "https://x.org/a", DownloadStatus::Downloading);
    let msg = t.record_failure("Server returned 404 Not Found");
    assert_eq!(msg, "File not found (404). The link may have expired.");
    assert_eq!(t.status, DownloadStatus::Failed);
    assert_eq!(t.error_message, Some(msg));
}
