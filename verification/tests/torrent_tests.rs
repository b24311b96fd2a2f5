use backend::model::{DownloadStatus, DownloadTask};
use backend::torrent::{
    active_file_name_from, add_uri_call, finished_file_name_from, pause_call, status_call,
    submitted_gid, EngineCall, poll_action, rpc_outcome, torrent_step,
    Aria2Status, PollAction, TorrentStep,
};

fn task(name: &str, status: DownloadStatus) -> DownloadTask {
    DownloadTask {
        id: "t1".to_string(),
        url: "magnet:?xt=1".to_string(),
        file_name: name.to_string(),
        save_path: "/dl".to_string(),
        downloaded_bytes: 0,
        total_bytes: 0,
        speed: 0,
        status,
        created_at: 0,
        format_id: None,
        error_message: None,
    }
}

fn report(status: &str) -> Aria2Status {
    Aria2Status {
        status: Some(status.to_string()),
        completed_length: None,
        total_length: None,
        download_speed: None,
        followed_by: None,
        first_file_path: None,
        torrent_name: None,
    }
}

fn some(x: &str) -> Option<String> {
    Some(x.to_string())
}

#[test]
fn metadata_done_follows_new_gid() {
    let mut t = task("Magnet_Download", DownloadStatus::Queued);
    let mut gid = "g1".to_string();
    let mut st = report("complete");
    st.followed_by = some("g2");
    st.total_length = some("500");
    assert_eq!(torrent_step(&mut t, &mut gid, &st), TorrentStep::FollowUp);
    assert_eq!(gid, "g2");
    assert_eq!(t.file_name, "Connecting to peers...");
    assert_eq!(t.status, DownloadStatus::Downloading);
    assert_eq!(t.total_bytes, 0);
}

#[test]
fn metadata_done_keeps_real_name() {
    let mut t = task("Chosen", DownloadStatus::Queued);
    let mut gid = "g1".to_string();
    let mut st = report("complete");
    st.followed_by = some("g2");
    torrent_step(&mut t, &mut gid, &st);
    assert_eq!(t.file_name, "Chosen");
}

#[test]
fn completion_takes_file_name_and_size() {
    let mut t = task("Connecting to peers...", DownloadStatus::Downloading);
    let mut gid = "g2".to_string();
    let mut st = report("complete");
    st.total_length = some("1234");
    st.completed_length = some("1234");
    st.download_speed = some("99");
    st.first_file_path = some("/dl/Show/Episode.mkv");
    assert_eq!(torrent_step(&mut t, &mut gid, &st), TorrentStep::Finished);
    assert_eq!(gid, "g2");
    assert_eq!(t.file_name, "Episode.mkv");
    assert_eq!(t.status, DownloadStatus::Completed);
    assert_eq!((t.downloaded_bytes, t.total_bytes, t.speed), (1234, 1234, 0));
}

#[test]
fn completion_ignores_control_file() {
    let mut t = task("Name", DownloadStatus::Downloading);
    let mut gid = "g".to_string();
    let mut st = report("complete");
    st.first_file_path = some("/dl/x.aria2");
    torrent_step(&mut t, &mut gid, &st);
    assert_eq!(t.file_name, "Name");
    let mut st2 = report("complete");
    st2.first_file_path = some("");
    torrent_step(&mut t, &mut gid, &st2);
    assert_eq!(t.file_name, "Name");
}

#[test]
fn engine_error_fails_download() {
    let mut t = task("Name", DownloadStatus::Downloading);
    let mut gid = "g".to_string();
    let mut st = report("error");
    st.completed_length = some("10");
    assert_eq!(torrent_step(&mut t, &mut gid, &st), TorrentStep::Failed);
    assert_eq!(t.status, DownloadStatus::Failed);
    assert_eq!(t.downloaded_bytes, 0);
}

#[test]
fn progress_reads_numbers() {
    let mut t = task("Magnet_Download", DownloadStatus::Queued);
    let mut gid = "g".to_string();
    let mut st = report("active");
    st.completed_length = some("300");
    st.total_length = some("1000");
    st.download_speed = some("not a number");
    st.first_file_path = some("/dl/Album/track01.flac");
    assert_eq!(torrent_step(&mut t, &mut gid, &st), TorrentStep::InProgress);
    assert_eq!((t.downloaded_bytes, t.total_bytes, t.speed), (300, 1000, 0));
    assert_eq!(t.status, DownloadStatus::Downloading);
    assert_eq!(t.file_name, "track01.flac");
}

#[test]
fn waiting_keeps_status_and_uses_torrent_name() {
    let mut t = task("Fetching content...", DownloadStatus::Queued);
    let mut gid = "g".to_string();
    let mut st = report("waiting");
    st.first_file_path = some("/dl/[METADATA]abc.aria2");
    st.torrent_name = some("Big Collection");
    torrent_step(&mut t, &mut gid, &st);
    assert_eq!(t.status, DownloadStatus::Queued);
    assert_eq!(t.file_name, "Big Collection");
}

#[test]
fn missing_status_counts_as_progress() {
    let mut t = task("Magnet_Download", DownloadStatus::Queued);
    let mut gid = "g".to_string();
    let st = Aria2Status {
        status: None,
        completed_length: None,
        total_length: some("+5"),
        download_speed: None,
        followed_by: None,
        first_file_path: None,
        torrent_name: some(""),
    };
    assert_eq!(torrent_step(&mut t, &mut gid, &st), TorrentStep::InProgress);
    assert_eq!(t.total_bytes, 5);
    assert_eq!(t.file_name, "Magnet_Download");
}

#[test]
fn names_from_given_path_parts() {
    let cur = "Magnet_Download".to_string();
    // a path whose final component is unknown keeps the current name
    assert_eq!(finished_file_name_from(&cur, &some("/dl/"), None), "Magnet_Download");
    assert_eq!(finished_file_name_from(&cur, &some("/dl/a"), some("a.iso")), "a.iso");
    assert_eq!(finished_file_name_from(&cur, &some("/dl/a"), some("a.aria2")), "Magnet_Download");
    assert_eq!(finished_file_name_from(&cur, &some(""), some("x")), "Magnet_Download");
    assert_eq!(active_file_name_from(&cur, &some("/dl/a"), some("a.iso"), &some("T")), "a.iso");
    assert_eq!(active_file_name_from(&cur, &some("/dl/a"), None, &some("T")), "T");
    assert_eq!(active_file_name_from(&cur, &some("/dl/a.aria2"), some("z"), &None), "Magnet_Download");
    let other = "Mine".to_string();
    assert_eq!(active_file_name_from(&other, &some("/dl/a"), some("Magnet_Download"), &some("T")), "Mine");
}

#[test]
fn poll_rounds_and_rpc_errors() {
    assert_eq!(poll_action(&task("n", DownloadStatus::Paused)), PollAction::PauseEngine);
    assert_eq!(poll_action(&task("n", DownloadStatus::Downloading)), PollAction::AskStatus);
    assert_eq!(
        rpc_outcome(some(r#"{"code":1,"message":"x"}"#)),
        Err(r#"Aria2 error: {"code":1,"message":"x"}"#.to_string())
    );
    assert_eq!(rpc_outcome(None), Ok(()));
}

#[test]
fn add_uri_call_for_task() {
    let t = task("Magnet_Download", DownloadStatus::Queued);
    let c = add_uri_call(&t);
    assert_eq!(c.method(), "aria2.addUri");
    match c {
        EngineCall::AddUri { uri, dir, seed_time } => {
            assert_eq!(uri, "magnet:?xt=1");
            assert_eq!(dir, "/dl");
            assert_eq!(seed_time, "0");
        }
        _ => panic!("not an addUri call"),
    }
}

#[test]
fn pause_and_status_calls() {
    let gid = "2089b05ecca3d829".to_string();
    let p = pause_call(&gid);
    assert_eq!(p.method(), "aria2.pause");
    assert!(matches!(p, EngineCall::Pause { gid: ref g } if g == "2089b05ecca3d829"));
    let q = status_call(&gid);
    assert_eq!(q.method(), "aria2.tellStatus");
    assert!(matches!(q, EngineCall::TellStatus { gid: ref g } if g == "2089b05ecca3d829"));
}

#[test]
fn submitted_gid_needs_a_string_result() {
    assert_eq!(submitted_gid(Some("abc".to_string())), Ok("abc".to_string()));
    assert_eq!(submitted_gid(None), Err("No GID returned from Aria2".to_string()));
}
