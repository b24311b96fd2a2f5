use backend::api::{
    classify_url, probe_title, tag_as_video, url_tail_text, video_description, RequestError, UrlKind,
};
use backend::model::{DownloadRequest, DownloadStatus, DownloadTask};
use backend::video::{
    apply_video_report, begin_video_transfer, close_video_download, heartbeat_due, name_and_size_from_report,
    read_ytdlp_report, VideoMetadata, finish_video_download, size_unknown, video_format,
};

fn request(url: &str) -> DownloadRequest {
    DownloadRequest { url: url.to_string(), save_path: None, format_id: None, file_name: None }
}

#[test]
fn request_needs_a_url() {
    assert_eq!(request(" \t\n").check(), Err(RequestError::UrlRequired));
    assert_eq!(request("").check(), Err(RequestError::UrlRequired));
    assert_eq!(request(" https://x.org ").check(), Ok(()));
    assert_eq!(RequestError::UrlRequired.message(), "url is required");
}

#[test]
fn classify_torrents() {
    assert_eq!(
        classify_url("magnet:?xt=urn:btih:1"),
        UrlKind::Torrent { title: "Magnet Download (Metadata pending)".to_string() }
    );
    assert_eq!(
        classify_url("https://x.org/t/ubuntu.iso.torrent"),
        UrlKind::Torrent { title: "ubuntu.iso.torrent".to_string() }
    );
}

#[test]
fn classify_direct_files() {
    assert_eq!(
        classify_url("https://x.org/a/Movie.MKV?sig=1/2"),
        UrlKind::File { title: "Movie.MKV".to_string() }
    );
    assert_eq!(classify_url("https://x.org/page"), UrlKind::Unknown);
    // an upper-case torrent suffix is not a torrent here, but it is no file either
    assert_eq!(classify_url("https://x.org/a.TORRENT"), UrlKind::Unknown);
}

#[test]
fn titles_from_the_url() {
    assert_eq!(url_tail_text("https://x.org/a/b.bin?x=1"), "b.bin");
    assert_eq!(url_tail_text("https://x.org/a/"), "");
    assert_eq!(probe_title("https://www.youtube.com/watch?v=1"), "YouTube Video");
    assert_eq!(probe_title("https://x.org/a/b.bin"), "b.bin");
}

fn task() -> DownloadTask {
    DownloadTask {
        id: "v".to_string(),
        url: "https://youtube.com/watch?v=1".to_string(),
        file_name: "YouTube Video".to_string(),
        save_path: "/dl".to_string(),
        downloaded_bytes: 0,
        total_bytes: 0,
        speed: 0,
        status: DownloadStatus::Queued,
        created_at: 0,
        format_id: None,
        error_message: None,
    }
}

#[test]
fn video_format_default() {
    assert_eq!(video_format(None), "bestvideo[ext=mp4]+bestaudio[ext=m4a]/best[ext=mp4]/best");
    assert_eq!(video_format(Some("22".to_string())), "22");
}

#[test]
fn video_report_and_finish() {
    let mut t = task();
    apply_video_report(&mut t, "Clip.mp4".to_string(), Some(777));
    assert_eq!((t.file_name.as_str(), t.total_bytes), ("Clip.mp4", 777));
    apply_video_report(&mut t, "Clip2.mp4".to_string(), None);
    assert_eq!((t.file_name.as_str(), t.total_bytes), ("Clip2.mp4", 777));
    apply_video_report(&mut t, "Clip.mp4".to_string(), Some(800));
    assert_eq!(t.total_bytes, 800);
    begin_video_transfer(&mut t);
    assert_eq!(t.status, DownloadStatus::Downloading);
    assert!(!size_unknown(&t));
    finish_video_download(&mut t, Some(5));
    assert_eq!((t.status, t.total_bytes, t.downloaded_bytes, t.speed), (DownloadStatus::Completed, 800, 800, 0));
    let mut u = task();
    assert!(size_unknown(&u));
    finish_video_download(&mut u, Some(5));
    assert_eq!((u.total_bytes, u.downloaded_bytes), (5, 5));
    let mut w = task();
    finish_video_download(&mut w, None);
    assert_eq!((w.total_bytes, w.downloaded_bytes), (0, 0));
}

#[test]
fn heartbeat_interval() {
    assert!(!heartbeat_due(2_000_000_000));
    assert!(heartbeat_due(2_000_000_001));
}

#[test]
fn ytdlp_report_reading() {
    let json = br#"{"_filename": "/out/Clip [x].webm", "title": "Clip", "ext": "webm", "filesize": 1.5, "filesize_approx": 123}"#.to_vec();
    assert_eq!(
        read_ytdlp_report("YouTube Video", &json),
        Some(("Clip [x].webm".to_string(), Some(123)))
    );
    assert_eq!(read_ytdlp_report("mine", &json), Some(("mine.webm".to_string(), Some(123))));
    assert_eq!(read_ytdlp_report("mine", &b"not json".to_vec()), None);
    let bare = br#"{"title": 7}"#.to_vec();
    assert_eq!(read_ytdlp_report("watch", &bare), Some(("watch".to_string(), None)));
}

#[test]
fn report_fields_choose_name_and_size() {
    let m = VideoMetadata {
        filename: None,
        title: Some("Talk".to_string()),
        ext: None,
        filesize: Some(10),
        filesize_approx: Some(20),
    };
    assert_eq!(name_and_size_from_report("download-1", m), ("Talk.mp4".to_string(), Some(10)));
}

#[test]
fn video_description_tags_the_json() {
    let out = video_description(&br#"{"title":"Clip","duration":12}"#.to_vec()).unwrap();
    let v: serde_json::Value = serde_json::from_slice(&out).unwrap();
    assert_eq!(v["type"], "video");
    assert_eq!(v["title"], "Clip");
    assert_eq!(v["duration"], 12);
    let replaced = video_description(&br#"{"type":"playlist"}"#.to_vec()).unwrap();
    assert_eq!(replaced, br#"{"type":"video"}"#.to_vec());
}

#[test]
fn video_description_of_non_json_or_null() {
    assert_eq!(video_description(&b"not json".to_vec()), Some(br#"{"type":"video"}"#.to_vec()));
    assert_eq!(video_description(&b"null".to_vec()), Some(br#"{"type":"video"}"#.to_vec()));
    assert_eq!(video_description(&b"[1,2]".to_vec()), None);
    assert_eq!(video_description(&b"\"s\"".to_vec()), None);
    assert_eq!(tag_as_video(&b"{}".to_vec()), Some(br#"{"type":"video"}"#.to_vec()));
    assert_eq!(tag_as_video(&b"oops".to_vec()), None);
}

#[test]
fn close_video_download_failed_process() {
    let mut t = task();
    t.status = DownloadStatus::Downloading;
    t.downloaded_bytes = 5;
    let r = close_video_download(&mut t, false, Some(10));
    assert_eq!(r, Err("yt-dlp process failed".to_string()));
    assert_eq!(t.status, DownloadStatus::Downloading);
    assert_eq!(t.downloaded_bytes, 5);
    assert_eq!(t.total_bytes, 0);
}

#[test]
fn close_video_download_success_reads_disk_size() {
    let mut t = task();
    t.status = DownloadStatus::Downloading;
    t.speed = 3;
    assert_eq!(close_video_download(&mut t, true, Some(4096)), Ok(()));
    assert_eq!(t.status, DownloadStatus::Completed);
    assert_eq!(t.total_bytes, 4096);
    assert_eq!(t.downloaded_bytes, 4096);
    assert_eq!(t.speed, 0);
}
