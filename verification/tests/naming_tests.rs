use backend::naming::{
    choose_file_name, default_save_path, extract_file_name, file_name_from_url, friendly_error,
    is_supported_by_ytdlp, is_torrent_download, join_dir, numbered_file_name,
    split_stem_extension, video_file_name, video_file_name_from, RenameSearch,
};

fn s(x: &str) -> String {
    x.to_string()
}

#[test]
fn extract_file_name_magnet_link() {
    assert_eq!(extract_file_name("magnet:?xt=urn:btih:abc"), Some(s("Magnet_Download")));
}

#[test]
fn extract_file_name_youtube_any_case() {
    assert_eq!(extract_file_name("https://www.YouTube.com/Watch?v=abc"), Some(s("YouTube Video")));
    assert_eq!(extract_file_name("https://youtu.be/abc"), Some(s("YouTube Video")));
}

#[test]
fn extract_file_name_last_segment_before_query() {
    assert_eq!(
        extract_file_name("https://example.com/files/archive.zip?token=1/2"),
        Some(s("archive.zip"))
    );
    assert_eq!(extract_file_name("https://example.com/dir//"), Some(s("dir")));
    assert_eq!(extract_file_name("https://example.com"), Some(s("example.com")));
    assert_eq!(extract_file_name("plain"), Some(s("plain")));
}

#[test]
fn extract_file_name_nothing_to_name() {
    assert_eq!(extract_file_name("///"), None);
    assert_eq!(extract_file_name(""), None);
    assert_eq!(extract_file_name("?a/b"), None);
}

#[test]
fn file_name_from_url_uses_given_lowercase() {
    // the lowercase form decides the YouTube case, the URL itself the rest
    assert_eq!(
        file_name_from_url("https://x.org/a.bin", "youtu.be/"),
        Some(s("YouTube Video"))
    );
    assert_eq!(file_name_from_url("https://x.org/a.bin", "https://x.org/a.bin"), Some(s("a.bin")));
}

#[test]
fn friendly_error_each_kind() {
    assert_eq!(
        friendly_error("write failed: No space left on device"),
        "No space left on device. Free up disk space and retry."
    );
    assert_eq!(
        friendly_error("fallocate failed"),
        "No space left on device. Free up disk space and retry."
    );
    assert_eq!(
        friendly_error("HTTP status 403"),
        "Access denied (403). Try a magnet link instead of a .torrent URL."
    );
    assert_eq!(
        friendly_error("Forbidden"),
        "Access denied (403). Try a magnet link instead of a .torrent URL."
    );
    assert_eq!(friendly_error("got 404"), "File not found (404). The link may have expired.");
    assert_eq!(
        friendly_error("operation timed out"),
        "Connection timed out. Check your internet connection."
    );
    assert_eq!(
        friendly_error("read timeout"),
        "Connection timed out. Check your internet connection."
    );
    assert_eq!(
        friendly_error("Aria2 error: aria2 refused"),
        "Torrent engine error: Aria2 error: aria2 refused"
    );
    assert_eq!(friendly_error("something odd"), "something odd");
}

#[test]
fn friendly_error_first_match_wins() {
    // both a 403 and a 404 appear: the 403 rule comes first
    assert_eq!(
        friendly_error("404 then 403"),
        "Access denied (403). Try a magnet link instead of a .torrent URL."
    );
}

#[test]
fn friendly_error_cuts_long_text_to_120_characters() {
    let long: String = "é".repeat(130);
    let r = friendly_error(&long);
    assert_eq!(r.chars().count(), 120);
    assert_eq!(r, "é".repeat(120));
}

#[test]
fn torrent_detection() {
    assert!(is_torrent_download("https://x.org/a", &Some(s("torrent"))));
    assert!(is_torrent_download("MAGNET:?xt=1", &None));
    assert!(is_torrent_download("https://x.org/file.TORRENT", &None));
    assert!(is_torrent_download("https://x.org/file.torrent?dl=1", &None));
    assert!(!is_torrent_download("https://x.org/file.zip", &Some(s("mp4"))));
    assert!(!is_torrent_download("https://x.org/torrent.zip", &None));
}

#[test]
fn video_site_detection() {
    assert!(is_supported_by_ytdlp("https://VIMEO.com/123"));
    assert!(is_supported_by_ytdlp("https://www.reddit.com/r/videos"));
    assert!(is_supported_by_ytdlp("https://x.com/user/status/1"));
    assert!(!is_supported_by_ytdlp("https://example.org/movie.mp4"));
}

#[test]
fn save_folder_choices() {
    assert_eq!(default_save_path(Some(s("/data")), Some(s("/home/u"))), "/data");
    assert_eq!(default_save_path(None, Some(s("/home/u"))), "/home/u/Downloads");
    assert_eq!(default_save_path(None, None), "downloads");
}

#[test]
fn file_name_choices() {
    assert_eq!(choose_file_name("https://x.org/a.zip", &Some(s("  my file \t")), "id1"), "my file");
    assert_eq!(choose_file_name("https://x.org/a.zip", &Some(s(" \u{3000} ")), "id1"), "a.zip");
    assert_eq!(choose_file_name("https://x.org/a.zip", &None, "id1"), "a.zip");
    assert_eq!(choose_file_name("///", &None, "id1"), "download-id1");
}

#[test]
fn numbered_names() {
    assert_eq!(numbered_file_name("video", "mp4", 3), "video (3).mp4");
    assert_eq!(numbered_file_name("notes", "", 12), "notes (12)");
    assert_eq!(numbered_file_name("x", "y", 0), "x (0).y");
}

#[test]
fn numbered_names_differ_by_counter() {
    let names: Vec<String> = (1..=120u64).map(|n| numbered_file_name("a (1)", "b", n)).collect();
    for i in 0..names.len() {
        for j in 0..i {
            assert_ne!(names[i], names[j]);
        }
    }
}

#[test]
fn rename_search_walks_the_counter() {
    let mut r = RenameSearch::new("/downloads/report.tar.gz");
    assert_eq!(r.stem, "report.tar");
    assert_eq!(r.ext, "gz");
    assert_eq!(r.next_name(), "report.tar (1).gz");
    assert_eq!(r.next_name(), "report.tar (2).gz");
    assert_eq!(r.counter, 3);
}

#[test]
fn stem_and_extension_of_paths() {
    assert_eq!(split_stem_extension("/tmp/.bashrc"), (s(".bashrc"), s("")));
    assert_eq!(split_stem_extension("/tmp/noext"), (s("noext"), s("")));
    assert_eq!(split_stem_extension(""), (s("file"), s("")));
}

#[test]
fn joined_path() {
    assert_eq!(join_dir("/home/u/Downloads", "a.zip"), "/home/u/Downloads/a.zip");
}

#[test]
fn video_names() {
    // generic name: the predicted file name wins
    assert_eq!(
        video_file_name("YouTube Video", Some(s("/out/Clip [x].webm")), Some(s("Clip")), Some(s("webm"))),
        "Clip [x].webm"
    );
    // generic name without prediction: title and extension
    assert_eq!(video_file_name("watch", None, Some(s("Clip")), None), "Clip.mp4");
    assert_eq!(video_file_name("download-abc", None, None, None), "download-abc");
    // chosen name without extension gets one
    assert_eq!(video_file_name("holiday", Some(s("x.webm")), None, Some(s("webm"))), "holiday.webm");
    // chosen name with an extension is kept
    assert_eq!(video_file_name("holiday.mkv", Some(s("x.webm")), None, Some(s("webm"))), "holiday.mkv");
}

#[test]
fn video_names_from_given_path_parts() {
    let n = |x: &str| Some(x.to_string());
    assert_eq!(video_file_name_from("watch", n("/a/b.mp4"), None, n("T"), None, None), "watch");
    assert_eq!(video_file_name_from("watch", n("/a/b.mp4"), n("b.mp4"), n("T"), None, None), "b.mp4");
    assert_eq!(video_file_name_from("mine", None, None, None, n("webm"), n("")), "mine.webm");
    assert_eq!(video_file_name_from("mine.x", None, None, None, n("webm"), n("x")), "mine.x");
}

#[test]
fn friendly_error_applied_twice_stays() {
    for raw in [
        "write failed: No space left on device",
        "fallocate failed",
        "HTTP status 403",
        "Forbidden",
        "got 404",
        "operation timed out",
        "read timeout",
        "connection reset by peer",
        "",
    ] {
        let once = friendly_error(raw);
        assert_eq!(friendly_error(&once), once);
    }
    let long = "x".repeat(300);
    let once = friendly_error(&long);
    assert_eq!(once.chars().count(), 120);
    assert_eq!(friendly_error(&once), once);
}
