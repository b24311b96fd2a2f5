//! Video-site downloads, which yt-dlp fetches: the format asked for, the
//! name and size taken from yt-dlp's report, and the end of the transfer.
use vstd::prelude::*;
use crate::model::{DownloadStatus, DownloadTask, TaskView};
use crate::naming::{video_file_name, video_name};
use crate::platform::{parse_ytdlp_report, ytdlp_report};
use crate::text::opt_view;

verus! {

/// The yt-dlp format used when the user chose none.
pub open spec fn default_format_text() -> Seq<char> {
    "bestvideo[ext=mp4]+bestaudio[ext=m4a]/best[ext=mp4]/best"@
}

/// The yt-dlp format of a download: the one chosen, else the best MP4.
pub fn video_format(format_id: Option<String>) -> (r: String)
    ensures
        r@ == match opt_view(format_id) {
            Some(f) => f,
            None => default_format_text(),
        },
{
    match format_id {
        Some(f) => f,
        None => String::from_str("bestvideo[ext=mp4]+bestaudio[ext=m4a]/best[ext=mp4]/best"),
    }
}

/// What yt-dlp reports of a video before fetching it.
#[derive(Clone, Debug, PartialEq, Eq)]
pub struct VideoMetadata {
    /// The file name yt-dlp predicts (`_filename`).
    pub filename: Option<String>,
    /// The video's title.
    pub title: Option<String>,
    /// The file extension of the chosen format.
    pub ext: Option<String>,
    /// The exact file size.
    pub filesize: Option<u64>,
    /// The approximate file size.
    pub filesize_approx: Option<u64>,
}

/// A yt-dlp report with its texts as character sequences.
pub struct VideoMetadataView {
    pub filename: Option<Seq<char>>,
    pub title: Option<Seq<char>>,
    pub ext: Option<Seq<char>>,
    pub filesize: Option<u64>,
    pub filesize_approx: Option<u64>,
}

impl View for VideoMetadata {
    type V = VideoMetadataView;

    open spec fn view(&self) -> VideoMetadataView {
        VideoMetadataView {
            filename: opt_view(self.filename),
            title: opt_view(self.title),
            ext: opt_view(self.ext),
            filesize: self.filesize,
            filesize_approx: self.filesize_approx,
        }
    }
}

/// The name and size a video download takes from the report `m`, given its
/// current name.
pub open spec fn reported_name_and_size(current: Seq<char>, m: VideoMetadataView) -> (Seq<char>, Option<u64>) {
    (video_name(current, m.filename, m.title, m.ext), reported_size(m.filesize, m.filesize_approx))
}

/// The name and size a video download takes from the report `m`.
pub fn name_and_size_from_report(current: &str, m: VideoMetadata) -> (r: (String, Option<u64>))
    ensures
        (r.0@, r.1) == reported_name_and_size(current@, m@),
{
    let size = match m.filesize {
        Some(n) => Some(n),
        None => m.filesize_approx,
    };
    (video_file_name(current, m.filename, m.title, m.ext), size)
}

/// The name and size a video download takes from yt-dlp's JSON output
/// `json`; `None` when the output is not JSON.
pub fn read_ytdlp_report(current: &str, json: &Vec<u8>) -> (r: Option<(String, Option<u64>)>)
    ensures
        match ytdlp_report(json@) {
            Some(m) => r matches Some(p) && (p.0@, p.1) == reported_name_and_size(current@, m),
            None => r is None,
        },
{
    match parse_ytdlp_report(json) {
        Some(m) => Some(name_and_size_from_report(current, m)),
        None => None,
    }
}

/// The size yt-dlp reports: the exact file size, else the approximate one.
pub open spec fn reported_size(filesize: Option<u64>, filesize_approx: Option<u64>) -> Option<u64> {
    match filesize {
        Some(n) => Some(n),
        None => filesize_approx,
    }
}

/// Takes what yt-dlp reported before the transfer: the final file name and,
/// when it reported one, the size.
pub fn apply_video_report(task: &mut DownloadTask, file_name: String, size: Option<u64>)
    ensures
        final(task)@ == (TaskView {
            file_name: file_name@,
            total_bytes: match size {
                Some(n) => n,
                None => old(task)@.total_bytes,
            },
            ..old(task)@
        }),
{
    task.file_name = file_name;
    if let Some(n) = size {
        task.total_bytes = n;
    }
}

/// Marks a video download as transferring.
pub fn begin_video_transfer(task: &mut DownloadTask)
    ensures
        final(task)@ == (TaskView { status: DownloadStatus::Downloading, ..old(task)@ }),
{
    task.status = DownloadStatus::Downloading;
}

/// Whether a heartbeat with the stored progress is written, `elapsed_ns`
/// nanoseconds after the last one: once more than two seconds have passed.
pub fn heartbeat_due(elapsed_ns: u64) -> (b: bool)
    ensures
        b == (elapsed_ns > 2_000_000_000),
{
    elapsed_ns > 2_000_000_000
}

/// Whether the size of a finished video must be read from the disk: yt-dlp
/// never reported it.
pub fn size_unknown(task: &DownloadTask) -> (b: bool)
    ensures
        b == (task.total_bytes == 0),
{
    task.total_bytes == 0
}

/// Marks a video download complete. Its size, when still unknown, becomes
/// `disk_size` (the size of the file on disk, when that could be read);
/// the downloaded count becomes the size and the speed zero.
pub fn finish_video_download(task: &mut DownloadTask, disk_size: Option<u64>)
    ensures
        ({
            let total = if old(task).total_bytes == 0 && disk_size is Some {
                disk_size.unwrap()
            } else {
                old(task).total_bytes
            };
            final(task)@ == (TaskView {
                status: DownloadStatus::Completed,
                total_bytes: total,
                downloaded_bytes: total,
                speed: 0,
                ..old(task)@
            })
        }),
{
    task.status = DownloadStatus::Completed;
    if task.total_bytes == 0 {
        if let Some(n) = disk_size {
            task.total_bytes = n;
        }
    }
    task.downloaded_bytes = task.total_bytes;
    task.speed = 0;
}

/// The text of the error that ends a video download whose yt-dlp process
/// exited with a failure.
pub open spec fn ytdlp_failed_text() -> Seq<char> {
    "yt-dlp process failed"@
}

/// The end of a video download once its yt-dlp process has exited,
/// `exit_success` telling whether it exited with success: on success the
/// record is marked complete (`finish_video_download`, with `disk_size` for
/// a size yt-dlp never reported); otherwise the download fails with
/// `ytdlp_failed_text` and the record is left as it is.
pub fn close_video_download(task: &mut DownloadTask, exit_success: bool, disk_size: Option<u64>) -> (r:
    Result<(), String>)
    ensures
        !exit_success ==> (r matches Err(m) && m@ == ytdlp_failed_text()),
        !exit_success ==> final(task)@ == old(task)@,
        exit_success ==> r is Ok && ({
            let total = if old(task).total_bytes == 0 && disk_size is Some {
                disk_size.unwrap()
            } else {
                old(task).total_bytes
            };
            final(task)@ == (TaskView {
                status: DownloadStatus::Completed,
                total_bytes: total,
                downloaded_bytes: total,
                speed: 0,
                ..old(task)@
            })
        }),
{
    if exit_success {
        finish_video_download(task, disk_size);
        Ok(())
    } else {
        Err(String::from_str("yt-dlp process failed"))
    }
}

} // verus!
