//! The download record that the whole backend passes around, its status,
//! and the body of a request to start a download.
use vstd::prelude::*;
use crate::text::{copy_opt, opt_view, str_equal};

verus! {

/// Where a download stands.
#[derive(Clone, Copy, Debug, PartialEq, Eq, Structural)]
pub enum DownloadStatus {
    Queued,
    Downloading,
    Paused,
    Completed,
    Failed,
}

/// The text that stands for a status in the history database.
pub open spec fn status_text(s: DownloadStatus) -> Seq<char> {
    match s {
        DownloadStatus::Queued => "queued"@,
        DownloadStatus::Downloading => "downloading"@,
        DownloadStatus::Paused => "paused"@,
        DownloadStatus::Completed => "completed"@,
        DownloadStatus::Failed => "failed"@,
    }
}

/// The status that a stored text stands for; an unknown text reads as queued.
pub open spec fn status_from_text(t: Seq<char>) -> DownloadStatus {
    if t == "downloading"@ {
        DownloadStatus::Downloading
    } else if t == "paused"@ {
        DownloadStatus::Paused
    } else if t == "completed"@ {
        DownloadStatus::Completed
    } else if t == "failed"@ {
        DownloadStatus::Failed
    } else {
        DownloadStatus::Queued
    }
}

impl DownloadStatus {
    /// The stored text of this status.
    pub fn as_str(&self) -> (r: &'static str)
        ensures
            r@ == status_text(*self),
    {
        match self {
            DownloadStatus::Queued => "queued",
            DownloadStatus::Downloading => "downloading",
            DownloadStatus::Paused => "paused",
            DownloadStatus::Completed => "completed",
            DownloadStatus::Failed => "failed",
        }
    }

    /// The status that a stored text stands for.
    pub fn from_str(t: &str) -> (r: DownloadStatus)
        ensures
            r == status_from_text(t@),
    {
        if str_equal(t, "downloading") {
            DownloadStatus::Downloading
        } else if str_equal(t, "paused") {
            DownloadStatus::Paused
        } else if str_equal(t, "completed") {
            DownloadStatus::Completed
        } else if str_equal(t, "failed") {
            DownloadStatus::Failed
        } else {
            DownloadStatus::Queued
        }
    }
}

/// Reading back the stored text of a status gives that status.
pub proof fn lemma_status_text_round_trip(s: DownloadStatus)
    ensures
        status_from_text(status_text(s)) == s,
{
    reveal_strlit("queued");
    reveal_strlit("downloading");
    reveal_strlit("paused");
    reveal_strlit("completed");
    reveal_strlit("failed");
    match s {
        DownloadStatus::Queued => {
            assert("queued"@[0] != "downloading"@[0]);
            assert("queued"@[0] != "paused"@[0]);
            assert("queued"@[0] != "completed"@[0]);
            assert("queued"@[0] != "failed"@[0]);
        },
        DownloadStatus::Downloading => {},
        DownloadStatus::Paused => {
            assert("paused"@[0] != "downloading"@[0]);
        },
        DownloadStatus::Completed => {
            assert("completed"@[0] != "downloading"@[0]);
            assert("completed"@[0] != "paused"@[0]);
        },
        DownloadStatus::Failed => {
            assert("failed"@[0] != "downloading"@[0]);
            assert("failed"@[0] != "paused"@[0]);
            assert("failed"@[0] != "completed"@[0]);
        },
    }
}

/// One download: where it comes from, where it goes, and how far it got.
#[derive(Clone, Debug, PartialEq, Eq)]
pub struct DownloadTask {
    pub id: String,
    pub url: String,
    pub file_name: String,
    pub save_path: String,
    pub downloaded_bytes: u64,
    pub total_bytes: u64,
    pub speed: u64,
    pub status: DownloadStatus,
    pub created_at: i64,
    pub format_id: Option<String>,
    pub error_message: Option<String>,
}

/// A download record with its strings taken as character sequences.
pub struct TaskView {
    pub id: Seq<char>,
    pub url: Seq<char>,
    pub file_name: Seq<char>,
    pub save_path: Seq<char>,
    pub downloaded_bytes: u64,
    pub total_bytes: u64,
    pub speed: u64,
    pub status: DownloadStatus,
    pub created_at: i64,
    pub format_id: Option<Seq<char>>,
    pub error_message: Option<Seq<char>>,
}

impl View for DownloadTask {
    type V = TaskView;

    open spec fn view(&self) -> TaskView {
        TaskView {
            id: self.id@,
            url: self.url@,
            file_name: self.file_name@,
            save_path: self.save_path@,
            downloaded_bytes: self.downloaded_bytes,
            total_bytes: self.total_bytes,
            speed: self.speed,
            status: self.status,
            created_at: self.created_at,
            format_id: opt_view(self.format_id),
            error_message: opt_view(self.error_message),
        }
    }
}

impl DownloadTask {
    /// Sets the status of this download.
    pub fn set_status(&mut self, s: DownloadStatus)
        ensures
            final(self)@ == (TaskView { status: s, ..old(self)@ }),
    {
        self.status = s;
    }

    /// Whether nothing of this download has been fetched yet.
    pub fn is_new(&self) -> (b: bool)
        ensures
            b == (self.downloaded_bytes == 0),
    {
        self.downloaded_bytes == 0
    }

    /// Whether this download is paused.
    pub fn is_paused(&self) -> (b: bool)
        ensures
            b == (self.status == DownloadStatus::Paused),
    {
        self.status == DownloadStatus::Paused
    }

    /// A copy of this record.
    pub fn duplicate(&self) -> (r: DownloadTask)
        ensures
            r@ == self@,
    {
        DownloadTask {
            id: self.id.clone(),
            url: self.url.clone(),
            file_name: self.file_name.clone(),
            save_path: self.save_path.clone(),
            downloaded_bytes: self.downloaded_bytes,
            total_bytes: self.total_bytes,
            speed: self.speed,
            status: self.status,
            created_at: self.created_at,
            format_id: copy_opt(&self.format_id),
            error_message: copy_opt(&self.error_message),
        }
    }
}

/// The body of a request to start a download.
#[derive(Clone, Debug, PartialEq, Eq)]
pub struct DownloadRequest {
    pub url: String,
    pub save_path: Option<String>,
    pub format_id: Option<String>,
    pub file_name: Option<String>,
}

} // verus!
