//! Following a torrent or magnet download in the aria2 engine: each status
//! report from the engine moves the download record one step.
use vstd::prelude::*;
use crate::model::{DownloadStatus, DownloadTask, TaskView};
use crate::platform::{file_name_of_path, path_file_name};
use crate::text::{
    decimal, has_suffix, lemma_decimal_parse_round_trip, opt_view, parse_u64, parse_u64_text,
    str_concat, str_ends_with, str_equal,
};

verus! {

/// The fields of an aria2 `tellStatus` answer that the download follows,
/// each as the text the engine gave, when it gave one.
#[derive(Clone, Debug, PartialEq, Eq)]
pub struct Aria2Status {
    /// `status`.
    pub status: Option<String>,
    /// `completedLength`.
    pub completed_length: Option<String>,
    /// `totalLength`.
    pub total_length: Option<String>,
    /// `downloadSpeed`.
    pub download_speed: Option<String>,
    /// The first entry of `followedBy`, when it is text.
    pub followed_by: Option<String>,
    /// `path` of the first entry of `files`.
    pub first_file_path: Option<String>,
    /// `bittorrent.info.name`.
    pub torrent_name: Option<String>,
}

/// An aria2 status report with its texts as character sequences.
pub struct Aria2StatusView {
    pub status: Option<Seq<char>>,
    pub completed_length: Option<Seq<char>>,
    pub total_length: Option<Seq<char>>,
    pub download_speed: Option<Seq<char>>,
    pub followed_by: Option<Seq<char>>,
    pub first_file_path: Option<Seq<char>>,
    pub torrent_name: Option<Seq<char>>,
}

impl View for Aria2Status {
    type V = Aria2StatusView;

    open spec fn view(&self) -> Aria2StatusView {
        Aria2StatusView {
            status: opt_view(self.status),
            completed_length: opt_view(self.completed_length),
            total_length: opt_view(self.total_length),
            download_speed: opt_view(self.download_speed),
            followed_by: opt_view(self.followed_by),
            first_file_path: opt_view(self.first_file_path),
            torrent_name: opt_view(self.torrent_name),
        }
    }
}

/// What a status report did to the download.
#[derive(Clone, Copy, Debug, PartialEq, Eq, Structural)]
pub enum TorrentStep {
    /// The metadata phase ended; the engine follows the content under a new id.
    FollowUp,
    /// The download is complete.
    Finished,
    /// The engine reported an error.
    Failed,
    /// The download goes on.
    InProgress,
}

/// What a round of following the engine starts with.
#[derive(Clone, Copy, Debug, PartialEq, Eq, Structural)]
pub enum PollAction {
    /// The download was paused: pause it in the engine and stop following.
    PauseEngine,
    /// Ask the engine for the download's status.
    AskStatus,
}

/// What a round of following the engine starts with for `task`: a paused
/// download is paused in the engine, any other is asked about.
pub fn poll_action(task: &DownloadTask) -> (a: PollAction)
    ensures
        a == (if task.status == DownloadStatus::Paused {
            PollAction::PauseEngine
        } else {
            PollAction::AskStatus
        }),
{
    if task.status == DownloadStatus::Paused {
        PollAction::PauseEngine
    } else {
        PollAction::AskStatus
    }
}

/// The text of an engine call that failed with the reply member `error`
/// (given as its JSON text).
pub open spec fn rpc_error_text(error: Seq<char>) -> Seq<char> {
    "Aria2 error: "@ + error
}

/// The outcome of an engine call by its reply's `error` member, given as
/// its JSON text: a reply with one fails with its text, any other succeeds.
pub fn rpc_outcome(error: Option<String>) -> (r: Result<(), String>)
    ensures
        match opt_view(error) {
            Some(e) => r matches Err(m) && m@ == rpc_error_text(e),
            None => r is Ok,
        },
{
    match error {
        Some(e) => Err(str_concat("Aria2 error: ", e.as_str())),
        None => Ok(()),
    }
}

/// A call to the torrent engine's JSON-RPC interface, by what it asks for.
#[derive(Clone, Debug, PartialEq, Eq)]
pub enum EngineCall {
    /// Add the link `uri`, saving into the folder `dir`, seeding for
    /// `seed_time` minutes once the download is complete.
    AddUri { uri: String, dir: String, seed_time: String },
    /// Pause the engine's download `gid`.
    Pause { gid: String },
    /// Ask for the status of the engine's download `gid`.
    TellStatus { gid: String },
}

/// The name of the engine method that `call` invokes.
pub open spec fn engine_method(call: EngineCall) -> Seq<char> {
    match call {
        EngineCall::AddUri { .. } => "aria2.addUri"@,
        EngineCall::Pause { .. } => "aria2.pause"@,
        EngineCall::TellStatus { .. } => "aria2.tellStatus"@,
    }
}

impl EngineCall {
    /// The name of the engine method that the call invokes.
    pub fn method(&self) -> (m: String)
        ensures
            m@ == engine_method(*self),
    {
        match self {
            EngineCall::AddUri { .. } => String::from_str("aria2.addUri"),
            EngineCall::Pause { .. } => String::from_str("aria2.pause"),
            EngineCall::TellStatus { .. } => String::from_str("aria2.tellStatus"),
        }
    }
}

/// The call that hands a torrent or magnet download to the engine: its link,
/// saved into the download's folder, with no seeding once it is complete.
pub fn add_uri_call(task: &DownloadTask) -> (c: EngineCall)
    ensures
        c matches EngineCall::AddUri { uri, dir, seed_time } && uri@ == task.url@ && dir@
            == task.save_path@ && seed_time@ == "0"@,
{
    EngineCall::AddUri {
        uri: task.url.clone(),
        dir: task.save_path.clone(),
        seed_time: String::from_str("0"),
    }
}

/// The call that pauses the engine's download `gid`.
pub fn pause_call(gid: &String) -> (c: EngineCall)
    ensures
        c matches EngineCall::Pause { gid: g } && g@ == gid@,
{
    EngineCall::Pause { gid: gid.clone() }
}

/// The call that asks for the status of the engine's download `gid`.
pub fn status_call(gid: &String) -> (c: EngineCall)
    ensures
        c matches EngineCall::TellStatus { gid: g } && g@ == gid@,
{
    EngineCall::TellStatus { gid: gid.clone() }
}

/// The text of the error when the engine answers an added link with no id.
pub open spec fn no_gid_text() -> Seq<char> {
    "No GID returned from Aria2"@
}

/// The engine's id for an added download, from the reply's result given as
/// a string when it is one: a reply without a string result is an error.
pub fn submitted_gid(result: Option<String>) -> (r: Result<String, String>)
    ensures
        match opt_view(result) {
            Some(g) => r matches Ok(s) && s@ == g,
            None => r matches Err(m) && m@ == no_gid_text(),
        },
{
    match result {
        Some(g) => Ok(g),
        None => Err(String::from_str("No GID returned from Aria2")),
    }
}

/// A number field of the report: its value, or zero when absent or not a number.
pub open spec fn field_number(o: Option<Seq<char>>) -> u64 {
    match o {
        Some(s) => match parse_u64_text(s) {
            Some(n) => n,
            None => 0,
        },
        None => 0,
    }
}

/// The state text of the report, empty when absent.
pub open spec fn state_text(o: Option<Seq<char>>) -> Seq<char> {
    match o {
        Some(s) => s,
        None => Seq::<char>::empty(),
    }
}

/// The name is one of the placeholders a magnet download starts with.
pub open spec fn placeholder_name(name: Seq<char>) -> bool {
    name == "Magnet_Download"@ || name == "Fetching content..."@
}

/// The final component of a path, given as `path_name`, or `current` when
/// it has none.
pub open spec fn name_or(path_name: Option<Seq<char>>, current: Seq<char>) -> Seq<char> {
    match path_name {
        Some(n) => n,
        None => current,
    }
}

/// The final component of the reported file path, when there is one.
pub open spec fn path_name_of(path: Option<Seq<char>>) -> Option<Seq<char>> {
    match path {
        Some(p) => path_file_name(p),
        None => None,
    }
}

/// The name of a completed download, given the final component of its
/// first file's path (`path_name`): that name, unless the path is empty or
/// the name is empty or a control file of the engine.
pub open spec fn finished_name_from(
    current: Seq<char>,
    path: Option<Seq<char>>,
    path_name: Option<Seq<char>>,
) -> Seq<char> {
    match path {
        Some(p) => if p.len() > 0 {
            let f = name_or(path_name, current);
            if f.len() > 0 && !has_suffix(f, ".aria2"@) {
                f
            } else {
                current
            }
        } else {
            current
        },
        None => current,
    }
}

/// The name of a completed download.
pub open spec fn finished_name(current: Seq<char>, path: Option<Seq<char>>) -> Seq<char> {
    finished_name_from(current, path, path_name_of(path))
}

/// The name of a running download, given the final component of its first
/// file's path (`path_name`): that name when the path is a real file's and
/// the name is not empty nor the magnet placeholder; then the torrent's own
/// name while a placeholder remains.
pub open spec fn active_name_from(
    current: Seq<char>,
    path: Option<Seq<char>>,
    path_name: Option<Seq<char>>,
    torrent_name: Option<Seq<char>>,
) -> Seq<char> {
    let from_file = match path {
        Some(p) => if p.len() > 0 && !has_suffix(p, ".aria2"@) {
            let f = name_or(path_name, current);
            if f.len() > 0 && f != "Magnet_Download"@ {
                f
            } else {
                current
            }
        } else {
            current
        },
        None => current,
    };
    if placeholder_name(from_file) {
        match torrent_name {
            Some(n) => if n.len() > 0 {
                n
            } else {
                from_file
            },
            None => from_file,
        }
    } else {
        from_file
    }
}

/// The name of a running download.
pub open spec fn active_name(
    current: Seq<char>,
    path: Option<Seq<char>>,
    torrent_name: Option<Seq<char>>,
) -> Seq<char> {
    active_name_from(current, path, path_name_of(path), torrent_name)
}

/// The record, engine id and step after the report `st` on a download `t`
/// that the engine knows as `gid`.
pub open spec fn torrent_next(t: TaskView, gid: Seq<char>, st: Aria2StatusView) -> (
    TaskView,
    Seq<char>,
    TorrentStep,
) {
    let s = state_text(st.status);
    let total = field_number(st.total_length);
    if s == "complete"@ {
        match st.followed_by {
            Some(next) => (
                TaskView {
                    status: DownloadStatus::Downloading,
                    file_name: if placeholder_name(t.file_name) {
                        "Connecting to peers..."@
                    } else {
                        t.file_name
                    },
                    ..t
                },
                next,
                TorrentStep::FollowUp,
            ),
            None => (
                TaskView {
                    file_name: finished_name(t.file_name, st.first_file_path),
                    status: DownloadStatus::Completed,
                    speed: 0,
                    downloaded_bytes: total,
                    total_bytes: total,
                    ..t
                },
                gid,
                TorrentStep::Finished,
            ),
        }
    } else if s == "error"@ {
        (TaskView { status: DownloadStatus::Failed, ..t }, gid, TorrentStep::Failed)
    } else {
        (
            TaskView {
                downloaded_bytes: field_number(st.completed_length),
                total_bytes: total,
                speed: field_number(st.download_speed),
                status: if s == "active"@ {
                    DownloadStatus::Downloading
                } else {
                    t.status
                },
                file_name: active_name(t.file_name, st.first_file_path, st.torrent_name),
                ..t
            },
            gid,
            TorrentStep::InProgress,
        )
    }
}

/// How a torrent download is named from a report. A finished download
/// takes the name of its first file when that name is real (not empty and
/// not the engine's `.aria2` control file) and keeps its name without a
/// file path. A running download takes the name of its first real file
/// unless that name is a placeholder; while it has only a placeholder name
/// and no file, it takes the torrent's own name when the report gives one.
pub proof fn lemma_torrent_names(current: Seq<char>, path: Seq<char>, file: Seq<char>, torrent: Seq<char>)
    ensures
        path.len() > 0 && path_file_name(path) == Some(file) && file.len() > 0 && !has_suffix(
            file,
            ".aria2"@,
        ) ==> finished_name(current, Some(path)) == file,
        finished_name(current, None) == current,
        path.len() > 0 && !has_suffix(path, ".aria2"@) && path_file_name(path) == Some(file)
            && file.len() > 0 && !placeholder_name(file) ==> active_name(
            current,
            Some(path),
            Some(torrent),
        ) == file,
        placeholder_name(current) && torrent.len() > 0 ==> active_name(current, None, Some(torrent))
            == torrent,
        !placeholder_name(current) ==> active_name(current, None, Some(torrent)) == current,
{
    reveal_strlit("Magnet_Download");
    reveal_strlit("Fetching content...");
}

/// A number field of the report that carries the decimal text of `n` reads
/// as `n`; an absent field reads as zero.
pub proof fn lemma_report_field_reads_decimal(n: u64)
    ensures
        field_number(Some(decimal(n as nat))) == n,
        field_number(None) == 0,
{
    lemma_decimal_parse_round_trip(n);
}

/// A report whose state is neither `complete` nor `error` shows the
/// download's progress: the record takes the reported completed length,
/// total length and download speed, each read as a number; it becomes
/// `Downloading` when the state is `active` and otherwise keeps its status;
/// its id, URL, folder, creation time, format and error stay; the engine id
/// stays; and the step is `InProgress`.
pub proof fn lemma_progress_report_shown(t: TaskView, gid: Seq<char>, st: Aria2StatusView)
    requires
        state_text(st.status) != "complete"@,
        state_text(st.status) != "error"@,
    ensures
        ({
            let (n, g, step) = torrent_next(t, gid, st);
            &&& n.downloaded_bytes == field_number(st.completed_length)
            &&& n.total_bytes == field_number(st.total_length)
            &&& n.speed == field_number(st.download_speed)
            &&& n.status == (if st.status == Some("active"@) {
                DownloadStatus::Downloading
            } else {
                t.status
            })
            &&& n.id == t.id && n.url == t.url && n.save_path == t.save_path
            &&& n.created_at == t.created_at && n.format_id == t.format_id
            &&& n.error_message == t.error_message
            &&& g == gid
            &&& step == TorrentStep::InProgress
        }),
{
    reveal_strlit("active");
    assert("active"@.len() == 6);
}

/// A report in state `complete` with no follow-up download finishes the
/// download: it is `Completed`, with the reported total length as both its
/// size and its downloaded count, and no speed; the engine id stays and the
/// step is `Finished`.
pub proof fn lemma_complete_report_finishes(t: TaskView, gid: Seq<char>, st: Aria2StatusView)
    requires
        st.status == Some("complete"@),
        st.followed_by is None,
    ensures
        ({
            let (n, g, step) = torrent_next(t, gid, st);
            &&& n.status == DownloadStatus::Completed
            &&& n.downloaded_bytes == field_number(st.total_length)
            &&& n.total_bytes == field_number(st.total_length)
            &&& n.speed == 0
            &&& n.id == t.id && n.url == t.url && n.save_path == t.save_path
            &&& g == gid
            &&& step == TorrentStep::Finished
        }),
{
}

/// A report in state `complete` that names a follow-up download (the
/// content after a magnet link's metadata) moves to that download: the
/// engine id becomes the follow-up's, the record is `Downloading` with its
/// counts unchanged, and the step is `FollowUp`.
pub proof fn lemma_follow_up_switches_id(t: TaskView, gid: Seq<char>, st: Aria2StatusView)
    requires
        st.status == Some("complete"@),
        st.followed_by is Some,
    ensures
        ({
            let (n, g, step) = torrent_next(t, gid, st);
            &&& g == st.followed_by.unwrap()
            &&& n.status == DownloadStatus::Downloading
            &&& n.downloaded_bytes == t.downloaded_bytes && n.total_bytes == t.total_bytes
            &&& n.speed == t.speed
            &&& step == TorrentStep::FollowUp
        }),
{
}

/// A report in state `error` fails the download and changes nothing else:
/// the record differs from the old one only in its `Failed` status, and the
/// engine id stays.
pub proof fn lemma_error_report_fails(t: TaskView, gid: Seq<char>, st: Aria2StatusView)
    requires
        st.status == Some("error"@),
    ensures
        ({
            let (n, g, step) = torrent_next(t, gid, st);
            &&& n == TaskView { status: DownloadStatus::Failed, ..t }
            &&& g == gid
            &&& step == TorrentStep::Failed
        }),
{
    reveal_strlit("complete");
    reveal_strlit("error");
    assert("error"@.len() != "complete"@.len());
}

/// A number field of the report.
pub fn report_number(o: &Option<String>) -> (n: u64)
    ensures
        n == field_number(opt_view(*o)),
{
    match o {
        Some(s) => match parse_u64(s.as_str()) {
            Some(n) => n,
            None => 0,
        },
        None => 0,
    }
}

/// Whether `name` is one of the magnet placeholders.
pub fn is_placeholder_name(name: &str) -> (b: bool)
    ensures
        b == placeholder_name(name@),
{
    str_equal(name, "Magnet_Download") || str_equal(name, "Fetching content...")
}

/// The final component of the reported path, when there is one.
fn path_name(path: &Option<String>) -> (r: Option<String>)
    ensures
        opt_view(r) == path_name_of(opt_view(*path)),
{
    match path {
        Some(p) => file_name_of_path(p.as_str()),
        None => None,
    }
}

/// The final component given as `path_name`, or `current`.
fn name_or_current(path_name: Option<String>, current: &String) -> (r: String)
    ensures
        r@ == name_or(opt_view(path_name), current@),
{
    match path_name {
        Some(n) => n,
        None => current.clone(),
    }
}

/// The name of a completed download, given the final component of its
/// first file's path.
pub fn finished_file_name_from(current: &String, path: &Option<String>, path_name: Option<String>) -> (r: String)
    ensures
        r@ == finished_name_from(current@, opt_view(*path), opt_view(path_name)),
{
    match path {
        Some(p) => {
            if p.as_str().unicode_len() > 0 {
                let f = name_or_current(path_name, current);
                if f.as_str().unicode_len() > 0 && !str_ends_with(f.as_str(), ".aria2") {
                    f
                } else {
                    current.clone()
                }
            } else {
                current.clone()
            }
        },
        None => current.clone(),
    }
}

/// The name of a completed download.
pub fn finished_file_name(current: &String, path: &Option<String>) -> (r: String)
    ensures
        r@ == finished_name(current@, opt_view(*path)),
{
    finished_file_name_from(current, path, path_name(path))
}

/// The name of a running download, given the final component of its first
/// file's path.
pub fn active_file_name_from(
    current: &String,
    path: &Option<String>,
    path_name: Option<String>,
    torrent_name: &Option<String>,
) -> (r: String)
    ensures
        r@ == active_name_from(current@, opt_view(*path), opt_view(path_name), opt_view(*torrent_name)),
{
    let from_file = match path {
        Some(p) => {
            if p.as_str().unicode_len() > 0 && !str_ends_with(p.as_str(), ".aria2") {
                let f = name_or_current(path_name, current);
                if f.as_str().unicode_len() > 0 && !str_equal(f.as_str(), "Magnet_Download") {
                    f
                } else {
                    current.clone()
                }
            } else {
                current.clone()
            }
        },
        None => current.clone(),
    };
    if is_placeholder_name(from_file.as_str()) {
        match torrent_name {
            Some(n) => {
                if n.as_str().unicode_len() > 0 {
                    n.clone()
                } else {
                    from_file
                }
            },
            None => from_file,
        }
    } else {
        from_file
    }
}

/// The name of a running download.
pub fn active_file_name(
    current: &String,
    path: &Option<String>,
    torrent_name: &Option<String>,
) -> (r: String)
    ensures
        r@ == active_name(current@, opt_view(*path), opt_view(*torrent_name)),
{
    active_file_name_from(current, path, path_name(path), torrent_name)
}

/// Moves the download `task`, which the engine knows as `gid`, one step on
/// the engine's report `st`.
pub fn torrent_step(task: &mut DownloadTask, gid: &mut String, st: &Aria2Status) -> (step: TorrentStep)
    ensures
        (final(task)@, final(gid)@, step) == torrent_next(old(task)@, old(gid)@, st@),
{
    let state = match &st.status {
        Some(s) => s.clone(),
        None => String::new(),
    };
    let total = report_number(&st.total_length);
    if str_equal(state.as_str(), "complete") {
        match &st.followed_by {
            Some(next) => {
                *gid = next.clone();
                task.status = DownloadStatus::Downloading;
                if is_placeholder_name(task.file_name.as_str()) {
                    task.file_name = String::from_str("Connecting to peers...");
                }
                TorrentStep::FollowUp
            },
            None => {
                task.file_name = finished_file_name(&task.file_name, &st.first_file_path);
                task.status = DownloadStatus::Completed;
                task.speed = 0;
                task.downloaded_bytes = total;
                task.total_bytes = total;
                TorrentStep::Finished
            },
        }
    } else if str_equal(state.as_str(), "error") {
        task.status = DownloadStatus::Failed;
        TorrentStep::Failed
    } else {
        task.downloaded_bytes = report_number(&st.completed_length);
        task.total_bytes = total;
        task.speed = report_number(&st.download_speed);
        if str_equal(state.as_str(), "active") {
            task.status = DownloadStatus::Downloading;
        }
        task.file_name = active_file_name(&task.file_name, &st.first_file_path, &st.torrent_name);
        TorrentStep::InProgress
    }
}

} // verus!
