//! The download manager: the live downloads, keyed by id, and the decisions
//! taken when a download is started, paused, resumed, deleted or listed.
use vstd::prelude::*;
use vstd::hash_map::StringHashMap;
use crate::model::{DownloadStatus, DownloadTask, TaskView};
use crate::naming::{
    choose_file_name, chosen_file_name, default_save_path, friendly_error, friendly_error_text,
    is_torrent_download, save_folder, torrent_download,
};
use crate::platform::{is_random_uuid, lowercase, new_task_id, unix_time_now};
use crate::text::opt_view;

verus! {

// ---------------------------------------------------------------------------
// The model: the live records, keyed by their ids
// ---------------------------------------------------------------------------

/// The views of the records of a map.
pub open spec fn views(m: Map<Seq<char>, DownloadTask>) -> Map<Seq<char>, TaskView> {
    m.map_values(|t: DownloadTask| t@)
}

/// Every record is stored under its own id.
pub open spec fn keyed_by_id(tasks: Map<Seq<char>, TaskView>) -> bool {
    forall|k: Seq<char>| #[trigger] tasks.contains_key(k) ==> tasks[k].id == k
}

/// The record with id `id`.
pub open spec fn lookup(tasks: Map<Seq<char>, TaskView>, id: Seq<char>) -> Option<TaskView> {
    if tasks.contains_key(id) {
        Some(tasks[id])
    } else {
        None
    }
}

/// `t` with the status `s`.
pub open spec fn with_status(t: TaskView, s: DownloadStatus) -> TaskView {
    TaskView { status: s, ..t }
}

/// The records after `t` is stored under its id, replacing any record there.
pub open spec fn inserted(tasks: Map<Seq<char>, TaskView>, t: TaskView) -> Map<Seq<char>, TaskView> {
    tasks.insert(t.id, t)
}

/// The records after the one with id `id` takes the status `s`.
pub open spec fn restatused(tasks: Map<Seq<char>, TaskView>, id: Seq<char>, s: DownloadStatus) -> Map<
    Seq<char>,
    TaskView,
> {
    if tasks.contains_key(id) {
        tasks.insert(id, with_status(tasks[id], s))
    } else {
        tasks
    }
}

/// The records after the one with id `id` is dropped.
pub open spec fn deleted(tasks: Map<Seq<char>, TaskView>, id: Seq<char>) -> Map<Seq<char>, TaskView> {
    tasks.remove(id)
}

/// The view of the manager: its database path and its live records.
pub struct ManagerView {
    pub db_path: Seq<char>,
    pub tasks: Map<Seq<char>, TaskView>,
}

/// Why a request about a download was refused.
#[derive(Clone, Copy, Debug, PartialEq, Eq, Structural)]
pub enum ManagerError {
    /// No live download has the id.
    TaskNotFound,
}

impl ManagerError {
    /// The text of the error.
    pub fn message(&self) -> (r: String)
        ensures
            r@ == "Task not found"@,
    {
        String::from_str("Task not found")
    }
}

/// What a resume request asks of the caller.
#[derive(Clone, Copy, Debug, PartialEq, Eq, Structural)]
pub enum ResumeAction {
    /// The download is neither paused nor failed: nothing to do.
    Unchanged,
    /// The download was set going again: run it, with the torrent engine
    /// when `torrent` holds.
    Restart { torrent: bool },
}

/// A download that has an id, a folder and a proposed name, and waits for a
/// free file name before it is recorded.
#[derive(Clone, Debug, PartialEq, Eq)]
pub struct PendingDownload {
    pub id: String,
    pub url: String,
    pub save_path: String,
    pub file_name: String,
    pub format_id: Option<String>,
}

/// The live downloads, keyed by id, and the path of the history database.
pub struct DownloadManager {
    db_path: String,
    tasks: StringHashMap<DownloadTask>,
}

impl View for DownloadManager {
    type V = ManagerView;

    closed spec fn view(&self) -> ManagerView {
        ManagerView { db_path: self.db_path@, tasks: views(self.tasks@) }
    }
}

/// The record a finished history row shows: a live record of the same id
/// lends its progress, size, status and speed.
pub open spec fn merged_row(row: TaskView, live: Option<TaskView>) -> TaskView {
    match live {
        Some(l) => TaskView {
            downloaded_bytes: l.downloaded_bytes,
            total_bytes: l.total_bytes,
            status: l.status,
            speed: l.speed,
            ..row
        },
        None => row,
    }
}

/// A history row shown with a live record keeps its own id, URL, name,
/// folder, creation time, format and error; only progress, size, status and
/// speed come from the live record.
pub proof fn lemma_merged_row_keeps_stored_fields(row: TaskView, live: Option<TaskView>)
    ensures
        ({
            let m = merged_row(row, live);
            &&& m.id == row.id
            &&& m.url == row.url
            &&& m.file_name == row.file_name
            &&& m.save_path == row.save_path
            &&& m.created_at == row.created_at
            &&& m.format_id == row.format_id
            &&& m.error_message == row.error_message
        }),
{
}

/// The plan for a new download of `url` with id `id`.
pub open spec fn planned(
    url: Seq<char>,
    save_path: Option<Seq<char>>,
    format_id: Option<Seq<char>>,
    custom_name: Option<Seq<char>>,
    home: Option<Seq<char>>,
    id: Seq<char>,
    p: PendingDownload,
) -> bool {
    &&& p.id@ == id
    &&& p.url@ == url
    &&& p.save_path@ == save_folder(save_path, home)
    &&& p.file_name@ == chosen_file_name(url, lowercase(url), custom_name, id)
    &&& opt_view(p.format_id) == format_id
}

/// The plan for a new download of `url` with id `id`: its folder (the one
/// asked for, else `Downloads` under `home`, else `downloads`) and its
/// proposed file name.
pub fn plan_download(
    url: String,
    save_path: Option<String>,
    format_id: Option<String>,
    custom_name: Option<String>,
    home: Option<String>,
    id: String,
) -> (p: PendingDownload)
    ensures
        planned(
            url@,
            opt_view(save_path),
            opt_view(format_id),
            opt_view(custom_name),
            opt_view(home),
            id@,
            p,
        ),
        p.file_name@.len() > 0,
{
    let folder = default_save_path(save_path, home);
    let name = choose_file_name(url.as_str(), &custom_name, id.as_str());
    PendingDownload { id, url, save_path: folder, file_name: name, format_id }
}

/// The record of a queued download planned as `p`, named `file_name`, made
/// at `created_at`.
pub open spec fn queued_record(p: PendingDownload, file_name: Seq<char>, created_at: i64) -> TaskView {
    TaskView {
        id: p.id@,
        url: p.url@,
        file_name,
        save_path: p.save_path@,
        downloaded_bytes: 0,
        total_bytes: 0,
        speed: 0,
        status: DownloadStatus::Queued,
        created_at,
        format_id: opt_view(p.format_id),
        error_message: None,
    }
}

impl PendingDownload {
    /// The queued record of this download under the name `file_name`, made
    /// at `created_at`.
    pub fn queued_task_at(self, file_name: String, created_at: i64) -> (t: DownloadTask)
        ensures
            t@ == queued_record(self, file_name@, created_at),
    {
        DownloadTask {
            id: self.id,
            url: self.url,
            file_name,
            save_path: self.save_path,
            downloaded_bytes: 0,
            total_bytes: 0,
            speed: 0,
            status: DownloadStatus::Queued,
            created_at,
            format_id: self.format_id,
            error_message: None,
        }
    }

    /// The queued record of this download under the name `file_name`, made
    /// now.
    pub fn queued_task(self, file_name: String) -> (t: DownloadTask)
        ensures
            exists|now: i64| t@ == queued_record(self, file_name@, now),
    {
        let now = unix_time_now();
        let ghost p = self;
        let t = self.queued_task_at(file_name, now);
        assert(t@ == queued_record(p, file_name@, now));
        t
    }
}

impl DownloadTask {
    /// Marks this download failed with the readable form of `raw`, and
    /// returns that message.
    pub fn record_failure(&mut self, raw: &str) -> (msg: String)
        ensures
            msg@ == friendly_error_text(raw@),
            final(self)@ == (TaskView {
                status: DownloadStatus::Failed,
                error_message: Some(msg@),
                ..old(self)@
            }),
    {
        let msg = friendly_error(raw);
        self.status = DownloadStatus::Failed;
        self.error_message = Some(msg.clone());
        msg
    }
}

impl DownloadManager {
    #[verifier::type_invariant]
    spec fn well_formed(self) -> bool {
        keyed_by_id(views(self.tasks@))
    }

    /// A manager with no live downloads, keeping its history at `db_path`.
    pub fn new(db_path: String) -> (m: DownloadManager)
        ensures
            m@.db_path == db_path@,
            m@.tasks == Map::<Seq<char>, TaskView>::empty(),
    {
        let tasks = StringHashMap::<DownloadTask>::new();
        assert(views(tasks@) =~= Map::<Seq<char>, TaskView>::empty());
        DownloadManager { db_path, tasks }
    }

    /// The path of the history database.
    pub fn db_path(&self) -> (r: String)
        ensures
            r@ == self@.db_path,
    {
        self.db_path.clone()
    }

    /// Every live record is stored under its own id.
    pub fn keys_are_ids(&self)
        ensures
            keyed_by_id(self@.tasks),
    {
        proof {
            use_type_invariant(self);
        }
    }

    /// A copy of the live record with id `id`.
    pub fn get_task(&self, id: &str) -> (r: Option<DownloadTask>)
        ensures
            match r {
                Some(t) => lookup(self@.tasks, id@) == Some(t@),
                None => lookup(self@.tasks, id@) is None,
            },
    {
        match self.tasks.get(id) {
            Some(t) => Some(t.duplicate()),
            None => None,
        }
    }

    /// Stores `task` under its id, in place of any record there.
    fn store(&mut self, task: DownloadTask)
        ensures
            final(self)@.db_path == old(self)@.db_path,
            final(self)@.tasks == old(self)@.tasks.insert(task@.id, task@),
    {
        proof {
            use_type_invariant(&*self);
        }
        let ghost before = views(self.tasks@);
        let ghost t = task@;
        let key = task.id.clone();
        let mut tasks = StringHashMap::<DownloadTask>::new();
        std::mem::swap(&mut tasks, &mut self.tasks);
        tasks.insert(key, task);
        assert(views(tasks@) =~= before.insert(t.id, t));
        self.tasks = tasks;
    }

    /// Records `task` as live: it replaces the record with its id, or joins
    /// the others when there is none.
    pub fn insert_task(&mut self, task: DownloadTask)
        ensures
            final(self)@.db_path == old(self)@.db_path,
            final(self)@.tasks == inserted(old(self)@.tasks, task@),
            keyed_by_id(final(self)@.tasks),
    {
        self.store(task);
        self.keys_are_ids();
    }

    /// Stores `task` over the live record with its id; does nothing when no
    /// live record has that id. Returns whether it stored it.
    pub fn update_task(&mut self, task: DownloadTask) -> (stored: bool)
        ensures
            final(self)@.db_path == old(self)@.db_path,
            stored == old(self)@.tasks.contains_key(task@.id),
            stored ==> final(self)@.tasks == old(self)@.tasks.insert(task@.id, task@),
            !stored ==> final(self)@.tasks == old(self)@.tasks,
            keyed_by_id(final(self)@.tasks),
    {
        let present = self.tasks.contains_key(task.id.as_str());
        assert(present == self@.tasks.contains_key(task@.id));
        if present {
            self.store(task);
        }
        self.keys_are_ids();
        present
    }

    /// Sets the status of the live record with id `id`, which exists.
    fn set_status_of(&mut self, id: &str, s: DownloadStatus)
        requires
            old(self)@.tasks.contains_key(id@),
        ensures
            final(self)@.db_path == old(self)@.db_path,
            final(self)@.tasks == restatused(old(self)@.tasks, id@, s),
    {
        proof {
            use_type_invariant(&*self);
        }
        let current = self.tasks.get(id);
        match current {
            Some(t) => {
                let mut t = t.duplicate();
                t.status = s;
                assert(t@ == with_status(old(self)@.tasks[id@], s));
                self.store(t);
            },
            None => {},
        }
    }

    /// Pauses the live download `id`: its status becomes paused. Fails when
    /// no live download has that id.
    pub fn pause_download(&mut self, id: &str) -> (r: Result<(), ManagerError>)
        ensures
            final(self)@.db_path == old(self)@.db_path,
            match lookup(old(self)@.tasks, id@) {
                Some(t) => r is Ok && final(self)@.tasks == old(self)@.tasks.insert(
                    id@,
                    with_status(t, DownloadStatus::Paused),
                ),
                None => r == Err::<(), ManagerError>(ManagerError::TaskNotFound) && final(self)@
                    == old(self)@,
            },
            final(self)@.tasks == restatused(old(self)@.tasks, id@, DownloadStatus::Paused),
    {
        if self.tasks.contains_key(id) {
            self.set_status_of(id, DownloadStatus::Paused);
            Ok(())
        } else {
            Err(ManagerError::TaskNotFound)
        }
    }

    /// Resumes the live download `id`. A paused or failed download is set
    /// downloading and is to be run again, by the torrent engine when its
    /// URL or format says torrent; any other leaves everything as it is.
    /// Fails when no live download has that id.
    pub fn resume_download(&mut self, id: &str) -> (r: Result<ResumeAction, ManagerError>)
        ensures
            final(self)@.db_path == old(self)@.db_path,
            match lookup(old(self)@.tasks, id@) {
                Some(t) => {
                    if t.status == DownloadStatus::Paused || t.status == DownloadStatus::Failed {
                        &&& r == Ok::<ResumeAction, ManagerError>(
                            ResumeAction::Restart {
                                torrent: torrent_download(lowercase(t.url), t.format_id),
                            },
                        )
                        &&& final(self)@.tasks == old(self)@.tasks.insert(
                            id@,
                            with_status(t, DownloadStatus::Downloading),
                        )
                    } else {
                        &&& r == Ok::<ResumeAction, ManagerError>(ResumeAction::Unchanged)
                        &&& final(self)@ == old(self)@
                    }
                },
                None => r == Err::<ResumeAction, ManagerError>(ManagerError::TaskNotFound)
                    && final(self)@ == old(self)@,
            },
            r matches Ok(ResumeAction::Restart { .. }) ==> final(self)@.tasks == restatused(
                old(self)@.tasks,
                id@,
                DownloadStatus::Downloading,
            ),
    {
        let (status, torrent) = match self.tasks.get(id) {
            Some(t) => (t.status, is_torrent_download(t.url.as_str(), &t.format_id)),
            None => return Err(ManagerError::TaskNotFound),
        };
        if status != DownloadStatus::Paused && status != DownloadStatus::Failed {
            return Ok(ResumeAction::Unchanged);
        }
        self.set_status_of(id, DownloadStatus::Downloading);
        Ok(ResumeAction::Restart { torrent })
    }

    /// Forgets the live download `id`, if there is one.
    pub fn delete_download(&mut self, id: &str)
        ensures
            final(self)@.db_path == old(self)@.db_path,
            final(self)@.tasks == deleted(old(self)@.tasks, id@),
            lookup(final(self)@.tasks, id@) is None,
            keyed_by_id(final(self)@.tasks),
    {
        proof {
            use_type_invariant(&*self);
        }
        let ghost before = views(self.tasks@);
        let mut tasks = StringHashMap::<DownloadTask>::new();
        std::mem::swap(&mut tasks, &mut self.tasks);
        tasks.remove(id);
        assert(views(tasks@) =~= before.remove(id@));
        self.tasks = tasks;
        self.keys_are_ids();
    }

    /// Starts a download of `url`: gives it a fresh random id and plans its
    /// folder and name (`home` is the user's home folder, when known).
    pub fn start_download(
        &self,
        url: String,
        save_path: Option<String>,
        format_id: Option<String>,
        custom_name: Option<String>,
        home: Option<String>,
    ) -> (p: PendingDownload)
        ensures
            is_random_uuid(p.id@),
            planned(
                url@,
                opt_view(save_path),
                opt_view(format_id),
                opt_view(custom_name),
                opt_view(home),
                p.id@,
                p,
            ),
            p.file_name@.len() > 0,
    {
        let id = new_task_id();
        plan_download(url, save_path, format_id, custom_name, home, id)
    }

    /// The history rows, each showing the progress, size, status and speed
    /// of the live download with its id, where there is one.
    pub fn get_all_tasks(&self, history: Vec<DownloadTask>) -> (r: Vec<DownloadTask>)
        ensures
            r@.len() == history@.len(),
            forall|k: int|
                0 <= k < history@.len() ==> (#[trigger] r@[k])@ == merged_row(
                    history@[k]@,
                    lookup(self@.tasks, history@[k]@.id),
                ),
    {
        let mut r: Vec<DownloadTask> = Vec::new();
        let mut k: usize = 0;
        while k < history.len()
            invariant
                k <= history.len(),
                r@.len() == k,
                forall|j: int|
                    0 <= j < k ==> (#[trigger] r@[j])@ == merged_row(
                        history@[j]@,
                        lookup(self@.tasks, history@[j]@.id),
                    ),
            decreases history.len() - k,
        {
            let mut row = history[k].duplicate();
            match self.tasks.get(row.id.as_str()) {
                Some(live) => {
                    row.downloaded_bytes = live.downloaded_bytes;
                    row.total_bytes = live.total_bytes;
                    row.status = live.status;
                    row.speed = live.speed;
                },
                None => {},
            }
            r.push(row);
            k = k + 1;
        }
        r
    }
}

// ---------------------------------------------------------------------------
// Laws of the live records
// ---------------------------------------------------------------------------

/// Looking up an id in records stored under their ids gives a record with
/// that id.
pub proof fn lemma_lookup_has_id(tasks: Map<Seq<char>, TaskView>, id: Seq<char>)
    requires
        keyed_by_id(tasks),
    ensures
        lookup(tasks, id) matches Some(t) ==> t.id == id,
{
}

/// Reading back after a store: the stored record is found under its id,
/// every other id finds what it found before, and records stay under their
/// own ids.
pub proof fn lemma_lookup_after_insert(tasks: Map<Seq<char>, TaskView>, t: TaskView, other: Seq<char>)
    requires
        keyed_by_id(tasks),
    ensures
        keyed_by_id(inserted(tasks, t)),
        lookup(inserted(tasks, t), t.id) == Some(t),
        other != t.id ==> lookup(inserted(tasks, t), other) == lookup(tasks, other),
{
}

/// A status change touches only its own record: the record with id `id`
/// takes status `s` and keeps all else, every other id finds what it found
/// before, and records stay under their own ids.
pub proof fn lemma_lookup_after_status_change(
    tasks: Map<Seq<char>, TaskView>,
    id: Seq<char>,
    s: DownloadStatus,
    other: Seq<char>,
)
    requires
        keyed_by_id(tasks),
    ensures
        keyed_by_id(restatused(tasks, id, s)),
        lookup(restatused(tasks, id, s), id) == match lookup(tasks, id) {
            Some(t) => Some(with_status(t, s)),
            None => None,
        },
        other != id ==> lookup(restatused(tasks, id, s), other) == lookup(tasks, other),
{
}

/// After a delete the id is gone, every other id finds what it found
/// before, and records stay under their own ids.
pub proof fn lemma_lookup_after_delete(tasks: Map<Seq<char>, TaskView>, id: Seq<char>, other: Seq<char>)
    requires
        keyed_by_id(tasks),
    ensures
        keyed_by_id(deleted(tasks, id)),
        lookup(deleted(tasks, id), id) is None,
        other != id ==> lookup(deleted(tasks, id), other) == lookup(tasks, other),
{
}

/// Pausing and then resuming a live download leaves it downloading, with
/// everything else about it as it was.
pub proof fn lemma_pause_then_resume(tasks: Map<Seq<char>, TaskView>, id: Seq<char>)
    requires
        tasks.contains_key(id),
    ensures
        lookup(restatused(restatused(tasks, id, DownloadStatus::Paused), id, DownloadStatus::Downloading), id)
            == Some(with_status(tasks[id], DownloadStatus::Downloading)),
{
    let t = tasks[id];
    assert(with_status(with_status(t, DownloadStatus::Paused), DownloadStatus::Downloading) == with_status(
        t,
        DownloadStatus::Downloading,
    ));
}

} // verus!
