//! Direct HTTP downloads: how the file size is learnt, how a large file is
//! cut into byte ranges fetched side by side, and how progress is counted.
use vstd::prelude::*;
use crate::model::{DownloadStatus, DownloadTask, TaskView};
use crate::text::{
    after_last, chars_after_last, chars_of, decimal, is_digit, lemma_after_last_of_join,
    lemma_decimal_digits, lemma_decimal_parse_round_trip, opt_view, parse_u64_chars, parse_u64_text,
    str_concat, str_equal, u64_text,
};

verus! {

/// The number of parts a large file is cut into.
pub const NUM_SEGMENTS: u64 = 8;

/// Files above this size (5 MiB) are fetched in parts, when the server
/// serves byte ranges.
pub const SEGMENT_THRESHOLD: u64 = 5242880;

/// What the probes learnt of the file: its size (zero when unknown) and
/// whether the server serves byte ranges.
#[derive(Clone, Copy, Debug, PartialEq, Eq, Structural)]
pub struct SizeProbe {
    pub total: u64,
    pub accept_ranges: bool,
}

/// Whether a server's answer with status `code` carries the file: a 2xx
/// success status.
pub fn transfer_accepted(code: u16) -> (b: bool)
    ensures
        b == (200 <= code && code < 300),
{
    200 <= code && code < 300
}

/// Whether a range request was answered with part of the file (status 206).
pub fn partial_content(code: u16) -> (b: bool)
    ensures
        b == (code == 206),
{
    code == 206
}

/// What a `HEAD` answer tells: its `Content-Length` (or zero), and whether
/// its `Accept-Ranges` header says `bytes`.
pub open spec fn probe_from_head(content_length: Option<u64>, accept_ranges: Option<Seq<char>>) -> SizeProbe {
    SizeProbe {
        total: match content_length {
            Some(n) => n,
            None => 0,
        },
        accept_ranges: accept_ranges == Some("bytes"@),
    }
}

/// A `HEAD` answer lets the file be fetched in byte ranges exactly when its
/// `Accept-Ranges` header is present and says `bytes`: a missing header, or
/// any other value, means the file is fetched whole. The size is the
/// `Content-Length`, or zero without one.
pub proof fn lemma_head_probe_ranges(content_length: Option<u64>, accept_ranges: Option<Seq<char>>)
    ensures
        probe_from_head(content_length, accept_ranges).accept_ranges <==> accept_ranges == Some(
            "bytes"@,
        ),
        accept_ranges is None ==> !probe_from_head(content_length, accept_ranges).accept_ranges,
        content_length matches Some(n) ==> probe_from_head(content_length, accept_ranges).total
            == n,
        content_length is None ==> probe_from_head(content_length, accept_ranges).total == 0,
{
}

/// What a `HEAD` answer tells.
pub fn head_probe(content_length: Option<u64>, accept_ranges: Option<String>) -> (p: SizeProbe)
    ensures
        p == probe_from_head(content_length, opt_view(accept_ranges)),
{
    let total = match content_length {
        Some(n) => n,
        None => 0,
    };
    let ranges = match &accept_ranges {
        Some(v) => str_equal(v.as_str(), "bytes"),
        None => false,
    };
    SizeProbe { total, accept_ranges: ranges }
}

/// The total size that a `Content-Range` header gives: the number after
/// its last `/`, or zero.
pub open spec fn content_range_total(header: Seq<char>) -> u64 {
    match parse_u64_text(after_last(header, '/')) {
        Some(n) => n,
        None => 0,
    }
}

/// The total size that a `Content-Range` header gives.
pub fn total_from_content_range(header: &str) -> (n: u64)
    ensures
        n == content_range_total(header@),
{
    let tail = chars_after_last(&chars_of(header), '/');
    match parse_u64_chars(&tail) {
        Some(n) => n,
        None => 0,
    }
}

/// A probe after a one-byte range request: a partial-content answer shows
/// that ranges are served, and its `Content-Range` header gives the size.
pub open spec fn probe_after_range(p: SizeProbe, partial: bool, content_range: Option<Seq<char>>) -> SizeProbe {
    if partial {
        SizeProbe {
            total: match content_range {
                Some(h) => content_range_total(h),
                None => p.total,
            },
            accept_ranges: true,
        }
    } else {
        p
    }
}

/// A range request answered with part of the file shows that ranges are
/// served, and a `Content-Range` header that ends in `/` and the decimal
/// size `n` (such as `bytes 0-0/n`) gives the size `n`; without the header
/// the size stays. An answer that is not partial changes nothing.
pub proof fn lemma_range_probe(p: SizeProbe, head: Seq<char>, n: u64, content_range: Option<Seq<char>>)
    ensures
        probe_after_range(p, true, Some(head + seq!['/'] + decimal(n as nat))) == (SizeProbe {
            total: n,
            accept_ranges: true,
        }),
        probe_after_range(p, true, None) == (SizeProbe { total: p.total, accept_ranges: true }),
        probe_after_range(p, false, content_range) == p,
{
    let d = decimal(n as nat);
    lemma_decimal_digits(n as nat);
    assert forall|k: int| 0 <= k < d.len() implies d[k] != '/' by {
        assert(is_digit(d[k]));
    }
    lemma_after_last_of_join(head, '/', d);
    lemma_decimal_parse_round_trip(n);
}

impl SizeProbe {
    /// Whether the size is still unknown, so that a range request is tried.
    pub fn needs_range_probe(&self) -> (b: bool)
        ensures
            b == (self.total == 0),
    {
        self.total == 0
    }

    /// The probe after a one-byte range request answered with a partial
    /// content status or not, and with the given `Content-Range` header.
    pub fn after_range_probe(self, partial: bool, content_range: Option<String>) -> (p: SizeProbe)
        ensures
            p == probe_after_range(self, partial, opt_view(content_range)),
    {
        if partial {
            let total = match &content_range {
                Some(h) => total_from_content_range(h.as_str()),
                None => self.total,
            };
            SizeProbe { total, accept_ranges: true }
        } else {
            self
        }
    }

    /// Whether the file is laid out on disk at its full size before the
    /// transfer: its size is known.
    pub fn preallocate(&self) -> (b: bool)
        ensures
            b == (self.total > 0),
    {
        self.total > 0
    }

    /// Whether the file is fetched in parts: the server serves ranges and
    /// the file is above the threshold.
    pub fn segmented(&self) -> (b: bool)
        ensures
            b == (self.accept_ranges && self.total > SEGMENT_THRESHOLD),
    {
        self.accept_ranges && self.total > SEGMENT_THRESHOLD
    }
}

/// The size of each part of a file of `total` bytes: a whole eighth, rounded up.
pub open spec fn chunk_size(total: nat) -> nat {
    ((total + 7) / 8) as nat
}

/// The first byte of part `k`.
pub open spec fn segment_start(total: nat, k: nat) -> nat {
    k * chunk_size(total)
}

/// The last byte of part `k`.
pub open spec fn segment_end(total: nat, k: nat) -> nat {
    let e = (k + 1) * chunk_size(total) - 1;
    if e < total - 1 {
        e as nat
    } else {
        (total - 1) as nat
    }
}

proof fn lemma_segment_end_inner(total: nat, k: nat)
    requires
        (k + 1) * chunk_size(total) < total,
        chunk_size(total) >= 1,
    ensures
        segment_end(total, k) == (k + 1) * chunk_size(total) - 1,
{
    let c = chunk_size(total);
    assert((k + 1) * c >= 1) by (nonlinear_arith)
        requires c >= 1;
}

/// The byte ranges of a file of `total` bytes, each given by its first and
/// last byte: part `k` runs from `k` chunks on, up to the next part or the
/// end of the file; parts that would start past the end are dropped. The
/// parts cover the file: the first starts at byte 0, each starts right
/// after the one before it ends, none is empty, and the last ends on the
/// file's last byte. The chunk is computed as `(total + NUM_SEGMENTS - 1) /
/// NUM_SEGMENTS`, whose first sum must fit in a `u64`: hence the bound on
/// `total`.
pub fn plan_segments(total: u64) -> (r: Vec<(u64, u64)>)
    requires
        total > 0,
        total <= u64::MAX - NUM_SEGMENTS,
    ensures
        1 <= r@.len() <= NUM_SEGMENTS,
        forall|k: int|
            0 <= k < r@.len() ==> (#[trigger] r@[k]).0 == segment_start(total as nat, k as nat)
                && r@[k].1 == segment_end(total as nat, k as nat),
        r@.len() == NUM_SEGMENTS || r@.len() * chunk_size(total as nat) >= total,
        r@[0].0 == 0,
        r@[r@.len() - 1].1 == total - 1,
        forall|k: int| 0 <= k < r@.len() ==> (#[trigger] r@[k]).0 <= r@[k].1,
        forall|k: int| 0 <= k < r@.len() - 1 ==> (#[trigger] r@[k + 1]).0 == r@[k].1 + 1,
{
    let chunk: u64 = (total + NUM_SEGMENTS - 1) / NUM_SEGMENTS;
    let ghost c = chunk_size(total as nat);
    assert(chunk == c);
    assert(chunk >= 1);
    assert(8 * c <= total + 7) by (nonlinear_arith)
        requires c == (total + 7) / 8;
    assert(8 * c >= total) by (nonlinear_arith)
        requires c == (total + 7) / 8;
    let mut r: Vec<(u64, u64)> = Vec::new();
    let mut i: u64 = 0;
    let mut start: u64 = 0;
    while i < NUM_SEGMENTS && start < total
        invariant
            chunk == c,
            c >= 1,
            8 * c <= total + 7,
            8 * c >= total,
            total <= u64::MAX - 7,
            i <= 8,
            start == i * c,
            r@.len() == i,
            forall|k: int|
                0 <= k < i ==> (#[trigger] r@[k]).0 == segment_start(total as nat, k as nat)
                    && r@[k].1 == segment_end(total as nat, k as nat),
            forall|k: int| 0 <= k < i ==> (#[trigger] segment_start(total as nat, k as nat)) < total,
        decreases 8 - i,
    {
        assert((i + 1) * c == i * c + c) by (nonlinear_arith);
        assert(i * c + c <= 8 * c) by (nonlinear_arith)
            requires i < 8;
        let next = start + chunk;
        let end = if next - 1 < total - 1 { next - 1 } else { total - 1 };
        r.push((start, end));
        assert(segment_start(total as nat, i as nat) == start);
        i = i + 1;
        start = next;
    }
    proof {
        assert(r@.len() >= 1) by {
            if i == 0 {
                assert(start == 0);
            }
        }
        if i < 8 {
            assert(start >= total);
        }
        assert forall|k: int| 0 <= k < r@.len() implies (#[trigger] r@[k]).0 <= r@[k].1 by {
            assert(segment_start(total as nat, k as nat) < total);
            assert((k + 1) * c == k * c + c) by (nonlinear_arith);
        }
        assert forall|k: int| 0 <= k < r@.len() - 1 implies (#[trigger] r@[k + 1]).0 == r@[k].1 + 1 by {
            let k1 = k + 1;
            assert(r@[k1].0 == segment_start(total as nat, k1 as nat));
            assert(segment_start(total as nat, k1 as nat) < total);
            assert(segment_start(total as nat, k1 as nat) == (k + 1) * c);
            assert(r@[k].1 == segment_end(total as nat, k as nat));
            let kn = k as nat;
            assert(kn + 1 == k1);
            assert((kn + 1) * c == k1 * c);
            assert((kn + 1) * c - 1 < total - 1);
            lemma_segment_end_inner(total as nat, kn);
        }
        let last = (r@.len() - 1) as int;
        assert(r@.len() * c >= total) by {
            if i == 8 {
                assert(8 * c >= total);
            }
        }
        assert((last + 1) * c == r@.len() * c);
    }
    r
}

/// The `Range` header asking for bytes `start` to `end`.
pub open spec fn range_text(start: u64, end: u64) -> Seq<char> {
    "bytes="@ + decimal(start as nat) + "-"@ + decimal(end as nat)
}

/// The `Range` header asking for bytes `start` to `end` (`bytes=start-end`).
pub fn range_header(start: u64, end: u64) -> (r: String)
    ensures
        r@ == range_text(start, end),
{
    let a = str_concat("bytes=", u64_text(start).as_str());
    let b = str_concat(a.as_str(), "-");
    str_concat(b.as_str(), u64_text(end).as_str())
}

/// Whether the speed is read again, `elapsed_ns` nanoseconds after the last
/// reading: once a full second has passed.
pub fn speed_reading_due(elapsed_ns: u64) -> (b: bool)
    ensures
        b == (elapsed_ns >= 1_000_000_000),
{
    elapsed_ns >= 1_000_000_000
}

/// Whether progress is written to the history, `elapsed_ns` nanoseconds
/// after the last write: once two full seconds have passed.
pub fn progress_save_due(elapsed_ns: u64) -> (b: bool)
    ensures
        b == (elapsed_ns >= 2_000_000_000),
{
    elapsed_ns >= 2_000_000_000
}

/// The progress counters of a running direct download: the byte count at
/// the last speed reading.
#[derive(Clone, Copy, Debug, PartialEq, Eq, Structural)]
pub struct SpeedMeter {
    pub last_bytes: u64,
}

/// The record after a progress reading of `downloaded` bytes, where
/// `speed_due` says that a second has passed since the last speed reading.
pub open spec fn progress_record(t: TaskView, last_bytes: u64, downloaded: u64, speed_due: bool) -> TaskView {
    TaskView {
        downloaded_bytes: downloaded,
        speed: if speed_due {
            (if downloaded >= last_bytes {
                downloaded - last_bytes
            } else {
                0
            }) as u64
        } else {
            t.speed
        },
        ..t
    }
}

/// A progress reading stores the byte count read; when a speed reading is
/// due the speed becomes the bytes gained since the last speed reading
/// (none when the count went down), and otherwise it stays; nothing else
/// of the record changes.
pub proof fn lemma_progress_reading(t: TaskView, last_bytes: u64, downloaded: u64, speed_due: bool)
    ensures
        ({
            let r = progress_record(t, last_bytes, downloaded, speed_due);
            &&& r.downloaded_bytes == downloaded
            &&& speed_due && downloaded >= last_bytes ==> r.speed + last_bytes == downloaded
            &&& speed_due && downloaded < last_bytes ==> r.speed == 0
            &&& !speed_due ==> r.speed == t.speed
            &&& r == TaskView { downloaded_bytes: r.downloaded_bytes, speed: r.speed, ..t }
        }),
{
}

impl SpeedMeter {
    /// A meter that has seen no bytes.
    pub fn new() -> (m: SpeedMeter)
        ensures
            m.last_bytes == 0,
    {
        SpeedMeter { last_bytes: 0 }
    }

    /// Takes a progress reading of `downloaded` bytes into `task`. A paused
    /// download is left untouched and the reading reports the pause
    /// (`true`); otherwise the byte count is stored and, when `speed_due`,
    /// the speed becomes the bytes since the last speed reading.
    pub fn tick(&mut self, task: &mut DownloadTask, downloaded: u64, speed_due: bool) -> (paused: bool)
        ensures
            paused == (old(task).status == DownloadStatus::Paused),
            paused ==> final(task)@ == old(task)@ && *final(self) == *old(self),
            !paused ==> final(task)@ == progress_record(old(task)@, old(self).last_bytes, downloaded, speed_due),
            !paused ==> final(self).last_bytes == (if speed_due {
                downloaded
            } else {
                old(self).last_bytes
            }),
    {
        if task.status == DownloadStatus::Paused {
            return true;
        }
        task.downloaded_bytes = downloaded;
        if speed_due {
            task.speed = downloaded.saturating_sub(self.last_bytes);
            self.last_bytes = downloaded;
        }
        false
    }
}

/// Marks a direct download complete with `downloaded` bytes and no speed.
pub fn finish_direct_download(task: &mut DownloadTask, downloaded: u64)
    ensures
        final(task)@ == (TaskView {
            status: DownloadStatus::Completed,
            downloaded_bytes: downloaded,
            speed: 0,
            ..old(task)@
        }),
{
    task.status = DownloadStatus::Completed;
    task.downloaded_bytes = downloaded;
    task.speed = 0;
}

/// The text of the error that ends a direct download one of whose workers
/// failed.
pub open spec fn segments_failed_text() -> Seq<char> {
    "Download failed across one or more segments"@
}

/// What the download does when one of its workers stops, `ended_with_error`
/// telling whether the worker gave up on an error: such a worker fails the
/// download (`failed` stays set from then on) and has all the other workers
/// stopped, which the result asks for; a worker that ended on its own
/// changes nothing.
pub fn worker_stopped(failed: &mut bool, ended_with_error: bool) -> (stop_others: bool)
    ensures
        stop_others == ended_with_error,
        *final(failed) == (*old(failed) || ended_with_error),
{
    if ended_with_error {
        *failed = true;
    }
    ended_with_error
}

/// The end of a direct download once its workers have all stopped: when one
/// of them failed the download fails with `segments_failed_text` and the
/// record is left as it is; otherwise the record is marked complete with
/// `downloaded` bytes (`finish_direct_download`).
pub fn close_direct_download(task: &mut DownloadTask, worker_failed: bool, downloaded: u64) -> (r:
    Result<(), String>)
    ensures
        worker_failed ==> (r matches Err(m) && m@ == segments_failed_text()),
        worker_failed ==> final(task)@ == old(task)@,
        !worker_failed ==> r is Ok && final(task)@ == (TaskView {
            status: DownloadStatus::Completed,
            downloaded_bytes: downloaded,
            speed: 0,
            ..old(task)@
        }),
{
    if worker_failed {
        Err(String::from_str("Download failed across one or more segments"))
    } else {
        finish_direct_download(task, downloaded);
        Ok(())
    }
}

} // verus!
