//! The checks behind the HTTP interface: whether a download request can be
//! served, and what a URL is before anything is fetched.
use vstd::prelude::*;
use crate::model::DownloadRequest;
use crate::platform::{json_with_member, lowercase, set_json_member, string_of, to_lower};
use crate::text::{
    after_last, before_first, chars_after_last, chars_before_first, chars_of, chars_trim,
    has_prefix, has_substring, has_suffix, str_contains, str_ends_with, str_equal,
    str_starts_with, trim,
};

verus! {

/// Why a request to start a download was refused.
#[derive(Clone, Copy, Debug, PartialEq, Eq, Structural)]
pub enum RequestError {
    /// The URL is empty or white space.
    UrlRequired,
}

impl RequestError {
    /// The text of the error.
    pub fn message(&self) -> (r: String)
        ensures
            r@ == "url is required"@,
    {
        String::from_str("url is required")
    }
}

impl DownloadRequest {
    /// A request is served when its URL holds more than white space.
    pub fn check(&self) -> (r: Result<(), RequestError>)
        ensures
            r is Err <==> trim(self.url@).len() == 0,
            r is Err ==> r == Err::<(), RequestError>(RequestError::UrlRequired),
    {
        let t = chars_trim(&chars_of(self.url.as_str()));
        if t.len() == 0 {
            Err(RequestError::UrlRequired)
        } else {
            Ok(())
        }
    }
}

/// What a URL is, as far as its text tells.
#[derive(Clone, Debug, PartialEq, Eq)]
pub enum UrlKind {
    /// A magnet link or `.torrent` file, with the title to show.
    Torrent { title: String },
    /// A direct link to a known kind of file, with the title to show.
    File { title: String },
    /// Nothing in the text decides: the media tools and the server are asked.
    Unknown,
}

/// The lowercase URL names a known kind of file.
pub open spec fn direct_file(lower: Seq<char>) -> bool {
    ||| has_substring(lower, ".mp4"@)
    ||| has_substring(lower, ".mkv"@)
    ||| has_substring(lower, ".zip"@)
    ||| has_substring(lower, ".iso"@)
    ||| has_substring(lower, ".exe"@)
    ||| has_substring(lower, ".dmg"@)
    ||| has_substring(lower, ".pdf"@)
    ||| has_substring(lower, ".mov"@)
    ||| has_substring(lower, ".avi"@)
}

/// The last path piece of a URL, before any query.
pub open spec fn url_tail(url: Seq<char>) -> Seq<char> {
    after_last(before_first(url, '?'), '/')
}

/// What a URL is, with its title as a character sequence.
pub enum UrlKindView {
    Torrent(Seq<char>),
    File(Seq<char>),
    Unknown,
}

impl View for UrlKind {
    type V = UrlKindView;

    open spec fn view(&self) -> UrlKindView {
        match self {
            UrlKind::Torrent { title } => UrlKindView::Torrent(title@),
            UrlKind::File { title } => UrlKindView::File(title@),
            UrlKind::Unknown => UrlKindView::Unknown,
        }
    }
}

/// What `url` is, given its lowercase form `lower`: a magnet link or a URL
/// ending in `.torrent` is a torrent (titled by the fixed magnet text or the
/// last path piece); a URL whose lowercase form names a known file kind is a
/// file (titled by its last path piece before any query); else unknown.
pub open spec fn url_kind(url: Seq<char>, lower: Seq<char>) -> UrlKindView {
    if has_prefix(url, "magnet:"@) {
        UrlKindView::Torrent("Magnet Download (Metadata pending)"@)
    } else if has_suffix(url, ".torrent"@) {
        UrlKindView::Torrent(after_last(url, '/'))
    } else if direct_file(lower) {
        UrlKindView::File(url_tail(url))
    } else {
        UrlKindView::Unknown
    }
}

/// The known kinds of file are exactly these nine extensions: a lowercase
/// URL that contains any of them names a file, and one that contains none
/// does not.
pub proof fn lemma_direct_file_extensions(lower: Seq<char>)
    ensures
        has_substring(lower, ".mp4"@) ==> direct_file(lower),
        has_substring(lower, ".mkv"@) ==> direct_file(lower),
        has_substring(lower, ".zip"@) ==> direct_file(lower),
        has_substring(lower, ".iso"@) ==> direct_file(lower),
        has_substring(lower, ".exe"@) ==> direct_file(lower),
        has_substring(lower, ".dmg"@) ==> direct_file(lower),
        has_substring(lower, ".pdf"@) ==> direct_file(lower),
        has_substring(lower, ".mov"@) ==> direct_file(lower),
        has_substring(lower, ".avi"@) ==> direct_file(lower),
        !(has_substring(lower, ".mp4"@)
            || has_substring(lower, ".mkv"@)
            || has_substring(lower, ".zip"@)
            || has_substring(lower, ".iso"@)
            || has_substring(lower, ".exe"@)
            || has_substring(lower, ".dmg"@)
            || has_substring(lower, ".pdf"@)
            || has_substring(lower, ".mov"@)
            || has_substring(lower, ".avi"@)) ==> !direct_file(lower),
{
}

/// A URL that is neither a magnet link nor ends in `.torrent` is a file,
/// titled by its last path piece before any query, when its lowercase form
/// contains one of the known file extensions; otherwise nothing in its text
/// decides what it is. A magnet link is always the pending magnet torrent,
/// whatever else it contains.
pub proof fn lemma_url_kind_by_extension(url: Seq<char>, lower: Seq<char>)
    ensures
        has_prefix(url, "magnet:"@) ==> url_kind(url, lower) == UrlKindView::Torrent(
            "Magnet Download (Metadata pending)"@,
        ),
        !has_prefix(url, "magnet:"@) && has_suffix(url, ".torrent"@) ==> url_kind(url, lower)
            == UrlKindView::Torrent(after_last(url, '/')),
        !has_prefix(url, "magnet:"@) && !has_suffix(url, ".torrent"@) && (has_substring(lower, ".mp4"@)
            || has_substring(lower, ".mkv"@)
            || has_substring(lower, ".zip"@)
            || has_substring(lower, ".iso"@)
            || has_substring(lower, ".exe"@)
            || has_substring(lower, ".dmg"@)
            || has_substring(lower, ".pdf"@)
            || has_substring(lower, ".mov"@)
            || has_substring(lower, ".avi"@))
            ==> url_kind(url, lower) == UrlKindView::File(url_tail(url)),
        !has_prefix(url, "magnet:"@) && !has_suffix(url, ".torrent"@) && !(has_substring(lower, ".mp4"@)
            || has_substring(lower, ".mkv"@)
            || has_substring(lower, ".zip"@)
            || has_substring(lower, ".iso"@)
            || has_substring(lower, ".exe"@)
            || has_substring(lower, ".dmg"@)
            || has_substring(lower, ".pdf"@)
            || has_substring(lower, ".mov"@)
            || has_substring(lower, ".avi"@))
            ==> url_kind(url, lower) == UrlKindView::Unknown,
{
}

/// Whether the lowercase URL `lower` names a known kind of file.
pub fn is_direct_file(lower: &str) -> (b: bool)
    ensures
        b == direct_file(lower@),
{
    str_contains(lower, ".mp4") || str_contains(lower, ".mkv") || str_contains(lower, ".zip")
        || str_contains(lower, ".iso") || str_contains(lower, ".exe") || str_contains(lower, ".dmg")
        || str_contains(lower, ".pdf") || str_contains(lower, ".mov") || str_contains(lower, ".avi")
}

/// The last path piece of `url`, before any query.
pub fn url_tail_text(url: &str) -> (r: String)
    ensures
        r@ == url_tail(url@),
{
    let path = chars_before_first(&chars_of(url), '?');
    string_of(&chars_after_last(&path, '/'))
}

/// What `url` is, given its lowercase form `lower`.
pub fn classify_by_lowercase(url: &str, lower: &str) -> (k: UrlKind)
    ensures
        k@ == url_kind(url@, lower@),
{
    if str_starts_with(url, "magnet:") {
        UrlKind::Torrent { title: String::from_str("Magnet Download (Metadata pending)") }
    } else if str_ends_with(url, ".torrent") {
        UrlKind::Torrent { title: string_of(&chars_after_last(&chars_of(url), '/')) }
    } else if is_direct_file(lower) {
        UrlKind::File { title: url_tail_text(url) }
    } else {
        UrlKind::Unknown
    }
}

/// What `url` is, as far as its text tells.
pub fn classify_url(url: &str) -> (k: UrlKind)
    ensures
        k@ == url_kind(url@, lowercase(url@)),
{
    let lower = to_lower(url);
    classify_by_lowercase(url, lower.as_str())
}

/// The title shown for a file the server describes: the last path piece of
/// the URL, or the fixed YouTube name when that piece is `watch`.
pub open spec fn probed_title(url: Seq<char>) -> Seq<char> {
    if url_tail(url) == "watch"@ {
        "YouTube Video"@
    } else {
        url_tail(url)
    }
}

/// The title shown for a file the server describes.
pub fn probe_title(url: &str) -> (r: String)
    ensures
        r@ == probed_title(url@),
{
    let tail = url_tail_text(url);
    if str_equal(tail.as_str(), "watch") {
        String::from_str("YouTube Video")
    } else {
        tail
    }
}

/// The JSON text `{}`.
pub open spec fn empty_object() -> Seq<u8> {
    seq![123u8, 125u8]
}

/// `doc` with its member `type` set to `video`, when `doc` can take a member.
pub open spec fn tagged_as_video(doc: Seq<u8>) -> Option<Seq<u8>> {
    match json_with_member(doc, "type"@, "video"@) {
        Some(Some(b)) => Some(b),
        _ => None,
    }
}

/// The answer to an inspection that yt-dlp described: its JSON description
/// with `"type": "video"` set, or `{}` so tagged when the description is
/// not JSON; `None` when the description is JSON that cannot take a member
/// (an array, a string, a number or a boolean).
pub open spec fn video_description_text(stdout: Seq<u8>) -> Option<Seq<u8>> {
    if json_with_member(stdout, "type"@, "video"@) is None {
        tagged_as_video(empty_object())
    } else {
        tagged_as_video(stdout)
    }
}

/// The bytes of an optional byte vector.
pub open spec fn opt_bytes(o: Option<Vec<u8>>) -> Option<Seq<u8>> {
    match o {
        Some(b) => Some(b@),
        None => None,
    }
}

/// `doc` with its member `type` set to `video`, when `doc` can take a member.
pub fn tag_as_video(doc: &Vec<u8>) -> (r: Option<Vec<u8>>)
    ensures
        opt_bytes(r) == tagged_as_video(doc@),
{
    match set_json_member(doc, "type", "video") {
        Some(Some(b)) => Some(b),
        _ => None,
    }
}

/// The answer to an inspection that yt-dlp described with `stdout`.
pub fn video_description(stdout: &Vec<u8>) -> (r: Option<Vec<u8>>)
    ensures
        opt_bytes(r) == video_description_text(stdout@),
{
    match set_json_member(stdout, "type", "video") {
        Some(Some(b)) => Some(b),
        Some(None) => None,
        None => {
            let mut empty: Vec<u8> = Vec::new();
            empty.push(123u8);
            empty.push(125u8);
            assert(empty@ =~= empty_object());
            tag_as_video(&empty)
        },
    }
}

} // verus!
