//! How a download is classified and named: the file name a URL suggests,
//! the readable form of an error, torrent and video-site detection, the
//! default save folder, and the names tried when a file already exists.
use vstd::prelude::*;
use crate::platform::{
    extension_of_path, file_name_of_path, file_stem_of_path, lowercase, path_extension,
    path_file_name, path_file_stem, string_of, to_lower,
};
use crate::text::{
    after_last, before_first, chars_of, is_digit, lemma_decimal_digits, chars_after_last, chars_before_first, chars_strip_trailing,
    chars_take, decimal, has_prefix, has_substring, has_suffix, last_index_of,
    lemma_first_index_of, lemma_found_at, lemma_last_index_of, lemma_missing_char,
    lemma_missing_pair, lemma_take_chars_keeps_absence, opt_view, str_concat, str_contains, str_equal,
    str_ends_with, str_starts_with, str_trim, strip_trailing, take_chars, trim, u64_text,
};

verus! {

// ---------------------------------------------------------------------------
// File name from a URL
// ---------------------------------------------------------------------------

/// The last non-empty piece of `p` between slashes, if there is one
/// (`p.rsplit('/').find(|part| !part.is_empty())`).
pub open spec fn last_path_segment(p: Seq<char>) -> Option<Seq<char>> {
    let t = strip_trailing(p, '/');
    if t.len() == 0 {
        None
    } else {
        Some(after_last(t, '/'))
    }
}

/// The file name that a URL suggests, given the URL and its lowercase form:
/// a fixed name for magnet links and for YouTube pages, otherwise the last
/// non-empty path segment before any query.
pub open spec fn url_file_name(url: Seq<char>, lower: Seq<char>) -> Option<Seq<char>> {
    if has_prefix(url, "magnet:"@) {
        Some("Magnet_Download"@)
    } else if has_substring(lower, "youtube.com/watch"@) || has_substring(lower, "youtu.be/"@) {
        Some("YouTube Video"@)
    } else {
        last_path_segment(before_first(url, '?'))
    }
}

/// The file name a URL suggests: `Magnet_Download` for a magnet link;
/// otherwise `YouTube Video` for a YouTube watch page or short link (found
/// in the lowercase form); otherwise the last non-empty path segment before
/// any query, when there is one.
pub proof fn lemma_url_file_name_cases(url: Seq<char>, lower: Seq<char>)
    ensures
        has_prefix(url, "magnet:"@) ==> url_file_name(url, lower) == Some("Magnet_Download"@),
        !has_prefix(url, "magnet:"@) && (has_substring(lower, "youtube.com/watch"@)
            || has_substring(lower, "youtu.be/"@)) ==> url_file_name(url, lower) == Some(
            "YouTube Video"@,
        ),
        !has_prefix(url, "magnet:"@) && !has_substring(lower, "youtube.com/watch"@)
            && !has_substring(lower, "youtu.be/"@) ==> url_file_name(url, lower)
            == last_path_segment(before_first(url, '?')),
{
}

/// `s` holds no `c`.
pub open spec fn free_of(s: Seq<char>, c: char) -> bool {
    forall|k: int| 0 <= k < s.len() ==> s[k] != c
}

proof fn lemma_strip_trailing(s: Seq<char>, c: char)
    ensures
        strip_trailing(s, c).len() <= s.len(),
        strip_trailing(s, c) == s.subrange(0, strip_trailing(s, c).len() as int),
        strip_trailing(s, c).len() > 0 ==> strip_trailing(s, c).last() != c,
    decreases s.len(),
{
    if s.len() > 0 && s.last() == c {
        lemma_strip_trailing(s.drop_last(), c);
        let n = strip_trailing(s, c).len() as int;
        assert(s.drop_last().subrange(0, n) =~= s.subrange(0, n));
    } else {
        assert(s.subrange(0, s.len() as int) =~= s);
    }
}

proof fn lemma_before_first_free(s: Seq<char>, c: char)
    ensures
        free_of(before_first(s, c), c),
{
    lemma_first_index_of(s, c);
}

proof fn lemma_after_last(s: Seq<char>, c: char)
    requires
        s.len() > 0,
        s.last() != c,
    ensures
        after_last(s, c).len() > 0,
        free_of(after_last(s, c), c),
{
    lemma_last_index_of(s, c);
    match last_index_of(s, c) {
        Some(i) => {
            let a = after_last(s, c);
            assert(i < s.len() - 1);
            assert forall|k: int| 0 <= k < a.len() implies a[k] != c by {
                assert(a[k] == s[i + 1 + k]);
            }
        },
        None => {},
    }
}

proof fn lemma_subrange_free(s: Seq<char>, c: char, a: int, b: int)
    requires
        free_of(s, c),
        0 <= a <= b <= s.len(),
    ensures
        free_of(s.subrange(a, b), c),
{
    assert forall|k: int| 0 <= k < b - a implies s.subrange(a, b)[k] != c by {
        assert(s.subrange(a, b)[k] == s[a + k]);
    }
}

proof fn lemma_url_file_name_shape(url: Seq<char>, lower: Seq<char>)
    ensures
        url_file_name(url, lower) matches Some(n) ==> n.len() > 0 && free_of(n, '/') && free_of(n, '?'),
{
    reveal_strlit("Magnet_Download");
    reveal_strlit("YouTube Video");
    if !has_prefix(url, "magnet:"@) && !(has_substring(lower, "youtube.com/watch"@) || has_substring(lower, "youtu.be/"@)) {
        let p = before_first(url, '?');
        lemma_before_first_free(url, '?');
        let t = strip_trailing(p, '/');
        lemma_strip_trailing(p, '/');
        if t.len() > 0 {
            lemma_after_last(t, '/');
            lemma_subrange_free(p, '?', 0, t.len() as int);
            lemma_last_index_of(t, '/');
            match last_index_of(t, '/') {
                Some(i) => lemma_subrange_free(t, '?', i + 1, t.len() as int),
                None => {},
            }
        }
    }
}

/// The file name that `url` suggests, given also its lowercase form `lower`.
/// A name it gives is never empty and holds neither `/` nor `?`.
pub fn file_name_from_url(url: &str, lower: &str) -> (r: Option<String>)
    ensures
        opt_view(r) == url_file_name(url@, lower@),
        r matches Some(n) ==> n@.len() > 0 && free_of(n@, '/') && free_of(n@, '?'),
{
    proof {
        lemma_url_file_name_shape(url@, lower@);
    }
    if str_starts_with(url, "magnet:") {
        return Some(String::from_str("Magnet_Download"));
    }
    if str_contains(lower, "youtube.com/watch") || str_contains(lower, "youtu.be/") {
        return Some(String::from_str("YouTube Video"));
    }
    let cs = chars_of(url);
    let path = chars_before_first(&cs, '?');
    let t = chars_strip_trailing(&path, '/');
    if t.len() == 0 {
        None
    } else {
        Some(string_of(&chars_after_last(&t, '/')))
    }
}

/// The file name that `url` suggests.
pub fn extract_file_name(url: &str) -> (r: Option<String>)
    ensures
        opt_view(r) == url_file_name(url@, lowercase(url@)),
        r matches Some(n) ==> n@.len() > 0 && free_of(n@, '/') && free_of(n@, '?'),
{
    let lower = to_lower(url);
    file_name_from_url(url, lower.as_str())
}

// ---------------------------------------------------------------------------
// Readable errors
// ---------------------------------------------------------------------------

/// The message shown for a raw download error.
pub open spec fn friendly_error_text(raw: Seq<char>) -> Seq<char> {
    if has_substring(raw, "No space left"@) || has_substring(raw, "fallocate"@) {
        "No space left on device. Free up disk space and retry."@
    } else if has_substring(raw, "403"@) || has_substring(raw, "Forbidden"@) {
        "Access denied (403). Try a magnet link instead of a .torrent URL."@
    } else if has_substring(raw, "404"@) {
        "File not found (404). The link may have expired."@
    } else if has_substring(raw, "timed out"@) || has_substring(raw, "timeout"@) {
        "Connection timed out. Check your internet connection."@
    } else if has_substring(raw, "aria2"@) {
        "Torrent engine error: "@ + raw
    } else {
        take_chars(raw, 120)
    }
}

/// The message shown for the raw error `raw`.
pub fn friendly_error(raw: &str) -> (r: String)
    ensures
        r@ == friendly_error_text(raw@),
{
    if str_contains(raw, "No space left") || str_contains(raw, "fallocate") {
        String::from_str("No space left on device. Free up disk space and retry.")
    } else if str_contains(raw, "403") || str_contains(raw, "Forbidden") {
        String::from_str("Access denied (403). Try a magnet link instead of a .torrent URL.")
    } else if str_contains(raw, "404") {
        String::from_str("File not found (404). The link may have expired.")
    } else if str_contains(raw, "timed out") || str_contains(raw, "timeout") {
        String::from_str("Connection timed out. Check your internet connection.")
    } else if str_contains(raw, "aria2") {
        str_concat("Torrent engine error: ", raw)
    } else {
        string_of(&chars_take(&chars_of(raw), 120))
    }
}

/// The message for a full disk is shown as it is.
proof fn lemma_disk_message_stable()
    ensures
        friendly_error_text("No space left on device. Free up disk space and retry."@) == "No space left on device. Free up disk space and retry."@,
{
    let m = "No space left on device. Free up disk space and retry."@;
    reveal_strlit("No space left on device. Free up disk space and retry.");
    reveal_strlit("No space left");
    assert(m.subrange(0, 13) =~= "No space left"@);
    lemma_found_at(m, "No space left"@, 0);
}

/// The message for a refused request is shown as it is.
proof fn lemma_denied_message_stable()
    ensures
        friendly_error_text("Access denied (403). Try a magnet link instead of a .torrent URL."@) == "Access denied (403). Try a magnet link instead of a .torrent URL."@,
{
    let m = "Access denied (403). Try a magnet link instead of a .torrent URL."@;
    reveal_strlit("Access denied (403). Try a magnet link instead of a .torrent URL.");
    reveal_strlit("No space left");
    reveal_strlit("fallocate");
    reveal_strlit("403");
    assert(forall|j: int| 0 <= j < m.len() ==> m[j] != 'N');
    lemma_missing_char(m, "No space left"@, 0);
    assert(forall|j: int| 0 <= j < m.len() - 1 ==> !(#[trigger] m[j] == 'l' && m[j + 1] == 'l'));
    lemma_missing_pair(m, "fallocate"@, 2);
    assert(m.subrange(15, 18) =~= "403"@);
    lemma_found_at(m, "403"@, 15);
}

/// The message for a missing file is shown as it is.
proof fn lemma_missing_message_stable()
    ensures
        friendly_error_text("File not found (404). The link may have expired."@) == "File not found (404). The link may have expired."@,
{
    let m = "File not found (404). The link may have expired."@;
    reveal_strlit("File not found (404). The link may have expired.");
    reveal_strlit("No space left");
    reveal_strlit("fallocate");
    reveal_strlit("403");
    reveal_strlit("Forbidden");
    reveal_strlit("404");
    assert(forall|j: int| 0 <= j < m.len() ==> m[j] != 'N');
    lemma_missing_char(m, "No space left"@, 0);
    assert(forall|j: int| 0 <= j < m.len() ==> m[j] != 'c');
    lemma_missing_char(m, "fallocate"@, 5);
    assert(forall|j: int| 0 <= j < m.len() ==> m[j] != '3');
    lemma_missing_char(m, "403"@, 2);
    assert(forall|j: int| 0 <= j < m.len() ==> m[j] != 'b');
    lemma_missing_char(m, "Forbidden"@, 3);
    assert(m.subrange(16, 19) =~= "404"@);
    lemma_found_at(m, "404"@, 16);
}

/// The message for a connection that timed out is shown as it is.
proof fn lemma_timeout_message_stable()
    ensures
        friendly_error_text("Connection timed out. Check your internet connection."@) == "Connection timed out. Check your internet connection."@,
{
    let m = "Connection timed out. Check your internet connection."@;
    reveal_strlit("Connection timed out. Check your internet connection.");
    reveal_strlit("No space left");
    reveal_strlit("fallocate");
    reveal_strlit("403");
    reveal_strlit("Forbidden");
    reveal_strlit("404");
    reveal_strlit("timed out");
    assert(forall|j: int| 0 <= j < m.len() ==> m[j] != 'N');
    lemma_missing_char(m, "No space left"@, 0);
    assert(forall|j: int| 0 <= j < m.len() ==> m[j] != 'f');
    lemma_missing_char(m, "fallocate"@, 0);
    assert(forall|j: int| 0 <= j < m.len() ==> m[j] != '4');
    lemma_missing_char(m, "403"@, 1);
    lemma_missing_char(m, "404"@, 1);
    assert(forall|j: int| 0 <= j < m.len() ==> m[j] != 'F');
    lemma_missing_char(m, "Forbidden"@, 0);
    assert(m.subrange(11, 20) =~= "timed out"@);
    lemma_found_at(m, "timed out"@, 11);
}

/// A readable message, made readable again, stays as it is, for a raw
/// error that does not name the torrent engine: each fixed message is
/// recognised as itself, and a raw error cut to its first 120 characters
/// holds none of the words looked for.
pub proof fn lemma_friendly_error_stable(raw: Seq<char>)
    requires
        !has_substring(raw, "aria2"@),
    ensures
        friendly_error_text(friendly_error_text(raw)) == friendly_error_text(raw),
{
    lemma_disk_message_stable();
    lemma_denied_message_stable();
    lemma_missing_message_stable();
    lemma_timeout_message_stable();
    let t = take_chars(raw, 120);
    if !has_substring(raw, "No space left"@) && !has_substring(raw, "fallocate"@)
        && !has_substring(raw, "403"@) && !has_substring(raw, "Forbidden"@)
        && !has_substring(raw, "404"@) && !has_substring(raw, "timed out"@)
        && !has_substring(raw, "timeout"@) {
        lemma_take_chars_keeps_absence(raw, 120, "No space left"@);
        lemma_take_chars_keeps_absence(raw, 120, "fallocate"@);
        lemma_take_chars_keeps_absence(raw, 120, "403"@);
        lemma_take_chars_keeps_absence(raw, 120, "Forbidden"@);
        lemma_take_chars_keeps_absence(raw, 120, "404"@);
        lemma_take_chars_keeps_absence(raw, 120, "timed out"@);
        lemma_take_chars_keeps_absence(raw, 120, "timeout"@);
        lemma_take_chars_keeps_absence(raw, 120, "aria2"@);
        assert(take_chars(t, 120) == t);
    }
}

// ---------------------------------------------------------------------------
// Kinds of download
// ---------------------------------------------------------------------------

/// A download goes to the torrent engine: it is marked as a torrent, or its
/// lowercase URL is a magnet link or names a `.torrent` file.
pub open spec fn torrent_download(lower: Seq<char>, format_id: Option<Seq<char>>) -> bool {
    ||| format_id == Some("torrent"@)
    ||| has_prefix(lower, "magnet:"@)
    ||| has_suffix(lower, ".torrent"@)
    ||| has_substring(lower, ".torrent?"@)
}

/// A download goes to the torrent engine exactly when it is marked as a
/// torrent, or its lowercase URL starts with `magnet:`, ends with
/// `.torrent`, or names a `.torrent` file followed by a query.
pub proof fn lemma_torrent_download_cases(lower: Seq<char>, format_id: Option<Seq<char>>)
    ensures
        format_id == Some("torrent"@) ==> torrent_download(lower, format_id),
        has_prefix(lower, "magnet:"@) ==> torrent_download(lower, format_id),
        has_suffix(lower, ".torrent"@) ==> torrent_download(lower, format_id),
        has_substring(lower, ".torrent?"@) ==> torrent_download(lower, format_id),
        format_id != Some("torrent"@) && !has_prefix(lower, "magnet:"@) && !has_suffix(
            lower,
            ".torrent"@,
        ) && !has_substring(lower, ".torrent?"@) ==> !torrent_download(lower, format_id),
{
}

/// Whether a download with lowercase URL `lower` goes to the torrent engine.
pub fn torrent_by_lowercase(lower: &str, format_id: &Option<String>) -> (b: bool)
    ensures
        b == torrent_download(lower@, opt_view(*format_id)),
{
    let marked = match format_id {
        Some(f) => str_equal(f.as_str(), "torrent"),
        None => false,
    };
    marked || str_starts_with(lower, "magnet:") || str_ends_with(lower, ".torrent") || str_contains(
        lower,
        ".torrent?",
    )
}

/// Whether a download of `url` goes to the torrent engine.
pub fn is_torrent_download(url: &str, format_id: &Option<String>) -> (b: bool)
    ensures
        b == torrent_download(lowercase(url@), opt_view(*format_id)),
{
    let lower = to_lower(url);
    torrent_by_lowercase(lower.as_str(), format_id)
}

/// The lowercase URL names one of the video sites that yt-dlp handles.
pub open spec fn video_site(lower: Seq<char>) -> bool {
    ||| has_substring(lower, "youtube.com"@)
    ||| has_substring(lower, "youtu.be"@)
    ||| has_substring(lower, "vimeo.com"@)
    ||| has_substring(lower, "dailymotion.com"@)
    ||| has_substring(lower, "twitch.tv"@)
    ||| has_substring(lower, "facebook.com"@)
    ||| has_substring(lower, "instagram.com"@)
    ||| has_substring(lower, "twitter.com"@)
    ||| has_substring(lower, "x.com"@)
    ||| has_substring(lower, "tiktok.com"@)
    ||| has_substring(lower, "bilibili.com"@)
    ||| has_substring(lower, "nicovideo.jp"@)
    ||| has_substring(lower, "rumble.com"@)
    ||| has_substring(lower, "odysee.com"@)
    ||| has_substring(lower, "reddit.com"@)
}

/// The video sites that yt-dlp fetches are exactly these fifteen: a URL
/// whose lowercase form contains any of their domains is a video site, and
/// a URL whose lowercase form contains none of them is not.
pub proof fn lemma_video_site_domains(lower: Seq<char>)
    ensures
        has_substring(lower, "youtube.com"@) ==> video_site(lower),
        has_substring(lower, "youtu.be"@) ==> video_site(lower),
        has_substring(lower, "vimeo.com"@) ==> video_site(lower),
        has_substring(lower, "dailymotion.com"@) ==> video_site(lower),
        has_substring(lower, "twitch.tv"@) ==> video_site(lower),
        has_substring(lower, "facebook.com"@) ==> video_site(lower),
        has_substring(lower, "instagram.com"@) ==> video_site(lower),
        has_substring(lower, "twitter.com"@) ==> video_site(lower),
        has_substring(lower, "x.com"@) ==> video_site(lower),
        has_substring(lower, "tiktok.com"@) ==> video_site(lower),
        has_substring(lower, "bilibili.com"@) ==> video_site(lower),
        has_substring(lower, "nicovideo.jp"@) ==> video_site(lower),
        has_substring(lower, "rumble.com"@) ==> video_site(lower),
        has_substring(lower, "odysee.com"@) ==> video_site(lower),
        has_substring(lower, "reddit.com"@) ==> video_site(lower),
        !(has_substring(lower, "youtube.com"@)
            || has_substring(lower, "youtu.be"@)
            || has_substring(lower, "vimeo.com"@)
            || has_substring(lower, "dailymotion.com"@)
            || has_substring(lower, "twitch.tv"@)
            || has_substring(lower, "facebook.com"@)
            || has_substring(lower, "instagram.com"@)
            || has_substring(lower, "twitter.com"@)
            || has_substring(lower, "x.com"@)
            || has_substring(lower, "tiktok.com"@)
            || has_substring(lower, "bilibili.com"@)
            || has_substring(lower, "nicovideo.jp"@)
            || has_substring(lower, "rumble.com"@)
            || has_substring(lower, "odysee.com"@)
            || has_substring(lower, "reddit.com"@)) ==> !video_site(lower),
{
}

/// Whether the lowercase URL `lower` names a known video site.
pub fn video_site_by_lowercase(lower: &str) -> (b: bool)
    ensures
        b == video_site(lower@),
{
    str_contains(lower, "youtube.com") || str_contains(lower, "youtu.be") || str_contains(
        lower,
        "vimeo.com",
    ) || str_contains(lower, "dailymotion.com") || str_contains(lower, "twitch.tv")
        || str_contains(lower, "facebook.com") || str_contains(lower, "instagram.com")
        || str_contains(lower, "twitter.com") || str_contains(lower, "x.com") || str_contains(
        lower,
        "tiktok.com",
    ) || str_contains(lower, "bilibili.com") || str_contains(lower, "nicovideo.jp")
        || str_contains(lower, "rumble.com") || str_contains(lower, "odysee.com") || str_contains(
        lower,
        "reddit.com",
    )
}

/// Whether yt-dlp should fetch `url` (its lowercase form names a video site).
pub fn is_supported_by_ytdlp(url: &str) -> (b: bool)
    ensures
        b == video_site(lowercase(url@)),
{
    let lower = to_lower(url);
    video_site_by_lowercase(lower.as_str())
}

// ---------------------------------------------------------------------------
// Where a download goes and what it is called
// ---------------------------------------------------------------------------

/// The folder a download goes to: the one asked for, else `Downloads` in the
/// home folder, else `downloads`.
pub open spec fn save_folder(save_path: Option<Seq<char>>, home: Option<Seq<char>>) -> Seq<char> {
    match save_path {
        Some(p) => p,
        None => match home {
            Some(h) => h + "/Downloads"@,
            None => "downloads"@,
        },
    }
}

/// The folder a download goes to.
pub fn default_save_path(save_path: Option<String>, home: Option<String>) -> (r: String)
    ensures
        r@ == save_folder(opt_view(save_path), opt_view(home)),
{
    match save_path {
        Some(p) => p,
        None => match home {
            Some(h) => str_concat(h.as_str(), "/Downloads"),
            None => String::from_str("downloads"),
        },
    }
}

/// The name a new download gets: the custom name without surrounding white
/// space when that is not empty, else the name the URL suggests, else
/// `download-` and the download's id.
pub open spec fn chosen_file_name(
    url: Seq<char>,
    lower: Seq<char>,
    custom: Option<Seq<char>>,
    id: Seq<char>,
) -> Seq<char> {
    if custom matches Some(c) && trim(c).len() > 0 {
        trim(custom.unwrap())
    } else {
        match url_file_name(url, lower) {
            Some(n) => n,
            None => "download-"@ + id,
        }
    }
}

/// The name a new download of `url` gets; it is never empty.
pub fn choose_file_name(url: &str, custom: &Option<String>, id: &str) -> (r: String)
    ensures
        r@ == chosen_file_name(url@, lowercase(url@), opt_view(*custom), id@),
        r@.len() > 0,
{
    proof {
        lemma_url_file_name_shape(url@, lowercase(url@));
        reveal_strlit("download-");
    }
    if let Some(c) = custom {
        let t = str_trim(c.as_str());
        if t.as_str().unicode_len() > 0 {
            return t;
        }
    }
    match extract_file_name(url) {
        Some(n) => n,
        None => str_concat("download-", id),
    }
}

/// The name tried in place of a taken one: the stem, the counter in
/// parentheses, and the extension when there is one.
pub open spec fn numbered_name(stem: Seq<char>, ext: Seq<char>, n: nat) -> Seq<char> {
    if ext.len() == 0 {
        stem + " ("@ + decimal(n) + ")"@
    } else {
        stem + " ("@ + decimal(n) + ")."@ + ext
    }
}

/// The name tried in place of a taken one (`"{stem} ({n})"` or
/// `"{stem} ({n}).{ext}"`).
pub fn numbered_file_name(stem: &str, ext: &str, n: u64) -> (r: String)
    ensures
        r@ == numbered_name(stem@, ext@, n as nat),
{
    let head = str_concat(stem, " (");
    let num = u64_text(n);
    let head = str_concat(head.as_str(), num.as_str());
    if ext.unicode_len() == 0 {
        str_concat(head.as_str(), ")")
    } else {
        let head = str_concat(head.as_str(), ").");
        str_concat(head.as_str(), ext)
    }
}

/// Different counters give different names, so the renaming of a taken
/// file name never proposes the same name twice.
pub proof fn lemma_numbered_names_distinct(stem: Seq<char>, ext: Seq<char>, n: nat, m: nat)
    requires
        n != m,
    ensures
        numbered_name(stem, ext, n) != numbered_name(stem, ext, m),
{
    reveal_strlit(" (");
    reveal_strlit(")");
    reveal_strlit(").");
    lemma_decimal_digits(n);
    lemma_decimal_digits(m);
    let a = stem + " ("@;
    let dn = decimal(n);
    let dm = decimal(m);
    let r = if ext.len() == 0 {
        ")"@
    } else {
        ")."@ + ext
    };
    let x = numbered_name(stem, ext, n);
    let y = numbered_name(stem, ext, m);
    assert(x =~= a + dn + r);
    assert(y =~= a + dm + r);
    assert(r[0] == ')');
    if x == y {
        let l = a.len() as int;
        if dn.len() < dm.len() {
            assert(x[l + dn.len()] == r[0]);
            assert(y[l + dn.len()] == dm[dn.len() as int]);
            assert(is_digit(dm[dn.len() as int]));
        } else if dm.len() < dn.len() {
            assert(y[l + dm.len()] == r[0]);
            assert(x[l + dm.len()] == dn[dm.len() as int]);
            assert(is_digit(dn[dm.len() as int]));
        } else {
            assert(dn =~= x.subrange(l, l + dn.len()));
            assert(dm =~= y.subrange(l, l + dm.len()));
        }
    }
}

/// The stem and extension of a path that a renamed copy is built from: the
/// path's file stem, or `file`, and its extension, or nothing.
pub open spec fn stem_and_extension(path: Seq<char>) -> (Seq<char>, Seq<char>) {
    (
        match path_file_stem(path) {
            Some(s) => s,
            None => "file"@,
        },
        match path_extension(path) {
            Some(e) => e,
            None => Seq::<char>::empty(),
        },
    )
}

/// The stem and extension of `path` for renamed copies.
pub fn split_stem_extension(path: &str) -> (r: (String, String))
    ensures
        (r.0@, r.1@) == stem_and_extension(path@),
{
    let stem = match file_stem_of_path(path) {
        Some(s) => s,
        None => String::from_str("file"),
    };
    let ext = match extension_of_path(path) {
        Some(e) => e,
        None => String::new(),
    };
    (stem, ext)
}

/// The search for a free name in place of a taken one: the stem and
/// extension of the taken name and the next counter to try.
#[derive(Clone, Debug, PartialEq, Eq)]
pub struct RenameSearch {
    pub stem: String,
    pub ext: String,
    pub counter: u64,
}

impl RenameSearch {
    /// A search for a free name in place of the file at `path`, starting
    /// from counter 1.
    pub fn new(path: &str) -> (r: RenameSearch)
        ensures
            (r.stem@, r.ext@) == stem_and_extension(path@),
            r.counter == 1,
    {
        let (stem, ext) = split_stem_extension(path);
        RenameSearch { stem, ext, counter: 1 }
    }

    /// The next name to try; the counter moves on by one.
    pub fn next_name(&mut self) -> (r: String)
        requires
            old(self).counter < u64::MAX,
        ensures
            r@ == numbered_name(old(self).stem@, old(self).ext@, old(self).counter as nat),
            final(self).stem == old(self).stem,
            final(self).ext == old(self).ext,
            final(self).counter == old(self).counter + 1,
    {
        let r = numbered_file_name(self.stem.as_str(), self.ext.as_str(), self.counter);
        self.counter = self.counter + 1;
        r
    }
}

/// `dir` and `name` joined by a slash.
pub fn join_dir(dir: &str, name: &str) -> (r: String)
    ensures
        r@ == dir@ + "/"@ + name@,
{
    let head = str_concat(dir, "/");
    str_concat(head.as_str(), name)
}

// ---------------------------------------------------------------------------
// Names of video downloads
// ---------------------------------------------------------------------------

/// A name that the user did not choose: the fixed YouTube name, `watch`, or
/// one made from the download's id.
pub open spec fn generic_name(name: Seq<char>) -> bool {
    name == "YouTube Video"@ || name == "watch"@ || has_prefix(name, "download-"@)
}

/// The name a video download ends with, given also the final component of
/// the predicted file name (`predicted_name`) and the extension of the
/// current name (`current_ext`). A name the user did not choose follows
/// yt-dlp: the predicted file's name, else the title with the extension (or
/// `mp4`), else the current name. A name the user chose is kept, with the
/// extension (or `mp4`) added when it has none.
pub open spec fn video_name_from(
    current: Seq<char>,
    predicted: Option<Seq<char>>,
    predicted_name: Option<Seq<char>>,
    title: Option<Seq<char>>,
    ext: Option<Seq<char>>,
    current_ext: Option<Seq<char>>,
) -> Seq<char> {
    let real_ext = match ext {
        Some(e) => e,
        None => "mp4"@,
    };
    if generic_name(current) {
        match predicted {
            Some(p) => match predicted_name {
                Some(n) => n,
                None => current,
            },
            None => match title {
                Some(t) => t + "."@ + real_ext,
                None => current,
            },
        }
    } else {
        match current_ext {
            Some(e) => if e.len() > 0 {
                current
            } else {
                current + "."@ + real_ext
            },
            None => current + "."@ + real_ext,
        }
    }
}

/// The name a video download ends with, from the current name and what
/// yt-dlp reports, the predicted file name taken by its final component.
pub open spec fn video_name(
    current: Seq<char>,
    predicted: Option<Seq<char>>,
    title: Option<Seq<char>>,
    ext: Option<Seq<char>>,
) -> Seq<char> {
    video_name_from(
        current,
        predicted,
        match predicted {
            Some(p) => path_file_name(p),
            None => None,
        },
        title,
        ext,
        path_extension(current),
    )
}

/// The name a video download ends with, given the final component of the
/// predicted file name and the extension of the current name.
pub fn video_file_name_from(
    current: &str,
    predicted: Option<String>,
    predicted_name: Option<String>,
    title: Option<String>,
    ext: Option<String>,
    current_ext: Option<String>,
) -> (r: String)
    ensures
        r@ == video_name_from(
            current@,
            opt_view(predicted),
            opt_view(predicted_name),
            opt_view(title),
            opt_view(ext),
            opt_view(current_ext),
        ),
{
    let real_ext = match ext {
        Some(e) => e,
        None => String::from_str("mp4"),
    };
    let generic = str_equal(current, "YouTube Video") || str_equal(current, "watch")
        || str_starts_with(current, "download-");
    if generic {
        match predicted {
            Some(_) => match predicted_name {
                Some(n) => n,
                None => String::from_str(current),
            },
            None => match title {
                Some(t) => {
                    let head = str_concat(t.as_str(), ".");
                    str_concat(head.as_str(), real_ext.as_str())
                },
                None => String::from_str(current),
            },
        }
    } else {
        let has_ext = match current_ext {
            Some(e) => e.as_str().unicode_len() > 0,
            None => false,
        };
        if has_ext {
            String::from_str(current)
        } else {
            let head = str_concat(current, ".");
            str_concat(head.as_str(), real_ext.as_str())
        }
    }
}

/// The name a video download ends with, from the current name and what
/// yt-dlp reports.
pub fn video_file_name(
    current: &str,
    predicted: Option<String>,
    title: Option<String>,
    ext: Option<String>,
) -> (r: String)
    ensures
        r@ == video_name(current@, opt_view(predicted), opt_view(title), opt_view(ext)),
{
    let predicted_name = match &predicted {
        Some(p) => file_name_of_path(p.as_str()),
        None => None,
    };
    let current_ext = extension_of_path(current);
    video_file_name_from(current, predicted, predicted_name, title, ext, current_ext)
}

} // verus!
