//! The calls that this library makes into std and into outside crates, each
//! behind a small function whose contract Verus takes on trust.
use vstd::prelude::*;
use crate::video::{VideoMetadata, VideoMetadataView};

verus! {

/// The lowercase form of a string, as `str::to_lowercase` computes it.
pub uninterp spec fn lowercase(s: Seq<char>) -> Seq<char>;

/// The final component of a path, as `Path::file_name` finds it.
pub uninterp spec fn path_file_name(p: Seq<char>) -> Option<Seq<char>>;

/// The file stem of a path, as `Path::file_stem` finds it.
pub uninterp spec fn path_file_stem(p: Seq<char>) -> Option<Seq<char>>;

/// The extension of a path, as `Path::extension` finds it.
pub uninterp spec fn path_extension(p: Seq<char>) -> Option<Seq<char>>;

/// What yt-dlp's JSON description of a video reports, as
/// `serde_json::from_slice` reads the bytes `json`: `None` when they are not
/// JSON.
pub uninterp spec fn ytdlp_report(json: Seq<u8>) -> Option<VideoMetadataView>;

/// The JSON text `doc` as serde_json reads it, with its member `key` set to
/// the JSON string `value`, written back by serde_json: `None` when `doc` is
/// not JSON; `Some(None)` when it is JSON but neither an object nor null,
/// which cannot take a member.
pub uninterp spec fn json_with_member(doc: Seq<u8>, key: Seq<char>, value: Seq<char>) -> Option<Option<Seq<u8>>>;

/// The hexadecimal digits that the hyphenated form of a UUID uses.
pub open spec fn is_lower_hex(c: char) -> bool {
    ('0' <= c && c <= '9') || ('a' <= c && c <= 'f')
}

/// The hyphenated lowercase text form of a UUID: 36 characters, hyphens at
/// positions 8, 13, 18 and 23, lowercase hexadecimal digits elsewhere.
pub open spec fn is_hyphenated_uuid(s: Seq<char>) -> bool {
    &&& s.len() == 36
    &&& forall|i: int|
        0 <= i < 36 ==> if i == 8 || i == 13 || i == 18 || i == 23 {
            s[i] == '-'
        } else {
            is_lower_hex(#[trigger] s[i])
        }
}

/// The text form of a random (version 4, RFC 4122 variant) UUID: the
/// version digit is `4` and the variant digit one of `8`, `9`, `a`, `b`.
pub open spec fn is_random_uuid(s: Seq<char>) -> bool {
    &&& is_hyphenated_uuid(s)
    &&& s[14] == '4'
    &&& (s[19] == '8' || s[19] == '9' || s[19] == 'a' || s[19] == 'b')
}

/// A string made of the characters of `v` (`FromIterator<&char>` for `String`).
#[verifier::external_body]
pub(crate) fn string_of(v: &Vec<char>) -> (s: String)
    ensures
        s@ == v@,
{
    v.iter().collect()
}

/// `str::to_lowercase`: the result is named `lowercase(s@)`; it depends on
/// `s` alone. Nothing more of Unicode case mapping is stated here.
#[verifier::external_body]
pub(crate) fn to_lower(s: &str) -> (r: String)
    ensures
        r@ == lowercase(s@),
{
    s.to_lowercase()
}

/// `Path::file_name` of the path `p`, as a string: named `path_file_name(p@)`.
/// How `Path` splits components is not stated here.
#[verifier::external_body]
pub(crate) fn file_name_of_path(p: &str) -> (r: Option<String>)
    ensures
        match r {
            Some(s) => path_file_name(p@) == Some(s@),
            None => path_file_name(p@) is None,
        },
{
    std::path::Path::new(p).file_name().and_then(|n| n.to_str()).map(|n| n.to_string())
}

/// `Path::file_stem` of the path `p`, as a string: named `path_file_stem(p@)`.
#[verifier::external_body]
pub(crate) fn file_stem_of_path(p: &str) -> (r: Option<String>)
    ensures
        match r {
            Some(s) => path_file_stem(p@) == Some(s@),
            None => path_file_stem(p@) is None,
        },
{
    std::path::Path::new(p).file_stem().and_then(|n| n.to_str()).map(|n| n.to_string())
}

/// `Path::extension` of the path `p`, as a string: named `path_extension(p@)`.
#[verifier::external_body]
pub(crate) fn extension_of_path(p: &str) -> (r: Option<String>)
    ensures
        match r {
            Some(s) => path_extension(p@) == Some(s@),
            None => path_extension(p@) is None,
        },
{
    std::path::Path::new(p).extension().and_then(|n| n.to_str()).map(|n| n.to_string())
}

/// `serde_json::from_slice` of yt-dlp's output `json`, with the fields the
/// backend reads picked out (`_filename`, `title`, `ext` as text;
/// `filesize`, `filesize_approx` as unsigned numbers; a missing field or one
/// of another kind gives `None`). The result is named `ytdlp_report(json@)`;
/// it depends on the bytes alone. How JSON is parsed is not stated here.
#[verifier::external_body]
pub(crate) fn parse_ytdlp_report(json: &Vec<u8>) -> (r: Option<VideoMetadata>)
    ensures
        match r {
            Some(m) => ytdlp_report(json@) == Some(m@),
            None => ytdlp_report(json@) is None,
        },
{
    let d: serde_json::Value = serde_json::from_slice(json).ok()?;
    let text = |k: &str| d[k].as_str().map(|s| s.to_string());
    Some(VideoMetadata {
        filename: text("_filename"),
        title: text("title"),
        ext: text("ext"),
        filesize: d["filesize"].as_u64(),
        filesize_approx: d["filesize_approx"].as_u64(),
    })
}

/// `serde_json::from_slice` of `doc` into a `Value`; when that is an object
/// or null, `value[key] = Value::String(value)` and `serde_json::to_vec`. The
/// result is named `json_with_member(doc@, key@, value@)`; it depends on the
/// arguments alone. How JSON is read and written is not stated here.
#[verifier::external_body]
pub(crate) fn set_json_member(doc: &Vec<u8>, key: &str, value: &str) -> (r: Option<Option<Vec<u8>>>)
    ensures
        match r {
            Some(Some(b)) => json_with_member(doc@, key@, value@) == Some(Some(b@)),
            Some(None) => json_with_member(doc@, key@, value@) == Some(None::<Seq<u8>>),
            None => json_with_member(doc@, key@, value@) is None,
        },
{
    let mut d: serde_json::Value = serde_json::from_slice(doc).ok()?;
    match d {
        serde_json::Value::Object(_) | serde_json::Value::Null => {},
        _ => return Some(None),
    }
    d[key] = serde_json::Value::String(value.to_string());
    Some(serde_json::to_vec(&d).ok())
}

/// `uuid::Uuid::new_v4` written with `Display`: a random identifier. The
/// outcome is random; what holds of every outcome is its hyphenated lowercase
/// hexadecimal form (uuid's `format_hyphenated` with lowercase digits), with
/// the version and variant bits that `new_v4` sets.
#[verifier::external_body]
pub(crate) fn new_task_id() -> (s: String)
    ensures
        is_random_uuid(s@),
{
    uuid::Uuid::new_v4().to_string()
}

/// chrono's `From<SystemTime>` for `DateTime<Utc>`, then `timestamp`: the
/// current time in whole seconds since the Unix epoch, negative for a clock
/// that reads before 1970 (chrono rounds such a time down to the second).
/// It depends on the clock, so nothing is stated of it. chrono panics only
/// for a clock outside its range of dates, some 262,000 years either side of
/// the year 0.
#[verifier::external_body]
pub(crate) fn unix_time_now() -> (t: i64) {
    chrono::DateTime::<chrono::Utc>::from(std::time::SystemTime::now()).timestamp()
}

} // verus!
