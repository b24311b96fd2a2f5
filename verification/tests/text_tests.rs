use backend::text::{is_white_space, parse_u64, str_contains, str_ends_with, str_starts_with, str_trim, u64_text};
use backend::model::DownloadStatus;

#[test]
fn decimal_text() {
    assert_eq!(u64_text(0), "0");
    assert_eq!(u64_text(907), "907");
    assert_eq!(u64_text(u64::MAX), "18446744073709551615");
}

#[test]
fn parse_numbers() {
    assert_eq!(parse_u64("42"), Some(42));
    assert_eq!(parse_u64("+42"), Some(42));
    assert_eq!(parse_u64("007"), Some(7));
    assert_eq!(parse_u64("18446744073709551615"), Some(u64::MAX));
    assert_eq!(parse_u64("18446744073709551616"), None);
    assert_eq!(parse_u64(""), None);
    assert_eq!(parse_u64("+"), None);
    assert_eq!(parse_u64("-1"), None);
    assert_eq!(parse_u64("1 2"), None);
    for t in ["", "+", "-0", "12a", "99999999999999999999", "+000123"] {
        assert_eq!(parse_u64(t), t.parse::<u64>().ok());
    }
}

#[test]
fn decimal_then_parse_gives_the_number() {
    for n in [0u64, 1, 9, 10, 99, 100, 123456789, u64::MAX - 1, u64::MAX] {
        assert_eq!(parse_u64(&u64_text(n)), Some(n));
    }
}

#[test]
fn searching_text() {
    assert!(str_contains("hello world", "o w"));
    assert!(str_contains("abc", ""));
    assert!(!str_contains("abc", "abcd"));
    assert!(str_starts_with("abc", "ab"));
    assert!(!str_starts_with("abc", "bc"));
    assert!(str_ends_with("abc", "bc"));
    assert!(!str_ends_with("c", "bc"));
}

#[test]
fn trimming_matches_std() {
    for t in ["  a b  ", "\u{3000}x\t", "", "   ", "x", "\n\u{a0}y z\u{2029}"] {
        assert_eq!(str_trim(t), t.trim());
    }
}

#[test]
fn status_text_round_trip() {
    for st in [
        DownloadStatus::Queued,
        DownloadStatus::Downloading,
        DownloadStatus::Paused,
        DownloadStatus::Completed,
        DownloadStatus::Failed,
    ] {
        assert_eq!(DownloadStatus::from_str(st.as_str()), st);
    }
    assert_eq!(DownloadStatus::Failed.as_str(), "failed");
    assert_eq!(DownloadStatus::from_str("unheard of"), DownloadStatus::Queued);
}

#[test]
fn white_space_matches_std_on_every_character() {
    for code in 0u32..=0x10FFFF {
        if let Some(c) = char::from_u32(code) {
            assert_eq!(is_white_space(c), c.is_whitespace(), "at U+{:04X}", code);
        }
    }
}
