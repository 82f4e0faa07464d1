use playbot::text::contains_str;
use playbot::text::find_str;
use playbot::text::starts_with_str;
use playbot::text::str_eq;
use playbot::text::trim_str;
use playbot::text::u64_to_string;
use playbot::notice::avatar_url;
use playbot::notice::format_duration;
use playbot::notice::skip_notice;
use playbot::youtube::i32_to_string;

#[test]
fn find_str_first_occurrence() {
    assert_eq!(find_str("abcabc", "bc"), Some(1));
    assert_eq!(find_str("abcabc", "zz"), None);
    assert_eq!(find_str("abc", ""), Some(0));
    assert_eq!(find_str("", "a"), None);
}

#[test]
fn contains_and_prefix() {
    assert!(contains_str("open.spotify.com/track/1", "/track/"));
    assert!(!contains_str("open.spotify.com", "/track/"));
    assert!(starts_with_str("pb!play x", "pb!play"));
    assert!(!starts_with_str("pb!pla", "pb!play"));
}

#[test]
fn str_eq_compares_contents() {
    assert!(str_eq("abc", "abc"));
    assert!(!str_eq("abc", "abd"));
    assert!(!str_eq("abc", "ab"));
    assert!(str_eq("", ""));
}

#[test]
fn trim_removes_surrounding_whitespace() {
    assert_eq!(trim_str("  a b \t"), "a b");
    assert_eq!(trim_str("\r\nx\n"), "x");
    assert_eq!(trim_str("   "), "");
    assert_eq!(trim_str("y"), "y");
}

#[test]
fn unsigned_decimal() {
    assert_eq!(u64_to_string(0), "0");
    assert_eq!(u64_to_string(7), "7");
    assert_eq!(u64_to_string(42), "42");
    assert_eq!(u64_to_string(1234567890), "1234567890");
    assert_eq!(u64_to_string(u64::MAX), "18446744073709551615");
}

#[test]
fn signed_decimal() {
    assert_eq!(i32_to_string(0), "0");
    assert_eq!(i32_to_string(-5), "-5");
    assert_eq!(i32_to_string(i32::MIN), "-2147483648");
    assert_eq!(i32_to_string(404), "404");
}

#[test]
fn duration_clock() {
    assert_eq!(format_duration(0), "00:00");
    assert_eq!(format_duration(999), "00:00");
    assert_eq!(format_duration(63_000), "01:03");
    assert_eq!(format_duration(3_600_000), "01:00:00");
    assert_eq!(format_duration(3_723_000), "01:02:03");
    assert_eq!(format_duration(u32::MAX), "1193:02:47");
}

#[test]
fn skip_notice_text() {
    assert_eq!(
        skip_notice("Tune", "alice"),
        "Tune has been skipped by @alice"
    );
}

#[test]
fn avatar_address() {
    assert_eq!(
        avatar_url(12, "ff00", false),
        "https://cdn.discordapp.com/avatars/12/ff00.png"
    );
    assert_eq!(
        avatar_url(12, "a_ff00", true),
        "https://cdn.discordapp.com/avatars/12/a_ff00.gif"
    );
}
