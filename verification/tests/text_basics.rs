use iono::text::{decimal_text, has_prefix, percent_encode_text, trim_text};
use iono::time::{add_seconds, seconds_between, UnixTime};

#[test]
fn decimal_numbers() {
    assert_eq!(decimal_text(0), "0");
    assert_eq!(decimal_text(7), "7");
    assert_eq!(decimal_text(10), "10");
    assert_eq!(decimal_text(31_536_000), "31536000");
    assert_eq!(decimal_text(u64::MAX), "18446744073709551615");
}

#[test]
fn prefixes_and_trimming() {
    assert!(has_prefix("https://a", "https://"));
    assert!(has_prefix("abc", ""));
    assert!(!has_prefix("http", "https://"));
    assert!(!has_prefix("xhttps://", "https://"));
    assert_eq!(trim_text("  a b \u{85}"), "a b");
    assert_eq!(trim_text("\u{200b}a"), "\u{200b}a");
    assert_eq!(trim_text(""), "");
}

#[test]
fn percent_encoding_keeps_alphanumerics_only() {
    assert_eq!(percent_encode_text("foo bar?"), "foo%20bar%3F");
    assert_eq!(percent_encode_text("aZ09-_.~"), "aZ09%2D%5F%2E%7E");
}

#[test]
fn whole_seconds_round_toward_zero() {
    let a = UnixTime { secs: 10, nanos: 0 };
    let b = UnixTime { secs: 8, nanos: 500_000_000 };
    assert_eq!(seconds_between(a, b), 1);
    assert_eq!(seconds_between(b, a), -1);
    assert_eq!(seconds_between(a, a), 0);
    assert_eq!(seconds_between(UnixTime { secs: 0, nanos: 999_999_999 }, UnixTime { secs: 0, nanos: 0 }), 0);
    assert_eq!(add_seconds(a, -20), UnixTime { secs: -10, nanos: 0 });
}
