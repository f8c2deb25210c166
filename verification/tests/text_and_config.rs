use codecsec::config::Config;
use codecsec::text::{joined, i64_text, is_blank_text, parse_unsigned_text, same_text,
    starts_with_text, trim_text, u64_text};

#[test]
fn decimal_rendering() {
    assert_eq!(u64_text(0), "0");
    assert_eq!(u64_text(7), "7");
    assert_eq!(u64_text(1048576), "1048576");
    assert_eq!(u64_text(u64::MAX), "18446744073709551615");
    assert_eq!(i64_text(-42), "-42");
    assert_eq!(i64_text(i64::MIN), "-9223372036854775808");
    assert_eq!(i64_text(15), "15");
}

#[test]
fn unsigned_parsing_follows_from_str() {
    assert_eq!(parse_unsigned_text("8080", 65535), Some(8080));
    assert_eq!(parse_unsigned_text("+12", 65535), Some(12));
    assert_eq!(parse_unsigned_text("65536", 65535), None);
    assert_eq!(parse_unsigned_text("", 65535), None);
    assert_eq!(parse_unsigned_text("+", 65535), None);
    assert_eq!(parse_unsigned_text("-1", 65535), None);
    assert_eq!(parse_unsigned_text(" 1", 65535), None);
    assert_eq!(parse_unsigned_text("12a", 65535), None);
    assert_eq!(parse_unsigned_text("18446744073709551615", u64::MAX), Some(u64::MAX));
    assert_eq!(parse_unsigned_text("18446744073709551616", u64::MAX), None);
    assert_eq!(parse_unsigned_text("007", 100), Some(7));
}

#[test]
fn trimming_and_blanks() {
    assert_eq!(trim_text("  /var/box/1\n"), "/var/box/1");
    assert_eq!(trim_text("\u{3000}a b\t"), "a b");
    assert_eq!(trim_text(" \n\t "), "");
    assert!(is_blank_text(" \r\n\u{a0}"));
    assert!(!is_blank_text(" x "));
    assert!(is_blank_text(""));
}

#[test]
fn prefixes_and_equality() {
    assert!(starts_with_text("application/json; charset=utf-8", "application/json"));
    assert!(!starts_with_text("text/plain", "application/json"));
    assert!(!starts_with_text("application/js", "application/json"));
    assert!(same_text("true", "true"));
    assert!(!same_text("True", "true"));
    assert_eq!(joined("ab", "cd"), "abcd");
}

#[test]
fn config_defaults() {
    let c = Config::from_settings(None, None, None, None, None, None, None);
    assert_eq!(c.port, 54054);
    assert_eq!(c.log_level, "info");
    assert_eq!(c.default_memory_limit_kb, 262144);
    assert_eq!(c.default_time_limit_ms, 2000);
    assert_eq!(c.max_source_size, 1048576);
    assert_eq!(c.max_concurrent_sandboxes, 20);
    assert_eq!(c.worker_threads, 4);
}

#[test]
fn config_from_values() {
    let c = Config::from_settings(
        Some("8080"),
        Some("debug"),
        Some("65536"),
        Some("5000"),
        Some("2048"),
        Some("3"),
        Some("8"),
    );
    assert_eq!(c.port, 8080);
    assert_eq!(c.log_level, "debug");
    assert_eq!(c.default_memory_limit_kb, 65536);
    assert_eq!(c.default_time_limit_ms, 5000);
    assert_eq!(c.max_source_size, 2048);
    assert_eq!(c.max_concurrent_sandboxes, 3);
    assert_eq!(c.worker_threads, 8);
}

#[test]
fn config_rejects_bad_values() {
    let c = Config::from_settings(Some("70000"), None, Some("lots"), Some("-5"), None, Some(""), Some(" 2"));
    assert_eq!(c.port, 54054);
    assert_eq!(c.default_memory_limit_kb, 262144);
    assert_eq!(c.default_time_limit_ms, 2000);
    assert_eq!(c.max_concurrent_sandboxes, 20);
    assert_eq!(c.worker_threads, 4);
}
