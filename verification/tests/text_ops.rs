use figma_flow_capture::text::{
    bool_to_string, concat2, contains_str, ends_with, first_line, join_strings, prefix_before_char,
    split_str, str_eq, trim_str, u64_to_string,
};

#[test]
fn trim_removes_surrounding_whitespace() {
    assert_eq!(trim_str("  v20.0.0\n"), "v20.0.0");
    assert_eq!(trim_str("\t \r\n"), "");
    assert_eq!(trim_str(""), "");
    assert_eq!(trim_str("plain"), "plain");
    assert_eq!(trim_str("a b"), "a b");
}

#[test]
fn first_line_stops_at_the_line_feed() {
    assert_eq!(first_line("ffmpeg version 6.0\nbuilt with"), Some("ffmpeg version 6.0".to_string()));
    assert_eq!(first_line("one line"), Some("one line".to_string()));
    assert_eq!(first_line("crlf\r\nrest"), Some("crlf".to_string()));
    assert_eq!(first_line(""), None);
    assert_eq!(first_line("\nsecond"), Some("".to_string()));
    // A carriage return not followed by a line feed is no line ending, as
    // for `str::lines`.
    assert_eq!(first_line("baz\r"), Some("baz\r".to_string()));
    assert_eq!("baz\r".lines().next(), Some("baz\r"));
}

#[test]
fn split_keeps_empty_chunks() {
    assert_eq!(split_str("a:b", ':'), vec!["a".to_string(), "b".to_string()]);
    assert_eq!(split_str(":a:", ':'), vec!["".to_string(), "a".to_string(), "".to_string()]);
    assert_eq!(split_str("", ':'), vec!["".to_string()]);
    assert_eq!(split_str("abc", ':'), vec!["abc".to_string()]);
}

#[test]
fn join_glues_with_the_separator() {
    let parts = vec!["--url".to_string(), "u".to_string(), "--mode".to_string()];
    assert_eq!(join_strings(&parts, " "), "--url u --mode");
    assert_eq!(join_strings(&vec!["solo".to_string()], " "), "solo");
    assert_eq!(join_strings(&Vec::new(), " "), "");
}

#[test]
fn decimal_rendering_is_exact() {
    assert_eq!(u64_to_string(0), "0");
    assert_eq!(u64_to_string(10), "10");
    assert_eq!(u64_to_string(1700000000123), "1700000000123");
    assert_eq!(u64_to_string(u64::MAX), "18446744073709551615");
    assert_eq!(bool_to_string(true), "true");
    assert_eq!(bool_to_string(false), "false");
}

#[test]
fn substring_and_suffix_checks() {
    assert!(contains_str("/proj/gui/src-tauri", "src-tauri"));
    assert!(!contains_str("/proj", "gui"));
    assert!(contains_str("anything", ""));
    assert!(ends_with("/proj/gui", "gui"));
    assert!(!ends_with("/proj/gui/x", "gui"));
    assert!(str_eq("same", "same"));
    assert!(!str_eq("same", "other"));
}

#[test]
fn prefix_before_the_query_separator() {
    assert_eq!(prefix_before_char("abc?query=1", '?'), "abc");
    assert_eq!(prefix_before_char("abc", '?'), "abc");
    assert_eq!(prefix_before_char("?x", '?'), "");
    assert_eq!(concat2("a", "b"), "ab");
}
