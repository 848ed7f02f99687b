use git_sv::text::{pad_left, pad_right, truncate, truncate_start};

#[test]
fn test_truncate_short_string() {
    assert_eq!(truncate("hello", 10, true), "hello");
}

#[test]
fn test_truncate_long_string() {
    assert_eq!(truncate("hello world", 5, true), "hell…");
    assert_eq!(truncate("hello world", 5, false), "hello");
}

#[test]
fn test_truncate_unicode() {
    assert_eq!(truncate("héllo wörld", 5, true), "héll…");
}

#[test]
fn test_truncate_start() {
    assert_eq!(
        truncate_start("/a/very/long/path/file.rs", 15, true),
        "…g/path/file.rs"
    );
}

#[test]
fn truncate_to_zero_gives_empty_text() {
    assert_eq!(truncate("hello", 0, true), "");
    assert_eq!(truncate("hello", 0, false), "");
}

#[test]
fn truncate_start_without_ellipsis_keeps_the_end() {
    assert_eq!(truncate_start("abcdef", 3, false), "def");
    assert_eq!(truncate_start("abc", 3, true), "abc");
}

#[test]
fn pad_right_fills_with_spaces_after() {
    assert_eq!(pad_right("ab", 5), "ab   ");
    assert_eq!(pad_right("abcdef", 3), "abcdef");
}

#[test]
fn pad_left_fills_with_spaces_before() {
    assert_eq!(pad_left("ab", 5), "   ab");
    assert_eq!(pad_left("é", 3), "  é");
}
