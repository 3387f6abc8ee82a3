use emphasize::{Color, Context, FrameMode};
use emphasize::matcher::contains_str;

fn ctx(match_value: &str, is_regexp: bool) -> Context {
    Context {
        input_filename: String::new(),
        match_value: String::from(match_value),
        is_regexp,
        indent: 0,
        emphasizer: '!',
        frame_mode: FrameMode::Plain,
        with_color: true,
        text_color: Color::BrightRed,
        print_help: false,
        error_text: String::new(),
    }
}

#[test]
fn literal_containment() {
    let c = ctx("world", false);
    assert!(c.match_line("hello world"));
    assert!(!c.match_line("hello there"));
}

#[test]
fn literal_match_is_case_sensitive() {
    let c = ctx("World", false);
    assert!(!c.match_line("hello world"));
    assert!(c.match_line("hello World"));
}

#[test]
fn empty_match_text_matches_every_line() {
    let c = ctx("", false);
    assert!(c.match_line("hello world"));
    assert!(c.match_line(""));
    assert!(c.match_line("x"));
}

#[test]
fn needle_longer_than_line_never_matches() {
    let c = ctx("hello world and more", false);
    assert!(!c.match_line("hello world"));
}

#[test]
fn regex_anchored_prefix() {
    let c = ctx("^err", true);
    assert_eq!(c.try_match_line("error: disk full"), Some(true));
    assert_eq!(c.try_match_line("warning: ok"), Some(false));
}

#[test]
fn regex_searches_anywhere() {
    let c = ctx("a.c", true);
    assert_eq!(c.try_match_line("xxabcxx"), Some(true));
    assert_eq!(c.try_match_line("abacus"), Some(false));
}

#[test]
fn invalid_regex_gives_no_verdict() {
    let c = ctx("(", true);
    assert_eq!(c.try_match_line("anything"), None);
    assert!(c.try_process_line("anything").is_none());
}

#[test]
fn contains_str_finds_substrings() {
    assert!(contains_str("hello world", "lo wo"));
    assert!(contains_str("hello world", "hello"));
    assert!(contains_str("hello world", "world"));
    assert!(contains_str("hello world", ""));
    assert!(!contains_str("hello world", "worlds"));
    assert!(!contains_str("", "a"));
    assert!(contains_str("aaab", "aab"));
}
