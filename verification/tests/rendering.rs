use emphasize::{Color, Context, FrameMode, Segment};

fn ctx(mode: FrameMode, emph: char) -> Context {
    Context {
        input_filename: String::new(),
        match_value: String::new(),
        is_regexp: false,
        indent: 0,
        emphasizer: emph,
        frame_mode: mode,
        with_color: false,
        text_color: Color::BrightRed,
        print_help: false,
        error_text: String::new(),
    }
}

fn texts(segs: &[Segment]) -> Vec<String> {
    let mut out = Vec::new();
    for seg in segs {
        match seg {
            Segment::Text(s) => out.push(s.clone()),
            _ => panic!("expected only text segments"),
        }
    }
    out
}

#[test]
fn frame_mode_hello_world() {
    let c = ctx(FrameMode::Frame, '*');
    let segs = c.render("hello world");
    assert_eq!(
        texts(&segs),
        vec![
            String::from("***********"),
            String::from("hello world"),
            String::from("***********"),
        ]
    );
}

#[test]
fn frame_rule_length_equals_line_length() {
    let c = ctx(FrameMode::Frame, '!');
    let segs = c.render("abcd");
    let lines = texts(&segs);
    assert_eq!(lines.len(), 3);
    assert_eq!(lines[0].len(), "abcd".len());
    assert_eq!(lines[2].len(), "abcd".len());
    assert_eq!(lines[0], "!!!!");
}

#[test]
fn all_mode_hello_world() {
    let c = ctx(FrameMode::All, '#');
    let segs = c.render("hello world");
    assert_eq!(
        texts(&segs),
        vec![
            String::from("###############"),
            String::from("# hello world #"),
            String::from("###############"),
        ]
    );
}

#[test]
fn all_rule_length_is_line_length_plus_four() {
    let c = ctx(FrameMode::All, '!');
    let segs = c.render("xy");
    let lines = texts(&segs);
    assert_eq!(lines.len(), 3);
    assert_eq!(lines[0].len(), 2 + 4);
    assert_eq!(lines[1], "! xy !");
    assert_eq!(lines[2].len(), 2 + 4);
}

#[test]
fn prefix_mode_is_one_line() {
    let c = ctx(FrameMode::Prefix, '>');
    let segs = c.render("hello world");
    assert_eq!(segs, vec![Segment::Text(String::from("> hello world"))]);
}

#[test]
fn plain_uncolored_unindented_is_identity() {
    let c = ctx(FrameMode::Plain, '!');
    let segs = c.render("hello world");
    assert_eq!(segs, vec![Segment::Text(String::from("hello world"))]);
}

#[test]
fn color_and_indent_bracket_the_body() {
    let mut c = ctx(FrameMode::Plain, '!');
    c.with_color = true;
    c.text_color = Color::Green;
    c.indent = 2;
    let segs = c.render("hi");
    assert_eq!(
        segs,
        vec![
            Segment::Blank,
            Segment::Blank,
            Segment::SetColor(Color::Green),
            Segment::Text(String::from("hi")),
            Segment::ResetColor,
            Segment::Blank,
            Segment::Blank,
        ]
    );
}

#[test]
fn empty_line_in_frame_mode() {
    let c = ctx(FrameMode::Frame, '*');
    let segs = c.render("");
    assert_eq!(
        texts(&segs),
        vec![String::new(), String::new(), String::new()]
    );
}

#[test]
fn empty_line_in_all_mode() {
    let c = ctx(FrameMode::All, '*');
    let segs = c.render("");
    assert_eq!(
        texts(&segs),
        vec![String::from("****"), String::from("*  *"), String::from("****")]
    );
}

#[test]
fn prefix_line_puts_emphasizer_and_space_before() {
    let c = ctx(FrameMode::Prefix, '*');
    assert_eq!(c.prefix_line("hello world"), "* hello world");
}

#[test]
fn wrapped_line_wraps_both_sides() {
    let c = ctx(FrameMode::All, '*');
    assert_eq!(c.wrapped_line("hello world"), "* hello world *");
}

#[test]
fn non_matching_line_passes_through_unchanged() {
    let mut c = ctx(FrameMode::All, '*');
    c.match_value = String::from("absent");
    c.with_color = true;
    c.indent = 3;
    let segs = c.try_process_line("hello world").unwrap();
    assert_eq!(segs, vec![Segment::Text(String::from("hello world"))]);
}

#[test]
fn matching_line_gets_indent_color_and_frame_in_order() {
    let mut c = ctx(FrameMode::Frame, '-');
    c.match_value = String::from("err");
    c.with_color = true;
    c.text_color = Color::BrightRed;
    c.indent = 1;
    let segs = c.try_process_line("an error").unwrap();
    assert_eq!(
        segs,
        vec![
            Segment::Blank,
            Segment::SetColor(Color::BrightRed),
            Segment::Text(String::from("--------")),
            Segment::Text(String::from("an error")),
            Segment::Text(String::from("--------")),
            Segment::ResetColor,
            Segment::Blank,
        ]
    );
}

#[test]
fn matching_line_is_rendered() {
    let mut c = ctx(FrameMode::Frame, '*');
    c.match_value = String::from("world");
    let segs = c.try_process_line("hello world").unwrap();
    assert_eq!(
        texts(&segs),
        vec![
            String::from("***********"),
            String::from("hello world"),
            String::from("***********"),
        ]
    );
}
