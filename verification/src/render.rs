//! The emphasis renderer: computes, for a matching line, the exact
//! ordered sequence of output segments — blank indent lines, color
//! directives, and the framed body.

use vstd::prelude::*;
use crate::color::Color;
use crate::context::{Context, ContextV, FrameMode};
use crate::text::push_char;

verus! {

/// One piece of emphasized output: a blank line, a color directive, or a
/// line of text.
#[derive(PartialEq, Eq, Debug)]
pub enum Segment {
    Blank,
    SetColor(Color),
    ResetColor,
    Text(String),
}

/// The mathematical shape of a `Segment`.
#[verifier::ext_equal]
pub enum SegView {
    Blank,
    SetColor(Color),
    ResetColor,
    Text(Seq<char>),
}

impl View for Segment {
    type V = SegView;

    open spec fn view(&self) -> SegView {
        match self {
            Segment::Blank => SegView::Blank,
            Segment::SetColor(c) => SegView::SetColor(*c),
            Segment::ResetColor => SegView::ResetColor,
            Segment::Text(s) => SegView::Text(s@),
        }
    }
}

impl DeepView for Segment {
    type V = SegView;

    open spec fn deep_view(&self) -> SegView {
        self@
    }
}

/// A full-width rule: the emphasizer repeated `n` times.
pub open spec fn spec_rule(emph: char, n: nat) -> Seq<char> {
    Seq::new(n, |i: int| emph)
}

/// A prefixed line: the emphasizer, a space, then the line.
pub open spec fn spec_prefix(emph: char, line: Seq<char>) -> Seq<char> {
    seq![emph, ' '] + line
}

/// A wrapped line: the prefixed line, a space, then the emphasizer again.
pub open spec fn spec_wrapped(emph: char, line: Seq<char>) -> Seq<char> {
    spec_prefix(emph, line) + seq![' ', emph]
}

/// `n` blank lines.
pub open spec fn spec_blanks(n: nat) -> Seq<SegView> {
    Seq::new(n, |i: int| SegView::Blank)
}

/// The framed body of an emphasized line, by frame mode.
pub open spec fn spec_body(cv: ContextV, line: Seq<char>) -> Seq<SegView> {
    match cv.frame_mode {
        FrameMode::Plain => seq![SegView::Text(line)],
        FrameMode::Frame => seq![
            SegView::Text(spec_rule(cv.emphasizer, line.len())),
            SegView::Text(line),
            SegView::Text(spec_rule(cv.emphasizer, line.len())),
        ],
        FrameMode::Prefix => seq![SegView::Text(spec_prefix(cv.emphasizer, line))],
        FrameMode::All => seq![
            SegView::Text(spec_rule(cv.emphasizer, line.len() + 4)),
            SegView::Text(spec_wrapped(cv.emphasizer, line)),
            SegView::Text(spec_rule(cv.emphasizer, line.len() + 4)),
        ],
    }
}

/// The enter-color directive, when color is enabled.
pub open spec fn spec_color_on(cv: ContextV) -> Seq<SegView> {
    if cv.with_color {
        seq![SegView::SetColor(cv.text_color)]
    } else {
        Seq::empty()
    }
}

/// The reset directive, when color is enabled.
pub open spec fn spec_color_off(cv: ContextV) -> Seq<SegView> {
    if cv.with_color {
        seq![SegView::ResetColor]
    } else {
        Seq::empty()
    }
}

/// Everything emitted for one matching line, in order: the indent blanks,
/// the color directive, the framed body, the reset, the indent blanks.
pub open spec fn spec_render(cv: ContextV, line: Seq<char>) -> Seq<SegView> {
    spec_blanks(cv.indent as nat) + spec_color_on(cv) + spec_body(cv, line) + spec_color_off(cv)
        + spec_blanks(cv.indent as nat)
}

/// Everything emitted for one input line: the emphasis when it matches,
/// the line untouched when it does not.
pub open spec fn spec_process(cv: ContextV, line: Seq<char>) -> Seq<SegView> {
    if cv.spec_matches(line) {
        spec_render(cv, line)
    } else {
        seq![SegView::Text(line)]
    }
}

/// In `Frame` mode the body is the line between a top and a bottom rule,
/// both of a length exactly equal to the line's.
pub proof fn lemma_frame_rule_lengths(cv: ContextV, line: Seq<char>)
    requires
        cv.frame_mode == FrameMode::Frame,
    ensures
        spec_body(cv, line).len() == 3,
        spec_body(cv, line)[0] matches SegView::Text(top) && top.len() == line.len(),
        spec_body(cv, line)[1] == SegView::Text(line),
        spec_body(cv, line)[2] == spec_body(cv, line)[0],
{
}

/// In `All` mode the body is the wrapped line between a top and a bottom
/// rule, every one of the three exactly four longer than the line.
pub proof fn lemma_all_rule_lengths(cv: ContextV, line: Seq<char>)
    requires
        cv.frame_mode == FrameMode::All,
    ensures
        spec_body(cv, line).len() == 3,
        spec_body(cv, line)[0] matches SegView::Text(top) && top.len() == line.len() + 4,
        spec_body(cv, line)[1] matches SegView::Text(mid) && mid.len() == line.len() + 4,
        spec_body(cv, line)[1] == SegView::Text(spec_wrapped(cv.emphasizer, line)),
        spec_body(cv, line)[2] == spec_body(cv, line)[0],
{
}

/// In `Prefix` mode the body is exactly one line: the emphasizer, a
/// space, then the line.
pub proof fn lemma_prefix_single_line(cv: ContextV, line: Seq<char>)
    requires
        cv.frame_mode == FrameMode::Prefix,
    ensures
        spec_body(cv, line) == seq![SegView::Text(seq![cv.emphasizer, ' '] + line)],
{
}

/// With no framing, no color and no indent, the emphasized output is the
/// plain line, untouched.
pub proof fn lemma_plain_render_identity(cv: ContextV, line: Seq<char>)
    requires
        cv.frame_mode == FrameMode::Plain,
        !cv.with_color,
        cv.indent == 0,
    ensures
        spec_render(cv, line) == seq![SegView::Text(line)],
{
    assert(spec_render(cv, line) =~= seq![SegView::Text(line)]);
}

impl Context {
    /// A full-width rule of the given length, built of the emphasizer.
    fn emphasize_line(&self, length: usize) -> (r: String)
        ensures
            r@ == spec_rule(self.emphasizer, length as nat),
    {
        let mut out = String::new();
        let mut k: usize = 0;
        while k < length
            invariant
                k <= length,
                out@ == spec_rule(self.emphasizer, k as nat),
            decreases length - k,
        {
            push_char(&mut out, self.emphasizer);
            k += 1;
            proof {
                assert(out@ =~= spec_rule(self.emphasizer, k as nat));
            }
        }
        out
    }

    /// The line with the emphasizer and a space put before it.
    pub fn prefix_line(&self, line: &str) -> (r: String)
        ensures
            r@ == spec_prefix(self.emphasizer, line@),
    {
        let mut out = String::new();
        push_char(&mut out, self.emphasizer);
        push_char(&mut out, ' ');
        out.append(line);
        proof {
            assert(out@ =~= spec_prefix(self.emphasizer, line@));
        }
        out
    }

    /// The prefixed line with a space and the emphasizer after it.
    pub fn wrapped_line(&self, line: &str) -> (r: String)
        ensures
            r@ == spec_wrapped(self.emphasizer, line@),
    {
        let mut out = self.prefix_line(line);
        push_char(&mut out, ' ');
        push_char(&mut out, self.emphasizer);
        proof {
            assert(out@ =~= spec_wrapped(self.emphasizer, line@));
        }
        out
    }

    /// Renders one matching line: the exact sequence of output segments,
    /// in order.
    pub fn render(&self, line: &str) -> (segs: Vec<Segment>)
        requires
            line@.len() + 4 <= usize::MAX,
        ensures
            segs.deep_view() == spec_render(self@, line@),
    {
        let mut segs: Vec<Segment> = Vec::new();
        let mut k: usize = 0;
        while k < self.indent as usize
            invariant
                k <= self.indent,
                segs@.len() == k,
                forall|i: int| 0 <= i < k ==> (#[trigger] segs@[i])@ == SegView::Blank,
            decreases self.indent - k,
        {
            segs.push(Segment::Blank);
            k += 1;
        }
        proof {
            assert(segs.deep_view() =~~= spec_blanks(self@.indent as nat));
        }
        if self.with_color {
            segs.push(Segment::SetColor(self.text_color));
        }
        proof {
            assert(segs.deep_view() =~~= spec_blanks(self@.indent as nat) + spec_color_on(
                self@,
            ));
        }
        let ghost head = spec_blanks(self@.indent as nat) + spec_color_on(self@);
        match self.frame_mode {
            FrameMode::Plain => {
                segs.push(Segment::Text(String::from_str(line)));
            },
            FrameMode::Frame => {
                let n = line.unicode_len();
                segs.push(Segment::Text(self.emphasize_line(n)));
                segs.push(Segment::Text(String::from_str(line)));
                segs.push(Segment::Text(self.emphasize_line(n)));
            },
            FrameMode::Prefix => {
                segs.push(Segment::Text(self.prefix_line(line)));
            },
            FrameMode::All => {
                let n = line.unicode_len();
                segs.push(Segment::Text(self.emphasize_line(n + 4)));
                segs.push(Segment::Text(self.wrapped_line(line)));
                segs.push(Segment::Text(self.emphasize_line(n + 4)));
            },
        }
        proof {
            assert(segs.deep_view() =~~= head + spec_body(self@, line@));
        }
        if self.with_color {
            segs.push(Segment::ResetColor);
        }
        let ghost mid = head + spec_body(self@, line@) + spec_color_off(self@);
        proof {
            assert(segs.deep_view() =~~= mid);
            assert forall|i: int| 0 <= i < mid.len() implies (#[trigger] segs@[i])@ == mid[i] by {
                assert(segs.deep_view()[i] == mid[i]);
            }
        }
        let ghost mid_len = mid.len();
        let mut j: usize = 0;
        while j < self.indent as usize
            invariant
                j <= self.indent,
                mid_len == mid.len(),
                segs@.len() == mid_len + j,
                forall|i: int| 0 <= i < mid_len ==> (#[trigger] segs@[i])@ == mid[i],
                forall|i: int|
                    mid_len <= i < mid_len + j ==> (#[trigger] segs@[i])@ == SegView::Blank,
            decreases self.indent - j,
        {
            segs.push(Segment::Blank);
            j += 1;
        }
        proof {
            assert(segs.deep_view() =~~= mid + spec_blanks(self@.indent as nat));
            assert(mid + spec_blanks(self@.indent as nat) =~~= spec_render(self@, line@));
        }
        segs
    }

    /// Everything to emit for one input line: non-matching lines pass
    /// through as a single unchanged text segment and are never rendered;
    /// matching lines are rendered.
    pub fn process_line(&self, line: &str) -> (segs: Vec<Segment>)
        requires
            self@.criterion_ok(),
            line@.len() + 4 <= usize::MAX,
        ensures
            segs.deep_view() == spec_process(self@, line@),
            !self@.spec_matches(line@) ==> segs.deep_view() == seq![SegView::Text(line@)],
    {
        if self.match_line(line) {
            self.render(line)
        } else {
            let mut segs: Vec<Segment> = Vec::new();
            segs.push(Segment::Text(String::from_str(line)));
            proof {
                assert(segs.deep_view() =~~= seq![SegView::Text(line@)]);
            }
            segs
        }
    }

    /// `process_line`, without assuming the criterion usable: `None` when
    /// the configured pattern does not compile or the line is too long to
    /// frame.
    pub fn try_process_line(&self, line: &str) -> (r: Option<Vec<Segment>>)
        ensures
            r matches Some(segs) ==> self@.criterion_ok() && segs.deep_view() == spec_process(
                self@,
                line@,
            ),
            self@.criterion_ok() && line@.len() + 4 <= usize::MAX ==> r is Some,
    {
        if line.unicode_len() > usize::MAX - 4 {
            return None;
        }
        match self.try_match_line(line) {
            None => None,
            Some(true) => Some(self.render(line)),
            Some(false) => {
                let mut segs: Vec<Segment> = Vec::new();
                segs.push(Segment::Text(String::from_str(line)));
                proof {
                    assert(segs.deep_view() =~~= seq![SegView::Text(line@)]);
                }
                Some(segs)
            },
        }
    }
}

} // verus!
