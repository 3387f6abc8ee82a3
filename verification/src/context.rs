//! The run configuration: what to match, and how to emphasize a matching
//! line.

use vstd::prelude::*;
use crate::color::{spec_color_from_name, color_from_name, Color};
use crate::matcher;
use crate::text::{concat2, concat4, lower_of, lowercase, parse_u8, spec_parse_u8, str_eq};

verus! {

/// The rendering style applied to the body of a matching line.
#[derive(Clone, Copy, PartialEq, Eq, Debug, Structural)]
pub enum FrameMode {
    Plain,
    Frame,
    Prefix,
    All,
}

/// Which frame mode a (lower-case) name denotes, if any.
pub open spec fn spec_frame_from_name(s: Seq<char>) -> Result<FrameMode, ()> {
    if s == "none"@ {
        Result::Ok(FrameMode::Plain)
    } else if s == "frame"@ {
        Result::Ok(FrameMode::Frame)
    } else if s == "prefix"@ {
        Result::Ok(FrameMode::Prefix)
    } else if s == "all"@ {
        Result::Ok(FrameMode::All)
    } else {
        Result::Err(())
    }
}

impl FrameMode {
    /// Reads a frame mode from its (lower-case) name.
    pub fn from_str(s: &str) -> (r: Result<FrameMode, ()>)
        ensures
            r == spec_frame_from_name(s@),
    {
        if str_eq(s, "none") {
            Ok(FrameMode::Plain)
        } else if str_eq(s, "frame") {
            Ok(FrameMode::Frame)
        } else if str_eq(s, "prefix") {
            Ok(FrameMode::Prefix)
        } else if str_eq(s, "all") {
            Ok(FrameMode::All)
        } else {
            Err(())
        }
    }
}

/// The configuration of one run: the match criterion, the emphasis
/// parameters, and the help/error outcome of reading the arguments.
#[derive(Debug)]
pub struct Context {
    pub input_filename: String,
    pub match_value: String,
    pub is_regexp: bool,
    /// Blank lines printed before and after an emphasized line.
    pub indent: u8,
    /// The character that framing rules and prefixes are built of.
    pub emphasizer: char,
    pub frame_mode: FrameMode,
    pub with_color: bool,
    pub text_color: Color,
    /// Set when the arguments ask for help or fail to validate.
    pub print_help: bool,
    pub error_text: String,
}

/// The mathematical shape of a `Context`.
#[verifier::ext_equal]
pub struct ContextV {
    pub input_filename: Seq<char>,
    pub match_value: Seq<char>,
    pub is_regexp: bool,
    pub indent: u8,
    pub emphasizer: char,
    pub frame_mode: FrameMode,
    pub with_color: bool,
    pub text_color: Color,
    pub print_help: bool,
    pub error_text: Seq<char>,
}

impl View for Context {
    type V = ContextV;

    open spec fn view(&self) -> ContextV {
        ContextV {
            input_filename: self.input_filename@,
            match_value: self.match_value@,
            is_regexp: self.is_regexp,
            indent: self.indent,
            emphasizer: self.emphasizer,
            frame_mode: self.frame_mode,
            with_color: self.with_color,
            text_color: self.text_color,
            print_help: self.print_help,
            error_text: self.error_text@,
        }
    }
}

impl PartialEq for Context {
    fn eq(&self, other: &Context) -> bool {
        self.input_filename == other.input_filename && self.match_value == other.match_value
            && self.is_regexp == other.is_regexp && self.indent == other.indent
            && self.emphasizer == other.emphasizer && self.frame_mode == other.frame_mode
            && self.with_color == other.with_color && self.text_color == other.text_color
            && self.print_help == other.print_help && self.error_text == other.error_text
    }
}

impl vstd::std_specs::cmp::PartialEqSpecImpl for Context {
    open spec fn obeys_eq_spec() -> bool {
        true
    }

    open spec fn eq_spec(&self, other: &Context) -> bool {
        self@ == other@
    }
}

impl ContextV {
    /// The criterion is usable: in regex mode, the pattern compiles.
    pub open spec fn criterion_ok(self) -> bool {
        self.is_regexp ==> matcher::regex_valid(self.match_value)
    }

    /// The line satisfies the configured match criterion.
    pub open spec fn spec_matches(self, line: Seq<char>) -> bool {
        if self.is_regexp {
            matcher::regex_match(self.match_value, line)
        } else {
            matcher::spec_contains(line, self.match_value)
        }
    }
}

/// An empty literal match text is contained in every line, so every line
/// matches.
pub proof fn lemma_empty_match_text(cv: ContextV, line: Seq<char>)
    requires
        !cv.is_regexp,
        cv.match_value.len() == 0,
    ensures
        cv.spec_matches(line),
{
    assert(line.subrange(0, 0 + cv.match_value.len() as int) =~= cv.match_value);
}

impl Context {
    /// Decides whether the line satisfies the match criterion, without
    /// assuming the criterion usable: `None` when the configured pattern
    /// does not compile.
    pub fn try_match_line(&self, line: &str) -> (r: Option<bool>)
        ensures
            r is Some <==> self@.criterion_ok(),
            r matches Some(b) ==> b == self@.spec_matches(line@),
    {
        if self.is_regexp {
            matcher::regex_is_match(self.match_value.as_str(), line)
        } else {
            Some(matcher::contains_str(line, self.match_value.as_str()))
        }
    }

    /// Decides whether the line satisfies the match criterion: literal
    /// substring containment, or an unanchored regular-expression search.
    pub fn match_line(&self, line: &str) -> (r: bool)
        requires
            self@.criterion_ok(),
        ensures
            r == self@.spec_matches(line@),
    {
        let r = self.try_match_line(line);
        match r {
            Some(b) => b,
            None => unreached(),
        }
    }
}

/// The raw material of a configuration: the option values as the command
/// line gave them, plus the outcome of the caller's probe of the named
/// input file (the one check that takes I/O and so cannot happen here).
pub struct ArgValues {
    /// The help flag was given.
    pub help: bool,
    /// The positional arguments; the first one is the match text.
    pub free: Vec<String>,
    /// The value of the input-file option.
    pub file: Option<String>,
    /// The error the caller's attempt to open that file reported, if it
    /// failed.
    pub file_error: Option<String>,
    /// The value of the indent option.
    pub indent: Option<String>,
    /// The value of the emphasizer option.
    pub emphasizer: Option<String>,
    /// The value of the color option.
    pub color: Option<String>,
    /// The value of the frame-mode option.
    pub frame: Option<String>,
    /// The regexp flag was given.
    pub regexp: bool,
    /// The without-color flag was given.
    pub no_color: bool,
}

/// The mathematical shape of `ArgValues`.
#[verifier::ext_equal]
pub struct ArgValuesV {
    pub help: bool,
    pub free: Seq<Seq<char>>,
    pub file: Option<Seq<char>>,
    pub file_error: Option<Seq<char>>,
    pub indent: Option<Seq<char>>,
    pub emphasizer: Option<Seq<char>>,
    pub color: Option<Seq<char>>,
    pub frame: Option<Seq<char>>,
    pub regexp: bool,
    pub no_color: bool,
}

impl View for ArgValues {
    type V = ArgValuesV;

    open spec fn view(&self) -> ArgValuesV {
        ArgValuesV {
            help: self.help,
            free: self.free.deep_view(),
            file: self.file.deep_view(),
            file_error: self.file_error.deep_view(),
            indent: self.indent.deep_view(),
            emphasizer: self.emphasizer.deep_view(),
            color: self.color.deep_view(),
            frame: self.frame.deep_view(),
            regexp: self.regexp,
            no_color: self.no_color,
        }
    }
}

/// The configuration before any argument is read: match everything
/// literally, read standard input, no indent, `!` as the emphasizer, no
/// framing, bright red color on.
pub open spec fn spec_default() -> ContextV {
    ContextV {
        input_filename: Seq::empty(),
        match_value: Seq::empty(),
        is_regexp: false,
        indent: 0,
        emphasizer: '!',
        frame_mode: FrameMode::Plain,
        with_color: true,
        text_color: Color::BrightRed,
        print_help: false,
        error_text: Seq::empty(),
    }
}

/// The first positional argument, when there is one, becomes the match
/// text.
pub open spec fn spec_apply_free(c: ContextV, a: ArgValuesV) -> ContextV {
    if a.free.len() > 0 {
        ContextV { match_value: a.free[0], ..c }
    } else {
        c
    }
}

/// The input-file option names the input, unless the caller's probe of
/// the file failed.
pub open spec fn spec_apply_file(c: ContextV, a: ArgValuesV) -> ContextV {
    match a.file {
        Option::Some(name) => match a.file_error {
            Option::Some(err) => ContextV {
                print_help: true,
                error_text: "Wrong input file: "@ + name + "\n"@ + err,
                ..c
            },
            Option::None => ContextV { input_filename: name, ..c },
        },
        Option::None => c,
    }
}

/// The indent option is read as a decimal count of blank lines.
pub open spec fn spec_apply_indent(c: ContextV, a: ArgValuesV) -> ContextV {
    match a.indent {
        Option::Some(s) => match spec_parse_u8(s) {
            Result::Ok(n) => ContextV { indent: n, ..c },
            Result::Err(e) => ContextV {
                print_help: true,
                error_text: "Wrong indent: "@ + s + "\n"@ + e.spec_text(),
                ..c
            },
        },
        Option::None => c,
    }
}

/// The first character of the emphasizer option becomes the emphasizer.
pub open spec fn spec_apply_emphasizer(c: ContextV, a: ArgValuesV) -> ContextV {
    match a.emphasizer {
        Option::Some(s) => if s.len() > 0 {
            ContextV { emphasizer: s[0], ..c }
        } else {
            ContextV {
                print_help: true,
                error_text: "Wrong emphasizer specified: "@ + s,
                ..c
            }
        },
        Option::None => c,
    }
}

/// The color option, lower-cased, is looked up in the palette.
pub open spec fn spec_apply_color(c: ContextV, a: ArgValuesV) -> ContextV {
    match a.color {
        Option::Some(s) => match spec_color_from_name(lower_of(s)) {
            Option::Some(col) => ContextV { text_color: col, ..c },
            Option::None => ContextV {
                print_help: true,
                error_text: "Wrong color: "@ + s,
                ..c
            },
        },
        Option::None => c,
    }
}

/// The frame-mode option, lower-cased, names one of the four modes.
pub open spec fn spec_apply_frame(c: ContextV, a: ArgValuesV) -> ContextV {
    match a.frame {
        Option::Some(s) => match spec_frame_from_name(lower_of(s)) {
            Result::Ok(m) => ContextV { frame_mode: m, ..c },
            Result::Err(_) => ContextV {
                print_help: true,
                error_text: "Wrong emphasize mode: "@ + s,
                ..c
            },
        },
        Option::None => c,
    }
}

/// The regexp flag switches to pattern matching; the match text must then
/// compile as a regular expression.
pub open spec fn spec_apply_regexp(c: ContextV, a: ArgValuesV) -> ContextV {
    if a.regexp {
        let c2 = ContextV { is_regexp: true, ..c };
        match matcher::regex_error(c2.match_value) {
            Option::None => c2,
            Option::Some(err) => ContextV {
                print_help: true,
                error_text: "Wrong regexp: "@ + c2.match_value + "\n"@ + err,
                ..c2
            },
        }
    } else {
        c
    }
}

/// The without-color flag disables color.
pub open spec fn spec_apply_no_color(c: ContextV, a: ArgValuesV) -> ContextV {
    if a.no_color {
        ContextV { with_color: false, ..c }
    } else {
        c
    }
}

/// What reading the arguments yields: help short-circuits everything;
/// otherwise each option is validated in turn, a failing one setting the
/// help flag and (over)writing the error text.
pub open spec fn spec_from_args(a: ArgValuesV) -> ContextV {
    if a.help {
        ContextV { print_help: true, ..spec_default() }
    } else {
        spec_apply_no_color(
            spec_apply_regexp(
                spec_apply_frame(
                    spec_apply_color(
                        spec_apply_emphasizer(
                            spec_apply_indent(
                                spec_apply_file(spec_apply_free(spec_default(), a), a),
                                a,
                            ),
                            a,
                        ),
                        a,
                    ),
                    a,
                ),
                a,
            ),
            a,
        )
    }
}

impl Context {
    /// The configuration before any argument is read.
    fn default_config() -> (r: Context)
        ensures
            r@ == spec_default(),
    {
        let r = Context {
            input_filename: String::new(),
            match_value: String::new(),
            is_regexp: false,
            indent: 0,
            emphasizer: '!',
            frame_mode: FrameMode::Plain,
            with_color: true,
            text_color: Color::BrightRed,
            print_help: false,
            error_text: String::new(),
        };
        proof {
            assert(r@ =~= spec_default());
        }
        r
    }

    /// Builds the configuration of a run from the raw option values,
    /// validating each one: a failing option sets the help flag and
    /// describes the failure, the last failure winning.
    pub fn from_args(args: &ArgValues) -> (r: Context)
        ensures
            r@ == spec_from_args(args@),
    {
        let mut context = Context::default_config();
        if args.help {
            context.print_help = true;
            proof {
                assert(context@ =~= spec_from_args(args@));
            }
            return context;
        }

        let ghost c0 = context@;
        if args.free.len() > 0 {
            context.match_value = args.free[0].clone();
        }
        proof {
            assert(context@ =~= spec_apply_free(c0, args@));
        }

        let ghost c1 = context@;
        match &args.file {
            Some(name) => match &args.file_error {
                Some(err) => {
                    let msg = concat4("Wrong input file: ", name.as_str(), "\n", err.as_str());
                    context.print_help = true;
                    context.error_text = msg;
                },
                None => {
                    context.input_filename = name.clone();
                },
            },
            None => {},
        }
        proof {
            assert(context@ =~= spec_apply_file(c1, args@));
        }

        let ghost c2 = context@;
        match &args.indent {
            Some(s) => match parse_u8(s.as_str()) {
                Ok(n) => {
                    context.indent = n;
                },
                Err(e) => {
                    let err_text = e.text();
                    let msg = concat4("Wrong indent: ", s.as_str(), "\n", err_text.as_str());
                    context.print_help = true;
                    context.error_text = msg;
                },
            },
            None => {},
        }
        proof {
            assert(context@ =~= spec_apply_indent(c2, args@));
        }

        let ghost c3 = context@;
        match &args.emphasizer {
            Some(s) => {
                if s.as_str().unicode_len() > 0 {
                    context.emphasizer = s.as_str().get_char(0);
                } else {
                    let msg = concat2("Wrong emphasizer specified: ", s.as_str());
                    context.print_help = true;
                    context.error_text = msg;
                }
            },
            None => {},
        }
        proof {
            assert(context@ =~= spec_apply_emphasizer(c3, args@));
        }

        let ghost c4 = context@;
        match &args.color {
            Some(s) => {
                let folded = lowercase(s.as_str());
                match color_from_name(folded.as_str()) {
                    Some(col) => {
                        context.text_color = col;
                    },
                    None => {
                        let msg = concat2("Wrong color: ", s.as_str());
                        context.print_help = true;
                        context.error_text = msg;
                    },
                }
            },
            None => {},
        }
        proof {
            assert(context@ =~= spec_apply_color(c4, args@));
        }

        let ghost c5 = context@;
        match &args.frame {
            Some(s) => {
                let folded = lowercase(s.as_str());
                match FrameMode::from_str(folded.as_str()) {
                    Ok(m) => {
                        context.frame_mode = m;
                    },
                    Err(_) => {
                        let msg = concat2("Wrong emphasize mode: ", s.as_str());
                        context.print_help = true;
                        context.error_text = msg;
                    },
                }
            },
            None => {},
        }
        proof {
            assert(context@ =~= spec_apply_frame(c5, args@));
        }

        let ghost c6 = context@;
        if args.regexp {
            context.is_regexp = true;
            match matcher::regex_compile_error(context.match_value.as_str()) {
                None => {},
                Some(err) => {
                    let msg = concat4(
                        "Wrong regexp: ",
                        context.match_value.as_str(),
                        "\n",
                        err.as_str(),
                    );
                    context.print_help = true;
                    context.error_text = msg;
                },
            }
        }
        proof {
            assert(context@ =~= spec_apply_regexp(c6, args@));
        }

        let ghost c7 = context@;
        if args.no_color {
            context.with_color = false;
        }
        proof {
            assert(context@ =~= spec_apply_no_color(c7, args@));
            assert(context@ == spec_from_args(args@));
        }
        context
    }
}

/// Reading the same argument values twice yields equal configurations:
/// the outcome is a function of the raw option values alone.
pub proof fn lemma_from_args_deterministic(a: ArgValuesV, c1: ContextV, c2: ContextV)
    requires
        c1 == spec_from_args(a),
        c2 == spec_from_args(a),
    ensures
        c1 == c2,
{
}

} // verus!
