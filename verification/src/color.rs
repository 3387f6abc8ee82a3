//! The closed palette of sixteen named terminal colors and the lookup
//! from a (lower-case) color name.

use vstd::prelude::*;
use crate::text::str_eq;

verus! {

/// One of the sixteen named terminal foreground colors.
#[derive(Clone, Copy, PartialEq, Eq, Debug, Structural)]
pub enum Color {
    Black,
    Blue,
    BrightBlack,
    BrightBlue,
    BrightCyan,
    BrightGreen,
    BrightMagenta,
    BrightRed,
    BrightWhite,
    BrightYellow,
    Cyan,
    Green,
    Magenta,
    Red,
    White,
    Yellow,
}

/// The palette lookup: which color a (lower-case) name denotes, if any.
pub open spec fn spec_color_from_name(s: Seq<char>) -> Option<Color> {
    if s == "black"@ {
        Option::Some(Color::Black)
    } else if s == "blue"@ {
        Option::Some(Color::Blue)
    } else if s == "bright_black"@ {
        Option::Some(Color::BrightBlack)
    } else if s == "bright_blue"@ {
        Option::Some(Color::BrightBlue)
    } else if s == "bright_cyan"@ {
        Option::Some(Color::BrightCyan)
    } else if s == "bright_green"@ {
        Option::Some(Color::BrightGreen)
    } else if s == "bright_magenta"@ {
        Option::Some(Color::BrightMagenta)
    } else if s == "bright_red"@ {
        Option::Some(Color::BrightRed)
    } else if s == "bright_white"@ {
        Option::Some(Color::BrightWhite)
    } else if s == "bright_yellow"@ {
        Option::Some(Color::BrightYellow)
    } else if s == "cyan"@ {
        Option::Some(Color::Cyan)
    } else if s == "green"@ {
        Option::Some(Color::Green)
    } else if s == "magenta"@ {
        Option::Some(Color::Magenta)
    } else if s == "red"@ {
        Option::Some(Color::Red)
    } else if s == "white"@ {
        Option::Some(Color::White)
    } else if s == "yellow"@ {
        Option::Some(Color::Yellow)
    } else {
        Option::None
    }
}

/// Looks a (lower-case) color name up in the palette.
pub fn color_from_name(s: &str) -> (r: Option<Color>)
    ensures
        r == spec_color_from_name(s@),
{
    if str_eq(s, "black") {
        Some(Color::Black)
    } else if str_eq(s, "blue") {
        Some(Color::Blue)
    } else if str_eq(s, "bright_black") {
        Some(Color::BrightBlack)
    } else if str_eq(s, "bright_blue") {
        Some(Color::BrightBlue)
    } else if str_eq(s, "bright_cyan") {
        Some(Color::BrightCyan)
    } else if str_eq(s, "bright_green") {
        Some(Color::BrightGreen)
    } else if str_eq(s, "bright_magenta") {
        Some(Color::BrightMagenta)
    } else if str_eq(s, "bright_red") {
        Some(Color::BrightRed)
    } else if str_eq(s, "bright_white") {
        Some(Color::BrightWhite)
    } else if str_eq(s, "bright_yellow") {
        Some(Color::BrightYellow)
    } else if str_eq(s, "cyan") {
        Some(Color::Cyan)
    } else if str_eq(s, "green") {
        Some(Color::Green)
    } else if str_eq(s, "magenta") {
        Some(Color::Magenta)
    } else if str_eq(s, "red") {
        Some(Color::Red)
    } else if str_eq(s, "white") {
        Some(Color::White)
    } else if str_eq(s, "yellow") {
        Some(Color::Yellow)
    } else {
        None
    }
}

} // verus!
