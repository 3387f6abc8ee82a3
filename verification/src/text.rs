//! Character-level text helpers shared by the matcher, the renderer and
//! the configuration builder.

use vstd::prelude::*;

verus! {

/// Relies on std's `String::push`: appends the given character to the end
/// of the string.
#[verifier::external_body]
pub(crate) fn push_char(s: &mut String, c: char)
    ensures
        final(s)@ == old(s)@.push(c),
{
    s.push(c);
}

/// Character-by-character equality of two string slices.
pub fn str_eq(a: &str, b: &str) -> (r: bool)
    ensures
        r == (a@ == b@),
{
    let a_len = a.unicode_len();
    let b_len = b.unicode_len();
    if a_len != b_len {
        return false;
    }
    let mut i: usize = 0;
    while i < a_len
        invariant
            a_len == a@.len(),
            b_len == b@.len(),
            a_len == b_len,
            i <= a_len,
            forall|j: int| 0 <= j < i ==> a@[j] == b@[j],
        decreases a_len - i,
    {
        if a.get_char(i) != b.get_char(i) {
            return false;
        }
        i += 1;
    }
    proof {
        assert(a@ =~= b@);
    }
    true
}

/// The lower-casing of a text, as Unicode defines it: a function of the
/// characters alone.
pub uninterp spec fn lower_of(s: Seq<char>) -> Seq<char>;

/// Relies on std's `str::to_lowercase`: the result depends on the
/// characters of the input alone.
#[verifier::external_body]
pub(crate) fn lowercase(s: &str) -> (r: String)
    ensures
        r@ == lower_of(s@),
{
    s.to_lowercase()
}

/// Glues two pieces of text together.
pub fn concat2(a: &str, b: &str) -> (r: String)
    ensures
        r@ == a@ + b@,
{
    let mut out = String::from_str(a);
    out.append(b);
    out
}

/// Glues four pieces of text together.
pub fn concat4(a: &str, b: &str, c: &str, d: &str) -> (r: String)
    ensures
        r@ == a@ + b@ + c@ + d@,
{
    let mut out = String::from_str(a);
    out.append(b);
    out.append(c);
    out.append(d);
    out
}

/// Why a string failed to parse as a `u8`.
#[derive(Clone, Copy, PartialEq, Eq, Debug, Structural)]
pub enum NumError {
    Empty,
    InvalidDigit,
    Overflow,
}

impl NumError {
    /// The error's message.
    pub open spec fn spec_text(self) -> Seq<char> {
        match self {
            NumError::Empty => "cannot parse integer from empty string"@,
            NumError::InvalidDigit => "invalid digit found in string"@,
            NumError::Overflow => "number too large to fit in target type"@,
        }
    }

    /// Renders the error's message.
    pub fn text(&self) -> (r: String)
        ensures
            r@ == self.spec_text(),
    {
        match self {
            NumError::Empty => String::from_str("cannot parse integer from empty string"),
            NumError::InvalidDigit => String::from_str("invalid digit found in string"),
            NumError::Overflow => String::from_str("number too large to fit in target type"),
        }
    }
}

/// The character is a decimal digit.
pub open spec fn is_digit(c: char) -> bool {
    48 <= c as int <= 57
}

/// The value of a decimal digit character.
pub open spec fn digit_val(c: char) -> int {
    c as int - 48
}

/// A left-to-right scan of the digits of `s` from position `i` onward,
/// starting from the already accumulated value `acc`: the first non-digit
/// stops it, as does the first step that leaves the `u8` range.
pub open spec fn spec_scan_u8(s: Seq<char>, i: int, acc: int) -> Result<u8, NumError>
    decreases s.len() - i,
{
    if i >= s.len() {
        Result::Ok(acc as u8)
    } else if !is_digit(s[i]) {
        Result::Err(NumError::InvalidDigit)
    } else if acc * 10 + digit_val(s[i]) > 255 {
        Result::Err(NumError::Overflow)
    } else {
        spec_scan_u8(s, i + 1, acc * 10 + digit_val(s[i]))
    }
}

/// How `s` reads as a decimal `u8`: an optional leading `+`, then one or
/// more digits, with a value of at most 255.
pub open spec fn spec_parse_u8(s: Seq<char>) -> Result<u8, NumError> {
    if s.len() == 0 {
        Result::Err(NumError::Empty)
    } else if s[0] == '+' {
        if s.len() == 1 {
            Result::Err(NumError::InvalidDigit)
        } else {
            spec_scan_u8(s, 1, 0)
        }
    } else {
        spec_scan_u8(s, 0, 0)
    }
}

/// Reads a decimal `u8` from a string: an optional leading `+`, then one
/// or more digits, rejecting values above 255.
pub fn parse_u8(s: &str) -> (r: Result<u8, NumError>)
    ensures
        r == spec_parse_u8(s@),
{
    let len = s.unicode_len();
    if len == 0 {
        return Err(NumError::Empty);
    }
    let first = s.get_char(0);
    let start: usize = if first == '+' {
        1
    } else {
        0
    };
    if first == '+' && len == 1 {
        return Err(NumError::InvalidDigit);
    }
    let mut i: usize = start;
    let mut acc: u32 = 0;
    while i < len
        invariant
            len == s@.len(),
            i <= len,
            acc <= 255,
            spec_parse_u8(s@) == spec_scan_u8(s@, i as int, acc as int),
        decreases len - i,
    {
        let c = s.get_char(i);
        let cv = c as u32;
        if cv < 48 || cv > 57 {
            return Err(NumError::InvalidDigit);
        }
        let d = cv - 48;
        let next = acc * 10 + d;
        if next > 255 {
            return Err(NumError::Overflow);
        }
        acc = next;
        i += 1;
    }
    Ok(acc as u8)
}

} // verus!
