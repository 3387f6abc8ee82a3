//! The match criterion: literal substring containment, implemented and
//! verified here, or a regular-expression search delegated to the regex
//! crate behind trusted wrappers.

use vstd::prelude::*;

verus! {

/// `needle` occurs contiguously somewhere in `hay` (an empty needle
/// occurs in every haystack).
pub open spec fn spec_contains(hay: Seq<char>, needle: Seq<char>) -> bool {
    exists|i: int|
        0 <= i <= hay.len() - needle.len() && #[trigger] hay.subrange(i, i + needle.len())
            == needle
}

/// `needle` occurs in `hay` starting exactly at position `at`.
fn match_at(hay: &str, needle: &str, at: usize) -> (r: bool)
    requires
        hay@.len() <= usize::MAX,
        at + needle@.len() <= hay@.len(),
    ensures
        r == (hay@.subrange(at as int, at + needle@.len()) == needle@),
{
    let n = needle.unicode_len();
    let mut j: usize = 0;
    while j < n
        invariant
            hay@.len() <= usize::MAX,
            n == needle@.len(),
            at + n <= hay@.len(),
            j <= n,
            forall|t: int| 0 <= t < j ==> hay@[at + t] == needle@[t],
        decreases n - j,
    {
        if hay.get_char(at + j) != needle.get_char(j) {
            proof {
                assert(hay@.subrange(at as int, at + needle@.len())[j as int] == hay@[at + j]);
            }
            return false;
        }
        j += 1;
    }
    proof {
        assert(hay@.subrange(at as int, at + needle@.len()) =~= needle@);
    }
    true
}

/// Case-sensitive substring search, the literal match criterion.
pub fn contains_str(hay: &str, needle: &str) -> (r: bool)
    ensures
        r == spec_contains(hay@, needle@),
{
    let h = hay.unicode_len();
    let n = needle.unicode_len();
    if n > h {
        return false;
    }
    if n == 0 {
        proof {
            assert(hay@.subrange(0, 0 + needle@.len() as int) =~= needle@);
        }
        return true;
    }
    let mut i: usize = 0;
    while i <= h - n
        invariant
            h == hay@.len(),
            n == needle@.len(),
            1 <= n <= h,
            i <= h - n + 1,
            forall|k: int|
                0 <= k < i ==> #[trigger] hay@.subrange(k, k + needle@.len()) != needle@,
        decreases h - n + 1 - i,
    {
        if match_at(hay, needle, i) {
            assert(0 <= i as int <= hay@.len() - needle@.len()
                && hay@.subrange(i as int, i + needle@.len()) == needle@);
            return true;
        }
        i += 1;
    }
    false
}

/// What compiling a pattern reports: nothing when the pattern is a valid
/// regular expression, else the text of the compile error. A function of
/// the pattern alone.
pub uninterp spec fn regex_error(pat: Seq<char>) -> Option<Seq<char>>;

/// Whether the pattern, as a regular expression, matches anywhere in the
/// haystack (an unanchored search). A function of the two texts alone.
pub uninterp spec fn regex_match(pat: Seq<char>, hay: Seq<char>) -> bool;

/// The pattern compiles as a regular expression.
pub open spec fn regex_valid(pat: Seq<char>) -> bool {
    regex_error(pat) is None
}

/// Relies on regex::Regex::new: whether a pattern compiles, and the error
/// it reports when it does not, depend on the pattern alone.
#[verifier::external_body]
pub(crate) fn regex_compile_error(pat: &str) -> (r: Option<String>)
    ensures
        match r {
            Option::None => regex_error(pat@) is None,
            Option::Some(e) => regex_error(pat@) == Option::Some(e@),
        },
{
    match regex::Regex::new(pat) {
        Ok(_) => None,
        Err(e) => Some(e.to_string()),
    }
}

/// Relies on regex::Regex::new and regex::Regex::is_match: an unanchored
/// search whose outcome depends on the pattern and the haystack alone;
/// compiling fails exactly when `Regex::new` reports an error.
#[verifier::external_body]
pub(crate) fn regex_is_match(pat: &str, hay: &str) -> (r: Option<bool>)
    ensures
        r is Some <==> regex_valid(pat@),
        r matches Some(b) ==> b == regex_match(pat@, hay@),
{
    match regex::Regex::new(pat) {
        Ok(re) => Some(re.is_match(hay)),
        Err(_) => None,
    }
}

} // verus!
