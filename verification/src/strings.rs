//! The string primitives of the standard library that the crate builds on.
//!
//! Each is called through a function of its own, whose contract says what the
//! standard library documents of it.

use vstd::prelude::*;

verus! {

/// Compares two string slices with `str`'s `PartialEq::eq`: true exactly when
/// both hold the same characters.
#[verifier::external_body]
pub(crate) fn str_eq(a: &str, b: &str) -> (r: bool)
    ensures
        r == (a@ == b@),
{
    a == b
}

/// What `str::to_uppercase` makes of a string.
pub uninterp spec fn uppercase_of(s: Seq<char>) -> Seq<char>;

/// Calls `str::to_uppercase`. The mapping follows Unicode's case tables, so
/// the contract only gives the outcome a name.
#[verifier::external_body]
pub(crate) fn to_uppercase(s: &str) -> (r: String)
    ensures
        r@ == uppercase_of(s@),
{
    s.to_uppercase()
}

/// Whether `needle` stands somewhere in `s`.
pub open spec fn occurs_in(needle: Seq<char>, s: Seq<char>) -> bool {
    exists|i: int| 0 <= i <= s.len() - needle.len() && #[trigger] s.subrange(i, i + needle.len()) == needle
}

/// `s` without the slashes at its start.
pub open spec fn without_leading_slashes(s: Seq<char>) -> Seq<char>
    decreases s.len(),
{
    if s.len() > 0 && s[0] == '/' {
        without_leading_slashes(s.drop_first())
    } else {
        s
    }
}

/// `s` without the slashes at its end.
pub open spec fn without_trailing_slashes(s: Seq<char>) -> Seq<char>
    decreases s.len(),
{
    if s.len() > 0 && s.last() == '/' {
        without_trailing_slashes(s.drop_last())
    } else {
        s
    }
}

/// `s` without the slashes at its start and at its end.
pub open spec fn without_outer_slashes(s: Seq<char>) -> Seq<char> {
    without_trailing_slashes(without_leading_slashes(s))
}

/// The pieces joined by `separator`: at least one piece, the separator
/// between each two.
pub open spec fn joined_by(pieces: Seq<&str>, separator: char) -> Seq<char>
    decreases pieces.len(),
{
    if pieces.len() == 0 {
        Seq::empty()
    } else if pieces.len() == 1 {
        pieces[0]@
    } else {
        joined_by(pieces.drop_last(), separator).push(separator) + pieces.last()@
    }
}

/// Calls `str::starts_with` with a string as the pattern: true exactly when
/// `prefix` is a prefix of `s`.
#[verifier::external_body]
pub(crate) fn starts_with(s: &str, prefix: &str) -> (r: bool)
    ensures
        r == prefix@.is_prefix_of(s@),
{
    s.starts_with(prefix)
}

/// Calls `str::contains` with a string as the pattern: true exactly when
/// `needle` stands somewhere in `s`.
#[verifier::external_body]
pub(crate) fn contains(s: &str, needle: &str) -> (r: bool)
    ensures
        r == occurs_in(needle@, s@),
{
    s.contains(needle)
}

/// Calls `str::split_once`: where `delimiter` stands in `s`, the text before
/// its first occurrence and the text after it; nothing where it does not
/// stand in `s`.
#[verifier::external_body]
pub(crate) fn split_once<'a>(s: &'a str, delimiter: &str) -> (r: Option<(&'a str, &'a str)>)
    requires
        delimiter@.len() > 0,
    ensures
        match r {
            Some((before, after)) => {
                &&& s@ == before@ + delimiter@ + after@
                &&& !occurs_in(delimiter@, (before@ + delimiter@).drop_last())
            },
            None => !occurs_in(delimiter@, s@),
        },
{
    s.split_once(delimiter)
}

/// Calls `str::trim_matches` with `/` as the pattern: the text without the
/// slashes at its start and at its end.
#[verifier::external_body]
pub(crate) fn trim_slashes(s: &str) -> (r: &str)
    ensures
        r@ == without_outer_slashes(s@),
{
    s.trim_matches('/')
}

/// Calls `str::split` with `/` as the pattern and collects the pieces: the
/// texts between the slashes, empty ones included, in order.
#[verifier::external_body]
pub(crate) fn split_at_slashes(s: &str) -> (r: Vec<&str>)
    ensures
        r@.len() >= 1,
        joined_by(r@, '/') == s@,
        forall|i: int, j: int| 0 <= i < r@.len() && 0 <= j < r@[i]@.len() ==> r@[i]@[j] != '/',
{
    s.split('/').collect()
}

/// The number of places where `needle` stands in a text, found from left to
/// right, each search going on behind the last find, so that no two finds
/// overlap.
pub open spec fn occurrences(s: Seq<char>, needle: Seq<char>) -> nat
    decreases s.len(),
{
    if needle.len() == 0 || s.len() < needle.len() {
        0
    } else if s.subrange(0, needle.len() as int) == needle {
        1 + occurrences(s.skip(needle.len() as int), needle)
    } else {
        occurrences(s.drop_first(), needle)
    }
}

/// Calls `str::matches` with a string that is not empty as the pattern and
/// collects what it finds: one copy of the pattern for each of its disjoint
/// matches, which are found from left to right.
#[verifier::external_body]
pub(crate) fn find_all<'a>(s: &'a str, needle: &str) -> (r: Vec<&'a str>)
    requires
        needle@.len() > 0,
    ensures
        r@.len() == occurrences(s@, needle@),
        forall|i: int| 0 <= i < r@.len() ==> (#[trigger] r@[i])@ == needle@,
{
    s.matches(needle).collect()
}

/// What `str::trim` leaves of a text: the text without the white space at
/// its start and at its end.
pub uninterp spec fn trimmed(s: Seq<char>) -> Seq<char>;

/// Calls `str::trim`. White space is what Unicode says it is, so the
/// contract only gives the outcome a name.
#[verifier::external_body]
pub(crate) fn trim(s: &str) -> (r: &str)
    ensures
        r@ == trimmed(s@),
{
    s.trim()
}

/// Whether the text is made of decimal digits, and of one at least.
pub open spec fn is_decimal(s: Seq<char>) -> bool {
    s.len() > 0 && forall|i: int| 0 <= i < s.len() ==> '0' <= #[trigger] s[i] <= '9'
}

/// The number that decimal digits write.
pub open spec fn decimal_value(s: Seq<char>) -> nat
    decreases s.len(),
{
    if s.len() == 0 {
        0
    } else {
        decimal_value(s.drop_last()) * 10 + (s.last() as nat - '0' as nat) as nat
    }
}

/// The number that a text writes: decimal digits, with a `+` before them or
/// without, that do not go beyond 64 bits. Any other text writes none.
pub open spec fn parsed_u64(s: Seq<char>) -> Option<u64> {
    let digits = if s.len() > 0 && s[0] == '+' {
        s.drop_first()
    } else {
        s
    };
    if is_decimal(digits) && decimal_value(digits) <= u64::MAX {
        Some(decimal_value(digits) as u64)
    } else {
        None
    }
}

/// Calls `str::parse::<u64>` and drops the error: the number that an
/// optional `+` and decimal digits write, unless it overflows.
#[verifier::external_body]
pub(crate) fn parse_u64(s: &str) -> (r: Option<u64>)
    ensures
        r == parsed_u64(s@),
{
    s.parse::<u64>().ok()
}

} // verus!
