//! The serialised form in which a site stores its rewrite rules: a PHP array
//! with strings as keys and as values, such as
//! `a:1:{s:3:"key";s:5:"value";}`.
//!
//! The decoding is `serde_php`'s. It reserves room for a string as soon as
//! it has read the string's declared length, so the library first walks the
//! same grammar itself and makes sure that no string is declared longer than
//! the bytes that follow it.

use vstd::prelude::*;

verus! {

/// The digit `0`.
pub const ZERO: u8 = 48;

/// The digit `9`.
pub const NINE: u8 = 57;

/// The letter `a`, which opens an array.
pub const ARRAY: u8 = 97;

/// The letter `s`, which opens a string.
pub const STRING: u8 = 115;

/// The colon between the parts of a header.
pub const COLON: u8 = 58;

/// The quote at either end of a string's bytes.
pub const QUOTE: u8 = 34;

/// The semicolon that ends a string.
pub const SEMICOLON: u8 = 59;

/// The brace that opens the entries of an array.
pub const OPEN: u8 = 123;

/// Whether the byte is an ASCII digit.
pub open spec fn is_digit(b: u8) -> bool {
    ZERO <= b <= NINE
}

/// Whether byte `b` stands at `pos`.
pub open spec fn has_at(bytes: Seq<u8>, pos: int, b: u8) -> bool {
    0 <= pos < bytes.len() && bytes[pos] == b
}

/// Where the run of digits that starts at `from` ends.
pub open spec fn digits_end(bytes: Seq<u8>, from: int) -> int
    decreases bytes.len() - from,
{
    if 0 <= from < bytes.len() && is_digit(bytes[from]) {
        digits_end(bytes, from + 1)
    } else {
        from
    }
}

/// The number that the digits from `from` up to `to` write.
pub open spec fn number_at(bytes: Seq<u8>, from: int, to: int) -> nat
    decreases to - from,
{
    if to <= from {
        0
    } else {
        number_at(bytes, from, to - 1) * 10 + (bytes[to - 1] - ZERO) as nat
    }
}

/// What the walk finds where a string is due.
pub enum Walk {
    /// Something else than a string: the decoding stops here with an error.
    Broken,
    /// A string that is declared longer than the bytes that follow its
    /// opening quote.
    Uncovered,
    /// A string, and the place just behind it.
    Next(int),
}

/// What stands at `pos`, where a string `s:<length>:"<bytes>";` is due.
pub open spec fn string_at(bytes: Seq<u8>, pos: int) -> Walk {
    let digits = pos + 2;
    let end = digits_end(bytes, digits);
    let start = end + 2;
    let close = start + number_at(bytes, digits, end);
    if !(has_at(bytes, pos, STRING) && has_at(bytes, pos + 1, COLON)) {
        Walk::Broken
    } else if end == digits || !(has_at(bytes, end, COLON) && has_at(bytes, end + 1, QUOTE)) {
        Walk::Broken
    } else if close > bytes.len() {
        Walk::Uncovered
    } else if has_at(bytes, close, QUOTE) && has_at(bytes, close + 1, SEMICOLON) {
        Walk::Next(close + 2)
    } else {
        Walk::Broken
    }
}

/// Whether, of the next `left` entries from `pos` on, each a key and a
/// value, none holds a string that is declared too long. The walk ends where
/// the entries end or the grammar breaks.
pub open spec fn entries_are_covered(bytes: Seq<u8>, pos: int, left: nat) -> bool
    decreases left,
{
    if left == 0 {
        true
    } else {
        match string_at(bytes, pos) {
            Walk::Broken => true,
            Walk::Uncovered => false,
            Walk::Next(value) => match string_at(bytes, value) {
                Walk::Broken => true,
                Walk::Uncovered => false,
                Walk::Next(next) => entries_are_covered(bytes, next, (left - 1) as nat),
            },
        }
    }
}

/// Whether no string of the map `a:<entries>:{...}` is declared longer than
/// the bytes that follow its opening quote, as far as the bytes follow the
/// grammar of such a map. Bytes that are no map at all declare no string.
pub open spec fn lengths_are_covered(bytes: Seq<u8>) -> bool {
    let end = digits_end(bytes, 2);
    if !(has_at(bytes, 0, ARRAY) && has_at(bytes, 1, COLON)) {
        true
    } else if end == 2 || !(has_at(bytes, end, COLON) && has_at(bytes, end + 1, OPEN)) {
        true
    } else {
        entries_are_covered(bytes, end + 2, number_at(bytes, 2, end))
    }
}

/// Whether no two pairs have the same first text.
pub open spec fn keys_are_distinct(pairs: Seq<(String, String)>) -> bool {
    forall|i: int, j: int|
        0 <= i < j < pairs.len() ==> (#[trigger] pairs[i]).0@ != (#[trigger] pairs[j]).0@
}

/// A number never gets smaller by one more digit.
proof fn lemma_number_grows(bytes: Seq<u8>, from: int, to: int)
    requires
        from <= to,
    ensures
        number_at(bytes, from, to) <= number_at(bytes, from, to + 1),
{
}

/// Whether the bytes `first` and `second` stand at `pos` and behind it.
fn are_at(bytes: &[u8], pos: usize, first: u8, second: u8) -> (r: bool)
    ensures
        r == (has_at(bytes@, pos as int, first) && has_at(bytes@, pos + 1, second)),
        r ==> pos + 2 <= bytes@.len(),
{
    if pos < bytes.len() && bytes[pos] == first {
        pos + 1 < bytes.len() && bytes[pos + 1] == second
    } else {
        false
    }
}

/// Reads the run of digits at `from`: where it ends, and the number it
/// writes unless that is more than `cap`.
fn read_number(bytes: &[u8], from: usize, cap: usize) -> (r: (Option<usize>, usize))
    requires
        from <= bytes@.len(),
    ensures
        r.1 == digits_end(bytes@, from as int),
        from <= r.1 <= bytes@.len(),
        number_at(bytes@, from as int, r.1 as int) <= cap ==> r.0 == Some(
            number_at(bytes@, from as int, r.1 as int) as usize,
        ),
        number_at(bytes@, from as int, r.1 as int) > cap ==> r.0 is None,
{
    let mut i: usize = from;
    let mut value: usize = 0;
    let mut over: bool = false;
    while i < bytes.len() && ZERO <= bytes[i] && bytes[i] <= NINE
        invariant
            from <= i <= bytes@.len(),
            digits_end(bytes@, from as int) == digits_end(bytes@, i as int),
            !over ==> value == number_at(bytes@, from as int, i as int) && value <= cap,
            over ==> number_at(bytes@, from as int, i as int) > cap,
        decreases bytes@.len() - i,
    {
        let digit: u8 = bytes[i] - ZERO;
        proof {
            lemma_number_grows(bytes@, from as int, i as int);
        }
        if !over {
            let next: u128 = value as u128 * 10 + digit as u128;
            if next > cap as u128 {
                over = true;
            } else {
                value = next as usize;
            }
        }
        i = i + 1;
    }
    if over {
        (None, i)
    } else {
        (Some(value), i)
    }
}

/// What the walk finds where a string is due, with the place behind the
/// string as a machine word.
enum Step {
    Broken,
    Uncovered,
    Next(usize),
}

impl Step {
    spec fn walk(self) -> Walk {
        match self {
            Step::Broken => Walk::Broken,
            Step::Uncovered => Walk::Uncovered,
            Step::Next(pos) => Walk::Next(pos as int),
        }
    }
}

/// Looks at what stands at `pos`, where a string is due.
fn step_over_string(bytes: &[u8], pos: usize) -> (r: Step)
    requires
        pos <= bytes@.len(),
    ensures
        r.walk() == string_at(bytes@, pos as int),
        r is Next ==> pos < r->Next_0 <= bytes@.len(),
{
    let len: usize = bytes.len();
    if !are_at(bytes, pos, STRING, COLON) {
        return Step::Broken;
    }
    let digits: usize = pos + 2;
    let (length, end) = read_number(bytes, digits, len);
    if end == digits || !are_at(bytes, end, COLON, QUOTE) {
        return Step::Broken;
    }
    let start: usize = end + 2;
    match length {
        None => Step::Uncovered,
        Some(length) => {
            if length > len - start {
                Step::Uncovered
            } else {
                let close: usize = start + length;
                if are_at(bytes, close, QUOTE, SEMICOLON) {
                    Step::Next(close + 2)
                } else {
                    Step::Broken
                }
            }
        },
    }
}

/// Whether entries are left after `done` of them; `None` stands for more
/// entries than there are bytes.
fn is_left(entries: Option<usize>, done: usize) -> (r: bool)
    ensures
        r == (entries is None || done < entries->0),
{
    match entries {
        Some(entries) => done < entries,
        None => true,
    }
}

/// Walks the grammar of a serialised map of strings and tells whether every
/// declared length is covered by the bytes that follow it.
pub fn declared_lengths_fit(bytes: &[u8]) -> (ok: bool)
    ensures
        ok == lengths_are_covered(bytes@),
{
    let len: usize = bytes.len();
    if !are_at(bytes, 0, ARRAY, COLON) {
        return true;
    }
    let (entries, end) = read_number(bytes, 2, len);
    if end == 2 || !are_at(bytes, end, COLON, OPEN) {
        return true;
    }
    let ghost all = number_at(bytes@, 2, end as int);
    let mut pos: usize = end + 2;
    let mut done: usize = 0;
    while is_left(entries, done)
        invariant
            pos <= bytes@.len(),
            done <= pos,
            done <= all,
            entries is Some ==> entries->0 == all,
            entries is None ==> all > bytes@.len(),
            lengths_are_covered(bytes@) == entries_are_covered(
                bytes@,
                pos as int,
                (all - done) as nat,
            ),
        decreases bytes@.len() - pos,
    {
        match step_over_string(bytes, pos) {
            Step::Broken => {
                return true;
            },
            Step::Uncovered => {
                return false;
            },
            Step::Next(value) => match step_over_string(bytes, value) {
                Step::Broken => {
                    return true;
                },
                Step::Uncovered => {
                    return false;
                },
                Step::Next(next) => {
                    pos = next;
                    done = done + 1;
                },
            },
        }
    }
    true
}

/// Whether `serde_php::from_bytes` reads the bytes as a map from strings to
/// strings.
pub uninterp spec fn is_php_string_map(bytes: Seq<u8>) -> bool;

/// The error type of `serde_php`.
#[verifier::external_type_specification]
#[verifier::external_body]
pub struct ExPhpError(serde_php::Error);

/// Calls `serde_php::from_bytes` for a `HashMap` from strings to strings and
/// hands its entries out as pairs. The map decides the order of the pairs;
/// no key comes twice. The call reserves room for each string by its
/// declared length before it reads the string, so every declared length has
/// to be covered by the bytes that follow.
#[verifier::external_body]
pub(crate) fn php_string_pairs(bytes: &[u8]) -> (r: Result<
    Vec<(String, String)>,
    serde_php::Error,
>)
    requires
        lengths_are_covered(bytes@),
    ensures
        r is Ok <==> is_php_string_map(bytes@),
        r is Ok ==> keys_are_distinct(r->Ok_0@),
{
    serde_php::from_bytes::<std::collections::HashMap<String, String>>(bytes).map(
        |m| m.into_iter().collect(),
    )
}

/// Writes a `serde_php` error out with its `Display`.
#[verifier::external_body]
pub(crate) fn php_error_text(e: &serde_php::Error) -> (r: String) {
    e.to_string()
}

} // verus!
