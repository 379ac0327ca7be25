//! Statement text and the placeholders in it.

use vstd::prelude::*;

verus! {

/// The number of `?` placeholders in a piece of statement text.
pub open spec fn placeholder_count(s: Seq<char>) -> nat
    decreases s.len(),
{
    if s.len() == 0 {
        0
    } else {
        placeholder_count(s.drop_last()) + if s.last() == '?' {
            1nat
        } else {
            0nat
        }
    }
}

/// `n` placeholders separated by commas: `?,?,?` for 3, nothing for 0.
pub open spec fn question_marks(n: nat) -> Seq<char>
    decreases n,
{
    if n == 0 {
        Seq::empty()
    } else if n == 1 {
        seq!['?']
    } else {
        question_marks((n - 1) as nat) + seq![',', '?']
    }
}

/// Placeholders add up over concatenation.
pub proof fn lemma_placeholder_count_concat(a: Seq<char>, b: Seq<char>)
    ensures
        placeholder_count(a + b) == placeholder_count(a) + placeholder_count(b),
    decreases b.len(),
{
    if b.len() == 0 {
        assert(a + b =~= a);
    } else {
        lemma_placeholder_count_concat(a, b.drop_last());
        assert((a + b).drop_last() =~= a + b.drop_last());
    }
}

/// Whether no `?` stands in the text.
pub open spec fn has_no_placeholder(s: Seq<char>) -> bool {
    forall|i: int| 0 <= i < s.len() ==> s[i] != '?'
}

/// Text without a `?` holds no placeholder.
pub proof fn lemma_no_placeholder(s: Seq<char>)
    requires
        has_no_placeholder(s),
    ensures
        placeholder_count(s) == 0,
    decreases s.len(),
{
    if s.len() > 0 {
        lemma_no_placeholder(s.drop_last());
    }
}

/// Two texts without a `?` make a text without a `?`.
pub proof fn lemma_concat_has_no_placeholder(a: Seq<char>, b: Seq<char>)
    requires
        has_no_placeholder(a),
        has_no_placeholder(b),
    ensures
        has_no_placeholder(a + b),
        placeholder_count(a + b) == 0,
{
    lemma_no_placeholder(a + b);
}

/// Text without a `?` but for its last character holds one placeholder.
pub proof fn lemma_ends_in_placeholder(s: Seq<char>)
    requires
        s.len() > 0,
        s.last() == '?',
        has_no_placeholder(s.drop_last()),
    ensures
        placeholder_count(s) == 1,
{
    lemma_no_placeholder(s.drop_last());
}

/// Text whose only `?` stands at `at` holds one placeholder.
pub proof fn lemma_one_placeholder(s: Seq<char>, at: int)
    requires
        0 <= at < s.len(),
        forall|i: int| 0 <= i < s.len() ==> (s[i] == '?' <==> i == at),
    ensures
        placeholder_count(s) == 1,
{
    let head = s.subrange(0, at + 1);
    let tail = s.subrange(at + 1, s.len() as int);
    assert(s =~= head + tail);
    lemma_placeholder_count_concat(head, tail);
    lemma_no_placeholder(tail);
    lemma_no_placeholder(head.drop_last());
}

/// Text whose only `?`s stand at `first` and `second` holds two placeholders.
pub proof fn lemma_two_placeholders(s: Seq<char>, first: int, second: int)
    requires
        0 <= first < second < s.len(),
        forall|i: int| 0 <= i < s.len() ==> (s[i] == '?' <==> (i == first || i == second)),
    ensures
        placeholder_count(s) == 2,
{
    let head = s.subrange(0, second);
    let tail = s.subrange(second, s.len() as int);
    assert(s =~= head + tail);
    lemma_placeholder_count_concat(head, tail);
    lemma_one_placeholder(head, first);
    lemma_one_placeholder(tail, 0);
}

/// A comma-separated run of `n` placeholders holds `n` of them.
pub proof fn lemma_question_marks(n: nat)
    ensures
        placeholder_count(question_marks(n)) == n,
    decreases n,
{
    if n == 1 {
        lemma_one_placeholder(question_marks(1), 0);
    } else if n > 1 {
        lemma_question_marks((n - 1) as nat);
        lemma_placeholder_count_concat(question_marks((n - 1) as nat), seq![',', '?']);
        lemma_one_placeholder(seq![',', '?'], 1);
    }
}

} // verus!
