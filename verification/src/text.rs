//! Counting the words of a text.
//!
//! A word is a maximal run of characters that are not white space. Which
//! characters are white space is the standard library's decision; counting
//! the runs is done here.

use vstd::prelude::*;
use vstd::std_specs::iter::IteratorSpec;

verus! {

/// Whether `c` has the Unicode property `White_Space`, as `char::is_whitespace`
/// of the standard library decides it.
pub uninterp spec fn white_space(c: char) -> bool;

/// `char::is_whitespace` of the standard library: the answer depends on the
/// character alone, and the contract gives it the name [`white_space`].
#[verifier::external_body]
fn is_whitespace(c: char) -> (answer: bool)
    ensures
        answer == white_space(c),
{
    c.is_whitespace()
}

/// Whether a word begins at position `i`, where `blank[k]` tells whether the
/// character at `k` is white space: a character that is not, at the start of
/// the text or right after one that is.
pub open spec fn is_word_start(blank: Seq<bool>, i: int) -> bool {
    &&& 0 <= i < blank.len()
    &&& !blank[i]
    &&& (i == 0 || blank[i - 1])
}

/// How many words begin among the first `n` characters.
pub open spec fn word_starts(blank: Seq<bool>, n: int) -> nat
    decreases n,
{
    if n <= 0 {
        0
    } else {
        word_starts(blank, n - 1) + if is_word_start(blank, n - 1) {
            1nat
        } else {
            0nat
        }
    }
}

/// The number of words in a text whose white space is marked by `blank`.
pub open spec fn word_total(blank: Seq<bool>) -> nat {
    word_starts(blank, blank.len() as int)
}

/// For each character of `text`, whether it is white space.
pub open spec fn blanks_of(text: Seq<char>) -> Seq<bool> {
    Seq::new(text.len(), |i: int| white_space(text[i]))
}

/// The number of words in `text`.
pub open spec fn word_count(text: Seq<char>) -> nat {
    word_total(blanks_of(text))
}

/// Counts the words of a text of which only the white space is known:
/// `blank[k]` tells whether the character at `k` is white space.
pub fn count_words(blank: &Vec<bool>) -> (count: usize)
    ensures
        count == word_total(blank@),
{
    let mut count: usize = 0;
    let mut in_word = false;
    let mut i: usize = 0;
    while i < blank.len()
        invariant
            i <= blank@.len(),
            count <= i,
            count == word_starts(blank@, i as int),
            in_word == (i > 0 && !blank@[i - 1]),
        decreases blank@.len() - i,
    {
        if !blank[i] && !in_word {
            count = count + 1;
        }
        in_word = !blank[i];
        i += 1;
    }
    count
}

/// Counts the words of `markdown`, separated by any amount of white space.
pub fn get_word_count(markdown: &str) -> (count: usize)
    ensures
        count == word_count(markdown@),
{
    let mut blank: Vec<bool> = Vec::new();
    for c in it: markdown.chars()
        invariant
            it.seq() == markdown@,
            blank@ == blanks_of(markdown@.take(it.index() as int)),
    {
        proof {
            let n = it.index() as int;
            assert(blank@.push(white_space(c)) =~= blanks_of(markdown@.take(n + 1)));
        }
        blank.push(is_whitespace(c));
    }
    proof {
        assert(markdown@.take(markdown@.len() as int) =~= markdown@);
    }
    count_words(&blank)
}

} // verus!
