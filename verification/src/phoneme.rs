//! The boundary to the recognition collaborator: how its answer is read.

use vstd::prelude::*;
use crate::text::{chars_of, is_whitespace, string_of, white_space};

verus! {

/// The words read so far and the word being read, after one more character.
pub open spec fn scan_step(state: (Seq<Seq<char>>, Seq<char>), c: char) -> (
    Seq<Seq<char>>,
    Seq<char>,
) {
    let (done, current) = state;
    if white_space(c) {
        if current.len() > 0 {
            (done.push(current), Seq::empty())
        } else {
            (done, current)
        }
    } else {
        (done, current.push(c))
    }
}

/// The words that end within `text`, and the word that its end is in the
/// middle of.
pub open spec fn scanned(text: Seq<char>) -> (Seq<Seq<char>>, Seq<char>)
    decreases text.len(),
{
    if text.len() == 0 {
        (Seq::empty(), Seq::empty())
    } else {
        scan_step(scanned(text.drop_last()), text.last())
    }
}

/// The words of a text: its longest runs of characters that are no white
/// space, in order.
pub open spec fn words(text: Seq<char>) -> Seq<Seq<char>> {
    let (done, current) = scanned(text);
    if current.len() > 0 {
        done.push(current)
    } else {
        done
    }
}

/// Splits the answer of the recognizer into its phonemes: the words between
/// white space, in order.
pub fn parse_phonemes(text: &str) -> (phonemes: Vec<String>)
    ensures
        phonemes.deep_view() == words(text@),
{
    let chars = chars_of(text);
    let n = chars.len();
    let mut phonemes: Vec<String> = Vec::new();
    let mut start: usize = 0;
    let mut i: usize = 0;
    while i < n
        invariant
            n == chars.len(),
            start <= i <= n,
            scanned(chars@.take(i as int)) == (
                phonemes.deep_view(),
                chars@.subrange(start as int, i as int),
            ),
        decreases n - i,
    {
        proof {
            assert(chars@.take(i + 1).drop_last() =~= chars@.take(i as int));
        }
        if is_whitespace(chars[i]) {
            if start < i {
                phonemes.push(string_of(&chars, start, i));
            }
            start = i + 1;
        }
        i = i + 1;
    }
    proof {
        assert(chars@.take(n as int) =~= chars@);
    }
    if start < n {
        phonemes.push(string_of(&chars, start, n));
    }
    phonemes
}

} // verus!
