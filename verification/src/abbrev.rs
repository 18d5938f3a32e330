//! Recognition of a book abbreviation at the start of a text.
//!
//! The abbreviation is the text up to its first space, or all of it when it
//! holds no space. It has to be one of the abbreviations of the canonical
//! table, or the second spelling of Song of Songs; a word that merely starts
//! with an abbreviation is not recognized.

use crate::table::{lemma_abbrev_table, BOOK_ABBREVS, SONG_OF_SONGS, SONG_OF_SONGS_ALT};
use crate::text::{before_first, lemma_no_index, lemma_split_at_separator, Input};
use vstd::prelude::*;

verus! {

/// The word that a text starts with: what stands in front of its first space.
pub open spec fn leading_token(s: Seq<char>) -> Seq<char> {
    before_first(s, ' ')
}

/// Whether `token` is an accepted abbreviation of the book at table index `i`.
pub open spec fn spells(token: Seq<char>, i: int) -> bool {
    0 <= i < 66 && (token == BOOK_ABBREVS[i]@ || (i == SONG_OF_SONGS && token
        == SONG_OF_SONGS_ALT@))
}

/// The table index of the book whose abbreviation `s` starts with, if any.
pub open spec fn book_index(s: Seq<char>) -> Option<usize> {
    let token = leading_token(s);
    if exists|i: int| spells(token, i) {
        Some((choose|i: int| spells(token, i)) as usize)
    } else {
        None
    }
}

/// A token is an abbreviation of at most one book.
pub proof fn lemma_spells_one_book(token: Seq<char>, i: int, j: int)
    requires
        spells(token, i),
        spells(token, j),
    ensures
        i == j,
{
    lemma_abbrev_table();
}

/// A text that starts with an abbreviation of book `i` has `i` as its book index.
pub proof fn lemma_book_index(s: Seq<char>, i: int)
    requires
        spells(leading_token(s), i),
    ensures
        book_index(s) == Some(i as usize),
{
    let token = leading_token(s);
    let j = choose|j: int| spells(token, j);
    lemma_spells_one_book(token, i, j);
}

/// Every abbreviation of the table is recognized as its own book, whether the
/// text ends with it or goes on after a space.
pub proof fn lemma_abbrev_recognized(i: int, rest: Seq<char>)
    requires
        0 <= i < 66,
    ensures
        book_index(BOOK_ABBREVS[i]@) == Some(i as usize),
        book_index(BOOK_ABBREVS[i]@ + seq![' '] + rest) == Some(i as usize),
{
    let abbrev = BOOK_ABBREVS[i]@;
    lemma_abbrev_table();
    lemma_no_index(abbrev, ' ');
    lemma_book_index(abbrev, i);
    lemma_split_at_separator(abbrev, ' ', rest);
    lemma_book_index(abbrev + seq![' '] + rest, i);
}

/// An abbreviation of the table that runs on into another letter is no
/// abbreviation: with a `q` behind it, nothing is recognized.
pub proof fn lemma_abbrev_run_on(i: int)
    requires
        0 <= i < 66,
    ensures
        book_index(BOOK_ABBREVS[i]@.push('q')) is None,
{
    let word = BOOK_ABBREVS[i]@.push('q');
    lemma_abbrev_table();
    assert forall|k: int| 0 <= k < word.len() implies word[k] != ' ' by {}
    lemma_no_index(word, ' ');
    assert forall|j: int| !spells(word, j) by {}
}

/// Recognizes the book abbreviation that `input` starts with.
pub fn recognize(input: &Input) -> (r: Option<usize>)
    ensures
        r == book_index(input@),
        r matches Some(i) ==> i < 66,
{
    let end: usize = match input.find(' ', 0, input.len()) {
        Some(at) => at,
        None => input.len(),
    };
    let ghost token = input@.subrange(0, end as int);
    assert(token == leading_token(input@)) by {
        assert(input@.subrange(0, input@.len() as int) =~= input@);
    }
    let mut i: usize = 0;
    while i < 66
        invariant
            i <= 66,
            end <= input@.len(),
            token == input@.subrange(0, end as int),
            token == leading_token(input@),
            forall|j: int| 0 <= j < i ==> token != BOOK_ABBREVS[j]@,
        decreases 66 - i,
    {
        if input.slice_is(0, end, BOOK_ABBREVS[i]) {
            proof {
                lemma_book_index(input@, i as int);
            }
            return Some(i);
        }
        i += 1;
    }
    if input.slice_is(0, end, SONG_OF_SONGS_ALT) {
        proof {
            lemma_book_index(input@, SONG_OF_SONGS as int);
        }
        return Some(SONG_OF_SONGS);
    }
    None
}

/// Looks for a book abbreviation at the start of `text` and returns the
/// book's table index.
///
/// The abbreviation must be followed by a space or by the end of the text.
pub fn parse_book_abbrev(text: &str) -> (r: Option<usize>)
    ensures
        r == book_index(text@),
        r matches Some(i) ==> i < 66,
{
    let input = Input::new(text);
    recognize(&input)
}

} // verus!
