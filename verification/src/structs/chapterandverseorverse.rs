//! A chapter and verse, or a verse alone.

use crate::number::{decimal_text, lemma_parse_decimal_text};
use crate::structs::chapterandverse::{lemma_chapter_and_verse_round_trip, ChapterAndVerse};
use crate::structs::errors::{found, outcome, ParseError, ParseErrorView};
use crate::text::Input;
use vstd::prelude::*;

verus! {

/// What stands behind a book: a chapter and verse, or a verse alone, whose
/// chapter is then the only chapter of the book.
#[derive(Debug, Clone, Copy, PartialEq, Eq, Structural)]
pub enum ChapterAndVerseOrVerse {
    Both(ChapterAndVerse),
    JustVerse(u16),
}

impl ChapterAndVerseOrVerse {
    /// `{chapter}:{verse}`, or `{verse}`.
    pub open spec fn text(self) -> Seq<char> {
        match self {
            ChapterAndVerseOrVerse::Both(cv) => cv.text(),
            ChapterAndVerseOrVerse::JustVerse(verse) => decimal_text(verse as nat),
        }
    }

    /// What `s` denotes: with a `:` in it a chapter and verse, without one a
    /// verse alone.
    pub open spec fn spec_from_str(s: Seq<char>) -> Result<ChapterAndVerseOrVerse, ParseErrorView> {
        if s.contains(':') {
            match ChapterAndVerse::spec_from_str(s) {
                Ok(cv) => Ok(ChapterAndVerseOrVerse::Both(cv)),
                Err(e) => Err(e),
            }
        } else {
            match ChapterAndVerse::spec_number(s) {
                Ok(verse) => Ok(ChapterAndVerseOrVerse::JustVerse(verse)),
                Err(e) => Err(e),
            }
        }
    }

    /// Reads what is written in `[from, to)` of `input`.
    pub fn parse_in(input: &Input, from: usize, to: usize) -> (r: Result<Self, ParseError>)
        requires
            from <= to <= input@.len(),
        ensures
            outcome(r) == Self::spec_from_str(input@.subrange(from as int, to as int)),
    {
        match input.find(':', from, to) {
            None => match ChapterAndVerse::number_in(input, from, to) {
                Ok(verse) => Ok(ChapterAndVerseOrVerse::JustVerse(verse)),
                Err(e) => Err(e),
            },
            Some(_) => match ChapterAndVerse::parse_in(input, from, to) {
                Ok(cv) => Ok(ChapterAndVerseOrVerse::Both(cv)),
                Err(e) => Err(e),
            },
        }
    }

    /// Reads `{chapter}:{verse}` or `{verse}`.
    ///
    /// Fails with `MalformedNumber` where the chapter or else the verse is
    /// not written as a number; the error carries the piece that is none.
    /// Fails with `OutOfRange` where a number is above 65535.
    pub fn from_str(text: &str) -> (r: Result<Self, ParseError>)
        ensures
            outcome(r) == Self::spec_from_str(text@),
    {
        let input = Input::new(text);
        assert(input@.subrange(0, input@.len() as int) =~= text@);
        Self::parse_in(&input, 0, input.len())
    }

    /// Reads `{chapter}:{verse}` or `{verse}`.
    pub fn parse(text: &str) -> (r: Option<Self>)
        ensures
            r == found(Self::spec_from_str(text@)),
    {
        match Self::from_str(text) {
            Ok(value) => Some(value),
            Err(_) => None,
        }
    }
}

/// What is written out and read again is the same, with its chapter or
/// without. What is written holds no space and no `-`.
pub proof fn lemma_chapter_and_verse_or_verse_round_trip(written: ChapterAndVerseOrVerse)
    ensures
        ChapterAndVerseOrVerse::spec_from_str(written.text()) == Ok::<
            ChapterAndVerseOrVerse,
            ParseErrorView,
        >(written),
        !written.text().contains(' '),
        !written.text().contains('-'),
{
    match written {
        ChapterAndVerseOrVerse::Both(cv) => {
            lemma_chapter_and_verse_round_trip(cv);
        },
        ChapterAndVerseOrVerse::JustVerse(verse) => {
            lemma_parse_decimal_text(verse as nat);
        },
    }
}

} // verus!
