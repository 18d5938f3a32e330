//! A range of verses, with no book.

use crate::structs::chapterandverse::ChapterAndVerse;
use crate::structs::chapterandverseorverse::{
    lemma_chapter_and_verse_or_verse_round_trip, ChapterAndVerseOrVerse,
};
use crate::structs::errors::{found, outcome, ParseError, ParseErrorView};
use crate::text::{after_first, before_first, lemma_no_index, lemma_split_at_separator, Input};
use vstd::prelude::*;

verus! {

/// The verses from `start` to `end`, both included. The range is empty where
/// `end` comes before `start`.
///
/// The two ends are plain fields: what a function reads of a range, and what
/// it states of it, are these two values.
#[derive(Debug, Clone, Copy, PartialEq, Eq, Structural)]
pub struct ChapterAndVerseRange {
    pub start: ChapterAndVerse,
    pub end: ChapterAndVerse,
}

/// Chapter and verse ranges may be full or implicit.
///
/// Full ranges specify the chapter at least at the start of the range.
/// Implicit ranges omit the chapter and are only valid for books with a
/// single chapter, where chapter 1 may be assumed. A single verse is also a
/// valid range (of 1).
///
/// Examples of full ranges: `10:1-5`, `8:22-9:1`, `11:2`.
/// Examples of implicit ranges: `1-5`, `3`.
#[derive(Debug, Clone, Copy, PartialEq, Eq, Structural)]
pub enum FullOrImplicitRange {
    Full(ChapterAndVerseRange),
    Implicit(ChapterAndVerseRange),
}

impl FullOrImplicitRange {
    /// The range itself, whichever way it was written.
    pub open spec fn spec_range(self) -> ChapterAndVerseRange {
        match self {
            FullOrImplicitRange::Full(range) => range,
            FullOrImplicitRange::Implicit(range) => range,
        }
    }

    /// The range itself, whichever way it was written.
    #[verifier::when_used_as_spec(spec_range)]
    pub fn range(self) -> (range: ChapterAndVerseRange)
        ensures
            range == self.spec_range(),
    {
        match self {
            FullOrImplicitRange::Full(range) => range,
            FullOrImplicitRange::Implicit(range) => range,
        }
    }
}

impl ChapterAndVerseRange {
    /// The range that the two sides of a `-` denote together.
    ///
    /// A verse alone at the end takes its chapter from the start. A verse
    /// alone at the start makes the range implicit, in chapter 1; a chapter at
    /// the end is then out of place.
    pub open spec fn join(first: ChapterAndVerseOrVerse, last: ChapterAndVerseOrVerse) -> Result<
        FullOrImplicitRange,
        ParseErrorView,
    > {
        match (first, last) {
            (ChapterAndVerseOrVerse::Both(start), ChapterAndVerseOrVerse::Both(end)) => Ok(
                FullOrImplicitRange::Full(ChapterAndVerseRange { start, end }),
            ),
            (ChapterAndVerseOrVerse::Both(start), ChapterAndVerseOrVerse::JustVerse(verse)) => Ok(
                FullOrImplicitRange::Full(
                    ChapterAndVerseRange {
                        start,
                        end: ChapterAndVerse { chapter: start.chapter, verse },
                    },
                ),
            ),
            (ChapterAndVerseOrVerse::JustVerse(_), ChapterAndVerseOrVerse::Both(_)) => Err(
                ParseErrorView::MalformedSeparator,
            ),
            (
                ChapterAndVerseOrVerse::JustVerse(first_verse),
                ChapterAndVerseOrVerse::JustVerse(last_verse),
            ) => Ok(
                FullOrImplicitRange::Implicit(
                    ChapterAndVerseRange {
                        start: ChapterAndVerse { chapter: 1, verse: first_verse },
                        end: ChapterAndVerse { chapter: 1, verse: last_verse },
                    },
                ),
            ),
        }
    }

    /// What `s` denotes as a range: without a `-` the range of one verse,
    /// else the range from what stands before the first `-` to what stands
    /// behind it.
    pub open spec fn spec_from_str(s: Seq<char>) -> Result<FullOrImplicitRange, ParseErrorView> {
        if !s.contains('-') {
            match ChapterAndVerseOrVerse::spec_from_str(s) {
                Err(e) => Err(e),
                Ok(only) => Self::join(only, only),
            }
        } else {
            match ChapterAndVerseOrVerse::spec_from_str(before_first(s, '-')) {
                Err(e) => Err(e),
                Ok(first) => match ChapterAndVerseOrVerse::spec_from_str(after_first(s, '-')) {
                    Err(e) => Err(e),
                    Ok(last) => Self::join(first, last),
                },
            }
        }
    }

    /// Whether the range holds no verse: its end comes before its start.
    pub open spec fn spec_is_empty(&self) -> bool {
        !self.start.at_or_before(self.end)
    }

    /// Whether the verse lies in the range.
    pub open spec fn spec_contains(&self, cv: &ChapterAndVerse) -> bool {
        self.start.at_or_before(*cv) && cv.at_or_before(self.end)
    }

    /// The range from `start` to `end`, as it is given: it may be empty.
    pub fn new(start: ChapterAndVerse, end: ChapterAndVerse) -> (range: Self)
        ensures
            range == (ChapterAndVerseRange { start, end }),
    {
        ChapterAndVerseRange { start, end }
    }

    /// Whether the range holds no verse: its end comes before its start.
    #[verifier::when_used_as_spec(spec_is_empty)]
    pub fn is_empty(&self) -> (r: bool)
        ensures
            r == self.spec_is_empty(),
    {
        self.end.chapter < self.start.chapter || (self.end.chapter == self.start.chapter
            && self.end.verse < self.start.verse)
    }

    /// Whether the verse lies in the range.
    #[verifier::when_used_as_spec(spec_contains)]
    pub fn contains(&self, cv: &ChapterAndVerse) -> (r: bool)
        ensures
            r == self.spec_contains(cv),
    {
        let from_start = self.start.chapter < cv.chapter || (self.start.chapter == cv.chapter
            && self.start.verse <= cv.verse);
        let to_end = cv.chapter < self.end.chapter || (cv.chapter == self.end.chapter && cv.verse
            <= self.end.verse);
        from_start && to_end
    }

    /// Joins the two sides of a `-` into a range; see [`Self::join`].
    fn joined(first: ChapterAndVerseOrVerse, last: ChapterAndVerseOrVerse) -> (r: Result<
        FullOrImplicitRange,
        ParseError,
    >)
        ensures
            outcome(r) == Self::join(first, last),
    {
        match first {
            ChapterAndVerseOrVerse::Both(start) => {
                let end = match last {
                    ChapterAndVerseOrVerse::Both(end) => end,
                    ChapterAndVerseOrVerse::JustVerse(verse) => ChapterAndVerse {
                        chapter: start.chapter,
                        verse,
                    },
                };
                Ok(FullOrImplicitRange::Full(ChapterAndVerseRange { start, end }))
            },
            ChapterAndVerseOrVerse::JustVerse(first_verse) => match last {
                ChapterAndVerseOrVerse::Both(_) => Err(ParseError::MalformedSeparator),
                ChapterAndVerseOrVerse::JustVerse(last_verse) => Ok(
                    FullOrImplicitRange::Implicit(
                        ChapterAndVerseRange {
                            start: ChapterAndVerse { chapter: 1, verse: first_verse },
                            end: ChapterAndVerse { chapter: 1, verse: last_verse },
                        },
                    ),
                ),
            },
        }
    }

    /// Reads the range written in `[from, to)` of `input`.
    pub fn parse_in(input: &Input, from: usize, to: usize) -> (r: Result<
        FullOrImplicitRange,
        ParseError,
    >)
        requires
            from <= to <= input@.len(),
        ensures
            outcome(r) == Self::spec_from_str(input@.subrange(from as int, to as int)),
    {
        match input.find('-', from, to) {
            None => match ChapterAndVerseOrVerse::parse_in(input, from, to) {
                Err(e) => Err(e),
                Ok(only) => Self::joined(only, only),
            },
            Some(at) => match ChapterAndVerseOrVerse::parse_in(input, from, at) {
                Err(e) => Err(e),
                Ok(first) => match ChapterAndVerseOrVerse::parse_in(input, at + 1, to) {
                    Err(e) => Err(e),
                    Ok(last) => Self::joined(first, last),
                },
            },
        }
    }

    /// Reads a range of verses: `{chapter}:{verse}`, `{verse}`, or two of
    /// these with a `-` between them.
    ///
    /// A range that names no chapter comes back as `Implicit`, for the caller
    /// to accept if the book has one chapter only. Whether the range is empty
    /// is not looked at here. Fails with `MalformedNumber` where a chapter or
    /// a verse is not written as a number, with `OutOfRange` where one is
    /// above 65535, and with `MalformedSeparator` where only the end names a
    /// chapter.
    pub fn from_str(text: &str) -> (r: Result<FullOrImplicitRange, ParseError>)
        ensures
            outcome(r) == Self::spec_from_str(text@),
    {
        let input = Input::new(text);
        assert(input@.subrange(0, input@.len() as int) =~= text@);
        Self::parse_in(&input, 0, input.len())
    }

    /// Reads a range of verses; see [`Self::from_str`].
    pub fn parse(text: &str) -> (r: Option<FullOrImplicitRange>)
        ensures
            r == found(Self::spec_from_str(text@)),
    {
        match Self::from_str(text) {
            Ok(range) => Some(range),
            Err(_) => None,
        }
    }
}

/// A start and an end, written out with a `-` between them, are read as the
/// range that the two are joined to; a start alone is read as the range from
/// it to itself.
pub proof fn lemma_range_as_written(first: ChapterAndVerseOrVerse, last: ChapterAndVerseOrVerse)
    ensures
        ChapterAndVerseRange::spec_from_str(first.text() + seq!['-'] + last.text())
            == ChapterAndVerseRange::join(first, last),
        ChapterAndVerseRange::spec_from_str(first.text()) == ChapterAndVerseRange::join(
            first,
            first,
        ),
        !(first.text() + seq!['-'] + last.text()).contains(' '),
{
    lemma_chapter_and_verse_or_verse_round_trip(first);
    lemma_chapter_and_verse_or_verse_round_trip(last);
    lemma_split_at_separator(first.text(), '-', last.text());
}

} // verus!
