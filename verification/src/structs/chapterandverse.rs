//! A chapter and a verse, with no book.

use crate::number::{
    decimal_text, lemma_parse_decimal_text, parse_number, push_decimal, read_number,
};
use crate::structs::errors::{found, outcome, ParseError, ParseErrorView};
use crate::text::{after_first, before_first, lemma_split_at_separator, Input};
use std::cmp::Ordering;
use vstd::prelude::*;
use vstd::std_specs::cmp::PartialOrdSpec;

verus! {

/// A chapter number and a verse number. Which book they belong to, and
/// whether that book has such a chapter and verse, is not known here.
///
/// Each number is held in 16 bits, so it is at most 65535: far above any
/// chapter or verse there is, and few enough for the chapters of a range to
/// be listed. A higher number is refused when it is read.
#[derive(Debug, Clone, Copy, PartialEq, Eq, Structural, Ord)]
pub struct ChapterAndVerse {
    pub chapter: u16,
    pub verse: u16,
}

/// What the error says of a number that is too high to be held.
pub open spec fn number_too_high_error(number: nat) -> Seq<char> {
    decimal_text(number) + " is too high. Chapter and verse numbers go up to 65535."@
}

impl ChapterAndVerse {
    /// The chapter or verse number that `s` denotes: `s` has to be written
    /// as a number, and the number has to be at most 65535.
    pub open spec fn spec_number(s: Seq<char>) -> Result<u16, ParseErrorView> {
        match parse_number(s) {
            None => Err(ParseErrorView::MalformedNumber(s)),
            Some(number) => if number > u16::MAX {
                Err(ParseErrorView::OutOfRange(number_too_high_error(number)))
            } else {
                Ok(number as u16)
            },
        }
    }

    /// `{chapter}:{verse}`, both in decimal.
    pub open spec fn text(self) -> Seq<char> {
        decimal_text(self.chapter as nat) + seq![':'] + decimal_text(self.verse as nat)
    }

    /// What `s` denotes as a chapter and verse: a number, the first `:` of
    /// `s`, and a number.
    pub open spec fn spec_from_str(s: Seq<char>) -> Result<ChapterAndVerse, ParseErrorView> {
        if !s.contains(':') {
            Err(ParseErrorView::MalformedSeparator)
        } else {
            match Self::spec_number(before_first(s, ':')) {
                Err(e) => Err(e),
                Ok(chapter) => match Self::spec_number(after_first(s, ':')) {
                    Err(e) => Err(e),
                    Ok(verse) => Ok(ChapterAndVerse { chapter, verse }),
                },
            }
        }
    }

    /// Whether `self` comes before `other`, or is `other`: by chapter, then by verse.
    pub open spec fn at_or_before(self, other: ChapterAndVerse) -> bool {
        self.chapter < other.chapter || (self.chapter == other.chapter && self.verse
            <= other.verse)
    }

    /// The given chapter and verse.
    pub fn new(chapter: u16, verse: u16) -> (cv: Self)
        ensures
            cv == (ChapterAndVerse { chapter, verse }),
    {
        ChapterAndVerse { chapter, verse }
    }

    /// Reads the chapter or verse number written in `[from, to)` of `input`.
    pub fn number_in(input: &Input, from: usize, to: usize) -> (r: Result<u16, ParseError>)
        requires
            from <= to <= input@.len(),
        ensures
            outcome(r) == Self::spec_number(input@.subrange(from as int, to as int)),
    {
        match read_number(input, from, to) {
            None => Err(ParseError::MalformedNumber(input.slice(from, to))),
            Some(numeral) => match numeral.value {
                Some(number) => Ok(number),
                None => {
                    let mut bound = input.slice(numeral.from, to);
                    bound.append(" is too high. Chapter and verse numbers go up to 65535.");
                    Err(ParseError::OutOfRange(bound))
                },
            },
        }
    }

    /// Reads the chapter and verse written in `[from, to)` of `input`.
    pub fn parse_in(input: &Input, from: usize, to: usize) -> (r: Result<Self, ParseError>)
        requires
            from <= to <= input@.len(),
        ensures
            outcome(r) == Self::spec_from_str(input@.subrange(from as int, to as int)),
    {
        match input.find(':', from, to) {
            None => Err(ParseError::MalformedSeparator),
            Some(at) => match Self::number_in(input, from, at) {
                Err(e) => Err(e),
                Ok(chapter) => match Self::number_in(input, at + 1, to) {
                    Err(e) => Err(e),
                    Ok(verse) => Ok(ChapterAndVerse { chapter, verse }),
                },
            },
        }
    }

    /// Reads a chapter and verse, written as `{chapter}:{verse}`.
    ///
    /// Fails with `MalformedSeparator` where the text holds no `:`, with
    /// `MalformedNumber` where the chapter or else the verse is not written
    /// as a number, and with `OutOfRange` where it is above 65535.
    pub fn from_str(text: &str) -> (r: Result<Self, ParseError>)
        ensures
            outcome(r) == Self::spec_from_str(text@),
    {
        let input = Input::new(text);
        assert(input@.subrange(0, input@.len() as int) =~= text@);
        Self::parse_in(&input, 0, input.len())
    }

    /// Reads a chapter and verse, written as `{chapter}:{verse}`.
    pub fn parse(text: &str) -> (r: Option<Self>)
        ensures
            r == found(Self::spec_from_str(text@)),
    {
        match Self::from_str(text) {
            Ok(cv) => Some(cv),
            Err(_) => None,
        }
    }

    /// Appends `{chapter}:{verse}` to `out`.
    pub fn push_text(&self, out: &mut String)
        ensures
            final(out)@ == old(out)@ + self.text(),
    {
        push_decimal(out, self.chapter as u32);
        out.append(":");
        push_decimal(out, self.verse as u32);
        proof {
            reveal_strlit(":");
        }
    }

    /// The chapter and verse as `{chapter}:{verse}`.
    pub fn to_string(&self) -> (s: String)
        ensures
            s@ == self.text(),
    {
        let mut s = String::new();
        self.push_text(&mut s);
        s
    }
}

impl PartialOrd for ChapterAndVerse {
    /// By chapter, then by verse.
    fn partial_cmp(&self, other: &Self) -> (r: Option<Ordering>) {
        if self.chapter < other.chapter {
            Some(Ordering::Less)
        } else if self.chapter > other.chapter {
            Some(Ordering::Greater)
        } else if self.verse < other.verse {
            Some(Ordering::Less)
        } else if self.verse > other.verse {
            Some(Ordering::Greater)
        } else {
            Some(Ordering::Equal)
        }
    }
}

impl vstd::std_specs::cmp::PartialOrdSpecImpl for ChapterAndVerse {
    open spec fn obeys_partial_cmp_spec() -> bool {
        true
    }

    open spec fn partial_cmp_spec(&self, other: &Self) -> Option<Ordering> {
        if self.chapter < other.chapter {
            Some(Ordering::Less)
        } else if self.chapter > other.chapter {
            Some(Ordering::Greater)
        } else if self.verse < other.verse {
            Some(Ordering::Less)
        } else if self.verse > other.verse {
            Some(Ordering::Greater)
        } else {
            Some(Ordering::Equal)
        }
    }
}

/// The order of chapter-and-verse pairs goes by chapter first and by verse
/// second, and `at_or_before` is that order.
pub proof fn lemma_chapter_and_verse_order(a: ChapterAndVerse, b: ChapterAndVerse)
    ensures
        a.chapter < b.chapter ==> a.partial_cmp_spec(&b) == Some(Ordering::Less),
        a.chapter > b.chapter ==> a.partial_cmp_spec(&b) == Some(Ordering::Greater),
        a.chapter == b.chapter && a.verse < b.verse ==> a.partial_cmp_spec(&b) == Some(
            Ordering::Less,
        ),
        a.chapter == b.chapter && a.verse > b.verse ==> a.partial_cmp_spec(&b) == Some(
            Ordering::Greater,
        ),
        a.partial_cmp_spec(&b) == Some(Ordering::Equal) <==> a == b,
        a.at_or_before(b) <==> a.partial_cmp_spec(&b) != Some(Ordering::Greater),
{
}

/// A number written in decimal is read as that number if it is at most
/// 65535. If not, it is out of range, however high it is.
pub proof fn lemma_number_as_written(number: nat)
    ensures
        ChapterAndVerse::spec_number(decimal_text(number)) == if number > u16::MAX {
            Err::<u16, ParseErrorView>(
                ParseErrorView::OutOfRange(number_too_high_error(number)),
            )
        } else {
            Ok(number as u16)
        },
{
    lemma_parse_decimal_text(number);
}

/// A chapter and verse that is written out and read again is the same
/// chapter and verse. What is written holds no space and no `-`.
pub proof fn lemma_chapter_and_verse_round_trip(cv: ChapterAndVerse)
    ensures
        ChapterAndVerse::spec_from_str(cv.text()) == Ok::<ChapterAndVerse, ParseErrorView>(cv),
        cv.text().contains(':'),
        !cv.text().contains(' '),
        !cv.text().contains('-'),
{
    let chapter = decimal_text(cv.chapter as nat);
    let verse = decimal_text(cv.verse as nat);
    lemma_parse_decimal_text(cv.chapter as nat);
    lemma_parse_decimal_text(cv.verse as nat);
    lemma_split_at_separator(chapter, ':', verse);
}

} // verus!
