//! A verse of a chapter of a book.

use crate::abbrev::{leading_token, recognize};
use crate::number::push_decimal;
use crate::structs::book::{lemma_reference, BibleBook, ALL_BOOKS};
use crate::structs::chapterandverse::ChapterAndVerse;
use crate::structs::chapterandverseorverse::{
    lemma_chapter_and_verse_or_verse_round_trip, ChapterAndVerseOrVerse,
};
use crate::structs::errors::{found, outcome, ParseError, ParseErrorView};
use crate::text::{after_first, Input};
use std::cmp::Ordering;
use vstd::prelude::*;
use vstd::std_specs::cmp::PartialOrdSpec;

verus! {

/// A verse in the Bible: a book, a chapter and a verse.
///
/// Neither number is held against the book: this library knows how many
/// chapters a book has, not how many verses a chapter has, and a verse is
/// taken as it is written. Each number is held in 16 bits, so it is at most
/// 65535; a higher one is refused when it is read.
#[derive(Debug, Clone, Copy, PartialEq, Eq, Structural, Ord)]
pub struct BibleVerse {
    pub book: BibleBook,
    pub chapter: u16,
    pub verse: u16,
}

impl BibleVerse {
    /// `{abbreviation} {chapter}:{verse}`.
    pub open spec fn text(self) -> Seq<char> {
        self.book.reference(
            ChapterAndVerse { chapter: self.chapter, verse: self.verse }.text(),
        )
    }

    /// The verse of `book` that `written` stands for. A verse alone is
    /// verse of chapter 1, in a book that has no other chapter.
    pub open spec fn locate(book: BibleBook, written: ChapterAndVerseOrVerse) -> Result<
        BibleVerse,
        ParseErrorView,
    > {
        match written {
            ChapterAndVerseOrVerse::JustVerse(verse) => if book.number_of_chapters() == 1 {
                Ok(BibleVerse { book, chapter: 1, verse })
            } else {
                Err(ParseErrorView::AmbiguousImplicitChapter)
            },
            ChapterAndVerseOrVerse::Both(cv) => Ok(
                BibleVerse { book, chapter: cv.chapter, verse: cv.verse },
            ),
        }
    }

    /// What `s` denotes as a verse: the abbreviation of a book and, behind a
    /// space, a chapter and verse, or a verse alone.
    pub open spec fn spec_from_str(s: Seq<char>) -> Result<BibleVerse, ParseErrorView> {
        match BibleBook::spec_parse_abbrev(s) {
            None => Err(ParseErrorView::UnknownBook(leading_token(s))),
            Some(book) => if !s.contains(' ') {
                Err(ParseErrorView::MissingChapterOrVerse)
            } else {
                match ChapterAndVerseOrVerse::spec_from_str(after_first(s, ' ')) {
                    Err(e) => Err(e),
                    Ok(written) => Self::locate(book, written),
                }
            },
        }
    }

    /// The given verse of the given chapter of `book`.
    pub fn new(book: BibleBook, chapter: u16, verse: u16) -> (v: Self)
        ensures
            v == (BibleVerse { book, chapter, verse }),
    {
        BibleVerse { book, chapter, verse }
    }

    /// Reads a verse such as `Ge 1:1`, or `Jude 5` for a book with one
    /// chapter.
    ///
    /// Fails with `UnknownBook` where the text starts with no abbreviation,
    /// with `MissingChapterOrVerse` where nothing follows the book, with
    /// `MalformedNumber` where a chapter or a verse is not written as a
    /// number, with `OutOfRange` where one is above 65535, and with
    /// `AmbiguousImplicitChapter` where the chapter is left out of a book
    /// that has several.
    pub fn from_str(s: &str) -> (r: Result<Self, ParseError>)
        ensures
            outcome(r) == Self::spec_from_str(s@),
    {
        let input = Input::new(s);
        let len: usize = input.len();
        assert(input@.subrange(0, len as int) =~= s@);
        let space = input.find(' ', 0, len);
        match recognize(&input) {
            None => {
                let end: usize = match space {
                    Some(at) => at,
                    None => len,
                };
                Err(ParseError::UnknownBook(input.slice(0, end)))
            },
            Some(index) => {
                let book = ALL_BOOKS[index];
                match space {
                    None => Err(ParseError::MissingChapterOrVerse),
                    Some(at) => match ChapterAndVerseOrVerse::parse_in(&input, at + 1, len) {
                        Err(e) => Err(e),
                        Ok(ChapterAndVerseOrVerse::JustVerse(verse)) => {
                            if book.number_of_chapters() == 1 {
                                Ok(BibleVerse { book, chapter: 1, verse })
                            } else {
                                Err(ParseError::AmbiguousImplicitChapter)
                            }
                        },
                        Ok(ChapterAndVerseOrVerse::Both(cv)) => Ok(
                            BibleVerse { book, chapter: cv.chapter, verse: cv.verse },
                        ),
                    },
                }
            },
        }
    }

    /// Reads a verse; see [`Self::from_str`].
    pub fn parse(text: &str) -> (r: Option<Self>)
        ensures
            r == found(Self::spec_from_str(text@)),
    {
        match Self::from_str(text) {
            Ok(verse) => Some(verse),
            Err(_) => None,
        }
    }

    /// The verse as `{abbreviation} {chapter}:{verse}`.
    pub fn to_string(&self) -> (s: String)
        ensures
            s@ == self.text(),
    {
        let mut s = String::from_str(self.book.abbrev());
        s.append(" ");
        push_decimal(&mut s, self.chapter as u32);
        s.append(":");
        push_decimal(&mut s, self.verse as u32);
        proof {
            reveal_strlit(" ");
            reveal_strlit(":");
        }
        s
    }
}

impl PartialOrd for BibleVerse {
    /// By book, then by chapter, then by verse.
    fn partial_cmp(&self, other: &Self) -> (r: Option<Ordering>) {
        if self.book.book_number() < other.book.book_number() {
            Some(Ordering::Less)
        } else if self.book.book_number() > other.book.book_number() {
            Some(Ordering::Greater)
        } else if self.chapter < other.chapter {
            Some(Ordering::Less)
        } else if self.chapter > other.chapter {
            Some(Ordering::Greater)
        } else if self.verse < other.verse {
            Some(Ordering::Less)
        } else if self.verse > other.verse {
            Some(Ordering::Greater)
        } else {
            Some(Ordering::Equal)
        }
    }
}

impl vstd::std_specs::cmp::PartialOrdSpecImpl for BibleVerse {
    open spec fn obeys_partial_cmp_spec() -> bool {
        true
    }

    open spec fn partial_cmp_spec(&self, other: &Self) -> Option<Ordering> {
        if self.book.book_number() < other.book.book_number() {
            Some(Ordering::Less)
        } else if self.book.book_number() > other.book.book_number() {
            Some(Ordering::Greater)
        } else if self.chapter < other.chapter {
            Some(Ordering::Less)
        } else if self.chapter > other.chapter {
            Some(Ordering::Greater)
        } else if self.verse < other.verse {
            Some(Ordering::Less)
        } else if self.verse > other.verse {
            Some(Ordering::Greater)
        } else {
            Some(Ordering::Equal)
        }
    }
}

impl<'a> TryFrom<&'a str> for BibleVerse {
    type Error = ParseError;

    /// Reads a verse, as [`BibleVerse::from_str`] does.
    fn try_from(value: &'a str) -> (r: Result<Self, ParseError>)
        ensures
            outcome(r) == Self::spec_from_str(value@),
    {
        Self::from_str(value)
    }
}

impl<'a> vstd::std_specs::convert::TryFromSpecImpl<&'a str> for BibleVerse {
    /// The error may hold a text, which no specification function can make:
    /// what `try_from` returns is stated on `try_from` itself.
    open spec fn obeys_try_from_spec() -> bool {
        false
    }

    open spec fn try_from_spec(value: &'a str) -> Result<Self, ParseError> {
        arbitrary()
    }
}

/// A verse that is written out and read again is the same verse.
pub proof fn lemma_verse_round_trip(verse: BibleVerse)
    ensures
        BibleVerse::spec_from_str(verse.text()) == Ok::<BibleVerse, ParseErrorView>(verse),
{
    let cv = ChapterAndVerse { chapter: verse.chapter, verse: verse.verse };
    lemma_reference(verse.book, cv.text());
    lemma_chapter_and_verse_or_verse_round_trip(ChapterAndVerseOrVerse::Both(cv));
}

/// Verses are ordered by book first, by chapter second and by verse third.
pub proof fn lemma_verse_order(a: BibleVerse, b: BibleVerse)
    ensures
        a.book.index() < b.book.index() ==> a.partial_cmp_spec(&b) == Some(Ordering::Less),
        a.book.index() > b.book.index() ==> a.partial_cmp_spec(&b) == Some(Ordering::Greater),
        a.book == b.book && a.chapter < b.chapter ==> a.partial_cmp_spec(&b) == Some(
            Ordering::Less,
        ),
        a.book == b.book && a.chapter > b.chapter ==> a.partial_cmp_spec(&b) == Some(
            Ordering::Greater,
        ),
        a.book == b.book && a.chapter == b.chapter && a.verse < b.verse ==> a.partial_cmp_spec(&b)
            == Some(Ordering::Less),
        a.book == b.book && a.chapter == b.chapter && a.verse > b.verse ==> a.partial_cmp_spec(&b)
            == Some(Ordering::Greater),
        a.partial_cmp_spec(&b) == Some(Ordering::Equal) <==> a == b,
{
}

} // verus!
