//! A range of verses of one book.

use crate::abbrev::{leading_token, recognize};
use crate::number::{decimal_text, push_decimal};
use crate::structs::book::{lemma_reference, BibleBook, ALL_BOOKS};
use crate::structs::chapterandverse::ChapterAndVerse;
use crate::structs::chapterandverseorverse::ChapterAndVerseOrVerse;
use crate::structs::chapterandverserange::{
    lemma_range_as_written, ChapterAndVerseRange, FullOrImplicitRange,
};
use crate::structs::errors::{found, outcome, ParseError, ParseErrorView};
use crate::structs::verse::BibleVerse;
use crate::text::{after_first, Input};
use vstd::prelude::*;
use vstd::std_specs::iter::IteratorSpec;

verus! {

/// The verses of a book from one verse to another, both included.
///
/// The parsers give out no empty range. Whether the book has the chapters
/// that the range names is not looked at: make a
/// [`crate::structs::chapter::BibleChapter`] of them to know.
#[derive(Debug, Clone, Copy, PartialEq, Eq, Structural)]
pub struct BibleVerseRange {
    pub book: BibleBook,
    pub range: ChapterAndVerseRange,
}

/// The chapter numbers from `first` to `last`, both included; none where
/// `last` is below `first`.
pub open spec fn chapter_span(first: u16, last: u16) -> Seq<u16> {
    Seq::new(
        if first <= last {
            (last - first + 1) as nat
        } else {
            0
        },
        |i: int| (first + i) as u16,
    )
}

impl BibleVerseRange {
    /// The range as written: the book, the start, and the end where it is
    /// not the start. A book with one chapter has no chapter written; an end
    /// in the chapter of the start has only its verse written.
    pub open spec fn text(self) -> Seq<char> {
        let one_chapter = self.book.number_of_chapters() == 1;
        let start = if one_chapter {
            decimal_text(self.range.start.verse as nat)
        } else {
            self.range.start.text()
        };
        let end = if one_chapter || self.range.start.chapter == self.range.end.chapter {
            decimal_text(self.range.end.verse as nat)
        } else {
            self.range.end.text()
        };
        if self.range.start == self.range.end {
            self.book.reference(start)
        } else {
            self.book.reference(start + seq!['-'] + end)
        }
    }

    /// The range of `book` that `written` stands for. A range that names no
    /// chapter is one of a book with one chapter only; no range is empty.
    pub open spec fn locate(book: BibleBook, written: FullOrImplicitRange) -> Result<
        BibleVerseRange,
        ParseErrorView,
    > {
        if written is Implicit && book.number_of_chapters() != 1 {
            Err(ParseErrorView::AmbiguousImplicitChapter)
        } else if written.range().is_empty() {
            Err(ParseErrorView::InvertedRange)
        } else {
            Ok(BibleVerseRange { book, range: written.range() })
        }
    }

    /// What `s` denotes as a range of verses: the abbreviation of a book and,
    /// behind a space, a range.
    pub open spec fn spec_from_str(s: Seq<char>) -> Result<BibleVerseRange, ParseErrorView> {
        match BibleBook::spec_parse_abbrev(s) {
            None => Err(ParseErrorView::UnknownBook(leading_token(s))),
            Some(book) => if !s.contains(' ') {
                Err(ParseErrorView::MissingChapterOrVerse)
            } else {
                match ChapterAndVerseRange::spec_from_str(after_first(s, ' ')) {
                    Err(e) => Err(e),
                    Ok(written) => Self::locate(book, written),
                }
            },
        }
    }

    /// Whether the verse is of the book of the range and lies in the range.
    pub open spec fn spec_contains(&self, verse: &BibleVerse) -> bool {
        self.book == verse.book && self.range.contains(
            &ChapterAndVerse { chapter: verse.chapter, verse: verse.verse },
        )
    }

    /// Reads a range of verses such as `Ge 1:1-10` or `Ex 5:3-6:1`, or
    /// `Ob 2-5` for a book with one chapter. A single verse is a range too.
    ///
    /// Fails with `UnknownBook` where the text starts with no abbreviation,
    /// with `MissingChapterOrVerse` where nothing follows the book, with
    /// `MalformedSeparator` or `MalformedNumber` where what follows is no
    /// range, with `OutOfRange` where a chapter or a verse is above 65535,
    /// with `AmbiguousImplicitChapter` where the chapter is left out of a
    /// book that has several, and with `InvertedRange` where the range ends
    /// before it starts.
    pub fn from_str(s: &str) -> (r: Result<Self, ParseError>)
        ensures
            outcome(r) == Self::spec_from_str(s@),
            r matches Ok(range) ==> !range.range.is_empty(),
    {
        let input = Input::new(s);
        let len: usize = input.len();
        assert(input@.subrange(0, len as int) =~= s@);
        let space = input.find(' ', 0, len);
        match recognize(&input) {
            None => {
                let end: usize = match space {
                    Some(at) => at,
                    None => len,
                };
                Err(ParseError::UnknownBook(input.slice(0, end)))
            },
            Some(index) => {
                let book = ALL_BOOKS[index];
                match space {
                    None => Err(ParseError::MissingChapterOrVerse),
                    Some(at) => match ChapterAndVerseRange::parse_in(&input, at + 1, len) {
                        Err(e) => Err(e),
                        Ok(written) => {
                            let implicit = match written {
                                FullOrImplicitRange::Implicit(_) => true,
                                FullOrImplicitRange::Full(_) => false,
                            };
                            let range = written.range();
                            if implicit && book.number_of_chapters() != 1 {
                                Err(ParseError::AmbiguousImplicitChapter)
                            } else if range.is_empty() {
                                Err(ParseError::InvertedRange)
                            } else {
                                Ok(BibleVerseRange { book, range })
                            }
                        },
                    },
                }
            },
        }
    }

    /// Reads a range of verses; see [`Self::from_str`].
    pub fn parse(text: &str) -> (r: Option<Self>)
        ensures
            r == found(Self::spec_from_str(text@)),
            r matches Some(range) ==> !range.range.is_empty(),
    {
        match Self::from_str(text) {
            Ok(range) => Some(range),
            Err(_) => None,
        }
    }

    /// Whether the verse is of the book of the range and lies in the range.
    #[verifier::when_used_as_spec(spec_contains)]
    pub fn contains(&self, verse: &BibleVerse) -> (r: bool)
        ensures
            r == self.spec_contains(verse),
    {
        self.book == verse.book && self.range.contains(
            &ChapterAndVerse { chapter: verse.chapter, verse: verse.verse },
        )
    }

    /// The chapters that the range touches, from that of its start to that
    /// of its end.
    pub fn chapters(&self) -> (chapters: std::vec::IntoIter<u16>)
        ensures
            chapters.remaining() == chapter_span(self.range.start.chapter, self.range.end.chapter),
    {
        let first: u16 = self.range.start.chapter;
        let last: u16 = self.range.end.chapter;
        let ghost span = chapter_span(first, last);
        let mut chapters: Vec<u16> = Vec::new();
        if first <= last {
            let mut chapter: u16 = first;
            while chapter < last
                invariant
                    first <= chapter <= last,
                    span == chapter_span(first, last),
                    chapters@ == span.take(chapter - first),
                decreases last - chapter,
            {
                chapters.push(chapter);
                chapter += 1;
            }
            chapters.push(last);
        }
        chapters.into_iter()
    }

    /// The range of `book` from `start_chapter:start_verse` to
    /// `end_chapter:end_verse`, as it is given: it may be empty.
    pub fn new(
        book: BibleBook,
        start_chapter: u16,
        start_verse: u16,
        end_chapter: u16,
        end_verse: u16,
    ) -> (r: Self)
        ensures
            r == (BibleVerseRange {
                book,
                range: ChapterAndVerseRange {
                    start: ChapterAndVerse { chapter: start_chapter, verse: start_verse },
                    end: ChapterAndVerse { chapter: end_chapter, verse: end_verse },
                },
            }),
    {
        BibleVerseRange {
            book,
            range: ChapterAndVerseRange {
                start: ChapterAndVerse::new(start_chapter, start_verse),
                end: ChapterAndVerse::new(end_chapter, end_verse),
            },
        }
    }

    /// The range as written; see [`Self::text`].
    pub fn to_string(&self) -> (s: String)
        ensures
            s@ == self.text(),
    {
        let one_chapter = self.book.number_of_chapters() == 1;
        let start = self.range.start;
        let end = self.range.end;
        let mut s = String::from_str(self.book.abbrev());
        s.append(" ");
        if one_chapter {
            push_decimal(&mut s, start.verse as u32);
        } else {
            start.push_text(&mut s);
        }
        if start != end {
            s.append("-");
            if one_chapter || start.chapter == end.chapter {
                push_decimal(&mut s, end.verse as u32);
            } else {
                end.push_text(&mut s);
            }
        }
        proof {
            reveal_strlit(" ");
            reveal_strlit("-");
        }
        s
    }
}

impl From<BibleVerse> for BibleVerseRange {
    /// The range that holds the one verse.
    fn from(value: BibleVerse) -> (r: Self) {
        BibleVerseRange::new(value.book, value.chapter, value.verse, value.chapter, value.verse)
    }
}

impl vstd::std_specs::convert::FromSpecImpl<BibleVerse> for BibleVerseRange {
    open spec fn obeys_from_spec() -> bool {
        true
    }

    open spec fn from_spec(value: BibleVerse) -> Self {
        BibleVerseRange {
            book: value.book,
            range: ChapterAndVerseRange {
                start: ChapterAndVerse { chapter: value.chapter, verse: value.verse },
                end: ChapterAndVerse { chapter: value.chapter, verse: value.verse },
            },
        }
    }
}

impl<'a> TryFrom<&'a str> for BibleVerseRange {
    type Error = ParseError;

    /// Reads a range of verses, as [`BibleVerseRange::from_str`] does.
    fn try_from(value: &'a str) -> (r: Result<Self, ParseError>)
        ensures
            outcome(r) == Self::spec_from_str(value@),
            r matches Ok(range) ==> !range.range.is_empty(),
    {
        Self::from_str(value)
    }
}

impl<'a> vstd::std_specs::convert::TryFromSpecImpl<&'a str> for BibleVerseRange {
    /// The error may hold a text, which no specification function can make:
    /// what `try_from` returns is stated on `try_from` itself.
    open spec fn obeys_try_from_spec() -> bool {
        false
    }

    open spec fn try_from_spec(value: &'a str) -> Result<Self, ParseError> {
        arbitrary()
    }
}

/// What stands written behind a book is read as the range of that book that
/// it is located at: a start and an end with a `-` between them as the range
/// that the two are joined to, a start alone as the range from it to itself.
pub proof fn lemma_verse_range_as_written(
    book: BibleBook,
    first: ChapterAndVerseOrVerse,
    last: ChapterAndVerseOrVerse,
)
    ensures
        BibleVerseRange::spec_from_str(book.reference(first.text() + seq!['-'] + last.text()))
            == match ChapterAndVerseRange::join(first, last) {
            Err(e) => Err(e),
            Ok(written) => BibleVerseRange::locate(book, written),
        },
        BibleVerseRange::spec_from_str(book.reference(first.text())) == match ChapterAndVerseRange::join(
            first,
            first,
        ) {
            Err(e) => Err(e),
            Ok(written) => BibleVerseRange::locate(book, written),
        },
{
    lemma_range_as_written(first, last);
    lemma_reference(book, first.text() + seq!['-'] + last.text());
    lemma_reference(book, first.text());
}

/// A range that names a chapter at its end only is refused, whatever the
/// book.
pub proof fn lemma_chapter_at_end_only(book: BibleBook, first_verse: u16, end: ChapterAndVerse)
    ensures
        BibleVerseRange::spec_from_str(
            book.reference(decimal_text(first_verse as nat) + seq!['-'] + end.text()),
        ) == Err::<BibleVerseRange, ParseErrorView>(ParseErrorView::MalformedSeparator),
{
    lemma_verse_range_as_written(
        book,
        ChapterAndVerseOrVerse::JustVerse(first_verse),
        ChapterAndVerseOrVerse::Both(end),
    );
}

/// A range that names no chapter is accepted in a book with one chapter,
/// as a range of chapter 1, and in no other book.
pub proof fn lemma_range_without_chapter(book: BibleBook, first_verse: u16, last_verse: u16)
    ensures
        BibleVerseRange::spec_from_str(
            book.reference(
                decimal_text(first_verse as nat) + seq!['-'] + decimal_text(last_verse as nat),
            ),
        ) == if book.number_of_chapters() != 1 {
            Err::<BibleVerseRange, ParseErrorView>(ParseErrorView::AmbiguousImplicitChapter)
        } else if last_verse < first_verse {
            Err(ParseErrorView::InvertedRange)
        } else {
            Ok(
                BibleVerseRange {
                    book,
                    range: ChapterAndVerseRange {
                        start: ChapterAndVerse { chapter: 1, verse: first_verse },
                        end: ChapterAndVerse { chapter: 1, verse: last_verse },
                    },
                },
            )
        },
{
    lemma_verse_range_as_written(
        book,
        ChapterAndVerseOrVerse::JustVerse(first_verse),
        ChapterAndVerseOrVerse::JustVerse(last_verse),
    );
}

/// A range that is written out and read again is the same range, if it is
/// not empty and, in a book with one chapter, lies in chapter 1: such a book
/// has no chapter written, and a range read without one lies in chapter 1.
pub proof fn lemma_verse_range_round_trip(range: BibleVerseRange)
    requires
        !range.range.is_empty(),
        range.book.number_of_chapters() == 1 ==> range.range.start.chapter == 1
            && range.range.end.chapter == 1,
    ensures
        BibleVerseRange::spec_from_str(range.text()) == Ok::<BibleVerseRange, ParseErrorView>(
            range,
        ),
{
    let start = range.range.start;
    let end = range.range.end;
    let one_chapter = range.book.number_of_chapters() == 1;
    let first = if one_chapter {
        ChapterAndVerseOrVerse::JustVerse(start.verse)
    } else {
        ChapterAndVerseOrVerse::Both(start)
    };
    let last = if one_chapter || start.chapter == end.chapter {
        ChapterAndVerseOrVerse::JustVerse(end.verse)
    } else {
        ChapterAndVerseOrVerse::Both(end)
    };
    lemma_verse_range_as_written(range.book, first, last);
}

} // verus!
