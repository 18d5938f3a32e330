//! A chapter of a book.

use crate::abbrev::{leading_token, recognize};
use crate::number::{
    decimal_text, lemma_parse_decimal_text, parse_number, push_decimal, read_number,
};
use crate::structs::book::{lemma_reference, BibleBook, ALL_BOOKS};
use crate::structs::errors::{found, outcome, ParseError, ParseErrorView};
use crate::text::{after_first, Input};
use std::cmp::Ordering;
use vstd::prelude::*;
use vstd::std_specs::cmp::PartialOrdSpec;

verus! {

/// A chapter in the Bible: a book and the number of one of its chapters.
///
/// [`BibleChapter::new`] and the parsers only give out chapters that the book
/// has; [`BibleChapter::is_valid`] tells whether a value made by hand is one.
#[derive(Debug, Clone, Copy, PartialEq, Eq, Structural, Ord)]
pub struct BibleChapter {
    pub book: BibleBook,
    pub chapter: u16,
}

/// What the error says of a chapter 0.
pub open spec fn chapter_zero_error() -> Seq<char> {
    "0. Chapter numbers start at 1"@
}

/// What the error says of a chapter that the book does not reach, however
/// high it is.
pub open spec fn chapter_too_high_error(book: BibleBook, chapter: nat) -> Seq<char> {
    too_high_sentence(book, decimal_text(chapter))
}

/// The sentence that names the chapter count of `book` and the chapter as it
/// is `written`.
pub open spec fn too_high_sentence(book: BibleBook, written: Seq<char>) -> Seq<char> {
    book.name_text() + " has "@ + decimal_text(book.number_of_chapters() as nat)
        + " chapters. "@ + written + " is too high."@
}

impl BibleChapter {
    /// Whether the book has this chapter.
    pub open spec fn spec_is_valid(&self) -> bool {
        1 <= self.chapter <= self.book.number_of_chapters()
    }

    /// `{abbreviation} {chapter}`.
    pub open spec fn text(self) -> Seq<char> {
        self.book.reference(decimal_text(self.chapter as nat))
    }

    /// What `s` denotes as a chapter: the abbreviation of a book and, behind
    /// a space, the number of one of its chapters. A book with one chapter
    /// only may stand alone.
    ///
    /// What stands behind the space is no number unless it is written as
    /// one; a number of any size that is no chapter of the book is out of
    /// range.
    pub open spec fn spec_from_str(s: Seq<char>) -> Result<BibleChapter, ParseErrorView> {
        match BibleBook::spec_parse_abbrev(s) {
            None => Err(ParseErrorView::UnknownBook(leading_token(s))),
            Some(book) => if !s.contains(' ') {
                if book.number_of_chapters() == 1 {
                    Ok(BibleChapter { book, chapter: 1 })
                } else {
                    Err(ParseErrorView::MissingChapterOrVerse)
                }
            } else {
                match parse_number(after_first(s, ' ')) {
                    None => Err(ParseErrorView::MalformedNumber(after_first(s, ' '))),
                    Some(number) => if number == 0 {
                        Err(ParseErrorView::OutOfRange(chapter_zero_error()))
                    } else if number > book.number_of_chapters() {
                        Err(ParseErrorView::OutOfRange(chapter_too_high_error(book, number)))
                    } else {
                        Ok(BibleChapter { book, chapter: number as u16 })
                    },
                }
            },
        }
    }

    /// Construct a new BibleChapter from the book and chapter, if the book
    /// has that chapter.
    pub fn new(book: BibleBook, chapter: u16) -> (r: Option<Self>)
        ensures
            r == if (BibleChapter { book, chapter }).spec_is_valid() {
                Some(BibleChapter { book, chapter })
            } else {
                None
            },
            r matches Some(made) ==> made.is_valid(),
    {
        let result = BibleChapter { book, chapter };
        if result.is_valid() {
            Some(result)
        } else {
            None
        }
    }

    /// Check that the chapter is in the right range.
    #[verifier::when_used_as_spec(spec_is_valid)]
    pub fn is_valid(&self) -> (r: bool)
        ensures
            r == self.spec_is_valid(),
    {
        1 <= self.chapter && self.chapter as u32 <= self.book.number_of_chapters()
    }

    /// The sentence for a chapter that the book does not reach; `written`
    /// is the chapter in decimal.
    fn too_high(book: BibleBook, written: &str) -> (s: String)
        ensures
            s@ == too_high_sentence(book, written@),
    {
        let mut s = String::from_str(book.name());
        s.append(" has ");
        push_decimal(&mut s, book.number_of_chapters());
        s.append(" chapters. ");
        s.append(written);
        s.append(" is too high.");
        s
    }

    /// Reads the chapter that `input` names.
    pub fn read(input: &Input) -> (r: Result<Self, ParseError>)
        ensures
            outcome(r) == Self::spec_from_str(input@),
            r matches Ok(chapter) ==> chapter.is_valid(),
    {
        let len: usize = input.len();
        assert(input@.subrange(0, len as int) =~= input@);
        let space = input.find(' ', 0, len);
        match recognize(input) {
            None => {
                let end: usize = match space {
                    Some(at) => at,
                    None => len,
                };
                Err(ParseError::UnknownBook(input.slice(0, end)))
            },
            Some(index) => {
                let book = ALL_BOOKS[index];
                match space {
                    None => {
                        if book.number_of_chapters() == 1 {
                            Ok(BibleChapter { book, chapter: 1 })
                        } else {
                            Err(ParseError::MissingChapterOrVerse)
                        }
                    },
                    Some(at) => match read_number(input, at + 1, len) {
                        None => Err(ParseError::MalformedNumber(input.slice(at + 1, len))),
                        Some(numeral) => match numeral.value {
                            Some(chapter) if chapter == 0 => Err(
                                ParseError::OutOfRange(
                                    String::from_str("0. Chapter numbers start at 1"),
                                ),
                            ),
                            Some(chapter) if chapter as u32 <= book.number_of_chapters() => Ok(
                                BibleChapter { book, chapter },
                            ),
                            _ => {
                                let written = input.slice(numeral.from, len);
                                Err(ParseError::OutOfRange(Self::too_high(book, written.as_str())))
                            },
                        },
                    },
                }
            },
        }
    }

    /// Attempt to parse a Bible book and chapter from a string such as
    /// `Ge 1`.
    ///
    /// Fails with `UnknownBook` where the text starts with no abbreviation,
    /// with `MissingChapterOrVerse` where nothing follows a book that has
    /// several chapters, with `MalformedNumber` where what follows is not
    /// written as a number, and with `OutOfRange` where the book has no such
    /// chapter, however high the number is.
    pub fn from_str(s: &str) -> (r: Result<Self, ParseError>)
        ensures
            outcome(r) == Self::spec_from_str(s@),
            r matches Ok(chapter) ==> chapter.is_valid(),
    {
        let input = Input::new(s);
        Self::read(&input)
    }

    /// Attempt to parse a Bible book and chapter from a string such as
    /// `Ge 1`.
    pub fn parse(text: &str) -> (r: Option<Self>)
        ensures
            r == found(Self::spec_from_str(text@)),
            r matches Some(chapter) ==> chapter.is_valid(),
    {
        match Self::from_str(text) {
            Ok(chapter) => Some(chapter),
            Err(_) => None,
        }
    }

    /// The chapter as `{abbreviation} {chapter}`.
    pub fn to_string(&self) -> (s: String)
        ensures
            s@ == self.text(),
    {
        let mut s = String::from_str(self.book.abbrev());
        s.append(" ");
        push_decimal(&mut s, self.chapter as u32);
        proof {
            reveal_strlit(" ");
        }
        s
    }
}

impl PartialOrd for BibleChapter {
    /// By book, then by chapter.
    fn partial_cmp(&self, other: &Self) -> (r: Option<Ordering>) {
        if self.book.book_number() < other.book.book_number() {
            Some(Ordering::Less)
        } else if self.book.book_number() > other.book.book_number() {
            Some(Ordering::Greater)
        } else if self.chapter < other.chapter {
            Some(Ordering::Less)
        } else if self.chapter > other.chapter {
            Some(Ordering::Greater)
        } else {
            Some(Ordering::Equal)
        }
    }
}

impl vstd::std_specs::cmp::PartialOrdSpecImpl for BibleChapter {
    open spec fn obeys_partial_cmp_spec() -> bool {
        true
    }

    open spec fn partial_cmp_spec(&self, other: &Self) -> Option<Ordering> {
        if self.book.book_number() < other.book.book_number() {
            Some(Ordering::Less)
        } else if self.book.book_number() > other.book.book_number() {
            Some(Ordering::Greater)
        } else if self.chapter < other.chapter {
            Some(Ordering::Less)
        } else if self.chapter > other.chapter {
            Some(Ordering::Greater)
        } else {
            Some(Ordering::Equal)
        }
    }
}

/// A book with a number behind it is read as the chapter of that number if
/// the book has it. If not, the number is out of range, however high it is:
/// no number is too high to be told so.
pub proof fn lemma_chapter_as_written(book: BibleBook, number: nat)
    ensures
        BibleChapter::spec_from_str(book.reference(decimal_text(number))) == if number == 0 {
            Err::<BibleChapter, ParseErrorView>(
                ParseErrorView::OutOfRange(chapter_zero_error()),
            )
        } else if number > book.number_of_chapters() {
            Err(ParseErrorView::OutOfRange(chapter_too_high_error(book, number)))
        } else {
            Ok(BibleChapter { book, chapter: number as u16 })
        },
{
    lemma_reference(book, decimal_text(number));
    lemma_parse_decimal_text(number);
}

/// A chapter that its book has, written out and read again, is the same
/// chapter.
pub proof fn lemma_chapter_round_trip(chapter: BibleChapter)
    requires
        chapter.is_valid(),
    ensures
        BibleChapter::spec_from_str(chapter.text()) == Ok::<BibleChapter, ParseErrorView>(chapter),
{
    lemma_chapter_as_written(chapter.book, chapter.chapter as nat);
}

/// Chapters are ordered by book first and by chapter second.
pub proof fn lemma_chapter_order(a: BibleChapter, b: BibleChapter)
    ensures
        a.book.index() < b.book.index() ==> a.partial_cmp_spec(&b) == Some(Ordering::Less),
        a.book.index() > b.book.index() ==> a.partial_cmp_spec(&b) == Some(Ordering::Greater),
        a.book == b.book && a.chapter < b.chapter ==> a.partial_cmp_spec(&b) == Some(
            Ordering::Less,
        ),
        a.book == b.book && a.chapter > b.chapter ==> a.partial_cmp_spec(&b) == Some(
            Ordering::Greater,
        ),
        a.partial_cmp_spec(&b) == Some(Ordering::Equal) <==> a == b,
{
}

} // verus!
