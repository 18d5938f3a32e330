//! A book, or a chapter of a book.

use crate::structs::book::{lemma_parse_abbrev_of_abbrev, BibleBook};
use crate::structs::chapter::{lemma_chapter_round_trip, BibleChapter};
use crate::structs::errors::{found, outcome, ParseError, ParseErrorView};
use crate::table::lemma_abbrev_table;
use crate::text::Input;
use vstd::prelude::*;

verus! {

/// A reference to a whole book or to one of its chapters.
#[derive(Debug, Clone, Copy, PartialEq, Eq, Structural)]
pub enum BibleBookOrChapter {
    Book(BibleBook),
    Chapter(BibleChapter),
}

impl BibleBookOrChapter {
    /// The abbreviation of the book, or `{abbreviation} {chapter}`.
    pub open spec fn text(self) -> Seq<char> {
        match self {
            BibleBookOrChapter::Book(book) => book.abbrev_text(),
            BibleBookOrChapter::Chapter(chapter) => chapter.text(),
        }
    }

    /// What `s` denotes: without a space a book, by abbreviation or by name;
    /// with one a chapter.
    pub open spec fn spec_from_str(s: Seq<char>) -> Result<BibleBookOrChapter, ParseErrorView> {
        if !s.contains(' ') {
            match BibleBook::spec_from_str(s) {
                Ok(book) => Ok(BibleBookOrChapter::Book(book)),
                Err(e) => Err(e),
            }
        } else {
            match BibleChapter::spec_from_str(s) {
                Ok(chapter) => Ok(BibleBookOrChapter::Chapter(chapter)),
                Err(e) => Err(e),
            }
        }
    }

    /// Reads a book or a chapter.
    ///
    /// A text without a space has to be the abbreviation or the name of a
    /// book, else it fails with `UnknownBook`. A text with a space is read as
    /// a chapter, and fails as [`BibleChapter::from_str`] does.
    pub fn from_str(s: &str) -> (r: Result<Self, ParseError>)
        ensures
            outcome(r) == Self::spec_from_str(s@),
    {
        let input = Input::new(s);
        let len: usize = input.len();
        assert(input@.subrange(0, len as int) =~= s@);
        match input.find(' ', 0, len) {
            None => match BibleBook::from_str(s) {
                Ok(book) => Ok(BibleBookOrChapter::Book(book)),
                Err(e) => Err(e),
            },
            Some(_) => match BibleChapter::read(&input) {
                Ok(chapter) => Ok(BibleBookOrChapter::Chapter(chapter)),
                Err(e) => Err(e),
            },
        }
    }

    /// Reads a book or a chapter; see [`Self::from_str`].
    pub fn parse(text: &str) -> (r: Option<Self>)
        ensures
            r == found(Self::spec_from_str(text@)),
    {
        match Self::from_str(text) {
            Ok(value) => Some(value),
            Err(_) => None,
        }
    }

    /// The abbreviation of the book, or the chapter as `{abbreviation} {chapter}`.
    pub fn to_string(&self) -> (s: String)
        ensures
            s@ == self.text(),
    {
        match self {
            BibleBookOrChapter::Book(book) => String::from_str(book.abbrev()),
            BibleBookOrChapter::Chapter(chapter) => chapter.to_string(),
        }
    }
}

/// A book, or a chapter that its book has, written out and read again is the
/// same book or chapter.
pub proof fn lemma_book_or_chapter_round_trip(value: BibleBookOrChapter)
    requires
        value matches BibleBookOrChapter::Chapter(chapter) ==> chapter.is_valid(),
    ensures
        BibleBookOrChapter::spec_from_str(value.text()) == Ok::<
            BibleBookOrChapter,
            ParseErrorView,
        >(value),
{
    match value {
        BibleBookOrChapter::Book(book) => {
            lemma_abbrev_table();
            lemma_parse_abbrev_of_abbrev(book);
        },
        BibleBookOrChapter::Chapter(chapter) => {
            lemma_chapter_round_trip(chapter);
            let abbrev = chapter.book.abbrev_text();
            assert(chapter.text()[abbrev.len() as int] == ' ');
        },
    }
}

} // verus!
