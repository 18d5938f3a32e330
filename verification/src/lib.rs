//! References to places in the Bible: books, chapters, verses and ranges of
//! verses.
//!
//! The crate reads references as they are commonly written, such as `Ge 1`,
//! `Ps 119:176`, `Ex 5:3-6:1` or `Jude 5`, into values that are known to name
//! a book of the canon, and writes such values out again. A text that is no
//! reference is refused with the reason why.
//!
//! The canonical table of the 66 books lies in [`table`]: names,
//! abbreviations and chapter counts, each indexed by the book's place in the
//! canon. [`parse_book_abbrev`] finds the abbreviation that a text starts
//! with. The values themselves are in [`structs`].
//!
//! Every function states what it returns in terms of what the text holds,
//! character by character, and is verified against that statement.

// Items that only specifications and proofs use are imported for nothing
// once ghost code is erased.
#![allow(unused_imports)]

pub mod abbrev;
pub mod number;
pub mod structs;
pub mod table;
pub mod text;

pub use abbrev::parse_book_abbrev;
pub use structs::book;
pub use structs::book::{BibleBook, OutOfRangeError};
pub use structs::bookorchapter::BibleBookOrChapter;
pub use structs::chapter::BibleChapter;
pub use structs::chapterandverse::ChapterAndVerse;
pub use structs::chapterandverseorverse::ChapterAndVerseOrVerse;
pub use structs::chapterandverserange::{ChapterAndVerseRange, FullOrImplicitRange};
pub use structs::errors::ParseError;
pub use structs::verse::BibleVerse;
pub use structs::verserange::BibleVerseRange;
pub use table::{BOOK_ABBREVS, BOOK_CHAPTERS, BOOK_NAMES};
