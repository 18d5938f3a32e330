//! The structured values: books, chapters, verses and ranges of verses.

pub mod book;
pub mod bookorchapter;
pub mod chapter;
pub mod chapterandverse;
pub mod chapterandverseorverse;
pub mod chapterandverserange;
pub mod errors;
pub mod verse;
pub mod verserange;
