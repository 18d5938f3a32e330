//! Why a text could not be read as a reference.

use vstd::prelude::*;

verus! {

/// The reason why a text is no reference of the kind asked for.
#[derive(Debug)]
pub enum ParseError {
    /// The text does not start with the abbreviation of a book, nor is it
    /// the name of one where a name may stand. Carries the word that the
    /// text starts with: what stands in front of its first space.
    UnknownBook(String),
    /// The text ends behind the book, where a chapter or a verse had to follow.
    MissingChapterOrVerse,
    /// A chapter or a verse is not written as a number: an optional `+` and
    /// one or more digits. Carries the piece of text that should have been
    /// the number.
    MalformedNumber(String),
    /// The chapter is 0 or higher than the number of chapters of the book,
    /// or a chapter or verse is higher than 65535, the highest number that
    /// is held. Carries a sentence that names the bound.
    OutOfRange(String),
    /// `:` or `-` is missing or misplaced, as in a range that names a chapter
    /// at its end only.
    MalformedSeparator,
    /// The range ends before it starts.
    InvertedRange,
    /// The chapter is left out, and the book has more than one.
    AmbiguousImplicitChapter,
}

/// A [`ParseError`] as specifications see it: with the characters of each
/// text that it carries.
pub enum ParseErrorView {
    UnknownBook(Seq<char>),
    MissingChapterOrVerse,
    MalformedNumber(Seq<char>),
    OutOfRange(Seq<char>),
    MalformedSeparator,
    InvertedRange,
    AmbiguousImplicitChapter,
}

impl View for ParseError {
    type V = ParseErrorView;

    open spec fn view(&self) -> ParseErrorView {
        match self {
            ParseError::UnknownBook(token) => ParseErrorView::UnknownBook(token@),
            ParseError::MissingChapterOrVerse => ParseErrorView::MissingChapterOrVerse,
            ParseError::MalformedNumber(text) => ParseErrorView::MalformedNumber(text@),
            ParseError::OutOfRange(bound) => ParseErrorView::OutOfRange(bound@),
            ParseError::MalformedSeparator => ParseErrorView::MalformedSeparator,
            ParseError::InvertedRange => ParseErrorView::InvertedRange,
            ParseError::AmbiguousImplicitChapter => ParseErrorView::AmbiguousImplicitChapter,
        }
    }
}

impl ParseErrorView {
    /// The error as shown to a user: its kind and, where it carries a text,
    /// that text.
    pub open spec fn text(self) -> Seq<char> {
        match self {
            ParseErrorView::UnknownBook(token) => "UnknownBook: "@ + token,
            ParseErrorView::MissingChapterOrVerse => "MissingChapterOrVerse"@,
            ParseErrorView::MalformedNumber(text) => "MalformedNumber: "@ + text,
            ParseErrorView::OutOfRange(bound) => "OutOfRange: "@ + bound,
            ParseErrorView::MalformedSeparator => "MalformedSeparator"@,
            ParseErrorView::InvertedRange => "InvertedRange"@,
            ParseErrorView::AmbiguousImplicitChapter => "AmbiguousImplicitChapter"@,
        }
    }
}

impl ParseError {
    /// The error as shown to a user.
    pub fn to_string(&self) -> (s: String)
        ensures
            s@ == self@.text(),
    {
        match self {
            ParseError::UnknownBook(token) => {
                let mut s = String::from_str("UnknownBook: ");
                s.append(token.as_str());
                s
            },
            ParseError::MissingChapterOrVerse => String::from_str("MissingChapterOrVerse"),
            ParseError::MalformedNumber(text) => {
                let mut s = String::from_str("MalformedNumber: ");
                s.append(text.as_str());
                s
            },
            ParseError::OutOfRange(bound) => {
                let mut s = String::from_str("OutOfRange: ");
                s.append(bound.as_str());
                s
            },
            ParseError::MalformedSeparator => String::from_str("MalformedSeparator"),
            ParseError::InvertedRange => String::from_str("InvertedRange"),
            ParseError::AmbiguousImplicitChapter => String::from_str("AmbiguousImplicitChapter"),
        }
    }
}

/// What a parser returned, as specifications see it.
pub open spec fn outcome<T>(r: Result<T, ParseError>) -> Result<T, ParseErrorView> {
    match r {
        Ok(value) => Ok(value),
        Err(e) => Err(e@),
    }
}

/// The value that a parser found, if it found one.
pub open spec fn found<T>(r: Result<T, ParseErrorView>) -> Option<T> {
    match r {
        Ok(value) => Some(value),
        Err(_) => None,
    }
}

} // verus!
