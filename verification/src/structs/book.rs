//! Books of the Bible.

use crate::abbrev::{
    book_index, leading_token, lemma_abbrev_recognized, lemma_abbrev_run_on, recognize,
};
use crate::number::{decimal_text, push_decimal};
use crate::structs::errors::{outcome, ParseError, ParseErrorView};
use crate::table::{lemma_abbrev_table, lemma_name_table, BOOK_ABBREVS, BOOK_CHAPTERS, BOOK_NAMES};
use crate::text::{after_first, lemma_split_at_separator, Input};
use std::cmp::Ordering;
use vstd::prelude::*;
use vstd::std_specs::cmp::PartialOrdSpec;
use vstd::std_specs::iter::IteratorSpec;

verus! {

/// Error returned when an index or book number was used that was out of range.
#[derive(Debug)]
pub struct OutOfRangeError {
    message: String,
}

impl View for OutOfRangeError {
    type V = Seq<char>;

    /// The message that the error carries.
    closed spec fn view(&self) -> Seq<char> {
        self.message@
    }
}

impl OutOfRangeError {
    /// An error with the given message.
    pub fn new(message: String) -> (e: Self)
        ensures
            e@ == message@,
    {
        OutOfRangeError { message }
    }

    /// The message that the error carries.
    pub fn message(&self) -> (m: &str)
        ensures
            m@ == self@,
    {
        self.message.as_str()
    }

    /// The error as shown to a user: its kind, then its message.
    pub fn to_string(&self) -> (s: String)
        ensures
            s@ == "OutOfRangeError: "@ + self@,
    {
        let mut s = String::from_str("OutOfRangeError: ");
        s.append(self.message.as_str());
        s
    }
}

/// A book of the Bible.
///
/// The variants stand in canonical order, so a value of this type is always
/// one of the 66 books. A book can be made from an index in the range `0..66`
/// with [`BibleBook::from_index`], from a book number in the range `1..=66`
/// with [`BibleBook::from_book_number`], from its abbreviation with
/// [`BibleBook::parse_abbrev`] or from its full name with
/// [`BibleBook::parse_name`]. [`BibleBook::parse`] tries both.
#[derive(Debug, Clone, Copy, PartialEq, Eq, Structural, Ord)]
pub enum BibleBook {
    Genesis,
    Exodus,
    Leviticus,
    Numbers,
    Duteronomy,
    Joshua,
    Judges,
    Ruth,
    FirstSamuel,
    SecondSamuel,
    FirstKings,
    SecondKings,
    FirstChronicles,
    SecondChronicles,
    Ezra,
    Nehemiah,
    Esther,
    Job,
    Psalms,
    Proverbs,
    Eccesiastes,
    SongofSongs,
    Isaiah,
    Jeremiah,
    Lamentations,
    Ezekiel,
    Daniel,
    Hosea,
    Joel,
    Amos,
    Obadiah,
    Jonah,
    Micah,
    Nahum,
    Habakkuk,
    Zephaniah,
    Haggai,
    Zechariah,
    Malachi,
    Matthew,
    Mark,
    Luke,
    John,
    Acts,
    Romans,
    FirstCorinthians,
    SecondCorinthians,
    Galatians,
    Ephesians,
    Philippians,
    Colossians,
    FirstThessalonians,
    SecondThessalonians,
    FirstTimothy,
    SecondTimothy,
    Titus,
    Philemon,
    Hebrews,
    James,
    FirstPeter,
    SecondPeter,
    FirstJohn,
    SecondJohn,
    ThirdJohn,
    Jude,
    Revelation,
}

/// All books, in canonical order.
pub const ALL_BOOKS: [BibleBook; 66] = [
    BibleBook::Genesis, BibleBook::Exodus, BibleBook::Leviticus, BibleBook::Numbers,
    BibleBook::Duteronomy, BibleBook::Joshua, BibleBook::Judges, BibleBook::Ruth,
    BibleBook::FirstSamuel, BibleBook::SecondSamuel, BibleBook::FirstKings,
    BibleBook::SecondKings, BibleBook::FirstChronicles, BibleBook::SecondChronicles,
    BibleBook::Ezra, BibleBook::Nehemiah, BibleBook::Esther, BibleBook::Job, BibleBook::Psalms,
    BibleBook::Proverbs, BibleBook::Eccesiastes, BibleBook::SongofSongs, BibleBook::Isaiah,
    BibleBook::Jeremiah, BibleBook::Lamentations, BibleBook::Ezekiel, BibleBook::Daniel,
    BibleBook::Hosea, BibleBook::Joel, BibleBook::Amos, BibleBook::Obadiah, BibleBook::Jonah,
    BibleBook::Micah, BibleBook::Nahum, BibleBook::Habakkuk, BibleBook::Zephaniah,
    BibleBook::Haggai, BibleBook::Zechariah, BibleBook::Malachi, BibleBook::Matthew,
    BibleBook::Mark, BibleBook::Luke, BibleBook::John, BibleBook::Acts, BibleBook::Romans,
    BibleBook::FirstCorinthians, BibleBook::SecondCorinthians, BibleBook::Galatians,
    BibleBook::Ephesians, BibleBook::Philippians, BibleBook::Colossians,
    BibleBook::FirstThessalonians, BibleBook::SecondThessalonians, BibleBook::FirstTimothy,
    BibleBook::SecondTimothy, BibleBook::Titus, BibleBook::Philemon, BibleBook::Hebrews,
    BibleBook::James, BibleBook::FirstPeter, BibleBook::SecondPeter, BibleBook::FirstJohn,
    BibleBook::SecondJohn, BibleBook::ThirdJohn, BibleBook::Jude, BibleBook::Revelation,
];

/// The message of the error for a book number that is no book's.
pub open spec fn book_number_error(number: u32) -> Seq<char> {
    if number == 0 {
        "Zero used. Book numbers start from 1. Did you mean to use from_index()?"@
    } else {
        decimal_text(number as nat) + ". book_number should be in range 1..=66"@
    }
}

/// The message of the error for an index that is no book's.
pub open spec fn index_error(index: u32) -> Seq<char> {
    if index == 66 {
        "66 used. Highest value of index is 65. Did you mean to use from_book_number()?"@
    } else {
        decimal_text(index as nat) + ". index should be in range 0..66"@
    }
}

impl BibleBook {
    /// The book's place in the canon, counted from 1.
    pub open spec fn spec_book_number(&self) -> u32 {
        (*self as u32 + 1) as u32
    }

    /// The book's index in the canonical table, counted from 0.
    pub open spec fn spec_index(&self) -> usize {
        (self.spec_book_number() - 1) as usize
    }

    /// The characters of the book's name.
    pub open spec fn name_text(&self) -> Seq<char> {
        BOOK_NAMES[self.spec_index() as int]@
    }

    /// The characters of the book's abbreviation.
    pub open spec fn abbrev_text(&self) -> Seq<char> {
        BOOK_ABBREVS[self.spec_index() as int]@
    }

    /// A reference into the book as it is written: the abbreviation, a
    /// space, and the place in the book.
    pub open spec fn reference(&self, place: Seq<char>) -> Seq<char> {
        self.abbrev_text() + seq![' '] + place
    }

    /// Whether the book is one of the last 27.
    pub open spec fn spec_is_new_testament(&self) -> bool {
        40 <= self.spec_book_number() <= 66
    }

    /// Whether the book is one of the first 39.
    pub open spec fn spec_is_old_testament(&self) -> bool {
        1 <= self.spec_book_number() <= 39
    }

    /// The chapter count that the canonical table holds for the book.
    pub open spec fn spec_number_of_chapters(&self) -> u32 {
        BOOK_CHAPTERS[self.spec_index() as int] as u32
    }

    /// The book that an abbreviation at the start of `s` names.
    pub open spec fn spec_parse_abbrev(s: Seq<char>) -> Option<BibleBook> {
        match book_index(s) {
            Some(i) => Some(ALL_BOOKS[i as int]),
            None => None,
        }
    }

    /// The book whose full name is `s`.
    pub open spec fn spec_parse_name(s: Seq<char>) -> Option<BibleBook> {
        if exists|i: int| 0 <= i < 66 && s == #[trigger] BOOK_NAMES[i]@ {
            Some(ALL_BOOKS[choose|i: int| 0 <= i < 66 && s == #[trigger] BOOK_NAMES[i]@])
        } else {
            None
        }
    }

    /// The books of the Old Testament, in canonical order.
    pub open spec fn old_testament() -> Seq<BibleBook> {
        ALL_BOOKS@.filter(|book: BibleBook| book.is_old_testament())
    }

    /// The books of the New Testament, in canonical order.
    pub open spec fn new_testament() -> Seq<BibleBook> {
        ALL_BOOKS@.filter(|book: BibleBook| book.is_new_testament())
    }

    /// The books that have one chapter only, in canonical order.
    pub open spec fn single_chapter_books() -> Seq<BibleBook> {
        ALL_BOOKS@.filter(|book: BibleBook| book.number_of_chapters() == 1)
    }

    /// The book that `s` names, by an abbreviation at its start or else by
    /// being a full name.
    pub open spec fn spec_parse(s: Seq<char>) -> Option<BibleBook> {
        match Self::spec_parse_abbrev(s) {
            Some(book) => Some(book),
            None => Self::spec_parse_name(s),
        }
    }

    /// The book that `s` names, or the reason why it names none, with the
    /// word that `s` starts with.
    pub open spec fn spec_from_str(s: Seq<char>) -> Result<BibleBook, ParseErrorView> {
        match Self::spec_parse(s) {
            Some(book) => Ok(book),
            None => Err(ParseErrorView::UnknownBook(leading_token(s))),
        }
    }

    /// Return the book number for this book as it occurs in the Bible.
    /// 1 = Genesis. 66 = Revelation.
    #[verifier::when_used_as_spec(spec_book_number)]
    pub fn book_number(&self) -> (number: u32)
        ensures
            number == self.spec_book_number(),
            1 <= number <= 66,
    {
        *self as u32 + 1
    }

    /// Return the zero-based index for accessing arrays.
    /// 0 = Genesis. 65 = Revelation.
    #[verifier::when_used_as_spec(spec_index)]
    pub fn index(&self) -> (index: usize)
        ensures
            index == self.spec_index(),
            index == self.book_number() - 1,
            index < 66,
    {
        (self.book_number() - 1) as usize
    }

    /// Return the name of this book, e.g. "Genesis" or "Revelation".
    pub fn name(&self) -> (name: &'static str)
        ensures
            name@ == self.name_text(),
    {
        BOOK_NAMES[self.index()]
    }

    /// Return the abbreviation for this book, e.g. "Ge" or "Rev".
    pub fn abbrev(&self) -> (abbrev: &'static str)
        ensures
            abbrev@ == self.abbrev_text(),
    {
        BOOK_ABBREVS[self.index()]
    }

    /// Construct a BibleBook from its book number.
    /// 1 = Genesis. 66 = Revelation.
    ///
    /// Any other number is refused, with a message that tells 0 (an index
    /// taken for a number) from a number that is too high.
    pub fn from_book_number(number: u32) -> (r: Result<Self, OutOfRangeError>)
        ensures
            match r {
                Ok(book) => 1 <= number <= 66 && book == ALL_BOOKS[number - 1]
                    && book.book_number() == number,
                Err(e) => !(1 <= number <= 66) && e@ == book_number_error(number),
            },
    {
        if number == 0 {
            Err(
                OutOfRangeError::new(
                    String::from_str(
                        "Zero used. Book numbers start from 1. Did you mean to use from_index()?",
                    ),
                ),
            )
        } else if number <= 66 {
            Ok(ALL_BOOKS[(number - 1) as usize])
        } else {
            let mut message = String::new();
            push_decimal(&mut message, number);
            message.append(". book_number should be in range 1..=66");
            Err(OutOfRangeError::new(message))
        }
    }

    /// Construct a BibleBook from its zero-based index.
    /// 0 = Genesis. 65 = Revelation.
    ///
    /// Any other index is refused, with a message that tells 66 (a number
    /// taken for an index) from an index that is too high.
    pub fn from_index(index: u32) -> (r: Result<Self, OutOfRangeError>)
        ensures
            match r {
                Ok(book) => index < 66 && book == ALL_BOOKS[index as int] && book.index()
                    == index,
                Err(e) => index >= 66 && e@ == index_error(index),
            },
    {
        if index == 66 {
            Err(
                OutOfRangeError::new(
                    String::from_str(
                        "66 used. Highest value of index is 65. Did you mean to use from_book_number()?",
                    ),
                ),
            )
        } else if index > 66 {
            let mut message = String::new();
            push_decimal(&mut message, index);
            message.append(". index should be in range 0..66");
            Err(OutOfRangeError::new(message))
        } else {
            Self::from_book_number(index + 1)
        }
    }

    /// Construct a BibleBook instance by parsing its abbreviation.
    ///
    /// Returns `None` if the text does not start with the abbreviation of a
    /// known book, followed by a space or by the end of the text.
    pub fn parse_abbrev(abbrev: &str) -> (r: Option<Self>)
        ensures
            r == Self::spec_parse_abbrev(abbrev@),
    {
        let input = Input::new(abbrev);
        match recognize(&input) {
            None => None,
            Some(index) => Some(ALL_BOOKS[index]),
        }
    }

    /// Construct a BibleBook instance by parsing its name.
    ///
    /// Returns `None` if the text is not the full name of a known book.
    pub fn parse_name(name: &str) -> (r: Option<Self>)
        ensures
            r == Self::spec_parse_name(name@),
    {
        let input = Input::new(name);
        let len: usize = input.len();
        let mut i: usize = 0;
        while i < 66
            invariant
                i <= 66,
                len == input@.len(),
                input@.subrange(0, len as int) == name@,
                forall|j: int| 0 <= j < i ==> name@ != #[trigger] BOOK_NAMES[j]@,
            decreases 66 - i,
        {
            if input.slice_is(0, len, BOOK_NAMES[i]) {
                proof {
                    lemma_name_table();
                }
                return Some(ALL_BOOKS[i]);
            }
            i += 1;
        }
        None
    }

    /// Parse a string into a BibleBook instance.
    ///
    /// Attempts to match either a valid abbreviation or the complete book
    /// name.
    pub fn parse(value: &str) -> (r: Option<Self>)
        ensures
            r == Self::spec_parse(value@),
    {
        match Self::parse_abbrev(value) {
            Some(book) => Some(book),
            None => Self::parse_name(value),
        }
    }

    /// Parse a string into a BibleBook instance, as [`BibleBook::parse`]
    /// does, or say that it names no book.
    ///
    /// Fails with `UnknownBook`, which carries the word that the text
    /// starts with.
    pub fn from_str(s: &str) -> (r: Result<Self, ParseError>)
        ensures
            outcome(r) == Self::spec_from_str(s@),
    {
        match Self::parse(s) {
            Some(book) => Ok(book),
            None => {
                let input = Input::new(s);
                let len: usize = input.len();
                let end: usize = match input.find(' ', 0, len) {
                    Some(at) => at,
                    None => len,
                };
                assert(input@.subrange(0, len as int) =~= s@);
                Err(ParseError::UnknownBook(input.slice(0, end)))
            },
        }
    }

    /// Return an iterator over all the books of the Bible, in canonical
    /// order.
    pub fn iter() -> (books: std::vec::IntoIter<BibleBook>)
        ensures
            books.remaining() == ALL_BOOKS@,
    {
        let mut books: Vec<BibleBook> = Vec::new();
        let mut i: usize = 0;
        while i < 66
            invariant
                i <= 66,
                books@ == ALL_BOOKS@.take(i as int),
            decreases 66 - i,
        {
            books.push(ALL_BOOKS[i]);
            i += 1;
        }
        books.into_iter()
    }

    /// Return if this book is part of the New Testament.
    #[verifier::when_used_as_spec(spec_is_new_testament)]
    pub fn is_new_testament(&self) -> (r: bool)
        ensures
            r == self.spec_is_new_testament(),
    {
        self.book_number() >= 40
    }

    /// Return if this book is part of the Old Testament.
    #[verifier::when_used_as_spec(spec_is_old_testament)]
    pub fn is_old_testament(&self) -> (r: bool)
        ensures
            r == self.spec_is_old_testament(),
    {
        self.book_number() <= 39
    }

    /// Return the number of chapters in this book.
    #[verifier::when_used_as_spec(spec_number_of_chapters)]
    pub fn number_of_chapters(&self) -> (n: u32)
        ensures
            n == self.spec_number_of_chapters(),
            1 <= n <= 150,
    {
        BOOK_CHAPTERS[self.index()] as u32
    }
}

impl PartialOrd for BibleBook {
    /// Books are ordered as they stand in the canon.
    fn partial_cmp(&self, other: &Self) -> (r: Option<Ordering>) {
        let a: u32 = self.book_number();
        let b: u32 = other.book_number();
        if a < b {
            Some(Ordering::Less)
        } else if a > b {
            Some(Ordering::Greater)
        } else {
            Some(Ordering::Equal)
        }
    }
}

impl vstd::std_specs::cmp::PartialOrdSpecImpl for BibleBook {
    open spec fn obeys_partial_cmp_spec() -> bool {
        true
    }

    open spec fn partial_cmp_spec(&self, other: &Self) -> Option<Ordering> {
        if self.book_number() < other.book_number() {
            Some(Ordering::Less)
        } else if self.book_number() > other.book_number() {
            Some(Ordering::Greater)
        } else {
            Some(Ordering::Equal)
        }
    }
}

impl TryFrom<u8> for BibleBook {
    type Error = OutOfRangeError;

    /// The book with the given book number, as [`BibleBook::from_book_number`] gives it.
    fn try_from(value: u8) -> (r: Result<Self, OutOfRangeError>)
        ensures
            match r {
                Ok(book) => 1 <= value <= 66 && book == ALL_BOOKS[value - 1],
                Err(e) => !(1 <= value <= 66) && e@ == book_number_error(value as u32),
            },
    {
        Self::from_book_number(value as u32)
    }
}

impl vstd::std_specs::convert::TryFromSpecImpl<u8> for BibleBook {
    /// The error holds a message, which no specification function can make:
    /// what `try_from` returns is stated on `try_from` itself.
    open spec fn obeys_try_from_spec() -> bool {
        false
    }

    open spec fn try_from_spec(value: u8) -> Result<Self, OutOfRangeError> {
        arbitrary()
    }
}

impl<'a> TryFrom<&'a str> for BibleBook {
    type Error = ();

    /// The book that the text names, as [`BibleBook::parse`] finds it.
    fn try_from(value: &'a str) -> (r: Result<Self, ()>) {
        match Self::parse(value) {
            Some(book) => Ok(book),
            None => Err(()),
        }
    }
}

impl<'a> vstd::std_specs::convert::TryFromSpecImpl<&'a str> for BibleBook {
    open spec fn obeys_try_from_spec() -> bool {
        true
    }

    open spec fn try_from_spec(value: &'a str) -> Result<Self, ()> {
        match Self::spec_parse(value@) {
            Some(book) => Ok(book),
            None => Err(()),
        }
    }
}

/// The table index and the book number name the book: `ALL_BOOKS` holds each
/// book at its own index, and no two books share a number.
pub proof fn lemma_book_numbering(book: BibleBook, other: BibleBook)
    ensures
        ALL_BOOKS[book.index() as int] == book,
        book.book_number() == other.book_number() ==> book == other,
{
}

/// Going from an index to the book and back gives the index; so for a book
/// number.
pub proof fn lemma_index_round_trip(index: int)
    requires
        0 <= index < 66,
    ensures
        ALL_BOOKS[index].index() == index,
        ALL_BOOKS[index].book_number() == index + 1,
{
}

/// The order of books is the order of the canonical table.
pub proof fn lemma_book_order(a: BibleBook, b: BibleBook)
    ensures
        a.partial_cmp_spec(&b) == Some(Ordering::Less) <==> a.index() < b.index(),
        a.partial_cmp_spec(&b) == Some(Ordering::Equal) <==> a == b,
        a.partial_cmp_spec(&b) == Some(Ordering::Greater) <==> a.index() > b.index(),
{
}

/// Each abbreviation of the table is read as its own book, alone and with a
/// space behind it, and as no book with a `q` behind it.
pub proof fn lemma_parse_abbrev_of_abbrev(book: BibleBook)
    ensures
        BibleBook::spec_parse_abbrev(book.abbrev_text()) == Some(book),
        BibleBook::spec_parse_abbrev(book.abbrev_text() + seq![' ']) == Some(book),
        BibleBook::spec_parse_abbrev(book.abbrev_text().push('q')) is None,
{
    lemma_abbrev_recognized(book.index() as int, Seq::empty());
    lemma_abbrev_run_on(book.index() as int);
}

/// A reference into a book names that book, and what stands behind its
/// first space is the place in the book.
pub proof fn lemma_reference(book: BibleBook, place: Seq<char>)
    ensures
        BibleBook::spec_parse_abbrev(book.reference(place)) == Some(book),
        book.reference(place).contains(' '),
        after_first(book.reference(place), ' ') == place,
{
    let abbrev = book.abbrev_text();
    lemma_abbrev_recognized(book.index() as int, place);
    lemma_abbrev_table();
    lemma_split_at_separator(abbrev, ' ', place);
}

/// Where exactly the items of `s` at the indices from `lo` up to `hi` fulfil
/// `pred`, filtering `s` by `pred` keeps that stretch of `s`.
proof fn lemma_filter_stretch<A>(s: Seq<A>, pred: spec_fn(A) -> bool, lo: int, hi: int)
    requires
        0 <= lo <= hi <= s.len(),
        forall|i: int| 0 <= i < s.len() ==> (pred(#[trigger] s[i]) <==> lo <= i < hi),
    ensures
        s.filter(pred) == s.subrange(lo, hi),
    decreases s.len(),
{
    reveal(Seq::filter);
    if s.len() > 0 {
        let shorter = s.drop_last();
        if hi == s.len() && lo < hi {
            lemma_filter_stretch(shorter, pred, lo, hi - 1);
        } else if hi == s.len() {
            lemma_filter_stretch(shorter, pred, lo - 1, lo - 1);
        } else {
            lemma_filter_stretch(shorter, pred, lo, hi);
        }
    }
}

/// Every book is of one testament: the first 39 books of the Old, the other
/// 27 of the New. The last book of the Old Testament is Malachi.
pub proof fn lemma_testaments(book: BibleBook)
    ensures
        book.is_old_testament() <==> 0 <= book.index() <= 38,
        book.is_new_testament() <==> 39 <= book.index() <= 65,
        book.is_old_testament() != book.is_new_testament(),
        BibleBook::old_testament() == ALL_BOOKS@.subrange(0, 39),
        BibleBook::new_testament() == ALL_BOOKS@.subrange(39, 66),
        BibleBook::old_testament().len() == 39,
        BibleBook::new_testament().len() == 27,
        BibleBook::old_testament().last() == BibleBook::Malachi,
{
    let books = ALL_BOOKS@;
    lemma_filter_stretch(books, |book: BibleBook| book.is_old_testament(), 0, 39);
    lemma_filter_stretch(books, |book: BibleBook| book.is_new_testament(), 39, 66);
}

/// Five books have one chapter only: Obadiah, Philemon, 2 John, 3 John and
/// Jude. Every other book has more.
pub proof fn lemma_single_chapter_books(book: BibleBook)
    ensures
        book.number_of_chapters() == 1 <==> book == BibleBook::Obadiah || book
            == BibleBook::Philemon || book == BibleBook::SecondJohn || book
            == BibleBook::ThirdJohn || book == BibleBook::Jude,
        BibleBook::single_chapter_books() == seq![
            BibleBook::Obadiah,
            BibleBook::Philemon,
            BibleBook::SecondJohn,
            BibleBook::ThirdJohn,
            BibleBook::Jude,
        ],
{
    let one = |book: BibleBook| book.number_of_chapters() == 1;
    let books = ALL_BOOKS@;
    let a = books.subrange(0, 30);
    let b = books.subrange(30, 56);
    let c = books.subrange(56, 62);
    let d = books.subrange(62, 66);
    assert(books =~= a + b + c + d);
    lemma_filter_stretch(a, one, 0, 0);
    lemma_filter_stretch(b, one, 0, 1);
    lemma_filter_stretch(c, one, 0, 1);
    lemma_filter_stretch(d, one, 0, 3);
}

/// Each name of the table is read as its own book.
pub proof fn lemma_parse_name_of_name(book: BibleBook)
    ensures
        BibleBook::spec_parse_name(book.name_text()) == Some(book),
{
    lemma_name_table();
}

} // verus!
