use bible_data::{
    BibleBook, BibleVerse, BibleVerseRange, ChapterAndVerse, ChapterAndVerseRange, ParseError,
};

#[test]
fn verserange_test_parse() {
    assert_eq!(
        BibleVerseRange::parse("Ge 1:1-10").unwrap(),
        BibleVerseRange::new(BibleBook::Genesis, 1, 1, 1, 10)
    );
    assert_eq!(
        BibleVerseRange::parse("Ge 1:1-1:10").unwrap(),
        BibleVerseRange::new(BibleBook::Genesis, 1, 1, 1, 10)
    );
    assert_eq!(
        BibleVerseRange::parse("Ex 5:3-6:1").unwrap(),
        BibleVerseRange::new(BibleBook::Exodus, 5, 3, 6, 1)
    );
    assert_eq!(
        BibleVerseRange::parse("Lev 7:5").unwrap(),
        BibleVerseRange::new(BibleBook::Leviticus, 7, 5, 7, 5)
    );
    assert_eq!(
        BibleVerseRange::parse("Ob 2-5").unwrap(),
        BibleVerseRange::new(BibleBook::Obadiah, 1, 2, 1, 5)
    );
    assert_eq!(
        BibleVerseRange::parse("Ob 1:2-5").unwrap(),
        BibleVerseRange::new(BibleBook::Obadiah, 1, 2, 1, 5)
    );
    assert_eq!(
        BibleVerseRange::parse("2Jn 3").unwrap(),
        BibleVerseRange::new(BibleBook::SecondJohn, 1, 3, 1, 3)
    );
    assert_eq!(
        BibleVerseRange::parse("2Jn 1:3").unwrap(),
        BibleVerseRange::new(BibleBook::SecondJohn, 1, 3, 1, 3)
    );
    assert_eq!(BibleVerseRange::parse("Ge 10"), None);
    assert_eq!(BibleVerseRange::parse("Ge 10:"), None);
    assert_eq!(BibleVerseRange::parse("Ge 10:10-9"), None);
    assert_eq!(BibleVerseRange::parse("Ge 10:1-9:2"), None);
    assert_eq!(BibleVerseRange::parse("Ob 5-2"), None);
}

#[test]
fn verserange_test_display() {
    assert_eq!(
        BibleVerseRange::new(BibleBook::Genesis, 1, 1, 1, 10).to_string(),
        "Ge 1:1-10"
    );
    assert_eq!(
        BibleVerseRange::new(BibleBook::Genesis, 1, 1, 1, 1).to_string(),
        "Ge 1:1"
    );
    assert_eq!(
        BibleVerseRange::new(BibleBook::Matthew, 5, 20, 6, 5).to_string(),
        "Mt 5:20-6:5"
    );
    assert_eq!(
        BibleVerseRange::new(BibleBook::Jude, 1, 2, 1, 5).to_string(),
        "Jude 2-5"
    );
    assert_eq!(
        BibleVerseRange::new(BibleBook::Jude, 1, 2, 1, 2).to_string(),
        "Jude 2"
    );
}

#[test]
fn test_contains() {
    let book = BibleBook::Genesis;
    let range = BibleVerseRange::new(book, 4, 10, 5, 2);
    assert!(!range.contains(&BibleVerse::new(book, 4, 9)));
    assert!(range.contains(&BibleVerse::new(book, 4, 10)));
    assert!(range.contains(&BibleVerse::new(book, 4, 11)));
    assert!(range.contains(&BibleVerse::new(book, 5, 1)));
    assert!(range.contains(&BibleVerse::new(book, 5, 2)));
    assert!(!range.contains(&BibleVerse::new(book, 5, 3)));
    assert!(!range.contains(&BibleVerse::new(BibleBook::Exodus, 4, 11)));
}

#[test]
fn test_chapters() {
    let range = BibleVerseRange::new(BibleBook::Ezekiel, 4, 10, 6, 1);
    let mut it = range.chapters();
    assert_eq!(it.next().unwrap(), 4);
    assert_eq!(it.next().unwrap(), 5);
    assert_eq!(it.next().unwrap(), 6);
    assert_eq!(it.next(), None);
}

fn num_chapters(item: impl TryInto<BibleVerseRange>) -> Option<usize> {
    let range = item.try_into().ok()?;
    Some(range.chapters().count())
}

#[test]
fn test_try_from() {
    assert_eq!(num_chapters("Ge 1:2-3:5").unwrap(), 3);
    assert_eq!(
        num_chapters(BibleVerse::new(BibleBook::Acts, 10, 1)).unwrap(),
        1
    );
}

#[test]
fn verserange_errors() {
    assert!(matches!(
        BibleVerseRange::from_str("Judges 5:1-2"),
        Err(ParseError::UnknownBook(ref token)) if token == "Judges"
    ));
    assert!(matches!(
        BibleVerseRange::from_str("Ge"),
        Err(ParseError::MissingChapterOrVerse)
    ));
    assert!(matches!(
        BibleVerseRange::from_str("Ge 10"),
        Err(ParseError::AmbiguousImplicitChapter)
    ));
    assert!(matches!(
        BibleVerseRange::from_str("Ge 1-5"),
        Err(ParseError::AmbiguousImplicitChapter)
    ));
    assert!(matches!(
        BibleVerseRange::from_str("Ge 5-1"),
        Err(ParseError::AmbiguousImplicitChapter)
    ));
    assert!(matches!(
        BibleVerseRange::from_str("Ge 10:"),
        Err(ParseError::MalformedNumber(ref text)) if text == ""
    ));
    assert!(matches!(
        BibleVerseRange::from_str("Ge 10:10-9"),
        Err(ParseError::InvertedRange)
    ));
    assert!(matches!(
        BibleVerseRange::from_str("Ge 10:1-9:2"),
        Err(ParseError::InvertedRange)
    ));
    assert!(matches!(
        BibleVerseRange::from_str("Ob 5-2"),
        Err(ParseError::InvertedRange)
    ));
}

#[test]
fn verserange_chapter_at_the_end_only() {
    for text in ["Ge 1-2:2", "Ob 1-2:2", "Jude 1-2:2", "Ps 1-2:2", "Rev 1-2:2"] {
        assert!(matches!(
            BibleVerseRange::from_str(text),
            Err(ParseError::MalformedSeparator)
        ));
    }
    for book in BibleBook::iter() {
        let text = book.abbrev().to_string() + " 1-2:2";
        assert!(matches!(
            BibleVerseRange::from_str(&text),
            Err(ParseError::MalformedSeparator)
        ));
    }
}

#[test]
fn verserange_without_chapter_only_in_books_with_one() {
    for book in BibleBook::iter() {
        let text = book.abbrev().to_string() + " 1-5";
        let read = BibleVerseRange::parse(&text);
        if book.number_of_chapters() == 1 {
            assert_eq!(read, Some(BibleVerseRange::new(book, 1, 1, 1, 5)));
        } else {
            assert_eq!(read, None);
        }
        let text = book.abbrev().to_string() + " 20:1-5";
        assert_eq!(
            BibleVerseRange::parse(&text),
            Some(BibleVerseRange::new(book, 20, 1, 20, 5))
        );
    }
}

#[test]
fn verserange_is_not_held_against_verse_counts() {
    assert_eq!(
        BibleVerseRange::parse("Ge 1:1-1:255"),
        Some(BibleVerseRange::new(BibleBook::Genesis, 1, 1, 1, 255))
    );
    assert_eq!(
        BibleVerseRange::parse("Ge 1:1-1:999"),
        Some(BibleVerseRange::new(BibleBook::Genesis, 1, 1, 1, 999))
    );
    assert_eq!(
        BibleVerseRange::parse("Ob 1-999"),
        Some(BibleVerseRange::new(BibleBook::Obadiah, 1, 1, 1, 999))
    );
    assert!(matches!(
        BibleVerseRange::from_str("Ge 1:1-1:65536"),
        Err(ParseError::OutOfRange(ref bound))
            if bound == "65536 is too high. Chapter and verse numbers go up to 65535."
    ));
    assert_eq!(
        BibleVerseRange::parse("Ge 60:1-70:2"),
        Some(BibleVerseRange::new(BibleBook::Genesis, 60, 1, 70, 2))
    );
}

#[test]
fn verserange_fields() {
    let range = BibleVerseRange::new(BibleBook::Exodus, 5, 3, 6, 1);
    assert_eq!(range.book, BibleBook::Exodus);
    assert_eq!(
        range.range,
        ChapterAndVerseRange::new(ChapterAndVerse::new(5, 3), ChapterAndVerse::new(6, 1))
    );
    let from_verse: BibleVerseRange = BibleVerse::new(BibleBook::Acts, 10, 1).into();
    assert_eq!(from_verse, BibleVerseRange::new(BibleBook::Acts, 10, 1, 10, 1));
    assert_eq!(
        BibleVerseRange::try_from("Ac 10:1").unwrap(),
        from_verse
    );
}

#[test]
fn verserange_chapters_of_odd_ranges() {
    let one = BibleVerseRange::new(BibleBook::Acts, 10, 1, 10, 1);
    assert_eq!(one.chapters().collect::<Vec<u16>>(), vec![10]);
    let inverted = BibleVerseRange::new(BibleBook::Acts, 10, 1, 9, 1);
    assert_eq!(inverted.chapters().count(), 0);
    let all = BibleVerseRange::new(BibleBook::Acts, 0, 1, 65535, 1);
    let chapters: Vec<u16> = all.chapters().collect();
    assert_eq!(chapters.len(), 65536);
    assert_eq!(chapters[0], 0);
    assert_eq!(chapters[255], 255);
    assert_eq!(chapters[65535], 65535);
    let top = BibleVerseRange::new(BibleBook::Acts, 65534, 1, 65535, 1);
    assert_eq!(top.chapters().collect::<Vec<u16>>(), vec![65534, 65535]);
}

#[test]
fn verserange_written_and_read_again() {
    let ends = [(1u16, 1u16), (1, 2), (1, 999), (2, 1), (3, 0), (20, 5), (255, 255), (65535, 65535)];
    for book in BibleBook::iter() {
        for start in ends {
            for end in ends {
                let range = BibleVerseRange::new(book, start.0, start.1, end.0, end.1);
                let in_chapter_one = start.0 == 1 && end.0 == 1;
                if range.range.is_empty() || (book.number_of_chapters() == 1 && !in_chapter_one) {
                    continue;
                }
                let text = range.to_string();
                assert_eq!(BibleVerseRange::parse(&text), Some(range), "{}", text);
            }
        }
    }
}

#[test]
fn verserange_of_one_chapter_book_outside_chapter_one() {
    let read = BibleVerseRange::parse("Jude 2:3").unwrap();
    assert_eq!(read, BibleVerseRange::new(BibleBook::Jude, 2, 3, 2, 3));
    assert_eq!(read.to_string(), "Jude 3");
    assert_eq!(
        BibleVerseRange::parse("Jude 3").unwrap(),
        BibleVerseRange::new(BibleBook::Jude, 1, 3, 1, 3)
    );
}

#[test]
fn verserange_read_and_written_again() {
    for text in ["Ge 1:1-10", "Ge 1:1", "Mt 5:20-6:5", "Jude 2-5", "Jude 2", "Ex 5:3-6:1"] {
        assert_eq!(BibleVerseRange::parse(text).unwrap().to_string(), text);
    }
    assert_eq!(
        BibleVerseRange::parse("Ge 1:1-1:10").unwrap().to_string(),
        "Ge 1:1-10"
    );
    assert_eq!(
        BibleVerseRange::parse("Ob 1:2-5").unwrap().to_string(),
        "Ob 2-5"
    );
    assert_eq!(
        BibleVerseRange::parse("Ge 1:1-1").unwrap().to_string(),
        "Ge 1:1"
    );
}
