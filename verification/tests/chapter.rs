use bible_data::{BibleBook, BibleChapter, ParseError};

#[test]
fn chapter_test_parse() {
    assert_eq!(
        BibleChapter::parse("Ge 1"),
        Some(BibleChapter {
            book: BibleBook::Genesis,
            chapter: 1
        })
    );
    assert_eq!(BibleChapter::parse("Ge 1:4"), None); // Reference to a verse is not a chapter
    assert_eq!(BibleChapter::parse("Ge +random text"), None);
    assert_eq!(BibleChapter::parse("Just random text"), None);
    assert_eq!(BibleChapter::parse("Ge 51"), None); // No such chapter
    assert_eq!(BibleChapter::parse("Ge"), None); // Missing chapter not allowed
    assert_eq!(
        BibleChapter::parse("3Jn"),
        Some(BibleChapter {
            book: BibleBook::ThirdJohn,
            chapter: 1
        })
    ); // Missing chapter allowed if there is only one chapter
    assert_eq!(
        BibleChapter::parse("3Jn 1"),
        Some(BibleChapter {
            book: BibleBook::ThirdJohn,
            chapter: 1
        })
    ); // But we should also be able to specify it explicitly
}

#[test]
fn chapter_test_ord() {
    let gen1 = BibleChapter::new(BibleBook::Genesis, 1);
    let gen2 = BibleChapter::new(BibleBook::Genesis, 2);
    let gen50 = BibleChapter::new(BibleBook::Genesis, 50);
    let ex5 = BibleChapter::new(BibleBook::Exodus, 5);
    let lev1 = BibleChapter::new(BibleBook::Leviticus, 1);

    assert!(gen1 < gen2);
    assert!(gen50 > gen2);
    assert!(ex5 > gen50);
    assert!(gen50 < ex5);
    assert!(gen50 < lev1);
    assert!(gen1 == BibleChapter::new(BibleBook::Genesis, 1));
}

#[test]
fn test_is_valid() {
    assert!(
        BibleChapter {
            book: BibleBook::Genesis,
            chapter: 50
        }
        .is_valid()
    );
    assert!(
        !BibleChapter {
            book: BibleBook::Genesis,
            chapter: 0
        }
        .is_valid()
    );
    assert!(
        !BibleChapter {
            book: BibleBook::Genesis,
            chapter: 51
        }
        .is_valid()
    );
}

#[test]
fn test_new() {
    assert!(BibleChapter::new(BibleBook::Genesis, 50).is_some());
    assert!(BibleChapter::new(BibleBook::Genesis, 0).is_none());
    assert!(BibleChapter::new(BibleBook::Genesis, 51).is_none());
}

#[test]
fn chapter_test_display() {
    let display = BibleChapter::new(BibleBook::Eccesiastes, 2)
        .unwrap()
        .to_string();
    assert_eq!(display, "Ecc 2")
}

#[test]
fn chapter_errors() {
    assert!(matches!(
        BibleChapter::from_str("Just random text"),
        Err(ParseError::UnknownBook(ref token)) if token == "Just"
    ));
    assert!(matches!(
        BibleChapter::from_str("Judges"),
        Err(ParseError::UnknownBook(ref token)) if token == "Judges"
    ));
    assert!(matches!(
        BibleChapter::from_str("Ge"),
        Err(ParseError::MissingChapterOrVerse)
    ));
    assert!(matches!(
        BibleChapter::from_str("Ge 1:4"),
        Err(ParseError::MalformedNumber(ref text)) if text == "1:4"
    ));
    assert!(matches!(
        BibleChapter::from_str("Ge +random text"),
        Err(ParseError::MalformedNumber(ref text)) if text == "+random text"
    ));
    assert!(matches!(
        BibleChapter::from_str("Ge  1"),
        Err(ParseError::MalformedNumber(ref text)) if text == " 1"
    ));
    assert!(matches!(
        BibleChapter::from_str("Ge 0"),
        Err(ParseError::OutOfRange(ref bound)) if bound == "0. Chapter numbers start at 1"
    ));
    assert!(matches!(
        BibleChapter::from_str("Ge 51"),
        Err(ParseError::OutOfRange(ref bound)) if bound == "Genesis has 50 chapters. 51 is too high."
    ));
    assert!(matches!(
        BibleChapter::from_str("3Jn 2"),
        Err(ParseError::OutOfRange(ref bound)) if bound == "3 John has 1 chapters. 2 is too high."
    ));
    assert!(matches!(
        BibleChapter::from_str("Ps 255"),
        Err(ParseError::OutOfRange(ref bound)) if bound == "Psalms has 150 chapters. 255 is too high."
    ));
    assert!(matches!(
        BibleChapter::from_str("Ps 256"),
        Err(ParseError::OutOfRange(ref bound)) if bound == "Psalms has 150 chapters. 256 is too high."
    ));
}

#[test]
fn chapter_too_high_is_out_of_range_whatever_its_size() {
    assert!(matches!(
        BibleChapter::from_str("Ge 256"),
        Err(ParseError::OutOfRange(ref bound)) if bound == "Genesis has 50 chapters. 256 is too high."
    ));
    assert!(matches!(
        BibleChapter::from_str("Ge 65535"),
        Err(ParseError::OutOfRange(ref bound)) if bound == "Genesis has 50 chapters. 65535 is too high."
    ));
    assert!(matches!(
        BibleChapter::from_str("Ge 65536"),
        Err(ParseError::OutOfRange(ref bound)) if bound == "Genesis has 50 chapters. 65536 is too high."
    ));
    assert!(matches!(
        BibleChapter::from_str("Ge 4294967296"),
        Err(ParseError::OutOfRange(ref bound)) if bound == "Genesis has 50 chapters. 4294967296 is too high."
    ));
    assert!(matches!(
        BibleChapter::from_str("Ge 123456789012345678901234567890"),
        Err(ParseError::OutOfRange(ref bound))
            if bound == "Genesis has 50 chapters. 123456789012345678901234567890 is too high."
    ));
    assert!(matches!(
        BibleChapter::from_str("Ge +00051"),
        Err(ParseError::OutOfRange(ref bound)) if bound == "Genesis has 50 chapters. 51 is too high."
    ));
    assert!(matches!(
        BibleChapter::from_str("Ge 000"),
        Err(ParseError::OutOfRange(ref bound)) if bound == "0. Chapter numbers start at 1"
    ));
    assert!(matches!(
        BibleChapter::from_str("Ge +0"),
        Err(ParseError::OutOfRange(ref bound)) if bound == "0. Chapter numbers start at 1"
    ));
    assert!(matches!(
        BibleChapter::from_str("Ge 256x"),
        Err(ParseError::MalformedNumber(ref text)) if text == "256x"
    ));
    assert!(matches!(
        BibleChapter::from_str("Ge 99999999999999999999x"),
        Err(ParseError::MalformedNumber(ref text)) if text == "99999999999999999999x"
    ));
    assert_eq!(
        BibleChapter::parse("Ge 0000000000000000000000000050"),
        BibleChapter::new(BibleBook::Genesis, 50)
    );
    for book in BibleBook::iter() {
        let count = book.number_of_chapters();
        for number in [count + 1, 255, 256, 1000, 65535, 65536, 4000000000] {
            let text = format!("{} {}", book.abbrev(), number);
            let bound = format!("{} has {} chapters. {} is too high.", book.name(), count, number);
            assert!(matches!(
                BibleChapter::from_str(&text),
                Err(ParseError::OutOfRange(ref said)) if *said == bound
            ));
        }
    }
}

#[test]
fn chapter_bounds_of_every_book() {
    for book in BibleBook::iter() {
        let last = book.number_of_chapters() as u16;
        assert!(BibleChapter::new(book, 0).is_none());
        assert!(BibleChapter::new(book, 1).is_some());
        assert!(BibleChapter::new(book, last).is_some());
        assert!(BibleChapter::new(book, last + 1).is_none());
        assert!(BibleChapter::new(book, 255).is_none());
        assert!(BibleChapter::new(book, 65535).is_none());
    }
}

#[test]
fn chapter_written_and_read_again() {
    for book in BibleBook::iter() {
        for number in 1..=book.number_of_chapters() as u16 {
            let chapter = BibleChapter::new(book, number).unwrap();
            let text = chapter.to_string();
            assert_eq!(text, format!("{} {}", book.abbrev(), number));
            assert_eq!(BibleChapter::parse(&text), Some(chapter));
        }
    }
}

#[test]
fn chapter_with_a_plus_sign_or_leading_zeros() {
    assert_eq!(
        BibleChapter::parse("Ge +5"),
        BibleChapter::new(BibleBook::Genesis, 5)
    );
    assert_eq!(
        BibleChapter::parse("Ge 007"),
        BibleChapter::new(BibleBook::Genesis, 7)
    );
    assert_eq!(BibleChapter::parse("Ge -5"), None);
    assert_eq!(BibleChapter::parse("Ge 5 "), None);
    assert_eq!(BibleChapter::parse("Ge +"), None);
}

#[test]
fn chapter_order_is_book_then_chapter() {
    let a = BibleChapter { book: BibleBook::Genesis, chapter: 50 };
    let b = BibleChapter { book: BibleBook::Exodus, chapter: 1 };
    let c = BibleChapter { book: BibleBook::Exodus, chapter: 2 };
    assert!(a < b && b < c && a < c);
    assert!(c > b && b > a);
    assert_eq!(a.cmp(&b), std::cmp::Ordering::Less);
    assert_eq!(c.cmp(&b), std::cmp::Ordering::Greater);
    assert_eq!(b.cmp(&b), std::cmp::Ordering::Equal);
    assert_eq!(a.partial_cmp(&b), Some(a.cmp(&b)));
    assert_eq!(c.partial_cmp(&b), Some(c.cmp(&b)));
}
