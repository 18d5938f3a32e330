use bible_data::{BibleBook, BibleVerse, ParseError};

#[test]
fn verse_test_parse() {
    assert_eq!(
        BibleVerse::parse("Ge 1:1").unwrap(),
        BibleVerse {
            book: BibleBook::Genesis,
            chapter: 1,
            verse: 1
        }
    );
    assert_eq!(
        BibleVerse::parse("Ps 119:176").unwrap(),
        BibleVerse {
            book: BibleBook::Psalms,
            chapter: 119,
            verse: 176
        }
    );
    // First chapter is implicit for single-chapter books
    assert_eq!(
        BibleVerse::parse("Jude 5").unwrap(),
        BibleVerse {
            book: BibleBook::Jude,
            chapter: 1,
            verse: 5
        }
    );
    // But it may also be specified implicitly
    assert_eq!(
        BibleVerse::parse("Jude 1:5").unwrap(),
        BibleVerse {
            book: BibleBook::Jude,
            chapter: 1,
            verse: 5
        }
    );
    // Should not be implicit for other books
    assert_eq!(BibleVerse::parse("Judges 5"), None);
}

#[test]
fn verse_test_display() {
    assert_eq!(
        BibleVerse {
            book: BibleBook::Acts,
            chapter: 2,
            verse: 1
        }
        .to_string(),
        "Ac 2:1"
    );
}

#[test]
fn verse_test_ord() {
    let v1 = BibleVerse {
        book: BibleBook::Genesis,
        chapter: 1,
        verse: 1,
    };
    let v2 = BibleVerse {
        book: BibleBook::Genesis,
        chapter: 1,
        verse: 10,
    };
    let v3 = BibleVerse {
        book: BibleBook::Genesis,
        chapter: 2,
        verse: 1,
    };
    let v4 = BibleVerse {
        book: BibleBook::Exodus,
        chapter: 1,
        verse: 1,
    };
    let v5 = BibleVerse {
        book: BibleBook::Genesis,
        chapter: 1,
        verse: 1,
    };
    assert!(v1 < v2);
    assert!(v3 > v2);
    assert!(v3 > v1);
    assert!(v4 > v3);
    assert!(v1 < v4);
    assert!(v1 == v5);
}

#[test]
fn verse_errors() {
    assert!(matches!(
        BibleVerse::from_str("Judges 5"),
        Err(ParseError::UnknownBook(ref token)) if token == "Judges"
    ));
    assert!(matches!(
        BibleVerse::from_str("Ge"),
        Err(ParseError::MissingChapterOrVerse)
    ));
    assert!(matches!(
        BibleVerse::from_str("Jude"),
        Err(ParseError::MissingChapterOrVerse)
    ));
    assert!(matches!(
        BibleVerse::from_str("Jdg 5"),
        Err(ParseError::AmbiguousImplicitChapter)
    ));
    assert!(matches!(
        BibleVerse::from_str("Ge 1:x"),
        Err(ParseError::MalformedNumber(ref text)) if text == "x"
    ));
    assert!(matches!(
        BibleVerse::from_str("Ge "),
        Err(ParseError::MalformedNumber(ref text)) if text == ""
    ));
    assert!(matches!(
        BibleVerse::from_str("Ge 1:1 "),
        Err(ParseError::MalformedNumber(ref text)) if text == "1 "
    ));
}

#[test]
fn verse_is_not_held_against_the_chapter_count() {
    assert_eq!(
        BibleVerse::parse("Ge 51:1"),
        Some(BibleVerse::new(BibleBook::Genesis, 51, 1))
    );
    assert_eq!(
        BibleVerse::parse("Jude 2:5"),
        Some(BibleVerse::new(BibleBook::Jude, 2, 5))
    );
    assert_eq!(
        BibleVerse::parse("Ge 0:0"),
        Some(BibleVerse::new(BibleBook::Genesis, 0, 0))
    );
    assert_eq!(
        BibleVerse::parse("Ge 300:999"),
        Some(BibleVerse::new(BibleBook::Genesis, 300, 999))
    );
    assert_eq!(
        BibleVerse::parse("Jude 999"),
        Some(BibleVerse::new(BibleBook::Jude, 1, 999))
    );
    assert!(matches!(
        BibleVerse::from_str("Ge 1:65536"),
        Err(ParseError::OutOfRange(ref bound))
            if bound == "65536 is too high. Chapter and verse numbers go up to 65535."
    ));
}

#[test]
fn verse_try_from_text() {
    let verse: BibleVerse = "Ps 119:176".try_into().unwrap();
    assert_eq!(verse, BibleVerse::new(BibleBook::Psalms, 119, 176));
    let failed: Result<BibleVerse, ParseError> = "Ps".try_into();
    assert!(matches!(failed, Err(ParseError::MissingChapterOrVerse)));
}

#[test]
fn verse_written_and_read_again() {
    for book in BibleBook::iter() {
        for chapter in [0u16, 1, 2, 10, 150, 255, 256, 65535] {
            for verse in [0u16, 1, 9, 176, 255, 999, 65535] {
                let v = BibleVerse::new(book, chapter, verse);
                let text = v.to_string();
                assert_eq!(text, format!("{} {}:{}", book.abbrev(), chapter, verse));
                assert_eq!(BibleVerse::parse(&text), Some(v));
            }
        }
    }
}

#[test]
fn verse_read_and_written_again() {
    for text in ["Ge 1:1", "Ps 119:176", "Jude 1:5", "SS 2:1", "3Jn 1:14"] {
        assert_eq!(BibleVerse::parse(text).unwrap().to_string(), text);
    }
    assert_eq!(BibleVerse::parse("Jude 5").unwrap().to_string(), "Jude 1:5");
    assert_eq!(BibleVerse::parse("SoS 2:1").unwrap().to_string(), "SS 2:1");
    assert_eq!(BibleVerse::parse("Ge +1:01").unwrap().to_string(), "Ge 1:1");
}

#[test]
fn verse_order_is_book_then_chapter_then_verse() {
    let verses = [
        BibleVerse::new(BibleBook::Genesis, 1, 1),
        BibleVerse::new(BibleBook::Genesis, 1, 2),
        BibleVerse::new(BibleBook::Genesis, 2, 1),
        BibleVerse::new(BibleBook::Exodus, 1, 1),
        BibleVerse::new(BibleBook::Revelation, 0, 0),
    ];
    for i in 0..verses.len() {
        for j in 0..verses.len() {
            assert_eq!(verses[i] < verses[j], i < j);
            assert_eq!(verses[i].cmp(&verses[j]), i.cmp(&j));
            assert_eq!(verses[i].partial_cmp(&verses[j]), Some(i.cmp(&j)));
        }
    }
}
