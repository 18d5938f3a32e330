use bible_data::{BibleBook, BibleBookOrChapter, BibleChapter, ParseError};

#[test]
fn bookorchapter_test_parse() {
    assert_eq!(
        BibleBookOrChapter::parse("Ge"),
        Some(BibleBookOrChapter::Book(BibleBook::Genesis))
    );
    assert_eq!(
        BibleBookOrChapter::parse("Ge 1"),
        Some(BibleBookOrChapter::Chapter(BibleChapter {
            book: BibleBook::Genesis,
            chapter: 1
        }))
    );
    assert_eq!(BibleBookOrChapter::parse("Ge 51"), None);
    assert_eq!(BibleBookOrChapter::parse("random text"), None);
}

#[test]
fn bookorchapter_test_display() {
    for text in vec!["Ge", "Ge 1", "Ro 12", "Rev", "Rev 20"] {
        let boc = BibleBookOrChapter::parse(text).unwrap();
        let display = boc.to_string();
        assert_eq!(display, text);
    }
}

#[test]
fn bookorchapter_by_name() {
    assert_eq!(
        BibleBookOrChapter::parse("Genesis"),
        Some(BibleBookOrChapter::Book(BibleBook::Genesis))
    );
    assert_eq!(
        BibleBookOrChapter::parse("Genesis").unwrap().to_string(),
        "Ge"
    );
    assert_eq!(BibleBookOrChapter::parse("1 Samuel"), None);
    assert_eq!(BibleBookOrChapter::parse("Genesis 1"), None);
}

#[test]
fn bookorchapter_errors() {
    assert!(matches!(
        BibleBookOrChapter::from_str("Nowhere"),
        Err(ParseError::UnknownBook(ref token)) if token == "Nowhere"
    ));
    assert!(matches!(
        BibleBookOrChapter::from_str("random text"),
        Err(ParseError::UnknownBook(ref token)) if token == "random"
    ));
    assert!(matches!(
        BibleBookOrChapter::from_str("Ge 51"),
        Err(ParseError::OutOfRange(_))
    ));
    assert!(matches!(
        BibleBookOrChapter::from_str("Ge "),
        Err(ParseError::MalformedNumber(ref text)) if text == ""
    ));
    assert!(matches!(
        BibleBookOrChapter::from_str(""),
        Err(ParseError::UnknownBook(ref token)) if token == ""
    ));
    assert!(matches!(
        BibleBookOrChapter::from_str("Ge 256"),
        Err(ParseError::OutOfRange(ref bound)) if bound == "Genesis has 50 chapters. 256 is too high."
    ));
}
