use bible_data::number::{push_decimal, read_number};
use bible_data::text::Input;
use bible_data::ChapterAndVerseOrVerse;
use std::num::IntErrorKind;

fn decimal_string(n: u32) -> String {
    let mut out = String::new();
    push_decimal(&mut out, n);
    out
}

/// What stands in `[from, to)` of `text`, read as a number: the number if it
/// is small enough to be held, and its digits.
fn read(text: &str, from: usize, to: usize) -> Option<(Option<u16>, String)> {
    let input = Input::new(text);
    let numeral = read_number(&input, from, to)?;
    Some((numeral.value, input.slice(numeral.from, to)))
}

#[test]
fn decimal_numbers() {
    assert_eq!(decimal_string(0), "0");
    assert_eq!(decimal_string(7), "7");
    assert_eq!(decimal_string(10), "10");
    assert_eq!(decimal_string(255), "255");
    assert_eq!(decimal_string(1189), "1189");
    assert_eq!(decimal_string(u32::MAX), "4294967295");
    let mut out = String::from("n=");
    push_decimal(&mut out, 4050);
    assert_eq!(out, "n=4050");
    let text = "x+12y256";
    assert_eq!(read(text, 1, 4), Some((Some(12), "12".to_string())));
    assert_eq!(read(text, 2, 4), Some((Some(12), "12".to_string())));
    assert_eq!(read(text, 2, 3), Some((Some(1), "1".to_string())));
    assert_eq!(read(text, 1, 2), None);
    assert_eq!(read(text, 2, 2), None);
    assert_eq!(read(text, 0, 4), None);
    assert_eq!(read(text, 2, 5), None);
    assert_eq!(read(text, 5, 8), Some((Some(256), "256".to_string())));
    assert_eq!(read(text, 5, 7), Some((Some(25), "25".to_string())));
    for n in 0..=65535u16 {
        let text = decimal_string(n as u32);
        assert_eq!(text, n.to_string());
        assert_eq!(read(&text, 0, text.len()), Some((Some(n), text.clone())));
    }
}

#[test]
fn numbers_with_leading_zeros_and_of_any_size() {
    assert_eq!(read("0", 0, 1), Some((Some(0), "0".to_string())));
    assert_eq!(read("000", 0, 3), Some((Some(0), "0".to_string())));
    assert_eq!(read("+000", 0, 4), Some((Some(0), "0".to_string())));
    assert_eq!(read("007", 0, 3), Some((Some(7), "7".to_string())));
    assert_eq!(read("0070", 0, 4), Some((Some(70), "70".to_string())));
    assert_eq!(read("65535", 0, 5), Some((Some(65535), "65535".to_string())));
    assert_eq!(read("65536", 0, 5), Some((None, "65536".to_string())));
    assert_eq!(read("0065536", 0, 7), Some((None, "65536".to_string())));
    assert_eq!(read("99999", 0, 5), Some((None, "99999".to_string())));
    assert_eq!(read("100000", 0, 6), Some((None, "100000".to_string())));
    let long = "0000123456789012345678901234567890123456789012345678901234567890";
    assert_eq!(
        read(long, 0, long.len()),
        Some((None, long[4..].to_string()))
    );
    let zeros = "0".repeat(100);
    assert_eq!(read(&zeros, 0, 100), Some((Some(0), "0".to_string())));
    let padded = "0".repeat(100) + "42";
    assert_eq!(read(&padded, 0, 102), Some((Some(42), "42".to_string())));
    assert_eq!(read("655360x", 0, 7), None);
    assert_eq!(read("99999999999999999999 ", 0, 21), None);
}

#[test]
fn numbers_are_read_as_the_standard_library_reads_them() {
    let alphabet = ['0', '1', '2', '5', '6', '9', '+', '-', ' ', 'a'];
    let mut texts: Vec<String> = vec![String::new()];
    let mut last: Vec<String> = vec![String::new()];
    for _ in 0..4 {
        let mut longer = Vec::new();
        for text in &last {
            for c in alphabet {
                let mut next = text.clone();
                next.push(c);
                longer.push(next);
            }
        }
        texts.extend(longer.iter().cloned());
        last = longer;
    }
    assert_eq!(texts.len(), 11111);
    for n in (60000..70000u32).chain([99999, 100000, 655350, 4294967295]) {
        texts.push(n.to_string());
        texts.push(format!("+0{}", n));
    }
    for text in texts {
        let expected = match text.parse::<u16>() {
            Ok(n) => Some(Some(n)),
            Err(e) if *e.kind() == IntErrorKind::PosOverflow => Some(None),
            Err(_) => None,
        };
        let found = read(&text, 0, text.chars().count()).map(|(value, _)| value);
        assert_eq!(found, expected, "{:?}", text);
        assert_eq!(
            ChapterAndVerseOrVerse::parse(&text),
            text.parse::<u16>().ok().map(ChapterAndVerseOrVerse::JustVerse),
            "{:?}",
            text
        );
    }
}
