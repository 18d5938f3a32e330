//! The canonical table: the 66 books in order, each with its name, its
//! abbreviation and the number of its chapters.

use vstd::prelude::*;

verus! {

/// Full names, by table index.
pub const BOOK_NAMES: [&'static str; 66] = [
    "Genesis", "Exodus", "Leviticus", "Numbers", "Duteronomy", "Joshua", "Judges", "Ruth",
    "1 Samuel", "2 Samuel", "1 Kings", "2 Kings", "1 Chronicles", "2 Chronicles", "Ezra",
    "Nehemiah", "Esther", "Job", "Psalms", "Proverbs", "Eccesiastes", "Song of Songs", "Isaiah",
    "Jeremiah", "Lamentations", "Ezekiel", "Daniel", "Hosea", "Joel", "Amos", "Obadiah",
    "Jonah", "Micah", "Nahum", "Habakkuk", "Zephaniah", "Haggai", "Zechariah", "Malachi",
    "Matthew", "Mark", "Luke", "John", "Acts", "Romans", "1 Corinthians", "2 Corinthians",
    "Galatians", "Ephesians", "Philippians", "Colossians", "1 Thessalonians", "2 Thessalonians",
    "1 Timothy", "2 Timothy", "Titus", "Philemon", "Hebrews", "James", "1 Peter", "2 Peter",
    "1 John", "2 John", "3 John", "Jude", "Revelation",
];

/// Abbreviations, by table index.
pub const BOOK_ABBREVS: [&'static str; 66] = [
    "Ge", "Ex", "Lev", "Nu", "Dt", "Jos", "Jdg", "Ru", "1Sa", "2Sa", "1Ki", "2Ki", "1Ch", "2Ch",
    "Ezr", "Ne", "Est", "Job", "Ps", "Pr", "Ecc", "SS", "Isa", "Jer", "La", "Eze", "Da", "Hos",
    "Joel", "Am", "Ob", "Jnh", "Mic", "Na", "Hab", "Zep", "Hag", "Zec", "Mal", "Mt", "Mk", "Lk",
    "Jn", "Ac", "Ro", "1Co", "2Co", "Gal", "Eph", "Php", "Col", "1Th", "2Th", "1Ti", "2Ti",
    "Tit", "Phm", "Heb", "Jas", "1Pe", "2Pe", "1Jn", "2Jn", "3Jn", "Jude", "Rev",
];

/// Table index of Song of Songs, the one book with a second accepted
/// abbreviation.
pub const SONG_OF_SONGS: usize = 21;

/// The second accepted abbreviation of Song of Songs.
pub const SONG_OF_SONGS_ALT: &'static str = "SoS";

/// Chapter counts, by table index.
pub const BOOK_CHAPTERS: [u8; 66] = [
    50, 40, 27, 36, 34, 24, 21, 4, 31, 24, 22, 25, 29, 36, 10, 13, 10, 42, 150, 31, 12, 8, 66,
    52, 5, 48, 12, 14, 3, 9, 1, 4, 7, 3, 3, 3, 2, 14, 4, 28, 16, 24, 21, 28, 16, 16, 13, 6, 6,
    4, 4, 5, 3, 6, 4, 3, 1, 13, 5, 5, 3, 5, 1, 1, 1, 22,
];

/// What the abbreviations are made of: each has two to four characters, none
/// of them a space, and does not end in `q`; no two books share an
/// abbreviation, and none has the second spelling of Song of Songs as its own.
pub proof fn lemma_abbrev_table()
    ensures
        forall|i: int| 0 <= i < 66 ==> 2 <= (#[trigger] BOOK_ABBREVS[i]@).len() <= 4,
        forall|i: int, k: int|
            0 <= i < 66 && 0 <= k < BOOK_ABBREVS[i]@.len() ==> (#[trigger] BOOK_ABBREVS[i]@[k])
                != ' ',
        forall|i: int| 0 <= i < 66 ==> (#[trigger] BOOK_ABBREVS[i]@).last() != 'q',
        forall|i: int, j: int|
            0 <= i < 66 && 0 <= j < 66 && #[trigger] BOOK_ABBREVS[i]@ == #[trigger] BOOK_ABBREVS[j]@
                ==> i == j,
        forall|i: int| 0 <= i < 66 ==> (#[trigger] BOOK_ABBREVS[i]@) != SONG_OF_SONGS_ALT@,
        SONG_OF_SONGS_ALT@.len() == 3,
        !SONG_OF_SONGS_ALT@.contains(' '),
        SONG_OF_SONGS_ALT@.last() != 'q',
{
    reveal_strlit("Ge");
    reveal_strlit("Ex");
    reveal_strlit("Lev");
    reveal_strlit("Nu");
    reveal_strlit("Dt");
    reveal_strlit("Jos");
    reveal_strlit("Jdg");
    reveal_strlit("Ru");
    reveal_strlit("1Sa");
    reveal_strlit("2Sa");
    reveal_strlit("1Ki");
    reveal_strlit("2Ki");
    reveal_strlit("1Ch");
    reveal_strlit("2Ch");
    reveal_strlit("Ezr");
    reveal_strlit("Ne");
    reveal_strlit("Est");
    reveal_strlit("Job");
    reveal_strlit("Ps");
    reveal_strlit("Pr");
    reveal_strlit("Ecc");
    reveal_strlit("SS");
    reveal_strlit("Isa");
    reveal_strlit("Jer");
    reveal_strlit("La");
    reveal_strlit("Eze");
    reveal_strlit("Da");
    reveal_strlit("Hos");
    reveal_strlit("Joel");
    reveal_strlit("Am");
    reveal_strlit("Ob");
    reveal_strlit("Jnh");
    reveal_strlit("Mic");
    reveal_strlit("Na");
    reveal_strlit("Hab");
    reveal_strlit("Zep");
    reveal_strlit("Hag");
    reveal_strlit("Zec");
    reveal_strlit("Mal");
    reveal_strlit("Mt");
    reveal_strlit("Mk");
    reveal_strlit("Lk");
    reveal_strlit("Jn");
    reveal_strlit("Ac");
    reveal_strlit("Ro");
    reveal_strlit("1Co");
    reveal_strlit("2Co");
    reveal_strlit("Gal");
    reveal_strlit("Eph");
    reveal_strlit("Php");
    reveal_strlit("Col");
    reveal_strlit("1Th");
    reveal_strlit("2Th");
    reveal_strlit("1Ti");
    reveal_strlit("2Ti");
    reveal_strlit("Tit");
    reveal_strlit("Phm");
    reveal_strlit("Heb");
    reveal_strlit("Jas");
    reveal_strlit("1Pe");
    reveal_strlit("2Pe");
    reveal_strlit("1Jn");
    reveal_strlit("2Jn");
    reveal_strlit("3Jn");
    reveal_strlit("Jude");
    reveal_strlit("Rev");
    reveal_strlit("SoS");
    assert forall|i: int, j: int|
        0 <= i < 66 && 0 <= j < 66 && #[trigger] BOOK_ABBREVS[i]@ == #[trigger] BOOK_ABBREVS[j]@
        implies i == j by {
        let a = BOOK_ABBREVS[i]@;
        let b = BOOK_ABBREVS[j]@;
        assert(a[0] == b[0] && a[1] == b[1]);
        if a.len() > 2 {
            assert(a[2] == b[2]);
        }
    }
    assert forall|i: int| 0 <= i < 66 implies (#[trigger] BOOK_ABBREVS[i]@) != SONG_OF_SONGS_ALT@ by {
        let a = BOOK_ABBREVS[i]@;
        let b = SONG_OF_SONGS_ALT@;
        if a == b {
            assert(a[0] == b[0] && a[1] == b[1] && a[2] == b[2]);
        }
    }
}

/// No two books share a name.
pub proof fn lemma_name_table()
    ensures
        forall|i: int, j: int|
            0 <= i < 66 && 0 <= j < 66 && #[trigger] BOOK_NAMES[i]@ == #[trigger] BOOK_NAMES[j]@
                ==> i == j,
{
    reveal_strlit("Genesis");
    reveal_strlit("Exodus");
    reveal_strlit("Leviticus");
    reveal_strlit("Numbers");
    reveal_strlit("Duteronomy");
    reveal_strlit("Joshua");
    reveal_strlit("Judges");
    reveal_strlit("Ruth");
    reveal_strlit("1 Samuel");
    reveal_strlit("2 Samuel");
    reveal_strlit("1 Kings");
    reveal_strlit("2 Kings");
    reveal_strlit("1 Chronicles");
    reveal_strlit("2 Chronicles");
    reveal_strlit("Ezra");
    reveal_strlit("Nehemiah");
    reveal_strlit("Esther");
    reveal_strlit("Job");
    reveal_strlit("Psalms");
    reveal_strlit("Proverbs");
    reveal_strlit("Eccesiastes");
    reveal_strlit("Song of Songs");
    reveal_strlit("Isaiah");
    reveal_strlit("Jeremiah");
    reveal_strlit("Lamentations");
    reveal_strlit("Ezekiel");
    reveal_strlit("Daniel");
    reveal_strlit("Hosea");
    reveal_strlit("Joel");
    reveal_strlit("Amos");
    reveal_strlit("Obadiah");
    reveal_strlit("Jonah");
    reveal_strlit("Micah");
    reveal_strlit("Nahum");
    reveal_strlit("Habakkuk");
    reveal_strlit("Zephaniah");
    reveal_strlit("Haggai");
    reveal_strlit("Zechariah");
    reveal_strlit("Malachi");
    reveal_strlit("Matthew");
    reveal_strlit("Mark");
    reveal_strlit("Luke");
    reveal_strlit("John");
    reveal_strlit("Acts");
    reveal_strlit("Romans");
    reveal_strlit("1 Corinthians");
    reveal_strlit("2 Corinthians");
    reveal_strlit("Galatians");
    reveal_strlit("Ephesians");
    reveal_strlit("Philippians");
    reveal_strlit("Colossians");
    reveal_strlit("1 Thessalonians");
    reveal_strlit("2 Thessalonians");
    reveal_strlit("1 Timothy");
    reveal_strlit("2 Timothy");
    reveal_strlit("Titus");
    reveal_strlit("Philemon");
    reveal_strlit("Hebrews");
    reveal_strlit("James");
    reveal_strlit("1 Peter");
    reveal_strlit("2 Peter");
    reveal_strlit("1 John");
    reveal_strlit("2 John");
    reveal_strlit("3 John");
    reveal_strlit("Jude");
    reveal_strlit("Revelation");
    assert forall|i: int, j: int|
        0 <= i < 66 && 0 <= j < 66 && #[trigger] BOOK_NAMES[i]@ == #[trigger] BOOK_NAMES[j]@
        implies i == j by {
        let a = BOOK_NAMES[i]@;
        let b = BOOK_NAMES[j]@;
        assert(a.len() == b.len());
        assert(a[0] == b[0] && a[1] == b[1] && a[2] == b[2]);
    }
}

/// Every book has at least one chapter.
pub proof fn lemma_chapter_table()
    ensures
        forall|i: int| 0 <= i < 66 ==> (#[trigger] BOOK_CHAPTERS[i]) >= 1,
{
}

} // verus!
