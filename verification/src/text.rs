//! Character-level view of an input string: searching for a separator and
//! cutting out the pieces on either side of it.

use vstd::prelude::*;

verus! {

/// The part of `s` in front of the first `sep`; all of `s` when it holds no `sep`.
pub open spec fn before_first(s: Seq<char>, sep: char) -> Seq<char> {
    match s.index_of_first(sep) {
        Some(i) => s.take(i),
        None => s,
    }
}

/// The part of `s` behind the first `sep`; empty when `s` holds no `sep`.
pub open spec fn after_first(s: Seq<char>, sep: char) -> Seq<char> {
    match s.index_of_first(sep) {
        Some(i) => s.skip(i + 1),
        None => Seq::empty(),
    }
}

/// `s.index_of_first(sep)` is `Some(i)` exactly for the least `i` with `s[i] == sep`.
pub proof fn lemma_first_index(s: Seq<char>, sep: char, i: int)
    requires
        0 <= i < s.len(),
        s[i] == sep,
        forall|j: int| 0 <= j < i ==> s[j] != sep,
    ensures
        s.contains(sep),
        s.index_of_first(sep) == Some(i),
        before_first(s, sep) == s.take(i),
        after_first(s, sep) == s.skip(i + 1),
{
    s.index_of_first_ensures(sep);
}

/// A sequence without `sep` has no first index of it.
pub proof fn lemma_no_index(s: Seq<char>, sep: char)
    requires
        forall|j: int| 0 <= j < s.len() ==> s[j] != sep,
    ensures
        !s.contains(sep),
        s.index_of_first(sep) is None,
        before_first(s, sep) == s,
        after_first(s, sep) == Seq::<char>::empty(),
{
    s.index_of_first_ensures(sep);
}

/// The first `sep` of `head + [sep] + tail` stands right behind `head` when `head` holds none.
pub proof fn lemma_split_at_separator(head: Seq<char>, sep: char, tail: Seq<char>)
    requires
        !head.contains(sep),
    ensures
        (head + seq![sep] + tail).contains(sep),
        (head + seq![sep] + tail).index_of_first(sep) == Some(head.len() as int),
        before_first(head + seq![sep] + tail, sep) == head,
        after_first(head + seq![sep] + tail, sep) == tail,
{
    let s = head + seq![sep] + tail;
    let i = head.len() as int;
    lemma_first_index(s, sep, i);
}

/// An input string together with its characters, so that a parser can index
/// into it and still hand out pieces of the text as strings.
pub struct Input<'a> {
    text: &'a str,
    chars: Vec<char>,
}

impl<'a> View for Input<'a> {
    type V = Seq<char>;

    /// The characters of the text.
    closed spec fn view(&self) -> Seq<char> {
        self.text@
    }
}

impl<'a> Input<'a> {
    #[verifier::type_invariant]
    spec fn wf(&self) -> bool {
        self.chars@ == self.text@
    }

    /// Takes `text` apart into its characters.
    pub fn new(text: &'a str) -> (input: Self)
        ensures
            input@ == text@,
    {
        let mut chars: Vec<char> = Vec::new();
        for c in it: text.chars()
            invariant
                it.seq() == text@,
                chars@ == text@.take(it.index()),
        {
            chars.push(c);
        }
        assert(chars@ =~= text@);
        Input { text, chars }
    }

    /// Number of characters.
    pub fn len(&self) -> (n: usize)
        ensures
            n == self@.len(),
    {
        proof {
            use_type_invariant(self);
        }
        self.chars.len()
    }

    /// The character at position `i`.
    pub fn char_at(&self, i: usize) -> (c: char)
        requires
            i < self@.len(),
        ensures
            c == self@[i as int],
    {
        proof {
            use_type_invariant(self);
        }
        self.chars[i]
    }

    /// Position of the first `sep` within `[from, to)`.
    pub fn find(&self, sep: char, from: usize, to: usize) -> (r: Option<usize>)
        requires
            from <= to <= self@.len(),
        ensures
            match r {
                Some(at) => {
                    let part = self@.subrange(from as int, to as int);
                    &&& from <= at < to
                    &&& part.contains(sep)
                    &&& part.index_of_first(sep) == Some(at - from)
                    &&& before_first(part, sep) == self@.subrange(from as int, at as int)
                    &&& after_first(part, sep) == self@.subrange(at + 1, to as int)
                },
                None => {
                    let part = self@.subrange(from as int, to as int);
                    &&& !part.contains(sep)
                    &&& before_first(part, sep) == part
                },
            },
    {
        let ghost part = self@.subrange(from as int, to as int);
        let mut i: usize = from;
        while i < to
            invariant
                from <= i <= to <= self@.len(),
                part == self@.subrange(from as int, to as int),
                forall|j: int| 0 <= j < i - from ==> part[j] != sep,
            decreases to - i,
        {
            if self.char_at(i) == sep {
                proof {
                    lemma_first_index(part, sep, i - from);
                }
                return Some(i);
            }
            i += 1;
        }
        proof {
            lemma_no_index(part, sep);
        }
        None
    }

    /// The characters in `[from, to)` as an owned string.
    pub fn slice(&self, from: usize, to: usize) -> (s: String)
        requires
            from <= to <= self@.len(),
        ensures
            s@ == self@.subrange(from as int, to as int),
    {
        self.text.substring_char(from, to).to_owned()
    }

    /// Whether the characters in `[from, to)` spell exactly `word`.
    pub fn slice_is(&self, from: usize, to: usize, word: &str) -> (b: bool)
        requires
            from <= to <= self@.len(),
        ensures
            b == (self@.subrange(from as int, to as int) == word@),
    {
        let ghost part = self@.subrange(from as int, to as int);
        let n: usize = to - from;
        if word.unicode_len() != n {
            return false;
        }
        let mut i: usize = 0;
        for c in it: word.chars()
            invariant
                it.seq() == word@,
                i == it.index(),
                n == word@.len(),
                n == to - from,
                from <= to <= self@.len(),
                part == self@.subrange(from as int, to as int),
                forall|j: int| 0 <= j < i ==> part[j] == word@[j],
        {
            if self.char_at(from + i) != c {
                return false;
            }
            i += 1;
        }
        assert(part =~= word@);
        true
    }
}

} // verus!
