//! Decimal numbers as text: what a run of digits denotes, and how a number is
//! written out.

use crate::text::Input;
use vstd::prelude::*;

verus! {

/// Whether `c` is one of `0` to `9`.
pub open spec fn is_digit(c: char) -> bool {
    '0' <= c <= '9'
}

/// The number that the digit `c` stands for.
pub open spec fn digit_value(c: char) -> nat
    recommends
        is_digit(c),
{
    (c as int - '0' as int) as nat
}

/// The digit that stands for `d`.
pub open spec fn digit_char(d: nat) -> char
    recommends
        d < 10,
{
    (d + '0' as nat) as char
}

/// Whether `s` holds digits only.
pub open spec fn all_digits(s: Seq<char>) -> bool {
    forall|i: int| 0 <= i < s.len() ==> is_digit(#[trigger] s[i])
}

/// The number that the digits of `s` denote, most significant digit first.
pub open spec fn decimal_value(s: Seq<char>) -> nat
    decreases s.len(),
{
    if s.len() == 0 {
        0
    } else {
        decimal_value(s.drop_last()) * 10 + digit_value(s.last())
    }
}

/// `s` without the `+` that it may start with.
pub open spec fn unsigned(s: Seq<char>) -> Seq<char> {
    if s.len() > 0 && s[0] == '+' {
        s.drop_first()
    } else {
        s
    }
}

/// The number that `s` denotes: an optional `+`, then one or more digits,
/// of any length. Anything else denotes nothing.
pub open spec fn parse_number(s: Seq<char>) -> Option<nat> {
    let digits = unsigned(s);
    if digits.len() > 0 && all_digits(digits) {
        Some(decimal_value(digits))
    } else {
        None
    }
}

/// `n` written in decimal, without sign or leading zeros.
pub open spec fn decimal_text(n: nat) -> Seq<char>
    decreases n,
{
    if n < 10 {
        seq![digit_char(n)]
    } else {
        decimal_text(n / 10).push(digit_char(n % 10))
    }
}

/// The decimal text of a number is made of digits only and denotes that number.
pub proof fn lemma_decimal_text(n: nat)
    ensures
        decimal_text(n).len() > 0,
        all_digits(decimal_text(n)),
        decimal_value(decimal_text(n)) == n,
    decreases n,
{
    if n < 10 {
        let s = decimal_text(n);
        assert(decimal_value(s.drop_last()) == 0);
    } else {
        lemma_decimal_text(n / 10);
        let s = decimal_text(n);
        assert(s.drop_last() =~= decimal_text(n / 10));
    }
}

/// Writing a number out and reading it back gives the same number. What is
/// written holds digits only: no sign, space, `:` or `-`.
pub proof fn lemma_parse_decimal_text(n: nat)
    ensures
        parse_number(decimal_text(n)) == Some(n),
        !decimal_text(n).contains(' '),
        !decimal_text(n).contains(':'),
        !decimal_text(n).contains('-'),
{
    lemma_decimal_text(n);
}

/// A zero in front of a run of digits does not change what the run denotes.
proof fn lemma_leading_zero(s: Seq<char>)
    requires
        s.len() > 0,
        s[0] == '0',
    ensures
        decimal_value(s) == decimal_value(s.drop_first()),
    decreases s.len(),
{
    if s.len() == 1 {
        assert(s.drop_last() =~= s.drop_first());
    } else {
        lemma_leading_zero(s.drop_last());
        assert(s.drop_first().drop_last() =~= s.drop_last().drop_first());
    }
}

/// A run of digits that does not start with a zero, or is one digit long, is
/// the decimal text of what it denotes.
proof fn lemma_without_leading_zero(s: Seq<char>)
    requires
        all_digits(s),
        s.len() > 0,
        s[0] != '0' || s.len() == 1,
    ensures
        decimal_text(decimal_value(s)) == s,
        s[0] != '0' ==> decimal_value(s) >= 1,
    decreases s.len(),
{
    if s.len() == 1 {
        assert(decimal_value(s.drop_last()) == 0);
    } else {
        lemma_without_leading_zero(s.drop_last());
    }
}

/// The decimal text of what a run of digits denotes is the run without its
/// leading zeros; of a run of zeros, the last one.
pub proof fn lemma_decimal_text_of_value(s: Seq<char>, zeros: int)
    requires
        all_digits(s),
        0 <= zeros < s.len(),
        forall|j: int| 0 <= j < zeros ==> s[j] == '0',
        s[zeros] != '0' || zeros == s.len() - 1,
    ensures
        decimal_text(decimal_value(s)) == s.skip(zeros),
    decreases zeros,
{
    if zeros == 0 {
        lemma_without_leading_zero(s);
    } else {
        lemma_leading_zero(s);
        let rest = s.drop_first();
        assert(all_digits(rest));
        assert(forall|j: int| 0 <= j < zeros - 1 ==> rest[j] == '0');
        lemma_decimal_text_of_value(rest, zeros - 1);
    }
}

/// A number as it was found in a text.
pub struct Numeral {
    /// Where the digits of the number start once its sign and its leading
    /// zeros are left out. They end where the text that was read ends.
    pub from: usize,
    /// The number, if it is at most `u16::MAX`.
    pub value: Option<u16>,
}

/// Reads the number written in `[from, to)` of `input`, whatever its size.
pub fn read_number(input: &Input, from: usize, to: usize) -> (r: Option<Numeral>)
    requires
        from <= to <= input@.len(),
    ensures
        match parse_number(input@.subrange(from as int, to as int)) {
            None => r is None,
            Some(n) => {
                &&& r matches Some(numeral)
                &&& from <= numeral.from < to
                &&& input@.subrange(numeral.from as int, to as int) == decimal_text(n)
                &&& numeral.value == if n <= u16::MAX {
                    Some(n as u16)
                } else {
                    None
                }
            },
        },
{
    let start: usize = if from < to && input.char_at(from) == '+' {
        from + 1
    } else {
        from
    };
    let ghost digits = input@.subrange(start as int, to as int);
    if start == to {
        return None;
    }
    let mut value: u32 = 0;
    let mut large: bool = false;
    let mut first: usize = start;
    let mut i: usize = start;
    while i < to
        invariant
            from <= start <= first <= i <= to <= input@.len(),
            start < to,
            digits == input@.subrange(start as int, to as int),
            digits == unsigned(input@.subrange(from as int, to as int)),
            all_digits(digits.take(i - start)),
            forall|j: int| 0 <= j < first - start ==> digits[j] == '0',
            first < i ==> digits[first - start] != '0',
            !large ==> value == decimal_value(digits.take(i - start)) && value <= u16::MAX,
            large ==> decimal_value(digits.take(i - start)) > u16::MAX,
        decreases to - i,
    {
        let c = input.char_at(i);
        if !('0' <= c && c <= '9') {
            assert(!is_digit(digits[i - start]));
            return None;
        }
        assert(digits.take(i - start + 1).drop_last() =~= digits.take(i - start));
        if first == i && c == '0' {
            first = i + 1;
        }
        if !large {
            let next: u32 = value * 10 + (c as u32 - '0' as u32);
            if next > 65535 {
                large = true;
            } else {
                value = next;
            }
        }
        i += 1;
    }
    assert(digits.take(i - start) =~= digits);
    let shown: usize = if first == to {
        to - 1
    } else {
        first
    };
    proof {
        lemma_decimal_text_of_value(digits, shown - start);
    }
    Some(
        Numeral {
            from: shown,
            value: if large {
                None
            } else {
                Some(value as u16)
            },
        },
    )
}

/// One decimal digit as text.
fn digit_str(d: u32) -> (s: &'static str)
    requires
        d < 10,
    ensures
        s@ == seq![digit_char(d as nat)],
{
    proof {
        reveal_strlit("0");
        reveal_strlit("1");
        reveal_strlit("2");
        reveal_strlit("3");
        reveal_strlit("4");
        reveal_strlit("5");
        reveal_strlit("6");
        reveal_strlit("7");
        reveal_strlit("8");
        reveal_strlit("9");
    }
    let s = match d {
        0 => "0",
        1 => "1",
        2 => "2",
        3 => "3",
        4 => "4",
        5 => "5",
        6 => "6",
        7 => "7",
        8 => "8",
        _ => "9",
    };
    s
}

/// Appends `n` in decimal to `out`.
pub fn push_decimal(out: &mut String, n: u32)
    ensures
        final(out)@ == old(out)@ + decimal_text(n as nat),
    decreases n,
{
    if n >= 10 {
        push_decimal(out, n / 10);
    }
    out.append(digit_str(n % 10));
}

} // verus!
