//! Numbers in decimal: written out and read back.

use vstd::prelude::*;

use crate::text::{chars_of, push_char};
use crate::text::lines::{before_first, lemma_before_first};

verus! {

/// The character for the digit `d`.
pub open spec fn digit_char(d: int) -> char {
    if d == 0 {
        '0'
    } else if d == 1 {
        '1'
    } else if d == 2 {
        '2'
    } else if d == 3 {
        '3'
    } else if d == 4 {
        '4'
    } else if d == 5 {
        '5'
    } else if d == 6 {
        '6'
    } else if d == 7 {
        '7'
    } else if d == 8 {
        '8'
    } else {
        '9'
    }
}

/// The digit that the character `c` stands for, if it is one of '0' to '9'.
pub open spec fn digit_value(c: char) -> Option<int> {
    if c == '0' {
        Some(0)
    } else if c == '1' {
        Some(1)
    } else if c == '2' {
        Some(2)
    } else if c == '3' {
        Some(3)
    } else if c == '4' {
        Some(4)
    } else if c == '5' {
        Some(5)
    } else if c == '6' {
        Some(6)
    } else if c == '7' {
        Some(7)
    } else if c == '8' {
        Some(8)
    } else if c == '9' {
        Some(9)
    } else {
        None
    }
}

/// The character for the digit `d`.
pub fn digit_to_char(d: u8) -> (c: char)
    requires
        d < 10,
    ensures
        c == digit_char(d as int),
        digit_value(c) == Some(d as int),
{
    match d {
        0 => '0',
        1 => '1',
        2 => '2',
        3 => '3',
        4 => '4',
        5 => '5',
        6 => '6',
        7 => '7',
        8 => '8',
        _ => '9',
    }
}

/// The digit that `c` stands for, if it is one of '0' to '9'.
pub fn char_to_digit(c: char) -> (d: Option<u8>)
    ensures
        match d {
            Some(v) => v < 10 && digit_value(c) == Some(v as int),
            None => digit_value(c) is None,
        },
{
    match c {
        '0' => Some(0),
        '1' => Some(1),
        '2' => Some(2),
        '3' => Some(3),
        '4' => Some(4),
        '5' => Some(5),
        '6' => Some(6),
        '7' => Some(7),
        '8' => Some(8),
        '9' => Some(9),
        _ => None,
    }
}

/// The number `n` written in decimal, without leading zeros.
pub open spec fn decimal(n: nat) -> Seq<char>
    decreases n,
{
    if n < 10 {
        seq![digit_char(n as int)]
    } else {
        decimal(n / 10).push(digit_char((n % 10) as int))
    }
}

/// Appends `n` in decimal to `s`.
pub fn push_decimal(s: &mut String, n: u64)
    ensures
        final(s)@ == old(s)@ + decimal(n as nat),
    decreases n,
{
    if n >= 10 {
        push_decimal(s, n / 10);
    }
    push_char(s, digit_to_char((n % 10) as u8));
}

/// `n` in decimal.
pub fn decimal_text(n: u64) -> (r: String)
    ensures
        r@ == decimal(n as nat),
{
    let mut s = String::new();
    push_decimal(&mut s, n);
    s
}

/// The number that a run of digits stands for: `None` if a character of `s`
/// is no digit.
pub open spec fn digits_value(s: Seq<char>) -> Option<nat>
    decreases s.len(),
{
    if s.len() == 0 {
        Some(0)
    } else {
        match (digits_value(s.drop_last()), digit_value(s.last())) {
            (Some(v), Some(d)) => Some((v * 10 + d) as nat),
            _ => None,
        }
    }
}

/// The number between 0 and 65535 that a run of one digit or more stands
/// for. Otherwise `None`.
pub open spec fn number_u16(digits: Seq<char>) -> Option<u16> {
    if digits.len() == 0 {
        None
    } else {
        match digits_value(digits) {
            Some(v) => if v <= u16::MAX {
                Some(v as u16)
            } else {
                None
            },
            None => None,
        }
    }
}

/// The number between 0 and 65535 that `s` stands for: one digit or more,
/// with a `+` in front or without, and nothing else. Otherwise `None`.
pub open spec fn parse_u16(s: Seq<char>) -> Option<u16> {
    if s.len() > 0 && s[0] == '+' {
        number_u16(s.drop_first())
    } else {
        number_u16(s)
    }
}

/// Longer runs of digits stand for larger numbers: what a run stands for is
/// at least what any of its beginnings stands for.
pub proof fn lemma_digits_value_grows(s: Seq<char>, k: int)
    requires
        0 <= k <= s.len(),
        digits_value(s) is Some,
    ensures
        digits_value(s.take(k)) is Some,
        digits_value(s.take(k))->0 <= digits_value(s)->0,
    decreases s.len() - k,
{
    if k == s.len() {
        assert(s.take(k) == s);
    } else {
        lemma_digits_value_grows(s.drop_last(), k);
        assert(s.drop_last().take(k) == s.take(k));
    }
}

/// Reads `v[from..to]` as a number between 0 and 65535.
pub fn parse_u16_between(v: &Vec<char>, from: usize, to: usize) -> (r: Option<u16>)
    requires
        from <= to <= v.len(),
    ensures
        r == parse_u16(v@.subrange(from as int, to as int)),
{
    let ghost whole = v@.subrange(from as int, to as int);
    let start = if from < to && v[from] == '+' {
        from + 1
    } else {
        from
    };
    let ghost digits = v@.subrange(start as int, to as int);
    proof {
        if start != from {
            assert(digits == whole.drop_first());
        }
    }
    if start == to {
        return None;
    }
    let mut value: u32 = 0;
    let mut i: usize = start;
    while i < to
        invariant
            start <= i <= to <= v.len(),
            start < to,
            digits == v@.subrange(start as int, to as int),
            whole == v@.subrange(from as int, to as int),
            parse_u16(whole) == number_u16(digits),
            digits_value(digits.take(i - start)) == Some(value as nat),
            value <= u16::MAX,
        decreases to - i,
    {
        let ghost sofar = digits.take(i - start);
        let ghost next = digits.take(i - start + 1);
        proof {
            assert(next.drop_last() == sofar);
        }
        match char_to_digit(v[i]) {
            Some(d) => {
                value = value * 10 + d as u32;
                if value > 65535 {
                    proof {
                        if digits_value(digits) is Some {
                            lemma_digits_value_grows(digits, i - start + 1);
                        }
                    }
                    return None;
                }
            },
            None => {
                proof {
                    if digits_value(digits) is Some {
                        lemma_digits_value_grows(digits, i - start + 1);
                    }
                }
                return None;
            },
        }
        i = i + 1;
    }
    assert(digits.take(to - start) == digits);
    Some(value as u16)
}

/// Whether every character of `s` is one of '0' to '9' (true of the empty
/// text).
pub open spec fn is_digits(s: Seq<char>) -> bool {
    forall|i: int| 0 <= i < s.len() ==> digit_value(#[trigger] s[i]) is Some
}

/// Whether every character of `s` is one of '0' to '9'.
pub fn is_digits_text(s: &str) -> (b: bool)
    ensures
        b == is_digits(s@),
{
    let v = chars_of(s);
    let mut i: usize = 0;
    while i < v.len()
        invariant
            i <= v.len(),
            v@ == s@,
            forall|k: int| 0 <= k < i ==> digit_value(#[trigger] v@[k]) is Some,
        decreases v.len() - i,
    {
        if char_to_digit(v[i]).is_none() {
            return false;
        }
        i = i + 1;
    }
    true
}

/// The year of a date written as year, month and day with `-` between them:
/// what stands before the first `-`, read as a number. `None` if that is no
/// number between 0 and 65535.
pub open spec fn year_of_date(date: Seq<char>) -> Option<u16> {
    parse_u16(before_first(date, '-'))
}

/// The year of a date written as year, month and day with `-` between them.
pub fn extract_year(date: &str) -> (r: Option<u16>)
    ensures
        r == year_of_date(date@),
{
    let v = chars_of(date);
    let mut k: usize = 0;
    while k < v.len() && v[k] != '-'
        invariant
            k <= v.len(),
            forall|i: int| 0 <= i < k ==> v@[i] != '-',
        decreases v.len() - k,
    {
        k = k + 1;
    }
    proof {
        lemma_before_first(v@, '-', k as int);
    }
    parse_u16_between(&v, 0, k)
}

} // verus!
