//! Building blocks for rendering text: comparing strings, decimal numbers
//! and padding to a column width. Widths count characters, as the columns of
//! a terminal line do.

use vstd::prelude::*;
use vstd::string::*;

verus! {

/// Appends one character to `s`.
///
/// Trusted: `String::push` puts `c` behind what `s` already holds and changes
/// nothing else.
#[verifier::external_body]
pub(crate) fn push_char(s: &mut String, c: char)
    ensures
        final(s)@ == old(s)@.push(c),
{
    s.push(c);
}

/// Whether two string slices hold the same characters.
pub fn str_eq(a: &str, b: &str) -> (same: bool)
    ensures
        same == (a@ == b@),
{
    let left = String::from_str(a);
    let right = String::from_str(b);
    left == right
}

/// The character that shows the digit `d`; `'0'` outside `0..=9`.
pub open spec fn digit_char(d: int) -> char {
    if d == 1 {
        '1'
    } else if d == 2 {
        '2'
    } else if d == 3 {
        '3'
    } else if d == 4 {
        '4'
    } else if d == 5 {
        '5'
    } else if d == 6 {
        '6'
    } else if d == 7 {
        '7'
    } else if d == 8 {
        '8'
    } else if d == 9 {
        '9'
    } else {
        '0'
    }
}

/// The decimal numeral of `n`, most significant digit first, without
/// leading zeros (`0` is "0").
pub open spec fn decimal(n: nat) -> Seq<char>
    decreases n,
{
    if n < 10 {
        seq![digit_char(n as int)]
    } else {
        decimal(n / 10).push(digit_char((n % 10) as int))
    }
}

/// `n` in at least two digits: a leading zero is put before a single digit.
pub open spec fn two_digits(n: nat) -> Seq<char> {
    if n < 10 {
        seq!['0', digit_char(n as int)]
    } else {
        decimal(n)
    }
}

/// `count` copies of `c`.
pub open spec fn repeated(c: char, count: nat) -> Seq<char> {
    Seq::new(count, |i: int| c)
}

/// `s` followed by as many spaces as bring it to `width` characters; `s`
/// itself where it is that long already.
pub open spec fn padded_right(s: Seq<char>, width: nat) -> Seq<char> {
    if s.len() >= width {
        s
    } else {
        s + repeated(' ', (width - s.len()) as nat)
    }
}

/// `s` preceded by as many spaces as bring it to `width` characters; `s`
/// itself where it is that long already.
pub open spec fn padded_left(s: Seq<char>, width: nat) -> Seq<char> {
    if s.len() >= width {
        s
    } else {
        repeated(' ', (width - s.len()) as nat) + s
    }
}

/// The digit that a character shows; 0 for a character that shows none.
pub open spec fn digit_value(c: char) -> nat {
    if c == '1' {
        1
    } else if c == '2' {
        2
    } else if c == '3' {
        3
    } else if c == '4' {
        4
    } else if c == '5' {
        5
    } else if c == '6' {
        6
    } else if c == '7' {
        7
    } else if c == '8' {
        8
    } else if c == '9' {
        9
    } else {
        0
    }
}

/// The number that a sequence of digits denotes in base ten.
pub open spec fn numeral_value(digits: Seq<char>) -> nat
    decreases digits.len(),
{
    if digits.len() == 0 {
        0
    } else {
        numeral_value(digits.drop_last()) * 10 + digit_value(digits.last())
    }
}

/// The numeral of a number denotes that number, and it begins with a zero
/// only where the number is 0.
pub proof fn lemma_decimal_denotes(n: nat)
    ensures
        numeral_value(decimal(n)) == n,
        decimal(n).len() >= 1,
        decimal(n).first() == '0' <==> n == 0,
    decreases n,
{
    if n >= 10 {
        lemma_decimal_denotes(n / 10);
        assert(decimal(n).drop_last() =~= decimal(n / 10));
        assert(decimal(n).last() == digit_char((n % 10) as int));
        assert(decimal(n).first() == decimal(n / 10).first());
    } else {
        assert(decimal(n).drop_last() =~= Seq::<char>::empty());
        assert(numeral_value(Seq::<char>::empty()) == 0);
        assert(decimal(n).last() == digit_char(n as int));
    }
    assert(digit_value(digit_char((n % 10) as int)) == n % 10);
}

fn digit(d: u64) -> (c: char)
    requires
        d < 10,
    ensures
        c == digit_char(d as int),
{
    (48u8 + d as u8) as char
}

/// Appends the decimal numeral of `n` to `s`.
pub fn push_decimal(s: &mut String, n: u64)
    ensures
        final(s)@ == old(s)@ + decimal(n as nat),
    decreases n,
{
    if n >= 10 {
        push_decimal(s, n / 10);
    }
    push_char(s, digit(n % 10));
}

/// Appends `n` in at least two digits to `s`.
pub fn push_two_digits(s: &mut String, n: u64)
    ensures
        final(s)@ == old(s)@ + two_digits(n as nat),
{
    if n < 10 {
        push_char(s, '0');
        push_char(s, digit(n));
    } else {
        push_decimal(s, n);
    }
}

/// Appends `count` copies of `c` to `s`.
pub fn push_repeated(s: &mut String, c: char, count: usize)
    ensures
        final(s)@ == old(s)@ + repeated(c, count as nat),
{
    let mut done: usize = 0;
    while done < count
        invariant
            done <= count,
            s@ == old(s)@ + repeated(c, done as nat),
        decreases count - done,
    {
        push_char(s, c);
        done = done + 1;
    }
}

/// Appends `piece` to `s`, then spaces up to `width` characters for the piece.
pub fn push_padded_right(s: &mut String, piece: &str, width: usize)
    ensures
        final(s)@ == old(s)@ + padded_right(piece@, width as nat),
{
    let len = piece.unicode_len();
    s.append(piece);
    if len < width {
        push_repeated(s, ' ', width - len);
    }
}

/// Appends spaces and then `piece` to `s`, so that the piece ends a column
/// of `width` characters.
pub fn push_padded_left(s: &mut String, piece: &str, width: usize)
    ensures
        final(s)@ == old(s)@ + padded_left(piece@, width as nat),
{
    let len = piece.unicode_len();
    if len < width {
        push_repeated(s, ' ', width - len);
    }
    s.append(piece);
}

/// The decimal numeral of `n` as a string of its own.
pub fn decimal_string(n: u64) -> (s: String)
    ensures
        s@ == decimal(n as nat),
{
    let mut s = String::new();
    push_decimal(&mut s, n);
    s
}

} // verus!
