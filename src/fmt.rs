//! Decimal rendering of whole numbers and of hundredths.
use vstd::prelude::*;
use crate::text::string_of;

verus! {

/// The decimal digit for `d` (0..=9).
pub open spec fn digit_char(d: nat) -> char {
    if d == 0 {
        '0'
    } else if d == 1 {
        '1'
    } else if d == 2 {
        '2'
    } else if d == 3 {
        '3'
    } else if d == 4 {
        '4'
    } else if d == 5 {
        '5'
    } else if d == 6 {
        '6'
    } else if d == 7 {
        '7'
    } else if d == 8 {
        '8'
    } else {
        '9'
    }
}

/// The decimal representation of `n`, without leading zeros.
pub open spec fn decimal_text(n: nat) -> Seq<char>
    decreases n,
{
    if n < 10 {
        seq![digit_char(n)]
    } else {
        decimal_text(n / 10).push(digit_char(n % 10))
    }
}

/// `n` hundredths written as a decimal fraction with two places ("0.85").
pub open spec fn hundredths_text(n: nat) -> Seq<char> {
    decimal_text(n / 100) + seq!['.', digit_char((n % 100) / 10), digit_char(n % 10)]
}

fn digit(d: u64) -> (r: char)
    requires
        d < 10,
    ensures
        r == digit_char(d as nat),
{
    if d == 0 {
        '0'
    } else if d == 1 {
        '1'
    } else if d == 2 {
        '2'
    } else if d == 3 {
        '3'
    } else if d == 4 {
        '4'
    } else if d == 5 {
        '5'
    } else if d == 6 {
        '6'
    } else if d == 7 {
        '7'
    } else if d == 8 {
        '8'
    } else {
        '9'
    }
}

fn decimal_chars(n: u64) -> (r: Vec<char>)
    ensures
        r@ == decimal_text(n as nat),
    decreases n,
{
    if n < 10 {
        let mut v: Vec<char> = Vec::new();
        v.push(digit(n));
        assert(v@ =~= seq![digit_char(n as nat)]);
        v
    } else {
        let mut v = decimal_chars(n / 10);
        v.push(digit(n % 10));
        v
    }
}

/// The decimal representation of `n`.
pub fn decimal(n: u64) -> (r: String)
    ensures
        r@ == decimal_text(n as nat),
{
    string_of(decimal_chars(n).as_slice())
}

/// `n` hundredths written with two decimal places.
pub fn hundredths(n: u64) -> (r: String)
    ensures
        r@ == hundredths_text(n as nat),
{
    let mut v = decimal_chars(n / 100);
    v.push('.');
    v.push(digit((n % 100) / 10));
    v.push(digit(n % 10));
    assert(v@ =~= hundredths_text(n as nat));
    string_of(v.as_slice())
}

} // verus!
