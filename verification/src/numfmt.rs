//! Decimal rendering of integers, used by the drawing and byte-formatting
//! routines.

use vstd::prelude::*;

use crate::color::string_push;

verus! {

/// The character for one decimal digit.
pub open spec fn digit_char(d: int) -> char {
    if d == 0 { '0' }
    else if d == 1 { '1' }
    else if d == 2 { '2' }
    else if d == 3 { '3' }
    else if d == 4 { '4' }
    else if d == 5 { '5' }
    else if d == 6 { '6' }
    else if d == 7 { '7' }
    else if d == 8 { '8' }
    else { '9' }
}

/// The decimal digits of a non-negative integer, most significant first,
/// without leading zeros (`0` itself is the single digit `0`).
pub open spec fn spec_digits(n: int) -> Seq<char>
    recommends
        n >= 0,
    decreases n,
{
    if n < 10 {
        seq![digit_char(n)]
    } else {
        spec_digits(n / 10).push(digit_char(n % 10))
    }
}

fn digit_char_exec(d: u64) -> (c: char)
    requires
        d < 10,
    ensures
        c == digit_char(d as int),
{
    match d {
        0 => '0',
        1 => '1',
        2 => '2',
        3 => '3',
        4 => '4',
        5 => '5',
        6 => '6',
        7 => '7',
        8 => '8',
        _ => '9',
    }
}

/// Appends the decimal digits of `n` to `s`.
pub fn push_u64(s: &mut String, n: u64)
    ensures
        final(s)@ == old(s)@ + spec_digits(n as int),
    decreases n,
{
    if n < 10 {
        string_push(s, digit_char_exec(n));
        assert(s@ =~= old(s)@ + spec_digits(n as int));
    } else {
        push_u64(s, n / 10);
        string_push(s, digit_char_exec(n % 10));
        assert(s@ =~= old(s)@ + spec_digits(n as int));
    }
}

/// A number's decimal text is never empty.
pub proof fn lemma_digits_len(n: int)
    ensures
        spec_digits(n).len() >= 1,
    decreases n,
{
    if n >= 10 {
        lemma_digits_len(n / 10);
    }
}

/// The decimal digits of `n` as a string.
pub fn u64_string(n: u64) -> (r: String)
    ensures
        r@ == spec_digits(n as int),
{
    let mut s = String::new();
    push_u64(&mut s, n);
    assert(s@ =~= spec_digits(n as int));
    s
}

} // verus!
