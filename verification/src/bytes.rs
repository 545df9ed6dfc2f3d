//! Formatting byte counts for display: a value is scaled to the largest
//! decimal unit (kB through EB) it reaches, rounded to three significant
//! positions, and printed with enough decimals to fill them — two below 10,
//! one below 100, none (with a bare point) above.

use vstd::prelude::*;

use crate::color::string_push;
use crate::numfmt::digit_char;
use crate::numfmt::push_u64;
use crate::numfmt::spec_digits;

verus! {

/// The divisor of the unit a byte count is shown in: the largest decimal
/// unit at most the count, and kB for anything smaller than 1000 bytes.
pub open spec fn unit_value(bytes: int) -> int {
    if bytes < 1000000 {
        1000
    } else if bytes < 1000000000 {
        1000000
    } else if bytes < 1000000000000 {
        1000000000
    } else if bytes < 1000000000000000 {
        1000000000000
    } else if bytes < 1000000000000000000 {
        1000000000000000
    } else {
        1000000000000000000
    }
}

/// The letter of the unit a byte count is shown in.
pub open spec fn unit_char(bytes: int) -> char {
    if bytes < 1000000 {
        'k'
    } else if bytes < 1000000000 {
        'M'
    } else if bytes < 1000000000000 {
        'G'
    } else if bytes < 1000000000000000 {
        'T'
    } else if bytes < 1000000000000000000 {
        'P'
    } else {
        'E'
    }
}

/// The rendered form of a byte count: the count scaled by its unit, rounded
/// half-up at the shown precision, then the unit's name after a space. The
/// precision comes from the unrounded quotient: counts below ten units carry
/// two decimals (so 9996 bytes round up to `10.00 kB`), counts below a
/// hundred units one, and beyond that none — the bare decimal point stays,
/// as in `123. GB`.
pub open spec fn spec_format_bytes(bytes: int) -> Seq<char> {
    let u = unit_value(bytes);
    let suffix = seq![' ', unit_char(bytes), 'B'];
    if bytes < 10 * u {
        let v100 = (bytes * 100 + u / 2) / u;
        spec_digits(v100 / 100) + seq!['.', digit_char(v100 % 100 / 10), digit_char(v100 % 10)]
            + suffix
    } else if bytes < 100 * u {
        let v10 = (bytes * 10 + u / 2) / u;
        spec_digits(v10 / 10) + seq!['.', digit_char(v10 % 10)] + suffix
    } else {
        let v1 = (bytes + u / 2) / u;
        spec_digits(v1) + seq!['.'] + suffix
    }
}

fn unit_of(bytes: u64) -> (r: (u64, char))
    ensures
        r.0 as int == unit_value(bytes as int),
        r.1 == unit_char(bytes as int),
{
    if bytes < 1000000 {
        (1000, 'k')
    } else if bytes < 1000000000 {
        (1000000, 'M')
    } else if bytes < 1000000000000 {
        (1000000000, 'G')
    } else if bytes < 1000000000000000 {
        (1000000000000, 'T')
    } else if bytes < 1000000000000000000 {
        (1000000000000000, 'P')
    } else {
        (1000000000000000000, 'E')
    }
}

fn digit_char_exec(d: u64) -> (c: char)
    requires
        d < 10,
    ensures
        c == digit_char(d as int),
{
    match d {
        0 => '0',
        1 => '1',
        2 => '2',
        3 => '3',
        4 => '4',
        5 => '5',
        6 => '6',
        7 => '7',
        8 => '8',
        _ => '9',
    }
}

/// Renders a byte count with its decimal unit, e.g. `2.35 kB` or `18.4 EB`.
pub fn format_bytes(bytes: u64) -> (r: String)
    ensures
        r@ == spec_format_bytes(bytes as int),
{
    let (u, uc) = unit_of(bytes);
    let u128v = u as u128;
    let b128 = bytes as u128;
    let mut s = String::new();
    if b128 < 10 * u128v {
        let v100 = ((b128 * 100 + u128v / 2) / u128v) as u64;
        push_u64(&mut s, v100 / 100);
        string_push(&mut s, '.');
        string_push(&mut s, digit_char_exec(v100 % 100 / 10));
        string_push(&mut s, digit_char_exec(v100 % 10));
    } else if b128 < 100 * u128v {
        let v10 = ((b128 * 10 + u128v / 2) / u128v) as u64;
        push_u64(&mut s, v10 / 10);
        string_push(&mut s, '.');
        string_push(&mut s, digit_char_exec(v10 % 10));
    } else {
        let v1 = ((b128 + u128v / 2) / u128v) as u64;
        push_u64(&mut s, v1);
        string_push(&mut s, '.');
    }
    string_push(&mut s, ' ');
    string_push(&mut s, uc);
    string_push(&mut s, 'B');
    assert(s@ =~= spec_format_bytes(bytes as int));
    s
}

} // verus!
