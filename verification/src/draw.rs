//! The textual drawing primitives of the render protocol: a filled gauge
//! with an empty remainder, and horizontal space, emitted as `^fg(...)`,
//! `^r(WxH)` and `^ro(WxH)` commands.

use vstd::prelude::*;

use crate::color::color_string;
use crate::color::string_push;
use crate::color::Color;
use crate::numfmt::push_u64;
use crate::numfmt::spec_digits;

verus! {

/// How many of `width` pixels a gauge at `val_permille` fills: the rounded
/// share `val * width / 1000`, never more than the width itself.
pub open spec fn fill_width(val_permille: int, width: int) -> int {
    (val_permille * width + 500) / 1000
}

/// The drawing commands of a gauge: set the foreground color, draw the
/// filled part, draw the outline of the remainder.
pub open spec fn spec_bar(val_permille: int, color: Color, width: int, height: int) -> Seq<char> {
    let wfill = fill_width(val_permille, width);
    let wempty = width - wfill;
    seq!['^', 'f', 'g', '('] + color_string(color) + seq![')', '^', 'r', '('] + spec_digits(wfill)
        + seq!['x'] + spec_digits(height) + seq![')', '^', 'r', 'o', '('] + spec_digits(wempty)
        + seq!['x'] + spec_digits(height) + seq![')']
}

/// The drawing command of a horizontal gap: a rectangle of zero height.
pub open spec fn spec_space(width: int) -> Seq<char> {
    seq!['^', 'r', '('] + spec_digits(width) + seq!['x', '0', ')']
}

/// The filled share of a gauge never exceeds its width.
proof fn lemma_fill_width_bounds(val_permille: int, width: int)
    requires
        0 <= val_permille <= 1000,
        0 <= width,
    ensures
        0 <= fill_width(val_permille, width) <= width,
{
    let num = val_permille * width + 500;
    assert(num >= 0) by (nonlinear_arith)
        requires
            val_permille >= 0,
            width >= 0,
            num == val_permille * width + 500,
    ;
    assert(num <= 1000 * width + 500) by (nonlinear_arith)
        requires
            val_permille <= 1000,
            width >= 0,
            num == val_permille * width + 500,
    ;
    vstd::arithmetic::div_mod::lemma_div_is_ordered(0, num, 1000);
    vstd::arithmetic::div_mod::lemma_div_multiples_vanish(0, 1000);
    vstd::arithmetic::div_mod::lemma_div_is_ordered(num, 1000 * width + 500, 1000);
    assert((1000 * width + 500) / 1000 == width) by {
        vstd::arithmetic::div_mod::lemma_fundamental_div_mod_converse(
            1000 * width + 500,
            1000,
            width,
            500,
        );
    }
}

/// Appends the `^fg(#rrggbb)` command selecting a color.
pub fn push_fg(s: &mut String, color: Color)
    ensures
        final(s)@ == old(s)@ + seq!['^', 'f', 'g', '('] + color_string(color) + seq![')'],
{
    string_push(s, '^');
    string_push(s, 'f');
    string_push(s, 'g');
    string_push(s, '(');
    let hex = color.to_hex();
    push_str(s, &hex);
    string_push(s, ')');
    assert(s@ =~= old(s)@ + seq!['^', 'f', 'g', '('] + color_string(color) + seq![')']);
}

/// Relies on `String::push_str` of std: appends a whole string slice.
#[verifier::external_body]
pub(crate) fn push_str(s: &mut String, other: &str)
    ensures
        final(s)@ == old(s)@ + other@,
{
    s.push_str(other);
}

/// A gauge `val_permille` full (0 is empty, 1000 is full), drawn `width`
/// wide and `height` tall in the given color: the filled share as a solid
/// rectangle, the rest as an outline.
pub fn bar(val_permille: u32, color: Color, width: u32, height: u32) -> (r: String)
    requires
        val_permille <= 1000,
    ensures
        r@ == spec_bar(val_permille as int, color, width as int, height as int),
{
    proof {
        lemma_fill_width_bounds(val_permille as int, width as int);
    }
    let wfill = ((val_permille as u64 * width as u64 + 500) / 1000) as u32;
    let wempty = width - wfill;
    let mut s = String::new();
    push_fg(&mut s, color);
    string_push(&mut s, '^');
    string_push(&mut s, 'r');
    string_push(&mut s, '(');
    push_u64(&mut s, wfill as u64);
    string_push(&mut s, 'x');
    push_u64(&mut s, height as u64);
    string_push(&mut s, ')');
    string_push(&mut s, '^');
    string_push(&mut s, 'r');
    string_push(&mut s, 'o');
    string_push(&mut s, '(');
    push_u64(&mut s, wempty as u64);
    string_push(&mut s, 'x');
    push_u64(&mut s, height as u64);
    string_push(&mut s, ')');
    assert(s@ =~= spec_bar(val_permille as int, color, width as int, height as int));
    s
}

/// A horizontal gap of `width` pixels: a rectangle of zero height.
pub fn space(width: u32) -> (r: String)
    ensures
        r@ == spec_space(width as int),
{
    let mut s = String::new();
    string_push(&mut s, '^');
    string_push(&mut s, 'r');
    string_push(&mut s, '(');
    push_u64(&mut s, width as u64);
    string_push(&mut s, 'x');
    string_push(&mut s, '0');
    string_push(&mut s, ')');
    assert(s@ =~= spec_space(width as int));
    s
}

} // verus!
