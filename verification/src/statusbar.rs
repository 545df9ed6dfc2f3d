//! The pieces a status bar emits between segment renders: one gauge, a run
//! of space, a separator line. Each returns the protocol text; the runtime
//! writes it to the render backend.

use vstd::prelude::*;

use crate::color::color_string;
use crate::color::string_push;
use crate::color::Color;
use crate::draw;
use crate::draw::spec_bar;
use crate::draw::spec_space;
use crate::numfmt::push_u64;
use crate::numfmt::spec_digits;

verus! {

/// The separator's drawing commands: a 2-pixel-wide line of the given height
/// in the fixed text color `#888888`.
pub open spec fn spec_sep(height: int) -> Seq<char> {
    seq!['^', 'f', 'g', '('] + color_string(Color { r: 0x88, g: 0x88, b: 0x88 }) + seq![
        ')',
        '^',
        'r',
        '(',
        '2',
        'x',
    ] + spec_digits(height) + seq![')']
}

/// One gauge `val_permille` full, drawn in the given color and geometry.
pub fn write_one_bar(val_permille: u32, color: Color, width: u32, height: u32) -> (r: String)
    requires
        val_permille <= 1000,
    ensures
        r@ == spec_bar(val_permille as int, color, width as int, height as int),
{
    draw::bar(val_permille, color, width, height)
}

/// A run of horizontal space.
pub fn write_space(width: u32) -> (r: String)
    ensures
        r@ == spec_space(width as int),
{
    draw::space(width)
}

/// A thin separator line of the given height.
pub fn write_sep(height: u32) -> (r: String)
    ensures
        r@ == spec_sep(height as int),
{
    let mut s = String::new();
    draw::push_fg(&mut s, Color::new(0x88, 0x88, 0x88));
    string_push(&mut s, '^');
    string_push(&mut s, 'r');
    string_push(&mut s, '(');
    string_push(&mut s, '2');
    string_push(&mut s, 'x');
    push_u64(&mut s, height as u64);
    string_push(&mut s, ')');
    assert(s@ =~= spec_sep(height as int));
    s
}

} // verus!
