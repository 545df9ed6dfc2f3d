//! A test pattern for colormaps: one-pixel columns sweeping the table's
//! whole input range left to right, so a misconfigured table is visible at a
//! glance.

use vstd::prelude::*;

use crate::color::color_string;
use crate::colormap::ColorMap;
use crate::draw::push_fg;
use crate::draw::push_str;
use crate::numfmt::push_u64;
use crate::numfmt::spec_digits;

verus! {

/// Configuration of a rainbow segment: the table to sweep and the strip's
/// geometry.
#[derive(Clone, Debug)]
pub struct RainbowConfig {
    pub colormap: ColorMap,
    pub width: u32,
    pub height: u32,
}

/// A strip of one-pixel columns sampling a colormap.
#[derive(Clone, Debug)]
pub struct Rainbow {
    pub cmap: ColorMap,
    pub width: u32,
    pub height: u32,
}

/// Column `i` of a `width`-wide strip samples the table at `i * 1000 /
/// width`: the sweep covers zero through (almost) full permille scale.
pub open spec fn column_value(i: int, width: int) -> int
    recommends
        width > 0,
{
    i * 1000 / width
}

/// One column's drawing commands: its sampled color, then a 1-pixel-wide
/// rectangle.
pub open spec fn spec_column(cmap: ColorMap, i: int, width: int, height: int) -> Seq<char> {
    seq!['^', 'f', 'g', '('] + color_string(cmap.spec_map(column_value(i, width))) + seq![
        ')',
        '^',
        'r',
        '(',
        '1',
        'x',
    ] + spec_digits(height) + seq![')']
}

/// The first `n` columns of the strip, concatenated.
pub open spec fn spec_columns(cmap: ColorMap, n: int, width: int, height: int) -> Seq<char>
    decreases n,
{
    if n <= 0 {
        Seq::empty()
    } else {
        spec_columns(cmap, n - 1, width, height) + spec_column(cmap, n - 1, width, height)
    }
}

impl Rainbow {
    /// A strip with the configured table and geometry.
    pub fn from_config(config: RainbowConfig) -> (r: Rainbow)
        requires
            config.colormap.wf(),
        ensures
            r.cmap == config.colormap,
            r.width == config.width,
            r.height == config.height,
            r.cmap.wf(),
    {
        Rainbow { cmap: config.colormap, width: config.width, height: config.height }
    }

    /// The length in pixels of the strip.
    pub fn len(&self) -> (l: u32)
        ensures
            l == self.width,
    {
        self.width
    }

    /// The whole strip: every column of the sweep, left to right.
    pub fn write(&self) -> (r: String)
        requires
            self.cmap.wf(),
        ensures
            r@ == spec_columns(self.cmap, self.width as int, self.width as int, self.height as int),
    {
        let mut s = String::new();
        let mut i: u32 = 0;
        while i < self.width
            invariant
                i <= self.width,
                self.cmap.wf(),
                s@ == spec_columns(self.cmap, i as int, self.width as int, self.height as int),
            decreases self.width - i,
        {
            let val = (i as u64) * 1000 / (self.width as u64);
            proof {
                vstd::arithmetic::div_mod::lemma_div_is_ordered(
                    0,
                    i as int * 1000,
                    self.width as int,
                );
                vstd::arithmetic::div_mod::lemma_div_multiples_vanish(0, self.width as int);
            }
            let color = self.cmap.map(val as i64);
            push_fg(&mut s, color);
            push_str(&mut s, "^r(1x");
            push_u64(&mut s, self.height as u64);
            push_str(&mut s, ")");
            proof {
                reveal_strlit("^r(1x");
                reveal_strlit(")");
                assert(s@ =~= spec_columns(
                    self.cmap,
                    i as int + 1,
                    self.width as int,
                    self.height as int,
                ));
            }
            i += 1;
        }
        s
    }
}

} // verus!
