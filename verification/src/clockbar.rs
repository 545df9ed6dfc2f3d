//! The clock bar of the classic textual backend: a formatted time in one
//! fixed color, its pixel length derived from the rendered text's glyph
//! count.

use vstd::prelude::*;
use vstd::string::*;

verus! {

/// A status bar showing the time.
#[derive(Clone, Debug)]
pub struct ClockBar {
    pub format: String,
    pub color: String,
    pub lspace: u32,
    pub char_width: u32,
    pub length: u32,
}

impl ClockBar {
    /// The customary defaults: light gray, 12-hour clock, no leading space,
    /// geometry still unset.
    pub fn new() -> (b: ClockBar)
        ensures
            b.format@ == "%I:%M:%S"@,
            b.color@ == "#cccccc"@,
            b.lspace == 0,
            b.char_width == 0,
            b.length == 0,
    {
        ClockBar {
            color: String::from_str("#cccccc"),
            lspace: 0,
            format: String::from_str("%I:%M:%S"),
            char_width: 0,
            length: 0,
        }
    }

    /// Fixes the bar's pixel length from the glyph width and the number of
    /// glyphs its format renders to, measured once at startup.
    pub fn initialize(&mut self, char_width: u32, text_chars: u32)
        requires
            char_width * text_chars <= u32::MAX,
        ensures
            final(self).char_width == char_width,
            final(self).length == char_width * text_chars,
            final(self).format == old(self).format,
            final(self).color == old(self).color,
            final(self).lspace == old(self).lspace,
    {
        self.char_width = char_width;
        self.length = char_width * text_chars;
    }

    /// The length in pixels of the bar's output, leading space included.
    pub fn len(&self) -> (l: u32)
        requires
            self.lspace + self.length <= u32::MAX,
        ensures
            l == self.lspace + self.length,
    {
        self.lspace + self.length
    }

    pub fn get_lspace(&self) -> (l: u32)
        ensures
            l == self.lspace,
    {
        self.lspace
    }

    pub fn set_lspace(&mut self, lspace: u32)
        ensures
            *final(self) == (ClockBar { lspace, ..*old(self) }),
    {
        self.lspace = lspace;
    }
}

} // verus!
