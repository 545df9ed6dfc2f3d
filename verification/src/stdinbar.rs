//! The stdin bar of the classic textual backend: whatever line arrives on
//! standard input is shown as-is, in a region of fixed length.

use vstd::prelude::*;

verus! {

/// A status bar echoing lines from standard input.
#[derive(Clone, Debug)]
pub struct StdinBar {
    pub length: u32,
    pub lspace: u32,
}

impl StdinBar {
    /// The customary default length, with no leading space.
    pub fn new() -> (b: StdinBar)
        ensures
            b.length == 30,
            b.lspace == 0,
    {
        StdinBar { length: 30, lspace: 0 }
    }

    /// The length in pixels of the bar's output.
    pub fn len(&self) -> (l: u32)
        ensures
            l == self.length,
    {
        self.length
    }

    pub fn get_lspace(&self) -> (l: u32)
        ensures
            l == self.lspace,
    {
        self.lspace
    }

    pub fn set_lspace(&mut self, lspace: u32)
        ensures
            *final(self) == (StdinBar { lspace, ..*old(self) }),
    {
        self.lspace = lspace;
    }

    /// One received line rendered as-is: the event-driven segment shows the
    /// input unchanged.
    pub fn render(&self, line: &String) -> (r: String)
        ensures
            r@ == line@,
    {
        line.clone()
    }
}

} // verus!
