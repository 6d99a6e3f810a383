//! Layout state for the single-row painter: the column where the editable
//! buffer starts, and the cursor-column arithmetic the host paints with.

use vstd::prelude::*;

verus! {

/// Layout state of a painter that repaints one row from a fixed start
/// column.
pub struct Painter {
    /// The column where the buffer begins, after the prompt.
    buffer_column_start: u16,
}

impl Default for Painter {
    /// A painter starting at column 0.
    fn default() -> (r: Painter)
        ensures
            r.column_start() == 0,
    {
        Painter { buffer_column_start: 0 }
    }
}

impl Painter {
    /// The column where the buffer begins.
    pub closed spec fn column_start(&self) -> u16 {
        self.buffer_column_start
    }

    /// Set the column where the buffer begins.
    pub fn set_buffer_column_start(&mut self, start: u16)
        ensures
            final(self).column_start() == start,
    {
        self.buffer_column_start = start;
    }

    /// The column where the buffer begins, for the host's cursor moves.
    pub fn buffer_column_start(&self) -> (r: u16)
        ensures
            r == self.column_start(),
    {
        self.buffer_column_start
    }

    /// The terminal column of the cursor at buffer offset `position`.
    pub fn cursor_column(&self, position: u16) -> (r: u16)
        requires
            self.column_start() + position <= u16::MAX,
        ensures
            r as int == self.column_start() + position,
    {
        self.buffer_column_start + position
    }
}

} // verus!
