//! Line-layout state for the editor view: the start position of the line
//! on screen, the terminal width, and the soft-wrap column arithmetic.
//!
//! The escape-sequence output itself is the host's; it reads the columns
//! and line counts computed here.

use vstd::prelude::*;

verus! {

/// How many times a column wraps around a terminal of the given width.
pub open spec fn wrap_count(col: int, width: int) -> int
    decreases col,
{
    if width > 0 && col > width {
        1 + wrap_count(col - width, width)
    } else {
        0
    }
}

/// The column left after wrapping around a terminal of the given width.
pub open spec fn wrapped_col(col: int, width: int) -> int
    decreases col,
{
    if width > 0 && col > width {
        wrapped_col(col - width, width)
    } else {
        col
    }
}

/// Layout state of the line being edited: where it starts on screen and
/// how wide the terminal is.
pub struct StyledEditorView {
    /// Column and row where the editable line begins, after the prompt.
    start_position: (u16, u16),
    /// Terminal columns and rows; a zero width disables wrapping.
    terminal_size: (u16, u16),
}

impl Default for StyledEditorView {
    /// A view at the origin with an unknown terminal size.
    fn default() -> (r: StyledEditorView)
        ensures
            r.start() == (0u16, 0u16),
            r.size() == (0u16, 0u16),
    {
        StyledEditorView { start_position: (0, 0), terminal_size: (0, 0) }
    }
}

impl StyledEditorView {
    /// The line's start position.
    pub closed spec fn start(&self) -> (u16, u16) {
        self.start_position
    }

    /// The terminal size.
    pub closed spec fn size(&self) -> (u16, u16) {
        self.terminal_size
    }

    /// Set the line's start position, directly after the prompt.
    pub fn set_start_position(&mut self, position: (u16, u16))
        ensures
            final(self).start() == position,
            final(self).size() == old(self).size(),
    {
        self.start_position = position;
    }

    /// Set the terminal size used for soft-wrap arithmetic.
    pub fn set_terminal_size(&mut self, size: (u16, u16))
        ensures
            final(self).size() == size,
            final(self).start() == old(self).start(),
    {
        self.terminal_size = size;
    }

    /// The line's start position, for the host's cursor moves.
    pub fn start_position(&self) -> (r: (u16, u16))
        ensures
            r == self.start(),
    {
        self.start_position
    }

    /// How many terminal rows the line up to `position` occupies.
    #[verifier::loop_isolation(false)]
    pub fn number_of_lines(&self, position: u16) -> (r: usize)
        requires
            self.start().0 + position <= u16::MAX,
        ensures
            r as int == 1 + wrap_count(self.start().0 + position, self.size().0 as int),
    {
        let width = self.terminal_size.0;
        let mut lines: usize = 1;
        let mut move_to_position: u16 = self.start_position.0 + position;
        while width > 0 && move_to_position > width
            invariant
                lines >= 1,
                lines - 1 + wrap_count(move_to_position as int, width as int) == wrap_count(
                    self.start().0 + position,
                    width as int,
                ),
                lines + move_to_position <= 1 + self.start().0 + position,
            decreases move_to_position,
        {
            move_to_position -= width;
            lines += 1;
        }
        lines
    }

    /// The terminal column the cursor lands in after soft wrapping.
    #[verifier::loop_isolation(false)]
    pub fn wrapped_column(&self, position: u16) -> (r: u16)
        requires
            self.start().0 + position <= u16::MAX,
        ensures
            r as int == wrapped_col(self.start().0 + position, self.size().0 as int),
    {
        let width = self.terminal_size.0;
        let mut move_to_position: u16 = self.start_position.0 + position;
        while width > 0 && move_to_position > width
            invariant
                wrapped_col(move_to_position as int, width as int) == wrapped_col(
                    self.start().0 + position,
                    width as int,
                ),
            decreases move_to_position,
        {
            move_to_position -= width;
        }
        move_to_position
    }
}

} // verus!
