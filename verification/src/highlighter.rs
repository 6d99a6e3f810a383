//! The syntax highlighting capability.

use vstd::prelude::*;

use crate::styled_buffer::StyledBuffer;

verus! {

/// A syntax highlighter restyles the current line in place.  Every
/// registered highlighter runs on every redraw, over styles just reset to
/// blank; it may change styles only, never the characters or the cursor.
pub trait Highlighter {
    /// Restyle the buffer.
    fn highlight(&self, buffer: &mut StyledBuffer)
        requires
            old(buffer).wf(),
        ensures
            final(buffer).wf(),
            final(buffer)@.chars == old(buffer)@.chars,
            final(buffer)@.cursor == old(buffer)@.cursor,
    ;
}

} // verus!
