//! The hinting capability.

use vstd::prelude::*;

use crate::styled_buffer::StyledBuffer;

verus! {

/// A hinter derives a transient, styled hint from the current line; it is
/// consulted only while the cursor sits at the end of the buffer, and the
/// first hinter that produces a hint wins.
pub trait Hinter {
    /// The hint for the current line, or `None`.
    fn hint(&self, buffer: &StyledBuffer) -> (r: Option<StyledBuffer>)
        requires
            buffer.wf(),
        ensures
            r matches Some(h) ==> h.wf(),
    ;
}

} // verus!
