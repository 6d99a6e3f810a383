//! The completion capability: suggestions, and the spans they would
//! replace.

use vstd::prelude::*;

use crate::styled_buffer::StyledBuffer;

verus! {

/// A half-open range of buffer offsets to be replaced by a suggestion:
/// `start` inclusive, `end` exclusive.
#[derive(Clone, Copy, PartialEq, Eq, Structural, Debug)]
pub struct Span {
    pub start: usize,
    pub end: usize,
}

impl Span {
    /// The span `[start, end)`.
    pub fn new(start: usize, end: usize) -> (r: Span)
        ensures
            r == (Span { start, end }),
    {
        Span { start, end }
    }
}

/// One completion candidate: the styled replacement text and the span of
/// the input it would replace.
pub struct Suggestion {
    /// Suggestion content with styles.
    pub content: StyledBuffer,
    /// The replacement span.
    pub span: Span,
}

/// A completer derives zero or more candidate replacements from the full
/// current input.
pub trait Completer {
    /// The suggestions for the current input.
    fn complete(&self, input: &StyledBuffer) -> (r: Vec<Suggestion>)
        requires
            input.wf(),
    ;
}

} // verus!
