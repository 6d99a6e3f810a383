//! The prompt capability and a plain-text prompt.

use vstd::prelude::*;

use crate::styled_buffer::BufModel;
use crate::styled_buffer::StyledBuffer;

verus! {

/// A prompt provider renders the prompt once per session as a styled
/// buffer.
pub trait Prompt {
    /// The prompt with its styles.
    fn prompt(&self) -> (r: StyledBuffer)
        ensures
            r.wf(),
    ;
}

/// A prompt holding a fixed, unstyled text.
pub struct StringPrompt {
    text: String,
}

impl View for StringPrompt {
    type V = Seq<char>;

    closed spec fn view(&self) -> Seq<char> {
        self.text@
    }
}

impl StringPrompt {
    /// A prompt showing `text`.
    pub fn new(text: String) -> (r: StringPrompt)
        ensures
            r@ == text@,
    {
        StringPrompt { text }
    }
}

impl Prompt for StringPrompt {
    /// The prompt text as a buffer with blank styles.
    fn prompt(&self) -> (r: StyledBuffer)
        ensures
            r@ == BufModel::empty().insert_string(self@),
    {
        let mut buffer = StyledBuffer::default();
        buffer.insert_string(self.text.as_str());
        buffer
    }
}

} // verus!
