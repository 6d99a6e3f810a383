//! Focus and element state of the drop-down suggestion list.
//!
//! The list owns the suggestions, a focus index and a focus style; drawing
//! the list is the host's work and reads this state.

use vstd::prelude::*;

use crate::completion::Suggestion;
use crate::style::Style;
use crate::style::StyleModel;

verus! {

/// The largest element count the focus arithmetic supports.
pub open spec fn max_focus_elements() -> int {
    0x7fff_ffff_ffff_ffff
}

/// A drop-down list of suggestions with one focused entry.
pub struct DropDownListView {
    /// The suggestions, in the order they were supplied.
    elements: Vec<Suggestion>,
    /// The style painted over the focused entry.
    focus_style: Style,
    /// The index of the focused entry; the host may set it out of range,
    /// in which case no entry is selected.
    focus_position: i64,
    /// Whether the list is shown.
    is_visible: bool,
}

impl Default for DropDownListView {
    /// An empty, hidden list focused at 0.
    fn default() -> (r: DropDownListView)
        ensures
            r.elements_seq().len() == 0,
            r.focus() == 0,
            !r.visible(),
            r.focus_style_model() == StyleModel::empty(),
    {
        DropDownListView {
            elements: Vec::new(),
            focus_style: Style::default(),
            focus_position: 0,
            is_visible: false,
        }
    }
}

impl DropDownListView {
    /// The suggestions held.
    pub closed spec fn elements_seq(&self) -> Seq<Suggestion> {
        self.elements@
    }

    /// The focus index.
    pub closed spec fn focus(&self) -> int {
        self.focus_position as int
    }

    /// Whether the list is shown.
    pub closed spec fn visible(&self) -> bool {
        self.is_visible
    }

    /// The focus style's abstract value.
    pub closed spec fn focus_style_model(&self) -> StyleModel {
        self.focus_style@
    }

    /// Show or hide the list.
    pub fn set_visibility(&mut self, visible: bool)
        ensures
            final(self).visible() == visible,
            final(self).elements_seq() == old(self).elements_seq(),
            final(self).focus() == old(self).focus(),
    {
        self.is_visible = visible;
    }

    /// Whether the list is shown.
    pub fn is_visible(&self) -> (r: bool)
        ensures
            r == self.visible(),
    {
        self.is_visible
    }

    /// Set the focus index; the value is not checked against the element
    /// count.
    pub fn set_focus_position(&mut self, position: i64)
        ensures
            final(self).focus() == position as int,
            final(self).elements_seq() == old(self).elements_seq(),
            final(self).visible() == old(self).visible(),
    {
        self.focus_position = position;
    }

    /// Set the style painted over the focused entry.
    pub fn set_focus_style(&mut self, style: Style)
        ensures
            final(self).focus_style_model() == style@,
            final(self).elements_seq() == old(self).elements_seq(),
            final(self).focus() == old(self).focus(),
            final(self).visible() == old(self).visible(),
    {
        self.focus_style = style;
    }

    /// The style painted over the focused entry.
    pub fn focus_style(&self) -> (r: &Style)
        ensures
            r@ == self.focus_style_model(),
    {
        &self.focus_style
    }

    /// Move the focus one entry down, stopping at the last entry.
    pub fn focus_next(&mut self)
        requires
            old(self).elements_seq().len() <= max_focus_elements(),
        ensures
            final(self).elements_seq() == old(self).elements_seq(),
            final(self).visible() == old(self).visible(),
            final(self).focus() == if old(self).focus() < old(self).elements_seq().len() - 1 {
                old(self).focus() + 1
            } else {
                old(self).focus()
            },
    {
        let count = self.elements.len() as i64;
        if self.focus_position < count - 1 {
            self.focus_position += 1;
        }
    }

    /// Move the focus one entry up, stopping at the first entry.
    pub fn focus_previous(&mut self)
        ensures
            final(self).elements_seq() == old(self).elements_seq(),
            final(self).visible() == old(self).visible(),
            final(self).focus() == if old(self).focus() > 0 {
                old(self).focus() - 1
            } else {
                old(self).focus()
            },
    {
        if self.focus_position > 0 {
            self.focus_position -= 1;
        }
    }

    /// Reset the focus to the first entry.
    pub fn clear_focus(&mut self)
        ensures
            final(self).focus() == 0,
            final(self).elements_seq() == old(self).elements_seq(),
            final(self).visible() == old(self).visible(),
    {
        self.focus_position = 0;
    }

    /// Drop all elements and reset the focus.
    pub fn reset(&mut self)
        ensures
            final(self).elements_seq().len() == 0,
            final(self).focus() == 0,
            final(self).visible() == old(self).visible(),
    {
        self.clear_elements();
        self.clear_focus();
    }

    /// Append the given elements, draining the vector handed in.
    pub fn set_elements(&mut self, elements: &mut Vec<Suggestion>)
        ensures
            final(self).elements_seq() == old(self).elements_seq() + old(elements)@,
            final(elements)@.len() == 0,
            final(self).focus() == old(self).focus(),
            final(self).visible() == old(self).visible(),
    {
        self.elements.append(elements);
    }

    /// Drop all elements.
    pub fn clear_elements(&mut self)
        ensures
            final(self).elements_seq().len() == 0,
            final(self).focus() == old(self).focus(),
            final(self).visible() == old(self).visible(),
    {
        self.elements.clear();
    }

    /// The focused suggestion, or `None` when the focus lies outside the
    /// list.
    pub fn selected_element(&self) -> (r: Option<&Suggestion>)
        ensures
            0 <= self.focus() < self.elements_seq().len() ==> (r matches Some(s) && *s
                == self.elements_seq()[self.focus()]),
            !(0 <= self.focus() < self.elements_seq().len()) ==> r is None,
    {
        if self.focus_position >= 0 && (self.focus_position as u64) < (self.elements.len() as u64) {
            Some(&self.elements[self.focus_position as usize])
        } else {
            None
        }
    }

    /// The suggestions, in the order they were supplied.
    pub fn elements(&self) -> (r: &Vec<Suggestion>)
        ensures
            r@ == self.elements_seq(),
    {
        &self.elements
    }

    /// The focus index, as set.
    pub fn focus_position(&self) -> (r: i64)
        ensures
            r as int == self.focus(),
    {
        self.focus_position
    }

    /// Whether the list holds no elements.
    pub fn is_empty(&self) -> (r: bool)
        ensures
            r == (self.elements_seq().len() == 0),
    {
        self.elements.is_empty()
    }

    /// Number of elements held.
    pub fn len(&self) -> (r: usize)
        ensures
            r as int == self.elements_seq().len(),
    {
        self.elements.len()
    }
}

} // verus!
