//! The two-layer command model: primitive buffer edits and cursor movements,
//! and the semantic line-editor events composed from them.

use vstd::prelude::*;

verus! {

/// Editing actions which can be mapped to key bindings and are executed by
/// `Editor::run_edit_commands`.
pub enum EditCommand {
    /// Insert a character at the current insertion point.
    InsertChar(char),
    /// Insert a string at the current insertion point.
    InsertString(String),
    /// Backspace-delete from the current insertion point.
    DeleteLeftChar,
    /// Delete in place from the current insertion point.
    DeleteRightChar,
    /// Delete in place the given half-open range.
    DeleteSelected(usize, usize),
    /// Clear the whole buffer.
    Clear,
}

/// The abstract value of an [`EditCommand`].
pub enum EditOp {
    InsertChar(char),
    InsertString(Seq<char>),
    DeleteLeftChar,
    DeleteRightChar,
    DeleteSelected(int, int),
    Clear,
}

impl DeepView for EditCommand {
    type V = EditOp;

    open spec fn deep_view(&self) -> EditOp {
        match self {
            EditCommand::InsertChar(c) => EditOp::InsertChar(*c),
            EditCommand::InsertString(s) => EditOp::InsertString(s@),
            EditCommand::DeleteLeftChar => EditOp::DeleteLeftChar,
            EditCommand::DeleteRightChar => EditOp::DeleteRightChar,
            EditCommand::DeleteSelected(from, to) => EditOp::DeleteSelected(
                *from as int,
                *to as int,
            ),
            EditCommand::Clear => EditOp::Clear,
        }
    }
}

impl Clone for EditCommand {
    fn clone(&self) -> (r: Self)
        ensures
            r.deep_view() == self.deep_view(),
    {
        match self {
            EditCommand::InsertChar(c) => EditCommand::InsertChar(*c),
            EditCommand::InsertString(s) => EditCommand::InsertString(s.clone()),
            EditCommand::DeleteLeftChar => EditCommand::DeleteLeftChar,
            EditCommand::DeleteRightChar => EditCommand::DeleteRightChar,
            EditCommand::DeleteSelected(from, to) => EditCommand::DeleteSelected(*from, *to),
            EditCommand::Clear => EditCommand::Clear,
        }
    }
}

/// Movement actions which can be mapped to key bindings.
#[derive(Clone, Copy)]
pub enum MovementCommand {
    /// Move to the start of the buffer.
    MoveToStart,
    /// Move to the end of the buffer.
    MoveToEnd,
    /// Move one character to the left.
    MoveLeftChar,
    /// Move one character to the right.
    MoveRightChar,
    /// Move one word to the left.
    MoveLeftWord,
    /// Move one word to the right.
    MoveRightWord,
    /// Move to an absolute offset.
    MoveToPosition(usize),
}

/// The abstract value of a [`MovementCommand`].
pub enum MoveOp {
    ToStart,
    ToEnd,
    LeftChar,
    RightChar,
    LeftWord,
    RightWord,
    ToPosition(int),
}

impl DeepView for MovementCommand {
    type V = MoveOp;

    open spec fn deep_view(&self) -> MoveOp {
        match self {
            MovementCommand::MoveToStart => MoveOp::ToStart,
            MovementCommand::MoveToEnd => MoveOp::ToEnd,
            MovementCommand::MoveLeftChar => MoveOp::LeftChar,
            MovementCommand::MoveRightChar => MoveOp::RightChar,
            MovementCommand::MoveLeftWord => MoveOp::LeftWord,
            MovementCommand::MoveRightWord => MoveOp::RightWord,
            MovementCommand::MoveToPosition(p) => MoveOp::ToPosition(*p as int),
        }
    }
}

/// The semantic actions the line editor supports.
pub enum LineEditorEvent {
    /// No-op event.
    Noop,
    /// Submit the current line.
    Enter,
    /// Escape.
    Esc,
    /// Unconditional submit.
    Submit,
    /// Run these edit commands in the editor.
    Edit(Vec<EditCommand>),
    /// Run these movement commands in the editor.
    Movement(Vec<MovementCommand>),
    /// Move up (history or multi-line hosts).
    Up,
    /// Move down (history or multi-line hosts).
    Down,
    /// Move right one column.
    Right,
    /// Move left one column.
    Left,
    /// Extend the selection one character to the right.
    SelectRight,
    /// Contract the selection one character to the left.
    SelectLeft,
    /// Select the whole buffer.
    SelectAll,
    /// Cut the selected text into the clipboard.
    CutSelected,
    /// Copy the selected text into the clipboard.
    CopySelected,
    /// Paste the clipboard over the selection or at the insertion point.
    Paste,
    /// Delete the character to the left, or the selected range.
    Backspace,
    /// Delete the character to the right, or the selected range.
    Delete,
}

/// The abstract value of a [`LineEditorEvent`].
pub enum EventModel {
    Noop,
    Enter,
    Esc,
    Submit,
    Edit(Seq<EditOp>),
    Movement(Seq<MoveOp>),
    Up,
    Down,
    Right,
    Left,
    SelectRight,
    SelectLeft,
    SelectAll,
    CutSelected,
    CopySelected,
    Paste,
    Backspace,
    Delete,
}

impl DeepView for LineEditorEvent {
    type V = EventModel;

    open spec fn deep_view(&self) -> EventModel {
        match self {
            LineEditorEvent::Noop => EventModel::Noop,
            LineEditorEvent::Enter => EventModel::Enter,
            LineEditorEvent::Esc => EventModel::Esc,
            LineEditorEvent::Submit => EventModel::Submit,
            LineEditorEvent::Edit(cmds) => EventModel::Edit(cmds.deep_view()),
            LineEditorEvent::Movement(cmds) => EventModel::Movement(cmds.deep_view()),
            LineEditorEvent::Up => EventModel::Up,
            LineEditorEvent::Down => EventModel::Down,
            LineEditorEvent::Right => EventModel::Right,
            LineEditorEvent::Left => EventModel::Left,
            LineEditorEvent::SelectRight => EventModel::SelectRight,
            LineEditorEvent::SelectLeft => EventModel::SelectLeft,
            LineEditorEvent::SelectAll => EventModel::SelectAll,
            LineEditorEvent::CutSelected => EventModel::CutSelected,
            LineEditorEvent::CopySelected => EventModel::CopySelected,
            LineEditorEvent::Paste => EventModel::Paste,
            LineEditorEvent::Backspace => EventModel::Backspace,
            LineEditorEvent::Delete => EventModel::Delete,
        }
    }
}

/// Copies a list of edit commands element by element.
fn clone_edit_commands(cmds: &Vec<EditCommand>) -> (r: Vec<EditCommand>)
    ensures
        r.deep_view() == cmds.deep_view(),
{
    let mut r: Vec<EditCommand> = Vec::new();
    let mut i: usize = 0;
    while i < cmds.len()
        invariant
            i <= cmds.len(),
            r.deep_view() == cmds.deep_view().take(i as int),
        decreases cmds.len() - i,
    {
        let ghost prev = r.deep_view();
        r.push(cmds[i].clone());
        proof {
            assert(r.deep_view() =~= prev.push(cmds.deep_view()[i as int]));
            assert(prev.push(cmds.deep_view()[i as int]) =~= cmds.deep_view().take(i as int + 1));
        }
        i += 1;
    }
    proof {
        assert(cmds.deep_view().take(cmds.deep_view().len() as int) =~= cmds.deep_view());
    }
    r
}

/// Copies a list of movement commands element by element.
fn clone_movement_commands(cmds: &Vec<MovementCommand>) -> (r: Vec<MovementCommand>)
    ensures
        r.deep_view() == cmds.deep_view(),
{
    let mut r: Vec<MovementCommand> = Vec::new();
    let mut i: usize = 0;
    while i < cmds.len()
        invariant
            i <= cmds.len(),
            r.deep_view() == cmds.deep_view().take(i as int),
        decreases cmds.len() - i,
    {
        let ghost prev = r.deep_view();
        r.push(cmds[i]);
        proof {
            assert(r.deep_view() =~= prev.push(cmds.deep_view()[i as int]));
            assert(prev.push(cmds.deep_view()[i as int]) =~= cmds.deep_view().take(i as int + 1));
        }
        i += 1;
    }
    proof {
        assert(cmds.deep_view().take(cmds.deep_view().len() as int) =~= cmds.deep_view());
    }
    r
}

impl Clone for LineEditorEvent {
    fn clone(&self) -> (r: Self)
        ensures
            r.deep_view() == self.deep_view(),
    {
        match self {
            LineEditorEvent::Noop => LineEditorEvent::Noop,
            LineEditorEvent::Enter => LineEditorEvent::Enter,
            LineEditorEvent::Esc => LineEditorEvent::Esc,
            LineEditorEvent::Submit => LineEditorEvent::Submit,
            LineEditorEvent::Edit(cmds) => LineEditorEvent::Edit(clone_edit_commands(cmds)),
            LineEditorEvent::Movement(cmds) => LineEditorEvent::Movement(
                clone_movement_commands(cmds),
            ),
            LineEditorEvent::Up => LineEditorEvent::Up,
            LineEditorEvent::Down => LineEditorEvent::Down,
            LineEditorEvent::Right => LineEditorEvent::Right,
            LineEditorEvent::Left => LineEditorEvent::Left,
            LineEditorEvent::SelectRight => LineEditorEvent::SelectRight,
            LineEditorEvent::SelectLeft => LineEditorEvent::SelectLeft,
            LineEditorEvent::SelectAll => LineEditorEvent::SelectAll,
            LineEditorEvent::CutSelected => LineEditorEvent::CutSelected,
            LineEditorEvent::CopySelected => LineEditorEvent::CopySelected,
            LineEditorEvent::Paste => LineEditorEvent::Paste,
            LineEditorEvent::Backspace => LineEditorEvent::Backspace,
            LineEditorEvent::Delete => LineEditorEvent::Delete,
        }
    }
}

} // verus!
