//! The editor: a thin dispatcher that owns one styled buffer and translates
//! edit and movement commands into buffer operations.

use vstd::prelude::*;

use crate::event::EditCommand;
use crate::event::EditOp;
use crate::event::MoveOp;
use crate::event::MovementCommand;
use crate::styled_buffer::BufModel;
use crate::styled_buffer::StyledBuffer;

verus! {

/// What one edit command does to a buffer.
pub open spec fn apply_edit(b: BufModel, op: EditOp) -> BufModel {
    match op {
        EditOp::InsertChar(c) => b.insert_char(c),
        EditOp::InsertString(s) => b.insert_string(s),
        EditOp::DeleteLeftChar => b.delete_left(),
        EditOp::DeleteRightChar => b.delete_right(),
        EditOp::DeleteSelected(from, to) => b.delete_range(from, to),
        EditOp::Clear => BufModel::empty(),
    }
}

/// What a list of edit commands does to a buffer, front to back.
pub open spec fn apply_edits(b: BufModel, ops: Seq<EditOp>) -> BufModel
    decreases ops.len(),
{
    if ops.len() == 0 {
        b
    } else {
        apply_edits(apply_edit(b, ops[0]), ops.skip(1))
    }
}

/// What one movement command does to a buffer.
pub open spec fn apply_movement(b: BufModel, op: MoveOp) -> BufModel {
    match op {
        MoveOp::ToStart => b.move_to_start(),
        MoveOp::ToEnd => b.move_to_end(),
        MoveOp::LeftChar => b.move_char_left(),
        MoveOp::RightChar => b.move_char_right(),
        MoveOp::LeftWord => b.move_word_left(),
        MoveOp::RightWord => b.move_word_right(),
        MoveOp::ToPosition(p) => b.set_position(p),
    }
}

/// What a list of movement commands does to a buffer, front to back.
pub open spec fn apply_movements(b: BufModel, ops: Seq<MoveOp>) -> BufModel
    decreases ops.len(),
{
    if ops.len() == 0 {
        b
    } else {
        apply_movements(apply_movement(b, ops[0]), ops.skip(1))
    }
}

/// Appending one more edit command folds as one more application.
pub proof fn lemma_apply_edits_snoc(b: BufModel, ops: Seq<EditOp>, op: EditOp)
    ensures
        apply_edits(b, ops.push(op)) == apply_edit(apply_edits(b, ops), op),
    decreases ops.len(),
{
    assert(apply_edits(b, ops.push(op)) == apply_edits(apply_edit(b, ops.push(op)[0]), ops.push(op).skip(1)));
    if ops.len() == 0 {
        assert(ops.push(op)[0] == op);
        assert(ops.push(op).skip(1) =~= Seq::<EditOp>::empty());
        assert(apply_edits(apply_edit(b, op), ops.push(op).skip(1)) == apply_edit(b, op));
        assert(apply_edits(b, ops) == b);
    } else {
        assert(ops.push(op)[0] == ops[0]);
        assert(ops.push(op).skip(1) =~= ops.skip(1).push(op));
        lemma_apply_edits_snoc(apply_edit(b, ops[0]), ops.skip(1), op);
        assert(apply_edits(b, ops) == apply_edits(apply_edit(b, ops[0]), ops.skip(1)));
    }
}

/// Appending one more movement command folds as one more application.
pub proof fn lemma_apply_movements_snoc(b: BufModel, ops: Seq<MoveOp>, op: MoveOp)
    ensures
        apply_movements(b, ops.push(op)) == apply_movement(apply_movements(b, ops), op),
    decreases ops.len(),
{
    assert(apply_movements(b, ops.push(op)) == apply_movements(
        apply_movement(b, ops.push(op)[0]),
        ops.push(op).skip(1),
    ));
    if ops.len() == 0 {
        assert(ops.push(op)[0] == op);
        assert(ops.push(op).skip(1) =~= Seq::<MoveOp>::empty());
        assert(apply_movements(apply_movement(b, op), ops.push(op).skip(1)) == apply_movement(
            b,
            op,
        ));
        assert(apply_movements(b, ops) == b);
    } else {
        assert(ops.push(op)[0] == ops[0]);
        assert(ops.push(op).skip(1) =~= ops.skip(1).push(op));
        lemma_apply_movements_snoc(apply_movement(b, ops[0]), ops.skip(1), op);
        assert(apply_movements(b, ops) == apply_movements(apply_movement(b, ops[0]), ops.skip(1)));
    }
}

/// Wrapper around the styled buffer that runs edit and movement commands on
/// it.
pub struct Editor {
    buffer: StyledBuffer,
}

impl View for Editor {
    type V = BufModel;

    closed spec fn view(&self) -> BufModel {
        self.buffer@
    }
}

impl Default for Editor {
    /// An editor over the empty buffer.
    fn default() -> (r: Editor)
        ensures
            r@ == BufModel::empty(),
            r@.wf(),
    {
        Editor { buffer: StyledBuffer::default() }
    }
}

impl Editor {
    /// The buffer invariants, stated on the abstract value.
    pub open spec fn wf(&self) -> bool {
        self@.wf()
    }

    /// Mutable access to the underlying styled buffer.
    pub fn styled_buffer(&mut self) -> (r: &mut StyledBuffer)
        ensures
            (*r)@ == old(self)@,
            final(self)@ == (*final(r))@,
    {
        &mut self.buffer
    }

    /// Read access to the underlying styled buffer.
    pub fn styled_buffer_ref(&self) -> (r: &StyledBuffer)
        ensures
            r@ == self@,
    {
        &self.buffer
    }

    /// Apply one edit command to the buffer.
    pub fn run_edit_commands(&mut self, command: &EditCommand)
        requires
            old(self).wf(),
        ensures
            final(self).wf(),
            final(self)@ == apply_edit(old(self)@, command.deep_view()),
    {
        match command {
            EditCommand::InsertChar(c) => self.buffer.insert_char(*c),
            EditCommand::InsertString(s) => self.buffer.insert_string(s.as_str()),
            EditCommand::DeleteLeftChar => self.buffer.delete_left_char(),
            EditCommand::DeleteRightChar => self.buffer.delete_right_char(),
            EditCommand::DeleteSelected(from, to) => self.buffer.delete_range(*from, *to),
            EditCommand::Clear => self.buffer.clear(),
        }
    }

    /// Apply one movement command to the buffer.
    pub fn run_movement_commands(&mut self, command: &MovementCommand)
        requires
            old(self).wf(),
        ensures
            final(self).wf(),
            final(self)@ == apply_movement(old(self)@, command.deep_view()),
    {
        match command {
            MovementCommand::MoveToStart => self.buffer.move_to_start(),
            MovementCommand::MoveToEnd => self.buffer.move_to_end(),
            MovementCommand::MoveLeftChar => self.buffer.move_char_left(),
            MovementCommand::MoveRightChar => self.buffer.move_char_right(),
            MovementCommand::MoveLeftWord => self.buffer.move_word_left(),
            MovementCommand::MoveRightWord => self.buffer.move_word_right(),
            MovementCommand::MoveToPosition(position) => self.buffer.set_position(*position),
        }
    }
}

} // verus!
