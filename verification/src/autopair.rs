//! Automatic closing of bracket and quote pairs.
//!
//! When a keystroke has just grown the buffer and the cursor sits at its
//! end, the engine hands the buffer to the configured auto-pair strategy.
//! The default strategy looks the trailing character up in a table of
//! opening/closing pairs and, on a hit, inserts the closer and steps the
//! cursor back between the two.

use vstd::prelude::*;

use crate::styled_buffer::StyledBuffer;

verus! {

/// The auto-pair capability: complete the just-typed opener, if any.  A
/// strategy may extend the line and move the cursor, but never shortens
/// the line.
pub trait AutoPair {
    /// Possibly extend the line after an insertion.
    fn complete_pair(&self, buffer: &mut StyledBuffer)
        requires
            old(buffer).wf(),
        ensures
            final(buffer).wf(),
            old(buffer)@.chars.len() <= final(buffer)@.chars.len(),
    ;
}

/// The closer bound to `opener` in a pair table: the first matching entry
/// wins.
pub open spec fn pair_lookup(pairs: Seq<(char, char)>, opener: char) -> Option<char>
    decreases pairs.len(),
{
    if pairs.len() == 0 {
        None
    } else if pairs[0].0 == opener {
        Some(pairs[0].1)
    } else {
        pair_lookup(pairs.skip(1), opener)
    }
}

/// Auto-pair completion driven by a table of opening/closing pairs.
pub struct DefaultAutoPair {
    /// The table, one `(opener, closer)` entry per pair.
    pairs: Vec<(char, char)>,
}

impl View for DefaultAutoPair {
    type V = Seq<(char, char)>;

    closed spec fn view(&self) -> Seq<(char, char)> {
        self.pairs@
    }
}

impl Default for DefaultAutoPair {
    /// The common pair table: round, curly and square brackets, single,
    /// double and back quotes.
    fn default() -> (r: DefaultAutoPair)
        ensures
            r@ == seq![
                ('(', ')'),
                ('{', '}'),
                ('[', ']'),
                ('\'', '\''),
                ('"', '"'),
                ('`', '`'),
            ],
    {
        let pairs: Vec<(char, char)> = vec![
            ('(', ')'),
            ('{', '}'),
            ('[', ']'),
            ('\'', '\''),
            ('"', '"'),
            ('`', '`'),
        ];
        proof {
            assert(pairs@ =~= seq![
                ('(', ')'),
                ('{', '}'),
                ('[', ']'),
                ('\'', '\''),
                ('"', '"'),
                ('`', '`'),
            ]);
        }
        DefaultAutoPair { pairs }
    }
}

impl DefaultAutoPair {
    /// A strategy over a custom pair table.
    pub fn with_pairs(pairs: Vec<(char, char)>) -> (r: DefaultAutoPair)
        ensures
            r@ == pairs@,
    {
        DefaultAutoPair { pairs }
    }

    /// What completing a pair does: when the cursor is at the end of a
    /// non-empty line whose last character opens a pair, the closer is
    /// inserted and the cursor steps back between the two; otherwise the
    /// buffer is left alone.
    pub open spec fn completion_of(self, b: crate::styled_buffer::BufModel) -> crate::styled_buffer::BufModel {
        if b.cursor == b.len() && b.len() > 0 && pair_lookup(self@, b.chars.last()) is Some {
            b.insert_char(pair_lookup(self@, b.chars.last()).unwrap()).move_char_left()
        } else {
            b
        }
    }
}

impl AutoPair for DefaultAutoPair {
    /// Complete the pair when the table knows the trailing character and
    /// the cursor is at the end.
    fn complete_pair(&self, buffer: &mut StyledBuffer)
        ensures
            final(buffer)@ == self.completion_of(old(buffer)@),
    {
        if buffer.is_cursor_at_the_end() && buffer.len() > 0 {
            let last_index = buffer.len() - 1;
            let last = match buffer.char_at(last_index) {
                Some(c) => c,
                None => { return ; },
            };
            let mut i: usize = 0;
            let ghost table = self@;
            proof {
                assert(table.skip(0) =~= table);
            }
            while i < self.pairs.len()
                invariant
                    i <= self.pairs@.len(),
                    table == self.pairs@,
                    buffer@ == old(buffer)@,
                    buffer.wf(),
                    old(buffer)@.cursor == old(buffer)@.len(),
                    old(buffer)@.len() > 0,
                    last == old(buffer)@.chars.last(),
                    pair_lookup(table, last) == pair_lookup(table.skip(i as int), last),
                decreases self.pairs@.len() - i,
            {
                let entry = self.pairs[i];
                if entry.0 == last {
                    proof {
                        assert(table.skip(i as int)[0] == table[i as int]);
                        assert(pair_lookup(table.skip(i as int), last) == Some(table[i as int].1));
                    }
                    buffer.insert_char(entry.1);
                    buffer.move_char_left();
                    return ;
                }
                proof {
                    assert(table.skip(i as int)[0] == table[i as int]);
                    assert(table.skip(i as int).skip(1) =~= table.skip(i as int + 1));
                }
                i += 1;
            }
            proof {
                assert(table.skip(table.len() as int).len() == 0);
            }
        }
    }
}

} // verus!
