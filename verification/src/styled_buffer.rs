//! The styled text buffer: an editable line of characters, one style record
//! per character, and a cursor.
//!
//! The abstract value of a buffer is a [`BufModel`]: the character sequence,
//! the sequence of style models and the cursor offset.  Two invariants hold
//! at every observable point and are stated by [`BufModel::wf`]: the style
//! sequence has exactly the length of the character sequence, and the cursor
//! lies in `[0, len]`.  Every mutating operation keeps them.
//!
//! Out-of-range arguments never abort: operations that receive one leave the
//! buffer unchanged, and accessors return `None`.

use vstd::prelude::*;

use crate::chars::alphabetic_char;
use crate::chars::is_alphabetic_char;
use crate::chars::is_whitespace_char;
use crate::chars::whitespace_char;
use crate::style::Style;
use crate::style::StyleModel;
use crate::text::chars_to_string;
use crate::text::str_chars;

verus! {

/// The abstract value of a [`StyledBuffer`].
pub struct BufModel {
    /// The characters of the line, in visual order.
    pub chars: Seq<char>,
    /// The style of each character, index-aligned with `chars`.
    pub styles: Seq<StyleModel>,
    /// The insertion point, between 0 and `chars.len()` inclusive.
    pub cursor: int,
}

impl BufModel {
    /// The two buffer invariants: style/character length agreement and the
    /// cursor bound.
    pub open spec fn wf(self) -> bool {
        &&& self.styles.len() == self.chars.len()
        &&& 0 <= self.cursor <= self.chars.len()
    }

    /// Number of characters in the line.
    pub open spec fn len(self) -> int {
        self.chars.len() as int
    }

    /// The empty buffer.
    pub open spec fn empty() -> BufModel {
        BufModel { chars: Seq::empty(), styles: Seq::empty(), cursor: 0 }
    }

    /// Insertion of one styled character at the cursor; the cursor moves one
    /// to the right.
    pub open spec fn insert_styled_char(self, ch: char, st: StyleModel) -> BufModel {
        BufModel {
            chars: self.chars.insert(self.cursor, ch),
            styles: self.styles.insert(self.cursor, st),
            cursor: self.cursor + 1,
        }
    }

    /// Insertion of one character with the blank style.
    pub open spec fn insert_char(self, ch: char) -> BufModel {
        self.insert_styled_char(ch, StyleModel::empty())
    }

    /// Iterated styled insertion, front to back.
    pub open spec fn insert_styled_string(self, s: Seq<char>, st: StyleModel) -> BufModel
        decreases s.len(),
    {
        if s.len() == 0 {
            self
        } else {
            self.insert_styled_char(s[0], st).insert_styled_string(s.skip(1), st)
        }
    }

    /// Iterated insertion with the blank style, front to back.
    pub open spec fn insert_string(self, s: Seq<char>) -> BufModel
        decreases s.len(),
    {
        if s.len() == 0 {
            self
        } else {
            self.insert_char(s[0]).insert_string(s.skip(1))
        }
    }

    /// One step of cursor movement to the right, clamped at the end.
    pub open spec fn move_char_right(self) -> BufModel {
        if self.cursor < self.len() {
            BufModel { cursor: self.cursor + 1, ..self }
        } else {
            self
        }
    }

    /// One step of cursor movement to the left, clamped at the start.
    pub open spec fn move_char_left(self) -> BufModel {
        if self.cursor > 0 {
            BufModel { cursor: self.cursor - 1, ..self }
        } else {
            self
        }
    }

    /// Cursor jump to offset 0.
    pub open spec fn move_to_start(self) -> BufModel {
        BufModel { cursor: 0, ..self }
    }

    /// Cursor jump one past the last character.
    pub open spec fn move_to_end(self) -> BufModel {
        BufModel { cursor: self.len(), ..self }
    }

    /// Absolute cursor jump; an offset beyond the end is rejected and leaves
    /// the buffer unchanged.
    pub open spec fn set_position(self, pos: int) -> BufModel {
        if 0 <= pos <= self.len() {
            BufModel { cursor: pos, ..self }
        } else {
            self
        }
    }

    /// Backspace: removal of the character left of the cursor; no-op at
    /// offset 0.
    pub open spec fn delete_left(self) -> BufModel {
        if self.cursor > 0 {
            BufModel {
                chars: self.chars.remove(self.cursor - 1),
                styles: self.styles.remove(self.cursor - 1),
                cursor: self.cursor - 1,
            }
        } else {
            self
        }
    }

    /// Forward deletion of the character at the cursor; no-op when the cursor
    /// is at or past the last character.
    pub open spec fn delete_right(self) -> BufModel {
        if self.cursor + 1 < self.len() {
            BufModel {
                chars: self.chars.remove(self.cursor),
                styles: self.styles.remove(self.cursor),
                cursor: self.cursor,
            }
        } else {
            self
        }
    }

    /// Removal of the half-open range `[from, to)` from characters and styles
    /// alike, with the cursor left at `from`; an invalid range is rejected.
    pub open spec fn delete_range(self, from: int, to: int) -> BufModel {
        if 0 <= from <= to <= self.len() {
            BufModel {
                chars: self.chars.take(from) + self.chars.skip(to),
                styles: self.styles.take(from) + self.styles.skip(to),
                cursor: from,
            }
        } else {
            self
        }
    }

}

/// Where the cursor lands when it moves right by one word from offset `i`:
/// at the first offset past the first whitespace character at or after `i`,
/// or at the end of the line when no whitespace follows.
pub open spec fn word_right_target(chars: Seq<char>, i: int) -> int
    decreases chars.len() - i,
{
    if i < 0 || i >= chars.len() {
        chars.len() as int
    } else if whitespace_char(chars[i]) {
        i + 1
    } else {
        word_right_target(chars, i + 1)
    }
}

/// The nearest offset at or below `i` that carries a non-whitespace
/// character, or 0.
pub open spec fn skip_whitespace_down(chars: Seq<char>, i: int) -> int
    decreases i,
{
    if i <= 0 {
        0
    } else if i >= chars.len() {
        i
    } else if whitespace_char(chars[i]) {
        skip_whitespace_down(chars, i - 1)
    } else {
        i
    }
}

/// Where the cursor lands when it scans left from offset `i` for the start
/// of a word: one past the first whitespace character at or below `i`, or 0.
pub open spec fn word_left_target(chars: Seq<char>, i: int) -> int
    decreases i,
{
    if i <= 0 {
        0
    } else if i >= chars.len() {
        i
    } else if whitespace_char(chars[i]) {
        if i + 1 < chars.len() {
            i + 1
        } else {
            i
        }
    } else {
        word_left_target(chars, i - 1)
    }
}

impl BufModel {
    /// The combined word-left movement: clamp the cursor onto the line, step
    /// one left, skip whitespace downward, then scan to the word start.  The
    /// empty line is left unchanged.
    pub open spec fn move_word_left(self) -> BufModel {
        if self.len() == 0 {
            self
        } else {
            let clamped = if self.cursor < self.len() - 1 {
                self.cursor
            } else {
                self.len() - 1
            };
            let stepped = if clamped != 0 {
                clamped - 1
            } else {
                clamped
            };
            BufModel {
                cursor: word_left_target(self.chars, skip_whitespace_down(self.chars, stepped)),
                ..self
            }
        }
    }

    /// The word-right movement.
    pub open spec fn move_word_right(self) -> BufModel {
        BufModel { cursor: word_right_target(self.chars, self.cursor), ..self }
    }
}

/// The length of the run of alphabetic characters at the end of the line.
pub open spec fn trailing_alphabetic_len(chars: Seq<char>) -> int
    decreases chars.len(),
{
    if chars.len() == 0 {
        0
    } else if alphabetic_char(chars.last()) {
        1 + trailing_alphabetic_len(chars.drop_last())
    } else {
        0
    }
}

/// The editable line: characters, index-aligned styles and the cursor.
pub struct StyledBuffer {
    /// The line as a list of characters.
    buffer: Vec<char>,
    /// The style of each character on the line.
    styles: Vec<Style>,
    /// The current insertion point.
    cursor_position: usize,
}

impl View for StyledBuffer {
    type V = BufModel;

    closed spec fn view(&self) -> BufModel {
        BufModel {
            chars: self.buffer@,
            styles: self.styles.deep_view(),
            cursor: self.cursor_position as int,
        }
    }
}

impl Default for StyledBuffer {
    /// The empty buffer.
    fn default() -> (r: StyledBuffer)
        ensures
            r@ == BufModel::empty(),
            r@.wf(),
    {
        let r = StyledBuffer { buffer: Vec::new(), styles: Vec::new(), cursor_position: 0 };
        proof {
            assert(r@.chars =~= Seq::<char>::empty());
            assert(r@.styles =~= Seq::<StyleModel>::empty());
        }
        r
    }
}

impl StyledBuffer {
    /// The buffer invariants, stated on the abstract value.
    pub open spec fn wf(&self) -> bool {
        self@.wf()
    }

    /// Insert a character at the cursor with the blank style.
    pub fn insert_char(&mut self, ch: char)
        requires
            old(self).wf(),
        ensures
            final(self).wf(),
            final(self)@ == old(self)@.insert_char(ch),
    {
        self.insert_styled_char(ch, Style::default());
    }

    /// Insert a character at the cursor with the given style.
    pub fn insert_styled_char(&mut self, ch: char, style: Style)
        requires
            old(self).wf(),
        ensures
            final(self).wf(),
            final(self)@ == old(self)@.insert_styled_char(ch, style@),
    {
        let ghost st = style@;
        self.buffer.insert(self.cursor_position, ch);
        self.styles.insert(self.cursor_position, style);
        proof {
            assert(self.styles.deep_view() =~= old(
                self,
            ).styles.deep_view().insert(old(self).cursor_position as int, st));
        }
        self.move_char_right();
    }

    /// Move the cursor one character to the right; no-op at the end.
    pub fn move_char_right(&mut self)
        requires
            old(self).wf(),
        ensures
            final(self).wf(),
            final(self)@ == old(self)@.move_char_right(),
    {
        if self.cursor_position < self.buffer.len() {
            self.cursor_position = self.cursor_position + 1;
        }
    }

    /// Move the cursor one character to the left; no-op at the start.
    pub fn move_char_left(&mut self)
        requires
            old(self).wf(),
        ensures
            final(self).wf(),
            final(self)@ == old(self)@.move_char_left(),
    {
        if self.cursor_position > 0 {
            self.cursor_position = self.cursor_position - 1;
        }
    }

    /// Move the cursor to the start of the line.
    pub fn move_to_start(&mut self)
        requires
            old(self).wf(),
        ensures
            final(self).wf(),
            final(self)@ == old(self)@.move_to_start(),
    {
        self.cursor_position = 0;
    }

    /// Move the cursor one past the last character.
    pub fn move_to_end(&mut self)
        requires
            old(self).wf(),
        ensures
            final(self).wf(),
            final(self)@ == old(self)@.move_to_end(),
    {
        self.cursor_position = self.buffer.len();
    }

    /// Jump to an absolute offset; an offset beyond the end is rejected and
    /// the cursor stays where it was.
    pub fn set_position(&mut self, pos: usize)
        requires
            old(self).wf(),
        ensures
            final(self).wf(),
            final(self)@ == old(self)@.set_position(pos as int),
    {
        if pos <= self.buffer.len() {
            self.cursor_position = pos;
        }
    }

    /// Delete the character left of the cursor; no-op at offset 0.
    pub fn delete_left_char(&mut self)
        requires
            old(self).wf(),
        ensures
            final(self).wf(),
            final(self)@ == old(self)@.delete_left(),
    {
        if self.cursor_position > 0 {
            self.cursor_position = self.cursor_position - 1;
            self.buffer.remove(self.cursor_position);
            self.styles.remove(self.cursor_position);
            proof {
                assert(self.styles.deep_view() =~= old(
                    self,
                ).styles.deep_view().remove(self.cursor_position as int));
            }
        }
    }

    /// Delete the character at the cursor; no-op when the cursor is at or
    /// past the last character.
    pub fn delete_right_char(&mut self)
        requires
            old(self).wf(),
        ensures
            final(self).wf(),
            final(self)@ == old(self)@.delete_right(),
    {
        if self.buffer.len() > 0 && self.cursor_position < self.buffer.len() - 1 {
            self.buffer.remove(self.cursor_position);
            self.styles.remove(self.cursor_position);
            proof {
                assert(self.styles.deep_view() =~= old(
                    self,
                ).styles.deep_view().remove(self.cursor_position as int));
            }
        }
    }

    /// Delete the characters and styles of `[from, to)` and leave the cursor
    /// at `from`; an invalid range is rejected and nothing changes.
    pub fn delete_range(&mut self, from: usize, to: usize)
        requires
            old(self).wf(),
        ensures
            final(self).wf(),
            final(self)@ == old(self)@.delete_range(from as int, to as int),
    {
        if from <= to && to <= self.buffer.len() {
            let mut removed: usize = 0;
            while removed < to - from
                invariant
                    old(self).wf(),
                    from <= to <= old(self)@.len(),
                    removed <= to - from,
                    self.buffer@ == old(self)@.chars.take(from as int) + old(self)@.chars.skip(
                        from as int + removed as int,
                    ),
                    self.styles.deep_view() == old(self)@.styles.take(from as int) + old(
                        self,
                    )@.styles.skip(from as int + removed as int),
                    self.cursor_position == old(self).cursor_position,
                decreases to - from - removed,
            {
                proof {
                    assert(self.buffer@.len() == old(self)@.len() - removed);
                    assert(self.styles.deep_view().len() == self.styles@.len());
                    assert(self.styles@.len() == old(self)@.styles.len() - removed);
                }
                self.buffer.remove(from);
                self.styles.remove(from);
                proof {
                    let pre_chars = old(self)@.chars.take(from as int) + old(self)@.chars.skip(
                        from as int + removed as int,
                    );
                    let pre_styles = old(self)@.styles.take(from as int) + old(
                        self,
                    )@.styles.skip(from as int + removed as int);
                    assert(pre_chars.remove(from as int) =~= old(self)@.chars.take(from as int)
                        + old(self)@.chars.skip(from as int + removed as int + 1));
                    assert(pre_styles.remove(from as int) =~= old(self)@.styles.take(from as int)
                        + old(self)@.styles.skip(from as int + removed as int + 1));
                    assert(self.styles.deep_view() =~= pre_styles.remove(from as int));
                }
                removed = removed + 1;
            }
            self.cursor_position = from;
            proof {
                assert(self.buffer@ =~= old(self)@.chars.take(from as int) + old(
                    self,
                )@.chars.skip(to as int));
                assert(self.styles.deep_view() =~= old(self)@.styles.take(from as int) + old(
                    self,
                )@.styles.skip(to as int));
            }
        }
    }

    /// Empty the line and styles and reset the cursor to 0.
    pub fn clear(&mut self)
        ensures
            final(self).wf(),
            final(self)@ == BufModel::empty(),
    {
        self.buffer = Vec::new();
        self.styles = Vec::new();
        self.cursor_position = 0;
        proof {
            assert(self@.chars =~= Seq::<char>::empty());
            assert(self@.styles =~= Seq::<StyleModel>::empty());
        }
    }

    /// The cursor offset.
    pub fn position(&self) -> (r: usize)
        ensures
            r as int == self@.cursor,
    {
        self.cursor_position
    }

    /// Whether the cursor sits one past the last character.
    pub fn is_cursor_at_the_end(&self) -> (r: bool)
        ensures
            r == (self@.cursor == self@.len()),
    {
        self.cursor_position == self.buffer.len()
    }

    /// Number of characters on the line.
    pub fn len(&self) -> (r: usize)
        ensures
            r as int == self@.len(),
    {
        self.buffer.len()
    }

    /// Whether the line holds no characters.
    pub fn is_empty(&self) -> (r: bool)
        ensures
            r == (self@.len() == 0),
    {
        self.buffer.is_empty()
    }

    /// The line as a list of characters.
    pub fn buffer(&self) -> (r: &Vec<char>)
        ensures
            r@ == self@.chars,
    {
        &self.buffer
    }

    /// The character at `position`, or `None` when the offset is out of
    /// range.
    pub fn char_at(&self, position: usize) -> (r: Option<char>)
        ensures
            position < self@.len() ==> r == Some(self@.chars[position as int]),
            position >= self@.len() ==> r is None,
    {
        if position < self.buffer.len() {
            Some(self.buffer[position])
        } else {
            None
        }
    }
}

/// Appending one character to an iterated insertion is the same as one more
/// single insertion at the end.
proof fn lemma_insert_string_snoc(b: BufModel, s: Seq<char>, c: char)
    ensures
        b.insert_string(s.push(c)) == b.insert_string(s).insert_char(c),
    decreases s.len(),
{
    assert(b.insert_string(s.push(c)) == b.insert_char(s.push(c)[0]).insert_string(
        s.push(c).skip(1),
    ));
    if s.len() == 0 {
        assert(s.push(c)[0] == c);
        assert(s.push(c).skip(1) =~= Seq::<char>::empty());
        assert(b.insert_char(c).insert_string(s.push(c).skip(1)) == b.insert_char(c));
        assert(b.insert_string(s) == b);
    } else {
        assert(s.push(c)[0] == s[0]);
        assert(s.push(c).skip(1) =~= s.skip(1).push(c));
        lemma_insert_string_snoc(b.insert_char(s[0]), s.skip(1), c);
        assert(b.insert_string(s) == b.insert_char(s[0]).insert_string(s.skip(1)));
    }
}

/// The styled counterpart of [`lemma_insert_string_snoc`].
proof fn lemma_insert_styled_string_snoc(b: BufModel, s: Seq<char>, c: char, st: StyleModel)
    ensures
        b.insert_styled_string(s.push(c), st) == b.insert_styled_string(s, st).insert_styled_char(
            c,
            st,
        ),
    decreases s.len(),
{
    assert(b.insert_styled_string(s.push(c), st) == b.insert_styled_char(
        s.push(c)[0],
        st,
    ).insert_styled_string(s.push(c).skip(1), st));
    if s.len() == 0 {
        assert(s.push(c)[0] == c);
        assert(s.push(c).skip(1) =~= Seq::<char>::empty());
        assert(b.insert_styled_char(c, st).insert_styled_string(s.push(c).skip(1), st)
            == b.insert_styled_char(c, st));
        assert(b.insert_styled_string(s, st) == b);
    } else {
        assert(s.push(c)[0] == s[0]);
        assert(s.push(c).skip(1) =~= s.skip(1).push(c));
        lemma_insert_styled_string_snoc(b.insert_styled_char(s[0], st), s.skip(1), c, st);
        assert(b.insert_styled_string(s, st) == b.insert_styled_char(s[0], st).insert_styled_string(
            s.skip(1),
            st,
        ));
    }
}

/// The run of alphabetic characters at the end of `chars` has length
/// `chars.len() - j` exactly when everything from `j` on is alphabetic and
/// the character before `j`, if any, is not.
proof fn lemma_trailing_alphabetic(chars: Seq<char>, j: int)
    requires
        0 <= j <= chars.len(),
        forall|i: int| j <= i < chars.len() ==> alphabetic_char(chars[i]),
        j > 0 ==> !alphabetic_char(chars[j - 1]),
    ensures
        trailing_alphabetic_len(chars) == chars.len() - j,
    decreases chars.len(),
{
    if chars.len() == 0 {
    } else if j == chars.len() {
        assert(!alphabetic_char(chars.last()));
    } else {
        assert(alphabetic_char(chars.last()));
        assert(forall|i: int|
            j <= i < chars.drop_last().len() ==> chars.drop_last()[i] == chars[i]);
        lemma_trailing_alphabetic(chars.drop_last(), j);
    }
}

impl StyledBuffer {
    /// Insert every character of `text` at the cursor, front to back, with
    /// the blank style.
    pub fn insert_string(&mut self, text: &str)
        requires
            old(self).wf(),
        ensures
            final(self).wf(),
            final(self)@ == old(self)@.insert_string(text@),
    {
        let cs = str_chars(text);
        let mut i: usize = 0;
        while i < cs.len()
            invariant
                old(self).wf(),
                self.wf(),
                i <= cs.len(),
                cs@ == text@,
                self@ == old(self)@.insert_string(text@.take(i as int)),
            decreases cs.len() - i,
        {
            self.insert_char(cs[i]);
            proof {
                lemma_insert_string_snoc(old(self)@, text@.take(i as int), text@[i as int]);
                assert(text@.take(i as int).push(text@[i as int]) =~= text@.take(i as int + 1));
            }
            i += 1;
        }
        proof {
            assert(text@.take(text@.len() as int) =~= text@);
        }
    }

    /// Insert every character of `text` at the cursor, front to back, all
    /// with the given style.
    pub fn insert_styled_string(&mut self, text: &str, style: Style)
        requires
            old(self).wf(),
        ensures
            final(self).wf(),
            final(self)@ == old(self)@.insert_styled_string(text@, style@),
    {
        let cs = str_chars(text);
        let mut i: usize = 0;
        while i < cs.len()
            invariant
                old(self).wf(),
                self.wf(),
                i <= cs.len(),
                cs@ == text@,
                self@ == old(self)@.insert_styled_string(text@.take(i as int), style@),
            decreases cs.len() - i,
        {
            let st = style.clone();
            self.insert_styled_char(cs[i], st);
            proof {
                lemma_insert_styled_string_snoc(
                    old(self)@,
                    text@.take(i as int),
                    text@[i as int],
                    style@,
                );
                assert(text@.take(i as int).push(text@[i as int]) =~= text@.take(i as int + 1));
            }
            i += 1;
        }
        proof {
            assert(text@.take(text@.len() as int) =~= text@);
        }
    }

    /// A buffer holding `text` with blank styles and the cursor at the end.
    pub fn from_text(text: &str) -> (r: StyledBuffer)
        ensures
            r.wf(),
            r@ == BufModel::empty().insert_string(text@),
    {
        let mut r = StyledBuffer::default();
        r.insert_string(text);
        r
    }

    /// The line as an owned string, without styles.
    pub fn literal(&self) -> (r: String)
        ensures
            r@ == self@.chars,
    {
        chars_to_string(&self.buffer)
    }

    /// The text of `[start, end)`, or `None` unless `start < end <= len`.
    /// A degenerate range with `start == end` yields `None`, not the empty
    /// string.
    pub fn sub_string(&self, start: usize, end: usize) -> (r: Option<String>)
        ensures
            start < end && end <= self@.len() ==> (r matches Some(s) && s@ == self@.chars.subrange(
                start as int,
                end as int,
            )),
            !(start < end && end <= self@.len()) ==> r is None,
    {
        if start < end && end <= self.buffer.len() {
            let mut part: Vec<char> = Vec::new();
            let mut i = start;
            while i < end
                invariant
                    start <= i <= end <= self.buffer@.len(),
                    part@ == self@.chars.subrange(start as int, i as int),
                decreases end - i,
            {
                part.push(self.buffer[i]);
                proof {
                    assert(self@.chars.subrange(start as int, i as int).push(
                        self@.chars[i as int],
                    ) =~= self@.chars.subrange(start as int, i as int + 1));
                }
                i += 1;
            }
            Some(chars_to_string(&part))
        } else {
            None
        }
    }

    /// The maximal run of alphabetic characters at the end of the line, or
    /// `None` when the line is empty or its last character is not
    /// alphabetic.
    pub fn last_alphabetic_keyword(&self) -> (r: Option<String>)
        ensures
            trailing_alphabetic_len(self@.chars) == 0 ==> r is None,
            trailing_alphabetic_len(self@.chars) > 0 ==> (r matches Some(s) && s@
                == self@.chars.skip(self@.len() - trailing_alphabetic_len(self@.chars))),
    {
        let len = self.buffer.len();
        let mut j = len;
        while j > 0 && is_alphabetic_char(self.buffer[j - 1])
            invariant
                0 <= j <= len,
                len == self@.len(),
                forall|i: int| j <= i < len ==> alphabetic_char(self@.chars[i]),
            decreases j,
        {
            j -= 1;
        }
        proof {
            lemma_trailing_alphabetic(self@.chars, j as int);
        }
        if j == len {
            None
        } else {
            let mut part: Vec<char> = Vec::new();
            let mut i = j;
            while i < len
                invariant
                    j <= i <= len,
                    len == self@.len(),
                    part@ == self@.chars.subrange(j as int, i as int),
                decreases len - i,
            {
                part.push(self.buffer[i]);
                proof {
                    assert(self@.chars.subrange(j as int, i as int).push(self@.chars[i as int])
                        =~= self@.chars.subrange(j as int, i as int + 1));
                }
                i += 1;
            }
            proof {
                assert(self@.chars.subrange(j as int, len as int) =~= self@.chars.skip(j as int));
            }
            Some(chars_to_string(&part))
        }
    }

    /// Move the cursor to one past the next whitespace character, or to the
    /// end of the line when none follows.
    pub fn move_word_right(&mut self)
        requires
            old(self).wf(),
        ensures
            final(self).wf(),
            final(self)@ == old(self)@.move_word_right(),
    {
        let len = self.buffer.len();
        while self.cursor_position < len
            invariant
                old(self).wf(),
                self@.chars == old(self)@.chars,
                self@.styles == old(self)@.styles,
                len == self@.len(),
                old(self)@.cursor <= self@.cursor <= len,
                word_right_target(self@.chars, self@.cursor) == word_right_target(
                    old(self)@.chars,
                    old(self)@.cursor,
                ),
            decreases len - self.cursor_position,
        {
            if is_whitespace_char(self.buffer[self.cursor_position]) {
                self.cursor_position += 1;
                return ;
            }
            self.cursor_position += 1;
        }
    }

    /// Move the cursor to the start of the word at or before it: step one
    /// left, skip adjacent whitespace, then walk back over the word.
    pub fn move_word_left(&mut self)
        requires
            old(self).wf(),
        ensures
            final(self).wf(),
            final(self)@ == old(self)@.move_word_left(),
    {
        let len = self.buffer.len();
        if len == 0 {
            return ;
        }
        if self.cursor_position > len - 1 {
            self.cursor_position = len - 1;
        }
        if self.cursor_position != 0 {
            self.cursor_position -= 1;
        }
        let ghost stepped = self.cursor_position as int;
        proof {
            let clamped_spec = if old(self)@.cursor < old(self)@.len() - 1 {
                old(self)@.cursor
            } else {
                old(self)@.len() - 1
            };
            let stepped_spec = if clamped_spec != 0 {
                clamped_spec - 1
            } else {
                clamped_spec
            };
            assert(stepped == stepped_spec);
            assert(old(self)@.move_word_left().cursor == word_left_target(
                old(self)@.chars,
                skip_whitespace_down(old(self)@.chars, stepped_spec),
            ));
        }
        while self.cursor_position != 0 && is_whitespace_char(self.buffer[self.cursor_position])
            invariant
                old(self).wf(),
                self@.chars == old(self)@.chars,
                self@.styles == old(self)@.styles,
                len == self@.len(),
                0 <= self@.cursor <= stepped < len,
                skip_whitespace_down(self@.chars, self@.cursor) == skip_whitespace_down(
                    self@.chars,
                    stepped,
                ),
            decreases self.cursor_position,
        {
            self.cursor_position -= 1;
        }
        let ghost settled = self.cursor_position as int;
        proof {
            assert(settled == skip_whitespace_down(self@.chars, stepped));
        }
        while self.cursor_position != 0
            invariant
                old(self).wf(),
                self@.chars == old(self)@.chars,
                self@.styles == old(self)@.styles,
                len == self@.len(),
                0 <= self@.cursor <= settled < len,
                word_left_target(self@.chars, self@.cursor) == word_left_target(
                    self@.chars,
                    settled,
                ),
                old(self)@.move_word_left() == (BufModel {
                    cursor: word_left_target(old(self)@.chars, settled),
                    ..old(self)@
                }),
            decreases self.cursor_position,
        {
            if is_whitespace_char(self.buffer[self.cursor_position]) {
                let ghost at = self.cursor_position as int;
                proof {
                    assert(word_left_target(self@.chars, at) == if at + 1 < len as int {
                        at + 1
                    } else {
                        at
                    });
                }
                if self.cursor_position + 1 < len {
                    self.cursor_position += 1;
                }
                proof {
                    assert(self@.cursor == word_left_target(self@.chars, settled));
                }
                return ;
            }
            self.cursor_position -= 1;
        }
        proof {
            assert(old(self)@.move_word_left().cursor == word_left_target(
                old(self)@.chars,
                skip_whitespace_down(old(self)@.chars, stepped),
            ));
        }
    }
}

impl BufModel {
    /// One character's style replaced; an offset out of range is rejected.
    pub open spec fn style_char(self, pos: int, st: StyleModel) -> BufModel {
        if 0 <= pos < self.styles.len() {
            BufModel { styles: self.styles.update(pos, st), ..self }
        } else {
            self
        }
    }

    /// The styles of `[start, end)` replaced by `st`, the upper bound
    /// clamped to the style sequence.
    pub open spec fn style_range(self, start: int, end: int, st: StyleModel) -> BufModel {
        BufModel {
            styles: Seq::new(
                self.styles.len(),
                |i: int|
                    if start <= i && i < end {
                        st
                    } else {
                        self.styles[i]
                    },
            ),
            ..self
        }
    }

    /// Every style replaced by `st`.
    pub open spec fn style_all(self, st: StyleModel) -> BufModel {
        BufModel { styles: Seq::new(self.styles.len(), |i: int| st), ..self }
    }

    /// Every style replaced by the blank style.
    pub open spec fn reset_styles(self) -> BufModel {
        self.style_all(StyleModel::empty())
    }
}

impl StyledBuffer {
    /// The style of each character on the line.
    pub fn styles(&self) -> (r: &Vec<Style>)
        ensures
            r.deep_view() == self@.styles,
    {
        &self.styles
    }

    /// Replace the whole style list, draining the given vector; a list whose
    /// length does not match the line is rejected and both sides stay as
    /// they were.
    pub fn set_styles(&mut self, styles: &mut Vec<Style>)
        requires
            old(self).wf(),
        ensures
            final(self).wf(),
            old(styles)@.len() == old(self)@.len() ==> final(self)@ == (BufModel {
                styles: old(styles).deep_view(),
                ..old(self)@
            }) && final(styles)@.len() == 0,
            old(styles)@.len() != old(self)@.len() ==> final(self)@ == old(self)@ && *final(styles)
                == *old(styles),
    {
        if self.buffer.len() == styles.len() {
            self.styles.clear();
            self.styles.append(styles);
            proof {
                assert(self.styles.deep_view() =~= old(styles).deep_view());
            }
        }
    }

    /// Set the style of the character at `position`; an offset out of range
    /// is rejected.
    pub fn style_char(&mut self, position: usize, style: Style)
        requires
            old(self).wf(),
        ensures
            final(self).wf(),
            final(self)@ == old(self)@.style_char(position as int, style@),
    {
        if position < self.styles.len() {
            let ghost st = style@;
            self.styles.set(position, style);
            proof {
                assert(self.styles.deep_view() =~= old(
                    self,
                ).styles.deep_view().update(position as int, st));
            }
        }
    }

    /// Set one style for the characters of `[start, end)`, clamping the
    /// upper bound to the style list.
    pub fn style_range(&mut self, start: usize, end: usize, style: Style)
        requires
            old(self).wf(),
        ensures
            final(self).wf(),
            final(self)@ == old(self)@.style_range(start as int, end as int, style@),
    {
        let max = if end < self.styles.len() {
            end
        } else {
            self.styles.len()
        };
        let mut i = start;
        proof {
            assert(self.styles.deep_view() =~= old(self)@.style_range(
                start as int,
                start as int,
                style@,
            ).styles);
        }
        while i < max
            invariant
                old(self).wf(),
                start <= i,
                i <= max || i == start,
                max <= self.styles@.len(),
                max == if end < old(self)@.styles.len() {
                    end as int
                } else {
                    old(self)@.styles.len() as int
                },
                self@.chars == old(self)@.chars,
                self@.cursor == old(self)@.cursor,
                self@.styles == old(self)@.style_range(start as int, i as int, style@).styles,
            decreases max - i,
        {
            let ghost prev_styles = self.styles.deep_view();
            let st = style.clone();
            self.styles.set(i, st);
            proof {
                assert(self.styles.deep_view() =~= prev_styles.update(i as int, style@));
                assert(prev_styles.update(i as int, style@) =~= old(self)@.style_range(
                    start as int,
                    i as int + 1,
                    style@,
                ).styles);
            }
            i += 1;
        }
        proof {
            assert(self.styles.deep_view() =~= old(self)@.style_range(
                start as int,
                end as int,
                style@,
            ).styles);
        }
    }

    /// Set one style for every character.
    pub fn style_all(&mut self, style: Style)
        requires
            old(self).wf(),
        ensures
            final(self).wf(),
            final(self)@ == old(self)@.style_all(style@),
    {
        let len = self.buffer.len();
        self.style_range(0, len, style);
        proof {
            assert(self@.styles =~= old(self)@.style_all(style@).styles);
        }
    }

    /// Replace every style with the blank one; the per-render pipeline does
    /// this before the highlighters re-derive styling.
    pub fn reset_styles(&mut self)
        requires
            old(self).wf(),
        ensures
            final(self).wf(),
            final(self)@ == old(self)@.reset_styles(),
    {
        let len = self.buffer.len();
        self.style_range(0, len, Style::default());
        proof {
            assert(self@.styles =~= old(self)@.reset_styles().styles);
        }
    }
}

/// Resetting the styles erases every trace of earlier styling: whatever
/// styles two buffers over the same line carried before, after
/// `reset_styles` their style sequences are identical (all blank).  A
/// deterministic restyling pass run after each reset therefore starts from
/// the same ground both times.
pub proof fn lemma_reset_styles_erases_history(b1: BufModel, b2: BufModel)
    requires
        b1.wf(),
        b2.wf(),
        b1.chars == b2.chars,
    ensures
        b1.reset_styles().styles == b2.reset_styles().styles,
{
    assert(b1.reset_styles().styles =~= b2.reset_styles().styles);
}

/// Inserting a character at the cursor and then deleting leftward restores
/// the original line, styles and cursor exactly.
pub proof fn lemma_insert_then_delete_left(b: BufModel, ch: char)
    requires
        b.wf(),
    ensures
        b.insert_char(ch).delete_left() == b,
{
    let ins = b.insert_char(ch);
    assert(ins.chars.remove(b.cursor) =~= b.chars);
    assert(ins.styles.remove(b.cursor) =~= b.styles);
}

} // verus!
