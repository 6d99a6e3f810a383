//! The line-editor engine: the dispatcher that owns the editor, the
//! keybinding table, the strategy lists and the selection state, and runs
//! the per-keystroke pipeline.
//!
//! The host application owns the terminal: it reads raw key events, hands
//! each to [`LineEditor::process_key`] together with its clipboard, and
//! repaints from the buffer afterwards.  Everything the engine decides —
//! classification, dispatch, auto-pairing, style reset, highlighting,
//! selection overlay — happens here, and the whole event step is the
//! mathematical function [`event_transition`] of the prior state, the event
//! and the clipboard.

use vstd::prelude::*;

use crate::autopair::AutoPair;
use crate::editor::apply_edits;
use crate::editor::apply_movements;
use crate::editor::lemma_apply_edits_snoc;
use crate::editor::lemma_apply_movements_snoc;
use crate::editor::Editor;
use crate::event::EditCommand;
use crate::event::EditOp;
use crate::event::EventModel;
use crate::event::LineEditorEvent;
use crate::event::MovementCommand;
use crate::highlighter::Highlighter;
use crate::hinter::Hinter;
use crate::input_filter::filter_accepts;
use crate::input_filter::filter_input;
use crate::input_filter::InputFilter;
use crate::keybindings::KeyCode;
use crate::keybindings::KeyCombination;
use crate::keybindings::KeyModifierSet;
use crate::keybindings::KeyPressKind;
use crate::keybindings::Keybindings;
use crate::style::Style;
use crate::style::StyleModel;
use crate::styled_buffer::BufModel;
use crate::styled_buffer::StyledBuffer;

verus! {

/// What `read_line` hands back to the host.
#[derive(Debug, PartialEq, Eq)]
pub enum LineEditorResult {
    /// Entry succeeded with the given content.
    Success(String),
    /// The current editing was interrupted.
    Interrupted,
    /// The terminal session ended.
    EndTerminalSession,
}

/// A cursor shape the host may apply to its terminal.
#[derive(Clone, Copy, PartialEq, Eq, Structural, Debug)]
pub enum CursorStyle {
    DefaultUserShape,
    BlinkingBlock,
    SteadyBlock,
    BlinkingUnderScore,
    SteadyUnderScore,
    BlinkingBar,
    SteadyBar,
}

/// How one event was handled.
#[derive(Debug, PartialEq, Eq)]
pub enum EventStatus {
    /// A general event was handled.
    GeneralHandled,
    /// An edit event was handled.
    EditHandled,
    /// A movement event was handled.
    MovementHandled,
    /// A selection event was handled.
    SelectionHandled,
    /// The event does not apply in the current state.
    Inapplicable,
    /// The session exits with this result.
    Exits(LineEditorResult),
}

/// What one keystroke did.
#[derive(Debug, PartialEq, Eq)]
pub enum KeyProcessStatus {
    /// The key was unbound and produced nothing; no repaint is needed.
    Ignored,
    /// The key was processed and the line should be repainted.
    Processed,
    /// The session is over with this result.
    Finished(LineEditorResult),
}

/// The engine state an event acts on: the buffer and the selection
/// endpoints.
pub struct EditState {
    pub buf: BufModel,
    pub sel_start: int,
    pub sel_end: int,
}

/// The engine configuration a keystroke's outcome reads: the input filter,
/// the binding map, whether auto-pairing is on, how many highlighters and
/// hinters are registered, and the two configured styles.
pub struct ConfigModel {
    pub filter: InputFilter,
    pub bindings: Map<KeyCombination, EventModel>,
    pub auto_pairing: bool,
    pub highlighters: int,
    pub hinters: int,
    pub selection_style: Option<StyleModel>,
    pub cursor_style: Option<CursorStyle>,
}

impl EditState {
    /// The state with the selection collapsed onto the cursor.
    pub open spec fn collapse_selection(self) -> EditState {
        EditState { sel_start: self.buf.cursor, sel_end: self.buf.cursor, ..self }
    }
}

/// The selected range deleted, whichever way round its endpoints were
/// given: the range is normalized to `(min, max)` at the point of use.
pub open spec fn selection_deleted(b: BufModel, start: int, end: int) -> BufModel {
    let lo = if start <= end {
        start
    } else {
        end
    };
    let hi = if start <= end {
        end
    } else {
        start
    };
    b.delete_range(lo, hi)
}

/// Deleting the selection does not depend on the order of its endpoints.
pub proof fn lemma_selection_normalization(b: BufModel, start: int, end: int)
    ensures
        selection_deleted(b, start, end) == selection_deleted(b, end, start),
{
}

/// The selected text, endpoints normalized.
pub open spec fn selection_text(b: BufModel, start: int, end: int) -> Seq<char> {
    let lo = if start <= end {
        start
    } else {
        end
    };
    let hi = if start <= end {
        end
    } else {
        start
    };
    b.chars.subrange(lo, hi)
}

/// The abstract outcome of one event.
pub enum StatusModel {
    GeneralHandled,
    EditHandled,
    MovementHandled,
    SelectionHandled,
    Inapplicable,
    /// The line was submitted with this text.
    Submitted(Seq<char>),
}

/// Whether an exec status realizes an abstract one.
pub open spec fn status_matches(r: EventStatus, st: StatusModel) -> bool {
    match st {
        StatusModel::GeneralHandled => r == EventStatus::GeneralHandled,
        StatusModel::EditHandled => r == EventStatus::EditHandled,
        StatusModel::MovementHandled => r == EventStatus::MovementHandled,
        StatusModel::SelectionHandled => r == EventStatus::SelectionHandled,
        StatusModel::Inapplicable => r == EventStatus::Inapplicable,
        StatusModel::Submitted(s) => r matches EventStatus::Exits(res) && (res matches
            LineEditorResult::Success(txt) && txt@ == s),
    }
}

/// What one event does: the next state, the clipboard after the event, and
/// the outcome.  The clipboard is the host's; pasting reads it, cut and
/// copy write it, everything else leaves it alone.
pub open spec fn event_transition(st: EditState, em: EventModel, clip: Option<Seq<char>>) -> (
    EditState,
    Option<Seq<char>>,
    StatusModel,
) {
    match em {
        EventModel::Edit(ops) => {
            let b2 = apply_edits(st.buf, ops);
            (
                (EditState { buf: b2, sel_start: b2.cursor, sel_end: b2.cursor }),
                clip,
                StatusModel::EditHandled,
            )
        },
        EventModel::Movement(ops) => {
            let b2 = apply_movements(st.buf, ops);
            (
                (EditState { buf: b2, sel_start: b2.cursor, sel_end: b2.cursor }),
                clip,
                StatusModel::MovementHandled,
            )
        },
        EventModel::Enter => (
            st.collapse_selection(),
            clip,
            StatusModel::Submitted(st.buf.chars),
        ),
        EventModel::Left => {
            let b2 = st.buf.move_char_left();
            (
                (EditState { buf: b2, sel_start: b2.cursor, sel_end: b2.cursor }),
                clip,
                StatusModel::MovementHandled,
            )
        },
        EventModel::Right => {
            let b2 = st.buf.move_char_right();
            (
                (EditState { buf: b2, sel_start: b2.cursor, sel_end: b2.cursor }),
                clip,
                StatusModel::MovementHandled,
            )
        },
        EventModel::Delete => {
            if st.sel_start != st.sel_end {
                let b2 = selection_deleted(st.buf, st.sel_start, st.sel_end);
                (
                    (EditState { buf: b2, sel_start: b2.cursor, sel_end: b2.cursor }),
                    clip,
                    StatusModel::EditHandled,
                )
            } else {
                let b2 = st.buf.delete_right();
                (
                    (EditState { buf: b2, sel_start: b2.cursor, sel_end: b2.cursor }),
                    clip,
                    StatusModel::EditHandled,
                )
            }
        },
        EventModel::Backspace => {
            if st.sel_start != st.sel_end {
                let b2 = selection_deleted(st.buf, st.sel_start, st.sel_end);
                (
                    (EditState { buf: b2, sel_start: b2.cursor, sel_end: b2.cursor }),
                    clip,
                    StatusModel::EditHandled,
                )
            } else {
                let b2 = st.buf.delete_left();
                (
                    (EditState { buf: b2, sel_start: b2.cursor, sel_end: b2.cursor }),
                    clip,
                    StatusModel::EditHandled,
                )
            }
        },
        EventModel::SelectLeft => {
            if st.sel_end == 0 {
                (st, clip, StatusModel::Inapplicable)
            } else {
                (
                    (EditState { sel_end: st.sel_end - 1, ..st }),
                    clip,
                    StatusModel::SelectionHandled,
                )
            }
        },
        EventModel::SelectRight => {
            if st.sel_end >= st.buf.len() {
                (st, clip, StatusModel::Inapplicable)
            } else {
                (
                    (EditState { sel_end: st.sel_end + 1, ..st }),
                    clip,
                    StatusModel::SelectionHandled,
                )
            }
        },
        EventModel::SelectAll => (
            (EditState { sel_start: 0, sel_end: st.buf.len(), ..st }),
            clip,
            StatusModel::SelectionHandled,
        ),
        EventModel::CutSelected => {
            if st.sel_start != st.sel_end {
                let b2 = selection_deleted(st.buf, st.sel_start, st.sel_end);
                (
                    (EditState { buf: b2, sel_start: b2.cursor, sel_end: b2.cursor }),
                    Some(selection_text(st.buf, st.sel_start, st.sel_end)),
                    StatusModel::GeneralHandled,
                )
            } else {
                (st, clip, StatusModel::Inapplicable)
            }
        },
        EventModel::CopySelected => {
            if st.sel_start != st.sel_end {
                (
                    st,
                    Some(selection_text(st.buf, st.sel_start, st.sel_end)),
                    StatusModel::GeneralHandled,
                )
            } else {
                (st, clip, StatusModel::Inapplicable)
            }
        },
        EventModel::Paste => {
            match clip {
                Some(s) => {
                    let b1 = if st.sel_start != st.sel_end {
                        selection_deleted(st.buf, st.sel_start, st.sel_end)
                    } else {
                        st.buf
                    };
                    let b2 = b1.insert_string(s);
                    (
                        (EditState { buf: b2, sel_start: b2.cursor, sel_end: b2.cursor }),
                        clip,
                        StatusModel::GeneralHandled,
                    )
                },
                None => (st, clip, StatusModel::Inapplicable),
            }
        },
        _ => (st, clip, StatusModel::Inapplicable),
    }
}

/// How a raw keystroke is classified before dispatch.
pub enum KeyClass {
    /// A plain printable character the input filter accepted.
    Insert(char),
    /// A plain printable character the input filter rejected.
    Rejected,
    /// A key bound in the keybinding table.
    Bound(EventModel),
    /// A key with no binding; it produces nothing.
    Unbound,
}

/// Classify a key: a printable character with no modifier (or shift alone)
/// on press goes through the input filter; any other key is looked up in
/// the binding table.
pub open spec fn classify_key(
    filter: InputFilter,
    bindings: Map<KeyCombination, EventModel>,
    key: KeyCombination,
) -> KeyClass {
    match key.key_code {
        KeyCode::Char(ch) => {
            if (key.modifier == (KeyModifierSet { shift: false, control: false, alt: false })
                || key.modifier == (KeyModifierSet { shift: true, control: false, alt: false }))
                && key.key_kind == KeyPressKind::Press {
                if filter_accepts(ch, filter) {
                    KeyClass::Insert(ch)
                } else {
                    KeyClass::Rejected
                }
            } else if bindings.contains_key(key) {
                KeyClass::Bound(bindings[key])
            } else {
                KeyClass::Unbound
            }
        },
        _ => {
            if bindings.contains_key(key) {
                KeyClass::Bound(bindings[key])
            } else {
                KeyClass::Unbound
            }
        },
    }
}

/// The styles after the render stages: every style reset to blank, then the
/// visual-selection style, when one is configured and the selection is
/// non-empty, laid over the normalized selection.
pub open spec fn pipeline_styles(st: EditState, sel_style: Option<StyleModel>) -> BufModel {
    let b2 = st.buf.reset_styles();
    if st.sel_start != st.sel_end && sel_style is Some {
        let lo = if st.sel_start <= st.sel_end {
            st.sel_start
        } else {
            st.sel_end
        };
        let hi = if st.sel_start <= st.sel_end {
            st.sel_end
        } else {
            st.sel_start
        };
        b2.style_range(lo, hi, sel_style.unwrap())
    } else {
        b2
    }
}

/// The line-editor engine.
pub struct LineEditor<H: Highlighter, N: Hinter, A: AutoPair> {
    editor: Editor,
    input_filter: InputFilter,
    keybindings: Keybindings,
    auto_pair: Option<A>,
    highlighters: Vec<H>,
    hinters: Vec<N>,
    cursor_style: Option<CursorStyle>,
    selection_style: Option<Style>,
    selected_start: usize,
    selected_end: usize,
}

impl<H: Highlighter, N: Hinter, A: AutoPair> LineEditor<H, N, A> {
    /// The buffer's abstract value.
    pub closed spec fn buf(&self) -> BufModel {
        self.editor@
    }

    /// The selection start offset.
    pub closed spec fn sel_start(&self) -> int {
        self.selected_start as int
    }

    /// The selection end offset.
    pub closed spec fn sel_end(&self) -> int {
        self.selected_end as int
    }

    /// The buffer and selection together.
    pub open spec fn state(&self) -> EditState {
        EditState { buf: self.buf(), sel_start: self.sel_start(), sel_end: self.sel_end() }
    }

    /// The keybinding table's abstract map.
    pub closed spec fn bindings_map(&self) -> Map<KeyCombination, EventModel> {
        self.keybindings@
    }

    /// The active input filter.
    pub closed spec fn filter_model(&self) -> InputFilter {
        self.input_filter
    }

    /// The visual-selection style, if one is configured.
    pub closed spec fn selection_style_model(&self) -> Option<StyleModel> {
        self.selection_style.deep_view()
    }

    /// The configured cursor style.
    pub closed spec fn cursor_style_model(&self) -> Option<CursorStyle> {
        self.cursor_style
    }

    /// Whether an auto-pair strategy is configured.
    pub closed spec fn has_auto_pair(&self) -> bool {
        self.auto_pair is Some
    }

    /// Number of registered highlighters.
    pub closed spec fn highlighter_count(&self) -> int {
        self.highlighters@.len() as int
    }

    /// Number of registered hinters.
    pub closed spec fn hinter_count(&self) -> int {
        self.hinters@.len() as int
    }

    /// Engine invariants: the buffer's, the binding table's, and the
    /// selection bounds.
    pub closed spec fn wf(&self) -> bool {
        &&& self.editor@.wf()
        &&& self.keybindings.wf()
        &&& self.selected_start <= self.editor@.len()
        &&& self.selected_end <= self.editor@.len()
    }

    /// Whether two engines share all configuration: filter, bindings,
    /// strategies and styles.
    pub closed spec fn same_config(a: Self, b: Self) -> bool {
        &&& b.input_filter == a.input_filter
        &&& b.keybindings == a.keybindings
        &&& b.auto_pair == a.auto_pair
        &&& b.highlighters == a.highlighters
        &&& b.hinters == a.hinters
        &&& b.cursor_style == a.cursor_style
        &&& b.selection_style == a.selection_style
    }

    /// Everything of the configuration that a keystroke's outcome reads,
    /// gathered so that setters and accessors can say which part they
    /// touch and that the rest survives.
    pub open spec fn config(&self) -> ConfigModel {
        ConfigModel {
            filter: self.filter_model(),
            bindings: self.bindings_map(),
            auto_pairing: self.has_auto_pair(),
            highlighters: self.highlighter_count(),
            hinters: self.hinter_count(),
            selection_style: self.selection_style_model(),
            cursor_style: self.cursor_style_model(),
        }
    }

    /// A fresh engine: empty buffer, no bindings, the unrestricted text
    /// filter, no strategies, no styles, collapsed selection.
    pub fn new() -> (r: Self)
        ensures
            r.wf(),
            r.buf() == BufModel::empty(),
            r.sel_start() == 0,
            r.sel_end() == 0,
            r.bindings_map() == Map::<KeyCombination, EventModel>::empty(),
            r.filter_model() == InputFilter::Text,
            !r.has_auto_pair(),
            r.highlighter_count() == 0,
            r.hinter_count() == 0,
            r.selection_style_model() is None,
            r.cursor_style_model() is None,
    {
        LineEditor {
            editor: Editor::default(),
            input_filter: InputFilter::Text,
            keybindings: Keybindings::default(),
            auto_pair: None,
            highlighters: Vec::new(),
            hinters: Vec::new(),
            cursor_style: None,
            selection_style: None,
            selected_start: 0,
            selected_end: 0,
        }
    }

    /// Set the style for the visual selection, or `None` to clear it.
    pub fn set_visual_selection_style(&mut self, style: Option<Style>)
        requires
            old(self).wf(),
        ensures
            final(self).wf(),
            final(self).state() == old(self).state(),
            final(self).config() == (ConfigModel {
                selection_style: style.deep_view(),
                ..old(self).config()
            }),
    {
        self.selection_style = style;
    }

    /// Mutable access to the editor.  Buffer changes made through the
    /// borrow carry over; selection and configuration survive, and the
    /// engine invariant holds again as long as the buffer stays well
    /// formed and long enough for the selection.
    pub fn editor(&mut self) -> (r: &mut Editor)
        ensures
            (*r)@ == old(self).buf(),
            old(self).wf() ==> (*r)@.wf(),
            final(self).buf() == (*final(r))@,
            final(self).sel_start() == old(self).sel_start(),
            final(self).sel_end() == old(self).sel_end(),
            final(self).config() == old(self).config(),
            old(self).wf() && (*final(r))@.wf() && old(self).sel_start() <= (*final(r))@.len()
                && old(self).sel_end() <= (*final(r))@.len() ==> final(self).wf(),
    {
        &mut self.editor
    }

    /// Read access to the editor.
    pub fn editor_ref(&self) -> (r: &Editor)
        ensures
            r@ == self.buf(),
            self.wf() ==> r@.wf(),
    {
        &self.editor
    }

    /// Mutable access to the keybinding table.  Bindings registered
    /// through the borrow carry over; buffer, selection and the rest of
    /// the configuration survive, and the engine invariant holds again as
    /// long as the table's does.
    pub fn keybinding(&mut self) -> (r: &mut Keybindings)
        ensures
            *r == old(self).keybindings_field(),
            old(self).wf() ==> (*r).wf(),
            final(self).keybindings_field() == *final(r),
            final(self).state() == old(self).state(),
            final(self).config() == (ConfigModel {
                bindings: (*final(r))@,
                ..old(self).config()
            }),
            old(self).wf() && final(r).wf() ==> final(self).wf(),
    {
        &mut self.keybindings
    }

    /// The keybinding table as a value, for contracts over the borrow
    /// returned by [`Self::keybinding`].
    pub closed spec fn keybindings_field(&self) -> Keybindings {
        self.keybindings
    }

    /// Set the input filter.
    pub fn set_input_filter(&mut self, input_filter: InputFilter)
        requires
            old(self).wf(),
        ensures
            final(self).wf(),
            final(self).state() == old(self).state(),
            final(self).config() == (ConfigModel { filter: input_filter, ..old(self).config() }),
    {
        self.input_filter = input_filter;
    }

    /// Set the auto-pair strategy, or clear it with `None`.
    pub fn set_auto_pair(&mut self, auto_pair: Option<A>)
        requires
            old(self).wf(),
        ensures
            final(self).wf(),
            final(self).state() == old(self).state(),
            final(self).config() == (ConfigModel {
                auto_pairing: auto_pair is Some,
                ..old(self).config()
            }),
    {
        self.auto_pair = auto_pair;
    }

    /// The cursor style the host should apply, if one is configured.
    pub fn cursor_style(&self) -> (r: Option<CursorStyle>)
        ensures
            r == self.cursor_style_model(),
    {
        self.cursor_style
    }

    /// Set the cursor style the host should apply, or `None` to reset.
    pub fn set_cursor_style(&mut self, style: Option<CursorStyle>)
        requires
            old(self).wf(),
        ensures
            final(self).wf(),
            final(self).state() == old(self).state(),
            final(self).config() == (ConfigModel { cursor_style: style, ..old(self).config() }),
    {
        self.cursor_style = style;
    }

    /// The registered highlighters, in registration order.  Changes made
    /// through the borrow carry over into the highlighter count; state and
    /// the rest of the configuration survive.
    pub fn highlighters(&mut self) -> (r: &mut Vec<H>)
        ensures
            (*r)@.len() as int == old(self).highlighter_count(),
            final(self).state() == old(self).state(),
            final(self).config() == (ConfigModel {
                highlighters: final(r)@.len() as int,
                ..old(self).config()
            }),
            old(self).wf() ==> final(self).wf(),
    {
        &mut self.highlighters
    }

    /// Append a highlighter.
    pub fn add_highlighter(&mut self, highlighter: H)
        requires
            old(self).wf(),
        ensures
            final(self).wf(),
            final(self).state() == old(self).state(),
            final(self).config() == (ConfigModel {
                highlighters: old(self).highlighter_count() + 1,
                ..old(self).config()
            }),
    {
        self.highlighters.push(highlighter);
    }

    /// Remove every highlighter.
    pub fn clear_highlighters(&mut self)
        requires
            old(self).wf(),
        ensures
            final(self).wf(),
            final(self).state() == old(self).state(),
            final(self).config() == (ConfigModel { highlighters: 0, ..old(self).config() }),
    {
        self.highlighters.clear();
    }

    /// The registered hinters, in registration order.  Changes made
    /// through the borrow carry over into the hinter count; state and the
    /// rest of the configuration survive.
    pub fn hinters(&mut self) -> (r: &mut Vec<N>)
        ensures
            (*r)@.len() as int == old(self).hinter_count(),
            final(self).state() == old(self).state(),
            final(self).config() == (ConfigModel {
                hinters: final(r)@.len() as int,
                ..old(self).config()
            }),
            old(self).wf() ==> final(self).wf(),
    {
        &mut self.hinters
    }

    /// Append a hinter.
    pub fn add_hinter(&mut self, hinter: N)
        requires
            old(self).wf(),
        ensures
            final(self).wf(),
            final(self).state() == old(self).state(),
            final(self).config() == (ConfigModel {
                hinters: old(self).hinter_count() + 1,
                ..old(self).config()
            }),
    {
        self.hinters.push(hinter);
    }

    /// Remove every hinter.
    pub fn clear_hinters(&mut self)
        requires
            old(self).wf(),
        ensures
            final(self).wf(),
            final(self).state() == old(self).state(),
            final(self).config() == (ConfigModel { hinters: 0, ..old(self).config() }),
    {
        self.hinters.clear();
    }

    /// The current selection endpoints, unnormalized.
    pub fn selection_range(&self) -> (r: (usize, usize))
        ensures
            r.0 as int == self.sel_start(),
            r.1 as int == self.sel_end(),
    {
        (self.selected_start, self.selected_end)
    }

    /// Collapse the selection onto the cursor.
    fn reset_selection_range(&mut self)
        requires
            old(self).buf().wf(),
            old(self).keybindings_field().wf(),
        ensures
            final(self).wf(),
            Self::same_config(*old(self), *final(self)),
            final(self).buf() == old(self).buf(),
            final(self).sel_start() == final(self).buf().cursor,
            final(self).sel_end() == final(self).buf().cursor,
    {
        let position = self.editor.styled_buffer().position();
        self.selected_start = position;
        self.selected_end = position;
    }

    /// Delete the currently selected range, normalized; collapse the
    /// selection at its start.  No-op without a selection.
    fn delete_selected_text(&mut self)
        requires
            old(self).wf(),
        ensures
            final(self).wf(),
            Self::same_config(*old(self), *final(self)),
            old(self).sel_start() != old(self).sel_end() ==> final(self).buf()
                == selection_deleted(old(self).buf(), old(self).sel_start(), old(self).sel_end())
                && final(self).sel_start() == final(self).buf().cursor && final(self).sel_end()
                == final(self).buf().cursor,
            old(self).sel_start() == old(self).sel_end() ==> final(self).state() == old(
                self,
            ).state(),
    {
        if self.selected_start == self.selected_end {
            return ;
        }
        let from = if self.selected_start <= self.selected_end {
            self.selected_start
        } else {
            self.selected_end
        };
        let to = if self.selected_start <= self.selected_end {
            self.selected_end
        } else {
            self.selected_start
        };
        self.editor.styled_buffer().delete_range(from, to);
        self.reset_selection_range();
    }

    /// Lay the configured visual-selection style over the normalized
    /// selection; styles change, characters, cursor and selection do not.
    fn apply_visual_selection(&mut self)
        requires
            old(self).wf(),
        ensures
            final(self).wf(),
            Self::same_config(*old(self), *final(self)),
            final(self).sel_start() == old(self).sel_start(),
            final(self).sel_end() == old(self).sel_end(),
            old(self).sel_start() != old(self).sel_end() && old(self).selection_style_model()
                is Some ==> final(self).buf() == ({
                let lo = if old(self).sel_start() <= old(self).sel_end() {
                    old(self).sel_start()
                } else {
                    old(self).sel_end()
                };
                let hi = if old(self).sel_start() <= old(self).sel_end() {
                    old(self).sel_end()
                } else {
                    old(self).sel_start()
                };
                old(self).buf().style_range(lo, hi, old(self).selection_style_model().unwrap())
            }),
            !(old(self).sel_start() != old(self).sel_end() && old(self).selection_style_model()
                is Some) ==> final(self).buf() == old(self).buf(),
    {
        if self.selected_start == self.selected_end {
            return ;
        }
        let from = if self.selected_start <= self.selected_end {
            self.selected_start
        } else {
            self.selected_end
        };
        let to = if self.selected_start <= self.selected_end {
            self.selected_end
        } else {
            self.selected_start
        };
        match &self.selection_style {
            Some(style) => {
                let st = style.clone();
                self.editor.styled_buffer().style_range(from, to, st);
            },
            None => {},
        }
    }

    /// Apply one line-editor event and report how it was handled.  The
    /// clipboard is the host's: pasting reads it, cut and copy write it.
    /// The new state, the clipboard and the outcome are exactly
    /// [`event_transition`] of the old ones.
    #[verifier::loop_isolation(false)]
    pub fn handle_editor_event(
        &mut self,
        event: &LineEditorEvent,
        clipboard: &mut Option<String>,
    ) -> (r: EventStatus)
        requires
            old(self).wf(),
        ensures
            final(self).wf(),
            Self::same_config(*old(self), *final(self)),
            final(self).config() == old(self).config(),
            ({
                let t = event_transition(
                    old(self).state(),
                    event.deep_view(),
                    old(clipboard).deep_view(),
                );
                &&& final(self).state() == t.0
                &&& final(clipboard).deep_view() == t.1
                &&& status_matches(r, t.2)
            }),
    {
        match event {
            LineEditorEvent::Edit(commands) => {
                let ghost ops = commands.deep_view();
                let mut i: usize = 0;
                while i < commands.len()
                    invariant
                        i <= commands@.len(),
                        self.editor@.wf(),
                        self.editor@ == apply_edits(old(self).editor@, ops.take(i as int)),
                        self.selected_start == old(self).selected_start,
                        self.selected_end == old(self).selected_end,
                        Self::same_config(*old(self), *self),
                    decreases commands@.len() - i,
                {
                    self.editor.run_edit_commands(&commands[i]);
                    proof {
                        lemma_apply_edits_snoc(old(self).editor@, ops.take(i as int), ops[i as int]);
                        assert(ops.take(i as int).push(ops[i as int]) =~= ops.take(i as int + 1));
                    }
                    i += 1;
                }
                proof {
                    assert(ops.take(ops.len() as int) =~= ops);
                }
                self.reset_selection_range();
                EventStatus::EditHandled
            },
            LineEditorEvent::Movement(commands) => {
                let ghost ops = commands.deep_view();
                let mut i: usize = 0;
                while i < commands.len()
                    invariant
                        i <= commands@.len(),
                        self.editor@.wf(),
                        self.editor@ == apply_movements(old(self).editor@, ops.take(i as int)),
                        self.selected_start == old(self).selected_start,
                        self.selected_end == old(self).selected_end,
                        Self::same_config(*old(self), *self),
                    decreases commands@.len() - i,
                {
                    self.editor.run_movement_commands(&commands[i]);
                    proof {
                        lemma_apply_movements_snoc(
                            old(self).editor@,
                            ops.take(i as int),
                            ops[i as int],
                        );
                        assert(ops.take(i as int).push(ops[i as int]) =~= ops.take(i as int + 1));
                    }
                    i += 1;
                }
                proof {
                    assert(ops.take(ops.len() as int) =~= ops);
                }
                self.reset_selection_range();
                EventStatus::MovementHandled
            },
            LineEditorEvent::Enter => {
                let text = self.editor.styled_buffer_ref().literal();
                self.reset_selection_range();
                EventStatus::Exits(LineEditorResult::Success(text))
            },
            LineEditorEvent::Left => {
                self.editor.run_movement_commands(&MovementCommand::MoveLeftChar);
                self.reset_selection_range();
                EventStatus::MovementHandled
            },
            LineEditorEvent::Right => {
                self.editor.run_movement_commands(&MovementCommand::MoveRightChar);
                self.reset_selection_range();
                EventStatus::MovementHandled
            },
            LineEditorEvent::Delete => {
                if self.selected_start != self.selected_end {
                    self.delete_selected_text();
                } else {
                    self.editor.run_edit_commands(&EditCommand::DeleteRightChar);
                    self.reset_selection_range();
                }
                EventStatus::EditHandled
            },
            LineEditorEvent::Backspace => {
                if self.selected_start != self.selected_end {
                    self.delete_selected_text();
                } else {
                    self.editor.run_edit_commands(&EditCommand::DeleteLeftChar);
                    self.reset_selection_range();
                }
                EventStatus::EditHandled
            },
            LineEditorEvent::SelectLeft => {
                if self.selected_end < 1 {
                    EventStatus::Inapplicable
                } else {
                    self.selected_end -= 1;
                    EventStatus::SelectionHandled
                }
            },
            LineEditorEvent::SelectRight => {
                if self.selected_end >= self.editor.styled_buffer_ref().len() {
                    EventStatus::Inapplicable
                } else {
                    self.selected_end += 1;
                    EventStatus::SelectionHandled
                }
            },
            LineEditorEvent::SelectAll => {
                self.selected_start = 0;
                self.selected_end = self.editor.styled_buffer_ref().len();
                EventStatus::SelectionHandled
            },
            LineEditorEvent::CutSelected => {
                if self.selected_start != self.selected_end {
                    let from = if self.selected_start <= self.selected_end {
                        self.selected_start
                    } else {
                        self.selected_end
                    };
                    let to = if self.selected_start <= self.selected_end {
                        self.selected_end
                    } else {
                        self.selected_start
                    };
                    match self.editor.styled_buffer_ref().sub_string(from, to) {
                        Some(selected_text) => {
                            *clipboard = Some(selected_text);
                            self.editor.styled_buffer().delete_range(from, to);
                            self.reset_selection_range();
                            EventStatus::GeneralHandled
                        },
                        None => unreached(),
                    }
                } else {
                    EventStatus::Inapplicable
                }
            },
            LineEditorEvent::CopySelected => {
                if self.selected_start != self.selected_end {
                    let from = if self.selected_start <= self.selected_end {
                        self.selected_start
                    } else {
                        self.selected_end
                    };
                    let to = if self.selected_start <= self.selected_end {
                        self.selected_end
                    } else {
                        self.selected_start
                    };
                    match self.editor.styled_buffer_ref().sub_string(from, to) {
                        Some(selected_text) => {
                            *clipboard = Some(selected_text);
                            EventStatus::GeneralHandled
                        },
                        None => unreached(),
                    }
                } else {
                    EventStatus::Inapplicable
                }
            },
            LineEditorEvent::Paste => {
                match clipboard.as_ref() {
                    Some(content) => {
                        let text = content.clone();
                        if self.selected_start != self.selected_end {
                            self.delete_selected_text();
                        }
                        self.editor.styled_buffer().insert_string(text.as_str());
                        self.reset_selection_range();
                        EventStatus::GeneralHandled
                    },
                    None => EventStatus::Inapplicable,
                }
            },
            _ => EventStatus::Inapplicable,
        }
    }

    /// The render stages of one iteration: reset every style, run each
    /// highlighter in registration order, then overlay the visual
    /// selection.  Characters, cursor and selection are untouched; with no
    /// highlighter registered the styles are pinned exactly.
    #[verifier::loop_isolation(false)]
    fn run_pipeline_stages(&mut self)
        requires
            old(self).wf(),
        ensures
            final(self).wf(),
            Self::same_config(*old(self), *final(self)),
            final(self).sel_start() == old(self).sel_start(),
            final(self).sel_end() == old(self).sel_end(),
            final(self).buf().chars == old(self).buf().chars,
            final(self).buf().cursor == old(self).buf().cursor,
            old(self).highlighter_count() == 0 ==> final(self).buf() == pipeline_styles(
                old(self).state(),
                old(self).selection_style_model(),
            ),
    {
        self.editor.styled_buffer().reset_styles();
        let mut i: usize = 0;
        while i < self.highlighters.len()
            invariant
                i <= self.highlighters@.len(),
                self.editor@.wf(),
                self.editor@.chars == old(self).editor@.chars,
                self.editor@.cursor == old(self).editor@.cursor,
                self.selected_start == old(self).selected_start,
                self.selected_end == old(self).selected_end,
                Self::same_config(*old(self), *self),
                self.highlighters@.len() == 0 ==> self.editor@ == old(
                    self,
                ).editor@.reset_styles(),
            decreases self.highlighters@.len() - i,
        {
            self.highlighters[i].highlight(self.editor.styled_buffer());
            i += 1;
        }
        self.apply_visual_selection();
    }

    /// What a dispatched event must have done to the engine: the submit
    /// case ends the session with the buffer text; otherwise the event
    /// transition fixes selection and clipboard, the buffer's characters
    /// and cursor whenever no auto-pairing ran, and, with no highlighter
    /// registered, the styles as well.
    pub open spec fn dispatch_post(
        pre: Self,
        em: EventModel,
        clip_in: Option<Seq<char>>,
        post: Self,
        clip_out: Option<Seq<char>>,
        r: KeyProcessStatus,
    ) -> bool {
        let t = event_transition(pre.state(), em, clip_in);
        match t.2 {
            StatusModel::Submitted(s) => {
                &&& r matches KeyProcessStatus::Finished(res) && (res matches
                    LineEditorResult::Success(txt) && txt@ == s)
                &&& post.state() == t.0
                &&& clip_out == t.1
            },
            _ => {
                &&& r == KeyProcessStatus::Processed
                &&& clip_out == t.1
                &&& post.sel_start() == t.0.sel_start
                &&& post.sel_end() == t.0.sel_end
                &&& (!pre.has_auto_pair() || t.0.buf.chars.len() <= pre.buf().chars.len())
                    ==> post.buf().chars == t.0.buf.chars && post.buf().cursor == t.0.buf.cursor
                &&& (pre.highlighter_count() == 0 && (!pre.has_auto_pair() || t.0.buf.chars.len()
                    <= pre.buf().chars.len())) ==> post.buf() == pipeline_styles(
                    t.0,
                    pre.selection_style_model(),
                )
            },
        }
    }

    /// Dispatch one event and, unless it submitted the line, run the
    /// auto-pair and render stages after it.
    fn dispatch_event(&mut self, event: &LineEditorEvent, clipboard: &mut Option<String>) -> (r:
        KeyProcessStatus)
        requires
            old(self).wf(),
        ensures
            final(self).wf(),
            Self::same_config(*old(self), *final(self)),
            final(self).config() == old(self).config(),
            Self::dispatch_post(
                *old(self),
                event.deep_view(),
                old(clipboard).deep_view(),
                *final(self),
                final(clipboard).deep_view(),
                r,
            ),
    {
        let buffer_len_before = self.editor.styled_buffer_ref().len();
        let status = self.handle_editor_event(event, clipboard);
        match status {
            EventStatus::Exits(result) => {
                return KeyProcessStatus::Finished(result);
            },
            _ => {},
        }
        let buffer_len_after = self.editor.styled_buffer_ref().len();
        if buffer_len_before < buffer_len_after {
            match &self.auto_pair {
                Some(auto_pair) => {
                    auto_pair.complete_pair(self.editor.styled_buffer());
                },
                None => {},
            }
        }
        self.run_pipeline_stages();
        KeyProcessStatus::Processed
    }

    /// Process one raw keystroke: classify it, dispatch the event it
    /// produces, and run the auto-pair, highlight and selection-overlay
    /// stages.  `Ignored` means the key was unbound and nothing changed;
    /// `Processed` asks the host to repaint; `Finished` ends the session.
    pub fn process_key(&mut self, key: &KeyCombination, clipboard: &mut Option<String>) -> (r:
        KeyProcessStatus)
        requires
            old(self).wf(),
        ensures
            final(self).wf(),
            Self::same_config(*old(self), *final(self)),
            final(self).config() == old(self).config(),
            ({
                let cls = classify_key(
                    old(self).filter_model(),
                    old(self).bindings_map(),
                    *key,
                );
                match cls {
                    KeyClass::Unbound => {
                        &&& r == KeyProcessStatus::Ignored
                        &&& final(self).state() == old(self).state()
                        &&& final(self).buf() == old(self).buf()
                        &&& *final(clipboard) == *old(clipboard)
                    },
                    KeyClass::Rejected => {
                        &&& r == KeyProcessStatus::Processed
                        &&& final(self).buf().chars == old(self).buf().chars
                        &&& final(self).buf().cursor == old(self).buf().cursor
                        &&& final(self).sel_start() == old(self).sel_start()
                        &&& final(self).sel_end() == old(self).sel_end()
                        &&& *final(clipboard) == *old(clipboard)
                        &&& old(self).highlighter_count() == 0 ==> final(self).buf()
                            == pipeline_styles(
                            old(self).state(),
                            old(self).selection_style_model(),
                        )
                    },
                    KeyClass::Insert(ch) => Self::dispatch_post(
                        *old(self),
                        EventModel::Edit(seq![EditOp::InsertChar(ch)]),
                        old(clipboard).deep_view(),
                        *final(self),
                        final(clipboard).deep_view(),
                        r,
                    ),
                    KeyClass::Bound(em) => Self::dispatch_post(
                        *old(self),
                        em,
                        old(clipboard).deep_view(),
                        *final(self),
                        final(clipboard).deep_view(),
                        r,
                    ),
                }
            }),
    {
        match key.key_code {
            KeyCode::Char(ch) => {
                if (key.modifier == (KeyModifierSet { shift: false, control: false, alt: false })
                    || key.modifier == (KeyModifierSet {
                    shift: true,
                    control: false,
                    alt: false,
                })) && key.key_kind == KeyPressKind::Press {
                    if filter_input(ch, &self.input_filter) {
                        let commands = vec![EditCommand::InsertChar(ch)];
                        proof {
                            assert(commands.deep_view() =~= seq![EditOp::InsertChar(ch)]);
                        }
                        let ev = LineEditorEvent::Edit(commands);
                        self.dispatch_event(&ev, clipboard)
                    } else {
                        self.run_pipeline_stages();
                        KeyProcessStatus::Processed
                    }
                } else {
                    match self.keybindings.find_binding(*key) {
                        Some(ev) => self.dispatch_event(&ev, clipboard),
                        None => KeyProcessStatus::Ignored,
                    }
                }
            },
            _ => {
                match self.keybindings.find_binding(*key) {
                    Some(ev) => self.dispatch_event(&ev, clipboard),
                    None => KeyProcessStatus::Ignored,
                }
            },
        }
    }

    /// The hint for the current line: tried only while the cursor sits at
    /// the end of the buffer, the first hinter that produces one wins and
    /// the rest are not consulted.
    #[verifier::loop_isolation(false)]
    pub fn current_hint(&self) -> (r: Option<StyledBuffer>)
        requires
            self.wf(),
        ensures
            r matches Some(h) ==> h.wf(),
            self.buf().cursor != self.buf().len() ==> r is None,
            self.hinter_count() == 0 ==> r is None,
    {
        let buffer = self.editor.styled_buffer_ref();
        if !buffer.is_cursor_at_the_end() {
            return None;
        }
        let mut i: usize = 0;
        while i < self.hinters.len()
            invariant
                i <= self.hinters@.len(),
            decreases self.hinters@.len() - i,
        {
            match self.hinters[i].hint(buffer) {
                Some(hint) => {
                    return Some(hint);
                },
                None => {},
            }
            i += 1;
        }
        None
    }
}

} // verus!
