//! Key combinations and the table mapping them to line-editor events.
//!
//! Two combinations are equal exactly when press kind, modifier set and key
//! code all agree; no normalization is applied.  The table keeps one entry
//! per combination — re-registering overwrites — and its abstract value is
//! the finite map from combinations to event models.

use vstd::map::*;
use vstd::prelude::*;

use crate::event::EventModel;
use crate::event::LineEditorEvent;
use crate::event::MoveOp;
use crate::event::MovementCommand;

verus! {

/// Whether a key was pressed, repeated or released.
#[derive(Clone, Copy, PartialEq, Eq, Structural, Debug)]
pub enum KeyPressKind {
    Press,
    Repeat,
    Release,
}

/// The modifier keys held during a keystroke.
#[derive(Clone, Copy, PartialEq, Eq, Structural, Debug)]
pub struct KeyModifierSet {
    pub shift: bool,
    pub control: bool,
    pub alt: bool,
}

impl KeyModifierSet {
    /// No modifier held.
    pub fn none() -> (r: KeyModifierSet)
        ensures
            r == (KeyModifierSet { shift: false, control: false, alt: false }),
    {
        KeyModifierSet { shift: false, control: false, alt: false }
    }

    /// Shift alone.
    pub fn shift_only() -> (r: KeyModifierSet)
        ensures
            r == (KeyModifierSet { shift: true, control: false, alt: false }),
    {
        KeyModifierSet { shift: true, control: false, alt: false }
    }

    /// Control alone.
    pub fn control_only() -> (r: KeyModifierSet)
        ensures
            r == (KeyModifierSet { shift: false, control: true, alt: false }),
    {
        KeyModifierSet { shift: false, control: true, alt: false }
    }
}

/// The key itself.
#[derive(Clone, Copy, PartialEq, Eq, Structural, Debug)]
pub enum KeyCode {
    /// A printable character key.
    Char(char),
    Enter,
    Esc,
    Backspace,
    Delete,
    Left,
    Right,
    Up,
    Down,
    Home,
    End,
    Tab,
    BackTab,
    PageUp,
    PageDown,
    Insert,
    /// A function key.
    F(u8),
    /// A key the host could not translate.
    Null,
}

/// A raw key combination: press kind, modifiers and key code.
#[derive(Clone, Copy, PartialEq, Eq, Structural, Debug)]
pub struct KeyCombination {
    pub key_kind: KeyPressKind,
    pub modifier: KeyModifierSet,
    pub key_code: KeyCode,
}

/// A plain press of `code` with no modifier.
pub open spec fn plain_key(code: KeyCode) -> KeyCombination {
    KeyCombination {
        key_kind: KeyPressKind::Press,
        modifier: KeyModifierSet { shift: false, control: false, alt: false },
        key_code: code,
    }
}

/// A press of `code` with shift held.
pub open spec fn shift_key(code: KeyCode) -> KeyCombination {
    KeyCombination {
        key_kind: KeyPressKind::Press,
        modifier: KeyModifierSet { shift: true, control: false, alt: false },
        key_code: code,
    }
}

/// A press of `code` with control held.
pub open spec fn control_key(code: KeyCode) -> KeyCombination {
    KeyCombination {
        key_kind: KeyPressKind::Press,
        modifier: KeyModifierSet { shift: false, control: true, alt: false },
        key_code: code,
    }
}

/// Whether `s` binds `k`.
spec fn has_binding(s: Seq<(KeyCombination, LineEditorEvent)>, k: KeyCombination) -> bool {
    exists|i: int| 0 <= i < s.len() && (#[trigger] s[i]).0 == k
}

/// The position of `k` in `s`, when `s` binds it.
spec fn binding_index(s: Seq<(KeyCombination, LineEditorEvent)>, k: KeyCombination) -> int {
    choose|i: int| 0 <= i < s.len() && (#[trigger] s[i]).0 == k
}

/// The map an entry list stands for.
spec fn assoc_map(s: Seq<(KeyCombination, LineEditorEvent)>) -> Map<KeyCombination, EventModel> {
    Map::new(|k: KeyCombination| has_binding(s, k), |k: KeyCombination| s[binding_index(s, k)].1.deep_view())
}

/// No two entries bind the same combination.
spec fn unique_keys(s: Seq<(KeyCombination, LineEditorEvent)>) -> bool {
    forall|i: int, j: int| 0 <= i < j < s.len() ==> (#[trigger] s[i]).0 != (#[trigger] s[j]).0
}

/// Under unique keys, an entry holding `k` at position `i` is the entry the
/// map reads for `k`.
proof fn lemma_assoc_value(s: Seq<(KeyCombination, LineEditorEvent)>, k: KeyCombination, i: int)
    requires
        unique_keys(s),
        0 <= i < s.len(),
        s[i].0 == k,
    ensures
        has_binding(s, k),
        binding_index(s, k) == i,
{
    assert(has_binding(s, k));
    let j = binding_index(s, k);
    assert(0 <= j < s.len() && s[j].0 == k);
}

/// The table of key bindings.
pub struct Keybindings {
    /// One entry per bound combination.
    bindings: Vec<(KeyCombination, LineEditorEvent)>,
}

impl View for Keybindings {
    type V = Map<KeyCombination, EventModel>;

    closed spec fn view(&self) -> Map<KeyCombination, EventModel> {
        assoc_map(self.bindings@)
    }
}

impl Default for Keybindings {
    /// An empty table.
    fn default() -> (r: Keybindings)
        ensures
            r.wf(),
            r@ == Map::<KeyCombination, EventModel>::empty(),
    {
        let r = Keybindings { bindings: Vec::new() };
        proof {
            assert(r@ =~= Map::<KeyCombination, EventModel>::empty());
        }
        r
    }
}

impl Keybindings {
    /// One entry per combination: the table's internal invariant.
    pub closed spec fn wf(&self) -> bool {
        unique_keys(self.bindings@)
    }

    /// The bound entries, in registration order.
    pub closed spec fn entries(&self) -> Seq<(KeyCombination, LineEditorEvent)> {
        self.bindings@
    }

    /// Bind `key_combination` to `event`, overwriting any earlier binding.
    pub fn register_binding(&mut self, key_combination: KeyCombination, event: LineEditorEvent)
        requires
            old(self).wf(),
        ensures
            final(self).wf(),
            final(self)@ == old(self)@.insert(key_combination, event.deep_view()),
    {
        let ghost pre = self.bindings@;
        let mut i: usize = 0;
        while i < self.bindings.len()
            invariant
                old(self).wf(),
                pre == old(self).bindings@,
                self.bindings@ == pre,
                i <= pre.len(),
                forall|j: int| 0 <= j < i ==> (#[trigger] pre[j]).0 != key_combination,
            decreases pre.len() - i,
        {
            if self.bindings[i].0 == key_combination {
                let ghost ev = event.deep_view();
                self.bindings.set(i, (key_combination, event));
                proof {
                    let post = self.bindings@;
                    assert(pre[i as int].0 == key_combination);
                    assert forall|j: int| 0 <= j < post.len() implies (#[trigger] post[j]).0
                        == pre[j].0 by {
                        if j != i {
                            assert(post[j] == pre[j]);
                        }
                    }
                    assert(unique_keys(post));
                    assert forall|k: KeyCombination|
                        has_binding(post, k) == has_binding(pre, k) by {
                        if has_binding(pre, k) {
                            let w = binding_index(pre, k);
                            assert(post[w].0 == k);
                            assert(has_binding(post, k));
                        }
                        if has_binding(post, k) {
                            let w = binding_index(post, k);
                            assert(pre[w].0 == k);
                            assert(has_binding(pre, k));
                        }
                    }
                    assert(has_binding(pre, key_combination));
                    assert forall|k: KeyCombination|
                        assoc_map(post).contains_key(k) implies #[trigger] assoc_map(post)[k]
                        == old(self)@.insert(key_combination, ev)[k] by {
                        if k == key_combination {
                            lemma_assoc_value(post, k, i as int);
                        } else {
                            let w = binding_index(post, k);
                            assert(0 <= w < post.len() && post[w].0 == k);
                            assert(w != i);
                            assert(pre[w].0 == k);
                            lemma_assoc_value(pre, k, w);
                            lemma_assoc_value(post, k, w);
                            assert(post[w] == pre[w]);
                        }
                    }
                    assert(assoc_map(post) =~= old(self)@.insert(key_combination, ev));
                }
                return ;
            }
            i += 1;
        }
        let ghost ev = event.deep_view();
        self.bindings.push((key_combination, event));
        proof {
            let post = self.bindings@;
            assert(forall|j: int| 0 <= j < pre.len() ==> (#[trigger] pre[j]).0 != key_combination);
            assert(post[pre.len() as int].0 == key_combination);
            assert forall|x: int, y: int| 0 <= x < y < post.len() implies (#[trigger] post[x]).0
                != (#[trigger] post[y]).0 by {
                if y < pre.len() {
                    assert(pre[x].0 != pre[y].0);
                } else {
                    assert(post[y].0 == key_combination);
                    assert(post[x].0 == pre[x].0);
                }
            }
            assert forall|k: KeyCombination| #[trigger]
                assoc_map(post).contains_key(k) == old(self)@.insert(
                    key_combination,
                    ev,
                ).contains_key(k) by {
                if k == key_combination {
                    assert(has_binding(post, k));
                } else {
                    if has_binding(pre, k) {
                        let w = binding_index(pre, k);
                        assert(post[w].0 == k);
                        assert(has_binding(post, k));
                    }
                    if has_binding(post, k) {
                        let w = binding_index(post, k);
                        assert(w < pre.len());
                        assert(pre[w].0 == k);
                        assert(has_binding(pre, k));
                    }
                }
            }
            assert forall|k: KeyCombination| assoc_map(post).contains_key(k) implies #[trigger]
                assoc_map(post)[k] == old(self)@.insert(key_combination, ev)[k] by {
                if k == key_combination {
                    lemma_assoc_value(post, k, pre.len() as int);
                } else {
                    let w = binding_index(post, k);
                    assert(0 <= w < post.len() && post[w].0 == k);
                    assert(w < pre.len());
                    lemma_assoc_value(pre, k, w);
                    lemma_assoc_value(post, k, w);
                }
            }
            assert(assoc_map(post) =~= old(self)@.insert(key_combination, ev));
        }
    }

    /// Look up the event bound to `key_combination`, or `None` when the
    /// combination is unbound.
    pub fn find_binding(&self, key_combination: KeyCombination) -> (r: Option<LineEditorEvent>)
        requires
            self.wf(),
        ensures
            self@.contains_key(key_combination) ==> (r matches Some(e) && e.deep_view()
                == self@[key_combination]),
            !self@.contains_key(key_combination) ==> r is None,
    {
        let mut i: usize = 0;
        while i < self.bindings.len()
            invariant
                self.wf(),
                i <= self.bindings@.len(),
                forall|j: int|
                    0 <= j < i ==> (#[trigger] self.bindings@[j]).0 != key_combination,
            decreases self.bindings@.len() - i,
        {
            if self.bindings[i].0 == key_combination {
                proof {
                    lemma_assoc_value(self.bindings@, key_combination, i as int);
                }
                return Some(self.bindings[i].1.clone());
            }
            i += 1;
        }
        proof {
            if has_binding(self.bindings@, key_combination) {
                let w = binding_index(self.bindings@, key_combination);
                assert(self.bindings@[w].0 == key_combination);
            }
        }
        None
    }

    /// The registered bindings, in registration order.
    pub fn keybindings(&self) -> (r: &Vec<(KeyCombination, LineEditorEvent)>)
        ensures
            r@ == self.entries(),
    {
        &self.bindings
    }

    /// Register the control preset: `Enter` submits, `Esc` escapes.
    pub fn register_common_control_bindings(&mut self)
        requires
            old(self).wf(),
        ensures
            final(self).wf(),
            final(self)@ == old(self)@.insert(plain_key(KeyCode::Enter), EventModel::Enter).insert(
                plain_key(KeyCode::Esc),
                EventModel::Esc,
            ),
    {
        self.register_binding(
            KeyCombination {
                key_kind: KeyPressKind::Press,
                modifier: KeyModifierSet::none(),
                key_code: KeyCode::Enter,
            },
            LineEditorEvent::Enter,
        );
        self.register_binding(
            KeyCombination {
                key_kind: KeyPressKind::Press,
                modifier: KeyModifierSet::none(),
                key_code: KeyCode::Esc,
            },
            LineEditorEvent::Esc,
        );
    }

    /// Register the navigation preset: the four arrow keys, and
    /// control-arrow word jumps.
    pub fn register_common_navigation_bindings(&mut self)
        requires
            old(self).wf(),
        ensures
            final(self).wf(),
            final(self)@ == old(self)@.insert(plain_key(KeyCode::Up), EventModel::Up).insert(
                plain_key(KeyCode::Down),
                EventModel::Down,
            ).insert(plain_key(KeyCode::Left), EventModel::Left).insert(
                plain_key(KeyCode::Right),
                EventModel::Right,
            ).insert(control_key(KeyCode::Left), EventModel::Movement(seq![MoveOp::LeftWord])).insert(
                control_key(KeyCode::Right),
                EventModel::Movement(seq![MoveOp::RightWord]),
            ),
    {
        self.register_binding(
            KeyCombination {
                key_kind: KeyPressKind::Press,
                modifier: KeyModifierSet::none(),
                key_code: KeyCode::Up,
            },
            LineEditorEvent::Up,
        );
        self.register_binding(
            KeyCombination {
                key_kind: KeyPressKind::Press,
                modifier: KeyModifierSet::none(),
                key_code: KeyCode::Down,
            },
            LineEditorEvent::Down,
        );
        self.register_binding(
            KeyCombination {
                key_kind: KeyPressKind::Press,
                modifier: KeyModifierSet::none(),
                key_code: KeyCode::Left,
            },
            LineEditorEvent::Left,
        );
        self.register_binding(
            KeyCombination {
                key_kind: KeyPressKind::Press,
                modifier: KeyModifierSet::none(),
                key_code: KeyCode::Right,
            },
            LineEditorEvent::Right,
        );
        let left_word = vec![MovementCommand::MoveLeftWord];
        proof {
            assert(left_word.deep_view() =~= seq![MoveOp::LeftWord]);
        }
        self.register_binding(
            KeyCombination {
                key_kind: KeyPressKind::Press,
                modifier: KeyModifierSet::control_only(),
                key_code: KeyCode::Left,
            },
            LineEditorEvent::Movement(left_word),
        );
        let right_word = vec![MovementCommand::MoveRightWord];
        proof {
            assert(right_word.deep_view() =~= seq![MoveOp::RightWord]);
        }
        self.register_binding(
            KeyCombination {
                key_kind: KeyPressKind::Press,
                modifier: KeyModifierSet::control_only(),
                key_code: KeyCode::Right,
            },
            LineEditorEvent::Movement(right_word),
        );
    }

    /// Register the edit preset: `Backspace` and `Delete`.
    pub fn register_common_edit_bindings(&mut self)
        requires
            old(self).wf(),
        ensures
            final(self).wf(),
            final(self)@ == old(self)@.insert(
                plain_key(KeyCode::Backspace),
                EventModel::Backspace,
            ).insert(plain_key(KeyCode::Delete), EventModel::Delete),
    {
        self.register_binding(
            KeyCombination {
                key_kind: KeyPressKind::Press,
                modifier: KeyModifierSet::none(),
                key_code: KeyCode::Backspace,
            },
            LineEditorEvent::Backspace,
        );
        self.register_binding(
            KeyCombination {
                key_kind: KeyPressKind::Press,
                modifier: KeyModifierSet::none(),
                key_code: KeyCode::Delete,
            },
            LineEditorEvent::Delete,
        );
    }

    /// Register the selection preset: shift-arrows extend or contract the
    /// selection, and control-`a` selects the whole line.
    pub fn register_common_selection_bindings(&mut self)
        requires
            old(self).wf(),
        ensures
            final(self).wf(),
            final(self)@ == old(self)@.insert(shift_key(KeyCode::Left), EventModel::SelectLeft).insert(
                shift_key(KeyCode::Right),
                EventModel::SelectRight,
            ).insert(control_key(KeyCode::Char('a')), EventModel::SelectAll),
    {
        self.register_binding(
            KeyCombination {
                key_kind: KeyPressKind::Press,
                modifier: KeyModifierSet::shift_only(),
                key_code: KeyCode::Left,
            },
            LineEditorEvent::SelectLeft,
        );
        self.register_binding(
            KeyCombination {
                key_kind: KeyPressKind::Press,
                modifier: KeyModifierSet::shift_only(),
                key_code: KeyCode::Right,
            },
            LineEditorEvent::SelectRight,
        );
        self.register_binding(
            KeyCombination {
                key_kind: KeyPressKind::Press,
                modifier: KeyModifierSet::control_only(),
                key_code: KeyCode::Char('a'),
            },
            LineEditorEvent::SelectAll,
        );
    }
}

} // verus!
