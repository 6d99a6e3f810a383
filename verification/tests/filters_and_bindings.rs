use lineeditor::completion::{Span, Suggestion};
use lineeditor::drop_down_list_view::DropDownListView;
use lineeditor::event::LineEditorEvent;
use lineeditor::input_filter::{filter_input, InputFilter};
use lineeditor::keybindings::{
    KeyCode, KeyCombination, KeyModifierSet, KeyPressKind, Keybindings,
};
use lineeditor::painter::Painter;
use lineeditor::prompt::{Prompt, StringPrompt};
use lineeditor::style::Style;
use lineeditor::styled_buffer::StyledBuffer;
use lineeditor::styled_editor_view::StyledEditorView;

fn press(code: KeyCode) -> KeyCombination {
    KeyCombination {
        key_kind: KeyPressKind::Press,
        modifier: KeyModifierSet::none(),
        key_code: code,
    }
}

#[test]
fn filter_input_base_classes() {
    assert!(filter_input('a', &InputFilter::Alphabetic));
    assert!(!filter_input('1', &InputFilter::Alphabetic));
    assert!(filter_input('1', &InputFilter::AlphaNumeric));
    assert!(filter_input('x', &InputFilter::AlphaNumeric));
    assert!(!filter_input('!', &InputFilter::AlphaNumeric));
    assert!(filter_input('7', &InputFilter::Digit));
    assert!(!filter_input('a', &InputFilter::Digit));
    assert!(filter_input('~', &InputFilter::Text));
    assert!(filter_input('f', &InputFilter::HexDigit));
    assert!(filter_input('A', &InputFilter::HexDigit));
    assert!(!filter_input('g', &InputFilter::HexDigit));
    assert!(filter_input(' ', &InputFilter::Whitespace));
    assert!(filter_input('\t', &InputFilter::Whitespace));
    assert!(!filter_input('a', &InputFilter::Whitespace));
    assert!(filter_input('!', &InputFilter::Punctuation));
    assert!(filter_input('@', &InputFilter::Punctuation));
    assert!(!filter_input('a', &InputFilter::Punctuation));
}

#[test]
fn filter_input_composes() {
    let not_digit = InputFilter::Not(Box::new(InputFilter::Digit));
    assert!(filter_input('a', &not_digit));
    assert!(!filter_input('3', &not_digit));

    let digits_or_space = InputFilter::Options(vec![InputFilter::Digit, InputFilter::Whitespace]);
    assert!(filter_input('4', &digits_or_space));
    assert!(filter_input(' ', &digits_or_space));
    assert!(!filter_input('b', &digits_or_space));

    let empty = InputFilter::Options(vec![]);
    assert!(!filter_input('a', &empty));

    let nested = InputFilter::Options(vec![
        InputFilter::Alphabetic,
        InputFilter::Not(Box::new(InputFilter::Punctuation)),
    ]);
    assert!(filter_input('a', &nested));
    assert!(filter_input('5', &nested));
    assert!(!filter_input('!', &nested));
}

#[test]
fn filter_input_custom_table() {
    let vowels = InputFilter::Custom(vec!['a', 'e', 'i', 'o', 'u']);
    assert!(filter_input('a', &vowels));
    assert!(filter_input('u', &vowels));
    assert!(!filter_input('b', &vowels));
    assert!(!filter_input(' ', &vowels));
    assert!(!filter_input('x', &InputFilter::Custom(vec![])));

    let no_vowels = InputFilter::Not(Box::new(vowels));
    assert!(filter_input('b', &no_vowels));
    assert!(!filter_input('e', &no_vowels));
}

#[test]
fn register_and_find_binding() {
    let mut bindings = Keybindings::default();
    assert!(bindings.find_binding(press(KeyCode::Enter)).is_none());
    bindings.register_binding(press(KeyCode::Enter), LineEditorEvent::Enter);
    assert!(matches!(
        bindings.find_binding(press(KeyCode::Enter)),
        Some(LineEditorEvent::Enter)
    ));
    assert!(bindings.find_binding(press(KeyCode::Esc)).is_none());
    assert_eq!(bindings.keybindings().len(), 1);
}

#[test]
fn register_binding_overwrites() {
    let mut bindings = Keybindings::default();
    bindings.register_binding(press(KeyCode::Tab), LineEditorEvent::Up);
    bindings.register_binding(press(KeyCode::Tab), LineEditorEvent::Down);
    assert_eq!(bindings.keybindings().len(), 1);
    assert!(matches!(
        bindings.find_binding(press(KeyCode::Tab)),
        Some(LineEditorEvent::Down)
    ));
}

#[test]
fn binding_lookup_is_exact() {
    let mut bindings = Keybindings::default();
    bindings.register_binding(press(KeyCode::Left), LineEditorEvent::Left);
    let shifted = KeyCombination {
        key_kind: KeyPressKind::Press,
        modifier: KeyModifierSet::shift_only(),
        key_code: KeyCode::Left,
    };
    assert!(bindings.find_binding(shifted).is_none());
    let released = KeyCombination {
        key_kind: KeyPressKind::Release,
        modifier: KeyModifierSet::none(),
        key_code: KeyCode::Left,
    };
    assert!(bindings.find_binding(released).is_none());
}

#[test]
fn common_presets_register_their_events() {
    let mut bindings = Keybindings::default();
    bindings.register_common_control_bindings();
    bindings.register_common_navigation_bindings();
    bindings.register_common_edit_bindings();
    bindings.register_common_selection_bindings();
    assert!(matches!(
        bindings.find_binding(press(KeyCode::Enter)),
        Some(LineEditorEvent::Enter)
    ));
    assert!(matches!(
        bindings.find_binding(press(KeyCode::Esc)),
        Some(LineEditorEvent::Esc)
    ));
    assert!(matches!(
        bindings.find_binding(press(KeyCode::Up)),
        Some(LineEditorEvent::Up)
    ));
    assert!(matches!(
        bindings.find_binding(press(KeyCode::Backspace)),
        Some(LineEditorEvent::Backspace)
    ));
    assert!(matches!(
        bindings.find_binding(press(KeyCode::Delete)),
        Some(LineEditorEvent::Delete)
    ));
    let shift_right = KeyCombination {
        key_kind: KeyPressKind::Press,
        modifier: KeyModifierSet::shift_only(),
        key_code: KeyCode::Right,
    };
    assert!(matches!(
        bindings.find_binding(shift_right),
        Some(LineEditorEvent::SelectRight)
    ));
    let control_a = KeyCombination {
        key_kind: KeyPressKind::Press,
        modifier: KeyModifierSet::control_only(),
        key_code: KeyCode::Char('a'),
    };
    assert!(matches!(
        bindings.find_binding(control_a),
        Some(LineEditorEvent::SelectAll)
    ));
    let control_left = KeyCombination {
        key_kind: KeyPressKind::Press,
        modifier: KeyModifierSet::control_only(),
        key_code: KeyCode::Left,
    };
    assert!(matches!(
        bindings.find_binding(control_left),
        Some(LineEditorEvent::Movement(_))
    ));
}

#[test]
fn span_carries_its_offsets() {
    let span = Span::new(2, 5);
    assert_eq!(span.start, 2);
    assert_eq!(span.end, 5);
}

#[test]
fn string_prompt_renders_its_text() {
    let prompt = StringPrompt::new("gql> ".to_string());
    let buffer = prompt.prompt();
    assert_eq!(buffer.literal(), "gql> ");
    assert_eq!(buffer.position(), 5);
    assert_eq!(buffer.styles().len(), 5);
}

#[test]
fn painter_tracks_its_start_column() {
    let mut painter = Painter::default();
    assert_eq!(painter.buffer_column_start(), 0);
    painter.set_buffer_column_start(7);
    assert_eq!(painter.buffer_column_start(), 7);
    assert_eq!(painter.cursor_column(5), 12);
}

#[test]
fn number_of_lines_counts_soft_wraps() {
    let mut view = StyledEditorView::default();
    view.set_start_position((5, 0));
    view.set_terminal_size((10, 24));
    assert_eq!(view.number_of_lines(0), 1);
    assert_eq!(view.number_of_lines(5), 1);
    assert_eq!(view.number_of_lines(6), 2);
    assert_eq!(view.number_of_lines(14), 2);
    assert_eq!(view.number_of_lines(16), 3);
}

#[test]
fn number_of_lines_without_width_never_wraps() {
    let mut view = StyledEditorView::default();
    view.set_start_position((5, 0));
    assert_eq!(view.number_of_lines(60000), 1);
}

#[test]
fn wrapped_column_folds_into_the_terminal_width() {
    let mut view = StyledEditorView::default();
    view.set_start_position((5, 0));
    view.set_terminal_size((10, 24));
    assert_eq!(view.wrapped_column(3), 8);
    assert_eq!(view.wrapped_column(6), 1);
    assert_eq!(view.wrapped_column(16), 1);
}

fn suggestion(text: &str) -> Suggestion {
    Suggestion {
        content: StyledBuffer::from_text(text),
        span: Span::new(0, text.len()),
    }
}

#[test]
fn drop_down_focus_moves_within_bounds() {
    let mut list = DropDownListView::default();
    let mut elements = vec![suggestion("one"), suggestion("two")];
    list.set_elements(&mut elements);
    assert_eq!(elements.len(), 0);
    assert_eq!(list.len(), 2);
    assert!(!list.is_empty());
    list.focus_next();
    assert!(matches!(list.selected_element(), Some(s) if s.content.literal() == "two"));
    list.focus_next();
    assert!(matches!(list.selected_element(), Some(s) if s.content.literal() == "two"));
    list.focus_previous();
    assert!(matches!(list.selected_element(), Some(s) if s.content.literal() == "one"));
    list.focus_previous();
    assert!(matches!(list.selected_element(), Some(s) if s.content.literal() == "one"));
}

#[test]
fn drop_down_focus_out_of_range_selects_nothing() {
    let mut list = DropDownListView::default();
    let mut elements = vec![suggestion("one")];
    list.set_elements(&mut elements);
    list.set_focus_position(5);
    assert!(list.selected_element().is_none());
    list.set_focus_position(-1);
    assert!(list.selected_element().is_none());
    list.clear_focus();
    assert!(matches!(list.selected_element(), Some(s) if s.content.literal() == "one"));
}

#[test]
fn drop_down_reset_clears_elements_and_focus() {
    let mut list = DropDownListView::default();
    let mut elements = vec![suggestion("one"), suggestion("two")];
    list.set_elements(&mut elements);
    list.focus_next();
    list.set_visibility(true);
    list.reset();
    assert!(list.is_empty());
    assert_eq!(list.len(), 0);
    assert!(list.selected_element().is_none());
    assert!(list.is_visible());
    list.set_visibility(false);
    assert!(!list.is_visible());
    let mut style = Style::default();
    style.add_attribute(lineeditor::style::Attribute::Reverse);
    list.set_focus_style(style.clone());
    assert_eq!(list.focus_style(), &style);
}
