use lineeditor::autopair::DefaultAutoPair;
use lineeditor::engine::{EventStatus, KeyProcessStatus, LineEditor, LineEditorResult};
use lineeditor::event::{EditCommand, LineEditorEvent, MovementCommand};
use lineeditor::highlighter::Highlighter;
use lineeditor::hinter::Hinter;
use lineeditor::input_filter::InputFilter;
use lineeditor::keybindings::{KeyCode, KeyCombination, KeyModifierSet, KeyPressKind};
use lineeditor::style::{Color, Style};
use lineeditor::styled_buffer::StyledBuffer;

/// Styles the first character of the line red, leaving the rest blank.
struct FirstCharRed;

impl Highlighter for FirstCharRed {
    fn highlight(&self, buffer: &mut StyledBuffer) {
        if buffer.len() > 0 {
            let mut style = Style::default();
            style.set_foreground_color(Color::Red);
            buffer.style_char(0, style);
        }
    }
}

/// Always hints with a fixed single-letter buffer.
enum FixedHinter {
    X,
    Y,
}

impl Hinter for FixedHinter {
    fn hint(&self, _buffer: &StyledBuffer) -> Option<StyledBuffer> {
        match self {
            FixedHinter::X => Some(StyledBuffer::from_text("X")),
            FixedHinter::Y => Some(StyledBuffer::from_text("Y")),
        }
    }
}

type Editor = LineEditor<FirstCharRed, FixedHinter, DefaultAutoPair>;

fn press(code: KeyCode) -> KeyCombination {
    KeyCombination {
        key_kind: KeyPressKind::Press,
        modifier: KeyModifierSet::none(),
        key_code: code,
    }
}

fn shift_press(code: KeyCode) -> KeyCombination {
    KeyCombination {
        key_kind: KeyPressKind::Press,
        modifier: KeyModifierSet::shift_only(),
        key_code: code,
    }
}

fn type_text(editor: &mut Editor, text: &str, clipboard: &mut Option<String>) {
    for ch in text.chars() {
        editor.process_key(&press(KeyCode::Char(ch)), clipboard);
    }
}

fn line_of(editor: &Editor) -> String {
    editor.editor_ref().styled_buffer_ref().literal()
}

fn cursor_of(editor: &Editor) -> usize {
    editor.editor_ref().styled_buffer_ref().position()
}

fn move_cursor_to(editor: &mut Editor, position: usize, clipboard: &mut Option<String>) {
    let event = LineEditorEvent::Movement(vec![MovementCommand::MoveToPosition(position)]);
    let status = editor.handle_editor_event(&event, clipboard);
    assert_eq!(status, EventStatus::MovementHandled);
}

#[test]
fn submit_round_trip() {
    let mut editor = Editor::new();
    editor.keybinding().register_common_control_bindings();
    let mut clipboard: Option<String> = None;
    assert_eq!(
        editor.process_key(&press(KeyCode::Char('h')), &mut clipboard),
        KeyProcessStatus::Processed
    );
    assert_eq!(
        editor.process_key(&press(KeyCode::Char('i')), &mut clipboard),
        KeyProcessStatus::Processed
    );
    let status = editor.process_key(&press(KeyCode::Enter), &mut clipboard);
    assert_eq!(
        status,
        KeyProcessStatus::Finished(LineEditorResult::Success("hi".to_string()))
    );
}

#[test]
fn filtered_input_drops_rejected_characters() {
    let mut editor = Editor::new();
    editor.set_input_filter(InputFilter::Options(vec![
        InputFilter::Digit,
        InputFilter::Whitespace,
    ]));
    let mut clipboard: Option<String> = None;
    type_text(&mut editor, "a1 b2", &mut clipboard);
    assert_eq!(line_of(&editor), "1 2");
    assert_eq!(cursor_of(&editor), 3);
}

#[test]
fn rejected_character_still_repaints() {
    let mut editor = Editor::new();
    editor.set_input_filter(InputFilter::Digit);
    let mut clipboard: Option<String> = None;
    assert_eq!(
        editor.process_key(&press(KeyCode::Char('a')), &mut clipboard),
        KeyProcessStatus::Processed
    );
    assert_eq!(line_of(&editor), "");
}

#[test]
fn unbound_key_is_ignored() {
    let mut editor = Editor::new();
    let mut clipboard: Option<String> = None;
    assert_eq!(
        editor.process_key(&press(KeyCode::F(5)), &mut clipboard),
        KeyProcessStatus::Ignored
    );
    assert_eq!(
        editor.process_key(&press(KeyCode::Enter), &mut clipboard),
        KeyProcessStatus::Ignored
    );
}

#[test]
fn auto_pair_completes_and_steps_back() {
    let mut editor = Editor::new();
    editor.set_auto_pair(Some(DefaultAutoPair::default()));
    let mut clipboard: Option<String> = None;
    type_text(&mut editor, "foo(", &mut clipboard);
    assert_eq!(line_of(&editor), "foo()");
    assert_eq!(cursor_of(&editor), 4);
}

#[test]
fn auto_pair_with_custom_pairs() {
    let mut editor = Editor::new();
    editor.set_auto_pair(Some(DefaultAutoPair::with_pairs(vec![('<', '>')])));
    let mut clipboard: Option<String> = None;
    type_text(&mut editor, "a<", &mut clipboard);
    assert_eq!(line_of(&editor), "a<>");
    assert_eq!(cursor_of(&editor), 2);
    type_text(&mut editor, "(", &mut clipboard);
    assert_eq!(line_of(&editor), "a<(>");
}

#[test]
fn delete_selection_scenario() {
    let mut editor = Editor::new();
    let mut clipboard: Option<String> = None;
    type_text(&mut editor, "abcdef", &mut clipboard);
    move_cursor_to(&mut editor, 1, &mut clipboard);
    for _ in 0..3 {
        let status = editor.handle_editor_event(&LineEditorEvent::SelectRight, &mut clipboard);
        assert_eq!(status, EventStatus::SelectionHandled);
    }
    assert_eq!(editor.selection_range(), (1, 4));
    let status = editor.handle_editor_event(&LineEditorEvent::Delete, &mut clipboard);
    assert_eq!(status, EventStatus::EditHandled);
    assert_eq!(line_of(&editor), "aef");
    assert_eq!(cursor_of(&editor), 1);
    assert_eq!(editor.selection_range(), (1, 1));
}

#[test]
fn selection_normalization() {
    let mut clipboard: Option<String> = None;

    let mut backward = Editor::new();
    type_text(&mut backward, "abcdef", &mut clipboard);
    move_cursor_to(&mut backward, 5, &mut clipboard);
    for _ in 0..3 {
        backward.handle_editor_event(&LineEditorEvent::SelectLeft, &mut clipboard);
    }
    assert_eq!(backward.selection_range(), (5, 2));
    backward.handle_editor_event(&LineEditorEvent::Delete, &mut clipboard);

    let mut forward = Editor::new();
    type_text(&mut forward, "abcdef", &mut clipboard);
    move_cursor_to(&mut forward, 2, &mut clipboard);
    for _ in 0..3 {
        forward.handle_editor_event(&LineEditorEvent::SelectRight, &mut clipboard);
    }
    assert_eq!(forward.selection_range(), (2, 5));
    forward.handle_editor_event(&LineEditorEvent::Delete, &mut clipboard);

    assert_eq!(line_of(&backward), "abf");
    assert_eq!(line_of(&forward), "abf");
    assert_eq!(cursor_of(&backward), 2);
    assert_eq!(cursor_of(&forward), 2);
}

#[test]
fn selection_respects_boundaries() {
    let mut editor = Editor::new();
    let mut clipboard: Option<String> = None;
    type_text(&mut editor, "ab", &mut clipboard);
    assert_eq!(
        editor.handle_editor_event(&LineEditorEvent::SelectRight, &mut clipboard),
        EventStatus::Inapplicable
    );
    move_cursor_to(&mut editor, 0, &mut clipboard);
    assert_eq!(
        editor.handle_editor_event(&LineEditorEvent::SelectLeft, &mut clipboard),
        EventStatus::Inapplicable
    );
    assert_eq!(
        editor.handle_editor_event(&LineEditorEvent::SelectAll, &mut clipboard),
        EventStatus::SelectionHandled
    );
    assert_eq!(editor.selection_range(), (0, 2));
}

#[test]
fn backspace_without_selection_deletes_left() {
    let mut editor = Editor::new();
    let mut clipboard: Option<String> = None;
    type_text(&mut editor, "abc", &mut clipboard);
    editor.handle_editor_event(&LineEditorEvent::Backspace, &mut clipboard);
    assert_eq!(line_of(&editor), "ab");
    assert_eq!(editor.selection_range(), (2, 2));
}

#[test]
fn cut_writes_the_clipboard_and_deletes() {
    let mut editor = Editor::new();
    let mut clipboard: Option<String> = None;
    type_text(&mut editor, "abcdef", &mut clipboard);
    move_cursor_to(&mut editor, 1, &mut clipboard);
    for _ in 0..3 {
        editor.handle_editor_event(&LineEditorEvent::SelectRight, &mut clipboard);
    }
    let status = editor.handle_editor_event(&LineEditorEvent::CutSelected, &mut clipboard);
    assert_eq!(status, EventStatus::GeneralHandled);
    assert_eq!(clipboard, Some("bcd".to_string()));
    assert_eq!(line_of(&editor), "aef");
    assert_eq!(editor.selection_range(), (1, 1));
}

#[test]
fn cut_without_selection_is_inapplicable() {
    let mut editor = Editor::new();
    let mut clipboard: Option<String> = None;
    type_text(&mut editor, "ab", &mut clipboard);
    let status = editor.handle_editor_event(&LineEditorEvent::CutSelected, &mut clipboard);
    assert_eq!(status, EventStatus::Inapplicable);
    assert_eq!(clipboard, None);
    assert_eq!(line_of(&editor), "ab");
}

#[test]
fn copy_writes_the_clipboard_and_keeps_the_line() {
    let mut editor = Editor::new();
    let mut clipboard: Option<String> = None;
    type_text(&mut editor, "abcd", &mut clipboard);
    move_cursor_to(&mut editor, 0, &mut clipboard);
    editor.handle_editor_event(&LineEditorEvent::SelectRight, &mut clipboard);
    editor.handle_editor_event(&LineEditorEvent::SelectRight, &mut clipboard);
    let status = editor.handle_editor_event(&LineEditorEvent::CopySelected, &mut clipboard);
    assert_eq!(status, EventStatus::GeneralHandled);
    assert_eq!(clipboard, Some("ab".to_string()));
    assert_eq!(line_of(&editor), "abcd");
    assert_eq!(editor.selection_range(), (0, 2));
}

#[test]
fn paste_replaces_the_selection() {
    let mut editor = Editor::new();
    let mut clipboard: Option<String> = Some("XY".to_string());
    type_text(&mut editor, "abcdef", &mut clipboard);
    move_cursor_to(&mut editor, 1, &mut clipboard);
    for _ in 0..3 {
        editor.handle_editor_event(&LineEditorEvent::SelectRight, &mut clipboard);
    }
    let status = editor.handle_editor_event(&LineEditorEvent::Paste, &mut clipboard);
    assert_eq!(status, EventStatus::GeneralHandled);
    assert_eq!(line_of(&editor), "aXYef");
    assert_eq!(cursor_of(&editor), 3);
    assert_eq!(clipboard, Some("XY".to_string()));
}

#[test]
fn paste_inserts_at_the_cursor() {
    let mut editor = Editor::new();
    let mut clipboard: Option<String> = Some("zz".to_string());
    type_text(&mut editor, "ab", &mut clipboard);
    move_cursor_to(&mut editor, 1, &mut clipboard);
    let status = editor.handle_editor_event(&LineEditorEvent::Paste, &mut clipboard);
    assert_eq!(status, EventStatus::GeneralHandled);
    assert_eq!(line_of(&editor), "azzb");
    assert_eq!(cursor_of(&editor), 3);
}

#[test]
fn paste_with_an_empty_clipboard_is_inapplicable() {
    let mut editor = Editor::new();
    let mut clipboard: Option<String> = None;
    type_text(&mut editor, "ab", &mut clipboard);
    let status = editor.handle_editor_event(&LineEditorEvent::Paste, &mut clipboard);
    assert_eq!(status, EventStatus::Inapplicable);
    assert_eq!(line_of(&editor), "ab");
}

#[test]
fn edit_event_runs_commands_in_order() {
    let mut editor = Editor::new();
    let mut clipboard: Option<String> = None;
    let event = LineEditorEvent::Edit(vec![
        EditCommand::InsertString("ab".to_string()),
        EditCommand::InsertChar('c'),
        EditCommand::DeleteLeftChar,
    ]);
    let status = editor.handle_editor_event(&event, &mut clipboard);
    assert_eq!(status, EventStatus::EditHandled);
    assert_eq!(line_of(&editor), "ab");
    assert_eq!(cursor_of(&editor), 2);
    assert_eq!(editor.selection_range(), (2, 2));
}

#[test]
fn clear_command_empties_the_line() {
    let mut editor = Editor::new();
    let mut clipboard: Option<String> = None;
    type_text(&mut editor, "abc", &mut clipboard);
    let event = LineEditorEvent::Edit(vec![EditCommand::Clear]);
    editor.handle_editor_event(&event, &mut clipboard);
    assert_eq!(line_of(&editor), "");
    assert_eq!(cursor_of(&editor), 0);
    assert_eq!(editor.selection_range(), (0, 0));
}

#[test]
fn word_jump_through_a_bound_key() {
    let mut editor = Editor::new();
    editor.keybinding().register_common_navigation_bindings();
    let mut clipboard: Option<String> = None;
    type_text(&mut editor, "foo bar", &mut clipboard);
    let control_left = KeyCombination {
        key_kind: KeyPressKind::Press,
        modifier: KeyModifierSet::control_only(),
        key_code: KeyCode::Left,
    };
    assert_eq!(
        editor.process_key(&control_left, &mut clipboard),
        KeyProcessStatus::Processed
    );
    assert_eq!(cursor_of(&editor), 4);
}

#[test]
fn escape_is_inapplicable() {
    let mut editor = Editor::new();
    let mut clipboard: Option<String> = None;
    let status = editor.handle_editor_event(&LineEditorEvent::Esc, &mut clipboard);
    assert_eq!(status, EventStatus::Inapplicable);
}

#[test]
fn highlighter_runs_during_the_pipeline() {
    let mut editor = Editor::new();
    editor.add_highlighter(FirstCharRed);
    let mut clipboard: Option<String> = None;
    type_text(&mut editor, "ab", &mut clipboard);
    let styles = editor.editor_ref().styled_buffer_ref().styles().clone();
    let mut red = Style::default();
    red.set_foreground_color(Color::Red);
    assert_eq!(styles[0], red);
    assert_eq!(styles[1], Style::default());
}

#[test]
fn highlighting_is_reproducible_after_reset() {
    let highlighter = FirstCharRed;
    let mut buffer = StyledBuffer::from_text("abc");
    buffer.reset_styles();
    highlighter.highlight(&mut buffer);
    let first_pass = buffer.styles().clone();
    buffer.reset_styles();
    highlighter.highlight(&mut buffer);
    assert_eq!(buffer.styles(), &first_pass);
}

#[test]
fn visual_selection_is_overlaid_after_highlighting() {
    let mut editor = Editor::new();
    editor.keybinding().register_common_selection_bindings();
    let mut highlight = Style::default();
    highlight.set_background_color(Color::DarkGrey);
    editor.set_visual_selection_style(Some(highlight.clone()));
    let mut clipboard: Option<String> = None;
    type_text(&mut editor, "ab", &mut clipboard);
    let status = editor.process_key(&shift_press(KeyCode::Left), &mut clipboard);
    assert_eq!(status, KeyProcessStatus::Processed);
    assert_eq!(editor.selection_range(), (2, 1));
    let styles = editor.editor_ref().styled_buffer_ref().styles().clone();
    assert_eq!(styles[0], Style::default());
    assert_eq!(styles[1], highlight);
}

#[test]
fn hint_short_circuits_at_the_first_hinter() {
    let mut editor = Editor::new();
    editor.add_hinter(FixedHinter::X);
    editor.add_hinter(FixedHinter::Y);
    let mut clipboard: Option<String> = None;
    type_text(&mut editor, "ab", &mut clipboard);
    let hint = editor.current_hint().expect("a hint while the cursor is at the end");
    assert_eq!(hint.literal(), "X");
}

#[test]
fn no_hint_away_from_the_buffer_end() {
    let mut editor = Editor::new();
    editor.add_hinter(FixedHinter::X);
    let mut clipboard: Option<String> = None;
    type_text(&mut editor, "ab", &mut clipboard);
    move_cursor_to(&mut editor, 1, &mut clipboard);
    assert!(editor.current_hint().is_none());
}
