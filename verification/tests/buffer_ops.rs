use lineeditor::style::{Attribute, Color, Style};
use lineeditor::styled_buffer::StyledBuffer;

#[test]
fn insert_char_advances_cursor() {
    let mut buffer = StyledBuffer::default();
    buffer.insert_char('a');
    buffer.insert_char('b');
    assert_eq!(buffer.literal(), "ab");
    assert_eq!(buffer.position(), 2);
    assert_eq!(buffer.len(), 2);
    assert!(!buffer.is_empty());
    assert!(buffer.is_cursor_at_the_end());
}

#[test]
fn insert_in_the_middle_shifts_right() {
    let mut buffer = StyledBuffer::from_text("ac");
    buffer.set_position(1);
    buffer.insert_char('b');
    assert_eq!(buffer.literal(), "abc");
    assert_eq!(buffer.position(), 2);
}

#[test]
fn styles_stay_aligned_with_characters() {
    let mut buffer = StyledBuffer::from_text("abc");
    assert_eq!(buffer.styles().len(), 3);
    buffer.delete_left_char();
    assert_eq!(buffer.styles().len(), 2);
    buffer.insert_char('z');
    assert_eq!(buffer.styles().len(), 3);
    buffer.clear();
    assert_eq!(buffer.styles().len(), 0);
    assert_eq!(buffer.len(), 0);
    assert_eq!(buffer.position(), 0);
}

#[test]
fn insert_then_delete_left_restores_buffer() {
    let mut buffer = StyledBuffer::from_text("abc");
    buffer.set_position(1);
    buffer.insert_char('x');
    assert_eq!(buffer.literal(), "axbc");
    assert_eq!(buffer.position(), 2);
    buffer.delete_left_char();
    assert_eq!(buffer.literal(), "abc");
    assert_eq!(buffer.position(), 1);
}

#[test]
fn move_char_clamps_at_boundaries() {
    let mut buffer = StyledBuffer::from_text("ab");
    buffer.move_char_right();
    assert_eq!(buffer.position(), 2);
    buffer.move_char_left();
    buffer.move_char_left();
    buffer.move_char_left();
    assert_eq!(buffer.position(), 0);
    buffer.move_to_end();
    assert_eq!(buffer.position(), 2);
    buffer.move_to_start();
    assert_eq!(buffer.position(), 0);
}

#[test]
fn word_motion_round_trip() {
    let mut buffer = StyledBuffer::from_text("foo bar baz");
    assert_eq!(buffer.position(), 11);
    buffer.move_word_left();
    assert_eq!(buffer.position(), 8);
    buffer.move_word_left();
    assert_eq!(buffer.position(), 4);
    buffer.move_word_left();
    assert_eq!(buffer.position(), 0);
    buffer.move_word_right();
    assert_eq!(buffer.position(), 4);
    buffer.move_word_right();
    assert_eq!(buffer.position(), 8);
    buffer.move_word_right();
    assert_eq!(buffer.position(), 11);
}

#[test]
fn move_word_on_empty_buffer_is_a_no_op() {
    let mut buffer = StyledBuffer::default();
    buffer.move_word_left();
    assert_eq!(buffer.position(), 0);
    buffer.move_word_right();
    assert_eq!(buffer.position(), 0);
}

#[test]
fn delete_right_skips_last_character() {
    let mut buffer = StyledBuffer::from_text("abc");
    buffer.set_position(1);
    buffer.delete_right_char();
    assert_eq!(buffer.literal(), "ac");
    assert_eq!(buffer.position(), 1);
    let mut end_buffer = StyledBuffer::from_text("abc");
    end_buffer.set_position(2);
    end_buffer.delete_right_char();
    assert_eq!(end_buffer.literal(), "abc");
}

#[test]
fn delete_left_at_start_is_a_no_op() {
    let mut buffer = StyledBuffer::from_text("abc");
    buffer.set_position(0);
    buffer.delete_left_char();
    assert_eq!(buffer.literal(), "abc");
    assert_eq!(buffer.position(), 0);
}

#[test]
fn delete_range_removes_half_open_range() {
    let mut buffer = StyledBuffer::from_text("abcdef");
    buffer.delete_range(1, 4);
    assert_eq!(buffer.literal(), "aef");
    assert_eq!(buffer.position(), 1);
}

#[test]
fn delete_range_rejects_out_of_bounds() {
    let mut buffer = StyledBuffer::from_text("abc");
    buffer.delete_range(1, 9);
    assert_eq!(buffer.literal(), "abc");
    buffer.delete_range(2, 1);
    assert_eq!(buffer.literal(), "abc");
}

#[test]
fn set_position_rejects_out_of_bounds() {
    let mut buffer = StyledBuffer::from_text("abc");
    buffer.set_position(9);
    assert_eq!(buffer.position(), 3);
    buffer.set_position(2);
    assert_eq!(buffer.position(), 2);
}

#[test]
fn char_at_is_total() {
    let buffer = StyledBuffer::from_text("abc");
    assert_eq!(buffer.char_at(0), Some('a'));
    assert_eq!(buffer.char_at(2), Some('c'));
    assert_eq!(buffer.char_at(3), None);
}

#[test]
fn sub_string_requires_a_non_empty_valid_range() {
    let buffer = StyledBuffer::from_text("abcdef");
    assert_eq!(buffer.sub_string(1, 4), Some("bcd".to_string()));
    assert_eq!(buffer.sub_string(5, 6), Some("f".to_string()));
    assert_eq!(buffer.sub_string(2, 2), None);
    assert_eq!(buffer.sub_string(4, 2), None);
    assert_eq!(buffer.sub_string(0, 7), None);
}

#[test]
fn last_alphabetic_keyword_scans_backward() {
    assert_eq!(
        StyledBuffer::from_text("select fro").last_alphabetic_keyword(),
        Some("fro".to_string())
    );
    assert_eq!(
        StyledBuffer::from_text("abc").last_alphabetic_keyword(),
        Some("abc".to_string())
    );
    assert_eq!(StyledBuffer::from_text("abc ").last_alphabetic_keyword(), None);
    assert_eq!(StyledBuffer::from_text("ab1").last_alphabetic_keyword(), None);
    assert_eq!(StyledBuffer::default().last_alphabetic_keyword(), None);
}

#[test]
fn insert_string_inserts_at_cursor() {
    let mut buffer = StyledBuffer::from_text("ad");
    buffer.set_position(1);
    buffer.insert_string("bc");
    assert_eq!(buffer.literal(), "abcd");
    assert_eq!(buffer.position(), 3);
}

#[test]
fn insert_styled_string_applies_one_style() {
    let mut style = Style::default();
    style.set_foreground_color(Color::Red);
    let mut buffer = StyledBuffer::default();
    buffer.insert_styled_string("ab", style.clone());
    assert_eq!(buffer.literal(), "ab");
    assert_eq!(buffer.styles()[0], style);
    assert_eq!(buffer.styles()[1], style);
}

#[test]
fn style_range_clamps_its_upper_bound() {
    let mut style = Style::default();
    style.set_background_color(Color::Blue);
    let mut buffer = StyledBuffer::from_text("abc");
    buffer.style_range(1, 9, style.clone());
    assert_eq!(buffer.styles()[0], Style::default());
    assert_eq!(buffer.styles()[1], style);
    assert_eq!(buffer.styles()[2], style);
}

#[test]
fn style_char_and_style_all() {
    let mut style = Style::default();
    style.add_attribute(Attribute::Bold);
    let mut buffer = StyledBuffer::from_text("ab");
    buffer.style_char(1, style.clone());
    assert_eq!(buffer.styles()[0], Style::default());
    assert_eq!(buffer.styles()[1], style);
    buffer.style_all(style.clone());
    assert_eq!(buffer.styles()[0], style);
    buffer.style_char(5, Style::default());
    assert_eq!(buffer.styles()[0], style);
}

#[test]
fn reset_styles_blanks_every_entry() {
    let mut style = Style::default();
    style.set_foreground_color(Color::Green);
    let mut buffer = StyledBuffer::from_text("ab");
    buffer.style_all(style);
    buffer.reset_styles();
    assert_eq!(buffer.styles()[0], Style::default());
    assert_eq!(buffer.styles()[1], Style::default());
}

#[test]
fn set_styles_rejects_wrong_length() {
    let mut style = Style::default();
    style.set_foreground_color(Color::Cyan);
    let mut buffer = StyledBuffer::from_text("ab");
    let mut too_short = vec![style.clone()];
    buffer.set_styles(&mut too_short);
    assert_eq!(buffer.styles()[0], Style::default());
    assert_eq!(too_short.len(), 1);
    let mut matching = vec![style.clone(), style.clone()];
    buffer.set_styles(&mut matching);
    assert_eq!(buffer.styles()[0], style);
    assert_eq!(buffer.styles()[1], style);
    assert_eq!(matching.len(), 0);
}

#[test]
fn style_accessors_round_trip() {
    let mut style = Style::default();
    assert_eq!(style.foreground_color(), &None);
    assert_eq!(style.background_color(), &None);
    style.set_foreground_color(Color::Rgb { r: 1, g: 2, b: 3 });
    style.set_background_color(Color::AnsiValue(7));
    style.add_attribute(Attribute::Bold);
    style.add_attribute(Attribute::Italic);
    assert_eq!(style.foreground_color(), &Some(Color::Rgb { r: 1, g: 2, b: 3 }));
    assert_eq!(style.background_color(), &Some(Color::AnsiValue(7)));
    assert_eq!(style.attributes(), &vec![Attribute::Bold, Attribute::Italic]);
    style.clear_attributes();
    assert!(style.attributes().is_empty());
}
