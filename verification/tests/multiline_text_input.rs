use ciphey::multiline_text_input::MultilineTextInput;

#[test]
fn test_new() {
    let input = MultilineTextInput::new();
    assert!(input.is_empty());
    assert_eq!(input.line_count(), 1);
    assert_eq!(input.cursor_pos(), (0, 0));
}

#[test]
fn multiline_text_input_test_insert_char() {
    let mut input = MultilineTextInput::new();
    input.insert_char('h');
    input.insert_char('i');
    assert_eq!(input.get_text(), "hi");
    assert_eq!(input.cursor_pos(), (0, 2));
}

#[test]
fn test_insert_newline() {
    let mut input = MultilineTextInput::new();
    input.insert_char('a');
    input.insert_newline();
    input.insert_char('b');
    assert_eq!(input.get_text(), "a\nb");
    assert_eq!(input.line_count(), 2);
    assert_eq!(input.cursor_pos(), (1, 1));
}

#[test]
fn test_insert_newline_middle() {
    let mut input = MultilineTextInput::new();
    input.set_text("hello");
    input.move_cursor_home();
    input.move_cursor_right();
    input.move_cursor_right(); // cursor at 'l'
    input.insert_newline();
    assert_eq!(input.get_text(), "he\nllo");
    assert_eq!(input.cursor_pos(), (1, 0));
}

#[test]
fn multiline_text_input_test_backspace() {
    let mut input = MultilineTextInput::new();
    input.set_text("abc");
    input.backspace();
    assert_eq!(input.get_text(), "ab");
}

#[test]
fn test_backspace_join_lines() {
    let mut input = MultilineTextInput::new();
    input.set_text("a\nb");
    input.move_cursor_home(); // cursor at start of line 1
    input.backspace();
    assert_eq!(input.get_text(), "ab");
    assert_eq!(input.line_count(), 1);
}

#[test]
fn multiline_text_input_test_delete() {
    let mut input = MultilineTextInput::new();
    input.set_text("abc");
    input.move_cursor_home();
    input.delete();
    assert_eq!(input.get_text(), "bc");
}

#[test]
fn test_delete_join_lines() {
    let mut input = MultilineTextInput::new();
    input.set_text("a\nb");
    input.move_cursor_to_start();
    input.move_cursor_end(); // end of first line
    input.delete();
    assert_eq!(input.get_text(), "ab");
    assert_eq!(input.line_count(), 1);
}

#[test]
fn test_move_cursor_up_down() {
    let mut input = MultilineTextInput::new();
    input.set_text("abc\ndef\nghi");
    input.move_cursor_to_start();

    input.move_cursor_down();
    assert_eq!(input.cursor_pos(), (1, 0));

    input.move_cursor_down();
    assert_eq!(input.cursor_pos(), (2, 0));

    input.move_cursor_up();
    assert_eq!(input.cursor_pos(), (1, 0));
}

#[test]
fn test_cursor_column_clamp() {
    let mut input = MultilineTextInput::new();
    input.set_text("long line\nhi");
    input.move_cursor_to_start();
    input.move_cursor_end(); // col 9

    input.move_cursor_down();
    assert_eq!(input.cursor_pos(), (1, 2)); // clamped to line length
}

#[test]
fn test_set_text_empty() {
    let mut input = MultilineTextInput::new();
    input.set_text("");
    assert!(input.is_empty());
    assert_eq!(input.line_count(), 1);
}

#[test]
fn multiline_text_input_test_clear() {
    let mut input = MultilineTextInput::new();
    input.set_text("multi\nline\ntext");
    input.clear();
    assert!(input.is_empty());
    assert_eq!(input.cursor_pos(), (0, 0));
}

#[test]
fn test_unicode() {
    let mut input = MultilineTextInput::new();
    input.insert_char('世');
    input.insert_char('界');
    assert_eq!(input.get_text(), "世界");
    assert_eq!(input.cursor_pos(), (0, 2));
    assert_eq!(input.char_count(), 2);
}

#[test]
fn test_scroll() {
    let mut input = MultilineTextInput::new();
    input.set_text("1\n2\n3\n4\n5");

    input.scroll_down(3);
    assert_eq!(input.scroll_offset(), 1);

    input.scroll_up();
    assert_eq!(input.scroll_offset(), 0);
}

#[test]
fn test_ensure_cursor_visible() {
    let mut input = MultilineTextInput::new();
    input.set_text("1\n2\n3\n4\n5\n6\n7\n8\n9\n10");
    input.move_cursor_to_end();

    input.ensure_cursor_visible(3);
    let cursor_line = input.cursor_pos().0;
    assert!(cursor_line >= input.scroll_offset());
    assert!(cursor_line < input.scroll_offset() + 3);
}

#[test]
fn set_text_follows_str_lines() {
    let mut input = MultilineTextInput::new();
    input.set_text("a\r\nb\n\nc\n");
    assert_eq!(input.lines().to_vec(), vec!["a", "b", "", "c"]);
    assert_eq!(input.cursor_pos(), (3, 1));
    input.set_text("x\ry");
    assert_eq!(input.lines().to_vec(), vec!["x\ry"]);
    input.set_text("\n");
    assert_eq!(input.lines().to_vec(), vec![""]);
}

#[test]
fn set_text_then_get_text_round_trips() {
    let mut input = MultilineTextInput::new();
    input.set_text("first\nsecond 世界\nthird");
    assert_eq!(input.get_text(), "first\nsecond 世界\nthird");
    assert_eq!(input.char_count(), 19);
}

#[test]
fn newline_then_backspace_restores() {
    let mut input = MultilineTextInput::new();
    input.set_text("hello");
    input.move_cursor_left();
    input.move_cursor_left();
    input.insert_newline();
    assert_eq!(input.get_text(), "hel\nlo");
    input.backspace();
    assert_eq!(input.get_text(), "hello");
    assert_eq!(input.cursor_pos(), (0, 3));
}

#[test]
fn cursor_wraps_across_lines() {
    let mut input = MultilineTextInput::new();
    input.set_text("ab\ncd");
    input.move_cursor_home();
    input.move_cursor_left();
    assert_eq!(input.cursor_pos(), (0, 2));
    input.move_cursor_right();
    assert_eq!(input.cursor_pos(), (1, 0));
    input.move_cursor_to_start();
    assert!(input.is_cursor_at_start());
}

#[test]
fn scroll_offset_is_clamped() {
    let mut input = MultilineTextInput::new();
    input.set_text("1\n2\n3");
    input.set_scroll_offset(10);
    assert_eq!(input.scroll_offset(), 2);
    input.ensure_cursor_visible(0);
    assert_eq!(input.scroll_offset(), 2);
    input.scroll_down(2);
    assert_eq!(input.scroll_offset(), 2);
}
