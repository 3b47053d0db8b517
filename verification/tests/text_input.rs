use ciphey::text::char_to_byte_pos;
use ciphey::text_input::TextInput;

#[test]
fn test_new_text_input() {
    let input = TextInput::new();
    assert_eq!(input.get_text(), "");
    assert_eq!(input.cursor_pos(), 0);
    assert!(input.is_empty());
    assert_eq!(input.len(), 0);
}

#[test]
fn text_input_test_insert_char() {
    let mut input = TextInput::new();
    input.insert_char('h');
    input.insert_char('e');
    input.insert_char('l');
    input.insert_char('l');
    input.insert_char('o');

    assert_eq!(input.get_text(), "hello");
    assert_eq!(input.cursor_pos(), 5);
    assert_eq!(input.len(), 5);
    assert!(!input.is_empty());
}

#[test]
fn test_insert_unicode() {
    let mut input = TextInput::new();
    input.insert_char('世');
    input.insert_char('界');

    assert_eq!(input.get_text(), "世界");
    assert_eq!(input.cursor_pos(), 2);
    assert_eq!(input.len(), 2);
}

#[test]
fn text_input_test_backspace() {
    let mut input = TextInput::new();
    input.insert_char('a');
    input.insert_char('b');
    input.insert_char('c');
    input.backspace();

    assert_eq!(input.get_text(), "ab");
    assert_eq!(input.cursor_pos(), 2);
}

#[test]
fn test_backspace_at_start() {
    let mut input = TextInput::new();
    input.insert_char('a');
    input.move_cursor_left();
    input.backspace();

    assert_eq!(input.get_text(), "a");
    assert_eq!(input.cursor_pos(), 0);
}

#[test]
fn text_input_test_delete() {
    let mut input = TextInput::new();
    input.insert_char('a');
    input.insert_char('b');
    input.insert_char('c');
    input.move_cursor_left();
    input.move_cursor_left();
    input.delete();

    assert_eq!(input.get_text(), "ac");
    assert_eq!(input.cursor_pos(), 1);
}

#[test]
fn test_delete_at_end() {
    let mut input = TextInput::new();
    input.insert_char('a');
    input.delete();

    assert_eq!(input.get_text(), "a");
    assert_eq!(input.cursor_pos(), 1);
}

#[test]
fn text_input_test_clear() {
    let mut input = TextInput::new();
    input.insert_char('h');
    input.insert_char('i');
    input.clear();

    assert_eq!(input.get_text(), "");
    assert_eq!(input.cursor_pos(), 0);
    assert!(input.is_empty());
}

#[test]
fn test_set_text() {
    let mut input = TextInput::new();
    input.set_text("hello world");

    assert_eq!(input.get_text(), "hello world");
    assert_eq!(input.cursor_pos(), 11);
}

#[test]
fn test_move_cursor_left() {
    let mut input = TextInput::new();
    input.insert_char('a');
    input.insert_char('b');
    input.move_cursor_left();

    assert_eq!(input.cursor_pos(), 1);
}

#[test]
fn test_move_cursor_right() {
    let mut input = TextInput::new();
    input.insert_char('a');
    input.insert_char('b');
    input.move_cursor_left();
    input.move_cursor_right();

    assert_eq!(input.cursor_pos(), 2);
}

#[test]
fn test_move_cursor_home() {
    let mut input = TextInput::new();
    input.insert_char('h');
    input.insert_char('e');
    input.insert_char('l');
    input.move_cursor_home();

    assert_eq!(input.cursor_pos(), 0);
}

#[test]
fn test_move_cursor_end() {
    let mut input = TextInput::new();
    input.insert_char('h');
    input.insert_char('e');
    input.move_cursor_home();
    input.move_cursor_end();

    assert_eq!(input.cursor_pos(), 2);
}

#[test]
fn test_insert_at_middle() {
    let mut input = TextInput::new();
    input.insert_char('a');
    input.insert_char('c');
    input.move_cursor_left();
    input.insert_char('b');

    assert_eq!(input.get_text(), "abc");
    assert_eq!(input.cursor_pos(), 2);
}

#[test]
fn test_max_length() {
    let mut input = TextInput::with_max_length(3);
    input.insert_char('a');
    input.insert_char('b');
    input.insert_char('c');
    input.insert_char('d'); // Should not be inserted

    assert_eq!(input.get_text(), "abc");
    assert_eq!(input.len(), 3);
}

#[test]
fn test_set_text_with_max_length() {
    let mut input = TextInput::with_max_length(5);
    input.set_text("hello world");

    assert_eq!(input.get_text(), "hello");
    assert_eq!(input.cursor_pos(), 5);
}

#[test]
fn test_default() {
    let input = TextInput::default();
    assert_eq!(input.get_text(), "");
    assert_eq!(input.cursor_pos(), 0);
}

#[test]
fn test_backspace_unicode() {
    let mut input = TextInput::new();
    input.insert_char('h');
    input.insert_char('世');
    input.insert_char('界');
    input.backspace();

    assert_eq!(input.get_text(), "h世");
    assert_eq!(input.cursor_pos(), 2);
}

#[test]
fn char_to_byte_pos_counts_utf8_widths() {
    assert_eq!(char_to_byte_pos("a世b", 0), 0);
    assert_eq!(char_to_byte_pos("a世b", 1), 1);
    assert_eq!(char_to_byte_pos("a世b", 2), 4);
    assert_eq!(char_to_byte_pos("a世b", 3), 5);
    assert_eq!(char_to_byte_pos("a世b", 10), 5);
    assert_eq!(char_to_byte_pos("é😀", 1), 2);
}

#[test]
fn insert_then_backspace_restores_text() {
    let mut input = TextInput::new();
    input.set_text("héllo");
    input.move_cursor_left();
    input.move_cursor_left();
    input.insert_char('界');
    assert_eq!(input.get_text(), "hél界lo");
    input.backspace();
    assert_eq!(input.get_text(), "héllo");
    assert_eq!(input.cursor_pos(), 3);
}

#[test]
fn delete_in_middle_of_multibyte_text() {
    let mut input = TextInput::new();
    input.set_text("a世界b");
    input.move_cursor_home();
    input.move_cursor_right();
    input.delete();
    assert_eq!(input.get_text(), "a界b");
    assert_eq!(input.cursor_pos(), 1);
}

#[test]
fn cursor_does_not_pass_the_ends() {
    let mut input = TextInput::new();
    input.move_cursor_left();
    assert_eq!(input.cursor_pos(), 0);
    input.set_text("ab");
    input.move_cursor_right();
    assert_eq!(input.cursor_pos(), 2);
}

#[test]
fn clear_keeps_limit() {
    let mut input = TextInput::with_max_length(2);
    input.set_text("abc");
    input.clear();
    input.insert_char('x');
    input.insert_char('y');
    input.insert_char('z');
    assert_eq!(input.get_text(), "xy");
}
