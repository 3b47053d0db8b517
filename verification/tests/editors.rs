use std::collections::HashMap;

use ciphey::editors::{
    list_editor_key, save_confirmation_key, settings_key, theme_picker_key, toggle_list_key,
    wordlist_manager_key, ListEditor, ManagerExit, SettingsCommand, SettingsCursor, ThemePicker,
    ToggleList,
};
use ciphey::input::Action;
use ciphey::keys::{Key, KeyPress};
use ciphey::setup::CustomColors;
use ciphey::state::{WordlistFileInfo, WordlistManagerFocus};
use ciphey::text_input::TextInput;

fn k(code: Key) -> KeyPress {
    KeyPress::plain(code)
}

fn editor() -> ListEditor {
    ListEditor { items: Vec::new(), selected_item: None, text_input: TextInput::new() }
}

#[test]
fn list_editor_adds_and_removes() {
    let mut e = editor();
    for c in "  tag one ".chars() {
        list_editor_key(&mut e, k(Key::Char(c)));
    }
    list_editor_key(&mut e, k(Key::Enter));
    assert_eq!(e.items, vec!["tag one"]);
    assert_eq!(e.selected_item, Some(0));
    assert!(e.text_input.is_empty());
    for c in "two".chars() {
        list_editor_key(&mut e, k(Key::Char(c)));
    }
    list_editor_key(&mut e, k(Key::Enter));
    assert_eq!(e.selected_item, Some(1));
    list_editor_key(&mut e, k(Key::Down));
    assert_eq!(e.selected_item, Some(0));
    list_editor_key(&mut e, k(Key::Up));
    assert_eq!(e.selected_item, Some(1));
    list_editor_key(&mut e, k(Key::Backspace));
    assert_eq!(e.items, vec!["tag one"]);
    assert_eq!(e.selected_item, Some(0));
    list_editor_key(&mut e, k(Key::Delete));
    assert!(e.items.is_empty());
    assert_eq!(e.selected_item, None);
    list_editor_key(&mut e, k(Key::Enter));
    assert!(e.items.is_empty());
    assert!(list_editor_key(&mut e, k(Key::Esc)));
}

#[test]
fn list_editor_shifted_k_is_typed() {
    let mut e = editor();
    list_editor_key(&mut e, KeyPress::with_shift(Key::Char('K')));
    assert_eq!(e.text_input.get_text(), "K");
}

#[test]
fn toggle_list_toggles() {
    let mut t = ToggleList {
        all_items: vec!["a".to_string(), "b".to_string(), "c".to_string()],
        selected_items: vec!["b".to_string()],
        cursor_index: 0,
        scroll_offset: 0,
    };
    toggle_list_key(&mut t, k(Key::Char(' ')));
    assert_eq!(t.selected_items, vec!["b", "a"]);
    toggle_list_key(&mut t, k(Key::Down));
    toggle_list_key(&mut t, k(Key::Char(' ')));
    assert_eq!(t.selected_items, vec!["a"]);
    toggle_list_key(&mut t, k(Key::Char('a')));
    assert_eq!(t.selected_items, vec!["a", "b", "c"]);
    toggle_list_key(&mut t, k(Key::Char('n')));
    assert!(t.selected_items.is_empty());
    toggle_list_key(&mut t, k(Key::Down));
    toggle_list_key(&mut t, k(Key::Down));
    assert_eq!(t.cursor_index, 2);
    toggle_list_key(&mut t, k(Key::Up));
    assert_eq!(t.cursor_index, 1);
    assert!(toggle_list_key(&mut t, k(Key::Enter)));
}

#[test]
fn toggle_list_scrolls_past_visible_rows() {
    let mut t = ToggleList {
        all_items: (0..20).map(|i| i.to_string()).collect(),
        selected_items: Vec::new(),
        cursor_index: 0,
        scroll_offset: 0,
    };
    for _ in 0..15 {
        toggle_list_key(&mut t, k(Key::Down));
    }
    assert_eq!(t.cursor_index, 15);
    assert_eq!(t.scroll_offset, 1);
}

fn file(id: i64, enabled: bool) -> WordlistFileInfo {
    WordlistFileInfo {
        id,
        filename: format!("f{}.txt", id),
        file_path: format!("/tmp/f{}.txt", id),
        source: "user_import".to_string(),
        word_count: 10,
        enabled,
        added_date: "today".to_string(),
    }
}

#[test]
fn wordlist_manager_keys() {
    let mut m = ciphey::editors::WordlistManager {
        wordlist_files: vec![file(1, true), file(2, false)],
        selected_row: 0,
        focus: WordlistManagerFocus::Table,
        text_input: TextInput::new(),
        pending_changes: HashMap::new(),
    };
    wordlist_manager_key(&mut m, k(Key::Up));
    assert_eq!(m.selected_row, 1);
    wordlist_manager_key(&mut m, k(Key::Char(' ')));
    assert!(m.wordlist_files[1].enabled);
    assert_eq!(m.pending_changes.get(&2), Some(&true));
    let (a, x) = wordlist_manager_key(&mut m, k(Key::Delete));
    assert_eq!(a, Action::DeleteWordlist(2));
    assert_eq!(x, ManagerExit::Stay);
    assert_eq!(m.wordlist_files.len(), 1);
    assert_eq!(m.selected_row, 0);
    wordlist_manager_key(&mut m, k(Key::Tab));
    assert_eq!(m.focus, WordlistManagerFocus::AddPathInput);
    for c in "/w.txt".chars() {
        wordlist_manager_key(&mut m, k(Key::Char(c)));
    }
    let (a, _) = wordlist_manager_key(&mut m, k(Key::Enter));
    assert_eq!(a, Action::ImportWordlist("/w.txt".to_string()));
    assert_eq!(m.focus, WordlistManagerFocus::Table);
    assert!(m.text_input.is_empty());
    let (_, x) = wordlist_manager_key(&mut m, k(Key::Enter));
    assert_eq!(x, ManagerExit::Finish);
    let (_, x) = wordlist_manager_key(&mut m, k(Key::Esc));
    assert_eq!(x, ManagerExit::Cancel);
}

#[test]
fn theme_picker_keys() {
    let mut p = ThemePicker {
        selected_theme: 0,
        custom_mode: false,
        custom_colors: CustomColors::default(),
        custom_field: 0,
    };
    assert!(theme_picker_key(&mut p, k(Key::Down)).is_none());
    let r = theme_picker_key(&mut p, k(Key::Enter)).unwrap().unwrap();
    assert_eq!(r.informational, (241, 250, 140));
    assert!(theme_picker_key(&mut p, k(Key::Esc)).unwrap().is_none());
    theme_picker_key(&mut p, k(Key::Up));
    theme_picker_key(&mut p, k(Key::Up));
    assert_eq!(p.selected_theme, 23);
    theme_picker_key(&mut p, k(Key::Enter));
    assert!(p.custom_mode);
    for f in ["1,1,1", "2,2,2", "3,3,3", "4,4,4", "5,5,5"] {
        for c in f.chars() {
            theme_picker_key(&mut p, k(Key::Char(c)));
        }
        theme_picker_key(&mut p, k(Key::Tab));
    }
    let s = theme_picker_key(&mut p, k(Key::Enter)).unwrap().unwrap();
    assert_eq!(s.question, (4, 4, 4));
    assert_eq!(s.error, (5, 5, 5));
}

#[test]
fn settings_cursor_wraps() {
    let mut c = SettingsCursor { selected_section: 2, selected_field: 4, scroll_offset: 3 };
    c.next_section(3);
    assert_eq!(c, SettingsCursor { selected_section: 0, selected_field: 0, scroll_offset: 0 });
    c.prev_section(3);
    assert_eq!(c.selected_section, 2);
    c.prev_field(5);
    assert_eq!(c.selected_field, 4);
    c.next_field(5);
    assert_eq!(c.selected_field, 0);
    c.next_section(0);
    assert_eq!(c.selected_section, 2);
}

#[test]
fn settings_keys() {
    assert_eq!(settings_key(true, false, k(Key::Esc)), SettingsCommand::CancelEdit);
    assert_eq!(settings_key(true, false, k(Key::Char('q'))), SettingsCommand::Type('q'));
    assert_eq!(settings_key(false, true, KeyPress::with_ctrl(Key::Char('s'))), SettingsCommand::Save);
    assert_eq!(settings_key(false, false, KeyPress::with_ctrl(Key::Char('s'))), SettingsCommand::Close);
    assert_eq!(settings_key(false, false, KeyPress::with_shift(Key::Tab)), SettingsCommand::PrevSection);
    assert_eq!(settings_key(false, false, k(Key::Tab)), SettingsCommand::NextSection);
    assert_eq!(settings_key(false, false, k(Key::Char(' '))), SettingsCommand::Edit);
}

#[test]
fn save_confirmation_keys() {
    assert_eq!(save_confirmation_key(k(Key::Char('y'))), (Some(true), false));
    assert_eq!(save_confirmation_key(k(Key::Char('N'))), (Some(false), false));
    assert_eq!(save_confirmation_key(k(Key::Esc)), (None, true));
    assert_eq!(save_confirmation_key(k(Key::Char('x'))), (None, false));
}
