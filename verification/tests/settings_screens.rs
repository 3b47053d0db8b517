use std::collections::HashMap;

use ciphey::app_state::{App, AppState};
use ciphey::dispatch::{handle_key_event, FollowUp};
use ciphey::editors::{ListEditor, ThemePicker, ToggleList, WordlistManager};
use ciphey::input::Action;
use ciphey::keys::{Key, KeyPress};
use ciphey::multiline_text_input::MultilineTextInput;
use ciphey::settings_screens::{
    FieldEdit, ListEditorState, SaveConfirmationState, SettingsState, SettingsStateSnapshot, ThemePickerState,
    ToggleListEditorState, WordlistManagerState,
};
use ciphey::setup::CustomColors;
use ciphey::state::{
    CrackResult, DecoderResult, HelpContext, HomeState, PreviousState, WordlistFileInfo,
    WordlistManagerFocus,
};
use ciphey::text_input::TextInput;

/// The settings values stand for themselves by a number here.
type Panel = u32;

fn home() -> HomeState {
    HomeState {
        text_input: MultilineTextInput::new(),
        history: Vec::new(),
        selected_history: None,
        history_scroll_offset: 0,
    }
}

fn snap(n: Panel) -> SettingsStateSnapshot<Panel> {
    SettingsStateSnapshot {
        settings: n,
        selected_section: 0,
        selected_field: 0,
        scroll_offset: 0,
        previous_state: PreviousState::Home(home()),
        validation_errors: Vec::new(),
    }
}

fn panel(n: Panel) -> AppState<Panel> {
    AppState::Settings(SettingsState {
        settings: n,
        selected_section: 0,
        selected_field: 0,
        editing_mode: false,
        text_input: TextInput::new(),
        scroll_offset: 0,
        previous_state: PreviousState::Home(home()),
        validation_errors: Vec::new(),
    })
}

/// Whether `app` shows the settings panel on the values `n`, not typing.
fn on_panel(app: &App<Panel>, n: Panel) -> bool {
    matches!(&app.state, AppState::Settings(ss) if ss.settings == n && !ss.editing_mode && ss.text_input.get_text().is_empty())
}

fn app_with(state: AppState<Panel>) -> App<Panel> {
    let mut app: App<Panel> = App::new("x".to_string());
    app.state = state;
    app
}

fn list_editor(items: &[&str]) -> AppState<Panel> {
    AppState::ListEditor(ListEditorState {
        field_id: "tags".to_string(),
        field_label: "Tags".to_string(),
        editor: ListEditor {
            items: items.iter().map(|s| s.to_string()).collect(),
            selected_item: None,
            text_input: TextInput::new(),
        },
        parent_settings: snap(7),
    })
}

fn toggle_list() -> AppState<Panel> {
    AppState::ToggleListEditor(ToggleListEditorState {
        field_id: "decoders".to_string(),
        field_label: "Decoders".to_string(),
        list: ToggleList {
            all_items: vec!["a".to_string(), "b".to_string()],
            selected_items: Vec::new(),
            cursor_index: 0,
            scroll_offset: 0,
        },
        parent_settings: snap(8),
    })
}

fn file(id: i64, enabled: bool) -> WordlistFileInfo {
    WordlistFileInfo {
        id,
        filename: "w.txt".to_string(),
        file_path: "/w.txt".to_string(),
        source: "user".to_string(),
        word_count: 3,
        enabled,
        added_date: "today".to_string(),
    }
}

fn manager() -> AppState<Panel> {
    AppState::WordlistManager(WordlistManagerState {
        manager: WordlistManager {
            wordlist_files: vec![file(1, true), file(2, false)],
            selected_row: 0,
            focus: WordlistManagerFocus::Table,
            text_input: TextInput::new(),
            pending_changes: HashMap::new(),
        },
        scroll_offset: 0,
        parent_settings: snap(9),
    })
}

#[test]
fn settings_screens_share_the_settings_help() {
    assert_eq!(app_with(list_editor(&[])).help_context(), HelpContext::Settings);
    assert_eq!(app_with(toggle_list()).help_context(), HelpContext::Settings);
    assert_eq!(app_with(manager()).help_context(), HelpContext::Settings);
}

#[test]
fn list_editor_methods_edit_the_list() {
    let mut app = app_with(list_editor(&["one", "two"]));
    app.list_editor_next_item();
    app.list_editor_next_item();
    app.list_editor_remove_item();
    if let AppState::ListEditor(le) = &mut app.state {
        assert_eq!(le.editor.items, vec!["one".to_string()]);
        assert_eq!(le.editor.selected_item, Some(0));
        le.editor.text_input.set_text("  three ");
    }
    app.list_editor_add_item();
    app.list_editor_prev_item();
    assert_eq!(
        app.finish_list_editor(),
        Some(("tags".to_string(), vec!["one".to_string(), "three".to_string()]))
    );
    assert!(on_panel(&app, 7));
    assert_eq!(app.finish_list_editor(), None);
}

#[test]
fn cancelling_the_list_editor_returns_to_the_panel() {
    let mut app = app_with(list_editor(&["one"]));
    app.cancel_list_editor();
    assert!(on_panel(&app, 7));
}

#[test]
fn list_editor_keys() {
    let mut app = app_with(list_editor(&[]));
    handle_key_event(&mut app, KeyPress::plain(Key::Char('x')), false);
    let r = handle_key_event(&mut app, KeyPress::plain(Key::Enter), false);
    assert_eq!(r.follow_up, FollowUp::Done);
    let r = handle_key_event(&mut app, KeyPress::plain(Key::Esc), false);
    assert_eq!(r.action, Action::Nothing);
    assert_eq!(r.follow_up, FollowUp::StoreList("tags".to_string(), vec!["x".to_string()]));
    assert!(on_panel(&app, 7));
}

#[test]
fn toggle_list_methods_and_keys() {
    let mut app = app_with(toggle_list());
    app.toggle_list_cursor_down();
    app.toggle_list_toggle_item();
    app.toggle_list_cursor_up();
    if let AppState::ToggleListEditor(t) = &app.state {
        assert_eq!(t.list.selected_items, vec!["b".to_string()]);
        assert_eq!(t.list.cursor_index, 0);
    }
    app.toggle_list_select_all();
    app.toggle_list_select_none();
    handle_key_event(&mut app, KeyPress::plain(Key::Char(' ')), false);
    let r = handle_key_event(&mut app, KeyPress::plain(Key::Enter), false);
    assert_eq!(r.follow_up, FollowUp::StoreList("decoders".to_string(), vec!["a".to_string()]));
    assert!(on_panel(&app, 8));
    let mut app = app_with(toggle_list());
    assert_eq!(app.close_toggle_list_editor(), Some(("decoders".to_string(), Vec::new())));
}

#[test]
fn wordlist_manager_methods_and_keys() {
    let mut app = app_with(manager());
    app.wordlist_manager_next_focus();
    if let AppState::WordlistManager(w) = &app.state {
        assert_eq!(w.manager.focus, WordlistManagerFocus::AddPathInput);
    }
    app.cancel_wordlist_manager();
    assert!(on_panel(&app, 9));

    let mut app = app_with(manager());
    handle_key_event(&mut app, KeyPress::plain(Key::Char(' ')), false);
    let r = handle_key_event(&mut app, KeyPress::plain(Key::Delete), false);
    assert_eq!(r.action, Action::DeleteWordlist(1));
    let r = handle_key_event(&mut app, KeyPress::plain(Key::Enter), false);
    let mut expected = HashMap::new();
    expected.insert(1, false);
    assert_eq!(r.follow_up, FollowUp::ApplyWordlistChanges(expected));
    assert!(on_panel(&app, 9));

    let mut app = app_with(manager());
    assert_eq!(app.finish_wordlist_manager(), Some(HashMap::new()));
}

#[test]
fn theme_picker_closes_to_the_panel() {
    let picker = ThemePicker {
        selected_theme: 0,
        custom_mode: false,
        custom_colors: CustomColors::default(),
        custom_field: 0,
    };
    let mut app = app_with(AppState::ThemePicker(ThemePickerState { picker, parent_settings: snap(4) }));
    let r = handle_key_event(&mut app, KeyPress::plain(Key::Enter), false);
    assert!(matches!(r.follow_up, FollowUp::ApplyScheme(_)));
    assert!(on_panel(&app, 4));

    let picker = ThemePicker {
        selected_theme: 0,
        custom_mode: false,
        custom_colors: CustomColors::default(),
        custom_field: 0,
    };
    let mut app = app_with(AppState::ThemePicker(ThemePickerState { picker, parent_settings: snap(4) }));
    let r = handle_key_event(&mut app, KeyPress::plain(Key::Esc), false);
    assert_eq!(r.follow_up, FollowUp::Done);
    assert!(on_panel(&app, 4));
}

#[test]
fn save_question_answers_or_returns() {
    let question = || AppState::SaveConfirmation(SaveConfirmationState { parent_settings: snap(5) });
    let mut app = app_with(question());
    let r = handle_key_event(&mut app, KeyPress::plain(Key::Char('y')), false);
    assert_eq!(r.follow_up, FollowUp::AnswerSave(true));
    assert!(matches!(app.state, AppState::SaveConfirmation(_)));
    let r = handle_key_event(&mut app, KeyPress::plain(Key::Char('N')), false);
    assert_eq!(r.follow_up, FollowUp::AnswerSave(false));
    let r = handle_key_event(&mut app, KeyPress::plain(Key::Esc), false);
    assert_eq!(r.follow_up, FollowUp::Done);
    assert!(on_panel(&app, 5));
    let mut app = app_with(question());
    app.cancel_save_confirmation();
    assert!(on_panel(&app, 5));
}

#[test]
fn in_settings_means_panel_list_editor_or_wordlists() {
    assert!(app_with(panel(1)).is_in_settings());
    assert!(app_with(list_editor(&[])).is_in_settings());
    assert!(app_with(manager()).is_in_settings());
    assert!(!app_with(toggle_list()).is_in_settings());
    assert!(!app_with(AppState::SaveConfirmation(SaveConfirmationState { parent_settings: snap(1) })).is_in_settings());
    let app: App<Panel> = App::new("x".to_string());
    assert!(!app.is_in_settings());
}

#[test]
fn editors_open_from_the_panel_only() {
    let mut app = app_with(panel(3));
    app.open_list_editor("tags".to_string(), "Tags".to_string(), vec!["a".to_string()]);
    assert_eq!(app.finish_list_editor(), Some(("tags".to_string(), vec!["a".to_string()])));
    assert!(on_panel(&app, 3));

    app.open_toggle_list_editor("d".to_string(), "D".to_string(), vec!["x".to_string()], vec![]);
    assert!(matches!(app.state, AppState::ToggleListEditor(_)));
    assert_eq!(app.close_toggle_list_editor(), Some(("d".to_string(), Vec::new())));

    app.open_wordlist_manager(vec![file(1, true)]);
    assert!(matches!(app.state, AppState::WordlistManager(_)));
    app.cancel_wordlist_manager();

    app.open_theme_picker();
    assert!(matches!(app.state, AppState::ThemePicker(_)));
    app.close_theme_picker();

    app.show_save_confirmation();
    assert!(matches!(app.state, AppState::SaveConfirmation(_)));
    app.cancel_save_confirmation();
    assert!(on_panel(&app, 3));

    let mut app: App<Panel> = App::new("x".to_string());
    app.open_list_editor("t".to_string(), "T".to_string(), Vec::new());
    app.show_save_confirmation();
    assert!(matches!(app.state, AppState::Loading(_)));
}

#[test]
fn opening_and_closing_settings_returns_home() {
    let mut app: App<Panel> = App::new_home(Vec::new());
    if let AppState::Home(h) = &mut app.state {
        h.text_input.set_text("typed");
    }
    app.open_settings(42);
    match &app.state {
        AppState::Settings(ss) => {
            assert_eq!(ss.settings, 42);
            assert_eq!((ss.selected_section, ss.selected_field, ss.scroll_offset), (0, 0, 0));
            assert!(!ss.editing_mode);
            assert!(ss.validation_errors.is_empty());
            assert!(matches!(ss.previous_state, PreviousState::Home(_)));
        }
        _ => panic!("expected the settings panel"),
    }
    app.close_settings();
    assert_eq!(app.get_home_input(), "typed");
}

#[test]
fn opening_settings_from_results_and_back_keeps_the_step() {
    let step = |t: &str| CrackResult {
        decoder: "Base64".to_string(),
        encrypted_text: t.to_string(),
        unencrypted_text: Some(vec!["o".to_string()]),
        key: None,
        description: "d".to_string(),
        link: "l".to_string(),
    };
    let mut app: App<Panel> = App::new("x".to_string());
    app.set_result(DecoderResult { text: vec!["p".to_string()], path: vec![step("a"), step("b"), step("c")] });
    app.first_step();
    app.next_step();
    app.open_settings(1);
    assert!(app.is_in_settings());
    app.close_settings();
    match &app.state {
        AppState::Results(rs) => {
            assert_eq!(rs.selected_step, 1);
            assert_eq!(rs.result.path.len(), 3);
        }
        _ => panic!("expected the Results screen"),
    }
}

#[test]
fn settings_do_not_open_over_an_editor() {
    let mut app = app_with(list_editor(&["a"]));
    app.open_settings(3);
    assert!(matches!(app.state, AppState::ListEditor(_)));
    app.close_settings();
    assert!(matches!(app.state, AppState::ListEditor(_)));
}

#[test]
fn save_question_saves_or_discards() {
    let mut app: App<Panel> = App::new_home(Vec::new());
    app.open_settings(6);
    app.show_save_confirmation();
    assert_eq!(app.handle_save_confirmation(true), Action::SaveSettings);
    assert!(on_panel(&app, 6));
    app.show_save_confirmation();
    assert_eq!(app.handle_save_confirmation(false), Action::Nothing);
    assert!(matches!(app.state, AppState::Home(_)));
    assert_eq!(app.handle_save_confirmation(true), Action::Nothing);
    assert!(matches!(app.state, AppState::Home(_)));
}

fn cursor(app: &App<Panel>) -> (usize, usize, usize) {
    match &app.state {
        AppState::Settings(ss) => (ss.selected_section, ss.selected_field, ss.scroll_offset),
        _ => panic!("expected the settings panel"),
    }
}

#[test]
fn settings_sections_and_fields_wrap() {
    let mut app = app_with(panel(0));
    app.next_settings_field(4);
    app.next_settings_field(4);
    assert_eq!(cursor(&app), (0, 2, 0));
    app.prev_settings_field(4);
    assert_eq!(cursor(&app), (0, 1, 0));
    app.next_settings_section(3);
    assert_eq!(cursor(&app), (1, 0, 0));
    app.prev_settings_section(3);
    app.prev_settings_section(3);
    assert_eq!(cursor(&app), (2, 0, 0));
    app.next_settings_section(3);
    assert_eq!(cursor(&app), (0, 0, 0));
    app.prev_settings_field(4);
    assert_eq!(cursor(&app), (0, 3, 0));
    app.next_settings_field(4);
    assert_eq!(cursor(&app), (0, 0, 0));
    app.next_settings_section(0);
    app.next_settings_field(0);
    assert_eq!(cursor(&app), (0, 0, 0));
}

fn typed(app: &App<Panel>) -> (bool, String) {
    match &app.state {
        AppState::Settings(ss) => (ss.editing_mode, ss.text_input.get_text().to_string()),
        _ => panic!("expected the settings panel"),
    }
}

fn errors(app: &App<Panel>) -> Vec<(String, String)> {
    match &app.state {
        AppState::Settings(ss) => ss.validation_errors.clone(),
        _ => panic!("expected the settings panel"),
    }
}

#[test]
fn typing_a_settings_value() {
    let mut app = app_with(panel(0));
    app.input_char('z');
    assert_eq!(typed(&app), (false, String::new()));
    app.begin_field_edit("(not set)".to_string());
    assert_eq!(typed(&app), (true, String::new()));
    app.cancel_field_edit();
    assert_eq!(typed(&app), (false, String::new()));
    app.begin_field_edit("12".to_string());
    assert_eq!(typed(&app), (true, "12".to_string()));
    app.input_char('3');
    assert_eq!(typed(&app), (true, "123".to_string()));
    app.input_backspace();
    app.input_backspace();
    assert_eq!(typed(&app), (true, "1".to_string()));
}

#[test]
fn confirming_a_settings_value_records_or_clears_its_message() {
    let mut app = app_with(panel(0));
    app.confirm_field_edit("timeout".to_string(), Err("ignored".to_string()));
    assert!(errors(&app).is_empty());
    app.begin_field_edit("abc".to_string());
    app.confirm_field_edit("timeout".to_string(), Err("Must be a whole number".to_string()));
    assert_eq!(typed(&app), (true, "abc".to_string()));
    app.confirm_field_edit("other".to_string(), Err("Bad".to_string()));
    app.confirm_field_edit("timeout".to_string(), Err("Still bad".to_string()));
    assert_eq!(
        errors(&app),
        vec![
            ("other".to_string(), "Bad".to_string()),
            ("timeout".to_string(), "Still bad".to_string())
        ]
    );
    app.confirm_field_edit("timeout".to_string(), Ok(()));
    assert_eq!(typed(&app), (false, String::new()));
    assert_eq!(errors(&app), vec![("other".to_string(), "Bad".to_string())]);
}

#[test]
fn editing_the_selected_field_by_its_kind() {
    let mut app = app_with(panel(2));
    app.edit_current_field(FieldEdit::Boolean);
    assert!(on_panel(&app, 2));

    app.edit_current_field(FieldEdit::StringList("tags".to_string(), "Tags".to_string(), vec!["a".to_string()]));
    match &app.state {
        AppState::ListEditor(le) => {
            assert_eq!(le.field_id, "tags");
            assert_eq!(le.editor.items, vec!["a".to_string()]);
            assert_eq!(le.parent_settings.settings, 2);
        }
        _ => panic!("expected the list editor"),
    }
    app.cancel_list_editor();

    app.edit_current_field(FieldEdit::WordlistManager(vec![file(3, true)]));
    match &app.state {
        AppState::WordlistManager(w) => assert_eq!(w.manager.wordlist_files[0].id, 3),
        _ => panic!("expected the wordlist manager"),
    }
    app.cancel_wordlist_manager();

    app.edit_current_field(FieldEdit::ThemePicker);
    assert!(matches!(app.state, AppState::ThemePicker(_)));
    app.close_theme_picker();

    app.edit_current_field(FieldEdit::ToggleList(
        "d".to_string(),
        "D".to_string(),
        vec!["x".to_string(), "y".to_string()],
        vec!["y".to_string()],
    ));
    match &app.state {
        AppState::ToggleListEditor(t) => {
            assert_eq!(t.list.selected_items, vec!["y".to_string()]);
            assert_eq!(t.list.cursor_index, 0);
        }
        _ => panic!("expected the toggle list"),
    }
    app.close_toggle_list_editor();

    app.edit_current_field(FieldEdit::Typed("(not set)".to_string()));
    assert_eq!(typed(&app), (true, String::new()));
    app.cancel_field_edit();
    app.edit_current_field(FieldEdit::Typed("30".to_string()));
    assert_eq!(typed(&app), (true, "30".to_string()));

    let mut home: App<Panel> = App::new_home(Vec::new());
    home.edit_current_field(FieldEdit::ThemePicker);
    assert!(matches!(home.state, AppState::Home(_)));
}
