use ciphey::keys::{Key, KeyPress};
use ciphey::setup::{handle_setup_key_event, CustomColors, SetupApp, SetupState, TOTAL_STEPS};

fn press(app: &mut SetupApp, code: Key) {
    handle_setup_key_event(app, KeyPress::plain(code), true);
}

fn press_with(app: &mut SetupApp, code: Key, path_ok: bool) {
    handle_setup_key_event(app, KeyPress::plain(code), path_ok);
}

#[test]
fn custom_color_fields() {
    let mut c = CustomColors::default();
    c.get_field_mut(0).push_str("1,2,3");
    c.get_field_mut(9).push_str("9,9,9");
    assert_eq!(c.get_field(0), "1,2,3");
    assert_eq!(c.get_field(4), "9,9,9");
    assert_eq!(c.get_field(5), "");
    assert_eq!(CustomColors::field_name(3), "Question");
    assert_eq!(CustomColors::field_name(4), "Statement");
    assert_eq!(CustomColors::field_name(7), "");
    assert!(c.to_scheme().is_none());
    *c.get_field_mut(1) = "4,5,6".to_string();
    *c.get_field_mut(2) = "7,8,9".to_string();
    *c.get_field_mut(3) = "10,11,12".to_string();
    let s = c.to_scheme().unwrap();
    assert_eq!(s.informational, (1, 2, 3));
    assert_eq!(s.question, (10, 11, 12));
    assert_eq!(s.error, (9, 9, 9));
}

#[test]
fn wizard_walk_through_with_theme() {
    let mut app = SetupApp::new();
    assert_eq!(app.current_step(), 1);
    assert_eq!(TOTAL_STEPS, 7);
    press(&mut app, Key::Enter);
    assert!(matches!(app.state, SetupState::Tutorial));
    press(&mut app, Key::Enter);
    assert_eq!(app.current_step(), 2);
    press(&mut app, Key::Down);
    press(&mut app, Key::Down);
    press(&mut app, Key::Enter);
    assert_eq!(app.selected_theme.unwrap().name, "GirlyPop");
    assert!(matches!(app.state, SetupState::ResultsMode { selected: 0 }));
    // Going back shows the chosen theme highlighted.
    press(&mut app, Key::Left);
    assert!(matches!(app.state, SetupState::ThemeSelection { selected: 2, custom_mode: false, .. }));
    press(&mut app, Key::Enter);
    press(&mut app, Key::Char('2'));
    press(&mut app, Key::Enter);
    assert!(app.top_results);
    assert!(matches!(app.state, SetupState::TimeoutConfig { value: 3, .. }));
    press(&mut app, Key::Char('4'));
    assert!(matches!(app.state, SetupState::TimeoutConfig { value: 34, .. }));
    press(&mut app, Key::Char('9'));
    assert!(matches!(app.state, SetupState::TimeoutConfig { value: 349, .. }));
    press(&mut app, Key::Char('9'));
    assert!(matches!(app.state, SetupState::TimeoutConfig { value: 349, .. }));
    press(&mut app, Key::Backspace);
    press(&mut app, Key::Backspace);
    assert!(matches!(app.state, SetupState::TimeoutConfig { value: 3, .. }));
    press(&mut app, Key::Backspace);
    assert!(matches!(app.state, SetupState::TimeoutConfig { value: 1, .. }));
    press(&mut app, Key::Up);
    press(&mut app, Key::Enter);
    assert_eq!(app.timeout, 2);
    assert_eq!(app.current_step(), 5);
    press(&mut app, Key::Char('x'));
    press_with(&mut app, Key::Enter, false);
    press(&mut app, Key::Tab);
    press(&mut app, Key::Enter);
    assert_eq!(app.current_step(), 6);
    press(&mut app, Key::Char('n'));
    press(&mut app, Key::Enter);
    assert!(matches!(app.state, SetupState::CuteCat));
    press(&mut app, Key::Char('y'));
    assert!(app.show_cat);
    assert!(matches!(app.state, SetupState::Complete));
    press(&mut app, Key::Enter);
    assert!(app.should_quit);
    let config = app.build_config();
    let keys: Vec<&str> = config.iter().map(|(k, _)| k.as_str()).collect();
    assert_eq!(
        keys,
        vec![
            "informational",
            "warning",
            "success",
            "error",
            "question",
            "top_results",
            "timeout",
            "enhanced_detection"
        ]
    );
    assert_eq!(config[0].1, "237,69,146");
    assert_eq!(config[5].1, "true");
    assert_eq!(config[6].1, "2");
    assert_eq!(config[7].1, "false");
}

#[test]
fn custom_colors_typed_in_the_wizard() {
    let mut app = SetupApp::new();
    app.next_step();
    app.next_step();
    // Up from the first theme wraps to the custom option.
    press(&mut app, Key::Up);
    press(&mut app, Key::Enter);
    assert!(matches!(app.state, SetupState::ThemeSelection { custom_mode: true, .. }));
    for field in ["1,2,3", "4,5,6", "7,8,9", "10,11,12", "13,14,15"] {
        for c in field.chars() {
            press(&mut app, Key::Char(c));
        }
        press(&mut app, Key::Char('x'));
        press(&mut app, Key::Tab);
    }
    press(&mut app, Key::Enter);
    let s = app.custom_scheme.unwrap();
    assert_eq!(s.informational, (1, 2, 3));
    assert_eq!(s.error, (13, 14, 15));
    assert_eq!(app.get_current_scheme().question, (10, 11, 12));
}

#[test]
fn token_entry_and_download_failure() {
    let mut app = SetupApp::new();
    app.state = SetupState::EnhancedDetection { selected: 0 };
    press(&mut app, Key::Char('y'));
    press(&mut app, Key::Enter);
    assert!(app.enhanced_detection);
    press(&mut app, Key::Enter);
    assert!(matches!(app.state, SetupState::TokenInput { .. }));
    for c in "hf_ab".chars() {
        press(&mut app, Key::Char(c));
    }
    press(&mut app, Key::Left);
    press(&mut app, Key::Backspace);
    press(&mut app, Key::Home);
    press(&mut app, Key::Delete);
    match &app.state {
        SetupState::TokenInput { token, cursor } => {
            assert_eq!(token, "f_b");
            assert_eq!(*cursor, 0);
        }
        _ => panic!("expected token input"),
    }
    press(&mut app, Key::Enter);
    assert_eq!(app.hf_token.as_deref(), Some("f_b"));
    if let SetupState::Downloading { failed, .. } = &mut app.state {
        *failed = true;
    }
    press(&mut app, Key::Esc);
    assert!(!app.enhanced_detection);
    assert!(matches!(app.state, SetupState::CuteCat));
}

#[test]
fn skip_and_quit_keys() {
    let mut app = SetupApp::new();
    press(&mut app, Key::Char('s'));
    assert!(app.skipped && app.should_quit);
    let mut app = SetupApp::new();
    handle_setup_key_event(&mut app, KeyPress::with_ctrl(Key::Char('c')), true);
    assert!(app.should_quit && !app.skipped);
}

#[test]
fn tick_wraps() {
    let mut app = SetupApp::new();
    app.tick = usize::MAX;
    app.tick();
    assert_eq!(app.tick, 0);
}

fn wordlist_step(app: &SetupApp) -> (Vec<String>, String, usize, bool) {
    match &app.state {
        SetupState::WordlistConfig { paths, current_input, cursor, input_focused } => {
            (paths.clone(), current_input.clone(), *cursor, *input_focused)
        }
        _ => panic!("expected the wordlist step"),
    }
}

#[test]
fn wordlist_step_keys() {
    let mut app = SetupApp::new();
    app.top_results = false;
    app.state = SetupState::ResultsMode { selected: 0 };
    press(&mut app, Key::Enter);
    assert_eq!(app.current_step(), 5);
    for c in "/w.tx".chars() {
        press(&mut app, Key::Char(c));
    }
    press(&mut app, Key::Left);
    press(&mut app, Key::Backspace);
    press(&mut app, Key::End);
    press(&mut app, Key::Char('t'));
    assert_eq!(wordlist_step(&app), (vec![], "/w.xt".to_string(), 5, true));
    press(&mut app, Key::Home);
    press(&mut app, Key::Delete);
    press(&mut app, Key::Right);
    assert_eq!(wordlist_step(&app), (vec![], "w.xt".to_string(), 1, true));
    press_with(&mut app, Key::Enter, true);
    assert_eq!(wordlist_step(&app), (vec!["w.xt".to_string()], String::new(), 0, true));
    press(&mut app, Key::Char('b'));
    press_with(&mut app, Key::Enter, false);
    assert_eq!(wordlist_step(&app), (vec!["w.xt".to_string()], String::new(), 0, true));
    press(&mut app, Key::Char('c'));
    press(&mut app, Key::Esc);
    assert_eq!(wordlist_step(&app), (vec!["w.xt".to_string()], String::new(), 0, true));
    press(&mut app, Key::Tab);
    assert!(!wordlist_step(&app).3);
    press(&mut app, Key::Up);
    assert!(wordlist_step(&app).3);
    press(&mut app, Key::Down);
    press(&mut app, Key::Char(' '));
    assert_eq!(app.current_step(), 6);
    assert_eq!(app.wordlist_paths, vec!["w.xt".to_string()]);
    press(&mut app, Key::Esc);
    assert!(app.should_quit);

    let mut app = SetupApp::new();
    app.state = SetupState::WordlistConfig {
        paths: Vec::new(),
        current_input: String::new(),
        cursor: 0,
        input_focused: true,
    };
    press(&mut app, Key::Esc);
    assert!(matches!(app.state, SetupState::ResultsMode { selected: 0 }));
}
