use std::sync::mpsc::channel;

use ciphey::app_state::{App, AppState};
use ciphey::dispatch::{handle_key_event, FollowUp};
use ciphey::editors::SettingsCommand;
use ciphey::input::Action;
use ciphey::keys::{Key, KeyPress};
use ciphey::state::{CrackResult, DecoderResult, HumanConfirmationRequest, StatusSeverity};

fn step(input: &str, output: Option<&str>) -> CrackResult {
    CrackResult {
        decoder: "Base64".to_string(),
        encrypted_text: input.to_string(),
        unencrypted_text: output.map(|o| vec![o.to_string()]),
        key: None,
        description: "desc".to_string(),
        link: "link".to_string(),
    }
}

fn results_app(steps: Vec<CrackResult>) -> App<()> {
    let mut app: App<()> = App::new("x".to_string());
    app.set_result(DecoderResult { text: vec!["p".to_string()], path: steps });
    app
}

#[test]
fn a_key_acknowledges_an_error() {
    let mut app: App<()> = App::new("x".to_string());
    app.set_status_error("bad".to_string());
    handle_key_event(&mut app, KeyPress::plain(Key::Char('z')), false);
    assert!(app.status_message.is_none());
    app.set_status("info".to_string());
    handle_key_event(&mut app, KeyPress::plain(Key::Char('z')), false);
    assert_eq!(app.status_message.as_ref().unwrap().severity, StatusSeverity::Info);
}

#[test]
fn the_question_box_takes_keys_first() {
    let mut app = results_app(vec![step("a", Some("b"))]);
    app.open_ask_ai();
    let r = handle_key_event(&mut app, KeyPress::plain(Key::Char('q')), false);
    assert_eq!(r.action, Action::Nothing);
    assert!(!app.should_quit);
    assert_eq!(app.ask_ai.as_ref().unwrap().text_input.get_text(), "q");
    let r = handle_key_event(&mut app, KeyPress::plain(Key::Esc), false);
    assert_eq!(r.action, Action::CloseAskAi);
    assert_eq!(r.follow_up, FollowUp::Done);
}

#[test]
fn decoder_search_closes_on_escape() {
    let mut app = results_app(vec![step("a", Some("b"))]);
    app.open_decoder_search(vec!["Base64"]);
    let r = handle_key_event(&mut app, KeyPress::plain(Key::Esc), false);
    assert_eq!(r.action, Action::Nothing);
    assert!(!app.is_decoder_search_active());
    assert!(matches!(app.state, AppState::Results(_)));
}

#[test]
fn decoder_search_runs_the_selected_decoder() {
    let mut app = results_app(vec![step("a", Some("b"))]);
    app.open_decoder_search(vec!["Base64", "Caesar"]);
    let r = handle_key_event(&mut app, KeyPress::plain(Key::Enter), false);
    assert_eq!(r.action, Action::RunBranchDecoder("b".to_string(), "Base64".to_string()));
    assert!(!app.is_decoder_search_active());
}

#[test]
fn quick_search_launches_the_address() {
    let mut app = results_app(vec![step("a", Some("b c"))]);
    app.open_quick_search(&vec!["G=https://g/?q={}".to_string()]);
    let r = handle_key_event(&mut app, KeyPress::plain(Key::Enter), false);
    assert_eq!(r.action, Action::LaunchQuickSearch("https://g/?q=b%20c".to_string()));
    assert!(!app.is_quick_search_active());
}

#[test]
fn home_enter_on_blank_text_asks_for_text() {
    let mut app: App<()> = App::new_home(Vec::new());
    let r = handle_key_event(&mut app, KeyPress::plain(Key::Enter), false);
    assert_eq!(r.action, Action::Nothing);
    assert_eq!(app.status_message.as_ref().unwrap().text, "Please enter some ciphertext first.");
    handle_key_event(&mut app, KeyPress::plain(Key::Char('h')), false);
    handle_key_event(&mut app, KeyPress::plain(Key::Char('i')), false);
    let r = handle_key_event(&mut app, KeyPress::plain(Key::Enter), false);
    assert_eq!(r.action, Action::SubmitHomeInput("hi".to_string()));
}

#[test]
fn results_b_returns_home_through_the_caller() {
    let mut app = results_app(vec![step("a", Some("b"))]);
    let r = handle_key_event(&mut app, KeyPress::plain(Key::Char('b')), false);
    assert_eq!(r.follow_up, FollowUp::ReturnHome);
}

#[test]
fn results_step_change_asks_for_branches() {
    let mut app = results_app(vec![step("a", Some("b")), step("b", Some("c"))]);
    let r = handle_key_event(&mut app, KeyPress::plain(Key::Left), false);
    assert_eq!(r.follow_up, FollowUp::LoadBranches);
    assert_eq!(app.get_current_step().unwrap().encrypted_text, "a");
}

#[test]
fn failure_b_returns_home_through_the_caller() {
    let mut app: App<()> = App::new("x".to_string());
    app.set_failure(std::time::Duration::from_secs(2));
    let r = handle_key_event(&mut app, KeyPress::plain(Key::Backspace), false);
    assert_eq!(r.action, Action::Nothing);
    assert_eq!(r.follow_up, FollowUp::ReturnHome);
}

#[test]
fn confirmation_keys_answer_the_checker() {
    let mut app: App<()> = App::new("x".to_string());
    let (tx, rx) = channel();
    let request = HumanConfirmationRequest {
        text: "t".to_string(),
        description: "d".to_string(),
        checker_name: "c".to_string(),
    };
    app.set_human_confirmation(request, tx);
    let r = handle_key_event(&mut app, KeyPress::plain(Key::Char('q')), false);
    assert_eq!(r.action, Action::Nothing);
    assert!(!app.should_quit);
    assert!(matches!(app.state, AppState::HumanConfirmation(_)));
    handle_key_event(&mut app, KeyPress::plain(Key::Char('n')), false);
    assert_eq!(rx.recv().unwrap(), false);
    assert!(matches!(app.state, AppState::Loading(_)));
}

#[test]
fn settings_keys_move_or_go_to_the_caller() {
    let mut app: App<u8> = App::new("x".to_string());
    app.open_settings(0);
    let r = handle_key_event(&mut app, KeyPress::plain(Key::Tab), false);
    assert_eq!(r.action, Action::Nothing);
    assert_eq!(r.follow_up, FollowUp::Settings(SettingsCommand::NextSection));
    let r = handle_key_event(&mut app, KeyPress::plain(Key::Char('j')), false);
    assert_eq!(r.follow_up, FollowUp::Settings(SettingsCommand::NextField));
    let r = handle_key_event(&mut app, KeyPress::with_ctrl(Key::Char('s')), false);
    assert_eq!(r.follow_up, FollowUp::Settings(SettingsCommand::Save));
    let r = handle_key_event(&mut app, KeyPress::plain(Key::Enter), false);
    assert_eq!(r.follow_up, FollowUp::Settings(SettingsCommand::Edit));
    let r = handle_key_event(&mut app, KeyPress::plain(Key::Char('x')), false);
    assert_eq!(r.follow_up, FollowUp::Done);
    assert!(matches!(app.state, AppState::Settings(_)));
    let r = handle_key_event(&mut app, KeyPress::plain(Key::Esc), false);
    assert_eq!(r.action, Action::Nothing);
    assert_eq!(r.follow_up, FollowUp::Done);
    assert!(matches!(app.state, AppState::Loading(_)));
}

#[test]
fn settings_keys_while_typing_a_value() {
    let mut app: App<u8> = App::new_home(Vec::new());
    app.open_settings(0);
    app.begin_field_edit("4".to_string());
    handle_key_event(&mut app, KeyPress::plain(Key::Char('2')), false);
    handle_key_event(&mut app, KeyPress::plain(Key::Char('j')), false);
    handle_key_event(&mut app, KeyPress::plain(Key::Backspace), false);
    match &app.state {
        AppState::Settings(ss) => {
            assert!(ss.editing_mode);
            assert_eq!(ss.text_input.get_text(), "42");
        }
        _ => panic!("expected the settings panel"),
    }
    let r = handle_key_event(&mut app, KeyPress::plain(Key::Enter), false);
    assert_eq!(r.follow_up, FollowUp::Settings(SettingsCommand::ConfirmEdit));
    let r = handle_key_event(&mut app, KeyPress::plain(Key::Esc), false);
    assert_eq!(r.follow_up, FollowUp::Done);
    match &app.state {
        AppState::Settings(ss) => {
            assert!(!ss.editing_mode);
            assert_eq!(ss.text_input.get_text(), "");
        }
        _ => panic!("expected the settings panel"),
    }
    handle_key_event(&mut app, KeyPress::plain(Key::Esc), false);
    assert!(matches!(app.state, AppState::Home(_)));
}

#[test]
fn branch_prompt_enter_runs_the_chosen_mode() {
    let mut app = results_app(vec![step("a", Some("b"))]);
    app.open_branch_prompt();
    handle_key_event(&mut app, KeyPress::plain(Key::Down), false);
    let r = handle_key_event(&mut app, KeyPress::plain(Key::Enter), false);
    assert_eq!(r.action, Action::RunBranchSingleLayer("b".to_string()));
    assert_eq!(r.follow_up, FollowUp::CloseBranchPrompt);
}
