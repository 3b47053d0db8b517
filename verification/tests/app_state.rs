use std::collections::HashMap;
use std::sync::mpsc::channel;

use ciphey::app_state::{App, AppState, StoredResult};
use ciphey::spinner::QUOTE_COUNT;
use ciphey::state::{
    BranchMode, BranchSummary, CrackResult, DecoderResult, HelpContext, HumanConfirmationRequest,
    StatusSeverity,
};

fn step(input: &str, output: Option<&str>) -> CrackResult {
    CrackResult {
        decoder: "Base64".to_string(),
        encrypted_text: input.to_string(),
        unencrypted_text: output.map(|o| vec![o.to_string()]),
        key: Some("k".to_string()),
        description: "desc".to_string(),
        link: "link".to_string(),
    }
}

fn result(steps: Vec<CrackResult>) -> DecoderResult {
    DecoderResult { text: vec!["plain".to_string()], path: steps }
}

fn request() -> HumanConfirmationRequest {
    HumanConfirmationRequest {
        text: "hello".to_string(),
        description: "English".to_string(),
        checker_name: "Athena".to_string(),
    }
}

#[test]
fn new_app_starts_loading() {
    let app: App<()> = App::new("abc".to_string());
    match &app.state {
        AppState::Loading(l) => {
            assert_eq!(l.spinner_frame, 0);
            assert!(l.current_quote < QUOTE_COUNT);
        }
        _ => panic!("expected the Loading screen"),
    }
    assert_eq!(app.input_text, "abc");
    assert!(!app.should_quit && !app.show_help && app.status_message.is_none());
}

#[test]
fn help_contexts() {
    let mut app: App<()> = App::new_home(Vec::new());
    assert_eq!(app.help_context(), HelpContext::Home);
    app.set_result(result(vec![step("a", Some("b"))]));
    assert_eq!(app.help_context(), HelpContext::Results);
    app.open_settings(());
    assert_eq!(app.help_context(), HelpContext::Settings);
    app.set_failure(std::time::Duration::from_secs(1));
    assert_eq!(app.help_context(), HelpContext::Loading);
}

#[test]
fn submitting_home_text() {
    let mut app: App<()> = App::new_home(Vec::new());
    assert!(app.is_home());
    assert_eq!(app.submit_home_input(), None);
    if let AppState::Home(h) = &mut app.state {
        h.text_input.set_text(" x ");
    }
    assert_eq!(app.get_home_input(), " x ");
    assert_eq!(app.submit_home_input(), Some(" x ".to_string()));
    assert_eq!(app.input_text, " x ");
    assert!(matches!(app.state, AppState::Loading(_)));
    assert_eq!(app.get_home_input(), "");
}

#[test]
fn set_result_selects_last_step() {
    let mut app: App<()> = App::new("in".to_string());
    app.set_result(result(vec![step("a", Some("b")), step("b", Some("c"))]));
    match &app.state {
        AppState::Results(rs) => {
            assert_eq!(rs.selected_step, 1);
            assert_eq!(rs.cache_id, None);
        }
        _ => panic!("expected the Results screen"),
    }
    assert_eq!(app.get_current_step().unwrap().encrypted_text, "b");
}

#[test]
fn failure_keeps_input() {
    let mut app: App<()> = App::new("secret".to_string());
    app.set_failure(std::time::Duration::from_millis(1500));
    match &app.state {
        AppState::Failure(f) => {
            assert_eq!(f.input_text, "secret");
            assert_eq!(f.elapsed.as_millis(), 1500);
        }
        _ => panic!("expected the Failure screen"),
    }
}

#[test]
fn confirmation_answer_goes_back_and_loading_resumes() {
    let mut app: App<()> = App::new("x".to_string());
    let quote = match &app.state {
        AppState::Loading(l) => l.current_quote,
        _ => unreachable!(),
    };
    app.tick();
    let (tx, rx) = channel();
    app.set_human_confirmation(request(), tx);
    match &app.state {
        AppState::HumanConfirmation(h) => {
            assert_eq!(h.spinner_frame, 1);
            assert_eq!(h.request.text, "hello");
        }
        _ => panic!("expected the confirmation screen"),
    }
    app.respond_to_confirmation(true);
    assert_eq!(rx.recv().unwrap(), true);
    match &app.state {
        AppState::Loading(l) => {
            assert_eq!(l.spinner_frame, 1);
            assert_eq!(l.current_quote, quote);
        }
        _ => panic!("expected the Loading screen"),
    }
}

#[test]
fn confirmation_from_another_screen_starts_afresh() {
    let mut app: App<()> = App::new_home(Vec::new());
    let (tx, _rx) = channel();
    app.set_human_confirmation(request(), tx);
    match &app.state {
        AppState::HumanConfirmation(h) => {
            assert_eq!(h.spinner_frame, 0);
            assert_eq!(h.current_quote, 0);
        }
        _ => panic!("expected the confirmation screen"),
    }
}

#[test]
fn status_acknowledgement() {
    let mut app: App<()> = App::new("x".to_string());
    app.set_status("info".to_string());
    app.acknowledge_status();
    assert_eq!(app.status_message.as_ref().unwrap().text, "info");
    app.set_status_success("done".to_string());
    app.acknowledge_status();
    assert_eq!(app.status_message.as_ref().unwrap().severity, StatusSeverity::Success);
    app.set_status_warning("careful".to_string());
    app.acknowledge_status();
    assert!(app.status_message.is_none());
    app.set_status_error("bad".to_string());
    assert_eq!(app.status_message.as_ref().unwrap().severity, StatusSeverity::Error);
    app.acknowledge_status();
    assert!(app.status_message.is_none());
    app.set_status("again".to_string());
    app.clear_status();
    assert!(app.status_message.is_none());
}

#[test]
fn toggling_help_twice_restores_it() {
    let mut app: App<()> = App::new("x".to_string());
    app.toggle_help();
    assert!(app.show_help);
    app.toggle_help();
    assert!(!app.show_help);
}

#[test]
fn return_to_home_clears_input_and_status() {
    let mut app: App<()> = App::new("x".to_string());
    app.set_status("s".to_string());
    app.return_to_home(Vec::new());
    assert!(app.is_home());
    assert_eq!(app.input_text, "");
    assert!(app.status_message.is_none());
}

#[test]
fn step_navigation_wraps() {
    let mut app: App<()> = App::new("x".to_string());
    app.set_result(result(vec![step("a", Some("b")), step("b", Some("c")), step("c", None)]));
    app.next_step();
    assert_eq!(app.get_current_step().unwrap().encrypted_text, "a");
    app.prev_step();
    assert_eq!(app.get_current_step().unwrap().encrypted_text, "c");
    app.first_step();
    assert_eq!(app.get_current_step().unwrap().encrypted_text, "a");
    app.last_step();
    assert_eq!(app.get_current_step().unwrap().encrypted_text, "c");
}

#[test]
fn branches_load_only_for_stored_results() {
    let branch = BranchSummary {
        cache_id: 7,
        decoder_name: "Caesar".to_string(),
        successful: true,
        text_preview: "p".to_string(),
    };
    let mut app: App<()> = App::new("x".to_string());
    app.set_result(result(vec![step("a", Some("b"))]));
    app.load_branches_for_step(vec![branch.clone()]);
    assert!(!app.has_branches());
    app.set_result_with_cache_id(result(vec![step("a", Some("b"))]), 3, HashMap::new(), HashMap::new());
    app.load_branches_for_step(vec![branch]);
    assert!(app.has_branches());
    assert!(app.get_highlighted_branch().is_none());
    app.next_branch();
    assert_eq!(app.get_highlighted_branch().unwrap().cache_id, 7);
}

#[test]
fn ai_explanations_are_kept_per_step() {
    let mut app: App<()> = App::new("x".to_string());
    app.set_result(result(vec![step("a", Some("b")), step("b", Some("c"))]));
    app.set_ai_explanation("second".to_string());
    app.first_step();
    match &app.state {
        AppState::Results(rs) => assert!(rs.ai_explanation.is_none()),
        _ => unreachable!(),
    }
    app.last_step();
    match &app.state {
        AppState::Results(rs) => assert_eq!(rs.ai_explanation.as_deref(), Some("second")),
        _ => unreachable!(),
    }
    app.clear_ai_explanation();
    app.load_cached_ai_explanation();
    match &app.state {
        AppState::Results(rs) => assert_eq!(rs.ai_explanation.as_deref(), Some("second")),
        _ => unreachable!(),
    }
}

#[test]
fn ask_ai_cuts_long_texts() {
    let long = "a".repeat(600);
    let mut app: App<()> = App::new("x".to_string());
    app.set_result(result(vec![step(&long, Some("out"))]));
    app.open_ask_ai();
    assert!(app.is_ask_ai_active());
    let o = app.ask_ai.as_ref().unwrap();
    assert_eq!(o.step_input.chars().count(), 500);
    assert_eq!(o.step_output, "out");
    assert_eq!(o.step_key.as_deref(), Some("k"));
    assert!(o.response.is_none());
    app.set_ask_ai_loading();
    assert!(app.ask_ai.as_ref().unwrap().loading);
    app.set_ask_ai_response("answer".to_string());
    let o = app.ask_ai.as_ref().unwrap();
    assert!(!o.loading);
    assert_eq!(o.response.as_deref(), Some("answer"));
    app.set_ask_ai_error("oops".to_string());
    assert_eq!(app.ask_ai.as_ref().unwrap().error.as_deref(), Some("oops"));
    app.close_ask_ai();
    assert!(!app.is_ask_ai_active());
}

#[test]
fn branch_prompt_and_decoder_search_need_output() {
    let mut app: App<()> = App::new("x".to_string());
    app.set_result(result(vec![step("in", None)]));
    app.open_branch_prompt();
    assert!(matches!(app.state, AppState::Results(_)));
    app.open_decoder_search(vec!["Base64"]);
    assert!(!app.is_decoder_search_active());

    app.set_result(result(vec![step("in", Some("o"))]));
    app.open_decoder_search(vec!["Base64", "Caesar"]);
    let d = app.decoder_search.as_ref().unwrap();
    assert_eq!(d.filtered_decoders, vec!["Base64", "Caesar"]);
    assert_eq!(d.selected_index, 0);
    app.close_decoder_search();
    app.open_branch_prompt();
    match &app.state {
        AppState::BranchModePrompt(p) => {
            assert_eq!(p.selected_mode, BranchMode::FullSearch);
            assert_eq!(p.branch_context.text_to_decode, "o");
        }
        _ => panic!("expected the branch prompt"),
    }
}

#[test]
fn closing_branch_prompt_restores_parent() {
    let mut app: App<()> = App::new("x".to_string());
    app.set_result_with_cache_id(
        result(vec![step("a", Some("b")), step("b", Some("c"))]),
        9,
        HashMap::new(),
        HashMap::new(),
    );
    app.first_step();
    app.open_branch_prompt();
    app.close_branch_mode_prompt(None, Vec::new());
    assert!(matches!(app.state, AppState::BranchModePrompt(_)));
    let stored = StoredResult {
        result: result(vec![step("a", Some("b")), step("b", Some("c"))]),
        encoded_text: "encoded".to_string(),
        tree_branches: HashMap::new(),
        ai_explanation_cache: HashMap::new(),
    };
    app.close_branch_mode_prompt(Some(stored), Vec::new());
    assert_eq!(app.input_text, "encoded");
    match &app.state {
        AppState::Results(rs) => {
            assert_eq!(rs.selected_step, 0);
            assert_eq!(rs.cache_id, Some(9));
        }
        _ => panic!("expected the Results screen"),
    }
}

#[test]
fn quick_search_without_entries_says_so() {
    let mut app: App<()> = App::new("x".to_string());
    app.set_result(result(vec![step("a", Some("b"))]));
    app.open_quick_search(&vec!["no separator".to_string()]);
    assert!(!app.is_quick_search_active());
    assert_eq!(
        app.status_message.as_ref().unwrap().text,
        "No quick searches configured. Add them in Settings (Ctrl+S)."
    );
    app.open_quick_search(&vec!["Google=https://g/?q={}".to_string()]);
    assert!(app.is_quick_search_active());
    assert_eq!(app.quick_search.as_ref().unwrap().output_text, "b");
    app.close_quick_search();
    assert!(!app.is_quick_search_active());
}

#[test]
fn focus_cycles_through_panels() {
    let mut app: App<()> = App::new("x".to_string());
    app.set_result(result(vec![step("a", Some("b"))]));
    for _ in 0..3 {
        app.switch_focus();
    }
    match &app.state {
        AppState::Results(rs) => assert_eq!(rs.focus, ciphey::state::ResultsFocus::TreeView),
        _ => unreachable!(),
    }
}
