use std::collections::HashMap;

use ciphey::app_state::{App, AppState, StoredResult};
use ciphey::input::Action;
use ciphey::runner::{
    handle_action, handle_browser_result, handle_copy_result, handle_decoder_result,
    handle_delete_result, handle_import_result, Effect,
};
use ciphey::runner::{
    branch_link_target, handle_ai_explanation, handle_ask_ai_response, handle_decode_result,
    handle_return_to_parent, handle_single_layer_result, handle_switch_to_branch,
    return_to_parent_target, show_history_result, transition_to_loading,
};
use ciphey::state::{BranchContext, DecoderResult};
use ciphey::runner::{branch_candidates, single_layer_status, TICK_RATE_MS};
use ciphey::state::CrackResult;

#[test]
fn test_tick_rate_reasonable() {
    assert!(TICK_RATE_MS >= 50);
    assert!(TICK_RATE_MS <= 200);
}

fn result(out: Option<Vec<&str>>) -> CrackResult {
    CrackResult {
        decoder: "D".to_string(),
        encrypted_text: "in".to_string(),
        unencrypted_text: out.map(|v| v.into_iter().map(|s| s.to_string()).collect()),
        key: None,
        description: String::new(),
        link: String::new(),
    }
}

#[test]
fn candidates_are_steps_with_output() {
    let rs = vec![result(Some(vec!["a", "b"])), result(None), result(Some(vec![])), result(Some(vec!["c"]))];
    assert_eq!(branch_candidates(&rs), vec![(0, "a".to_string()), (3, "c".to_string())]);
}

#[test]
fn single_layer_messages() {
    assert_eq!(single_layer_status(0, true, true, 0), "No decoders produced output for this text.");
    assert_eq!(single_layer_status(4, false, false, 0), "Found 4 decoder outputs but no branch context.");
    assert_eq!(single_layer_status(4, true, false, 0), "Cannot create branches: no parent cache ID.");
    assert_eq!(single_layer_status(4, true, true, 3), "Created 3 branches from single-layer decoding.");
}



fn stored(encoded: &str, steps: usize) -> StoredResult {
    StoredResult {
        result: DecoderResult {
            text: vec!["p".to_string()],
            path: (0..steps).map(|_| result(Some(vec!["o"]))).collect(),
        },
        encoded_text: encoded.to_string(),
        tree_branches: HashMap::new(),
        ai_explanation_cache: HashMap::new(),
    }
}

fn results_of(app: &App<()>) -> &ciphey::state::ResultsState {
    match &app.state {
        AppState::Results(rs) => rs,
        _ => panic!("expected the Results screen"),
    }
}

#[test]
fn loading_starts_afresh() {
    let mut app: App<()> = App::new_home(Vec::new());
    app.set_status("old".to_string());
    transition_to_loading(&mut app);
    assert!(matches!(app.state, AppState::Loading(_)));
    assert!(app.status_message.is_none());
}

#[test]
fn switching_into_and_out_of_a_branch() {
    let mut app: App<()> = App::new("x".to_string());
    show_history_result(&mut app, 10, stored("main", 3));
    assert_eq!(app.status_message.as_ref().unwrap().text, "Showing saved result from history.");
    assert_eq!(app.input_text, "main");
    assert_eq!(return_to_parent_target(&app), None);

    handle_switch_to_branch(&mut app, 42, Ok(stored("branch", 1)));
    assert_eq!(app.status_message.as_ref().unwrap().text, "Switched to branch (cache_id: 42)");
    assert_eq!(app.input_text, "branch");
    assert_eq!(results_of(&app).branch_path.stack, vec![(10, 2)]);
    assert_eq!(return_to_parent_target(&app), Some((10, 2)));

    handle_switch_to_branch(&mut app, 43, Err("Cache entry not found (id: 43)".to_string()));
    assert_eq!(app.status_message.as_ref().unwrap().text, "Cache entry not found (id: 43)");
    assert_eq!(results_of(&app).cache_id, Some(42));

    handle_return_to_parent(&mut app, Ok((stored("main", 3), Vec::new())));
    assert_eq!(app.status_message.as_ref().unwrap().text, "Returned to parent branch.");
    assert_eq!(app.input_text, "main");
    let rs = results_of(&app);
    assert_eq!(rs.cache_id, Some(10));
    assert_eq!(rs.selected_step, 2);
    assert!(rs.branch_path.stack.is_empty());

    handle_return_to_parent(&mut app, Err(String::new()));
    assert_eq!(app.status_message.as_ref().unwrap().text, "Already at main path.");
}

#[test]
fn failed_return_still_leaves_the_branch_entry() {
    let mut app: App<()> = App::new("x".to_string());
    show_history_result(&mut app, 10, stored("main", 1));
    handle_switch_to_branch(&mut app, 42, Ok(stored("branch", 1)));
    handle_return_to_parent(&mut app, Err("Database error: locked".to_string()));
    assert_eq!(app.status_message.as_ref().unwrap().text, "Database error: locked");
    let rs = results_of(&app);
    assert_eq!(rs.cache_id, Some(42));
    assert!(rs.branch_path.stack.is_empty());
}

#[test]
fn decode_results_open_the_right_screen() {
    let ctx = BranchContext {
        text_to_decode: "t".to_string(),
        prefix_path: Vec::new(),
        parent_cache_id: Some(5),
        branch_step: 1,
    };
    let mut pending = Some(ctx);
    assert_eq!(branch_link_target(&pending, Some(8)), Some((5, 1)));
    assert_eq!(branch_link_target(&pending, None), None);

    let mut app: App<()> = App::new("x".to_string());
    let r = stored("x", 2).result;
    handle_decode_result(
        &mut app,
        Some(r),
        Some(8),
        HashMap::new(),
        HashMap::new(),
        Vec::new(),
        Some("locked".to_string()),
        &mut pending,
        std::time::Duration::from_secs(1),
    );
    assert!(pending.is_none());
    assert_eq!(app.status_message.as_ref().unwrap().text, "Warning: failed to link branch: locked");
    assert_eq!(results_of(&app).cache_id, Some(8));
    assert_eq!(results_of(&app).selected_step, 1);

    handle_decode_result(
        &mut app,
        None,
        None,
        HashMap::new(),
        HashMap::new(),
        Vec::new(),
        None,
        &mut pending,
        std::time::Duration::from_secs(3),
    );
    assert!(matches!(app.state, AppState::Failure(_)));
}

#[test]
fn single_layer_results_report_on_the_status_line() {
    let mut app: App<()> = App::new("x".to_string());
    handle_single_layer_result(&mut app, 0, &None, 0, Vec::new(), HashMap::new());
    assert_eq!(app.status_message.as_ref().unwrap().text, "No decoders produced output for this text.");
    let ctx = Some(BranchContext {
        text_to_decode: "t".to_string(),
        prefix_path: Vec::new(),
        parent_cache_id: Some(5),
        branch_step: 0,
    });
    handle_single_layer_result(&mut app, 3, &ctx, 2, Vec::new(), HashMap::new());
    assert_eq!(app.status_message.as_ref().unwrap().text, "Created 2 branches from single-layer decoding.");
}

#[test]
fn ai_replies_update_the_screen() {
    let mut app: App<()> = App::new("x".to_string());
    app.set_result(stored("x", 1).result);
    handle_ai_explanation(&mut app, Ok("because".to_string()));
    assert_eq!(app.status_message.as_ref().unwrap().text, "AI explanation loaded.");
    assert_eq!(results_of(&app).ai_explanation.as_deref(), Some("because"));
    handle_ai_explanation(&mut app, Err("no key".to_string()));
    assert_eq!(app.status_message.as_ref().unwrap().text, "AI explanation failed: no key");
    assert!(results_of(&app).ai_explanation.is_none());

    app.open_ask_ai();
    handle_ask_ai_response(&mut app, Err("timeout".to_string()));
    assert_eq!(app.ask_ai.as_ref().unwrap().error.as_deref(), Some("timeout"));
    assert_eq!(app.status_message.as_ref().unwrap().text, "AI question failed: timeout");
    handle_ask_ai_response(&mut app, Ok("yes".to_string()));
    assert_eq!(app.ask_ai.as_ref().unwrap().response.as_deref(), Some("yes"));
    assert!(app.status_message.is_none());
}

#[test]
fn actions_that_start_a_decode_open_the_loading_screen() {
    let mut app: App<()> = App::new_home(Vec::new());
    let e = handle_action(&mut app, Action::SubmitHomeInput("abc".to_string()), &Vec::new(), Vec::new());
    assert!(matches!(e, Effect::StartDecode(ref t, _) if t == "abc"));
    assert_eq!(app.input_text, "abc");
    assert!(matches!(app.state, AppState::Loading(_)));
    assert_eq!(app.status_message.as_ref().unwrap().text, "Decoding...");

    let e = handle_action(&mut app, Action::RerunFromSelected("def".to_string()), &Vec::new(), Vec::new());
    assert!(matches!(e, Effect::StartDecode(ref t, _) if t == "def"));
    assert_eq!(app.status_message.as_ref().unwrap().text, "Rerunning Ciphey...");

    let e = handle_action(&mut app, Action::RunBranchFullSearch("g".to_string(), None), &Vec::new(), Vec::new());
    assert!(matches!(e, Effect::StartBranchDecode(ref t, _, None) if t == "g"));
    assert_eq!(app.status_message.as_ref().unwrap().text, "Running full search on branch...");
}

#[test]
fn actions_left_to_the_event_loop() {
    let mut app: App<()> = App::new("x".to_string());
    assert!(matches!(handle_action(&mut app, Action::Nothing, &Vec::new(), Vec::new()), Effect::Done));
    assert!(matches!(
        handle_action(&mut app, Action::CopyToClipboard("c".to_string()), &Vec::new(), Vec::new()),
        Effect::Copy(ref t) if t == "c"
    ));
    assert!(matches!(handle_action(&mut app, Action::SwitchToBranch(4), &Vec::new(), Vec::new()), Effect::SwitchToBranch(4)));
    assert!(matches!(handle_action(&mut app, Action::CancelDecode, &Vec::new(), Vec::new()), Effect::CancelDecode));
    assert!(app.status_message.is_none());
    assert!(matches!(handle_action(&mut app, Action::OpenSettings, &Vec::new(), Vec::new()), Effect::OpenSettings));
    assert_eq!(app.status_message.as_ref().unwrap().text, "Settings opened. Press Esc to close.");
}

#[test]
fn actions_on_the_results_screen() {
    let mut app: App<()> = App::new("x".to_string());
    app.set_result(stored("x", 2).result);
    handle_action(&mut app, Action::OpenDecoderSearch, &Vec::new(), vec!["Base64"]);
    assert!(app.is_decoder_search_active());
    app.close_decoder_search();
    handle_action(&mut app, Action::OpenQuickSearch, &vec!["G=https://g/{}".to_string()], Vec::new());
    assert!(app.is_quick_search_active());
    let e = handle_action(&mut app, Action::RunBranchDecoder("o".to_string(), "Caesar".to_string()), &Vec::new(), Vec::new());
    assert!(matches!(e, Effect::RunDecoder(ref t, ref n, Some(ref c)) if t == "o" && n == "Caesar" && c.branch_step == 1));
    let e = handle_action(&mut app, Action::RunBranchSingleLayer("o".to_string()), &Vec::new(), Vec::new());
    assert!(matches!(e, Effect::RunSingleLayer(_, Some(_))));
    assert_eq!(app.status_message.as_ref().unwrap().text, "Running single-layer decoders...");
    handle_action(&mut app, Action::OpenAskAi, &Vec::new(), Vec::new());
    let e = handle_action(&mut app, Action::SubmitAskAi("why?".to_string()), &Vec::new(), Vec::new());
    match e {
        Effect::Ask(req) => {
            assert_eq!(req.question, "why?");
            assert_eq!(req.decoder_name, "D");
        }
        _ => panic!("expected a question"),
    }
    assert!(app.ask_ai.as_ref().unwrap().loading);
    assert_eq!(app.status_message.as_ref().unwrap().text, "AI is thinking...");
    handle_action(&mut app, Action::CloseAskAi, &Vec::new(), Vec::new());
    assert!(!app.is_ask_ai_active());
    handle_action(&mut app, Action::OpenBranchPrompt, &Vec::new(), Vec::new());
    assert!(matches!(app.state, AppState::BranchModePrompt(_)));
}

#[test]
fn results_of_the_event_loops_work_are_reported() {
    let mut app: App<()> = App::new("x".to_string());
    handle_copy_result(&mut app, Ok(()));
    assert_eq!(app.status_message.as_ref().unwrap().text, "Copied to clipboard!");
    handle_copy_result(&mut app, Err("no display".to_string()));
    assert_eq!(app.status_message.as_ref().unwrap().text, "Copy failed: no display");
    handle_browser_result(&mut app, Ok(()));
    assert_eq!(app.status_message.as_ref().unwrap().text, "Opened in browser.");
    handle_browser_result(&mut app, Err("none".to_string()));
    assert_eq!(app.status_message.as_ref().unwrap().text, "Failed to open browser: none");
    handle_delete_result(&mut app, Ok(()));
    assert_eq!(app.status_message.as_ref().unwrap().text, "Wordlist deleted.");
    handle_delete_result(&mut app, Err("locked".to_string()));
    assert_eq!(app.status_message.as_ref().unwrap().text, "Delete failed: locked");
    handle_import_result(&mut app, Err("missing".to_string()));
    assert_eq!(app.status_message.as_ref().unwrap().text, "Import failed: missing");
}

#[test]
fn decoder_runs_are_previewed() {
    let mut app: App<()> = App::new("x".to_string());
    handle_decoder_result(&mut app, "Caesar", None, None, Vec::new(), HashMap::new());
    assert_eq!(app.status_message.as_ref().unwrap().text, "Caesar could not decode this text.");
    handle_decoder_result(&mut app, "Caesar", Some(Some("hello".to_string())), Some(12), Vec::new(), HashMap::new());
    assert_eq!(app.status_message.as_ref().unwrap().text, "Caesar decoded to: hello (saved as branch #12)");
    let long = "é".repeat(30);
    handle_decoder_result(&mut app, "Caesar", Some(Some(long.clone())), None, Vec::new(), HashMap::new());
    assert_eq!(
        app.status_message.as_ref().unwrap().text,
        format!("Caesar decoded to: {}...", long)
    );
    app.clear_status();
    handle_decoder_result(&mut app, "Caesar", Some(None), None, Vec::new(), HashMap::new());
    assert!(app.status_message.is_none());
}
