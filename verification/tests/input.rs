use ciphey::input::{
    confirmation_key, failure_key, home_key, loading_key, results_key, Action, AppRequest,
    ExplainStepData, ShowHistoryData, UiFlags,
};
use ciphey::app_state::App;
use ciphey::dispatch::handle_key_event;
use ciphey::keys::{Key, KeyPress};
use ciphey::multiline_text_input::MultilineTextInput;
use ciphey::state::{CrackResult, DecoderResult, HistoryEntry, HomeState, ResultsFocus, ResultsState};

fn simple(code: Key) -> KeyPress {
    KeyPress::plain(code)
}

fn ctrl(code: Key) -> KeyPress {
    KeyPress::with_ctrl(code)
}

#[test]
fn test_quit_with_q() {
    let mut app: App<()> = App::new("test input".to_string());
    assert!(!app.should_quit);

    let action = handle_key_event(&mut app, simple(Key::Char('q')), false).action;

    assert!(app.should_quit);
    assert_eq!(action, Action::Nothing);
}

#[test]
fn test_cancel_with_escape_in_loading() {
    let mut app: App<()> = App::new("test input".to_string());
    assert!(!app.should_quit);

    let action = handle_key_event(&mut app, simple(Key::Esc), false).action;

    assert!(!app.should_quit);
    assert_eq!(action, Action::CancelDecode);
}

#[test]
fn test_quit_with_ctrl_c() {
    let mut app: App<()> = App::new("test input".to_string());
    assert!(!app.should_quit);

    let action = handle_key_event(&mut app, ctrl(Key::Char('c')), false).action;

    assert!(app.should_quit);
    assert_eq!(action, Action::Nothing);
}

#[test]
fn test_toggle_help() {
    let mut app: App<()> = App::new("test input".to_string());
    assert!(!app.show_help);

    handle_key_event(&mut app, simple(Key::Char('?')), false);
    assert!(app.show_help);

    handle_key_event(&mut app, simple(Key::Char('?')), false);
    assert!(!app.show_help);
}

#[test]
fn test_action_enum_equality() {
    let action1 = Action::CopyToClipboard("test".to_string());
    let action2 = Action::CopyToClipboard("test".to_string());
    let action3 = Action::CopyToClipboard("different".to_string());
    let action4 = Action::Nothing;

    assert_eq!(action1, action2);
    assert_ne!(action1, action3);
    assert_ne!(action1, action4);
    assert_eq!(Action::Nothing, Action::Nothing);
}

#[test]
fn test_open_settings_action() {
    let mut app: App<()> = App::new("test input".to_string());

    let action = handle_key_event(&mut app, ctrl(Key::Char('s')), false).action;

    assert_eq!(action, Action::OpenSettings);
}

#[test]
fn loading_b_cancels_and_other_keys_do_nothing() {
    let mut flags = UiFlags::new();
    assert_eq!(loading_key(&mut flags, simple(Key::Char('b'))), Action::CancelDecode);
    assert_eq!(loading_key(&mut flags, simple(Key::Char('x'))), Action::Nothing);
    assert!(!flags.should_quit);
    assert!(!flags.show_help);
}

#[test]
fn confirmation_keys_answer() {
    assert_eq!(confirmation_key(simple(Key::Char('y'))), Some(true));
    assert_eq!(confirmation_key(simple(Key::Char('Y'))), Some(true));
    assert_eq!(confirmation_key(simple(Key::Enter)), Some(true));
    assert_eq!(confirmation_key(simple(Key::Char('n'))), Some(false));
    assert_eq!(confirmation_key(simple(Key::Esc)), Some(false));
    assert_eq!(confirmation_key(simple(Key::Char('q'))), None);
}

#[test]
fn failure_keys() {
    let mut flags = UiFlags::new();
    let r = failure_key(&mut flags, simple(Key::Char('b')));
    assert_eq!(r.request, AppRequest::ReturnHome);
    assert_eq!(r.action, Action::Nothing);
    let r = failure_key(&mut flags, ctrl(Key::Char('s')));
    assert_eq!(r.action, Action::OpenSettings);
    assert!(!flags.should_quit);
    failure_key(&mut flags, simple(Key::Esc));
    assert!(flags.should_quit);
}

fn empty_home() -> HomeState {
    HomeState {
        text_input: MultilineTextInput::new(),
        history: Vec::new(),
        selected_history: None,
        history_scroll_offset: 0,
    }
}

fn entry(id: i64, text: &str, ok: bool) -> HistoryEntry {
    HistoryEntry {
        id,
        encoded_text_preview: text.to_string(),
        encoded_text_full: text.to_string(),
        decoded_text: "plain".to_string(),
        path: vec!["[\"Base64\"]".to_string()],
        successful: ok,
        timestamp: "now".to_string(),
    }
}

#[test]
fn home_typing_and_submit() {
    let mut home = empty_home();
    let mut flags = UiFlags::new();
    for c in "aGk=".chars() {
        home_key(&mut home, &mut flags, simple(Key::Char(c)));
    }
    let r = home_key(&mut home, &mut flags, simple(Key::Enter));
    assert_eq!(r.action, Action::SubmitHomeInput("aGk=".to_string()));
    assert_eq!(r.request, AppRequest::Stay);
}

#[test]
fn home_submit_of_blank_text_asks_for_text() {
    let mut home = empty_home();
    let mut flags = UiFlags::new();
    home_key(&mut home, &mut flags, simple(Key::Char(' ')));
    let r = home_key(&mut home, &mut flags, simple(Key::Enter));
    assert_eq!(r.action, Action::Nothing);
    assert_eq!(
        r.request,
        AppRequest::Status("Please enter some ciphertext first.".to_string())
    );
}

#[test]
fn home_ctrl_enter_inserts_newline() {
    let mut home = empty_home();
    let mut flags = UiFlags::new();
    home_key(&mut home, &mut flags, simple(Key::Char('a')));
    home_key(&mut home, &mut flags, ctrl(Key::Enter));
    home_key(&mut home, &mut flags, simple(Key::Char('b')));
    assert_eq!(home.text_input.get_text(), "a\nb");
}

#[test]
fn home_escape_quits_or_leaves_history() {
    let mut home = empty_home();
    home.history.push(entry(1, "abc", true));
    let mut flags = UiFlags::new();
    home_key(&mut home, &mut flags, simple(Key::Tab));
    assert_eq!(home.selected_history, Some(0));
    home_key(&mut home, &mut flags, simple(Key::Esc));
    assert_eq!(home.selected_history, None);
    assert!(!flags.should_quit);
    home_key(&mut home, &mut flags, simple(Key::Esc));
    assert!(flags.should_quit);
}

#[test]
fn home_history_navigation_and_selection() {
    let mut home = empty_home();
    home.history.push(entry(7, "first", true));
    home.history.push(entry(8, "second", false));
    let mut flags = UiFlags::new();
    // Left at the start of the input moves into the history.
    home_key(&mut home, &mut flags, simple(Key::Left));
    assert_eq!(home.selected_history, Some(0));
    home_key(&mut home, &mut flags, simple(Key::Char('j')));
    assert_eq!(home.selected_history, Some(1));
    home_key(&mut home, &mut flags, simple(Key::Down));
    assert_eq!(home.selected_history, Some(1));
    home_key(&mut home, &mut flags, simple(Key::Char('k')));
    assert_eq!(home.selected_history, Some(0));
    let r = home_key(&mut home, &mut flags, simple(Key::Enter));
    assert_eq!(
        r.action,
        Action::ShowHistoryResult(ShowHistoryData {
            cache_id: 7,
            encoded_text: "first".to_string(),
            decoded_text: "plain".to_string(),
            path: vec!["[\"Base64\"]".to_string()],
        })
    );
    // A failed entry is brought back into the input.
    home_key(&mut home, &mut flags, simple(Key::End));
    assert_eq!(home.selected_history, Some(1));
    let r = home_key(&mut home, &mut flags, simple(Key::Enter));
    assert_eq!(r.action, Action::Nothing);
    assert_eq!(home.selected_history, None);
    assert_eq!(home.text_input.get_text(), "second");
    assert_eq!(home.text_input.cursor_pos(), (0, 6));
}

#[test]
fn home_ctrl_s_opens_settings() {
    let mut home = empty_home();
    let mut flags = UiFlags::new();
    let r = home_key(&mut home, &mut flags, ctrl(Key::Char('s')));
    assert_eq!(r.action, Action::OpenSettings);
}

fn step(decoder: &str, input: &str, output: &str) -> CrackResult {
    CrackResult {
        decoder: decoder.to_string(),
        encrypted_text: input.to_string(),
        unencrypted_text: Some(vec![output.to_string()]),
        key: None,
        description: String::new(),
        link: String::new(),
    }
}

fn results() -> ResultsState {
    ResultsState::new(DecoderResult {
        text: vec!["hello".to_string()],
        path: vec![step("Base64", "aGVsbG8=", "hello"), step("Reverse", "hello", "olleh")],
    })
}

#[test]
fn results_copy_and_navigation() {
    let mut rs = results();
    let mut g = false;
    let mut flags = UiFlags::new();
    assert_eq!(rs.selected_step, 1);
    let r = results_key(&mut rs, &mut g, &mut flags, simple(Key::Char('c')), false);
    assert_eq!(r.action, Action::CopyToClipboard("olleh".to_string()));
    let r = results_key(&mut rs, &mut g, &mut flags, simple(Key::Left), false);
    assert_eq!(r.request, AppRequest::EnterStep);
    assert_eq!(rs.selected_step, 0);
    let r = results_key(&mut rs, &mut g, &mut flags, simple(Key::Char('y')), false);
    assert_eq!(r.action, Action::CopyToClipboard("hello".to_string()));
    results_key(&mut rs, &mut g, &mut flags, simple(Key::Char('G')), false);
    assert_eq!(rs.selected_step, 1);
    results_key(&mut rs, &mut g, &mut flags, simple(Key::Char('g')), false);
    assert!(g);
    assert_eq!(rs.selected_step, 1);
    results_key(&mut rs, &mut g, &mut flags, simple(Key::Char('g')), false);
    assert!(!g);
    assert_eq!(rs.selected_step, 0);
}

#[test]
fn results_explain_needs_ai() {
    let mut rs = results();
    let mut g = false;
    let mut flags = UiFlags::new();
    let r = results_key(&mut rs, &mut g, &mut flags, simple(Key::Char('e')), false);
    assert_eq!(
        r.request,
        AppRequest::Status("AI not configured. Enable in Settings (Ctrl+S).".to_string())
    );
    let r = results_key(&mut rs, &mut g, &mut flags, simple(Key::Char('e')), true);
    assert_eq!(
        r.action,
        Action::ExplainStep(ExplainStepData {
            decoder_name: "Reverse".to_string(),
            input_text: "hello".to_string(),
            output_text: "olleh".to_string(),
            key: None,
        })
    );
    assert!(rs.ai_loading);
    let r = results_key(&mut rs, &mut g, &mut flags, simple(Key::Char('e')), true);
    assert_eq!(
        r.request,
        AppRequest::Status("AI explanation already loading...".to_string())
    );
}

#[test]
fn results_global_keys() {
    let mut rs = results();
    let mut g = false;
    let mut flags = UiFlags::new();
    results_key(&mut rs, &mut g, &mut flags, simple(Key::Char('?')), false);
    assert!(flags.show_help);
    let r = results_key(&mut rs, &mut g, &mut flags, simple(Key::Enter), false);
    assert_eq!(r.action, Action::OpenBranchPrompt);
    let r = results_key(&mut rs, &mut g, &mut flags, simple(Key::Backspace), false);
    assert_eq!(r.action, Action::Nothing);
    let r = results_key(&mut rs, &mut g, &mut flags, simple(Key::Char('b')), false);
    assert_eq!(r.request, AppRequest::ReturnHome);
    results_key(&mut rs, &mut g, &mut flags, simple(Key::Tab), false);
    assert_eq!(rs.focus, ResultsFocus::LevelDetail);
    results_key(&mut rs, &mut g, &mut flags, simple(Key::Char('q')), false);
    assert!(flags.should_quit);
}

use ciphey::input::{
    ask_ai_key, branch_mode_key, decoder_search_key, open_quick_search, quick_search_key,
    QuickSearchOpen,
};
use ciphey::state::{AskAiOverlay, BranchContext, BranchMode, BranchModePromptState, DecoderSearchOverlay, QuickSearchOverlay};
use ciphey::text_input::TextInput;

fn context() -> BranchContext {
    BranchContext {
        text_to_decode: "aGk=".to_string(),
        prefix_path: vec![step("Base64", "x", "aGk=")],
        parent_cache_id: Some(9),
        branch_step: 0,
    }
}

#[test]
fn quick_search_opens_and_launches() {
    let rs = results();
    match open_quick_search(&rs, &vec!["bad".to_string()]) {
        QuickSearchOpen::NoEntries(m) => {
            assert_eq!(m, "No quick searches configured. Add them in Settings (Ctrl+S).")
        }
        _ => panic!("expected no entries"),
    }
    let mut o = match open_quick_search(
        &rs,
        &vec!["G=https://g/?q={}".to_string(), "C=https://c/#{base64}".to_string()],
    ) {
        QuickSearchOpen::Open(o) => o,
        _ => panic!("expected an overlay"),
    };
    assert_eq!(o.output_text, "olleh");
    assert_eq!(quick_search_key(&mut o, simple(Key::Down)), (Action::Nothing, false));
    assert_eq!(o.selected_index, 1);
    assert_eq!(quick_search_key(&mut o, simple(Key::Down)), (Action::Nothing, false));
    assert_eq!(o.selected_index, 1);
    assert_eq!(
        quick_search_key(&mut o, simple(Key::Enter)),
        (Action::LaunchQuickSearch("https://c/#b2xsZWg=".to_string()), true)
    );
    let mut o2 = QuickSearchOverlay {
        entries: vec![("G".to_string(), "q={}".to_string())],
        selected_index: 0,
        output_text: "a b".to_string(),
    };
    assert_eq!(
        quick_search_key(&mut o2, simple(Key::Enter)),
        (Action::LaunchQuickSearch("q=a%20b".to_string()), true)
    );
    assert_eq!(quick_search_key(&mut o2, simple(Key::Esc)), (Action::Nothing, true));
}

#[test]
fn decoder_search_filters_and_runs() {
    let mut o = DecoderSearchOverlay {
        text_input: TextInput::new(),
        all_decoders: vec!["Base64", "Caesar", "Base32"],
        filtered_decoders: vec!["Base64", "Caesar", "Base32"],
        selected_index: 0,
        branch_context: context(),
    };
    decoder_search_key(&mut o, simple(Key::Char('B')));
    assert_eq!(o.filtered_decoders, vec!["Base64", "Base32"]);
    decoder_search_key(&mut o, KeyPress::with_ctrl(Key::Char('j')));
    assert_eq!(o.selected_index, 1);
    let (a, close) = decoder_search_key(&mut o, simple(Key::Enter));
    assert_eq!(a, Action::RunBranchDecoder("aGk=".to_string(), "Base32".to_string()));
    assert!(close);
    decoder_search_key(&mut o, simple(Key::Backspace));
    assert_eq!(o.filtered_decoders.len(), 3);
    assert_eq!(o.selected_index, 0);
}

#[test]
fn branch_mode_prompt() {
    let mut p = BranchModePromptState { selected_mode: BranchMode::FullSearch, branch_context: context() };
    branch_mode_key(&mut p, simple(Key::Down));
    assert_eq!(p.selected_mode, BranchMode::SingleLayer);
    assert_eq!(
        branch_mode_key(&mut p, simple(Key::Enter)),
        (Action::RunBranchSingleLayer("aGk=".to_string()), true)
    );
    branch_mode_key(&mut p, simple(Key::Char('k')));
    assert_eq!(
        branch_mode_key(&mut p, simple(Key::Enter)),
        (Action::RunBranchFullSearch("aGk=".to_string(), Some(context())), true)
    );
    assert_eq!(branch_mode_key(&mut p, simple(Key::Esc)), (Action::Nothing, true));
}

fn ask() -> AskAiOverlay {
    AskAiOverlay {
        text_input: MultilineTextInput::new(),
        decoder_name: "Base64".to_string(),
        step_input: "aGk=".to_string(),
        step_output: "hi".to_string(),
        step_key: None,
        step_description: String::new(),
        step_link: String::new(),
        response: None,
        loading: false,
        error: None,
        response_scroll: 0,
    }
}

#[test]
fn ask_ai_question_and_response() {
    let mut o = ask();
    assert_eq!(ask_ai_key(&mut o, ctrl(Key::Enter)), Action::Nothing);
    for c in "why?".chars() {
        ask_ai_key(&mut o, simple(Key::Char(c)));
    }
    ask_ai_key(&mut o, simple(Key::Enter));
    ask_ai_key(&mut o, simple(Key::Char('x')));
    assert_eq!(ask_ai_key(&mut o, ctrl(Key::Enter)), Action::SubmitAskAi("why?\nx".to_string()));
    assert_eq!(ask_ai_key(&mut o, ctrl(Key::Char('c'))), Action::Nothing);
    o.response = Some("because".to_string());
    assert_eq!(
        ask_ai_key(&mut o, ctrl(Key::Char('c'))),
        Action::CopyToClipboard("because".to_string())
    );
    ask_ai_key(&mut o, simple(Key::Up));
    assert_eq!(o.response_scroll, 0);
    ask_ai_key(&mut o, simple(Key::Down));
    assert_eq!(o.response_scroll, 1);
    o.loading = true;
    assert_eq!(ask_ai_key(&mut o, ctrl(Key::Enter)), Action::Nothing);
    assert_eq!(ask_ai_key(&mut o, simple(Key::Esc)), Action::CloseAskAi);
}
