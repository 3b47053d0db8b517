//! What key presses in the main interface ask for: the actions handed to the
//! event loop, and the decisions each screen makes on a key.

use vstd::prelude::*;

use crate::keys::{Key, KeyPress};
use crate::multiline_text_input::{
    ml_backspace, ml_cleared, ml_delete, ml_down, ml_end, ml_home, ml_insert_char,
    ml_insert_newline, ml_left, ml_right, ml_to_end, ml_to_start, ml_up, MlState,
    MultilineTextInput,
};
use crate::parse::{trim, trim_spec};
use crate::state::{
    branch_point_text, clone_opt_string, clone_strings, first_step_post, last_step_post,
    next_branch_post, next_step_post, prev_branch_post, prev_step_post, switch_focus_post,
    AskAiOverlay, BranchContext, BranchMode, BranchModePromptState, DecoderSearchOverlay,
    HistoryEntry, HomeState, QuickSearchOverlay, ResultsFocus, ResultsState,
};
use crate::search::{
    build_search_url, filter_decoders, matching_decoders, parse_search_entries, search_entries,
    search_url,
};
use crate::text_input::{ti_backspace, ti_insert, TiState};
use crate::themes::pair_views;
use crate::validation::{lowercase, to_lowercase};
use crate::state::opt_str;
use crate::text::{chars_of, fits_with, join_lines, lemma_encode_utf8_append, string_views, utf8_len};

verus! {

/// A stored decode to show on the Results screen.
#[derive(Debug, Clone, PartialEq)]
pub struct ShowHistoryData {
    /// Cache entry of the decode, for linking branches.
    pub cache_id: i64,
    /// The encoded input.
    pub encoded_text: String,
    /// The decoded plaintext.
    pub decoded_text: String,
    /// The decoder path, one JSON string per step.
    pub path: Vec<String>,
}

/// A decoder step to have explained.
#[derive(Debug, Clone, PartialEq)]
pub struct ExplainStepData {
    /// Name of the decoder.
    pub decoder_name: String,
    /// The step's input.
    pub input_text: String,
    /// The step's output.
    pub output_text: String,
    /// The key the decoder used, if any.
    pub key: Option<String>,
}

/// Work that a key press asks of the event loop, which performs all I/O.
#[derive(Debug, Clone, PartialEq)]
pub enum Action {
    /// Copy the text to the clipboard.
    CopyToClipboard(String),
    /// Decode the text afresh.
    RerunFromSelected(String),
    /// Decode the text typed on the Home screen.
    SubmitHomeInput(String),
    /// Open the settings panel.
    OpenSettings,
    /// Save the settings and return.
    SaveSettings,
    /// Show a stored successful decode.
    ShowHistoryResult(ShowHistoryData),
    /// Switch to the branch stored under this cache entry.
    SwitchToBranch(i64),
    /// Ask how to branch from the selected step.
    OpenBranchPrompt,
    /// Open the decoder search.
    OpenDecoderSearch,
    /// Open the web search overlay.
    OpenQuickSearch,
    /// Open this search address in the browser.
    LaunchQuickSearch(String),
    /// Return to the parent branch.
    ReturnToParent,
    /// Run a full search on the text as a new branch.
    RunBranchFullSearch(String, Option<BranchContext>),
    /// Run one layer of decoding on the text as a new branch.
    RunBranchSingleLayer(String),
    /// Run the named decoder (first) on the text (second) as a new branch.
    RunBranchDecoder(String, String),
    /// Explain the selected step.
    ExplainStep(ExplainStepData),
    /// Open the question box about the selected step.
    OpenAskAi,
    /// Ask this question about the selected step.
    SubmitAskAi(String),
    /// Close the question box.
    CloseAskAi,
    /// Import the wordlist file at this path.
    ImportWordlist(String),
    /// Delete the wordlist stored under this ID.
    DeleteWordlist(i64),
    /// Stop decoding and return to the Home screen.
    CancelDecode,
    /// Nothing to do.
    Nothing,
}

/// The interface flags that keys switch.
#[derive(Debug, Clone, Copy)]
pub struct UiFlags {
    /// Whether the interface should close.
    pub should_quit: bool,
    /// Whether the help overlay is shown.
    pub show_help: bool,
}

impl UiFlags {
    /// Neither closing nor showing help.
    pub fn new() -> (r: Self)
        ensures
            !r.should_quit,
            !r.show_help,
    {
        UiFlags { should_quit: false, show_help: false }
    }
}

/// What a key asks of the application besides an action.
#[derive(Debug, Clone, PartialEq)]
pub enum AppRequest {
    /// Nothing more.
    Stay,
    /// Show this status message.
    Status(String),
    /// Return to the Home screen (reloading the history).
    ReturnHome,
    /// Answer the pending confirmation: accept or reject.
    Respond(bool),
    /// The selected step changed: load its branches.
    EnterStep,
}

/// The result of a key press: the action for the event loop and what else
/// the application should do.
#[derive(Debug, Clone, PartialEq)]
pub struct KeyOutcome {
    /// Work for the event loop.
    pub action: Action,
    /// What the application should do besides.
    pub request: AppRequest,
}

/// An outcome with an action and nothing else.
fn act(action: Action) -> (r: KeyOutcome)
    ensures
        r.action == action,
        r.request is Stay,
{
    KeyOutcome { action, request: AppRequest::Stay }
}

/// Nothing to do.
fn nothing() -> (r: KeyOutcome)
    ensures
        r.action is Nothing,
        r.request is Stay,
{
    act(Action::Nothing)
}

/// The Home screen as a key sees it.
pub struct HomeView {
    pub text: MlState,
    pub selected: Option<usize>,
    pub scroll: usize,
}

/// The Home screen's view.
pub open spec fn home_view(h: HomeState) -> HomeView {
    HomeView {
        text: h.text_input.state(),
        selected: h.selected_history,
        scroll: h.history_scroll_offset,
    }
}

/// What a key on the Home screen asks for.
pub enum HomeEffect {
    /// Nothing.
    Nothing,
    /// Close the interface.
    Quit,
    /// Decode the typed text.
    Submit(Seq<char>),
    /// Show the stored decode of history entry `i`.
    Show(int),
    /// Ask for ciphertext first (nothing was typed).
    NeedText,
    /// Open the settings.
    Settings,
}

/// The input holding `t` as one line, the cursor after it: what typing the
/// characters of `t` into a cleared input gives.
pub open spec fn typed_into_cleared(t: Seq<char>) -> MlState {
    MlState { lines: seq![t], line: 0, col: t.len() as int, scroll: 0 }
}

/// The Home screen after moving the history selection up.
pub open spec fn history_up(h: HomeView) -> HomeView {
    match h.selected {
        Some(i) => if i > 0 {
            HomeView {
                selected: Some((i - 1) as usize),
                scroll: if i - 1 < h.scroll {
                    (i - 1) as usize
                } else {
                    h.scroll
                },
                ..h
            }
        } else {
            h
        },
        None => h,
    }
}

/// The Home screen after moving the history selection down (`n` entries).
pub open spec fn history_down(h: HomeView, n: int) -> HomeView {
    match h.selected {
        Some(i) => if i < (if n == 0 {
            0
        } else {
            n - 1
        }) {
            HomeView { selected: Some((i + 1) as usize), ..h }
        } else {
            h
        },
        None => h,
    }
}

/// What a key does on the Home screen, given the history entries: the new
/// screen and what it asks for. Control with Left or Right moves by one
/// character.
pub open spec fn home_key_spec(h: HomeView, hist: Seq<HistoryEntry>, k: KeyPress) -> (
    HomeView,
    HomeEffect,
) {
    let focused = h.selected is Some;
    let with_text = |t: MlState| HomeView { text: t, ..h };
    match k.code {
        Key::Esc => if focused {
            (HomeView { selected: None, ..h }, HomeEffect::Nothing)
        } else {
            (h, HomeEffect::Quit)
        },
        Key::Tab => if hist.len() == 0 {
            (h, HomeEffect::Nothing)
        } else if focused {
            (HomeView { selected: None, ..h }, HomeEffect::Nothing)
        } else {
            (HomeView { selected: Some(0), scroll: 0, ..h }, HomeEffect::Nothing)
        },
        Key::Enter => if k.ctrl {
            if !focused {
                (with_text(ml_insert_newline(h.text)), HomeEffect::Nothing)
            } else {
                (h, HomeEffect::Nothing)
            }
        } else if focused {
            let i = h.selected->0;
            if i < hist.len() {
                if hist[i as int].successful {
                    (h, HomeEffect::Show(i as int))
                } else {
                    (
                        HomeView {
                            text: typed_into_cleared(hist[i as int].encoded_text_full@),
                            selected: None,
                            ..h
                        },
                        HomeEffect::Nothing,
                    )
                }
            } else {
                (h, HomeEffect::Nothing)
            }
        } else {
            let t = join_lines(h.text.lines);
            if trim_spec(t).len() == 0 {
                (h, HomeEffect::NeedText)
            } else {
                (h, HomeEffect::Submit(t))
            }
        },
        Key::Char('s') if k.ctrl => (h, HomeEffect::Settings),
        Key::Left => if focused {
            (h, HomeEffect::Nothing)
        } else if !k.ctrl && h.text.line == 0 && h.text.col == 0 && hist.len() > 0 {
            (HomeView { selected: Some(0), scroll: 0, ..h }, HomeEffect::Nothing)
        } else {
            (with_text(ml_left(h.text)), HomeEffect::Nothing)
        },
        Key::Right => if focused {
            (HomeView { selected: None, ..h }, HomeEffect::Nothing)
        } else {
            (with_text(ml_right(h.text)), HomeEffect::Nothing)
        },
        Key::Up => if focused {
            (history_up(h), HomeEffect::Nothing)
        } else {
            (with_text(ml_up(h.text)), HomeEffect::Nothing)
        },
        Key::Down => if focused {
            (history_down(h, hist.len() as int), HomeEffect::Nothing)
        } else {
            (with_text(ml_down(h.text)), HomeEffect::Nothing)
        },
        Key::Char('j') if focused => (history_down(h, hist.len() as int), HomeEffect::Nothing),
        Key::Char('k') if focused => (history_up(h), HomeEffect::Nothing),
        Key::Home => if focused {
            (HomeView { selected: Some(0), scroll: 0, ..h }, HomeEffect::Nothing)
        } else if k.ctrl {
            (with_text(ml_to_start(h.text)), HomeEffect::Nothing)
        } else {
            (with_text(ml_home(h.text)), HomeEffect::Nothing)
        },
        Key::End => if focused {
            if hist.len() > 0 {
                (HomeView { selected: Some((hist.len() - 1) as usize), ..h }, HomeEffect::Nothing)
            } else {
                (h, HomeEffect::Nothing)
            }
        } else if k.ctrl {
            (with_text(ml_to_end(h.text)), HomeEffect::Nothing)
        } else {
            (with_text(ml_end(h.text)), HomeEffect::Nothing)
        },
        Key::Backspace => if !focused {
            (with_text(ml_backspace(h.text)), HomeEffect::Nothing)
        } else {
            (h, HomeEffect::Nothing)
        },
        Key::Delete => if !focused {
            (with_text(ml_delete(h.text)), HomeEffect::Nothing)
        } else {
            (h, HomeEffect::Nothing)
        },
        Key::Char(c) => if !focused && !k.ctrl && !k.alt {
            (with_text(ml_insert_char(h.text, c)), HomeEffect::Nothing)
        } else {
            (h, HomeEffect::Nothing)
        },
        _ => (h, HomeEffect::Nothing),
    }
}

/// The keys the Home screen can take without a string outgrowing
/// `isize::MAX` bytes: a typed character must fit in its line, and a failed
/// history entry brought back into the input must fit in one.
pub open spec fn home_key_ok(h: HomeState, k: KeyPress) -> bool {
    let focused = h.selected_history is Some;
    &&& h.text_input.wf()
    &&& match k.code {
        Key::Char(c) => (!focused && !k.ctrl && !k.alt) ==> fits_with(
            h.text_input.current_line(),
            c,
        ),
        Key::Enter => (!k.ctrl && focused && h.selected_history->0 < h.history@.len())
            ==> utf8_len(h.history@[h.selected_history->0 as int].encoded_text_full@)
            <= isize::MAX,
        _ => true,
    }
}

/// Whether `r` carries out the Home effect `e` for the history `hist`.
pub open spec fn home_outcome(e: HomeEffect, hist: Seq<HistoryEntry>, r: KeyOutcome) -> bool {
    match e {
        HomeEffect::Nothing | HomeEffect::Quit => r.action is Nothing && r.request is Stay,
        HomeEffect::Submit(t) => r.request is Stay && (r.action matches Action::SubmitHomeInput(
            s,
        ) && s@ == t),
        HomeEffect::Show(i) => r.request is Stay && (r.action matches Action::ShowHistoryResult(d)
            && d.cache_id == hist[i].id && d.encoded_text@ == hist[i].encoded_text_full@
            && d.decoded_text@ == hist[i].decoded_text@ && string_views(d.path@) == string_views(
            hist[i].path@,
        )),
        HomeEffect::NeedText => r.action is Nothing && (r.request matches AppRequest::Status(m)
            && m@ == "Please enter some ciphertext first."@),
        HomeEffect::Settings => r.action is OpenSettings && r.request is Stay,
    }
}

/// Types the characters of `text` into the input, one by one.
fn type_text(input: &mut MultilineTextInput, text: &str)
    requires
        old(input).state() == ml_cleared(),
        old(input).wf(),
        utf8_len(text@) <= isize::MAX,
    ensures
        final(input).wf(),
        final(input).state() == typed_into_cleared(text@),
{
    let chars = chars_of(text);
    let mut i: usize = 0;
    proof {
        assert(text@.take(0) =~= Seq::<char>::empty());
    }
    while i < chars.len()
        invariant
            chars@ == text@,
            i <= chars@.len(),
            input.wf(),
            input.state() == typed_into_cleared(text@.take(i as int)),
            utf8_len(text@) <= isize::MAX,
        decreases chars@.len() - i,
    {
        proof {
            let pre = text@.take(i as int);
            let c = text@[i as int];
            assert(text@.take(i + 1) =~= pre.push(c));
            assert(text@ =~= text@.take(i + 1) + text@.skip(i + 1));
            lemma_encode_utf8_append(text@.take(i + 1), text@.skip(i + 1));
            assert(pre.push(c) =~= pre + seq![c]);
            lemma_encode_utf8_append(pre, seq![c]);
            crate::text::lemma_encode_utf8_single(c);
            assert(input.current_line() == pre);
        }
        input.insert_char(chars[i]);
        proof {
            let pre = text@.take(i as int);
            assert(pre.take(pre.len() as int) + seq![chars@[i as int]] + pre.skip(pre.len() as int)
                =~= text@.take(i + 1));
            assert(seq![pre].update(0, text@.take(i + 1)) =~= seq![text@.take(i + 1)]);
        }
        i = i + 1;
    }
    proof {
        assert(text@.take(chars@.len() as int) =~= text@);
    }
}

/// Handles a key on the Home screen (see `home_key_spec`).
pub fn home_key(home: &mut HomeState, flags: &mut UiFlags, key: KeyPress) -> (r: KeyOutcome)
    requires
        home_key_ok(*old(home), key),
    ensures
        final(home).text_input.wf(),
        final(home).history == old(home).history,
        home_view(*final(home)) == home_key_spec(home_view(*old(home)), old(home).history@, key).0,
        home_outcome(
            home_key_spec(home_view(*old(home)), old(home).history@, key).1,
            old(home).history@,
            r,
        ),
        final(flags).should_quit == (old(flags).should_quit || home_key_spec(
            home_view(*old(home)),
            old(home).history@,
            key,
        ).1 is Quit),
        final(flags).show_help == old(flags).show_help,
{
    let (r, quit) = home_key_inner(home, key);
    if quit {
        flags.should_quit = true;
    }
    r
}

/// The work of `home_key`; the flag tells whether to close.
#[verifier::rlimit(40)]
fn home_key_inner(home: &mut HomeState, key: KeyPress) -> (r: (KeyOutcome, bool))
    requires
        home_key_ok(*old(home), key),
    ensures
        final(home).text_input.wf(),
        final(home).history == old(home).history,
        home_view(*final(home)) == home_key_spec(home_view(*old(home)), old(home).history@, key).0,
        home_outcome(
            home_key_spec(home_view(*old(home)), old(home).history@, key).1,
            old(home).history@,
            r.0,
        ),
        r.1 == home_key_spec(home_view(*old(home)), old(home).history@, key).1 is Quit,
{
    let focused = home.selected_history.is_some();
    if key.code == Key::Esc {
        if focused {
            home.selected_history = None;
            return (nothing(), false);
        } else {
            return (nothing(), true);
        }
    }
    let r = match key.code {
        Key::Tab => {
            if home.history.len() == 0 {
            } else if focused {
                home.selected_history = None;
            } else {
                home.selected_history = Some(0);
                home.history_scroll_offset = 0;
            }
            nothing()
        },
        Key::Enter => {
            if key.ctrl {
                if !focused {
                    home.text_input.insert_newline();
                }
                nothing()
            } else if focused {
                let idx = home.selected_history.unwrap();
                if idx < home.history.len() {
                    if home.history[idx].successful {
                        let entry = &home.history[idx];
                        act(
                            Action::ShowHistoryResult(
                                ShowHistoryData {
                                    cache_id: entry.id,
                                    encoded_text: entry.encoded_text_full.clone(),
                                    decoded_text: entry.decoded_text.clone(),
                                    path: clone_strings(&entry.path),
                                },
                            ),
                        )
                    } else {
                        home.text_input.clear();
                        let text = home.history[idx].encoded_text_full.clone();
                        type_text(&mut home.text_input, text.as_str());
                        home.selected_history = None;
                        nothing()
                    }
                } else {
                    nothing()
                }
            } else {
                let text = home.text_input.get_text();
                if trim(text.as_str()).unicode_len() == 0 {
                    KeyOutcome {
                        action: Action::Nothing,
                        request: AppRequest::Status(
                            String::from_str("Please enter some ciphertext first."),
                        ),
                    }
                } else {
                    act(Action::SubmitHomeInput(text))
                }
            }
        },
        Key::Char('s') if key.ctrl => act(Action::OpenSettings),
        Key::Left => {
            if focused {
            } else if !key.ctrl && home.text_input.is_cursor_at_start() && home.history.len() > 0 {
                home.selected_history = Some(0);
                home.history_scroll_offset = 0;
            } else {
                home.text_input.move_cursor_left();
            }
            nothing()
        },
        Key::Right => {
            if focused {
                home.selected_history = None;
            } else {
                home.text_input.move_cursor_right();
            }
            nothing()
        },
        Key::Up => {
            if focused {
                history_up_exec(home);
            } else {
                home.text_input.move_cursor_up();
            }
            nothing()
        },
        Key::Down => {
            if focused {
                history_down_exec(home);
            } else {
                home.text_input.move_cursor_down();
            }
            nothing()
        },
        Key::Char('j') if focused => {
            history_down_exec(home);
            nothing()
        },
        Key::Char('k') if focused => {
            history_up_exec(home);
            nothing()
        },
        Key::Home => {
            if focused {
                home.selected_history = Some(0);
                home.history_scroll_offset = 0;
            } else if key.ctrl {
                home.text_input.move_cursor_to_start();
            } else {
                home.text_input.move_cursor_home();
            }
            nothing()
        },
        Key::End => {
            if focused {
                if home.history.len() > 0 {
                    home.selected_history = Some(home.history.len() - 1);
                }
            } else if key.ctrl {
                home.text_input.move_cursor_to_end();
            } else {
                home.text_input.move_cursor_end();
            }
            nothing()
        },
        Key::Backspace => {
            if !focused {
                home.text_input.backspace();
            }
            nothing()
        },
        Key::Delete => {
            if !focused {
                home.text_input.delete();
            }
            nothing()
        },
        Key::Char(c) => {
            if !focused && !key.ctrl && !key.alt {
                home.text_input.insert_char(c);
            }
            nothing()
        },
        _ => nothing(),
    };
    (r, false)
}

/// Moves the history selection up, scrolling to keep it in view.
fn history_up_exec(home: &mut HomeState)
    ensures
        home_view(*final(home)) == history_up(home_view(*old(home))),
        final(home).text_input == old(home).text_input,
        final(home).history == old(home).history,
{
    if let Some(i) = home.selected_history {
        if i > 0 {
            home.selected_history = Some(i - 1);
            if i - 1 < home.history_scroll_offset {
                home.history_scroll_offset = i - 1;
            }
        }
    }
}

/// Moves the history selection down, stopping at the last entry.
fn history_down_exec(home: &mut HomeState)
    ensures
        home_view(*final(home)) == history_down(home_view(*old(home)), old(home).history@.len() as int),
        final(home).text_input == old(home).text_input,
        final(home).history == old(home).history,
{
    if let Some(i) = home.selected_history {
        let last = if home.history.len() == 0 {
            0
        } else {
            home.history.len() - 1
        };
        if i < last {
            home.selected_history = Some(i + 1);
        }
    }
}

/// How a key changes the Results screen's own state.
pub enum ResultsMove {
    /// No change.
    Keep,
    /// `ResultsState::next_step`.
    NextStep,
    /// `ResultsState::prev_step`.
    PrevStep,
    /// `ResultsState::first_step`.
    FirstStep,
    /// `ResultsState::last_step`.
    LastStep,
    /// `ResultsState::next_branch`.
    NextBranch,
    /// `ResultsState::prev_branch`.
    PrevBranch,
    /// `ResultsState::switch_focus`.
    SwitchFocus,
    /// An explanation of the selected step is now loading.
    StartExplaining,
}

/// What a key on the Results screen asks for.
pub enum ResultsEffect {
    Nothing,
    Quit,
    ToggleHelp,
    Settings,
    Home,
    Copy(Seq<char>),
    SwitchTo(i64),
    BranchPrompt,
    Parent,
    Explain,
    AskAi,
    DecoderSearch,
    QuickSearch,
    Status(Seq<char>),
}

/// The message shown when explanations are asked for but not set up.
pub open spec fn ai_off_message() -> Seq<char> {
    "AI not configured. Enable in Settings (Ctrl+S)."@
}

/// What a key does on the Results screen: the change to the screen's state,
/// the new pending-`g` flag (for `gg`), and what it asks for. `ai` tells
/// whether explanations are set up.
pub open spec fn results_key_spec(rs: ResultsState, pending_g: bool, k: KeyPress, ai: bool) -> (
    ResultsMove,
    bool,
    ResultsEffect,
) {
    let text = branch_point_text(rs.result, rs.selected_step);
    let tree = rs.focus == ResultsFocus::TreeView;
    let detail = rs.focus == ResultsFocus::LevelDetail;
    let has_branches = rs.current_branches@.len() > 0;
    if k.is_ctrl_char('c') {
        (ResultsMove::Keep, pending_g, ResultsEffect::Quit)
    } else {
        match k.code {
            Key::Char('q') | Key::Esc => (ResultsMove::Keep, pending_g, ResultsEffect::Quit),
            Key::Char('?') => (ResultsMove::Keep, pending_g, ResultsEffect::ToggleHelp),
            Key::Char('s') if k.ctrl => (ResultsMove::Keep, pending_g, ResultsEffect::Settings),
            Key::Char('g') => if tree {
                if pending_g {
                    (ResultsMove::FirstStep, false, ResultsEffect::Nothing)
                } else {
                    (ResultsMove::Keep, true, ResultsEffect::Nothing)
                }
            } else {
                (ResultsMove::Keep, false, ResultsEffect::Nothing)
            },
            Key::Char('b') => (ResultsMove::Keep, false, ResultsEffect::Home),
            Key::Left | Key::Char('h') => (
                if tree {
                    ResultsMove::PrevStep
                } else {
                    ResultsMove::Keep
                },
                false,
                ResultsEffect::Nothing,
            ),
            Key::Right | Key::Char('l') => (
                if tree {
                    ResultsMove::NextStep
                } else {
                    ResultsMove::Keep
                },
                false,
                ResultsEffect::Nothing,
            ),
            Key::Up | Key::Char('k') => (
                if detail && has_branches {
                    ResultsMove::PrevBranch
                } else {
                    ResultsMove::Keep
                },
                false,
                ResultsEffect::Nothing,
            ),
            Key::Down | Key::Char('j') => (
                if detail && has_branches {
                    ResultsMove::NextBranch
                } else {
                    ResultsMove::Keep
                },
                false,
                ResultsEffect::Nothing,
            ),
            Key::Home => (
                if tree {
                    ResultsMove::FirstStep
                } else {
                    ResultsMove::Keep
                },
                false,
                ResultsEffect::Nothing,
            ),
            Key::End | Key::Char('G') => (
                if tree {
                    ResultsMove::LastStep
                } else {
                    ResultsMove::Keep
                },
                false,
                ResultsEffect::Nothing,
            ),
            Key::Char('c') | Key::Char('y') => (
                ResultsMove::Keep,
                false,
                match text {
                    Some(t) => ResultsEffect::Copy(t),
                    None => ResultsEffect::Nothing,
                },
            ),
            Key::Enter => if detail {
                match rs.highlighted_branch {
                    Some(i) if i < rs.current_branches@.len() => (
                        ResultsMove::Keep,
                        false,
                        ResultsEffect::SwitchTo(rs.current_branches@[i as int].cache_id),
                    ),
                    _ => if has_branches {
                        (ResultsMove::NextBranch, false, ResultsEffect::Nothing)
                    } else {
                        (ResultsMove::Keep, false, ResultsEffect::Nothing)
                    },
                }
            } else if tree && text is Some {
                (ResultsMove::Keep, false, ResultsEffect::BranchPrompt)
            } else {
                (ResultsMove::Keep, false, ResultsEffect::Nothing)
            },
            Key::Backspace => (
                ResultsMove::Keep,
                false,
                if rs.branch_path.stack@.len() > 0 {
                    ResultsEffect::Parent
                } else {
                    ResultsEffect::Nothing
                },
            ),
            Key::Char('e') => if !ai {
                (ResultsMove::Keep, false, ResultsEffect::Status(ai_off_message()))
            } else if rs.ai_loading {
                (
                    ResultsMove::Keep,
                    false,
                    ResultsEffect::Status("AI explanation already loading..."@),
                )
            } else if rs.selected_step < rs.result.path@.len() {
                (ResultsMove::StartExplaining, false, ResultsEffect::Explain)
            } else {
                (ResultsMove::Keep, false, ResultsEffect::Nothing)
            },
            Key::Char('a') => if !ai {
                (ResultsMove::Keep, false, ResultsEffect::Status(ai_off_message()))
            } else {
                (ResultsMove::Keep, false, ResultsEffect::AskAi)
            },
            Key::Char('/') => (
                ResultsMove::Keep,
                false,
                if text is Some {
                    ResultsEffect::DecoderSearch
                } else {
                    ResultsEffect::Nothing
                },
            ),
            Key::Char('o') => (
                ResultsMove::Keep,
                false,
                if text is Some {
                    ResultsEffect::QuickSearch
                } else {
                    ResultsEffect::Nothing
                },
            ),
            Key::Tab => (ResultsMove::SwitchFocus, false, ResultsEffect::Nothing),
            _ => (ResultsMove::Keep, false, ResultsEffect::Nothing),
        }
    }
}

/// Whether `post` is `pre` after the move `m`.
pub open spec fn results_moved(m: ResultsMove, pre: ResultsState, post: ResultsState) -> bool {
    match m {
        ResultsMove::Keep => post == pre,
        ResultsMove::NextStep => next_step_post(pre, post),
        ResultsMove::PrevStep => prev_step_post(pre, post),
        ResultsMove::FirstStep => first_step_post(pre, post),
        ResultsMove::LastStep => last_step_post(pre, post),
        ResultsMove::NextBranch => next_branch_post(pre, post),
        ResultsMove::PrevBranch => prev_branch_post(pre, post),
        ResultsMove::SwitchFocus => switch_focus_post(pre, post),
        ResultsMove::StartExplaining => post == ResultsState { ai_loading: true, ..pre },
    }
}

/// Whether the move `m` selects another step, whose branches must then be
/// loaded: always for the first step, for the others when the path is not
/// empty.
pub open spec fn enters_step(m: ResultsMove, pre: ResultsState) -> bool {
    match m {
        ResultsMove::FirstStep => true,
        ResultsMove::NextStep | ResultsMove::PrevStep | ResultsMove::LastStep => pre.result.path@.len()
            > 0,
        _ => false,
    }
}

/// Whether `d` describes step `i` of the path of `rs` for an explanation.
pub open spec fn explains_step(d: ExplainStepData, rs: ResultsState, i: int) -> bool {
    let step = rs.result.path@[i];
    &&& d.decoder_name@ == step.decoder@
    &&& d.input_text@ == step.encrypted_text@
    &&& d.output_text@ == (match branch_point_text(rs.result, i as usize) {
        Some(t) => t,
        None => Seq::empty(),
    })
    &&& opt_str(d.key) == opt_str(step.key)
}

/// Backspace on the Results screen returns to the parent result exactly
/// when a branch is being viewed (the branch path is not empty); on the main
/// result it does nothing.
pub proof fn lemma_backspace_returns_to_parent(
    rs: ResultsState,
    pending_g: bool,
    k: KeyPress,
    ai: bool,
    r: KeyOutcome,
)
    requires
        k.code == Key::Backspace,
        ({
            let (m, g, e) = results_key_spec(rs, pending_g, k, ai);
            results_outcome(m, e, rs, r)
        }),
    ensures
        r.action is ReturnToParent <==> rs.branch_path.stack@.len() > 0,
        rs.branch_path.stack@.len() == 0 ==> r.action is Nothing,
        r.request is Stay,
{
}

/// Whether `r` carries out the Results effect `e` (after the move `m`) for
/// the screen `rs`.
pub open spec fn results_outcome(m: ResultsMove, e: ResultsEffect, rs: ResultsState, r: KeyOutcome) -> bool {
    let stay = if enters_step(m, rs) {
        r.request is EnterStep
    } else {
        r.request is Stay
    };
    match e {
        ResultsEffect::Nothing | ResultsEffect::Quit | ResultsEffect::ToggleHelp => r.action is Nothing
            && stay,
        ResultsEffect::Settings => r.action is OpenSettings && stay,
        ResultsEffect::Home => r.action is Nothing && r.request is ReturnHome,
        ResultsEffect::Copy(t) => stay && (r.action matches Action::CopyToClipboard(c) && c@ == t),
        ResultsEffect::SwitchTo(id) => stay && r.action == Action::SwitchToBranch(id),
        ResultsEffect::BranchPrompt => stay && r.action is OpenBranchPrompt,
        ResultsEffect::Parent => stay && r.action is ReturnToParent,
        ResultsEffect::Explain => stay && (r.action matches Action::ExplainStep(d) && explains_step(
            d,
            rs,
            rs.selected_step as int,
        )),
        ResultsEffect::AskAi => stay && r.action is OpenAskAi,
        ResultsEffect::DecoderSearch => stay && r.action is OpenDecoderSearch,
        ResultsEffect::QuickSearch => stay && r.action is OpenQuickSearch,
        ResultsEffect::Status(m) => r.action is Nothing && (r.request matches AppRequest::Status(s)
            && s@ == m),
    }
}

/// The keys the Results screen can take: moving to the next step needs a
/// selected step below `usize::MAX`, and moving down the branch list needs a
/// list panel with at least one visible row.
pub open spec fn results_key_ok(rs: ResultsState, pending_g: bool, k: KeyPress, ai: bool) -> bool {
    let m = results_key_spec(rs, pending_g, k, ai).0;
    &&& (m is NextStep && rs.result.path@.len() > 0) ==> rs.selected_step < usize::MAX
    &&& (m is NextBranch && rs.current_branches@.len() > 0) ==> rs.level_visible_rows > 0
}

/// The first output text of the selected step, copied.
fn selected_text(rs: &ResultsState) -> (r: Option<String>)
    ensures
        opt_str(r) == branch_point_text(rs.result, rs.selected_step),
{
    let sel = rs.selected_step;
    if sel < rs.result.path.len() {
        match &rs.result.path[sel].unencrypted_text {
            Some(texts) => if texts.len() > 0 {
                Some(texts[0].clone())
            } else {
                None
            },
            None => None,
        }
    } else {
        None
    }
}

/// Handles a key on the Results screen (see `results_key_spec`): Control+C,
/// `q` and Esc close the interface, `?` toggles the help, Control+S opens the
/// settings; the other keys navigate steps and branches or ask for work.
pub fn results_key(
    rs: &mut ResultsState,
    pending_g: &mut bool,
    flags: &mut UiFlags,
    key: KeyPress,
    ai_configured: bool,
) -> (r: KeyOutcome)
    requires
        results_key_ok(*old(rs), *old(pending_g), key, ai_configured),
    ensures
        ({
            let (m, g, e) = results_key_spec(*old(rs), *old(pending_g), key, ai_configured);
            &&& results_moved(m, *old(rs), *final(rs))
            &&& *final(pending_g) == g
            &&& results_outcome(m, e, *old(rs), r)
            &&& final(flags).should_quit == (old(flags).should_quit || e is Quit)
            &&& final(flags).show_help == (if e is ToggleHelp {
                !old(flags).show_help
            } else {
                old(flags).show_help
            })
        }),
{
    let (r, quit, toggle) = results_key_inner(rs, pending_g, key, ai_configured);
    if quit {
        flags.should_quit = true;
    }
    if toggle {
        flags.show_help = !flags.show_help;
    }
    r
}

/// The work of `results_key`; the flags tell whether to close and whether to
/// toggle the help.
#[verifier::rlimit(60)]
fn results_key_inner(rs: &mut ResultsState, pending_g: &mut bool, key: KeyPress, ai_configured: bool) -> (r: (
    KeyOutcome,
    bool,
    bool,
))
    requires
        results_key_ok(*old(rs), *old(pending_g), key, ai_configured),
    ensures
        ({
            let (m, g, e) = results_key_spec(*old(rs), *old(pending_g), key, ai_configured);
            &&& results_moved(m, *old(rs), *final(rs))
            &&& *final(pending_g) == g
            &&& results_outcome(m, e, *old(rs), r.0)
            &&& r.1 == e is Quit
            &&& r.2 == e is ToggleHelp
        }),
{
    if key.ctrl && key.code == Key::Char('c') {
        return (nothing(), true, false);
    }
    match key.code {
        Key::Char('q') | Key::Esc => {
            return (nothing(), true, false);
        },
        Key::Char('?') => {
            return (nothing(), false, true);
        },
        Key::Char('s') if key.ctrl => {
            return (act(Action::OpenSettings), false, false);
        },
        _ => {},
    }
    let text = selected_text(rs);
    let tree = rs.focus == ResultsFocus::TreeView;
    let detail = rs.focus == ResultsFocus::LevelDetail;
    let has_branches = rs.has_branches();
    match key.code {
        Key::Char('g') => {
            if tree {
                if *pending_g {
                    *pending_g = false;
                    rs.first_step();
                    return (KeyOutcome { action: Action::Nothing, request: AppRequest::EnterStep }, false, false);
                } else {
                    *pending_g = true;
                }
            } else {
                *pending_g = false;
            }
            return (nothing(), false, false);
        },
        _ => {},
    }
    *pending_g = false;
    let r = match key.code {
        Key::Char('b') => KeyOutcome { action: Action::Nothing, request: AppRequest::ReturnHome },
        Key::Left | Key::Char('h') => {
            if tree {
                let n = rs.result.path.len();
                rs.prev_step();
                if n > 0 {
                    return (KeyOutcome { action: Action::Nothing, request: AppRequest::EnterStep }, false, false);
                }
            }
            nothing()
        },
        Key::Right | Key::Char('l') => {
            if tree {
                let n = rs.result.path.len();
                rs.next_step();
                if n > 0 {
                    return (KeyOutcome { action: Action::Nothing, request: AppRequest::EnterStep }, false, false);
                }
            }
            nothing()
        },
        Key::Up | Key::Char('k') => {
            if detail && has_branches {
                rs.prev_branch();
            }
            nothing()
        },
        Key::Down | Key::Char('j') => {
            if detail && has_branches {
                rs.next_branch();
            }
            nothing()
        },
        Key::Home => {
            if tree {
                rs.first_step();
                return (KeyOutcome { action: Action::Nothing, request: AppRequest::EnterStep }, false, false);
            }
            nothing()
        },
        Key::End | Key::Char('G') => {
            if tree {
                let n = rs.result.path.len();
                rs.last_step();
                if n > 0 {
                    return (KeyOutcome { action: Action::Nothing, request: AppRequest::EnterStep }, false, false);
                }
            }
            nothing()
        },
        Key::Char('c') | Key::Char('y') => match text {
            Some(t) => act(Action::CopyToClipboard(t)),
            None => nothing(),
        },
        Key::Enter => {
            if detail {
                let highlighted = match rs.get_highlighted_branch() {
                    Some(b) => Some(b.cache_id),
                    None => None,
                };
                match highlighted {
                    Some(id) => act(Action::SwitchToBranch(id)),
                    None => {
                        if has_branches {
                            rs.next_branch();
                        }
                        nothing()
                    },
                }
            } else if tree && text.is_some() {
                act(Action::OpenBranchPrompt)
            } else {
                nothing()
            }
        },
        Key::Backspace => {
            if rs.branch_path.is_branch() {
                act(Action::ReturnToParent)
            } else {
                nothing()
            }
        },
        Key::Char('e') => {
            if !ai_configured {
                KeyOutcome {
                    action: Action::Nothing,
                    request: AppRequest::Status(
                        String::from_str("AI not configured. Enable in Settings (Ctrl+S)."),
                    ),
                }
            } else if rs.ai_loading {
                KeyOutcome {
                    action: Action::Nothing,
                    request: AppRequest::Status(String::from_str("AI explanation already loading...")),
                }
            } else if rs.selected_step < rs.result.path.len() {
                let step = &rs.result.path[rs.selected_step];
                let data = ExplainStepData {
                    decoder_name: step.decoder.clone(),
                    input_text: step.encrypted_text.clone(),
                    output_text: match text {
                        Some(t) => t,
                        None => String::new(),
                    },
                    key: clone_opt_string(&step.key),
                };
                rs.ai_loading = true;
                act(Action::ExplainStep(data))
            } else {
                nothing()
            }
        },
        Key::Char('a') => {
            if !ai_configured {
                KeyOutcome {
                    action: Action::Nothing,
                    request: AppRequest::Status(
                        String::from_str("AI not configured. Enable in Settings (Ctrl+S)."),
                    ),
                }
            } else {
                act(Action::OpenAskAi)
            }
        },
        Key::Char('/') => {
            if text.is_some() {
                act(Action::OpenDecoderSearch)
            } else {
                nothing()
            }
        },
        Key::Char('o') => {
            if text.is_some() {
                act(Action::OpenQuickSearch)
            } else {
                nothing()
            }
        },
        Key::Tab => {
            rs.switch_focus();
            nothing()
        },
        _ => nothing(),
    };
    (r, false, false)
}

/// What a key asks for on the Loading screen: Control+C and `q` close the
/// interface, Esc and `b` cancel the decode, `?` toggles the help, Control+S
/// opens the settings.
pub enum LoadingEffect {
    Nothing,
    Quit,
    Cancel,
    ToggleHelp,
    Settings,
}

/// What a key does on the Loading screen.
pub open spec fn loading_key_spec(k: KeyPress) -> LoadingEffect {
    if k.is_ctrl_char('c') {
        LoadingEffect::Quit
    } else {
        match k.code {
            Key::Esc | Key::Char('b') => LoadingEffect::Cancel,
            Key::Char('q') => LoadingEffect::Quit,
            Key::Char('?') => LoadingEffect::ToggleHelp,
            Key::Char('s') if k.ctrl => LoadingEffect::Settings,
            _ => LoadingEffect::Nothing,
        }
    }
}

/// Handles a key on the Loading screen (see `loading_key_spec`).
pub fn loading_key(flags: &mut UiFlags, key: KeyPress) -> (r: Action)
    ensures
        r == (match loading_key_spec(key) {
            LoadingEffect::Cancel => Action::CancelDecode,
            LoadingEffect::Settings => Action::OpenSettings,
            _ => Action::Nothing,
        }),
        final(flags).should_quit == (old(flags).should_quit || loading_key_spec(key) is Quit),
        final(flags).show_help == (if loading_key_spec(key) is ToggleHelp {
            !old(flags).show_help
        } else {
            old(flags).show_help
        }),
{
    let mut quit = false;
    let mut toggle = false;
    let r = if key.ctrl && key.code == Key::Char('c') {
        quit = true;
        Action::Nothing
    } else {
        match key.code {
            Key::Esc | Key::Char('b') => Action::CancelDecode,
            Key::Char('q') => {
                quit = true;
                Action::Nothing
            },
            Key::Char('?') => {
                toggle = true;
                Action::Nothing
            },
            Key::Char('s') if key.ctrl => Action::OpenSettings,
            _ => Action::Nothing,
        }
    };
    if quit {
        flags.should_quit = true;
    }
    if toggle {
        flags.show_help = !flags.show_help;
    }
    r
}

/// The answer a key gives on the confirmation screen: `y`, `Y` and Enter
/// accept, `n`, `N` and Esc reject, other keys (`q` too) give none.
pub open spec fn confirmation_answer(k: KeyPress) -> Option<bool> {
    match k.code {
        Key::Char('y') | Key::Char('Y') | Key::Enter => Some(true),
        Key::Char('n') | Key::Char('N') | Key::Esc => Some(false),
        _ => None,
    }
}

/// Handles a key on the confirmation screen: the answer to send, if any.
pub fn confirmation_key(key: KeyPress) -> (r: Option<bool>)
    ensures
        r == confirmation_answer(key),
{
    match key.code {
        Key::Char('y') | Key::Char('Y') | Key::Enter => Some(true),
        Key::Char('n') | Key::Char('N') | Key::Esc => Some(false),
        _ => None,
    }
}

/// What a key asks for on the Failure screen.
pub enum FailureEffect {
    Nothing,
    Home,
    Quit,
    ToggleHelp,
    Settings,
}

/// What a key does on the Failure screen: `b` and Backspace return home, `q`
/// and Esc close the interface, `?` toggles the help, Control+S opens the
/// settings.
pub open spec fn failure_key_spec(k: KeyPress) -> FailureEffect {
    match k.code {
        Key::Char('b') | Key::Backspace => FailureEffect::Home,
        Key::Char('q') | Key::Esc => FailureEffect::Quit,
        Key::Char('?') => FailureEffect::ToggleHelp,
        Key::Char('s') if k.ctrl => FailureEffect::Settings,
        _ => FailureEffect::Nothing,
    }
}

/// Handles a key on the Failure screen (see `failure_key_spec`).
pub fn failure_key(flags: &mut UiFlags, key: KeyPress) -> (r: KeyOutcome)
    ensures
        match failure_key_spec(key) {
            FailureEffect::Home => r.action is Nothing && r.request is ReturnHome,
            FailureEffect::Settings => r.action is OpenSettings && r.request is Stay,
            _ => r.action is Nothing && r.request is Stay,
        },
        final(flags).should_quit == (old(flags).should_quit || failure_key_spec(key) is Quit),
        final(flags).show_help == (if failure_key_spec(key) is ToggleHelp {
            !old(flags).show_help
        } else {
            old(flags).show_help
        }),
{
    let mut quit = false;
    let mut toggle = false;
    let r = match key.code {
        Key::Char('b') | Key::Backspace => KeyOutcome {
            action: Action::Nothing,
            request: AppRequest::ReturnHome,
        },
        Key::Char('q') | Key::Esc => {
            quit = true;
            nothing()
        },
        Key::Char('?') => {
            toggle = true;
            nothing()
        },
        Key::Char('s') if key.ctrl => act(Action::OpenSettings),
        _ => nothing(),
    };
    if quit {
        flags.should_quit = true;
    }
    if toggle {
        flags.show_help = !flags.show_help;
    }
    r
}

/// What a key does in the web search list: the new selection, whether the
/// list closes, and the address to open (Enter on an entry).
pub open spec fn quick_search_key_spec(
    entries: Seq<(Seq<char>, Seq<char>)>,
    selected: usize,
    text: Seq<char>,
    k: KeyPress,
) -> (usize, bool, Option<Seq<char>>) {
    match k.code {
        Key::Up | Key::Char('k') => (
            if selected > 0 {
                (selected - 1) as usize
            } else {
                selected
            },
            false,
            None,
        ),
        Key::Down | Key::Char('j') => (
            if entries.len() > 0 && selected < entries.len() - 1 {
                (selected + 1) as usize
            } else {
                selected
            },
            false,
            None,
        ),
        Key::Enter => if selected < entries.len() {
            (selected, true, Some(search_url(entries[selected as int].1, text)))
        } else {
            (selected, false, None)
        },
        Key::Esc => (selected, true, None),
        _ => (selected, false, None),
    }
}

/// Moving in the web search list (of at most `usize::MAX` entries, as a
/// vector holds them): Up from entry `i > 0` selects entry
/// `i - 1` (and stays on the first), Down from entry `i` selects `i + 1`
/// while there is one, so Up then Down comes back to the same entry; neither
/// closes the list nor opens anything. Enter on entry `i` opens the address
/// that entry builds for the text.
pub proof fn lemma_quick_search_moves(
    entries: Seq<(Seq<char>, Seq<char>)>,
    selected: usize,
    text: Seq<char>,
    up: KeyPress,
    down: KeyPress,
    enter: KeyPress,
)
    requires
        entries.len() <= usize::MAX,
        up.code == Key::Up,
        down.code == Key::Down,
        enter.code == Key::Enter,
    ensures
        selected > 0 ==> quick_search_key_spec(entries, selected, text, up).0 == selected - 1,
        selected == 0 ==> quick_search_key_spec(entries, selected, text, up).0 == 0,
        selected + 1 < entries.len() ==> quick_search_key_spec(entries, selected, text, down).0
            == selected + 1,
        0 < selected < entries.len() ==> quick_search_key_spec(
            entries,
            quick_search_key_spec(entries, selected, text, up).0,
            text,
            down,
        ).0 == selected,
        !quick_search_key_spec(entries, selected, text, up).1 && quick_search_key_spec(
            entries,
            selected,
            text,
            up,
        ).2 is None,
        !quick_search_key_spec(entries, selected, text, down).1 && quick_search_key_spec(
            entries,
            selected,
            text,
            down,
        ).2 is None,
        selected < entries.len() ==> quick_search_key_spec(entries, selected, text, enter) == (
            selected,
            true,
            Some(search_url(entries[selected as int].1, text)),
        ),
{
}

/// Handles a key in the web search list (see `quick_search_key_spec`); the
/// flag tells whether the list closes.
pub fn quick_search_key(overlay: &mut QuickSearchOverlay, key: KeyPress) -> (r: (Action, bool))
    requires
        utf8_len(old(overlay).output_text@) <= isize::MAX,
    ensures
        ({
            let (sel, close, url) = quick_search_key_spec(
                pair_views(old(overlay).entries@),
                old(overlay).selected_index,
                old(overlay).output_text@,
                key,
            );
            &&& final(overlay).selected_index == sel
            &&& final(overlay).entries == old(overlay).entries
            &&& final(overlay).output_text == old(overlay).output_text
            &&& r.1 == close
            &&& match url {
                Some(u) => r.0 matches Action::LaunchQuickSearch(a) && a@ == u,
                None => r.0 is Nothing,
            }
        }),
{
    match key.code {
        Key::Up | Key::Char('k') => {
            if overlay.selected_index > 0 {
                overlay.selected_index = overlay.selected_index - 1;
            }
            (Action::Nothing, false)
        },
        Key::Down | Key::Char('j') => {
            if overlay.entries.len() > 0 && overlay.selected_index < overlay.entries.len() - 1 {
                overlay.selected_index = overlay.selected_index + 1;
            }
            (Action::Nothing, false)
        },
        Key::Enter => {
            if overlay.selected_index < overlay.entries.len() {
                let template = overlay.entries[overlay.selected_index].1.as_str();
                let url = build_search_url(template, overlay.output_text.as_str());
                (Action::LaunchQuickSearch(url), true)
            } else {
                (Action::Nothing, false)
            }
        },
        Key::Esc => (Action::Nothing, true),
        _ => (Action::Nothing, false),
    }
}

/// What opening the web search list gives.
pub enum QuickSearchOpen {
    /// The selected step has no output: nothing happens.
    NoOutput,
    /// No search is configured: this status message is shown.
    NoEntries(String),
    /// The list opens.
    Open(QuickSearchOverlay),
}

/// Opens the web search list for the selected step's first output, with the
/// configured `Name=URL` entries.
pub fn open_quick_search(rs: &ResultsState, quick_searches: &Vec<String>) -> (r: QuickSearchOpen)
    ensures
        ({
            let text = match branch_point_text(rs.result, rs.selected_step) {
                Some(t) => t,
                None => Seq::empty(),
            };
            let entries = search_entries(string_views(quick_searches@));
            match r {
                QuickSearchOpen::NoOutput => text.len() == 0,
                QuickSearchOpen::NoEntries(m) => text.len() > 0 && entries.len() == 0 && m@
                    == "No quick searches configured. Add them in Settings (Ctrl+S)."@,
                QuickSearchOpen::Open(o) => {
                    &&& text.len() > 0
                    &&& entries.len() > 0
                    &&& pair_views(o.entries@) == entries
                    &&& o.selected_index == 0
                    &&& o.output_text@ == text
                },
            }
        }),
{
    let output = match selected_text(rs) {
        Some(t) => t,
        None => String::new(),
    };
    if output.as_str().unicode_len() == 0 {
        return QuickSearchOpen::NoOutput;
    }
    let entries = parse_search_entries(quick_searches);
    if entries.len() == 0 {
        return QuickSearchOpen::NoEntries(
            String::from_str("No quick searches configured. Add them in Settings (Ctrl+S)."),
        );
    }
    QuickSearchOpen::Open(QuickSearchOverlay { entries, selected_index: 0, output_text: output })
}

/// What a key does in the decoder search.
pub enum DecoderSearchEffect {
    Nothing,
    Close,
    Run(Seq<char>, &'static str),
}

/// The decoder search as a key sees it.
pub struct DecoderSearchView {
    pub query: TiState,
    pub filtered: Seq<&'static str>,
    pub selected: usize,
}

/// The decoder search's view.
pub open spec fn decoder_search_view(o: DecoderSearchOverlay) -> DecoderSearchView {
    DecoderSearchView {
        query: o.text_input.state(),
        filtered: o.filtered_decoders@,
        selected: o.selected_index,
    }
}

/// What a key does in the decoder search: arrows (and Control+`k`/`j`)
/// move the selection; Enter runs the selected decoder on the branch text;
/// Esc closes; typing and Backspace edit the query and filter the list anew
/// (by the lower-cased query), selecting the first match.
pub open spec fn decoder_search_key_spec(o: DecoderSearchOverlay, k: KeyPress) -> (
    DecoderSearchView,
    DecoderSearchEffect,
) {
    let v = decoder_search_view(o);
    let n = o.filtered_decoders@.len();
    let up = DecoderSearchView {
        selected: if o.selected_index > 0 {
            (o.selected_index - 1) as usize
        } else {
            o.selected_index
        },
        ..v
    };
    let down = DecoderSearchView {
        selected: if n > 0 && o.selected_index < n - 1 {
            (o.selected_index + 1) as usize
        } else {
            o.selected_index
        },
        ..v
    };
    match k.code {
        Key::Char('k') if k.ctrl => (up, DecoderSearchEffect::Nothing),
        Key::Char('j') if k.ctrl => (down, DecoderSearchEffect::Nothing),
        Key::Up => (up, DecoderSearchEffect::Nothing),
        Key::Down => (down, DecoderSearchEffect::Nothing),
        Key::Enter => if o.selected_index < n {
            (
                v,
                DecoderSearchEffect::Run(
                    o.branch_context.text_to_decode@,
                    o.filtered_decoders@[o.selected_index as int],
                ),
            )
        } else {
            (v, DecoderSearchEffect::Nothing)
        },
        Key::Esc => (v, DecoderSearchEffect::Close),
        Key::Char(c) => {
            let q = ti_insert(v.query, c);
            (
                DecoderSearchView {
                    query: q,
                    filtered: matching_decoders(o.all_decoders@, lowercase(q.text)),
                    selected: 0,
                },
                DecoderSearchEffect::Nothing,
            )
        },
        Key::Backspace => {
            let q = ti_backspace(v.query);
            (
                DecoderSearchView {
                    query: q,
                    filtered: if lowercase(q.text).len() == 0 {
                        o.all_decoders@
                    } else {
                        matching_decoders(o.all_decoders@, lowercase(q.text))
                    },
                    selected: 0,
                },
                DecoderSearchEffect::Nothing,
            )
        },
        _ => (v, DecoderSearchEffect::Nothing),
    }
}

/// Handles a key in the decoder search (see `decoder_search_key_spec`); the
/// flag tells whether the search closes.
pub fn decoder_search_key(overlay: &mut DecoderSearchOverlay, key: KeyPress) -> (r: (Action, bool))
    requires
        old(overlay).text_input.wf(),
        key.code matches Key::Char(c) ==> (old(overlay).text_input.accepts_char() ==> crate::text::fits_with(
            old(overlay).text_input.text(),
            c,
        )),
    ensures
        final(overlay).text_input.wf(),
        final(overlay).all_decoders == old(overlay).all_decoders,
        final(overlay).branch_context == old(overlay).branch_context,
        decoder_search_view(*final(overlay)) == decoder_search_key_spec(*old(overlay), key).0,
        match decoder_search_key_spec(*old(overlay), key).1 {
            DecoderSearchEffect::Nothing => r.0 is Nothing && !r.1,
            DecoderSearchEffect::Close => r.0 is Nothing && r.1,
            DecoderSearchEffect::Run(t, d) => r.1 && (r.0 matches Action::RunBranchDecoder(
                text,
                name,
            ) && text@ == t && name@ == d@),
        },
{
    let up = (key.code == Key::Up) || (key.ctrl && key.code == Key::Char('k'));
    let down = (key.code == Key::Down) || (key.ctrl && key.code == Key::Char('j'));
    if up {
        if overlay.selected_index > 0 {
            overlay.selected_index = overlay.selected_index - 1;
        }
        return (Action::Nothing, false);
    }
    if down {
        let n = overlay.filtered_decoders.len();
        if n > 0 && overlay.selected_index < n - 1 {
            overlay.selected_index = overlay.selected_index + 1;
        }
        return (Action::Nothing, false);
    }
    match key.code {
        Key::Enter => {
            if overlay.selected_index < overlay.filtered_decoders.len() {
                let name = overlay.filtered_decoders[overlay.selected_index];
                let text = overlay.branch_context.text_to_decode.clone();
                (Action::RunBranchDecoder(text, String::from_str(name)), true)
            } else {
                (Action::Nothing, false)
            }
        },
        Key::Esc => (Action::Nothing, true),
        Key::Char(c) => {
            overlay.text_input.insert_char(c);
            let query = to_lowercase(overlay.text_input.get_text());
            overlay.filtered_decoders = filter_decoders(&overlay.all_decoders, query.as_str());
            overlay.selected_index = 0;
            (Action::Nothing, false)
        },
        Key::Backspace => {
            overlay.text_input.backspace();
            let query = to_lowercase(overlay.text_input.get_text());
            if query.as_str().unicode_len() == 0 {
                overlay.filtered_decoders = overlay.all_decoders.clone();
            } else {
                overlay.filtered_decoders = filter_decoders(&overlay.all_decoders, query.as_str());
            }
            overlay.selected_index = 0;
            (Action::Nothing, false)
        },
        _ => (Action::Nothing, false),
    }
}

/// What a key does in the branch mode prompt: Up/`k` chooses a full
/// search, Down/`j` a single layer, Enter runs the chosen mode on the branch
/// text (a full search keeps the branch context), Esc closes.
pub open spec fn branch_mode_key_spec(mode: BranchMode, k: KeyPress) -> (BranchMode, u8) {
    match k.code {
        Key::Up | Key::Char('k') => (BranchMode::FullSearch, 0),
        Key::Down | Key::Char('j') => (BranchMode::SingleLayer, 0),
        Key::Enter => (mode, 1),
        Key::Esc => (mode, 2),
        _ => (mode, 0),
    }
}

/// Handles a key in the branch mode prompt (see `branch_mode_key_spec`); the
/// flag tells whether the prompt closes.
pub fn branch_mode_key(prompt: &mut BranchModePromptState, key: KeyPress) -> (r: (Action, bool))
    ensures
        ({
            let (m, what) = branch_mode_key_spec(old(prompt).selected_mode, key);
            let ctx = old(prompt).branch_context;
            &&& final(prompt).selected_mode == m
            &&& final(prompt).branch_context == ctx
            &&& r.1 == (what != 0)
            &&& what == 0 ==> r.0 is Nothing
            &&& what == 2 ==> r.0 is Nothing
            &&& what == 1 ==> match m {
                BranchMode::FullSearch => r.0 matches Action::RunBranchFullSearch(t, Some(c)) && t@
                    == ctx.text_to_decode@ && c.text_to_decode@ == ctx.text_to_decode@
                    && crate::state::path_view(c.prefix_path@) == crate::state::path_view(
                    ctx.prefix_path@,
                ) && c.parent_cache_id == ctx.parent_cache_id && c.branch_step == ctx.branch_step,
                BranchMode::SingleLayer => r.0 matches Action::RunBranchSingleLayer(t) && t@
                    == ctx.text_to_decode@,
            }
        }),
{
    match key.code {
        Key::Up | Key::Char('k') => {
            prompt.selected_mode = BranchMode::FullSearch;
            (Action::Nothing, false)
        },
        Key::Down | Key::Char('j') => {
            prompt.selected_mode = BranchMode::SingleLayer;
            (Action::Nothing, false)
        },
        Key::Enter => {
            let ctx = &prompt.branch_context;
            match prompt.selected_mode {
                BranchMode::FullSearch => {
                    let copy = BranchContext {
                        text_to_decode: ctx.text_to_decode.clone(),
                        prefix_path: crate::state::copy_steps(
                            &ctx.prefix_path,
                            0,
                            ctx.prefix_path.len(),
                        ),
                        parent_cache_id: ctx.parent_cache_id,
                        branch_step: ctx.branch_step,
                    };
                    proof {
                        assert(ctx.prefix_path@.subrange(0, ctx.prefix_path@.len() as int)
                            =~= ctx.prefix_path@);
                    }
                    (Action::RunBranchFullSearch(ctx.text_to_decode.clone(), Some(copy)), true)
                },
                BranchMode::SingleLayer => (
                    Action::RunBranchSingleLayer(ctx.text_to_decode.clone()),
                    true,
                ),
            }
        },
        Key::Esc => (Action::Nothing, true),
        _ => (Action::Nothing, false),
    }
}

/// What a key asks for in the question box.
pub enum AskAiEffect {
    Nothing,
    Close,
    Submit(Seq<char>),
    Copy(Seq<char>),
}

/// The question box as a key sees it: the question input and the scroll of
/// the response.
pub struct AskAiView {
    pub question: MlState,
    pub scroll: u16,
}

/// What a key does in the question box: Esc closes; Control+Enter asks the
/// typed question (unless it is blank or an answer is loading); Control+C
/// copies the response; Enter breaks the line; typing and editing keys edit
/// the question; Up and Down scroll the response once there is one.
pub open spec fn ask_ai_key_spec(o: AskAiOverlay, k: KeyPress) -> (AskAiView, AskAiEffect) {
    let q = o.text_input.state();
    let v = AskAiView { question: q, scroll: o.response_scroll };
    let edit = |m: MlState| AskAiView { question: m, scroll: o.response_scroll };
    match k.code {
        Key::Esc => (v, AskAiEffect::Close),
        Key::Enter if k.ctrl => {
            let t = join_lines(q.lines);
            if trim_spec(t).len() == 0 || o.loading {
                (v, AskAiEffect::Nothing)
            } else {
                (v, AskAiEffect::Submit(t))
            }
        },
        Key::Char('c') if k.ctrl => match o.response {
            Some(r) => (v, AskAiEffect::Copy(r@)),
            None => (v, AskAiEffect::Nothing),
        },
        Key::Enter => (edit(ml_insert_newline(q)), AskAiEffect::Nothing),
        Key::Char(c) => if !k.ctrl && !k.alt {
            (edit(ml_insert_char(q, c)), AskAiEffect::Nothing)
        } else {
            (v, AskAiEffect::Nothing)
        },
        Key::Backspace => (edit(ml_backspace(q)), AskAiEffect::Nothing),
        Key::Delete => (edit(ml_delete(q)), AskAiEffect::Nothing),
        Key::Left => (edit(ml_left(q)), AskAiEffect::Nothing),
        Key::Right => (edit(ml_right(q)), AskAiEffect::Nothing),
        Key::Up => if o.response is Some {
            (
                AskAiView {
                    scroll: if o.response_scroll > 0 {
                        (o.response_scroll - 1) as u16
                    } else {
                        0
                    },
                    ..v
                },
                AskAiEffect::Nothing,
            )
        } else {
            (edit(ml_up(q)), AskAiEffect::Nothing)
        },
        Key::Down => if o.response is Some {
            (
                AskAiView {
                    scroll: if o.response_scroll < u16::MAX {
                        (o.response_scroll + 1) as u16
                    } else {
                        u16::MAX
                    },
                    ..v
                },
                AskAiEffect::Nothing,
            )
        } else {
            (edit(ml_down(q)), AskAiEffect::Nothing)
        },
        Key::Home => (edit(ml_home(q)), AskAiEffect::Nothing),
        Key::End => (edit(ml_end(q)), AskAiEffect::Nothing),
        _ => (v, AskAiEffect::Nothing),
    }
}

/// Handles a key in the question box (see `ask_ai_key_spec`).
pub fn ask_ai_key(overlay: &mut AskAiOverlay, key: KeyPress) -> (r: Action)
    requires
        old(overlay).text_input.wf(),
        key.code matches Key::Char(c) ==> (!key.ctrl && !key.alt ==> fits_with(
            old(overlay).text_input.current_line(),
            c,
        )),
    ensures
        final(overlay).text_input.wf(),
        *final(overlay) == (AskAiOverlay {
            text_input: final(overlay).text_input,
            response_scroll: final(overlay).response_scroll,
            ..*old(overlay)
        }),
        ({
            let (v, e) = ask_ai_key_spec(*old(overlay), key);
            &&& final(overlay).text_input.state() == v.question
            &&& final(overlay).response_scroll == v.scroll
            &&& match e {
                AskAiEffect::Nothing => r is Nothing,
                AskAiEffect::Close => r is CloseAskAi,
                AskAiEffect::Submit(t) => r matches Action::SubmitAskAi(q) && q@ == t,
                AskAiEffect::Copy(t) => r matches Action::CopyToClipboard(q) && q@ == t,
            }
        }),
{
    match key.code {
        Key::Esc => Action::CloseAskAi,
        Key::Enter if key.ctrl => {
            let question = overlay.text_input.get_text();
            if trim(question.as_str()).unicode_len() == 0 || overlay.loading {
                Action::Nothing
            } else {
                Action::SubmitAskAi(question)
            }
        },
        Key::Char('c') if key.ctrl => match &overlay.response {
            Some(r) => Action::CopyToClipboard(r.clone()),
            None => Action::Nothing,
        },
        Key::Enter => {
            overlay.text_input.insert_newline();
            Action::Nothing
        },
        Key::Char(c) => {
            if !key.ctrl && !key.alt {
                overlay.text_input.insert_char(c);
            }
            Action::Nothing
        },
        Key::Backspace => {
            overlay.text_input.backspace();
            Action::Nothing
        },
        Key::Delete => {
            overlay.text_input.delete();
            Action::Nothing
        },
        Key::Left => {
            overlay.text_input.move_cursor_left();
            Action::Nothing
        },
        Key::Right => {
            overlay.text_input.move_cursor_right();
            Action::Nothing
        },
        Key::Up => {
            if overlay.response.is_some() {
                overlay.response_scroll = if overlay.response_scroll > 0 {
                    overlay.response_scroll - 1
                } else {
                    0
                };
            } else {
                overlay.text_input.move_cursor_up();
            }
            Action::Nothing
        },
        Key::Down => {
            if overlay.response.is_some() {
                overlay.response_scroll = if overlay.response_scroll < u16::MAX {
                    overlay.response_scroll + 1
                } else {
                    u16::MAX
                };
            } else {
                overlay.text_input.move_cursor_down();
            }
            Action::Nothing
        },
        Key::Home => {
            overlay.text_input.move_cursor_home();
            Action::Nothing
        },
        Key::End => {
            overlay.text_input.move_cursor_end();
            Action::Nothing
        },
        _ => Action::Nothing,
    }
}

} // verus!
