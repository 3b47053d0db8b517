//! Where a key press goes in the interface: to the open overlay, else to the
//! handler of the screen shown, after a warning or error on the status line
//! was acknowledged. What needs storage or the settings values is left
//! to the caller, which is told so.

use std::collections::HashMap;

use vstd::prelude::*;

use crate::app_state::{answered, cleared_status, App, AppState};
use crate::input::{
    ask_ai_key, ask_ai_key_spec, branch_mode_key, branch_mode_key_spec, confirmation_answer,
    confirmation_key, decoder_search_key, decoder_search_key_spec, decoder_search_view,
    failure_key, failure_key_spec, home_key, home_key_ok, home_key_spec, home_outcome, home_view,
    loading_key, loading_key_spec, quick_search_key, quick_search_key_spec, results_key,
    results_key_ok, results_key_spec, results_moved, results_outcome, Action, AppRequest,
    AskAiEffect, DecoderSearchEffect, FailureEffect, KeyOutcome, LoadingEffect, UiFlags,
};
use crate::editors::{
    list_editor_key, list_editor_key_spec, manager_key_spec, manager_view, picker_key_spec,
    picker_view, save_answer_spec, save_confirmation_key, theme_picker_key, toggle_list_key,
    toggle_list_key_spec, toggle_list_stepped, wordlist_manager_key, list_editor_stepped, ListEditor,
    ManagerEffect, ManagerExit, ThemePicker, WordlistManager, settings_key, settings_key_spec,
    SettingsCommand,
};
use crate::setup::{field_slot, is_digit};
use crate::settings_screens::{
    edit_cancelled, input_changed, reopened, restored_screen, typing_ok, SettingsState, ListEditorState, SaveConfirmationState, ThemePickerState, ToggleListEditorState,
    WordlistManagerState,
};
use crate::state::{path_view, BranchMode, WordlistManagerFocus};
use crate::themes::{ColorScheme, THEME_COUNT};
use crate::keys::{Key, KeyPress};
use crate::state::{AskAiOverlay, DecoderSearchOverlay, QuickSearchOverlay};
use crate::text::{fits_with, utf8_len};
use crate::themes::pair_views;
use crate::text_input::{ti_backspace, ti_insert};

verus! {

/// The handler a key goes to: an open overlay first (the question box, then
/// the decoder search, then the web search list), else the screen's.
pub enum KeyTarget {
    AskAi,
    DecoderSearch,
    QuickSearch,
    Home,
    Loading,
    Confirmation,
    Results,
    Failure,
    Settings,
    ListEditor,
    WordlistManager,
    ThemePicker,
    ToggleList,
    SaveConfirmation,
    BranchPrompt,
}

/// The handler a key goes to in `app`.
pub open spec fn key_target<S>(app: App<S>) -> KeyTarget {
    if app.ask_ai is Some {
        KeyTarget::AskAi
    } else if app.decoder_search is Some {
        KeyTarget::DecoderSearch
    } else if app.quick_search is Some {
        KeyTarget::QuickSearch
    } else {
        match app.state {
            AppState::Home(_) => KeyTarget::Home,
            AppState::Loading(_) => KeyTarget::Loading,
            AppState::HumanConfirmation(_) => KeyTarget::Confirmation,
            AppState::Results(_) => KeyTarget::Results,
            AppState::Failure(_) => KeyTarget::Failure,
            AppState::Settings(_) => KeyTarget::Settings,
            AppState::ListEditor(_) => KeyTarget::ListEditor,
            AppState::WordlistManager(_) => KeyTarget::WordlistManager,
            AppState::ThemePicker(_) => KeyTarget::ThemePicker,
            AppState::ToggleListEditor(_) => KeyTarget::ToggleList,
            AppState::SaveConfirmation(_) => KeyTarget::SaveConfirmation,
            AppState::BranchModePrompt(_) => KeyTarget::BranchPrompt,
        }
    }
}

/// What the caller still has to do after a key, because it needs storage or
/// the settings values.
#[derive(Debug, Clone, PartialEq)]
pub enum FollowUp {
    /// Nothing.
    Done,
    /// Read the history and call `App::return_to_home`.
    ReturnHome,
    /// Read the branches of the selected step and call
    /// `App::load_branches_for_step`.
    LoadBranches,
    /// Read the result the branch prompt branches from and call
    /// `App::close_branch_mode_prompt`.
    CloseBranchPrompt,
    /// Carry out this command on the settings panel, which needs the
    /// settings values: `ConfirmEdit` reads the typed value
    /// (`validation::parse_input`) and calls `App::confirm_field_edit`;
    /// `Save` (Control+S) answers `Action::SaveSettings` when the settings
    /// changed, else calls `App::close_settings`; the moves call
    /// `App::next_settings_section` and the like with the numbers of
    /// sections and fields; `Edit` edits the selected field by its type.
    Settings(SettingsCommand),
    /// Store these items (second) in the settings field (first); the
    /// settings panel is shown again.
    StoreList(String, Vec<String>),
    /// Apply these enabled states, by wordlist file ID, to the stored
    /// wordlists; the settings panel is shown again.
    ApplyWordlistChanges(HashMap<i64, bool>),
    /// Use this colour scheme in the settings; the settings panel is shown
    /// again.
    ApplyScheme(ColorScheme),
    /// Save (`true`) or discard (`false`) the changed settings and close the
    /// settings panel.
    AnswerSave(bool),
}

/// The result of a key press: the work for the event loop and what the
/// caller still has to do.
#[derive(Debug, Clone, PartialEq)]
pub struct KeyDispatch {
    pub action: Action,
    pub follow_up: FollowUp,
}

/// After a key in the question box took it from `pre` to `post`, asking for
/// `r` (see `ask_ai_key_spec`).
pub open spec fn ask_ai_stepped(pre: AskAiOverlay, post: AskAiOverlay, key: KeyPress, r: Action) -> bool {
    let (v, e) = ask_ai_key_spec(pre, key);
    &&& post.text_input.wf()
    &&& post == AskAiOverlay {
        text_input: post.text_input,
        response_scroll: post.response_scroll,
        ..pre
    }
    &&& post.text_input.state() == v.question
    &&& post.response_scroll == v.scroll
    &&& match e {
        AskAiEffect::Nothing => r is Nothing,
        AskAiEffect::Close => r is CloseAskAi,
        AskAiEffect::Submit(t) => r matches Action::SubmitAskAi(q) && q@ == t,
        AskAiEffect::Copy(t) => r matches Action::CopyToClipboard(q) && q@ == t,
    }
}

/// After a key in the decoder search `pre`, which leaves `post` (closed or
/// still open), asking for `r` (see `decoder_search_key_spec`).
pub open spec fn decoder_search_stepped(
    pre: DecoderSearchOverlay,
    post: Option<DecoderSearchOverlay>,
    key: KeyPress,
    r: Action,
) -> bool {
    let (v, e) = decoder_search_key_spec(pre, key);
    match e {
        DecoderSearchEffect::Nothing => r is Nothing && (post matches Some(o) && {
            &&& o.text_input.wf()
            &&& o.all_decoders == pre.all_decoders
            &&& o.branch_context == pre.branch_context
            &&& decoder_search_view(o) == v
        }),
        DecoderSearchEffect::Close => r is Nothing && post is None,
        DecoderSearchEffect::Run(t, d) => post is None && (r matches Action::RunBranchDecoder(
            text,
            name,
        ) && text@ == t && name@ == d@),
    }
}

/// After a key in the web search list `pre`, which leaves `post` (closed or
/// still open), asking for `r` (see `quick_search_key_spec`).
pub open spec fn quick_search_stepped(
    pre: QuickSearchOverlay,
    post: Option<QuickSearchOverlay>,
    key: KeyPress,
    r: Action,
) -> bool {
    let (sel, close, url) = quick_search_key_spec(
        pair_views(pre.entries@),
        pre.selected_index,
        pre.output_text@,
        key,
    );
    &&& if close {
        post is None
    } else {
        (post matches Some(o) && o.selected_index == sel && o.entries == pre.entries
            && o.output_text == pre.output_text)
    }
    &&& match url {
        Some(u) => r matches Action::LaunchQuickSearch(a) && a@ == u,
        None => r is Nothing,
    }
}

/// A key in the open question box.
fn handle_ask_ai_keys<S>(app: &mut App<S>, key: KeyPress) -> (r: Action)
    requires
        old(app).ask_ai matches Some(o) && o.text_input.wf() && (key.code matches Key::Char(c) ==> (
        !key.ctrl && !key.alt ==> fits_with(o.text_input.current_line(), c))),
    ensures
        old(app).ask_ai matches Some(o0) && final(app).ask_ai matches Some(o1) && ask_ai_stepped(
            o0,
            o1,
            key,
            r,
        ),
        final(app).state == old(app).state,
        final(app).input_text == old(app).input_text,
        final(app).should_quit == old(app).should_quit,
        final(app).show_help == old(app).show_help,
        final(app).status_message == old(app).status_message,
        final(app).pending_g == old(app).pending_g,
        final(app).decoder_search == old(app).decoder_search,
        final(app).quick_search == old(app).quick_search,
{
    match &mut app.ask_ai {
        Some(o) => ask_ai_key(o, key),
        None => Action::Nothing,
    }
}

/// A key in the open decoder search; the search closes when the key says so.
fn handle_decoder_search_keys<S>(app: &mut App<S>, key: KeyPress) -> (r: Action)
    requires
        old(app).decoder_search matches Some(o) && o.text_input.wf() && (key.code matches Key::Char(
            c,
        ) ==> (o.text_input.accepts_char() ==> fits_with(o.text_input.text(), c))),
    ensures
        old(app).decoder_search matches Some(o0) && decoder_search_stepped(
            o0,
            final(app).decoder_search,
            key,
            r,
        ),
        final(app).state == old(app).state,
        final(app).input_text == old(app).input_text,
        final(app).should_quit == old(app).should_quit,
        final(app).show_help == old(app).show_help,
        final(app).status_message == old(app).status_message,
        final(app).pending_g == old(app).pending_g,
        final(app).ask_ai == old(app).ask_ai,
        final(app).quick_search == old(app).quick_search,
{
    let (a, close) = match &mut app.decoder_search {
        Some(o) => decoder_search_key(o, key),
        None => (Action::Nothing, false),
    };
    if close {
        app.decoder_search = None;
    }
    a
}

/// A key in the open web search list; the list closes when the key says so.
fn handle_quick_search_keys<S>(app: &mut App<S>, key: KeyPress) -> (r: Action)
    requires
        old(app).quick_search matches Some(o) && utf8_len(o.output_text@) <= isize::MAX,
    ensures
        old(app).quick_search matches Some(o0) && quick_search_stepped(
            o0,
            final(app).quick_search,
            key,
            r,
        ),
        final(app).state == old(app).state,
        final(app).input_text == old(app).input_text,
        final(app).should_quit == old(app).should_quit,
        final(app).show_help == old(app).show_help,
        final(app).status_message == old(app).status_message,
        final(app).pending_g == old(app).pending_g,
        final(app).ask_ai == old(app).ask_ai,
        final(app).decoder_search == old(app).decoder_search,
{
    let (a, close) = match &mut app.quick_search {
        Some(o) => quick_search_key(o, key),
        None => (Action::Nothing, false),
    };
    if close {
        app.quick_search = None;
    }
    a
}

/// A key on the Home screen (see `home_key`).
fn handle_home_keys<S>(app: &mut App<S>, key: KeyPress) -> (r: KeyOutcome)
    requires
        old(app).state matches AppState::Home(h) && home_key_ok(h, key),
    ensures
        old(app).state matches AppState::Home(h0) && final(app).state matches AppState::Home(h1)
            && {
            let (v, e) = home_key_spec(home_view(h0), h0.history@, key);
            &&& h1.text_input.wf()
            &&& h1.history == h0.history
            &&& home_view(h1) == v
            &&& home_outcome(e, h0.history@, r)
            &&& final(app).should_quit == (old(app).should_quit || e is Quit)
        },
        final(app).show_help == old(app).show_help,
        final(app).input_text == old(app).input_text,
        final(app).status_message == old(app).status_message,
        final(app).pending_g == old(app).pending_g,
        final(app).ask_ai == old(app).ask_ai,
        final(app).decoder_search == old(app).decoder_search,
        final(app).quick_search == old(app).quick_search,
{
    let mut flags = UiFlags { should_quit: app.should_quit, show_help: app.show_help };
    let r = match &mut app.state {
        AppState::Home(h) => home_key(h, &mut flags, key),
        _ => KeyOutcome { action: Action::Nothing, request: AppRequest::Stay },
    };
    app.should_quit = flags.should_quit;
    app.show_help = flags.show_help;
    r
}

/// A key on the Results screen (see `results_key`).
fn handle_results_keys<S>(app: &mut App<S>, key: KeyPress, ai_configured: bool) -> (r: KeyOutcome)
    requires
        old(app).state matches AppState::Results(rs) && results_key_ok(
            rs,
            old(app).pending_g,
            key,
            ai_configured,
        ),
    ensures
        old(app).state matches AppState::Results(rs0) && final(app).state matches AppState::Results(
            rs1,
        ) && {
            let (m, g, e) = results_key_spec(rs0, old(app).pending_g, key, ai_configured);
            &&& results_moved(m, rs0, rs1)
            &&& final(app).pending_g == g
            &&& results_outcome(m, e, rs0, r)
            &&& final(app).should_quit == (old(app).should_quit || e is Quit)
            &&& final(app).show_help == (if e is ToggleHelp {
                !old(app).show_help
            } else {
                old(app).show_help
            })
        },
        final(app).input_text == old(app).input_text,
        final(app).status_message == old(app).status_message,
        final(app).ask_ai == old(app).ask_ai,
        final(app).decoder_search == old(app).decoder_search,
        final(app).quick_search == old(app).quick_search,
{
    let mut flags = UiFlags { should_quit: app.should_quit, show_help: app.show_help };
    let mut g = app.pending_g;
    let r = match &mut app.state {
        AppState::Results(rs) => results_key(rs, &mut g, &mut flags, key, ai_configured),
        _ => KeyOutcome { action: Action::Nothing, request: AppRequest::Stay },
    };
    app.pending_g = g;
    app.should_quit = flags.should_quit;
    app.show_help = flags.show_help;
    r
}

/// The action of a key on the Loading screen.
pub open spec fn loading_action(key: KeyPress) -> Action {
    match loading_key_spec(key) {
        LoadingEffect::Cancel => Action::CancelDecode,
        LoadingEffect::Settings => Action::OpenSettings,
        _ => Action::Nothing,
    }
}

/// Whether a key switches the help overlay: `?` on the Loading, Failure
/// and Results screens.
pub open spec fn switched_help(before: bool, after: bool, toggles: bool) -> bool {
    after == (if toggles {
        !before
    } else {
        before
    })
}

/// A key on the Loading screen (see `loading_key`).
fn handle_loading_keys<S>(app: &mut App<S>, key: KeyPress) -> (r: Action)
    ensures
        r == loading_action(key),
        final(app).should_quit == (old(app).should_quit || loading_key_spec(key) is Quit),
        switched_help(old(app).show_help, final(app).show_help, loading_key_spec(key) is ToggleHelp),
        final(app).state == old(app).state,
        final(app).input_text == old(app).input_text,
        final(app).status_message == old(app).status_message,
        final(app).pending_g == old(app).pending_g,
        final(app).ask_ai == old(app).ask_ai,
        final(app).decoder_search == old(app).decoder_search,
        final(app).quick_search == old(app).quick_search,
{
    let mut flags = UiFlags { should_quit: app.should_quit, show_help: app.show_help };
    let r = loading_key(&mut flags, key);
    app.should_quit = flags.should_quit;
    app.show_help = flags.show_help;
    r
}

/// A key on the Failure screen (see `failure_key`).
fn handle_failure_keys<S>(app: &mut App<S>, key: KeyPress) -> (r: KeyOutcome)
    ensures
        match failure_key_spec(key) {
            FailureEffect::Home => r.action is Nothing && r.request is ReturnHome,
            FailureEffect::Settings => r.action is OpenSettings && r.request is Stay,
            _ => r.action is Nothing && r.request is Stay,
        },
        final(app).should_quit == (old(app).should_quit || failure_key_spec(key) is Quit),
        switched_help(old(app).show_help, final(app).show_help, failure_key_spec(key) is ToggleHelp),
        final(app).state == old(app).state,
        final(app).input_text == old(app).input_text,
        final(app).status_message == old(app).status_message,
        final(app).pending_g == old(app).pending_g,
        final(app).ask_ai == old(app).ask_ai,
        final(app).decoder_search == old(app).decoder_search,
        final(app).quick_search == old(app).quick_search,
{
    let mut flags = UiFlags { should_quit: app.should_quit, show_help: app.show_help };
    let r = failure_key(&mut flags, key);
    app.should_quit = flags.should_quit;
    app.show_help = flags.show_help;
    r
}

/// After a key in the branch mode prompt `pre`, which is left as `post`,
/// asking for `r` and closing the prompt or not (see `branch_mode_key_spec`).
pub open spec fn branch_prompt_stepped(
    pre: crate::state::BranchModePromptState,
    post: crate::state::BranchModePromptState,
    key: KeyPress,
    r: Action,
    close: bool,
) -> bool {
    let (m, what) = branch_mode_key_spec(pre.selected_mode, key);
    let ctx = pre.branch_context;
    &&& post.selected_mode == m
    &&& post.branch_context == ctx
    &&& close == (what != 0)
    &&& what == 0 ==> r is Nothing
    &&& what == 2 ==> r is Nothing
    &&& what == 1 ==> match m {
        BranchMode::FullSearch => r matches Action::RunBranchFullSearch(t, Some(c)) && t@
            == ctx.text_to_decode@ && c.text_to_decode@ == ctx.text_to_decode@ && path_view(
            c.prefix_path@,
        ) == path_view(ctx.prefix_path@) && c.parent_cache_id == ctx.parent_cache_id
            && c.branch_step == ctx.branch_step,
        BranchMode::SingleLayer => r matches Action::RunBranchSingleLayer(t) && t@
            == ctx.text_to_decode@,
    }
}

/// A key in the branch mode prompt (see `branch_mode_key`); the flag tells
/// whether the prompt is to close.
fn handle_branch_mode_prompt_keys<S>(app: &mut App<S>, key: KeyPress) -> (r: (Action, bool))
    requires
        old(app).state is BranchModePrompt,
    ensures
        old(app).state matches AppState::BranchModePrompt(p0) && final(app).state
            matches AppState::BranchModePrompt(p1) && branch_prompt_stepped(p0, p1, key, r.0, r.1),
        final(app).input_text == old(app).input_text,
        final(app).same_frame(old(app)),
{
    match &mut app.state {
        AppState::BranchModePrompt(p) => branch_mode_key(p, key),
        _ => (Action::Nothing, false),
    }
}

/// A key on the confirmation screen: `y`, `Y` or Enter accepts the
/// candidate, `n`, `N` or Esc rejects it, and the answer goes back (see
/// `App::respond_to_confirmation`).
fn handle_confirmation_keys<S>(app: &mut App<S>, key: KeyPress)
    ensures
        match confirmation_answer(key) {
            Some(_) => answered(old(app).state, final(app).state),
            None => final(app).state == old(app).state,
        },
        final(app).input_text == old(app).input_text,
        final(app).same_frame(old(app)),
{
    match confirmation_key(key) {
        Some(accepted) => app.respond_to_confirmation(accepted),
        None => {},
    }
}

/// The keys the list editor can take: its input well formed, and a typed
/// character fitting in it.
pub open spec fn list_editor_key_ok(e: ListEditor, key: KeyPress) -> bool {
    e.text_input.wf() && (key.code matches Key::Char(c) ==> (e.text_input.accepts_char()
        ==> fits_with(e.text_input.text(), c)))
}

/// After a key in the list editor `le0`, leaving the screen `post` and
/// asking the caller for `r`: finishing returns to the settings panel with
/// the items for the field; the other keys change the list (see
/// `list_editor_stepped`).
pub open spec fn list_editor_handled<S>(le0: ListEditorState<S>, post: AppState<S>, key: KeyPress, r: FollowUp) -> bool {
    if list_editor_key_spec(le0.editor.text_input.text().len() == 0, key) is Finish {
        (post matches AppState::Settings(ss) && reopened(ss, le0.parent_settings)) && r == FollowUp::StoreList(
            le0.field_id,
            le0.editor.items,
        )
    } else {
        &&& post matches AppState::ListEditor(le1) && list_editor_stepped(
            le0.editor,
            le1.editor,
            key,
        ) && le1 == ListEditorState { editor: le1.editor, ..le0 }
        &&& r == FollowUp::Done
    }
}

/// What a key needs of the settings panel `ss`: a well-formed input, with
/// room for a character typed into it.
pub open spec fn settings_key_ok<S>(ss: SettingsState<S>, key: KeyPress) -> bool {
    &&& ss.text_input.wf()
    &&& key.code matches Key::Char(c) ==> typing_ok(AppState::<S>::Settings(ss), c)
}

/// After a key on the settings panel `a`, leaving the screen `post` and
/// asking the caller for `r` (see `settings_key_spec`, with Control+S read
/// as `Save`): while a value is typed, Esc stops typing and empties the
/// input, Backspace and characters edit it; otherwise Esc closes the panel,
/// returning to the screen it was opened from. The other commands are left
/// to the caller, the panel unchanged.
pub open spec fn settings_handled<S>(a: SettingsState<S>, post: AppState<S>, key: KeyPress, r: FollowUp) -> bool {
    match settings_key_spec(a.editing_mode, true, key) {
        SettingsCommand::CancelEdit => r == FollowUp::Done && (post matches AppState::Settings(b)
            && edit_cancelled(a, b)),
        SettingsCommand::Backspace => r == FollowUp::Done && (post matches AppState::Settings(b)
            && input_changed(a, b) && b.text_input.state() == ti_backspace(a.text_input.state())),
        SettingsCommand::Type(c) => r == FollowUp::Done && (post matches AppState::Settings(b)
            && input_changed(a, b) && b.text_input.state() == ti_insert(a.text_input.state(), c)),
        SettingsCommand::Close => r == FollowUp::Done && restored_screen(post, a.previous_state),
        SettingsCommand::Nothing => r == FollowUp::Done && post == AppState::<S>::Settings(a),
        cmd => r == FollowUp::Settings(cmd) && post == AppState::<S>::Settings(a),
    }
}

/// A key on the settings panel (see `settings_handled`).
fn handle_settings_keys<S>(app: &mut App<S>, key: KeyPress) -> (r: FollowUp)
    requires
        old(app).state matches AppState::Settings(ss) && settings_key_ok(ss, key),
    ensures
        old(app).state matches AppState::Settings(a) && settings_handled(a, final(app).state, key, r),
        final(app).input_text == old(app).input_text,
        final(app).same_frame(old(app)),
{
    let editing = match &app.state {
        AppState::Settings(ss) => ss.editing_mode,
        _ => false,
    };
    match settings_key(editing, true, key) {
        SettingsCommand::CancelEdit => {
            app.cancel_field_edit();
            FollowUp::Done
        },
        SettingsCommand::Backspace => {
            app.input_backspace();
            FollowUp::Done
        },
        SettingsCommand::Type(c) => {
            app.input_char(c);
            FollowUp::Done
        },
        SettingsCommand::Close => {
            app.close_settings();
            FollowUp::Done
        },
        SettingsCommand::Nothing => FollowUp::Done,
        other => FollowUp::Settings(other),
    }
}

/// A key in the list editor (see `list_editor_key`): when it finishes the
/// editor, the settings panel returns and the caller stores the items.
fn handle_list_editor_keys<S>(app: &mut App<S>, key: KeyPress) -> (r: FollowUp)
    requires
        old(app).state matches AppState::ListEditor(le) && list_editor_key_ok(le.editor, key),
    ensures
        old(app).state matches AppState::ListEditor(le0) && list_editor_handled(
            le0,
            final(app).state,
            key,
            r,
        ),
        final(app).input_text == old(app).input_text,
        final(app).same_frame(old(app)),
{
    let finish = match &mut app.state {
        AppState::ListEditor(le) => list_editor_key(&mut le.editor, key),
        _ => false,
    };
    if finish {
        match app.finish_list_editor() {
            Some((field_id, items)) => FollowUp::StoreList(field_id, items),
            None => FollowUp::Done,
        }
    } else {
        FollowUp::Done
    }
}

/// After a key in the toggle list `t0`, leaving the screen `post` and
/// asking the caller for `r`: closing returns to the settings panel with the
/// selection for the field; the other keys change the list (see
/// `toggle_list_stepped`).
pub open spec fn toggle_list_handled<S>(t0: ToggleListEditorState<S>, post: AppState<S>, key: KeyPress, r: FollowUp) -> bool {
    if toggle_list_key_spec(key) is Close {
        (post matches AppState::Settings(ss) && reopened(ss, t0.parent_settings)) && r == FollowUp::StoreList(
            t0.field_id,
            t0.list.selected_items,
        )
    } else {
        &&& post matches AppState::ToggleListEditor(t1) && toggle_list_stepped(t0.list, t1.list, key)
            && t1 == ToggleListEditorState { list: t1.list, ..t0 }
        &&& r == FollowUp::Done
    }
}

/// A key in the toggle list (see `toggle_list_key`): when it closes the
/// list, the settings panel returns and the caller stores the selection.
fn handle_toggle_list_editor_keys<S>(app: &mut App<S>, key: KeyPress) -> (r: FollowUp)
    requires
        old(app).state is ToggleListEditor,
    ensures
        old(app).state matches AppState::ToggleListEditor(t0) && toggle_list_handled(
            t0,
            final(app).state,
            key,
            r,
        ),
        final(app).input_text == old(app).input_text,
        final(app).same_frame(old(app)),
{
    let close = match &mut app.state {
        AppState::ToggleListEditor(t) => toggle_list_key(&mut t.list, key),
        _ => false,
    };
    if close {
        match app.close_toggle_list_editor() {
            Some((field_id, selected)) => FollowUp::StoreList(field_id, selected),
            None => FollowUp::Done,
        }
    } else {
        FollowUp::Done
    }
}

/// The keys the wordlist manager can take: its path input well formed, and
/// a character typed into it fitting.
pub open spec fn manager_key_ok(m: WordlistManager, key: KeyPress) -> bool {
    m.text_input.wf() && (m.focus == WordlistManagerFocus::AddPathInput ==> (key.code matches Key::Char(
        c,
    ) ==> (m.text_input.accepts_char() ==> fits_with(m.text_input.text(), c))))
}

/// After a key in the wordlist manager `w0`, leaving `post` and asking for
/// `r` (see `manager_key_spec`): cancelling or finishing returns to the
/// settings panel, finishing with the changes for the caller to apply; the
/// other keys change the manager as the view says.
pub open spec fn manager_handled<S>(w0: WordlistManagerState<S>, post: AppState<S>, key: KeyPress, r: KeyDispatch) -> bool {
    let (v, e) = manager_key_spec(manager_view(w0.manager), key);
    let stays = post matches AppState::WordlistManager(w1) && {
        &&& w1.manager.text_input.wf()
        &&& manager_view(w1.manager) == v
        &&& w1.scroll_offset == w0.scroll_offset
        &&& w1.parent_settings == w0.parent_settings
    };
    match e {
        ManagerEffect::Exit(ManagerExit::Cancel) => (post matches AppState::Settings(ss) && reopened(ss, w0.parent_settings))
            && r.action is Nothing && r.follow_up == FollowUp::Done,
        ManagerEffect::Exit(ManagerExit::Finish) => (post matches AppState::Settings(ss) && reopened(ss, w0.parent_settings))
            && r.action is Nothing && (r.follow_up matches FollowUp::ApplyWordlistChanges(m) && m@
            == w0.manager.pending_changes@),
        ManagerEffect::Exit(ManagerExit::Stay) | ManagerEffect::Nothing => stays && r.action is Nothing
            && r.follow_up == FollowUp::Done,
        ManagerEffect::Delete(id) => stays && r.action == Action::DeleteWordlist(id) && r.follow_up
            == FollowUp::Done,
        ManagerEffect::Import(p) => stays && (r.action matches Action::ImportWordlist(q) && q@ == p)
            && r.follow_up == FollowUp::Done,
    }
}

/// A key in the wordlist manager (see `wordlist_manager_key`).
fn handle_wordlist_manager_keys<S>(app: &mut App<S>, key: KeyPress) -> (r: KeyDispatch)
    requires
        old(app).state matches AppState::WordlistManager(w) && manager_key_ok(w.manager, key),
    ensures
        old(app).state matches AppState::WordlistManager(w0) && manager_handled(
            w0,
            final(app).state,
            key,
            r,
        ),
        final(app).input_text == old(app).input_text,
        final(app).same_frame(old(app)),
{
    let (action, exit) = match &mut app.state {
        AppState::WordlistManager(w) => wordlist_manager_key(&mut w.manager, key),
        _ => (Action::Nothing, ManagerExit::Stay),
    };
    let follow_up = match exit {
        ManagerExit::Stay => FollowUp::Done,
        ManagerExit::Cancel => {
            app.cancel_wordlist_manager();
            FollowUp::Done
        },
        ManagerExit::Finish => match app.finish_wordlist_manager() {
            Some(changes) => FollowUp::ApplyWordlistChanges(changes),
            None => FollowUp::Done,
        },
    };
    KeyDispatch { action, follow_up }
}

/// The keys the theme picker can take: applying a listed theme needs a
/// position within the list (or the custom entry just past it), and a
/// colour being typed must fit.
pub open spec fn picker_key_ok(p: ThemePicker, key: KeyPress) -> bool {
    &&& !p.custom_mode && key.code == Key::Enter ==> p.selected_theme <= THEME_COUNT
    &&& p.custom_mode ==> (key.code matches Key::Char(c) ==> ((is_digit(c) || c == ',') ==> utf8_len(
        p.custom_colors.slot(field_slot(p.custom_field as int))@,
    ) + 1 <= isize::MAX))
}

/// After a key in the theme picker `p0`, leaving the screen `post` and
/// asking the caller for `r` (see `picker_key_spec`): closing returns to the
/// settings panel, with the chosen scheme if there is one.
pub open spec fn picker_handled<S>(p0: ThemePickerState<S>, post: AppState<S>, key: KeyPress, r: FollowUp) -> bool {
    let (v, close) = picker_key_spec(picker_view(p0.picker), key);
    match close {
        None => r == FollowUp::Done && (post matches AppState::ThemePicker(p1) && picker_view(
            p1.picker,
        ) == v && p1.parent_settings == p0.parent_settings),
        Some(chosen) => (post matches AppState::Settings(ss) && reopened(ss, p0.parent_settings)) && r == (match chosen {
            Some(scheme) => FollowUp::ApplyScheme(scheme),
            None => FollowUp::Done,
        }),
    }
}

/// A key in the theme picker (see `theme_picker_key`): when it closes the
/// picker, the settings panel returns, and the caller uses the chosen scheme
/// if there is one.
fn handle_theme_picker_keys<S>(app: &mut App<S>, key: KeyPress) -> (r: FollowUp)
    requires
        old(app).state matches AppState::ThemePicker(p) && picker_key_ok(p.picker, key),
    ensures
        old(app).state matches AppState::ThemePicker(p0) && picker_handled(
            p0,
            final(app).state,
            key,
            r,
        ),
        final(app).input_text == old(app).input_text,
        final(app).same_frame(old(app)),
{
    let close = match &mut app.state {
        AppState::ThemePicker(p) => theme_picker_key(&mut p.picker, key),
        _ => None,
    };
    match close {
        None => FollowUp::Done,
        Some(chosen) => {
            app.close_theme_picker();
            match chosen {
                Some(scheme) => FollowUp::ApplyScheme(scheme),
                None => FollowUp::Done,
            }
        },
    }
}

/// After a key on the save question `c0` (the screen `pre`), leaving the
/// screen `post` and asking the caller for `r` (see `save_answer_spec`): an
/// answer goes to the caller, cancelling returns to the settings panel.
pub open spec fn save_handled<S>(
    c0: SaveConfirmationState<S>,
    pre: AppState<S>,
    post: AppState<S>,
    key: KeyPress,
    r: FollowUp,
) -> bool {
    let (answer, cancel) = save_answer_spec(key);
    &&& cancel ==> (post matches AppState::Settings(ss) && reopened(ss, c0.parent_settings))
    &&& !cancel ==> post == pre
    &&& r == (match answer {
        Some(save) => FollowUp::AnswerSave(save),
        None => FollowUp::Done,
    })
}

/// A key on the save question (see `save_confirmation_key`): an answer is
/// left to the caller, cancelling returns to the settings panel.
fn handle_save_confirmation_keys<S>(app: &mut App<S>, key: KeyPress) -> (r: FollowUp)
    requires
        old(app).state is SaveConfirmation,
    ensures
        old(app).state matches AppState::SaveConfirmation(c0) && save_handled(
            c0,
            old(app).state,
            final(app).state,
            key,
            r,
        ),
        final(app).input_text == old(app).input_text,
        final(app).same_frame(old(app)),
{
    let (answer, cancel) = save_confirmation_key(key);
    if cancel {
        app.cancel_save_confirmation();
    }
    match answer {
        Some(save) => FollowUp::AnswerSave(save),
        None => FollowUp::Done,
    }
}

/// What the caller still has to do for the request of a screen's key.
pub open spec fn follow_up_of(request: AppRequest) -> FollowUp {
    match request {
        AppRequest::ReturnHome => FollowUp::ReturnHome,
        AppRequest::EnterStep => FollowUp::LoadBranches,
        _ => FollowUp::Done,
    }
}

/// The status line after a screen's key asked for `request`, the line being
/// `status` before: a requested message is shown.
pub open spec fn status_after(status: Option<crate::state::StatusMessage>, request: AppRequest) -> Option<
    crate::state::StatusMessage,
> {
    match request {
        AppRequest::Status(m) => Some(
            crate::state::StatusMessage {
                text: m,
                severity: crate::state::StatusSeverity::Info,
            },
        ),
        _ => status,
    }
}

/// Carries out what a screen's key asked of the application besides its
/// action: a status message is shown; the other requests are left to the
/// caller (see `follow_up_of`).
fn apply_outcome<S>(app: &mut App<S>, outcome: KeyOutcome) -> (r: KeyDispatch)
    requires
        !(outcome.request is Respond),
    ensures
        r.action == outcome.action,
        r.follow_up == follow_up_of(outcome.request),
        final(app).status_message == status_after(old(app).status_message, outcome.request),
        final(app).state == old(app).state,
        final(app).input_text == old(app).input_text,
        final(app).should_quit == old(app).should_quit,
        final(app).show_help == old(app).show_help,
        final(app).pending_g == old(app).pending_g,
        final(app).ask_ai == old(app).ask_ai,
        final(app).decoder_search == old(app).decoder_search,
        final(app).quick_search == old(app).quick_search,
{
    let follow_up = match &outcome.request {
        AppRequest::ReturnHome => FollowUp::ReturnHome,
        AppRequest::EnterStep => FollowUp::LoadBranches,
        _ => FollowUp::Done,
    };
    match outcome.request {
        AppRequest::Status(m) => app.set_status(m),
        _ => {},
    }
    KeyDispatch { action: outcome.action, follow_up }
}

/// The keys `app` can take without a string outgrowing `isize::MAX` bytes
/// or a counter overflowing (see the handler of each target).
pub open spec fn key_ok<S>(app: App<S>, key: KeyPress, ai_configured: bool) -> bool {
    match key_target(app) {
        KeyTarget::AskAi => app.ask_ai matches Some(o) && o.text_input.wf() && (key.code matches Key::Char(
            c,
        ) ==> (!key.ctrl && !key.alt ==> fits_with(o.text_input.current_line(), c))),
        KeyTarget::DecoderSearch => app.decoder_search matches Some(o) && o.text_input.wf() && (
        key.code matches Key::Char(c) ==> (o.text_input.accepts_char() ==> fits_with(
            o.text_input.text(),
            c,
        ))),
        KeyTarget::QuickSearch => app.quick_search matches Some(o) && utf8_len(o.output_text@)
            <= isize::MAX,
        KeyTarget::Home => app.state matches AppState::Home(h) && home_key_ok(h, key),
        KeyTarget::ListEditor => app.state matches AppState::ListEditor(le) && list_editor_key_ok(
            le.editor,
            key,
        ),
        KeyTarget::WordlistManager => app.state matches AppState::WordlistManager(w)
            && manager_key_ok(w.manager, key),
        KeyTarget::ThemePicker => app.state matches AppState::ThemePicker(p) && picker_key_ok(
            p.picker,
            key,
        ),
        KeyTarget::Settings => app.state matches AppState::Settings(ss) && settings_key_ok(ss, key),
        KeyTarget::Results => app.state matches AppState::Results(rs) && results_key_ok(
            rs,
            app.pending_g,
            key,
            ai_configured,
        ),
        _ => true,
    }
}

/// The screen and the input text are those of `pre`.
pub open spec fn same_screen<S>(pre: App<S>, post: App<S>) -> bool {
    post.state == pre.state && post.input_text == pre.input_text
}

/// The quit, help and pending-`g` flags are those of `pre`.
pub open spec fn same_flags<S>(pre: App<S>, post: App<S>) -> bool {
    &&& post.should_quit == pre.should_quit
    &&& post.show_help == pre.show_help
    &&& post.pending_g == pre.pending_g
}

/// The three overlays are those of `pre`.
pub open spec fn same_overlays3<S>(pre: App<S>, post: App<S>) -> bool {
    &&& post.ask_ai == pre.ask_ai
    &&& post.decoder_search == pre.decoder_search
    &&& post.quick_search == pre.quick_search
}

/// `r` and the status line `status` (which was `acked` before) carry out the
/// screen outcome `o`.
pub open spec fn carried_out(
    o: KeyOutcome,
    acked: Option<crate::state::StatusMessage>,
    status: Option<crate::state::StatusMessage>,
    r: KeyDispatch,
) -> bool {
    &&& r.action == o.action
    &&& r.follow_up == follow_up_of(o.request)
    &&& status == status_after(acked, o.request)
}

/// What handling `key` did to `pre`, giving `post` and `r`: a warning or
/// error on the status line was acknowledged, then the target's handler
/// (see `key_target`) took the key.
pub open spec fn key_handled<S>(pre: App<S>, post: App<S>, key: KeyPress, ai: bool, r: KeyDispatch) -> bool {
    let acked = cleared_status(pre.status_message);
    match key_target(pre) {
        KeyTarget::AskAi => {
            &&& pre.ask_ai matches Some(o0) && post.ask_ai matches Some(o1) && ask_ai_stepped(
                o0,
                o1,
                key,
                r.action,
            )
            &&& r.follow_up == FollowUp::Done
            &&& post.status_message == acked
            &&& same_screen(pre, post) && same_flags(pre, post)
            &&& post.decoder_search == pre.decoder_search && post.quick_search == pre.quick_search
        },
        KeyTarget::DecoderSearch => {
            &&& pre.decoder_search matches Some(o0) && decoder_search_stepped(
                o0,
                post.decoder_search,
                key,
                r.action,
            )
            &&& r.follow_up == FollowUp::Done
            &&& post.status_message == acked
            &&& same_screen(pre, post) && same_flags(pre, post)
            &&& post.ask_ai == pre.ask_ai && post.quick_search == pre.quick_search
        },
        KeyTarget::QuickSearch => {
            &&& pre.quick_search matches Some(o0) && quick_search_stepped(
                o0,
                post.quick_search,
                key,
                r.action,
            )
            &&& r.follow_up == FollowUp::Done
            &&& post.status_message == acked
            &&& same_screen(pre, post) && same_flags(pre, post)
            &&& post.ask_ai == pre.ask_ai && post.decoder_search == pre.decoder_search
        },
        KeyTarget::Home => {
            &&& pre.state matches AppState::Home(h0) && post.state matches AppState::Home(h1) && {
                let (v, e) = home_key_spec(home_view(h0), h0.history@, key);
                &&& h1.text_input.wf()
                &&& h1.history == h0.history
                &&& home_view(h1) == v
                &&& exists|o: KeyOutcome|
                    #[trigger] home_outcome(e, h0.history@, o) && carried_out(
                        o,
                        acked,
                        post.status_message,
                        r,
                    )
                &&& post.should_quit == (pre.should_quit || e is Quit)
            }
            &&& post.input_text == pre.input_text
            &&& post.show_help == pre.show_help && post.pending_g == pre.pending_g
            &&& same_overlays3(pre, post)
        },
        KeyTarget::Results => {
            &&& pre.state matches AppState::Results(rs0) && post.state matches AppState::Results(
                rs1,
            ) && {
                let (m, g, e) = results_key_spec(rs0, pre.pending_g, key, ai);
                &&& results_moved(m, rs0, rs1)
                &&& post.pending_g == g
                &&& exists|o: KeyOutcome|
                    #[trigger] results_outcome(m, e, rs0, o) && carried_out(
                        o,
                        acked,
                        post.status_message,
                        r,
                    )
                &&& post.should_quit == (pre.should_quit || e is Quit)
                &&& switched_help(pre.show_help, post.show_help, e is ToggleHelp)
            }
            &&& post.input_text == pre.input_text
            &&& same_overlays3(pre, post)
        },
        KeyTarget::Loading => {
            &&& r.action == loading_action(key) && r.follow_up == FollowUp::Done
            &&& post.should_quit == (pre.should_quit || loading_key_spec(key) is Quit)
            &&& switched_help(pre.show_help, post.show_help, loading_key_spec(key) is ToggleHelp)
            &&& post.status_message == acked
            &&& same_screen(pre, post) && post.pending_g == pre.pending_g
            &&& same_overlays3(pre, post)
        },
        KeyTarget::Failure => {
            &&& match failure_key_spec(key) {
                FailureEffect::Home => r.action is Nothing && r.follow_up == FollowUp::ReturnHome,
                FailureEffect::Settings => r.action is OpenSettings && r.follow_up == FollowUp::Done,
                _ => r.action is Nothing && r.follow_up == FollowUp::Done,
            }
            &&& post.should_quit == (pre.should_quit || failure_key_spec(key) is Quit)
            &&& switched_help(pre.show_help, post.show_help, failure_key_spec(key) is ToggleHelp)
            &&& post.status_message == acked
            &&& same_screen(pre, post) && post.pending_g == pre.pending_g
            &&& same_overlays3(pre, post)
        },
        KeyTarget::Confirmation => {
            &&& r.action is Nothing && r.follow_up == FollowUp::Done
            &&& match confirmation_answer(key) {
                Some(_) => answered(pre.state, post.state),
                None => post.state == pre.state,
            }
            &&& post.input_text == pre.input_text
            &&& post.status_message == acked
            &&& same_flags(pre, post) && same_overlays3(pre, post)
        },
        KeyTarget::BranchPrompt => {
            &&& pre.state matches AppState::BranchModePrompt(p0) && post.state
                matches AppState::BranchModePrompt(p1) && branch_prompt_stepped(
                p0,
                p1,
                key,
                r.action,
                r.follow_up == FollowUp::CloseBranchPrompt,
            )
            &&& (r.follow_up == FollowUp::Done || r.follow_up == FollowUp::CloseBranchPrompt)
            &&& post.input_text == pre.input_text
            &&& post.status_message == acked
            &&& same_flags(pre, post) && same_overlays3(pre, post)
        },
        KeyTarget::Settings => {
            &&& pre.state matches AppState::Settings(a) && settings_handled(
                a,
                post.state,
                key,
                r.follow_up,
            )
            &&& r.action is Nothing
            &&& post.input_text == pre.input_text && post.status_message == acked
            &&& same_flags(pre, post) && same_overlays3(pre, post)
        },
        KeyTarget::ListEditor => {
            &&& pre.state matches AppState::ListEditor(le0) && list_editor_handled(
                le0,
                post.state,
                key,
                r.follow_up,
            )
            &&& r.action is Nothing
            &&& post.input_text == pre.input_text && post.status_message == acked
            &&& same_flags(pre, post) && same_overlays3(pre, post)
        },
        KeyTarget::ToggleList => {
            &&& pre.state matches AppState::ToggleListEditor(t0) && toggle_list_handled(
                t0,
                post.state,
                key,
                r.follow_up,
            )
            &&& r.action is Nothing
            &&& post.input_text == pre.input_text && post.status_message == acked
            &&& same_flags(pre, post) && same_overlays3(pre, post)
        },
        KeyTarget::WordlistManager => {
            &&& pre.state matches AppState::WordlistManager(w0) && manager_handled(
                w0,
                post.state,
                key,
                r,
            )
            &&& post.input_text == pre.input_text && post.status_message == acked
            &&& same_flags(pre, post) && same_overlays3(pre, post)
        },
        KeyTarget::ThemePicker => {
            &&& pre.state matches AppState::ThemePicker(p0) && picker_handled(
                p0,
                post.state,
                key,
                r.follow_up,
            )
            &&& r.action is Nothing
            &&& post.input_text == pre.input_text && post.status_message == acked
            &&& same_flags(pre, post) && same_overlays3(pre, post)
        },
        KeyTarget::SaveConfirmation => {
            &&& pre.state matches AppState::SaveConfirmation(c0) && save_handled(
                c0,
                pre.state,
                post.state,
                key,
                r.follow_up,
            )
            &&& r.action is Nothing
            &&& post.input_text == pre.input_text && post.status_message == acked
            &&& same_flags(pre, post) && same_overlays3(pre, post)
        },
    }
}

/// Handles a key press: a warning or error on the status line is
/// acknowledged, then the open overlay (the question box, the decoder
/// search, the web search list, in that order) or else the screen shown
/// takes the key (see `key_handled`). Returns the work for the event loop
/// and what the caller still has to do; `ai_configured` tells whether
/// explanations are set up.
pub fn handle_key_event<S>(app: &mut App<S>, key: KeyPress, ai_configured: bool) -> (r: KeyDispatch)
    requires
        key_ok(*old(app), key, ai_configured),
    ensures
        key_handled(*old(app), *final(app), key, ai_configured, r),
{
    app.acknowledge_status();
    if app.ask_ai.is_some() {
        let a = handle_ask_ai_keys(app, key);
        return KeyDispatch { action: a, follow_up: FollowUp::Done };
    }
    if app.decoder_search.is_some() {
        let a = handle_decoder_search_keys(app, key);
        return KeyDispatch { action: a, follow_up: FollowUp::Done };
    }
    if app.quick_search.is_some() {
        let a = handle_quick_search_keys(app, key);
        return KeyDispatch { action: a, follow_up: FollowUp::Done };
    }
    let target: u8 = match &app.state {
        AppState::Home(_) => 0,
        AppState::Loading(_) => 1,
        AppState::HumanConfirmation(_) => 2,
        AppState::Results(_) => 3,
        AppState::Failure(_) => 4,
        AppState::Settings(_) => 5,
        AppState::BranchModePrompt(_) => 6,
        AppState::ListEditor(_) => 7,
        AppState::WordlistManager(_) => 8,
        AppState::ThemePicker(_) => 9,
        AppState::ToggleListEditor(_) => 10,
        AppState::SaveConfirmation(_) => 11,
    };
    if target == 0 {
        let o = handle_home_keys(app, key);
        apply_outcome(app, o)
    } else if target == 1 {
        let a = handle_loading_keys(app, key);
        KeyDispatch { action: a, follow_up: FollowUp::Done }
    } else if target == 2 {
        handle_confirmation_keys(app, key);
        KeyDispatch { action: Action::Nothing, follow_up: FollowUp::Done }
    } else if target == 3 {
        let o = handle_results_keys(app, key, ai_configured);
        apply_outcome(app, o)
    } else if target == 4 {
        let o = handle_failure_keys(app, key);
        apply_outcome(app, o)
    } else if target == 5 {
        let f = handle_settings_keys(app, key);
        KeyDispatch { action: Action::Nothing, follow_up: f }
    } else if target == 7 {
        let f = handle_list_editor_keys(app, key);
        KeyDispatch { action: Action::Nothing, follow_up: f }
    } else if target == 8 {
        handle_wordlist_manager_keys(app, key)
    } else if target == 9 {
        let f = handle_theme_picker_keys(app, key);
        KeyDispatch { action: Action::Nothing, follow_up: f }
    } else if target == 10 {
        let f = handle_toggle_list_editor_keys(app, key);
        KeyDispatch { action: Action::Nothing, follow_up: f }
    } else if target == 11 {
        let f = handle_save_confirmation_keys(app, key);
        KeyDispatch { action: Action::Nothing, follow_up: f }
    } else {
        let (a, close) = handle_branch_mode_prompt_keys(app, key);
        KeyDispatch {
            action: a,
            follow_up: if close {
                FollowUp::CloseBranchPrompt
            } else {
                FollowUp::Done
            },
        }
    }
}

} // verus!
