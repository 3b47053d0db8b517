//! The application state of the interface: which screen is shown, the
//! overlays over the Results screen, the status line, and the transitions
//! between screens. What the transitions read from storage (the history, a
//! stored result, the branches of a step) the caller reads and hands over.

use std::collections::HashMap;
use std::sync::mpsc::Sender;
use std::time::{Duration, Instant};

use vstd::prelude::*;

use crate::human_checker_bridge::send_value;
use crate::multiline_text_input::{ml_cleared, MultilineTextInput};
use crate::parse::{trim, trim_spec};
use crate::spinner::{random_quote_index, QUOTE_COUNT};
use crate::state::{
    last_step_index, tick_spec, AskAiOverlay, BranchModePromptState, BranchSummary,
    DecoderResult, DecoderSearchOverlay, FailureState, HistoryEntry, HomeState,
    HumanConfirmationRequest, HumanConfirmationState, LoadingState, QuickSearchOverlay,
    ResultsFocus, ResultsState, StatusMessage, StatusSeverity, TreeNode, acknowledge_status,
    is_persistent, branch_point_text, first_step_post, last_step_post, next_branch_post,
    next_step_post, path_view, prev_branch_post, prev_step_post, switch_focus_post, BranchContext,
    CrackResult, BranchMode, cached_explanation, lookup_explanation, opt_str, clone_opt_string, HelpContext,
};
use crate::text::{join_lines, string_views};
use crate::text_input::TextInput;
use crate::input::{open_quick_search, QuickSearchOpen};
use crate::search::search_entries;
use crate::settings_screens::{
    ListEditorState, SaveConfirmationState, SettingsState, ThemePickerState, ToggleListEditorState,
    WordlistManagerState,
};
use crate::themes::pair_views;

verus! {

broadcast use vstd::std_specs::hash::group_hash_axioms;

/// Wrapper of `Instant::now`: the current moment. It depends on the clock,
/// so nothing is stated of it.
#[verifier::external_body]
pub(crate) fn instant_now() -> (r: Instant) {
    Instant::now()
}

/// The screen the interface shows, with its data. `S` is the type of the
/// settings values, which hold floating-point numbers: the caller builds,
/// reads and writes them, and this library carries them in the settings
/// panel and its editors.
pub enum AppState<S> {
    /// Home screen, where ciphertext is typed or pasted.
    Home(HomeState),
    /// Decoding in progress.
    Loading(LoadingState),
    /// Waiting for the user to confirm a plaintext.
    HumanConfirmation(HumanConfirmationState),
    /// Decoding succeeded; the result is shown.
    Results(ResultsState),
    /// Decoding found no plaintext.
    Failure(FailureState),
    /// The settings panel.
    Settings(SettingsState<S>),
    /// Editing a list of strings from the settings.
    ListEditor(ListEditorState<S>),
    /// Managing the wordlist files.
    WordlistManager(WordlistManagerState<S>),
    /// Choosing a colour theme.
    ThemePicker(ThemePickerState<S>),
    /// Selecting items of a fixed set from the settings.
    ToggleListEditor(ToggleListEditorState<S>),
    /// Asking whether to save changed settings.
    SaveConfirmation(SaveConfirmationState<S>),
    /// Choosing how a new branch is decoded.
    BranchModePrompt(BranchModePromptState),
}

/// The whole state of the interface.
pub struct App<S> {
    /// The current screen.
    pub state: AppState<S>,
    /// The text being decoded.
    pub input_text: String,
    /// Whether the interface should close.
    pub should_quit: bool,
    /// Whether the help overlay is shown.
    pub show_help: bool,
    /// The status line, if any.
    pub status_message: Option<StatusMessage>,
    /// A `g` was pressed and waits for a second one.
    pub pending_g: bool,
    /// The decoder search over the Results screen, when open.
    pub decoder_search: Option<DecoderSearchOverlay>,
    /// The web search list over the Results screen, when open.
    pub quick_search: Option<QuickSearchOverlay>,
    /// The question box over the Results screen, when open.
    pub ask_ai: Option<AskAiOverlay>,
}

/// A Home screen with an empty input, `history` listed and nothing selected.
pub open spec fn fresh_home(h: HomeState, history: Seq<HistoryEntry>) -> bool {
    &&& h.text_input.wf()
    &&& h.text_input.state() == ml_cleared()
    &&& h.history@ == history
    &&& h.selected_history is None
    &&& h.history_scroll_offset == 0
}

/// A Loading screen at the start of its animation, with a quote from the
/// list.
pub open spec fn fresh_loading(l: LoadingState) -> bool {
    l.spinner_frame == 0 && l.current_quote < QUOTE_COUNT
}

/// A Results screen showing `result` from its last step, with the given
/// cache id and no branch listed, highlighted or explained.
pub open spec fn opened_results(rs: ResultsState, result: DecoderResult, cache_id: Option<i64>) -> bool {
    &&& rs.result == result
    &&& rs.selected_step == last_step_index(result.path@.len())
    &&& rs.scroll_offset == 0
    &&& rs.cache_id == cache_id
    &&& rs.current_branches@.len() == 0
    &&& rs.highlighted_branch is None
    &&& rs.branch_scroll_offset == 0
    &&& rs.focus == ResultsFocus::TreeView
    &&& rs.level_visible_rows == 10
    &&& rs.ai_explanation is None
    &&& !rs.ai_loading
}

/// The text typed on the Home screen, or the empty text on another screen.
pub open spec fn home_text<S>(state: AppState<S>) -> Seq<char> {
    match state {
        AppState::Home(h) => join_lines(h.text_input.line_seq()),
        _ => Seq::empty(),
    }
}

/// After `set_human_confirmation(request, sender)` took the screen from
/// `pre` to `post`: the confirmation screen shows `request` and answers on
/// `sender`, its animation taken over from a Loading or confirmation screen,
/// or started afresh (frame and quote 0) from any other.
pub open spec fn awaiting_confirmation<S>(
    pre: AppState<S>,
    post: AppState<S>,
    request: HumanConfirmationRequest,
    sender: Sender<bool>,
) -> bool {
    post matches AppState::HumanConfirmation(h) && {
        &&& h.request == request
        &&& h.response_sender == sender
        &&& match pre {
            AppState::Loading(l) => h.start_time == l.start_time && h.current_quote
                == l.current_quote && h.spinner_frame == l.spinner_frame,
            AppState::HumanConfirmation(p) => h.start_time == p.start_time && h.current_quote
                == p.current_quote && h.spinner_frame == p.spinner_frame,
            _ => h.current_quote == 0 && h.spinner_frame == 0,
        }
    }
}

/// The keybindings the help overlay shows on each screen.
pub open spec fn help_context_of<S>(state: AppState<S>) -> HelpContext {
    match state {
        AppState::Home(_) => HelpContext::Home,
        AppState::Results(_) => HelpContext::Results,
        AppState::Settings(_) | AppState::ListEditor(_) | AppState::WordlistManager(_)
        | AppState::ThemePicker(_) | AppState::ToggleListEditor(_) | AppState::SaveConfirmation(_) =>
            HelpContext::Settings,
        _ => HelpContext::Loading,
    }
}

/// The longest step text the question box is given, in characters.
pub const ASK_AI_TEXT_LIMIT: usize = 500;

/// `s` cut to its first `n` characters.
pub open spec fn first_chars(s: Seq<char>, n: nat) -> Seq<char> {
    if s.len() > n {
        s.take(n as int)
    } else {
        s
    }
}

/// The first `n` characters of `s`.
fn take_chars(s: &str, n: usize) -> (r: String)
    ensures
        r@ == first_chars(s@, n as nat),
{
    if s.unicode_len() > n {
        s.substring_char(0, n).to_owned()
    } else {
        s.to_owned()
    }
}

/// `o` is the question box opened about the selected step of `rs`: an empty
/// question, the step's decoder, description, link and key, its input and
/// first output cut to `ASK_AI_TEXT_LIMIT` characters, no answer yet.
pub open spec fn ask_ai_opened(rs: ResultsState, o: AskAiOverlay) -> bool {
    let step = rs.result.path@[rs.selected_step as int];
    let output = match branch_point_text(rs.result, rs.selected_step) {
        Some(t) => t,
        None => Seq::empty(),
    };
    &&& o.text_input.wf()
    &&& o.text_input.state() == ml_cleared()
    &&& o.decoder_name@ == step.decoder@
    &&& o.step_input@ == first_chars(step.encrypted_text@, ASK_AI_TEXT_LIMIT as nat)
    &&& o.step_output@ == first_chars(output, ASK_AI_TEXT_LIMIT as nat)
    &&& opt_str(o.step_key) == opt_str(step.key)
    &&& o.step_description@ == step.description@
    &&& o.step_link@ == step.link@
    &&& o.response is None
    &&& !o.loading
    &&& o.error is None
    &&& o.response_scroll == 0
}

/// After `open_branch_prompt` took the screen from `pre` to `post`: from a
/// Results screen whose selected step has an output, the branch mode prompt
/// for it with full search chosen; otherwise unchanged.
pub open spec fn branch_prompt_opened<S>(pre: AppState<S>, post: AppState<S>) -> bool {
    match pre {
        AppState::Results(rs) => if branch_point_text(rs.result, rs.selected_step) is Some {
            post matches AppState::BranchModePrompt(p) && {
                &&& p.selected_mode == BranchMode::FullSearch
                &&& branch_context_of(rs, Some(p.branch_context))
            }
        } else {
            post == pre
        },
        _ => post == pre,
    }
}

/// After `open_decoder_search(all)` on the screen `state`, the decoder
/// search going from `pre` to `post`: on a Results screen whose selected
/// step has an output, the search for it listing every decoder of `all`
/// with an empty query; otherwise unchanged.
pub open spec fn decoder_search_opened<S>(
    state: AppState<S>,
    pre: Option<DecoderSearchOverlay>,
    post: Option<DecoderSearchOverlay>,
    all: Vec<&'static str>,
) -> bool {
    match state {
        AppState::Results(rs) => if branch_point_text(rs.result, rs.selected_step) is Some {
            post matches Some(o) && {
                &&& o.text_input.wf()
                &&& o.text_input.text() == Seq::<char>::empty()
                &&& o.all_decoders@ == all@
                &&& o.filtered_decoders@ == all@
                &&& o.selected_index == 0
                &&& branch_context_of(rs, Some(o.branch_context))
            }
        } else {
            post == pre
        },
        _ => post == pre,
    }
}

/// After `open_quick_search(qs)` took `pre` to `post`: on a Results screen
/// whose selected step has an output, the web search list for it with the
/// usable entries of `qs`, or, when there is none, a status message saying
/// so; otherwise the list and the status line are unchanged.
pub open spec fn quick_search_opened<S>(pre: App<S>, post: App<S>, qs: Seq<String>) -> bool {
    match pre.state {
        AppState::Results(rs) => {
            let text = match branch_point_text(rs.result, rs.selected_step) {
                Some(t) => t,
                None => Seq::empty(),
            };
            let entries = search_entries(string_views(qs));
            if text.len() == 0 {
                post.quick_search == pre.quick_search && post.status_message == pre.status_message
            } else if entries.len() == 0 {
                &&& post.quick_search == pre.quick_search
                &&& post.status_message matches Some(m) && m.severity == StatusSeverity::Info
                    && m.text@ == "No quick searches configured. Add them in Settings (Ctrl+S)."@
            } else {
                &&& post.quick_search matches Some(o) && {
                    &&& pair_views(o.entries@) == entries
                    &&& o.selected_index == 0
                    &&& o.output_text@ == text
                }
                &&& post.status_message == pre.status_message
            }
        },
        _ => post.quick_search == pre.quick_search && post.status_message == pre.status_message,
    }
}

/// After `open_ask_ai` on the screen `state`, the question box going from
/// `pre` to `post`: on a Results screen whose selected step exists, the box
/// about that step (see `ask_ai_opened`); otherwise unchanged.
pub open spec fn ask_ai_opened_on<S>(state: AppState<S>, pre: Option<AskAiOverlay>, post: Option<AskAiOverlay>) -> bool {
    match state {
        AppState::Results(rs) => if rs.selected_step < rs.result.path@.len() {
            post matches Some(o) && ask_ai_opened(rs, o)
        } else {
            post == pre
        },
        _ => post == pre,
    }
}

/// What storage gives back for a stored decode: the result, the text it
/// decoded, its branch tree and the explanations kept for its steps.
pub struct StoredResult {
    /// The decoding result.
    pub result: DecoderResult,
    /// The text that was decoded.
    pub encoded_text: String,
    /// Branches at each step, keyed by step index.
    pub tree_branches: HashMap<usize, Vec<TreeNode>>,
    /// Explanations per step.
    pub ai_explanation_cache: HashMap<usize, String>,
}

/// After `set_ai_explanation(e)` took the Results screen from `pre` to
/// `post`: `e` is shown and kept for the selected step, the other kept
/// explanations stay, the loading flag is off, and nothing else changed.
pub open spec fn explanation_set(pre: ResultsState, post: ResultsState, e: Seq<char>) -> bool {
    &&& opt_str(post.ai_explanation) == Some(e)
    &&& post.ai_explanation_cache@.dom() == pre.ai_explanation_cache@.dom().insert(pre.selected_step)
    &&& post.ai_explanation_cache@[pre.selected_step]@ == e
    &&& forall|k: usize|
        k != pre.selected_step && #[trigger] pre.ai_explanation_cache@.contains_key(k)
            ==> post.ai_explanation_cache@[k] == pre.ai_explanation_cache@[k]
    &&& post == ResultsState {
        ai_explanation: post.ai_explanation,
        ai_loading: false,
        ai_explanation_cache: post.ai_explanation_cache,
        ..pre
    }
}

/// After an update of the Results screen took the screen from `pre` to
/// `post`: on the Results screen, `step` relates the two; any other screen
/// is unchanged.
pub open spec fn on_results<S>(
    pre: AppState<S>,
    post: AppState<S>,
    step: spec_fn(ResultsState, ResultsState) -> bool,
) -> bool {
    match pre {
        AppState::Results(a) => post matches AppState::Results(b) && step(a, b),
        _ => post == pre,
    }
}

/// `post` lists `branches` for its step when the result is stored (none
/// otherwise), none highlighted and scrolled to the top; nothing else
/// changed from `pre`.
pub open spec fn branches_loaded(pre: ResultsState, post: ResultsState, branches: Seq<BranchSummary>) -> bool {
    &&& post.current_branches@ == (if pre.cache_id is Some {
        branches
    } else {
        Seq::empty()
    })
    &&& post == ResultsState {
        current_branches: post.current_branches,
        highlighted_branch: None,
        branch_scroll_offset: 0,
        ..pre
    }
}

/// `r` is the branch context at the selected step of `rs`: present exactly
/// when the step has an output, and then made of that output, the path up
/// to and including the step, the cache id and the step index.
pub open spec fn branch_context_of(rs: ResultsState, r: Option<BranchContext>) -> bool {
    &&& r is Some <==> branch_point_text(rs.result, rs.selected_step) is Some
    &&& r matches Some(ctx) ==> {
        &&& Some(ctx.text_to_decode@) == branch_point_text(rs.result, rs.selected_step)
        &&& path_view(ctx.prefix_path@) == path_view(rs.result.path@.take(rs.selected_step + 1))
        &&& ctx.parent_cache_id == rs.cache_id
        &&& ctx.branch_step == rs.selected_step
    }
}

/// After `respond_to_confirmation` took the screen from `pre` to `post`:
/// from the confirmation screen, the Loading screen with the same animation;
/// any other screen unchanged.
pub open spec fn answered<S>(pre: AppState<S>, post: AppState<S>) -> bool {
    match pre {
        AppState::HumanConfirmation(h) => post == AppState::<S>::Loading(
            LoadingState {
                start_time: h.start_time,
                current_quote: h.current_quote,
                spinner_frame: h.spinner_frame,
            },
        ),
        _ => post == pre,
    }
}

/// The status line after a key press: a warning or error is cleared, any
/// other message (or none) stays.
pub open spec fn cleared_status(status: Option<StatusMessage>) -> Option<StatusMessage> {
    match status {
        Some(m) => if is_persistent(m.severity) {
            None
        } else {
            Some(m)
        },
        None => None,
    }
}

/// The status line shows the informational message `text`.
pub open spec fn info_status(status: Option<StatusMessage>, text: Seq<char>) -> bool {
    status matches Some(m) && m.severity == StatusSeverity::Info && m.text@ == text
}

/// After a status setter took `pre` to `post`: the status line shows `msg`
/// with `severity`, and nothing else changed.
pub open spec fn status_set<S>(pre: App<S>, post: App<S>, msg: String, severity: StatusSeverity) -> bool {
    &&& post.status_message matches Some(m) && m.text == msg && m.severity == severity
    &&& post.state == pre.state
    &&& post.input_text == pre.input_text
    &&& post.should_quit == pre.should_quit
    &&& post.show_help == pre.show_help
    &&& post.pending_g == pre.pending_g
    &&& post.decoder_search == pre.decoder_search
    &&& post.quick_search == pre.quick_search
    &&& post.ask_ai == pre.ask_ai
}

impl<S> App<S> {
    /// No overlay, no status line, no pending key, neither closing nor
    /// showing help.
    pub open spec fn undisturbed(&self) -> bool {
        &&& !self.should_quit
        &&& !self.show_help
        &&& self.status_message is None
        &&& !self.pending_g
        &&& self.decoder_search is None
        &&& self.quick_search is None
        &&& self.ask_ai is None
    }

    /// The flags and overlays are as in `other` (the screen, the input text
    /// and the status line may differ).
    pub open spec fn same_overlays(&self, other: &Self) -> bool {
        &&& self.should_quit == other.should_quit
        &&& self.show_help == other.show_help
        &&& self.pending_g == other.pending_g
        &&& self.decoder_search == other.decoder_search
        &&& self.quick_search == other.quick_search
        &&& self.ask_ai == other.ask_ai
    }

    /// Everything but the screen and the input text is as in `other`.
    pub open spec fn same_frame(&self, other: &Self) -> bool {
        &&& self.should_quit == other.should_quit
        &&& self.show_help == other.show_help
        &&& self.status_message == other.status_message
        &&& self.pending_g == other.pending_g
        &&& self.decoder_search == other.decoder_search
        &&& self.quick_search == other.quick_search
        &&& self.ask_ai == other.ask_ai
    }

    /// Starts on the Loading screen, decoding `input_text`.
    pub fn new(input_text: String) -> (r: Self)
        ensures
            r.state matches AppState::Loading(l) && fresh_loading(l),
            r.input_text == input_text,
            r.undisturbed(),
    {
        App {
            state: AppState::Loading(
                LoadingState {
                    start_time: instant_now(),
                    current_quote: random_quote_index(),
                    spinner_frame: 0,
                },
            ),
            input_text,
            should_quit: false,
            show_help: false,
            status_message: None,
            pending_g: false,
            decoder_search: None,
            quick_search: None,
            ask_ai: None,
        }
    }

    /// Whether the Home screen is shown.
    pub fn is_home(&self) -> (r: bool)
        ensures
            r == self.state is Home,
    {
        match &self.state {
            AppState::Home(_) => true,
            _ => false,
        }
    }

    /// The text typed on the Home screen; empty on any other screen.
    pub fn get_home_input(&self) -> (r: String)
        ensures
            r@ == home_text(self.state),
    {
        match &self.state {
            AppState::Home(home) => home.text_input.get_text(),
            _ => String::new(),
        }
    }

    /// Starts decoding the text typed on the Home screen: the text becomes
    /// the input and the Loading screen opens. Nothing happens (and `None`
    /// comes back) on another screen or when the text is blank.
    pub fn submit_home_input(&mut self) -> (r: Option<String>)
        ensures
            ({
                let t = home_text(old(self).state);
                if old(self).state is Home && trim_spec(t).len() > 0 {
                    &&& r matches Some(s) && s@ == t
                    &&& final(self).input_text@ == t
                    &&& final(self).state matches AppState::Loading(l) && fresh_loading(l)
                } else {
                    &&& r is None
                    &&& final(self).state == old(self).state
                    &&& final(self).input_text == old(self).input_text
                }
            }),
            final(self).same_frame(old(self)),
    {
        let input = match &self.state {
            AppState::Home(home) => home.text_input.get_text(),
            _ => {
                return None;
            },
        };
        if trim(input.as_str()).unicode_len() == 0 {
            return None;
        }
        self.input_text = input.clone();
        self.state = AppState::Loading(
            LoadingState {
                start_time: instant_now(),
                current_quote: random_quote_index(),
                spinner_frame: 0,
            },
        );
        Some(input)
    }

    /// Advances the animation of the Loading and confirmation screens; the
    /// other screens do not change.
    pub fn tick(&mut self)
        ensures
            match old(self).state {
                AppState::Loading(l) => final(self).state matches AppState::Loading(n) && {
                    &&& (n.spinner_frame, n.current_quote) == tick_spec(
                        l.spinner_frame,
                        l.current_quote,
                    )
                    &&& n.start_time == l.start_time
                },
                AppState::HumanConfirmation(h) => final(self).state matches AppState::HumanConfirmation(n)
                    && {
                    &&& (n.spinner_frame, n.current_quote) == tick_spec(
                        h.spinner_frame,
                        h.current_quote,
                    )
                    &&& n.start_time == h.start_time
                    &&& n.request == h.request
                    &&& n.response_sender == h.response_sender
                },
                _ => final(self).state == old(self).state,
            },
            final(self).input_text == old(self).input_text,
            final(self).same_frame(old(self)),
    {
        match &mut self.state {
            AppState::Loading(loading) => loading.tick(),
            AppState::HumanConfirmation(hc) => hc.tick(),
            _ => {},
        }
    }

    /// Shows `result` on the Results screen, from its last step.
    pub fn set_result(&mut self, result: DecoderResult)
        ensures
            final(self).state matches AppState::Results(rs) && {
                &&& opened_results(rs, result, None)
                &&& rs.branch_path.stack@.len() == 0
                &&& rs.tree_branches@ == Map::<usize, Vec<TreeNode>>::empty()
                &&& rs.ai_explanation_cache@ == Map::<usize, String>::empty()
            },
            final(self).input_text == old(self).input_text,
            final(self).same_frame(old(self)),
    {
        self.state = AppState::Results(ResultsState::new(result));
    }

    /// Shows the stored `result` of cache entry `cache_id` on the Results
    /// screen, from its last step, with its branch tree and explanations as
    /// storage gave them back.
    pub fn set_result_with_cache_id(
        &mut self,
        result: DecoderResult,
        cache_id: i64,
        tree_branches: HashMap<usize, Vec<TreeNode>>,
        ai_explanation_cache: HashMap<usize, String>,
    )
        ensures
            final(self).state matches AppState::Results(rs) && {
                &&& opened_results(rs, result, Some(cache_id))
                &&& rs.branch_path.stack@.len() == 0
                &&& rs.tree_branches == tree_branches
                &&& rs.ai_explanation_cache == ai_explanation_cache
            },
            final(self).input_text == old(self).input_text,
            final(self).same_frame(old(self)),
    {
        self.state = AppState::Results(
            ResultsState::new_with_cache_id(result, cache_id, tree_branches, ai_explanation_cache),
        );
    }

    /// Shows the Failure screen for the current input, after `elapsed`.
    pub fn set_failure(&mut self, elapsed: Duration)
        ensures
            final(self).state matches AppState::Failure(f) && f.input_text@ == old(self).input_text@
                && f.elapsed == elapsed,
            final(self).input_text == old(self).input_text,
            final(self).same_frame(old(self)),
    {
        self.state = AppState::Failure(
            FailureState { input_text: self.input_text.clone(), elapsed },
        );
    }

    /// Asks the user to confirm a plaintext candidate: the confirmation
    /// screen opens with `request`, and the answer will go to
    /// `response_sender`. The animation continues from the Loading (or
    /// confirmation) screen; from another screen it starts afresh.
    pub fn set_human_confirmation(
        &mut self,
        request: HumanConfirmationRequest,
        response_sender: Sender<bool>,
    )
        ensures
            awaiting_confirmation(old(self).state, final(self).state, request, response_sender),
            final(self).input_text == old(self).input_text,
            final(self).same_frame(old(self)),
    {
        let (start_time, current_quote, spinner_frame) = match &self.state {
            AppState::Loading(ls) => (ls.start_time, ls.current_quote, ls.spinner_frame),
            AppState::HumanConfirmation(hc) => (hc.start_time, hc.current_quote, hc.spinner_frame),
            _ => (instant_now(), 0, 0),
        };
        self.state = AppState::HumanConfirmation(
            HumanConfirmationState {
                start_time,
                current_quote,
                spinner_frame,
                request,
                response_sender,
            },
        );
    }

    /// Answers the pending confirmation: `accepted` goes back on the
    /// request's channel (whether or not the other side still listens) and
    /// the Loading screen returns, its animation where it was. Nothing
    /// happens on another screen.
    pub fn respond_to_confirmation(&mut self, accepted: bool)
        ensures
            answered(old(self).state, final(self).state),
            final(self).input_text == old(self).input_text,
            final(self).same_frame(old(self)),
    {
        let loading = match &self.state {
            AppState::HumanConfirmation(hc) => {
                let _ = send_value(&hc.response_sender, accepted);
                LoadingState {
                    start_time: hc.start_time,
                    current_quote: hc.current_quote,
                    spinner_frame: hc.spinner_frame,
                }
            },
            _ => {
                return;
            },
        };
        self.state = AppState::Loading(loading);
    }

    /// Shows the help overlay if hidden, hides it if shown.
    pub fn toggle_help(&mut self)
        ensures
            final(self).show_help == !old(self).show_help,
            final(self).state == old(self).state,
            final(self).input_text == old(self).input_text,
            final(self).should_quit == old(self).should_quit,
            final(self).status_message == old(self).status_message,
            final(self).pending_g == old(self).pending_g,
            final(self).decoder_search == old(self).decoder_search,
            final(self).quick_search == old(self).quick_search,
            final(self).ask_ai == old(self).ask_ai,
    {
        self.show_help = !self.show_help;
    }

    /// Shows `msg` on the status line with `severity`.
    fn show_status(&mut self, msg: String, severity: StatusSeverity)
        ensures
            final(self).status_message matches Some(m) && m.text == msg && m.severity == severity,
            final(self).state == old(self).state,
            final(self).input_text == old(self).input_text,
            final(self).should_quit == old(self).should_quit,
            final(self).show_help == old(self).show_help,
            final(self).pending_g == old(self).pending_g,
            final(self).decoder_search == old(self).decoder_search,
            final(self).quick_search == old(self).quick_search,
            final(self).ask_ai == old(self).ask_ai,
    {
        self.status_message = Some(StatusMessage { text: msg, severity });
    }

    /// Shows an informational message, which clears on a timer.
    pub fn set_status(&mut self, msg: String)
        ensures
            status_set(*old(self), *final(self), msg, StatusSeverity::Info),
    {
        self.show_status(msg, StatusSeverity::Info);
    }

    /// Shows a success message, which clears on a timer.
    pub fn set_status_success(&mut self, msg: String)
        ensures
            status_set(*old(self), *final(self), msg, StatusSeverity::Success),
    {
        self.show_status(msg, StatusSeverity::Success);
    }

    /// Shows an error message, which stays until a key is pressed.
    pub fn set_status_error(&mut self, msg: String)
        ensures
            status_set(*old(self), *final(self), msg, StatusSeverity::Error),
    {
        self.show_status(msg, StatusSeverity::Error);
    }

    /// Shows a warning message, which stays until a key is pressed.
    pub fn set_status_warning(&mut self, msg: String)
        ensures
            status_set(*old(self), *final(self), msg, StatusSeverity::Warning),
    {
        self.show_status(msg, StatusSeverity::Warning);
    }

    /// Clears the status line.
    pub fn clear_status(&mut self)
        ensures
            final(self).status_message is None,
            final(self).state == old(self).state,
            final(self).input_text == old(self).input_text,
            final(self).should_quit == old(self).should_quit,
            final(self).show_help == old(self).show_help,
            final(self).pending_g == old(self).pending_g,
            final(self).decoder_search == old(self).decoder_search,
            final(self).quick_search == old(self).quick_search,
            final(self).ask_ai == old(self).ask_ai,
    {
        self.status_message = None;
    }

    /// A key was pressed: a warning or error on the status line is cleared;
    /// an informational or success message stays (it clears on its timer).
    pub fn acknowledge_status(&mut self)
        ensures
            final(self).status_message == cleared_status(old(self).status_message),
            final(self).state == old(self).state,
            final(self).input_text == old(self).input_text,
            final(self).should_quit == old(self).should_quit,
            final(self).show_help == old(self).show_help,
            final(self).pending_g == old(self).pending_g,
            final(self).decoder_search == old(self).decoder_search,
            final(self).quick_search == old(self).quick_search,
            final(self).ask_ai == old(self).ask_ai,
    {
        let current = self.status_message.take();
        self.status_message = acknowledge_status(current);
    }

    /// Returns to the Home screen with an empty input and `history` (the
    /// stored decodes, read afresh) listed; the input text and the status
    /// line are cleared.
    pub fn return_to_home(&mut self, history: Vec<HistoryEntry>)
        ensures
            final(self).state matches AppState::Home(h) && fresh_home(h, history@),
            final(self).input_text@ == Seq::<char>::empty(),
            final(self).status_message is None,
            final(self).should_quit == old(self).should_quit,
            final(self).show_help == old(self).show_help,
            final(self).pending_g == old(self).pending_g,
            final(self).decoder_search == old(self).decoder_search,
            final(self).quick_search == old(self).quick_search,
            final(self).ask_ai == old(self).ask_ai,
    {
        self.state = AppState::Home(
            HomeState {
                text_input: MultilineTextInput::new(),
                history,
                selected_history: None,
                history_scroll_offset: 0,
            },
        );
        self.input_text = String::new();
        self.status_message = None;
    }

    /// On the Home screen, lists `history` (the stored decodes, read afresh)
    /// with nothing selected; other screens do not change.
    pub fn refresh_history(&mut self, history: Vec<HistoryEntry>)
        ensures
            match old(self).state {
                AppState::Home(h) => final(self).state matches AppState::Home(n) && {
                    &&& n.text_input == h.text_input
                    &&& n.history@ == history@
                    &&& n.selected_history is None
                    &&& n.history_scroll_offset == 0
                },
                _ => final(self).state == old(self).state,
            },
            final(self).input_text == old(self).input_text,
            final(self).same_frame(old(self)),
    {
        match &mut self.state {
            AppState::Home(home) => {
                home.history = history;
                home.selected_history = None;
                home.history_scroll_offset = 0;
            },
            _ => {},
        }
    }

    /// On the Results screen, selects the next step (wrapping); see
    /// `ResultsState::next_step`. The branches of the new step are loaded
    /// with `load_branches_for_step`. Other screens do not change.
    pub fn next_step(&mut self)
        requires
            old(self).state matches AppState::Results(rs) ==> (rs.result.path@.len() > 0
                ==> rs.selected_step < usize::MAX),
        ensures
            on_results(old(self).state, final(self).state, |a, b| next_step_post(a, b)),
            final(self).input_text == old(self).input_text,
            final(self).same_frame(old(self)),
    {
        match &mut self.state {
            AppState::Results(rs) => rs.next_step(),
            _ => {},
        }
    }

    /// On the Results screen, selects the previous step (wrapping); see
    /// `next_step`.
    pub fn prev_step(&mut self)
        ensures
            on_results(old(self).state, final(self).state, |a, b| prev_step_post(a, b)),
            final(self).input_text == old(self).input_text,
            final(self).same_frame(old(self)),
    {
        match &mut self.state {
            AppState::Results(rs) => rs.prev_step(),
            _ => {},
        }
    }

    /// On the Results screen, selects the first step; see `next_step`.
    pub fn first_step(&mut self)
        ensures
            on_results(old(self).state, final(self).state, |a, b| first_step_post(a, b)),
            final(self).input_text == old(self).input_text,
            final(self).same_frame(old(self)),
    {
        match &mut self.state {
            AppState::Results(rs) => rs.first_step(),
            _ => {},
        }
    }

    /// On the Results screen, selects the last step; see `next_step`.
    pub fn last_step(&mut self)
        ensures
            on_results(old(self).state, final(self).state, |a, b| last_step_post(a, b)),
            final(self).input_text == old(self).input_text,
            final(self).same_frame(old(self)),
    {
        match &mut self.state {
            AppState::Results(rs) => rs.last_step(),
            _ => {},
        }
    }

    /// The selected step on the Results screen, if it exists.
    pub fn get_current_step(&self) -> (r: Option<&CrackResult>)
        ensures
            r == (match self.state {
                AppState::Results(rs) => if rs.selected_step < rs.result.path@.len() {
                    Some(&rs.result.path@[rs.selected_step as int])
                } else {
                    None
                },
                _ => None,
            }),
    {
        match &self.state {
            AppState::Results(rs) => rs.get_current_step(),
            _ => None,
        }
    }

    /// On the Results screen, highlights the next branch of the selected
    /// step; see `ResultsState::next_branch`.
    pub fn next_branch(&mut self)
        requires
            old(self).state matches AppState::Results(rs) ==> (rs.current_branches@.len() > 0
                ==> rs.level_visible_rows > 0),
        ensures
            on_results(old(self).state, final(self).state, |a, b| next_branch_post(a, b)),
            final(self).input_text == old(self).input_text,
            final(self).same_frame(old(self)),
    {
        match &mut self.state {
            AppState::Results(rs) => rs.next_branch(),
            _ => {},
        }
    }

    /// On the Results screen, highlights the previous branch of the selected
    /// step; see `ResultsState::prev_branch`.
    pub fn prev_branch(&mut self)
        ensures
            on_results(old(self).state, final(self).state, |a, b| prev_branch_post(a, b)),
            final(self).input_text == old(self).input_text,
            final(self).same_frame(old(self)),
    {
        match &mut self.state {
            AppState::Results(rs) => rs.prev_branch(),
            _ => {},
        }
    }

    /// On the Results screen, lists `branches` (what storage holds for the
    /// selected step) when the result is stored, none otherwise, with none
    /// highlighted and the list scrolled to the top.
    pub fn load_branches_for_step(&mut self, branches: Vec<BranchSummary>)
        ensures
            on_results(
                old(self).state,
                final(self).state,
                |a: ResultsState, b: ResultsState| branches_loaded(a, b, branches@),
            ),
            final(self).input_text == old(self).input_text,
            final(self).same_frame(old(self)),
    {
        match &mut self.state {
            AppState::Results(rs) => {
                rs.current_branches = match rs.cache_id {
                    Some(_) => branches,
                    None => Vec::new(),
                };
                rs.highlighted_branch = None;
                rs.branch_scroll_offset = 0;
            },
            _ => {},
        }
    }

    /// The highlighted branch on the Results screen, if any.
    pub fn get_highlighted_branch(&self) -> (r: Option<&BranchSummary>)
        ensures
            r == (match self.state {
                AppState::Results(rs) => match rs.highlighted_branch {
                    Some(i) => if i < rs.current_branches@.len() {
                        Some(&rs.current_branches@[i as int])
                    } else {
                        None
                    },
                    None => None,
                },
                _ => None,
            }),
    {
        match &self.state {
            AppState::Results(rs) => rs.get_highlighted_branch(),
            _ => None,
        }
    }

    /// Whether the Results screen is shown and its selected step has branches.
    pub fn has_branches(&self) -> (r: bool)
        ensures
            r == (self.state matches AppState::Results(rs) && rs.current_branches@.len() > 0),
    {
        match &self.state {
            AppState::Results(rs) => rs.has_branches(),
            _ => false,
        }
    }

    /// The context for a branch at the selected step of the Results screen;
    /// see `ResultsState::get_branch_context`. `None` on another screen.
    pub fn get_branch_context(&self) -> (r: Option<BranchContext>)
        ensures
            match self.state {
                AppState::Results(rs) => branch_context_of(rs, r),
                _ => r is None,
            },
    {
        match &self.state {
            AppState::Results(rs) => rs.get_branch_context(),
            _ => None,
        }
    }

    /// On the Results screen of a stored result, replaces the branch tree
    /// with `tree_branches` (read afresh from storage); otherwise nothing
    /// changes.
    pub fn refresh_tree_branches(&mut self, tree_branches: HashMap<usize, Vec<TreeNode>>)
        ensures
            on_results(
                old(self).state,
                final(self).state,
                |a: ResultsState, b: ResultsState|
                    if a.cache_id is Some {
                        b == ResultsState { tree_branches: tree_branches, ..a }
                    } else {
                        b == a
                    },
            ),
            final(self).input_text == old(self).input_text,
            final(self).same_frame(old(self)),
    {
        match &mut self.state {
            AppState::Results(rs) => {
                if rs.cache_id.is_some() {
                    rs.tree_branches = tree_branches;
                }
            },
            _ => {},
        }
    }

    /// On the Results screen, moves the focus to the next panel; see
    /// `ResultsState::switch_focus`.
    pub fn switch_focus(&mut self)
        ensures
            on_results(old(self).state, final(self).state, |a, b| switch_focus_post(a, b)),
            final(self).input_text == old(self).input_text,
            final(self).same_frame(old(self)),
    {
        match &mut self.state {
            AppState::Results(rs) => rs.switch_focus(),
            _ => {},
        }
    }

    /// On the Results screen, shows `explanation` for the selected step and
    /// keeps it for that step; the caller stores it too. Other screens do not
    /// change.
    pub fn set_ai_explanation(&mut self, explanation: String)
        ensures
            on_results(
                old(self).state,
                final(self).state,
                |a: ResultsState, b: ResultsState| explanation_set(a, b, explanation@),
            ),
            final(self).input_text == old(self).input_text,
            final(self).same_frame(old(self)),
    {
        match &mut self.state {
            AppState::Results(rs) => {
                let step = rs.selected_step;
                let copy = explanation.clone();
                rs.ai_explanation_cache.insert(step, copy);
                rs.ai_explanation = Some(explanation);
                rs.ai_loading = false;
            },
            _ => {},
        }
    }

    /// On the Results screen, hides the explanation and clears its loading
    /// flag.
    pub fn clear_ai_explanation(&mut self)
        ensures
            on_results(
                old(self).state,
                final(self).state,
                |a: ResultsState, b: ResultsState|
                    b == ResultsState { ai_explanation: None, ai_loading: false, ..a },
            ),
            final(self).input_text == old(self).input_text,
            final(self).same_frame(old(self)),
    {
        match &mut self.state {
            AppState::Results(rs) => {
                rs.ai_explanation = None;
                rs.ai_loading = false;
            },
            _ => {},
        }
    }

    /// On the Results screen, shows the kept explanation of the selected
    /// step, or none.
    pub fn load_cached_ai_explanation(&mut self)
        ensures
            on_results(
                old(self).state,
                final(self).state,
                |a: ResultsState, b: ResultsState|
                    {
                        &&& opt_str(b.ai_explanation) == cached_explanation(
                            a.ai_explanation_cache@,
                            a.selected_step,
                        )
                        &&& b == ResultsState { ai_explanation: b.ai_explanation, ..a }
                    },
            ),
            final(self).input_text == old(self).input_text,
            final(self).same_frame(old(self)),
    {
        match &mut self.state {
            AppState::Results(rs) => {
                rs.ai_explanation = lookup_explanation(&rs.ai_explanation_cache, rs.selected_step);
            },
            _ => {},
        }
    }

    /// On the Results screen, opens the branch mode prompt for the selected
    /// step, full search chosen, when the step has an output to branch from;
    /// otherwise nothing changes.
    pub fn open_branch_prompt(&mut self)
        ensures
            branch_prompt_opened(old(self).state, final(self).state),
            final(self).input_text == old(self).input_text,
            final(self).same_frame(old(self)),
    {
        match self.get_branch_context() {
            Some(context) => {
                self.state = AppState::BranchModePrompt(
                    BranchModePromptState {
                        selected_mode: BranchMode::FullSearch,
                        branch_context: context,
                    },
                );
            },
            None => {},
        }
    }

    /// Leaves the branch mode prompt for the Results screen of the result it
    /// branches from: `parent` is that result as storage gives it back (its
    /// cache entry is the prompt's parent), `branches` what storage holds for
    /// the branch step. The step the prompt branched from is selected and its
    /// branches listed; the input becomes the parent's encoded text. Nothing
    /// changes when the prompt has no parent entry or storage gave nothing.
    pub fn close_branch_mode_prompt(
        &mut self,
        parent: Option<StoredResult>,
        branches: Vec<BranchSummary>,
    )
        ensures
            match (old(self).state, parent) {
                (AppState::BranchModePrompt(p), Some(stored)) => match p.branch_context.parent_cache_id {
                    Some(pid) => {
                        &&& final(self).input_text == stored.encoded_text
                        &&& final(self).state matches AppState::Results(rs) && {
                            &&& rs.result == stored.result
                            &&& rs.selected_step == p.branch_context.branch_step
                            &&& rs.scroll_offset == 0
                            &&& rs.cache_id == Some(pid)
                            &&& rs.branch_path.stack@.len() == 0
                            &&& rs.current_branches@ == branches@
                            &&& rs.highlighted_branch is None
                            &&& rs.branch_scroll_offset == 0
                            &&& rs.focus == ResultsFocus::TreeView
                            &&& rs.tree_branches == stored.tree_branches
                            &&& rs.level_visible_rows == 10
                            &&& rs.ai_explanation is None
                            &&& !rs.ai_loading
                            &&& rs.ai_explanation_cache == stored.ai_explanation_cache
                        }
                    },
                    None => final(self).state == old(self).state && final(self).input_text
                        == old(self).input_text,
                },
                _ => final(self).state == old(self).state && final(self).input_text == old(
                    self,
                ).input_text,
            },
            final(self).same_frame(old(self)),
    {
        let (parent_id, branch_step) = match &self.state {
            AppState::BranchModePrompt(bmp) => match bmp.branch_context.parent_cache_id {
                Some(pid) => (pid, bmp.branch_context.branch_step),
                None => {
                    return;
                },
            },
            _ => {
                return;
            },
        };
        match parent {
            Some(stored) => {
                self.input_text = stored.encoded_text;
                let mut rs = ResultsState::new_with_cache_id(
                    stored.result,
                    parent_id,
                    stored.tree_branches,
                    stored.ai_explanation_cache,
                );
                rs.selected_step = branch_step;
                rs.current_branches = branches;
                self.state = AppState::Results(rs);
            },
            None => {},
        }
    }

    /// On the Results screen, opens the decoder search for the selected
    /// step, listing every decoder of `all_decoders` with an empty query, when
    /// the step has an output to branch from; otherwise nothing changes.
    pub fn open_decoder_search(&mut self, all_decoders: Vec<&'static str>)
        ensures
            decoder_search_opened(old(self).state, old(self).decoder_search, final(self).decoder_search, all_decoders),
            final(self).state == old(self).state,
            final(self).input_text == old(self).input_text,
            final(self).should_quit == old(self).should_quit,
            final(self).show_help == old(self).show_help,
            final(self).status_message == old(self).status_message,
            final(self).pending_g == old(self).pending_g,
            final(self).quick_search == old(self).quick_search,
            final(self).ask_ai == old(self).ask_ai,
    {
        match self.get_branch_context() {
            Some(context) => {
                let filtered = all_decoders.clone();
                self.decoder_search = Some(
                    DecoderSearchOverlay {
                        text_input: TextInput::new(),
                        all_decoders,
                        filtered_decoders: filtered,
                        selected_index: 0,
                        branch_context: context,
                    },
                );
            },
            None => {},
        }
    }

    /// Closes the decoder search.
    pub fn close_decoder_search(&mut self)
        ensures
            final(self).decoder_search is None,
            final(self).state == old(self).state,
            final(self).input_text == old(self).input_text,
            final(self).should_quit == old(self).should_quit,
            final(self).show_help == old(self).show_help,
            final(self).status_message == old(self).status_message,
            final(self).pending_g == old(self).pending_g,
            final(self).quick_search == old(self).quick_search,
            final(self).ask_ai == old(self).ask_ai,
    {
        self.decoder_search = None;
    }

    /// Whether the decoder search is open.
    pub fn is_decoder_search_active(&self) -> (r: bool)
        ensures
            r == self.decoder_search is Some,
    {
        self.decoder_search.is_some()
    }

    /// On the Results screen, opens the web search list for the selected
    /// step's first output with the configured `Name=URL` entries of
    /// `quick_searches`; see `input::open_quick_search`. When no entry is
    /// usable the status line says so instead; when the step has no output
    /// nothing changes.
    pub fn open_quick_search(&mut self, quick_searches: &Vec<String>)
        ensures
            quick_search_opened(*old(self), *final(self), quick_searches@),
            final(self).state == old(self).state,
            final(self).input_text == old(self).input_text,
            final(self).should_quit == old(self).should_quit,
            final(self).show_help == old(self).show_help,
            final(self).pending_g == old(self).pending_g,
            final(self).decoder_search == old(self).decoder_search,
            final(self).ask_ai == old(self).ask_ai,
    {
        let opened = match &self.state {
            AppState::Results(rs) => open_quick_search(rs, quick_searches),
            _ => {
                return;
            },
        };
        match opened {
            QuickSearchOpen::NoOutput => {},
            QuickSearchOpen::NoEntries(msg) => {
                self.status_message = Some(StatusMessage { text: msg, severity: StatusSeverity::Info });
            },
            QuickSearchOpen::Open(overlay) => {
                self.quick_search = Some(overlay);
            },
        }
    }

    /// Closes the web search list.
    pub fn close_quick_search(&mut self)
        ensures
            final(self).quick_search is None,
            final(self).state == old(self).state,
            final(self).input_text == old(self).input_text,
            final(self).should_quit == old(self).should_quit,
            final(self).show_help == old(self).show_help,
            final(self).status_message == old(self).status_message,
            final(self).pending_g == old(self).pending_g,
            final(self).decoder_search == old(self).decoder_search,
            final(self).ask_ai == old(self).ask_ai,
    {
        self.quick_search = None;
    }

    /// Whether the web search list is open.
    pub fn is_quick_search_active(&self) -> (r: bool)
        ensures
            r == self.quick_search is Some,
    {
        self.quick_search.is_some()
    }

    /// On the Results screen, opens the question box about the selected
    /// step: an empty question, the step's decoder, description, link and
    /// key, and its input and first output cut to 500 characters. Nothing
    /// changes when the step does not exist.
    pub fn open_ask_ai(&mut self)
        ensures
            ask_ai_opened_on(old(self).state, old(self).ask_ai, final(self).ask_ai),
            final(self).state == old(self).state,
            final(self).input_text == old(self).input_text,
            final(self).should_quit == old(self).should_quit,
            final(self).show_help == old(self).show_help,
            final(self).status_message == old(self).status_message,
            final(self).pending_g == old(self).pending_g,
            final(self).decoder_search == old(self).decoder_search,
            final(self).quick_search == old(self).quick_search,
    {
        let overlay = match &self.state {
            AppState::Results(rs) => {
                let sel = rs.selected_step;
                if sel >= rs.result.path.len() {
                    return;
                }
                let step = &rs.result.path[sel];
                let output = match &step.unencrypted_text {
                    Some(texts) => if texts.len() > 0 {
                        texts[0].clone()
                    } else {
                        String::new()
                    },
                    None => String::new(),
                };
                AskAiOverlay {
                    text_input: MultilineTextInput::new(),
                    decoder_name: step.decoder.clone(),
                    step_input: take_chars(step.encrypted_text.as_str(), ASK_AI_TEXT_LIMIT),
                    step_output: take_chars(output.as_str(), ASK_AI_TEXT_LIMIT),
                    step_key: clone_opt_string(&step.key),
                    step_description: step.description.clone(),
                    step_link: step.link.clone(),
                    response: None,
                    loading: false,
                    error: None,
                    response_scroll: 0,
                }
            },
            _ => {
                return;
            },
        };
        self.ask_ai = Some(overlay);
    }

    /// Closes the question box.
    pub fn close_ask_ai(&mut self)
        ensures
            final(self).ask_ai is None,
            final(self).state == old(self).state,
            final(self).input_text == old(self).input_text,
            final(self).should_quit == old(self).should_quit,
            final(self).show_help == old(self).show_help,
            final(self).status_message == old(self).status_message,
            final(self).pending_g == old(self).pending_g,
            final(self).decoder_search == old(self).decoder_search,
            final(self).quick_search == old(self).quick_search,
    {
        self.ask_ai = None;
    }

    /// Whether the question box is open.
    pub fn is_ask_ai_active(&self) -> (r: bool)
        ensures
            r == self.ask_ai is Some,
    {
        self.ask_ai.is_some()
    }

    /// Marks the open question box as waiting for an answer, clearing any
    /// error.
    pub fn set_ask_ai_loading(&mut self)
        ensures
            match old(self).ask_ai {
                Some(o) => final(self).ask_ai == Some(AskAiOverlay { loading: true, error: None, ..o }),
                None => final(self).ask_ai is None,
            },
            final(self).state == old(self).state,
            final(self).input_text == old(self).input_text,
            final(self).should_quit == old(self).should_quit,
            final(self).show_help == old(self).show_help,
            final(self).status_message == old(self).status_message,
            final(self).pending_g == old(self).pending_g,
            final(self).decoder_search == old(self).decoder_search,
            final(self).quick_search == old(self).quick_search,
    {
        match &mut self.ask_ai {
            Some(overlay) => {
                overlay.loading = true;
                overlay.error = None;
            },
            None => {},
        }
    }

    /// Shows `response` in the open question box, scrolled to the top; the
    /// loading flag and any error are cleared.
    pub fn set_ask_ai_response(&mut self, response: String)
        ensures
            match old(self).ask_ai {
                Some(o) => final(self).ask_ai == Some(
                    AskAiOverlay {
                        response: Some(response),
                        loading: false,
                        error: None,
                        response_scroll: 0,
                        ..o
                    },
                ),
                None => final(self).ask_ai is None,
            },
            final(self).state == old(self).state,
            final(self).input_text == old(self).input_text,
            final(self).should_quit == old(self).should_quit,
            final(self).show_help == old(self).show_help,
            final(self).status_message == old(self).status_message,
            final(self).pending_g == old(self).pending_g,
            final(self).decoder_search == old(self).decoder_search,
            final(self).quick_search == old(self).quick_search,
    {
        match &mut self.ask_ai {
            Some(overlay) => {
                overlay.response = Some(response);
                overlay.loading = false;
                overlay.error = None;
                overlay.response_scroll = 0;
            },
            None => {},
        }
    }

    /// Shows `error` in the open question box and clears the loading flag.
    pub fn set_ask_ai_error(&mut self, error: String)
        ensures
            match old(self).ask_ai {
                Some(o) => final(self).ask_ai == Some(
                    AskAiOverlay { error: Some(error), loading: false, ..o },
                ),
                None => final(self).ask_ai is None,
            },
            final(self).state == old(self).state,
            final(self).input_text == old(self).input_text,
            final(self).should_quit == old(self).should_quit,
            final(self).show_help == old(self).show_help,
            final(self).status_message == old(self).status_message,
            final(self).pending_g == old(self).pending_g,
            final(self).decoder_search == old(self).decoder_search,
            final(self).quick_search == old(self).quick_search,
    {
        match &mut self.ask_ai {
            Some(overlay) => {
                overlay.error = Some(error);
                overlay.loading = false;
            },
            None => {},
        }
    }

    /// The keybindings the help overlay shows: the Home and Results screens
    /// have their own, the settings screens share the settings bindings, and
    /// the other screens show the loading bindings.
    pub fn help_context(&self) -> (r: HelpContext)
        ensures
            r == help_context_of(self.state),
    {
        match &self.state {
            AppState::Home(_) => HelpContext::Home,
            AppState::Results(_) => HelpContext::Results,
            AppState::Settings(_) | AppState::ListEditor(_) | AppState::WordlistManager(_)
            | AppState::ThemePicker(_) | AppState::ToggleListEditor(_)
            | AppState::SaveConfirmation(_) => HelpContext::Settings,
            AppState::Loading(_) | AppState::HumanConfirmation(_) | AppState::Failure(_)
            | AppState::BranchModePrompt(_) => HelpContext::Loading,
        }
    }

    /// Starts on the Home screen, with `history` (the stored decodes) listed.
    pub fn new_home(history: Vec<HistoryEntry>) -> (r: Self)
        ensures
            r.state matches AppState::Home(h) && fresh_home(h, history@),
            r.input_text@ == Seq::<char>::empty(),
            r.undisturbed(),
    {
        App {
            state: AppState::Home(
                HomeState {
                    text_input: MultilineTextInput::new(),
                    history,
                    selected_history: None,
                    history_scroll_offset: 0,
                },
            ),
            input_text: String::new(),
            should_quit: false,
            show_help: false,
            status_message: None,
            pending_g: false,
            decoder_search: None,
            quick_search: None,
            ask_ai: None,
        }
    }
}

/// Answering a confirmation that was asked for while loading brings back
/// the Loading screen exactly as it was: same start, quote and frame.
pub proof fn lemma_answer_resumes_loading<S>(
    loading: LoadingState,
    asking: AppState<S>,
    answering: AppState<S>,
    request: HumanConfirmationRequest,
    sender: Sender<bool>,
)
    requires
        awaiting_confirmation(AppState::Loading(loading), asking, request, sender),
        answered(asking, answering),
    ensures
        answering == AppState::<S>::Loading(loading),
{
}

/// A key press clears the status line at most once: acknowledging twice is
/// acknowledging once.
pub proof fn lemma_acknowledge_idempotent(status: Option<StatusMessage>)
    ensures
        cleared_status(cleared_status(status)) == cleared_status(status),
{
}

} // verus!
