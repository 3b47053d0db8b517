//! Decisions of the interface's event loop that do not touch the terminal,
//! the database or the background threads: the tick rate, what the
//! application shows when a decode starts or ends, when a branch is entered
//! or left, and when the background work reports back. What these read from
//! storage the caller reads and hands over.

use std::collections::HashMap;
use std::time::{Duration, Instant};

use vstd::prelude::*;

use crate::app_state::{
    ask_ai_opened_on, branch_context_of, branch_prompt_opened, decoder_search_opened,
    explanation_set, fresh_loading, info_status, instant_now, on_results, opened_results,
    first_chars, quick_search_opened, App, AppState, StoredResult,
};
use crate::input::{Action, ExplainStepData, ShowHistoryData};
use crate::spinner::random_quote_index;
use crate::state::{
    clone_opt_string, last_step_index, opt_str, opt_strs, same_context, AskAiOverlay, BranchContext, BranchPath, BranchSummary, CrackResult,
    DecoderResult, LoadingState, ResultsFocus, ResultsState, TreeNode, WordlistFileInfo,
};
use crate::text::{decimal, i64_to_decimal, signed_decimal, u64_to_decimal, utf8_len};
use crate::editors::WordlistManager;
use crate::settings_screens::WordlistManagerState;

verus! {

/// Milliseconds between two interface updates.
pub const TICK_RATE_MS: u64 = 100;

/// The first output of a decoder step, if it has one.
pub open spec fn first_output(r: CrackResult) -> Option<Seq<char>> {
    match opt_strs(r.unencrypted_text) {
        Some(texts) => if texts.len() > 0 {
            Some(texts[0])
        } else {
            None
        },
        None => None,
    }
}

/// The positions and first outputs of the steps of `results` that have an
/// output, in order: the branches a single-layer run creates.
pub open spec fn branch_outputs(results: Seq<CrackResult>) -> Seq<(int, Seq<char>)>
    decreases results.len(),
{
    if results.len() == 0 {
        Seq::empty()
    } else {
        let rest = branch_outputs(results.drop_last());
        match first_output(results.last()) {
            Some(t) => rest.push(((results.len() - 1) as int, t)),
            None => rest,
        }
    }
}

/// The steps of `results` that have an output: each position with its first
/// output.
pub fn branch_candidates(results: &Vec<CrackResult>) -> (r: Vec<(usize, String)>)
    ensures
        r@.len() == branch_outputs(results@).len(),
        forall|k: int|
            0 <= k < r@.len() ==> (#[trigger] r@[k]).0 as int == branch_outputs(results@)[k].0
                && r@[k].1@ == branch_outputs(results@)[k].1,
{
    let mut out: Vec<(usize, String)> = Vec::new();
    let mut i: usize = 0;
    while i < results.len()
        invariant
            i <= results@.len(),
            out@.len() == branch_outputs(results@.take(i as int)).len(),
            forall|k: int|
                0 <= k < out@.len() ==> (#[trigger] out@[k]).0 as int == branch_outputs(
                    results@.take(i as int),
                )[k].0 && out@[k].1@ == branch_outputs(results@.take(i as int))[k].1,
        decreases results@.len() - i,
    {
        proof {
            assert(results@.take(i + 1).drop_last() =~= results@.take(i as int));
            assert(results@.take(i + 1).last() == results@[i as int]);
        }
        match &results[i].unencrypted_text {
            Some(texts) => {
                if texts.len() > 0 {
                    out.push((i, texts[0].clone()));
                }
            },
            None => {},
        }
        i = i + 1;
    }
    proof {
        assert(results@.take(results@.len() as int) =~= results@);
    }
    out
}

/// The status shown after a single-layer run: `results` outputs were found;
/// `context` tells whether the run had a branch context, `parent` whether
/// that context had a parent cache entry, and `created` how many branches
/// were stored.
pub open spec fn single_layer_message(results: nat, context: bool, parent: bool, created: nat) -> Seq<
    char,
> {
    if results == 0 {
        "No decoders produced output for this text."@
    } else if !context {
        "Found "@ + decimal(results) + " decoder outputs but no branch context."@
    } else if !parent {
        "Cannot create branches: no parent cache ID."@
    } else {
        "Created "@ + decimal(created) + " branches from single-layer decoding."@
    }
}

/// The status shown after a single-layer run (see `single_layer_message`).
pub fn single_layer_status(results: usize, context: bool, parent: bool, created: usize) -> (r: String)
    ensures
        r@ == single_layer_message(results as nat, context, parent, created as nat),
{
    if results == 0 {
        String::from_str("No decoders produced output for this text.")
    } else if !context {
        let mut m = String::from_str("Found ");
        m.append(u64_to_decimal(results as u64).as_str());
        m.append(" decoder outputs but no branch context.");
        m
    } else if !parent {
        String::from_str("Cannot create branches: no parent cache ID.")
    } else {
        let mut m = String::from_str("Created ");
        m.append(u64_to_decimal(created as u64).as_str());
        m.append(" branches from single-layer decoding.");
        m
    }
}

/// Opens the Loading screen for a fresh decode and clears the status line;
/// returns the moment the decode starts.
pub fn transition_to_loading<S>(app: &mut App<S>) -> (r: Instant)
    ensures
        final(app).state matches AppState::Loading(l) && fresh_loading(l),
        final(app).status_message is None,
        final(app).input_text == old(app).input_text,
        final(app).same_overlays(old(app)),
{
    app.state = AppState::Loading(
        LoadingState { start_time: instant_now(), current_quote: random_quote_index(), spinner_frame: 0 },
    );
    app.clear_status();
    instant_now()
}

/// The branch path after entering a branch from screen `pre`: from a stored
/// result, its path with (its cache id, its selected step) added; otherwise
/// the main path.
pub open spec fn entered_path<S>(pre: AppState<S>) -> Seq<(i64, usize)> {
    match pre {
        AppState::Results(rs) => match rs.cache_id {
            Some(p) => rs.branch_path.stack@.push((p, rs.selected_step)),
            None => Seq::empty(),
        },
        _ => Seq::empty(),
    }
}

/// The status shown after entering the branch stored as `cache_id`.
pub open spec fn switched_message(cache_id: i64) -> Seq<char> {
    "Switched to branch (cache_id: "@ + signed_decimal(cache_id as int) + ")"@
}

/// Enters the branch stored as `cache_id`: `loaded` is what storage gave
/// back for it, or why it could not. The branch's result is shown from its
/// last step, with the position left behind added to the branch path; the
/// input becomes the branch's encoded text. When loading failed, only the
/// status line changes, to the reason.
pub fn handle_switch_to_branch<S>(app: &mut App<S>, cache_id: i64, loaded: Result<StoredResult, String>)
    ensures
        match loaded {
            Ok(stored) => {
                &&& final(app).input_text == stored.encoded_text
                &&& final(app).state matches AppState::Results(rs) && {
                    &&& opened_results(rs, stored.result, Some(cache_id))
                    &&& rs.branch_path.stack@ == entered_path(old(app).state)
                    &&& rs.tree_branches == stored.tree_branches
                    &&& rs.ai_explanation_cache == stored.ai_explanation_cache
                }
                &&& info_status(final(app).status_message, switched_message(cache_id))
            },
            Err(msg) => {
                &&& final(app).state == old(app).state
                &&& final(app).input_text == old(app).input_text
                &&& info_status(final(app).status_message, msg@)
            },
        },
        final(app).same_overlays(old(app)),
{
    match loaded {
        Ok(stored) => {
            let mut path = BranchPath::new();
            match &mut app.state {
                AppState::Results(rs) => match rs.cache_id {
                    Some(p) => {
                        std::mem::swap(&mut path, &mut rs.branch_path);
                        path.push(p, rs.selected_step);
                    },
                    None => {},
                },
                _ => {},
            }
            app.input_text = stored.encoded_text;
            app.set_result_with_cache_id(
                stored.result,
                cache_id,
                stored.tree_branches,
                stored.ai_explanation_cache,
            );
            match &mut app.state {
                AppState::Results(rs) => {
                    rs.branch_path = path;
                },
                _ => {},
            }
            let mut m = String::from_str("Switched to branch (cache_id: ");
            m.append(i64_to_decimal(cache_id).as_str());
            m.append(")");
            proof {
                reveal_strlit("Switched to branch (cache_id: ");
                reveal_strlit(")");
            }
            app.set_status(m);
        },
        Err(msg) => app.set_status(msg),
    }
}

/// The branch to go back to from screen `state`: the innermost entry of the
/// branch path of the Results screen, if a branch is shown.
pub open spec fn parent_target<S>(state: AppState<S>) -> Option<(i64, usize)> {
    match state {
        AppState::Results(rs) => if rs.branch_path.stack@.len() > 0 {
            Some(rs.branch_path.stack@.last())
        } else {
            None
        },
        _ => None,
    }
}

/// The stored result and step to go back to when leaving the branch shown
/// (see `handle_return_to_parent`); the caller loads them.
pub fn return_to_parent_target<S>(app: &App<S>) -> (r: Option<(i64, usize)>)
    ensures
        r == parent_target(app.state),
{
    match &app.state {
        AppState::Results(rs) => rs.branch_path.current_entry(),
        _ => None,
    }
}

/// Leaves the branch shown on the Results screen for the one it was entered
/// from. `loaded` is what storage gave back for `return_to_parent_target`
/// (the parent's result and the branches of the step it was left at), or
/// why it could not. The parent is shown at that step with its branches
/// listed, the rest of the branch path kept, and the input becomes its
/// encoded text. On the main path the status line says so; when loading
/// failed the innermost entry is still dropped from the branch path and the
/// status line gives the reason. Other screens do not change.
pub fn handle_return_to_parent<S>(
    app: &mut App<S>,
    loaded: Result<(StoredResult, Vec<BranchSummary>), String>,
)
    ensures
        match old(app).state {
            AppState::Results(rs) => if rs.branch_path.stack@.len() == 0 {
                &&& final(app).state == old(app).state
                &&& final(app).input_text == old(app).input_text
                &&& info_status(final(app).status_message, "Already at main path."@)
            } else {
                let (pid, pstep) = rs.branch_path.stack@.last();
                let rest = rs.branch_path.stack@.drop_last();
                match loaded {
                    Ok((stored, branches)) => {
                        &&& final(app).input_text == stored.encoded_text
                        &&& final(app).state matches AppState::Results(n) && {
                            &&& n.result == stored.result
                            &&& n.selected_step == pstep
                            &&& n.scroll_offset == 0
                            &&& n.cache_id == Some(pid)
                            &&& n.branch_path.stack@ == rest
                            &&& n.current_branches@ == branches@
                            &&& n.highlighted_branch is None
                            &&& n.branch_scroll_offset == 0
                            &&& n.focus == ResultsFocus::TreeView
                            &&& n.tree_branches == stored.tree_branches
                            &&& n.level_visible_rows == 10
                            &&& n.ai_explanation is None
                            &&& !n.ai_loading
                            &&& n.ai_explanation_cache == stored.ai_explanation_cache
                        }
                        &&& info_status(final(app).status_message, "Returned to parent branch."@)
                    },
                    Err(msg) => {
                        &&& final(app).state matches AppState::Results(n) && n == ResultsState {
                            branch_path: n.branch_path,
                            ..rs
                        } && n.branch_path.stack@ == rest
                        &&& final(app).input_text == old(app).input_text
                        &&& info_status(final(app).status_message, msg@)
                    },
                }
            },
            _ => {
                &&& final(app).state == old(app).state
                &&& final(app).input_text == old(app).input_text
                &&& final(app).status_message == old(app).status_message
            },
        },
        final(app).same_overlays(old(app)),
{
    let target = match &app.state {
        AppState::Results(rs) => Some(rs.branch_path.current_entry()),
        _ => None,
    };
    match target {
        None => {},
        Some(None) => {
            app.set_status(String::from_str("Already at main path."));
        },
        Some(Some((pid, pstep))) => {
            let mut rest = BranchPath::new();
            match &mut app.state {
                AppState::Results(rs) => {
                    let _ = rs.branch_path.pop();
                    std::mem::swap(&mut rest, &mut rs.branch_path);
                },
                _ => {},
            }
            match loaded {
                Ok((stored, branches)) => {
                    app.input_text = stored.encoded_text;
                    let mut n = ResultsState::new_with_cache_id(
                        stored.result,
                        pid,
                        stored.tree_branches,
                        stored.ai_explanation_cache,
                    );
                    n.selected_step = pstep;
                    n.branch_path = rest;
                    n.current_branches = branches;
                    app.state = AppState::Results(n);
                    app.set_status(String::from_str("Returned to parent branch."));
                },
                Err(msg) => {
                    match &mut app.state {
                        AppState::Results(rs) => std::mem::swap(&mut rest, &mut rs.branch_path),
                        _ => {},
                    }
                    app.set_status(msg);
                },
            }
        },
    }
}

/// Where a finished decode is linked as a branch: when it was stored
/// (`cache_id`) and was started from a branch context with a parent entry,
/// that parent entry and the context's step.
pub fn branch_link_target(pending: &Option<BranchContext>, cache_id: Option<i64>) -> (r: Option<
    (i64, usize),
>)
    ensures
        r == (match (pending, cache_id) {
            (Some(ctx), Some(_)) => match ctx.parent_cache_id {
                Some(p) => Some((p, ctx.branch_step)),
                None => None,
            },
            _ => None,
        }),
{
    match (pending, cache_id) {
        (Some(ctx), Some(_)) => match ctx.parent_cache_id {
            Some(p) => Some((p, ctx.branch_step)),
            None => None,
        },
        _ => None,
    }
}

/// Shows what a finished decode found. A result stored as `cache_id` is
/// shown from its last step with the branch tree, explanations and
/// last-step branches storage holds for it; an unstored result is shown
/// alone; no result opens the Failure screen after `elapsed`. When linking
/// the result as a branch (see `branch_link_target`) failed with
/// `link_error`, the status line warns of it. The pending branch context is
/// used up in every case.
pub fn handle_decode_result<S>(
    app: &mut App<S>,
    outcome: Option<DecoderResult>,
    cache_id: Option<i64>,
    tree_branches: HashMap<usize, Vec<TreeNode>>,
    ai_explanation_cache: HashMap<usize, String>,
    branches: Vec<BranchSummary>,
    link_error: Option<String>,
    pending: &mut Option<BranchContext>,
    elapsed: Duration,
)
    ensures
        *final(pending) is None,
        final(app).input_text == old(app).input_text,
        final(app).same_overlays(old(app)),
        match (outcome, cache_id) {
            (Some(result), Some(cid)) => {
                &&& final(app).state matches AppState::Results(rs) && {
                    &&& rs.result == result
                    &&& rs.selected_step == last_step_index(result.path@.len())
                    &&& rs.scroll_offset == 0
                    &&& rs.cache_id == Some(cid)
                    &&& rs.branch_path.stack@.len() == 0
                    &&& rs.current_branches@ == branches@
                    &&& rs.highlighted_branch is None
                    &&& rs.branch_scroll_offset == 0
                    &&& rs.focus == ResultsFocus::TreeView
                    &&& rs.tree_branches == tree_branches
                    &&& rs.level_visible_rows == 10
                    &&& rs.ai_explanation is None
                    &&& !rs.ai_loading
                    &&& rs.ai_explanation_cache == ai_explanation_cache
                }
                &&& match link_error {
                    Some(e) => info_status(
                        final(app).status_message,
                        "Warning: failed to link branch: "@ + e@,
                    ),
                    None => final(app).status_message == old(app).status_message,
                }
            },
            (Some(result), None) => {
                &&& final(app).state matches AppState::Results(rs) && opened_results(rs, result, None)
                    && rs.branch_path.stack@.len() == 0
                &&& final(app).status_message == old(app).status_message
            },
            (None, _) => {
                &&& final(app).state matches AppState::Failure(f) && f.input_text@ == old(
                    app,
                ).input_text@ && f.elapsed == elapsed
                &&& final(app).status_message == old(app).status_message
            },
        },
{
    *pending = None;
    match outcome {
        Some(result) => match cache_id {
            Some(cid) => {
                match link_error {
                    Some(e) => {
                        let mut m = String::from_str("Warning: failed to link branch: ");
                        m.append(e.as_str());
                        app.set_status(m);
                    },
                    None => {},
                }
                app.set_result_with_cache_id(result, cid, tree_branches, ai_explanation_cache);
                app.load_branches_for_step(branches);
            },
            None => app.set_result(result),
        },
        None => app.set_failure(elapsed),
    }
}

/// After a single-layer run on the branch point of `context` found
/// `result_count` outputs and `created` of them were stored as branches:
/// when the context has a parent entry, the Results screen lists `branches`
/// for its step and shows `tree_branches` (both read afresh from storage);
/// in every case the status line reports the run (see
/// `single_layer_message`).
pub fn handle_single_layer_result<S>(
    app: &mut App<S>,
    result_count: usize,
    context: &Option<BranchContext>,
    created: usize,
    branches: Vec<BranchSummary>,
    tree_branches: HashMap<usize, Vec<TreeNode>>,
)
    ensures
        ({
            let has_parent = context matches Some(c) && c.parent_cache_id is Some;
            &&& info_status(
                final(app).status_message,
                single_layer_message(
                    result_count as nat,
                    context is Some,
                    has_parent,
                    created as nat,
                ),
            )
            &&& if result_count > 0 && has_parent {
                on_results(
                    old(app).state,
                    final(app).state,
                    |a: ResultsState, b: ResultsState|
                        {
                            &&& b.current_branches@ == (if a.cache_id is Some {
                                branches@
                            } else {
                                Seq::empty()
                            })
                            &&& b == ResultsState {
                                current_branches: b.current_branches,
                                highlighted_branch: None,
                                branch_scroll_offset: 0,
                                tree_branches: if a.cache_id is Some {
                                    tree_branches
                                } else {
                                    a.tree_branches
                                },
                                ..a
                            }
                        },
                )
            } else {
                final(app).state == old(app).state
            }
        }),
        final(app).input_text == old(app).input_text,
        final(app).same_overlays(old(app)),
{
    let (has_context, has_parent) = match context {
        Some(c) => (true, c.parent_cache_id.is_some()),
        None => (false, false),
    };
    if result_count > 0 && has_parent {
        app.load_branches_for_step(branches);
        app.refresh_tree_branches(tree_branches);
    }
    app.set_status(single_layer_status(result_count, has_context, has_parent, created));
}

/// The status after an explanation request came back.
pub open spec fn explanation_message(result: Result<String, String>) -> Seq<char> {
    match result {
        Ok(_) => "AI explanation loaded."@,
        Err(e) => "AI explanation failed: "@ + e@,
    }
}

/// An explanation of the selected step came back: shown and kept (see
/// `App::set_ai_explanation`), or on failure the explanation is cleared;
/// the status line says which.
pub fn handle_ai_explanation<S>(app: &mut App<S>, result: Result<String, String>)
    ensures
        match result {
            Ok(e) => on_results(
                old(app).state,
                final(app).state,
                |a: ResultsState, b: ResultsState| explanation_set(a, b, e@),
            ),
            Err(_) => on_results(
                old(app).state,
                final(app).state,
                |a: ResultsState, b: ResultsState|
                    b == ResultsState { ai_explanation: None, ai_loading: false, ..a },
            ),
        },
        info_status(final(app).status_message, explanation_message(result)),
        final(app).input_text == old(app).input_text,
        final(app).same_overlays(old(app)),
{
    match result {
        Ok(explanation) => {
            app.set_ai_explanation(explanation);
            app.set_status(String::from_str("AI explanation loaded."));
        },
        Err(e) => {
            app.clear_ai_explanation();
            let mut m = String::from_str("AI explanation failed: ");
            m.append(e.as_str());
            app.set_status(m);
        },
    }
}

/// An answer to a question came back: shown in the question box with the
/// status line cleared, or on failure the box shows the error and the
/// status line says the question failed.
pub fn handle_ask_ai_response<S>(app: &mut App<S>, result: Result<String, String>)
    ensures
        match result {
            Ok(answer) => {
                &&& final(app).ask_ai == (match old(app).ask_ai {
                    Some(o) => Some(
                        AskAiOverlay {
                            response: Some(answer),
                            loading: false,
                            error: None,
                            response_scroll: 0,
                            ..o
                        },
                    ),
                    None => None,
                })
                &&& final(app).status_message is None
            },
            Err(e) => {
                &&& final(app).ask_ai == (match old(app).ask_ai {
                    Some(o) => Some(AskAiOverlay { error: Some(e), loading: false, ..o }),
                    None => None,
                })
                &&& info_status(final(app).status_message, "AI question failed: "@ + e@)
            },
        },
        final(app).state == old(app).state,
        final(app).input_text == old(app).input_text,
        final(app).should_quit == old(app).should_quit,
        final(app).show_help == old(app).show_help,
        final(app).pending_g == old(app).pending_g,
        final(app).decoder_search == old(app).decoder_search,
        final(app).quick_search == old(app).quick_search,
{
    match result {
        Ok(answer) => {
            app.set_ask_ai_response(answer);
            app.clear_status();
        },
        Err(e) => {
            let mut m = String::from_str("AI question failed: ");
            m.append(e.as_str());
            app.set_ask_ai_error(e);
            app.set_status(m);
        },
    }
}

/// Shows a decode picked from the history: `stored` is what storage gave
/// back for its cache entry `cache_id`. The input becomes its encoded text
/// and the status line says where the result comes from.
pub fn show_history_result<S>(app: &mut App<S>, cache_id: i64, stored: StoredResult)
    ensures
        final(app).input_text == stored.encoded_text,
        final(app).state matches AppState::Results(rs) && {
            &&& opened_results(rs, stored.result, Some(cache_id))
            &&& rs.branch_path.stack@.len() == 0
            &&& rs.tree_branches == stored.tree_branches
            &&& rs.ai_explanation_cache == stored.ai_explanation_cache
        },
        info_status(final(app).status_message, "Showing saved result from history."@),
        final(app).same_overlays(old(app)),
{
    app.input_text = stored.encoded_text;
    app.set_result_with_cache_id(
        stored.result,
        cache_id,
        stored.tree_branches,
        stored.ai_explanation_cache,
    );
    app.set_status(String::from_str("Showing saved result from history."));
}

/// A question about a step, with what the question box knows of the step,
/// for the background job that asks it.
pub struct AskRequest {
    pub question: String,
    pub decoder_name: String,
    pub step_input: String,
    pub step_output: String,
    pub step_key: Option<String>,
    pub step_description: String,
    pub step_link: String,
}

/// What the event loop still has to do for an action, outside this library.
pub enum Effect {
    /// Nothing.
    Done,
    /// Copy the text to the clipboard, then report with
    /// `handle_copy_result`.
    Copy(String),
    /// Decode the text in the background; the decode started at the given
    /// moment.
    StartDecode(String, Instant),
    /// Decode the text in the background as a branch of the given context
    /// (kept until the result arrives); the decode started at the given
    /// moment.
    StartBranchDecode(String, Instant, Option<BranchContext>),
    /// Open the settings panel from the configuration.
    OpenSettings,
    /// Save the settings panel's values and close it.
    SaveSettings,
    /// Read the stored decode back and call `show_history_result`.
    ShowHistory(ShowHistoryData),
    /// Read the branch back and call `handle_switch_to_branch`.
    SwitchToBranch(i64),
    /// Open the address in the browser, then report with
    /// `handle_browser_result`.
    OpenUrl(String),
    /// Read the parent back (see `return_to_parent_target`) and call
    /// `handle_return_to_parent`.
    ReturnToParent,
    /// Run one layer of decoders on the text in the background, for the
    /// given branch context.
    RunSingleLayer(String, Option<BranchContext>),
    /// Run the named decoder (second) on the text (first), for the given
    /// branch context, then call `handle_decoder_result`.
    RunDecoder(String, String, Option<BranchContext>),
    /// Ask for an explanation of the step in the background.
    Explain(ExplainStepData),
    /// Ask the question in the background.
    Ask(AskRequest),
    /// Import the wordlist file at the path, then call
    /// `handle_import_result`.
    ImportWordlist(String),
    /// Delete the stored wordlist file, then call `handle_delete_result`.
    DeleteWordlist(i64),
    /// Stop the decode in progress.
    CancelDecode,
}

/// After a decode of `text` began, taking `pre` to `post`: the input is
/// `text`, the Loading screen is fresh and the status line shows `status`.
pub open spec fn decode_begun<S>(pre: App<S>, post: App<S>, text: Seq<char>, status: Seq<char>) -> bool {
    &&& post.input_text@ == text
    &&& post.state matches AppState::Loading(l) && fresh_loading(l)
    &&& info_status(post.status_message, status)
    &&& post.same_overlays(&pre)
}

/// Only the status line changed from `pre` to `post`, to `status`.
pub open spec fn only_status<S>(pre: App<S>, post: App<S>, status: Seq<char>) -> bool {
    &&& info_status(post.status_message, status)
    &&& post.state == pre.state
    &&& post.input_text == pre.input_text
    &&& post.same_overlays(&pre)
}

/// The branch context of the screen `state`, as `get_branch_context` gives
/// it: on a Results screen, that of its selected step; none elsewhere.
pub open spec fn app_context<S>(state: AppState<S>, c: Option<BranchContext>) -> bool {
    match state {
        AppState::Results(rs) => branch_context_of(rs, c),
        _ => c is None,
    }
}

/// The branch context a single-layer run uses on the screen `state`: the
/// branch prompt's, else that of the selected step.
pub open spec fn single_layer_context<S>(state: AppState<S>, c: Option<BranchContext>) -> bool {
    match state {
        AppState::BranchModePrompt(p) => c matches Some(x) && same_context(x, p.branch_context),
        _ => app_context(state, c),
    }
}

/// Whether `q` asks `question` about the step the question box `o` shows.
pub open spec fn asks_about(q: AskRequest, question: String, o: AskAiOverlay) -> bool {
    &&& q.question == question
    &&& q.decoder_name@ == o.decoder_name@
    &&& q.step_input@ == o.step_input@
    &&& q.step_output@ == o.step_output@
    &&& opt_str(q.step_key) == opt_str(o.step_key)
    &&& q.step_description@ == o.step_description@
    &&& q.step_link@ == o.step_link@
}

/// What handling `action` did to `pre`, giving `post` and leaving `r` to
/// the event loop.
pub open spec fn action_handled<S>(
    pre: App<S>,
    post: App<S>,
    action: Action,
    quick_searches: Seq<String>,
    decoder_names: Vec<&'static str>,
    r: Effect,
) -> bool {
    match action {
        Action::Nothing => post == pre && r is Done,
        Action::CopyToClipboard(t) => post == pre && r == Effect::Copy(t),
        Action::SubmitHomeInput(t) => decode_begun(pre, post, t@, "Decoding..."@) && (r matches Effect::StartDecode(x, _) && x@ == t@),
        Action::RerunFromSelected(t) => decode_begun(pre, post, t@, "Rerunning Ciphey..."@) && (r matches Effect::StartDecode(x, _) && x@ == t@),
        Action::OpenSettings => only_status(pre, post, "Settings opened. Press Esc to close."@) && r is OpenSettings,
        Action::SaveSettings => post == pre && r is SaveSettings,
        Action::ShowHistoryResult(d) => post == pre && r == Effect::ShowHistory(d),
        Action::SwitchToBranch(id) => post == pre && r == Effect::SwitchToBranch(id),
        Action::OpenBranchPrompt => {
            &&& branch_prompt_opened(pre.state, post.state)
            &&& post.input_text == pre.input_text && post.same_frame(&pre)
            &&& r is Done
        },
        Action::OpenDecoderSearch => {
            &&& decoder_search_opened(pre.state, pre.decoder_search, post.decoder_search, decoder_names)
            &&& post == App { decoder_search: post.decoder_search, ..pre }
            &&& r is Done
        },
        Action::OpenQuickSearch => {
            &&& quick_search_opened(pre, post, quick_searches)
            &&& post == App { quick_search: post.quick_search, status_message: post.status_message, ..pre }
            &&& r is Done
        },
        Action::LaunchQuickSearch(u) => post == pre && r == Effect::OpenUrl(u),
        Action::ReturnToParent => post == pre && r is ReturnToParent,
        Action::RunBranchFullSearch(t, ctx) => decode_begun(
            pre,
            post,
            t@,
            "Running full search on branch..."@,
        ) && (r matches Effect::StartBranchDecode(x, _, c) && x@ == t@ && c == ctx),
        Action::RunBranchSingleLayer(t) => only_status(pre, post, "Running single-layer decoders..."@)
            && (r matches Effect::RunSingleLayer(x, c) && x == t && single_layer_context(pre.state, c)),
        Action::RunBranchDecoder(t, name) => post == pre && (r matches Effect::RunDecoder(x, n, c) && x
            == t && n == name && app_context(pre.state, c)),
        Action::ExplainStep(d) => only_status(pre, post, "Loading AI explanation..."@) && r
            == Effect::Explain(d),
        Action::OpenAskAi => {
            &&& ask_ai_opened_on(pre.state, pre.ask_ai, post.ask_ai)
            &&& post == App { ask_ai: post.ask_ai, ..pre }
            &&& r is Done
        },
        Action::SubmitAskAi(q) => {
            &&& info_status(post.status_message, "AI is thinking..."@)
            &&& post == App { ask_ai: post.ask_ai, status_message: post.status_message, ..pre }
            &&& match pre.ask_ai {
                Some(o) => post.ask_ai == Some(AskAiOverlay { loading: true, error: None, ..o })
                    && (r matches Effect::Ask(req) && asks_about(req, q, o)),
                None => post.ask_ai is None && r is Done,
            }
        },
        Action::CloseAskAi => post == App { ask_ai: None, ..pre } && r is Done,
        Action::ImportWordlist(p) => post == pre && r == Effect::ImportWordlist(p),
        Action::DeleteWordlist(id) => post == pre && r == Effect::DeleteWordlist(id),
        Action::CancelDecode => post == pre && r is CancelDecode,
    }
}

/// Starts decoding `text`: it becomes the input, the Loading screen opens
/// afresh and the status line shows `status`; returns the moment the decode
/// starts.
fn begin_decode<S>(app: &mut App<S>, text: &String, status: &str) -> (r: Instant)
    ensures
        decode_begun(*old(app), *final(app), text@, status@),
{
    app.input_text = text.clone();
    let started = transition_to_loading(app);
    app.set_status(status.to_owned());
    started
}

/// Carries out what an action asks of the application and tells the event
/// loop what is left to it (see `action_handled`): decodes are started on
/// the Loading screen, overlays open and close, and the status line says
/// what is under way. `quick_searches` are the configured web searches and
/// `decoder_names` the decoders the decoder search lists.
pub fn handle_action<S>(
    app: &mut App<S>,
    action: Action,
    quick_searches: &Vec<String>,
    decoder_names: Vec<&'static str>,
) -> (r: Effect)
    ensures
        action_handled(*old(app), *final(app), action, quick_searches@, decoder_names, r),
{
    match action {
        Action::Nothing => Effect::Done,
        Action::CopyToClipboard(t) => Effect::Copy(t),
        Action::SubmitHomeInput(t) => {
            let started = begin_decode(app, &t, "Decoding...");
            Effect::StartDecode(t, started)
        },
        Action::RerunFromSelected(t) => {
            let started = begin_decode(app, &t, "Rerunning Ciphey...");
            Effect::StartDecode(t, started)
        },
        Action::OpenSettings => {
            app.set_status(String::from_str("Settings opened. Press Esc to close."));
            Effect::OpenSettings
        },
        Action::SaveSettings => Effect::SaveSettings,
        Action::ShowHistoryResult(d) => Effect::ShowHistory(d),
        Action::SwitchToBranch(id) => Effect::SwitchToBranch(id),
        Action::OpenBranchPrompt => {
            app.open_branch_prompt();
            Effect::Done
        },
        Action::OpenDecoderSearch => {
            app.open_decoder_search(decoder_names);
            Effect::Done
        },
        Action::OpenQuickSearch => {
            app.open_quick_search(quick_searches);
            Effect::Done
        },
        Action::LaunchQuickSearch(u) => Effect::OpenUrl(u),
        Action::ReturnToParent => Effect::ReturnToParent,
        Action::RunBranchFullSearch(t, ctx) => {
            let started = begin_decode(app, &t, "Running full search on branch...");
            Effect::StartBranchDecode(t, started, ctx)
        },
        Action::RunBranchSingleLayer(t) => {
            let ctx = match &app.state {
                AppState::BranchModePrompt(p) => Some(p.branch_context.duplicate()),
                _ => app.get_branch_context(),
            };
            app.set_status(String::from_str("Running single-layer decoders..."));
            Effect::RunSingleLayer(t, ctx)
        },
        Action::RunBranchDecoder(t, name) => {
            let ctx = app.get_branch_context();
            Effect::RunDecoder(t, name, ctx)
        },
        Action::ExplainStep(d) => {
            app.set_status(String::from_str("Loading AI explanation..."));
            Effect::Explain(d)
        },
        Action::OpenAskAi => {
            app.open_ask_ai();
            Effect::Done
        },
        Action::SubmitAskAi(question) => {
            app.set_ask_ai_loading();
            let r = match &app.ask_ai {
                Some(o) => Effect::Ask(
                    AskRequest {
                        question,
                        decoder_name: o.decoder_name.clone(),
                        step_input: o.step_input.clone(),
                        step_output: o.step_output.clone(),
                        step_key: clone_opt_string(&o.step_key),
                        step_description: o.step_description.clone(),
                        step_link: o.step_link.clone(),
                    },
                ),
                None => Effect::Done,
            };
            app.set_status(String::from_str("AI is thinking..."));
            r
        },
        Action::CloseAskAi => {
            app.close_ask_ai();
            Effect::Done
        },
        Action::ImportWordlist(p) => Effect::ImportWordlist(p),
        Action::DeleteWordlist(id) => Effect::DeleteWordlist(id),
        Action::CancelDecode => Effect::CancelDecode,
    }
}

/// The status after a copy to the clipboard.
pub open spec fn copy_message(result: Result<(), String>) -> Seq<char> {
    match result {
        Ok(()) => "Copied to clipboard!"@,
        Err(e) => "Copy failed: "@ + e@,
    }
}

/// Reports a copy to the clipboard on the status line.
pub fn handle_copy_result<S>(app: &mut App<S>, result: Result<(), String>)
    ensures
        only_status(*old(app), *final(app), copy_message(result)),
{
    match result {
        Ok(()) => app.set_status(String::from_str("Copied to clipboard!")),
        Err(e) => {
            let mut m = String::from_str("Copy failed: ");
            m.append(e.as_str());
            app.set_status(m);
        },
    }
}

/// The status after opening an address in the browser.
pub open spec fn browser_message(result: Result<(), String>) -> Seq<char> {
    match result {
        Ok(()) => "Opened in browser."@,
        Err(e) => "Failed to open browser: "@ + e@,
    }
}

/// Reports opening an address in the browser on the status line.
pub fn handle_browser_result<S>(app: &mut App<S>, result: Result<(), String>)
    ensures
        only_status(*old(app), *final(app), browser_message(result)),
{
    match result {
        Ok(()) => app.set_status(String::from_str("Opened in browser.")),
        Err(e) => {
            let mut m = String::from_str("Failed to open browser: ");
            m.append(e.as_str());
            app.set_status(m);
        },
    }
}

/// Reports the deletion of a stored wordlist file on the status line.
pub fn handle_delete_result<S>(app: &mut App<S>, result: Result<(), String>)
    ensures
        only_status(
            *old(app),
            *final(app),
            match result {
                Ok(()) => "Wordlist deleted."@,
                Err(e) => "Delete failed: "@ + e@,
            },
        ),
{
    match result {
        Ok(()) => app.set_status(String::from_str("Wordlist deleted.")),
        Err(e) => {
            let mut m = String::from_str("Delete failed: ");
            m.append(e.as_str());
            app.set_status(m);
        },
    }
}

/// Reports the import of a wordlist file: an imported file joins the list
/// of the wordlist manager (when it is shown) and the status line says so;
/// a failure is reported.
pub fn handle_import_result<S>(app: &mut App<S>, result: Result<WordlistFileInfo, String>)
    ensures
        match result {
            Ok(info) => {
                &&& info_status(final(app).status_message, "Wordlist imported successfully."@)
                &&& match old(app).state {
                    AppState::WordlistManager(w) => final(app).state matches AppState::WordlistManager(n)
                        && n.manager.wordlist_files@ == w.manager.wordlist_files@.push(info)
                        && n == WordlistManagerState {
                        manager: WordlistManager {
                            wordlist_files: n.manager.wordlist_files,
                            ..w.manager
                        },
                        ..w
                    },
                    _ => final(app).state == old(app).state,
                }
            },
            Err(e) => only_status(*old(app), *final(app), "Import failed: "@ + e@),
        },
        final(app).input_text == old(app).input_text,
        final(app).same_overlays(old(app)),
{
    match result {
        Ok(info) => {
            match &mut app.state {
                AppState::WordlistManager(w) => w.manager.wordlist_files.push(info),
                _ => {},
            }
            app.set_status(String::from_str("Wordlist imported successfully."));
        },
        Err(e) => {
            let mut m = String::from_str("Import failed: ");
            m.append(e.as_str());
            app.set_status(m);
        },
    }
}

/// A decoder output as the status line previews it: over 50 bytes, its
/// first 50 characters and an ellipsis.
pub open spec fn output_preview(s: Seq<char>) -> Seq<char> {
    if utf8_len(s) > 50 {
        first_chars(s, 50) + "..."@
    } else {
        s
    }
}

/// The status after running the decoder `name` on a branch point:
/// `outcome` is `None` when it could not decode the text, else its first
/// output if it has one; `saved` the branch it was stored as, if it was.
pub open spec fn decoder_message(name: Seq<char>, outcome: Option<Option<String>>, saved: Option<i64>) -> Option<Seq<char>> {
    match outcome {
        None => Some(name + " could not decode this text."@),
        Some(None) => None,
        Some(Some(out)) => Some(
            match saved {
                Some(id) => name + " decoded to: "@ + output_preview(out@) + " (saved as branch #"@
                    + signed_decimal(id as int) + ")"@,
                None => name + " decoded to: "@ + output_preview(out@),
            },
        ),
    }
}

/// The first 50 characters of `s` and an ellipsis when it is over 50
/// bytes, else `s`.
fn preview_output(s: &str) -> (r: String)
    ensures
        r@ == output_preview(s@),
{
    let n = s.as_bytes().len();
    if n > 50 {
        let mut p: String = if s.unicode_len() > 50 {
            let cut = s.substring_char(0, 50).to_owned();
            proof {
                assert(cut@ =~= s@.take(50));
            }
            cut
        } else {
            s.to_owned()
        };
        let ghost before = p@;
        p.append("...");
        proof {
            reveal_strlit("...");
            assert(before == first_chars(s@, 50));
        }
        p
    } else {
        s.to_owned()
    }
}

/// Reports running the decoder `name` on a branch point (see
/// `decoder_message`). When the output was stored as branch `saved`, the
/// Results screen lists `branches` for its step and shows `tree_branches`
/// (both read afresh from storage).
pub fn handle_decoder_result<S>(
    app: &mut App<S>,
    name: &str,
    outcome: Option<Option<String>>,
    saved: Option<i64>,
    branches: Vec<BranchSummary>,
    tree_branches: HashMap<usize, Vec<TreeNode>>,
)
    ensures
        match decoder_message(name@, outcome, saved) {
            Some(m) => info_status(final(app).status_message, m),
            None => final(app).status_message == old(app).status_message,
        },
        (outcome matches Some(Some(_)) && saved is Some) ==> on_results(
            old(app).state,
            final(app).state,
            |a: ResultsState, b: ResultsState|
                {
                    &&& b.current_branches@ == (if a.cache_id is Some {
                        branches@
                    } else {
                        Seq::empty()
                    })
                    &&& b == ResultsState {
                        current_branches: b.current_branches,
                        highlighted_branch: None,
                        branch_scroll_offset: 0,
                        tree_branches: if a.cache_id is Some {
                            tree_branches
                        } else {
                            a.tree_branches
                        },
                        ..a
                    }
                },
        ),
        !(outcome matches Some(Some(_)) && saved is Some) ==> final(app).state == old(app).state,
        final(app).input_text == old(app).input_text,
        final(app).same_overlays(old(app)),
{
    match outcome {
        None => {
            let mut m = name.to_owned();
            m.append(" could not decode this text.");
            app.set_status(m);
        },
        Some(None) => {},
        Some(Some(out)) => {
            let mut m = name.to_owned();
            m.append(" decoded to: ");
            m.append(preview_output(out.as_str()).as_str());
            match saved {
                Some(id) => {
                    app.load_branches_for_step(branches);
                    app.refresh_tree_branches(tree_branches);
                    m.append(" (saved as branch #");
                    m.append(i64_to_decimal(id).as_str());
                    m.append(")");
                },
                None => {},
            }
            app.set_status(m);
        },
    }
}

} // verus!
