//! State of the terminal interface: decoding results, branch navigation,
//! history, overlays, and the per-screen state records.

use std::collections::HashMap;
use std::sync::mpsc::Sender;
use std::time::{Duration, Instant};

use vstd::prelude::*;

use crate::multiline_text_input::MultilineTextInput;
use crate::text::{decimal, preview, preview_spec, string_views, u64_to_decimal};
use crate::text_input::TextInput;

verus! {

broadcast use vstd::std_specs::hash::group_hash_axioms;

/// Declares `std::time::Instant`, the moment a decode started.
#[verifier::external_type_specification]
#[verifier::external_body]
pub struct ExInstant(Instant);

/// Declares `std::sync::mpsc::Sender`, the sending half of a channel.
#[verifier::external_type_specification]
#[verifier::external_body]
#[verifier::reject_recursive_types(T)]
pub struct ExSender<T>(Sender<T>);

// ----------------------------------------------------------------------------
// Decoding results
// ----------------------------------------------------------------------------

/// One step of a decoding path: which decoder ran, on what, and what it produced.
#[derive(Debug, Clone, PartialEq)]
pub struct CrackResult {
    /// Name of the decoder.
    pub decoder: String,
    /// The text the decoder was given.
    pub encrypted_text: String,
    /// The texts the decoder produced, if any.
    pub unencrypted_text: Option<Vec<String>>,
    /// The key the decoder used, if any.
    pub key: Option<String>,
    /// Description of the decoder.
    pub description: String,
    /// Reference link for the decoder.
    pub link: String,
}

/// The character contents of an optional string.
pub open spec fn opt_str(o: Option<String>) -> Option<Seq<char>> {
    match o {
        Some(s) => Some(s@),
        None => None,
    }
}

/// The character contents of an optional list of strings.
pub open spec fn opt_strs(o: Option<Vec<String>>) -> Option<Seq<Seq<char>>> {
    match o {
        Some(v) => Some(string_views(v@)),
        None => None,
    }
}

/// Copies an optional string.
pub fn clone_opt_string(o: &Option<String>) -> (r: Option<String>)
    ensures
        opt_str(r) == opt_str(*o),
{
    match o {
        Some(s) => Some(s.clone()),
        None => None,
    }
}

/// Copies a list of strings.
pub fn clone_strings(v: &Vec<String>) -> (r: Vec<String>)
    ensures
        string_views(r@) == string_views(v@),
{
    let mut r: Vec<String> = Vec::new();
    let n = v.len();
    let mut i: usize = 0;
    while i < n
        invariant
            n == v@.len(),
            i <= n,
            string_views(r@) == string_views(v@.take(i as int)),
        decreases n - i,
    {
        let ghost prev = r@;
        let c = v[i].clone();
        r.push(c);
        proof {
            assert(v@.take(i + 1) =~= v@.take(i as int).push(v@[i as int]));
            assert(string_views(prev.push(c)) =~= string_views(prev).push(c@));
            assert(string_views(v@.take(i as int).push(v@[i as int])) =~= string_views(
                v@.take(i as int),
            ).push(v@[i as int]@));
        }
        i = i + 1;
    }
    proof {
        assert(v@.take(n as int) =~= v@);
    }
    r
}

impl View for CrackResult {
    type V = (Seq<char>, Seq<char>, Option<Seq<Seq<char>>>, Option<Seq<char>>, Seq<char>, Seq<char>);

    open spec fn view(&self) -> Self::V {
        (
            self.decoder@,
            self.encrypted_text@,
            opt_strs(self.unencrypted_text),
            opt_str(self.key),
            self.description@,
            self.link@,
        )
    }
}

impl CrackResult {
    /// A copy with the same contents.
    pub fn duplicate(&self) -> (r: Self)
        ensures
            r@ == self@,
    {
        let unencrypted_text = match &self.unencrypted_text {
            Some(v) => Some(clone_strings(v)),
            None => None,
        };
        CrackResult {
            decoder: self.decoder.clone(),
            encrypted_text: self.encrypted_text.clone(),
            unencrypted_text,
            key: clone_opt_string(&self.key),
            description: self.description.clone(),
            link: self.link.clone(),
        }
    }
}

/// The contents of a sequence of decoding steps.
pub open spec fn path_view(p: Seq<CrackResult>) -> Seq<<CrackResult as View>::V> {
    p.map_values(|c: CrackResult| c@)
}

/// Copies the steps `path[from..to]`.
pub fn copy_steps(path: &Vec<CrackResult>, from: usize, to: usize) -> (r: Vec<CrackResult>)
    requires
        from <= to <= path@.len(),
    ensures
        path_view(r@) == path_view(path@.subrange(from as int, to as int)),
{
    let mut r: Vec<CrackResult> = Vec::new();
    let mut i: usize = from;
    while i < to
        invariant
            from <= i <= to <= path@.len(),
            path_view(r@) == path_view(path@.subrange(from as int, i as int)),
        decreases to - i,
    {
        let ghost prev = r@;
        let c = path[i].duplicate();
        r.push(c);
        proof {
            let a = path@.subrange(from as int, i as int);
            assert(path@.subrange(from as int, i + 1) =~= a.push(path@[i as int]));
            assert(path_view(prev.push(c)) =~= path_view(prev).push(c@));
            assert(path_view(a.push(path@[i as int])) =~= path_view(a).push(path@[i as int]@));
        }
        i = i + 1;
    }
    r
}

/// A successful decoding: the plaintexts and the path of steps that led there.
#[derive(Debug, Clone)]
pub struct DecoderResult {
    /// The decoded texts.
    pub text: Vec<String>,
    /// The decoding steps, in order.
    pub path: Vec<CrackResult>,
}

impl View for DecoderResult {
    type V = (Seq<Seq<char>>, Seq<<CrackResult as View>::V>);

    open spec fn view(&self) -> Self::V {
        (string_views(self.text@), path_view(self.path@))
    }
}

impl DecoderResult {
    /// A copy with the same contents.
    pub fn duplicate(&self) -> (r: Self)
        ensures
            r@ == self@,
    {
        let path = copy_steps(&self.path, 0, self.path.len());
        proof {
            assert(self.path@.subrange(0, self.path@.len() as int) =~= self.path@);
        }
        DecoderResult { text: clone_strings(&self.text), path }
    }
}

/// Result of a plaintext checker.
#[derive(Debug, Clone)]
pub struct CheckResult {
    /// Whether the checker identified plaintext.
    pub is_identified: bool,
    /// The candidate text.
    pub text: String,
    /// Why the text may be plaintext.
    pub description: String,
    /// Name of the checker.
    pub checker_name: &'static str,
    /// Description of the checker.
    pub checker_description: &'static str,
    /// Reference link for the checker.
    pub link: &'static str,
}

/// A branch created from a step, as listed for that step.
#[derive(Debug, Clone)]
pub struct BranchSummary {
    /// Cache entry of the branch.
    pub cache_id: i64,
    /// First decoder of the branch.
    pub decoder_name: String,
    /// Whether the branch reached a plaintext.
    pub successful: bool,
    /// Short preview of the branch's result.
    pub text_preview: String,
}

/// A node of the branch tree shown above the results.
#[derive(Debug, Clone)]
pub struct TreeNode {
    /// First decoder of the branch.
    pub decoder_name: String,
    /// Whether the branch has branches of its own.
    pub has_children: bool,
    /// Whether the branch reached a plaintext.
    pub successful: bool,
    /// Cache entry of the branch.
    pub cache_id: Option<i64>,
    /// Short preview of the branch's result.
    pub text_preview: String,
}

/// A stored decode attempt, as read back from the cache.
#[derive(Debug, Clone)]
pub struct CacheRow {
    /// Row ID.
    pub id: i64,
    /// The encoded input.
    pub encoded_text: String,
    /// The decoded output.
    pub decoded_text: String,
    /// The decoder path, one JSON string per step.
    pub path: Vec<String>,
    /// Whether the decode succeeded.
    pub successful: bool,
    /// When the decode ran.
    pub timestamp: String,
}

// ----------------------------------------------------------------------------
// Shared helper types
// ----------------------------------------------------------------------------

/// A request for human confirmation of a potential plaintext.
#[derive(Debug, Clone)]
pub struct HumanConfirmationRequest {
    /// The potential plaintext text to confirm.
    pub text: String,
    /// Description of why this might be plaintext.
    pub description: String,
    /// Name of the checker that found this candidate.
    pub checker_name: String,
}

impl HumanConfirmationRequest {
    /// Builds a request from a checker's result.
    pub fn from_check_result(check_result: &CheckResult) -> (r: Self)
        ensures
            r.text@ == check_result.text@,
            r.description@ == check_result.description@,
            r.checker_name@ == check_result.checker_name@,
    {
        HumanConfirmationRequest {
            text: check_result.text.clone(),
            description: check_result.description.clone(),
            checker_name: check_result.checker_name.to_owned(),
        }
    }
}

impl<'a> From<&'a CheckResult> for HumanConfirmationRequest {
    fn from(check_result: &'a CheckResult) -> (r: Self)
        ensures
            r.text@ == check_result.text@,
            r.description@ == check_result.description@,
            r.checker_name@ == check_result.checker_name@,
    {
        HumanConfirmationRequest::from_check_result(check_result)
    }
}

impl<'a> vstd::std_specs::convert::FromSpecImpl<&'a CheckResult> for HumanConfirmationRequest {
    /// The strings of the request are copies of the checker's, equal by
    /// contents only, so no exact result is claimed for `from`; its own
    /// `ensures` states the contents.
    open spec fn obeys_from_spec() -> bool {
        false
    }

    open spec fn from_spec(v: &'a CheckResult) -> Self {
        HumanConfirmationRequest {
            text: v.text,
            description: v.description,
            checker_name: v.description,
        }
    }
}

/// Context for creating a branch from a step.
#[derive(Debug, Clone, PartialEq)]
pub struct BranchContext {
    /// Text to decode (output of the branch point).
    pub text_to_decode: String,
    /// Path prefix up to and including the branch point.
    pub prefix_path: Vec<CrackResult>,
    /// Parent cache entry, for linking.
    pub parent_cache_id: Option<i64>,
    /// Step index in the parent's path where the branch starts.
    pub branch_step: usize,
}

/// The first `count` parts of the label of a branch path of depth `top`:
/// ` > B<top>`, ` > B<top - 1>`, ..., numbered down toward the branch
/// being viewed.
pub open spec fn branch_parts(top: nat, count: nat) -> Seq<char>
    decreases count,
{
    if count == 0 {
        Seq::empty()
    } else {
        branch_parts(top, (count - 1) as nat) + seq![' ', '>', ' ', 'B'] + decimal(
            (top - count + 1) as nat,
        )
    }
}

/// The label of a branch path of the given depth: `Main`, then ` > B<depth>`
/// down to ` > B1`, so that depth 2 reads `Main > B2 > B1`.
pub open spec fn branch_label(depth: nat) -> Seq<char> {
    seq!['M', 'a', 'i', 'n'] + branch_parts(depth, depth)
}

/// Whether two branch contexts say the same: text, path, parent and step.
pub open spec fn same_context(a: BranchContext, b: BranchContext) -> bool {
    &&& a.text_to_decode@ == b.text_to_decode@
    &&& path_view(a.prefix_path@) == path_view(b.prefix_path@)
    &&& a.parent_cache_id == b.parent_cache_id
    &&& a.branch_step == b.branch_step
}

impl BranchContext {
    /// A copy with the same contents.
    pub fn duplicate(&self) -> (r: Self)
        ensures
            same_context(r, *self),
    {
        let prefix_path = copy_steps(&self.prefix_path, 0, self.prefix_path.len());
        proof {
            assert(self.prefix_path@.subrange(0, self.prefix_path@.len() as int) =~= self.prefix_path@);
        }
        BranchContext {
            text_to_decode: self.text_to_decode.clone(),
            prefix_path,
            parent_cache_id: self.parent_cache_id,
            branch_step: self.branch_step,
        }
    }
}

/// Current position in the branch hierarchy: a stack of
/// (cache id, branch step) pairs from the main result down.
#[derive(Debug, Clone)]
pub struct BranchPath {
    /// The branches entered, outermost first.
    pub stack: Vec<(i64, usize)>,
}

impl BranchPath {
    /// An empty path (viewing the main result).
    pub fn new() -> (r: Self)
        ensures
            r.stack@ == Seq::<(i64, usize)>::empty(),
    {
        BranchPath { stack: Vec::new() }
    }

    /// Compact display string such as `Main > B2 > B1`.
    pub fn display(&self) -> (r: String)
        ensures
            r@ == branch_label(self.stack@.len()),
    {
        let mut r = String::new();
        r.append("Main");
        proof {
            reveal_strlit("Main");
            reveal_strlit(" > B");
        }
        let n = self.stack.len();
        let mut i: usize = 0;
        while i < n
            invariant
                n == self.stack@.len(),
                i <= n,
                r@ == seq!['M', 'a', 'i', 'n'] + branch_parts(n as nat, i as nat),
            decreases n - i,
        {
            let ghost prev = r@;
            r.append(" > B");
            let num = u64_to_decimal((n - i) as u64);
            r.append(num.as_str());
            proof {
                reveal_strlit(" > B");
                assert(r@ =~= seq!['M', 'a', 'i', 'n'] + branch_parts(n as nat, (i + 1) as nat));
            }
            i = i + 1;
        }
        r
    }

    /// Whether a branch (rather than the main result) is being viewed.
    pub fn is_branch(&self) -> (r: bool)
        ensures
            r == (self.stack@.len() > 0),
    {
        self.stack.len() > 0
    }

    /// Enters a branch.
    pub fn push(&mut self, cache_id: i64, branch_step: usize)
        ensures
            final(self).stack@ == old(self).stack@.push((cache_id, branch_step)),
    {
        self.stack.push((cache_id, branch_step));
    }

    /// Leaves the innermost branch, returning it.
    pub fn pop(&mut self) -> (r: Option<(i64, usize)>)
        ensures
            old(self).stack@.len() == 0 ==> r == None::<(i64, usize)> && final(self).stack@ == old(
                self,
            ).stack@,
            old(self).stack@.len() > 0 ==> r == Some(old(self).stack@.last()) && final(self).stack@
                == old(self).stack@.drop_last(),
    {
        self.stack.pop()
    }

    /// The innermost branch entered (its parent's cache id and step), if a
    /// branch is being viewed.
    pub fn current_entry(&self) -> (r: Option<(i64, usize)>)
        ensures
            self.stack@.len() == 0 ==> r == None::<(i64, usize)>,
            self.stack@.len() > 0 ==> r == Some(self.stack@.last()),
    {
        let n = self.stack.len();
        if n == 0 {
            None
        } else {
            Some(self.stack[n - 1])
        }
    }

    /// Cache id of the innermost branch, if a branch is being viewed.
    pub fn current_cache_id(&self) -> (r: Option<i64>)
        ensures
            self.stack@.len() == 0 ==> r == None::<i64>,
            self.stack@.len() > 0 ==> r == Some(self.stack@.last().0),
    {
        let n = self.stack.len();
        if n == 0 {
            None
        } else {
            Some(self.stack[n - 1].0)
        }
    }
}

impl Default for BranchPath {
    fn default() -> (r: Self)
        ensures
            r.stack@ == Seq::<(i64, usize)>::empty(),
    {
        BranchPath::new()
    }
}


/// Branch mode options (for creating new branches).
#[derive(Debug, Clone, Copy, PartialEq, Eq, Structural)]
pub enum BranchMode {
    /// Run a full search to find plaintext.
    FullSearch,
    /// Run all decoders once and show results.
    SingleLayer,
}

/// Which panel of the Results screen has the focus.
#[derive(Debug, Clone, Copy, PartialEq, Eq, Structural)]
pub enum ResultsFocus {
    /// The tree view panel.
    TreeView,
    /// The level detail list panel.
    LevelDetail,
    /// The step details panel.
    StepDetails,
}

impl Default for ResultsFocus {
    fn default() -> (r: Self)
        ensures
            r == ResultsFocus::TreeView,
    {
        ResultsFocus::TreeView
    }
}

/// The panel that follows `f` when the focus is switched.
pub open spec fn next_focus_spec(f: ResultsFocus) -> ResultsFocus {
    match f {
        ResultsFocus::TreeView => ResultsFocus::LevelDetail,
        ResultsFocus::LevelDetail => ResultsFocus::StepDetails,
        ResultsFocus::StepDetails => ResultsFocus::TreeView,
    }
}

/// Which set of keybindings the help overlay shows.
#[derive(Debug, Clone, Copy, PartialEq, Eq, Structural)]
pub enum HelpContext {
    /// Home screen keybindings.
    Home,
    /// Results screen keybindings.
    Results,
    /// Settings screen keybindings.
    Settings,
    /// Loading screen (minimal keybindings).
    Loading,
}

/// Overlay for asking AI a question about the current step.
#[derive(Debug)]
pub struct AskAiOverlay {
    /// Multi-line input for the question.
    pub text_input: MultilineTextInput,
    /// Name of the decoder of the step.
    pub decoder_name: String,
    /// Input text of the step.
    pub step_input: String,
    /// Output text of the step.
    pub step_output: String,
    /// Key used by the decoder, if any.
    pub step_key: Option<String>,
    /// Description of the decoder.
    pub step_description: String,
    /// Reference link for the decoder.
    pub step_link: String,
    /// The AI's response, once answered.
    pub response: Option<String>,
    /// Whether a request is in flight.
    pub loading: bool,
    /// Error message if the request failed.
    pub error: Option<String>,
    /// Scroll offset of the response area, in lines.
    pub response_scroll: u16,
}

/// Overlay for searching a decoder to branch with.
#[derive(Debug)]
pub struct DecoderSearchOverlay {
    /// Input for the search query.
    pub text_input: TextInput,
    /// All decoder names.
    pub all_decoders: Vec<&'static str>,
    /// Decoder names that match the query.
    pub filtered_decoders: Vec<&'static str>,
    /// Selected index in the filtered list.
    pub selected_index: usize,
    /// Context for creating the branch.
    pub branch_context: BranchContext,
}

/// Overlay listing the configured search providers for a step's output.
#[derive(Debug)]
pub struct QuickSearchOverlay {
    /// (name, url template) pairs.
    pub entries: Vec<(String, String)>,
    /// Selected index in the entries.
    pub selected_index: usize,
    /// The output text to search for.
    pub output_text: String,
}

/// A history entry, as shown in the history panel.
#[derive(Debug, Clone)]
pub struct HistoryEntry {
    /// Row ID.
    pub id: i64,
    /// Preview of the encoded text.
    pub encoded_text_preview: String,
    /// The full encoded text.
    pub encoded_text_full: String,
    /// The full decoded text.
    pub decoded_text: String,
    /// The decoder path, one JSON string per step.
    pub path: Vec<String>,
    /// Whether the decode succeeded.
    pub successful: bool,
    /// When the decode ran.
    pub timestamp: String,
}

impl HistoryEntry {
    /// Builds the entry for a stored row; the preview keeps texts of at most 20
    /// characters and shortens longer ones to 17 characters and `...`.
    pub fn from_cache_row(cache_row: &CacheRow) -> (r: Self)
        ensures
            r.id == cache_row.id,
            r.encoded_text_preview@ == preview_spec(cache_row.encoded_text@, 20),
            r.encoded_text_full@ == cache_row.encoded_text@,
            r.decoded_text@ == cache_row.decoded_text@,
            string_views(r.path@) == string_views(cache_row.path@),
            r.successful == cache_row.successful,
            r.timestamp@ == cache_row.timestamp@,
    {
        HistoryEntry {
            id: cache_row.id,
            encoded_text_preview: preview(cache_row.encoded_text.as_str(), 20),
            encoded_text_full: cache_row.encoded_text.clone(),
            decoded_text: cache_row.decoded_text.clone(),
            path: clone_strings(&cache_row.path),
            successful: cache_row.successful,
            timestamp: cache_row.timestamp.clone(),
        }
    }
}

/// Focus in the wordlist manager.
#[derive(Debug, Clone, Copy, PartialEq, Eq, Structural)]
pub enum WordlistManagerFocus {
    /// Navigating the wordlist table.
    Table,
    /// Typing a file path to add.
    AddPathInput,
    /// On the Done button.
    DoneButton,
}

/// The focus after Tab: table, then path input, then Done, then table again.
pub open spec fn next_manager_focus(f: WordlistManagerFocus) -> WordlistManagerFocus {
    match f {
        WordlistManagerFocus::Table => WordlistManagerFocus::AddPathInput,
        WordlistManagerFocus::AddPathInput => WordlistManagerFocus::DoneButton,
        WordlistManagerFocus::DoneButton => WordlistManagerFocus::Table,
    }
}

impl WordlistManagerFocus {
    /// The focus after Tab (see `next_manager_focus`).
    pub fn next(self) -> (r: Self)
        ensures
            r == next_manager_focus(self),
    {
        match self {
            WordlistManagerFocus::Table => WordlistManagerFocus::AddPathInput,
            WordlistManagerFocus::AddPathInput => WordlistManagerFocus::DoneButton,
            WordlistManagerFocus::DoneButton => WordlistManagerFocus::Table,
        }
    }
}

/// A stored wordlist file.
#[derive(Debug, Clone)]
pub struct WordlistFileInfo {
    /// Row ID.
    pub id: i64,
    /// Display file name.
    pub filename: String,
    /// Full file path.
    pub file_path: String,
    /// Source identifier.
    pub source: String,
    /// Number of words in the file.
    pub word_count: i64,
    /// Whether the wordlist is enabled.
    pub enabled: bool,
    /// When the wordlist was added.
    pub added_date: String,
}

/// Data of the Home screen, where ciphertext is entered.
#[derive(Debug, Clone)]
pub struct HomeState {
    /// Input for the ciphertext.
    pub text_input: MultilineTextInput,
    /// Previous decode attempts.
    pub history: Vec<HistoryEntry>,
    /// Selected history entry (None when the input has the focus).
    pub selected_history: Option<usize>,
    /// Scroll offset of the history panel.
    pub history_scroll_offset: usize,
}

/// The (spinner frame, quote index) after one animation tick: the frame
/// advances (wrapping), and every 100th frame the quote advances (wrapping).
pub open spec fn tick_spec(frame: usize, quote: usize) -> (usize, usize) {
    let f = if frame == usize::MAX {
        0usize
    } else {
        (frame + 1) as usize
    };
    let q = if f % 100 == 0 {
        if quote == usize::MAX {
            0usize
        } else {
            (quote + 1) as usize
        }
    } else {
        quote
    };
    (f, q)
}

/// Advances a (spinner frame, quote index) pair by one tick.
pub fn advance_animation(frame: usize, quote: usize) -> (r: (usize, usize))
    ensures
        r == tick_spec(frame, quote),
{
    let f = frame.wrapping_add(1);
    let q = if f % 100 == 0 {
        quote.wrapping_add(1)
    } else {
        quote
    };
    (f, q)
}

/// Data of the Loading screen.
#[derive(Debug, Clone, Copy)]
pub struct LoadingState {
    /// When loading started.
    pub start_time: Instant,
    /// Index of the quote shown.
    pub current_quote: usize,
    /// Frame of the spinner animation.
    pub spinner_frame: usize,
}

impl LoadingState {
    /// Advances the spinner, and every 100th frame the quote.
    pub fn tick(&mut self)
        ensures
            (final(self).spinner_frame, final(self).current_quote) == tick_spec(
                old(self).spinner_frame,
                old(self).current_quote,
            ),
            final(self).start_time == old(self).start_time,
    {
        let (f, q) = advance_animation(self.spinner_frame, self.current_quote);
        self.spinner_frame = f;
        self.current_quote = q;
    }
}

/// Data of the screen waiting for the user to confirm a plaintext.
#[derive(Debug)]
pub struct HumanConfirmationState {
    /// When loading started.
    pub start_time: Instant,
    /// Index of the quote shown.
    pub current_quote: usize,
    /// Frame of the spinner animation.
    pub spinner_frame: usize,
    /// The confirmation request.
    pub request: HumanConfirmationRequest,
    /// Channel on which the answer goes back to the decoder.
    pub response_sender: Sender<bool>,
}

impl HumanConfirmationState {
    /// Advances the spinner, and every 100th frame the quote.
    pub fn tick(&mut self)
        ensures
            (final(self).spinner_frame, final(self).current_quote) == tick_spec(
                old(self).spinner_frame,
                old(self).current_quote,
            ),
            final(self).start_time == old(self).start_time,
            final(self).request == old(self).request,
            final(self).response_sender == old(self).response_sender,
    {
        let (f, q) = advance_animation(self.spinner_frame, self.current_quote);
        self.spinner_frame = f;
        self.current_quote = q;
    }
}

/// The cached explanation of `step`, if there is one.
pub open spec fn cached_explanation(cache: Map<usize, String>, step: usize) -> Option<Seq<char>> {
    if cache.contains_key(step) {
        Some(cache[step]@)
    } else {
        None
    }
}

/// Looks up the cached explanation of `step`.
pub fn lookup_explanation(cache: &HashMap<usize, String>, step: usize) -> (r: Option<String>)
    ensures
        opt_str(r) == cached_explanation(cache@, step),
{
    match cache.get(&step) {
        Some(e) => Some(e.clone()),
        None => None,
    }
}

/// Data of the Results screen.
#[derive(Debug)]
pub struct ResultsState {
    /// The decoding result.
    pub result: DecoderResult,
    /// Selected step of the path.
    pub selected_step: usize,
    /// Vertical scroll offset.
    pub scroll_offset: usize,
    /// Cache entry of this result, for branch linking.
    pub cache_id: Option<i64>,
    /// Position in the branch hierarchy.
    pub branch_path: BranchPath,
    /// Branches of the selected step.
    pub current_branches: Vec<BranchSummary>,
    /// Highlighted branch in the list, if any.
    pub highlighted_branch: Option<usize>,
    /// Scroll offset of the branch list.
    pub branch_scroll_offset: usize,
    /// Focused panel.
    pub focus: ResultsFocus,
    /// Branches at each step, keyed by step index.
    pub tree_branches: HashMap<usize, Vec<TreeNode>>,
    /// Number of visible rows of the level detail panel.
    pub level_visible_rows: usize,
    /// Explanation of the selected step, if loaded.
    pub ai_explanation: Option<String>,
    /// Whether an explanation request is in progress.
    pub ai_loading: bool,
    /// Explanations per step.
    pub ai_explanation_cache: HashMap<usize, String>,
}

/// The step selected by default for a path of `len` steps: the last one
/// (or 0 for an empty path).
pub open spec fn last_step_index(len: nat) -> usize {
    if len == 0 {
        0usize
    } else {
        (len - 1) as usize
    }
}

impl ResultsState {
    /// A Results state showing `result` with the last step selected and
    /// everything else at its default.
    pub fn new(result: DecoderResult) -> (r: Self)
        ensures
            r.result == result,
            r.selected_step == last_step_index(result.path@.len()),
            r.scroll_offset == 0,
            r.cache_id == None::<i64>,
            r.branch_path.stack@.len() == 0,
            r.current_branches@.len() == 0,
            r.highlighted_branch == None::<usize>,
            r.branch_scroll_offset == 0,
            r.focus == ResultsFocus::TreeView,
            r.tree_branches@ == Map::<usize, Vec<TreeNode>>::empty(),
            r.level_visible_rows == 10,
            r.ai_explanation == None::<String>,
            !r.ai_loading,
            r.ai_explanation_cache@ == Map::<usize, String>::empty(),
    {
        let n = result.path.len();
        let last_step = if n > 0 {
            n - 1
        } else {
            0
        };
        ResultsState {
            result,
            selected_step: last_step,
            scroll_offset: 0,
            cache_id: None,
            branch_path: BranchPath::new(),
            current_branches: Vec::new(),
            highlighted_branch: None,
            branch_scroll_offset: 0,
            focus: ResultsFocus::TreeView,
            tree_branches: HashMap::new(),
            level_visible_rows: 10,
            ai_explanation: None,
            ai_loading: false,
            ai_explanation_cache: HashMap::new(),
        }
    }

    /// A Results state for a stored result, with its cache id and the branch
    /// tree and explanations read back from storage.
    pub fn new_with_cache_id(
        result: DecoderResult,
        cache_id: i64,
        tree_branches: HashMap<usize, Vec<TreeNode>>,
        ai_explanation_cache: HashMap<usize, String>,
    ) -> (r: Self)
        ensures
            r.result == result,
            r.selected_step == last_step_index(result.path@.len()),
            r.scroll_offset == 0,
            r.cache_id == Some(cache_id),
            r.branch_path.stack@.len() == 0,
            r.current_branches@.len() == 0,
            r.highlighted_branch == None::<usize>,
            r.branch_scroll_offset == 0,
            r.focus == ResultsFocus::TreeView,
            r.tree_branches == tree_branches,
            r.level_visible_rows == 10,
            r.ai_explanation == None::<String>,
            !r.ai_loading,
            r.ai_explanation_cache == ai_explanation_cache,
    {
        let mut rs = ResultsState::new(result);
        rs.cache_id = Some(cache_id);
        rs.tree_branches = tree_branches;
        rs.ai_explanation_cache = ai_explanation_cache;
        rs
    }

    /// Resets the step-dependent fields after `selected_step` changed.
    fn enter_step(&mut self)
        ensures
            final(self).result == old(self).result,
            final(self).selected_step == old(self).selected_step,
            final(self).scroll_offset == 0,
            final(self).cache_id == old(self).cache_id,
            final(self).branch_path == old(self).branch_path,
            final(self).current_branches@.len() == 0,
            final(self).highlighted_branch == None::<usize>,
            final(self).branch_scroll_offset == 0,
            final(self).focus == old(self).focus,
            final(self).tree_branches == old(self).tree_branches,
            final(self).level_visible_rows == old(self).level_visible_rows,
            opt_str(final(self).ai_explanation) == cached_explanation(
                old(self).ai_explanation_cache@,
                old(self).selected_step,
            ),
            !final(self).ai_loading,
            final(self).ai_explanation_cache == old(self).ai_explanation_cache,
    {
        self.scroll_offset = 0;
        self.ai_explanation = lookup_explanation(&self.ai_explanation_cache, self.selected_step);
        self.ai_loading = false;
        self.highlighted_branch = None;
        self.branch_scroll_offset = 0;
        self.current_branches = Vec::new();
    }

    /// Selects the next step, wrapping to the first after the last; the
    /// step-dependent fields are reset and the cached explanation of the new
    /// step is shown. Does nothing for an empty path. The branches of the new
    /// step are left empty for the caller to load.
    pub fn next_step(&mut self)
        requires
            old(self).result.path@.len() > 0 ==> old(self).selected_step < usize::MAX,
        ensures
            next_step_post(*old(self), *final(self)),
    {
        let n = self.result.path.len();
        if n > 0 {
            self.selected_step = (self.selected_step + 1) % n;
            self.enter_step();
        }
    }

    /// Selects the previous step, wrapping to the last before the first; see
    /// `next_step`.
    pub fn prev_step(&mut self)
        ensures
            prev_step_post(*old(self), *final(self)),
    {
        let n = self.result.path.len();
        if n > 0 {
            self.selected_step = if self.selected_step == 0 {
                n - 1
            } else {
                self.selected_step - 1
            };
            self.enter_step();
        }
    }

    /// Selects the first step; see `next_step`.
    pub fn first_step(&mut self)
        ensures
            first_step_post(*old(self), *final(self)),
    {
        self.selected_step = 0;
        self.enter_step();
    }

    /// Selects the last step; does nothing for an empty path. See `next_step`.
    pub fn last_step(&mut self)
        ensures
            last_step_post(*old(self), *final(self)),
    {
        let n = self.result.path.len();
        if n > 0 {
            self.selected_step = n - 1;
            self.enter_step();
        }
    }

    /// The selected step of the path, if it exists.
    pub fn get_current_step(&self) -> (r: Option<&CrackResult>)
        ensures
            self.selected_step < self.result.path@.len() ==> r == Some(
                &self.result.path@[self.selected_step as int],
            ),
            self.selected_step >= self.result.path@.len() ==> r == None::<&CrackResult>,
    {
        if self.selected_step < self.result.path.len() {
            Some(&self.result.path[self.selected_step])
        } else {
            None
        }
    }

    /// Highlights the next branch of the list (the first if none is
    /// highlighted), staying on the last one, and scrolls the list so that the
    /// highlighted branch is among the visible rows. Does nothing when the
    /// step has no branches.
    pub fn next_branch(&mut self)
        requires
            old(self).current_branches@.len() > 0 ==> old(self).level_visible_rows > 0,
        ensures
            next_branch_post(*old(self), *final(self)),
    {
        let n = self.current_branches.len();
        if n == 0 {
            return;
        }
        let idx = match self.highlighted_branch {
            Some(i) => if i < n - 1 {
                i + 1
            } else {
                i
            },
            None => 0,
        };
        self.highlighted_branch = Some(idx);
        let visible = self.level_visible_rows;
        if idx >= self.branch_scroll_offset && idx - self.branch_scroll_offset >= visible {
            self.branch_scroll_offset = if idx >= visible - 1 {
                idx - (visible - 1)
            } else {
                0
            };
        }
    }

    /// Highlights the previous branch of the list (the last if none is
    /// highlighted), staying on the first one, and scrolls up when the
    /// highlighted branch goes above the visible rows. Does nothing when the
    /// step has no branches.
    pub fn prev_branch(&mut self)
        ensures
            prev_branch_post(*old(self), *final(self)),
    {
        let n = self.current_branches.len();
        if n == 0 {
            return;
        }
        match self.highlighted_branch {
            Some(i) => {
                if i > 0 {
                    self.highlighted_branch = Some(i - 1);
                    if i - 1 < self.branch_scroll_offset {
                        self.branch_scroll_offset = i - 1;
                    }
                }
            },
            None => {
                self.highlighted_branch = Some(n - 1);
            },
        }
    }

    /// The highlighted branch, if any.
    pub fn get_highlighted_branch(&self) -> (r: Option<&BranchSummary>)
        ensures
            r == (match self.highlighted_branch {
                Some(i) => if i < self.current_branches@.len() {
                    Some(&self.current_branches@[i as int])
                } else {
                    None
                },
                None => None,
            }),
    {
        match self.highlighted_branch {
            Some(i) => if i < self.current_branches.len() {
                Some(&self.current_branches[i])
            } else {
                None
            },
            None => None,
        }
    }

    /// Whether the selected step has branches.
    pub fn has_branches(&self) -> (r: bool)
        ensures
            r == (self.current_branches@.len() > 0),
    {
        self.current_branches.len() > 0
    }

    /// The context for creating a branch at the selected step: its first
    /// output text, the path up to and including it, the cache id and the
    /// step index. None when the step does not exist or has no output.
    pub fn get_branch_context(&self) -> (r: Option<BranchContext>)
        ensures
            r is Some <==> branch_point_text(self.result, self.selected_step) is Some,
            r matches Some(ctx) ==> {
                &&& Some(ctx.text_to_decode@) == branch_point_text(self.result, self.selected_step)
                &&& path_view(ctx.prefix_path@) == path_view(
                    self.result.path@.take(self.selected_step + 1),
                )
                &&& ctx.parent_cache_id == self.cache_id
                &&& ctx.branch_step == self.selected_step
            },
    {
        let sel = self.selected_step;
        if sel >= self.result.path.len() {
            return None;
        }
        let step = &self.result.path[sel];
        match &step.unencrypted_text {
            Some(texts) => {
                if texts.len() == 0 {
                    return None;
                }
                let text_to_decode = texts[0].clone();
                let prefix_path = copy_steps(&self.result.path, 0, sel + 1);
                proof {
                    assert(self.result.path@.subrange(0, sel + 1) =~= self.result.path@.take(
                        sel + 1,
                    ));
                }
                Some(
                    BranchContext {
                        text_to_decode,
                        prefix_path,
                        parent_cache_id: self.cache_id,
                        branch_step: sel,
                    },
                )
            },
            None => None,
        }
    }

    /// Moves the focus: tree view, then level detail, then step details, then
    /// tree view again.
    pub fn switch_focus(&mut self)
        ensures
            switch_focus_post(*old(self), *final(self)),
    {
        self.focus = match self.focus {
            ResultsFocus::TreeView => ResultsFocus::LevelDetail,
            ResultsFocus::LevelDetail => ResultsFocus::StepDetails,
            ResultsFocus::StepDetails => ResultsFocus::TreeView,
        };
    }
}

/// The selected step after `next_step`: the next one, wrapping to the first
/// after the last (nothing changes for an empty path).
pub open spec fn next_step_post(pre: ResultsState, post: ResultsState) -> bool {
    &&& pre.result.path@.len() == 0 ==> post == pre
    &&& pre.result.path@.len() > 0 ==> {
        &&& post.selected_step == (pre.selected_step + 1) % (pre.result.path@.len() as int)
        &&& step_entered(pre, post)
    }
}

/// The selected step after `prev_step`: the previous one, wrapping to the
/// last before the first (nothing changes for an empty path).
pub open spec fn prev_step_post(pre: ResultsState, post: ResultsState) -> bool {
    &&& pre.result.path@.len() == 0 ==> post == pre
    &&& pre.result.path@.len() > 0 ==> {
        &&& post.selected_step == if pre.selected_step == 0 {
            pre.result.path@.len() - 1
        } else {
            pre.selected_step - 1
        }
        &&& step_entered(pre, post)
    }
}

/// The selected step after `first_step`: the first one.
pub open spec fn first_step_post(pre: ResultsState, post: ResultsState) -> bool {
    &&& post.selected_step == 0
    &&& step_entered(pre, post)
}

/// The selected step after `last_step`: the last one (nothing changes for
/// an empty path).
pub open spec fn last_step_post(pre: ResultsState, post: ResultsState) -> bool {
    &&& pre.result.path@.len() == 0 ==> post == pre
    &&& pre.result.path@.len() > 0 ==> {
        &&& post.selected_step == pre.result.path@.len() - 1
        &&& step_entered(pre, post)
    }
}

/// The branch list after `next_branch`.
pub open spec fn next_branch_post(pre: ResultsState, post: ResultsState) -> bool {
    &&& pre.current_branches@.len() == 0 ==> post == pre
    &&& pre.current_branches@.len() > 0 ==> {
        let idx = match pre.highlighted_branch {
            Some(i) => if i + 1 < pre.current_branches@.len() {
                (i + 1) as usize
            } else {
                i
            },
            None => 0usize,
        };
        let vis = pre.level_visible_rows;
        let scroll = pre.branch_scroll_offset;
        &&& post.highlighted_branch == Some(idx)
        &&& post.branch_scroll_offset == if idx >= scroll + vis {
            if idx >= vis - 1 {
                (idx - (vis - 1)) as usize
            } else {
                0usize
            }
        } else {
            scroll
        }
        &&& only_branch_cursor_changed(pre, post)
    }
}

/// What moving down the branch list does to the highlighted branch, for a
/// list of `n > 0` branches: none highlighted goes to the first, branch `i`
/// to branch `i + 1` while there is one, and the last branch stays; the list
/// is kept.
pub open spec fn moved_down(pre: ResultsState, post: ResultsState) -> bool {
    &&& post.current_branches == pre.current_branches
    &&& match pre.highlighted_branch {
        None => post.highlighted_branch == Some(0usize),
        Some(i) => if i + 1 < pre.current_branches@.len() {
            post.highlighted_branch == Some((i + 1) as usize)
        } else if i + 1 == pre.current_branches@.len() {
            post.highlighted_branch == Some(i)
        } else {
            true
        },
    }
}

/// Moving down the branch list of a step with branches (`next_branch`):
/// from no highlighted branch to the first, from branch `i` to branch
/// `i + 1` while there is one, and the last branch stays highlighted; the
/// list itself is kept.
pub proof fn lemma_next_branch_moves_down(pre: ResultsState, post: ResultsState)
    requires
        next_branch_post(pre, post),
        pre.current_branches@.len() > 0,
    ensures
        moved_down(pre, post),
{
}

/// The highlighted branch after `j >= 1` presses of Down from none, on a
/// list of `n > 0` branches.
pub open spec fn after_downs(j: int, n: int) -> Option<usize> {
    Some((if j - 1 < n {
        j - 1
    } else {
        n - 1
    }) as usize)
}

/// One press of Down on a list of `c.1` branches with `c.0` highlighted,
/// giving `d`.
spec fn down_step(c: (Option<usize>, nat), d: (Option<usize>, nat)) -> bool {
    &&& d.1 == c.1
    &&& c.1 > 0 ==> match c.0 {
        None => d.0 == Some(0usize),
        Some(i) => if i + 1 < c.1 {
            d.0 == Some((i + 1) as usize)
        } else if i + 1 == c.1 {
            d.0 == Some(i)
        } else {
            true
        },
    }
}

proof fn lemma_downs_chain(cs: Seq<(Option<usize>, nat)>)
    requires
        cs.len() >= 1,
        0 < cs[0].1 <= usize::MAX,
        cs[0].0 is None,
        forall|j: int| 0 <= j < cs.len() - 1 ==> #[trigger] down_step(cs[j], cs[j + 1]),
    ensures
        forall|j: int| 0 <= j < cs.len() ==> (#[trigger] cs[j]).1 == cs[0].1,
        forall|j: int| 1 <= j < cs.len() ==> (#[trigger] cs[j]).0 == after_downs(j, cs[0].1 as int),
    decreases cs.len(),
{
    if cs.len() > 1 {
        let init = cs.drop_last();
        assert forall|j: int| 0 <= j < init.len() - 1 implies #[trigger] down_step(
            init[j],
            init[j + 1],
        ) by {
            assert(down_step(cs[j], cs[j + 1]));
        }
        lemma_downs_chain(init);
        let last = cs.len() - 1;
        let k = last - 1;
        assert(init[k] == cs[k]);
        assert(down_step(cs[k], cs[k + 1]));
        assert(k + 1 == last);
        assert forall|j: int| 0 <= j < cs.len() implies (#[trigger] cs[j]).1 == cs[0].1 by {
            if j < last {
                assert(init[j] == cs[j]);
            }
        }
        assert(init[0] == cs[0]);
        assert(init[k].1 == init[0].1);
        let n = cs[0].1 as int;
        if k >= 1 {
            assert(init[k].0 == after_downs(k, n));
            if k - 1 < n {
                assert(cs[k].0 == Some((k - 1) as usize));
            } else {
                assert(cs[k].0 == Some((n - 1) as usize));
            }
        }
        assert(cs[last].0 == after_downs(last, n));
        assert forall|j: int| 1 <= j < cs.len() implies (#[trigger] cs[j]).0 == after_downs(
            j,
            cs[0].1 as int,
        ) by {
            if j < last {
                assert(init[j] == cs[j]);
            }
        }
    }
}

/// Pressing Down over and over from no highlighted branch reaches every
/// branch in turn: after `j >= 1` presses (`states[j]`) branch `j - 1` is
/// highlighted, or the last one once `j` exceeds the number of branches.
pub proof fn lemma_next_branch_reaches_every_branch(states: Seq<ResultsState>)
    requires
        states.len() >= 1,
        states[0].current_branches@.len() > 0,
        states[0].highlighted_branch is None,
        forall|j: int|
            0 <= j < states.len() - 1 ==> #[trigger] next_branch_post(states[j], states[j + 1]),
    ensures
        forall|j: int|
            1 <= j < states.len() ==> (#[trigger] states[j]).highlighted_branch == after_downs(
                j,
                states[0].current_branches@.len() as int,
            ),
{
    let cs = states.map_values(|s: ResultsState| (s.highlighted_branch, s.current_branches@.len()));
    assert forall|j: int| 0 <= j < cs.len() - 1 implies #[trigger] down_step(cs[j], cs[j + 1]) by {
        let (a, b) = (states[j], states[j + 1]);
        assert(next_branch_post(a, b));
        if a.current_branches@.len() > 0 {
            lemma_next_branch_moves_down(a, b);
        }
    }
    assert(cs[0] == (states[0].highlighted_branch, states[0].current_branches@.len()));
    assert(states[0].current_branches@.len() == states[0].current_branches.len());
    lemma_downs_chain(cs);
    assert forall|j: int| 1 <= j < states.len() implies (#[trigger] states[j]).highlighted_branch
        == after_downs(j, states[0].current_branches@.len() as int) by {
        assert(cs[j].0 == states[j].highlighted_branch);
    }
}

/// The branch list after `prev_branch`.
pub open spec fn prev_branch_post(pre: ResultsState, post: ResultsState) -> bool {
    &&& pre.current_branches@.len() == 0 ==> post == pre
    &&& pre.current_branches@.len() > 0 ==> {
        &&& match pre.highlighted_branch {
            Some(i) => if i > 0 {
                &&& post.highlighted_branch == Some((i - 1) as usize)
                &&& post.branch_scroll_offset == if i - 1 < pre.branch_scroll_offset {
                    (i - 1) as usize
                } else {
                    pre.branch_scroll_offset
                }
            } else {
                &&& post.highlighted_branch == Some(0usize)
                &&& post.branch_scroll_offset == pre.branch_scroll_offset
            },
            None => {
                &&& post.highlighted_branch == Some(
                    (pre.current_branches@.len() - 1) as usize,
                )
                &&& post.branch_scroll_offset == pre.branch_scroll_offset
            },
        }
        &&& only_branch_cursor_changed(pre, post)
    }
}

/// The focus after `switch_focus`.
pub open spec fn switch_focus_post(pre: ResultsState, post: ResultsState) -> bool {
    post == ResultsState { focus: next_focus_spec(pre.focus), ..pre }
}

/// The first output text of step `step` of the result, if the step exists and
/// has one.
pub open spec fn branch_point_text(result: DecoderResult, step: usize) -> Option<Seq<char>> {
    if step < result.path@.len() {
        match result.path@[step as int].unencrypted_text {
            Some(texts) => if texts@.len() > 0 {
                Some(texts@[0]@)
            } else {
                None
            },
            None => None,
        }
    } else {
        None
    }
}

/// After a change of the selected step from `pre` to `post`: the
/// step-dependent fields are reset, the cached explanation of the new step is
/// shown, and everything else is kept.
pub open spec fn step_entered(pre: ResultsState, post: ResultsState) -> bool {
    &&& post.result == pre.result
    &&& post.scroll_offset == 0
    &&& post.cache_id == pre.cache_id
    &&& post.branch_path == pre.branch_path
    &&& post.current_branches@.len() == 0
    &&& post.highlighted_branch == None::<usize>
    &&& post.branch_scroll_offset == 0
    &&& post.focus == pre.focus
    &&& post.tree_branches == pre.tree_branches
    &&& post.level_visible_rows == pre.level_visible_rows
    &&& opt_str(post.ai_explanation) == cached_explanation(
        pre.ai_explanation_cache@,
        post.selected_step,
    )
    &&& !post.ai_loading
    &&& post.ai_explanation_cache == pre.ai_explanation_cache
}

/// Everything but the highlighted branch and the branch scroll offset is kept.
pub open spec fn only_branch_cursor_changed(pre: ResultsState, post: ResultsState) -> bool {
    &&& post.result == pre.result
    &&& post.selected_step == pre.selected_step
    &&& post.scroll_offset == pre.scroll_offset
    &&& post.cache_id == pre.cache_id
    &&& post.branch_path == pre.branch_path
    &&& post.current_branches == pre.current_branches
    &&& post.focus == pre.focus
    &&& post.tree_branches == pre.tree_branches
    &&& post.level_visible_rows == pre.level_visible_rows
    &&& post.ai_explanation == pre.ai_explanation
    &&& post.ai_loading == pre.ai_loading
    &&& post.ai_explanation_cache == pre.ai_explanation_cache
}


/// Data of the screen shown when decoding failed.
#[derive(Debug)]
pub struct FailureState {
    /// The input that could not be decoded.
    pub input_text: String,
    /// How long the attempt took.
    pub elapsed: Duration,
}

impl Clone for FailureState {
    fn clone(&self) -> (r: Self)
        ensures
            r.input_text@ == self.input_text@,
            r.elapsed == self.elapsed,
    {
        FailureState { input_text: self.input_text.clone(), elapsed: self.elapsed }
    }
}

/// Data of the prompt choosing how to run a new branch.
#[derive(Debug, Clone)]
pub struct BranchModePromptState {
    /// Selected mode.
    pub selected_mode: BranchMode,
    /// Context for creating the branch.
    pub branch_context: BranchContext,
}

/// The screen that was shown before the settings were opened.
#[derive(Debug, Clone)]
pub enum PreviousState {
    /// The Home screen.
    Home(HomeState),
    /// The Loading screen.
    Loading(LoadingState),
    /// The Results screen.
    Results(Box<ResultsStateSaved>),
    /// The Failure screen.
    Failure(FailureState),
}

/// Snapshot of a Results state, without the branches of the selected step
/// and the loading flag (which get their defaults back when restored).
#[derive(Debug, Clone)]
pub struct ResultsStateSaved {
    /// The decoding result.
    pub result: DecoderResult,
    /// Selected step.
    pub selected_step: usize,
    /// Scroll offset.
    pub scroll_offset: usize,
    /// Cache entry of the result.
    pub cache_id: Option<i64>,
    /// Position in the branch hierarchy.
    pub branch_path: BranchPath,
    /// Highlighted branch.
    pub highlighted_branch: Option<usize>,
    /// Scroll offset of the branch list.
    pub branch_scroll_offset: usize,
    /// Focused panel.
    pub focus: ResultsFocus,
    /// Branches at each step.
    pub tree_branches: HashMap<usize, Vec<TreeNode>>,
    /// Number of visible rows of the level detail panel.
    pub level_visible_rows: usize,
    /// Explanation of the selected step.
    pub ai_explanation: Option<String>,
    /// Explanations per step.
    pub ai_explanation_cache: HashMap<usize, String>,
}

/// Copies the pairs of a branch path.
fn copy_branch_path(p: &BranchPath) -> (r: BranchPath)
    ensures
        r.stack@ == p.stack@,
{
    let mut stack: Vec<(i64, usize)> = Vec::new();
    let n = p.stack.len();
    let mut i: usize = 0;
    while i < n
        invariant
            n == p.stack@.len(),
            i <= n,
            stack@ == p.stack@.take(i as int),
        decreases n - i,
    {
        stack.push(p.stack[i]);
        proof {
            assert(stack@ =~= p.stack@.take(i + 1));
        }
        i = i + 1;
    }
    proof {
        assert(p.stack@.take(n as int) =~= p.stack@);
    }
    BranchPath { stack }
}

/// `s` keeps the Results screen `rs`: every field but the branches of the
/// selected step and the loading flag.
pub open spec fn saved_of(s: ResultsStateSaved, rs: ResultsState) -> bool {
    &&& s.result == rs.result
    &&& s.selected_step == rs.selected_step
    &&& s.scroll_offset == rs.scroll_offset
    &&& s.cache_id == rs.cache_id
    &&& s.branch_path == rs.branch_path
    &&& s.highlighted_branch == rs.highlighted_branch
    &&& s.branch_scroll_offset == rs.branch_scroll_offset
    &&& s.focus == rs.focus
    &&& s.tree_branches == rs.tree_branches
    &&& s.level_visible_rows == rs.level_visible_rows
    &&& s.ai_explanation == rs.ai_explanation
    &&& s.ai_explanation_cache == rs.ai_explanation_cache
}

/// `rs` is the Results screen kept in `s` again, with no branches loaded
/// for the selected step and no request in progress.
pub open spec fn restored_results(rs: ResultsState, s: ResultsStateSaved) -> bool {
    &&& saved_of(s, rs)
    &&& rs.current_branches@.len() == 0
    &&& !rs.ai_loading
}

impl ResultsStateSaved {
    /// Keeps the Results screen `rs` (see `saved_of`).
    pub fn into_saved(rs: ResultsState) -> (r: Self)
        ensures
            saved_of(r, rs),
    {
        ResultsStateSaved {
            result: rs.result,
            selected_step: rs.selected_step,
            scroll_offset: rs.scroll_offset,
            cache_id: rs.cache_id,
            branch_path: rs.branch_path,
            highlighted_branch: rs.highlighted_branch,
            branch_scroll_offset: rs.branch_scroll_offset,
            focus: rs.focus,
            tree_branches: rs.tree_branches,
            level_visible_rows: rs.level_visible_rows,
            ai_explanation: rs.ai_explanation,
            ai_explanation_cache: rs.ai_explanation_cache,
        }
    }

    /// A snapshot of `rs`: the same contents, field by field.
    pub fn from_results(rs: &ResultsState) -> (r: Self)
        ensures
            r.result@ == rs.result@,
            r.selected_step == rs.selected_step,
            r.scroll_offset == rs.scroll_offset,
            r.cache_id == rs.cache_id,
            r.branch_path.stack@ == rs.branch_path.stack@,
            r.highlighted_branch == rs.highlighted_branch,
            r.branch_scroll_offset == rs.branch_scroll_offset,
            r.focus == rs.focus,
            r.tree_branches@ == rs.tree_branches@,
            r.level_visible_rows == rs.level_visible_rows,
            opt_str(r.ai_explanation) == opt_str(rs.ai_explanation),
            r.ai_explanation_cache@ == rs.ai_explanation_cache@,
    {
        ResultsStateSaved {
            result: rs.result.duplicate(),
            selected_step: rs.selected_step,
            scroll_offset: rs.scroll_offset,
            cache_id: rs.cache_id,
            branch_path: copy_branch_path(&rs.branch_path),
            highlighted_branch: rs.highlighted_branch,
            branch_scroll_offset: rs.branch_scroll_offset,
            focus: rs.focus,
            tree_branches: rs.tree_branches.clone(),
            level_visible_rows: rs.level_visible_rows,
            ai_explanation: clone_opt_string(&rs.ai_explanation),
            ai_explanation_cache: rs.ai_explanation_cache.clone(),
        }
    }

    /// The Results state this snapshot was taken of, with no branches loaded
    /// for the selected step and no request in progress.
    pub fn into_results(self) -> (r: ResultsState)
        ensures
            restored_results(r, self),
    {
        ResultsState {
            result: self.result,
            selected_step: self.selected_step,
            scroll_offset: self.scroll_offset,
            cache_id: self.cache_id,
            branch_path: self.branch_path,
            current_branches: Vec::new(),
            highlighted_branch: self.highlighted_branch,
            branch_scroll_offset: self.branch_scroll_offset,
            focus: self.focus,
            tree_branches: self.tree_branches,
            level_visible_rows: self.level_visible_rows,
            ai_explanation: self.ai_explanation,
            ai_loading: false,
            ai_explanation_cache: self.ai_explanation_cache,
        }
    }
}

/// Severity of a status message: informational and success messages clear
/// on a timer, warnings and errors stay until a key is pressed.
#[derive(Debug, Clone, Copy, PartialEq, Eq, Structural)]
pub enum StatusSeverity {
    /// Informational message.
    Info,
    /// Success message.
    Success,
    /// Warning message.
    Warning,
    /// Error message.
    Error,
}

/// A status message shown at the bottom of the screen.
#[derive(Debug, Clone)]
pub struct StatusMessage {
    /// The message text.
    pub text: String,
    /// Its severity.
    pub severity: StatusSeverity,
}

/// Whether a message of this severity stays until a key is pressed.
pub open spec fn is_persistent(s: StatusSeverity) -> bool {
    s == StatusSeverity::Warning || s == StatusSeverity::Error
}

/// The status line after a key press: a warning or error is cleared, any
/// other message (or none) is kept.
pub(crate) fn acknowledge_status(status: Option<StatusMessage>) -> (r: Option<StatusMessage>)
    ensures
        (status matches Some(m) && is_persistent(m.severity)) ==> r == None::<StatusMessage>,
        !(status matches Some(m) && is_persistent(m.severity)) ==> r == status,
{
    match status {
        Some(m) => {
            if m.severity == StatusSeverity::Warning || m.severity == StatusSeverity::Error {
                None
            } else {
                Some(m)
            }
        },
        None => None,
    }
}

/// Entering a branch and leaving it again gives back the branch entered and
/// the path as it was; the innermost branch is the one last entered.
pub proof fn lemma_pop_after_push(stack: Seq<(i64, usize)>, cache_id: i64, branch_step: usize)
    ensures
        stack.push((cache_id, branch_step)).drop_last() == stack,
        stack.push((cache_id, branch_step)).last() == (cache_id, branch_step),
        stack.push((cache_id, branch_step)).len() > 0,
{
    assert(stack.push((cache_id, branch_step)).drop_last() =~= stack);
}

/// Moving to the next step and then back selects the step selected before.
pub proof fn lemma_prev_after_next(a: ResultsState, b: ResultsState, c: ResultsState)
    requires
        a.result.path@.len() > 0,
        a.selected_step < a.result.path@.len(),
        next_step_post(a, b),
        prev_step_post(b, c),
    ensures
        c.selected_step == a.selected_step,
{
    let n = a.result.path@.len() as int;
    let i = a.selected_step as int;
    assert(b.result == a.result);
    if i + 1 < n {
        assert((i + 1) % n == i + 1) by (nonlinear_arith)
            requires
                0 <= i + 1 < n,
        ;
    } else {
        assert((i + 1) % n == 0) by (nonlinear_arith)
            requires
                i + 1 == n,
                n > 0,
        ;
    }
}

/// Moving to the previous step and then forward selects the step selected
/// before.
pub proof fn lemma_next_after_prev(a: ResultsState, b: ResultsState, c: ResultsState)
    requires
        a.result.path@.len() > 0,
        a.selected_step < a.result.path@.len(),
        prev_step_post(a, b),
        next_step_post(b, c),
    ensures
        c.selected_step == a.selected_step,
{
    let n = a.result.path@.len() as int;
    let j = b.selected_step as int;
    assert(b.result == a.result);
    assert(0 <= j < n);
    if j + 1 < n {
        assert((j + 1) % n == j + 1) by (nonlinear_arith)
            requires
                0 <= j + 1 < n,
        ;
    } else {
        assert((j + 1) % n == 0) by (nonlinear_arith)
            requires
                j + 1 == n,
                n > 0,
        ;
    }
}

} // verus!
