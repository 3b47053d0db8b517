//! The first-run setup wizard: its steps, the choices it collects and the
//! configuration it produces.

use vstd::prelude::*;

use crate::state::{clone_strings, opt_str};
use crate::keys::{Key, KeyPress};
use crate::strings::{string_insert, string_pop, string_push, string_remove};
use crate::text::{
    char_index_at, decimal, fits_with, insert_at_byte, lemma_char_index_at_boundary,
    lemma_char_index_at_start, lemma_encode_utf8_single, utf8_prefix_len, is_boundary, remove_at_byte, starts_char, string_views,
    u64_to_decimal, utf8_len,
};
use crate::themes::{
    config_entries, default_scheme, pair_views, theme_at, theme_table, themes, ColorScheme, Theme,
    THEME_COUNT,
};
use crate::validation::{parse_rgb, parse_rgb_spec};

verus! {

/// Number of steps the wizard shows in its progress display.
pub const TOTAL_STEPS: usize = 7;

/// The colours typed in for a custom theme, each written `r,g,b`.
#[derive(Debug, Clone)]
pub struct CustomColors {
    /// Informational colour.
    pub informational: String,
    /// Warning colour.
    pub warning: String,
    /// Success colour.
    pub success: String,
    /// Question colour.
    pub question: String,
    /// Statement colour.
    pub statement: String,
}

/// The texts of the custom colour fields, in field order.
pub struct CustomColorsView {
    pub informational: Seq<char>,
    pub warning: Seq<char>,
    pub success: Seq<char>,
    pub question: Seq<char>,
    pub statement: Seq<char>,
}

/// The scheme that custom colour fields describe: the statement colour fills
/// the scheme's error colour. `None` when a field is not a colour.
pub open spec fn scheme_of(v: CustomColorsView) -> Option<ColorScheme> {
    match (
        parse_rgb_spec(v.informational),
        parse_rgb_spec(v.warning),
        parse_rgb_spec(v.success),
        parse_rgb_spec(v.question),
        parse_rgb_spec(v.statement),
    ) {
        (Some(i), Some(w), Some(s), Some(q), Some(st)) => Some(
            ColorScheme { informational: i, warning: w, success: s, error: st, question: q },
        ),
        _ => None,
    }
}

/// Custom colour fields that are all empty.
pub open spec fn empty_colors() -> CustomColorsView {
    CustomColorsView {
        informational: Seq::empty(),
        warning: Seq::empty(),
        success: Seq::empty(),
        question: Seq::empty(),
        statement: Seq::empty(),
    }
}

impl View for CustomColors {
    type V = CustomColorsView;

    open spec fn view(&self) -> CustomColorsView {
        CustomColorsView {
            informational: self.informational@,
            warning: self.warning@,
            success: self.success@,
            question: self.question@,
            statement: self.statement@,
        }
    }
}

/// The field that `get_field_mut` reaches for `index`: indices past the last
/// field reach the statement field.
pub open spec fn field_slot(index: int) -> int {
    if 0 <= index < 4 {
        index
    } else {
        4
    }
}

/// The label of field `index`, or the empty text past the last field.
pub open spec fn field_label(index: int) -> Seq<char> {
    if index == 0 {
        "Informational"@
    } else if index == 1 {
        "Warning"@
    } else if index == 2 {
        "Success"@
    } else if index == 3 {
        "Question"@
    } else if index == 4 {
        "Statement"@
    } else {
        Seq::empty()
    }
}

impl CustomColors {
    /// The string in slot `k` (0 to 4, in field order).
    pub open spec fn slot(self, k: int) -> String {
        if k == 0 {
            self.informational
        } else if k == 1 {
            self.warning
        } else if k == 2 {
            self.success
        } else if k == 3 {
            self.question
        } else {
            self.statement
        }
    }

    /// The text of field `index`, or the empty text past the last field.
    pub open spec fn field_text(self, index: int) -> Seq<char> {
        if 0 <= index <= 4 {
            self.slot(index)@
        } else {
            Seq::empty()
        }
    }

    /// These fields with slot `k` replaced by `v`.
    pub open spec fn with_slot(self, k: int, v: String) -> CustomColors {
        CustomColors {
            informational: if k == 0 {
                v
            } else {
                self.informational
            },
            warning: if k == 1 {
                v
            } else {
                self.warning
            },
            success: if k == 2 {
                v
            } else {
                self.success
            },
            question: if k == 3 {
                v
            } else {
                self.question
            },
            statement: if k == 4 {
                v
            } else {
                self.statement
            },
        }
    }

    /// Whether every field is empty.
    pub open spec fn all_empty(self) -> bool {
        &&& self.informational@.len() == 0
        &&& self.warning@.len() == 0
        &&& self.success@.len() == 0
        &&& self.question@.len() == 0
        &&& self.statement@.len() == 0
    }

    /// The scheme that the fields describe (see `scheme_of`).
    pub open spec fn scheme_spec(self) -> Option<ColorScheme> {
        scheme_of(self@)
    }

    /// Empty fields.
    pub fn empty() -> (r: Self)
        ensures
            r.all_empty(),
            r@ == empty_colors(),
    {
        let r = CustomColors {
            informational: String::new(),
            warning: String::new(),
            success: String::new(),
            question: String::new(),
            statement: String::new(),
        };
        proof {
            assert(r@ =~= empty_colors());
        }
        r
    }

    /// The text of field `index`; the empty text past the last field.
    pub fn get_field(&self, index: usize) -> (r: &str)
        ensures
            r@ == self.field_text(index as int),
    {
        proof {
            reveal_strlit("");
        }
        match index {
            0 => self.informational.as_str(),
            1 => self.warning.as_str(),
            2 => self.success.as_str(),
            3 => self.question.as_str(),
            4 => self.statement.as_str(),
            _ => "",
        }
    }

    /// The field `index` for editing; indices past the last field reach the
    /// statement field.
    pub fn get_field_mut(&mut self, index: usize) -> (r: &mut String)
        ensures
            *r == old(self).slot(field_slot(index as int)),
            *final(self) == old(self).with_slot(field_slot(index as int), *final(r)),
    {
        match index {
            0 => &mut self.informational,
            1 => &mut self.warning,
            2 => &mut self.success,
            3 => &mut self.question,
            _ => &mut self.statement,
        }
    }

    /// The label of field `index`; the empty text past the last field.
    pub fn field_name(index: usize) -> (r: &'static str)
        ensures
            r@ == field_label(index as int),
    {
        proof {
            reveal_strlit("");
        }
        match index {
            0 => "Informational",
            1 => "Warning",
            2 => "Success",
            3 => "Question",
            4 => "Statement",
            _ => "",
        }
    }

    /// The scheme the fields describe, when every field is a colour written
    /// `r,g,b`; the statement colour becomes the scheme's error colour.
    pub fn to_scheme(&self) -> (r: Option<ColorScheme>)
        ensures
            r == self.scheme_spec(),
    {
        let info = parse_rgb(self.informational.as_str());
        let warn = parse_rgb(self.warning.as_str());
        let succ = parse_rgb(self.success.as_str());
        let ques = parse_rgb(self.question.as_str());
        let stmt = parse_rgb(self.statement.as_str());
        match (info, warn, succ, ques, stmt) {
            (Some(i), Some(w), Some(s), Some(q), Some(st)) => Some(
                ColorScheme { informational: i, warning: w, success: s, error: st, question: q },
            ),
            _ => None,
        }
    }
}

impl Default for CustomColors {
    fn default() -> (r: Self)
        ensures
            r.all_empty(),
    {
        CustomColors::empty()
    }
}


/// The step the wizard is at.
#[derive(Debug, Clone)]
pub enum SetupState {
    /// The welcome screen.
    Welcome,
    /// The optional tutorial.
    Tutorial,
    /// Choosing a theme, or typing custom colours.
    ThemeSelection {
        /// The highlighted theme; one past the last theme is the custom option.
        selected: usize,
        /// Whether custom colours are being typed.
        custom_mode: bool,
        /// The custom colours typed so far.
        custom_colors: CustomColors,
        /// The custom colour field being edited.
        custom_field: usize,
    },
    /// Asking for each result, or collecting all results.
    ResultsMode {
        /// The highlighted option: 0 asks each time, 1 collects all.
        selected: usize,
    },
    /// The search timeout, shown when all results are collected.
    TimeoutConfig {
        /// The timeout in seconds.
        value: u32,
        /// Whether the value is being edited.
        editing: bool,
    },
    /// Wordlists to use.
    WordlistConfig {
        /// The paths added so far.
        paths: Vec<String>,
        /// The path being typed.
        current_input: String,
        /// The cursor in the path being typed.
        cursor: usize,
        /// Whether the text field (rather than the Done button) has focus.
        input_focused: bool,
    },
    /// Whether to use the detection model.
    EnhancedDetection {
        /// The highlighted option: 0 is no, 1 is yes.
        selected: usize,
    },
    /// The access token for downloading the model.
    TokenInput {
        /// The token typed so far.
        token: String,
        /// The cursor, a byte position in the token.
        cursor: usize,
    },
    /// Downloading the model.
    Downloading {
        /// Progress in thousandths, from 0 to 1000.
        progress_permille: u32,
        /// What the download is doing.
        status: String,
        /// Whether the download failed.
        failed: bool,
        /// Why it failed.
        error: Option<String>,
    },
    /// Offering the cat.
    CuteCat,
    /// Done.
    Complete,
}

/// A wizard step with its texts as character sequences.
pub enum SetupStateView {
    Welcome,
    Tutorial,
    ThemeSelection {
        selected: usize,
        custom_mode: bool,
        custom_colors: CustomColorsView,
        custom_field: usize,
    },
    ResultsMode { selected: usize },
    TimeoutConfig { value: u32, editing: bool },
    WordlistConfig {
        paths: Seq<Seq<char>>,
        current_input: Seq<char>,
        cursor: usize,
        input_focused: bool,
    },
    EnhancedDetection { selected: usize },
    TokenInput { token: Seq<char>, cursor: usize },
    Downloading {
        progress_permille: u32,
        status: Seq<char>,
        failed: bool,
        error: Option<Seq<char>>,
    },
    CuteCat,
    Complete,
}

impl View for SetupState {
    type V = SetupStateView;

    open spec fn view(&self) -> SetupStateView {
        match self {
            SetupState::Welcome => SetupStateView::Welcome,
            SetupState::Tutorial => SetupStateView::Tutorial,
            SetupState::ThemeSelection { selected, custom_mode, custom_colors, custom_field } =>
                SetupStateView::ThemeSelection {
                selected: *selected,
                custom_mode: *custom_mode,
                custom_colors: custom_colors@,
                custom_field: *custom_field,
            },
            SetupState::ResultsMode { selected } => SetupStateView::ResultsMode {
                selected: *selected,
            },
            SetupState::TimeoutConfig { value, editing } => SetupStateView::TimeoutConfig {
                value: *value,
                editing: *editing,
            },
            SetupState::WordlistConfig { paths, current_input, cursor, input_focused } =>
                SetupStateView::WordlistConfig {
                paths: string_views(paths@),
                current_input: current_input@,
                cursor: *cursor,
                input_focused: *input_focused,
            },
            SetupState::EnhancedDetection { selected } => SetupStateView::EnhancedDetection {
                selected: *selected,
            },
            SetupState::TokenInput { token, cursor } => SetupStateView::TokenInput {
                token: token@,
                cursor: *cursor,
            },
            SetupState::Downloading { progress_permille, status, failed, error } =>
                SetupStateView::Downloading {
                progress_permille: *progress_permille,
                status: status@,
                failed: *failed,
                error: opt_str(*error),
            },
            SetupState::CuteCat => SetupStateView::CuteCat,
            SetupState::Complete => SetupStateView::Complete,
        }
    }
}

/// The step number shown for a wizard state, from 1 to `TOTAL_STEPS`.
pub open spec fn step_number(s: SetupStateView) -> usize {
    match s {
        SetupStateView::Welcome => 1,
        SetupStateView::Tutorial => 1,
        SetupStateView::ThemeSelection { .. } => 2,
        SetupStateView::ResultsMode { .. } => 3,
        SetupStateView::TimeoutConfig { .. } => 4,
        SetupStateView::WordlistConfig { .. } => 5,
        SetupStateView::EnhancedDetection { .. } => 6,
        SetupStateView::TokenInput { .. } => 6,
        SetupStateView::Downloading { .. } => 6,
        SetupStateView::CuteCat => 7,
        SetupStateView::Complete => 7,
    }
}

/// The setup wizard: the current step and the choices made so far.
#[derive(Debug)]
pub struct SetupApp {
    /// The current step.
    pub state: SetupState,
    /// Whether the wizard should close.
    pub should_quit: bool,
    /// Whether the user skipped the wizard (defaults are used).
    pub skipped: bool,
    /// Animation tick counter.
    pub tick: usize,
    /// The chosen predefined theme.
    pub selected_theme: Option<Theme>,
    /// The custom scheme, when custom colours were chosen.
    pub custom_scheme: Option<ColorScheme>,
    /// Whether all results are collected.
    pub top_results: bool,
    /// Search timeout in seconds.
    pub timeout: u32,
    /// Wordlist paths.
    pub wordlist_paths: Vec<String>,
    /// Whether the detection model is used.
    pub enhanced_detection: bool,
    /// The access token typed for the download.
    pub hf_token: Option<String>,
    /// Where the detection model is stored.
    pub model_path: Option<String>,
    /// Whether the user asked to see the cat.
    pub show_cat: bool,
}

/// The wizard with its texts as character sequences.
pub struct SetupAppView {
    pub state: SetupStateView,
    pub should_quit: bool,
    pub skipped: bool,
    pub tick: usize,
    pub selected_theme: Option<Theme>,
    pub custom_scheme: Option<ColorScheme>,
    pub top_results: bool,
    pub timeout: u32,
    pub wordlist_paths: Seq<Seq<char>>,
    pub enhanced_detection: bool,
    pub hf_token: Option<Seq<char>>,
    pub model_path: Option<Seq<char>>,
    pub show_cat: bool,
}

impl View for SetupApp {
    type V = SetupAppView;

    open spec fn view(&self) -> SetupAppView {
        SetupAppView {
            state: self.state@,
            should_quit: self.should_quit,
            skipped: self.skipped,
            tick: self.tick,
            selected_theme: self.selected_theme,
            custom_scheme: self.custom_scheme,
            top_results: self.top_results,
            timeout: self.timeout,
            wordlist_paths: string_views(self.wordlist_paths@),
            enhanced_detection: self.enhanced_detection,
            hf_token: opt_str(self.hf_token),
            model_path: opt_str(self.model_path),
            show_cat: self.show_cat,
        }
    }
}

/// The wizard as it starts: at the welcome screen, nothing chosen, a timeout
/// of 5 seconds.
pub open spec fn initial_setup() -> SetupAppView {
    SetupAppView {
        state: SetupStateView::Welcome,
        should_quit: false,
        skipped: false,
        tick: 0,
        selected_theme: None,
        custom_scheme: None,
        top_results: false,
        timeout: 5,
        wordlist_paths: Seq::empty(),
        enhanced_detection: false,
        hf_token: None,
        model_path: None,
        show_cat: false,
    }
}

/// The wordlist step as it is entered from an earlier step.
pub open spec fn fresh_wordlist_step(paths: Seq<Seq<char>>) -> SetupStateView {
    SetupStateView::WordlistConfig {
        paths,
        current_input: Seq::empty(),
        cursor: 0,
        input_focused: true,
    }
}

/// Position of the first predefined theme from `i` on whose name is `name`,
/// or 0 when there is none.
pub open spec fn find_theme(name: Seq<char>, i: int) -> int
    decreases THEME_COUNT - i,
{
    if i >= THEME_COUNT {
        0
    } else if theme_table()[i].name@ == name {
        i
    } else {
        find_theme(name, i + 1)
    }
}

/// Position of the chosen theme among the predefined themes (0 when none is
/// chosen or its name is not found).
pub open spec fn theme_index(t: Option<Theme>) -> int {
    match t {
        Some(t) => find_theme(t.name@, 0),
        None => 0,
    }
}

/// The wizard after moving on from its current step, recording the choice
/// made there.
pub open spec fn next_step_spec(a: SetupAppView) -> SetupAppView {
    match a.state {
        SetupStateView::Welcome => SetupAppView { state: SetupStateView::Tutorial, ..a },
        SetupStateView::Tutorial => SetupAppView {
            state: SetupStateView::ThemeSelection {
                selected: 0,
                custom_mode: false,
                custom_colors: empty_colors(),
                custom_field: 0,
            },
            ..a
        },
        SetupStateView::ThemeSelection { selected, custom_mode, custom_colors, .. } => {
            let b = if custom_mode {
                match scheme_of(custom_colors) {
                    Some(s) => SetupAppView { custom_scheme: Some(s), ..a },
                    None => a,
                }
            } else if selected < THEME_COUNT {
                SetupAppView { selected_theme: Some(theme_table()[selected as int]), ..a }
            } else {
                a
            };
            SetupAppView { state: SetupStateView::ResultsMode { selected: 0 }, ..b }
        },
        SetupStateView::ResultsMode { selected } => SetupAppView {
            top_results: selected == 1,
            state: if selected == 1 {
                SetupStateView::TimeoutConfig { value: 3, editing: true }
            } else {
                fresh_wordlist_step(Seq::empty())
            },
            ..a
        },
        SetupStateView::TimeoutConfig { value, .. } => SetupAppView {
            timeout: value,
            state: fresh_wordlist_step(Seq::empty()),
            ..a
        },
        SetupStateView::WordlistConfig { paths, .. } => SetupAppView {
            wordlist_paths: paths,
            state: SetupStateView::EnhancedDetection { selected: 0 },
            ..a
        },
        SetupStateView::EnhancedDetection { selected } => if selected == 1 {
            SetupAppView {
                enhanced_detection: true,
                state: SetupStateView::TokenInput { token: Seq::empty(), cursor: 0 },
                ..a
            }
        } else {
            SetupAppView { state: SetupStateView::CuteCat, ..a }
        },
        SetupStateView::TokenInput { token, .. } => SetupAppView {
            hf_token: Some(token),
            state: SetupStateView::Downloading {
                progress_permille: 0,
                status: "Preparing download..."@,
                failed: false,
                error: None,
            },
            ..a
        },
        SetupStateView::Downloading { failed, .. } => SetupAppView {
            enhanced_detection: if failed {
                false
            } else {
                a.enhanced_detection
            },
            state: SetupStateView::CuteCat,
            ..a
        },
        SetupStateView::CuteCat => SetupAppView { state: SetupStateView::Complete, ..a },
        SetupStateView::Complete => a,
    }
}

/// The step before the current one, shown with the choices recorded so far.
pub open spec fn prev_state_spec(a: SetupAppView) -> SetupStateView {
    match a.state {
        SetupStateView::Welcome => SetupStateView::Welcome,
        SetupStateView::Tutorial => SetupStateView::Welcome,
        SetupStateView::ThemeSelection { .. } => SetupStateView::Tutorial,
        SetupStateView::ResultsMode { .. } => SetupStateView::ThemeSelection {
            selected: theme_index(a.selected_theme) as usize,
            custom_mode: a.custom_scheme is Some,
            custom_colors: empty_colors(),
            custom_field: 0,
        },
        SetupStateView::TimeoutConfig { .. } => SetupStateView::ResultsMode {
            selected: if a.top_results {
                1
            } else {
                0
            },
        },
        SetupStateView::WordlistConfig { .. } => if a.top_results {
            SetupStateView::TimeoutConfig { value: a.timeout, editing: false }
        } else {
            SetupStateView::ResultsMode { selected: 0 }
        },
        SetupStateView::EnhancedDetection { .. } => fresh_wordlist_step(a.wordlist_paths),
        SetupStateView::TokenInput { .. } => SetupStateView::EnhancedDetection { selected: 1 },
        SetupStateView::Downloading { .. } => SetupStateView::TokenInput {
            token: match a.hf_token {
                Some(t) => t,
                None => Seq::empty(),
            },
            cursor: 0,
        },
        SetupStateView::CuteCat => SetupStateView::EnhancedDetection {
            selected: if a.enhanced_detection {
                1
            } else {
                0
            },
        },
        SetupStateView::Complete => SetupStateView::CuteCat,
    }
}

/// A fresh wordlist step holding `paths`.
fn wordlist_step(paths: Vec<String>) -> (r: SetupState)
    ensures
        r@ == fresh_wordlist_step(string_views(paths@)),
        paths@.len() == 0 ==> r@ == fresh_wordlist_step(Seq::empty()),
{
    proof {
        if paths@.len() == 0 {
            assert(string_views(paths@) =~= Seq::<Seq<char>>::empty());
        }
    }
    SetupState::WordlistConfig { paths, current_input: String::new(), cursor: 0, input_focused: true }
}

impl SetupApp {
    /// The wizard at its welcome screen, nothing chosen yet.
    pub fn new() -> (r: Self)
        ensures
            r@ == initial_setup(),
    {
        let r = SetupApp {
            state: SetupState::Welcome,
            should_quit: false,
            skipped: false,
            tick: 0,
            selected_theme: None,
            custom_scheme: None,
            top_results: false,
            timeout: 5,
            wordlist_paths: Vec::new(),
            enhanced_detection: false,
            hf_token: None,
            model_path: None,
            show_cat: false,
        };
        proof {
            assert(string_views(r.wordlist_paths@) =~= Seq::<Seq<char>>::empty());
        }
        r
    }

    /// Advances the animation counter, wrapping around at its maximum.
    pub fn tick(&mut self)
        ensures
            final(self)@ == (SetupAppView {
                tick: if old(self).tick == usize::MAX {
                    0
                } else {
                    (old(self).tick + 1) as usize
                },
                ..old(self)@
            }),
    {
        self.tick = if self.tick == usize::MAX {
            0
        } else {
            self.tick + 1
        };
    }

    /// The step number shown for the current step.
    pub fn current_step(&self) -> (r: usize)
        ensures
            r == step_number(self.state@),
    {
        match &self.state {
            SetupState::Welcome => 1,
            SetupState::Tutorial => 1,
            SetupState::ThemeSelection { .. } => 2,
            SetupState::ResultsMode { .. } => 3,
            SetupState::TimeoutConfig { .. } => 4,
            SetupState::WordlistConfig { .. } => 5,
            SetupState::EnhancedDetection { .. } => 6,
            SetupState::TokenInput { .. } => 6,
            SetupState::Downloading { .. } => 6,
            SetupState::CuteCat => 7,
            SetupState::Complete => 7,
        }
    }

    /// Moves on from the current step, recording the choice made there: the
    /// theme or custom scheme, the results mode, the timeout, the wordlists,
    /// the detection choice and the token.
    pub fn next_step(&mut self)
        ensures
            final(self)@ == next_step_spec(old(self)@),
    {
        let new_state = match &self.state {
            SetupState::Welcome => SetupState::Tutorial,
            SetupState::Tutorial => SetupState::ThemeSelection {
                selected: 0,
                custom_mode: false,
                custom_colors: CustomColors::empty(),
                custom_field: 0,
            },
            SetupState::ThemeSelection { selected, custom_mode, custom_colors, .. } => {
                if *custom_mode {
                    if let Some(scheme) = custom_colors.to_scheme() {
                        self.custom_scheme = Some(scheme);
                    }
                } else if *selected < THEME_COUNT {
                    self.selected_theme = Some(theme_at(*selected));
                }
                SetupState::ResultsMode { selected: 0 }
            },
            SetupState::ResultsMode { selected } => {
                self.top_results = *selected == 1;
                if self.top_results {
                    SetupState::TimeoutConfig { value: 3, editing: true }
                } else {
                    wordlist_step(Vec::new())
                }
            },
            SetupState::TimeoutConfig { value, .. } => {
                self.timeout = *value;
                wordlist_step(Vec::new())
            },
            SetupState::WordlistConfig { paths, .. } => {
                self.wordlist_paths = clone_strings(paths);
                SetupState::EnhancedDetection { selected: 0 }
            },
            SetupState::EnhancedDetection { selected } => {
                if *selected == 1 {
                    self.enhanced_detection = true;
                    SetupState::TokenInput { token: String::new(), cursor: 0 }
                } else {
                    SetupState::CuteCat
                }
            },
            SetupState::TokenInput { token, .. } => {
                self.hf_token = Some(token.clone());
                SetupState::Downloading {
                    progress_permille: 0,
                    status: String::from_str("Preparing download..."),
                    failed: false,
                    error: None,
                }
            },
            SetupState::Downloading { failed, .. } => {
                if *failed {
                    self.enhanced_detection = false;
                }
                SetupState::CuteCat
            },
            SetupState::CuteCat => SetupState::Complete,
            SetupState::Complete => SetupState::Complete,
        };
        self.state = new_state;
    }

    /// Returns to the step before the current one, showing the choices
    /// recorded so far.
    pub fn prev_step(&mut self)
        ensures
            final(self)@ == (SetupAppView { state: prev_state_spec(old(self)@), ..old(self)@ }),
    {
        let new_state = match &self.state {
            SetupState::Welcome => SetupState::Welcome,
            SetupState::Tutorial => SetupState::Welcome,
            SetupState::ThemeSelection { .. } => SetupState::Tutorial,
            SetupState::ResultsMode { .. } => SetupState::ThemeSelection {
                selected: self.get_theme_index(),
                custom_mode: self.custom_scheme.is_some(),
                custom_colors: CustomColors::empty(),
                custom_field: 0,
            },
            SetupState::TimeoutConfig { .. } => SetupState::ResultsMode {
                selected: if self.top_results {
                    1
                } else {
                    0
                },
            },
            SetupState::WordlistConfig { .. } => {
                if self.top_results {
                    SetupState::TimeoutConfig { value: self.timeout, editing: false }
                } else {
                    SetupState::ResultsMode { selected: 0 }
                }
            },
            SetupState::EnhancedDetection { .. } => wordlist_step(
                clone_strings(&self.wordlist_paths),
            ),
            SetupState::TokenInput { .. } => SetupState::EnhancedDetection { selected: 1 },
            SetupState::Downloading { .. } => {
                let token = match &self.hf_token {
                    Some(t) => t.clone(),
                    None => String::new(),
                };
                SetupState::TokenInput { token, cursor: 0 }
            },
            SetupState::CuteCat => SetupState::EnhancedDetection {
                selected: if self.enhanced_detection {
                    1
                } else {
                    0
                },
            },
            SetupState::Complete => SetupState::CuteCat,
        };
        self.state = new_state;
    }

    /// Position of the chosen theme among the predefined themes (0 when none
    /// is chosen or its name is not found).
    fn get_theme_index(&self) -> (r: usize)
        ensures
            r == theme_index(self.selected_theme),
    {
        match &self.selected_theme {
            Some(theme) => {
                let all = themes();
                let target = String::from_str(theme.name);
                let mut i: usize = 0;
                while i < all.len()
                    invariant
                        all@ == theme_table(),
                        target@ == theme.name@,
                        self.selected_theme == Some(*theme),
                        i <= THEME_COUNT,
                        forall|k: int| 0 <= k < i ==> theme_table()[k].name@ != target@,
                    decreases THEME_COUNT - i,
                {
                    let name = String::from_str(all[i].name);
                    if name == target {
                        proof {
                            lemma_find_theme_skip(target@, i as int);
                            assert(theme_table()[i as int].name@ == target@);
                            assert(find_theme(target@, i as int) == i);
                            assert(theme_index(self.selected_theme) == find_theme(target@, 0));
                        }
                        return i;
                    }
                    i = i + 1;
                }
                proof {
                    lemma_find_theme_skip(target@, THEME_COUNT as int);
                }
                0
            },
            None => 0,
        }
    }

    /// The colours the wizard currently stands for: the custom scheme, else
    /// the chosen theme, else what the theme step shows, else the default.
    pub fn get_current_scheme(&self) -> (r: ColorScheme)
        ensures
            r == current_scheme_spec(self@),
    {
        if let Some(scheme) = &self.custom_scheme {
            *scheme
        } else if let Some(theme) = &self.selected_theme {
            theme.scheme
        } else {
            match &self.state {
                SetupState::ThemeSelection { selected, custom_mode, custom_colors, .. } => {
                    if *custom_mode {
                        match custom_colors.to_scheme() {
                            Some(s) => s,
                            None => ColorScheme::default(),
                        }
                    } else if *selected < THEME_COUNT {
                        theme_at(*selected).scheme
                    } else {
                        ColorScheme::default()
                    }
                },
                _ => ColorScheme::default(),
            }
        }
    }

    /// The configuration entries the wizard produces: the colours, the
    /// results mode, the timeout, the first wordlist, the detection choice and
    /// the model path.
    pub fn build_config(&self) -> (r: Vec<(String, String)>)
        ensures
            pair_views(r@) == config_spec(self@),
    {
        let scheme = self.get_current_scheme();
        let mut config = scheme.to_config_strings();
        let ghost base = pair_views(config@);
        config.push((String::from_str("top_results"), bool_string(self.top_results)));
        config.push((String::from_str("timeout"), u64_to_decimal(self.timeout as u64)));
        if self.wordlist_paths.len() > 0 {
            config.push((String::from_str("wordlist_path"), self.wordlist_paths[0].clone()));
        }
        config.push(
            (String::from_str("enhanced_detection"), bool_string(self.enhanced_detection)),
        );
        if let Some(path) = &self.model_path {
            config.push((String::from_str("model_path"), path.clone()));
        }
        proof {
            assert(pair_views(config@) =~= config_spec(self@));
        }
        config
    }

    /// Gives up the wizard: defaults are used and the wizard closes.
    pub fn skip_setup(&mut self)
        ensures
            final(self)@ == (SetupAppView { skipped: true, should_quit: true, ..old(self)@ }),
    {
        self.skipped = true;
        self.should_quit = true;
    }
}

/// If no theme before position `i` is named `name`, the search from the
/// start finds what the search from `i` finds.
proof fn lemma_find_theme_skip(name: Seq<char>, i: int)
    requires
        0 <= i <= THEME_COUNT,
        forall|k: int| 0 <= k < i ==> theme_table()[k].name@ != name,
    ensures
        find_theme(name, 0) == find_theme(name, i),
    decreases i,
{
    if i > 0 {
        lemma_find_theme_skip(name, i - 1);
    }
}

/// The colours a wizard state stands for (see `get_current_scheme`).
pub open spec fn current_scheme_spec(a: SetupAppView) -> ColorScheme {
    match a.custom_scheme {
        Some(s) => s,
        None => match a.selected_theme {
            Some(t) => t.scheme,
            None => match a.state {
                SetupStateView::ThemeSelection { selected, custom_mode, custom_colors, .. } => {
                    if custom_mode {
                        match scheme_of(custom_colors) {
                            Some(s) => s,
                            None => default_scheme(),
                        }
                    } else if selected < THEME_COUNT {
                        theme_table()[selected as int].scheme
                    } else {
                        default_scheme()
                    }
                },
                _ => default_scheme(),
            },
        },
    }
}

/// `true` or `false`, as `bool::to_string` writes them.
pub open spec fn bool_text(b: bool) -> Seq<char> {
    if b {
        "true"@
    } else {
        "false"@
    }
}

/// Writes `b` as `true` or `false`.
pub fn bool_string(b: bool) -> (r: String)
    ensures
        r@ == bool_text(b),
{
    if b {
        String::from_str("true")
    } else {
        String::from_str("false")
    }
}

/// The configuration entries of a wizard state, in order: the five colours,
/// `top_results`, `timeout`, `wordlist_path` (the first wordlist, when there
/// is one), `enhanced_detection` and `model_path` (when there is one).
pub open spec fn config_spec(a: SetupAppView) -> Seq<(Seq<char>, Seq<char>)> {
    let base = config_entries(current_scheme_spec(a)) + seq![
        ("top_results"@, bool_text(a.top_results)),
        ("timeout"@, decimal(a.timeout as nat)),
    ];
    let with_list = if a.wordlist_paths.len() > 0 {
        base.push(("wordlist_path"@, a.wordlist_paths[0]))
    } else {
        base
    };
    let with_detection = with_list.push(("enhanced_detection"@, bool_text(a.enhanced_detection)));
    match a.model_path {
        Some(p) => with_detection.push(("model_path"@, p)),
        None => with_detection,
    }
}

/// The configuration the wizard writes names the first wordlist chosen
/// under `wordlist_path`, right after `timeout` (the seventh entry); it has
/// a `wordlist_path` entry exactly when a wordlist was chosen.
pub proof fn lemma_config_names_first_wordlist(a: SetupAppView)
    ensures
        a.wordlist_paths.len() > 0 ==> config_spec(a).len() > 7 && config_spec(a)[6].0 == "timeout"@
            && config_spec(a)[7] == ("wordlist_path"@, a.wordlist_paths[0]),
        a.wordlist_paths.len() > 0 <==> exists|k: int|
            0 <= k < config_spec(a).len() && (#[trigger] config_spec(a)[k]).0 == "wordlist_path"@,
{
    reveal_strlit("informational");
    reveal_strlit("warning");
    reveal_strlit("success");
    reveal_strlit("error");
    reveal_strlit("question");
    reveal_strlit("top_results");
    reveal_strlit("timeout");
    reveal_strlit("wordlist_path");
    reveal_strlit("enhanced_detection");
    reveal_strlit("model_path");
    let c = config_spec(a);
    if a.wordlist_paths.len() > 0 {
        assert(c[7].0 == "wordlist_path"@);
    } else {
        assert forall|k: int| 0 <= k < c.len() implies (#[trigger] c[k]).0 != "wordlist_path"@ by {
            assert(c[k].0.len() != 13 || c[k].0[0] != 'w');
        }
    }
}

/// Moving on never lowers the step number shown, and going back never raises
/// it.
pub proof fn lemma_step_numbers_monotone(a: SetupAppView)
    ensures
        step_number(next_step_spec(a).state) >= step_number(a.state),
        step_number(prev_state_spec(a)) <= step_number(a.state),
{
}

/// The length and first two characters of a text.
pub open spec fn name_key(s: Seq<char>) -> (int, char, char) {
    (s.len() as int, s[0], s[1])
}

/// The length and first two characters of the name of predefined theme `k`.
pub open spec fn expected_key(k: int) -> (int, char, char) {
    if k == 0 {
        (10, 'C', 'a')
    } else     if k == 1 {
        (7, 'D', 'a')
    } else     if k == 2 {
        (8, 'G', 'i')
    } else     if k == 3 {
        (14, 'A', 'u')
    } else     if k == 4 {
        (8, 'S', 'k')
    } else     if k == 5 {
        (7, 'D', 'e')
    } else     if k == 6 {
        (14, 'C', 'y')
    } else     if k == 7 {
        (13, 'S', 'y')
    } else     if k == 8 {
        (6, 'M', 'a')
    } else     if k == 9 {
        (4, 'N', 'o')
    } else     if k == 10 {
        (7, 'D', 'r')
    } else     if k == 11 {
        (7, 'M', 'o')
    } else     if k == 12 {
        (7, 'G', 'r')
    } else     if k == 13 {
        (11, 'T', 'o')
    } else     if k == 14 {
        (14, 'S', 'o')
    } else     if k == 15 {
        (15, 'S', 'o')
    } else     if k == 16 {
        (8, 'O', 'n')
    } else     if k == 17 {
        (16, 'C', 'a')
    } else     if k == 18 {
        (9, 'P', 'a')
    } else     if k == 19 {
        (8, 'A', 'y')
    } else     if k == 20 {
        (11, 'G', 'i')
    } else     if k == 21 {
        (7, 'O', 'c')
    } else     if k == 22 {
        (13, 'H', 'i')
    } else {
        (0, ' ', ' ')
    }
}

/// The names of the predefined themes have the keys `expected_key` gives.
proof fn lemma_theme_key(k: int)
    requires
        0 <= k < THEME_COUNT,
    ensures
        name_key(theme_table()[k].name@) == expected_key(k),
{
    reveal_strlit("Cappuccino");
    reveal_strlit("Darcula");
    reveal_strlit("GirlyPop");
    reveal_strlit("Autumnal Vibes");
    reveal_strlit("Skeletal");
    reveal_strlit("Default");
    reveal_strlit("Cyberpunk 2077");
    reveal_strlit("Synthwave '84");
    reveal_strlit("Matrix");
    reveal_strlit("Nord");
    reveal_strlit("Dracula");
    reveal_strlit("Monokai");
    reveal_strlit("Gruvbox");
    reveal_strlit("Tokyo Night");
    reveal_strlit("Solarized Dark");
    reveal_strlit("Solarized Light");
    reveal_strlit("One Dark");
    reveal_strlit("Catppuccin Mocha");
    reveal_strlit("Palenight");
    reveal_strlit("Ayu Dark");
    reveal_strlit("GitHub Dark");
    reveal_strlit("Oceanic");
    reveal_strlit("High Contrast");
    if k == 0 {
    } else if k == 1 {
    } else if k == 2 {
    } else if k == 3 {
    } else if k == 4 {
    } else if k == 5 {
    } else if k == 6 {
    } else if k == 7 {
    } else if k == 8 {
    } else if k == 9 {
    } else if k == 10 {
    } else if k == 11 {
    } else if k == 12 {
    } else if k == 13 {
    } else if k == 14 {
    } else if k == 15 {
    } else if k == 16 {
    } else if k == 17 {
    } else if k == 18 {
    } else if k == 19 {
    } else if k == 20 {
    } else if k == 21 {
    } else if k == 22 {
    }
}

/// The predefined theme whose name has key `key`, or -1.
pub open spec fn theme_with_key(key: (int, char, char)) -> int {
    if key == (10int, 'C', 'a') {
        0
    } else     if key == (7int, 'D', 'a') {
        1
    } else     if key == (8int, 'G', 'i') {
        2
    } else     if key == (14int, 'A', 'u') {
        3
    } else     if key == (8int, 'S', 'k') {
        4
    } else     if key == (7int, 'D', 'e') {
        5
    } else     if key == (14int, 'C', 'y') {
        6
    } else     if key == (13int, 'S', 'y') {
        7
    } else     if key == (6int, 'M', 'a') {
        8
    } else     if key == (4int, 'N', 'o') {
        9
    } else     if key == (7int, 'D', 'r') {
        10
    } else     if key == (7int, 'M', 'o') {
        11
    } else     if key == (7int, 'G', 'r') {
        12
    } else     if key == (11int, 'T', 'o') {
        13
    } else     if key == (14int, 'S', 'o') {
        14
    } else     if key == (15int, 'S', 'o') {
        15
    } else     if key == (8int, 'O', 'n') {
        16
    } else     if key == (16int, 'C', 'a') {
        17
    } else     if key == (9int, 'P', 'a') {
        18
    } else     if key == (8int, 'A', 'y') {
        19
    } else     if key == (11int, 'G', 'i') {
        20
    } else     if key == (7int, 'O', 'c') {
        21
    } else     if key == (13int, 'H', 'i') {
        22
    } else {
        -1
    }
}

/// Each predefined theme is the one found by its own key.
proof fn lemma_key_identifies(k: int)
    requires
        0 <= k < THEME_COUNT,
    ensures
        theme_with_key(expected_key(k)) == k,
{
    if k == 0 {
    } else if k == 1 {
    } else if k == 2 {
    } else if k == 3 {
    } else if k == 4 {
    } else if k == 5 {
    } else if k == 6 {
    } else if k == 7 {
    } else if k == 8 {
    } else if k == 9 {
    } else if k == 10 {
    } else if k == 11 {
    } else if k == 12 {
    } else if k == 13 {
    } else if k == 14 {
    } else if k == 15 {
    } else if k == 16 {
    } else if k == 17 {
    } else if k == 18 {
    } else if k == 19 {
    } else if k == 20 {
    } else if k == 21 {
    } else if k == 22 {
    }
}

/// The predefined theme at position `i` is found at position `i`.
pub proof fn lemma_theme_index_of(i: int)
    requires
        0 <= i < THEME_COUNT,
    ensures
        theme_index(Some(theme_table()[i])) == i,
{
    assert forall|k: int| 0 <= k < i implies theme_table()[k].name@ != theme_table()[i].name@ by {
        lemma_theme_key(k);
        lemma_theme_key(i);
        lemma_key_identifies(k);
        lemma_key_identifies(i);
    }
    lemma_find_theme_skip(theme_table()[i].name@, i);
}

/// Whether going back right after moving on from `a` returns to the screen
/// of `a`: every step but the download and the last one, provided the screen
/// shows what the recorded choices would show again (the highlighted option
/// is one the step offers, no custom colours are half typed, no text is half
/// typed).
pub open spec fn returns_on_back(a: SetupAppView) -> bool {
    match a.state {
        SetupStateView::Welcome => true,
        SetupStateView::Tutorial => true,
        SetupStateView::ThemeSelection { selected, custom_mode, custom_colors, custom_field } => {
            &&& !custom_mode
            &&& selected < THEME_COUNT
            &&& custom_colors == empty_colors()
            &&& custom_field == 0
            &&& a.custom_scheme is None
        },
        SetupStateView::ResultsMode { selected } => selected <= 1,
        SetupStateView::TimeoutConfig { editing, .. } => !editing && a.top_results,
        SetupStateView::WordlistConfig { current_input, cursor, input_focused, .. } => {
            &&& current_input.len() == 0
            &&& cursor == 0
            &&& input_focused
        },
        SetupStateView::EnhancedDetection { selected } => selected == 1 || (selected == 0
            && !a.enhanced_detection),
        SetupStateView::TokenInput { cursor, .. } => cursor == 0,
        SetupStateView::Downloading { .. } => false,
        SetupStateView::CuteCat => true,
        SetupStateView::Complete => false,
    }
}

/// Going back right after moving on returns to the same screen, with the
/// same option highlighted and the same text shown.
pub proof fn lemma_back_after_next(a: SetupAppView)
    requires
        returns_on_back(a),
    ensures
        prev_state_spec(next_step_spec(a)) == a.state,
{
    match a.state {
        SetupStateView::ThemeSelection { selected, .. } => {
            lemma_theme_index_of(selected as int);
        },
        SetupStateView::WordlistConfig { current_input, .. } => {
            assert(current_input =~= Seq::<char>::empty());
        },
        _ => {},
    }
}

/// The text in slot `k` of custom colour fields (0 to 4, in field order).
pub open spec fn view_slot(v: CustomColorsView, k: int) -> Seq<char> {
    if k == 0 {
        v.informational
    } else if k == 1 {
        v.warning
    } else if k == 2 {
        v.success
    } else if k == 3 {
        v.question
    } else {
        v.statement
    }
}

/// Custom colour fields with slot `k` replaced by `t`.
pub open spec fn view_with_slot(v: CustomColorsView, k: int, t: Seq<char>) -> CustomColorsView {
    CustomColorsView {
        informational: if k == 0 {
            t
        } else {
            v.informational
        },
        warning: if k == 1 {
            t
        } else {
            v.warning
        },
        success: if k == 2 {
            t
        } else {
            v.success
        },
        question: if k == 3 {
            t
        } else {
            v.question
        },
        statement: if k == 4 {
            t
        } else {
            v.statement
        },
    }
}

/// Whether `c` is an ASCII decimal digit.
pub open spec fn is_digit(c: char) -> bool {
    '0' <= c <= '9'
}

/// The wizard closing.
pub open spec fn quit(a: SetupAppView) -> SetupAppView {
    SetupAppView { should_quit: true, ..a }
}

/// The wizard back at the previous step.
pub open spec fn back(a: SetupAppView) -> SetupAppView {
    SetupAppView { state: prev_state_spec(a), ..a }
}

/// The wizard with its state replaced.
pub open spec fn with_state(a: SetupAppView, s: SetupStateView) -> SetupAppView {
    SetupAppView { state: s, ..a }
}

/// What a key does on the theme step while custom colours are typed.
pub open spec fn custom_colors_key(
    a: SetupAppView,
    selected: usize,
    colors: CustomColorsView,
    field: usize,
    key: Key,
) -> SetupAppView {
    let at = |c: CustomColorsView, f: usize|
        with_state(
            a,
            SetupStateView::ThemeSelection {
                selected,
                custom_mode: true,
                custom_colors: c,
                custom_field: f,
            },
        );
    let slot = field_slot(field as int);
    match key {
        Key::Esc => with_state(
            a,
            SetupStateView::ThemeSelection {
                selected,
                custom_mode: false,
                custom_colors: colors,
                custom_field: field,
            },
        ),
        Key::Tab | Key::Down => at(colors, ((field + 1) % 5) as usize),
        Key::BackTab | Key::Up => at(
            colors,
            if field == 0 {
                4
            } else {
                (field - 1) as usize
            },
        ),
        Key::Enter => if scheme_of(colors) is Some {
            next_step_spec(a)
        } else {
            a
        },
        Key::Char(c) => if is_digit(c) || c == ',' {
            at(view_with_slot(colors, slot, view_slot(colors, slot).push(c)), field)
        } else {
            a
        },
        Key::Backspace => if view_slot(colors, slot).len() > 0 {
            at(view_with_slot(colors, slot, view_slot(colors, slot).drop_last()), field)
        } else {
            a
        },
        _ => a,
    }
}

/// What a key does on the theme step while a theme is being chosen; one past
/// the last theme is the custom option.
pub open spec fn theme_list_key(
    a: SetupAppView,
    selected: usize,
    colors: CustomColorsView,
    field: usize,
    key: Key,
) -> SetupAppView {
    let at = |sel: usize, custom: bool|
        with_state(
            a,
            SetupStateView::ThemeSelection {
                selected: sel,
                custom_mode: custom,
                custom_colors: colors,
                custom_field: field,
            },
        );
    match key {
        Key::Up | Key::Char('k') | Key::Char('K') => at(
            if selected == 0 {
                THEME_COUNT
            } else {
                (selected - 1) as usize
            },
            false,
        ),
        Key::Down | Key::Char('j') | Key::Char('J') => at(
            if selected >= THEME_COUNT {
                0
            } else {
                (selected + 1) as usize
            },
            false,
        ),
        Key::Enter | Key::Char(' ') => if selected == THEME_COUNT {
            at(selected, true)
        } else {
            next_step_spec(a)
        },
        Key::Backspace | Key::Left | Key::Char('p') => back(a),
        Key::Char('q') | Key::Esc => quit(a),
        _ => a,
    }
}

/// What a key does on the timeout step: arrows step the value within 1 to
/// 500, digits append to it while it stays at most 500, Backspace drops its
/// last digit (never below 1).
pub open spec fn timeout_key(a: SetupAppView, value: u32, editing: bool, key: Key) -> SetupAppView {
    let at = |v: u32| with_state(a, SetupStateView::TimeoutConfig { value: v, editing });
    match key {
        Key::Up | Key::Char('k') => if value < 500 {
            at((value + 1) as u32)
        } else {
            a
        },
        Key::Down | Key::Char('j') => if value > 1 {
            at((value - 1) as u32)
        } else {
            a
        },
        Key::Enter => next_step_spec(a),
        Key::Left | Key::Char('p') => back(a),
        Key::Char('q') | Key::Esc => quit(a),
        Key::Char(c) => if is_digit(c) && value * 10 + (c as u32 - '0' as u32) <= 500 {
            at((value * 10 + (c as u32 - '0' as u32)) as u32)
        } else {
            a
        },
        Key::Backspace => at(
            if value / 10 == 0 {
                1
            } else {
                value / 10
            },
        ),
        _ => a,
    }
}

/// What a key does on the token step; the cursor is a byte position.
pub open spec fn token_key(a: SetupAppView, token: Seq<char>, cursor: usize, key: Key) -> SetupAppView {
    let at = |t: Seq<char>, c: int| with_state(a, SetupStateView::TokenInput { token: t, cursor: c as usize });
    let len = utf8_len(token);
    match key {
        Key::Char(c) => at(insert_at_byte(token, cursor as int, c), cursor + 1),
        Key::Backspace => if cursor > 0 {
            at(remove_at_byte(token, cursor - 1), cursor - 1)
        } else {
            a
        },
        Key::Delete => if cursor < len {
            at(remove_at_byte(token, cursor as int), cursor as int)
        } else {
            a
        },
        Key::Left => if cursor > 0 {
            at(token, cursor - 1)
        } else {
            a
        },
        Key::Right => if cursor < len {
            at(token, cursor + 1)
        } else {
            a
        },
        Key::Home => at(token, 0),
        Key::End => at(token, len),
        Key::Enter => if token.len() > 0 {
            next_step_spec(a)
        } else {
            a
        },
        Key::Esc => back(a),
        _ => a,
    }
}

/// What a key does on the wordlist step; the cursor is a byte position in
/// the path being typed. While the text field has focus, characters,
/// Backspace, Delete, Left, Right, Home and End edit the path; Enter on a
/// non-empty path adds it to the list when `path_ok` (the file can be read)
/// and empties the field either way; Tab or Down moves the focus to the Done
/// button; Esc empties the field, or goes back a step when it is empty. On
/// the Done button, Enter or Space moves on, Tab, Left or Up returns to the
/// field, and Esc goes back a step.
pub open spec fn wordlist_key(
    a: SetupAppView,
    paths: Seq<Seq<char>>,
    input: Seq<char>,
    cursor: usize,
    input_focused: bool,
    key: Key,
    path_ok: bool,
) -> SetupAppView {
    let at = |p: Seq<Seq<char>>, t: Seq<char>, c: int, f: bool|
        with_state(
            a,
            SetupStateView::WordlistConfig {
                paths: p,
                current_input: t,
                cursor: c as usize,
                input_focused: f,
            },
        );
    let len = utf8_len(input);
    if input_focused {
        match key {
            Key::Char(c) => at(paths, insert_at_byte(input, cursor as int, c), cursor + 1, true),
            Key::Backspace => if cursor > 0 {
                at(paths, remove_at_byte(input, cursor - 1), cursor - 1, true)
            } else {
                a
            },
            Key::Delete => if cursor < len {
                at(paths, remove_at_byte(input, cursor as int), cursor as int, true)
            } else {
                a
            },
            Key::Left => if cursor > 0 {
                at(paths, input, cursor - 1, true)
            } else {
                a
            },
            Key::Right => if cursor < len {
                at(paths, input, cursor + 1, true)
            } else {
                a
            },
            Key::Home => at(paths, input, 0, true),
            Key::End => at(paths, input, len, true),
            Key::Enter => if input.len() > 0 {
                at(
                    if path_ok {
                        paths.push(input)
                    } else {
                        paths
                    },
                    Seq::empty(),
                    0,
                    true,
                )
            } else {
                a
            },
            Key::Tab | Key::Down => at(paths, input, cursor as int, false),
            Key::Esc => if input.len() > 0 {
                at(paths, Seq::empty(), 0, true)
            } else {
                back(a)
            },
            _ => a,
        }
    } else {
        match key {
            Key::Enter | Key::Char(' ') => next_step_spec(a),
            Key::Tab | Key::Left | Key::Up => at(paths, input, cursor as int, true),
            Key::Esc => back(a),
            _ => a,
        }
    }
}

/// What a key press does to the wizard on the wordlist step (see
/// `wordlist_key`); Control+C closes the wizard. `path_ok` tells whether
/// the path typed names a readable file. Any other step is unchanged.
pub open spec fn wordlist_key_spec(a: SetupAppView, k: KeyPress, path_ok: bool) -> SetupAppView {
    if k.is_ctrl_char('c') {
        quit(a)
    } else {
        match a.state {
            SetupStateView::WordlistConfig { paths, current_input, cursor, input_focused } =>
                wordlist_key(a, paths, current_input, cursor, input_focused, k.code, path_ok),
            _ => a,
        }
    }
}

/// What a key press does to the wizard. Control+C closes it from any step.
/// On the wordlist step `path_ok` tells whether the path typed names a
/// readable file (see `wordlist_key_spec`); the other steps ignore it.
pub open spec fn setup_key_spec(a: SetupAppView, k: KeyPress, path_ok: bool) -> SetupAppView {
    if k.is_ctrl_char('c') {
        quit(a)
    } else {
        match a.state {
            SetupStateView::Welcome => match k.code {
                Key::Enter | Key::Char(' ') => next_step_spec(a),
                Key::Char('s') | Key::Char('S') => SetupAppView {
                    skipped: true,
                    should_quit: true,
                    ..a
                },
                Key::Char('q') | Key::Esc => quit(a),
                _ => a,
            },
            SetupStateView::Tutorial => match k.code {
                Key::Enter | Key::Char(' ') | Key::Char('n') => next_step_spec(a),
                Key::Backspace | Key::Char('p') | Key::Left => back(a),
                Key::Char('s') | Key::Char('S') => SetupAppView {
                    skipped: true,
                    should_quit: true,
                    ..a
                },
                Key::Char('q') | Key::Esc => quit(a),
                _ => a,
            },
            SetupStateView::ThemeSelection { selected, custom_mode, custom_colors, custom_field } => {
                if custom_mode {
                    custom_colors_key(a, selected, custom_colors, custom_field, k.code)
                } else {
                    theme_list_key(a, selected, custom_colors, custom_field, k.code)
                }
            },
            SetupStateView::ResultsMode { selected } => {
                let at = |s: usize| with_state(a, SetupStateView::ResultsMode { selected: s });
                match k.code {
                    Key::Up | Key::Char('k') => at(
                        if selected == 0 {
                            1
                        } else {
                            0
                        },
                    ),
                    Key::Down | Key::Char('j') => at(
                        if selected == 1 {
                            0
                        } else {
                            1
                        },
                    ),
                    Key::Char('1') => at(0),
                    Key::Char('2') => at(1),
                    Key::Enter | Key::Char(' ') => next_step_spec(a),
                    Key::Backspace | Key::Left | Key::Char('p') => back(a),
                    Key::Char('q') | Key::Esc => quit(a),
                    _ => a,
                }
            },
            SetupStateView::TimeoutConfig { value, editing } => timeout_key(a, value, editing, k.code),
            SetupStateView::WordlistConfig { .. } => wordlist_key_spec(a, k, path_ok),
            SetupStateView::EnhancedDetection { selected } => {
                let at = |s: usize| with_state(a, SetupStateView::EnhancedDetection { selected: s });
                match k.code {
                    Key::Up | Key::Down | Key::Char('k') | Key::Char('j') => at(
                        if selected == 0 {
                            1
                        } else {
                            0
                        },
                    ),
                    Key::Char('y') | Key::Char('Y') => at(1),
                    Key::Char('n') | Key::Char('N') => at(0),
                    Key::Enter | Key::Char(' ') => next_step_spec(a),
                    Key::Backspace | Key::Left | Key::Char('p') => back(a),
                    Key::Char('q') | Key::Esc => quit(a),
                    _ => a,
                }
            },
            SetupStateView::TokenInput { token, cursor } => token_key(a, token, cursor, k.code),
            SetupStateView::Downloading { failed, .. } => match k.code {
                Key::Enter | Key::Esc => if failed {
                    next_step_spec(a)
                } else {
                    a
                },
                Key::Char('q') => if failed {
                    quit(a)
                } else {
                    a
                },
                _ => a,
            },
            SetupStateView::CuteCat => match k.code {
                Key::Enter | Key::Char(' ') | Key::Char('y') => next_step_spec(
                    SetupAppView { show_cat: true, ..a },
                ),
                Key::Char('n') | Key::Char('N') => next_step_spec(
                    SetupAppView { show_cat: false, ..a },
                ),
                Key::Backspace | Key::Left | Key::Char('p') => back(a),
                Key::Char('q') | Key::Esc => quit(a),
                _ => a,
            },
            SetupStateView::Complete => match k.code {
                Key::Enter | Key::Char(' ') | Key::Char('q') | Key::Esc => quit(a),
                _ => a,
            },
        }
    }
}

/// The key presses the wizard can take without a `String` operation
/// panicking: on the token step the cursor must sit where a character
/// starts (or at the end) wherever the key inserts or removes there, and no
/// text may outgrow `isize::MAX` bytes.
pub open spec fn setup_key_ok(a: SetupAppView, k: KeyPress) -> bool {
    !k.is_ctrl_char('c') ==> match a.state {
        SetupStateView::ThemeSelection { custom_mode, custom_colors, custom_field, .. } => {
            custom_mode ==> match k.code {
                Key::Char(c) => (is_digit(c) || c == ',') ==> utf8_len(
                    view_slot(custom_colors, field_slot(custom_field as int)),
                ) + 1 <= isize::MAX,
                _ => true,
            }
        },
        SetupStateView::TokenInput { token, cursor } => {
            &&& utf8_len(token) <= isize::MAX
            &&& match k.code {
                Key::Char(c) => is_boundary(token, cursor as int) && fits_with(token, c),
                Key::Backspace => cursor > 0 ==> starts_char(token, cursor - 1),
                Key::Delete => cursor < utf8_len(token) ==> starts_char(token, cursor as int),
                _ => true,
            }
        },
        SetupStateView::WordlistConfig { current_input, cursor, input_focused, .. } => {
            input_focused ==> {
                &&& utf8_len(current_input) <= isize::MAX
                &&& match k.code {
                    Key::Char(c) => is_boundary(current_input, cursor as int) && fits_with(
                        current_input,
                        c,
                    ),
                    Key::Backspace => cursor > 0 ==> starts_char(current_input, cursor - 1),
                    Key::Delete => cursor < utf8_len(current_input) ==> starts_char(
                        current_input,
                        cursor as int,
                    ),
                    _ => true,
                }
            }
        },
        _ => true,
    }
}

/// What the wizard does after a key changed its current step in place.
enum Follow {
    Stay,
    Next,
    Back,
    Quit,
    Skip,
}

/// Keys on the welcome screen.
#[verifier::rlimit(30)]
fn handle_welcome_keys(app: &mut SetupApp, key: KeyPress)
    requires
        !key.is_ctrl_char('c'),
        old(app).state@ is Welcome,
        setup_key_ok(old(app)@, key),
    ensures
        final(app)@ == setup_key_spec(old(app)@, key, false),
{
    let follow = match &mut app.state {
        SetupState::Welcome => match key.code {
            Key::Enter | Key::Char(' ') => Follow::Next,
            Key::Char('s') | Key::Char('S') => Follow::Skip,
            Key::Char('q') | Key::Esc => Follow::Quit,
            _ => Follow::Stay,
        },
        _ => Follow::Stay,
    };
    match follow {
        Follow::Stay => {},
        Follow::Next => app.next_step(),
        Follow::Back => app.prev_step(),
        Follow::Quit => {
            app.should_quit = true;
        },
        Follow::Skip => app.skip_setup(),
    }
}

/// Keys on the tutorial screen.
#[verifier::rlimit(30)]
fn handle_tutorial_keys(app: &mut SetupApp, key: KeyPress)
    requires
        !key.is_ctrl_char('c'),
        old(app).state@ is Tutorial,
        setup_key_ok(old(app)@, key),
    ensures
        final(app)@ == setup_key_spec(old(app)@, key, false),
{
    let follow = match &mut app.state {
        SetupState::Tutorial => match key.code {
            Key::Enter | Key::Char(' ') | Key::Char('n') => Follow::Next,
            Key::Backspace | Key::Char('p') | Key::Left => Follow::Back,
            Key::Char('s') | Key::Char('S') => Follow::Skip,
            Key::Char('q') | Key::Esc => Follow::Quit,
            _ => Follow::Stay,
        },
        _ => Follow::Stay,
    };
    match follow {
        Follow::Stay => {},
        Follow::Next => app.next_step(),
        Follow::Back => app.prev_step(),
        Follow::Quit => {
            app.should_quit = true;
        },
        Follow::Skip => app.skip_setup(),
    }
}

/// Keys on the theme step.
#[verifier::rlimit(30)]
fn handle_theme_selection_keys(app: &mut SetupApp, key: KeyPress)
    requires
        !key.is_ctrl_char('c'),
        old(app).state@ is ThemeSelection,
        setup_key_ok(old(app)@, key),
    ensures
        final(app)@ == setup_key_spec(old(app)@, key, false),
{
    let follow = match &mut app.state {
        SetupState::ThemeSelection { selected, custom_mode, custom_colors, custom_field } => {
            if *custom_mode {
                match key.code {
                    Key::Esc => {
                        *custom_mode = false;
                        Follow::Stay
                    },
                    Key::Tab | Key::Down => {
                        *custom_field = (*custom_field % 5 + 1) % 5;
                        Follow::Stay
                    },
                    Key::BackTab | Key::Up => {
                        *custom_field = if *custom_field == 0 {
                            4
                        } else {
                            *custom_field - 1
                        };
                        Follow::Stay
                    },
                    Key::Enter => {
                        if custom_colors.to_scheme().is_some() {
                            Follow::Next
                        } else {
                            Follow::Stay
                        }
                    },
                    Key::Char(c) => {
                        if ('0' <= c && c <= '9') || c == ',' {
                            let field = custom_colors.get_field_mut(*custom_field);
                            proof {
                                lemma_encode_utf8_single(c);
                            }
                            string_push(field, c);
                        }
                        Follow::Stay
                    },
                    Key::Backspace => {
                        let field = custom_colors.get_field_mut(*custom_field);
                        string_pop(field);
                        Follow::Stay
                    },
                    _ => Follow::Stay,
                }
            } else {
                match key.code {
                    Key::Up | Key::Char('k') | Key::Char('K') => {
                        *selected = if *selected == 0 {
                            THEME_COUNT
                        } else {
                            *selected - 1
                        };
                        Follow::Stay
                    },
                    Key::Down | Key::Char('j') | Key::Char('J') => {
                        *selected = if *selected >= THEME_COUNT {
                            0
                        } else {
                            *selected + 1
                        };
                        Follow::Stay
                    },
                    Key::Enter | Key::Char(' ') => {
                        if *selected == THEME_COUNT {
                            *custom_mode = true;
                            Follow::Stay
                        } else {
                            Follow::Next
                        }
                    },
                    Key::Backspace | Key::Left | Key::Char('p') => Follow::Back,
                    Key::Char('q') | Key::Esc => Follow::Quit,
                    _ => Follow::Stay,
                }
            }
        },
        _ => Follow::Stay,
    };
    match follow {
        Follow::Stay => {},
        Follow::Next => app.next_step(),
        Follow::Back => app.prev_step(),
        Follow::Quit => {
            app.should_quit = true;
        },
        Follow::Skip => app.skip_setup(),
    }
}

/// Keys on the results-mode step.
#[verifier::rlimit(30)]
fn handle_results_mode_keys(app: &mut SetupApp, key: KeyPress)
    requires
        !key.is_ctrl_char('c'),
        old(app).state@ is ResultsMode,
        setup_key_ok(old(app)@, key),
    ensures
        final(app)@ == setup_key_spec(old(app)@, key, false),
{
    let follow = match &mut app.state {
        SetupState::ResultsMode { selected } => match key.code {
            Key::Up | Key::Char('k') => {
                *selected = if *selected == 0 {
                    1
                } else {
                    0
                };
                Follow::Stay
            },
            Key::Down | Key::Char('j') => {
                *selected = if *selected == 1 {
                    0
                } else {
                    1
                };
                Follow::Stay
            },
            Key::Char('1') => {
                *selected = 0;
                Follow::Stay
            },
            Key::Char('2') => {
                *selected = 1;
                Follow::Stay
            },
            Key::Enter | Key::Char(' ') => Follow::Next,
            Key::Backspace | Key::Left | Key::Char('p') => Follow::Back,
            Key::Char('q') | Key::Esc => Follow::Quit,
            _ => Follow::Stay,
        },
        _ => Follow::Stay,
    };
    match follow {
        Follow::Stay => {},
        Follow::Next => app.next_step(),
        Follow::Back => app.prev_step(),
        Follow::Quit => {
            app.should_quit = true;
        },
        Follow::Skip => app.skip_setup(),
    }
}

/// Keys on the timeout step.
#[verifier::rlimit(30)]
fn handle_timeout_keys(app: &mut SetupApp, key: KeyPress)
    requires
        !key.is_ctrl_char('c'),
        old(app).state@ is TimeoutConfig,
        setup_key_ok(old(app)@, key),
    ensures
        final(app)@ == setup_key_spec(old(app)@, key, false),
{
    let follow = match &mut app.state {
        SetupState::TimeoutConfig { value, .. } => match key.code {
            Key::Up | Key::Char('k') => {
                if *value < 500 {
                    *value = *value + 1;
                }
                Follow::Stay
            },
            Key::Down | Key::Char('j') => {
                if *value > 1 {
                    *value = *value - 1;
                }
                Follow::Stay
            },
            Key::Enter => Follow::Next,
            Key::Left | Key::Char('p') => Follow::Back,
            Key::Char('q') | Key::Esc => Follow::Quit,
            Key::Char(c) => {
                if '0' <= c && c <= '9' {
                    let digit: u64 = (c as u32 - '0' as u32) as u64;
                    let new_value: u64 = (*value as u64) * 10 + digit;
                    if new_value <= 500 {
                        *value = new_value as u32;
                    }
                }
                Follow::Stay
            },
            Key::Backspace => {
                *value = *value / 10;
                if *value == 0 {
                    *value = 1;
                }
                Follow::Stay
            },
            _ => Follow::Stay,
        },
        _ => Follow::Stay,
    };
    match follow {
        Follow::Stay => {},
        Follow::Next => app.next_step(),
        Follow::Back => app.prev_step(),
        Follow::Quit => {
            app.should_quit = true;
        },
        Follow::Skip => app.skip_setup(),
    }
}

/// Keys on the detection step.
#[verifier::rlimit(30)]
fn handle_enhanced_detection_keys(app: &mut SetupApp, key: KeyPress)
    requires
        !key.is_ctrl_char('c'),
        old(app).state@ is EnhancedDetection,
        setup_key_ok(old(app)@, key),
    ensures
        final(app)@ == setup_key_spec(old(app)@, key, false),
{
    let follow = match &mut app.state {
        SetupState::EnhancedDetection { selected } => match key.code {
            Key::Up | Key::Down | Key::Char('k') | Key::Char('j') => {
                *selected = if *selected == 0 {
                    1
                } else {
                    0
                };
                Follow::Stay
            },
            Key::Char('y') | Key::Char('Y') => {
                *selected = 1;
                Follow::Stay
            },
            Key::Char('n') | Key::Char('N') => {
                *selected = 0;
                Follow::Stay
            },
            Key::Enter | Key::Char(' ') => Follow::Next,
            Key::Backspace | Key::Left | Key::Char('p') => Follow::Back,
            Key::Char('q') | Key::Esc => Follow::Quit,
            _ => Follow::Stay,
        },
        _ => Follow::Stay,
    };
    match follow {
        Follow::Stay => {},
        Follow::Next => app.next_step(),
        Follow::Back => app.prev_step(),
        Follow::Quit => {
            app.should_quit = true;
        },
        Follow::Skip => app.skip_setup(),
    }
}

/// Keys on the token step.
#[verifier::rlimit(30)]
fn handle_token_input_keys(app: &mut SetupApp, key: KeyPress)
    requires
        !key.is_ctrl_char('c'),
        old(app).state@ is TokenInput,
        setup_key_ok(old(app)@, key),
    ensures
        final(app)@ == setup_key_spec(old(app)@, key, false),
{
    let follow = match &mut app.state {
        SetupState::TokenInput { token, cursor } => {
            let len = token.as_str().len();
            let ghost t0 = token@;
            proof {
                assert(len as int == utf8_len(t0));
            }
            match key.code {
                Key::Char(c) => {
                    proof {
                        lemma_char_index_at_boundary(t0, *cursor as int);
                    }
                    string_insert(token, *cursor, c);
                    proof {
                        assert(utf8_prefix_len(t0, char_index_at(t0, *cursor as int)) == *cursor);
                    }
                    *cursor = *cursor + 1;
                    Follow::Stay
                },
                Key::Backspace => {
                    if *cursor > 0 {
                        *cursor = *cursor - 1;
                        proof {
                            lemma_char_index_at_start(t0, *cursor as int);
                        }
                        string_remove(token, *cursor);
                        proof {
                            assert(utf8_prefix_len(t0, char_index_at(t0, *cursor as int)) == *cursor);
                        }
                    }
                    Follow::Stay
                },
                Key::Delete => {
                    if *cursor < len {
                        proof {
                            lemma_char_index_at_start(t0, *cursor as int);
                        }
                        string_remove(token, *cursor);
                        proof {
                            assert(utf8_prefix_len(t0, char_index_at(t0, *cursor as int)) == *cursor);
                        }
                    }
                    Follow::Stay
                },
                Key::Left => {
                    if *cursor > 0 {
                        *cursor = *cursor - 1;
                    }
                    Follow::Stay
                },
                Key::Right => {
                    if *cursor < len {
                        *cursor = *cursor + 1;
                    }
                    Follow::Stay
                },
                Key::Home => {
                    *cursor = 0;
                    Follow::Stay
                },
                Key::End => {
                    *cursor = len;
                    Follow::Stay
                },
                Key::Enter => {
                    if token.as_str().unicode_len() > 0 {
                        Follow::Next
                    } else {
                        Follow::Stay
                    }
                },
                Key::Esc => Follow::Back,
                _ => Follow::Stay,
            }
        },
        _ => Follow::Stay,
    };
    match follow {
        Follow::Stay => {},
        Follow::Next => app.next_step(),
        Follow::Back => app.prev_step(),
        Follow::Quit => {
            app.should_quit = true;
        },
        Follow::Skip => app.skip_setup(),
    }
}

/// Keys on the download screen.
#[verifier::rlimit(30)]
fn handle_downloading_keys(app: &mut SetupApp, key: KeyPress)
    requires
        !key.is_ctrl_char('c'),
        old(app).state@ is Downloading,
        setup_key_ok(old(app)@, key),
    ensures
        final(app)@ == setup_key_spec(old(app)@, key, false),
{
    let follow = match &mut app.state {
        SetupState::Downloading { failed, .. } => match key.code {
            Key::Enter | Key::Esc => if *failed {
                Follow::Next
            } else {
                Follow::Stay
            },
            Key::Char('q') => if *failed {
                Follow::Quit
            } else {
                Follow::Stay
            },
            _ => Follow::Stay,
        },
        _ => Follow::Stay,
    };
    match follow {
        Follow::Stay => {},
        Follow::Next => app.next_step(),
        Follow::Back => app.prev_step(),
        Follow::Quit => {
            app.should_quit = true;
        },
        Follow::Skip => app.skip_setup(),
    }
}

/// Keys on the cat question.
#[verifier::rlimit(30)]
fn handle_cute_cat_keys(app: &mut SetupApp, key: KeyPress)
    requires
        !key.is_ctrl_char('c'),
        old(app).state@ is CuteCat,
        setup_key_ok(old(app)@, key),
    ensures
        final(app)@ == setup_key_spec(old(app)@, key, false),
{
    let follow = match &mut app.state {
        SetupState::CuteCat => match key.code {
            Key::Enter | Key::Char(' ') | Key::Char('y') => {
                app.show_cat = true;
                Follow::Next
            },
            Key::Char('n') | Key::Char('N') => {
                app.show_cat = false;
                Follow::Next
            },
            Key::Backspace | Key::Left | Key::Char('p') => Follow::Back,
            Key::Char('q') | Key::Esc => Follow::Quit,
            _ => Follow::Stay,
        },
        _ => Follow::Stay,
    };
    match follow {
        Follow::Stay => {},
        Follow::Next => app.next_step(),
        Follow::Back => app.prev_step(),
        Follow::Quit => {
            app.should_quit = true;
        },
        Follow::Skip => app.skip_setup(),
    }
}

/// Keys on the last screen.
#[verifier::rlimit(30)]
fn handle_complete_keys(app: &mut SetupApp, key: KeyPress)
    requires
        !key.is_ctrl_char('c'),
        old(app).state@ is Complete,
        setup_key_ok(old(app)@, key),
    ensures
        final(app)@ == setup_key_spec(old(app)@, key, false),
{
    let follow = match &mut app.state {
        SetupState::Complete => match key.code {
            Key::Enter | Key::Char(' ') | Key::Char('q') | Key::Esc => Follow::Quit,
            _ => Follow::Stay,
        },
        _ => Follow::Stay,
    };
    match follow {
        Follow::Stay => {},
        Follow::Next => app.next_step(),
        Follow::Back => app.prev_step(),
        Follow::Quit => {
            app.should_quit = true;
        },
        Follow::Skip => app.skip_setup(),
    }
}

/// Handles a key on the wordlist step (see `wordlist_key_spec`); `path_ok`
/// tells whether the path typed names a readable file, which the caller
/// checks before an Enter.
#[verifier::rlimit(40)]
pub fn handle_wordlist_key(app: &mut SetupApp, key: KeyPress, path_ok: bool)
    requires
        setup_key_ok(old(app)@, key),
        old(app)@.state is WordlistConfig,
    ensures
        final(app)@ == wordlist_key_spec(old(app)@, key, path_ok),
{
    if key.ctrl && key.code == Key::Char('c') {
        app.should_quit = true;
        return;
    }
    let follow = match &mut app.state {
        SetupState::WordlistConfig { paths, current_input, cursor, input_focused } => {
            if *input_focused {
                let len = current_input.as_str().len();
                let ghost t0 = current_input@;
                proof {
                    assert(len as int == utf8_len(t0));
                }
                match key.code {
                    Key::Char(c) => {
                        proof {
                            lemma_char_index_at_boundary(t0, *cursor as int);
                        }
                        string_insert(current_input, *cursor, c);
                        proof {
                            assert(utf8_prefix_len(t0, char_index_at(t0, *cursor as int)) == *cursor);
                        }
                        *cursor = *cursor + 1;
                        Follow::Stay
                    },
                    Key::Backspace => {
                        if *cursor > 0 {
                            *cursor = *cursor - 1;
                            proof {
                                lemma_char_index_at_start(t0, *cursor as int);
                            }
                            string_remove(current_input, *cursor);
                            proof {
                                assert(utf8_prefix_len(t0, char_index_at(t0, *cursor as int)) == *cursor);
                            }
                        }
                        Follow::Stay
                    },
                    Key::Delete => {
                        if *cursor < len {
                            proof {
                                lemma_char_index_at_start(t0, *cursor as int);
                            }
                            string_remove(current_input, *cursor);
                            proof {
                                assert(utf8_prefix_len(t0, char_index_at(t0, *cursor as int)) == *cursor);
                            }
                        }
                        Follow::Stay
                    },
                    Key::Left => {
                        if *cursor > 0 {
                            *cursor = *cursor - 1;
                        }
                        Follow::Stay
                    },
                    Key::Right => {
                        if *cursor < len {
                            *cursor = *cursor + 1;
                        }
                        Follow::Stay
                    },
                    Key::Home => {
                        *cursor = 0;
                        Follow::Stay
                    },
                    Key::End => {
                        *cursor = len;
                        Follow::Stay
                    },
                    Key::Enter => {
                        if current_input.as_str().unicode_len() > 0 {
                            let ghost p0 = paths@;
                            if path_ok {
                                paths.push(current_input.clone());
                                proof {
                                    assert(string_views(paths@) =~= string_views(p0).push(t0));
                                }
                            }
                            *current_input = String::new();
                            *cursor = 0;
                        }
                        Follow::Stay
                    },
                    Key::Tab | Key::Down => {
                        *input_focused = false;
                        Follow::Stay
                    },
                    Key::Esc => {
                        if current_input.as_str().unicode_len() > 0 {
                            *current_input = String::new();
                            *cursor = 0;
                            Follow::Stay
                        } else {
                            Follow::Back
                        }
                    },
                    _ => Follow::Stay,
                }
            } else {
                match key.code {
                    Key::Enter | Key::Char(' ') => Follow::Next,
                    Key::Tab | Key::Left | Key::Up => {
                        *input_focused = true;
                        Follow::Stay
                    },
                    Key::Esc => Follow::Back,
                    _ => Follow::Stay,
                }
            }
        },
        _ => Follow::Stay,
    };
    match follow {
        Follow::Stay => {},
        Follow::Next => app.next_step(),
        Follow::Back => app.prev_step(),
        Follow::Quit => {
            app.should_quit = true;
        },
        Follow::Skip => app.skip_setup(),
    }
}

/// Handles a key press in the setup wizard: Control+C closes it; otherwise
/// the current step decides (see `setup_key_spec`). `path_ok` tells whether
/// the path typed on the wordlist step names a readable file; the caller
/// checks it before an Enter there.
pub fn handle_setup_key_event(app: &mut SetupApp, key: KeyPress, path_ok: bool)
    requires
        setup_key_ok(old(app)@, key),
    ensures
        final(app)@ == setup_key_spec(old(app)@, key, path_ok),
{
    if key.ctrl && key.code == Key::Char('c') {
        app.should_quit = true;
        return;
    }
    match &app.state {
        SetupState::Welcome => handle_welcome_keys(app, key),
        SetupState::Tutorial => handle_tutorial_keys(app, key),
        SetupState::ThemeSelection { .. } => handle_theme_selection_keys(app, key),
        SetupState::ResultsMode { .. } => handle_results_mode_keys(app, key),
        SetupState::TimeoutConfig { .. } => handle_timeout_keys(app, key),
        SetupState::WordlistConfig { .. } => handle_wordlist_key(app, key, path_ok),
        SetupState::EnhancedDetection { .. } => handle_enhanced_detection_keys(app, key),
        SetupState::TokenInput { .. } => handle_token_input_keys(app, key),
        SetupState::Downloading { .. } => handle_downloading_keys(app, key),
        SetupState::CuteCat => handle_cute_cat_keys(app, key),
        SetupState::Complete => handle_complete_keys(app, key),
    }
}

} // verus!
