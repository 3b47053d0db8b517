//! The settings panel and the editors opened from it, as screens of the
//! application. The settings values themselves (`S`) hold floating-point
//! numbers and are built, read and written by the caller; this library keeps
//! them, with the panel's position, input and error messages, and the screen
//! the panel was opened from.

use std::collections::HashMap;

use vstd::prelude::*;

use crate::app_state::{fresh_home, App, AppState};
use crate::editors::{
    list_added, list_next, list_prev, list_removed, selected_all, selected_none, toggled_down,
    toggled_item, toggled_up, ListEditor, SettingsCursor, ThemePicker, ToggleList, WordlistManager,
};
use crate::multiline_text_input::MultilineTextInput;
use crate::setup::CustomColors;
use crate::state::{
    next_manager_focus, restored_results, saved_of, HomeState, PreviousState, ResultsState, ResultsStateSaved,
    WordlistFileInfo, WordlistManagerFocus,
};
use crate::text_input::{ti_backspace, ti_insert, ti_set_text, TextInput, TiState};
use crate::input::Action;
use crate::text::fits_with;
use crate::validation::same_text;

verus! {

/// The settings panel.
pub struct SettingsState<S> {
    /// The settings values.
    pub settings: S,
    /// The section shown.
    pub selected_section: usize,
    /// The field selected in it.
    pub selected_field: usize,
    /// Whether a value is being typed.
    pub editing_mode: bool,
    /// The value being typed.
    pub text_input: TextInput,
    /// The first visible field.
    pub scroll_offset: usize,
    /// The screen to return to when the panel closes.
    pub previous_state: PreviousState,
    /// Validation messages: (field ID, message), at most one per field.
    pub validation_errors: Vec<(String, String)>,
}

/// The settings panel as an editor opened from it keeps it.
pub struct SettingsStateSnapshot<S> {
    /// The settings values.
    pub settings: S,
    /// The section shown.
    pub selected_section: usize,
    /// The field selected in it.
    pub selected_field: usize,
    /// The first visible field.
    pub scroll_offset: usize,
    /// The screen to return to when the panel closes.
    pub previous_state: PreviousState,
    /// Validation messages: (field ID, message), at most one per field.
    pub validation_errors: Vec<(String, String)>,
}

/// An empty input with no length limit.
pub open spec fn empty_input(t: TextInput) -> bool {
    &&& t.wf()
    &&& t.text() == Seq::<char>::empty()
    &&& t.cursor() == 0
    &&& t.limit() is None
}

/// `snap` keeps the settings panel `ss`.
pub open spec fn snapshot_of<S>(snap: SettingsStateSnapshot<S>, ss: SettingsState<S>) -> bool {
    &&& snap.settings == ss.settings
    &&& snap.selected_section == ss.selected_section
    &&& snap.selected_field == ss.selected_field
    &&& snap.scroll_offset == ss.scroll_offset
    &&& snap.previous_state == ss.previous_state
    &&& snap.validation_errors == ss.validation_errors
}

/// `ss` is the settings panel kept in `snap` again, with no value being
/// typed.
pub open spec fn reopened<S>(ss: SettingsState<S>, snap: SettingsStateSnapshot<S>) -> bool {
    &&& ss.settings == snap.settings
    &&& ss.selected_section == snap.selected_section
    &&& ss.selected_field == snap.selected_field
    &&& !ss.editing_mode
    &&& empty_input(ss.text_input)
    &&& ss.scroll_offset == snap.scroll_offset
    &&& ss.previous_state == snap.previous_state
    &&& ss.validation_errors == snap.validation_errors
}

/// `ss` is the settings panel `panel` again, with no value being typed.
pub open spec fn back_at<S>(ss: SettingsState<S>, panel: SettingsState<S>) -> bool {
    &&& ss.settings == panel.settings
    &&& ss.selected_section == panel.selected_section
    &&& ss.selected_field == panel.selected_field
    &&& !ss.editing_mode
    &&& empty_input(ss.text_input)
    &&& ss.scroll_offset == panel.scroll_offset
    &&& ss.previous_state == panel.previous_state
    &&& ss.validation_errors == panel.validation_errors
}

/// Keeps the settings panel while an editor is open.
fn take_snapshot<S>(ss: SettingsState<S>) -> (r: SettingsStateSnapshot<S>)
    ensures
        snapshot_of(r, ss),
{
    SettingsStateSnapshot {
        settings: ss.settings,
        selected_section: ss.selected_section,
        selected_field: ss.selected_field,
        scroll_offset: ss.scroll_offset,
        previous_state: ss.previous_state,
        validation_errors: ss.validation_errors,
    }
}

/// The settings panel kept in `snap`, with no value being typed.
fn reopen<S>(snap: SettingsStateSnapshot<S>) -> (r: SettingsState<S>)
    ensures
        reopened(r, snap),
{
    SettingsState {
        settings: snap.settings,
        selected_section: snap.selected_section,
        selected_field: snap.selected_field,
        editing_mode: false,
        text_input: TextInput::new(),
        scroll_offset: snap.scroll_offset,
        previous_state: snap.previous_state,
        validation_errors: snap.validation_errors,
    }
}

/// The validation messages as (field ID, message) texts.
pub open spec fn error_views(v: Seq<(String, String)>) -> Seq<(Seq<char>, Seq<char>)> {
    v.map_values(|p: (String, String)| (p.0@, p.1@))
}

/// The messages of `errors` but those of the field `id`, in order.
pub open spec fn drop_field(errors: Seq<(Seq<char>, Seq<char>)>, id: Seq<char>) -> Seq<(Seq<char>, Seq<char>)>
    decreases errors.len(),
{
    if errors.len() == 0 {
        Seq::empty()
    } else {
        let rest = drop_field(errors.drop_last(), id);
        if errors.last().0 == id {
            rest
        } else {
            rest.push(errors.last())
        }
    }
}

/// Removes the messages of the field `id`.
fn remove_field_errors(errors: &mut Vec<(String, String)>, id: &String)
    ensures
        error_views(final(errors)@) == drop_field(error_views(old(errors)@), id@),
{
    let ghost all = error_views(errors@);
    let mut kept: Vec<(String, String)> = Vec::new();
    let mut k: usize = 0;
    while k < errors.len()
        invariant
            all == error_views(errors@),
            errors@ == old(errors)@,
            k <= errors@.len(),
            error_views(kept@) == drop_field(all.take(k as int), id@),
        decreases errors@.len() - k,
    {
        proof {
            assert(all.take(k + 1).drop_last() =~= all.take(k as int));
            assert(all.take(k + 1).last() == all[k as int]);
        }
        let same = errors[k].0 == *id;
        if !same {
            let pair = (errors[k].0.clone(), errors[k].1.clone());
            proof {
                assert(error_views(kept@.push(pair)) =~= error_views(kept@).push((pair.0@, pair.1@)));
            }
            kept.push(pair);
        }
        k = k + 1;
    }
    proof {
        assert(all.take(all.len() as int) =~= all);
    }
    *errors = kept;
}

/// `prev` keeps the screen `state` to return to when the settings panel
/// closes: the Home, Loading and Failure screens as they are, the Results
/// screen without its branch list and loading flag.
pub open spec fn kept_screen<S>(prev: PreviousState, state: AppState<S>) -> bool {
    match state {
        AppState::Home(h) => prev == PreviousState::Home(h),
        AppState::Loading(l) => prev == PreviousState::Loading(l),
        AppState::Results(rs) => prev matches PreviousState::Results(b) && saved_of(*b, rs),
        AppState::Failure(f) => prev == PreviousState::Failure(f),
        _ => false,
    }
}

/// `post` is the screen kept in `prev` again (a Results screen with no
/// branches listed and no request in progress).
pub open spec fn restored_screen<S>(post: AppState<S>, prev: PreviousState) -> bool {
    match prev {
        PreviousState::Home(h) => post == AppState::<S>::Home(h),
        PreviousState::Loading(l) => post == AppState::<S>::Loading(l),
        PreviousState::Results(b) => post matches AppState::Results(rs) && restored_results(rs, *b),
        PreviousState::Failure(f) => post == AppState::<S>::Failure(f),
    }
}

/// The screen kept in `prev`.
fn restore_screen<S>(prev: PreviousState) -> (r: AppState<S>)
    ensures
        restored_screen(r, prev),
{
    match prev {
        PreviousState::Home(h) => AppState::Home(h),
        PreviousState::Loading(l) => AppState::Loading(l),
        PreviousState::Results(b) => AppState::Results((*b).into_results()),
        PreviousState::Failure(f) => AppState::Failure(f),
    }
}

/// Closing the settings panel without saving gives back the screen it was
/// opened from: the same Home, Loading or Failure screen, or the same
/// Results screen with no branches listed for the selected step and no
/// request in progress.
pub proof fn lemma_close_undoes_open<S>(before: AppState<S>, panel: SettingsState<S>, after: AppState<S>)
    requires
        kept_screen(panel.previous_state, before),
        restored_screen(after, panel.previous_state),
    ensures
        match before {
            AppState::Results(a) => after matches AppState::Results(b) && b == ResultsState {
                current_branches: b.current_branches,
                ai_loading: false,
                ..a
            } && b.current_branches@.len() == 0,
            _ => after == before,
        },
{
}

/// After an update of the settings panel took the screen from `pre` to
/// `post`: on the panel, `step` relates the two; any other screen is
/// unchanged.
pub open spec fn on_settings<S>(
    pre: AppState<S>,
    post: AppState<S>,
    step: spec_fn(SettingsState<S>, SettingsState<S>) -> bool,
) -> bool {
    match pre {
        AppState::Settings(a) => post matches AppState::Settings(b) && step(a, b),
        _ => post == pre,
    }
}

/// The panel after moving to the next of `n` sections: wrapping, at its
/// first field, scrolled to the top; unchanged without sections.
pub open spec fn next_section_of<S>(a: SettingsState<S>, b: SettingsState<S>, n: usize) -> bool {
    if n == 0 {
        b == a
    } else {
        b == SettingsState {
            selected_section: ((a.selected_section + 1) % (n as int)) as usize,
            selected_field: 0,
            scroll_offset: 0,
            ..a
        }
    }
}

/// The panel after moving to the previous of `n` sections (see
/// `next_section_of`).
pub open spec fn prev_section_of<S>(a: SettingsState<S>, b: SettingsState<S>, n: usize) -> bool {
    if n == 0 {
        b == a
    } else {
        b == SettingsState {
            selected_section: if a.selected_section == 0 {
                (n - 1) as usize
            } else {
                (a.selected_section - 1) as usize
            },
            selected_field: 0,
            scroll_offset: 0,
            ..a
        }
    }
}

/// The panel after moving to the next of the `n` fields of its section,
/// wrapping; unchanged without fields.
pub open spec fn next_field_of<S>(a: SettingsState<S>, b: SettingsState<S>, n: usize) -> bool {
    if n == 0 {
        b == a
    } else {
        b == SettingsState { selected_field: ((a.selected_field + 1) % (n as int)) as usize, ..a }
    }
}

/// The panel after moving to the previous of the `n` fields of its
/// section, wrapping; unchanged without fields.
pub open spec fn prev_field_of<S>(a: SettingsState<S>, b: SettingsState<S>, n: usize) -> bool {
    if n == 0 {
        b == a
    } else {
        b == SettingsState {
            selected_field: if a.selected_field == 0 {
                (n - 1) as usize
            } else {
                (a.selected_field - 1) as usize
            },
            ..a
        }
    }
}

/// The panel `b` is `a` with only its input changed, to a well-formed one.
pub open spec fn input_changed<S>(a: SettingsState<S>, b: SettingsState<S>) -> bool {
    b == SettingsState { text_input: b.text_input, ..a } && b.text_input.wf()
}

/// The panel `b` is `a` with the typing stopped and its input emptied.
pub open spec fn edit_cancelled<S>(a: SettingsState<S>, b: SettingsState<S>) -> bool {
    &&& b == SettingsState { editing_mode: false, text_input: b.text_input, ..a }
    &&& b.text_input.wf()
    &&& b.text_input.text() == Seq::<char>::empty()
    &&& b.text_input.cursor() == 0
    &&& b.text_input.limit() == a.text_input.limit()
}

/// Whether the character `c` can be typed on the screen `state`: the input
/// that takes it is well formed and has room for it.
pub open spec fn typing_ok<S>(state: AppState<S>, c: char) -> bool {
    match state {
        AppState::Settings(ss) => ss.editing_mode ==> (ss.text_input.wf() && (
        ss.text_input.accepts_char() ==> fits_with(ss.text_input.text(), c))),
        AppState::ListEditor(le) => le.editor.text_input.wf() && (le.editor.text_input.accepts_char()
            ==> fits_with(le.editor.text_input.text(), c)),
        AppState::WordlistManager(w) => w.manager.focus == WordlistManagerFocus::AddPathInput ==> (
        w.manager.text_input.wf() && (w.manager.text_input.accepts_char() ==> fits_with(
            w.manager.text_input.text(),
            c,
        ))),
        _ => true,
    }
}

/// Whether the input a backspace goes to on the screen `state` is well
/// formed.
pub open spec fn erasing_ok<S>(state: AppState<S>) -> bool {
    match state {
        AppState::Settings(ss) => ss.editing_mode ==> ss.text_input.wf(),
        AppState::ListEditor(le) => le.editor.text_input.wf(),
        AppState::WordlistManager(w) => w.manager.focus == WordlistManagerFocus::AddPathInput
            ==> w.manager.text_input.wf(),
        _ => true,
    }
}

/// After an edit of the input on the screen `pre`, giving `post`: the
/// panel's input while a value is typed, the list editor's, or the wordlist
/// manager's path input when it has the focus, went from state `x` to a
/// state related by `edit`; nothing else changed.
pub open spec fn input_edited<S>(pre: AppState<S>, post: AppState<S>, edit: spec_fn(TiState, TiState) -> bool) -> bool {
    match pre {
        AppState::Settings(a) => if a.editing_mode {
            post matches AppState::Settings(b) && input_changed(a, b) && edit(
                a.text_input.state(),
                b.text_input.state(),
            )
        } else {
            post == pre
        },
        AppState::ListEditor(a) => post matches AppState::ListEditor(b) && b == ListEditorState {
            editor: ListEditor { text_input: b.editor.text_input, ..a.editor },
            ..a
        } && b.editor.text_input.wf() && edit(a.editor.text_input.state(), b.editor.text_input.state()),
        AppState::WordlistManager(a) => if a.manager.focus == WordlistManagerFocus::AddPathInput {
            post matches AppState::WordlistManager(b) && b == WordlistManagerState {
                manager: WordlistManager { text_input: b.manager.text_input, ..a.manager },
                ..a
            } && b.manager.text_input.wf() && edit(
                a.manager.text_input.state(),
                b.manager.text_input.state(),
            )
        } else {
            post == pre
        },
        _ => post == pre,
    }
}

/// A list of strings from a settings field being edited.
pub struct ListEditorState<S> {
    /// The field the list belongs to.
    pub field_id: String,
    /// The field's label.
    pub field_label: String,
    /// The list being edited.
    pub editor: ListEditor,
    /// The settings panel to return to.
    pub parent_settings: SettingsStateSnapshot<S>,
}

/// The wordlist files being managed.
pub struct WordlistManagerState<S> {
    /// The manager.
    pub manager: WordlistManager,
    /// The first visible row of the table.
    pub scroll_offset: usize,
    /// The settings panel to return to.
    pub parent_settings: SettingsStateSnapshot<S>,
}

/// A colour theme being chosen.
pub struct ThemePickerState<S> {
    /// The picker.
    pub picker: ThemePicker,
    /// The settings panel to return to.
    pub parent_settings: SettingsStateSnapshot<S>,
}

/// A selection from a fixed set being edited for a settings field.
pub struct ToggleListEditorState<S> {
    /// The field the selection belongs to.
    pub field_id: String,
    /// The field's label.
    pub field_label: String,
    /// The items and the selection.
    pub list: ToggleList,
    /// The settings panel to return to.
    pub parent_settings: SettingsStateSnapshot<S>,
}

/// The question whether to save changed settings.
pub struct SaveConfirmationState<S> {
    /// The settings panel to return to.
    pub parent_settings: SettingsStateSnapshot<S>,
}

/// After an update of the list editor took the screen from `pre` to `post`:
/// on the list editor, `step` relates the two lists and nothing else
/// changed; any other screen is unchanged.
pub open spec fn on_list_editor<S>(
    pre: AppState<S>,
    post: AppState<S>,
    step: spec_fn(ListEditor, ListEditor) -> bool,
) -> bool {
    match pre {
        AppState::ListEditor(a) => post matches AppState::ListEditor(b) && step(a.editor, b.editor)
            && b == ListEditorState { editor: b.editor, ..a },
        _ => post == pre,
    }
}

/// After an update of the toggle list took the screen from `pre` to `post`:
/// on the toggle list editor, `step` relates the two lists and nothing else
/// changed; any other screen is unchanged.
pub open spec fn on_toggle_list<S>(
    pre: AppState<S>,
    post: AppState<S>,
    step: spec_fn(ToggleList, ToggleList) -> bool,
) -> bool {
    match pre {
        AppState::ToggleListEditor(a) => post matches AppState::ToggleListEditor(b) && step(
            a.list,
            b.list,
        ) && b == ToggleListEditorState { list: b.list, ..a },
        _ => post == pre,
    }
}

/// `le` is a list editor just opened on `items` of the field `field_id`
/// (labelled `field_label`), nothing selected, an empty input, returning to
/// the settings panel `panel`.
pub open spec fn fresh_list_editor<S>(
    le: ListEditorState<S>,
    field_id: String,
    field_label: String,
    items: Vec<String>,
    panel: SettingsState<S>,
) -> bool {
    &&& le.field_id == field_id
    &&& le.field_label == field_label
    &&& le.editor.items == items
    &&& le.editor.selected_item is None
    &&& le.editor.text_input.wf()
    &&& le.editor.text_input.text() == Seq::<char>::empty()
    &&& le.editor.text_input.cursor() == 0
    &&& le.editor.text_input.limit() is None
    &&& snapshot_of(le.parent_settings, panel)
}

/// After `finish_list_editor` took the screen from `pre` to `post`,
/// returning `r`: from the list editor, its settings panel, with the field
/// and the items handed back; any other screen unchanged.
pub open spec fn list_editor_finished<S>(pre: AppState<S>, post: AppState<S>, r: Option<(String, Vec<String>)>) -> bool {
    match pre {
        AppState::ListEditor(le) => (post matches AppState::Settings(ss) && reopened(ss, le.parent_settings)) && r == Some(
            (le.field_id, le.editor.items),
        ),
        _ => post == pre && r is None,
    }
}

/// After a cancel took the screen from `pre` to `post`: from the list
/// editor, the wordlist manager, the theme picker or the save question, its
/// settings panel; any other screen unchanged.
pub open spec fn editor_cancelled<S>(pre: AppState<S>, post: AppState<S>) -> bool {
    match pre {
        AppState::ListEditor(a) => (post matches AppState::Settings(ss) && reopened(ss, a.parent_settings)),
        AppState::WordlistManager(a) => (post matches AppState::Settings(ss) && reopened(ss, a.parent_settings)),
        AppState::ThemePicker(a) => (post matches AppState::Settings(ss) && reopened(ss, a.parent_settings)),
        AppState::SaveConfirmation(a) => (post matches AppState::Settings(ss) && reopened(ss, a.parent_settings)),
        _ => post == pre,
    }
}

/// `post` is the list editor just opened from the panel `panel` (see
/// `fresh_list_editor`).
pub open spec fn list_editor_opened<S>(
    post: AppState<S>,
    panel: SettingsState<S>,
    field_id: String,
    field_label: String,
    items: Vec<String>,
) -> bool {
    post matches AppState::ListEditor(le) && fresh_list_editor(le, field_id, field_label, items, panel)
}

/// `post` is the toggle list just opened from the panel `panel` on
/// `all_items`, with `selected_items` (the value of the field `field_id`,
/// labelled `field_label`) selected and the cursor on the first item.
pub open spec fn toggle_list_opened<S>(
    post: AppState<S>,
    panel: SettingsState<S>,
    field_id: String,
    field_label: String,
    all_items: Vec<String>,
    selected_items: Vec<String>,
) -> bool {
    post matches AppState::ToggleListEditor(t) && {
        &&& t.field_id == field_id
        &&& t.field_label == field_label
        &&& t.list == ToggleList { all_items, selected_items, cursor_index: 0, scroll_offset: 0 }
        &&& snapshot_of(t.parent_settings, panel)
    }
}

/// `post` is the wordlist manager just opened from the panel `panel` on
/// `wordlist_files`: the first row selected, the table focused, an empty
/// path, no change pending.
pub open spec fn manager_opened<S>(
    post: AppState<S>,
    panel: SettingsState<S>,
    wordlist_files: Vec<WordlistFileInfo>,
) -> bool {
    post matches AppState::WordlistManager(w) && {
        &&& w.manager.wordlist_files == wordlist_files
        &&& w.manager.selected_row == 0
        &&& w.manager.focus == WordlistManagerFocus::Table
        &&& w.manager.text_input.wf()
        &&& w.manager.text_input.text() == Seq::<char>::empty()
        &&& w.manager.pending_changes@ == Map::<i64, bool>::empty()
        &&& w.scroll_offset == 0
        &&& snapshot_of(w.parent_settings, panel)
    }
}

/// `post` is the theme picker just opened from the panel `panel`, on the
/// first theme, choosing (not typing colours).
pub open spec fn picker_opened<S>(post: AppState<S>, panel: SettingsState<S>) -> bool {
    post matches AppState::ThemePicker(p) && {
        &&& p.picker.selected_theme == 0
        &&& !p.picker.custom_mode
        &&& p.picker.custom_colors.all_empty()
        &&& p.picker.custom_field == 0
        &&& snapshot_of(p.parent_settings, panel)
    }
}

/// The panel `b` is `a` typing a value, its input showing `value` (empty
/// when `value` reads "(not set)").
pub open spec fn edit_begun<S>(a: SettingsState<S>, b: SettingsState<S>, value: String) -> bool {
    &&& b == SettingsState { editing_mode: true, text_input: b.text_input, ..a }
    &&& b.text_input.wf()
    &&& if value@ == "(not set)"@ {
        b.text_input.text() == Seq::<char>::empty() && b.text_input.cursor() == 0
    } else {
        b.text_input.state() == ti_set_text(a.text_input.state(), value@)
    }
}

/// The selected settings field, by what editing it does.
pub enum FieldEdit {
    /// A yes/no value: the caller flips it in the settings values.
    Boolean,
    /// A list of strings: the field's ID, its label and its items.
    StringList(String, String, Vec<String>),
    /// The wordlists: the files, as storage lists them.
    WordlistManager(Vec<WordlistFileInfo>),
    /// The colour scheme.
    ThemePicker,
    /// A choice among items: the field's ID, its label, all the items and
    /// those selected.
    ToggleList(String, String, Vec<String>, Vec<String>),
    /// Any other value, shown as this text.
    Typed(String),
}

/// A placeholder screen, held while another is taken apart: an empty Home
/// screen with no history.
fn blank_state<S>() -> (r: AppState<S>)
    ensures
        r matches AppState::Home(h) && fresh_home(h, Seq::empty()),
{
    AppState::Home(
        HomeState {
            text_input: MultilineTextInput::new(),
            history: Vec::new(),
            selected_history: None,
            history_scroll_offset: 0,
        },
    )
}

impl<S> App<S> {
    /// Whether the settings panel, the list editor or the wordlist manager
    /// is shown.
    pub fn is_in_settings(&self) -> (r: bool)
        ensures
            r == (self.state is Settings || self.state is ListEditor || self.state is WordlistManager),
    {
        match &self.state {
            AppState::Settings(_) | AppState::ListEditor(_) | AppState::WordlistManager(_) => true,
            _ => false,
        }
    }

    /// Opens the settings panel on `settings` (built by the caller from the
    /// configuration), at its first section and field, keeping the Home,
    /// Loading, Results or Failure screen to return to; nothing happens on
    /// the other screens.
    pub fn open_settings(&mut self, settings: S)
        ensures
            if old(self).state is Home || old(self).state is Loading || old(self).state is Results
                || old(self).state is Failure {
                final(self).state matches AppState::Settings(ss) && {
                    &&& ss.settings == settings
                    &&& ss.selected_section == 0
                    &&& ss.selected_field == 0
                    &&& !ss.editing_mode
                    &&& empty_input(ss.text_input)
                    &&& ss.scroll_offset == 0
                    &&& kept_screen(ss.previous_state, old(self).state)
                    &&& ss.validation_errors@.len() == 0
                }
            } else {
                final(self).state == old(self).state
            },
            final(self).input_text == old(self).input_text,
            final(self).same_frame(old(self)),
    {
        let mut taken = blank_state();
        std::mem::swap(&mut taken, &mut self.state);
        let previous = match taken {
            AppState::Home(h) => PreviousState::Home(h),
            AppState::Loading(l) => PreviousState::Loading(l),
            AppState::Results(rs) => PreviousState::Results(Box::new(ResultsStateSaved::into_saved(rs))),
            AppState::Failure(f) => PreviousState::Failure(f),
            other => {
                self.state = other;
                return;
            },
        };
        self.state = AppState::Settings(
            SettingsState {
                settings,
                selected_section: 0,
                selected_field: 0,
                editing_mode: false,
                text_input: TextInput::new(),
                scroll_offset: 0,
                previous_state: previous,
                validation_errors: Vec::new(),
            },
        );
    }

    /// Closes the settings panel without saving, returning to the screen it
    /// was opened from.
    pub fn close_settings(&mut self)
        ensures
            match old(self).state {
                AppState::Settings(ss) => restored_screen(final(self).state, ss.previous_state),
                _ => final(self).state == old(self).state,
            },
            final(self).input_text == old(self).input_text,
            final(self).same_frame(old(self)),
    {
        let mut taken = blank_state();
        std::mem::swap(&mut taken, &mut self.state);
        self.state = match taken {
            AppState::Settings(ss) => restore_screen(ss.previous_state),
            other => other,
        };
    }

    /// Answers the save question: saving returns to the settings panel and
    /// asks the event loop to save; discarding returns to the screen the panel
    /// was opened from. Nothing happens on another screen.
    pub fn handle_save_confirmation(&mut self, save: bool) -> (r: Action)
        ensures
            match old(self).state {
                AppState::SaveConfirmation(c) => if save {
                    (final(self).state matches AppState::Settings(ss) && reopened(ss, c.parent_settings))
                        && r is SaveSettings
                } else {
                    restored_screen(final(self).state, c.parent_settings.previous_state)
                        && r is Nothing
                },
                _ => final(self).state == old(self).state && r is Nothing,
            },
            final(self).input_text == old(self).input_text,
            final(self).same_frame(old(self)),
    {
        let mut taken = blank_state();
        std::mem::swap(&mut taken, &mut self.state);
        match taken {
            AppState::SaveConfirmation(c) => if save {
                self.state = AppState::Settings(reopen(c.parent_settings));
                Action::SaveSettings
            } else {
                self.state = restore_screen(c.parent_settings.previous_state);
                Action::Nothing
            },
            other => {
                self.state = other;
                Action::Nothing
            },
        }
    }

    /// Moves the settings panel to the next of its `section_count` sections.
    pub fn next_settings_section(&mut self, section_count: usize)
        ensures
            on_settings(
                old(self).state,
                final(self).state,
                |a: SettingsState<S>, b: SettingsState<S>| next_section_of(a, b, section_count),
            ),
            final(self).input_text == old(self).input_text,
            final(self).same_frame(old(self)),
    {
        match &mut self.state {
            AppState::Settings(ss) => {
                let mut c = SettingsCursor {
                    selected_section: ss.selected_section,
                    selected_field: ss.selected_field,
                    scroll_offset: ss.scroll_offset,
                };
                c.next_section(section_count);
                ss.selected_section = c.selected_section;
                ss.selected_field = c.selected_field;
                ss.scroll_offset = c.scroll_offset;
            },
            _ => {},
        }
    }

    /// Moves the settings panel to the previous of its `section_count`
    /// sections.
    pub fn prev_settings_section(&mut self, section_count: usize)
        ensures
            on_settings(
                old(self).state,
                final(self).state,
                |a: SettingsState<S>, b: SettingsState<S>| prev_section_of(a, b, section_count),
            ),
            final(self).input_text == old(self).input_text,
            final(self).same_frame(old(self)),
    {
        match &mut self.state {
            AppState::Settings(ss) => {
                let mut c = SettingsCursor {
                    selected_section: ss.selected_section,
                    selected_field: ss.selected_field,
                    scroll_offset: ss.scroll_offset,
                };
                c.prev_section(section_count);
                ss.selected_section = c.selected_section;
                ss.selected_field = c.selected_field;
                ss.scroll_offset = c.scroll_offset;
            },
            _ => {},
        }
    }

    /// Moves the settings panel to the next of the `field_count` fields of
    /// its section.
    pub fn next_settings_field(&mut self, field_count: usize)
        ensures
            on_settings(
                old(self).state,
                final(self).state,
                |a: SettingsState<S>, b: SettingsState<S>| next_field_of(a, b, field_count),
            ),
            final(self).input_text == old(self).input_text,
            final(self).same_frame(old(self)),
    {
        match &mut self.state {
            AppState::Settings(ss) => {
                let mut c = SettingsCursor {
                    selected_section: ss.selected_section,
                    selected_field: ss.selected_field,
                    scroll_offset: ss.scroll_offset,
                };
                c.next_field(field_count);
                ss.selected_field = c.selected_field;
            },
            _ => {},
        }
    }

    /// Moves the settings panel to the previous of the `field_count` fields
    /// of its section.
    pub fn prev_settings_field(&mut self, field_count: usize)
        ensures
            on_settings(
                old(self).state,
                final(self).state,
                |a: SettingsState<S>, b: SettingsState<S>| prev_field_of(a, b, field_count),
            ),
            final(self).input_text == old(self).input_text,
            final(self).same_frame(old(self)),
    {
        match &mut self.state {
            AppState::Settings(ss) => {
                let mut c = SettingsCursor {
                    selected_section: ss.selected_section,
                    selected_field: ss.selected_field,
                    scroll_offset: ss.scroll_offset,
                };
                c.prev_field(field_count);
                ss.selected_field = c.selected_field;
            },
            _ => {},
        }
    }

    /// Starts typing a value for the selected field, the input showing its
    /// current value `value` (empty when it reads "(not set)").
    pub fn begin_field_edit(&mut self, value: String)
        requires
            old(self).state matches AppState::Settings(ss) ==> ss.text_input.wf(),
        ensures
            on_settings(
                old(self).state,
                final(self).state,
                |a: SettingsState<S>, b: SettingsState<S>| edit_begun(a, b, value),
            ),
            final(self).input_text == old(self).input_text,
            final(self).same_frame(old(self)),
    {
        match &mut self.state {
            AppState::Settings(ss) => {
                ss.editing_mode = true;
                if same_text(&value, "(not set)") {
                    ss.text_input.clear();
                } else {
                    ss.text_input.set_text(value.as_str());
                }
            },
            _ => {},
        }
    }

    /// Edits the selected field `field` of the settings panel: a list of
    /// strings opens the list editor, the wordlists the wordlist manager,
    /// the colour scheme the theme picker, a choice the toggle list; any
    /// other value but a yes/no one is typed, starting from its text. Nothing
    /// happens on another screen.
    pub fn edit_current_field(&mut self, field: FieldEdit)
        requires
            old(self).state matches AppState::Settings(ss) ==> ss.text_input.wf(),
        ensures
            match old(self).state {
                AppState::Settings(panel) => match field {
                    FieldEdit::Boolean => final(self).state == old(self).state,
                    FieldEdit::StringList(id, label, items) => list_editor_opened(
                        final(self).state,
                        panel,
                        id,
                        label,
                        items,
                    ),
                    FieldEdit::WordlistManager(files) => manager_opened(final(self).state, panel, files),
                    FieldEdit::ThemePicker => picker_opened(final(self).state, panel),
                    FieldEdit::ToggleList(id, label, all_items, selected) => toggle_list_opened(
                        final(self).state,
                        panel,
                        id,
                        label,
                        all_items,
                        selected,
                    ),
                    FieldEdit::Typed(value) => final(self).state matches AppState::Settings(b)
                        && edit_begun(panel, b, value),
                },
                _ => final(self).state == old(self).state,
            },
            final(self).input_text == old(self).input_text,
            final(self).same_frame(old(self)),
    {
        match field {
            FieldEdit::Boolean => {},
            FieldEdit::StringList(id, label, items) => self.open_list_editor(id, label, items),
            FieldEdit::WordlistManager(files) => self.open_wordlist_manager(files),
            FieldEdit::ThemePicker => self.open_theme_picker(),
            FieldEdit::ToggleList(id, label, all_items, selected) => self.open_toggle_list_editor(
                id,
                label,
                all_items,
                selected,
            ),
            FieldEdit::Typed(value) => self.begin_field_edit(value),
        }
    }

    /// Stops typing a value, dropping it.
    pub fn cancel_field_edit(&mut self)
        requires
            old(self).state matches AppState::Settings(ss) ==> ss.text_input.wf(),
        ensures
            on_settings(
                old(self).state,
                final(self).state,
                |a: SettingsState<S>, b: SettingsState<S>| edit_cancelled(a, b),
            ),
            final(self).input_text == old(self).input_text,
            final(self).same_frame(old(self)),
    {
        match &mut self.state {
            AppState::Settings(ss) => {
                ss.editing_mode = false;
                ss.text_input.clear();
            },
            _ => {},
        }
    }

    /// Finishes typing a value for the field `field_id`, which the caller
    /// read with `validation::parse_input` and, when it was valid, stored:
    /// `outcome` is `Ok` then, else the validation message. A valid value
    /// ends the typing and clears the field's message; an invalid one keeps
    /// the typing and records the message. Nothing happens unless a value is
    /// being typed.
    pub fn confirm_field_edit(&mut self, field_id: String, outcome: Result<(), String>)
        requires
            old(self).state matches AppState::Settings(ss) ==> ss.text_input.wf(),
        ensures
            on_settings(
                old(self).state,
                final(self).state,
                |a: SettingsState<S>, b: SettingsState<S>|
                    if !a.editing_mode {
                        b == a
                    } else {
                        match outcome {
                            Ok(()) => {
                                &&& b == SettingsState {
                                    editing_mode: false,
                                    text_input: b.text_input,
                                    validation_errors: b.validation_errors,
                                    ..a
                                }
                                &&& b.text_input.wf() && b.text_input.text() == Seq::<char>::empty()
                                &&& error_views(b.validation_errors@) == drop_field(
                                    error_views(a.validation_errors@),
                                    field_id@,
                                )
                            },
                            Err(m) => {
                                &&& b == SettingsState { validation_errors: b.validation_errors, ..a }
                                &&& error_views(b.validation_errors@) == drop_field(
                                    error_views(a.validation_errors@),
                                    field_id@,
                                ).push((field_id@, m@))
                            },
                        }
                    },
            ),
            final(self).input_text == old(self).input_text,
            final(self).same_frame(old(self)),
    {
        match &mut self.state {
            AppState::Settings(ss) => {
                if ss.editing_mode {
                    match outcome {
                        Ok(()) => {
                            remove_field_errors(&mut ss.validation_errors, &field_id);
                            ss.editing_mode = false;
                            ss.text_input.clear();
                        },
                        Err(m) => {
                            remove_field_errors(&mut ss.validation_errors, &field_id);
                            let ghost before = ss.validation_errors@;
                            ss.validation_errors.push((field_id, m));
                            proof {
                                assert(error_views(ss.validation_errors@) =~= error_views(before).push(
                                    (field_id@, m@),
                                ));
                            }
                        },
                    }
                }
            },
            _ => {},
        }
    }

    /// Types `c` into the input the screen edits: the settings panel's while
    /// a value is typed, the list editor's, or the wordlist manager's path
    /// when it has the focus.
    pub fn input_char(&mut self, c: char)
        requires
            typing_ok(old(self).state, c),
        ensures
            input_edited(
                old(self).state,
                final(self).state,
                |x: TiState, y: TiState| y == ti_insert(x, c),
            ),
            final(self).input_text == old(self).input_text,
            final(self).same_frame(old(self)),
    {
        match &mut self.state {
            AppState::Settings(ss) => {
                if ss.editing_mode {
                    ss.text_input.insert_char(c);
                }
            },
            AppState::ListEditor(le) => le.editor.text_input.insert_char(c),
            AppState::WordlistManager(w) => {
                if w.manager.focus == WordlistManagerFocus::AddPathInput {
                    w.manager.text_input.insert_char(c);
                }
            },
            _ => {},
        }
    }

    /// Deletes the character before the cursor of the input the screen
    /// edits (see `input_char`).
    pub fn input_backspace(&mut self)
        requires
            erasing_ok(old(self).state),
        ensures
            input_edited(
                old(self).state,
                final(self).state,
                |x: TiState, y: TiState| y == ti_backspace(x),
            ),
            final(self).input_text == old(self).input_text,
            final(self).same_frame(old(self)),
    {
        match &mut self.state {
            AppState::Settings(ss) => {
                if ss.editing_mode {
                    ss.text_input.backspace();
                }
            },
            AppState::ListEditor(le) => le.editor.text_input.backspace(),
            AppState::WordlistManager(w) => {
                if w.manager.focus == WordlistManagerFocus::AddPathInput {
                    w.manager.text_input.backspace();
                }
            },
            _ => {},
        }
    }

    /// Opens the list editor on `items`, the value of the settings field
    /// `field_id` (labelled `field_label`), from the settings panel; nothing
    /// happens on another screen.
    pub fn open_list_editor(&mut self, field_id: String, field_label: String, items: Vec<String>)
        ensures
            match old(self).state {
                AppState::Settings(panel) => list_editor_opened(final(self).state, panel, field_id, field_label, items),
                _ => final(self).state == old(self).state,
            },
            final(self).input_text == old(self).input_text,
            final(self).same_frame(old(self)),
    {
        let mut taken = blank_state();
        std::mem::swap(&mut taken, &mut self.state);
        self.state = match taken {
            AppState::Settings(panel) => AppState::ListEditor(
                ListEditorState {
                    field_id,
                    field_label,
                    editor: ListEditor { items, selected_item: None, text_input: TextInput::new() },
                    parent_settings: take_snapshot(panel),
                },
            ),
            other => other,
        };
    }

    /// Opens the toggle list on `all_items`, with `selected_items` (the value
    /// of the settings field `field_id`, labelled `field_label`) selected and
    /// the cursor on the first item, from the settings panel; nothing happens
    /// on another screen.
    pub fn open_toggle_list_editor(
        &mut self,
        field_id: String,
        field_label: String,
        all_items: Vec<String>,
        selected_items: Vec<String>,
    )
        ensures
            match old(self).state {
                AppState::Settings(panel) => toggle_list_opened(
                    final(self).state,
                    panel,
                    field_id,
                    field_label,
                    all_items,
                    selected_items,
                ),
                _ => final(self).state == old(self).state,
            },
            final(self).input_text == old(self).input_text,
            final(self).same_frame(old(self)),
    {
        let mut taken = blank_state();
        std::mem::swap(&mut taken, &mut self.state);
        self.state = match taken {
            AppState::Settings(panel) => AppState::ToggleListEditor(
                ToggleListEditorState {
                    field_id,
                    field_label,
                    list: ToggleList { all_items, selected_items, cursor_index: 0, scroll_offset: 0 },
                    parent_settings: take_snapshot(panel),
                },
            ),
            other => other,
        };
    }

    /// Opens the wordlist manager on `wordlist_files` (as storage lists
    /// them), the first row selected, the table focused, no change pending,
    /// from the settings panel; nothing happens on another screen.
    pub fn open_wordlist_manager(&mut self, wordlist_files: Vec<WordlistFileInfo>)
        ensures
            match old(self).state {
                AppState::Settings(panel) => manager_opened(final(self).state, panel, wordlist_files),
                _ => final(self).state == old(self).state,
            },
            final(self).input_text == old(self).input_text,
            final(self).same_frame(old(self)),
    {
        let mut taken = blank_state();
        std::mem::swap(&mut taken, &mut self.state);
        self.state = match taken {
            AppState::Settings(panel) => AppState::WordlistManager(
                WordlistManagerState {
                    manager: WordlistManager {
                        wordlist_files,
                        selected_row: 0,
                        focus: WordlistManagerFocus::Table,
                        text_input: TextInput::new(),
                        pending_changes: HashMap::new(),
                    },
                    scroll_offset: 0,
                    parent_settings: take_snapshot(panel),
                },
            ),
            other => other,
        };
    }

    /// Opens the theme picker on the first theme, choosing (not typing
    /// colours), from the settings panel; nothing happens on another screen.
    pub fn open_theme_picker(&mut self)
        ensures
            match old(self).state {
                AppState::Settings(panel) => picker_opened(final(self).state, panel),
                _ => final(self).state == old(self).state,
            },
            final(self).input_text == old(self).input_text,
            final(self).same_frame(old(self)),
    {
        let mut taken = blank_state();
        std::mem::swap(&mut taken, &mut self.state);
        self.state = match taken {
            AppState::Settings(panel) => AppState::ThemePicker(
                ThemePickerState {
                    picker: ThemePicker {
                        selected_theme: 0,
                        custom_mode: false,
                        custom_colors: CustomColors::default(),
                        custom_field: 0,
                    },
                    parent_settings: take_snapshot(panel),
                },
            ),
            other => other,
        };
    }

    /// Asks whether to save the changed settings, from the settings panel;
    /// nothing happens on another screen.
    pub fn show_save_confirmation(&mut self)
        ensures
            match old(self).state {
                AppState::Settings(panel) => final(self).state matches AppState::SaveConfirmation(c)
                    && snapshot_of(c.parent_settings, panel),
                _ => final(self).state == old(self).state,
            },
            final(self).input_text == old(self).input_text,
            final(self).same_frame(old(self)),
    {
        let mut taken = blank_state();
        std::mem::swap(&mut taken, &mut self.state);
        self.state = match taken {
            AppState::Settings(panel) => AppState::SaveConfirmation(
                SaveConfirmationState { parent_settings: take_snapshot(panel) },
            ),
            other => other,
        };
    }

    /// Adds the item typed in the list editor (see `ListEditor::add_item`).
    pub fn list_editor_add_item(&mut self)
        requires
            old(self).state matches AppState::ListEditor(le) ==> le.editor.text_input.wf(),
        ensures
            on_list_editor(old(self).state, final(self).state, |a, b| list_added(a, b)),
            final(self).input_text == old(self).input_text,
            final(self).same_frame(old(self)),
    {
        match &mut self.state {
            AppState::ListEditor(le) => le.editor.add_item(),
            _ => {},
        }
    }

    /// Removes the selected item of the list editor (see
    /// `ListEditor::remove_item`).
    pub fn list_editor_remove_item(&mut self)
        ensures
            on_list_editor(old(self).state, final(self).state, |a, b| list_removed(a, b)),
            final(self).input_text == old(self).input_text,
            final(self).same_frame(old(self)),
    {
        match &mut self.state {
            AppState::ListEditor(le) => le.editor.remove_item(),
            _ => {},
        }
    }

    /// Selects the next item of the list editor, wrapping.
    pub fn list_editor_next_item(&mut self)
        ensures
            on_list_editor(old(self).state, final(self).state, |a, b| list_next(a, b)),
            final(self).input_text == old(self).input_text,
            final(self).same_frame(old(self)),
    {
        match &mut self.state {
            AppState::ListEditor(le) => le.editor.next_item(),
            _ => {},
        }
    }

    /// Selects the previous item of the list editor, wrapping.
    pub fn list_editor_prev_item(&mut self)
        ensures
            on_list_editor(old(self).state, final(self).state, |a, b| list_prev(a, b)),
            final(self).input_text == old(self).input_text,
            final(self).same_frame(old(self)),
    {
        match &mut self.state {
            AppState::ListEditor(le) => le.editor.prev_item(),
            _ => {},
        }
    }

    /// Leaves the list editor for the settings panel it was opened from and
    /// returns the field and the edited items, which the caller stores in
    /// that field. Nothing happens (and `None` comes back) on another screen.
    pub fn finish_list_editor(&mut self) -> (r: Option<(String, Vec<String>)>)
        ensures
            list_editor_finished(old(self).state, final(self).state, r),
            final(self).input_text == old(self).input_text,
            final(self).same_frame(old(self)),
    {
        let mut taken = blank_state();
        std::mem::swap(&mut taken, &mut self.state);
        match taken {
            AppState::ListEditor(le) => {
                self.state = AppState::Settings(reopen(le.parent_settings));
                Some((le.field_id, le.editor.items))
            },
            other => {
                self.state = other;
                None
            },
        }
    }

    /// Leaves the list editor for the settings panel, dropping the edits.
    pub fn cancel_list_editor(&mut self)
        ensures
            old(self).state is ListEditor ==> editor_cancelled(old(self).state, final(self).state),
            !(old(self).state is ListEditor) ==> final(self).state == old(self).state,
            final(self).input_text == old(self).input_text,
            final(self).same_frame(old(self)),
    {
        let mut taken = blank_state();
        std::mem::swap(&mut taken, &mut self.state);
        self.state = match taken {
            AppState::ListEditor(le) => AppState::Settings(reopen(le.parent_settings)),
            other => other,
        };
    }

    /// Leaves the wordlist manager for the settings panel and returns the
    /// enabled states changed, by file ID, which the caller applies to the
    /// stored wordlists. `None` on another screen.
    pub fn finish_wordlist_manager(&mut self) -> (r: Option<HashMap<i64, bool>>)
        ensures
            match old(self).state {
                AppState::WordlistManager(wm) => (final(self).state matches AppState::Settings(ss) && reopened(ss, wm.parent_settings)) && r == Some(wm.manager.pending_changes),
                _ => final(self).state == old(self).state && r is None,
            },
            final(self).input_text == old(self).input_text,
            final(self).same_frame(old(self)),
    {
        let mut taken = blank_state();
        std::mem::swap(&mut taken, &mut self.state);
        match taken {
            AppState::WordlistManager(wm) => {
                self.state = AppState::Settings(reopen(wm.parent_settings));
                Some(wm.manager.pending_changes)
            },
            other => {
                self.state = other;
                None
            },
        }
    }

    /// Leaves the wordlist manager for the settings panel, dropping the
    /// changes.
    pub fn cancel_wordlist_manager(&mut self)
        ensures
            match old(self).state {
                AppState::WordlistManager(wm) => (final(self).state matches AppState::Settings(ss) && reopened(ss, wm.parent_settings)),
                _ => final(self).state == old(self).state,
            },
            final(self).input_text == old(self).input_text,
            final(self).same_frame(old(self)),
    {
        let mut taken = blank_state();
        std::mem::swap(&mut taken, &mut self.state);
        self.state = match taken {
            AppState::WordlistManager(wm) => AppState::Settings(reopen(wm.parent_settings)),
            other => other,
        };
    }

    /// Moves the focus of the wordlist manager: table, then path input, then
    /// Done, then table again.
    pub fn wordlist_manager_next_focus(&mut self)
        ensures
            match old(self).state {
                AppState::WordlistManager(a) => final(self).state matches AppState::WordlistManager(b)
                    && b == WordlistManagerState {
                    manager: WordlistManager { focus: next_manager_focus(a.manager.focus), ..a.manager },
                    ..a
                },
                _ => final(self).state == old(self).state,
            },
            final(self).input_text == old(self).input_text,
            final(self).same_frame(old(self)),
    {
        match &mut self.state {
            AppState::WordlistManager(wm) => {
                wm.manager.focus = wm.manager.focus.next();
            },
            _ => {},
        }
    }

    /// Moves the cursor of the toggle list up.
    pub fn toggle_list_cursor_up(&mut self)
        ensures
            on_toggle_list(old(self).state, final(self).state, |a, b| toggled_up(a, b)),
            final(self).input_text == old(self).input_text,
            final(self).same_frame(old(self)),
    {
        match &mut self.state {
            AppState::ToggleListEditor(t) => t.list.cursor_up(),
            _ => {},
        }
    }

    /// Moves the cursor of the toggle list down.
    pub fn toggle_list_cursor_down(&mut self)
        ensures
            on_toggle_list(old(self).state, final(self).state, |a, b| toggled_down(a, b)),
            final(self).input_text == old(self).input_text,
            final(self).same_frame(old(self)),
    {
        match &mut self.state {
            AppState::ToggleListEditor(t) => t.list.cursor_down(),
            _ => {},
        }
    }

    /// Selects or unselects the highlighted item of the toggle list.
    pub fn toggle_list_toggle_item(&mut self)
        ensures
            on_toggle_list(old(self).state, final(self).state, |a, b| toggled_item(a, b)),
            final(self).input_text == old(self).input_text,
            final(self).same_frame(old(self)),
    {
        match &mut self.state {
            AppState::ToggleListEditor(t) => t.list.toggle_item(),
            _ => {},
        }
    }

    /// Selects every item of the toggle list.
    pub fn toggle_list_select_all(&mut self)
        ensures
            on_toggle_list(old(self).state, final(self).state, |a, b| selected_all(a, b)),
            final(self).input_text == old(self).input_text,
            final(self).same_frame(old(self)),
    {
        match &mut self.state {
            AppState::ToggleListEditor(t) => t.list.select_all(),
            _ => {},
        }
    }

    /// Unselects every item of the toggle list.
    pub fn toggle_list_select_none(&mut self)
        ensures
            on_toggle_list(old(self).state, final(self).state, |a, b| selected_none(a, b)),
            final(self).input_text == old(self).input_text,
            final(self).same_frame(old(self)),
    {
        match &mut self.state {
            AppState::ToggleListEditor(t) => t.list.select_none(),
            _ => {},
        }
    }

    /// Leaves the toggle list for the settings panel and returns the field
    /// and the selected items, which the caller stores in that field. `None`
    /// on another screen.
    pub fn close_toggle_list_editor(&mut self) -> (r: Option<(String, Vec<String>)>)
        ensures
            match old(self).state {
                AppState::ToggleListEditor(t) => (final(self).state matches AppState::Settings(ss) && reopened(ss, t.parent_settings)) && r == Some((t.field_id, t.list.selected_items)),
                _ => final(self).state == old(self).state && r is None,
            },
            final(self).input_text == old(self).input_text,
            final(self).same_frame(old(self)),
    {
        let mut taken = blank_state();
        std::mem::swap(&mut taken, &mut self.state);
        match taken {
            AppState::ToggleListEditor(t) => {
                self.state = AppState::Settings(reopen(t.parent_settings));
                Some((t.field_id, t.list.selected_items))
            },
            other => {
                self.state = other;
                None
            },
        }
    }

    /// Leaves the theme picker for the settings panel; the caller applies a
    /// chosen scheme to it.
    pub fn close_theme_picker(&mut self)
        ensures
            match old(self).state {
                AppState::ThemePicker(p) => (final(self).state matches AppState::Settings(ss) && reopened(ss, p.parent_settings)),
                _ => final(self).state == old(self).state,
            },
            final(self).input_text == old(self).input_text,
            final(self).same_frame(old(self)),
    {
        let mut taken = blank_state();
        std::mem::swap(&mut taken, &mut self.state);
        self.state = match taken {
            AppState::ThemePicker(p) => AppState::Settings(reopen(p.parent_settings)),
            other => other,
        };
    }

    /// Leaves the save question for the settings panel, neither saving nor
    /// discarding.
    pub fn cancel_save_confirmation(&mut self)
        ensures
            match old(self).state {
                AppState::SaveConfirmation(c) => (final(self).state matches AppState::Settings(ss) && reopened(ss, c.parent_settings)),
                _ => final(self).state == old(self).state,
            },
            final(self).input_text == old(self).input_text,
            final(self).same_frame(old(self)),
    {
        let mut taken = blank_state();
        std::mem::swap(&mut taken, &mut self.state);
        self.state = match taken {
            AppState::SaveConfirmation(c) => AppState::Settings(reopen(c.parent_settings)),
            other => other,
        };
    }
}

/// Opening the list editor and finishing it at once hands back the field's
/// items unchanged and returns to the same settings panel, no value being
/// typed.
pub proof fn lemma_finish_after_open_list_editor<S>(
    panel: SettingsState<S>,
    opened: AppState<S>,
    finished: AppState<S>,
    field_id: String,
    field_label: String,
    items: Vec<String>,
    r: Option<(String, Vec<String>)>,
)
    requires
        opened matches AppState::ListEditor(le) && fresh_list_editor(
            le,
            field_id,
            field_label,
            items,
            panel,
        ),
        list_editor_finished(opened, finished, r),
    ensures
        finished matches AppState::Settings(ss) && back_at(ss, panel),
        r == Some((field_id, items)),
{
}

/// Opening the list editor and cancelling it returns to the same settings
/// panel, no value being typed.
pub proof fn lemma_cancel_after_open_list_editor<S>(
    panel: SettingsState<S>,
    opened: AppState<S>,
    cancelled: AppState<S>,
    field_id: String,
    field_label: String,
    items: Vec<String>,
)
    requires
        opened matches AppState::ListEditor(le) && fresh_list_editor(
            le,
            field_id,
            field_label,
            items,
            panel,
        ),
        editor_cancelled(opened, cancelled),
    ensures
        cancelled matches AppState::Settings(ss) && back_at(ss, panel),
{
}

} // verus!
