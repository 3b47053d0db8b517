//! The editors opened from the settings panel: the list editor, the toggle
//! list, the wordlist manager and the theme picker, with the key decisions
//! of the settings panel itself.

use std::collections::HashMap;

use vstd::prelude::*;

use crate::input::Action;
use crate::keys::{Key, KeyPress};
use crate::parse::{trim, trim_spec};
use crate::state::{WordlistFileInfo, WordlistManagerFocus};
use crate::text::{fits_with, string_views};
use crate::text_input::{ti_backspace, ti_insert, TextInput, TiState};
use crate::setup::{field_slot, is_digit, scheme_of, view_slot, view_with_slot, CustomColors, CustomColorsView};
use crate::strings::{string_pop, string_push};
use crate::text::{lemma_encode_utf8_single, utf8_len};
use crate::themes::{theme_at, theme_table, ColorScheme, THEME_COUNT};

verus! {

broadcast use vstd::std_specs::hash::group_hash_axioms;

// ----------------------------------------------------------------------------
// List editor
// ----------------------------------------------------------------------------

/// A list of strings being edited: its items, the selected item and the
/// input for a new item.
#[derive(Debug)]
pub struct ListEditor {
    /// The items.
    pub items: Vec<String>,
    /// The selected item, if any.
    pub selected_item: Option<usize>,
    /// The input for a new item.
    pub text_input: TextInput,
}

/// The selection after moving down a list of `n` items: the next item,
/// wrapping to the first; the first when nothing was selected; nothing in an
/// empty list.
pub open spec fn select_next(sel: Option<usize>, n: int) -> Option<usize> {
    if n == 0 {
        None
    } else {
        match sel {
            Some(i) => Some(((i + 1) % n) as usize),
            None => Some(0),
        }
    }
}

/// The selection after moving up a list of `n` items: the previous item,
/// wrapping to the last; the last when nothing was selected; nothing in an
/// empty list.
pub open spec fn select_prev(sel: Option<usize>, n: int) -> Option<usize> {
    if n == 0 {
        None
    } else {
        match sel {
            Some(i) => if i == 0 {
                Some((n - 1) as usize)
            } else {
                Some((i - 1) as usize)
            },
            None => Some((n - 1) as usize),
        }
    }
}

/// The items and selection after removing the selected item: the selection
/// stays at its position, moves to the new last item past the end, and is
/// cleared when the list empties; nothing changes without a valid selection.
pub open spec fn removed(items: Seq<String>, sel: Option<usize>) -> (Seq<String>, Option<usize>) {
    match sel {
        Some(i) => if i < items.len() {
            let rest = items.remove(i as int);
            (
                rest,
                if rest.len() == 0 {
                    None
                } else if i >= rest.len() {
                    Some((rest.len() - 1) as usize)
                } else {
                    Some(i)
                },
            )
        } else {
            (items, sel)
        },
        None => (items, sel),
    }
}

/// Removing the selected item `i` of the list editor deletes exactly that
/// item: the items before it keep their places, the items after it move up
/// by one, and the list is one shorter; the selection stays at `i`, moves
/// to the new last item when `i` was the last, and is cleared when the list
/// empties. The typed text is untouched.
pub proof fn lemma_remove_deletes_selected(pre: ListEditor, post: ListEditor, i: usize)
    requires
        list_removed(pre, post),
        pre.selected_item == Some(i),
        i < pre.items@.len(),
    ensures
        post.items@.len() == pre.items@.len() - 1,
        forall|k: int| 0 <= k < i ==> post.items@[k] == #[trigger] pre.items@[k],
        forall|k: int| i <= k < post.items@.len() ==> #[trigger] post.items@[k] == pre.items@[k + 1],
        post.selected_item == if pre.items@.len() == 1 {
            None
        } else if i + 1 == pre.items@.len() {
            Some((i - 1) as usize)
        } else {
            Some(i)
        },
        post.text_input == pre.text_input,
{
}

/// After adding the typed item to the list editor: the trimmed text is appended
/// and selected unless it is blank; the input is cleared either way.
pub open spec fn list_added(pre: ListEditor, post: ListEditor) -> bool {
    &&& post.text_input.wf()
    &&& post.text_input.text() == Seq::<char>::empty()
    &&& post.text_input.cursor() == 0
    &&& post.text_input.limit() == pre.text_input.limit()
    &&& ({
        let t = trim_spec(pre.text_input.text());
        if t.len() > 0 {
            &&& string_views(post.items@) == string_views(pre.items@).push(t)
            &&& post.selected_item == Some(pre.items@.len() as usize)
        } else {
            &&& post.items == pre.items
            &&& post.selected_item == pre.selected_item
        }
    })
}

/// After removing the selected item of the list editor (see `removed`).
pub open spec fn list_removed(pre: ListEditor, post: ListEditor) -> bool {
    &&& post.text_input == pre.text_input
    &&& (post.items@, post.selected_item) == removed(
        pre.items@,
        pre.selected_item,
    )
}

/// After selecting the next item of the list editor (see `select_next`).
pub open spec fn list_next(pre: ListEditor, post: ListEditor) -> bool {
    &&& post.selected_item == select_next(
        pre.selected_item,
        pre.items@.len() as int,
    )
    &&& post.items == pre.items
    &&& post.text_input == pre.text_input
}

/// After selecting the previous item of the list editor (see `select_prev`).
pub open spec fn list_prev(pre: ListEditor, post: ListEditor) -> bool {
    &&& post.selected_item == select_prev(
        pre.selected_item,
        pre.items@.len() as int,
    )
    &&& post.items == pre.items
    &&& post.text_input == pre.text_input
}

impl ListEditor {
    /// Adds the typed text, trimmed, as a new item (unless it is blank) and
    /// selects it; the input is cleared either way.
    pub fn add_item(&mut self)
        requires
            old(self).text_input.wf(),
        ensures
            list_added(*old(self), *final(self)),
    {
        let trimmed = trim(self.text_input.get_text()).to_owned();
        if trimmed.as_str().unicode_len() > 0 {
            let ghost before = self.items@;
            self.items.push(trimmed);
            proof {
                assert(string_views(self.items@) =~= string_views(before).push(
                    trim_spec(old(self).text_input.text()),
                ));
            }
            self.selected_item = Some(self.items.len() - 1);
        }
        self.text_input.clear();
    }

    /// Removes the selected item; the selection stays at its position, moves
    /// to the new last item past the end, and is cleared when the list
    /// empties.
    pub fn remove_item(&mut self)
        ensures
            list_removed(*old(self), *final(self)),
    {
        if let Some(idx) = self.selected_item {
            if idx < self.items.len() {
                self.items.remove(idx);
                if self.items.len() == 0 {
                    self.selected_item = None;
                } else if idx >= self.items.len() {
                    self.selected_item = Some(self.items.len() - 1);
                }
            }
        }
    }

    /// Selects the next item (see `select_next`).
    pub fn next_item(&mut self)
        ensures
            list_next(*old(self), *final(self)),
    {
        let n = self.items.len();
        if n == 0 {
            self.selected_item = None;
        } else {
            self.selected_item = Some(
                match self.selected_item {
                    Some(i) => {
                        proof {
                            let ii = i as int;
                            let nn = n as int;
                            vstd::arithmetic::div_mod::lemma_add_mod_noop(ii, 1, nn);
                            if nn > 1 {
                                vstd::arithmetic::div_mod::lemma_small_mod(1, nn as nat);
                            } else {
                                assert(ii % nn == 0 && (ii + 1) % nn == 0) by (nonlinear_arith)
                                    requires
                                        nn == 1,
                                ;
                            }
                            vstd::arithmetic::div_mod::lemma_mod_bound(ii, nn);
                        }
                        (i % n + 1) % n
                    },
                    None => 0,
                },
            );
        }
    }

    /// Selects the previous item (see `select_prev`).
    pub fn prev_item(&mut self)
        ensures
            list_prev(*old(self), *final(self)),
    {
        let n = self.items.len();
        if n == 0 {
            self.selected_item = None;
        } else {
            self.selected_item = Some(
                match self.selected_item {
                    Some(i) => if i == 0 {
                        n - 1
                    } else {
                        i - 1
                    },
                    None => n - 1,
                },
            );
        }
    }
}

/// What a key asks of the list editor.
pub enum ListEditorEffect {
    Nothing,
    Finish,
    Add,
    Remove,
    Backspace,
    Next,
    Prev,
    Type(char),
}

/// What a key does in the list editor: Esc finishes; Enter adds the typed
/// item; Backspace edits the input, or removes the selected item when the
/// input is empty; Delete removes it; Up/`k` and Down/`j` (without
/// modifiers) move the selection; other characters are typed.
pub open spec fn list_editor_key_spec(input_empty: bool, k: KeyPress) -> ListEditorEffect {
    match k.code {
        Key::Esc => ListEditorEffect::Finish,
        Key::Enter => ListEditorEffect::Add,
        Key::Backspace => if input_empty {
            ListEditorEffect::Remove
        } else {
            ListEditorEffect::Backspace
        },
        Key::Delete => ListEditorEffect::Remove,
        Key::Up if k.unmodified() => ListEditorEffect::Prev,
        Key::Char('k') if k.unmodified() => ListEditorEffect::Prev,
        Key::Down if k.unmodified() => ListEditorEffect::Next,
        Key::Char('j') if k.unmodified() => ListEditorEffect::Next,
        Key::Char(c) => ListEditorEffect::Type(c),
        _ => ListEditorEffect::Nothing,
    }
}

/// After a key took the list editor from `pre` to `post` (see
/// `list_editor_key_spec`).
pub open spec fn list_editor_stepped(pre: ListEditor, post: ListEditor, k: KeyPress) -> bool {
    &&& post.text_input.wf()
    &&& match list_editor_key_spec(pre.text_input.text().len() == 0, k) {
        ListEditorEffect::Nothing | ListEditorEffect::Finish => post == pre,
        ListEditorEffect::Type(c) => post.text_input.state() == ti_insert(
            pre.text_input.state(),
            c,
        ) && post.items == pre.items && post.selected_item == pre.selected_item,
        ListEditorEffect::Backspace => post.text_input.state() == ti_backspace(
            pre.text_input.state(),
        ) && post.items == pre.items && post.selected_item == pre.selected_item,
        ListEditorEffect::Next => post.selected_item == select_next(
            pre.selected_item,
            pre.items@.len() as int,
        ) && post.items == pre.items && post.text_input == pre.text_input,
        ListEditorEffect::Prev => post.selected_item == select_prev(
            pre.selected_item,
            pre.items@.len() as int,
        ) && post.items == pre.items && post.text_input == pre.text_input,
        ListEditorEffect::Add => {
            let t = trim_spec(pre.text_input.text());
            &&& post.text_input.text() == Seq::<char>::empty()
            &&& post.text_input.cursor() == 0
            &&& t.len() > 0 ==> string_views(post.items@) == string_views(
                pre.items@,
            ).push(t) && post.selected_item == Some(pre.items@.len() as usize)
            &&& t.len() == 0 ==> post.items == pre.items
                && post.selected_item == pre.selected_item
        },
        ListEditorEffect::Remove => post.text_input == pre.text_input && (
        post.items@, post.selected_item) == removed(
            pre.items@,
            pre.selected_item,
        ),
    }
}

/// Handles a key in the list editor (see `list_editor_key_spec`); returns
/// whether the editor should finish (the caller hands the items back to the
/// settings).
pub fn list_editor_key(editor: &mut ListEditor, key: KeyPress) -> (finish: bool)
    requires
        old(editor).text_input.wf(),
        key.code matches Key::Char(c) ==> (old(editor).text_input.accepts_char() ==> fits_with(
            old(editor).text_input.text(),
            c,
        )),
    ensures
        finish == list_editor_key_spec(old(editor).text_input.text().len() == 0, key) is Finish,
        list_editor_stepped(*old(editor), *final(editor), key),
{
    let unmodified = !key.ctrl && !key.alt && !key.shift;
    match key.code {
        Key::Esc => true,
        Key::Enter => {
            editor.add_item();
            false
        },
        Key::Backspace => {
            if editor.text_input.is_empty() {
                editor.remove_item();
            } else {
                editor.text_input.backspace();
            }
            false
        },
        Key::Delete => {
            editor.remove_item();
            false
        },
        Key::Up if unmodified => {
            editor.prev_item();
            false
        },
        Key::Char('k') if unmodified => {
            editor.prev_item();
            false
        },
        Key::Down if unmodified => {
            editor.next_item();
            false
        },
        Key::Char('j') if unmodified => {
            editor.next_item();
            false
        },
        Key::Char(c) => {
            editor.text_input.insert_char(c);
            false
        },
        _ => false,
    }
}

// ----------------------------------------------------------------------------
// Toggle list
// ----------------------------------------------------------------------------

/// Rows of the toggle list that fit on screen.
pub const TOGGLE_VISIBLE_ROWS: usize = 15;

/// A fixed set of items, some of them selected, with a cursor.
#[derive(Debug)]
pub struct ToggleList {
    /// All items that can be selected.
    pub all_items: Vec<String>,
    /// The selected items.
    pub selected_items: Vec<String>,
    /// The highlighted item.
    pub cursor_index: usize,
    /// The first visible row.
    pub scroll_offset: usize,
}

/// `s` without the elements equal to `x`, in order.
pub open spec fn without(s: Seq<Seq<char>>, x: Seq<char>) -> Seq<Seq<char>>
    decreases s.len(),
{
    if s.len() == 0 {
        Seq::empty()
    } else {
        let rest = without(s.drop_last(), x);
        if s.last() == x {
            rest
        } else {
            rest.push(s.last())
        }
    }
}

/// After moving the cursor of the toggle list up: one row up (scrolling to keep it
/// visible), or nothing at the top.
pub open spec fn toggled_up(pre: ToggleList, post: ToggleList) -> bool {
    &&& post.all_items == pre.all_items
    &&& post.selected_items == pre.selected_items
    &&& pre.cursor_index > 0 ==> {
        &&& post.cursor_index == pre.cursor_index - 1
        &&& post.scroll_offset == if pre.cursor_index - 1 < pre.scroll_offset {
            (pre.cursor_index - 1) as usize
        } else {
            pre.scroll_offset
        }
    }
    &&& pre.cursor_index == 0 ==> post == pre
}

/// After moving the cursor of the toggle list down: one row down, stopping at the
/// last item, scrolled so that it stays among the visible rows.
pub open spec fn toggled_down(pre: ToggleList, post: ToggleList) -> bool {
    &&& post.all_items == pre.all_items
    &&& post.selected_items == pre.selected_items
    &&& ({
        let n = pre.all_items@.len();
        let last = if n == 0 {
            0
        } else {
            n - 1
        };
        let c = pre.cursor_index + 1;
        if pre.cursor_index < last {
            &&& post.cursor_index == c
            &&& post.scroll_offset == if c >= pre.scroll_offset
                + TOGGLE_VISIBLE_ROWS {
                (c - (TOGGLE_VISIBLE_ROWS - 1)) as usize
            } else {
                pre.scroll_offset
            }
        } else {
            post == pre
        }
    })
}

/// After toggling the highlighted item of the toggle list: selected when it was
/// not, unselected (every copy) when it was.
pub open spec fn toggled_item(pre: ToggleList, post: ToggleList) -> bool {
    &&& post.all_items == pre.all_items
    &&& post.cursor_index == pre.cursor_index
    &&& post.scroll_offset == pre.scroll_offset
    &&& ({
        let sel = string_views(pre.selected_items@);
        let i = pre.cursor_index;
        if i < pre.all_items@.len() {
            let item = pre.all_items@[i as int]@;
            string_views(post.selected_items@) == if sel.contains(item) {
                without(sel, item)
            } else {
                sel.push(item)
            }
        } else {
            post.selected_items == pre.selected_items
        }
    })
}

/// After selecting every item of the toggle list.
pub open spec fn selected_all(pre: ToggleList, post: ToggleList) -> bool {
    &&& string_views(post.selected_items@) == string_views(pre.all_items@)
    &&& post.all_items == pre.all_items
    &&& post.cursor_index == pre.cursor_index
    &&& post.scroll_offset == pre.scroll_offset
}

/// After unselecting every item of the toggle list.
pub open spec fn selected_none(pre: ToggleList, post: ToggleList) -> bool {
    &&& post.selected_items@.len() == 0
    &&& post.all_items == pre.all_items
    &&& post.cursor_index == pre.cursor_index
    &&& post.scroll_offset == pre.scroll_offset
}

impl ToggleList {
    /// Moves the cursor up, scrolling to keep it visible.
    pub fn cursor_up(&mut self)
        ensures
            toggled_up(*old(self), *final(self)),
    {
        if self.cursor_index > 0 {
            self.cursor_index = self.cursor_index - 1;
            if self.cursor_index < self.scroll_offset {
                self.scroll_offset = self.cursor_index;
            }
        }
    }

    /// Moves the cursor down, stopping at the last item, scrolling so that it
    /// stays among the visible rows.
    pub fn cursor_down(&mut self)
        ensures
            toggled_down(*old(self), *final(self)),
    {
        let n = self.all_items.len();
        let last = if n == 0 {
            0
        } else {
            n - 1
        };
        if self.cursor_index < last {
            self.cursor_index = self.cursor_index + 1;
            if self.cursor_index >= TOGGLE_VISIBLE_ROWS && self.cursor_index - TOGGLE_VISIBLE_ROWS
                >= self.scroll_offset {
                self.scroll_offset = self.cursor_index - (TOGGLE_VISIBLE_ROWS - 1);
            }
        }
    }

    /// Selects the highlighted item, or unselects it (every copy) when it is
    /// selected.
    pub fn toggle_item(&mut self)
        ensures
            toggled_item(*old(self), *final(self)),
    {
        let i = self.cursor_index;
        if i < self.all_items.len() {
            let item = self.all_items[i].clone();
            let ghost sel = string_views(self.selected_items@);
            let mut found = false;
            let mut kept: Vec<String> = Vec::new();
            let mut k: usize = 0;
            while k < self.selected_items.len()
                invariant
                    sel == string_views(self.selected_items@),
                    k <= sel.len(),
                    found == sel.take(k as int).contains(item@),
                    string_views(kept@) == without(sel.take(k as int), item@),
                decreases sel.len() - k,
            {
                proof {
                    assert(sel.take(k + 1).drop_last() =~= sel.take(k as int));
                    assert(sel.take(k + 1).last() == sel[k as int]);
                    if sel.take(k as int).contains(item@) {
                        let w = choose|w: int| 0 <= w < k && #[trigger] sel.take(k as int)[w] == item@;
                        assert(sel.take(k + 1)[w] == item@);
                    }
                    if sel.take(k + 1).contains(item@) {
                        let w = choose|w: int| 0 <= w < k + 1 && #[trigger] sel.take(k + 1)[w] == item@;
                        if w < k {
                            assert(sel.take(k as int)[w] == item@);
                        }
                    }
                }
                let same = self.selected_items[k] == item;
                if same {
                    found = true;
                } else {
                    let copy = self.selected_items[k].clone();
                    proof {
                        assert(string_views(kept@.push(copy)) =~= string_views(kept@).push(
                            copy@,
                        ));
                    }
                    kept.push(copy);
                }
                k = k + 1;
            }
            proof {
                assert(sel.take(sel.len() as int) =~= sel);
            }
            if found {
                self.selected_items = kept;
            } else {
                proof {
                    assert(string_views(self.selected_items@.push(item)) =~= sel.push(item@));
                }
                self.selected_items.push(item);
            }
        }
    }

    /// Selects every item.
    pub fn select_all(&mut self)
        ensures
            selected_all(*old(self), *final(self)),
    {
        self.selected_items = crate::state::clone_strings(&self.all_items);
    }

    /// Unselects every item.
    pub fn select_none(&mut self)
        ensures
            selected_none(*old(self), *final(self)),
    {
        self.selected_items = Vec::new();
    }
}

/// What a key asks of the toggle list.
pub enum ToggleListEffect {
    Nothing,
    Close,
    Up,
    Down,
    Toggle,
    All,
    NoneSelected,
}

/// What a key does in the toggle list: Esc and Enter close it (keeping the
/// selection); Up/`k`, Down/`j` move; Space toggles; `a` selects all, `n`
/// none.
pub open spec fn toggle_list_key_spec(k: KeyPress) -> ToggleListEffect {
    match k.code {
        Key::Esc | Key::Enter => ToggleListEffect::Close,
        Key::Up | Key::Char('k') => ToggleListEffect::Up,
        Key::Down | Key::Char('j') => ToggleListEffect::Down,
        Key::Char(' ') => ToggleListEffect::Toggle,
        Key::Char('a') | Key::Char('A') => ToggleListEffect::All,
        Key::Char('n') | Key::Char('N') => ToggleListEffect::NoneSelected,
        _ => ToggleListEffect::Nothing,
    }
}

/// After a key took the toggle list from `pre` to `post` (see
/// `toggle_list_key_spec`).
pub open spec fn toggle_list_stepped(pre: ToggleList, post: ToggleList, k: KeyPress) -> bool {
    match toggle_list_key_spec(k) {
        ToggleListEffect::Nothing | ToggleListEffect::Close => post == pre,
        ToggleListEffect::Up => toggled_up(pre, post),
        ToggleListEffect::Down => toggled_down(pre, post),
        ToggleListEffect::Toggle => toggled_item(pre, post),
        ToggleListEffect::All => selected_all(pre, post),
        ToggleListEffect::NoneSelected => selected_none(pre, post),
    }
}

/// Handles a key in the toggle list (see `toggle_list_key_spec`); returns
/// whether the list closes.
pub fn toggle_list_key(list: &mut ToggleList, key: KeyPress) -> (close: bool)
    ensures
        close == toggle_list_key_spec(key) is Close,
        toggle_list_stepped(*old(list), *final(list), key),
{
    match key.code {
        Key::Esc | Key::Enter => true,
        Key::Up | Key::Char('k') => {
            list.cursor_up();
            false
        },
        Key::Down | Key::Char('j') => {
            list.cursor_down();
            false
        },
        Key::Char(' ') => {
            list.toggle_item();
            false
        },
        Key::Char('a') | Key::Char('A') => {
            list.select_all();
            false
        },
        Key::Char('n') | Key::Char('N') => {
            list.select_none();
            false
        },
        _ => false,
    }
}

// ----------------------------------------------------------------------------
// Wordlist manager
// ----------------------------------------------------------------------------

/// The wordlist manager: the stored wordlist files, the selected row, the
/// focused control, the path being typed and the enabled states changed so
/// far (by file ID).
#[derive(Debug)]
pub struct WordlistManager {
    /// The wordlist files.
    pub wordlist_files: Vec<WordlistFileInfo>,
    /// The selected row of the table.
    pub selected_row: usize,
    /// The focused control.
    pub focus: WordlistManagerFocus,
    /// The path of a wordlist to add.
    pub text_input: TextInput,
    /// New enabled state of each changed file, by file ID.
    pub pending_changes: HashMap<i64, bool>,
}

/// How the wordlist manager ends after a key.
#[derive(Debug, Clone, Copy, PartialEq, Eq, Structural)]
pub enum ManagerExit {
    /// It stays open.
    Stay,
    /// It closes, dropping the pending changes.
    Cancel,
    /// It closes, applying the pending changes.
    Finish,
}

/// The wordlist manager's view: files, selection, focus, path input and
/// pending changes.
pub struct ManagerView {
    pub files: Seq<WordlistFileInfo>,
    pub selected: usize,
    pub focus: WordlistManagerFocus,
    pub input: TiState,
    pub pending: Map<i64, bool>,
}

/// The wordlist manager's view.
pub open spec fn manager_view(m: WordlistManager) -> ManagerView {
    ManagerView {
        files: m.wordlist_files@,
        selected: m.selected_row,
        focus: m.focus,
        input: m.text_input.state(),
        pending: m.pending_changes@,
    }
}

/// What a key asks of the wordlist manager besides its new view.
pub enum ManagerEffect {
    Nothing,
    Exit(ManagerExit),
    Delete(i64),
    Import(Seq<char>),
}

/// What a key does in the wordlist manager. In the table: Esc cancels, Tab
/// moves the focus, Enter finishes, Up/`k` and Down/`j` move the selection
/// (wrapping), Space switches the selected file on or off (recording the
/// change), Delete removes the selected file and asks for its deletion. In
/// the path input: Esc clears it and returns to the table, Tab moves the
/// focus, Enter asks to import the typed path (when there is one), clears
/// the input and returns to the table, Backspace and typing edit the path.
/// On the Done button: Esc cancels, Tab moves the focus, Enter finishes.
pub open spec fn manager_key_spec(v: ManagerView, k: KeyPress) -> (ManagerView, ManagerEffect) {
    let n = v.files.len();
    let cleared = TiState { text: Seq::empty(), cursor: 0, ..v.input };
    let next_focus = match v.focus {
        WordlistManagerFocus::Table => WordlistManagerFocus::AddPathInput,
        WordlistManagerFocus::AddPathInput => WordlistManagerFocus::DoneButton,
        WordlistManagerFocus::DoneButton => WordlistManagerFocus::Table,
    };
    match v.focus {
        WordlistManagerFocus::Table => match k.code {
            Key::Esc => (v, ManagerEffect::Exit(ManagerExit::Cancel)),
            Key::Tab => (ManagerView { focus: next_focus, ..v }, ManagerEffect::Nothing),
            Key::Enter => (v, ManagerEffect::Exit(ManagerExit::Finish)),
            Key::Up | Key::Char('k') => if n > 0 {
                (
                    ManagerView {
                        selected: if v.selected == 0 {
                            (n - 1) as usize
                        } else {
                            (v.selected - 1) as usize
                        },
                        ..v
                    },
                    ManagerEffect::Nothing,
                )
            } else {
                (v, ManagerEffect::Nothing)
            },
            Key::Down | Key::Char('j') => if n > 0 {
                (ManagerView { selected: ((v.selected + 1) % (n as int)) as usize, ..v }, ManagerEffect::Nothing)
            } else {
                (v, ManagerEffect::Nothing)
            },
            Key::Char(' ') => if v.selected < n {
                let f = v.files[v.selected as int];
                let g = WordlistFileInfo { enabled: !f.enabled, ..f };
                (
                    ManagerView {
                        files: v.files.update(v.selected as int, g),
                        pending: v.pending.insert(f.id, !f.enabled),
                        ..v
                    },
                    ManagerEffect::Nothing,
                )
            } else {
                (v, ManagerEffect::Nothing)
            },
            Key::Delete => if v.selected < n {
                let rest = v.files.remove(v.selected as int);
                (
                    ManagerView {
                        files: rest,
                        selected: if v.selected >= rest.len() && rest.len() > 0 {
                            (rest.len() - 1) as usize
                        } else {
                            v.selected
                        },
                        ..v
                    },
                    ManagerEffect::Delete(v.files[v.selected as int].id),
                )
            } else {
                (v, ManagerEffect::Nothing)
            },
            _ => (v, ManagerEffect::Nothing),
        },
        WordlistManagerFocus::AddPathInput => match k.code {
            Key::Esc => (
                ManagerView { input: cleared, focus: WordlistManagerFocus::Table, ..v },
                ManagerEffect::Nothing,
            ),
            Key::Tab => (ManagerView { focus: next_focus, ..v }, ManagerEffect::Nothing),
            Key::Enter => (
                ManagerView { input: cleared, focus: WordlistManagerFocus::Table, ..v },
                if v.input.text.len() > 0 {
                    ManagerEffect::Import(v.input.text)
                } else {
                    ManagerEffect::Nothing
                },
            ),
            Key::Backspace => (ManagerView { input: ti_backspace(v.input), ..v }, ManagerEffect::Nothing),
            Key::Char(c) => (ManagerView { input: ti_insert(v.input, c), ..v }, ManagerEffect::Nothing),
            _ => (v, ManagerEffect::Nothing),
        },
        WordlistManagerFocus::DoneButton => match k.code {
            Key::Esc => (v, ManagerEffect::Exit(ManagerExit::Cancel)),
            Key::Tab => (ManagerView { focus: next_focus, ..v }, ManagerEffect::Nothing),
            Key::Enter => (v, ManagerEffect::Exit(ManagerExit::Finish)),
            _ => (v, ManagerEffect::Nothing),
        },
    }
}

/// Handles a key in the wordlist manager (see `manager_key_spec`): the action
/// for the event loop (deleting or importing a file) and how the manager
/// ends.
pub fn wordlist_manager_key(m: &mut WordlistManager, key: KeyPress) -> (r: (Action, ManagerExit))
    requires
        old(m).text_input.wf(),
        old(m).focus == WordlistManagerFocus::AddPathInput ==> (key.code matches Key::Char(c) ==> (
        old(m).text_input.accepts_char() ==> fits_with(old(m).text_input.text(), c))),
    ensures
        final(m).text_input.wf(),
        ({
            let (v, e) = manager_key_spec(manager_view(*old(m)), key);
            &&& manager_view(*final(m)) == v
            &&& match e {
                ManagerEffect::Nothing => r.0 is Nothing && r.1 == ManagerExit::Stay,
                ManagerEffect::Exit(x) => r.0 is Nothing && r.1 == x,
                ManagerEffect::Delete(id) => r.0 == Action::DeleteWordlist(id) && r.1
                    == ManagerExit::Stay,
                ManagerEffect::Import(p) => (r.0 matches Action::ImportWordlist(q) && q@ == p)
                    && r.1 == ManagerExit::Stay,
            }
        }),
{
    match m.focus {
        WordlistManagerFocus::Table => match key.code {
            Key::Esc => (Action::Nothing, ManagerExit::Cancel),
            Key::Tab => {
                m.focus = m.focus.next();
                (Action::Nothing, ManagerExit::Stay)
            },
            Key::Enter => (Action::Nothing, ManagerExit::Finish),
            Key::Up | Key::Char('k') => {
                let n = m.wordlist_files.len();
                if n > 0 {
                    m.selected_row = if m.selected_row == 0 {
                        n - 1
                    } else {
                        m.selected_row - 1
                    };
                }
                (Action::Nothing, ManagerExit::Stay)
            },
            Key::Down | Key::Char('j') => {
                let n = m.wordlist_files.len();
                if n > 0 {
                    proof {
                        let ii = m.selected_row as int;
                        let nn = n as int;
                        vstd::arithmetic::div_mod::lemma_add_mod_noop(ii, 1, nn);
                        if nn > 1 {
                            vstd::arithmetic::div_mod::lemma_small_mod(1, nn as nat);
                        } else {
                            assert(ii % nn == 0 && (ii + 1) % nn == 0) by (nonlinear_arith)
                                requires
                                    nn == 1,
                            ;
                        }
                        vstd::arithmetic::div_mod::lemma_mod_bound(ii, nn);
                    }
                    m.selected_row = (m.selected_row % n + 1) % n;
                }
                (Action::Nothing, ManagerExit::Stay)
            },
            Key::Char(' ') => {
                let sel = m.selected_row;
                if sel < m.wordlist_files.len() {
                    let now = !m.wordlist_files[sel].enabled;
                    let id = m.wordlist_files[sel].id;
                    m.wordlist_files[sel].enabled = now;
                    m.pending_changes.insert(id, now);
                }
                (Action::Nothing, ManagerExit::Stay)
            },
            Key::Delete => {
                let sel = m.selected_row;
                if sel < m.wordlist_files.len() {
                    let id = m.wordlist_files[sel].id;
                    m.wordlist_files.remove(sel);
                    let n = m.wordlist_files.len();
                    if sel >= n && n > 0 {
                        m.selected_row = n - 1;
                    }
                    (Action::DeleteWordlist(id), ManagerExit::Stay)
                } else {
                    (Action::Nothing, ManagerExit::Stay)
                }
            },
            _ => (Action::Nothing, ManagerExit::Stay),
        },
        WordlistManagerFocus::AddPathInput => match key.code {
            Key::Esc => {
                m.text_input.clear();
                m.focus = WordlistManagerFocus::Table;
                (Action::Nothing, ManagerExit::Stay)
            },
            Key::Tab => {
                m.focus = m.focus.next();
                (Action::Nothing, ManagerExit::Stay)
            },
            Key::Enter => {
                let path = m.text_input.get_text().to_owned();
                m.text_input.clear();
                m.focus = WordlistManagerFocus::Table;
                if path.as_str().unicode_len() > 0 {
                    (Action::ImportWordlist(path), ManagerExit::Stay)
                } else {
                    (Action::Nothing, ManagerExit::Stay)
                }
            },
            Key::Backspace => {
                m.text_input.backspace();
                (Action::Nothing, ManagerExit::Stay)
            },
            Key::Char(c) => {
                m.text_input.insert_char(c);
                (Action::Nothing, ManagerExit::Stay)
            },
            _ => (Action::Nothing, ManagerExit::Stay),
        },
        WordlistManagerFocus::DoneButton => match key.code {
            Key::Esc => (Action::Nothing, ManagerExit::Cancel),
            Key::Tab => {
                m.focus = m.focus.next();
                (Action::Nothing, ManagerExit::Stay)
            },
            Key::Enter => (Action::Nothing, ManagerExit::Finish),
            _ => (Action::Nothing, ManagerExit::Stay),
        },
    }
}

// ----------------------------------------------------------------------------
// Theme picker
// ----------------------------------------------------------------------------

/// The theme picker of the settings panel: the highlighted theme (one past
/// the last theme is the custom option) and the custom colours being typed.
#[derive(Debug)]
pub struct ThemePicker {
    /// The highlighted theme.
    pub selected_theme: usize,
    /// Whether custom colours are being typed.
    pub custom_mode: bool,
    /// The custom colours typed so far.
    pub custom_colors: CustomColors,
    /// The custom colour field being edited.
    pub custom_field: usize,
}

/// The theme picker's view.
pub struct PickerView {
    pub selected: usize,
    pub custom_mode: bool,
    pub colors: CustomColorsView,
    pub field: usize,
}

/// The theme picker's view.
pub open spec fn picker_view(p: ThemePicker) -> PickerView {
    PickerView {
        selected: p.selected_theme,
        custom_mode: p.custom_mode,
        colors: p.custom_colors@,
        field: p.custom_field,
    }
}

/// How a key closes the theme picker: `Some(Some(s))` applies the scheme
/// `s`, `Some(None)` closes without applying, `None` keeps it open.
pub type PickerClose = Option<Option<ColorScheme>>;

/// What a key does in the theme picker. Choosing: Up/`k` and Down/`j` move
/// (wrapping through the custom option), Enter applies the highlighted theme
/// or starts typing custom colours, Esc closes without applying. Typing custom
/// colours: Esc stops typing, Tab/Down and Shift+Tab/Up move between the
/// fields, digits and commas are typed, Backspace deletes, Enter applies the
/// colours when every field is one.
pub open spec fn picker_key_spec(v: PickerView, k: KeyPress) -> (PickerView, PickerClose) {
    let slot = field_slot(v.field as int);
    if v.custom_mode {
        match k.code {
            Key::Esc => (PickerView { custom_mode: false, ..v }, None),
            Key::Tab | Key::Down => (PickerView { field: ((v.field + 1) % 5) as usize, ..v }, None),
            Key::BackTab | Key::Up => (
                PickerView {
                    field: if v.field == 0 {
                        4
                    } else {
                        (v.field - 1) as usize
                    },
                    ..v
                },
                None,
            ),
            Key::Enter => match scheme_of(v.colors) {
                Some(s) => (v, Some(Some(s))),
                None => (v, None),
            },
            Key::Char(c) => if is_digit(c) || c == ',' {
                (
                    PickerView {
                        colors: view_with_slot(v.colors, slot, view_slot(v.colors, slot).push(c)),
                        ..v
                    },
                    None,
                )
            } else {
                (v, None)
            },
            Key::Backspace => if view_slot(v.colors, slot).len() > 0 {
                (
                    PickerView {
                        colors: view_with_slot(v.colors, slot, view_slot(v.colors, slot).drop_last()),
                        ..v
                    },
                    None,
                )
            } else {
                (v, None)
            },
            _ => (v, None),
        }
    } else {
        match k.code {
            Key::Up | Key::Char('k') => (
                PickerView {
                    selected: if v.selected == 0 {
                        THEME_COUNT
                    } else {
                        (v.selected - 1) as usize
                    },
                    ..v
                },
                None,
            ),
            Key::Down | Key::Char('j') => (
                PickerView {
                    selected: if v.selected >= THEME_COUNT {
                        0
                    } else {
                        (v.selected + 1) as usize
                    },
                    ..v
                },
                None,
            ),
            Key::Enter => if v.selected == THEME_COUNT {
                (PickerView { custom_mode: true, ..v }, None)
            } else {
                (v, Some(Some(theme_table()[v.selected as int].scheme)))
            },
            Key::Esc => (v, Some(None)),
            _ => (v, None),
        }
    }
}

/// Handles a key in the theme picker (see `picker_key_spec`); returns how the
/// picker closes, if it does.
pub fn theme_picker_key(p: &mut ThemePicker, key: KeyPress) -> (r: PickerClose)
    requires
        !old(p).custom_mode && key.code == Key::Enter ==> old(p).selected_theme <= THEME_COUNT,
        old(p).custom_mode ==> (key.code matches Key::Char(c) ==> ((is_digit(c) || c == ',')
            ==> utf8_len(old(p).custom_colors.slot(field_slot(old(p).custom_field as int))@) + 1
            <= isize::MAX)),
    ensures
        ({
            let (v, close) = picker_key_spec(picker_view(*old(p)), key);
            &&& picker_view(*final(p)) == v
            &&& r == close
        }),
{
    if p.custom_mode {
        match key.code {
            Key::Esc => {
                p.custom_mode = false;
                None
            },
            Key::Tab | Key::Down => {
                p.custom_field = (p.custom_field % 5 + 1) % 5;
                None
            },
            Key::BackTab | Key::Up => {
                p.custom_field = if p.custom_field == 0 {
                    4
                } else {
                    p.custom_field - 1
                };
                None
            },
            Key::Enter => match p.custom_colors.to_scheme() {
                Some(s) => Some(Some(s)),
                None => None,
            },
            Key::Char(c) => {
                if ('0' <= c && c <= '9') || c == ',' {
                    let field = p.custom_colors.get_field_mut(p.custom_field);
                    proof {
                        lemma_encode_utf8_single(c);
                    }
                    string_push(field, c);
                }
                None
            },
            Key::Backspace => {
                let field = p.custom_colors.get_field_mut(p.custom_field);
                string_pop(field);
                None
            },
            _ => None,
        }
    } else {
        match key.code {
            Key::Up | Key::Char('k') => {
                p.selected_theme = if p.selected_theme == 0 {
                    THEME_COUNT
                } else {
                    p.selected_theme - 1
                };
                None
            },
            Key::Down | Key::Char('j') => {
                p.selected_theme = if p.selected_theme >= THEME_COUNT {
                    0
                } else {
                    p.selected_theme + 1
                };
                None
            },
            Key::Enter => {
                if p.selected_theme == THEME_COUNT {
                    p.custom_mode = true;
                    None
                } else {
                    Some(Some(theme_at(p.selected_theme).scheme))
                }
            },
            Key::Esc => Some(None),
            _ => None,
        }
    }
}

// ----------------------------------------------------------------------------
// Settings panel
// ----------------------------------------------------------------------------

/// Where the settings panel's cursor is: section, field within it, and the
/// scroll offset.
#[derive(Debug, Clone, Copy, PartialEq, Eq, Structural)]
pub struct SettingsCursor {
    /// The selected section.
    pub selected_section: usize,
    /// The selected field of the section.
    pub selected_field: usize,
    /// The scroll offset.
    pub scroll_offset: usize,
}

impl SettingsCursor {
    /// Selects the next of `section_count` sections (wrapping) at its first
    /// field, scrolled to the top; nothing happens without sections.
    pub fn next_section(&mut self, section_count: usize)
        ensures
            section_count == 0 ==> *final(self) == *old(self),
            section_count > 0 ==> *final(self) == (SettingsCursor {
                selected_section: ((old(self).selected_section + 1) % (section_count as int)) as usize,
                selected_field: 0,
                scroll_offset: 0,
            }),
    {
        if section_count > 0 {
            proof {
                let ii = self.selected_section as int;
                let nn = section_count as int;
                vstd::arithmetic::div_mod::lemma_add_mod_noop(ii, 1, nn);
                if nn > 1 {
                    vstd::arithmetic::div_mod::lemma_small_mod(1, nn as nat);
                } else {
                    assert(ii % nn == 0 && (ii + 1) % nn == 0) by (nonlinear_arith)
                        requires
                            nn == 1,
                    ;
                }
                vstd::arithmetic::div_mod::lemma_mod_bound(ii, nn);
            }
            self.selected_section = (self.selected_section % section_count + 1) % section_count;
            self.selected_field = 0;
            self.scroll_offset = 0;
        }
    }

    /// Selects the previous of `section_count` sections (wrapping) at its
    /// first field, scrolled to the top; nothing happens without sections.
    pub fn prev_section(&mut self, section_count: usize)
        ensures
            section_count == 0 ==> *final(self) == *old(self),
            section_count > 0 ==> *final(self) == (SettingsCursor {
                selected_section: if old(self).selected_section == 0 {
                    (section_count - 1) as usize
                } else {
                    (old(self).selected_section - 1) as usize
                },
                selected_field: 0,
                scroll_offset: 0,
            }),
    {
        if section_count > 0 {
            self.selected_section = if self.selected_section == 0 {
                section_count - 1
            } else {
                self.selected_section - 1
            };
            self.selected_field = 0;
            self.scroll_offset = 0;
        }
    }

    /// Selects the next of the section's `field_count` fields (wrapping).
    pub fn next_field(&mut self, field_count: usize)
        ensures
            field_count == 0 ==> *final(self) == *old(self),
            field_count > 0 ==> *final(self) == (SettingsCursor {
                selected_field: ((old(self).selected_field + 1) % (field_count as int)) as usize,
                ..*old(self)
            }),
    {
        if field_count > 0 {
            proof {
                let ii = self.selected_field as int;
                let nn = field_count as int;
                vstd::arithmetic::div_mod::lemma_add_mod_noop(ii, 1, nn);
                if nn > 1 {
                    vstd::arithmetic::div_mod::lemma_small_mod(1, nn as nat);
                } else {
                    assert(ii % nn == 0 && (ii + 1) % nn == 0) by (nonlinear_arith)
                        requires
                            nn == 1,
                    ;
                }
                vstd::arithmetic::div_mod::lemma_mod_bound(ii, nn);
            }
            self.selected_field = (self.selected_field % field_count + 1) % field_count;
        }
    }

    /// Selects the previous of the section's `field_count` fields (wrapping).
    pub fn prev_field(&mut self, field_count: usize)
        ensures
            field_count == 0 ==> *final(self) == *old(self),
            field_count > 0 ==> *final(self) == (SettingsCursor {
                selected_field: if old(self).selected_field == 0 {
                    (field_count - 1) as usize
                } else {
                    (old(self).selected_field - 1) as usize
                },
                ..*old(self)
            }),
    {
        if field_count > 0 {
            self.selected_field = if self.selected_field == 0 {
                field_count - 1
            } else {
                self.selected_field - 1
            };
        }
    }
}

/// What a key asks of the settings panel.
#[derive(Debug, Clone, Copy, PartialEq, Eq, Structural)]
pub enum SettingsCommand {
    /// Nothing.
    Nothing,
    /// Stop editing the field, dropping the typed value.
    CancelEdit,
    /// Stop editing the field, keeping the typed value if it is valid.
    ConfirmEdit,
    /// Delete the character before the cursor of the typed value.
    Backspace,
    /// Type the character.
    Type(char),
    /// Close the panel without saving.
    Close,
    /// Save the changed settings.
    Save,
    /// Move to the next section.
    NextSection,
    /// Move to the previous section.
    PrevSection,
    /// Move to the next field.
    NextField,
    /// Move to the previous field.
    PrevField,
    /// Edit the selected field.
    Edit,
}

/// What a key asks of the settings panel. While editing: Esc cancels,
/// Enter confirms, Backspace and typing edit. Otherwise: Esc closes,
/// Control+S saves (or closes when nothing changed), Tab and Shift+Tab,
/// Right/`l` and Left/`h` move between sections, Down/`j` and Up/`k` between
/// fields, Enter and Space edit the field.
pub open spec fn settings_key_spec(editing: bool, has_changes: bool, k: KeyPress) -> SettingsCommand {
    if editing {
        match k.code {
            Key::Esc => SettingsCommand::CancelEdit,
            Key::Enter => SettingsCommand::ConfirmEdit,
            Key::Backspace => SettingsCommand::Backspace,
            Key::Char(c) => SettingsCommand::Type(c),
            _ => SettingsCommand::Nothing,
        }
    } else {
        match k.code {
            Key::Esc => SettingsCommand::Close,
            Key::Char('s') if k.ctrl => if has_changes {
                SettingsCommand::Save
            } else {
                SettingsCommand::Close
            },
            Key::Tab => if k.shift {
                SettingsCommand::PrevSection
            } else {
                SettingsCommand::NextSection
            },
            Key::Up | Key::Char('k') => SettingsCommand::PrevField,
            Key::Down | Key::Char('j') => SettingsCommand::NextField,
            Key::Left | Key::Char('h') => SettingsCommand::PrevSection,
            Key::Right | Key::Char('l') => SettingsCommand::NextSection,
            Key::Enter | Key::Char(' ') => SettingsCommand::Edit,
            _ => SettingsCommand::Nothing,
        }
    }
}

/// Decides what a key asks of the settings panel (see `settings_key_spec`).
pub fn settings_key(editing: bool, has_changes: bool, key: KeyPress) -> (r: SettingsCommand)
    ensures
        r == settings_key_spec(editing, has_changes, key),
{
    if editing {
        match key.code {
            Key::Esc => SettingsCommand::CancelEdit,
            Key::Enter => SettingsCommand::ConfirmEdit,
            Key::Backspace => SettingsCommand::Backspace,
            Key::Char(c) => SettingsCommand::Type(c),
            _ => SettingsCommand::Nothing,
        }
    } else {
        match key.code {
            Key::Esc => SettingsCommand::Close,
            Key::Char('s') if key.ctrl => if has_changes {
                SettingsCommand::Save
            } else {
                SettingsCommand::Close
            },
            Key::Tab => if key.shift {
                SettingsCommand::PrevSection
            } else {
                SettingsCommand::NextSection
            },
            Key::Up | Key::Char('k') => SettingsCommand::PrevField,
            Key::Down | Key::Char('j') => SettingsCommand::NextField,
            Key::Left | Key::Char('h') => SettingsCommand::PrevSection,
            Key::Right | Key::Char('l') => SettingsCommand::NextSection,
            Key::Enter | Key::Char(' ') => SettingsCommand::Edit,
            _ => SettingsCommand::Nothing,
        }
    }
}

/// The answer a key gives to "save the changed settings?": `Some(true)`
/// saves (`y`), `Some(false)` discards (`n`), `None` with `cancel` returns to
/// the settings (`c`, Esc); other keys give nothing.
pub open spec fn save_answer_spec(k: KeyPress) -> (Option<bool>, bool) {
    match k.code {
        Key::Char('y') | Key::Char('Y') => (Some(true), false),
        Key::Char('n') | Key::Char('N') => (Some(false), false),
        Key::Char('c') | Key::Char('C') | Key::Esc => (None, true),
        _ => (None, false),
    }
}

/// Decides the answer a key gives to the save question (see
/// `save_answer_spec`): the choice and whether to return to the settings.
pub fn save_confirmation_key(key: KeyPress) -> (r: (Option<bool>, bool))
    ensures
        r == save_answer_spec(key),
{
    match key.code {
        Key::Char('y') | Key::Char('Y') => (Some(true), false),
        Key::Char('n') | Key::Char('N') => (Some(false), false),
        Key::Char('c') | Key::Char('C') | Key::Esc => (None, true),
        _ => (None, false),
    }
}

} // verus!
