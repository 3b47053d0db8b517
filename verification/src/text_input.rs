//! Single-line text input with a character cursor and an optional length limit.

use vstd::prelude::*;
use vstd::utf8::*;

use crate::strings::{string_insert, string_remove};
use crate::text::{
    char_to_byte_pos, fits_with, lemma_byte_pos_is_prefix, lemma_utf8_len_ge_chars, utf8_prefix_len,
};

verus! {

/// The contents of a text input: its characters, the cursor (a character
/// index) and the length limit.
pub struct TiState {
    pub text: Seq<char>,
    pub cursor: int,
    pub limit: Option<usize>,
}

/// Whether the cursor lies within the text and the text respects the limit.
pub open spec fn ti_ok(s: TiState) -> bool {
    &&& 0 <= s.cursor <= s.text.len()
    &&& (s.limit matches Some(m) ==> s.text.len() <= m)
}

/// Whether a character can be typed (the limit is not reached).
pub open spec fn ti_accepts(s: TiState) -> bool {
    !(s.limit matches Some(m) && s.text.len() >= m)
}

/// After typing `c` at the cursor (nothing changes at the limit).
pub open spec fn ti_insert(s: TiState, c: char) -> TiState {
    if ti_accepts(s) {
        TiState {
            text: s.text.take(s.cursor) + seq![c] + s.text.skip(s.cursor),
            cursor: s.cursor + 1,
            ..s
        }
    } else {
        s
    }
}

/// After Backspace: the character before the cursor goes.
pub open spec fn ti_backspace(s: TiState) -> TiState {
    if s.cursor > 0 {
        TiState { text: s.text.take(s.cursor - 1) + s.text.skip(s.cursor), cursor: s.cursor - 1, ..s }
    } else {
        s
    }
}

/// After Delete: the character at the cursor goes.
pub open spec fn ti_delete(s: TiState) -> TiState {
    if s.cursor < s.text.len() {
        TiState { text: s.text.take(s.cursor) + s.text.skip(s.cursor + 1), ..s }
    } else {
        s
    }
}

/// After moving the cursor left.
pub open spec fn ti_left(s: TiState) -> TiState {
    TiState {
        cursor: if s.cursor > 0 {
            s.cursor - 1
        } else {
            0
        },
        ..s
    }
}

/// After moving the cursor right.
pub open spec fn ti_right(s: TiState) -> TiState {
    TiState {
        cursor: if s.cursor < s.text.len() {
            s.cursor + 1
        } else {
            s.cursor
        },
        ..s
    }
}

/// After replacing the text with `t`, cut to the limit, the cursor at its end.
pub open spec fn ti_set_text(s: TiState, t: Seq<char>) -> TiState {
    let kept = match s.limit {
        Some(m) => if t.len() > m {
            t.take(m as int)
        } else {
            t
        },
        None => t,
    };
    TiState { text: kept, cursor: kept.len() as int, ..s }
}

/// A reusable text input field with cursor management.
///
/// The cursor is a character index (not a byte index) into the buffer; an
/// optional maximum length bounds the number of characters.
#[derive(Debug, Clone)]
pub struct TextInput {
    buffer: String,
    cursor_pos: usize,
    max_length: Option<usize>,
}

impl TextInput {
    /// The characters held by the input.
    pub closed spec fn text(&self) -> Seq<char> {
        self.buffer@
    }

    /// The cursor position, as a character index.
    pub closed spec fn cursor(&self) -> int {
        self.cursor_pos as int
    }

    /// The maximum number of characters, if any.
    pub closed spec fn limit(&self) -> Option<usize> {
        self.max_length
    }

    /// Well-formedness: the cursor lies within the text, and the text
    /// respects the limit.
    pub closed spec fn wf(&self) -> bool {
        &&& self.cursor_pos <= self.buffer@.len()
        &&& (self.max_length matches Some(m) ==> self.buffer@.len() <= m)
    }

    /// The characters, cursor and limit.
    pub open spec fn state(&self) -> TiState {
        TiState { text: self.text(), cursor: self.cursor(), limit: self.limit() }
    }

    /// Well-formedness is `ti_ok` of the state.
    pub proof fn lemma_wf_is_ok(&self)
        ensures
            self.wf() <==> ti_ok(self.state()),
    {
    }

    /// Whether `insert_char(c)` would change the input.
    pub open spec fn accepts_char(&self) -> bool {
        !(self.limit() matches Some(m) && self.text().len() >= m)
    }

    /// Creates a new empty input with the cursor at position 0 and no limit.
    pub fn new() -> (r: Self)
        ensures
            r.wf(),
            r.text() == Seq::<char>::empty(),
            r.cursor() == 0,
            r.limit() == None::<usize>,
    {
        TextInput { buffer: String::new(), cursor_pos: 0, max_length: None }
    }

    /// Creates a new empty input that holds at most `max_length` characters.
    pub fn with_max_length(max_length: usize) -> (r: Self)
        ensures
            r.wf(),
            r.text() == Seq::<char>::empty(),
            r.cursor() == 0,
            r.limit() == Some(max_length),
    {
        TextInput { buffer: String::new(), cursor_pos: 0, max_length: Some(max_length) }
    }

    /// Inserts `c` at the cursor and advances the cursor, unless the input
    /// already holds its maximum number of characters.
    pub fn insert_char(&mut self, c: char)
        requires
            old(self).wf(),
            old(self).accepts_char() ==> fits_with(old(self).text(), c),
        ensures
            final(self).state() == ti_insert(old(self).state(), c),
            final(self).wf(),
            final(self).limit() == old(self).limit(),
            old(self).accepts_char() ==> final(self).text() == old(self).text().take(
                old(self).cursor() as int,
            ) + seq![c] + old(self).text().skip(old(self).cursor() as int)
                && final(self).cursor() == old(self).cursor() + 1,
            !old(self).accepts_char() ==> final(self).text() == old(self).text()
                && final(self).cursor() == old(self).cursor(),
    {
        if let Some(max) = self.max_length {
            if self.buffer.as_str().unicode_len() >= max {
                return;
            }
        }
        let byte_pos = char_to_byte_pos(self.buffer.as_str(), self.cursor_pos);
        proof {
            lemma_utf8_len_ge_chars(self.buffer@);
            lemma_byte_pos_is_prefix(self.buffer@, self.cursor_pos as int);
            assert(utf8_prefix_len(self.buffer@, self.cursor_pos as int) == byte_pos);
        }
        string_insert(&mut self.buffer, byte_pos, c);
        self.cursor_pos = self.cursor_pos + 1;
    }

    /// Deletes the character before the cursor and moves the cursor back;
    /// does nothing when the cursor is at position 0.
    pub fn backspace(&mut self)
        requires
            old(self).wf(),
        ensures
            final(self).state() == ti_backspace(old(self).state()),
            final(self).wf(),
            final(self).limit() == old(self).limit(),
            old(self).cursor() > 0 ==> final(self).text() == old(self).text().take(
                old(self).cursor() - 1,
            ) + old(self).text().skip(old(self).cursor() as int)
                && final(self).cursor() == old(self).cursor() - 1,
            old(self).cursor() == 0 ==> final(self).text() == old(self).text()
                && final(self).cursor() == 0,
    {
        if self.cursor_pos > 0 {
            self.cursor_pos = self.cursor_pos - 1;
            let byte_pos = char_to_byte_pos(self.buffer.as_str(), self.cursor_pos);
            proof {
                lemma_byte_pos_is_prefix(self.buffer@, self.cursor_pos as int);
                assert(utf8_prefix_len(self.buffer@, self.cursor_pos as int) == byte_pos);
            }
            let _ = string_remove(&mut self.buffer, byte_pos);
        }
    }

    /// Deletes the character at the cursor; does nothing at the end of the text.
    pub fn delete(&mut self)
        requires
            old(self).wf(),
        ensures
            final(self).state() == ti_delete(old(self).state()),
            final(self).wf(),
            final(self).limit() == old(self).limit(),
            final(self).cursor() == old(self).cursor(),
            old(self).cursor() < old(self).text().len() ==> final(self).text() == old(
                self,
            ).text().take(old(self).cursor() as int) + old(self).text().skip(
                old(self).cursor() + 1,
            ),
            old(self).cursor() == old(self).text().len() ==> final(self).text() == old(
                self,
            ).text(),
    {
        if self.cursor_pos < self.buffer.as_str().unicode_len() {
            let byte_pos = char_to_byte_pos(self.buffer.as_str(), self.cursor_pos);
            proof {
                lemma_byte_pos_is_prefix(self.buffer@, self.cursor_pos as int);
                assert(utf8_prefix_len(self.buffer@, self.cursor_pos as int) == byte_pos);
            }
            let _ = string_remove(&mut self.buffer, byte_pos);
        }
    }

    /// Clears the text and moves the cursor to position 0.
    pub fn clear(&mut self)
        requires
            old(self).wf(),
        ensures
            final(self).wf(),
            final(self).limit() == old(self).limit(),
            final(self).text() == Seq::<char>::empty(),
            final(self).cursor() == 0,
    {
        self.buffer = String::new();
        self.cursor_pos = 0;
    }

    /// Replaces the text and moves the cursor to its end; with a limit, only
    /// the first `max_length` characters are kept.
    pub fn set_text(&mut self, text: &str)
        requires
            old(self).wf(),
        ensures
            final(self).state() == ti_set_text(old(self).state(), text@),
            final(self).wf(),
            final(self).limit() == old(self).limit(),
            final(self).text() == (match old(self).limit() {
                Some(m) => if text@.len() > m {
                    text@.take(m as int)
                } else {
                    text@
                },
                None => text@,
            }),
            final(self).cursor() == final(self).text().len(),
    {
        let n = text.unicode_len();
        let kept: String = match self.max_length {
            Some(max) => if n > max {
                text.substring_char(0, max).to_owned()
            } else {
                text.to_owned()
            },
            None => text.to_owned(),
        };
        self.cursor_pos = kept.as_str().unicode_len();
        self.buffer = kept;
    }

    /// The current text.
    pub fn get_text(&self) -> (r: &str)
        ensures
            r@ == self.text(),
    {
        self.buffer.as_str()
    }

    /// The cursor position, in characters.
    pub fn cursor_pos(&self) -> (r: usize)
        ensures
            r == self.cursor(),
    {
        self.cursor_pos
    }

    /// Moves the cursor one character left; does nothing at position 0.
    pub fn move_cursor_left(&mut self)
        requires
            old(self).wf(),
        ensures
            final(self).state() == ti_left(old(self).state()),
            final(self).wf(),
            final(self).text() == old(self).text(),
            final(self).limit() == old(self).limit(),
            final(self).cursor() == if old(self).cursor() > 0 {
                old(self).cursor() - 1
            } else {
                0
            },
    {
        if self.cursor_pos > 0 {
            self.cursor_pos = self.cursor_pos - 1;
        }
    }

    /// Moves the cursor one character right; does nothing at the end.
    pub fn move_cursor_right(&mut self)
        requires
            old(self).wf(),
        ensures
            final(self).state() == ti_right(old(self).state()),
            final(self).wf(),
            final(self).text() == old(self).text(),
            final(self).limit() == old(self).limit(),
            final(self).cursor() == if old(self).cursor() < old(self).text().len() {
                old(self).cursor() + 1
            } else {
                old(self).cursor()
            },
    {
        let char_count = self.buffer.as_str().unicode_len();
        if self.cursor_pos < char_count {
            self.cursor_pos = self.cursor_pos + 1;
        }
    }

    /// Moves the cursor to position 0.
    pub fn move_cursor_home(&mut self)
        requires
            old(self).wf(),
        ensures
            final(self).wf(),
            final(self).text() == old(self).text(),
            final(self).limit() == old(self).limit(),
            final(self).cursor() == 0,
    {
        self.cursor_pos = 0;
    }

    /// Moves the cursor to the end of the text.
    pub fn move_cursor_end(&mut self)
        requires
            old(self).wf(),
        ensures
            final(self).wf(),
            final(self).text() == old(self).text(),
            final(self).limit() == old(self).limit(),
            final(self).cursor() == old(self).text().len(),
    {
        self.cursor_pos = self.buffer.as_str().unicode_len();
    }

    /// Whether the text is empty.
    pub fn is_empty(&self) -> (r: bool)
        ensures
            r == (self.text().len() == 0),
    {
        self.buffer.as_str().unicode_len() == 0
    }

    /// The number of characters in the text.
    pub fn len(&self) -> (r: usize)
        ensures
            r == self.text().len(),
    {
        self.buffer.as_str().unicode_len()
    }
}

impl Default for TextInput {
    fn default() -> (r: Self)
        ensures
            r.wf(),
            r.text() == Seq::<char>::empty(),
            r.cursor() == 0,
            r.limit() == None::<usize>,
    {
        TextInput::new()
    }
}

/// Backspace right after typing a character removes it again: text and
/// cursor are as before.
pub proof fn lemma_backspace_undoes_insert(s: TiState, c: char)
    requires
        ti_ok(s),
        ti_accepts(s),
    ensures
        ti_backspace(ti_insert(s, c)) == s,
{
    let t = ti_backspace(ti_insert(s, c)).text;
    assert(t =~= s.text);
}

/// Typing never takes the text past the limit, and keeps the cursor within
/// the text.
pub proof fn lemma_insert_keeps_ok(s: TiState, c: char)
    requires
        ti_ok(s),
    ensures
        ti_ok(ti_insert(s, c)),
{
}

/// Delete after moving left is Backspace.
pub proof fn lemma_delete_after_left_is_backspace(s: TiState)
    requires
        ti_ok(s),
        s.cursor > 0,
    ensures
        ti_delete(ti_left(s)) == ti_backspace(s),
{
}

/// The text read back after setting it is the text set, cut to the limit.
pub proof fn lemma_set_text_read_back(s: TiState, t: Seq<char>)
    requires
        ti_ok(s),
    ensures
        ti_ok(ti_set_text(s, t)),
        s.limit is None ==> ti_set_text(s, t).text == t,
        s.limit matches Some(m) ==> ti_set_text(s, t).text == t.take(
            if t.len() > m {
                m as int
            } else {
                t.len() as int
            },
        ),
{
    assert(t.take(t.len() as int) =~= t);
}

} // verus!
