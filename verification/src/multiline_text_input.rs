//! Multi-line text input with a (line, column) cursor and a scroll offset.

use vstd::prelude::*;

use crate::strings::{string_insert, string_remove};
use crate::text::{
    char_to_byte_pos, fits_with, join_lines, join_with_newlines, lemma_byte_pos_is_prefix,
    lemma_utf8_len_ge_chars, split_lines, split_lines_from, split_text_lines, string_views,
    strip_cr, utf8_prefix_len,
};

verus! {

/// The lines that `set_text` stores for a text: its lines, or a single empty
/// line when it has none.
pub open spec fn lines_of_text(t: Seq<char>) -> Seq<Seq<char>> {
    if split_lines(t).len() == 0 {
        seq![Seq::<char>::empty()]
    } else {
        split_lines(t)
    }
}

/// Sum of the lengths of the lines.
pub open spec fn total_chars(ls: Seq<Seq<char>>) -> int
    decreases ls.len(),
{
    if ls.len() == 0 {
        0
    } else {
        total_chars(ls.drop_last()) + ls.last().len()
    }
}

/// The contents of a multi-line input: its lines, the cursor line and
/// column, and the scroll offset.
pub struct MlState {
    pub lines: Seq<Seq<char>>,
    pub line: int,
    pub col: int,
    pub scroll: int,
}

/// Whether there is at least one line and the cursor lies within the text.
pub open spec fn ml_ok(s: MlState) -> bool {
    &&& s.lines.len() >= 1
    &&& 0 <= s.line < s.lines.len()
    &&& 0 <= s.col <= s.lines[s.line].len()
}

/// The line at the cursor.
pub open spec fn ml_current(s: MlState) -> Seq<char> {
    s.lines[s.line]
}

/// An input holding one empty line, the cursor at the start, no scroll.
pub open spec fn ml_cleared() -> MlState {
    MlState { lines: seq![Seq::<char>::empty()], line: 0, col: 0, scroll: 0 }
}

/// After typing `c` at the cursor.
pub open spec fn ml_insert_char(s: MlState, c: char) -> MlState {
    let cur = ml_current(s);
    MlState {
        lines: s.lines.update(s.line, cur.take(s.col) + seq![c] + cur.skip(s.col)),
        col: s.col + 1,
        ..s
    }
}

/// After splitting the cursor line at the cursor.
pub open spec fn ml_insert_newline(s: MlState) -> MlState {
    let cur = ml_current(s);
    MlState {
        lines: s.lines.take(s.line) + seq![cur.take(s.col), cur.skip(s.col)] + s.lines.skip(
            s.line + 1,
        ),
        line: s.line + 1,
        col: 0,
        ..s
    }
}

/// After Backspace: the character before the cursor goes; at the start of a
/// line the line joins the one above; at the very start nothing changes.
pub open spec fn ml_backspace(s: MlState) -> MlState {
    let cur = ml_current(s);
    if s.col > 0 {
        MlState {
            lines: s.lines.update(s.line, cur.take(s.col - 1) + cur.skip(s.col)),
            col: s.col - 1,
            ..s
        }
    } else if s.line > 0 {
        MlState {
            lines: s.lines.take(s.line - 1) + seq![s.lines[s.line - 1] + cur] + s.lines.skip(
                s.line + 1,
            ),
            line: s.line - 1,
            col: s.lines[s.line - 1].len() as int,
            ..s
        }
    } else {
        s
    }
}

/// After Delete: the character at the cursor goes; at the end of a line the
/// next line joins it; at the very end nothing changes.
pub open spec fn ml_delete(s: MlState) -> MlState {
    let cur = ml_current(s);
    if s.col < cur.len() {
        MlState { lines: s.lines.update(s.line, cur.take(s.col) + cur.skip(s.col + 1)), ..s }
    } else if s.line + 1 < s.lines.len() {
        MlState {
            lines: s.lines.take(s.line) + seq![cur + s.lines[s.line + 1]] + s.lines.skip(
                s.line + 2,
            ),
            ..s
        }
    } else {
        s
    }
}

/// After moving the cursor left (to the end of the line above from a line
/// start).
pub open spec fn ml_left(s: MlState) -> MlState {
    if s.col > 0 {
        MlState { col: s.col - 1, ..s }
    } else if s.line > 0 {
        MlState { line: s.line - 1, col: s.lines[s.line - 1].len() as int, ..s }
    } else {
        s
    }
}

/// After moving the cursor right (to the start of the next line from a line
/// end).
pub open spec fn ml_right(s: MlState) -> MlState {
    if s.col < ml_current(s).len() {
        MlState { col: s.col + 1, ..s }
    } else if s.line + 1 < s.lines.len() {
        MlState { line: s.line + 1, col: 0, ..s }
    } else {
        s
    }
}

/// After moving the cursor up a line, the column kept within that line.
pub open spec fn ml_up(s: MlState) -> MlState {
    if s.line > 0 {
        MlState {
            line: s.line - 1,
            col: min_int(s.col, s.lines[s.line - 1].len() as int),
            ..s
        }
    } else {
        s
    }
}

/// After moving the cursor down a line, the column kept within that line.
pub open spec fn ml_down(s: MlState) -> MlState {
    if s.line + 1 < s.lines.len() {
        MlState {
            line: s.line + 1,
            col: min_int(s.col, s.lines[s.line + 1].len() as int),
            ..s
        }
    } else {
        s
    }
}

/// After moving the cursor to the start of its line.
pub open spec fn ml_home(s: MlState) -> MlState {
    MlState { col: 0, ..s }
}

/// After moving the cursor to the end of its line.
pub open spec fn ml_end(s: MlState) -> MlState {
    MlState { col: ml_current(s).len() as int, ..s }
}

/// After moving the cursor to the start of the text.
pub open spec fn ml_to_start(s: MlState) -> MlState {
    MlState { line: 0, col: 0, ..s }
}

/// After moving the cursor to the end of the text.
pub open spec fn ml_to_end(s: MlState) -> MlState {
    MlState { line: s.lines.len() - 1, col: s.lines.last().len() as int, ..s }
}

/// A multi-line text input field with cursor management.
///
/// There is always at least one line; the cursor column is a character index
/// within the cursor line.
#[derive(Debug, Clone)]
pub struct MultilineTextInput {
    lines: Vec<String>,
    cursor_line: usize,
    cursor_col: usize,
    scroll_offset: usize,
}

impl MultilineTextInput {
    /// The lines held by the input.
    pub closed spec fn line_seq(&self) -> Seq<Seq<char>> {
        string_views(self.lines@)
    }

    /// The cursor line.
    pub closed spec fn line(&self) -> int {
        self.cursor_line as int
    }

    /// The cursor column, in characters.
    pub closed spec fn col(&self) -> int {
        self.cursor_col as int
    }

    /// The vertical scroll offset.
    pub closed spec fn scroll(&self) -> int {
        self.scroll_offset as int
    }

    /// Well-formedness: at least one line, and the cursor inside the text.
    pub closed spec fn wf(&self) -> bool {
        &&& self.lines@.len() >= 1
        &&& self.cursor_line < self.lines@.len()
        &&& self.cursor_col <= self.lines@[self.cursor_line as int]@.len()
    }

    /// The lines, cursor and scroll offset.
    pub open spec fn state(&self) -> MlState {
        MlState { lines: self.line_seq(), line: self.line(), col: self.col(), scroll: self.scroll() }
    }

    /// Well-formedness is `ml_ok` of the state.
    pub proof fn lemma_wf_is_ok(&self)
        ensures
            self.wf() <==> ml_ok(self.state()),
    {
    }

    /// The characters of the cursor line.
    pub open spec fn current_line(&self) -> Seq<char> {
        self.line_seq()[self.line()]
    }

    /// Creates an input with one empty line, the cursor at (0, 0) and no scroll.
    pub fn new() -> (r: Self)
        ensures
            r.wf(),
            r.line_seq() == seq![Seq::<char>::empty()],
            r.line() == 0,
            r.col() == 0,
            r.scroll() == 0,
    {
        let mut lines: Vec<String> = Vec::new();
        lines.push(String::new());
        let r = MultilineTextInput { lines, cursor_line: 0, cursor_col: 0, scroll_offset: 0 };
        proof {
            assert(r.line_seq() =~= seq![Seq::<char>::empty()]);
        }
        r
    }

    /// Inserts `c` at the cursor and advances the cursor by one column.
    pub fn insert_char(&mut self, c: char)
        requires
            old(self).wf(),
            fits_with(old(self).current_line(), c),
        ensures
            final(self).state() == ml_insert_char(old(self).state(), c),
            final(self).wf(),
            final(self).line_seq() == old(self).line_seq().update(
                old(self).line(),
                old(self).current_line().take(old(self).col()) + seq![c]
                    + old(self).current_line().skip(old(self).col()),
            ),
            final(self).line() == old(self).line(),
            final(self).col() == old(self).col() + 1,
            final(self).scroll() == old(self).scroll(),
    {
        let cl = self.cursor_line;
        let col = self.cursor_col;
        let ghost old_lines = self.lines@;
        let line = &mut self.lines[cl];
        let byte_pos = char_to_byte_pos(line.as_str(), col);
        proof {
            lemma_utf8_len_ge_chars(line@);
            lemma_byte_pos_is_prefix(line@, col as int);
            assert(utf8_prefix_len(line@, col as int) == byte_pos);
        }
        string_insert(line, byte_pos, c);
        self.cursor_col = col + 1;
        proof {
            assert(self.line_seq() =~= string_views(old_lines).update(
                cl as int,
                old_lines[cl as int]@.take(col as int) + seq![c] + old_lines[cl as int]@.skip(
                    col as int,
                ),
            ));
        }
    }

    /// Splits the cursor line at the cursor: the text after the cursor moves
    /// to a new line below, and the cursor goes to the start of that line.
    pub fn insert_newline(&mut self)
        requires
            old(self).wf(),
        ensures
            final(self).state() == ml_insert_newline(old(self).state()),
            final(self).wf(),
            final(self).line_seq() == old(self).line_seq().take(old(self).line()) + seq![
                old(self).current_line().take(old(self).col()),
                old(self).current_line().skip(old(self).col()),
            ] + old(self).line_seq().skip(old(self).line() + 1),
            final(self).line() == old(self).line() + 1,
            final(self).col() == 0,
            final(self).scroll() == old(self).scroll(),
    {
        let cl = self.cursor_line;
        let col = self.cursor_col;
        let ghost old_lines = string_views(self.lines@);
        let _count = self.lines.len();
        let n = self.lines[cl].as_str().unicode_len();
        let left = self.lines[cl].as_str().substring_char(0, col).to_owned();
        let remainder = self.lines[cl].as_str().substring_char(col, n).to_owned();
        self.lines.set(cl, left);
        self.cursor_line = cl + 1;
        self.lines.insert(cl + 1, remainder);
        self.cursor_col = 0;
        proof {
            let line = old_lines[cl as int];
            assert(line.subrange(0, col as int) =~= line.take(col as int));
            assert(line.subrange(col as int, n as int) =~= line.skip(col as int));
            assert(self.line_seq() =~= old_lines.take(cl as int) + seq![
                line.take(col as int),
                line.skip(col as int),
            ] + old_lines.skip(cl + 1));
        }
    }

    /// Deletes the character before the cursor; at the start of a line other
    /// than the first, joins the line onto the previous one.
    pub fn backspace(&mut self)
        requires
            old(self).wf(),
        ensures
            final(self).state() == ml_backspace(old(self).state()),
            final(self).wf(),
            final(self).scroll() == old(self).scroll(),
            old(self).col() > 0 ==> {
                &&& final(self).line_seq() == old(self).line_seq().update(
                    old(self).line(),
                    old(self).current_line().take(old(self).col() - 1)
                        + old(self).current_line().skip(old(self).col()),
                )
                &&& final(self).line() == old(self).line()
                &&& final(self).col() == old(self).col() - 1
            },
            old(self).col() == 0 && old(self).line() > 0 ==> {
                &&& final(self).line_seq() == old(self).line_seq().take(old(self).line() - 1)
                    + seq![old(self).line_seq()[old(self).line() - 1] + old(self).current_line()]
                    + old(self).line_seq().skip(old(self).line() + 1)
                &&& final(self).line() == old(self).line() - 1
                &&& final(self).col() == old(self).line_seq()[old(self).line() - 1].len()
            },
            old(self).col() == 0 && old(self).line() == 0 ==> *final(self) == *old(self),
    {
        let ghost old_lines = string_views(self.lines@);
        let cl = self.cursor_line;
        if self.cursor_col > 0 {
            let col = self.cursor_col - 1;
            self.cursor_col = col;
            let line = &mut self.lines[cl];
            let byte_pos = char_to_byte_pos(line.as_str(), col);
            proof {
                lemma_byte_pos_is_prefix(line@, col as int);
                assert(utf8_prefix_len(line@, col as int) == byte_pos);
            }
            let _ = string_remove(line, byte_pos);
            proof {
                assert(self.line_seq() =~= old_lines.update(
                    cl as int,
                    old_lines[cl as int].take(col as int) + old_lines[cl as int].skip(col + 1),
                ));
            }
        } else if cl > 0 {
            let current_line = self.lines.remove(cl);
            self.cursor_line = cl - 1;
            let prev_len = self.lines[cl - 1].as_str().unicode_len();
            self.lines[cl - 1].append(current_line.as_str());
            self.cursor_col = prev_len;
            proof {
                assert(self.line_seq() =~= old_lines.take(cl - 1) + seq![
                    old_lines[cl - 1] + old_lines[cl as int],
                ] + old_lines.skip(cl + 1));
            }
        }
    }

    /// Deletes the character at the cursor; at the end of a line other than
    /// the last, joins the next line onto it.
    pub fn delete(&mut self)
        requires
            old(self).wf(),
        ensures
            final(self).state() == ml_delete(old(self).state()),
            final(self).wf(),
            final(self).scroll() == old(self).scroll(),
            final(self).line() == old(self).line(),
            final(self).col() == old(self).col(),
            old(self).col() < old(self).current_line().len() ==> final(self).line_seq()
                == old(self).line_seq().update(
                old(self).line(),
                old(self).current_line().take(old(self).col()) + old(self).current_line().skip(
                    old(self).col() + 1,
                ),
            ),
            old(self).col() == old(self).current_line().len() && old(self).line() + 1 < old(
                self,
            ).line_seq().len() ==> final(self).line_seq() == old(self).line_seq().take(
                old(self).line(),
            ) + seq![old(self).current_line() + old(self).line_seq()[old(self).line() + 1]]
                + old(self).line_seq().skip(old(self).line() + 2),
            old(self).col() == old(self).current_line().len() && old(self).line() + 1 == old(
                self,
            ).line_seq().len() ==> final(self).line_seq() == old(self).line_seq(),
    {
        let ghost old_lines = string_views(self.lines@);
        let cl = self.cursor_line;
        let col = self.cursor_col;
        let line_len = self.lines[cl].as_str().unicode_len();
        if col < line_len {
            let line = &mut self.lines[cl];
            let byte_pos = char_to_byte_pos(line.as_str(), col);
            proof {
                lemma_byte_pos_is_prefix(line@, col as int);
                assert(utf8_prefix_len(line@, col as int) == byte_pos);
            }
            let _ = string_remove(line, byte_pos);
            proof {
                assert(self.line_seq() =~= old_lines.update(
                    cl as int,
                    old_lines[cl as int].take(col as int) + old_lines[cl as int].skip(col + 1),
                ));
            }
        } else if cl < self.lines.len() - 1 {
            let next_line = self.lines.remove(cl + 1);
            self.lines[cl].append(next_line.as_str());
            proof {
                assert(self.line_seq() =~= old_lines.take(cl as int) + seq![
                    old_lines[cl as int] + old_lines[cl + 1],
                ] + old_lines.skip(cl + 2));
            }
        }
    }

    /// Clears all text and resets the cursor and scroll to zero.
    pub fn clear(&mut self)
        ensures
            final(self).state() == ml_cleared(),
            final(self).wf(),
            final(self).line_seq() == seq![Seq::<char>::empty()],
            final(self).line() == 0,
            final(self).col() == 0,
            final(self).scroll() == 0,
    {
        *self = MultilineTextInput::new();
    }

    /// Replaces the content with the lines of `text` and moves the cursor to
    /// the end of the last line; the scroll offset goes back to zero.
    pub fn set_text(&mut self, text: &str)
        ensures
            final(self).wf(),
            final(self).line_seq() == lines_of_text(text@),
            final(self).line() == final(self).line_seq().len() - 1,
            final(self).col() == final(self).line_seq().last().len(),
            final(self).scroll() == 0,
    {
        let mut lines = if text.unicode_len() == 0 {
            let mut v: Vec<String> = Vec::new();
            v.push(String::new());
            proof {
                assert(text@ =~= Seq::<char>::empty());
                assert(string_views(v@) =~= seq![Seq::<char>::empty()]);
            }
            v
        } else {
            split_text_lines(text)
        };
        if lines.len() == 0 {
            lines.push(String::new());
            proof {
                assert(string_views(lines@) =~= seq![Seq::<char>::empty()]);
            }
        }
        let last = lines.len() - 1;
        let col = lines[last].as_str().unicode_len();
        self.lines = lines;
        self.cursor_line = last;
        self.cursor_col = col;
        self.scroll_offset = 0;
    }

    /// The full text, with the lines joined by `\n`.
    pub fn get_text(&self) -> (r: String)
        ensures
            r@ == join_lines(self.line_seq()),
    {
        join_with_newlines(&self.lines)
    }

    /// The lines as a slice.
    pub fn lines(&self) -> (r: &[String])
        ensures
            string_views(r@) == self.line_seq(),
    {
        self.lines.as_slice()
    }

    /// The cursor position as (line, column).
    pub fn cursor_pos(&self) -> (r: (usize, usize))
        ensures
            r.0 == self.line(),
            r.1 == self.col(),
    {
        (self.cursor_line, self.cursor_col)
    }

    /// The vertical scroll offset.
    pub fn scroll_offset(&self) -> (r: usize)
        ensures
            r == self.scroll(),
    {
        self.scroll_offset
    }

    /// Moves the cursor one character left; at the start of a line other than
    /// the first, moves to the end of the previous line.
    pub fn move_cursor_left(&mut self)
        requires
            old(self).wf(),
        ensures
            final(self).state() == ml_left(old(self).state()),
            final(self).wf(),
            final(self).line_seq() == old(self).line_seq(),
            final(self).scroll() == old(self).scroll(),
            old(self).col() > 0 ==> final(self).line() == old(self).line() && final(self).col()
                == old(self).col() - 1,
            old(self).col() == 0 && old(self).line() > 0 ==> final(self).line() == old(self).line()
                - 1 && final(self).col() == old(self).line_seq()[old(self).line() - 1].len(),
            old(self).col() == 0 && old(self).line() == 0 ==> final(self).line() == 0
                && final(self).col() == 0,
    {
        if self.cursor_col > 0 {
            self.cursor_col = self.cursor_col - 1;
        } else if self.cursor_line > 0 {
            self.cursor_line = self.cursor_line - 1;
            self.cursor_col = self.lines[self.cursor_line].as_str().unicode_len();
        }
    }

    /// Moves the cursor one character right; at the end of a line other than
    /// the last, moves to the start of the next line.
    pub fn move_cursor_right(&mut self)
        requires
            old(self).wf(),
        ensures
            final(self).state() == ml_right(old(self).state()),
            final(self).wf(),
            final(self).line_seq() == old(self).line_seq(),
            final(self).scroll() == old(self).scroll(),
            old(self).col() < old(self).current_line().len() ==> final(self).line() == old(
                self,
            ).line() && final(self).col() == old(self).col() + 1,
            old(self).col() == old(self).current_line().len() && old(self).line() + 1 < old(
                self,
            ).line_seq().len() ==> final(self).line() == old(self).line() + 1 && final(self).col()
                == 0,
            old(self).col() == old(self).current_line().len() && old(self).line() + 1 == old(
                self,
            ).line_seq().len() ==> final(self).line() == old(self).line() && final(self).col()
                == old(self).col(),
    {
        let line_len = self.lines[self.cursor_line].as_str().unicode_len();
        if self.cursor_col < line_len {
            self.cursor_col = self.cursor_col + 1;
        } else if self.cursor_line < self.lines.len() - 1 {
            self.cursor_line = self.cursor_line + 1;
            self.cursor_col = 0;
        }
    }

    /// Moves the cursor one line up, clamping the column to the line length;
    /// does nothing on the first line.
    pub fn move_cursor_up(&mut self)
        requires
            old(self).wf(),
        ensures
            final(self).state() == ml_up(old(self).state()),
            final(self).wf(),
            final(self).line_seq() == old(self).line_seq(),
            final(self).scroll() == old(self).scroll(),
            old(self).line() > 0 ==> final(self).line() == old(self).line() - 1 && final(self).col()
                == min_int(old(self).col(), old(self).line_seq()[old(self).line() - 1].len() as int),
            old(self).line() == 0 ==> final(self).line() == 0 && final(self).col() == old(
                self,
            ).col(),
    {
        if self.cursor_line > 0 {
            self.cursor_line = self.cursor_line - 1;
            let line_len = self.lines[self.cursor_line].as_str().unicode_len();
            if line_len < self.cursor_col {
                self.cursor_col = line_len;
            }
        }
    }

    /// Moves the cursor one line down, clamping the column to the line length;
    /// does nothing on the last line.
    pub fn move_cursor_down(&mut self)
        requires
            old(self).wf(),
        ensures
            final(self).state() == ml_down(old(self).state()),
            final(self).wf(),
            final(self).line_seq() == old(self).line_seq(),
            final(self).scroll() == old(self).scroll(),
            old(self).line() + 1 < old(self).line_seq().len() ==> final(self).line() == old(
                self,
            ).line() + 1 && final(self).col() == min_int(
                old(self).col(),
                old(self).line_seq()[old(self).line() + 1].len() as int,
            ),
            old(self).line() + 1 == old(self).line_seq().len() ==> final(self).line() == old(
                self,
            ).line() && final(self).col() == old(self).col(),
    {
        if self.cursor_line < self.lines.len() - 1 {
            self.cursor_line = self.cursor_line + 1;
            let line_len = self.lines[self.cursor_line].as_str().unicode_len();
            if line_len < self.cursor_col {
                self.cursor_col = line_len;
            }
        }
    }

    /// Moves the cursor to the start of the current line.
    pub fn move_cursor_home(&mut self)
        requires
            old(self).wf(),
        ensures
            final(self).state() == ml_home(old(self).state()),
            final(self).wf(),
            final(self).line_seq() == old(self).line_seq(),
            final(self).scroll() == old(self).scroll(),
            final(self).line() == old(self).line(),
            final(self).col() == 0,
    {
        self.cursor_col = 0;
    }

    /// Moves the cursor to the end of the current line.
    pub fn move_cursor_end(&mut self)
        requires
            old(self).wf(),
        ensures
            final(self).state() == ml_end(old(self).state()),
            final(self).wf(),
            final(self).line_seq() == old(self).line_seq(),
            final(self).scroll() == old(self).scroll(),
            final(self).line() == old(self).line(),
            final(self).col() == old(self).current_line().len(),
    {
        self.cursor_col = self.lines[self.cursor_line].as_str().unicode_len();
    }

    /// Moves the cursor to the very start of the text (line 0, column 0).
    pub fn move_cursor_to_start(&mut self)
        requires
            old(self).wf(),
        ensures
            final(self).state() == ml_to_start(old(self).state()),
            final(self).wf(),
            final(self).line_seq() == old(self).line_seq(),
            final(self).scroll() == old(self).scroll(),
            final(self).line() == 0,
            final(self).col() == 0,
    {
        self.cursor_line = 0;
        self.cursor_col = 0;
    }

    /// Moves the cursor to the very end of the text.
    pub fn move_cursor_to_end(&mut self)
        requires
            old(self).wf(),
        ensures
            final(self).state() == ml_to_end(old(self).state()),
            final(self).wf(),
            final(self).line_seq() == old(self).line_seq(),
            final(self).scroll() == old(self).scroll(),
            final(self).line() == old(self).line_seq().len() - 1,
            final(self).col() == old(self).line_seq().last().len(),
    {
        self.cursor_line = self.lines.len() - 1;
        self.cursor_col = self.lines[self.cursor_line].as_str().unicode_len();
    }

    /// Whether the cursor is at (0, 0).
    pub fn is_cursor_at_start(&self) -> (r: bool)
        ensures
            r == (self.line() == 0 && self.col() == 0),
    {
        self.cursor_line == 0 && self.cursor_col == 0
    }

    /// Whether the input holds a single empty line.
    pub fn is_empty(&self) -> (r: bool)
        requires
            self.wf(),
        ensures
            r == (self.line_seq().len() == 1 && self.line_seq()[0].len() == 0),
            r == (join_lines(self.line_seq()).len() == 0),
            r == (self.line_seq().len() == 1 && total_chars(self.line_seq()) == 0),
    {
        proof {
            let ls = self.line_seq();
            if ls.len() == 1 {
                assert(ls.drop_last().len() == 0);
                assert(total_chars(ls) == total_chars(ls.drop_last()) + ls[0].len());
            } else {
                assert(join_lines(ls) == join_lines(ls.drop_last()) + seq!['\n'] + ls.last());
            }
        }
        self.lines.len() == 1 && self.lines[0].as_str().unicode_len() == 0
    }

    /// The number of lines.
    pub fn line_count(&self) -> (r: usize)
        ensures
            r == self.line_seq().len(),
    {
        self.lines.len()
    }

    /// The total number of characters, newlines excluded.
    pub fn char_count(&self) -> (r: usize)
        requires
            total_chars(self.line_seq()) <= usize::MAX,
        ensures
            r == total_chars(self.line_seq()),
    {
        let n = self.lines.len();
        let mut i: usize = 0;
        let mut sum: usize = 0;
        proof {
            assert(self.line_seq().take(0) =~= Seq::<Seq<char>>::empty());
        }
        while i < n
            invariant
                n == self.lines@.len(),
                i <= n,
                sum == total_chars(self.line_seq().take(i as int)),
                total_chars(self.line_seq()) <= usize::MAX,
            decreases n - i,
        {
            proof {
                assert(self.line_seq().take(i + 1).drop_last() =~= self.line_seq().take(i as int));
                lemma_total_chars_prefix(self.line_seq(), i + 1);
            }
            sum = sum + self.lines[i].as_str().unicode_len();
            i = i + 1;
        }
        proof {
            assert(self.line_seq().take(n as int) =~= self.line_seq());
        }
        sum
    }

    /// Adjusts the scroll offset so that the cursor line is among the
    /// `visible_lines` lines shown; does nothing when `visible_lines` is 0.
    pub fn ensure_cursor_visible(&mut self, visible_lines: usize)
        requires
            old(self).wf(),
        ensures
            final(self).wf(),
            final(self).line_seq() == old(self).line_seq(),
            final(self).line() == old(self).line(),
            final(self).col() == old(self).col(),
            final(self).scroll() == (if visible_lines == 0 {
                old(self).scroll()
            } else if old(self).line() < old(self).scroll() {
                old(self).line()
            } else if old(self).line() >= old(self).scroll() + visible_lines {
                old(self).line() - visible_lines + 1
            } else {
                old(self).scroll()
            }),
    {
        if visible_lines == 0 {
            return;
        }
        if self.cursor_line < self.scroll_offset {
            self.scroll_offset = self.cursor_line;
        } else if self.cursor_line - self.scroll_offset >= visible_lines {
            self.scroll_offset = self.cursor_line - visible_lines + 1;
        }
    }

    /// Sets the scroll offset, clamped to the last line.
    pub fn set_scroll_offset(&mut self, offset: usize)
        requires
            old(self).wf(),
        ensures
            final(self).wf(),
            final(self).line_seq() == old(self).line_seq(),
            final(self).line() == old(self).line(),
            final(self).col() == old(self).col(),
            final(self).scroll() == min_int(offset as int, old(self).line_seq().len() - 1),
    {
        let max = self.lines.len() - 1;
        self.scroll_offset = if offset < max {
            offset
        } else {
            max
        };
    }

    /// Scrolls up by one line if possible.
    pub fn scroll_up(&mut self)
        requires
            old(self).wf(),
        ensures
            final(self).wf(),
            final(self).line_seq() == old(self).line_seq(),
            final(self).line() == old(self).line(),
            final(self).col() == old(self).col(),
            final(self).scroll() == if old(self).scroll() > 0 {
                old(self).scroll() - 1
            } else {
                0
            },
    {
        if self.scroll_offset > 0 {
            self.scroll_offset = self.scroll_offset - 1;
        }
    }

    /// Scrolls down by one line unless that would scroll past the point where
    /// the last `visible_lines` lines are shown.
    pub fn scroll_down(&mut self, visible_lines: usize)
        requires
            old(self).wf(),
        ensures
            final(self).wf(),
            final(self).line_seq() == old(self).line_seq(),
            final(self).line() == old(self).line(),
            final(self).col() == old(self).col(),
            final(self).scroll() == if old(self).scroll() < old(self).line_seq().len()
                - visible_lines {
                old(self).scroll() + 1
            } else {
                old(self).scroll()
            },
    {
        let n = self.lines.len();
        let max_offset = if n > visible_lines {
            n - visible_lines
        } else {
            0
        };
        if self.scroll_offset < max_offset {
            self.scroll_offset = self.scroll_offset + 1;
        }
    }
}

impl Default for MultilineTextInput {
    fn default() -> (r: Self)
        ensures
            r.wf(),
            r.line_seq() == seq![Seq::<char>::empty()],
            r.line() == 0,
            r.col() == 0,
            r.scroll() == 0,
    {
        MultilineTextInput::new()
    }
}

/// The smaller of two integers.
pub open spec fn min_int(a: int, b: int) -> int {
    if a < b {
        a
    } else {
        b
    }
}

/// The total of a prefix is at most the total of the whole.
pub proof fn lemma_total_chars_prefix(ls: Seq<Seq<char>>, i: int)
    requires
        0 <= i <= ls.len(),
    ensures
        total_chars(ls.take(i)) <= total_chars(ls),
    decreases ls.len() - i,
{
    if i < ls.len() {
        lemma_total_chars_prefix(ls, i + 1);
        assert(ls.take(i + 1).drop_last() =~= ls.take(i));
    } else {
        assert(ls.take(i) =~= ls);
    }
}

/// Backspace right after typing a character removes it again.
pub proof fn lemma_backspace_undoes_insert_char(s: MlState, c: char)
    requires
        ml_ok(s),
    ensures
        ml_backspace(ml_insert_char(s, c)) == s,
{
    let cur = ml_current(s);
    assert(cur.take(s.col) + seq![c] + cur.skip(s.col) == cur.take(s.col).push(c) + cur.skip(
        s.col,
    )) by {
        assert(cur.take(s.col) + seq![c] =~= cur.take(s.col).push(c));
    }
    let t = ml_backspace(ml_insert_char(s, c)).lines;
    assert(t[s.line] =~= cur);
    assert(t =~= s.lines);
}

/// Backspace right after a line break joins the two halves again.
pub proof fn lemma_backspace_undoes_newline(s: MlState)
    requires
        ml_ok(s),
    ensures
        ml_backspace(ml_insert_newline(s)) == s,
{
    let cur = ml_current(s);
    let n = ml_insert_newline(s);
    assert(n.lines[s.line] == cur.take(s.col));
    assert(n.lines[s.line + 1] == cur.skip(s.col));
    assert(cur.take(s.col) + cur.skip(s.col) =~= cur);
    let t = ml_backspace(n).lines;
    assert(t =~= s.lines);
}

/// Delete after moving left is Backspace (anywhere but at the very start,
/// where Backspace does nothing).
pub proof fn lemma_delete_after_left_is_backspace(s: MlState)
    requires
        ml_ok(s),
        !(s.line == 0 && s.col == 0),
    ensures
        ml_delete(ml_left(s)) == ml_backspace(s),
{
    let cur = ml_current(s);
    if s.col > 0 {
        assert(cur.take(s.col - 1) + cur.skip(s.col - 1 + 1) =~= cur.take(s.col - 1) + cur.skip(
            s.col,
        ));
    } else {
        let l = ml_left(s);
        assert(l.lines.take(l.line) + seq![ml_current(l) + l.lines[l.line + 1]] + l.lines.skip(
            l.line + 2,
        ) =~= s.lines.take(s.line - 1) + seq![s.lines[s.line - 1] + cur] + s.lines.skip(
            s.line + 1,
        ));
    }
}

/// Whether `s` holds no carriage return.
pub open spec fn no_cr(s: Seq<char>) -> bool {
    forall|k: int| 0 <= k < s.len() ==> s[k] != '\r'
}

/// Joining a line in front of a non-empty list of lines puts a `\n` between.
proof fn lemma_join_prepend(x: Seq<char>, ls: Seq<Seq<char>>)
    requires
        ls.len() > 0,
    ensures
        join_lines(seq![x] + ls) == x + seq!['\n'] + join_lines(ls),
    decreases ls.len(),
{
    let all = seq![x] + ls;
    assert(all.len() >= 2);
    assert(join_lines(all) == join_lines(all.drop_last()) + seq!['\n'] + all.last());
    if ls.len() == 1 {
        assert(all.drop_last() =~= seq![x]);
        assert(join_lines(seq![x]) == x);
        assert(all.last() == ls[0]);
        assert(join_lines(ls) == ls[0]);
    } else {
        lemma_join_prepend(x, ls.drop_last());
        assert(all.drop_last() =~= seq![x] + ls.drop_last());
        assert(all.last() == ls.last());
        assert(join_lines(ls) == join_lines(ls.drop_last()) + seq!['\n'] + ls.last());
        assert(x + seq!['\n'] + join_lines(ls.drop_last()) + seq!['\n'] + ls.last() =~= x
            + seq!['\n'] + (join_lines(ls.drop_last()) + seq!['\n'] + ls.last()));
    }
}

/// Splitting into lines gives at least one line when there is text to split.
proof fn lemma_split_nonempty(rest: Seq<char>, cur: Seq<char>)
    requires
        rest.len() > 0 || cur.len() > 0,
    ensures
        split_lines_from(rest, cur).len() > 0,
    decreases rest.len(),
{
    if rest.len() > 0 && rest[0] != '\n' {
        lemma_split_nonempty(rest.drop_first(), cur.push(rest[0]));
    }
}

/// Joining the lines split from `cur` followed by `rest` gives that text
/// back, when there is no carriage return and no final line break.
proof fn lemma_join_split_from(rest: Seq<char>, cur: Seq<char>)
    requires
        no_cr(rest),
        no_cr(cur),
        rest.len() == 0 || rest.last() != '\n',
    ensures
        join_lines(split_lines_from(rest, cur)) == cur + rest,
    decreases rest.len(),
{
    if rest.len() == 0 {
        assert(cur + rest =~= cur);
    } else if rest[0] == '\n' {
        let tail = rest.drop_first();
        assert(tail.len() > 0);
        assert(cur.len() == 0 || cur.last() != '\r');
        assert(strip_cr(cur) == cur);
        assert(no_cr(tail)) by {
            assert forall|k: int| 0 <= k < tail.len() implies tail[k] != '\r' by {
                assert(tail[k] == rest[k + 1]);
            }
        }
        lemma_join_split_from(tail, Seq::empty());
        lemma_split_nonempty(tail, Seq::empty());
        lemma_join_prepend(cur, split_lines_from(tail, Seq::empty()));
        assert(Seq::<char>::empty() + tail =~= tail);
        assert(cur + seq!['\n'] + tail =~= cur + rest);
    } else {
        let tail = rest.drop_first();
        assert(no_cr(tail)) by {
            assert forall|k: int| 0 <= k < tail.len() implies tail[k] != '\r' by {
                assert(tail[k] == rest[k + 1]);
            }
        }
        assert(no_cr(cur.push(rest[0]))) by {
            assert forall|k: int| 0 <= k < cur.len() + 1 implies #[trigger] cur.push(rest[0])[k]
                != '\r' by {
                if k < cur.len() {
                    assert(cur.push(rest[0])[k] == cur[k]);
                }
            }
        }
        lemma_join_split_from(tail, cur.push(rest[0]));
        assert(cur.push(rest[0]) + tail =~= cur + rest);
    }
}

/// The text read back after setting it is the text set, for text with no
/// carriage return and no final line break.
pub proof fn lemma_set_text_read_back(t: Seq<char>)
    requires
        no_cr(t),
        t.len() == 0 || t.last() != '\n',
    ensures
        join_lines(lines_of_text(t)) == t,
{
    lemma_join_split_from(t, Seq::empty());
    assert(Seq::<char>::empty() + t =~= t);
    if split_lines(t).len() == 0 {
        if t.len() > 0 {
            lemma_split_nonempty(t, Seq::empty());
        }
        assert(t =~= Seq::<char>::empty());
    }
}

} // verus!