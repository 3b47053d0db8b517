//! Character-level helpers over strings: UTF-8 byte positions.

use vstd::prelude::*;
use vstd::utf8::*;

verus! {

/// Number of bytes of the UTF-8 encoding of the first `n` characters of `s`.
pub open spec fn utf8_prefix_len(s: Seq<char>, n: int) -> int {
    encode_utf8(s.take(n)).len() as int
}

/// Number of bytes of the UTF-8 encoding of `s`.
pub open spec fn utf8_len(s: Seq<char>) -> int {
    encode_utf8(s).len() as int
}

/// Whether `c` can be added to a string holding `s` without the string
/// exceeding `isize::MAX` bytes, the largest size a `String` may have.
pub open spec fn fits_with(s: Seq<char>, c: char) -> bool {
    utf8_len(s) + encode_scalar(c as u32).len() <= isize::MAX
}

/// Byte position of character index `i` in `s`, or the byte length of `s`
/// when `i` is at or past the end.
pub open spec fn byte_pos_spec(s: Seq<char>, i: int) -> int {
    if i < s.len() {
        utf8_prefix_len(s, i)
    } else {
        encode_utf8(s).len() as int
    }
}

/// The encoding of a concatenation is the concatenation of the encodings.
pub proof fn lemma_encode_utf8_append(a: Seq<char>, b: Seq<char>)
    ensures
        encode_utf8(a + b) == encode_utf8(a) + encode_utf8(b),
    decreases a.len(),
{
    if a.len() == 0 {
        assert(a + b =~= b);
        assert(encode_utf8(a) =~= Seq::<u8>::empty());
        assert(encode_utf8(a) + encode_utf8(b) =~= encode_utf8(b));
    } else {
        lemma_encode_utf8_append(a.drop_first(), b);
        assert((a + b).drop_first() =~= a.drop_first() + b);
        assert((a + b)[0] == a[0]);
        assert(encode_utf8(a + b) =~= encode_scalar(a[0] as u32) + encode_utf8(a.drop_first() + b));
        assert(encode_utf8(a) + encode_utf8(b) =~= encode_scalar(a[0] as u32) + (encode_utf8(
            a.drop_first(),
        ) + encode_utf8(b)));
    }
}

/// Encoding a single character gives its scalar encoding.
pub proof fn lemma_encode_utf8_single(c: char)
    ensures
        encode_utf8(seq![c]) == encode_scalar(c as u32),
{
    assert(seq![c].drop_first() =~= Seq::<char>::empty());
    assert(encode_utf8(Seq::<char>::empty()) =~= Seq::<u8>::empty());
    assert(encode_scalar(c as u32) + Seq::<u8>::empty() =~= encode_scalar(c as u32));
}

/// Extending a prefix by one character adds that character's encoded width.
pub proof fn lemma_utf8_prefix_step(s: Seq<char>, i: int)
    requires
        0 <= i < s.len(),
    ensures
        utf8_prefix_len(s, i + 1) == utf8_prefix_len(s, i) + encode_scalar(s[i] as u32).len(),
{
    assert(s.take(i + 1) =~= s.take(i) + seq![s[i]]);
    lemma_encode_utf8_append(s.take(i), seq![s[i]]);
    lemma_encode_utf8_single(s[i]);
}

/// Within the string, the byte position of a character index is the length of
/// the encoding of the characters before it.
pub proof fn lemma_byte_pos_is_prefix(s: Seq<char>, i: int)
    requires
        0 <= i <= s.len(),
    ensures
        byte_pos_spec(s, i) == utf8_prefix_len(s, i),
{
    assert(s.take(s.len() as int) =~= s);
}

/// Number of bytes that `c` takes in UTF-8.
pub fn char_utf8_len(c: char) -> (n: usize)
    ensures
        n == encode_scalar(c as u32).len(),
        1 <= n <= 4,
{
    proof {
        char_is_scalar(c);
    }
    let v: u32 = c as u32;
    if v <= 0x7F {
        1
    } else if v <= 0x7FF {
        2
    } else if v <= 0xFFFF {
        3
    } else {
        4
    }
}

/// Converts a character index to a byte position within a string.
///
/// Returns the byte position of the character at `char_idx`, or the byte
/// length of `s` if `char_idx` is at or past the end of the string.
pub fn char_to_byte_pos(s: &str, char_idx: usize) -> (pos: usize)
    ensures
        pos == byte_pos_spec(s@, char_idx as int),
{
    let n = s.unicode_len();
    let total = s.as_bytes().len();
    let mut i: usize = 0;
    let mut pos: usize = 0;
    while i < n && i < char_idx
        invariant
            n == s@.len(),
            total == encode_utf8(s@).len(),
            i <= n,
            i <= char_idx,
            pos == utf8_prefix_len(s@, i as int),
        decreases n - i,
    {
        let c = s.get_char(i);
        let w = char_utf8_len(c);
        proof {
            lemma_utf8_prefix_step(s@, i as int);
            lemma_utf8_prefix_le(s@, i as int + 1);
        }
        pos = pos + w;
        i = i + 1;
    }
    proof {
        assert(s@.take(s@.len() as int) =~= s@);
        if i == n {
            assert(utf8_prefix_len(s@, i as int) == encode_utf8(s@).len());
        }
    }
    pos
}

/// A prefix encodes to no more bytes than the whole sequence.
pub proof fn lemma_utf8_prefix_le(s: Seq<char>, i: int)
    requires
        0 <= i <= s.len(),
    ensures
        utf8_prefix_len(s, i) <= encode_utf8(s).len(),
{
    assert(s =~= s.take(i) + s.skip(i));
    lemma_encode_utf8_append(s.take(i), s.skip(i));
}


/// Every character takes between one and four bytes.
pub proof fn lemma_scalar_width(c: char)
    ensures
        1 <= encode_scalar(c as u32).len() <= 4,
{
    char_is_scalar(c);
}

/// A sequence encodes to at least as many bytes as it has characters.
pub proof fn lemma_utf8_len_ge_chars(s: Seq<char>)
    ensures
        encode_utf8(s).len() >= s.len(),
    decreases s.len(),
{
    if s.len() > 0 {
        lemma_scalar_width(s[0]);
        lemma_utf8_len_ge_chars(s.drop_first());
    }
}

/// Byte offsets of character positions grow strictly with the position.
pub proof fn lemma_utf8_prefix_strict(s: Seq<char>, i: int, j: int)
    requires
        0 <= i < j <= s.len(),
    ensures
        utf8_prefix_len(s, i) < utf8_prefix_len(s, j),
    decreases j - i,
{
    lemma_utf8_prefix_step(s, j - 1);
    lemma_scalar_width(s[j - 1]);
    if i < j - 1 {
        lemma_utf8_prefix_strict(s, i, j - 1);
    }
}


/// The characters of `s`, collected into a vector.
pub fn chars_of(s: &str) -> (v: Vec<char>)
    ensures
        v@ == s@,
{
    let mut v: Vec<char> = Vec::new();
    for c in it: s.chars()
        invariant
            v@ == it.seq().take(it.index() as int),
    {
        v.push(c);
    }
    v
}

/// A line with one trailing carriage return removed, if it has one.
pub open spec fn strip_cr(line: Seq<char>) -> Seq<char> {
    if line.len() > 0 && line.last() == '\r' {
        line.drop_last()
    } else {
        line
    }
}

/// The lines of `rest`, given that `cur` holds the characters already read of
/// the line in progress: each `\n` ends a line (dropping a `\r` right before
/// it), and a last line without a terminator is kept unless it is empty.
pub open spec fn split_lines_from(rest: Seq<char>, cur: Seq<char>) -> Seq<Seq<char>>
    decreases rest.len(),
{
    if rest.len() == 0 {
        if cur.len() == 0 {
            Seq::empty()
        } else {
            seq![cur]
        }
    } else if rest[0] == '\n' {
        seq![strip_cr(cur)] + split_lines_from(rest.drop_first(), Seq::empty())
    } else {
        split_lines_from(rest.drop_first(), cur.push(rest[0]))
    }
}

/// The lines of a text, as `str::lines` yields them.
pub open spec fn split_lines(s: Seq<char>) -> Seq<Seq<char>> {
    split_lines_from(s, Seq::empty())
}

/// The lines of `ls` joined with `\n` between consecutive lines.
pub open spec fn join_lines(ls: Seq<Seq<char>>) -> Seq<char>
    decreases ls.len(),
{
    if ls.len() == 0 {
        Seq::empty()
    } else if ls.len() == 1 {
        ls[0]
    } else {
        join_lines(ls.drop_last()) + seq!['\n'] + ls.last()
    }
}

/// The string values of a vector of strings, as character sequences.
pub open spec fn string_views(v: Seq<String>) -> Seq<Seq<char>> {
    v.map_values(|l: String| l@)
}

proof fn lemma_split_from_start(s: Seq<char>, start: int, i: int)
    requires
        0 <= start <= i < s.len(),
        s[i] != '\n',
    ensures
        split_lines_from(s.skip(i), s.subrange(start, i)) == split_lines_from(
            s.skip(i + 1),
            s.subrange(start, i + 1),
        ),
{
    assert(s.skip(i).drop_first() =~= s.skip(i + 1));
    assert(s.subrange(start, i).push(s[i]) =~= s.subrange(start, i + 1));
}

/// Splits `text` into lines the way `str::lines` does.
pub fn split_text_lines(text: &str) -> (r: Vec<String>)
    ensures
        string_views(r@) == split_lines(text@),
{
    let chars = chars_of(text);
    let n = chars.len();
    let mut out: Vec<String> = Vec::new();
    let mut start: usize = 0;
    let mut i: usize = 0;
    proof {
        assert(text@.skip(0) =~= text@);
        assert(text@.subrange(0, 0) =~= Seq::<char>::empty());
    }
    while i < n
        invariant
            chars@ == text@,
            n == text@.len(),
            start <= i <= n,
            string_views(out@) + split_lines_from(text@.skip(i as int), text@.subrange(
                start as int,
                i as int,
            )) == split_lines(text@),
        decreases n - i,
    {
        if chars[i] == '\n' {
            let end: usize = if i > start && chars[i - 1] == '\r' {
                i - 1
            } else {
                i
            };
            let line = text.substring_char(start, end).to_owned();
            proof {
                let cur = text@.subrange(start as int, i as int);
                assert(strip_cr(cur) =~= text@.subrange(start as int, end as int));
                assert(text@.skip(i as int).drop_first() =~= text@.skip(i + 1));
                assert(text@.subrange((i + 1) as int, (i + 1) as int) =~= Seq::<char>::empty());
                assert(string_views(out@.push(line)) =~= string_views(out@) + seq![line@]);
                assert(split_lines_from(text@.skip(i as int), cur) == seq![strip_cr(cur)]
                    + split_lines_from(text@.skip(i + 1), Seq::empty()));
                assert((string_views(out@) + seq![strip_cr(cur)]) + split_lines_from(
                    text@.skip(i + 1),
                    Seq::empty(),
                ) =~= string_views(out@) + (seq![strip_cr(cur)] + split_lines_from(
                    text@.skip(i + 1),
                    Seq::empty(),
                )));
            }
            out.push(line);
            start = i + 1;
        } else {
            proof {
                lemma_split_from_start(text@, start as int, i as int);
            }
        }
        i = i + 1;
    }
    if start < n {
        let line = text.substring_char(start, n).to_owned();
        proof {
            assert(string_views(out@.push(line)) =~= string_views(out@) + seq![line@]);
        }
        out.push(line);
    } else {
        proof {
            assert(string_views(out@) + Seq::<Seq<char>>::empty() =~= string_views(out@));
        }
    }
    out
}

/// Joins `lines` with `\n` between consecutive lines.
pub fn join_with_newlines(lines: &Vec<String>) -> (r: String)
    ensures
        r@ == join_lines(string_views(lines@)),
{
    let mut r = String::new();
    let n = lines.len();
    let mut i: usize = 0;
    while i < n
        invariant
            n == lines@.len(),
            i <= n,
            r@ == join_lines(string_views(lines@.take(i as int))),
        decreases n - i,
    {
        proof {
            let pre = string_views(lines@.take(i as int));
            let post = string_views(lines@.take(i + 1));
            assert(post.drop_last() =~= pre);
            assert(post.last() == lines@[i as int]@);
            if i == 0 {
                assert(pre =~= Seq::<Seq<char>>::empty());
            }
        }
        if i > 0 {
            r.append("\n");
            proof {
                reveal_strlit("\n");
            }
        }
        r.append(lines[i].as_str());
        i = i + 1;
    }
    proof {
        assert(lines@.take(n as int) =~= lines@);
    }
    r
}


/// The ASCII digit for `d` (for `d` below 10).
pub open spec fn digit_char(d: nat) -> char {
    ((d + 48) as u32) as char
}

/// The decimal representation of `n`, without leading zeros.
pub open spec fn decimal(n: nat) -> Seq<char>
    decreases n,
{
    if n < 10 {
        seq![digit_char(n)]
    } else {
        decimal(n / 10) + seq![digit_char(n % 10)]
    }
}

/// Characters take at most four bytes each.
pub proof fn lemma_utf8_len_le_4x(s: Seq<char>)
    ensures
        encode_utf8(s).len() <= 4 * s.len(),
    decreases s.len(),
{
    if s.len() > 0 {
        lemma_scalar_width(s[0]);
        lemma_utf8_len_le_4x(s.drop_first());
    }
}

/// The decimal representation of `n`.
pub fn u64_to_decimal(n: u64) -> (r: String)
    ensures
        r@ == decimal(n as nat),
{
    let mut digits: Vec<char> = Vec::new();
    let mut m: u64 = n;
    loop
        invariant
            decimal(n as nat) == decimal(m as nat) + digits@,
            forall|i: int| 0 <= i < digits@.len() ==> '0' <= #[trigger] digits@[i] <= '9',
        decreases m,
    {
        let d = m % 10;
        let c = char_from_digit(d);
        proof {
            if m >= 10 {
                assert(decimal(m as nat) == decimal((m / 10) as nat) + seq![digit_char(d as nat)]);
            }
        }
        if m < 10 {
            proof {
                assert(decimal(m as nat) =~= seq![c]);
            }
            let mut out = String::new();
            out.append(char_str(c));
            let mut j: usize = 0;
            while j < digits.len()
                invariant
                    out@ == seq![c] + digits@.take(j as int),
                    forall|i: int| 0 <= i < digits@.len() ==> '0' <= #[trigger] digits@[i] <= '9',
                    j <= digits@.len(),
                decreases digits@.len() - j,
            {
                out.append(char_str(digits[j]));
                proof {
                    assert(digits@.take(j + 1) =~= digits@.take(j as int).push(digits@[j as int]));
                }
                j = j + 1;
            }
            proof {
                assert(digits@.take(digits@.len() as int) =~= digits@);
                assert(decimal(n as nat) =~= seq![c] + digits@);
            }
            return out;
        }
        let ghost old_digits = digits@;
        digits.insert(0, c);
        proof {
            assert(digits@ =~= seq![c] + old_digits);
            assert(decimal(n as nat) =~= decimal((m / 10) as nat) + digits@);
        }
        m = m / 10;
    }
}

/// The decimal representation of the integer `n`, with a leading `-` when it
/// is negative.
pub open spec fn signed_decimal(n: int) -> Seq<char> {
    if n < 0 {
        seq!['-'] + decimal((-n) as nat)
    } else {
        decimal(n as nat)
    }
}

/// The decimal representation of `n` (what `format!("{}", n)` writes).
pub fn i64_to_decimal(n: i64) -> (r: String)
    ensures
        r@ == signed_decimal(n as int),
{
    if n < 0 {
        let m: u64 = if n == i64::MIN {
            9223372036854775808
        } else {
            (-n) as u64
        };
        let digits = u64_to_decimal(m);
        let mut out = String::new();
        out.append("-");
        out.append(digits.as_str());
        proof {
            reveal_strlit("-");
        }
        out
    } else {
        u64_to_decimal(n as u64)
    }
}

/// The ASCII digit character for `d`.
fn char_from_digit(d: u64) -> (c: char)
    requires
        d < 10,
    ensures
        c == digit_char(d as nat),
{
    if d == 0 {
        '0'
    } else if d == 1 {
        '1'
    } else if d == 2 {
        '2'
    } else if d == 3 {
        '3'
    } else if d == 4 {
        '4'
    } else if d == 5 {
        '5'
    } else if d == 6 {
        '6'
    } else if d == 7 {
        '7'
    } else if d == 8 {
        '8'
    } else {
        '9'
    }
}

/// A one-character string holding the decimal digit `c`.
fn char_str(c: char) -> (r: &'static str)
    requires
        '0' <= c <= '9',
    ensures
        r@ == seq![c],
{
    proof {
        reveal_strlit("0");
        reveal_strlit("1");
        reveal_strlit("2");
        reveal_strlit("3");
        reveal_strlit("4");
        reveal_strlit("5");
        reveal_strlit("6");
        reveal_strlit("7");
        reveal_strlit("8");
        reveal_strlit("9");
    }
    if c == '0' {
        "0"
    } else if c == '1' {
        "1"
    } else if c == '2' {
        "2"
    } else if c == '3' {
        "3"
    } else if c == '4' {
        "4"
    } else if c == '5' {
        "5"
    } else if c == '6' {
        "6"
    } else if c == '7' {
        "7"
    } else if c == '8' {
        "8"
    } else {
        "9"
    }
}


/// A preview of `s`: the text itself when it has at most `max` characters,
/// else its first `max - 3` characters followed by `...`.
pub open spec fn preview_spec(s: Seq<char>, max: nat) -> Seq<char> {
    if s.len() > max {
        s.take(max - 3) + seq!['.', '.', '.']
    } else {
        s
    }
}

/// Shortens `s` to at most `max` characters, ending a shortened text with `...`.
pub fn preview(s: &str, max: usize) -> (r: String)
    requires
        max >= 3,
    ensures
        r@ == preview_spec(s@, max as nat),
{
    let n = s.unicode_len();
    if n > max {
        let mut r = s.substring_char(0, max - 3).to_owned();
        r.append("...");
        proof {
            reveal_strlit("...");
            assert(r@ =~= s@.take(max - 3) + seq!['.', '.', '.']);
        }
        r
    } else {
        s.to_owned()
    }
}

/// Whether byte position `b` is where a character of `s` starts, or the end
/// of `s`.
pub open spec fn is_boundary(s: Seq<char>, b: int) -> bool {
    exists|k: int| 0 <= k <= s.len() && #[trigger] utf8_prefix_len(s, k) == b
}

/// Whether byte position `b` is where a character of `s` starts.
pub open spec fn starts_char(s: Seq<char>, b: int) -> bool {
    exists|k: int| 0 <= k < s.len() && #[trigger] utf8_prefix_len(s, k) == b
}

/// The character index of byte position `b` of `s`.
pub open spec fn char_index_at(s: Seq<char>, b: int) -> int {
    choose|k: int| 0 <= k <= s.len() && #[trigger] utf8_prefix_len(s, k) == b
}

/// `s` with `c` inserted at byte position `b`.
pub open spec fn insert_at_byte(s: Seq<char>, b: int, c: char) -> Seq<char> {
    let k = char_index_at(s, b);
    s.take(k) + seq![c] + s.skip(k)
}

/// `s` without the character that starts at byte position `b`.
pub open spec fn remove_at_byte(s: Seq<char>, b: int) -> Seq<char> {
    let k = char_index_at(s, b);
    s.take(k) + s.skip(k + 1)
}

/// At a boundary, `char_index_at` names the character position of that
/// boundary, which lies within the text's byte length.
pub proof fn lemma_char_index_at_boundary(s: Seq<char>, b: int)
    requires
        is_boundary(s, b),
    ensures
        0 <= char_index_at(s, b) <= s.len(),
        utf8_prefix_len(s, char_index_at(s, b)) == b,
        b <= utf8_len(s),
{
    let k = char_index_at(s, b);
    lemma_utf8_prefix_le(s, k);
}

/// Where a character starts, `char_index_at` names that character.
pub proof fn lemma_char_index_at_start(s: Seq<char>, b: int)
    requires
        starts_char(s, b),
    ensures
        0 <= char_index_at(s, b) < s.len(),
        utf8_prefix_len(s, char_index_at(s, b)) == b,
        b < utf8_len(s),
{
    let w = choose|w: int| 0 <= w < s.len() && #[trigger] utf8_prefix_len(s, w) == b;
    assert(utf8_prefix_len(s, w) == b);
    let k = char_index_at(s, b);
    lemma_utf8_prefix_strict(s, w, s.len() as int);
    assert(s.take(s.len() as int) =~= s);
    if k == s.len() {
        assert(false);
    }
}

} // verus!
