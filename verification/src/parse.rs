//! Plain-text parsing: Unicode whitespace, trimming, splitting on a
//! separator, and the integer syntax of `str::parse` and `from_str_radix`.

use vstd::prelude::*;

use crate::text::{chars_of, string_views};

verus! {

/// Whether `c` has the Unicode `White_Space` property (what
/// `char::is_whitespace` tests).
pub open spec fn is_ws(c: char) -> bool {
    let v = c as u32;
    (0x09 <= v <= 0x0D) || v == 0x20 || v == 0x85 || v == 0xA0 || v == 0x1680 || (0x2000 <= v
        <= 0x200A) || v == 0x2028 || v == 0x2029 || v == 0x202F || v == 0x205F || v == 0x3000
}

/// Tests the Unicode `White_Space` property.
pub fn is_whitespace(c: char) -> (r: bool)
    ensures
        r == is_ws(c),
{
    let v = c as u32;
    (0x09 <= v && v <= 0x0D) || v == 0x20 || v == 0x85 || v == 0xA0 || v == 0x1680 || (0x2000 <= v
        && v <= 0x200A) || v == 0x2028 || v == 0x2029 || v == 0x202F || v == 0x205F || v == 0x3000
}

/// `s` without its leading whitespace.
pub open spec fn trim_start_spec(s: Seq<char>) -> Seq<char>
    decreases s.len(),
{
    if s.len() > 0 && is_ws(s[0]) {
        trim_start_spec(s.drop_first())
    } else {
        s
    }
}

/// `s` without its trailing whitespace.
pub open spec fn trim_end_spec(s: Seq<char>) -> Seq<char>
    decreases s.len(),
{
    if s.len() > 0 && is_ws(s.last()) {
        trim_end_spec(s.drop_last())
    } else {
        s
    }
}

/// `s` without leading and trailing whitespace (what `str::trim` returns).
pub open spec fn trim_spec(s: Seq<char>) -> Seq<char> {
    trim_end_spec(trim_start_spec(s))
}

proof fn lemma_trim_start_skip(s: Seq<char>, i: int)
    requires
        0 <= i <= s.len(),
        forall|k: int| 0 <= k < i ==> is_ws(#[trigger] s[k]),
        i == s.len() || !is_ws(s[i]),
    ensures
        trim_start_spec(s) == s.skip(i),
    decreases i,
{
    if i == 0 {
        assert(s.skip(0) =~= s);
    } else {
        assert(is_ws(s[0]));
        let t = s.drop_first();
        assert forall|k: int| 0 <= k < i - 1 implies is_ws(#[trigger] t[k]) by {
            assert(t[k] == s[k + 1]);
        }
        lemma_trim_start_skip(t, i - 1);
        assert(t.skip(i - 1) =~= s.skip(i));
    }
}

proof fn lemma_trim_end_take(s: Seq<char>, j: int)
    requires
        0 <= j <= s.len(),
        forall|k: int| j <= k < s.len() ==> is_ws(#[trigger] s[k]),
        j == 0 || !is_ws(s[j - 1]),
    ensures
        trim_end_spec(s) == s.take(j),
    decreases s.len() - j,
{
    if j == s.len() {
        assert(s.take(j) =~= s);
    } else {
        assert(is_ws(s.last()));
        let t = s.drop_last();
        assert forall|k: int| j <= k < t.len() implies is_ws(#[trigger] t[k]) by {
            assert(t[k] == s[k]);
        }
        lemma_trim_end_take(t, j);
        assert(t.take(j) =~= s.take(j));
    }
}

/// Strips leading and trailing whitespace.
pub fn trim(s: &str) -> (r: &str)
    ensures
        r@ == trim_spec(s@),
{
    let chars = chars_of(s);
    let n = chars.len();
    let mut i: usize = 0;
    while i < n && is_whitespace(chars[i])
        invariant
            chars@ == s@,
            n == s@.len(),
            i <= n,
            forall|k: int| 0 <= k < i ==> is_ws(#[trigger] s@[k]),
        decreases n - i,
    {
        i = i + 1;
    }
    let mut j: usize = n;
    while j > i && is_whitespace(chars[j - 1])
        invariant
            chars@ == s@,
            n == s@.len(),
            i <= j <= n,
            forall|k: int| j <= k < n ==> is_ws(#[trigger] s@[k]),
        decreases j,
    {
        j = j - 1;
    }
    proof {
        lemma_trim_start_skip(s@, i as int);
        let t = s@.skip(i as int);
        assert forall|k: int| j - i <= k < t.len() implies is_ws(#[trigger] t[k]) by {
            assert(t[k] == s@[k + i]);
        }
        if j > i {
            assert(t[j - i - 1] == s@[j - 1]);
        }
        lemma_trim_end_take(t, j - i);
        assert(t.take(j - i) =~= s@.subrange(i as int, j as int));
    }
    s.substring_char(i, j)
}

/// The pieces of `rest` split at `sep`, given that `cur` holds the characters
/// already read of the piece in progress.
pub open spec fn split_from(rest: Seq<char>, sep: char, cur: Seq<char>) -> Seq<Seq<char>>
    decreases rest.len(),
{
    if rest.len() == 0 {
        seq![cur]
    } else if rest[0] == sep {
        seq![cur] + split_from(rest.drop_first(), sep, Seq::empty())
    } else {
        split_from(rest.drop_first(), sep, cur.push(rest[0]))
    }
}

/// The pieces of `s` between occurrences of `sep` (what `str::split` yields
/// for a character separator): one more piece than there are separators.
pub open spec fn split_spec(s: Seq<char>, sep: char) -> Seq<Seq<char>> {
    split_from(s, sep, Seq::empty())
}

/// Splits `s` at every occurrence of `sep`.
pub fn split_char(s: &str, sep: char) -> (r: Vec<String>)
    ensures
        string_views(r@) == split_spec(s@, sep),
{
    let chars = chars_of(s);
    let n = chars.len();
    let mut out: Vec<String> = Vec::new();
    let mut start: usize = 0;
    let mut i: usize = 0;
    proof {
        assert(s@.skip(0) =~= s@);
        assert(s@.subrange(0, 0) =~= Seq::<char>::empty());
    }
    while i < n
        invariant
            chars@ == s@,
            n == s@.len(),
            start <= i <= n,
            string_views(out@) + split_from(s@.skip(i as int), sep, s@.subrange(
                start as int,
                i as int,
            )) == split_spec(s@, sep),
        decreases n - i,
    {
        if chars[i] == sep {
            let piece = s.substring_char(start, i).to_owned();
            proof {
                let cur = s@.subrange(start as int, i as int);
                assert(s@.skip(i as int).drop_first() =~= s@.skip(i + 1));
                assert(s@.subrange((i + 1) as int, (i + 1) as int) =~= Seq::<char>::empty());
                assert(string_views(out@.push(piece)) =~= string_views(out@) + seq![piece@]);
                assert((string_views(out@) + seq![cur]) + split_from(
                    s@.skip(i + 1),
                    sep,
                    Seq::empty(),
                ) =~= string_views(out@) + (seq![cur] + split_from(
                    s@.skip(i + 1),
                    sep,
                    Seq::empty(),
                )));
            }
            out.push(piece);
            start = i + 1;
        } else {
            proof {
                assert(s@.skip(i as int).drop_first() =~= s@.skip(i + 1));
                assert(s@.subrange(start as int, i as int).push(s@[i as int]) =~= s@.subrange(
                    start as int,
                    i + 1,
                ));
            }
        }
        i = i + 1;
    }
    let piece = s.substring_char(start, n).to_owned();
    proof {
        assert(string_views(out@.push(piece)) =~= string_views(out@) + seq![piece@]);
    }
    out.push(piece);
    out
}

/// The value of decimal digit `c`.
pub open spec fn dec_digit(c: char) -> int {
    (c as u32 - '0' as u32) as int
}

/// Whether `c` is an ASCII decimal digit.
pub open spec fn is_dec_digit(c: char) -> bool {
    '0' <= c <= '9'
}

/// Whether every character of `d` is an ASCII decimal digit.
pub open spec fn all_dec(d: Seq<char>) -> bool {
    forall|k: int| 0 <= k < d.len() ==> is_dec_digit(#[trigger] d[k])
}

/// The number written by the decimal digits `d`.
pub open spec fn dec_value(d: Seq<char>) -> int
    decreases d.len(),
{
    if d.len() == 0 {
        0
    } else {
        dec_value(d.drop_last()) * 10 + dec_digit(d.last())
    }
}

/// The unsigned-integer syntax of `str::parse`: an optional `+`, then at least
/// one decimal digit; the value of the digits.
pub open spec fn unsigned_digits(s: Seq<char>) -> Option<Seq<char>> {
    let d = if s.len() > 0 && s[0] == '+' {
        s.drop_first()
    } else {
        s
    };
    if d.len() > 0 && all_dec(d) {
        Some(d)
    } else {
        None
    }
}

/// What `s.parse::<u8>()` gives, as an option.
pub open spec fn parse_u8_spec(s: Seq<char>) -> Option<u8> {
    match unsigned_digits(s) {
        Some(d) => if dec_value(d) <= 255 {
            Some(dec_value(d) as u8)
        } else {
            None
        },
        None => None,
    }
}

proof fn lemma_dec_value_grows(d: Seq<char>, i: int)
    requires
        0 <= i <= d.len(),
        all_dec(d),
    ensures
        0 <= dec_value(d.take(i)) <= dec_value(d),
    decreases d.len() - i,
{
    if i < d.len() {
        lemma_dec_value_grows(d, i + 1);
        assert(d.take(i + 1).drop_last() =~= d.take(i));
        assert(is_dec_digit(d[i]));
    } else {
        assert(d.take(i) =~= d);
        lemma_dec_value_nonneg(d);
    }
}

proof fn lemma_dec_value_nonneg(d: Seq<char>)
    requires
        all_dec(d),
    ensures
        dec_value(d) >= 0,
    decreases d.len(),
{
    if d.len() > 0 {
        let t = d.drop_last();
        assert(all_dec(t)) by {
            assert forall|k: int| 0 <= k < t.len() implies is_dec_digit(#[trigger] t[k]) by {
                assert(t[k] == d[k]);
            }
        }
        lemma_dec_value_nonneg(t);
        assert(is_dec_digit(d[d.len() - 1]));
    }
}

/// Parses decimal digits `chars[from..]` while the value stays at most
/// `limit`; `None` when a character is not a digit, when there are no digits,
/// or when the value exceeds `limit`.
fn parse_digits(chars: &Vec<char>, from: usize, limit: u64) -> (r: Option<u64>)
    requires
        from <= chars@.len(),
    ensures
        ({
            let d = chars@.skip(from as int);
            match r {
                Some(v) => d.len() > 0 && all_dec(d) && dec_value(d) == v && v <= limit,
                None => !(d.len() > 0 && all_dec(d) && dec_value(d) <= limit),
            }
        }),
{
    let n = chars.len();
    if from >= n {
        return None;
    }
    let ghost d = chars@.skip(from as int);
    let mut acc: u64 = 0;
    let mut i: usize = from;
    proof {
        assert(d.take(0) =~= Seq::<char>::empty());
    }
    while i < n
        invariant
            from <= i <= n,
            n == chars@.len(),
            d == chars@.skip(from as int),
            all_dec(d.take(i - from)),
            acc == dec_value(d.take(i - from)),
            acc <= limit,
        decreases n - i,
    {
        let c = chars[i];
        if !('0' <= c && c <= '9') {
            proof {
                assert(d[i - from] == c);
            }
            return None;
        }
        let digit: u64 = (c as u32 - '0' as u32) as u64;
        proof {
            assert(d.take(i - from + 1).drop_last() =~= d.take(i - from));
            assert(d.take(i - from + 1).last() == c);
            assert(all_dec(d.take(i - from + 1))) by {
                assert forall|k: int| 0 <= k < i - from + 1 implies is_dec_digit(
                    #[trigger] d.take(i - from + 1)[k],
                ) by {
                    if k < i - from {
                        assert(d.take(i - from + 1)[k] == d.take(i - from)[k]);
                    }
                }
            }
        }
        if digit > limit || acc > (limit - digit) / 10 {
            proof {
                assert(dec_value(d.take(i - from + 1)) == acc * 10 + digit);
                assert(acc * 10 + digit > limit) by (nonlinear_arith)
                    requires
                        digit > limit || acc > (limit - digit) / 10,
                        acc >= 0,
                ;
                if all_dec(d) {
                    lemma_dec_value_grows(d, i - from + 1);
                }
            }
            return None;
        }
        proof {
            assert(acc * 10 + digit <= limit) by (nonlinear_arith)
                requires
                    acc <= (limit - digit) / 10,
                    digit <= limit,
            ;
        }
        acc = acc * 10 + digit;
        i = i + 1;
    }
    proof {
        assert(d.take(n - from) =~= d);
    }
    Some(acc)
}


/// Parses `s` as a `u8` with the syntax of `str::parse`: an optional `+`, then
/// decimal digits whose value is at most 255.
pub fn parse_u8(s: &str) -> (r: Option<u8>)
    ensures
        r == parse_u8_spec(s@),
{
    let chars = chars_of(s);
    let from: usize = if chars.len() > 0 && chars[0] == '+' {
        1
    } else {
        0
    };
    proof {
        if from == 1 {
            assert(chars@.skip(1) =~= s@.drop_first());
        } else {
            assert(chars@.skip(0) =~= s@);
        }
    }
    match parse_digits(&chars, from, 255) {
        Some(v) => Some(v as u8),
        None => None,
    }
}

/// The signed-integer syntax of `str::parse`: an optional `+` or `-`, then at
/// least one decimal digit; whether the sign was `-`, and the digits.
pub open spec fn signed_digits(s: Seq<char>) -> Option<(bool, Seq<char>)> {
    if s.len() > 0 && (s[0] == '+' || s[0] == '-') {
        let d = s.drop_first();
        if d.len() > 0 && all_dec(d) {
            Some((s[0] == '-', d))
        } else {
            None
        }
    } else if s.len() > 0 && all_dec(s) {
        Some((false, s))
    } else {
        None
    }
}

/// What `s.parse::<i64>()` gives, as an option.
pub open spec fn parse_i64_spec(s: Seq<char>) -> Option<i64> {
    match signed_digits(s) {
        Some((neg, d)) => {
            let v = if neg {
                -dec_value(d)
            } else {
                dec_value(d)
            };
            if i64::MIN <= v <= i64::MAX {
                Some(v as i64)
            } else {
                None
            }
        },
        None => None,
    }
}

/// Parses `s` as an `i64` with the syntax of `str::parse`.
pub fn parse_i64(s: &str) -> (r: Option<i64>)
    ensures
        r == parse_i64_spec(s@),
{
    let chars = chars_of(s);
    let signed = chars.len() > 0 && (chars[0] == '+' || chars[0] == '-');
    let neg = signed && chars[0] == '-';
    let from: usize = if signed {
        1
    } else {
        0
    };
    proof {
        if signed {
            assert(chars@.skip(1) =~= s@.drop_first());
        } else {
            assert(chars@.skip(0) =~= s@);
        }
    }
    let limit: u64 = if neg {
        9223372036854775808
    } else {
        9223372036854775807
    };
    match parse_digits(&chars, from, limit) {
        Some(v) => {
            if neg {
                if v == 9223372036854775808 {
                    Some(i64::MIN)
                } else {
                    let w: i64 = v as i64;
                    Some(-w)
                }
            } else {
                Some(v as i64)
            }
        },
        None => None,
    }
}

} // verus!
