//! Reading colours written in the configuration: `r,g,b` triples and hex
//! codes (`#RRGGBB`, `#RGB`, or six hex digits without `#`).

use vstd::prelude::*;
use vstd::utf8::*;

use crate::parse::{trim, trim_spec};
use crate::text::chars_of;
use crate::validation::{parse_rgb, parse_rgb_spec};

verus! {

/// The value of the ASCII hex digit `b`, or `None`.
pub open spec fn hex_value(b: u8) -> Option<u8> {
    if 48 <= b <= 57 {
        Some((b - 48) as u8)
    } else if 97 <= b <= 102 {
        Some((b - 87) as u8)
    } else if 65 <= b <= 70 {
        Some((b - 55) as u8)
    } else {
        None
    }
}

/// What `u8::from_str_radix(t, 16)` gives for the two-byte text `t = [a, b]`:
/// an optional leading `+` followed by hex digits.
pub open spec fn radix16_pair(a: u8, b: u8) -> Option<u8> {
    if a == 43 {
        hex_value(b)
    } else {
        match (hex_value(a), hex_value(b)) {
            (Some(x), Some(y)) => Some((16 * x + y) as u8),
            _ => None,
        }
    }
}

/// `s` without its leading `#` characters.
pub open spec fn strip_hashes(s: Seq<char>) -> Seq<char>
    decreases s.len(),
{
    if s.len() > 0 && s[0] == '#' {
        strip_hashes(s.drop_first())
    } else {
        s
    }
}

/// The UTF-8 bytes of the hex code in `s`: trimmed, leading `#`s removed.
pub open spec fn hex_bytes(s: Seq<char>) -> Seq<u8> {
    encode_utf8(strip_hashes(trim_spec(s)))
}

/// Whether `b` continues a multi-byte character (so no character starts
/// there).
pub open spec fn is_continuation(b: u8) -> bool {
    0x80 <= b <= 0xBF
}

/// Whether reading the hex code in `s` slices its text inside a character
/// (where `hex_to_color` panics): a three-byte code cut after its first byte,
/// or after its second once the first was a digit; a six-byte code cut after
/// its second byte, or after its fourth once the first pair was read.
pub open spec fn hex_color_panics(s: Seq<char>) -> bool {
    let b = hex_bytes(s);
    if b.len() == 3 {
        is_continuation(b[1]) || (radix16_pair(b[0], b[0]) is Some && is_continuation(b[2]))
    } else if b.len() == 6 {
        is_continuation(b[2]) || (radix16_pair(b[0], b[1]) is Some && is_continuation(b[4]))
    } else {
        false
    }
}

/// The colour of the hex code in `s`: three bytes `RGB`, each digit doubled,
/// or six bytes `RRGGBB`; `None` otherwise.
pub open spec fn hex_color_spec(s: Seq<char>) -> Option<(u8, u8, u8)> {
    let b = hex_bytes(s);
    if b.len() == 3 {
        match (radix16_pair(b[0], b[0]), radix16_pair(b[1], b[1]), radix16_pair(b[2], b[2])) {
            (Some(r), Some(g), Some(bl)) => Some((r, g, bl)),
            _ => None,
        }
    } else if b.len() == 6 {
        match (radix16_pair(b[0], b[1]), radix16_pair(b[2], b[3]), radix16_pair(b[4], b[5])) {
            (Some(r), Some(g), Some(bl)) => Some((r, g, bl)),
            _ => None,
        }
    } else {
        None
    }
}

/// The value of the hex digit byte `b`.
fn hex_digit(b: u8) -> (r: Option<u8>)
    ensures
        r == hex_value(b),
{
    if 48 <= b && b <= 57 {
        Some(b - 48)
    } else if 97 <= b && b <= 102 {
        Some(b - 87)
    } else if 65 <= b && b <= 70 {
        Some(b - 55)
    } else {
        None
    }
}

/// Reads the two-byte text `[a, b]` as a base-16 `u8`.
fn read_pair(a: u8, b: u8) -> (r: Option<u8>)
    ensures
        r == radix16_pair(a, b),
{
    if a == 43 {
        hex_digit(b)
    } else {
        match (hex_digit(a), hex_digit(b)) {
            (Some(x), Some(y)) => Some(16 * x + y),
            _ => None,
        }
    }
}

/// `s` without its leading `#` characters.
fn strip_leading_hashes(s: &str) -> (r: &str)
    ensures
        r@ == strip_hashes(s@),
{
    let chars = chars_of(s);
    let n = chars.len();
    let mut i: usize = 0;
    proof {
        assert(s@.skip(0) =~= s@);
    }
    while i < n && chars[i] == '#'
        invariant
            chars@ == s@,
            n == s@.len(),
            i <= n,
            strip_hashes(s@) == strip_hashes(s@.skip(i as int)),
        decreases n - i,
    {
        proof {
            assert(s@.skip(i as int).drop_first() =~= s@.skip(i + 1));
        }
        i = i + 1;
    }
    proof {
        assert(s@.skip(i as int) =~= s@.subrange(i as int, n as int));
    }
    s.substring_char(i, n)
}

/// Reads a hex colour code: `#RRGGBB` or the shorthand `#RGB` (each digit
/// doubled), after trimming whitespace and any leading `#`s.
pub fn hex_to_color(hex: &str) -> (r: Option<(u8, u8, u8)>)
    requires
        !hex_color_panics(hex@),
    ensures
        r == hex_color_spec(hex@),
{
    let body = strip_leading_hashes(trim(hex));
    let b = body.as_bytes();
    proof {
        assert(b@ == hex_bytes(hex@));
    }
    if b.len() == 3 {
        let r = read_pair(b[0], b[0]);
        let g = read_pair(b[1], b[1]);
        let bl = read_pair(b[2], b[2]);
        match (r, g, bl) {
            (Some(r), Some(g), Some(bl)) => Some((r, g, bl)),
            _ => None,
        }
    } else if b.len() == 6 {
        let r = read_pair(b[0], b[1]);
        let g = read_pair(b[2], b[3]);
        let bl = read_pair(b[4], b[5]);
        match (r, g, bl) {
            (Some(r), Some(g), Some(bl)) => Some((r, g, bl)),
            _ => None,
        }
    } else {
        None
    }
}

/// Whether every byte of `b` is an ASCII hex digit.
pub open spec fn all_hex(b: Seq<u8>) -> bool {
    forall|i: int| 0 <= i < b.len() ==> hex_value(#[trigger] b[i]) is Some
}

/// The colour written in `s`, as `parse_color_string` reads it: after
/// trimming, a code starting with `#` is a hex code; a text with a comma is
/// an `r,g,b` triple; six hex digits are `RRGGBB`; anything else is no colour.
pub open spec fn color_string_spec(s: Seq<char>) -> Option<(u8, u8, u8)> {
    let t = trim_spec(s);
    let b = encode_utf8(t);
    if t.len() > 0 && t[0] == '#' {
        hex_color_spec(t)
    } else if t.contains(',') {
        parse_rgb_spec(t)
    } else if b.len() == 6 && all_hex(b) {
        match (radix16_pair(b[0], b[1]), radix16_pair(b[2], b[3]), radix16_pair(b[4], b[5])) {
            (Some(r), Some(g), Some(bl)) => Some((r, g, bl)),
            _ => None,
        }
    } else {
        None
    }
}

/// Whether `parse_color_string` panics on `s`: when the trimmed text is a
/// hex code on which `hex_to_color` panics.
pub open spec fn color_string_panics(s: Seq<char>) -> bool {
    let t = trim_spec(s);
    t.len() > 0 && t[0] == '#' && hex_color_panics(t)
}

/// Whether `s` holds the character `c`.
fn has_char(s: &str, c: char) -> (r: bool)
    ensures
        r == s@.contains(c),
{
    let chars = chars_of(s);
    let mut i: usize = 0;
    while i < chars.len()
        invariant
            chars@ == s@,
            i <= chars@.len(),
            forall|k: int| 0 <= k < i ==> chars@[k] != c,
        decreases chars@.len() - i,
    {
        if chars[i] == c {
            return true;
        }
        i = i + 1;
    }
    false
}

/// Reads a colour from configuration text: `r,g,b` (components trimmed),
/// `#RRGGBB`, `#RGB`, or `RRGGBB` without `#`.
pub fn parse_color_string(color_str: &str) -> (r: Option<(u8, u8, u8)>)
    requires
        !color_string_panics(color_str@),
    ensures
        r == color_string_spec(color_str@),
{
    let trimmed = trim(color_str);
    let chars = chars_of(trimmed);
    if chars.len() > 0 && chars[0] == '#' {
        return hex_to_color(trimmed);
    }
    if has_char(trimmed, ',') {
        return parse_rgb(trimmed);
    }
    let b = trimmed.as_bytes();
    if b.len() == 6 {
        let mut i: usize = 0;
        while i < 6
            invariant
                trimmed@ == trim_spec(color_str@),
                !(trimmed@.len() > 0 && trimmed@[0] == '#'),
                !trimmed@.contains(','),
                b@ == encode_utf8(trimmed@),
                b@.len() == 6,
                i <= 6,
                forall|k: int| 0 <= k < i ==> hex_value(#[trigger] b@[k]) is Some,
            decreases 6 - i,
        {
            if hex_digit(b[i]).is_none() {
                proof {
                    assert(hex_value(b@[i as int]) is None);
                    assert(!all_hex(b@));
                }
                return None;
            }
            i = i + 1;
        }
        let r = read_pair(b[0], b[1]);
        let g = read_pair(b[2], b[3]);
        let bl = read_pair(b[4], b[5]);
        match (r, g, bl) {
            (Some(r), Some(g), Some(bl)) => Some((r, g, bl)),
            _ => None,
        }
    } else {
        None
    }
}

} // verus!
