//! Validation and parsing of the values typed into the settings panel.
//!
//! Each function handles one kind of field: an RGB colour written `r,g,b`,
//! an integer within bounds, a text of bounded length, a yes/no word and a
//! comma-separated list.

use vstd::prelude::*;

use crate::parse::{parse_i64, parse_i64_spec, parse_u8, parse_u8_spec, split_char, split_spec, trim, trim_spec};
use crate::text::{decimal, i64_to_decimal, signed_decimal, string_views, u64_to_decimal, utf8_len};

verus! {

/// Why a value typed into a settings field was refused.
#[derive(Debug, Clone)]
pub struct ValidationError {
    /// The message shown to the user.
    pub message: String,
}

impl ValidationError {
    /// An error with the given message.
    pub fn new(message: &str) -> (r: Self)
        ensures
            r.message@ == message@,
    {
        ValidationError { message: message.to_owned() }
    }
}

/// The message for an RGB component that is not a number from 0 to 255.
pub open spec fn component_error(i: int) -> Seq<char> {
    if i == 0 {
        "Red must be 0-255"@
    } else if i == 1 {
        "Green must be 0-255"@
    } else {
        "Blue must be 0-255"@
    }
}

/// Whether component `i` of the pieces `p` is a number from 0 to 255 once
/// trimmed.
pub open spec fn component_ok(p: Seq<Seq<char>>, i: int) -> bool {
    parse_u8_spec(trim_spec(p[i])) is Some
}

/// Why `v` is not an RGB colour written `r,g,b`, or `None` when it is one.
pub open spec fn rgb_error(v: Seq<char>) -> Option<Seq<char>> {
    let p = split_spec(v, ',');
    if v.len() == 0 {
        Some("Color cannot be empty"@)
    } else if p.len() != 3 {
        Some("Format must be r,g,b (e.g., 255,128,0)"@)
    } else if !component_ok(p, 0) {
        Some(component_error(0))
    } else if !component_ok(p, 1) {
        Some(component_error(1))
    } else if !component_ok(p, 2) {
        Some(component_error(2))
    } else {
        None
    }
}

/// The colour written by `s` as `r,g,b` (components trimmed, each from 0 to
/// 255), or `None`.
pub open spec fn parse_rgb_spec(s: Seq<char>) -> Option<(u8, u8, u8)> {
    let p = split_spec(s, ',');
    if p.len() != 3 {
        None
    } else {
        match (
            parse_u8_spec(trim_spec(p[0])),
            parse_u8_spec(trim_spec(p[1])),
            parse_u8_spec(trim_spec(p[2])),
        ) {
            (Some(r), Some(g), Some(b)) => Some((r, g, b)),
            _ => None,
        }
    }
}

/// Checks that `value` is an RGB colour written `r,g,b`; the error names the
/// first problem found.
pub fn validate_rgb_color(value: &str) -> (r: Result<(), ValidationError>)
    ensures
        match r {
            Ok(()) => rgb_error(value@) is None,
            Err(e) => rgb_error(value@) == Some(e.message@),
        },
{
    if value.unicode_len() == 0 {
        return Err(ValidationError::new("Color cannot be empty"));
    }
    let parts = split_char(value, ',');
    proof {
        assert(string_views(parts@).len() == parts@.len());
    }
    if parts.len() != 3 {
        return Err(ValidationError::new("Format must be r,g,b (e.g., 255,128,0)"));
    }
    let mut i: usize = 0;
    while i < 3
        invariant
            value@.len() > 0,
            parts@.len() == 3,
            string_views(parts@) == split_spec(value@, ','),
            i <= 3,
            forall|k: int| 0 <= k < i ==> component_ok(split_spec(value@, ','), k),
        decreases 3 - i,
    {
        proof {
            assert(string_views(parts@)[i as int] == parts@[i as int]@);
        }
        let t = trim(parts[i].as_str());
        let parsed = parse_u8(t);
        proof {
            assert(t@ == trim_spec(split_spec(value@, ',')[i as int]));
            assert(parsed is Some <==> component_ok(split_spec(value@, ','), i as int));
        }
        if parsed.is_none() {
            let message = if i == 0 {
                "Red must be 0-255"
            } else if i == 1 {
                "Green must be 0-255"
            } else {
                "Blue must be 0-255"
            };
            proof {
                assert(message@ == component_error(i as int));
                assert(rgb_error(value@) == Some(component_error(i as int)));
            }
            return Err(ValidationError::new(message));
        }
        i = i + 1;
    }
    Ok(())
}

/// Parses `s` as an RGB colour written `r,g,b`, each component trimmed and
/// from 0 to 255.
pub fn parse_rgb(s: &str) -> (r: Option<(u8, u8, u8)>)
    ensures
        r == parse_rgb_spec(s@),
{
    let parts = split_char(s, ',');
    proof {
        assert(string_views(parts@).len() == parts@.len());
    }
    if parts.len() != 3 {
        return None;
    }
    proof {
        assert(string_views(parts@)[0] == parts@[0]@);
        assert(string_views(parts@)[1] == parts@[1]@);
        assert(string_views(parts@)[2] == parts@[2]@);
    }
    let r = parse_u8(trim(parts[0].as_str()));
    let g = parse_u8(trim(parts[1].as_str()));
    let b = parse_u8(trim(parts[2].as_str()));
    match (r, g, b) {
        (Some(r), Some(g), Some(b)) => Some((r, g, b)),
        _ => None,
    }
}

/// A value is accepted by `validate_rgb_color` exactly when `parse_rgb`
/// reads a colour from it.
pub proof fn lemma_rgb_validation_agrees(v: Seq<char>)
    ensures
        (rgb_error(v) is None) <==> (parse_rgb_spec(v) is Some),
{
    if v.len() == 0 {
        assert(split_spec(v, ',') == seq![Seq::<char>::empty()]);
    }
}

/// Why the integer `v` lies outside `min..=max`, or `None`.
pub open spec fn integer_bound_error(v: int, min: int, max: int) -> Option<Seq<char>> {
    if v < min {
        Some("Value must be at least "@ + signed_decimal(min))
    } else if v > max {
        Some("Value must be at most "@ + signed_decimal(max))
    } else {
        None
    }
}

/// Checks that `v` lies within `min..=max`.
pub fn validate_integer(v: i64, min: i64, max: i64) -> (r: Result<(), ValidationError>)
    ensures
        match r {
            Ok(()) => integer_bound_error(v as int, min as int, max as int) is None,
            Err(e) => integer_bound_error(v as int, min as int, max as int) == Some(e.message@),
        },
{
    if v < min {
        let mut m = String::from_str("Value must be at least ");
        m.append(i64_to_decimal(min).as_str());
        Err(ValidationError { message: m })
    } else if v > max {
        let mut m = String::from_str("Value must be at most ");
        m.append(i64_to_decimal(max).as_str());
        Err(ValidationError { message: m })
    } else {
        Ok(())
    }
}

/// Why a text of `bytes` bytes is too long for a limit of `max_length`
/// bytes, or `None`.
pub open spec fn length_error(bytes: int, max_length: Option<usize>) -> Option<Seq<char>> {
    match max_length {
        Some(max) => if bytes > max {
            Some("Maximum "@ + decimal(max as nat) + " characters allowed"@)
        } else {
            None
        },
        None => None,
    }
}

/// Checks that `text` holds at most `max_length` bytes of UTF-8, when there is
/// a limit.
pub fn validate_text_length(text: &str, max_length: Option<usize>) -> (r: Result<
    (),
    ValidationError,
>)
    ensures
        match r {
            Ok(()) => length_error(utf8_len(text@), max_length) is None,
            Err(e) => length_error(utf8_len(text@), max_length) == Some(e.message@),
        },
{
    match max_length {
        Some(max) => {
            if text.as_bytes().len() > max {
                let mut m = String::from_str("Maximum ");
                m.append(u64_to_decimal(max as u64).as_str());
                m.append(" characters allowed");
                Err(ValidationError { message: m })
            } else {
                Ok(())
            }
        },
        None => Ok(()),
    }
}

/// The text lower-cased by `str::to_lowercase`.
pub uninterp spec fn lowercase(s: Seq<char>) -> Seq<char>;

/// Whether every character of `s` is ASCII.
pub open spec fn is_ascii_text(s: Seq<char>) -> bool {
    forall|i: int| 0 <= i < s.len() ==> (s[i] as u32) < 128
}

/// The ASCII lower case of `c`: `A` to `Z` become `a` to `z`, any other
/// character stays.
pub open spec fn ascii_lower_char(c: char) -> char {
    if 'A' <= c && c <= 'Z' {
        ((c as u32) + 32) as char
    } else {
        c
    }
}

/// `s` with `A` to `Z` turned into `a` to `z`.
pub open spec fn ascii_lowercase(s: Seq<char>) -> Seq<char> {
    s.map_values(|c: char| ascii_lower_char(c))
}

/// Wrapper of `str::to_lowercase`, which maps every character to its Unicode
/// lowercase mapping. Its result is named, not described, but for a text of
/// ASCII characters alone, where the Unicode mapping is the ASCII one: `A`
/// to `Z` become `a` to `z` and the rest stays.
#[verifier::external_body]
pub(crate) fn to_lowercase(s: &str) -> (r: String)
    ensures
        r@ == lowercase(s@),
        is_ascii_text(s@) ==> r@ == ascii_lowercase(s@),
{
    s.to_lowercase()
}

/// The switch value that a lower-cased word stands for: `true`, `yes`, `1`,
/// `on` and `enabled` mean on; `false`, `no`, `0`, `off` and `disabled` mean
/// off; any other word means nothing.
pub open spec fn switch_word(w: Seq<char>) -> Option<bool> {
    if w == "true"@ || w == "yes"@ || w == "1"@ || w == "on"@ || w == "enabled"@ {
        Some(true)
    } else if w == "false"@ || w == "no"@ || w == "0"@ || w == "off"@ || w == "disabled"@ {
        Some(false)
    } else {
        None
    }
}

/// Whether `a` reads the same as the literal `b`.
pub(crate) fn same_text(a: &String, b: &str) -> (r: bool)
    ensures
        r == (a@ == b@),
{
    let t = String::from_str(b);
    *a == t
}

/// The switch value that the lower-cased word `lower` stands for.
pub fn switch_value(lower: &String) -> (r: Option<bool>)
    ensures
        r == switch_word(lower@),
{
    if same_text(lower, "true") || same_text(lower, "yes") || same_text(lower, "1") || same_text(
        lower,
        "on",
    ) || same_text(lower, "enabled") {
        Some(true)
    } else if same_text(lower, "false") || same_text(lower, "no") || same_text(lower, "0")
        || same_text(lower, "off") || same_text(lower, "disabled") {
        Some(false)
    } else {
        None
    }
}

/// Reads an on/off value from `input`, whatever its letter case; for an
/// ASCII input the letter case is the ASCII one.
pub fn parse_switch(input: &str) -> (r: Result<bool, ValidationError>)
    ensures
        match r {
            Ok(b) => switch_word(lowercase(input@)) == Some(b),
            Err(e) => switch_word(lowercase(input@)) is None && e.message@
                == "Enter 'true' or 'false'"@,
        },
        is_ascii_text(input@) ==> lowercase(input@) == ascii_lowercase(input@),
{
    let lower = to_lowercase(input);
    proof {
        if is_ascii_text(input@) {
            assert(lowercase(input@) =~= ascii_lowercase(input@));
        }
    }
    match switch_value(&lower) {
        Some(b) => Ok(b),
        None => Err(ValidationError::new("Enter 'true' or 'false'")),
    }
}

/// What `parse_integer_setting` gives for `input` and the bounds: the value,
/// or the message of the error.
pub open spec fn integer_setting(input: Seq<char>, min: int, max: int) -> Result<
    i64,
    Seq<char>,
> {
    match parse_i64_spec(trim_spec(input)) {
        Some(v) => if v < min || v > max {
            Err(
                "Value must be between "@ + signed_decimal(min) + " and "@ + signed_decimal(
                    max,
                ),
            )
        } else {
            Ok(v)
        },
        None => Err("Enter a valid integer"@),
    }
}

/// Reads an integer within `min..=max` from `input`, ignoring surrounding
/// whitespace.
pub fn parse_integer_setting(input: &str, min: i64, max: i64) -> (r: Result<i64, ValidationError>)
    ensures
        match r {
            Ok(v) => integer_setting(input@, min as int, max as int) == Ok::<i64, Seq<char>>(v),
            Err(e) => integer_setting(input@, min as int, max as int) == Err::<i64, Seq<char>>(
                e.message@,
            ),
        },
{
    match parse_i64(trim(input)) {
        Some(v) => {
            if v < min || v > max {
                let mut m = String::from_str("Value must be between ");
                m.append(i64_to_decimal(min).as_str());
                m.append(" and ");
                m.append(i64_to_decimal(max).as_str());
                Err(ValidationError { message: m })
            } else {
                Ok(v)
            }
        },
        None => Err(ValidationError::new("Enter a valid integer")),
    }
}

/// The trimmed, non-empty pieces of the pieces `p`, in order.
pub open spec fn nonempty_trimmed(p: Seq<Seq<char>>) -> Seq<Seq<char>>
    decreases p.len(),
{
    if p.len() == 0 {
        Seq::empty()
    } else {
        let rest = nonempty_trimmed(p.drop_last());
        let t = trim_spec(p.last());
        if t.len() == 0 {
            rest
        } else {
            rest.push(t)
        }
    }
}

/// The items of a comma-separated list: each piece trimmed, empty pieces
/// left out.
pub open spec fn list_items(input: Seq<char>) -> Seq<Seq<char>> {
    nonempty_trimmed(split_spec(input, ','))
}

/// Reads a comma-separated list from `input`.
pub fn parse_list(input: &str) -> (r: Vec<String>)
    ensures
        string_views(r@) == list_items(input@),
{
    let parts = split_char(input, ',');
    let ghost p = string_views(parts@);
    let mut out: Vec<String> = Vec::new();
    let mut i: usize = 0;
    while i < parts.len()
        invariant
            p == string_views(parts@),
            p == split_spec(input@, ','),
            i <= parts@.len(),
            string_views(out@) == nonempty_trimmed(p.take(i as int)),
        decreases parts@.len() - i,
    {
        let t = trim(parts[i].as_str());
        proof {
            assert(p.take(i + 1).drop_last() =~= p.take(i as int));
            assert(p.take(i + 1).last() == parts@[i as int]@);
        }
        if t.unicode_len() > 0 {
            let item = t.to_owned();
            proof {
                assert(string_views(out@.push(item)) =~= string_views(out@).push(item@));
            }
            out.push(item);
        }
        i = i + 1;
    }
    proof {
        assert(p.take(parts@.len() as int) =~= p);
    }
    out
}

/// The optional text of a free-form field: `None` for an empty input.
pub fn optional_text(input: &str) -> (r: Option<String>)
    ensures
        match r {
            Some(t) => input@.len() > 0 && t@ == input@,
            None => input@.len() == 0,
        },
{
    if input.unicode_len() == 0 {
        None
    } else {
        Some(input.to_owned())
    }
}

} // verus!
