//! The kinds of settings fields and their values, but for floating-point
//! ones, with the check of a value against its field and the reading of a
//! typed value as a value of the field.

use vstd::prelude::*;

use crate::text::{string_views, utf8_len};
use crate::validation::{
    integer_bound_error, integer_setting, length_error, list_items, lowercase, optional_text,
    parse_integer_setting, parse_list, parse_switch, rgb_error, switch_word, validate_integer,
    validate_rgb_color, validate_text_length, ValidationError,
};

verus! {

/// What kind of value a settings field holds (floating-point ones aside).
pub enum FieldKind {
    /// A yes/no value.
    Boolean,
    /// An integer within `min..=max`.
    Integer { min: i64, max: i64 },
    /// Free-form text, with at most `max_length` bytes when there is a limit.
    Text { max_length: Option<usize> },
    /// A file path, which must name an existing file when `must_exist`.
    Path { must_exist: bool },
    /// A colour written `r,g,b`.
    RgbColor,
    /// A list of strings.
    StringList,
    /// The wordlists, edited in the wordlist manager.
    WordlistManager,
    /// The colour scheme, chosen in the theme picker.
    ThemePicker,
    /// A selection from the items `all_items`.
    ToggleList { all_items: Vec<String> },
}

/// The value of a settings field (floating-point ones aside).
pub enum FieldValue {
    Bool(bool),
    Int(i64),
    Text(String),
    OptionalText(Option<String>),
    List(Vec<String>),
    WordlistPlaceholder,
}

/// Why a path is refused: one that must exist names no file
/// (`path_exists` false); the empty path is always accepted.
pub open spec fn path_error(path: Seq<char>, must_exist: bool, path_exists: bool) -> Option<
    Seq<char>,
> {
    if path.len() > 0 && must_exist && !path_exists {
        Some("File does not exist"@)
    } else {
        None
    }
}

/// Why `value` is refused for a field of kind `kind`, or `None`: integers
/// out of bounds, texts too long, paths naming no file (`path_exists` tells
/// whether the path names one), malformed colours, and values of the wrong
/// kind.
pub open spec fn field_error(kind: FieldKind, value: FieldValue, path_exists: bool) -> Option<
    Seq<char>,
> {
    match (kind, value) {
        (FieldKind::Boolean, FieldValue::Bool(_)) => None,
        (FieldKind::Integer { min, max }, FieldValue::Int(v)) => integer_bound_error(
            v as int,
            min as int,
            max as int,
        ),
        (FieldKind::Text { max_length }, FieldValue::Text(t)) => length_error(
            utf8_len(t@),
            max_length,
        ),
        (FieldKind::Text { max_length }, FieldValue::OptionalText(t)) => match t {
            Some(t) => length_error(utf8_len(t@), max_length),
            None => None,
        },
        (FieldKind::Path { must_exist }, FieldValue::OptionalText(t)) => match t {
            Some(p) => path_error(p@, must_exist, path_exists),
            None => None,
        },
        (FieldKind::Path { must_exist }, FieldValue::Text(p)) => path_error(
            p@,
            must_exist,
            path_exists,
        ),
        (FieldKind::RgbColor, FieldValue::Text(t)) => rgb_error(t@),
        (FieldKind::StringList, FieldValue::List(_)) => None,
        (FieldKind::ToggleList { .. }, FieldValue::List(_)) => None,
        (FieldKind::WordlistManager, FieldValue::WordlistPlaceholder) => None,
        _ => Some("Invalid value type for field"@),
    }
}

/// Checks `value` for a field of kind `kind` (see `field_error`);
/// `path_exists` tells whether the path of a path field names an existing
/// file, which the caller looks up.
pub fn validate_field(kind: &FieldKind, value: &FieldValue, path_exists: bool) -> (r: Result<
    (),
    ValidationError,
>)
    ensures
        match r {
            Ok(()) => field_error(*kind, *value, path_exists) is None,
            Err(e) => field_error(*kind, *value, path_exists) == Some(e.message@),
        },
{
    match (kind, value) {
        (FieldKind::Boolean, FieldValue::Bool(_)) => Ok(()),
        (FieldKind::Integer { min, max }, FieldValue::Int(v)) => validate_integer(*v, *min, *max),
        (FieldKind::Text { max_length }, FieldValue::Text(t)) => validate_text_length(
            t.as_str(),
            *max_length,
        ),
        (FieldKind::Text { max_length }, FieldValue::OptionalText(t)) => match t {
            Some(t) => validate_text_length(t.as_str(), *max_length),
            None => Ok(()),
        },
        (FieldKind::Path { must_exist }, FieldValue::OptionalText(t)) => match t {
            Some(p) => check_path(p, *must_exist, path_exists),
            None => Ok(()),
        },
        (FieldKind::Path { must_exist }, FieldValue::Text(p)) => check_path(
            p,
            *must_exist,
            path_exists,
        ),
        (FieldKind::RgbColor, FieldValue::Text(t)) => validate_rgb_color(t.as_str()),
        (FieldKind::StringList, FieldValue::List(_)) => Ok(()),
        (FieldKind::ToggleList { .. }, FieldValue::List(_)) => Ok(()),
        (FieldKind::WordlistManager, FieldValue::WordlistPlaceholder) => Ok(()),
        _ => Err(ValidationError::new("Invalid value type for field")),
    }
}

/// Checks a path (see `path_error`).
fn check_path(path: &String, must_exist: bool, path_exists: bool) -> (r: Result<(), ValidationError>)
    ensures
        match r {
            Ok(()) => path_error(path@, must_exist, path_exists) is None,
            Err(e) => path_error(path@, must_exist, path_exists) == Some(e.message@),
        },
{
    if path.as_str().unicode_len() > 0 && must_exist && !path_exists {
        Err(ValidationError::new("File does not exist"))
    } else {
        Ok(())
    }
}

/// Reads the typed text `input` as a value of a field of kind `kind`: a
/// yes/no word, an integer within the bounds, a text or path (none when
/// empty), a colour `r,g,b` kept as typed, a comma-separated list; the
/// wordlist field takes a placeholder and the theme field reads `Custom`.
pub fn parse_input(input: &str, kind: &FieldKind) -> (r: Result<FieldValue, ValidationError>)
    ensures
        match *kind {
            FieldKind::Boolean => match r {
                Ok(v) => exists|b: bool|
                    v == FieldValue::Bool(b) && switch_word(lowercase(input@)) == Some(b),
                Err(e) => switch_word(lowercase(input@)) is None && e.message@
                    == "Enter 'true' or 'false'"@,
            },
            FieldKind::Integer { min, max } => match r {
                Ok(v) => exists|n: i64|
                    v == FieldValue::Int(n) && integer_setting(input@, min as int, max as int)
                        == Ok::<i64, Seq<char>>(n),
                Err(e) => integer_setting(input@, min as int, max as int) == Err::<i64, Seq<char>>(
                    e.message@,
                ),
            },
            FieldKind::Text { .. } | FieldKind::Path { .. } => (r matches Ok(
                FieldValue::OptionalText(t),
            ) && match t {
                Some(t) => input@.len() > 0 && t@ == input@,
                None => input@.len() == 0,
            }),
            FieldKind::RgbColor => match r {
                Ok(v) => rgb_error(input@) is None && (v matches FieldValue::Text(t) && t@ == input@),
                Err(e) => rgb_error(input@) == Some(e.message@),
            },
            FieldKind::StringList | FieldKind::ToggleList { .. } => (r matches Ok(
                FieldValue::List(l),
            ) && string_views(l@) == list_items(input@)),
            FieldKind::WordlistManager => r matches Ok(FieldValue::WordlistPlaceholder),
            FieldKind::ThemePicker => (r matches Ok(FieldValue::Text(t)) && t@ == "Custom"@),
        },
{
    match kind {
        FieldKind::Boolean => match parse_switch(input) {
            Ok(b) => Ok(FieldValue::Bool(b)),
            Err(e) => Err(e),
        },
        FieldKind::Integer { min, max } => match parse_integer_setting(input, *min, *max) {
            Ok(n) => Ok(FieldValue::Int(n)),
            Err(e) => Err(e),
        },
        FieldKind::Text { .. } | FieldKind::Path { .. } => Ok(
            FieldValue::OptionalText(optional_text(input)),
        ),
        FieldKind::RgbColor => match validate_rgb_color(input) {
            Ok(()) => Ok(FieldValue::Text(input.to_owned())),
            Err(e) => Err(e),
        },
        FieldKind::StringList | FieldKind::ToggleList { .. } => Ok(
            FieldValue::List(parse_list(input)),
        ),
        FieldKind::WordlistManager => Ok(FieldValue::WordlistPlaceholder),
        FieldKind::ThemePicker => Ok(FieldValue::Text(String::from_str("Custom"))),
    }
}

} // verus!
