use ciphey::settings_fields::{parse_input, validate_field, FieldKind, FieldValue};
use ciphey::state::BranchPath;
use ciphey::validation::parse_switch;

fn text(s: &str) -> FieldValue {
    FieldValue::Text(s.to_string())
}

fn message(r: Result<(), ciphey::validation::ValidationError>) -> String {
    r.unwrap_err().message
}

#[test]
fn fields_check_their_values() {
    assert!(validate_field(&FieldKind::Boolean, &FieldValue::Bool(true), false).is_ok());
    assert_eq!(
        message(validate_field(&FieldKind::Integer { min: 1, max: 10 }, &FieldValue::Int(11), false)),
        "Value must be at most 10"
    );
    assert_eq!(
        message(validate_field(&FieldKind::Text { max_length: Some(2) }, &text("abc"), false)),
        "Maximum 2 characters allowed"
    );
    assert!(validate_field(&FieldKind::Text { max_length: Some(2) }, &FieldValue::OptionalText(None), false).is_ok());
    assert_eq!(
        message(validate_field(&FieldKind::Path { must_exist: true }, &text("/nope"), false)),
        "File does not exist"
    );
    assert!(validate_field(&FieldKind::Path { must_exist: true }, &text("/here"), true).is_ok());
    assert!(validate_field(&FieldKind::Path { must_exist: true }, &text(""), false).is_ok());
    assert!(validate_field(&FieldKind::Path { must_exist: false }, &text("/nope"), false).is_ok());
    assert_eq!(
        message(validate_field(&FieldKind::RgbColor, &text("1,2"), false)),
        "Format must be r,g,b (e.g., 255,128,0)"
    );
    assert!(validate_field(&FieldKind::StringList, &FieldValue::List(vec![]), false).is_ok());
    assert!(validate_field(&FieldKind::WordlistManager, &FieldValue::WordlistPlaceholder, false).is_ok());
    assert_eq!(
        message(validate_field(&FieldKind::ThemePicker, &text("x"), false)),
        "Invalid value type for field"
    );
    assert_eq!(
        message(validate_field(&FieldKind::Boolean, &FieldValue::Int(1), false)),
        "Invalid value type for field"
    );
}

fn parsed(input: &str, kind: FieldKind) -> Result<FieldValue, String> {
    parse_input(input, &kind).map_err(|e| e.message)
}

#[test]
fn typed_values_are_read_by_kind() {
    assert!(matches!(parsed("Yes", FieldKind::Boolean), Ok(FieldValue::Bool(true))));
    assert_eq!(parsed("maybe", FieldKind::Boolean).err().unwrap(), "Enter 'true' or 'false'");
    assert!(matches!(parsed(" 7 ", FieldKind::Integer { min: 1, max: 9 }), Ok(FieldValue::Int(7))));
    assert_eq!(
        parsed("70", FieldKind::Integer { min: 1, max: 9 }).err().unwrap(),
        "Value must be between 1 and 9"
    );
    assert!(matches!(parsed("", FieldKind::Text { max_length: None }), Ok(FieldValue::OptionalText(None))));
    match parsed("/a", FieldKind::Path { must_exist: true }) {
        Ok(FieldValue::OptionalText(Some(p))) => assert_eq!(p, "/a"),
        _ => panic!("expected a path"),
    }
    match parsed("1, 2,3", FieldKind::RgbColor) {
        Ok(FieldValue::Text(t)) => assert_eq!(t, "1, 2,3"),
        _ => panic!("expected a colour"),
    }
    assert_eq!(parsed("1,2,300", FieldKind::RgbColor).err().unwrap(), "Blue must be 0-255");
    match parsed(" a, ,b ", FieldKind::ToggleList { all_items: vec![] }) {
        Ok(FieldValue::List(l)) => assert_eq!(l, vec!["a".to_string(), "b".to_string()]),
        _ => panic!("expected a list"),
    }
    assert!(matches!(parsed("x", FieldKind::WordlistManager), Ok(FieldValue::WordlistPlaceholder)));
    match parsed("x", FieldKind::ThemePicker) {
        Ok(FieldValue::Text(t)) => assert_eq!(t, "Custom"),
        _ => panic!("expected the custom theme"),
    }
}

#[test]
fn switch_words_ignore_ascii_case() {
    assert_eq!(parse_switch("TRUE").unwrap(), true);
    assert_eq!(parse_switch("Off").unwrap(), false);
}

#[test]
fn branch_labels_count_down_to_the_current_branch() {
    let mut p = BranchPath::new();
    assert_eq!(p.display(), "Main");
    p.push(1, 0);
    assert_eq!(p.display(), "Main > B1");
    p.push(2, 3);
    assert_eq!(p.display(), "Main > B2 > B1");
    p.push(5, 1);
    assert_eq!(p.display(), "Main > B3 > B2 > B1");
}
