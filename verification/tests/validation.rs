use ciphey::validation::{
    optional_text, parse_integer_setting, parse_list, parse_rgb, parse_switch, switch_value,
    validate_integer, validate_rgb_color, validate_text_length, ValidationError,
};

#[test]
fn test_validate_rgb_color_valid() {
    assert!(validate_rgb_color("255,128,0").is_ok());
    assert!(validate_rgb_color("0,0,0").is_ok());
    assert!(validate_rgb_color("255,255,255").is_ok());
}

#[test]
fn test_validate_rgb_color_invalid() {
    assert!(validate_rgb_color("").is_err());
    assert!(validate_rgb_color("256,0,0").is_err());
    assert!(validate_rgb_color("255").is_err());
    assert!(validate_rgb_color("a,b,c").is_err());
}

#[test]
fn rgb_error_messages() {
    assert_eq!(validate_rgb_color("").unwrap_err().message, "Color cannot be empty");
    assert_eq!(
        validate_rgb_color("1,2").unwrap_err().message,
        "Format must be r,g,b (e.g., 255,128,0)"
    );
    assert_eq!(validate_rgb_color("x,0,0").unwrap_err().message, "Red must be 0-255");
    assert_eq!(validate_rgb_color("0,256,0").unwrap_err().message, "Green must be 0-255");
    assert_eq!(validate_rgb_color("0,0,-1").unwrap_err().message, "Blue must be 0-255");
    assert!(validate_rgb_color(" 1 , +2 ,3 ").is_ok());
}

#[test]
fn parse_rgb_agrees_with_validation() {
    assert_eq!(parse_rgb("255,128,64"), Some((255, 128, 64)));
    assert_eq!(parse_rgb(" 1, 2 ,3"), Some((1, 2, 3)));
    assert_eq!(parse_rgb("1,2"), None);
    assert_eq!(parse_rgb("1,2,300"), None);
    for s in ["255,128,0", "", "1,2", "a,b,c", "9,9,9,9", "0, 0, 0"] {
        assert_eq!(validate_rgb_color(s).is_ok(), parse_rgb(s).is_some());
    }
}

#[test]
fn test_validate_integer_in_range() {
    assert!(validate_integer(5, 0, 10).is_ok());
}

#[test]
fn test_validate_integer_out_of_range() {
    assert!(validate_integer(15, 0, 10).is_err());
}

#[test]
fn integer_bound_messages() {
    assert_eq!(validate_integer(-3, 0, 10).unwrap_err().message, "Value must be at least 0");
    assert_eq!(validate_integer(11, -5, 10).unwrap_err().message, "Value must be at most 10");
    assert_eq!(
        validate_integer(i64::MIN, -7, 0).unwrap_err().message,
        "Value must be at least -7"
    );
}

#[test]
fn test_parse_integer() {
    let result = parse_integer_setting("42", 0, 100);
    assert!(result.is_ok());
    assert_eq!(result.unwrap(), 42);
}

#[test]
fn parse_integer_errors() {
    assert_eq!(
        parse_integer_setting("abc", 0, 100).unwrap_err().message,
        "Enter a valid integer"
    );
    assert_eq!(
        parse_integer_setting("101", 0, 100).unwrap_err().message,
        "Value must be between 0 and 100"
    );
    assert_eq!(
        parse_integer_setting("-9", -5, 5).unwrap_err().message,
        "Value must be between -5 and 5"
    );
    assert_eq!(parse_integer_setting("  -4 ", -5, 5).unwrap(), -4);
    assert_eq!(parse_integer_setting("+7", 0, 10).unwrap(), 7);
    assert!(parse_integer_setting("99999999999999999999", i64::MIN, i64::MAX).is_err());
    assert_eq!(
        parse_integer_setting("-9223372036854775808", i64::MIN, i64::MAX).unwrap(),
        i64::MIN
    );
}

#[test]
fn test_parse_boolean() {
    assert_eq!(parse_switch("true").unwrap(), true);
    assert_eq!(parse_switch("false").unwrap(), false);
    assert_eq!(parse_switch("yes").unwrap(), true);
    assert_eq!(parse_switch("no").unwrap(), false);
}

#[test]
fn switch_words_ignore_case() {
    assert_eq!(parse_switch("ENABLED").unwrap(), true);
    assert_eq!(parse_switch("Off").unwrap(), false);
    assert_eq!(parse_switch("1").unwrap(), true);
    assert_eq!(parse_switch("0").unwrap(), false);
    assert_eq!(
        parse_switch("maybe").unwrap_err().message,
        "Enter 'true' or 'false'"
    );
    assert_eq!(switch_value(&"on".to_string()), Some(true));
    assert_eq!(switch_value(&"ON".to_string()), None);
}

#[test]
fn text_length_limit_counts_bytes() {
    assert!(validate_text_length("abc", Some(3)).is_ok());
    assert!(validate_text_length("abc", None).is_ok());
    assert_eq!(
        validate_text_length("ééé", Some(5)).unwrap_err().message,
        "Maximum 5 characters allowed"
    );
}

#[test]
fn list_items_are_trimmed_and_nonempty() {
    assert_eq!(parse_list(" a, b ,,c , "), vec!["a", "b", "c"]);
    assert!(parse_list("").is_empty());
}

#[test]
fn optional_text_of_empty_is_none() {
    assert_eq!(optional_text(""), None);
    assert_eq!(optional_text("x y"), Some("x y".to_string()));
}

#[test]
fn validation_error_new_keeps_message() {
    assert_eq!(ValidationError::new("oops").message, "oops");
}
