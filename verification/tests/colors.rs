use ciphey::colors::{hex_to_color, parse_color_string};

#[test]
fn test_hex_to_color_full_format() {
    assert_eq!(hex_to_color("#ff0000"), Some((255, 0, 0)));
    assert_eq!(hex_to_color("#00ff00"), Some((0, 255, 0)));
    assert_eq!(hex_to_color("#0000ff"), Some((0, 0, 255)));
}

#[test]
fn test_hex_to_color_short_format() {
    assert_eq!(hex_to_color("#f00"), Some((255, 0, 0)));
    assert_eq!(hex_to_color("#0f0"), Some((0, 255, 0)));
}

#[test]
fn test_parse_color_string_rgb_format() {
    assert_eq!(parse_color_string("255,0,0"), Some((255, 0, 0)));
    assert_eq!(parse_color_string("255, 215, 0"), Some((255, 215, 0)));
}

#[test]
fn hex_codes_in_other_forms() {
    assert_eq!(hex_to_color("  ##FfD700 "), Some((255, 215, 0)));
    assert_eq!(hex_to_color("#abc"), Some((0xaa, 0xbb, 0xcc)));
    assert_eq!(hex_to_color("#12345"), None);
    assert_eq!(hex_to_color("#gg0000"), None);
    assert_eq!(hex_to_color("#+f+f+f"), Some((15, 15, 15)));
    assert_eq!(hex_to_color(""), None);
}

#[test]
fn color_strings_in_all_forms() {
    assert_eq!(parse_color_string("#ffd700"), Some((255, 215, 0)));
    assert_eq!(parse_color_string("ffd700"), Some((255, 215, 0)));
    assert_eq!(parse_color_string(" 00FF00 "), Some((0, 255, 0)));
    assert_eq!(parse_color_string("1,2"), None);
    assert_eq!(parse_color_string("1,2,x"), None);
    assert_eq!(parse_color_string("gold"), None);
    assert_eq!(parse_color_string("ffd70"), None);
}
