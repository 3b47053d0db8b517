use ciphey::search::{
    build_search_url, filter_decoders, has_text, parse_search_entries, parse_search_entry,
    replace_text,
};

#[test]
fn replace_like_std() {
    for (s, p, r) in [
        ("a{}b{}", "{}", "X"),
        ("{}{}", "{}", ""),
        ("no match", "{}", "X"),
        ("aaa", "aa", "b"),
        ("", "x", "y"),
    ] {
        assert_eq!(replace_text(s, p, r), s.replace(p, r));
    }
}

#[test]
fn contains_like_std() {
    assert!(has_text("https://x/{base64}", "{base64}"));
    assert!(!has_text("https://x/{}", "{base64}"));
    assert!(has_text("abc", ""));
    assert!(!has_text("", "a"));
}

#[test]
fn url_with_percent_encoding() {
    assert_eq!(
        build_search_url("https://www.google.com/search?q={}", "hello world!"),
        "https://www.google.com/search?q=hello%20world%21"
    );
    assert_eq!(build_search_url("q={}&r={}", "a-b_c.d~é"), "q=a-b_c.d~%C3%A9&r=a-b_c.d~%C3%A9");
}

#[test]
fn url_with_base64() {
    assert_eq!(
        build_search_url("https://gchq.github.io/CyberChef/#input={base64}", "hello"),
        "https://gchq.github.io/CyberChef/#input=aGVsbG8="
    );
}

#[test]
fn entries_split_at_first_equals() {
    assert_eq!(
        parse_search_entry("Google=https://g.com/?q={}&a=b"),
        Some(("Google".to_string(), "https://g.com/?q={}&a=b".to_string()))
    );
    assert_eq!(parse_search_entry("nothing here"), None);
    assert_eq!(parse_search_entry("=x"), Some((String::new(), "x".to_string())));
    let all = parse_search_entries(&vec![
        "A=1".to_string(),
        "bad".to_string(),
        "B=2=3".to_string(),
    ]);
    assert_eq!(
        all,
        vec![
            ("A".to_string(), "1".to_string()),
            ("B".to_string(), "2=3".to_string())
        ]
    );
}

#[test]
fn decoder_filter_ignores_case() {
    let all = vec!["Base64", "Base32", "Caesar", "Vigenere"];
    assert_eq!(filter_decoders(&all, "base"), vec!["Base64", "Base32"]);
    assert_eq!(filter_decoders(&all, "e"), vec!["Base64", "Base32", "Caesar", "Vigenere"]);
    assert_eq!(filter_decoders(&all, "xyz"), Vec::<&str>::new());
}
