use ciphey::themes::{create_custom_scheme, rgb_string, theme_at, themes, ColorScheme, THEME_COUNT};

#[test]
fn there_are_twenty_three_themes() {
    assert_eq!(themes().len(), THEME_COUNT);
    assert_eq!(THEME_COUNT, 23);
    assert_eq!(themes()[0].name, "Cappuccino");
    assert_eq!(themes()[22].name, "High Contrast");
}

#[test]
fn default_scheme_is_the_default_theme() {
    let d = ColorScheme::default();
    let t = theme_at(5);
    assert_eq!(t.name, "Default");
    assert_eq!(t.icon, None);
    assert_eq!(d.informational, (255, 215, 0));
    assert_eq!(d.warning, (255, 0, 0));
    assert_eq!(d.success, (0, 255, 0));
    assert_eq!(d.error, (255, 0, 0));
    assert_eq!(d.question, (255, 215, 0));
}

#[test]
fn theme_names_are_distinct() {
    let all = themes();
    for i in 0..all.len() {
        for j in (i + 1)..all.len() {
            assert_ne!(all[i].name, all[j].name);
        }
    }
}

#[test]
fn config_strings_of_a_scheme() {
    let s = create_custom_scheme((1, 2, 3), (4, 5, 6), (7, 8, 9), (10, 11, 12), (255, 0, 128));
    let c = s.to_config_strings();
    assert_eq!(
        c,
        vec![
            ("informational".to_string(), "1,2,3".to_string()),
            ("warning".to_string(), "4,5,6".to_string()),
            ("success".to_string(), "7,8,9".to_string()),
            ("error".to_string(), "10,11,12".to_string()),
            ("question".to_string(), "255,0,128".to_string()),
        ]
    );
    assert_eq!(rgb_string((0, 0, 0)), "0,0,0");
}
