//! Colour schemes and the named themes offered by the setup wizard.

use vstd::prelude::*;

use crate::text::{decimal, u64_to_decimal};

verus! {

/// RGB colours for the kinds of message the interface shows.
#[derive(Debug, Clone, Copy, PartialEq)]
pub struct ColorScheme {
    /// Colour of informational messages.
    pub informational: (u8, u8, u8),
    /// Colour of warnings.
    pub warning: (u8, u8, u8),
    /// Colour of success messages.
    pub success: (u8, u8, u8),
    /// Colour of error messages.
    pub error: (u8, u8, u8),
    /// Colour of questions.
    pub question: (u8, u8, u8),
}

/// A named colour scheme, with an optional icon.
#[derive(Debug, Clone, Copy)]
pub struct Theme {
    /// The name shown to the user.
    pub name: &'static str,
    /// The colours.
    pub scheme: ColorScheme,
    /// The icon shown beside the name, if any.
    pub icon: Option<&'static str>,
}

/// Number of predefined themes.
pub const THEME_COUNT: usize = 23;

/// Position of the theme named "Default" among the predefined themes.
pub const DEFAULT_THEME_INDEX: usize = 5;

/// The predefined themes, in the order in which they are offered.
pub open spec fn theme_table() -> Seq<Theme> {
    seq![
        Theme {
            name: "Cappuccino",
            scheme: ColorScheme {
                informational: (238, 212, 159),
                warning: (237, 135, 150),
                success: (166, 218, 149),
                error: (237, 135, 150),
                question: (202, 211, 245),
            },
            icon: Some("☕"),
        },
        Theme {
            name: "Darcula",
            scheme: ColorScheme {
                informational: (241, 250, 140),
                warning: (255, 85, 85),
                success: (80, 250, 123),
                error: (255, 85, 85),
                question: (139, 233, 253),
            },
            icon: Some("🧛"),
        },
        Theme {
            name: "GirlyPop",
            scheme: ColorScheme {
                informational: (237, 69, 146),
                warning: (241, 218, 165),
                success: (243, 214, 243),
                error: (241, 218, 165),
                question: (255, 128, 177),
            },
            icon: Some("💅"),
        },
        Theme {
            name: "Autumnal Vibes",
            scheme: ColorScheme {
                informational: (218, 165, 32),
                warning: (178, 34, 34),
                success: (189, 183, 107),
                error: (178, 34, 34),
                question: (255, 140, 0),
            },
            icon: Some("🍂"),
        },
        Theme {
            name: "Skeletal",
            scheme: ColorScheme {
                informational: (248, 248, 240),
                warning: (255, 140, 0),
                success: (152, 251, 152),
                error: (255, 140, 0),
                question: (138, 43, 226),
            },
            icon: Some("💀"),
        },
        Theme {
            name: "Default",
            scheme: ColorScheme {
                informational: (255, 215, 0),
                warning: (255, 0, 0),
                success: (0, 255, 0),
                error: (255, 0, 0),
                question: (255, 215, 0),
            },
            icon: None,
        },
        Theme {
            name: "Cyberpunk 2077",
            scheme: ColorScheme {
                informational: (252, 255, 82),
                warning: (236, 28, 219),
                success: (0, 242, 234),
                error: (255, 36, 99),
                question: (0, 194, 255),
            },
            icon: Some("🌃"),
        },
        Theme {
            name: "Synthwave '84",
            scheme: ColorScheme {
                informational: (255, 113, 206),
                warning: (255, 0, 128),
                success: (0, 255, 255),
                error: (255, 16, 240),
                question: (179, 0, 255),
            },
            icon: Some("🌆"),
        },
        Theme {
            name: "Matrix",
            scheme: ColorScheme {
                informational: (0, 255, 65),
                warning: (154, 255, 0),
                success: (0, 255, 0),
                error: (0, 200, 50),
                question: (50, 255, 50),
            },
            icon: Some("💊"),
        },
        Theme {
            name: "Nord",
            scheme: ColorScheme {
                informational: (136, 192, 208),
                warning: (191, 97, 106),
                success: (163, 190, 140),
                error: (191, 97, 106),
                question: (143, 188, 187),
            },
            icon: Some("🌲"),
        },
        Theme {
            name: "Dracula",
            scheme: ColorScheme {
                informational: (189, 147, 249),
                warning: (255, 184, 108),
                success: (80, 250, 123),
                error: (255, 85, 85),
                question: (255, 121, 198),
            },
            icon: Some("🦇"),
        },
        Theme {
            name: "Monokai",
            scheme: ColorScheme {
                informational: (230, 219, 116),
                warning: (253, 151, 31),
                success: (166, 226, 46),
                error: (249, 38, 114),
                question: (174, 129, 255),
            },
            icon: Some("🎨"),
        },
        Theme {
            name: "Gruvbox",
            scheme: ColorScheme {
                informational: (250, 189, 47),
                warning: (251, 73, 52),
                success: (184, 187, 38),
                error: (251, 73, 52),
                question: (254, 128, 25),
            },
            icon: Some("📦"),
        },
        Theme {
            name: "Tokyo Night",
            scheme: ColorScheme {
                informational: (125, 207, 255),
                warning: (247, 118, 142),
                success: (158, 206, 106),
                error: (247, 118, 142),
                question: (125, 207, 255),
            },
            icon: Some("🗼"),
        },
        Theme {
            name: "Solarized Dark",
            scheme: ColorScheme {
                informational: (181, 137, 0),
                warning: (203, 75, 22),
                success: (133, 153, 0),
                error: (220, 50, 47),
                question: (38, 139, 210),
            },
            icon: Some("🌙"),
        },
        Theme {
            name: "Solarized Light",
            scheme: ColorScheme {
                informational: (181, 137, 0),
                warning: (203, 75, 22),
                success: (133, 153, 0),
                error: (220, 50, 47),
                question: (38, 139, 210),
            },
            icon: Some("☀️"),
        },
        Theme {
            name: "One Dark",
            scheme: ColorScheme {
                informational: (229, 192, 123),
                warning: (224, 108, 117),
                success: (152, 195, 121),
                error: (224, 108, 117),
                question: (97, 175, 239),
            },
            icon: Some("⚛️"),
        },
        Theme {
            name: "Catppuccin Mocha",
            scheme: ColorScheme {
                informational: (249, 226, 175),
                warning: (250, 179, 135),
                success: (166, 227, 161),
                error: (243, 139, 168),
                question: (137, 180, 250),
            },
            icon: Some("🐱"),
        },
        Theme {
            name: "Palenight",
            scheme: ColorScheme {
                informational: (255, 203, 107),
                warning: (247, 140, 108),
                success: (195, 232, 141),
                error: (255, 85, 114),
                question: (130, 170, 255),
            },
            icon: Some("🌜"),
        },
        Theme {
            name: "Ayu Dark",
            scheme: ColorScheme {
                informational: (255, 180, 84),
                warning: (255, 51, 51),
                success: (186, 230, 126),
                error: (255, 51, 51),
                question: (115, 184, 255),
            },
            icon: Some("🔆"),
        },
        Theme {
            name: "GitHub Dark",
            scheme: ColorScheme {
                informational: (210, 168, 255),
                warning: (248, 81, 73),
                success: (63, 185, 80),
                error: (248, 81, 73),
                question: (121, 192, 255),
            },
            icon: Some("🐙"),
        },
        Theme {
            name: "Oceanic",
            scheme: ColorScheme {
                informational: (102, 217, 239),
                warning: (255, 157, 0),
                success: (166, 226, 46),
                error: (249, 38, 114),
                question: (102, 217, 239),
            },
            icon: Some("🌊"),
        },
        Theme {
            name: "High Contrast",
            scheme: ColorScheme {
                informational: (255, 255, 255),
                warning: (255, 128, 0),
                success: (0, 255, 0),
                error: (255, 0, 0),
                question: (0, 255, 255),
            },
            icon: Some("👁️"),
        },
    ]
}

/// The predefined themes, in the order in which they are offered.
pub fn themes() -> (r: Vec<Theme>)
    ensures
        r@ == theme_table(),
        r@.len() == THEME_COUNT,
{
    let r = vec![
        Theme {
            name: "Cappuccino",
            scheme: ColorScheme {
                informational: (238, 212, 159),
                warning: (237, 135, 150),
                success: (166, 218, 149),
                error: (237, 135, 150),
                question: (202, 211, 245),
            },
            icon: Some("☕"),
        },
        Theme {
            name: "Darcula",
            scheme: ColorScheme {
                informational: (241, 250, 140),
                warning: (255, 85, 85),
                success: (80, 250, 123),
                error: (255, 85, 85),
                question: (139, 233, 253),
            },
            icon: Some("🧛"),
        },
        Theme {
            name: "GirlyPop",
            scheme: ColorScheme {
                informational: (237, 69, 146),
                warning: (241, 218, 165),
                success: (243, 214, 243),
                error: (241, 218, 165),
                question: (255, 128, 177),
            },
            icon: Some("💅"),
        },
        Theme {
            name: "Autumnal Vibes",
            scheme: ColorScheme {
                informational: (218, 165, 32),
                warning: (178, 34, 34),
                success: (189, 183, 107),
                error: (178, 34, 34),
                question: (255, 140, 0),
            },
            icon: Some("🍂"),
        },
        Theme {
            name: "Skeletal",
            scheme: ColorScheme {
                informational: (248, 248, 240),
                warning: (255, 140, 0),
                success: (152, 251, 152),
                error: (255, 140, 0),
                question: (138, 43, 226),
            },
            icon: Some("💀"),
        },
        Theme {
            name: "Default",
            scheme: ColorScheme {
                informational: (255, 215, 0),
                warning: (255, 0, 0),
                success: (0, 255, 0),
                error: (255, 0, 0),
                question: (255, 215, 0),
            },
            icon: None,
        },
        Theme {
            name: "Cyberpunk 2077",
            scheme: ColorScheme {
                informational: (252, 255, 82),
                warning: (236, 28, 219),
                success: (0, 242, 234),
                error: (255, 36, 99),
                question: (0, 194, 255),
            },
            icon: Some("🌃"),
        },
        Theme {
            name: "Synthwave '84",
            scheme: ColorScheme {
                informational: (255, 113, 206),
                warning: (255, 0, 128),
                success: (0, 255, 255),
                error: (255, 16, 240),
                question: (179, 0, 255),
            },
            icon: Some("🌆"),
        },
        Theme {
            name: "Matrix",
            scheme: ColorScheme {
                informational: (0, 255, 65),
                warning: (154, 255, 0),
                success: (0, 255, 0),
                error: (0, 200, 50),
                question: (50, 255, 50),
            },
            icon: Some("💊"),
        },
        Theme {
            name: "Nord",
            scheme: ColorScheme {
                informational: (136, 192, 208),
                warning: (191, 97, 106),
                success: (163, 190, 140),
                error: (191, 97, 106),
                question: (143, 188, 187),
            },
            icon: Some("🌲"),
        },
        Theme {
            name: "Dracula",
            scheme: ColorScheme {
                informational: (189, 147, 249),
                warning: (255, 184, 108),
                success: (80, 250, 123),
                error: (255, 85, 85),
                question: (255, 121, 198),
            },
            icon: Some("🦇"),
        },
        Theme {
            name: "Monokai",
            scheme: ColorScheme {
                informational: (230, 219, 116),
                warning: (253, 151, 31),
                success: (166, 226, 46),
                error: (249, 38, 114),
                question: (174, 129, 255),
            },
            icon: Some("🎨"),
        },
        Theme {
            name: "Gruvbox",
            scheme: ColorScheme {
                informational: (250, 189, 47),
                warning: (251, 73, 52),
                success: (184, 187, 38),
                error: (251, 73, 52),
                question: (254, 128, 25),
            },
            icon: Some("📦"),
        },
        Theme {
            name: "Tokyo Night",
            scheme: ColorScheme {
                informational: (125, 207, 255),
                warning: (247, 118, 142),
                success: (158, 206, 106),
                error: (247, 118, 142),
                question: (125, 207, 255),
            },
            icon: Some("🗼"),
        },
        Theme {
            name: "Solarized Dark",
            scheme: ColorScheme {
                informational: (181, 137, 0),
                warning: (203, 75, 22),
                success: (133, 153, 0),
                error: (220, 50, 47),
                question: (38, 139, 210),
            },
            icon: Some("🌙"),
        },
        Theme {
            name: "Solarized Light",
            scheme: ColorScheme {
                informational: (181, 137, 0),
                warning: (203, 75, 22),
                success: (133, 153, 0),
                error: (220, 50, 47),
                question: (38, 139, 210),
            },
            icon: Some("☀️"),
        },
        Theme {
            name: "One Dark",
            scheme: ColorScheme {
                informational: (229, 192, 123),
                warning: (224, 108, 117),
                success: (152, 195, 121),
                error: (224, 108, 117),
                question: (97, 175, 239),
            },
            icon: Some("⚛️"),
        },
        Theme {
            name: "Catppuccin Mocha",
            scheme: ColorScheme {
                informational: (249, 226, 175),
                warning: (250, 179, 135),
                success: (166, 227, 161),
                error: (243, 139, 168),
                question: (137, 180, 250),
            },
            icon: Some("🐱"),
        },
        Theme {
            name: "Palenight",
            scheme: ColorScheme {
                informational: (255, 203, 107),
                warning: (247, 140, 108),
                success: (195, 232, 141),
                error: (255, 85, 114),
                question: (130, 170, 255),
            },
            icon: Some("🌜"),
        },
        Theme {
            name: "Ayu Dark",
            scheme: ColorScheme {
                informational: (255, 180, 84),
                warning: (255, 51, 51),
                success: (186, 230, 126),
                error: (255, 51, 51),
                question: (115, 184, 255),
            },
            icon: Some("🔆"),
        },
        Theme {
            name: "GitHub Dark",
            scheme: ColorScheme {
                informational: (210, 168, 255),
                warning: (248, 81, 73),
                success: (63, 185, 80),
                error: (248, 81, 73),
                question: (121, 192, 255),
            },
            icon: Some("🐙"),
        },
        Theme {
            name: "Oceanic",
            scheme: ColorScheme {
                informational: (102, 217, 239),
                warning: (255, 157, 0),
                success: (166, 226, 46),
                error: (249, 38, 114),
                question: (102, 217, 239),
            },
            icon: Some("🌊"),
        },
        Theme {
            name: "High Contrast",
            scheme: ColorScheme {
                informational: (255, 255, 255),
                warning: (255, 128, 0),
                success: (0, 255, 0),
                error: (255, 0, 0),
                question: (0, 255, 255),
            },
            icon: Some("👁️"),
        },
    ];
    proof {
        assert(r@ =~= theme_table());
    }
    r
}

/// The predefined theme at position `i`.
pub fn theme_at(i: usize) -> (t: Theme)
    requires
        i < THEME_COUNT,
    ensures
        t == theme_table()[i as int],
{
    let all = themes();
    all[i]
}

/// The colours written `r,g,b` in decimal.
pub open spec fn rgb_text(c: (u8, u8, u8)) -> Seq<char> {
    decimal(c.0 as nat) + seq![','] + decimal(c.1 as nat) + seq![','] + decimal(c.2 as nat)
}

/// The configuration entries of a scheme: each message kind with its colour
/// written `r,g,b`.
pub open spec fn config_entries(s: ColorScheme) -> Seq<(Seq<char>, Seq<char>)> {
    seq![
        ("informational"@, rgb_text(s.informational)),
        ("warning"@, rgb_text(s.warning)),
        ("success"@, rgb_text(s.success)),
        ("error"@, rgb_text(s.error)),
        ("question"@, rgb_text(s.question)),
    ]
}

/// The character contents of a list of string pairs.
pub open spec fn pair_views(v: Seq<(String, String)>) -> Seq<(Seq<char>, Seq<char>)> {
    v.map_values(|p: (String, String)| (p.0@, p.1@))
}

/// Writes a colour as `r,g,b` in decimal.
pub fn rgb_string(c: (u8, u8, u8)) -> (r: String)
    ensures
        r@ == rgb_text(c),
{
    let mut out = u64_to_decimal(c.0 as u64);
    out.append(",");
    out.append(u64_to_decimal(c.1 as u64).as_str());
    out.append(",");
    out.append(u64_to_decimal(c.2 as u64).as_str());
    proof {
        reveal_strlit(",");
    }
    out
}

impl ColorScheme {
    /// The scheme as configuration entries: each message kind with its
    /// colour written `r,g,b`.
    pub fn to_config_strings(&self) -> (r: Vec<(String, String)>)
        ensures
            pair_views(r@) == config_entries(*self),
    {
        let mut r: Vec<(String, String)> = Vec::new();
        r.push((String::from_str("informational"), rgb_string(self.informational)));
        r.push((String::from_str("warning"), rgb_string(self.warning)));
        r.push((String::from_str("success"), rgb_string(self.success)));
        r.push((String::from_str("error"), rgb_string(self.error)));
        r.push((String::from_str("question"), rgb_string(self.question)));
        proof {
            assert(pair_views(r@) =~= config_entries(*self));
        }
        r
    }
}

/// A scheme made of the given colours.
pub fn create_custom_scheme(
    informational: (u8, u8, u8),
    warning: (u8, u8, u8),
    success: (u8, u8, u8),
    error: (u8, u8, u8),
    question: (u8, u8, u8),
) -> (r: ColorScheme)
    ensures
        r == (ColorScheme { informational, warning, success, error, question }),
{
    ColorScheme { informational, warning, success, error, question }
}

/// The colours of the theme named "Default".
pub open spec fn default_scheme() -> ColorScheme {
    theme_table()[DEFAULT_THEME_INDEX as int].scheme
}

impl Default for ColorScheme {
    fn default() -> (r: Self)
        ensures
            r == default_scheme(),
    {
        theme_at(DEFAULT_THEME_INDEX).scheme
    }
}

} // verus!
