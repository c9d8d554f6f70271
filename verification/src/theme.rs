//! Colour themes: the cycle of themes and the palette of each.

use vstd::prelude::*;
use crate::text::same_text;

verus! {

/// A colour theme of the dashboard.
#[derive(Debug, Clone, Copy, PartialEq, Eq, Structural)]
pub enum Theme {
    Default,
    Dracula,
    GruvboxDark,
    Nord,
    SolarizedDark,
    Cyberpunk,
    Monokai,
    OneDark,
    TokyoNight,
}

/// The number of themes.
pub const THEME_COUNT: usize = 9;

impl Theme {
    /// The place of the theme in the cycle that `next` and `previous` walk.
    pub open spec fn position(self) -> int {
        match self {
            Theme::Default => 0,
            Theme::Dracula => 1,
            Theme::GruvboxDark => 2,
            Theme::Nord => 3,
            Theme::SolarizedDark => 4,
            Theme::Cyberpunk => 5,
            Theme::Monokai => 6,
            Theme::OneDark => 7,
            Theme::TokyoNight => 8,
        }
    }

    /// The theme at place `position` of the cycle; the first theme for a
    /// place outside it.
    pub open spec fn at(position: int) -> Theme {
        if position == 1 {
            Theme::Dracula
        }         else if position == 2 {
            Theme::GruvboxDark
        }         else if position == 3 {
            Theme::Nord
        }         else if position == 4 {
            Theme::SolarizedDark
        }         else if position == 5 {
            Theme::Cyberpunk
        }         else if position == 6 {
            Theme::Monokai
        }         else if position == 7 {
            Theme::OneDark
        }         else if position == 8 {
            Theme::TokyoNight
        } else {
            Theme::Default
        }
    }

    /// The theme that follows this one; after the last comes the first.
    pub open spec fn successor(self) -> Theme {
        Theme::at((self.position() + 1) % (THEME_COUNT as int))
    }

    /// The theme that precedes this one; before the first comes the last.
    pub open spec fn predecessor(self) -> Theme {
        Theme::at((self.position() + THEME_COUNT - 1) % (THEME_COUNT as int))
    }

    /// The display name of the theme.
    pub open spec fn name_view(self) -> Seq<char> {
        match self {
            Theme::Default => "Default"@,
            Theme::Dracula => "Dracula"@,
            Theme::GruvboxDark => "Gruvbox Dark"@,
            Theme::Nord => "Nord"@,
            Theme::SolarizedDark => "Solarized Dark"@,
            Theme::Cyberpunk => "Cyberpunk"@,
            Theme::Monokai => "Monokai"@,
            Theme::OneDark => "One Dark"@,
            Theme::TokyoNight => "Tokyo Night"@,
        }
    }

    /// The theme that a configuration names; the default theme for a name
    /// that is not known.
    pub open spec fn named(name: Seq<char>) -> Theme {
        if name == "dark"@ || name == "dracula"@ {
            Theme::Dracula
        } else if name == "light"@ || name == "solarized"@ {
            Theme::SolarizedDark
        } else if name == "gruvbox"@ {
            Theme::GruvboxDark
        } else if name == "nord"@ {
            Theme::Nord
        } else if name == "cyberpunk"@ {
            Theme::Cyberpunk
        } else if name == "monokai"@ {
            Theme::Monokai
        } else if name == "onedark"@ {
            Theme::OneDark
        } else if name == "tokyo"@ {
            Theme::TokyoNight
        } else {
            Theme::Default
        }
    }

    /// All themes, in the order of the cycle.
    pub fn all() -> (themes: Vec<Theme>)
        ensures
            themes@.len() == THEME_COUNT,
            forall|i: int| 0 <= i < themes@.len() ==> themes@[i] == Theme::at(i),
    {
        vec![
            Theme::Default,
            Theme::Dracula,
            Theme::GruvboxDark,
            Theme::Nord,
            Theme::SolarizedDark,
            Theme::Cyberpunk,
            Theme::Monokai,
            Theme::OneDark,
            Theme::TokyoNight,
        ]
    }

    /// The display name of the theme.
    pub fn name(self) -> (name: &'static str)
        ensures
            name@ == self.name_view(),
    {
        match self {
            Theme::Default => "Default",
            Theme::Dracula => "Dracula",
            Theme::GruvboxDark => "Gruvbox Dark",
            Theme::Nord => "Nord",
            Theme::SolarizedDark => "Solarized Dark",
            Theme::Cyberpunk => "Cyberpunk",
            Theme::Monokai => "Monokai",
            Theme::OneDark => "One Dark",
            Theme::TokyoNight => "Tokyo Night",
        }
    }

    /// The theme that follows this one in the cycle.
    pub fn next(self) -> (theme: Theme)
        ensures
            theme == self.successor(),
    {
        match self {
            Theme::Default => Theme::Dracula,
            Theme::Dracula => Theme::GruvboxDark,
            Theme::GruvboxDark => Theme::Nord,
            Theme::Nord => Theme::SolarizedDark,
            Theme::SolarizedDark => Theme::Cyberpunk,
            Theme::Cyberpunk => Theme::Monokai,
            Theme::Monokai => Theme::OneDark,
            Theme::OneDark => Theme::TokyoNight,
            Theme::TokyoNight => Theme::Default,
        }
    }

    /// The theme that precedes this one in the cycle.
    pub fn previous(self) -> (theme: Theme)
        ensures
            theme == self.predecessor(),
    {
        match self {
            Theme::Default => Theme::TokyoNight,
            Theme::Dracula => Theme::Default,
            Theme::GruvboxDark => Theme::Dracula,
            Theme::Nord => Theme::GruvboxDark,
            Theme::SolarizedDark => Theme::Nord,
            Theme::Cyberpunk => Theme::SolarizedDark,
            Theme::Monokai => Theme::Cyberpunk,
            Theme::OneDark => Theme::Monokai,
            Theme::TokyoNight => Theme::OneDark,
        }
    }

    /// The theme that a configuration names.
    pub fn from_config_name(name: &str) -> (theme: Theme)
        ensures
            theme == Theme::named(name@),
    {
        if same_text(name, "dark") || same_text(name, "dracula") {
            Theme::Dracula
        } else if same_text(name, "light") || same_text(name, "solarized") {
            Theme::SolarizedDark
        } else if same_text(name, "gruvbox") {
            Theme::GruvboxDark
        } else if same_text(name, "nord") {
            Theme::Nord
        } else if same_text(name, "cyberpunk") {
            Theme::Cyberpunk
        } else if same_text(name, "monokai") {
            Theme::Monokai
        } else if same_text(name, "onedark") {
            Theme::OneDark
        } else if same_text(name, "tokyo") {
            Theme::TokyoNight
        } else {
            Theme::Default
        }
    }
}

/// Stepping forward and then back, or back and then forward, returns to the
/// theme one started from.
pub proof fn lemma_theme_steps_cancel(theme: Theme)
    ensures
        theme.successor().predecessor() == theme,
        theme.predecessor().successor() == theme,
{
}

/// The cycle visits every theme: a theme sits at its own place, and every
/// place of the cycle holds the theme with that position.
pub proof fn lemma_theme_cycle(theme: Theme, position: int)
    ensures
        0 <= theme.position() < THEME_COUNT,
        Theme::at(theme.position()) == theme,
        0 <= position < THEME_COUNT ==> Theme::at(position).position() == position,
{
}

/// A colour of a palette: one of the terminal's named colours, or a colour
/// given by its red, green and blue parts.
#[derive(Debug, Clone, Copy, PartialEq, Eq, Structural)]
pub enum Color {
    Black,
    Red,
    Green,
    Yellow,
    Blue,
    Magenta,
    Cyan,
    Gray,
    White,
    Rgb(u8, u8, u8),
}

/// The palette of a theme: one colour for every role on screen.
#[derive(Debug, Clone, Copy, PartialEq, Eq, Structural)]
pub struct ThemeColors {
    pub primary: Color,
    pub secondary: Color,
    pub success: Color,
    pub warning: Color,
    pub error: Color,
    pub info: Color,
    pub background: Color,
    pub foreground: Color,
    pub text_muted: Color,
    pub highlight: Color,
    pub border: Color,
    pub gauge_good: Color,
    pub gauge_warning: Color,
    pub gauge_danger: Color,
}

/// The palette of `theme`.
pub open spec fn palette(theme: Theme) -> ThemeColors {
    match theme {
        Theme::Default => ThemeColors {
            primary: Color::Cyan,
            secondary: Color::Blue,
            success: Color::Green,
            warning: Color::Yellow,
            error: Color::Red,
            info: Color::Magenta,
            background: Color::Black,
            foreground: Color::White,
            text_muted: Color::Gray,
            highlight: Color::Blue,
            border: Color::Blue,
            gauge_good: Color::Green,
            gauge_warning: Color::Yellow,
            gauge_danger: Color::Red,
        },
        Theme::Dracula => ThemeColors {
            primary: Color::Rgb(189, 147, 249),
            secondary: Color::Rgb(139, 233, 253),
            success: Color::Rgb(80, 250, 123),
            warning: Color::Rgb(241, 250, 140),
            error: Color::Rgb(255, 85, 85),
            info: Color::Rgb(255, 121, 198),
            background: Color::Rgb(40, 42, 54),
            foreground: Color::Rgb(248, 248, 242),
            text_muted: Color::Rgb(98, 114, 164),
            highlight: Color::Rgb(68, 71, 90),
            border: Color::Rgb(98, 114, 164),
            gauge_good: Color::Rgb(80, 250, 123),
            gauge_warning: Color::Rgb(241, 250, 140),
            gauge_danger: Color::Rgb(255, 85, 85),
        },
        Theme::GruvboxDark => ThemeColors {
            primary: Color::Rgb(131, 165, 152),
            secondary: Color::Rgb(251, 241, 199),
            success: Color::Rgb(184, 187, 38),
            warning: Color::Rgb(250, 189, 47),
            error: Color::Rgb(251, 73, 52),
            info: Color::Rgb(211, 134, 155),
            background: Color::Rgb(40, 40, 40),
            foreground: Color::Rgb(235, 219, 178),
            text_muted: Color::Rgb(146, 131, 116),
            highlight: Color::Rgb(68, 71, 90),
            border: Color::Rgb(60, 56, 54),
            gauge_good: Color::Rgb(184, 187, 38),
            gauge_warning: Color::Rgb(250, 189, 47),
            gauge_danger: Color::Rgb(251, 73, 52),
        },
        Theme::Nord => ThemeColors {
            primary: Color::Rgb(136, 192, 208),
            secondary: Color::Rgb(129, 161, 193),
            success: Color::Rgb(163, 190, 140),
            warning: Color::Rgb(235, 203, 139),
            error: Color::Rgb(191, 97, 106),
            info: Color::Rgb(180, 142, 173),
            background: Color::Rgb(46, 52, 64),
            foreground: Color::Rgb(216, 222, 233),
            text_muted: Color::Rgb(76, 86, 106),
            highlight: Color::Rgb(59, 66, 82),
            border: Color::Rgb(67, 76, 94),
            gauge_good: Color::Rgb(163, 190, 140),
            gauge_warning: Color::Rgb(235, 203, 139),
            gauge_danger: Color::Rgb(191, 97, 106),
        },
        Theme::SolarizedDark => ThemeColors {
            primary: Color::Rgb(38, 139, 210),
            secondary: Color::Rgb(42, 161, 152),
            success: Color::Rgb(133, 153, 0),
            warning: Color::Rgb(181, 137, 0),
            error: Color::Rgb(220, 50, 47),
            info: Color::Rgb(211, 54, 130),
            background: Color::Rgb(0, 43, 54),
            foreground: Color::Rgb(131, 148, 150),
            text_muted: Color::Rgb(88, 110, 117),
            highlight: Color::Rgb(7, 54, 66),
            border: Color::Rgb(7, 54, 66),
            gauge_good: Color::Rgb(133, 153, 0),
            gauge_warning: Color::Rgb(181, 137, 0),
            gauge_danger: Color::Rgb(220, 50, 47),
        },
        Theme::Cyberpunk => ThemeColors {
            primary: Color::Rgb(0, 255, 255),
            secondary: Color::Rgb(255, 0, 255),
            success: Color::Rgb(0, 255, 127),
            warning: Color::Rgb(255, 255, 0),
            error: Color::Rgb(255, 0, 71),
            info: Color::Rgb(127, 0, 255),
            background: Color::Rgb(0, 0, 0),
            foreground: Color::Rgb(0, 255, 255),
            text_muted: Color::Rgb(127, 127, 127),
            highlight: Color::Rgb(255, 255, 255),
            border: Color::Rgb(0, 255, 255),
            gauge_good: Color::Rgb(0, 255, 127),
            gauge_warning: Color::Rgb(255, 255, 0),
            gauge_danger: Color::Rgb(255, 0, 71),
        },
        Theme::Monokai => ThemeColors {
            primary: Color::Rgb(102, 217, 239),
            secondary: Color::Rgb(249, 38, 114),
            success: Color::Rgb(166, 226, 46),
            warning: Color::Rgb(255, 255, 0),
            error: Color::Rgb(249, 38, 114),
            info: Color::Rgb(174, 129, 255),
            background: Color::Rgb(39, 40, 34),
            foreground: Color::Rgb(248, 248, 242),
            text_muted: Color::Rgb(117, 113, 110),
            highlight: Color::Rgb(73, 72, 62),
            border: Color::Rgb(73, 72, 62),
            gauge_good: Color::Rgb(166, 226, 46),
            gauge_warning: Color::Rgb(255, 255, 0),
            gauge_danger: Color::Rgb(249, 38, 114),
        },
        Theme::OneDark => ThemeColors {
            primary: Color::Rgb(97, 175, 239),
            secondary: Color::Rgb(198, 120, 221),
            success: Color::Rgb(152, 195, 121),
            warning: Color::Rgb(229, 192, 123),
            error: Color::Rgb(224, 108, 117),
            info: Color::Rgb(226, 140, 145),
            background: Color::Rgb(40, 44, 52),
            foreground: Color::Rgb(171, 178, 191),
            text_muted: Color::Rgb(92, 99, 112),
            highlight: Color::Rgb(61, 66, 77),
            border: Color::Rgb(61, 66, 77),
            gauge_good: Color::Rgb(152, 195, 121),
            gauge_warning: Color::Rgb(229, 192, 123),
            gauge_danger: Color::Rgb(224, 108, 117),
        },
        Theme::TokyoNight => ThemeColors {
            primary: Color::Rgb(125, 179, 255),
            secondary: Color::Rgb(187, 154, 247),
            success: Color::Rgb(146, 234, 170),
            warning: Color::Rgb(250, 179, 135),
            error: Color::Rgb(242, 139, 130),
            info: Color::Rgb(250, 208, 196),
            background: Color::Rgb(26, 27, 38),
            foreground: Color::Rgb(169, 177, 214),
            text_muted: Color::Rgb(76, 86, 106),
            highlight: Color::Rgb(38, 40, 55),
            border: Color::Rgb(38, 40, 55),
            gauge_good: Color::Rgb(146, 234, 170),
            gauge_warning: Color::Rgb(250, 179, 135),
            gauge_danger: Color::Rgb(242, 139, 130),
        },
    }
}

impl ThemeColors {
    /// The palette of `theme`.
    pub fn from_theme(theme: Theme) -> (colors: ThemeColors)
        ensures
            colors == palette(theme),
    {
        match theme {
            Theme::Default => Self::default(),
            Theme::Dracula => Self::dracula(),
            Theme::GruvboxDark => Self::gruvbox_dark(),
            Theme::Nord => Self::nord(),
            Theme::SolarizedDark => Self::solarized_dark(),
            Theme::Cyberpunk => Self::cyberpunk(),
            Theme::Monokai => Self::monokai(),
            Theme::OneDark => Self::one_dark(),
            Theme::TokyoNight => Self::tokyo_night(),
        }
    }

    fn default() -> (colors: ThemeColors)
        ensures
            colors == palette(Theme::Default),
    {
        ThemeColors {
            primary: Color::Cyan,
            secondary: Color::Blue,
            success: Color::Green,
            warning: Color::Yellow,
            error: Color::Red,
            info: Color::Magenta,
            background: Color::Black,
            foreground: Color::White,
            text_muted: Color::Gray,
            highlight: Color::Blue,
            border: Color::Blue,
            gauge_good: Color::Green,
            gauge_warning: Color::Yellow,
            gauge_danger: Color::Red,
        }
    }

    fn dracula() -> (colors: ThemeColors)
        ensures
            colors == palette(Theme::Dracula),
    {
        ThemeColors {
            primary: Color::Rgb(189, 147, 249),
            secondary: Color::Rgb(139, 233, 253),
            success: Color::Rgb(80, 250, 123),
            warning: Color::Rgb(241, 250, 140),
            error: Color::Rgb(255, 85, 85),
            info: Color::Rgb(255, 121, 198),
            background: Color::Rgb(40, 42, 54),
            foreground: Color::Rgb(248, 248, 242),
            text_muted: Color::Rgb(98, 114, 164),
            highlight: Color::Rgb(68, 71, 90),
            border: Color::Rgb(98, 114, 164),
            gauge_good: Color::Rgb(80, 250, 123),
            gauge_warning: Color::Rgb(241, 250, 140),
            gauge_danger: Color::Rgb(255, 85, 85),
        }
    }

    fn gruvbox_dark() -> (colors: ThemeColors)
        ensures
            colors == palette(Theme::GruvboxDark),
    {
        ThemeColors {
            primary: Color::Rgb(131, 165, 152),
            secondary: Color::Rgb(251, 241, 199),
            success: Color::Rgb(184, 187, 38),
            warning: Color::Rgb(250, 189, 47),
            error: Color::Rgb(251, 73, 52),
            info: Color::Rgb(211, 134, 155),
            background: Color::Rgb(40, 40, 40),
            foreground: Color::Rgb(235, 219, 178),
            text_muted: Color::Rgb(146, 131, 116),
            highlight: Color::Rgb(68, 71, 90),
            border: Color::Rgb(60, 56, 54),
            gauge_good: Color::Rgb(184, 187, 38),
            gauge_warning: Color::Rgb(250, 189, 47),
            gauge_danger: Color::Rgb(251, 73, 52),
        }
    }

    fn nord() -> (colors: ThemeColors)
        ensures
            colors == palette(Theme::Nord),
    {
        ThemeColors {
            primary: Color::Rgb(136, 192, 208),
            secondary: Color::Rgb(129, 161, 193),
            success: Color::Rgb(163, 190, 140),
            warning: Color::Rgb(235, 203, 139),
            error: Color::Rgb(191, 97, 106),
            info: Color::Rgb(180, 142, 173),
            background: Color::Rgb(46, 52, 64),
            foreground: Color::Rgb(216, 222, 233),
            text_muted: Color::Rgb(76, 86, 106),
            highlight: Color::Rgb(59, 66, 82),
            border: Color::Rgb(67, 76, 94),
            gauge_good: Color::Rgb(163, 190, 140),
            gauge_warning: Color::Rgb(235, 203, 139),
            gauge_danger: Color::Rgb(191, 97, 106),
        }
    }

    fn solarized_dark() -> (colors: ThemeColors)
        ensures
            colors == palette(Theme::SolarizedDark),
    {
        ThemeColors {
            primary: Color::Rgb(38, 139, 210),
            secondary: Color::Rgb(42, 161, 152),
            success: Color::Rgb(133, 153, 0),
            warning: Color::Rgb(181, 137, 0),
            error: Color::Rgb(220, 50, 47),
            info: Color::Rgb(211, 54, 130),
            background: Color::Rgb(0, 43, 54),
            foreground: Color::Rgb(131, 148, 150),
            text_muted: Color::Rgb(88, 110, 117),
            highlight: Color::Rgb(7, 54, 66),
            border: Color::Rgb(7, 54, 66),
            gauge_good: Color::Rgb(133, 153, 0),
            gauge_warning: Color::Rgb(181, 137, 0),
            gauge_danger: Color::Rgb(220, 50, 47),
        }
    }

    fn cyberpunk() -> (colors: ThemeColors)
        ensures
            colors == palette(Theme::Cyberpunk),
    {
        ThemeColors {
            primary: Color::Rgb(0, 255, 255),
            secondary: Color::Rgb(255, 0, 255),
            success: Color::Rgb(0, 255, 127),
            warning: Color::Rgb(255, 255, 0),
            error: Color::Rgb(255, 0, 71),
            info: Color::Rgb(127, 0, 255),
            background: Color::Rgb(0, 0, 0),
            foreground: Color::Rgb(0, 255, 255),
            text_muted: Color::Rgb(127, 127, 127),
            highlight: Color::Rgb(255, 255, 255),
            border: Color::Rgb(0, 255, 255),
            gauge_good: Color::Rgb(0, 255, 127),
            gauge_warning: Color::Rgb(255, 255, 0),
            gauge_danger: Color::Rgb(255, 0, 71),
        }
    }

    fn monokai() -> (colors: ThemeColors)
        ensures
            colors == palette(Theme::Monokai),
    {
        ThemeColors {
            primary: Color::Rgb(102, 217, 239),
            secondary: Color::Rgb(249, 38, 114),
            success: Color::Rgb(166, 226, 46),
            warning: Color::Rgb(255, 255, 0),
            error: Color::Rgb(249, 38, 114),
            info: Color::Rgb(174, 129, 255),
            background: Color::Rgb(39, 40, 34),
            foreground: Color::Rgb(248, 248, 242),
            text_muted: Color::Rgb(117, 113, 110),
            highlight: Color::Rgb(73, 72, 62),
            border: Color::Rgb(73, 72, 62),
            gauge_good: Color::Rgb(166, 226, 46),
            gauge_warning: Color::Rgb(255, 255, 0),
            gauge_danger: Color::Rgb(249, 38, 114),
        }
    }

    fn one_dark() -> (colors: ThemeColors)
        ensures
            colors == palette(Theme::OneDark),
    {
        ThemeColors {
            primary: Color::Rgb(97, 175, 239),
            secondary: Color::Rgb(198, 120, 221),
            success: Color::Rgb(152, 195, 121),
            warning: Color::Rgb(229, 192, 123),
            error: Color::Rgb(224, 108, 117),
            info: Color::Rgb(226, 140, 145),
            background: Color::Rgb(40, 44, 52),
            foreground: Color::Rgb(171, 178, 191),
            text_muted: Color::Rgb(92, 99, 112),
            highlight: Color::Rgb(61, 66, 77),
            border: Color::Rgb(61, 66, 77),
            gauge_good: Color::Rgb(152, 195, 121),
            gauge_warning: Color::Rgb(229, 192, 123),
            gauge_danger: Color::Rgb(224, 108, 117),
        }
    }

    fn tokyo_night() -> (colors: ThemeColors)
        ensures
            colors == palette(Theme::TokyoNight),
    {
        ThemeColors {
            primary: Color::Rgb(125, 179, 255),
            secondary: Color::Rgb(187, 154, 247),
            success: Color::Rgb(146, 234, 170),
            warning: Color::Rgb(250, 179, 135),
            error: Color::Rgb(242, 139, 130),
            info: Color::Rgb(250, 208, 196),
            background: Color::Rgb(26, 27, 38),
            foreground: Color::Rgb(169, 177, 214),
            text_muted: Color::Rgb(76, 86, 106),
            highlight: Color::Rgb(38, 40, 55),
            border: Color::Rgb(38, 40, 55),
            gauge_good: Color::Rgb(146, 234, 170),
            gauge_warning: Color::Rgb(250, 179, 135),
            gauge_danger: Color::Rgb(242, 139, 130),
        }
    }
}

} // verus!
