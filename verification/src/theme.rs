//! Color themes: dark (the default), light, and one that follows the
//! terminal's Solarized palette.

use vstd::prelude::*;
use crate::style::ThemeColor;

verus! {

/// A terminal color.
#[derive(Debug, Clone, Copy, PartialEq, Eq, Structural)]
pub enum Color {
    Reset,
    Black,
    Red,
    Green,
    Yellow,
    Blue,
    Magenta,
    Cyan,
    Gray,
    DarkGray,
    LightRed,
    LightGreen,
    LightYellow,
    LightBlue,
    LightMagenta,
    LightCyan,
    White,
    Rgb(u8, u8, u8),
    Indexed(u8),
}

/// The configured theme.
#[derive(Debug, Clone, Copy, PartialEq, Eq, Structural)]
pub enum ThemeMode {
    Dark,
    Light,
    Solarized,
}

/// The colors of a theme.
#[derive(Debug, Clone, Copy, PartialEq, Eq, Structural)]
pub struct Theme {
    /// The configured mode.
    pub mode: ThemeMode,
    /// Borders and active elements.
    pub primary: Color,
    /// Secondary elements.
    pub secondary: Color,
    /// Background of selected elements.
    pub selection_bg: Color,
    /// Text of selected elements.
    pub selection_fg: Color,
    /// Inactive borders.
    pub border_inactive: Color,
    /// Active borders.
    pub border_active: Color,
    /// Status bar background.
    pub status_bar_bg: Color,
    /// Status bar text.
    pub status_bar_fg: Color,
    /// Error messages.
    pub error: Color,
    /// Success messages.
    pub success: Color,
    /// Warnings.
    pub warning: Color,
    /// Information.
    pub info: Color,
    /// Commit hashes.
    pub commit_hash: Color,
    /// Normal text.
    pub text_normal: Color,
    /// Secondary text (dates, metadata).
    pub text_secondary: Color,
    /// General background.
    pub background: Color,
    /// Structural surfaces (panels, bars).
    pub surface: Color,
    /// Secondary or raised surfaces.
    pub surface_alt: Color,
    /// Background of "ours" in conflicts.
    pub ours_bg: Color,
    /// Background of "theirs" in conflicts.
    pub theirs_bg: Color,
}

/// Branch colors of the dark theme.
pub open spec fn dark_branch_color(i: int) -> Color {
    if i == 0 {
        Color::Rgb(79, 209, 123)
    } else if i == 1 {
        Color::Rgb(255, 107, 107)
    } else if i == 2 {
        Color::Rgb(232, 180, 76)
    } else if i == 3 {
        Color::Rgb(108, 182, 255)
    } else if i == 4 {
        Color::Rgb(210, 168, 255)
    } else if i == 5 {
        Color::Rgb(99, 197, 218)
    } else if i == 6 {
        Color::Rgb(86, 211, 100)
    } else if i == 7 {
        Color::Rgb(255, 123, 114)
    } else if i == 8 {
        Color::Rgb(230, 197, 106)
    } else if i == 9 {
        Color::Rgb(121, 192, 255)
    } else if i == 10 {
        Color::Rgb(188, 140, 255)
    } else {
        Color::Rgb(86, 212, 221)
    }
}

/// Branch colors of the light theme.
pub open spec fn light_branch_color(i: int) -> Color {
    if i == 0 {
        Color::Rgb(24, 122, 67)
    } else if i == 1 {
        Color::Rgb(180, 35, 45)
    } else if i == 2 {
        Color::Rgb(122, 79, 0)
    } else if i == 3 {
        Color::Rgb(29, 99, 181)
    } else if i == 4 {
        Color::Rgb(111, 66, 193)
    } else if i == 5 {
        Color::Rgb(6, 122, 145)
    } else if i == 6 {
        Color::Rgb(17, 99, 41)
    } else if i == 7 {
        Color::Rgb(164, 14, 38)
    } else if i == 8 {
        Color::Rgb(125, 78, 0)
    } else if i == 9 {
        Color::Rgb(5, 80, 174)
    } else if i == 10 {
        Color::Rgb(102, 57, 186)
    } else {
        Color::Rgb(5, 105, 107)
    }
}

/// Branch colors of the solarized theme.
pub open spec fn solarized_branch_color(i: int) -> Color {
    if i == 0 {
        Color::Green
    } else if i == 1 {
        Color::Red
    } else if i == 2 {
        Color::Yellow
    } else if i == 3 {
        Color::Blue
    } else if i == 4 {
        Color::Magenta
    } else if i == 5 {
        Color::Cyan
    } else if i == 6 {
        Color::LightRed
    } else if i == 7 {
        Color::LightMagenta
    } else if i == 8 {
        Color::LightBlue
    } else if i == 9 {
        Color::LightCyan
    } else if i == 10 {
        Color::LightGreen
    } else {
        Color::DarkGray
    }
}

/// How many colors a branch palette has.
pub const BRANCH_COLOR_COUNT: usize = 12;

/// The color of branch `index` in a mode: the palette is used round-robin.
pub open spec fn branch_color_of(mode: ThemeMode, index: usize) -> Color {
    let i = (index % 12) as int;
    match mode {
        ThemeMode::Dark => dark_branch_color(i),
        ThemeMode::Light => light_branch_color(i),
        ThemeMode::Solarized => solarized_branch_color(i),
    }
}

fn dark_palette(i: usize) -> (res: Color)
    requires
        i < 12,
    ensures
        res == dark_branch_color(i as int),
{
    if i == 0 {
        Color::Rgb(79, 209, 123)
    } else if i == 1 {
        Color::Rgb(255, 107, 107)
    } else if i == 2 {
        Color::Rgb(232, 180, 76)
    } else if i == 3 {
        Color::Rgb(108, 182, 255)
    } else if i == 4 {
        Color::Rgb(210, 168, 255)
    } else if i == 5 {
        Color::Rgb(99, 197, 218)
    } else if i == 6 {
        Color::Rgb(86, 211, 100)
    } else if i == 7 {
        Color::Rgb(255, 123, 114)
    } else if i == 8 {
        Color::Rgb(230, 197, 106)
    } else if i == 9 {
        Color::Rgb(121, 192, 255)
    } else if i == 10 {
        Color::Rgb(188, 140, 255)
    } else {
        Color::Rgb(86, 212, 221)
    }
}

fn light_palette(i: usize) -> (res: Color)
    requires
        i < 12,
    ensures
        res == light_branch_color(i as int),
{
    if i == 0 {
        Color::Rgb(24, 122, 67)
    } else if i == 1 {
        Color::Rgb(180, 35, 45)
    } else if i == 2 {
        Color::Rgb(122, 79, 0)
    } else if i == 3 {
        Color::Rgb(29, 99, 181)
    } else if i == 4 {
        Color::Rgb(111, 66, 193)
    } else if i == 5 {
        Color::Rgb(6, 122, 145)
    } else if i == 6 {
        Color::Rgb(17, 99, 41)
    } else if i == 7 {
        Color::Rgb(164, 14, 38)
    } else if i == 8 {
        Color::Rgb(125, 78, 0)
    } else if i == 9 {
        Color::Rgb(5, 80, 174)
    } else if i == 10 {
        Color::Rgb(102, 57, 186)
    } else {
        Color::Rgb(5, 105, 107)
    }
}

fn solarized_palette(i: usize) -> (res: Color)
    requires
        i < 12,
    ensures
        res == solarized_branch_color(i as int),
{
    if i == 0 {
        Color::Green
    } else if i == 1 {
        Color::Red
    } else if i == 2 {
        Color::Yellow
    } else if i == 3 {
        Color::Blue
    } else if i == 4 {
        Color::Magenta
    } else if i == 5 {
        Color::Cyan
    } else if i == 6 {
        Color::LightRed
    } else if i == 7 {
        Color::LightMagenta
    } else if i == 8 {
        Color::LightBlue
    } else if i == 9 {
        Color::LightCyan
    } else if i == 10 {
        Color::LightGreen
    } else {
        Color::DarkGray
    }
}

impl Theme {
    /// The dark theme (the default).
    pub fn dark() -> (res: Self)
        ensures
            res.mode == ThemeMode::Dark,
            res.primary == Color::Rgb(99, 197, 218),
            res.secondary == Color::Rgb(210, 168, 255),
            res.selection_bg == Color::Rgb(28, 58, 82),
            res.selection_fg == Color::Rgb(244, 247, 250),
            res.border_inactive == Color::Rgb(86, 97, 109),
            res.border_active == Color::Rgb(99, 197, 218),
            res.status_bar_bg == Color::Rgb(23, 33, 43),
            res.status_bar_fg == Color::Rgb(230, 237, 243),
            res.error == Color::Rgb(255, 107, 107),
            res.success == Color::Rgb(79, 209, 123),
            res.warning == Color::Rgb(232, 180, 76),
            res.info == Color::Rgb(108, 182, 255),
            res.commit_hash == Color::Rgb(230, 197, 106),
            res.text_normal == Color::Rgb(230, 237, 243),
            res.text_secondary == Color::Rgb(169, 180, 192),
            res.background == Color::Rgb(11, 15, 20),
            res.surface == Color::Rgb(17, 24, 32),
            res.surface_alt == Color::Rgb(23, 33, 43),
            res.ours_bg == Color::Rgb(18, 55, 37),
            res.theirs_bg == Color::Rgb(59, 31, 36),
    {
        Theme {
            mode: ThemeMode::Dark,
            primary: Color::Rgb(99, 197, 218),
            secondary: Color::Rgb(210, 168, 255),
            selection_bg: Color::Rgb(28, 58, 82),
            selection_fg: Color::Rgb(244, 247, 250),
            border_inactive: Color::Rgb(86, 97, 109),
            border_active: Color::Rgb(99, 197, 218),
            status_bar_bg: Color::Rgb(23, 33, 43),
            status_bar_fg: Color::Rgb(230, 237, 243),
            error: Color::Rgb(255, 107, 107),
            success: Color::Rgb(79, 209, 123),
            warning: Color::Rgb(232, 180, 76),
            info: Color::Rgb(108, 182, 255),
            commit_hash: Color::Rgb(230, 197, 106),
            text_normal: Color::Rgb(230, 237, 243),
            text_secondary: Color::Rgb(169, 180, 192),
            background: Color::Rgb(11, 15, 20),
            surface: Color::Rgb(17, 24, 32),
            surface_alt: Color::Rgb(23, 33, 43),
            ours_bg: Color::Rgb(18, 55, 37),
            theirs_bg: Color::Rgb(59, 31, 36),
        }
    }

    /// The light theme.
    pub fn light() -> (res: Self)
        ensures
            res.mode == ThemeMode::Light,
            res.primary == Color::Rgb(6, 122, 145),
            res.secondary == Color::Rgb(122, 79, 179),
            res.selection_bg == Color::Rgb(207, 232, 243),
            res.selection_fg == Color::Rgb(11, 37, 51),
            res.border_inactive == Color::Rgb(122, 133, 146),
            res.border_active == Color::Rgb(6, 122, 145),
            res.status_bar_bg == Color::Rgb(232, 237, 242),
            res.status_bar_fg == Color::Rgb(23, 33, 43),
            res.error == Color::Rgb(180, 35, 45),
            res.success == Color::Rgb(24, 122, 67),
            res.warning == Color::Rgb(122, 79, 0),
            res.info == Color::Rgb(29, 99, 181),
            res.commit_hash == Color::Rgb(111, 66, 193),
            res.text_normal == Color::Rgb(23, 33, 43),
            res.text_secondary == Color::Rgb(76, 89, 103),
            res.background == Color::Rgb(245, 247, 250),
            res.surface == Color::Rgb(255, 255, 255),
            res.surface_alt == Color::Rgb(232, 237, 242),
            res.ours_bg == Color::Rgb(221, 245, 230),
            res.theirs_bg == Color::Rgb(252, 227, 229),
    {
        Theme {
            mode: ThemeMode::Light,
            primary: Color::Rgb(6, 122, 145),
            secondary: Color::Rgb(122, 79, 179),
            selection_bg: Color::Rgb(207, 232, 243),
            selection_fg: Color::Rgb(11, 37, 51),
            border_inactive: Color::Rgb(122, 133, 146),
            border_active: Color::Rgb(6, 122, 145),
            status_bar_bg: Color::Rgb(232, 237, 242),
            status_bar_fg: Color::Rgb(23, 33, 43),
            error: Color::Rgb(180, 35, 45),
            success: Color::Rgb(24, 122, 67),
            warning: Color::Rgb(122, 79, 0),
            info: Color::Rgb(29, 99, 181),
            commit_hash: Color::Rgb(111, 66, 193),
            text_normal: Color::Rgb(23, 33, 43),
            text_secondary: Color::Rgb(76, 89, 103),
            background: Color::Rgb(245, 247, 250),
            surface: Color::Rgb(255, 255, 255),
            surface_alt: Color::Rgb(232, 237, 242),
            ours_bg: Color::Rgb(221, 245, 230),
            theirs_bg: Color::Rgb(252, 227, 229),
        }
    }

    /// The theme that follows the terminal's ANSI palette: backgrounds and
    /// normal text keep the terminal profile's own colors.
    pub fn solarized() -> (res: Self)
        ensures
            res.mode == ThemeMode::Solarized,
            res.primary == Color::Cyan,
            res.secondary == Color::LightMagenta,
            res.selection_bg == Color::LightCyan,
            res.selection_fg == Color::Black,
            res.border_inactive == Color::LightGreen,
            res.border_active == Color::Cyan,
            res.status_bar_bg == Color::Reset,
            res.status_bar_fg == Color::Reset,
            res.error == Color::Red,
            res.success == Color::Green,
            res.warning == Color::Yellow,
            res.info == Color::Blue,
            res.commit_hash == Color::LightMagenta,
            res.text_normal == Color::Reset,
            res.text_secondary == Color::LightGreen,
            res.background == Color::Reset,
            res.surface == Color::Reset,
            res.surface_alt == Color::Reset,
            res.ours_bg == Color::Reset,
            res.theirs_bg == Color::Reset,
    {
        Theme {
            mode: ThemeMode::Solarized,
            primary: Color::Cyan,
            secondary: Color::LightMagenta,
            selection_bg: Color::LightCyan,
            selection_fg: Color::Black,
            border_inactive: Color::LightGreen,
            border_active: Color::Cyan,
            status_bar_bg: Color::Reset,
            status_bar_fg: Color::Reset,
            error: Color::Red,
            success: Color::Green,
            warning: Color::Yellow,
            info: Color::Blue,
            commit_hash: Color::LightMagenta,
            text_normal: Color::Reset,
            text_secondary: Color::LightGreen,
            background: Color::Reset,
            surface: Color::Reset,
            surface_alt: Color::Reset,
            ours_bg: Color::Reset,
            theirs_bg: Color::Reset,
        }
    }

    /// The theme of a configured mode.
    pub fn from_mode(mode: ThemeMode) -> (res: Self)
        ensures
            res.mode == mode,
            mode == ThemeMode::Dark ==> res == Self::dark_spec(),
            mode == ThemeMode::Light ==> res == Self::light_spec(),
            mode == ThemeMode::Solarized ==> res == Self::solarized_spec(),
    {
        match mode {
            ThemeMode::Dark => Self::dark(),
            ThemeMode::Light => Self::light(),
            ThemeMode::Solarized => Self::solarized(),
        }
    }

    /// Whether the theme is the light one.
    pub fn is_light(&self) -> (res: bool)
        ensures
            res == (self.mode == ThemeMode::Light),
    {
        self.mode == ThemeMode::Light
    }

    /// The color of branch `index` (see `branch_color_of`).
    pub fn branch_color(&self, index: usize) -> (res: Color)
        ensures
            res == branch_color_of(self.mode, index),
    {
        let i = index % BRANCH_COLOR_COUNT;
        match self.mode {
            ThemeMode::Dark => dark_palette(i),
            ThemeMode::Light => light_palette(i),
            ThemeMode::Solarized => solarized_palette(i),
        }
    }

    /// The color a slot stands for in this theme.
    pub open spec fn resolve_spec(self, c: ThemeColor) -> Color {
        match c {
            ThemeColor::Primary => self.primary,
            ThemeColor::Secondary => self.secondary,
            ThemeColor::SelectionBg => self.selection_bg,
            ThemeColor::SelectionFg => self.selection_fg,
            ThemeColor::BorderInactive => self.border_inactive,
            ThemeColor::BorderActive => self.border_active,
            ThemeColor::StatusBarBg => self.status_bar_bg,
            ThemeColor::StatusBarFg => self.status_bar_fg,
            ThemeColor::Error => self.error,
            ThemeColor::Success => self.success,
            ThemeColor::Warning => self.warning,
            ThemeColor::Info => self.info,
            ThemeColor::CommitHash => self.commit_hash,
            ThemeColor::TextNormal => self.text_normal,
            ThemeColor::TextSecondary => self.text_secondary,
            ThemeColor::Background => self.background,
            ThemeColor::Surface => self.surface,
            ThemeColor::SurfaceAlt => self.surface_alt,
            ThemeColor::OursBg => self.ours_bg,
            ThemeColor::TheirsBg => self.theirs_bg,
            ThemeColor::Branch(n) => branch_color_of(self.mode, n),
            ThemeColor::Cyan => Color::Cyan,
            ThemeColor::White => Color::White,
            ThemeColor::Yellow => Color::Yellow,
            ThemeColor::Gray => Color::Gray,
            ThemeColor::DarkGray => Color::DarkGray,
            ThemeColor::Red => Color::Red,
            ThemeColor::Green => Color::Green,
            ThemeColor::Reset => Color::Reset,
        }
    }

    /// The color a slot stands for in this theme.
    pub fn resolve(&self, c: ThemeColor) -> (res: Color)
        ensures
            res == self.resolve_spec(c),
    {
        match c {
            ThemeColor::Primary => self.primary,
            ThemeColor::Secondary => self.secondary,
            ThemeColor::SelectionBg => self.selection_bg,
            ThemeColor::SelectionFg => self.selection_fg,
            ThemeColor::BorderInactive => self.border_inactive,
            ThemeColor::BorderActive => self.border_active,
            ThemeColor::StatusBarBg => self.status_bar_bg,
            ThemeColor::StatusBarFg => self.status_bar_fg,
            ThemeColor::Error => self.error,
            ThemeColor::Success => self.success,
            ThemeColor::Warning => self.warning,
            ThemeColor::Info => self.info,
            ThemeColor::CommitHash => self.commit_hash,
            ThemeColor::TextNormal => self.text_normal,
            ThemeColor::TextSecondary => self.text_secondary,
            ThemeColor::Background => self.background,
            ThemeColor::Surface => self.surface,
            ThemeColor::SurfaceAlt => self.surface_alt,
            ThemeColor::OursBg => self.ours_bg,
            ThemeColor::TheirsBg => self.theirs_bg,
            ThemeColor::Branch(n) => self.branch_color(n),
            ThemeColor::Cyan => Color::Cyan,
            ThemeColor::White => Color::White,
            ThemeColor::Yellow => Color::Yellow,
            ThemeColor::Gray => Color::Gray,
            ThemeColor::DarkGray => Color::DarkGray,
            ThemeColor::Red => Color::Red,
            ThemeColor::Green => Color::Green,
            ThemeColor::Reset => Color::Reset,
        }
    }

    /// The dark theme's colors.
    pub open spec fn dark_spec() -> Theme {
        Theme {
            mode: ThemeMode::Dark,
            primary: Color::Rgb(99, 197, 218),
            secondary: Color::Rgb(210, 168, 255),
            selection_bg: Color::Rgb(28, 58, 82),
            selection_fg: Color::Rgb(244, 247, 250),
            border_inactive: Color::Rgb(86, 97, 109),
            border_active: Color::Rgb(99, 197, 218),
            status_bar_bg: Color::Rgb(23, 33, 43),
            status_bar_fg: Color::Rgb(230, 237, 243),
            error: Color::Rgb(255, 107, 107),
            success: Color::Rgb(79, 209, 123),
            warning: Color::Rgb(232, 180, 76),
            info: Color::Rgb(108, 182, 255),
            commit_hash: Color::Rgb(230, 197, 106),
            text_normal: Color::Rgb(230, 237, 243),
            text_secondary: Color::Rgb(169, 180, 192),
            background: Color::Rgb(11, 15, 20),
            surface: Color::Rgb(17, 24, 32),
            surface_alt: Color::Rgb(23, 33, 43),
            ours_bg: Color::Rgb(18, 55, 37),
            theirs_bg: Color::Rgb(59, 31, 36),
        }
    }

    /// The light theme's colors.
    pub open spec fn light_spec() -> Theme {
        Theme {
            mode: ThemeMode::Light,
            primary: Color::Rgb(6, 122, 145),
            secondary: Color::Rgb(122, 79, 179),
            selection_bg: Color::Rgb(207, 232, 243),
            selection_fg: Color::Rgb(11, 37, 51),
            border_inactive: Color::Rgb(122, 133, 146),
            border_active: Color::Rgb(6, 122, 145),
            status_bar_bg: Color::Rgb(232, 237, 242),
            status_bar_fg: Color::Rgb(23, 33, 43),
            error: Color::Rgb(180, 35, 45),
            success: Color::Rgb(24, 122, 67),
            warning: Color::Rgb(122, 79, 0),
            info: Color::Rgb(29, 99, 181),
            commit_hash: Color::Rgb(111, 66, 193),
            text_normal: Color::Rgb(23, 33, 43),
            text_secondary: Color::Rgb(76, 89, 103),
            background: Color::Rgb(245, 247, 250),
            surface: Color::Rgb(255, 255, 255),
            surface_alt: Color::Rgb(232, 237, 242),
            ours_bg: Color::Rgb(221, 245, 230),
            theirs_bg: Color::Rgb(252, 227, 229),
        }
    }

    /// The solarized theme's colors.
    pub open spec fn solarized_spec() -> Theme {
        Theme {
            mode: ThemeMode::Solarized,
            primary: Color::Cyan,
            secondary: Color::LightMagenta,
            selection_bg: Color::LightCyan,
            selection_fg: Color::Black,
            border_inactive: Color::LightGreen,
            border_active: Color::Cyan,
            status_bar_bg: Color::Reset,
            status_bar_fg: Color::Reset,
            error: Color::Red,
            success: Color::Green,
            warning: Color::Yellow,
            info: Color::Blue,
            commit_hash: Color::LightMagenta,
            text_normal: Color::Reset,
            text_secondary: Color::LightGreen,
            background: Color::Reset,
            surface: Color::Reset,
            surface_alt: Color::Reset,
            ours_bg: Color::Reset,
            theirs_bg: Color::Reset,
        }
    }
}

/// Branch colors come round every twelve branches.
pub proof fn law_branch_colors_cycle(mode: ThemeMode, index: usize)
    requires
        index + 12 <= usize::MAX,
    ensures
        branch_color_of(mode, (index + 12) as usize) == branch_color_of(mode, index),
{
}

/// Two neighbouring branches never share a color.
pub proof fn law_neighbour_branches_differ(mode: ThemeMode, index: usize)
    requires
        index + 1 <= usize::MAX,
    ensures
        branch_color_of(mode, (index + 1) as usize) != branch_color_of(mode, index),
{
}

/// The Solarized theme leaves backgrounds and normal text to the terminal
/// and draws branches with ANSI colors only.
pub proof fn law_solarized_uses_terminal_palette(index: usize)
    ensures
        Theme::solarized_spec().background == Color::Reset,
        Theme::solarized_spec().text_normal == Color::Reset,
        !(branch_color_of(ThemeMode::Solarized, index) is Rgb),
{
}

} // verus!
