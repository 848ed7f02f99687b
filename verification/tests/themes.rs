use git_sv::style::{
    border_style, diff_add_style, diff_header_style, diff_remove_style, dim_style, error_style,
    highlight_style, success_style, title_style, SegmentStyle, ThemeColor,
};
use git_sv::theme::{Color, Theme, ThemeMode};

fn relative_luminance(color: Color) -> f64 {
    let Color::Rgb(red, green, blue) = color else {
        panic!("Les palettes doivent utiliser des couleurs RGB déterministes");
    };
    let channel = |value: u8| {
        let value = f64::from(value) / 255.0;
        if value <= 0.04045 {
            value / 12.92
        } else {
            ((value + 0.055) / 1.055).powf(2.4)
        }
    };
    0.2126 * channel(red) + 0.7152 * channel(green) + 0.0722 * channel(blue)
}

fn contrast_ratio(first: Color, second: Color) -> f64 {
    let first = relative_luminance(first);
    let second = relative_luminance(second);
    (first.max(second) + 0.05) / (first.min(second) + 0.05)
}

fn assert_theme_contrast(theme: Theme) {
    for color in [
        theme.text_normal,
        theme.text_secondary,
        theme.primary,
        theme.secondary,
        theme.error,
        theme.success,
        theme.warning,
        theme.info,
        theme.commit_hash,
    ] {
        assert!(
            contrast_ratio(color, theme.background) >= 4.5,
            "contraste insuffisant pour {color:?} sur {:?}",
            theme.background
        );
    }
    assert!(contrast_ratio(theme.selection_fg, theme.selection_bg) >= 4.5);
    assert!(contrast_ratio(theme.status_bar_fg, theme.status_bar_bg) >= 4.5);
    assert!(contrast_ratio(theme.border_inactive, theme.background) >= 3.0);

    for index in 0..12 {
        assert!(contrast_ratio(theme.branch_color(index), theme.background) >= 4.5);
    }
}

#[test]
fn test_dark_theme_contrast() {
    assert_theme_contrast(Theme::dark());
}

#[test]
fn test_light_theme_contrast() {
    assert_theme_contrast(Theme::light());
}

#[test]
fn test_solarized_theme_uses_terminal_palette() {
    let theme = Theme::solarized();

    assert_eq!(theme.background, Color::Reset);
    assert_eq!(theme.surface, Color::Reset);
    assert_eq!(theme.surface_alt, Color::Reset);
    assert_eq!(theme.text_normal, Color::Reset);
    assert_eq!(theme.selection_bg, Color::LightCyan);
    assert_eq!(theme.selection_fg, Color::Black);

    for index in 0..12 {
        assert!(!matches!(theme.branch_color(index), Color::Rgb(..)));
    }
}

#[test]
fn mod_test_get_branch_color() {
    let theme = Theme::dark();
    let color0 = theme.branch_color(0);
    let color1 = theme.branch_color(1);
    let color2 = theme.branch_color(2);
    assert_ne!(color0, color1);
    assert_ne!(color1, color2);
}

#[test]
fn graph_view_test_get_branch_color() {
    let theme = Theme::from_mode(ThemeMode::Light);
    assert_ne!(theme.branch_color(0), theme.branch_color(1));
    assert_ne!(theme.branch_color(1), theme.branch_color(2));
}

#[test]
fn branch_colors_cycle_every_twelve() {
    let theme = Theme::dark();
    assert_eq!(theme.branch_color(0), Color::Rgb(79, 209, 123));
    assert_eq!(theme.branch_color(12), theme.branch_color(0));
    assert_eq!(theme.branch_color(25), theme.branch_color(1));
}

#[test]
fn slots_resolve_to_theme_colors() {
    let theme = Theme::dark();
    assert!(!theme.is_light());
    assert!(Theme::light().is_light());
    assert_eq!(theme.resolve(ThemeColor::SelectionBg), Color::Rgb(28, 58, 82));
    assert_eq!(theme.resolve(ThemeColor::Branch(13)), theme.branch_color(1));
    assert_eq!(theme.resolve(ThemeColor::Cyan), Color::Cyan);
    assert_eq!(Theme::from_mode(ThemeMode::Solarized), Theme::solarized());
}

#[test]
fn common_styles_pick_terminal_colors() {
    assert_eq!(border_style(true), SegmentStyle::fg(ThemeColor::Cyan));
    assert_eq!(border_style(false), SegmentStyle::fg(ThemeColor::DarkGray));
    let highlight = highlight_style();
    assert_eq!(highlight.bg, Some(ThemeColor::DarkGray));
    assert!(highlight.bold);
    assert_eq!(highlight.fg, None);
    let title = title_style();
    assert_eq!(title.fg, Some(ThemeColor::White));
    assert!(title.bold);
    assert!(dim_style().dim);
    assert_eq!(dim_style().fg, None);
    assert_eq!(error_style(), SegmentStyle::fg(ThemeColor::Red));
    assert_eq!(success_style(), SegmentStyle::fg(ThemeColor::Green));
    assert_eq!(diff_add_style(), SegmentStyle::fg(ThemeColor::Green));
    assert_eq!(diff_remove_style(), SegmentStyle::fg(ThemeColor::Red));
    assert_eq!(diff_header_style(), SegmentStyle::fg(ThemeColor::Cyan));
}
