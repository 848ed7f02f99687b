//! Styled text segments: what a line of the interface shows, before it is
//! handed to the terminal renderer.

use vstd::prelude::*;
use ratatui::text::Span;

verus! {

/// A color of the active theme, or a fixed terminal color.
#[derive(Debug, Clone, Copy, PartialEq, Eq, Structural)]
pub enum ThemeColor {
    Primary,
    Secondary,
    SelectionBg,
    SelectionFg,
    BorderInactive,
    BorderActive,
    StatusBarBg,
    StatusBarFg,
    Error,
    Success,
    Warning,
    Info,
    CommitHash,
    TextNormal,
    TextSecondary,
    Background,
    Surface,
    SurfaceAlt,
    OursBg,
    TheirsBg,
    /// The color the theme assigns to branch (lane) number `n`.
    Branch(usize),
    /// The terminal's cyan, whatever the theme.
    Cyan,
    /// The terminal's white, whatever the theme.
    White,
    /// The terminal's yellow, whatever the theme.
    Yellow,
    /// The terminal's gray, whatever the theme.
    Gray,
    /// The terminal's dark gray, whatever the theme.
    DarkGray,
    /// The terminal's red, whatever the theme.
    Red,
    /// The terminal's green, whatever the theme.
    Green,
    /// The terminal's default color.
    Reset,
}

/// Colors and modifiers of a segment.
#[derive(Debug, Clone, Copy, PartialEq, Eq, Structural)]
pub struct SegmentStyle {
    pub fg: Option<ThemeColor>,
    pub bg: Option<ThemeColor>,
    pub bold: bool,
    pub dim: bool,
    pub italic: bool,
    pub underline: bool,
}

impl SegmentStyle {
    /// No color, no modifier.
    pub open spec fn plain_spec() -> SegmentStyle {
        SegmentStyle { fg: None, bg: None, bold: false, dim: false, italic: false, underline: false }
    }

    /// Foreground color only.
    pub open spec fn fg_spec(c: ThemeColor) -> SegmentStyle {
        SegmentStyle { fg: Some(c), bg: None, bold: false, dim: false, italic: false, underline: false }
    }

    /// No color, no modifier.
    pub fn plain() -> (res: Self)
        ensures
            res == Self::plain_spec(),
    {
        SegmentStyle { fg: None, bg: None, bold: false, dim: false, italic: false, underline: false }
    }

    /// Foreground color only.
    pub fn fg(c: ThemeColor) -> (res: Self)
        ensures
            res == Self::fg_spec(c),
    {
        SegmentStyle { fg: Some(c), bg: None, bold: false, dim: false, italic: false, underline: false }
    }
}

/// A run of text drawn with one style.
#[derive(Debug, Clone)]
pub struct Segment {
    pub text: String,
    pub style: SegmentStyle,
}

/// A segment as a mathematical value.
pub struct SegmentView {
    pub text: Seq<char>,
    pub style: SegmentStyle,
}

impl View for Segment {
    type V = SegmentView;

    open spec fn view(&self) -> SegmentView {
        SegmentView { text: self.text@, style: self.style }
    }
}

/// The views of a sequence of segments.
pub open spec fn segments_view(s: Seq<Segment>) -> Seq<SegmentView> {
    s.map_values(|g: Segment| g@)
}

/// The text of a sequence of segments, end to end.
pub open spec fn segments_text(s: Seq<SegmentView>) -> Seq<char>
    decreases s.len(),
{
    if s.len() == 0 {
        Seq::empty()
    } else {
        segments_text(s.drop_last()) + s.last().text
    }
}

/// The number of terminal columns ratatui gives a span with this text
/// (`Span::width`, the unicode width of the text).
pub uninterp spec fn text_columns(text: Seq<char>) -> usize;

/// Terminal columns of a text, as ratatui measures a span
/// (`Span::raw(text).width()`).
#[verifier::external_body]
pub(crate) fn span_width(text: &str) -> (res: usize)
    ensures
        res == text_columns(text@),
{
    Span::raw(text).width()
}

/// `a + b`, held at `usize::MAX`.
pub open spec fn sat_add(a: int, b: int) -> int {
    if a + b > usize::MAX {
        usize::MAX as int
    } else {
        a + b
    }
}

/// `a - b`, held at zero.
pub open spec fn sat_sub(a: int, b: int) -> int {
    if a - b < 0 {
        0
    } else {
        a - b
    }
}

/// Total terminal columns of a sequence of segments, held at `usize::MAX`.
pub open spec fn segments_columns(s: Seq<SegmentView>) -> int
    decreases s.len(),
{
    if s.len() == 0 {
        0
    } else {
        sat_add(segments_columns(s.drop_last()), text_columns(s.last().text) as int)
    }
}

/// Total terminal columns of the segments of a line.
pub fn spans_width(segments: &Vec<Segment>) -> (res: usize)
    ensures
        res == segments_columns(segments_view(segments@)),
{
    let mut total: usize = 0;
    let mut i: usize = 0;
    while i < segments.len()
        invariant
            i <= segments@.len(),
            total == segments_columns(segments_view(segments@.take(i as int))),
        decreases segments@.len() - i,
    {
        let w = span_width(segments[i].text.as_str());
        total = total.saturating_add(w);
        proof {
            let prev = segments_view(segments@.take(i as int));
            let next = segments_view(segments@.take(i + 1));
            assert(next.drop_last() =~= prev);
        }
        i = i + 1;
    }
    assert(segments@.take(i as int) =~= segments@);
    total
}

/// A style of one foreground color and modifiers.
pub open spec fn styled(fg: Option<ThemeColor>, bg: Option<ThemeColor>, bold: bool, dim: bool) -> SegmentStyle {
    SegmentStyle { fg, bg, bold, dim, italic: false, underline: false }
}

/// Color of a focused border.
pub const FOCUS_COLOR: ThemeColor = ThemeColor::Cyan;

/// Color of an unfocused border.
pub const INACTIVE_COLOR: ThemeColor = ThemeColor::DarkGray;

/// A border: cyan when focused, dark gray otherwise.
pub fn border_style(is_focused: bool) -> (res: SegmentStyle)
    ensures
        res == styled(Some(if is_focused { ThemeColor::Cyan } else { ThemeColor::DarkGray }), None, false, false),
{
    if is_focused {
        SegmentStyle { fg: Some(FOCUS_COLOR), bg: None, bold: false, dim: false, italic: false, underline: false }
    } else {
        SegmentStyle { fg: Some(INACTIVE_COLOR), bg: None, bold: false, dim: false, italic: false, underline: false }
    }
}

/// A highlighted row: bold on dark gray.
pub fn highlight_style() -> (res: SegmentStyle)
    ensures
        res == styled(None, Some(ThemeColor::DarkGray), true, false),
{
    SegmentStyle { fg: None, bg: Some(ThemeColor::DarkGray), bold: true, dim: false, italic: false, underline: false }
}

/// A title: bold white.
pub fn title_style() -> (res: SegmentStyle)
    ensures
        res == styled(Some(ThemeColor::White), None, true, false),
{
    SegmentStyle { fg: Some(ThemeColor::White), bg: None, bold: true, dim: false, italic: false, underline: false }
}

/// Dimmed text.
pub fn dim_style() -> (res: SegmentStyle)
    ensures
        res == styled(None, None, false, true),
{
    SegmentStyle { fg: None, bg: None, bold: false, dim: true, italic: false, underline: false }
}

/// An error: red.
pub fn error_style() -> (res: SegmentStyle)
    ensures
        res == styled(Some(ThemeColor::Red), None, false, false),
{
    SegmentStyle::fg(ThemeColor::Red)
}

/// A success: green.
pub fn success_style() -> (res: SegmentStyle)
    ensures
        res == styled(Some(ThemeColor::Green), None, false, false),
{
    SegmentStyle::fg(ThemeColor::Green)
}

/// An added diff line: green.
pub fn diff_add_style() -> (res: SegmentStyle)
    ensures
        res == styled(Some(ThemeColor::Green), None, false, false),
{
    SegmentStyle::fg(ThemeColor::Green)
}

/// A removed diff line: red.
pub fn diff_remove_style() -> (res: SegmentStyle)
    ensures
        res == styled(Some(ThemeColor::Red), None, false, false),
{
    SegmentStyle::fg(ThemeColor::Red)
}

/// A diff hunk header: cyan.
pub fn diff_header_style() -> (res: SegmentStyle)
    ensures
        res == styled(Some(ThemeColor::Cyan), None, false, false),
{
    SegmentStyle::fg(ThemeColor::Cyan)
}

} // verus!
