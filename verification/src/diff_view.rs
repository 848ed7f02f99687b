//! The lines and titles of the diff panel, unified and side by side.

use vstd::prelude::*;
use crate::diff_align::{DiffLine, DiffLineType, LinePair, SideBySideLine, align_diff_lines,
    aligned};
use crate::i18n::{Language, pick};
use crate::strings::{decimal, push_decimal, push_spaces, push_str, spaces};
use crate::style::{Segment, SegmentStyle, SegmentView, ThemeColor, sat_sub, segments_view};

verus! {

/// Least width of one column of the side-by-side view.
pub const MIN_SIDE_BY_SIDE_WIDTH: u16 = 60;

/// How a diff is shown.
#[derive(Debug, Clone, Copy, PartialEq, Eq, Structural)]
pub enum DiffViewMode {
    Unified,
    SideBySide,
}

/// The diff of one file.
#[derive(Debug, Clone)]
pub struct FileDiff {
    pub path: String,
    pub lines: Vec<DiffLine>,
    pub additions: usize,
    pub deletions: usize,
}

/// The lines of a panel as mathematical values.
pub open spec fn lines_view(lines: Seq<Vec<Segment>>) -> Seq<Seq<SegmentView>> {
    lines.map_values(|l: Vec<Segment>| segments_view(l@))
}

/// A line number on four columns, right aligned (`{:4}`).
pub open spec fn padded_number(n: u32) -> Seq<char> {
    spaces(sat_sub(4, decimal(n as nat).len() as int) as nat) + decimal(n as nat)
}

/// A line number on four columns, or four spaces when there is none.
pub open spec fn line_number_text(n: Option<u32>) -> Seq<char> {
    match n {
        Some(v) => padded_number(v),
        None => spaces(4),
    }
}

/// A style with a foreground color and an optional background.
pub open spec fn colored(fg: ThemeColor, bg: Option<ThemeColor>) -> SegmentStyle {
    SegmentStyle { fg: Some(fg), bg, bold: false, dim: false, italic: false, underline: false }
}

/// The line of a unified diff: a hunk header in bold info color; any other
/// line with both line numbers, then its prefix and content colored by kind.
pub open spec fn unified_line(l: DiffLine) -> Seq<SegmentView> {
    if l.line_type == DiffLineType::HunkHeader {
        seq![
            SegmentView {
                text: l.content@,
                style: SegmentStyle {
                    fg: Some(ThemeColor::Info),
                    bg: None,
                    bold: true,
                    dim: false,
                    italic: false, underline: false,
                },
            },
        ]
    } else {
        let (prefix, fg, bg) = match l.line_type {
            DiffLineType::Addition => ("+"@, ThemeColor::Success, Some(ThemeColor::OursBg)),
            DiffLineType::Deletion => ("-"@, ThemeColor::Error, Some(ThemeColor::TheirsBg)),
            _ => (" "@, ThemeColor::TextNormal, None),
        };
        seq![
            SegmentView {
                text: line_number_text(l.old_lineno) + " "@ + line_number_text(l.new_lineno) + " "@,
                style: SegmentStyle::fg_spec(ThemeColor::TextSecondary),
            },
            SegmentView { text: prefix + l.content@, style: colored(fg, bg) },
        ]
    }
}

/// The placeholder shown on the side of a row that has no line.
pub open spec fn placeholder_line() -> Seq<SegmentView> {
    seq![SegmentView { text: spaces(5), style: SegmentStyle::fg_spec(ThemeColor::TextSecondary) }]
}

/// The left (old) column of a side-by-side row.
pub open spec fn left_column_line(side: Option<SideBySideLine>) -> Seq<SegmentView> {
    match side {
        Some(l) => {
            let (fg, bg) = if l.line_type == DiffLineType::Deletion {
                (ThemeColor::Error, Some(ThemeColor::TheirsBg))
            } else {
                (ThemeColor::TextNormal, None)
            };
            seq![
                SegmentView {
                    text: line_number_text(l.old_lineno) + " "@,
                    style: SegmentStyle::fg_spec(ThemeColor::TextSecondary),
                },
                SegmentView { text: "- "@ + l.content@, style: colored(fg, bg) },
            ]
        },
        None => placeholder_line(),
    }
}

/// The right (new) column of a side-by-side row.
pub open spec fn right_column_line(side: Option<SideBySideLine>) -> Seq<SegmentView> {
    match side {
        Some(l) => {
            let (fg, bg) = if l.line_type == DiffLineType::Addition {
                (ThemeColor::Success, Some(ThemeColor::OursBg))
            } else {
                (ThemeColor::TextNormal, None)
            };
            seq![
                SegmentView {
                    text: line_number_text(l.new_lineno) + " "@,
                    style: SegmentStyle::fg_spec(ThemeColor::TextSecondary),
                },
                SegmentView { text: "+ "@ + l.content@, style: colored(fg, bg) },
            ]
        },
        None => placeholder_line(),
    }
}

fn push_number(s: &mut String, n: Option<u32>)
    ensures
        final(s)@ == old(s)@ + line_number_text(n),
{
    match n {
        Some(v) => {
            let mut digits = String::new();
            push_decimal(&mut digits, v as u64);
            let len = digits.as_str().unicode_len();
            push_spaces(s, 4usize.saturating_sub(len));
            push_str(s, digits.as_str());
        },
        None => push_spaces(s, 4),
    }
}

fn colored_style(fg: ThemeColor, bg: Option<ThemeColor>) -> (res: SegmentStyle)
    ensures
        res == colored(fg, bg),
{
    SegmentStyle { fg: Some(fg), bg, bold: false, dim: false, italic: false, underline: false }
}

fn two_segments(a: Segment, b: Segment) -> (res: Vec<Segment>)
    ensures
        segments_view(res@) == seq![a@, b@],
{
    let mut v: Vec<Segment> = Vec::new();
    v.push(a);
    v.push(b);
    assert(segments_view(v@) =~= seq![a@, b@]);
    v
}

fn one_segment(a: Segment) -> (res: Vec<Segment>)
    ensures
        segments_view(res@) == seq![a@],
{
    let mut v: Vec<Segment> = Vec::new();
    v.push(a);
    assert(segments_view(v@) =~= seq![a@]);
    v
}

/// The line of a unified diff (see `unified_line`).
pub fn unified_diff_line(l: &DiffLine) -> (res: Vec<Segment>)
    ensures
        segments_view(res@) == unified_line(*l),
{
    if l.line_type == DiffLineType::HunkHeader {
        let mut text = String::new();
        push_str(&mut text, l.content.as_str());
        return one_segment(
            Segment {
                text,
                style: SegmentStyle {
                    fg: Some(ThemeColor::Info),
                    bg: None,
                    bold: true,
                    dim: false,
                    italic: false, underline: false,
                },
            },
        );
    }
    let (prefix, fg, bg) = match l.line_type {
        DiffLineType::Addition => ("+", ThemeColor::Success, Some(ThemeColor::OursBg)),
        DiffLineType::Deletion => ("-", ThemeColor::Error, Some(ThemeColor::TheirsBg)),
        _ => (" ", ThemeColor::TextNormal, None),
    };
    let mut numbers = String::new();
    push_number(&mut numbers, l.old_lineno);
    push_str(&mut numbers, " ");
    push_number(&mut numbers, l.new_lineno);
    push_str(&mut numbers, " ");
    let mut body = String::new();
    push_str(&mut body, prefix);
    push_str(&mut body, l.content.as_str());
    two_segments(
        Segment { text: numbers, style: SegmentStyle::fg(ThemeColor::TextSecondary) },
        Segment { text: body, style: colored_style(fg, bg) },
    )
}

/// The lines of a unified diff, one per diff line.
pub fn build_diff_lines(diff: &FileDiff) -> (res: Vec<Vec<Segment>>)
    ensures
        lines_view(res@) == diff.lines@.map_values(|l: DiffLine| unified_line(l)),
{
    let mut out: Vec<Vec<Segment>> = Vec::new();
    let mut i: usize = 0;
    while i < diff.lines.len()
        invariant
            i <= diff.lines@.len(),
            lines_view(out@) == diff.lines@.take(i as int).map_values(
                |l: DiffLine| unified_line(l),
            ),
        decreases diff.lines@.len() - i,
    {
        let line = unified_diff_line(&diff.lines[i]);
        let ghost before = out@;
        out.push(line);
        proof {
            assert(lines_view(out@) =~= lines_view(before).push(segments_view(line@)));
            assert(diff.lines@.take(i + 1).map_values(|l: DiffLine| unified_line(l)) =~= diff.lines@.take(
                i as int,
            ).map_values(|l: DiffLine| unified_line(l)).push(unified_line(diff.lines@[i as int])));
            assert(diff.lines@.take(i + 1) =~= diff.lines@.take(i as int).push(
                diff.lines@[i as int],
            ));
            assert(lines_view(out@) =~= diff.lines@.take(i + 1).map_values(
                |l: DiffLine| unified_line(l),
            ));
        }
        i = i + 1;
    }
    assert(diff.lines@.take(i as int) =~= diff.lines@);
    out
}

fn placeholder() -> (res: Vec<Segment>)
    ensures
        segments_view(res@) == placeholder_line(),
{
    let mut text = String::new();
    push_spaces(&mut text, 5);
    one_segment(Segment { text, style: SegmentStyle::fg(ThemeColor::TextSecondary) })
}

fn side_line(side: &Option<SideBySideLine>, left: bool) -> (res: Vec<Segment>)
    ensures
        segments_view(res@) == if left {
            left_column_line(*side)
        } else {
            right_column_line(*side)
        },
{
    match side {
        Some(l) => {
            let highlighted = if left {
                l.line_type == DiffLineType::Deletion
            } else {
                l.line_type == DiffLineType::Addition
            };
            let (fg, bg) = if highlighted {
                if left {
                    (ThemeColor::Error, Some(ThemeColor::TheirsBg))
                } else {
                    (ThemeColor::Success, Some(ThemeColor::OursBg))
                }
            } else {
                (ThemeColor::TextNormal, None)
            };
            let mut number = String::new();
            push_number(
                &mut number,
                if left {
                    l.old_lineno
                } else {
                    l.new_lineno
                },
            );
            push_str(&mut number, " ");
            let mut body = String::new();
            push_str(
                &mut body,
                if left {
                    "- "
                } else {
                    "+ "
                },
            );
            push_str(&mut body, l.content.as_str());
            two_segments(
                Segment { text: number, style: SegmentStyle::fg(ThemeColor::TextSecondary) },
                Segment { text: body, style: colored_style(fg, bg) },
            )
        },
        None => placeholder(),
    }
}

/// The two columns of a side-by-side diff, row by row (see `aligned`).
pub fn build_side_by_side_lines(diff: &FileDiff) -> (res: (Vec<Vec<Segment>>, Vec<Vec<Segment>>))
    ensures
        lines_view(res.0@) == aligned(diff.lines@).map_values(
            |p: LinePair| left_column_line(p.left),
        ),
        lines_view(res.1@) == aligned(diff.lines@).map_values(
            |p: LinePair| right_column_line(p.right),
        ),
{
    let pairs = align_diff_lines(diff.lines.as_slice());
    let mut left_lines: Vec<Vec<Segment>> = Vec::new();
    let mut right_lines: Vec<Vec<Segment>> = Vec::new();
    let mut i: usize = 0;
    while i < pairs.len()
        invariant
            pairs@ == aligned(diff.lines@),
            i <= pairs@.len(),
            lines_view(left_lines@) == pairs@.take(i as int).map_values(
                |p: LinePair| left_column_line(p.left),
            ),
            lines_view(right_lines@) == pairs@.take(i as int).map_values(
                |p: LinePair| right_column_line(p.right),
            ),
        decreases pairs@.len() - i,
    {
        let pair = &pairs[i];
        let l = side_line(&pair.left, true);
        let r = side_line(&pair.right, false);
        let ghost lb = left_lines@;
        let ghost rb = right_lines@;
        left_lines.push(l);
        right_lines.push(r);
        proof {
            assert(lines_view(left_lines@) =~= lines_view(lb).push(segments_view(l@)));
            assert(lines_view(right_lines@) =~= lines_view(rb).push(segments_view(r@)));
            assert(pairs@.take(i + 1).map_values(|p: LinePair| left_column_line(p.left)) =~= pairs@.take(
                i as int,
            ).map_values(|p: LinePair| left_column_line(p.left)).push(left_column_line(pairs@[i as int].left)));
            assert(pairs@.take(i + 1).map_values(|p: LinePair| right_column_line(p.right)) =~= pairs@.take(
                i as int,
            ).map_values(|p: LinePair| right_column_line(p.right)).push(right_column_line(pairs@[i as int].right)));
            assert(pairs@.take(i + 1) =~= pairs@.take(i as int).push(pairs@[i as int]));
            assert(lines_view(left_lines@) =~= pairs@.take(i + 1).map_values(
                |p: LinePair| left_column_line(p.left),
            ));
            assert(lines_view(right_lines@) =~= pairs@.take(i + 1).map_values(
                |p: LinePair| right_column_line(p.right),
            ));
        }
        i = i + 1;
    }
    assert(pairs@.take(i as int) =~= pairs@);
    (left_lines, right_lines)
}

/// The mode actually used: side by side only when both columns get their
/// least width and a separator fits.
pub open spec fn effective_mode(area_width: u16, mode: DiffViewMode) -> DiffViewMode {
    if area_width >= MIN_SIDE_BY_SIDE_WIDTH * 2 + 3 {
        mode
    } else {
        DiffViewMode::Unified
    }
}

/// The mode actually used for a panel of the given width (see
/// `effective_mode`).
pub fn effective_view_mode(area_width: u16, mode: DiffViewMode) -> (res: DiffViewMode)
    ensures
        res == effective_mode(area_width, mode),
{
    if area_width >= MIN_SIDE_BY_SIDE_WIDTH * 2 + 3 {
        mode
    } else {
        DiffViewMode::Unified
    }
}

/// The message shown when no file is selected.
pub open spec fn no_file_text(lang: Language) -> Seq<char> {
    pick(lang, "Selectionnez un fichier pour voir le diff"@, "Select a file to view the diff"@)
}

/// The lines of the unified panel: the diff's lines, or the message asking
/// for a file.
pub fn unified_content(diff: Option<&FileDiff>, lang: Language) -> (res: Vec<Vec<Segment>>)
    ensures
        lines_view(res@) == match diff {
            Some(d) => d.lines@.map_values(|l: DiffLine| unified_line(l)),
            None => seq![seq![SegmentView { text: no_file_text(lang), style: SegmentStyle::plain_spec() }]],
        },
{
    match diff {
        Some(d) => build_diff_lines(d),
        None => {
            let message = crate::i18n::text(
                lang,
                "Selectionnez un fichier pour voir le diff",
                "Select a file to view the diff",
            );
            let line = one_segment(Segment { text: message.to_owned(), style: SegmentStyle::plain() });
            let mut v: Vec<Vec<Segment>> = Vec::new();
            v.push(line);
            assert(lines_view(v@) =~= seq![segments_view(line@)]);
            v
        },
    }
}

/// " [ZOOM]" when the diff is shown full screen.
pub open spec fn zoom_text(is_fullscreen: bool) -> Seq<char> {
    if is_fullscreen {
        " [ZOOM]"@
    } else {
        Seq::empty()
    }
}

/// The path and the counts of added and deleted lines: "path (+a/-d)".
pub open spec fn diff_summary(d: FileDiff) -> Seq<char> {
    d.path@ + " (+"@ + decimal(d.additions as nat) + "/-"@ + decimal(d.deletions as nat) + ")"@
}

/// A focused panel's title is framed by "><".
pub open spec fn focus_frame(title: Seq<char>, is_focused: bool) -> Seq<char> {
    if is_focused {
        ">"@ + title + "<"@
    } else {
        title
    }
}

/// The title of the unified panel: the file's summary, the zoom marker and
/// the scroll position (first visible line, held so that the last page
/// stays full, out of the total).
pub open spec fn unified_title_text(
    diff: Option<FileDiff>,
    total_lines: nat,
    scroll_offset: nat,
    area_height: u16,
    is_focused: bool,
    is_fullscreen: bool,
) -> Seq<char> {
    let title = match diff {
        Some(d) => {
            let visible = sat_sub(area_height as int, 2);
            let max_scroll = sat_sub(total_lines as int, visible);
            let first = if scroll_offset < max_scroll {
                scroll_offset as int
            } else {
                max_scroll
            };
            let position = if total_lines > 0 {
                " ["@ + decimal((first + 1) as nat) + "/"@ + decimal(total_lines) + "]"@
            } else {
                Seq::empty()
            };
            " Diff - "@ + diff_summary(d) + zoom_text(is_fullscreen) + position + " "@
        },
        None => " Diff"@ + zoom_text(is_fullscreen) + " "@,
    };
    focus_frame(title, is_focused)
}

/// The title of the side-by-side panel.
pub open spec fn side_by_side_title_text(
    diff: Option<FileDiff>,
    is_focused: bool,
    is_fullscreen: bool,
    lang: Language,
) -> Seq<char> {
    let name = pick(lang, " Diff (cote a cote)"@, " Diff (side-by-side)"@);
    let title = match diff {
        Some(d) => name + " - "@ + diff_summary(d) + zoom_text(is_fullscreen) + " "@,
        None => name + zoom_text(is_fullscreen) + " "@,
    };
    focus_frame(title, is_focused)
}

fn push_summary(s: &mut String, d: &FileDiff)
    ensures
        final(s)@ == old(s)@ + diff_summary(*d),
{
    push_str(s, d.path.as_str());
    push_str(s, " (+");
    push_decimal(s, d.additions as u64);
    push_str(s, "/-");
    push_decimal(s, d.deletions as u64);
    push_str(s, ")");
}

fn push_zoom(s: &mut String, is_fullscreen: bool)
    ensures
        final(s)@ == old(s)@ + zoom_text(is_fullscreen),
{
    if is_fullscreen {
        push_str(s, " [ZOOM]");
    } else {
        assert(old(s)@ + zoom_text(is_fullscreen) =~= old(s)@);
    }
}

fn framed(title: String, is_focused: bool) -> (res: String)
    ensures
        res@ == focus_frame(title@, is_focused),
{
    if is_focused {
        let mut s = String::new();
        push_str(&mut s, ">");
        push_str(&mut s, title.as_str());
        push_str(&mut s, "<");
        s
    } else {
        title
    }
}

/// The title of the unified panel (see `unified_title_text`).
pub fn unified_title(
    diff: Option<&FileDiff>,
    total_lines: usize,
    scroll_offset: usize,
    area_height: u16,
    is_focused: bool,
    is_fullscreen: bool,
) -> (res: String)
    requires
        total_lines < usize::MAX,
    ensures
        res@ == unified_title_text(
            match diff {
                Some(d) => Some(*d),
                None => None,
            },
            total_lines as nat,
            scroll_offset as nat,
            area_height,
            is_focused,
            is_fullscreen,
        ),
{
    let mut title = String::new();
    match diff {
        Some(d) => {
            push_str(&mut title, " Diff - ");
            push_summary(&mut title, d);
            push_zoom(&mut title, is_fullscreen);
            let visible = area_height.saturating_sub(2) as usize;
            let max_scroll = total_lines.saturating_sub(visible);
            let first = if scroll_offset < max_scroll {
                scroll_offset
            } else {
                max_scroll
            };
            if total_lines > 0 {
                push_str(&mut title, " [");
                push_decimal(&mut title, first as u64 + 1);
                push_str(&mut title, "/");
                push_decimal(&mut title, total_lines as u64);
                push_str(&mut title, "]");
            }
            push_str(&mut title, " ");
        },
        None => {
            push_str(&mut title, " Diff");
            push_zoom(&mut title, is_fullscreen);
            push_str(&mut title, " ");
        },
    }
    let ghost expected = unified_title_text(
        match diff {
            Some(d) => Some(*d),
            None => None,
        },
        total_lines as nat,
        scroll_offset as nat,
        area_height,
        false,
        is_fullscreen,
    );
    assert(title@ =~= expected);
    framed(title, is_focused)
}

/// The title of the side-by-side panel (see `side_by_side_title_text`).
pub fn side_by_side_title(
    diff: Option<&FileDiff>,
    is_focused: bool,
    is_fullscreen: bool,
    lang: Language,
) -> (res: String)
    ensures
        res@ == side_by_side_title_text(
            match diff {
                Some(d) => Some(*d),
                None => None,
            },
            is_focused,
            is_fullscreen,
            lang,
        ),
{
    let mut title = String::new();
    match lang {
        Language::Fr => push_str(&mut title, " Diff (cote a cote)"),
        Language::En => push_str(&mut title, " Diff (side-by-side)"),
    }
    match diff {
        Some(d) => {
            push_str(&mut title, " - ");
            push_summary(&mut title, d);
        },
        None => {},
    }
    push_zoom(&mut title, is_fullscreen);
    push_str(&mut title, " ");
    let ghost expected = side_by_side_title_text(
        match diff {
            Some(d) => Some(*d),
            None => None,
        },
        false,
        is_fullscreen,
        lang,
    );
    assert(title@ =~= expected);
    framed(title, is_focused)
}

} // verus!
