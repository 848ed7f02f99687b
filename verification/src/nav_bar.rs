//! The navigation bar: the tabs of the views, the active one highlighted,
//! and the conflicts tab while conflicts are unresolved.

use vstd::prelude::*;
use crate::i18n::{Language, pick, text};
use crate::input::action::ViewMode;
use crate::lines::{push_seg, seg, text_seg};
use crate::strings::{decimal, push_decimal, push_str};
use crate::style::{Segment, SegmentStyle, SegmentView, ThemeColor, segments_view};

verus! {

/// Style of a tab: highlighted when active, secondary otherwise.
pub open spec fn tab_style(active: bool) -> SegmentStyle {
    if active {
        SegmentStyle {
            fg: Some(ThemeColor::SelectionFg),
            bg: Some(ThemeColor::SelectionBg),
            bold: true,
            dim: false,
            italic: false,
            underline: false,
        }
    } else {
        SegmentStyle::fg_spec(ThemeColor::TextSecondary)
    }
}

/// A tab: its key between spaces, its label, and a separator.
pub open spec fn tab_segments(key: Seq<char>, label: Seq<char>, active: bool) -> Seq<SegmentView> {
    seq![
        seg(" "@ + key + " "@, tab_style(active)),
        seg(label + " "@, tab_style(active)),
        seg("│"@, SegmentStyle::fg_spec(ThemeColor::BorderInactive)),
    ]
}

/// Style of the conflicts tab: on the error color when active, in it
/// otherwise.
pub open spec fn conflicts_tab_style(active: bool) -> SegmentStyle {
    if active {
        SegmentStyle {
            fg: Some(ThemeColor::SelectionFg),
            bg: Some(ThemeColor::Error),
            bold: true,
            dim: false,
            italic: false,
            underline: false,
        }
    } else {
        SegmentStyle::fg_spec(ThemeColor::Error)
    }
}

/// The navigation bar: a space, the four view tabs, then the conflicts tab
/// with their number when there are unresolved conflicts; without it the
/// last separator is dropped.
pub open spec fn nav_line(current: ViewMode, unresolved_conflicts: nat, lang: Language) -> Seq<SegmentView> {
    let tabs = seq![seg(" "@, SegmentStyle::plain_spec())]
        + tab_segments("1"@, pick(lang, "Graphe"@, "Graph"@), current == ViewMode::Graph)
        + tab_segments("2"@, "Staging"@, current == ViewMode::Staging)
        + tab_segments("3"@, "Branches"@, current == ViewMode::Branches)
        + tab_segments("4"@, pick(lang, "Arbre"@, "Tree"@), current == ViewMode::ProjectTree);
    if unresolved_conflicts > 0 {
        let style = conflicts_tab_style(current == ViewMode::Conflicts);
        tabs + seq![
            seg(" 5 "@, style),
            seg(pick(lang, "Conflits ("@, "Conflicts ("@) + decimal(unresolved_conflicts) + ") "@, style),
        ]
    } else {
        tabs.drop_last()
    }
}

fn tab_style_of(active: bool) -> (res: SegmentStyle)
    ensures
        res == tab_style(active),
{
    if active {
        SegmentStyle {
            fg: Some(ThemeColor::SelectionFg),
            bg: Some(ThemeColor::SelectionBg),
            bold: true,
            dim: false,
            italic: false,
            underline: false,
        }
    } else {
        SegmentStyle::fg(ThemeColor::TextSecondary)
    }
}

fn push_tab(line: &mut Vec<Segment>, key: &str, label: &str, active: bool)
    ensures
        segments_view(final(line)@) == segments_view(old(line)@) + tab_segments(key@, label@, active),
{
    let style = tab_style_of(active);
    let mut k = String::new();
    push_str(&mut k, " ");
    push_str(&mut k, key);
    push_str(&mut k, " ");
    push_seg(line, Segment { text: k, style });
    let mut l = String::new();
    push_str(&mut l, label);
    push_str(&mut l, " ");
    push_seg(line, Segment { text: l, style });
    push_seg(line, text_seg("│", SegmentStyle::fg(ThemeColor::BorderInactive)));
    assert(segments_view(line@) =~= segments_view(old(line)@) + tab_segments(key@, label@, active));
}

/// The navigation bar (see `nav_line`).
pub fn nav_bar_line(current: ViewMode, unresolved_conflicts: usize, lang: Language) -> (res: Vec<Segment>)
    ensures
        segments_view(res@) == nav_line(current, unresolved_conflicts as nat, lang),
{
    let mut line: Vec<Segment> = Vec::new();
    push_seg(&mut line, text_seg(" ", SegmentStyle::plain()));
    push_tab(&mut line, "1", text(lang, "Graphe", "Graph"), current == ViewMode::Graph);
    push_tab(&mut line, "2", "Staging", current == ViewMode::Staging);
    push_tab(&mut line, "3", "Branches", current == ViewMode::Branches);
    push_tab(&mut line, "4", text(lang, "Arbre", "Tree"), current == ViewMode::ProjectTree);
    let ghost tabs = segments_view(line@);
    if unresolved_conflicts > 0 {
        let active = current == ViewMode::Conflicts;
        let style = if active {
            SegmentStyle {
                fg: Some(ThemeColor::SelectionFg),
                bg: Some(ThemeColor::Error),
                bold: true,
                dim: false,
                italic: false,
                underline: false,
            }
        } else {
            SegmentStyle::fg(ThemeColor::Error)
        };
        push_seg(&mut line, text_seg(" 5 ", style));
        let mut label = String::new();
        push_str(&mut label, text(lang, "Conflits (", "Conflicts ("));
        push_decimal(&mut label, unresolved_conflicts as u64);
        push_str(&mut label, ") ");
        push_seg(&mut line, Segment { text: label, style });
    } else {
        let _ = line.pop();
        assert(segments_view(line@) =~= tabs.drop_last());
    }
    assert(segments_view(line@) =~= nav_line(current, unresolved_conflicts as nat, lang));
    line
}

} // verus!
