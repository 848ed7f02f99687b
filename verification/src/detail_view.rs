//! The detail panel of the selected commit: kind, hash, author, date,
//! references, branch, parents, then the message.

use vstd::prelude::*;
use crate::commit_line::{full_hash, hex_text, short_hash, short_hash_text};
use crate::diff_view::lines_view;
use crate::graph::{CommitNode, GraphRow, Oid, RefInfo};
use crate::keybindings::joined;
use crate::lines::{push_line, push_seg, seg, text_seg};
use crate::strings::{push_char, push_str, split_lines, strings_view, text_lines};
use crate::style::{Segment, SegmentStyle, SegmentView, ThemeColor, sat_sub, segments_view};
use crate::time::{format_absolute_time, is_date_time_text, is_local_date_time_of, utc_instant_representable};
use crate::input::state::FocusPanel;

verus! {

/// Title of the panel's frame.
pub const DETAIL_TITLE: &'static str = " Détail ";

/// Bold text in a color.
pub open spec fn bold_fg(c: ThemeColor) -> SegmentStyle {
    SegmentStyle { fg: Some(c), bg: None, bold: true, dim: false, italic: false, underline: false }
}

/// The kind of a commit by its number of parents: a merge has several, the
/// initial commit none.
pub open spec fn commit_kind(parent_count: nat) -> SegmentView {
    if parent_count > 1 {
        seg("⊕ Merge"@, bold_fg(ThemeColor::Info))
    } else if parent_count == 0 {
        seg("◆ Initial"@, bold_fg(ThemeColor::Success))
    } else {
        seg("● Commit"@, bold_fg(ThemeColor::TextSecondary))
    }
}

/// A "Label: value" line: the label bold in the secondary text color, the
/// value in its own color.
pub open spec fn detail_field(label: Seq<char>, value: Seq<char>, color: ThemeColor) -> Seq<SegmentView> {
    seq![seg(label, bold_fg(ThemeColor::TextSecondary)), seg(value, SegmentStyle::fg_spec(color))]
}

/// The names of references, comma separated.
pub open spec fn refs_text(refs: Seq<RefInfo>) -> Seq<char> {
    joined(refs.map_values(|r: RefInfo| r.name@), ", "@)
}

/// The short hashes of parents, comma separated.
pub open spec fn parents_text(parents: Seq<Oid>) -> Seq<char> {
    joined(parents.map_values(|p: Oid| short_hash_text(p)), ", "@)
}

/// A rule of `n` box-drawing characters.
pub open spec fn rule(n: nat) -> Seq<char> {
    Seq::new(n, |_i: int| '─')
}

/// The lines of the detail of a commit, its date given as text, in a panel
/// `area_width` columns wide: the rule between the fields and the message
/// spans the width inside the frame.
pub open spec fn detail_lines(node: CommitNode, date: Seq<char>, area_width: u16) -> Seq<Seq<SegmentView>> {
    seq![
        seq![commit_kind(node.parents@.len())],
        detail_field("Commit:  "@, hex_text(node.oid.bytes@), ThemeColor::CommitHash),
        detail_field("Auteur:  "@, node.author@, ThemeColor::TextNormal),
        detail_field("Date:    "@, date, ThemeColor::TextNormal),
    ] + (if node.refs@.len() > 0 {
        seq![detail_field("Refs:    "@, refs_text(node.refs@), ThemeColor::Primary)]
    } else {
        Seq::empty()
    }) + (match node.branch_name {
        Some(b) => seq![detail_field("Branche: "@, b@, ThemeColor::Success)],
        None => Seq::empty(),
    }) + (if node.parents@.len() > 0 {
        seq![detail_field("Parents: "@, parents_text(node.parents@), ThemeColor::TextSecondary)]
    } else {
        Seq::empty()
    }) + seq![seq![seg(rule(sat_sub(area_width as int, 2) as nat), SegmentStyle::fg_spec(ThemeColor::BorderInactive))]]
        + text_lines(node.message@).map_values(|l: Seq<char>| seq![seg(l, SegmentStyle::fg_spec(ThemeColor::TextNormal))])
}

/// What the panel shows when no commit is selected.
pub open spec fn no_selection_lines() -> Seq<Seq<SegmentView>> {
    seq![seq![seg("Aucun commit sélectionné"@, SegmentStyle::fg_spec(ThemeColor::TextSecondary))]]
}

fn bold_fg_style(c: ThemeColor) -> (res: SegmentStyle)
    ensures
        res == bold_fg(c),
{
    SegmentStyle { fg: Some(c), bg: None, bold: true, dim: false, italic: false, underline: false }
}

fn push_field(lines: &mut Vec<Vec<Segment>>, label: &str, value: String, color: ThemeColor)
    ensures
        lines_view(final(lines)@) == lines_view(old(lines)@).push(detail_field(label@, value@, color)),
{
    let mut line: Vec<Segment> = Vec::new();
    push_seg(&mut line, text_seg(label, bold_fg_style(ThemeColor::TextSecondary)));
    push_seg(&mut line, Segment { text: value, style: SegmentStyle::fg(color) });
    assert(segments_view(line@) =~= detail_field(label@, value@, color));
    push_line(lines, line);
}

/// The names of references, comma separated (see `refs_text`).
fn join_ref_names(refs: &Vec<RefInfo>) -> (res: String)
    ensures
        res@ == refs_text(refs@),
{
    let ghost names = refs@.map_values(|r: RefInfo| r.name@);
    let mut s = String::new();
    let mut i: usize = 0;
    while i < refs.len()
        invariant
            i <= refs@.len(),
            names == refs@.map_values(|r: RefInfo| r.name@),
            s@ == joined(names.take(i as int), ", "@),
        decreases refs@.len() - i,
    {
        if i > 0 {
            push_str(&mut s, ", ");
        }
        push_str(&mut s, refs[i].name.as_str());
        proof {
            let next = names.take(i + 1);
            assert(next.drop_last() =~= names.take(i as int));
            if i == 0 {
                assert(next.len() == 1);
            }
        }
        i = i + 1;
    }
    assert(names.take(i as int) =~= names);
    s
}

/// The short hashes of parents, comma separated (see `parents_text`).
fn join_parent_hashes(parents: &Vec<Oid>) -> (res: String)
    ensures
        res@ == parents_text(parents@),
{
    let ghost hashes = parents@.map_values(|p: Oid| short_hash_text(p));
    let mut s = String::new();
    let mut i: usize = 0;
    while i < parents.len()
        invariant
            i <= parents@.len(),
            hashes == parents@.map_values(|p: Oid| short_hash_text(p)),
            s@ == joined(hashes.take(i as int), ", "@),
        decreases parents@.len() - i,
    {
        if i > 0 {
            push_str(&mut s, ", ");
        }
        let h = short_hash(&parents[i]);
        push_str(&mut s, h.as_str());
        proof {
            let next = hashes.take(i + 1);
            assert(next.drop_last() =~= hashes.take(i as int));
            if i == 0 {
                assert(next.len() == 1);
            }
        }
        i = i + 1;
    }
    assert(hashes.take(i as int) =~= hashes);
    s
}

/// The lines of the detail of a commit (see `detail_lines`).
pub fn build_detail_lines(node: &CommitNode, date: &str, area_width: u16) -> (res: Vec<Vec<Segment>>)
    ensures
        lines_view(res@) == detail_lines(*node, date@, area_width),
{
    let mut lines: Vec<Vec<Segment>> = Vec::new();
    let parent_count = node.parents.len();
    let kind = if parent_count > 1 {
        text_seg("⊕ Merge", bold_fg_style(ThemeColor::Info))
    } else if parent_count == 0 {
        text_seg("◆ Initial", bold_fg_style(ThemeColor::Success))
    } else {
        text_seg("● Commit", bold_fg_style(ThemeColor::TextSecondary))
    };
    let mut first: Vec<Segment> = Vec::new();
    push_seg(&mut first, kind);
    assert(segments_view(first@) =~= seq![commit_kind(node.parents@.len())]);
    push_line(&mut lines, first);
    push_field(&mut lines, "Commit:  ", full_hash(&node.oid), ThemeColor::CommitHash);
    push_field(&mut lines, "Auteur:  ", node.author.clone(), ThemeColor::TextNormal);
    push_field(&mut lines, "Date:    ", date.to_owned(), ThemeColor::TextNormal);
    let ghost head = lines_view(lines@);
    assert(head =~= seq![
        seq![commit_kind(node.parents@.len())],
        detail_field("Commit:  "@, hex_text(node.oid.bytes@), ThemeColor::CommitHash),
        detail_field("Auteur:  "@, node.author@, ThemeColor::TextNormal),
        detail_field("Date:    "@, date@, ThemeColor::TextNormal),
    ]);
    if node.refs.len() > 0 {
        push_field(&mut lines, "Refs:    ", join_ref_names(&node.refs), ThemeColor::Primary);
    }
    let ghost with_refs = lines_view(lines@);
    assert(with_refs =~= head + (if node.refs@.len() > 0 {
        seq![detail_field("Refs:    "@, refs_text(node.refs@), ThemeColor::Primary)]
    } else {
        Seq::empty()
    }));
    match &node.branch_name {
        Some(b) => push_field(&mut lines, "Branche: ", b.clone(), ThemeColor::Success),
        None => {},
    }
    let ghost with_branch = lines_view(lines@);
    assert(with_branch =~= with_refs + (match node.branch_name {
        Some(b) => seq![detail_field("Branche: "@, b@, ThemeColor::Success)],
        None => Seq::empty(),
    }));
    if parent_count > 0 {
        push_field(&mut lines, "Parents: ", join_parent_hashes(&node.parents), ThemeColor::TextSecondary);
    }
    let ghost with_parents = lines_view(lines@);
    assert(with_parents =~= with_branch + (if node.parents@.len() > 0 {
        seq![detail_field("Parents: "@, parents_text(node.parents@), ThemeColor::TextSecondary)]
    } else {
        Seq::empty()
    }));
    let width = area_width.saturating_sub(2);
    let mut bar = String::new();
    let mut i: u16 = 0;
    while i < width
        invariant
            i <= width,
            bar@ == rule(i as nat),
        decreases width - i,
    {
        push_char(&mut bar, '─');
        i = i + 1;
        assert(bar@ =~= rule(i as nat));
    }
    let mut sep: Vec<Segment> = Vec::new();
    push_seg(&mut sep, Segment { text: bar, style: SegmentStyle::fg(ThemeColor::BorderInactive) });
    assert(segments_view(sep@) =~= seq![seg(rule(sat_sub(area_width as int, 2) as nat), SegmentStyle::fg_spec(ThemeColor::BorderInactive))]);
    push_line(&mut lines, sep);
    let ghost with_rule = lines_view(lines@);
    let message_lines = split_lines(node.message.as_str());
    let ghost msg = text_lines(node.message@);
    let ghost msg_lines = msg.map_values(|l: Seq<char>| seq![seg(l, SegmentStyle::fg_spec(ThemeColor::TextNormal))]);
    let mut k: usize = 0;
    while k < message_lines.len()
        invariant
            k <= message_lines@.len(),
            strings_view(message_lines@) == msg,
            msg_lines == msg.map_values(|l: Seq<char>| seq![seg(l, SegmentStyle::fg_spec(ThemeColor::TextNormal))]),
            lines_view(lines@) == with_rule + msg_lines.take(k as int),
        decreases message_lines@.len() - k,
    {
        let mut line: Vec<Segment> = Vec::new();
        push_seg(&mut line, Segment { text: message_lines[k].clone(), style: SegmentStyle::fg(ThemeColor::TextNormal) });
        assert(message_lines@[k as int]@ == msg[k as int]);
        assert(segments_view(line@) =~= msg_lines[k as int]);
        push_line(&mut lines, line);
        assert(msg_lines.take(k + 1) =~= msg_lines.take(k as int).push(msg_lines[k as int]));
        k = k + 1;
    }
    assert(msg_lines.take(k as int) =~= msg_lines);
    assert(lines_view(lines@) =~= detail_lines(*node, date@, area_width));
    lines
}

/// The content of the detail panel for the commit at `selected_index` of
/// the graph, its date shown in the local time zone; when no commit is
/// there, a notice. The date is the commit timestamp's date and time in the
/// machine's time zone (see `format_absolute_time`), laid out as
/// "YYYY-MM-DD HH:MM:SS".
pub fn detail_content(graph: &Vec<GraphRow>, selected_index: usize, area_width: u16) -> (res: Vec<Vec<Segment>>)
    ensures
        selected_index < graph@.len() ==> exists|date: Seq<char>|
            #![trigger is_date_time_text(date)]
            {
                let timestamp = graph@[selected_index as int].node.timestamp;
                &&& is_date_time_text(date)
                &&& utc_instant_representable(timestamp, 0) ==> is_local_date_time_of(date, timestamp)
                &&& lines_view(res@) == detail_lines(graph@[selected_index as int].node, date, area_width)
            },
        selected_index >= graph@.len() ==> lines_view(res@) == no_selection_lines(),
{
    if selected_index < graph.len() {
        let node = &graph[selected_index].node;
        let date = format_absolute_time(node.timestamp);
        build_detail_lines(node, date.as_str(), area_width)
    } else {
        let mut lines: Vec<Vec<Segment>> = Vec::new();
        let mut line: Vec<Segment> = Vec::new();
        push_seg(&mut line, text_seg("Aucun commit sélectionné", SegmentStyle::fg(ThemeColor::TextSecondary)));
        assert(segments_view(line@) =~= no_selection_lines()[0]);
        push_line(&mut lines, line);
        assert(lines_view(lines@) =~= no_selection_lines());
        lines
    }
}

/// Border color of the panel: the active one when it has the focus.
pub fn detail_border_color(is_focused: bool) -> (res: ThemeColor)
    ensures
        res == (if is_focused { ThemeColor::BorderActive } else { ThemeColor::BorderInactive }),
{
    if is_focused {
        ThemeColor::BorderActive
    } else {
        ThemeColor::BorderInactive
    }
}

/// What the bottom right area of the graph view shows.
#[derive(Debug, Clone, Copy, PartialEq, Eq, Structural)]
pub enum BottomRightPanel {
    /// The diff of the selected file over the whole content area.
    FullscreenDiff,
    /// The diff of the selected file.
    Diff,
    /// The detail of the selected commit.
    Detail,
}

/// What the bottom right area shows: the diff in full screen when
/// requested, the diff while a bottom panel has the focus, the commit's
/// detail otherwise.
pub fn bottom_right_panel(diff_fullscreen: bool, focus: FocusPanel) -> (res: BottomRightPanel)
    ensures
        res == (if diff_fullscreen {
            BottomRightPanel::FullscreenDiff
        } else if focus == FocusPanel::BottomLeft || focus == FocusPanel::BottomRight {
            BottomRightPanel::Diff
        } else {
            BottomRightPanel::Detail
        }),
{
    if diff_fullscreen {
        BottomRightPanel::FullscreenDiff
    } else {
        match focus {
            FocusPanel::BottomLeft | FocusPanel::BottomRight => BottomRightPanel::Diff,
            FocusPanel::Graph => BottomRightPanel::Detail,
        }
    }
}

} // verus!
