//! The branch popup of the graph view: the local branches, HEAD marked.

use vstd::prelude::*;
use crate::branches_view::BranchInfo;
use crate::diff_view::lines_view;
use crate::hit_test::Rect;
use crate::lines::{push_line, push_seg, seg, text_seg};
use crate::strings::{decimal, push_decimal, push_str};
use crate::style::{Segment, SegmentStyle, SegmentView, ThemeColor, segments_view};

verus! {

/// Style of a branch's line: HEAD bold in the success color, the selected
/// one highlighted, the others plain text.
pub open spec fn branch_style(is_head: bool, is_selected: bool) -> SegmentStyle {
    if is_head {
        SegmentStyle { fg: Some(ThemeColor::Success), bg: None, bold: true, dim: false, italic: false, underline: false }
    } else if is_selected {
        SegmentStyle { fg: Some(ThemeColor::SelectionFg), bg: Some(ThemeColor::SelectionBg), bold: true, dim: false, italic: false, underline: false }
    } else {
        SegmentStyle::fg_spec(ThemeColor::TextNormal)
    }
}

/// The line of a branch: "* " before HEAD, two spaces otherwise, then its
/// name.
pub open spec fn branch_line(b: BranchInfo, is_selected: bool) -> Seq<SegmentView> {
    seq![
        seg(if b.is_head { "* "@ } else { "  "@ }, branch_style(b.is_head, is_selected)),
        seg(b.name@, branch_style(b.is_head, is_selected)),
    ]
}

/// The line of a branch (see `branch_line`).
pub fn build_branch_line(branch: &BranchInfo, is_selected: bool) -> (res: Vec<Segment>)
    ensures
        segments_view(res@) == branch_line(*branch, is_selected),
{
    let style = if branch.is_head {
        SegmentStyle { fg: Some(ThemeColor::Success), bg: None, bold: true, dim: false, italic: false, underline: false }
    } else if is_selected {
        SegmentStyle { fg: Some(ThemeColor::SelectionFg), bg: Some(ThemeColor::SelectionBg), bold: true, dim: false, italic: false, underline: false }
    } else {
        SegmentStyle::fg(ThemeColor::TextNormal)
    };
    let mut line: Vec<Segment> = Vec::new();
    push_seg(&mut line, text_seg(if branch.is_head { "* " } else { "  " }, style));
    push_seg(&mut line, Segment { text: branch.name.clone(), style });
    assert(segments_view(line@) =~= branch_line(*branch, is_selected));
    line
}

/// The lines of the popup, the one at `selected` highlighted.
pub fn branch_panel_items(branches: &Vec<BranchInfo>, selected: usize) -> (res: Vec<Vec<Segment>>)
    ensures
        lines_view(res@) == Seq::new(branches@.len(), |i: int| branch_line(branches@[i], i == selected)),
{
    let ghost want = Seq::new(branches@.len(), |i: int| branch_line(branches@[i], i == selected));
    let mut lines: Vec<Vec<Segment>> = Vec::new();
    let mut i: usize = 0;
    while i < branches.len()
        invariant
            i <= branches@.len(),
            want == Seq::new(branches@.len(), |k: int| branch_line(branches@[k], k == selected)),
            lines_view(lines@) == want.take(i as int),
        decreases branches@.len() - i,
    {
        push_line(&mut lines, build_branch_line(&branches[i], i == selected));
        assert(want.take(i + 1) =~= want.take(i as int).push(want[i as int]));
        i = i + 1;
    }
    assert(want.take(i as int) =~= want);
    lines
}

/// Title of the popup: the number of branches.
pub fn branch_panel_title(count: usize) -> (res: String)
    ensures
        res@ == " Branches ("@ + decimal(count as nat) + ") "@,
{
    let mut s = String::new();
    push_str(&mut s, " Branches (");
    push_decimal(&mut s, count as u64);
    push_str(&mut s, ") ");
    s
}

/// The keys of the popup.
pub const BRANCH_PANEL_HELP: &'static str = "Enter:checkout  n:new  d:delete  Esc/b:close";

/// Where the keys are shown: the last row inside the popup's frame.
pub fn branch_panel_help_area(popup: Rect) -> (res: Rect)
    requires
        popup.x + 1 <= u16::MAX,
        popup.y + popup.height <= u16::MAX,
    ensures
        res.x == popup.x + 1,
        res.y == popup.y + (if popup.height >= 2 { popup.height - 2 } else { 0 }),
        res.width == (if popup.width >= 2 { popup.width - 2 } else { 0 }),
        res.height == 1,
{
    Rect {
        x: popup.x + 1,
        y: popup.y + (if popup.height >= 2 { popup.height - 2 } else { 0 }),
        width: if popup.width >= 2 { popup.width - 2 } else { 0 },
        height: 1,
    }
}

} // verus!
