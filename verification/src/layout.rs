//! Screen layouts of the views: how the terminal is cut into bars and
//! panels. The cutting itself is ratatui's constraint solver.

use vstd::prelude::*;
use ratatui::layout::{Constraint as SolverConstraint, Direction as SolverDirection, Layout, Rect as SolverRect};
use crate::hit_test::{BranchesLayout, ProjectTreeLayout, Rect, StagingLayout};

verus! {

/// How one area of a split is sized.
#[derive(Debug, Clone, Copy, PartialEq, Eq, Structural)]
pub enum Constraint {
    /// Exactly this many cells.
    Length(u16),
    /// At least this many cells.
    Min(u16),
    /// This percentage of the area split.
    Percentage(u16),
}

/// Direction in which an area is cut.
#[derive(Debug, Clone, Copy, PartialEq, Eq, Structural)]
pub enum Direction {
    /// Areas stacked top to bottom.
    Vertical,
    /// Areas side by side, left to right.
    Horizontal,
}

/// Whether `r` lies inside `area`.
pub open spec fn within(r: Rect, area: Rect) -> bool {
    &&& area.x <= r.x
    &&& r.x + r.width <= area.x + area.width
    &&& area.y <= r.y
    &&& r.y + r.height <= area.y + area.height
}

/// Whether `r` is one of the areas a cut of `area` in `direction` gives: it
/// lies inside `area` and spans it across the cut (the whole width for a
/// vertical cut, the whole height for a horizontal one).
pub open spec fn split_part(r: Rect, area: Rect, direction: Direction) -> bool {
    &&& within(r, area)
    &&& match direction {
        Direction::Vertical => r.x == area.x && r.width == area.width,
        Direction::Horizontal => r.y == area.y && r.height == area.height,
    }
}

/// Where `r` starts along a cut in `direction`: its top for a vertical
/// cut, its left edge for a horizontal one.
pub open spec fn start_along(r: Rect, direction: Direction) -> int {
    match direction {
        Direction::Vertical => r.y as int,
        Direction::Horizontal => r.x as int,
    }
}

/// Where `r` ends along a cut in `direction`.
pub open spec fn end_along(r: Rect, direction: Direction) -> int {
    match direction {
        Direction::Vertical => r.y + r.height,
        Direction::Horizontal => r.x + r.width,
    }
}

/// Whether `areas` are `count` areas of a cut of `area` in `direction`:
/// each inside `area` and spanning it across the cut, the first starting
/// where `area` starts, and each ending before the next one starts.
pub open spec fn is_split(areas: Seq<Rect>, area: Rect, direction: Direction, count: nat) -> bool {
    &&& areas.len() == count
    &&& forall|i: int| 0 <= i < areas.len() ==> split_part(#[trigger] areas[i], area, direction)
    &&& areas.len() > 0 ==> start_along(areas[0], direction) == start_along(area, direction)
    &&& forall|i: int|
        0 <= i < areas.len() - 1 ==> end_along(#[trigger] areas[i], direction) <= start_along(
            areas[i + 1],
            direction,
        )
}

/// Splits an area with ratatui's `Layout::split` (no margin, the default
/// `Flex::Start`, no spacing): one area per constraint, each inside `area`
/// (the solver is required to keep every bound between the area's start
/// and end, and rounding keeps them there), each spanning `area` across the
/// cut (ratatui copies the area's position and size on that axis), in the
/// order of the constraints: the first starts at the area's start and each
/// ends before the next starts (the spacers around and between the areas
/// are held at zero by constraints stronger than any that sizes an area,
/// and rounding keeps the order). How long each area is, where several
/// layouts are equally good, is the solver's choice: cassowary walks hash
/// maps seeded per process, so two runs may differ, and that is left
/// unsaid.
#[verifier::external_body]
fn split(area: Rect, direction: Direction, constraints: Vec<Constraint>) -> (res: Vec<Rect>)
    ensures
        is_split(res@, area, direction, constraints@.len()),
{
    let direction = match direction {
        Direction::Vertical => SolverDirection::Vertical,
        Direction::Horizontal => SolverDirection::Horizontal,
    };
    let constraints = constraints.into_iter().map(|c| match c {
        Constraint::Length(n) => SolverConstraint::Length(n),
        Constraint::Min(n) => SolverConstraint::Min(n),
        Constraint::Percentage(p) => SolverConstraint::Percentage(p),
    });
    let area = SolverRect { x: area.x, y: area.y, width: area.width, height: area.height };
    let areas = Layout::default().direction(direction).constraints(constraints).split(area);
    areas.iter().map(|r| Rect { x: r.x, y: r.y, width: r.width, height: r.height }).collect()
}

/// Areas of the graph view.
#[derive(Debug, Clone, Copy, PartialEq, Eq, Structural)]
pub struct LayoutChunks {
    pub status_bar: Rect,
    pub nav_bar: Rect,
    pub graph: Rect,
    pub bottom_left: Rect,
    pub bottom_right: Rect,
    pub search_bar: Option<Rect>,
    pub help_bar: Rect,
}

/// What holds of the graph view's areas, whatever cells the solver gives:
/// the bars (and the search bar exactly while searching) and the graph span
/// the screen's width; the two bottom panels lie inside the screen side by
/// side, on the same rows.
pub open spec fn is_graph_layout(l: LayoutChunks, area: Rect, show_search: bool) -> bool {
    &&& split_part(l.status_bar, area, Direction::Vertical)
    &&& split_part(l.nav_bar, area, Direction::Vertical)
    &&& split_part(l.graph, area, Direction::Vertical)
    &&& split_part(l.help_bar, area, Direction::Vertical)
    &&& (l.search_bar is Some <==> show_search)
    &&& (l.search_bar matches Some(r) ==> split_part(r, area, Direction::Vertical))
    &&& within(l.bottom_left, area)
    &&& within(l.bottom_right, area)
    &&& l.bottom_left.y == l.bottom_right.y
    &&& l.bottom_left.height == l.bottom_right.height
}

/// Cuts the screen into the areas of the graph view: status bar,
/// navigation bar, content, search bar (three rows while searching, none
/// otherwise) and help bar; the content 60/40 between the graph and the
/// bottom panels, those half the width each (see `is_graph_layout`).
pub fn build_layout(area: Rect, show_search: bool) -> (res: LayoutChunks)
    ensures
        is_graph_layout(res, area, show_search),
        res.status_bar.y == area.y,
        res.status_bar.y + res.status_bar.height <= res.nav_bar.y,
        res.nav_bar.y + res.nav_bar.height <= res.graph.y,
        res.graph.y + res.graph.height <= res.bottom_left.y,
        res.bottom_left.y == res.bottom_right.y,
        res.bottom_left.x == area.x,
        res.bottom_left.x + res.bottom_left.width <= res.bottom_right.x,
        res.bottom_left.y + res.bottom_left.height <= res.help_bar.y,
        res.search_bar matches Some(r) ==> res.bottom_left.y + res.bottom_left.height <= r.y && r.y
            + r.height <= res.help_bar.y,
{
    let search_height: u16 = if show_search { 3 } else { 0 };
    let outer = split(area, Direction::Vertical, vec![
        Constraint::Length(1),
        Constraint::Length(1),
        Constraint::Min(0),
        Constraint::Length(search_height),
        Constraint::Length(1),
    ]);
    let main = split(outer[2], Direction::Vertical, vec![Constraint::Percentage(60), Constraint::Percentage(40)]);
    let bottom = split(main[1], Direction::Horizontal, vec![Constraint::Percentage(50), Constraint::Percentage(50)]);
    LayoutChunks {
        status_bar: outer[0],
        nav_bar: outer[1],
        graph: main[0],
        bottom_left: bottom[0],
        bottom_right: bottom[1],
        search_bar: if show_search { Some(outer[3]) } else { None },
        help_bar: outer[4],
    }
}

/// What holds of the staging view's areas, whatever cells the solver
/// gives: the bars and the commit message span the screen's width; the two
/// file lists lie inside it, one above the other, of the same columns; the
/// diff lies inside it.
pub open spec fn is_staging_layout(l: StagingLayout, area: Rect) -> bool {
    &&& split_part(l.status_bar, area, Direction::Vertical)
    &&& split_part(l.nav_bar, area, Direction::Vertical)
    &&& split_part(l.commit_message, area, Direction::Vertical)
    &&& split_part(l.help_bar, area, Direction::Vertical)
    &&& within(l.unstaged_panel, area)
    &&& within(l.staged_panel, area)
    &&& within(l.diff_panel, area)
    &&& l.unstaged_panel.x == l.staged_panel.x
    &&& l.unstaged_panel.width == l.staged_panel.width
}

/// Cuts the screen into the areas of the staging view: status bar, two
/// rows of navigation, content, three rows of commit message and two of
/// help; the content 40/60 between the file lists (unstaged above staged,
/// half each) and the diff (see `is_staging_layout`).
pub fn build_staging_layout(area: Rect) -> (res: StagingLayout)
    ensures
        is_staging_layout(res, area),
        res.status_bar.y == area.y,
        res.status_bar.y + res.status_bar.height <= res.nav_bar.y,
        res.nav_bar.y + res.nav_bar.height <= res.unstaged_panel.y,
        res.unstaged_panel.x == area.x,
        res.unstaged_panel.y + res.unstaged_panel.height <= res.staged_panel.y,
        res.unstaged_panel.x + res.unstaged_panel.width <= res.diff_panel.x,
        res.diff_panel.y == res.unstaged_panel.y,
        res.staged_panel.y + res.staged_panel.height <= res.commit_message.y,
        res.diff_panel.y + res.diff_panel.height <= res.commit_message.y,
        res.commit_message.y + res.commit_message.height <= res.help_bar.y,
{
    let outer = split(area, Direction::Vertical, vec![
        Constraint::Length(1),
        Constraint::Length(2),
        Constraint::Min(0),
        Constraint::Length(3),
        Constraint::Length(2),
    ]);
    let content = split(outer[2], Direction::Horizontal, vec![Constraint::Percentage(40), Constraint::Percentage(60)]);
    let lists = split(content[0], Direction::Vertical, vec![Constraint::Percentage(50), Constraint::Percentage(50)]);
    StagingLayout {
        status_bar: outer[0],
        nav_bar: outer[1],
        unstaged_panel: lists[0],
        staged_panel: lists[1],
        diff_panel: content[1],
        commit_message: outer[3],
        help_bar: outer[4],
    }
}

/// What holds of the branches view's areas, whatever cells the solver
/// gives: the bars and the tabs span the screen's width; the list and the
/// detail lie inside it side by side, on the same rows.
pub open spec fn is_branches_layout(l: BranchesLayout, area: Rect) -> bool {
    &&& split_part(l.status_bar, area, Direction::Vertical)
    &&& split_part(l.nav_bar, area, Direction::Vertical)
    &&& split_part(l.tabs, area, Direction::Vertical)
    &&& split_part(l.help_bar, area, Direction::Vertical)
    &&& within(l.list_panel, area)
    &&& within(l.detail_panel, area)
    &&& l.list_panel.y == l.detail_panel.y
    &&& l.list_panel.height == l.detail_panel.height
}

/// Cuts the screen into the areas of the branches view: status bar, two
/// rows of navigation, the section tabs, content and two rows of help; the
/// content 40/60 between the list and the detail (see
/// `is_branches_layout`).
pub fn build_branches_layout(area: Rect) -> (res: BranchesLayout)
    ensures
        is_branches_layout(res, area),
        res.status_bar.y == area.y,
        res.status_bar.y + res.status_bar.height <= res.nav_bar.y,
        res.nav_bar.y + res.nav_bar.height <= res.tabs.y,
        res.tabs.y + res.tabs.height <= res.list_panel.y,
        res.list_panel.x == area.x,
        res.list_panel.x + res.list_panel.width <= res.detail_panel.x,
        res.list_panel.y + res.list_panel.height <= res.help_bar.y,
{
    let outer = split(area, Direction::Vertical, vec![
        Constraint::Length(1),
        Constraint::Length(2),
        Constraint::Length(1),
        Constraint::Min(0),
        Constraint::Length(2),
    ]);
    let content = split(outer[3], Direction::Horizontal, vec![Constraint::Percentage(40), Constraint::Percentage(60)]);
    BranchesLayout {
        status_bar: outer[0],
        nav_bar: outer[1],
        tabs: outer[2],
        list_panel: content[0],
        detail_panel: content[1],
        help_bar: outer[4],
    }
}

/// What holds of the project tree view's areas, whatever cells the solver
/// gives: the bars (and the search bar exactly while searching) span the
/// screen's width; the panels lie inside it, the commit's files and its
/// diff side by side on the same rows.
pub open spec fn is_project_tree_layout(l: ProjectTreeLayout, area: Rect, search_active: bool) -> bool {
    &&& split_part(l.status_bar, area, Direction::Vertical)
    &&& split_part(l.nav_bar, area, Direction::Vertical)
    &&& split_part(l.help_bar, area, Direction::Vertical)
    &&& (l.search_bar is Some <==> search_active)
    &&& (l.search_bar matches Some(r) ==> split_part(r, area, Direction::Vertical))
    &&& within(l.tree_panel, area)
    &&& within(l.history_panel, area)
    &&& within(l.changed_files_panel, area)
    &&& within(l.diff_panel, area)
    &&& l.changed_files_panel.y == l.diff_panel.y
    &&& l.changed_files_panel.height == l.diff_panel.height
}

/// Cuts the screen into the areas of the project tree view: status bar,
/// two rows of navigation, the search bar (three rows while searching, none
/// otherwise), content and two rows of help; the content 34/66 between the
/// tree and the details, the details 38/62 between the path's history and
/// the commit, the commit 34/66 between its files and the diff (see
/// `is_project_tree_layout`).
pub fn build_project_tree_layout(area: Rect, search_active: bool) -> (res: ProjectTreeLayout)
    ensures
        is_project_tree_layout(res, area, search_active),
        res.status_bar.y == area.y,
        res.status_bar.y + res.status_bar.height <= res.nav_bar.y,
        res.nav_bar.y + res.nav_bar.height <= res.tree_panel.y,
        res.tree_panel.x == area.x,
        res.tree_panel.x + res.tree_panel.width <= res.history_panel.x,
        res.history_panel.y == res.tree_panel.y,
        res.history_panel.y + res.history_panel.height <= res.changed_files_panel.y,
        res.changed_files_panel.x == res.history_panel.x,
        res.changed_files_panel.x + res.changed_files_panel.width <= res.diff_panel.x,
        res.tree_panel.y + res.tree_panel.height <= res.help_bar.y,
        res.search_bar matches Some(r) ==> res.nav_bar.y + res.nav_bar.height <= r.y && r.y
            + r.height <= res.tree_panel.y,
{
    let search_height: u16 = if search_active { 3 } else { 0 };
    let outer = split(area, Direction::Vertical, vec![
        Constraint::Length(1),
        Constraint::Length(2),
        Constraint::Length(search_height),
        Constraint::Min(0),
        Constraint::Length(2),
    ]);
    let content = split(outer[3], Direction::Horizontal, vec![Constraint::Percentage(34), Constraint::Percentage(66)]);
    let details = split(content[1], Direction::Vertical, vec![Constraint::Percentage(38), Constraint::Percentage(62)]);
    let commit = split(details[1], Direction::Horizontal, vec![Constraint::Percentage(34), Constraint::Percentage(66)]);
    ProjectTreeLayout {
        status_bar: outer[0],
        nav_bar: outer[1],
        search_bar: if search_active { Some(outer[2]) } else { None },
        tree_panel: content[0],
        history_panel: details[0],
        changed_files_panel: commit[0],
        diff_panel: commit[1],
        help_bar: outer[4],
    }
}

/// A rectangle of `percent_x` percent of the width and `percent_y` percent
/// of the height of `area`, centered in it: the middle one of three rows,
/// then of three columns, the outer ones taking half the remaining
/// percentage each. The solver places it; it lies inside `area`.
pub fn centered_rect(percent_x: u16, percent_y: u16, area: Rect) -> (res: Rect)
    requires
        percent_x <= 100,
        percent_y <= 100,
    ensures
        within(res, area),
{
    let side_y = (100 - percent_y) / 2;
    let rows = split(area, Direction::Vertical, vec![
        Constraint::Percentage(side_y),
        Constraint::Percentage(percent_y),
        Constraint::Percentage(side_y),
    ]);
    let side_x = (100 - percent_x) / 2;
    let columns = split(rows[1], Direction::Horizontal, vec![
        Constraint::Percentage(side_x),
        Constraint::Percentage(percent_x),
        Constraint::Percentage(side_x),
    ]);
    assert(split_part(rows@[1], area, Direction::Vertical));
    assert(split_part(columns@[1], rows@[1], Direction::Horizontal));
    columns[1]
}

/// A rectangle of the given size (cut to the area's) centered in `area`,
/// the odd cell of leftover going right and down.
pub fn centered_rect_fixed(width: u16, height: u16, area: Rect) -> (res: Rect)
    requires
        area.x + area.width <= u16::MAX,
        area.y + area.height <= u16::MAX,
    ensures
        res.width == if width < area.width { width } else { area.width },
        res.height == if height < area.height { height } else { area.height },
        res.x == area.x + (area.width - res.width) / 2,
        res.y == area.y + (area.height - res.height) / 2,
        area.x <= res.x && res.x + res.width <= area.x + area.width,
        area.y <= res.y && res.y + res.height <= area.y + area.height,
        0 <= (area.x + area.width - (res.x + res.width)) - (res.x - area.x) <= 1,
        0 <= (area.y + area.height - (res.y + res.height)) - (res.y - area.y) <= 1,
{
    let width = if width < area.width { width } else { area.width };
    let height = if height < area.height { height } else { area.height };
    Rect::new(
        area.x + (area.width - width) / 2,
        area.y + (area.height - height) / 2,
        width,
        height,
    )
}

/// The area inside margins, as ratatui's `Rect::inner` computes it: the
/// empty area at the origin when the margins take more than the area,
/// otherwise the area shrunk by a margin on each side (positions and sizes
/// saturating at the bounds of `u16`).
pub open spec fn inner_area(r: Rect, horizontal: u16, vertical: u16) -> Rect {
    let dh = if 2 * horizontal > u16::MAX { u16::MAX as int } else { 2 * horizontal };
    let dv = if 2 * vertical > u16::MAX { u16::MAX as int } else { 2 * vertical };
    if r.width < dh || r.height < dv {
        Rect { x: 0, y: 0, width: 0, height: 0 }
    } else {
        Rect {
            x: if r.x + horizontal > u16::MAX { u16::MAX } else { (r.x + horizontal) as u16 },
            y: if r.y + vertical > u16::MAX { u16::MAX } else { (r.y + vertical) as u16 },
            width: (r.width - dh) as u16,
            height: (r.height - dv) as u16,
        }
    }
}

/// The area inside margins (see `inner_area`).
pub fn inner_rect(r: Rect, horizontal: u16, vertical: u16) -> (res: Rect)
    ensures
        res == inner_area(r, horizontal, vertical),
{
    let dh: u16 = if horizontal > 0x7fff { 0xffff } else { horizontal * 2 };
    let dv: u16 = if vertical > 0x7fff { 0xffff } else { vertical * 2 };
    if r.width < dh || r.height < dv {
        Rect { x: 0, y: 0, width: 0, height: 0 }
    } else {
        Rect {
            x: r.x.saturating_add(horizontal),
            y: r.y.saturating_add(vertical),
            width: r.width - dh,
            height: r.height - dv,
        }
    }
}

/// The areas of a popup of the given constraints stacked top to bottom.
pub fn stacked_areas(area: Rect, heights: Vec<Constraint>) -> (res: Vec<Rect>)
    ensures
        is_split(res@, area, Direction::Vertical, heights@.len()),
{
    split(area, Direction::Vertical, heights)
}


} // verus!
