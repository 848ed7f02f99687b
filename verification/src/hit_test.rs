//! Hit-testing for mouse navigation: which zone of the screen a position
//! falls in, and which list entry or navigation tab it designates.

use vstd::prelude::*;
use crate::i18n::{text, Language};
use crate::input::action::ViewMode;

verus! {

/// A rectangle of terminal cells.
#[derive(Debug, Clone, Copy, PartialEq, Eq, Structural)]
pub struct Rect {
    pub x: u16,
    pub y: u16,
    pub width: u16,
    pub height: u16,
}

impl Rect {
    /// A rectangle from its corner and size.
    pub fn new(x: u16, y: u16, width: u16, height: u16) -> (res: Self)
        ensures
            res == (Rect { x, y, width, height }),
    {
        Rect { x, y, width, height }
    }

    /// The empty rectangle at the origin.
    pub fn zero() -> (res: Self)
        ensures
            res == (Rect { x: 0, y: 0, width: 0, height: 0 }),
    {
        Rect { x: 0, y: 0, width: 0, height: 0 }
    }

    /// Whether the cell (x, y) lies in the rectangle.
    pub open spec fn contains(self, x: int, y: int) -> bool {
        self.x <= x < self.x + self.width && self.y <= y < self.y + self.height
    }
}

/// Whether a point lies in a rectangle.
pub fn point_in_rect(x: u16, y: u16, rect: Rect) -> (res: bool)
    ensures
        res == rect.contains(x as int, y as int),
{
    let x_end = rect.x as u32 + rect.width as u32;
    let y_end = rect.y as u32 + rect.height as u32;
    x >= rect.x && (x as u32) < x_end && y >= rect.y && (y as u32) < y_end
}

/// Zone of the interface that a mouse position designates.
#[derive(Debug, Clone, Copy, PartialEq, Eq, Structural)]
pub enum ClickableZone {
    /// Navigation tabs.
    NavBar,
    /// Commit graph.
    Graph,
    /// Bottom-left panel (files, status).
    BottomLeft,
    /// Bottom-right panel (detail, diff).
    BottomRight,
    /// Search bar.
    SearchBar,
    /// Help bar.
    HelpBar,
    /// Status bar.
    StatusBar,
    /// A modal popup (merge picker, reset picker, confirmation, filter).
    Modal,
    /// Outside every interactive element.
    Outside,
}

/// Result of a hit test: the zone, the position relative to it, its area.
#[derive(Debug, Clone, Copy, PartialEq, Eq, Structural)]
pub struct HitTestResult {
    pub zone: ClickableZone,
    pub relative_x: u16,
    pub relative_y: u16,
    pub rect: Rect,
}

/// Index of the commit that a click at `relative_y` in the graph designates:
/// each commit takes two lines (commit and connection), the list being
/// scrolled by `visible_offset` commits.
pub open spec fn commit_index_at(graph_height: nat, visible_offset: nat, relative_y: nat) -> Option<
    nat,
> {
    let index = visible_offset + relative_y / 2;
    if index < graph_height {
        Some(index)
    } else {
        None
    }
}

/// Computes the index of the commit under a click in the graph, if any.
pub fn calculate_commit_index(graph_height: usize, visible_offset: usize, relative_y: u16) -> (res:
    Option<usize>)
    requires
        visible_offset + relative_y / 2 <= usize::MAX,
    ensures
        res matches Some(i) ==> commit_index_at(
            graph_height as nat,
            visible_offset as nat,
            relative_y as nat,
        ) == Some(i as nat),
        res is None ==> commit_index_at(graph_height as nat, visible_offset as nat, relative_y as nat)
            is None,
{
    let line_index = relative_y / 2;
    let commit_index = visible_offset + line_index as usize;
    if commit_index < graph_height {
        Some(commit_index)
    } else {
        None
    }
}

/// Computes the index of the file under a click in a file list (one line per
/// file), if any.
pub fn calculate_file_index(file_count: usize, relative_y: u16) -> (res: Option<usize>)
    ensures
        res == (if (relative_y as usize) < file_count { Some(relative_y as usize) } else { None }),
{
    let index = relative_y as usize;
    if index < file_count {
        Some(index)
    } else {
        None
    }
}

/// Number of characters of the label of navigation tab `i`.
pub open spec fn nav_label_len(lang: Language, i: int) -> int {
    match lang {
        Language::Fr => if i == 0 { 6 } else if i == 1 { 7 } else if i == 2 { 8 } else { 5 },
        Language::En => if i == 0 { 5 } else if i == 1 { 7 } else if i == 2 { 8 } else { 4 },
    }
}

/// Width of navigation tab `i`: its label framed by a number and spacing.
pub open spec fn nav_tab_width(lang: Language, i: int) -> int {
    3 + nav_label_len(lang, i) + 2
}

/// Column where navigation tab `i` starts (the bar has a one-cell margin).
pub open spec fn nav_tab_start(lang: Language, i: int) -> int
    decreases i,
{
    if i <= 0 {
        1
    } else {
        nav_tab_start(lang, i - 1) + nav_tab_width(lang, i - 1)
    }
}

/// Whether column `x` lies in navigation tab `i`.
pub open spec fn in_nav_tab(lang: Language, x: int, i: int) -> bool {
    nav_tab_start(lang, i) <= x < nav_tab_start(lang, i + 1)
}

/// The view whose tab lies under column `x` of the navigation bar.
pub open spec fn nav_tab_at(lang: Language, x: int, unresolved_conflicts: nat) -> Option<ViewMode> {
    if in_nav_tab(lang, x, 0) {
        Some(ViewMode::Graph)
    } else if in_nav_tab(lang, x, 1) {
        Some(ViewMode::Staging)
    } else if in_nav_tab(lang, x, 2) {
        Some(ViewMode::Branches)
    } else if in_nav_tab(lang, x, 3) {
        Some(ViewMode::ProjectTree)
    } else if unresolved_conflicts > 0 && x >= nav_tab_start(lang, 4) {
        Some(ViewMode::Conflicts)
    } else {
        None
    }
}

fn nav_tab_label(lang: Language, i: usize) -> (res: &'static str)
    requires
        i < 4,
    ensures
        res@.len() == nav_label_len(lang, i as int),
{
    proof {
        reveal_strlit("Graphe");
        reveal_strlit("Graph");
        reveal_strlit("Staging");
        reveal_strlit("Branches");
        reveal_strlit("Arbre");
        reveal_strlit("Tree");
    }
    if i == 0 {
        text(lang, "Graphe", "Graph")
    } else if i == 1 {
        text(lang, "Staging", "Staging")
    } else if i == 2 {
        text(lang, "Branches", "Branches")
    } else {
        text(lang, "Arbre", "Tree")
    }
}

/// Determines which navigation tab a click at column `relative_x` of the
/// navigation bar selects; the conflicts tab follows the four main tabs
/// while conflicts remain unresolved.
pub fn calculate_nav_tab(relative_x: u16, unresolved_conflicts: usize, lang: Language) -> (res:
    Option<ViewMode>)
    ensures
        res == nav_tab_at(lang, relative_x as int, unresolved_conflicts as nat),
{
    let x = relative_x as usize;
    let mut offset: usize = 1;
    let mut i: usize = 0;
    while i < 4
        invariant
            i <= 4,
            x == relative_x as usize,
            offset == nav_tab_start(lang, i as int),
            offset <= 1 + 13 * i,
            forall|k: int| 0 <= k < i ==> !in_nav_tab(lang, x as int, k),
        decreases 4 - i,
    {
        let label = nav_tab_label(lang, i);
        let width = 3 + label.unicode_len() + 2;
        assert(nav_tab_start(lang, i as int + 1) == offset + width);
        if x >= offset && x < offset + width {
            let view = if i == 0 {
                ViewMode::Graph
            } else if i == 1 {
                ViewMode::Staging
            } else if i == 2 {
                ViewMode::Branches
            } else {
                ViewMode::ProjectTree
            };
            proof {
                assert(in_nav_tab(lang, x as int, i as int));
                if i >= 1 {
                    assert(!in_nav_tab(lang, x as int, 0));
                }
                if i >= 2 {
                    assert(!in_nav_tab(lang, x as int, 1));
                }
                if i >= 3 {
                    assert(!in_nav_tab(lang, x as int, 2));
                }
            }
            return Some(view);
        }
        offset = offset + width;
        i = i + 1;
    }
    if unresolved_conflicts > 0 && x >= offset {
        Some(ViewMode::Conflicts)
    } else {
        None
    }
}

/// Zone and area that a hit test reports for a position inside `rect`.
pub open spec fn hit_in(zone: ClickableZone, rect: Rect, x: u16, y: u16) -> HitTestResult {
    HitTestResult { zone, relative_x: (x - rect.x) as u16, relative_y: (y - rect.y) as u16, rect }
}

/// The result reported for a position outside every candidate zone.
pub open spec fn hit_outside(screen: Rect, x: u16, y: u16) -> HitTestResult {
    HitTestResult { zone: ClickableZone::Outside, relative_x: x, relative_y: y, rect: screen }
}

/// The first candidate zone, in order, that contains the position.
pub open spec fn first_hit(
    candidates: Seq<(ClickableZone, Rect)>,
    x: u16,
    y: u16,
    screen: Rect,
) -> HitTestResult
    decreases candidates.len(),
{
    if candidates.len() == 0 {
        hit_outside(screen, x, y)
    } else if candidates[0].1.contains(x as int, y as int) {
        hit_in(candidates[0].0, candidates[0].1, x, y)
    } else {
        first_hit(candidates.drop_first(), x, y, screen)
    }
}

/// Finds the first candidate zone, in order, that contains the position.
pub fn scan_zones(candidates: &Vec<(ClickableZone, Rect)>, x: u16, y: u16, screen: Rect) -> (res:
    HitTestResult)
    ensures
        res == first_hit(candidates@, x, y, screen),
{
    let mut i: usize = 0;
    assert(candidates@.skip(0) =~= candidates@);
    while i < candidates.len()
        invariant
            i <= candidates@.len(),
            first_hit(candidates@, x, y, screen) == first_hit(
                candidates@.skip(i as int),
                x,
                y,
                screen,
            ),
        decreases candidates@.len() - i,
    {
        let (zone, rect) = candidates[i];
        assert(candidates@.skip(i as int)[0] == candidates@[i as int]);
        assert(candidates@.skip(i as int).drop_first() =~= candidates@.skip(i + 1));
        if point_in_rect(x, y, rect) {
            return HitTestResult {
                zone,
                relative_x: x - rect.x,
                relative_y: y - rect.y,
                rect,
            };
        }
        i = i + 1;
    }
    assert(candidates@.skip(i as int) =~= Seq::<(ClickableZone, Rect)>::empty());
    hit_outside_exec(screen, x, y)
}

fn hit_outside_exec(screen: Rect, x: u16, y: u16) -> (res: HitTestResult)
    ensures
        res == hit_outside(screen, x, y),
{
    HitTestResult { zone: ClickableZone::Outside, relative_x: x, relative_y: y, rect: screen }
}

/// Areas of the graph view, as last rendered.
#[derive(Debug, Clone, Copy, PartialEq, Eq, Structural)]
pub struct GraphLayout {
    pub status_bar: Rect,
    pub nav_bar: Rect,
    pub graph: Rect,
    pub bottom_left: Rect,
    pub bottom_right: Rect,
    pub search_bar: Option<Rect>,
    pub diff_fullscreen: Option<Rect>,
    pub help_bar: Rect,
}

/// Areas of the staging view.
#[derive(Debug, Clone, Copy, PartialEq, Eq, Structural)]
pub struct StagingLayout {
    pub status_bar: Rect,
    pub nav_bar: Rect,
    pub unstaged_panel: Rect,
    pub staged_panel: Rect,
    pub diff_panel: Rect,
    pub commit_message: Rect,
    pub help_bar: Rect,
}

/// Areas of the branches view.
#[derive(Debug, Clone, Copy, PartialEq, Eq, Structural)]
pub struct BranchesLayout {
    pub status_bar: Rect,
    pub nav_bar: Rect,
    pub tabs: Rect,
    pub list_panel: Rect,
    pub detail_panel: Rect,
    pub help_bar: Rect,
}

/// Areas of the project tree view.
#[derive(Debug, Clone, Copy, PartialEq, Eq, Structural)]
pub struct ProjectTreeLayout {
    pub status_bar: Rect,
    pub nav_bar: Rect,
    pub search_bar: Option<Rect>,
    pub tree_panel: Rect,
    pub history_panel: Rect,
    pub changed_files_panel: Rect,
    pub diff_panel: Rect,
    pub help_bar: Rect,
}

/// What a hit test reads of the application: the modals open, the view,
/// the screen and the areas of the views as last rendered.
#[derive(Debug, Clone, Copy, PartialEq, Eq, Structural)]
pub struct HitTestContext {
    pub merge_picker_active: bool,
    pub reset_picker_active: bool,
    pub confirmation_pending: bool,
    pub filter_popup_open: bool,
    pub view_mode: ViewMode,
    pub screen: Rect,
    pub graph: GraphLayout,
    pub staging: StagingLayout,
    pub branches: BranchesLayout,
    pub project_tree: ProjectTreeLayout,
}

/// The whole terminal, as a modal popup blocks it.
pub open spec fn full_screen() -> Rect {
    Rect { x: 0, y: 0, width: 0xffff, height: 0xffff }
}

pub open spec fn staging_zones(l: StagingLayout) -> Seq<(ClickableZone, Rect)> {
    seq![
        (ClickableZone::StatusBar, l.status_bar),
        (ClickableZone::NavBar, l.nav_bar),
        (ClickableZone::BottomLeft, l.unstaged_panel),
        (ClickableZone::BottomLeft, l.staged_panel),
        (ClickableZone::BottomRight, l.diff_panel),
        (ClickableZone::SearchBar, l.commit_message),
        (ClickableZone::HelpBar, l.help_bar),
    ]
}

pub open spec fn branches_zones(l: BranchesLayout) -> Seq<(ClickableZone, Rect)> {
    seq![
        (ClickableZone::StatusBar, l.status_bar),
        (ClickableZone::NavBar, l.nav_bar),
        (ClickableZone::NavBar, l.tabs),
        (ClickableZone::BottomLeft, l.list_panel),
        (ClickableZone::BottomRight, l.detail_panel),
        (ClickableZone::HelpBar, l.help_bar),
    ]
}

pub open spec fn unwrap_rect(r: Option<Rect>) -> Rect {
    match r {
        Some(r) => r,
        None => Rect { x: 0, y: 0, width: 0, height: 0 },
    }
}

pub open spec fn project_tree_zones(l: ProjectTreeLayout) -> Seq<(ClickableZone, Rect)> {
    seq![
        (ClickableZone::StatusBar, l.status_bar),
        (ClickableZone::NavBar, l.nav_bar),
        (ClickableZone::SearchBar, unwrap_rect(l.search_bar)),
        (ClickableZone::BottomLeft, l.tree_panel),
        (ClickableZone::BottomRight, l.history_panel),
        (ClickableZone::BottomLeft, l.changed_files_panel),
        (ClickableZone::BottomRight, l.diff_panel),
        (ClickableZone::HelpBar, l.help_bar),
    ]
}

/// Candidate zones of the graph view, in order of priority: bars first, then
/// either the full-screen diff or the three panels, then search and help.
pub open spec fn graph_zones(l: GraphLayout) -> Seq<(ClickableZone, Rect)> {
    let bars = seq![(ClickableZone::StatusBar, l.status_bar), (ClickableZone::NavBar, l.nav_bar)];
    let panels = match l.diff_fullscreen {
        Some(d) => seq![(ClickableZone::BottomRight, d)],
        None => seq![
            (ClickableZone::Graph, l.graph),
            (ClickableZone::BottomLeft, l.bottom_left),
            (ClickableZone::BottomRight, l.bottom_right),
        ],
    };
    let search = match l.search_bar {
        Some(s) => seq![(ClickableZone::SearchBar, s)],
        None => Seq::empty(),
    };
    bars + panels + search + seq![(ClickableZone::HelpBar, l.help_bar)]
}

/// Whether a modal popup blocks the whole screen.
pub open spec fn modal_open(ctx: HitTestContext) -> bool {
    ctx.merge_picker_active || ctx.reset_picker_active || ctx.confirmation_pending
        || ctx.filter_popup_open
}

/// The zone under a position: a modal takes the whole screen; an empty
/// screen has no zones; otherwise the first zone of the current view's
/// layout, in order of priority, that contains it.
pub open spec fn hit_test_spec(ctx: HitTestContext, x: u16, y: u16) -> Option<HitTestResult> {
    if modal_open(ctx) {
        Some(
            HitTestResult {
                zone: ClickableZone::Modal,
                relative_x: x,
                relative_y: y,
                rect: full_screen(),
            },
        )
    } else if ctx.screen.width == 0 || ctx.screen.height == 0 {
        None
    } else if ctx.view_mode == ViewMode::Staging {
        Some(first_hit(staging_zones(ctx.staging), x, y, ctx.screen))
    } else if ctx.view_mode == ViewMode::Branches {
        Some(first_hit(branches_zones(ctx.branches), x, y, ctx.screen))
    } else if ctx.view_mode == ViewMode::ProjectTree {
        Some(first_hit(project_tree_zones(ctx.project_tree), x, y, ctx.screen))
    } else {
        Some(first_hit(graph_zones(ctx.graph), x, y, ctx.screen))
    }
}

/// Determines which clickable zone the position (x, y) falls in.
pub fn hit_test(ctx: &HitTestContext, x: u16, y: u16) -> (res: Option<HitTestResult>)
    ensures
        res == hit_test_spec(*ctx, x, y),
{
    if ctx.merge_picker_active || ctx.reset_picker_active || ctx.confirmation_pending
        || ctx.filter_popup_open {
        return Some(
            HitTestResult {
                zone: ClickableZone::Modal,
                relative_x: x,
                relative_y: y,
                rect: Rect::new(0, 0, u16::MAX, u16::MAX),
            },
        );
    }
    let screen = ctx.screen;
    if screen.width == 0 || screen.height == 0 {
        return None;
    }
    let mut zones: Vec<(ClickableZone, Rect)> = Vec::new();
    if ctx.view_mode == ViewMode::Staging {
        let l = ctx.staging;
        zones.push((ClickableZone::StatusBar, l.status_bar));
        zones.push((ClickableZone::NavBar, l.nav_bar));
        zones.push((ClickableZone::BottomLeft, l.unstaged_panel));
        zones.push((ClickableZone::BottomLeft, l.staged_panel));
        zones.push((ClickableZone::BottomRight, l.diff_panel));
        zones.push((ClickableZone::SearchBar, l.commit_message));
        zones.push((ClickableZone::HelpBar, l.help_bar));
        assert(zones@ =~= staging_zones(l));
    } else if ctx.view_mode == ViewMode::Branches {
        let l = ctx.branches;
        zones.push((ClickableZone::StatusBar, l.status_bar));
        zones.push((ClickableZone::NavBar, l.nav_bar));
        zones.push((ClickableZone::NavBar, l.tabs));
        zones.push((ClickableZone::BottomLeft, l.list_panel));
        zones.push((ClickableZone::BottomRight, l.detail_panel));
        zones.push((ClickableZone::HelpBar, l.help_bar));
        assert(zones@ =~= branches_zones(l));
    } else if ctx.view_mode == ViewMode::ProjectTree {
        let l = ctx.project_tree;
        let search = match l.search_bar {
            Some(r) => r,
            None => Rect::zero(),
        };
        zones.push((ClickableZone::StatusBar, l.status_bar));
        zones.push((ClickableZone::NavBar, l.nav_bar));
        zones.push((ClickableZone::SearchBar, search));
        zones.push((ClickableZone::BottomLeft, l.tree_panel));
        zones.push((ClickableZone::BottomRight, l.history_panel));
        zones.push((ClickableZone::BottomLeft, l.changed_files_panel));
        zones.push((ClickableZone::BottomRight, l.diff_panel));
        zones.push((ClickableZone::HelpBar, l.help_bar));
        assert(zones@ =~= project_tree_zones(l));
    } else {
        let l = ctx.graph;
        zones.push((ClickableZone::StatusBar, l.status_bar));
        zones.push((ClickableZone::NavBar, l.nav_bar));
        match l.diff_fullscreen {
            Some(d) => {
                zones.push((ClickableZone::BottomRight, d));
            },
            None => {
                zones.push((ClickableZone::Graph, l.graph));
                zones.push((ClickableZone::BottomLeft, l.bottom_left));
                zones.push((ClickableZone::BottomRight, l.bottom_right));
            },
        }
        match l.search_bar {
            Some(s) => {
                zones.push((ClickableZone::SearchBar, s));
            },
            None => {},
        }
        zones.push((ClickableZone::HelpBar, l.help_bar));
        assert(zones@ =~= graph_zones(l));
    }
    Some(scan_zones(&zones, x, y, screen))
}

/// The first candidate hit is either the outside result or a zone whose
/// rectangle holds the position, measured from its corner.
proof fn lemma_first_hit_in_zone(candidates: Seq<(ClickableZone, Rect)>, x: u16, y: u16, screen: Rect)
    ensures
        first_hit(candidates, x, y, screen) == hit_outside(screen, x, y) || ({
            let r = first_hit(candidates, x, y, screen);
            &&& r.rect.contains(x as int, y as int)
            &&& r.relative_x == x - r.rect.x
            &&& r.relative_y == y - r.rect.y
        }),
    decreases candidates.len(),
{
    if candidates.len() > 0 && !candidates[0].1.contains(x as int, y as int) {
        lemma_first_hit_in_zone(candidates.drop_first(), x, y, screen);
    }
}

/// A position reported in a zone of the current view lies in that zone's
/// rectangle, and its relative coordinates are measured from the
/// rectangle's top left corner; a position in no zone is reported as
/// outside, relative to the screen's origin.
pub proof fn law_hit_lies_in_its_zone(ctx: HitTestContext, x: u16, y: u16)
    ensures
        hit_test_spec(ctx, x, y) matches Some(r) ==> {
            ||| r.zone == ClickableZone::Modal && modal_open(ctx)
            ||| r == hit_outside(ctx.screen, x, y)
            ||| {
                &&& r.rect.contains(x as int, y as int)
                &&& r.relative_x == x - r.rect.x
                &&& r.relative_y == y - r.rect.y
            }
        },
{
    lemma_first_hit_in_zone(staging_zones(ctx.staging), x, y, ctx.screen);
    lemma_first_hit_in_zone(branches_zones(ctx.branches), x, y, ctx.screen);
    lemma_first_hit_in_zone(project_tree_zones(ctx.project_tree), x, y, ctx.screen);
    lemma_first_hit_in_zone(graph_zones(ctx.graph), x, y, ctx.screen);
}

/// Whether a hit test of (x, y) reports the zone `zone` of the rectangle
/// `rect`, the position measured from its top left corner.
pub open spec fn reports(res: Option<HitTestResult>, zone: ClickableZone, rect: Rect, x: u16, y: u16) -> bool {
    res == Some(
        HitTestResult {
            zone,
            relative_x: (x - rect.x) as u16,
            relative_y: (y - rect.y) as u16,
            rect,
        },
    )
}

/// In the graph view and the views that share its zones (no modal, a
/// screen, no full-screen diff), a click is
/// reported in the panel whose rectangle holds it, the bars taking
/// precedence: the commit graph as `Graph`, the files panel (bottom left)
/// as `BottomLeft`, the detail or diff panel (bottom right) as
/// `BottomRight`; with a full-screen diff, the diff takes the panels' place
/// as `BottomRight`.
pub proof fn law_graph_clicks_name_their_panel(ctx: HitTestContext, x: u16, y: u16)
    requires
        !modal_open(ctx),
        ctx.screen.width > 0 && ctx.screen.height > 0,
        ctx.view_mode != ViewMode::Staging,
        ctx.view_mode != ViewMode::Branches,
        ctx.view_mode != ViewMode::ProjectTree,
    ensures
        ({
            let l = ctx.graph;
            let res = hit_test_spec(ctx, x, y);
            let in_bars = l.status_bar.contains(x as int, y as int) || l.nav_bar.contains(x as int, y as int);
            &&& l.status_bar.contains(x as int, y as int) ==> reports(res, ClickableZone::StatusBar, l.status_bar, x, y)
            &&& !l.status_bar.contains(x as int, y as int) && l.nav_bar.contains(x as int, y as int)
                ==> reports(res, ClickableZone::NavBar, l.nav_bar, x, y)
            &&& l.diff_fullscreen is None && !in_bars && l.graph.contains(x as int, y as int)
                ==> reports(res, ClickableZone::Graph, l.graph, x, y)
            &&& l.diff_fullscreen is None && !in_bars && !l.graph.contains(x as int, y as int)
                && l.bottom_left.contains(x as int, y as int)
                ==> reports(res, ClickableZone::BottomLeft, l.bottom_left, x, y)
            &&& l.diff_fullscreen is None && !in_bars && !l.graph.contains(x as int, y as int)
                && !l.bottom_left.contains(x as int, y as int) && l.bottom_right.contains(x as int, y as int)
                ==> reports(res, ClickableZone::BottomRight, l.bottom_right, x, y)
            &&& l.diff_fullscreen is Some && !in_bars && l.diff_fullscreen->0.contains(x as int, y as int)
                ==> reports(res, ClickableZone::BottomRight, l.diff_fullscreen->0, x, y)
        }),
{
    reveal_with_fuel(first_hit, 6);
    let l = ctx.graph;
    let z = graph_zones(l);
    assert(z[0] == (ClickableZone::StatusBar, l.status_bar));
    assert(z[1] == (ClickableZone::NavBar, l.nav_bar));
    assert(z.drop_first()[0] == z[1]);
    if l.diff_fullscreen is None {
        assert(z[2] == (ClickableZone::Graph, l.graph));
        assert(z[3] == (ClickableZone::BottomLeft, l.bottom_left));
        assert(z[4] == (ClickableZone::BottomRight, l.bottom_right));
        assert(z.drop_first().drop_first()[0] == z[2]);
        assert(z.drop_first().drop_first().drop_first()[0] == z[3]);
        assert(z.drop_first().drop_first().drop_first().drop_first()[0] == z[4]);
    } else {
        assert(z[2] == (ClickableZone::BottomRight, l.diff_fullscreen->0));
        assert(z.drop_first().drop_first()[0] == z[2]);
    }
}

/// In the staging view (no modal, a screen), a click below the bars is
/// reported in the panel that holds it: either file list as `BottomLeft`,
/// the diff as `BottomRight`.
pub proof fn law_staging_clicks_name_their_panel(ctx: HitTestContext, x: u16, y: u16)
    requires
        !modal_open(ctx),
        ctx.screen.width > 0 && ctx.screen.height > 0,
        ctx.view_mode == ViewMode::Staging,
    ensures
        ({
            let l = ctx.staging;
            let res = hit_test_spec(ctx, x, y);
            let in_bars = l.status_bar.contains(x as int, y as int) || l.nav_bar.contains(x as int, y as int);
            &&& !in_bars && l.unstaged_panel.contains(x as int, y as int)
                ==> reports(res, ClickableZone::BottomLeft, l.unstaged_panel, x, y)
            &&& !in_bars && !l.unstaged_panel.contains(x as int, y as int) && l.staged_panel.contains(x as int, y as int)
                ==> reports(res, ClickableZone::BottomLeft, l.staged_panel, x, y)
            &&& !in_bars && !l.unstaged_panel.contains(x as int, y as int)
                && !l.staged_panel.contains(x as int, y as int) && l.diff_panel.contains(x as int, y as int)
                ==> reports(res, ClickableZone::BottomRight, l.diff_panel, x, y)
        }),
{
    reveal_with_fuel(first_hit, 6);
    let z = staging_zones(ctx.staging);
    assert(z.drop_first()[0] == z[1]);
    assert(z.drop_first().drop_first()[0] == z[2]);
    assert(z.drop_first().drop_first().drop_first()[0] == z[3]);
    assert(z.drop_first().drop_first().drop_first().drop_first()[0] == z[4]);
}

/// In the branches view (no modal, a screen), a click below the bars and
/// tabs is reported in the panel that holds it: the list as `BottomLeft`,
/// the detail as `BottomRight`.
pub proof fn law_branches_clicks_name_their_panel(ctx: HitTestContext, x: u16, y: u16)
    requires
        !modal_open(ctx),
        ctx.screen.width > 0 && ctx.screen.height > 0,
        ctx.view_mode == ViewMode::Branches,
    ensures
        ({
            let l = ctx.branches;
            let res = hit_test_spec(ctx, x, y);
            let above = l.status_bar.contains(x as int, y as int) || l.nav_bar.contains(x as int, y as int)
                || l.tabs.contains(x as int, y as int);
            &&& !above && l.list_panel.contains(x as int, y as int)
                ==> reports(res, ClickableZone::BottomLeft, l.list_panel, x, y)
            &&& !above && !l.list_panel.contains(x as int, y as int) && l.detail_panel.contains(x as int, y as int)
                ==> reports(res, ClickableZone::BottomRight, l.detail_panel, x, y)
        }),
{
    reveal_with_fuel(first_hit, 6);
    let z = branches_zones(ctx.branches);
    assert(z.drop_first()[0] == z[1]);
    assert(z.drop_first().drop_first()[0] == z[2]);
    assert(z.drop_first().drop_first().drop_first()[0] == z[3]);
    assert(z.drop_first().drop_first().drop_first().drop_first()[0] == z[4]);
}

} // verus!
