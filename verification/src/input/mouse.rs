//! Translation of mouse clicks and scrolls into application actions.

use vstd::prelude::*;
use crate::hit_test::{
    calculate_commit_index, calculate_file_index, calculate_nav_tab, commit_index_at, hit_test,
    hit_test_spec, nav_tab_at, BranchesLayout, ClickableZone, HitTestContext, HitTestResult, Rect,
    StagingLayout,
};
use crate::i18n::Language;
use crate::input::action::{AppAction, BranchAction, NavigationAction, StagingAction, ViewMode};
use crate::input::state::{BranchesSection, FocusPanel, StagingFocus};

verus! {

/// Kind of a mouse event.
#[derive(Debug, Clone, Copy, PartialEq, Eq, Structural)]
pub enum MouseEventKind {
    /// A button was pressed.
    Down,
    ScrollUp,
    ScrollDown,
    /// Moves, drags, releases and horizontal scrolls.
    Other,
}

/// A mouse event at a terminal cell.
#[derive(Debug, Clone, Copy, PartialEq, Eq, Structural)]
pub struct MouseEvent {
    pub kind: MouseEventKind,
    pub column: u16,
    pub row: u16,
}

/// Everything the mouse mapping reads of the application state.
#[derive(Debug, Clone, Copy, PartialEq, Eq, Structural)]
pub struct MouseContext {
    pub lang: Language,
    pub view_mode: ViewMode,
    pub focus: FocusPanel,
    /// Number of commits in the graph.
    pub graph_len: usize,
    /// Index of the selected commit.
    pub selected_index: usize,
    /// Number of files of the selected commit.
    pub commit_file_count: usize,
    /// Number of conflicted files not yet marked resolved.
    pub unresolved_conflicts: usize,
    pub confirmation_pending: bool,
    /// Area of the confirmation popup.
    pub confirmation_popup: Rect,
    pub staging_focus: StagingFocus,
    pub unstaged_count: usize,
    pub staged_count: usize,
    pub staging_layout: StagingLayout,
    pub branches_section: BranchesSection,
    pub local_branch_count: usize,
    pub remote_branch_count: usize,
    pub show_remote: bool,
    pub worktree_count: usize,
    pub stash_count: usize,
    pub branches_layout: BranchesLayout,
}

impl MouseContext {
    /// The confirmation popup lies within the terminal's coordinates and the
    /// selection leaves room for scrolling arithmetic.
    pub open spec fn wf(self) -> bool {
        &&& self.confirmation_popup.x + self.confirmation_popup.width <= u16::MAX
        &&& self.confirmation_popup.y + self.confirmation_popup.height <= u16::MAX
        &&& self.selected_index + 0x8000 <= usize::MAX
    }
}

/// `a - b`, or zero when `b` exceeds `a`.
pub open spec fn sat_sub(a: int, b: int) -> int {
    if a >= b {
        a - b
    } else {
        0
    }
}

/// A navigation tab click turned into a view switch.
pub open spec fn nav_click_action(ctx: MouseContext, relative_x: u16) -> Option<AppAction> {
    match nav_tab_at(ctx.lang, relative_x as int, ctx.unresolved_conflicts as nat) {
        Some(v) => Some(AppAction::SwitchView(v)),
        None => None,
    }
}

/// First commit shown in a graph panel of the given height: the selection is
/// kept in the middle of the visible commits (two lines each).
pub open spec fn graph_scroll_offset(selected_index: int, panel_height: int) -> int {
    let visible_height = sat_sub(panel_height, 2);
    let visible_commits = if visible_height / 2 >= 1 { visible_height / 2 } else { 1 };
    sat_sub(selected_index, visible_commits / 2)
}

/// A click on the confirmation popup: its button row confirms on its left
/// third and cancels elsewhere; any other click cancels.
pub open spec fn modal_click_action(ctx: MouseContext, hit: HitTestResult) -> Option<AppAction> {
    let popup = ctx.confirmation_popup;
    if ctx.confirmation_pending {
        let in_columns = popup.x <= hit.relative_x < popup.x + popup.width;
        let button_row = popup.y + sat_sub(popup.height as int, 2);
        if in_columns && hit.relative_y == button_row {
            if hit.relative_x - popup.x < popup.width / 3 {
                Some(AppAction::ConfirmAction)
            } else {
                Some(AppAction::CancelAction)
            }
        } else {
            Some(AppAction::CancelAction)
        }
    } else {
        None
    }
}

/// A click in the staging view.
pub open spec fn staging_click_action(ctx: MouseContext, hit: HitTestResult) -> Option<AppAction> {
    let layout = ctx.staging_layout;
    let item_y = sat_sub(hit.relative_y as int, 1);
    if hit.rect == layout.nav_bar {
        nav_click_action(ctx, hit.relative_x)
    } else if hit.rect == layout.unstaged_panel {
        if item_y < ctx.unstaged_count {
            Some(AppAction::Staging(StagingAction::SelectUnstaged(item_y as usize)))
        } else if ctx.staging_focus == StagingFocus::Unstaged {
            None
        } else {
            Some(AppAction::Staging(StagingAction::FocusUnstaged))
        }
    } else if hit.rect == layout.staged_panel {
        if item_y < ctx.staged_count {
            Some(AppAction::Staging(StagingAction::SelectStaged(item_y as usize)))
        } else if ctx.staging_focus == StagingFocus::Staged {
            None
        } else {
            Some(AppAction::Staging(StagingAction::FocusStaged))
        }
    } else if hit.rect == layout.diff_panel {
        Some(AppAction::Staging(StagingAction::FocusDiff))
    } else if hit.rect == layout.commit_message && ctx.staging_focus != StagingFocus::CommitMessage {
        Some(AppAction::Staging(StagingAction::StartCommitMessage))
    } else {
        None
    }
}

/// A click on the section tabs of the branches view: the tab bar is split in
/// thirds, one per section.
pub open spec fn branches_tab_action(section: BranchesSection, tab: int) -> Option<AppAction> {
    match section {
        BranchesSection::Branches => if tab == 1 {
            Some(AppAction::Branch(BranchAction::NextSection))
        } else if tab == 2 {
            Some(AppAction::Branch(BranchAction::PrevSection))
        } else {
            None
        },
        BranchesSection::Worktrees => if tab == 0 {
            Some(AppAction::Branch(BranchAction::PrevSection))
        } else if tab == 2 {
            Some(AppAction::Branch(BranchAction::NextSection))
        } else {
            None
        },
        BranchesSection::Stashes => if tab == 0 || tab == 1 {
            Some(AppAction::Branch(BranchAction::PrevSection))
        } else {
            None
        },
    }
}

/// A click on line `item_y` (below the panel border) of the branches list.
pub open spec fn branches_list_action(ctx: MouseContext, item_y: int) -> Option<AppAction> {
    let focus_list = Some(AppAction::Branch(BranchAction::FocusList));
    match ctx.branches_section {
        BranchesSection::Branches => {
            let remote_start = ctx.local_branch_count + 3;
            if item_y == 0 {
                focus_list
            } else if item_y <= ctx.local_branch_count {
                Some(AppAction::Branch(BranchAction::SelectLocalBranch((item_y - 1) as usize)))
            } else if ctx.show_remote && item_y >= remote_start && item_y - remote_start
                < ctx.remote_branch_count {
                Some(AppAction::Branch(BranchAction::SelectRemoteBranch((item_y - remote_start) as usize)))
            } else {
                focus_list
            }
        },
        BranchesSection::Worktrees => if item_y < ctx.worktree_count {
            Some(AppAction::Branch(BranchAction::SelectWorktree(item_y as usize)))
        } else {
            focus_list
        },
        BranchesSection::Stashes => if item_y < ctx.stash_count {
            Some(AppAction::Branch(BranchAction::SelectStash(item_y as usize)))
        } else {
            focus_list
        },
    }
}

/// A click in the branches view.
pub open spec fn branches_click_action(ctx: MouseContext, hit: HitTestResult) -> Option<AppAction> {
    let layout = ctx.branches_layout;
    if hit.rect == layout.nav_bar {
        nav_click_action(ctx, hit.relative_x)
    } else if hit.rect == layout.tabs {
        let third = if layout.tabs.width / 3 >= 1 { layout.tabs.width / 3 } else { 1 };
        branches_tab_action(ctx.branches_section, (hit.relative_x / third) as int)
    } else if hit.rect == layout.list_panel {
        branches_list_action(ctx, sat_sub(hit.relative_y as int, 1))
    } else if hit.rect == layout.detail_panel {
        Some(AppAction::Branch(BranchAction::FocusDetail))
    } else {
        None
    }
}

/// A click at a hit-tested position.
pub open spec fn click_action(ctx: MouseContext, hit: HitTestResult) -> Option<AppAction> {
    if ctx.view_mode == ViewMode::Staging {
        staging_click_action(ctx, hit)
    } else if ctx.view_mode == ViewMode::Branches {
        branches_click_action(ctx, hit)
    } else {
        match hit.zone {
            ClickableZone::Modal => modal_click_action(ctx, hit),
            ClickableZone::NavBar => nav_click_action(ctx, hit.relative_x),
            ClickableZone::Graph => {
                let offset = graph_scroll_offset(ctx.selected_index as int, hit.rect.height as int);
                match commit_index_at(ctx.graph_len as nat, offset as nat, hit.relative_y as nat) {
                    Some(i) => Some(AppAction::Navigation(NavigationAction::SelectCommit(i as usize))),
                    None => Some(AppAction::Navigation(NavigationAction::FocusGraph)),
                }
            },
            ClickableZone::BottomLeft => {
                let line = sat_sub(hit.relative_y as int, 1);
                if line < ctx.commit_file_count {
                    Some(AppAction::Navigation(NavigationAction::SelectFile(line as usize)))
                } else if ctx.focus != FocusPanel::BottomLeft {
                    Some(AppAction::Navigation(NavigationAction::FocusBottomLeft))
                } else {
                    None
                }
            },
            ClickableZone::BottomRight => if ctx.focus != FocusPanel::BottomRight {
                Some(AppAction::Navigation(NavigationAction::FocusBottomRight))
            } else {
                None
            },
            ClickableZone::HelpBar => Some(AppAction::ToggleHelp),
            _ => None,
        }
    }
}

/// Scroll action in the direction given.
pub open spec fn scroll_nav(is_up: bool, up: NavigationAction, down: NavigationAction) -> AppAction {
    AppAction::Navigation(if is_up { up } else { down })
}

/// Scrolling where the pointer is not over a scrollable zone: the focused
/// panel scrolls.
pub open spec fn focus_scroll_action(ctx: MouseContext, is_up: bool) -> Option<AppAction> {
    match ctx.view_mode {
        ViewMode::Graph => match ctx.focus {
            FocusPanel::BottomLeft => Some(
                scroll_nav(is_up, NavigationAction::FileUp, NavigationAction::FileDown),
            ),
            FocusPanel::BottomRight => Some(
                scroll_nav(is_up, NavigationAction::ScrollDiffUp, NavigationAction::ScrollDiffDown),
            ),
            FocusPanel::Graph => Some(
                scroll_nav(is_up, NavigationAction::MoveUp, NavigationAction::MoveDown),
            ),
        },
        ViewMode::Staging | ViewMode::Branches | ViewMode::Blame => Some(
            scroll_nav(is_up, NavigationAction::MoveUp, NavigationAction::MoveDown),
        ),
        _ => None,
    }
}

/// A scroll over the staging view's panels: the file lists move the
/// selection, the diff scrolls; elsewhere nothing.
pub open spec fn staging_scroll_action(ctx: MouseContext, hit: HitTestResult, is_up: bool) -> Option<AppAction> {
    let layout = ctx.staging_layout;
    if hit.rect == layout.unstaged_panel || hit.rect == layout.staged_panel {
        Some(scroll_nav(is_up, NavigationAction::MoveUp, NavigationAction::MoveDown))
    } else if hit.rect == layout.diff_panel {
        Some(scroll_nav(is_up, NavigationAction::ScrollDiffUp, NavigationAction::ScrollDiffDown))
    } else {
        None
    }
}

/// A scroll at a hit-tested position.
pub open spec fn scroll_action(ctx: MouseContext, hit: HitTestResult, is_up: bool) -> Option<
    AppAction,
> {
    if ctx.view_mode == ViewMode::Staging {
        staging_scroll_action(ctx, hit, is_up)
    } else {
        match hit.zone {
            ClickableZone::Graph => Some(
                scroll_nav(is_up, NavigationAction::MoveUp, NavigationAction::MoveDown),
            ),
            ClickableZone::BottomLeft => Some(
                scroll_nav(is_up, NavigationAction::FileUp, NavigationAction::FileDown),
            ),
            ClickableZone::BottomRight => Some(
                scroll_nav(is_up, NavigationAction::ScrollDiffUp, NavigationAction::ScrollDiffDown),
            ),
            _ => focus_scroll_action(ctx, is_up),
        }
    }
}

/// The action a mouse event produces.
pub open spec fn mouse_action(mouse: MouseEvent, hit_ctx: HitTestContext, ctx: MouseContext) -> Option<
    AppAction,
> {
    match hit_test_spec(hit_ctx, mouse.column, mouse.row) {
        None => None,
        Some(hit) => match mouse.kind {
            MouseEventKind::Down => click_action(ctx, hit),
            MouseEventKind::ScrollUp => scroll_action(ctx, hit, true),
            MouseEventKind::ScrollDown => scroll_action(ctx, hit, false),
            MouseEventKind::Other => None,
        },
    }
}

/// A click on the navigation tabs: a switch to the view of the tab under it.
fn calculate_global_nav_action(ctx: &MouseContext, relative_x: u16) -> (res: Option<AppAction>)
    ensures
        res == nav_click_action(*ctx, relative_x),
{
    match calculate_nav_tab(relative_x, ctx.unresolved_conflicts, ctx.lang) {
        Some(v) => Some(AppAction::SwitchView(v)),
        None => None,
    }
}

/// Handles a click on a modal popup.
pub fn handle_modal_click(ctx: &MouseContext, hit: &HitTestResult) -> (res: Option<AppAction>)
    requires
        ctx.wf(),
    ensures
        res == modal_click_action(*ctx, *hit),
{
    if ctx.confirmation_pending {
        let popup = ctx.confirmation_popup;
        if hit.relative_x >= popup.x && hit.relative_x < popup.x + popup.width {
            let button_row = popup.y + popup.height.saturating_sub(2);
            if hit.relative_y == button_row {
                let rel_x = hit.relative_x.saturating_sub(popup.x);
                return if rel_x < popup.width / 3 {
                    Some(AppAction::ConfirmAction)
                } else {
                    Some(AppAction::CancelAction)
                };
            }
        }
        return Some(AppAction::CancelAction);
    }
    None
}

/// Handles a click in the staging view.
pub fn handle_staging_mouse_click(ctx: &MouseContext, hit: &HitTestResult) -> (res: Option<
    AppAction,
>)
    ensures
        res == staging_click_action(*ctx, *hit),
{
    let layout = ctx.staging_layout;
    if hit.rect == layout.nav_bar {
        return calculate_global_nav_action(ctx, hit.relative_x);
    }
    let item_y = hit.relative_y.saturating_sub(1) as usize;
    if hit.rect == layout.unstaged_panel {
        if item_y < ctx.unstaged_count {
            return Some(AppAction::Staging(StagingAction::SelectUnstaged(item_y)));
        }
        return match ctx.staging_focus {
            StagingFocus::Unstaged => None,
            _ => Some(AppAction::Staging(StagingAction::FocusUnstaged)),
        };
    }
    if hit.rect == layout.staged_panel {
        if item_y < ctx.staged_count {
            return Some(AppAction::Staging(StagingAction::SelectStaged(item_y)));
        }
        return match ctx.staging_focus {
            StagingFocus::Staged => None,
            _ => Some(AppAction::Staging(StagingAction::FocusStaged)),
        };
    }
    if hit.rect == layout.diff_panel {
        return Some(AppAction::Staging(StagingAction::FocusDiff));
    }
    if hit.rect == layout.commit_message && ctx.staging_focus != StagingFocus::CommitMessage {
        return Some(AppAction::Staging(StagingAction::StartCommitMessage));
    }
    None
}

/// Handles a click in the branches view.
pub fn handle_branches_mouse_click(ctx: &MouseContext, hit: &HitTestResult) -> (res: Option<
    AppAction,
>)
    ensures
        res == branches_click_action(*ctx, *hit),
{
    let layout = ctx.branches_layout;
    if hit.rect == layout.nav_bar {
        return calculate_global_nav_action(ctx, hit.relative_x);
    }
    if hit.rect == layout.tabs {
        let third = if layout.tabs.width / 3 >= 1 { layout.tabs.width / 3 } else { 1 };
        let tab = hit.relative_x / third;
        return match ctx.branches_section {
            BranchesSection::Branches => if tab == 1 {
                Some(AppAction::Branch(BranchAction::NextSection))
            } else if tab == 2 {
                Some(AppAction::Branch(BranchAction::PrevSection))
            } else {
                None
            },
            BranchesSection::Worktrees => if tab == 0 {
                Some(AppAction::Branch(BranchAction::PrevSection))
            } else if tab == 2 {
                Some(AppAction::Branch(BranchAction::NextSection))
            } else {
                None
            },
            BranchesSection::Stashes => if tab == 0 || tab == 1 {
                Some(AppAction::Branch(BranchAction::PrevSection))
            } else {
                None
            },
        };
    }
    if hit.rect == layout.list_panel {
        let item_y = hit.relative_y.saturating_sub(1) as usize;
        return match ctx.branches_section {
            BranchesSection::Branches => {
                if item_y == 0 {
                    Some(AppAction::Branch(BranchAction::FocusList))
                } else if item_y <= ctx.local_branch_count {
                    Some(AppAction::Branch(BranchAction::SelectLocalBranch(item_y - 1)))
                } else if ctx.show_remote {
                    let remote_start = ctx.local_branch_count + 3;
                    if item_y >= remote_start {
                        let remote_index = item_y - remote_start;
                        if remote_index < ctx.remote_branch_count {
                            Some(AppAction::Branch(BranchAction::SelectRemoteBranch(remote_index)))
                        } else {
                            Some(AppAction::Branch(BranchAction::FocusList))
                        }
                    } else {
                        Some(AppAction::Branch(BranchAction::FocusList))
                    }
                } else {
                    Some(AppAction::Branch(BranchAction::FocusList))
                }
            },
            BranchesSection::Worktrees => {
                if item_y < ctx.worktree_count {
                    Some(AppAction::Branch(BranchAction::SelectWorktree(item_y)))
                } else {
                    Some(AppAction::Branch(BranchAction::FocusList))
                }
            },
            BranchesSection::Stashes => {
                if item_y < ctx.stash_count {
                    Some(AppAction::Branch(BranchAction::SelectStash(item_y)))
                } else {
                    Some(AppAction::Branch(BranchAction::FocusList))
                }
            },
        };
    }
    if hit.rect == layout.detail_panel {
        return Some(AppAction::Branch(BranchAction::FocusDetail));
    }
    None
}

/// Handles a mouse click according to the zone it falls in.
pub fn handle_mouse_click(ctx: &MouseContext, hit: &HitTestResult) -> (res: Option<AppAction>)
    requires
        ctx.wf(),
    ensures
        res == click_action(*ctx, *hit),
{
    if ctx.view_mode == ViewMode::Staging {
        return handle_staging_mouse_click(ctx, hit);
    }
    if ctx.view_mode == ViewMode::Branches {
        return handle_branches_mouse_click(ctx, hit);
    }
    match hit.zone {
        ClickableZone::Modal => handle_modal_click(ctx, hit),
        ClickableZone::NavBar => calculate_global_nav_action(ctx, hit.relative_x),
        ClickableZone::Graph => {
            let visible_height = hit.rect.height.saturating_sub(2) as usize;
            let visible_commits = if visible_height / 2 >= 1 { visible_height / 2 } else { 1 };
            let scroll_offset = ctx.selected_index.saturating_sub(visible_commits / 2);
            match calculate_commit_index(ctx.graph_len, scroll_offset, hit.relative_y) {
                Some(i) => Some(AppAction::Navigation(NavigationAction::SelectCommit(i))),
                None => Some(AppAction::Navigation(NavigationAction::FocusGraph)),
            }
        },
        ClickableZone::BottomLeft => {
            match calculate_file_index(ctx.commit_file_count, hit.relative_y.saturating_sub(1)) {
                Some(i) => Some(AppAction::Navigation(NavigationAction::SelectFile(i))),
                None => if ctx.focus != FocusPanel::BottomLeft {
                    Some(AppAction::Navigation(NavigationAction::FocusBottomLeft))
                } else {
                    None
                },
            }
        },
        ClickableZone::BottomRight => if ctx.focus != FocusPanel::BottomRight {
            Some(AppAction::Navigation(NavigationAction::FocusBottomRight))
        } else {
            None
        },
        ClickableZone::HelpBar => Some(AppAction::ToggleHelp),
        _ => None,
    }
}

fn scroll(is_up: bool, up: NavigationAction, down: NavigationAction) -> (res: AppAction)
    ensures
        res == scroll_nav(is_up, up, down),
{
    AppAction::Navigation(if is_up { up } else { down })
}

/// Handles a scroll using the panel that holds the focus.
pub fn handle_scroll_with_current_focus(ctx: &MouseContext, is_up: bool) -> (res: Option<AppAction>)
    ensures
        res == focus_scroll_action(*ctx, is_up),
{
    match ctx.view_mode {
        ViewMode::Graph => match ctx.focus {
            FocusPanel::BottomLeft => Some(
                scroll(is_up, NavigationAction::FileUp, NavigationAction::FileDown),
            ),
            FocusPanel::BottomRight => Some(
                scroll(is_up, NavigationAction::ScrollDiffUp, NavigationAction::ScrollDiffDown),
            ),
            FocusPanel::Graph => Some(
                scroll(is_up, NavigationAction::MoveUp, NavigationAction::MoveDown),
            ),
        },
        ViewMode::Staging | ViewMode::Branches | ViewMode::Blame => Some(
            scroll(is_up, NavigationAction::MoveUp, NavigationAction::MoveDown),
        ),
        _ => None,
    }
}

/// Handles a scroll over the staging view's panels (see
/// `staging_scroll_action`).
pub fn handle_staging_mouse_scroll(ctx: &MouseContext, hit: &HitTestResult, is_up: bool) -> (res:
    Option<AppAction>)
    ensures
        res == staging_scroll_action(*ctx, *hit, is_up),
{
    let layout = ctx.staging_layout;
    if hit.rect == layout.unstaged_panel || hit.rect == layout.staged_panel {
        return Some(scroll(is_up, NavigationAction::MoveUp, NavigationAction::MoveDown));
    }
    if hit.rect == layout.diff_panel {
        return Some(scroll(is_up, NavigationAction::ScrollDiffUp, NavigationAction::ScrollDiffDown));
    }
    None
}

/// Handles a scroll according to the zone it falls in.
pub fn handle_mouse_scroll(ctx: &MouseContext, hit: &HitTestResult, is_up: bool) -> (res: Option<
    AppAction,
>)
    ensures
        res == scroll_action(*ctx, *hit, is_up),
{
    if ctx.view_mode == ViewMode::Staging {
        return handle_staging_mouse_scroll(ctx, hit, is_up);
    }
    match hit.zone {
        ClickableZone::Graph => Some(
            scroll(is_up, NavigationAction::MoveUp, NavigationAction::MoveDown),
        ),
        ClickableZone::BottomLeft => Some(
            scroll(is_up, NavigationAction::FileUp, NavigationAction::FileDown),
        ),
        ClickableZone::BottomRight => Some(
            scroll(is_up, NavigationAction::ScrollDiffUp, NavigationAction::ScrollDiffDown),
        ),
        _ => handle_scroll_with_current_focus(ctx, is_up),
    }
}

/// Maps a mouse event to the action it triggers.
pub fn map_mouse(mouse: MouseEvent, hit_ctx: &HitTestContext, ctx: &MouseContext) -> (res: Option<
    AppAction,
>)
    requires
        ctx.wf(),
    ensures
        res == mouse_action(mouse, *hit_ctx, *ctx),
{
    let hit = match hit_test(hit_ctx, mouse.column, mouse.row) {
        Some(h) => h,
        None => {
            return None;
        },
    };
    match mouse.kind {
        MouseEventKind::Down => handle_mouse_click(ctx, &hit),
        MouseEventKind::ScrollUp => handle_mouse_scroll(ctx, &hit, true),
        MouseEventKind::ScrollDown => handle_mouse_scroll(ctx, &hit, false),
        MouseEventKind::Other => None,
    }
}

} // verus!
