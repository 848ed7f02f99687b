//! The part of the application state that input decisions read.

use vstd::prelude::*;
use crate::input::action::ViewMode;

verus! {

/// Panel holding the focus in the graph view.
#[derive(Debug, Clone, Copy, PartialEq, Eq, Structural)]
pub enum FocusPanel {
    Graph,
    BottomLeft,
    BottomRight,
}

/// Panel holding the focus in the staging view.
#[derive(Debug, Clone, Copy, PartialEq, Eq, Structural)]
pub enum StagingFocus {
    Unstaged,
    Staged,
    Diff,
    CommitMessage,
}

/// Element holding the focus in the branches view.
#[derive(Debug, Clone, Copy, PartialEq, Eq, Structural)]
pub enum BranchesFocus {
    List,
    Detail,
    Input,
}

/// Section shown in the branches view.
#[derive(Debug, Clone, Copy, PartialEq, Eq, Structural)]
pub enum BranchesSection {
    Branches,
    Worktrees,
    Stashes,
}

/// Panel holding the focus in the project tree view.
#[derive(Debug, Clone, Copy, PartialEq, Eq, Structural)]
pub enum ProjectTreeFocus {
    Tree,
    History,
    ChangedFiles,
    Diff,
}

/// Panel holding the focus in the conflicts view.
#[derive(Debug, Clone, Copy, PartialEq, Eq, Structural)]
pub enum ConflictPanelFocus {
    FileList,
    OursPanel,
    TheirsPanel,
    ResultPanel,
}

/// Granularity at which conflicts are resolved.
#[derive(Debug, Clone, Copy, PartialEq, Eq, Structural)]
pub enum ConflictResolutionMode {
    File,
    Block,
    Line,
}

/// State of an ongoing conflict resolution, as input decisions see it.
#[derive(Debug, Clone, Copy, PartialEq, Eq, Structural)]
pub struct ConflictInputState {
    pub is_editing: bool,
    pub panel_focus: ConflictPanelFocus,
    pub resolution_mode: ConflictResolutionMode,
}

/// Everything the keyboard mapping reads of the application state.
#[derive(Debug, Clone, Copy, PartialEq, Eq, Structural)]
pub struct InputState {
    pub view_mode: ViewMode,
    pub focus: FocusPanel,
    pub merge_picker_active: bool,
    pub reset_picker_active: bool,
    pub repository_insights_open: bool,
    pub confirmation_pending: bool,
    pub search_active: bool,
    pub project_tree_search_active: bool,
    pub project_tree_focus: ProjectTreeFocus,
    pub comparison_active: bool,
    pub filter_popup_open: bool,
    pub graph_filter_active: bool,
    pub diff_fullscreen: bool,
    pub is_bisecting: bool,
    pub is_merging: bool,
    pub staging_focus: StagingFocus,
    pub staging_last_file_focus: StagingFocus,
    pub branches_focus: BranchesFocus,
    pub branches_section: BranchesSection,
    pub conflicts: Option<ConflictInputState>,
}

impl InputState {
    /// The state of a freshly opened graph view with nothing pending.
    pub fn new() -> (res: Self)
        ensures
            res.view_mode == ViewMode::Graph,
            res.focus == FocusPanel::Graph,
            !res.merge_picker_active && !res.reset_picker_active,
            !res.repository_insights_open && !res.confirmation_pending,
            !res.search_active && !res.project_tree_search_active && !res.filter_popup_open,
            !res.comparison_active && !res.graph_filter_active && !res.diff_fullscreen,
            !res.is_bisecting && !res.is_merging,
            res.project_tree_focus == ProjectTreeFocus::Tree,
            res.staging_focus == StagingFocus::Unstaged,
            res.staging_last_file_focus == StagingFocus::Unstaged,
            res.branches_focus == BranchesFocus::List,
            res.branches_section == BranchesSection::Branches,
            res.conflicts.is_none(),
    {
        InputState {
            view_mode: ViewMode::Graph,
            focus: FocusPanel::Graph,
            merge_picker_active: false,
            reset_picker_active: false,
            repository_insights_open: false,
            confirmation_pending: false,
            search_active: false,
            project_tree_search_active: false,
            project_tree_focus: ProjectTreeFocus::Tree,
            comparison_active: false,
            filter_popup_open: false,
            graph_filter_active: false,
            diff_fullscreen: false,
            is_bisecting: false,
            is_merging: false,
            staging_focus: StagingFocus::Unstaged,
            staging_last_file_focus: StagingFocus::Unstaged,
            branches_focus: BranchesFocus::List,
            branches_section: BranchesSection::Branches,
            conflicts: None,
        }
    }
}

} // verus!
