//! Translation of key presses into application actions.
//!
//! The rules apply in this order of priority:
//! 1. Ctrl+C quits, always.
//! 2. A blocking modal (repository insights, merge picker, reset picker,
//!    pending confirmation) takes every other key.
//! 3. An active text input (search bar, project tree search, filter popup,
//!    commit message, branch name, conflict editing) takes every other key.
//! 4. The help screen only listens to its closing keys.
//! 5. Global view switches (`1`..`5`, `w`).
//! 6. The keys of the current view.

use vstd::prelude::*;
use crate::input::action::{
    AppAction, BranchAction, ConflictAction, EditAction, FilterAction, GitAction,
    NavigationAction, ProjectTreeAction, SearchAction, StagingAction, ViewMode,
};
use crate::input::keys::{KeyCode, KeyEvent};
use crate::keybindings::{git_actions, global, search, staging};
use crate::input::state::{
    BranchesFocus, BranchesSection, ConflictPanelFocus, ConflictResolutionMode, FocusPanel,
    InputState, ProjectTreeFocus, StagingFocus,
};

verus! {

// ---------------------------------------------------------------------------
// Decision tables
// ---------------------------------------------------------------------------

/// Ctrl+C.
pub open spec fn is_quit_shortcut(key: KeyEvent) -> bool {
    key.modifiers.control && key.code == KeyCode::Char('c')
}

/// A modal that captures all input is open.
pub open spec fn has_blocking_modal_spec(st: InputState) -> bool {
    st.merge_picker_active || st.reset_picker_active || st.repository_insights_open
        || st.confirmation_pending
}

/// Whether the conflicts state exists and is in editing mode.
pub open spec fn conflict_editing(st: InputState) -> bool {
    match st.conflicts {
        Some(c) => c.is_editing,
        None => false,
    }
}

/// A text field that captures all input is active.
pub open spec fn has_blocking_text_input_spec(st: InputState) -> bool {
    st.search_active
        || (st.view_mode == ViewMode::ProjectTree && st.project_tree_search_active)
        || st.filter_popup_open
        || (st.view_mode == ViewMode::Staging && st.staging_focus == StagingFocus::CommitMessage)
        || st.branches_focus == BranchesFocus::Input
        || (st.view_mode == ViewMode::Conflicts && conflict_editing(st))
}

pub open spec fn insights_table(code: KeyCode) -> Option<AppAction> {
    match code {
        KeyCode::Esc | KeyCode::Char('i') => Some(AppAction::Git(GitAction::RepositoryInsights)),
        KeyCode::Char('j') | KeyCode::Down | KeyCode::PageDown => Some(
            AppAction::Git(GitAction::RepositoryInsightsDown),
        ),
        KeyCode::Char('k') | KeyCode::Up | KeyCode::PageUp => Some(
            AppAction::Git(GitAction::RepositoryInsightsUp),
        ),
        _ => None,
    }
}

pub open spec fn merge_picker_table(code: KeyCode) -> Option<AppAction> {
    match code {
        KeyCode::Char('j') | KeyCode::Down => Some(AppAction::MergePickerDown),
        KeyCode::Char('k') | KeyCode::Up => Some(AppAction::MergePickerUp),
        KeyCode::Enter => Some(AppAction::MergePickerConfirm),
        KeyCode::Esc => Some(AppAction::MergePickerCancel),
        _ => None,
    }
}

pub open spec fn reset_picker_table(code: KeyCode) -> Option<AppAction> {
    match code {
        KeyCode::Char('j') | KeyCode::Down => Some(AppAction::ResetPickerDown),
        KeyCode::Char('k') | KeyCode::Up => Some(AppAction::ResetPickerUp),
        KeyCode::Char('s') => Some(AppAction::ResetPickerSelectSoft),
        KeyCode::Char('m') => Some(AppAction::ResetPickerSelectMixed),
        KeyCode::Char('h') => Some(AppAction::ResetPickerSelectHard),
        KeyCode::Enter => Some(AppAction::ResetPickerConfirm),
        KeyCode::Esc => Some(AppAction::ResetPickerCancel),
        _ => None,
    }
}

pub open spec fn confirmation_table(code: KeyCode) -> Option<AppAction> {
    match code {
        KeyCode::Char('y') | KeyCode::Char('Y') => Some(AppAction::ConfirmAction),
        KeyCode::Char('n') | KeyCode::Char('N') | KeyCode::Esc => Some(AppAction::CancelAction),
        _ => None,
    }
}

/// What a key does while a blocking modal is open.
pub open spec fn modal_key_action(key: KeyEvent, st: InputState) -> Option<AppAction> {
    if st.repository_insights_open {
        insights_table(key.code)
    } else if st.merge_picker_active {
        merge_picker_table(key.code)
    } else if st.reset_picker_active {
        reset_picker_table(key.code)
    } else if st.confirmation_pending {
        confirmation_table(key.code)
    } else {
        None
    }
}

/// Text editing commands of every text field.
pub open spec fn text_edit_table(key: KeyEvent) -> Option<EditAction> {
    let m = key.modifiers;
    let command = m.super_key || m.meta;
    let shortcut = command || m.control;
    let option = m.alt;
    let shift = m.shift;
    match key.code {
        KeyCode::Char(c) => {
            if (c == 'z' || c == 'Z') && shortcut && shift {
                Some(EditAction::Redo)
            } else if (c == 'z' || c == 'Z') && shortcut {
                Some(EditAction::Undo)
            } else if (c == 'y' || c == 'Y') && shortcut {
                Some(EditAction::Redo)
            } else if (c == 'a' || c == 'A') && shortcut {
                Some(EditAction::SelectAll)
            } else if !(m.control || m.super_key || m.meta) {
                Some(EditAction::InsertChar(c))
            } else {
                None
            }
        },
        KeyCode::Left => {
            if command && shift {
                Some(EditAction::SelectHome)
            } else if command {
                Some(EditAction::CursorHome)
            } else if option && shift {
                Some(EditAction::SelectWordLeft)
            } else if option {
                Some(EditAction::CursorWordLeft)
            } else if shift {
                Some(EditAction::SelectLeft)
            } else {
                Some(EditAction::CursorLeft)
            }
        },
        KeyCode::Right => {
            if command && shift {
                Some(EditAction::SelectEnd)
            } else if command {
                Some(EditAction::CursorEnd)
            } else if option && shift {
                Some(EditAction::SelectWordRight)
            } else if option {
                Some(EditAction::CursorWordRight)
            } else if shift {
                Some(EditAction::SelectRight)
            } else {
                Some(EditAction::CursorRight)
            }
        },
        KeyCode::Up => {
            if command && shift {
                Some(EditAction::SelectHome)
            } else if command {
                Some(EditAction::CursorHome)
            } else if option && shift {
                Some(EditAction::SelectHome)
            } else if option {
                Some(EditAction::CursorHome)
            } else {
                None
            }
        },
        KeyCode::Down => {
            if command && shift {
                Some(EditAction::SelectEnd)
            } else if command {
                Some(EditAction::CursorEnd)
            } else if option && shift {
                Some(EditAction::SelectEnd)
            } else if option {
                Some(EditAction::CursorEnd)
            } else {
                None
            }
        },
        KeyCode::Home => if shift {
            Some(EditAction::SelectHome)
        } else {
            Some(EditAction::CursorHome)
        },
        KeyCode::End => if shift {
            Some(EditAction::SelectEnd)
        } else {
            Some(EditAction::CursorEnd)
        },
        KeyCode::Backspace => {
            if command {
                Some(EditAction::DeleteToStart)
            } else if option {
                Some(EditAction::DeleteWordBefore)
            } else {
                Some(EditAction::DeleteCharBefore)
            }
        },
        KeyCode::Delete => if command {
            Some(EditAction::DeleteToEnd)
        } else {
            Some(EditAction::DeleteCharAfter)
        },
        _ => None,
    }
}

pub open spec fn project_tree_search_table(key: KeyEvent) -> Option<AppAction> {
    let plain = key.modifiers.none_held();
    let ctrl = key.modifiers.control;
    let direct = match key.code {
        KeyCode::Esc => Some(ProjectTreeAction::CloseSearch),
        KeyCode::Enter => Some(ProjectTreeAction::ConfirmSearch),
        KeyCode::Down => if plain { Some(ProjectTreeAction::SearchNext) } else { None },
        KeyCode::Up => if plain { Some(ProjectTreeAction::SearchPrevious) } else { None },
        KeyCode::Char('n') => if ctrl { Some(ProjectTreeAction::SearchNext) } else { None },
        KeyCode::Char('p') => if ctrl { Some(ProjectTreeAction::SearchPrevious) } else { None },
        _ => None,
    };
    match direct {
        Some(a) => Some(AppAction::ProjectTree(a)),
        None => match text_edit_table(key) {
            Some(e) => Some(AppAction::ProjectTree(ProjectTreeAction::EditSearch(e))),
            None => None,
        },
    }
}

pub open spec fn search_table(key: KeyEvent) -> Option<AppAction> {
    let plain = key.modifiers.none_held();
    let ctrl = key.modifiers.control;
    let direct = match key.code {
        KeyCode::Esc => Some(SearchAction::Close),
        KeyCode::Enter => Some(SearchAction::Execute),
        KeyCode::Down => if plain { Some(SearchAction::NextResult) } else { None },
        KeyCode::Up => if plain { Some(SearchAction::PreviousResult) } else { None },
        KeyCode::Char('n') => if ctrl { Some(SearchAction::NextResult) } else { None },
        KeyCode::Char('p') => if ctrl { Some(SearchAction::PreviousResult) } else { None },
        KeyCode::Tab => Some(SearchAction::ChangeType),
        _ => None,
    };
    match direct {
        Some(a) => Some(AppAction::Search(a)),
        None => match text_edit_table(key) {
            Some(EditAction::InsertChar(c)) => Some(AppAction::Search(SearchAction::InsertChar(c))),
            Some(EditAction::DeleteCharBefore) => Some(AppAction::Search(SearchAction::DeleteChar)),
            Some(e) => Some(AppAction::Search(SearchAction::Edit(e))),
            None => None,
        },
    }
}

pub open spec fn filter_popup_table(key: KeyEvent) -> Option<AppAction> {
    let plain = key.modifiers.none_held();
    let ctrl = key.modifiers.control;
    let direct = match key.code {
        KeyCode::Esc => Some(FilterAction::Close),
        KeyCode::Enter => Some(FilterAction::Apply),
        KeyCode::Tab | KeyCode::Down => if plain { Some(FilterAction::NextField) } else { None },
        KeyCode::BackTab => Some(FilterAction::PreviousField),
        KeyCode::Up => if plain { Some(FilterAction::PreviousField) } else { None },
        KeyCode::Char('r') => if ctrl { Some(FilterAction::Clear) } else { None },
        _ => None,
    };
    match direct {
        Some(a) => Some(AppAction::Filter(a)),
        None => match text_edit_table(key) {
            Some(EditAction::InsertChar(c)) => Some(AppAction::Filter(FilterAction::InsertChar(c))),
            Some(EditAction::DeleteCharBefore) => Some(AppAction::Filter(FilterAction::DeleteChar)),
            Some(e) => Some(AppAction::Filter(FilterAction::Edit(e))),
            None => None,
        },
    }
}

/// A free-text input: Enter and Esc finish it, other keys edit the text.
pub open spec fn free_text_table(key: KeyEvent, confirm: AppAction, cancel: AppAction) -> Option<
    AppAction,
> {
    match key.code {
        KeyCode::Enter => Some(confirm),
        KeyCode::Esc => Some(cancel),
        _ => match text_edit_table(key) {
            Some(e) => Some(AppAction::Edit(e)),
            None => None,
        },
    }
}

pub open spec fn conflicts_editing_table(key: KeyEvent) -> Option<AppAction> {
    let ctrl = key.modifiers.control;
    match key.code {
        KeyCode::Esc => Some(AppAction::Conflict(ConflictAction::StopEditing)),
        KeyCode::Enter => if ctrl {
            Some(AppAction::Conflict(ConflictAction::ConfirmEdit))
        } else {
            Some(AppAction::Conflict(ConflictAction::EditNewline))
        },
        KeyCode::Char(c) => if c == 's' && ctrl {
            Some(AppAction::Conflict(ConflictAction::ConfirmEdit))
        } else {
            Some(AppAction::Conflict(ConflictAction::EditInsertChar(c)))
        },
        KeyCode::Backspace => Some(AppAction::Conflict(ConflictAction::EditBackspace)),
        KeyCode::Delete => Some(AppAction::Conflict(ConflictAction::EditDelete)),
        KeyCode::Up => Some(AppAction::Conflict(ConflictAction::EditCursorUp)),
        KeyCode::Down => Some(AppAction::Conflict(ConflictAction::EditCursorDown)),
        KeyCode::Left => Some(AppAction::Conflict(ConflictAction::EditCursorLeft)),
        KeyCode::Right => Some(AppAction::Conflict(ConflictAction::EditCursorRight)),
        _ => None,
    }
}

/// What a key does in the editing mode of the conflicts view.
pub open spec fn conflicts_editing_action(key: KeyEvent, st: InputState) -> Option<AppAction> {
    if conflict_editing(st) {
        conflicts_editing_table(key)
    } else {
        None
    }
}

/// What a key does while a text field is active.
pub open spec fn text_input_key_action(key: KeyEvent, st: InputState) -> Option<AppAction> {
    if st.view_mode == ViewMode::ProjectTree && st.project_tree_search_active {
        project_tree_search_table(key)
    } else if st.search_active {
        search_table(key)
    } else if st.filter_popup_open {
        filter_popup_table(key)
    } else if st.view_mode == ViewMode::Staging && st.staging_focus
        == StagingFocus::CommitMessage {
        free_text_table(
            key,
            AppAction::Staging(StagingAction::ConfirmCommit),
            AppAction::Staging(StagingAction::CancelCommit),
        )
    } else if st.branches_focus == BranchesFocus::Input {
        free_text_table(
            key,
            AppAction::Branch(BranchAction::ConfirmInput),
            AppAction::Branch(BranchAction::CancelInput),
        )
    } else if st.view_mode == ViewMode::Conflicts {
        conflicts_editing_action(key, st)
    } else {
        None
    }
}

/// What a key does on the help screen.
pub open spec fn help_table(code: KeyCode) -> Option<AppAction> {
    match code {
        KeyCode::Esc | KeyCode::Char('?') => Some(AppAction::ToggleHelp),
        _ => None,
    }
}

/// Global view switches.
pub open spec fn view_switch_table(code: KeyCode, st: InputState) -> Option<AppAction> {
    match code {
        KeyCode::Char('1') => Some(AppAction::SwitchView(ViewMode::Graph)),
        KeyCode::Char('2') => Some(AppAction::SwitchView(ViewMode::Staging)),
        KeyCode::Char('3') => Some(AppAction::SwitchView(ViewMode::Branches)),
        KeyCode::Char('4') => Some(AppAction::SwitchView(ViewMode::ProjectTree)),
        KeyCode::Char('5') => if st.conflicts.is_some() {
            Some(AppAction::SwitchView(ViewMode::Conflicts))
        } else {
            None
        },
        KeyCode::Char('w') => Some(AppAction::Branch(BranchAction::OpenWorktrees)),
        _ => None,
    }
}

/// Diff scrolling keys shared by the diff panels.
pub open spec fn diff_scroll_table(code: KeyCode) -> Option<NavigationAction> {
    match code {
        KeyCode::Char('j') | KeyCode::Down => Some(NavigationAction::ScrollDiffDown),
        KeyCode::Char('k') | KeyCode::Up => Some(NavigationAction::ScrollDiffUp),
        KeyCode::Char('h') | KeyCode::Left => Some(NavigationAction::ScrollDiffLeft),
        KeyCode::Char('l') | KeyCode::Right => Some(NavigationAction::ScrollDiffRight),
        KeyCode::Char('g') | KeyCode::Home => Some(NavigationAction::ScrollDiffTop),
        KeyCode::Char('G') | KeyCode::End => Some(NavigationAction::ScrollDiffBottom),
        KeyCode::PageUp => Some(NavigationAction::ScrollDiffPageUp),
        KeyCode::PageDown => Some(NavigationAction::ScrollDiffPageDown),
        KeyCode::Char('n') => Some(NavigationAction::NextDiffHunk),
        KeyCode::Char('N') => Some(NavigationAction::PreviousDiffHunk),
        _ => None,
    }
}

/// List movement keys shared by the list panels.
pub open spec fn list_move_table(code: KeyCode) -> Option<NavigationAction> {
    match code {
        KeyCode::Char('j') | KeyCode::Down => Some(NavigationAction::MoveDown),
        KeyCode::Char('k') | KeyCode::Up => Some(NavigationAction::MoveUp),
        KeyCode::Char('g') | KeyCode::Home => Some(NavigationAction::GoTop),
        KeyCode::Char('G') | KeyCode::End => Some(NavigationAction::GoBottom),
        KeyCode::PageUp => Some(NavigationAction::PageUp),
        KeyCode::PageDown => Some(NavigationAction::PageDown),
        _ => None,
    }
}

pub open spec fn project_tree_table(code: KeyCode, st: InputState) -> Option<AppAction> {
    let on_tree = st.project_tree_focus == ProjectTreeFocus::Tree;
    if st.project_tree_focus == ProjectTreeFocus::Diff && code == KeyCode::Char('e') {
        Some(AppAction::Git(GitAction::OpenExternalDiff))
    } else if st.project_tree_focus == ProjectTreeFocus::Diff && diff_scroll_table(code).is_some() {
        Some(AppAction::Navigation(diff_scroll_table(code).unwrap()))
    } else if code == KeyCode::Esc && st.comparison_active {
        Some(AppAction::Git(GitAction::ClearComparison))
    } else if code == KeyCode::Char('q') {
        Some(AppAction::Quit)
    } else if list_move_table(code).is_some() {
        Some(AppAction::Navigation(list_move_table(code).unwrap()))
    } else {
        match code {
            KeyCode::Enter | KeyCode::Char(' ') => if on_tree {
                Some(AppAction::ProjectTree(ProjectTreeAction::ToggleSelected))
            } else {
                None
            },
            KeyCode::Left | KeyCode::Char('h') => if on_tree {
                Some(AppAction::ProjectTree(ProjectTreeAction::CollapseSelected))
            } else {
                None
            },
            KeyCode::Right | KeyCode::Char('l') => if on_tree {
                Some(AppAction::ProjectTree(ProjectTreeAction::ExpandSelected))
            } else {
                None
            },
            KeyCode::Char('/') => Some(AppAction::ProjectTree(ProjectTreeAction::OpenSearch)),
            KeyCode::Char('C') => Some(AppAction::Git(GitAction::ComparePrompt)),
            KeyCode::Char('e') => if st.project_tree_focus == ProjectTreeFocus::ChangedFiles {
                Some(AppAction::Git(GitAction::OpenExternalDiff))
            } else {
                None
            },
            KeyCode::Char('v') => if st.project_tree_focus == ProjectTreeFocus::Diff {
                Some(AppAction::ToggleDiffViewMode)
            } else {
                None
            },
            KeyCode::Tab | KeyCode::BackTab => Some(
                AppAction::Navigation(NavigationAction::SwitchPanel),
            ),
            KeyCode::Char('r') => Some(AppAction::Refresh),
            KeyCode::Char('y') => Some(AppAction::CopyPanelContent),
            KeyCode::Char('?') => Some(AppAction::ToggleHelp),
            _ => None,
        }
    }
}

pub open spec fn graph_ctrl_table(key: KeyEvent, st: InputState) -> Option<AppAction> {
    if !key.modifiers.control {
        None
    } else {
        match key.code {
            KeyCode::Char('p') => Some(AppAction::Git(GitAction::ForcePush)),
            KeyCode::Char('d') => if st.focus == FocusPanel::BottomRight {
                Some(AppAction::Navigation(NavigationAction::ScrollDiffPageDown))
            } else {
                Some(AppAction::Navigation(NavigationAction::PageDown))
            },
            KeyCode::Char('u') => if st.focus == FocusPanel::BottomRight {
                Some(AppAction::Navigation(NavigationAction::ScrollDiffPageUp))
            } else {
                Some(AppAction::Navigation(NavigationAction::PageUp))
            },
            KeyCode::Char('r') => if st.graph_filter_active {
                Some(AppAction::Filter(FilterAction::Clear))
            } else {
                None
            },
            _ => None,
        }
    }
}

pub open spec fn graph_escape_table(code: KeyCode, st: InputState) -> Option<AppAction> {
    if code != KeyCode::Esc {
        None
    } else if st.diff_fullscreen {
        Some(AppAction::ToggleDiffFullscreen)
    } else {
        match st.focus {
            FocusPanel::BottomRight => Some(AppAction::SwitchBottomMode),
            FocusPanel::BottomLeft => Some(AppAction::Navigation(NavigationAction::BackToGraph)),
            FocusPanel::Graph => None,
        }
    }
}

pub open spec fn graph_focus_table(code: KeyCode, st: InputState) -> Option<AppAction> {
    match st.focus {
        FocusPanel::BottomLeft => match code {
            KeyCode::Char('j') | KeyCode::Down => Some(
                AppAction::Navigation(NavigationAction::FileDown),
            ),
            KeyCode::Char('k') | KeyCode::Up => Some(
                AppAction::Navigation(NavigationAction::FileUp),
            ),
            KeyCode::Char(' ') => Some(AppAction::Select),
            KeyCode::Char('z') | KeyCode::Enter => Some(AppAction::ToggleDiffFullscreen),
            KeyCode::Char('e') => Some(AppAction::Git(GitAction::OpenExternalDiff)),
            _ => None,
        },
        FocusPanel::BottomRight => match code {
            KeyCode::Char('z') | KeyCode::Enter => Some(AppAction::ToggleDiffFullscreen),
            KeyCode::Char('v') => Some(AppAction::ToggleDiffViewMode),
            KeyCode::Char('e') => Some(AppAction::Git(GitAction::OpenExternalDiff)),
            _ => match diff_scroll_table(code) {
                Some(n) => Some(AppAction::Navigation(n)),
                None => None,
            },
        },
        FocusPanel::Graph => None,
    }
}

pub open spec fn graph_root_table(code: KeyCode, st: InputState) -> Option<AppAction> {
    if list_move_table(code).is_some() {
        Some(AppAction::Navigation(list_move_table(code).unwrap()))
    } else {
        match code {
            KeyCode::Char('q') => Some(AppAction::Quit),
            KeyCode::Enter => Some(AppAction::Select),
            KeyCode::Char('c') => Some(AppAction::Git(GitAction::CommitPrompt)),
            KeyCode::Char('s') => Some(AppAction::Git(GitAction::StashPrompt)),
            KeyCode::Char('m') => Some(AppAction::Git(GitAction::MergePrompt)),
            KeyCode::Char('b') => Some(AppAction::SwitchView(ViewMode::Branches)),
            KeyCode::Char('P') => Some(AppAction::Git(GitAction::Push)),
            KeyCode::Char('p') => Some(AppAction::Git(GitAction::Pull)),
            KeyCode::Char('f') => Some(AppAction::Git(GitAction::Fetch)),
            KeyCode::Char('/') => Some(AppAction::Search(SearchAction::Open)),
            KeyCode::Char('n') => Some(AppAction::Search(SearchAction::NextResult)),
            KeyCode::Char('N') => Some(AppAction::Search(SearchAction::PreviousResult)),
            KeyCode::Char('F') => Some(AppAction::Filter(FilterAction::Open)),
            KeyCode::Char('B') => Some(AppAction::Git(GitAction::OpenBlame)),
            KeyCode::Char('x') => Some(AppAction::Git(GitAction::CherryPick)),
            KeyCode::Char('R') => Some(AppAction::Git(GitAction::ResetPrompt)),
            KeyCode::Char('I') => Some(AppAction::Git(GitAction::InteractiveRebase)),
            KeyCode::Char('Z') => Some(AppAction::Git(GitAction::UndoLastOperation)),
            KeyCode::Char('t') => Some(AppAction::Git(GitAction::CreateTag)),
            KeyCode::Char('T') => Some(AppAction::Git(GitAction::DeleteTag)),
            KeyCode::Char('C') => Some(AppAction::Git(GitAction::CompareSelectedWithHead)),
            KeyCode::Char('X') => Some(AppAction::Git(GitAction::BisectStart)),
            KeyCode::Char('i') => Some(AppAction::Git(GitAction::RepositoryInsights)),
            KeyCode::Char('[') => if st.is_bisecting {
                Some(AppAction::Git(GitAction::BisectGood))
            } else {
                None
            },
            KeyCode::Char(']') => if st.is_bisecting {
                Some(AppAction::Git(GitAction::BisectBad))
            } else {
                None
            },
            KeyCode::Char('\\') => if st.is_bisecting {
                Some(AppAction::Git(GitAction::BisectReset))
            } else {
                None
            },
            KeyCode::Char('A') => if st.is_merging {
                Some(AppAction::Git(GitAction::AbortMerge))
            } else {
                None
            },
            KeyCode::Char('L') => Some(AppAction::LoadMoreHistory),
            KeyCode::Char('?') => Some(AppAction::ToggleHelp),
            KeyCode::Char('r') => Some(AppAction::Refresh),
            KeyCode::Char('y') => Some(AppAction::CopyPanelContent),
            KeyCode::Tab => Some(AppAction::Navigation(NavigationAction::SwitchPanel)),
            KeyCode::Char('M') => Some(AppAction::SwitchBottomMode),
            _ => None,
        }
    }
}

/// The first action of a list of candidate rules.
pub open spec fn first_of(a: Option<AppAction>, b: Option<AppAction>) -> Option<AppAction> {
    if a.is_some() {
        a
    } else {
        b
    }
}

/// What a key does in the graph view.
pub open spec fn graph_key_action(key: KeyEvent, st: InputState) -> Option<AppAction> {
    first_of(
        graph_ctrl_table(key, st),
        first_of(
            graph_escape_table(key.code, st),
            first_of(graph_focus_table(key.code, st), graph_root_table(key.code, st)),
        ),
    )
}

pub open spec fn branches_global_table(code: KeyCode) -> Option<AppAction> {
    match code {
        KeyCode::Tab => Some(AppAction::Branch(BranchAction::NextSection)),
        KeyCode::BackTab => Some(AppAction::Branch(BranchAction::PrevSection)),
        KeyCode::Char('q') => Some(AppAction::Quit),
        KeyCode::Char('y') => Some(AppAction::CopyPanelContent),
        KeyCode::Char('?') => Some(AppAction::ToggleHelp),
        KeyCode::Char('P') => Some(AppAction::Git(GitAction::Push)),
        _ => None,
    }
}

pub open spec fn branches_section_table(code: KeyCode, section: BranchesSection) -> Option<
    AppAction,
> {
    match code {
        KeyCode::Char('j') | KeyCode::Down => Some(
            AppAction::Navigation(NavigationAction::MoveDown),
        ),
        KeyCode::Char('k') | KeyCode::Up => Some(AppAction::Navigation(NavigationAction::MoveUp)),
        _ => match section {
            BranchesSection::Branches => match code {
                KeyCode::Enter => Some(AppAction::Branch(BranchAction::Checkout)),
                KeyCode::Char('n') => Some(AppAction::Branch(BranchAction::Create)),
                KeyCode::Char('d') => Some(AppAction::Branch(BranchAction::Delete)),
                KeyCode::Char('r') => Some(AppAction::Branch(BranchAction::Rename)),
                KeyCode::Char('R') => Some(AppAction::Branch(BranchAction::ToggleRemote)),
                KeyCode::Char('m') => Some(AppAction::Git(GitAction::MergePrompt)),
                KeyCode::Char('e') => Some(AppAction::Git(GitAction::RebasePrompt)),
                _ => None,
            },
            BranchesSection::Worktrees => match code {
                KeyCode::Enter => Some(AppAction::Branch(BranchAction::WorktreeSwitch)),
                KeyCode::Char('n') => Some(AppAction::Branch(BranchAction::WorktreeCreate)),
                KeyCode::Char('d') => Some(AppAction::Branch(BranchAction::WorktreeRemove)),
                _ => None,
            },
            BranchesSection::Stashes => match code {
                KeyCode::Char('l') | KeyCode::Right => Some(
                    AppAction::Branch(BranchAction::StashFileNext),
                ),
                KeyCode::Char('h') | KeyCode::Left => Some(
                    AppAction::Branch(BranchAction::StashFilePrev),
                ),
                KeyCode::Char('a') => Some(AppAction::Branch(BranchAction::StashApply)),
                KeyCode::Char('p') => Some(AppAction::Branch(BranchAction::StashPop)),
                KeyCode::Char('d') => Some(AppAction::Branch(BranchAction::StashDrop)),
                KeyCode::Char('s') => Some(AppAction::Branch(BranchAction::StashSave)),
                KeyCode::Char('J') => Some(
                    AppAction::Navigation(NavigationAction::ScrollStashDiffDown),
                ),
                KeyCode::Char('K') => Some(
                    AppAction::Navigation(NavigationAction::ScrollStashDiffUp),
                ),
                _ => None,
            },
        },
    }
}

/// What a key does in the branches view.
pub open spec fn branches_key_action(code: KeyCode, st: InputState) -> Option<AppAction> {
    first_of(branches_global_table(code), branches_section_table(code, st.branches_section))
}

pub open spec fn staging_ctrl_table(key: KeyEvent) -> Option<AppAction> {
    if !key.modifiers.control {
        None
    } else {
        match key.code {
            KeyCode::Char('s') => Some(AppAction::Staging(StagingAction::StashUnstagedFiles)),
            KeyCode::Char('p') => Some(AppAction::Git(GitAction::ForcePush)),
            _ => None,
        }
    }
}

pub open spec fn staging_global_table(code: KeyCode, st: InputState) -> Option<AppAction> {
    match code {
        KeyCode::Char('q') => Some(AppAction::Quit),
        KeyCode::Char('r') => Some(AppAction::Refresh),
        KeyCode::Char('y') => Some(AppAction::CopyPanelContent),
        KeyCode::Char('?') => Some(AppAction::ToggleHelp),
        KeyCode::Char('P') => Some(AppAction::Git(GitAction::Push)),
        KeyCode::Char('A') => if st.is_merging {
            Some(AppAction::Git(GitAction::AbortMerge))
        } else {
            None
        },
        _ => None,
    }
}

/// Keys every focus of the staging view shares once the focus-specific ones
/// did not apply.
pub open spec fn staging_common_table(code: KeyCode, st: InputState) -> Option<AppAction> {
    match code {
        KeyCode::Char('c') => Some(AppAction::Staging(StagingAction::StartCommitMessage)),
        KeyCode::Char('A') => if !st.is_merging {
            Some(AppAction::Git(GitAction::AmendCommit))
        } else {
            None
        },
        KeyCode::Char('e') => Some(AppAction::Git(GitAction::OpenExternalDiff)),
        _ => None,
    }
}

pub open spec fn staging_focus_table(code: KeyCode, st: InputState) -> Option<AppAction> {
    match st.staging_focus {
        StagingFocus::Unstaged => match code {
            KeyCode::Char('j') | KeyCode::Down => Some(
                AppAction::Navigation(NavigationAction::MoveDown),
            ),
            KeyCode::Char('k') | KeyCode::Up => Some(
                AppAction::Navigation(NavigationAction::MoveUp),
            ),
            KeyCode::Char(' ') => Some(AppAction::Staging(StagingAction::FocusDiff)),
            KeyCode::Char('s') | KeyCode::Enter => Some(
                AppAction::Staging(StagingAction::StageFile),
            ),
            KeyCode::Char('S') => Some(AppAction::Staging(StagingAction::StashSelectedFile)),
            KeyCode::Char('a') => Some(AppAction::Staging(StagingAction::StageAll)),
            KeyCode::Char('d') => Some(AppAction::Staging(StagingAction::DiscardFile)),
            KeyCode::Char('D') => Some(AppAction::Staging(StagingAction::DiscardAll)),
            KeyCode::Tab => Some(AppAction::Staging(StagingAction::SwitchFocus)),
            _ => staging_common_table(code, st),
        },
        StagingFocus::Staged => match code {
            KeyCode::Char('j') | KeyCode::Down => Some(
                AppAction::Navigation(NavigationAction::MoveDown),
            ),
            KeyCode::Char('k') | KeyCode::Up => Some(
                AppAction::Navigation(NavigationAction::MoveUp),
            ),
            KeyCode::Char(' ') => Some(AppAction::Staging(StagingAction::FocusDiff)),
            KeyCode::Char('u') | KeyCode::Enter => Some(
                AppAction::Staging(StagingAction::UnstageFile),
            ),
            KeyCode::Char('U') => Some(AppAction::Staging(StagingAction::UnstageAll)),
            KeyCode::Tab => Some(AppAction::Staging(StagingAction::SwitchFocus)),
            _ => staging_common_table(code, st),
        },
        StagingFocus::Diff => {
            let from_unstaged = st.staging_last_file_focus == StagingFocus::Unstaged;
            let from_staged = st.staging_last_file_focus == StagingFocus::Staged;
            match code {
                KeyCode::Char('j') | KeyCode::Down => Some(
                    AppAction::Navigation(NavigationAction::ScrollDiffDown),
                ),
                KeyCode::Char('k') | KeyCode::Up => Some(
                    AppAction::Navigation(NavigationAction::ScrollDiffUp),
                ),
                KeyCode::Char('h') | KeyCode::Left => Some(
                    AppAction::Navigation(NavigationAction::ScrollDiffLeft),
                ),
                KeyCode::Char('l') | KeyCode::Right => Some(
                    AppAction::Navigation(NavigationAction::ScrollDiffRight),
                ),
                KeyCode::Tab | KeyCode::Esc => Some(AppAction::Staging(StagingAction::SwitchFocus)),
                KeyCode::Char('v') => Some(AppAction::ToggleDiffViewMode),
                KeyCode::Char('n') => Some(AppAction::Navigation(NavigationAction::NextDiffHunk)),
                KeyCode::Char('N') => Some(
                    AppAction::Navigation(NavigationAction::PreviousDiffHunk),
                ),
                KeyCode::Char('s') => if from_unstaged {
                    Some(AppAction::Staging(StagingAction::StageHunk))
                } else {
                    None
                },
                KeyCode::Char('S') => if from_unstaged {
                    Some(AppAction::Staging(StagingAction::StageLine))
                } else {
                    None
                },
                KeyCode::Char('u') => if from_staged {
                    Some(AppAction::Staging(StagingAction::UnstageHunk))
                } else {
                    None
                },
                KeyCode::Char('U') => if from_staged {
                    Some(AppAction::Staging(StagingAction::UnstageLine))
                } else {
                    None
                },
                _ => staging_common_table(code, st),
            }
        },
        StagingFocus::CommitMessage => None,
    }
}

/// What a key does in the staging view.
pub open spec fn staging_key_action(key: KeyEvent, st: InputState) -> Option<AppAction> {
    first_of(
        staging_ctrl_table(key),
        first_of(staging_global_table(key.code, st), staging_focus_table(key.code, st)),
    )
}

/// What a key does in the blame view.
pub open spec fn blame_table(code: KeyCode) -> Option<AppAction> {
    match code {
        KeyCode::Char('q') | KeyCode::Esc => Some(AppAction::Git(GitAction::CloseBlame)),
        KeyCode::Enter => Some(AppAction::Git(GitAction::JumpToBlameCommit)),
        KeyCode::Char('y') => Some(AppAction::CopyPanelContent),
        _ => match list_move_table(code) {
            Some(n) => Some(AppAction::Navigation(n)),
            None => None,
        },
    }
}

/// Panel focus of the conflicts view, if any.
pub open spec fn conflict_focus(st: InputState) -> Option<ConflictPanelFocus> {
    match st.conflicts {
        Some(c) => Some(c.panel_focus),
        None => None,
    }
}

/// Resolution mode of the conflicts view (block mode when there is none).
pub open spec fn conflict_mode(st: InputState) -> ConflictResolutionMode {
    match st.conflicts {
        Some(c) => c.resolution_mode,
        None => ConflictResolutionMode::Block,
    }
}

/// Whether the focus is on one side (ours or theirs) of the conflict.
pub open spec fn on_side_panel(focus: Option<ConflictPanelFocus>) -> bool {
    focus == Some(ConflictPanelFocus::OursPanel) || focus == Some(ConflictPanelFocus::TheirsPanel)
}

pub open spec fn conflicts_navigation_table(code: KeyCode, st: InputState) -> Option<AppAction> {
    let focus = conflict_focus(st);
    let mode = conflict_mode(st);
    let on_files = focus == Some(ConflictPanelFocus::FileList);
    let on_result = focus == Some(ConflictPanelFocus::ResultPanel);
    let side = on_side_panel(focus);
    match code {
        KeyCode::Tab | KeyCode::BackTab => Some(AppAction::Conflict(ConflictAction::SwitchPanel)),
        KeyCode::Char('j') | KeyCode::Down => {
            if on_files {
                Some(AppAction::Conflict(ConflictAction::NextFile))
            } else if side {
                match mode {
                    ConflictResolutionMode::File => Some(
                        AppAction::Conflict(ConflictAction::NextFile),
                    ),
                    ConflictResolutionMode::Line => Some(
                        AppAction::Conflict(ConflictAction::LineDown),
                    ),
                    ConflictResolutionMode::Block => Some(
                        AppAction::Conflict(ConflictAction::NextSection),
                    ),
                }
            } else if on_result {
                Some(AppAction::Conflict(ConflictAction::ResultScrollDown))
            } else {
                None
            }
        },
        KeyCode::Char('k') | KeyCode::Up => {
            if on_files {
                Some(AppAction::Conflict(ConflictAction::PreviousFile))
            } else if side {
                match mode {
                    ConflictResolutionMode::File => Some(
                        AppAction::Conflict(ConflictAction::PreviousFile),
                    ),
                    ConflictResolutionMode::Line => Some(
                        AppAction::Conflict(ConflictAction::LineUp),
                    ),
                    ConflictResolutionMode::Block => Some(
                        AppAction::Conflict(ConflictAction::PreviousSection),
                    ),
                }
            } else if on_result {
                Some(AppAction::Conflict(ConflictAction::ResultScrollUp))
            } else {
                None
            }
        },
        KeyCode::Char('o') | KeyCode::Left => if on_files {
            Some(AppAction::Conflict(ConflictAction::AcceptOursFile))
        } else {
            None
        },
        KeyCode::Char('t') | KeyCode::Right => if on_files {
            Some(AppAction::Conflict(ConflictAction::AcceptTheirsFile))
        } else {
            None
        },
        KeyCode::Char('r') => if on_files {
            Some(AppAction::Conflict(ConflictAction::MarkResolved))
        } else {
            None
        },
        KeyCode::Char('b') => if side && mode == ConflictResolutionMode::Block {
            Some(AppAction::Conflict(ConflictAction::AcceptBoth))
        } else {
            None
        },
        KeyCode::Char('i') | KeyCode::Char('e') => if on_result {
            Some(AppAction::Conflict(ConflictAction::StartEditing))
        } else {
            None
        },
        KeyCode::Char('F') => Some(AppAction::Conflict(ConflictAction::SetModeFile)),
        KeyCode::Char('B') => Some(AppAction::Conflict(ConflictAction::SetModeBlock)),
        KeyCode::Char('L') => Some(AppAction::Conflict(ConflictAction::SetModeLine)),
        KeyCode::Char(' ') => if side {
            match mode {
                ConflictResolutionMode::Block => Some(
                    AppAction::Conflict(ConflictAction::EnterResolve),
                ),
                ConflictResolutionMode::Line => Some(
                    AppAction::Conflict(ConflictAction::ToggleLine),
                ),
                ConflictResolutionMode::File => None,
            }
        } else {
            None
        },
        KeyCode::Enter => if side {
            match mode {
                ConflictResolutionMode::File => Some(
                    AppAction::Conflict(ConflictAction::EnterResolve),
                ),
                _ => Some(AppAction::Conflict(ConflictAction::MarkResolved)),
            }
        } else {
            None
        },
        KeyCode::Char('V') => Some(AppAction::Conflict(ConflictAction::FinalizeMerge)),
        KeyCode::Char('q') | KeyCode::Esc => Some(AppAction::Conflict(ConflictAction::LeaveView)),
        KeyCode::Char('A') => Some(AppAction::Conflict(ConflictAction::AbortMerge)),
        KeyCode::Char('?') => Some(AppAction::ToggleHelp),
        _ => None,
    }
}

/// What a key does in the conflicts view.
pub open spec fn conflicts_key_action(key: KeyEvent, st: InputState) -> Option<AppAction> {
    first_of(conflicts_editing_action(key, st), conflicts_navigation_table(key.code, st))
}

/// What a key does in the current view.
pub open spec fn view_key_action(key: KeyEvent, st: InputState) -> Option<AppAction> {
    match st.view_mode {
        ViewMode::Graph => graph_key_action(key, st),
        ViewMode::Staging => staging_key_action(key, st),
        ViewMode::Branches => branches_key_action(key.code, st),
        ViewMode::ProjectTree => project_tree_table(key.code, st),
        ViewMode::Conflicts => conflicts_key_action(key, st),
        ViewMode::Blame => blame_table(key.code),
        ViewMode::Help => None,
    }
}

/// The action a key press produces in a given state, by order of priority.
pub open spec fn key_action(key: KeyEvent, st: InputState) -> Option<AppAction> {
    if is_quit_shortcut(key) {
        Some(AppAction::Quit)
    } else if has_blocking_modal_spec(st) {
        modal_key_action(key, st)
    } else if has_blocking_text_input_spec(st) {
        text_input_key_action(key, st)
    } else if st.view_mode == ViewMode::Help {
        help_table(key.code)
    } else {
        first_of(view_switch_table(key.code, st), view_key_action(key, st))
    }
}


// ---------------------------------------------------------------------------
// Executable mapping
// ---------------------------------------------------------------------------

fn map_quit_shortcut(key: KeyEvent) -> (res: Option<AppAction>)
    ensures
        res == (if is_quit_shortcut(key) { Some(AppAction::Quit) } else { None }),
{
    if key.modifiers.control && key.code == KeyCode::Char('c') {
        Some(AppAction::Quit)
    } else {
        None
    }
}

/// Whether a modal that captures all input is open.
pub fn has_blocking_modal(st: &InputState) -> (res: bool)
    ensures
        res == has_blocking_modal_spec(*st),
{
    st.merge_picker_active || st.reset_picker_active || st.repository_insights_open
        || st.confirmation_pending
}

fn is_conflict_editing(st: &InputState) -> (res: bool)
    ensures
        res == conflict_editing(*st),
{
    match st.conflicts {
        Some(c) => c.is_editing,
        None => false,
    }
}

/// Whether a text field that captures all input is active.
pub fn has_blocking_text_input(st: &InputState) -> (res: bool)
    ensures
        res == has_blocking_text_input_spec(*st),
{
    st.search_active || (st.view_mode == ViewMode::ProjectTree && st.project_tree_search_active)
        || st.filter_popup_open || (st.view_mode == ViewMode::Staging && st.staging_focus
        == StagingFocus::CommitMessage) || st.branches_focus == BranchesFocus::Input || (
    st.view_mode == ViewMode::Conflicts && is_conflict_editing(st))
}

fn map_insights_key(code: KeyCode) -> (res: Option<AppAction>)
    ensures
        res == insights_table(code),
{
    match code {
        KeyCode::Esc | KeyCode::Char('i') => Some(AppAction::Git(GitAction::RepositoryInsights)),
        KeyCode::Char('j') | KeyCode::Down | KeyCode::PageDown => Some(
            AppAction::Git(GitAction::RepositoryInsightsDown),
        ),
        KeyCode::Char('k') | KeyCode::Up | KeyCode::PageUp => Some(
            AppAction::Git(GitAction::RepositoryInsightsUp),
        ),
        _ => None,
    }
}

fn map_merge_picker_key(code: KeyCode) -> (res: Option<AppAction>)
    ensures
        res == merge_picker_table(code),
{
    match code {
        KeyCode::Char('j') | KeyCode::Down => Some(AppAction::MergePickerDown),
        KeyCode::Char('k') | KeyCode::Up => Some(AppAction::MergePickerUp),
        KeyCode::Enter => Some(AppAction::MergePickerConfirm),
        KeyCode::Esc => Some(AppAction::MergePickerCancel),
        _ => None,
    }
}

fn map_reset_picker_key(code: KeyCode) -> (res: Option<AppAction>)
    ensures
        res == reset_picker_table(code),
{
    match code {
        KeyCode::Char('j') | KeyCode::Down => Some(AppAction::ResetPickerDown),
        KeyCode::Char('k') | KeyCode::Up => Some(AppAction::ResetPickerUp),
        KeyCode::Char('s') => Some(AppAction::ResetPickerSelectSoft),
        KeyCode::Char('m') => Some(AppAction::ResetPickerSelectMixed),
        KeyCode::Char('h') => Some(AppAction::ResetPickerSelectHard),
        KeyCode::Enter => Some(AppAction::ResetPickerConfirm),
        KeyCode::Esc => Some(AppAction::ResetPickerCancel),
        _ => None,
    }
}

fn map_confirmation_key(code: KeyCode) -> (res: Option<AppAction>)
    ensures
        res == confirmation_table(code),
{
    match code {
        KeyCode::Char('y') | KeyCode::Char('Y') => Some(AppAction::ConfirmAction),
        KeyCode::Char('n') | KeyCode::Char('N') | KeyCode::Esc => Some(AppAction::CancelAction),
        _ => None,
    }
}

fn map_modal_key(key: KeyEvent, st: &InputState) -> (res: Option<AppAction>)
    ensures
        res == modal_key_action(key, *st),
{
    if st.repository_insights_open {
        map_insights_key(key.code)
    } else if st.merge_picker_active {
        map_merge_picker_key(key.code)
    } else if st.reset_picker_active {
        map_reset_picker_key(key.code)
    } else if st.confirmation_pending {
        map_confirmation_key(key.code)
    } else {
        None
    }
}

/// Text editing command of a key press in a text field.
pub fn map_text_edit_key(key: KeyEvent) -> (res: Option<EditAction>)
    ensures
        res == text_edit_table(key),
{
    let m = key.modifiers;
    let command = m.super_key || m.meta;
    let shortcut = command || m.control;
    let option = m.alt;
    let shift = m.shift;
    match key.code {
        KeyCode::Char(c) => {
            if (c == 'z' || c == 'Z') && shortcut && shift {
                Some(EditAction::Redo)
            } else if (c == 'z' || c == 'Z') && shortcut {
                Some(EditAction::Undo)
            } else if (c == 'y' || c == 'Y') && shortcut {
                Some(EditAction::Redo)
            } else if (c == 'a' || c == 'A') && shortcut {
                Some(EditAction::SelectAll)
            } else if !(m.control || m.super_key || m.meta) {
                Some(EditAction::InsertChar(c))
            } else {
                None
            }
        },
        KeyCode::Left => {
            if command && shift {
                Some(EditAction::SelectHome)
            } else if command {
                Some(EditAction::CursorHome)
            } else if option && shift {
                Some(EditAction::SelectWordLeft)
            } else if option {
                Some(EditAction::CursorWordLeft)
            } else if shift {
                Some(EditAction::SelectLeft)
            } else {
                Some(EditAction::CursorLeft)
            }
        },
        KeyCode::Right => {
            if command && shift {
                Some(EditAction::SelectEnd)
            } else if command {
                Some(EditAction::CursorEnd)
            } else if option && shift {
                Some(EditAction::SelectWordRight)
            } else if option {
                Some(EditAction::CursorWordRight)
            } else if shift {
                Some(EditAction::SelectRight)
            } else {
                Some(EditAction::CursorRight)
            }
        },
        KeyCode::Up => {
            if command && shift {
                Some(EditAction::SelectHome)
            } else if command {
                Some(EditAction::CursorHome)
            } else if option && shift {
                Some(EditAction::SelectHome)
            } else if option {
                Some(EditAction::CursorHome)
            } else {
                None
            }
        },
        KeyCode::Down => {
            if command && shift {
                Some(EditAction::SelectEnd)
            } else if command {
                Some(EditAction::CursorEnd)
            } else if option && shift {
                Some(EditAction::SelectEnd)
            } else if option {
                Some(EditAction::CursorEnd)
            } else {
                None
            }
        },
        KeyCode::Home => if shift {
            Some(EditAction::SelectHome)
        } else {
            Some(EditAction::CursorHome)
        },
        KeyCode::End => if shift {
            Some(EditAction::SelectEnd)
        } else {
            Some(EditAction::CursorEnd)
        },
        KeyCode::Backspace => {
            if command {
                Some(EditAction::DeleteToStart)
            } else if option {
                Some(EditAction::DeleteWordBefore)
            } else {
                Some(EditAction::DeleteCharBefore)
            }
        },
        KeyCode::Delete => if command {
            Some(EditAction::DeleteToEnd)
        } else {
            Some(EditAction::DeleteCharAfter)
        },
        _ => None,
    }
}

fn map_project_tree_search_key(key: KeyEvent) -> (res: Option<AppAction>)
    ensures
        res == project_tree_search_table(key),
{
    let plain = key.modifiers.is_empty();
    let ctrl = key.modifiers.control;
    let direct = match key.code {
        KeyCode::Esc => Some(ProjectTreeAction::CloseSearch),
        KeyCode::Enter => Some(ProjectTreeAction::ConfirmSearch),
        KeyCode::Down => if plain { Some(ProjectTreeAction::SearchNext) } else { None },
        KeyCode::Up => if plain { Some(ProjectTreeAction::SearchPrevious) } else { None },
        KeyCode::Char('n') => if ctrl { Some(ProjectTreeAction::SearchNext) } else { None },
        KeyCode::Char('p') => if ctrl { Some(ProjectTreeAction::SearchPrevious) } else { None },
        _ => None,
    };
    match direct {
        Some(a) => Some(AppAction::ProjectTree(a)),
        None => match map_text_edit_key(key) {
            Some(e) => Some(AppAction::ProjectTree(ProjectTreeAction::EditSearch(e))),
            None => None,
        },
    }
}

fn map_search_key(key: KeyEvent) -> (res: Option<AppAction>)
    ensures
        res == search_table(key),
{
    let plain = key.modifiers.is_empty();
    let ctrl = key.modifiers.control;
    let direct = match key.code {
        KeyCode::Esc => Some(SearchAction::Close),
        KeyCode::Enter => Some(SearchAction::Execute),
        KeyCode::Down => if plain { Some(SearchAction::NextResult) } else { None },
        KeyCode::Up => if plain { Some(SearchAction::PreviousResult) } else { None },
        KeyCode::Char('n') => if ctrl { Some(SearchAction::NextResult) } else { None },
        KeyCode::Char('p') => if ctrl { Some(SearchAction::PreviousResult) } else { None },
        KeyCode::Tab => Some(SearchAction::ChangeType),
        _ => None,
    };
    match direct {
        Some(a) => Some(AppAction::Search(a)),
        None => match map_text_edit_key(key) {
            Some(EditAction::InsertChar(c)) => Some(AppAction::Search(SearchAction::InsertChar(c))),
            Some(EditAction::DeleteCharBefore) => Some(AppAction::Search(SearchAction::DeleteChar)),
            Some(e) => Some(AppAction::Search(SearchAction::Edit(e))),
            None => None,
        },
    }
}

fn map_filter_popup_key(key: KeyEvent) -> (res: Option<AppAction>)
    ensures
        res == filter_popup_table(key),
{
    let plain = key.modifiers.is_empty();
    let ctrl = key.modifiers.control;
    let direct = match key.code {
        KeyCode::Esc => Some(FilterAction::Close),
        KeyCode::Enter => Some(FilterAction::Apply),
        KeyCode::Tab | KeyCode::Down => if plain { Some(FilterAction::NextField) } else { None },
        KeyCode::BackTab => Some(FilterAction::PreviousField),
        KeyCode::Up => if plain { Some(FilterAction::PreviousField) } else { None },
        KeyCode::Char('r') => if ctrl { Some(FilterAction::Clear) } else { None },
        _ => None,
    };
    match direct {
        Some(a) => Some(AppAction::Filter(a)),
        None => match map_text_edit_key(key) {
            Some(EditAction::InsertChar(c)) => Some(AppAction::Filter(FilterAction::InsertChar(c))),
            Some(EditAction::DeleteCharBefore) => Some(AppAction::Filter(FilterAction::DeleteChar)),
            Some(e) => Some(AppAction::Filter(FilterAction::Edit(e))),
            None => None,
        },
    }
}

fn map_free_text_key(key: KeyEvent, confirm: AppAction, cancel: AppAction) -> (res: Option<
    AppAction,
>)
    ensures
        res == free_text_table(key, confirm, cancel),
{
    match key.code {
        KeyCode::Enter => Some(confirm),
        KeyCode::Esc => Some(cancel),
        _ => match map_text_edit_key(key) {
            Some(e) => Some(AppAction::Edit(e)),
            None => None,
        },
    }
}

fn map_conflicts_editing_key(key: KeyEvent, st: &InputState) -> (res: Option<AppAction>)
    ensures
        res == conflicts_editing_action(key, *st),
{
    if !is_conflict_editing(st) {
        return None;
    }
    let ctrl = key.modifiers.control;
    match key.code {
        KeyCode::Esc => Some(AppAction::Conflict(ConflictAction::StopEditing)),
        KeyCode::Enter => if ctrl {
            Some(AppAction::Conflict(ConflictAction::ConfirmEdit))
        } else {
            Some(AppAction::Conflict(ConflictAction::EditNewline))
        },
        KeyCode::Char(c) => if c == 's' && ctrl {
            Some(AppAction::Conflict(ConflictAction::ConfirmEdit))
        } else {
            Some(AppAction::Conflict(ConflictAction::EditInsertChar(c)))
        },
        KeyCode::Backspace => Some(AppAction::Conflict(ConflictAction::EditBackspace)),
        KeyCode::Delete => Some(AppAction::Conflict(ConflictAction::EditDelete)),
        KeyCode::Up => Some(AppAction::Conflict(ConflictAction::EditCursorUp)),
        KeyCode::Down => Some(AppAction::Conflict(ConflictAction::EditCursorDown)),
        KeyCode::Left => Some(AppAction::Conflict(ConflictAction::EditCursorLeft)),
        KeyCode::Right => Some(AppAction::Conflict(ConflictAction::EditCursorRight)),
        _ => None,
    }
}

fn map_text_input_key(key: KeyEvent, st: &InputState) -> (res: Option<AppAction>)
    ensures
        res == text_input_key_action(key, *st),
{
    if st.view_mode == ViewMode::ProjectTree && st.project_tree_search_active {
        map_project_tree_search_key(key)
    } else if st.search_active {
        map_search_key(key)
    } else if st.filter_popup_open {
        map_filter_popup_key(key)
    } else if st.view_mode == ViewMode::Staging && st.staging_focus
        == StagingFocus::CommitMessage {
        map_free_text_key(
            key,
            AppAction::Staging(StagingAction::ConfirmCommit),
            AppAction::Staging(StagingAction::CancelCommit),
        )
    } else if st.branches_focus == BranchesFocus::Input {
        map_free_text_key(
            key,
            AppAction::Branch(BranchAction::ConfirmInput),
            AppAction::Branch(BranchAction::CancelInput),
        )
    } else if st.view_mode == ViewMode::Conflicts {
        map_conflicts_editing_key(key, st)
    } else {
        None
    }
}

fn map_help_key(code: KeyCode) -> (res: Option<AppAction>)
    ensures
        res == help_table(code),
{
    match code {
        KeyCode::Esc | KeyCode::Char('?') => Some(AppAction::ToggleHelp),
        _ => None,
    }
}

fn map_view_switch_key(code: KeyCode, st: &InputState) -> (res: Option<AppAction>)
    ensures
        res == view_switch_table(code, *st),
{
    match code {
        KeyCode::Char('1') => Some(AppAction::SwitchView(ViewMode::Graph)),
        KeyCode::Char('2') => Some(AppAction::SwitchView(ViewMode::Staging)),
        KeyCode::Char('3') => Some(AppAction::SwitchView(ViewMode::Branches)),
        KeyCode::Char('4') => Some(AppAction::SwitchView(ViewMode::ProjectTree)),
        KeyCode::Char('5') => if st.conflicts.is_some() {
            Some(AppAction::SwitchView(ViewMode::Conflicts))
        } else {
            None
        },
        KeyCode::Char('w') => Some(AppAction::Branch(BranchAction::OpenWorktrees)),
        _ => None,
    }
}

fn map_diff_scroll_key(code: KeyCode) -> (res: Option<NavigationAction>)
    ensures
        res == diff_scroll_table(code),
{
    match code {
        KeyCode::Char('j') | KeyCode::Down => Some(NavigationAction::ScrollDiffDown),
        KeyCode::Char('k') | KeyCode::Up => Some(NavigationAction::ScrollDiffUp),
        KeyCode::Char('h') | KeyCode::Left => Some(NavigationAction::ScrollDiffLeft),
        KeyCode::Char('l') | KeyCode::Right => Some(NavigationAction::ScrollDiffRight),
        KeyCode::Char('g') | KeyCode::Home => Some(NavigationAction::ScrollDiffTop),
        KeyCode::Char('G') | KeyCode::End => Some(NavigationAction::ScrollDiffBottom),
        KeyCode::PageUp => Some(NavigationAction::ScrollDiffPageUp),
        KeyCode::PageDown => Some(NavigationAction::ScrollDiffPageDown),
        KeyCode::Char('n') => Some(NavigationAction::NextDiffHunk),
        KeyCode::Char('N') => Some(NavigationAction::PreviousDiffHunk),
        _ => None,
    }
}

fn map_list_move_key(code: KeyCode) -> (res: Option<NavigationAction>)
    ensures
        res == list_move_table(code),
{
    match code {
        KeyCode::Char('j') | KeyCode::Down => Some(NavigationAction::MoveDown),
        KeyCode::Char('k') | KeyCode::Up => Some(NavigationAction::MoveUp),
        KeyCode::Char('g') | KeyCode::Home => Some(NavigationAction::GoTop),
        KeyCode::Char('G') | KeyCode::End => Some(NavigationAction::GoBottom),
        KeyCode::PageUp => Some(NavigationAction::PageUp),
        KeyCode::PageDown => Some(NavigationAction::PageDown),
        _ => None,
    }
}

fn map_project_tree_key(code: KeyCode, st: &InputState) -> (res: Option<AppAction>)
    ensures
        res == project_tree_table(code, *st),
{
    let on_tree = st.project_tree_focus == ProjectTreeFocus::Tree;
    if st.project_tree_focus == ProjectTreeFocus::Diff {
        if code == KeyCode::Char('e') {
            return Some(AppAction::Git(GitAction::OpenExternalDiff));
        }
        if let Some(n) = map_diff_scroll_key(code) {
            return Some(AppAction::Navigation(n));
        }
    }
    if code == KeyCode::Esc && st.comparison_active {
        return Some(AppAction::Git(GitAction::ClearComparison));
    }
    if code == KeyCode::Char('q') {
        return Some(AppAction::Quit);
    }
    if let Some(n) = map_list_move_key(code) {
        return Some(AppAction::Navigation(n));
    }
    match code {
        KeyCode::Enter | KeyCode::Char(' ') => if on_tree {
            Some(AppAction::ProjectTree(ProjectTreeAction::ToggleSelected))
        } else {
            None
        },
        KeyCode::Left | KeyCode::Char('h') => if on_tree {
            Some(AppAction::ProjectTree(ProjectTreeAction::CollapseSelected))
        } else {
            None
        },
        KeyCode::Right | KeyCode::Char('l') => if on_tree {
            Some(AppAction::ProjectTree(ProjectTreeAction::ExpandSelected))
        } else {
            None
        },
        KeyCode::Char('/') => Some(AppAction::ProjectTree(ProjectTreeAction::OpenSearch)),
        KeyCode::Char('C') => Some(AppAction::Git(GitAction::ComparePrompt)),
        KeyCode::Char('e') => if st.project_tree_focus == ProjectTreeFocus::ChangedFiles {
            Some(AppAction::Git(GitAction::OpenExternalDiff))
        } else {
            None
        },
        KeyCode::Char('v') => if st.project_tree_focus == ProjectTreeFocus::Diff {
            Some(AppAction::ToggleDiffViewMode)
        } else {
            None
        },
        KeyCode::Tab | KeyCode::BackTab => Some(AppAction::Navigation(NavigationAction::SwitchPanel)),
        KeyCode::Char('r') => Some(AppAction::Refresh),
        KeyCode::Char('y') => Some(AppAction::CopyPanelContent),
        KeyCode::Char('?') => Some(AppAction::ToggleHelp),
        _ => None,
    }
}

fn map_graph_ctrl_key(key: KeyEvent, st: &InputState) -> (res: Option<AppAction>)
    ensures
        res == graph_ctrl_table(key, *st),
{
    if !key.modifiers.control {
        return None;
    }
    match key.code {
        KeyCode::Char('p') => Some(AppAction::Git(GitAction::ForcePush)),
        KeyCode::Char('d') => if st.focus == FocusPanel::BottomRight {
            Some(AppAction::Navigation(NavigationAction::ScrollDiffPageDown))
        } else {
            Some(AppAction::Navigation(NavigationAction::PageDown))
        },
        KeyCode::Char('u') => if st.focus == FocusPanel::BottomRight {
            Some(AppAction::Navigation(NavigationAction::ScrollDiffPageUp))
        } else {
            Some(AppAction::Navigation(NavigationAction::PageUp))
        },
        KeyCode::Char('r') => if st.graph_filter_active {
            Some(AppAction::Filter(FilterAction::Clear))
        } else {
            None
        },
        _ => None,
    }
}

fn map_graph_escape_key(code: KeyCode, st: &InputState) -> (res: Option<AppAction>)
    ensures
        res == graph_escape_table(code, *st),
{
    if code != KeyCode::Esc {
        return None;
    }
    if st.diff_fullscreen {
        return Some(AppAction::ToggleDiffFullscreen);
    }
    match st.focus {
        FocusPanel::BottomRight => Some(AppAction::SwitchBottomMode),
        FocusPanel::BottomLeft => Some(AppAction::Navigation(NavigationAction::BackToGraph)),
        FocusPanel::Graph => None,
    }
}

fn map_graph_focus_key(code: KeyCode, st: &InputState) -> (res: Option<AppAction>)
    ensures
        res == graph_focus_table(code, *st),
{
    match st.focus {
        FocusPanel::BottomLeft => match code {
            KeyCode::Char('j') | KeyCode::Down => Some(
                AppAction::Navigation(NavigationAction::FileDown),
            ),
            KeyCode::Char('k') | KeyCode::Up => Some(
                AppAction::Navigation(NavigationAction::FileUp),
            ),
            KeyCode::Char(' ') => Some(AppAction::Select),
            KeyCode::Char('z') | KeyCode::Enter => Some(AppAction::ToggleDiffFullscreen),
            KeyCode::Char('e') => Some(AppAction::Git(GitAction::OpenExternalDiff)),
            _ => None,
        },
        FocusPanel::BottomRight => match code {
            KeyCode::Char('z') | KeyCode::Enter => Some(AppAction::ToggleDiffFullscreen),
            KeyCode::Char('v') => Some(AppAction::ToggleDiffViewMode),
            KeyCode::Char('e') => Some(AppAction::Git(GitAction::OpenExternalDiff)),
            _ => match map_diff_scroll_key(code) {
                Some(n) => Some(AppAction::Navigation(n)),
                None => None,
            },
        },
        FocusPanel::Graph => None,
    }
}

fn map_graph_root_key(code: KeyCode, st: &InputState) -> (res: Option<AppAction>)
    ensures
        res == graph_root_table(code, *st),
{
    if let Some(n) = map_list_move_key(code) {
        return Some(AppAction::Navigation(n));
    }
    match code {
        KeyCode::Char('q') => Some(AppAction::Quit),
        KeyCode::Enter => Some(AppAction::Select),
        KeyCode::Char('c') => Some(AppAction::Git(GitAction::CommitPrompt)),
        KeyCode::Char('s') => Some(AppAction::Git(GitAction::StashPrompt)),
        KeyCode::Char('m') => Some(AppAction::Git(GitAction::MergePrompt)),
        KeyCode::Char('b') => Some(AppAction::SwitchView(ViewMode::Branches)),
        KeyCode::Char('P') => Some(AppAction::Git(GitAction::Push)),
        KeyCode::Char('p') => Some(AppAction::Git(GitAction::Pull)),
        KeyCode::Char('f') => Some(AppAction::Git(GitAction::Fetch)),
        KeyCode::Char('/') => Some(AppAction::Search(SearchAction::Open)),
        KeyCode::Char('n') => Some(AppAction::Search(SearchAction::NextResult)),
        KeyCode::Char('N') => Some(AppAction::Search(SearchAction::PreviousResult)),
        KeyCode::Char('F') => Some(AppAction::Filter(FilterAction::Open)),
        KeyCode::Char('B') => Some(AppAction::Git(GitAction::OpenBlame)),
        KeyCode::Char('x') => Some(AppAction::Git(GitAction::CherryPick)),
        KeyCode::Char('R') => Some(AppAction::Git(GitAction::ResetPrompt)),
        KeyCode::Char('I') => Some(AppAction::Git(GitAction::InteractiveRebase)),
        KeyCode::Char('Z') => Some(AppAction::Git(GitAction::UndoLastOperation)),
        KeyCode::Char('t') => Some(AppAction::Git(GitAction::CreateTag)),
        KeyCode::Char('T') => Some(AppAction::Git(GitAction::DeleteTag)),
        KeyCode::Char('C') => Some(AppAction::Git(GitAction::CompareSelectedWithHead)),
        KeyCode::Char('X') => Some(AppAction::Git(GitAction::BisectStart)),
        KeyCode::Char('i') => Some(AppAction::Git(GitAction::RepositoryInsights)),
        KeyCode::Char('[') => if st.is_bisecting {
            Some(AppAction::Git(GitAction::BisectGood))
        } else {
            None
        },
        KeyCode::Char(']') => if st.is_bisecting {
            Some(AppAction::Git(GitAction::BisectBad))
        } else {
            None
        },
        KeyCode::Char('\\') => if st.is_bisecting {
            Some(AppAction::Git(GitAction::BisectReset))
        } else {
            None
        },
        KeyCode::Char('A') => if st.is_merging {
            Some(AppAction::Git(GitAction::AbortMerge))
        } else {
            None
        },
        KeyCode::Char('L') => Some(AppAction::LoadMoreHistory),
        KeyCode::Char('?') => Some(AppAction::ToggleHelp),
        KeyCode::Char('r') => Some(AppAction::Refresh),
        KeyCode::Char('y') => Some(AppAction::CopyPanelContent),
        KeyCode::Tab => Some(AppAction::Navigation(NavigationAction::SwitchPanel)),
        KeyCode::Char('M') => Some(AppAction::SwitchBottomMode),
        _ => None,
    }
}

fn map_graph_key(key: KeyEvent, st: &InputState) -> (res: Option<AppAction>)
    ensures
        res == graph_key_action(key, *st),
{
    if let Some(a) = map_graph_ctrl_key(key, st) {
        return Some(a);
    }
    if let Some(a) = map_graph_escape_key(key.code, st) {
        return Some(a);
    }
    if let Some(a) = map_graph_focus_key(key.code, st) {
        return Some(a);
    }
    map_graph_root_key(key.code, st)
}

fn map_branches_global_key(code: KeyCode) -> (res: Option<AppAction>)
    ensures
        res == branches_global_table(code),
{
    match code {
        KeyCode::Tab => Some(AppAction::Branch(BranchAction::NextSection)),
        KeyCode::BackTab => Some(AppAction::Branch(BranchAction::PrevSection)),
        KeyCode::Char('q') => Some(AppAction::Quit),
        KeyCode::Char('y') => Some(AppAction::CopyPanelContent),
        KeyCode::Char('?') => Some(AppAction::ToggleHelp),
        KeyCode::Char('P') => Some(AppAction::Git(GitAction::Push)),
        _ => None,
    }
}

fn map_branches_section_key(code: KeyCode, section: BranchesSection) -> (res: Option<AppAction>)
    ensures
        res == branches_section_table(code, section),
{
    match code {
        KeyCode::Char('j') | KeyCode::Down => {
            return Some(AppAction::Navigation(NavigationAction::MoveDown));
        },
        KeyCode::Char('k') | KeyCode::Up => {
            return Some(AppAction::Navigation(NavigationAction::MoveUp));
        },
        _ => {},
    }
    match section {
        BranchesSection::Branches => match code {
            KeyCode::Enter => Some(AppAction::Branch(BranchAction::Checkout)),
            KeyCode::Char('n') => Some(AppAction::Branch(BranchAction::Create)),
            KeyCode::Char('d') => Some(AppAction::Branch(BranchAction::Delete)),
            KeyCode::Char('r') => Some(AppAction::Branch(BranchAction::Rename)),
            KeyCode::Char('R') => Some(AppAction::Branch(BranchAction::ToggleRemote)),
            KeyCode::Char('m') => Some(AppAction::Git(GitAction::MergePrompt)),
            KeyCode::Char('e') => Some(AppAction::Git(GitAction::RebasePrompt)),
            _ => None,
        },
        BranchesSection::Worktrees => match code {
            KeyCode::Enter => Some(AppAction::Branch(BranchAction::WorktreeSwitch)),
            KeyCode::Char('n') => Some(AppAction::Branch(BranchAction::WorktreeCreate)),
            KeyCode::Char('d') => Some(AppAction::Branch(BranchAction::WorktreeRemove)),
            _ => None,
        },
        BranchesSection::Stashes => match code {
            KeyCode::Char('l') | KeyCode::Right => Some(
                AppAction::Branch(BranchAction::StashFileNext),
            ),
            KeyCode::Char('h') | KeyCode::Left => Some(
                AppAction::Branch(BranchAction::StashFilePrev),
            ),
            KeyCode::Char('a') => Some(AppAction::Branch(BranchAction::StashApply)),
            KeyCode::Char('p') => Some(AppAction::Branch(BranchAction::StashPop)),
            KeyCode::Char('d') => Some(AppAction::Branch(BranchAction::StashDrop)),
            KeyCode::Char('s') => Some(AppAction::Branch(BranchAction::StashSave)),
            KeyCode::Char('J') => Some(
                AppAction::Navigation(NavigationAction::ScrollStashDiffDown),
            ),
            KeyCode::Char('K') => Some(AppAction::Navigation(NavigationAction::ScrollStashDiffUp)),
            _ => None,
        },
    }
}

fn map_branches_key(code: KeyCode, st: &InputState) -> (res: Option<AppAction>)
    ensures
        res == branches_key_action(code, *st),
{
    if let Some(a) = map_branches_global_key(code) {
        return Some(a);
    }
    map_branches_section_key(code, st.branches_section)
}

fn map_staging_ctrl_key(key: KeyEvent) -> (res: Option<AppAction>)
    ensures
        res == staging_ctrl_table(key),
{
    if !key.modifiers.control {
        return None;
    }
    match key.code {
        KeyCode::Char('s') => Some(AppAction::Staging(StagingAction::StashUnstagedFiles)),
        KeyCode::Char('p') => Some(AppAction::Git(GitAction::ForcePush)),
        _ => None,
    }
}

fn map_staging_global_key(code: KeyCode, st: &InputState) -> (res: Option<AppAction>)
    ensures
        res == staging_global_table(code, *st),
{
    match code {
        KeyCode::Char('q') => Some(AppAction::Quit),
        KeyCode::Char('r') => Some(AppAction::Refresh),
        KeyCode::Char('y') => Some(AppAction::CopyPanelContent),
        KeyCode::Char('?') => Some(AppAction::ToggleHelp),
        KeyCode::Char('P') => Some(AppAction::Git(GitAction::Push)),
        KeyCode::Char('A') => if st.is_merging {
            Some(AppAction::Git(GitAction::AbortMerge))
        } else {
            None
        },
        _ => None,
    }
}

fn map_staging_common_key(code: KeyCode, st: &InputState) -> (res: Option<AppAction>)
    ensures
        res == staging_common_table(code, *st),
{
    match code {
        KeyCode::Char('c') => Some(AppAction::Staging(StagingAction::StartCommitMessage)),
        KeyCode::Char('A') => if !st.is_merging {
            Some(AppAction::Git(GitAction::AmendCommit))
        } else {
            None
        },
        KeyCode::Char('e') => Some(AppAction::Git(GitAction::OpenExternalDiff)),
        _ => None,
    }
}

fn map_staging_focus_key(code: KeyCode, st: &InputState) -> (res: Option<AppAction>)
    ensures
        res == staging_focus_table(code, *st),
{
    match st.staging_focus {
        StagingFocus::Unstaged => match code {
            KeyCode::Char('j') | KeyCode::Down => Some(
                AppAction::Navigation(NavigationAction::MoveDown),
            ),
            KeyCode::Char('k') | KeyCode::Up => Some(
                AppAction::Navigation(NavigationAction::MoveUp),
            ),
            KeyCode::Char(' ') => Some(AppAction::Staging(StagingAction::FocusDiff)),
            KeyCode::Char('s') | KeyCode::Enter => Some(
                AppAction::Staging(StagingAction::StageFile),
            ),
            KeyCode::Char('S') => Some(AppAction::Staging(StagingAction::StashSelectedFile)),
            KeyCode::Char('a') => Some(AppAction::Staging(StagingAction::StageAll)),
            KeyCode::Char('d') => Some(AppAction::Staging(StagingAction::DiscardFile)),
            KeyCode::Char('D') => Some(AppAction::Staging(StagingAction::DiscardAll)),
            KeyCode::Tab => Some(AppAction::Staging(StagingAction::SwitchFocus)),
            _ => map_staging_common_key(code, st),
        },
        StagingFocus::Staged => match code {
            KeyCode::Char('j') | KeyCode::Down => Some(
                AppAction::Navigation(NavigationAction::MoveDown),
            ),
            KeyCode::Char('k') | KeyCode::Up => Some(
                AppAction::Navigation(NavigationAction::MoveUp),
            ),
            KeyCode::Char(' ') => Some(AppAction::Staging(StagingAction::FocusDiff)),
            KeyCode::Char('u') | KeyCode::Enter => Some(
                AppAction::Staging(StagingAction::UnstageFile),
            ),
            KeyCode::Char('U') => Some(AppAction::Staging(StagingAction::UnstageAll)),
            KeyCode::Tab => Some(AppAction::Staging(StagingAction::SwitchFocus)),
            _ => map_staging_common_key(code, st),
        },
        StagingFocus::Diff => {
            let from_unstaged = st.staging_last_file_focus == StagingFocus::Unstaged;
            let from_staged = st.staging_last_file_focus == StagingFocus::Staged;
            match code {
                KeyCode::Char('j') | KeyCode::Down => Some(
                    AppAction::Navigation(NavigationAction::ScrollDiffDown),
                ),
                KeyCode::Char('k') | KeyCode::Up => Some(
                    AppAction::Navigation(NavigationAction::ScrollDiffUp),
                ),
                KeyCode::Char('h') | KeyCode::Left => Some(
                    AppAction::Navigation(NavigationAction::ScrollDiffLeft),
                ),
                KeyCode::Char('l') | KeyCode::Right => Some(
                    AppAction::Navigation(NavigationAction::ScrollDiffRight),
                ),
                KeyCode::Tab | KeyCode::Esc => Some(AppAction::Staging(StagingAction::SwitchFocus)),
                KeyCode::Char('v') => Some(AppAction::ToggleDiffViewMode),
                KeyCode::Char('n') => Some(AppAction::Navigation(NavigationAction::NextDiffHunk)),
                KeyCode::Char('N') => Some(
                    AppAction::Navigation(NavigationAction::PreviousDiffHunk),
                ),
                KeyCode::Char('s') => if from_unstaged {
                    Some(AppAction::Staging(StagingAction::StageHunk))
                } else {
                    None
                },
                KeyCode::Char('S') => if from_unstaged {
                    Some(AppAction::Staging(StagingAction::StageLine))
                } else {
                    None
                },
                KeyCode::Char('u') => if from_staged {
                    Some(AppAction::Staging(StagingAction::UnstageHunk))
                } else {
                    None
                },
                KeyCode::Char('U') => if from_staged {
                    Some(AppAction::Staging(StagingAction::UnstageLine))
                } else {
                    None
                },
                _ => map_staging_common_key(code, st),
            }
        },
        StagingFocus::CommitMessage => None,
    }
}

fn map_staging_key(key: KeyEvent, st: &InputState) -> (res: Option<AppAction>)
    ensures
        res == staging_key_action(key, *st),
{
    if let Some(a) = map_staging_ctrl_key(key) {
        return Some(a);
    }
    if let Some(a) = map_staging_global_key(key.code, st) {
        return Some(a);
    }
    map_staging_focus_key(key.code, st)
}

fn map_blame_key(code: KeyCode) -> (res: Option<AppAction>)
    ensures
        res == blame_table(code),
{
    match code {
        KeyCode::Char('q') | KeyCode::Esc => Some(AppAction::Git(GitAction::CloseBlame)),
        KeyCode::Enter => Some(AppAction::Git(GitAction::JumpToBlameCommit)),
        KeyCode::Char('y') => Some(AppAction::CopyPanelContent),
        _ => match map_list_move_key(code) {
            Some(n) => Some(AppAction::Navigation(n)),
            None => None,
        },
    }
}

fn map_conflicts_navigation_key(code: KeyCode, st: &InputState) -> (res: Option<AppAction>)
    ensures
        res == conflicts_navigation_table(code, *st),
{
    let focus = match st.conflicts {
        Some(c) => Some(c.panel_focus),
        None => None,
    };
    let mode = match st.conflicts {
        Some(c) => c.resolution_mode,
        None => ConflictResolutionMode::Block,
    };
    let on_files = focus == Some(ConflictPanelFocus::FileList);
    let on_result = focus == Some(ConflictPanelFocus::ResultPanel);
    let side = focus == Some(ConflictPanelFocus::OursPanel) || focus == Some(
        ConflictPanelFocus::TheirsPanel,
    );
    match code {
        KeyCode::Tab | KeyCode::BackTab => Some(AppAction::Conflict(ConflictAction::SwitchPanel)),
        KeyCode::Char('j') | KeyCode::Down => {
            if on_files {
                Some(AppAction::Conflict(ConflictAction::NextFile))
            } else if side {
                match mode {
                    ConflictResolutionMode::File => Some(
                        AppAction::Conflict(ConflictAction::NextFile),
                    ),
                    ConflictResolutionMode::Line => Some(
                        AppAction::Conflict(ConflictAction::LineDown),
                    ),
                    ConflictResolutionMode::Block => Some(
                        AppAction::Conflict(ConflictAction::NextSection),
                    ),
                }
            } else if on_result {
                Some(AppAction::Conflict(ConflictAction::ResultScrollDown))
            } else {
                None
            }
        },
        KeyCode::Char('k') | KeyCode::Up => {
            if on_files {
                Some(AppAction::Conflict(ConflictAction::PreviousFile))
            } else if side {
                match mode {
                    ConflictResolutionMode::File => Some(
                        AppAction::Conflict(ConflictAction::PreviousFile),
                    ),
                    ConflictResolutionMode::Line => Some(
                        AppAction::Conflict(ConflictAction::LineUp),
                    ),
                    ConflictResolutionMode::Block => Some(
                        AppAction::Conflict(ConflictAction::PreviousSection),
                    ),
                }
            } else if on_result {
                Some(AppAction::Conflict(ConflictAction::ResultScrollUp))
            } else {
                None
            }
        },
        KeyCode::Char('o') | KeyCode::Left => if on_files {
            Some(AppAction::Conflict(ConflictAction::AcceptOursFile))
        } else {
            None
        },
        KeyCode::Char('t') | KeyCode::Right => if on_files {
            Some(AppAction::Conflict(ConflictAction::AcceptTheirsFile))
        } else {
            None
        },
        KeyCode::Char('r') => if on_files {
            Some(AppAction::Conflict(ConflictAction::MarkResolved))
        } else {
            None
        },
        KeyCode::Char('b') => if side && mode == ConflictResolutionMode::Block {
            Some(AppAction::Conflict(ConflictAction::AcceptBoth))
        } else {
            None
        },
        KeyCode::Char('i') | KeyCode::Char('e') => if on_result {
            Some(AppAction::Conflict(ConflictAction::StartEditing))
        } else {
            None
        },
        KeyCode::Char('F') => Some(AppAction::Conflict(ConflictAction::SetModeFile)),
        KeyCode::Char('B') => Some(AppAction::Conflict(ConflictAction::SetModeBlock)),
        KeyCode::Char('L') => Some(AppAction::Conflict(ConflictAction::SetModeLine)),
        KeyCode::Char(' ') => if side {
            match mode {
                ConflictResolutionMode::Block => Some(
                    AppAction::Conflict(ConflictAction::EnterResolve),
                ),
                ConflictResolutionMode::Line => Some(
                    AppAction::Conflict(ConflictAction::ToggleLine),
                ),
                ConflictResolutionMode::File => None,
            }
        } else {
            None
        },
        KeyCode::Enter => if side {
            match mode {
                ConflictResolutionMode::File => Some(
                    AppAction::Conflict(ConflictAction::EnterResolve),
                ),
                _ => Some(AppAction::Conflict(ConflictAction::MarkResolved)),
            }
        } else {
            None
        },
        KeyCode::Char('V') => Some(AppAction::Conflict(ConflictAction::FinalizeMerge)),
        KeyCode::Char('q') | KeyCode::Esc => Some(AppAction::Conflict(ConflictAction::LeaveView)),
        KeyCode::Char('A') => Some(AppAction::Conflict(ConflictAction::AbortMerge)),
        KeyCode::Char('?') => Some(AppAction::ToggleHelp),
        _ => None,
    }
}

fn map_conflicts_key(key: KeyEvent, st: &InputState) -> (res: Option<AppAction>)
    ensures
        res == conflicts_key_action(key, *st),
{
    if let Some(a) = map_conflicts_editing_key(key, st) {
        return Some(a);
    }
    map_conflicts_navigation_key(key.code, st)
}

fn map_view_key(key: KeyEvent, st: &InputState) -> (res: Option<AppAction>)
    ensures
        res == view_key_action(key, *st),
{
    match st.view_mode {
        ViewMode::Graph => map_graph_key(key, st),
        ViewMode::Staging => map_staging_key(key, st),
        ViewMode::Branches => map_branches_key(key.code, st),
        ViewMode::ProjectTree => map_project_tree_key(key.code, st),
        ViewMode::Conflicts => map_conflicts_key(key, st),
        ViewMode::Blame => map_blame_key(key.code),
        ViewMode::Help => None,
    }
}

/// Maps a key press to the action it triggers in the given state.
pub fn map_key(key: KeyEvent, st: &InputState) -> (res: Option<AppAction>)
    ensures
        res == key_action(key, *st),
{
    if let Some(a) = map_quit_shortcut(key) {
        return Some(a);
    }
    if has_blocking_modal(st) {
        return map_modal_key(key, st);
    }
    if has_blocking_text_input(st) {
        return map_text_input_key(key, st);
    }
    if st.view_mode == ViewMode::Help {
        return map_help_key(key.code);
    }
    if let Some(a) = map_view_switch_key(key.code, st) {
        return Some(a);
    }
    map_view_key(key, st)
}


// ---------------------------------------------------------------------------
// Laws of the mapping
// ---------------------------------------------------------------------------

/// Ctrl+C quits, whatever the state.
pub proof fn law_ctrl_c_always_quits(key: KeyEvent, st: InputState)
    requires
        key.modifiers.control,
        key.code == KeyCode::Char('c'),
    ensures
        key_action(key, st) == Some(AppAction::Quit),
{
}

/// While a blocking modal is open, it alone decides what a key does (Ctrl+C
/// aside): a pending confirmation only answers y/n/Esc with confirm/cancel.
pub proof fn law_modal_captures_keys(key: KeyEvent, st: InputState)
    requires
        has_blocking_modal_spec(st),
        !is_quit_shortcut(key),
    ensures
        key_action(key, st) == modal_key_action(key, st),
        st.confirmation_pending && !st.repository_insights_open && !st.merge_picker_active
            && !st.reset_picker_active ==> key_action(key, st) is None || key_action(key, st)
            == Some(AppAction::ConfirmAction) || key_action(key, st) == Some(
            AppAction::CancelAction,
        ),
{
}

/// While a text field is active (and no modal is open), no key switches the
/// view: digits typed into a commit message or a branch name stay text.
pub proof fn law_text_input_never_switches_view(key: KeyEvent, st: InputState, v: ViewMode)
    requires
        !has_blocking_modal_spec(st),
        has_blocking_text_input_spec(st),
    ensures
        key_action(key, st) != Some(AppAction::SwitchView(v)),
        !is_quit_shortcut(key) ==> key_action(key, st) == text_input_key_action(key, st),
{
}

/// Outside modals, text fields and help, the digit keys switch between the
/// main views (the conflicts view only while a merge has conflicts).
pub proof fn law_digits_switch_views(key: KeyEvent, st: InputState)
    requires
        !has_blocking_modal_spec(st),
        !has_blocking_text_input_spec(st),
        st.view_mode != ViewMode::Help,
    ensures
        key.code == KeyCode::Char('1') ==> key_action(key, st) == Some(
            AppAction::SwitchView(ViewMode::Graph),
        ),
        key.code == KeyCode::Char('2') ==> key_action(key, st) == Some(
            AppAction::SwitchView(ViewMode::Staging),
        ),
        key.code == KeyCode::Char('3') ==> key_action(key, st) == Some(
            AppAction::SwitchView(ViewMode::Branches),
        ),
        key.code == KeyCode::Char('4') ==> key_action(key, st) == Some(
            AppAction::SwitchView(ViewMode::ProjectTree),
        ),
        key.code == KeyCode::Char('5') && st.conflicts.is_some() ==> key_action(key, st) == Some(
            AppAction::SwitchView(ViewMode::Conflicts),
        ),
{
}

/// On the help screen (nothing else open) only Esc and `?` act, and they
/// close it.
pub proof fn law_help_screen_only_closes(key: KeyEvent, st: InputState)
    requires
        !has_blocking_modal_spec(st),
        !has_blocking_text_input_spec(st),
        st.view_mode == ViewMode::Help,
        !is_quit_shortcut(key),
    ensures
        key_action(key, st) is None || key_action(key, st) == Some(AppAction::ToggleHelp),
        (key.code == KeyCode::Esc || key.code == KeyCode::Char('?')) ==> key_action(key, st)
            == Some(AppAction::ToggleHelp),
{
}

/// Whether `key` is the single character a binding names.
pub open spec fn is_bound_key(key: KeyEvent, binding: &str) -> bool {
    key.code matches KeyCode::Char(c) && binding@ == seq![c]
}

/// A binding that names the single character `ch` is bound to `ch` only.
proof fn lemma_bound_key_char(key: KeyEvent, binding: &str, ch: char)
    requires
        binding@ =~= seq![ch],
    ensures
        is_bound_key(key, binding) ==> key.code == KeyCode::Char(ch),
{
    if is_bound_key(key, binding) {
        let c = key.code->Char_0;
        assert(binding@[0] == c);
    }
}

/// In the graph view, with no modal, text field or Ctrl held, each key
/// named by the graph's bindings (those the help shows, such as "P: push"
/// and "p: pull") triggers the action it is named for, whatever panel has
/// the focus; only the search keys n/N jump between diff hunks while the
/// diff has the focus.
pub proof fn law_graph_keys_do_what_their_bindings_say(key: KeyEvent, st: InputState)
    requires
        !has_blocking_modal_spec(st),
        !has_blocking_text_input_spec(st),
        st.view_mode == ViewMode::Graph,
        !key.modifiers.control,
    ensures
        is_bound_key(key, git_actions::PUSH) ==> key_action(key, st) == Some(AppAction::Git(GitAction::Push)),
        is_bound_key(key, git_actions::PULL) ==> key_action(key, st) == Some(AppAction::Git(GitAction::Pull)),
        is_bound_key(key, git_actions::FETCH) ==> key_action(key, st) == Some(AppAction::Git(GitAction::Fetch)),
        is_bound_key(key, git_actions::COMMIT) ==> key_action(key, st) == Some(AppAction::Git(GitAction::CommitPrompt)),
        is_bound_key(key, git_actions::STASH) ==> key_action(key, st) == Some(AppAction::Git(GitAction::StashPrompt)),
        is_bound_key(key, git_actions::MERGE) ==> key_action(key, st) == Some(AppAction::Git(GitAction::MergePrompt)),
        is_bound_key(key, git_actions::BRANCHES) ==> key_action(key, st) == Some(AppAction::SwitchView(ViewMode::Branches)),
        is_bound_key(key, git_actions::CHERRY_PICK) ==> key_action(key, st) == Some(AppAction::Git(GitAction::CherryPick)),
        is_bound_key(key, git_actions::BLAME) ==> key_action(key, st) == Some(AppAction::Git(GitAction::OpenBlame)),
        is_bound_key(key, git_actions::RESET) ==> key_action(key, st) == Some(AppAction::Git(GitAction::ResetPrompt)),
        is_bound_key(key, git_actions::LOAD_MORE) ==> key_action(key, st) == Some(AppAction::LoadMoreHistory),
        is_bound_key(key, git_actions::INTERACTIVE_REBASE) ==> key_action(key, st) == Some(AppAction::Git(GitAction::InteractiveRebase)),
        is_bound_key(key, git_actions::UNDO_REFLOG) ==> key_action(key, st) == Some(AppAction::Git(GitAction::UndoLastOperation)),
        is_bound_key(key, git_actions::CREATE_TAG) ==> key_action(key, st) == Some(AppAction::Git(GitAction::CreateTag)),
        is_bound_key(key, git_actions::DELETE_TAG) ==> key_action(key, st) == Some(AppAction::Git(GitAction::DeleteTag)),
        is_bound_key(key, git_actions::COMPARE_HEAD) ==> key_action(key, st) == Some(AppAction::Git(GitAction::CompareSelectedWithHead)),
        is_bound_key(key, git_actions::BISECT_START) ==> key_action(key, st) == Some(AppAction::Git(GitAction::BisectStart)),
        is_bound_key(key, git_actions::REPOSITORY_INSIGHTS) ==> key_action(key, st) == Some(AppAction::Git(GitAction::RepositoryInsights)),
        is_bound_key(key, git_actions::ABORT_MERGE) && st.is_merging ==> key_action(key, st) == Some(AppAction::Git(GitAction::AbortMerge)),
        is_bound_key(key, search::OPEN) ==> key_action(key, st) == Some(AppAction::Search(SearchAction::Open)),
        is_bound_key(key, search::NEXT) && st.focus != FocusPanel::BottomRight ==> key_action(key, st) == Some(AppAction::Search(SearchAction::NextResult)),
        is_bound_key(key, search::PREVIOUS) && st.focus != FocusPanel::BottomRight ==> key_action(key, st) == Some(AppAction::Search(SearchAction::PreviousResult)),
        is_bound_key(key, search::NEXT) && st.focus == FocusPanel::BottomRight ==> key_action(key, st) == Some(AppAction::Navigation(NavigationAction::NextDiffHunk)),
        is_bound_key(key, search::PREVIOUS) && st.focus == FocusPanel::BottomRight ==> key_action(key, st) == Some(AppAction::Navigation(NavigationAction::PreviousDiffHunk)),
        is_bound_key(key, search::FILTER) ==> key_action(key, st) == Some(AppAction::Filter(FilterAction::Open)),
        is_bound_key(key, global::HELP) ==> key_action(key, st) == Some(AppAction::ToggleHelp),
        is_bound_key(key, global::REFRESH) ==> key_action(key, st) == Some(AppAction::Refresh),
        is_bound_key(key, global::COPY) ==> key_action(key, st) == Some(AppAction::CopyPanelContent),
        is_bound_key(key, global::QUIT[0]) ==> key_action(key, st) == Some(AppAction::Quit),
{
    reveal_strlit("P");
    lemma_bound_key_char(key, git_actions::PUSH, 'P');
    reveal_strlit("p");
    lemma_bound_key_char(key, git_actions::PULL, 'p');
    reveal_strlit("f");
    lemma_bound_key_char(key, git_actions::FETCH, 'f');
    reveal_strlit("c");
    lemma_bound_key_char(key, git_actions::COMMIT, 'c');
    reveal_strlit("s");
    lemma_bound_key_char(key, git_actions::STASH, 's');
    reveal_strlit("m");
    lemma_bound_key_char(key, git_actions::MERGE, 'm');
    reveal_strlit("b");
    lemma_bound_key_char(key, git_actions::BRANCHES, 'b');
    reveal_strlit("x");
    lemma_bound_key_char(key, git_actions::CHERRY_PICK, 'x');
    reveal_strlit("B");
    lemma_bound_key_char(key, git_actions::BLAME, 'B');
    reveal_strlit("R");
    lemma_bound_key_char(key, git_actions::RESET, 'R');
    reveal_strlit("L");
    lemma_bound_key_char(key, git_actions::LOAD_MORE, 'L');
    reveal_strlit("I");
    lemma_bound_key_char(key, git_actions::INTERACTIVE_REBASE, 'I');
    reveal_strlit("Z");
    lemma_bound_key_char(key, git_actions::UNDO_REFLOG, 'Z');
    reveal_strlit("t");
    lemma_bound_key_char(key, git_actions::CREATE_TAG, 't');
    reveal_strlit("T");
    lemma_bound_key_char(key, git_actions::DELETE_TAG, 'T');
    reveal_strlit("C");
    lemma_bound_key_char(key, git_actions::COMPARE_HEAD, 'C');
    reveal_strlit("X");
    lemma_bound_key_char(key, git_actions::BISECT_START, 'X');
    reveal_strlit("i");
    lemma_bound_key_char(key, git_actions::REPOSITORY_INSIGHTS, 'i');
    reveal_strlit("A");
    lemma_bound_key_char(key, git_actions::ABORT_MERGE, 'A');
    reveal_strlit("/");
    lemma_bound_key_char(key, search::OPEN, '/');
    reveal_strlit("n");
    lemma_bound_key_char(key, search::NEXT, 'n');
    reveal_strlit("N");
    lemma_bound_key_char(key, search::PREVIOUS, 'N');
    reveal_strlit("F");
    lemma_bound_key_char(key, search::FILTER, 'F');
    reveal_strlit("?");
    lemma_bound_key_char(key, global::HELP, '?');
    reveal_strlit("r");
    lemma_bound_key_char(key, global::REFRESH, 'r');
    reveal_strlit("y");
    lemma_bound_key_char(key, global::COPY, 'y');
    reveal_strlit("q");
    lemma_bound_key_char(key, global::QUIT[0], 'q');
}

/// In the staging view, with no modal, text field or Ctrl held, the keys
/// named by the staging bindings act on the panel that has the focus: on
/// the unstaged list they stage, stash or discard, on the staged list they
/// unstage, on the diff they stage or unstage the hunk or line; push and the
/// commit message work from every panel.
pub proof fn law_staging_keys_do_what_their_bindings_say(key: KeyEvent, st: InputState)
    requires
        !has_blocking_modal_spec(st),
        !has_blocking_text_input_spec(st),
        st.view_mode == ViewMode::Staging,
        !key.modifiers.control,
    ensures
        is_bound_key(key, git_actions::PUSH) ==> key_action(key, st) == Some(AppAction::Git(GitAction::Push)),
        is_bound_key(key, staging::COMMIT_MESSAGE) && st.staging_focus != StagingFocus::CommitMessage
            ==> key_action(key, st) == Some(AppAction::Staging(StagingAction::StartCommitMessage)),
        st.staging_focus == StagingFocus::Unstaged ==> {
            &&& is_bound_key(key, staging::STAGE[0]) ==> key_action(key, st) == Some(AppAction::Staging(StagingAction::StageFile))
            &&& is_bound_key(key, staging::STAGE_ALL) ==> key_action(key, st) == Some(AppAction::Staging(StagingAction::StageAll))
            &&& is_bound_key(key, staging::STASH_FILE) ==> key_action(key, st) == Some(AppAction::Staging(StagingAction::StashSelectedFile))
            &&& is_bound_key(key, staging::DISCARD) ==> key_action(key, st) == Some(AppAction::Staging(StagingAction::DiscardFile))
            &&& is_bound_key(key, staging::DISCARD_ALL) ==> key_action(key, st) == Some(AppAction::Staging(StagingAction::DiscardAll))
            &&& key.code == KeyCode::Enter ==> key_action(key, st) == Some(AppAction::Staging(StagingAction::StageFile))
        },
        st.staging_focus == StagingFocus::Staged ==> {
            &&& is_bound_key(key, staging::UNSTAGE[0]) ==> key_action(key, st) == Some(AppAction::Staging(StagingAction::UnstageFile))
            &&& is_bound_key(key, staging::UNSTAGE_ALL) ==> key_action(key, st) == Some(AppAction::Staging(StagingAction::UnstageAll))
            &&& key.code == KeyCode::Enter ==> key_action(key, st) == Some(AppAction::Staging(StagingAction::UnstageFile))
        },
        st.staging_focus == StagingFocus::Diff && st.staging_last_file_focus == StagingFocus::Unstaged ==> {
            &&& is_bound_key(key, staging::STAGE_HUNK) ==> key_action(key, st) == Some(AppAction::Staging(StagingAction::StageHunk))
            &&& is_bound_key(key, staging::STAGE_LINE) ==> key_action(key, st) == Some(AppAction::Staging(StagingAction::StageLine))
        },
{
    reveal_strlit("P");
    lemma_bound_key_char(key, git_actions::PUSH, 'P');
    reveal_strlit("c");
    lemma_bound_key_char(key, staging::COMMIT_MESSAGE, 'c');
    reveal_strlit("s");
    lemma_bound_key_char(key, staging::STAGE[0], 's');
    lemma_bound_key_char(key, staging::STAGE_HUNK, 's');
    reveal_strlit("a");
    lemma_bound_key_char(key, staging::STAGE_ALL, 'a');
    reveal_strlit("S");
    lemma_bound_key_char(key, staging::STASH_FILE, 'S');
    lemma_bound_key_char(key, staging::STAGE_LINE, 'S');
    reveal_strlit("d");
    lemma_bound_key_char(key, staging::DISCARD, 'd');
    reveal_strlit("D");
    lemma_bound_key_char(key, staging::DISCARD_ALL, 'D');
    reveal_strlit("u");
    lemma_bound_key_char(key, staging::UNSTAGE[0], 'u');
    reveal_strlit("U");
    lemma_bound_key_char(key, staging::UNSTAGE_ALL, 'U');
}

} // verus!
