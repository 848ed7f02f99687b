//! Actions that user input is translated into.

use vstd::prelude::*;

verus! {

/// Main views of the application.
#[derive(Debug, Clone, Copy, PartialEq, Eq, Structural)]
pub enum ViewMode {
    Graph,
    Staging,
    Branches,
    ProjectTree,
    Conflicts,
    Blame,
    Help,
}

/// Text-field editing commands.
#[derive(Debug, Clone, Copy, PartialEq, Eq, Structural)]
pub enum EditAction {
    InsertChar(char),
    DeleteCharBefore,
    DeleteCharAfter,
    DeleteWordBefore,
    DeleteToStart,
    DeleteToEnd,
    CursorLeft,
    CursorRight,
    CursorWordLeft,
    CursorWordRight,
    CursorHome,
    CursorEnd,
    SelectLeft,
    SelectRight,
    SelectWordLeft,
    SelectWordRight,
    SelectHome,
    SelectEnd,
    SelectAll,
    Undo,
    Redo,
}

/// Search bar commands.
#[derive(Debug, Clone, Copy, PartialEq, Eq, Structural)]
pub enum SearchAction {
    Open,
    Close,
    Execute,
    NextResult,
    PreviousResult,
    ChangeType,
    InsertChar(char),
    DeleteChar,
    Edit(EditAction),
}

/// Filter popup commands.
#[derive(Debug, Clone, Copy, PartialEq, Eq, Structural)]
pub enum FilterAction {
    Open,
    Close,
    Apply,
    NextField,
    PreviousField,
    Clear,
    InsertChar(char),
    DeleteChar,
    Edit(EditAction),
}

/// Git operations.
#[derive(Debug, Clone, Copy, PartialEq, Eq, Structural)]
pub enum GitAction {
    Push,
    Pull,
    Fetch,
    ForcePush,
    CommitPrompt,
    StashPrompt,
    MergePrompt,
    RebasePrompt,
    ResetPrompt,
    ComparePrompt,
    CompareSelectedWithHead,
    ClearComparison,
    CherryPick,
    InteractiveRebase,
    UndoLastOperation,
    CreateTag,
    DeleteTag,
    AmendCommit,
    AbortMerge,
    BisectStart,
    BisectGood,
    BisectBad,
    BisectReset,
    OpenBlame,
    CloseBlame,
    JumpToBlameCommit,
    OpenExternalDiff,
    RepositoryInsights,
    RepositoryInsightsDown,
    RepositoryInsightsUp,
}

/// Movement and scrolling commands.
#[derive(Debug, Clone, Copy, PartialEq, Eq, Structural)]
pub enum NavigationAction {
    MoveUp,
    MoveDown,
    GoTop,
    GoBottom,
    PageUp,
    PageDown,
    SwitchPanel,
    BackToGraph,
    FileUp,
    FileDown,
    ScrollDiffUp,
    ScrollDiffDown,
    ScrollDiffLeft,
    ScrollDiffRight,
    ScrollDiffTop,
    ScrollDiffBottom,
    ScrollDiffPageUp,
    ScrollDiffPageDown,
    NextDiffHunk,
    PreviousDiffHunk,
    ScrollStashDiffUp,
    ScrollStashDiffDown,
    SelectCommit(usize),
    SelectFile(usize),
    FocusGraph,
    FocusBottomLeft,
    FocusBottomRight,
}

/// Project tree commands.
#[derive(Debug, Clone, Copy, PartialEq, Eq, Structural)]
pub enum ProjectTreeAction {
    ToggleSelected,
    CollapseSelected,
    ExpandSelected,
    OpenSearch,
    CloseSearch,
    ConfirmSearch,
    SearchNext,
    SearchPrevious,
    EditSearch(EditAction),
}

/// Branch, worktree and stash commands.
#[derive(Debug, Clone, Copy, PartialEq, Eq, Structural)]
pub enum BranchAction {
    OpenWorktrees,
    NextSection,
    PrevSection,
    Checkout,
    Create,
    Delete,
    Rename,
    ToggleRemote,
    WorktreeSwitch,
    WorktreeCreate,
    WorktreeRemove,
    StashFileNext,
    StashFilePrev,
    StashApply,
    StashPop,
    StashDrop,
    StashSave,
    ConfirmInput,
    CancelInput,
    FocusList,
    FocusDetail,
    SelectLocalBranch(usize),
    SelectRemoteBranch(usize),
    SelectWorktree(usize),
    SelectStash(usize),
}

/// Staging view commands.
#[derive(Debug, Clone, Copy, PartialEq, Eq, Structural)]
pub enum StagingAction {
    StageFile,
    StageAll,
    UnstageFile,
    UnstageAll,
    StageHunk,
    StageLine,
    UnstageHunk,
    UnstageLine,
    DiscardFile,
    DiscardAll,
    StashSelectedFile,
    StashUnstagedFiles,
    SwitchFocus,
    FocusDiff,
    FocusUnstaged,
    FocusStaged,
    SelectUnstaged(usize),
    SelectStaged(usize),
    StartCommitMessage,
    ConfirmCommit,
    CancelCommit,
}

/// Conflict resolution commands.
#[derive(Debug, Clone, Copy, PartialEq, Eq, Structural)]
pub enum ConflictAction {
    SwitchPanel,
    NextFile,
    PreviousFile,
    NextSection,
    PreviousSection,
    LineUp,
    LineDown,
    ResultScrollUp,
    ResultScrollDown,
    AcceptOursFile,
    AcceptTheirsFile,
    AcceptBoth,
    MarkResolved,
    EnterResolve,
    ToggleLine,
    SetModeFile,
    SetModeBlock,
    SetModeLine,
    StartEditing,
    StopEditing,
    ConfirmEdit,
    EditInsertChar(char),
    EditBackspace,
    EditDelete,
    EditNewline,
    EditCursorUp,
    EditCursorDown,
    EditCursorLeft,
    EditCursorRight,
    FinalizeMerge,
    AbortMerge,
    LeaveView,
}

/// An action of the application, the result of one input event.
#[derive(Debug, Clone, Copy, PartialEq, Eq, Structural)]
pub enum AppAction {
    Quit,
    Refresh,
    ToggleHelp,
    CopyPanelContent,
    Select,
    SwitchView(ViewMode),
    SwitchBottomMode,
    ToggleDiffFullscreen,
    ToggleDiffViewMode,
    LoadMoreHistory,
    ConfirmAction,
    CancelAction,
    MergePickerUp,
    MergePickerDown,
    MergePickerConfirm,
    MergePickerCancel,
    ResetPickerUp,
    ResetPickerDown,
    ResetPickerSelectSoft,
    ResetPickerSelectMixed,
    ResetPickerSelectHard,
    ResetPickerConfirm,
    ResetPickerCancel,
    Navigation(NavigationAction),
    Search(SearchAction),
    Filter(FilterAction),
    Git(GitAction),
    Branch(BranchAction),
    Staging(StagingAction),
    Conflict(ConflictAction),
    ProjectTree(ProjectTreeAction),
    Edit(EditAction),
}

} // verus!
