use git_sv::hit_test::{
    BranchesLayout, GraphLayout, HitTestContext, ProjectTreeLayout, Rect, StagingLayout,
};
use git_sv::i18n::Language;
use git_sv::input::action::{
    AppAction, BranchAction, ConflictAction, EditAction, FilterAction, GitAction,
    NavigationAction, ProjectTreeAction, SearchAction, StagingAction, ViewMode,
};
use git_sv::input::keyboard::map_key;
use git_sv::input::keys::{KeyCode, KeyEvent, KeyModifiers};
use git_sv::input::mouse::{map_mouse, MouseContext, MouseEvent, MouseEventKind};
use git_sv::input::state::{
    BranchesFocus, BranchesSection, ConflictInputState, ConflictPanelFocus,
    ConflictResolutionMode, FocusPanel, InputState, StagingFocus,
};

fn none() -> KeyModifiers {
    KeyModifiers::none()
}

fn control() -> KeyModifiers {
    KeyModifiers::control()
}

fn shift() -> KeyModifiers {
    KeyModifiers { shift: true, ..KeyModifiers::none() }
}

fn sup() -> KeyModifiers {
    KeyModifiers { super_key: true, ..KeyModifiers::none() }
}

fn alt_shift() -> KeyModifiers {
    KeyModifiers { alt: true, shift: true, ..KeyModifiers::none() }
}

fn key(code: KeyCode, modifiers: KeyModifiers) -> KeyEvent {
    KeyEvent::new(code, modifiers)
}

fn create_test_state() -> InputState {
    InputState::new()
}

fn conflicts_open() -> ConflictInputState {
    ConflictInputState {
        is_editing: false,
        panel_focus: ConflictPanelFocus::FileList,
        resolution_mode: ConflictResolutionMode::Block,
    }
}

fn rect(x: u16, y: u16, width: u16, height: u16) -> Rect {
    Rect::new(x, y, width, height)
}

/// Hit-test areas of a 120x40 terminal laid out as the application does.
fn create_hit_context(state: &InputState) -> HitTestContext {
    HitTestContext {
        merge_picker_active: state.merge_picker_active,
        reset_picker_active: state.reset_picker_active,
        confirmation_pending: state.confirmation_pending,
        filter_popup_open: state.filter_popup_open,
        view_mode: state.view_mode,
        screen: rect(0, 0, 120, 40),
        graph: GraphLayout {
            status_bar: rect(0, 0, 120, 1),
            nav_bar: rect(0, 1, 120, 1),
            graph: rect(0, 2, 120, 22),
            bottom_left: rect(0, 24, 60, 15),
            bottom_right: rect(60, 24, 60, 15),
            search_bar: None,
            diff_fullscreen: None,
            help_bar: rect(0, 39, 120, 1),
        },
        staging: StagingLayout {
            status_bar: rect(0, 0, 120, 1),
            nav_bar: rect(0, 1, 120, 1),
            unstaged_panel: rect(0, 2, 48, 15),
            staged_panel: rect(0, 17, 48, 15),
            diff_panel: rect(48, 2, 72, 30),
            commit_message: rect(0, 32, 120, 7),
            help_bar: rect(0, 39, 120, 1),
        },
        branches: BranchesLayout {
            status_bar: rect(0, 0, 120, 1),
            nav_bar: rect(0, 1, 120, 1),
            tabs: rect(0, 2, 120, 1),
            list_panel: rect(0, 3, 48, 36),
            detail_panel: rect(48, 3, 72, 36),
            help_bar: rect(0, 39, 120, 1),
        },
        project_tree: ProjectTreeLayout {
            status_bar: rect(0, 0, 120, 1),
            nav_bar: rect(0, 1, 120, 1),
            search_bar: None,
            tree_panel: rect(0, 2, 40, 37),
            history_panel: rect(40, 2, 80, 12),
            changed_files_panel: rect(40, 14, 80, 12),
            diff_panel: rect(40, 26, 80, 13),
            help_bar: rect(0, 39, 120, 1),
        },
    }
}

fn create_mouse_context(state: &InputState, hit: &HitTestContext) -> MouseContext {
    MouseContext {
        lang: Language::Fr,
        view_mode: state.view_mode,
        focus: state.focus,
        graph_len: 1,
        selected_index: 0,
        commit_file_count: 0,
        unresolved_conflicts: 0,
        confirmation_pending: state.confirmation_pending,
        confirmation_popup: rect(30, 15, 60, 10),
        staging_focus: state.staging_focus,
        unstaged_count: 0,
        staged_count: 0,
        staging_layout: hit.staging,
        branches_section: state.branches_section,
        local_branch_count: 0,
        remote_branch_count: 0,
        show_remote: false,
        worktree_count: 0,
        stash_count: 0,
        branches_layout: hit.branches,
    }
}

fn click(column: u16, row: u16) -> MouseEvent {
    MouseEvent { kind: MouseEventKind::Down, column, row }
}

fn scroll_down(column: u16, row: u16) -> MouseEvent {
    MouseEvent { kind: MouseEventKind::ScrollDown, column, row }
}

#[test]
fn input_test_search_mode_arrow_down_moves_to_next_result() {
    let mut state = create_test_state();
    state.search_active = true;
    let action = map_key(key(KeyCode::Down, none()), &state);
    assert_eq!(action, Some(AppAction::Search(SearchAction::NextResult)));
}

#[test]
fn input_test_search_mode_ctrl_n_moves_to_next_result() {
    let mut state = create_test_state();
    state.search_active = true;
    let action = map_key(key(KeyCode::Char('n'), control()), &state);
    assert_eq!(action, Some(AppAction::Search(SearchAction::NextResult)));
}

#[test]
fn input_test_filter_popup_arrow_down_moves_to_next_field() {
    let mut state = create_test_state();
    state.filter_popup_open = true;
    let action = map_key(key(KeyCode::Down, none()), &state);
    assert_eq!(action, Some(AppAction::Filter(FilterAction::NextField)));
}

#[test]
fn input_test_ctrl_p_triggers_force_push() {
    let state = create_test_state();
    let action = map_key(key(KeyCode::Char('p'), control()), &state);
    assert_eq!(action, Some(AppAction::Git(GitAction::ForcePush)));
}

#[test]
fn input_test_bottom_left_space_opens_diff_panel() {
    let mut state = create_test_state();
    state.focus = FocusPanel::BottomLeft;
    let action = map_key(key(KeyCode::Char(' '), none()), &state);
    assert_eq!(action, Some(AppAction::Select));
}

#[test]
fn input_test_bottom_left_enter_opens_fullscreen_diff() {
    let mut state = create_test_state();
    state.focus = FocusPanel::BottomLeft;
    let action = map_key(key(KeyCode::Enter, none()), &state);
    assert_eq!(action, Some(AppAction::ToggleDiffFullscreen));
}

#[test]
fn input_test_staging_space_opens_diff_panel() {
    let mut state = create_test_state();
    state.view_mode = ViewMode::Staging;
    state.staging_focus = StagingFocus::Staged;
    let action = map_key(key(KeyCode::Char(' '), none()), &state);
    assert_eq!(action, Some(AppAction::Staging(StagingAction::FocusDiff)));
}

#[test]
fn input_test_mouse_click_nav_bar_switches_view() {
    let state = create_test_state();
    let hit = create_hit_context(&state);
    let ctx = create_mouse_context(&state, &hit);
    let action = map_mouse(click(20, 1), &hit, &ctx);
    assert_eq!(action, Some(AppAction::SwitchView(ViewMode::Staging)));
}

#[test]
fn input_test_mouse_scroll_graph_moves_down() {
    let state = create_test_state();
    let hit = create_hit_context(&state);
    let ctx = create_mouse_context(&state, &hit);
    let action = map_mouse(scroll_down(10, 5), &hit, &ctx);
    assert_eq!(action, Some(AppAction::Navigation(NavigationAction::MoveDown)));
}

#[test]
fn tests_test_search_mode_arrow_down_moves_to_next_result() {
    let mut state = create_test_state();
    state.search_active = true;
    let action = map_key(key(KeyCode::Down, none()), &state);
    assert_eq!(action, Some(AppAction::Search(SearchAction::NextResult)));
}

#[test]
fn tests_test_search_mode_ctrl_n_moves_to_next_result() {
    let mut state = create_test_state();
    state.search_active = true;
    let action = map_key(key(KeyCode::Char('n'), control()), &state);
    assert_eq!(action, Some(AppAction::Search(SearchAction::NextResult)));
}

#[test]
fn tests_test_filter_popup_arrow_down_moves_to_next_field() {
    let mut state = create_test_state();
    state.filter_popup_open = true;
    let action = map_key(key(KeyCode::Down, none()), &state);
    assert_eq!(action, Some(AppAction::Filter(FilterAction::NextField)));
}

#[test]
fn tests_test_ctrl_p_triggers_force_push() {
    let state = create_test_state();
    let action = map_key(key(KeyCode::Char('p'), control()), &state);
    assert_eq!(action, Some(AppAction::Git(GitAction::ForcePush)));
}

#[test]
fn tests_test_bottom_left_space_opens_diff_panel() {
    let mut state = create_test_state();
    state.focus = FocusPanel::BottomLeft;
    let action = map_key(key(KeyCode::Char(' '), none()), &state);
    assert_eq!(action, Some(AppAction::Select));
}

#[test]
fn tests_test_bottom_left_enter_opens_fullscreen_diff() {
    let mut state = create_test_state();
    state.focus = FocusPanel::BottomLeft;
    let action = map_key(key(KeyCode::Enter, none()), &state);
    assert_eq!(action, Some(AppAction::ToggleDiffFullscreen));
}

#[test]
fn tests_test_staging_space_opens_diff_panel() {
    let mut state = create_test_state();
    state.view_mode = ViewMode::Staging;
    state.staging_focus = StagingFocus::Staged;
    let action = map_key(key(KeyCode::Char(' '), none()), &state);
    assert_eq!(action, Some(AppAction::Staging(StagingAction::FocusDiff)));
}

#[test]
fn tests_test_mouse_click_nav_bar_switches_view() {
    let state = create_test_state();
    let hit = create_hit_context(&state);
    let ctx = create_mouse_context(&state, &hit);
    let action = map_mouse(click(20, 1), &hit, &ctx);
    assert_eq!(action, Some(AppAction::SwitchView(ViewMode::Staging)));
}

#[test]
fn tests_test_mouse_scroll_graph_moves_down() {
    let state = create_test_state();
    let hit = create_hit_context(&state);
    let ctx = create_mouse_context(&state, &hit);
    let action = map_mouse(scroll_down(10, 5), &hit, &ctx);
    assert_eq!(action, Some(AppAction::Navigation(NavigationAction::MoveDown)));
}

#[test]
fn test_help_mode_esc_closes_help() {
    let mut state = create_test_state();
    state.view_mode = ViewMode::Help;
    let action = map_key(key(KeyCode::Esc, none()), &state);
    assert_eq!(action, Some(AppAction::ToggleHelp));
}

#[test]
fn test_branches_tab_switches_section() {
    let mut state = create_test_state();
    state.view_mode = ViewMode::Branches;
    let action = map_key(key(KeyCode::Tab, none()), &state);
    assert_eq!(action, Some(AppAction::Branch(BranchAction::NextSection)));
}

#[test]
fn test_graph_question_mark_opens_help() {
    let state = create_test_state();
    let action = map_key(key(KeyCode::Char('?'), none()), &state);
    assert_eq!(action, Some(AppAction::ToggleHelp));
}

#[test]
fn test_graph_history_safety_shortcuts() {
    let state = create_test_state();
    let interactive_rebase = map_key(key(KeyCode::Char('I'), shift()), &state);
    let undo_reflog = map_key(key(KeyCode::Char('Z'), shift()), &state);
    assert_eq!(interactive_rebase, Some(AppAction::Git(GitAction::InteractiveRebase)));
    assert_eq!(undo_reflog, Some(AppAction::Git(GitAction::UndoLastOperation)));
}

#[test]
fn test_project_tree_c_opens_branch_comparison_picker() {
    let mut state = create_test_state();
    state.view_mode = ViewMode::ProjectTree;
    let action = map_key(key(KeyCode::Char('C'), none()), &state);
    assert_eq!(action, Some(AppAction::Git(GitAction::ComparePrompt)));
}

#[test]
fn test_graph_reference_shortcuts() {
    let state = create_test_state();
    assert_eq!(
        map_key(key(KeyCode::Char('t'), none()), &state),
        Some(AppAction::Git(GitAction::CreateTag))
    );
    assert_eq!(
        map_key(key(KeyCode::Char('T'), shift()), &state),
        Some(AppAction::Git(GitAction::DeleteTag))
    );
    assert_eq!(
        map_key(key(KeyCode::Char('C'), shift()), &state),
        Some(AppAction::Git(GitAction::CompareSelectedWithHead))
    );
    assert_eq!(
        map_key(key(KeyCode::Char('X'), shift()), &state),
        Some(AppAction::Git(GitAction::BisectStart))
    );
}

#[test]
fn test_graph_bisect_shortcuts_are_active_during_bisect() {
    let mut state = create_test_state();
    assert_eq!(map_key(key(KeyCode::Char('['), none()), &state), None);
    state.is_bisecting = true;
    assert_eq!(
        map_key(key(KeyCode::Char('['), none()), &state),
        Some(AppAction::Git(GitAction::BisectGood))
    );
    assert_eq!(
        map_key(key(KeyCode::Char(']'), none()), &state),
        Some(AppAction::Git(GitAction::BisectBad))
    );
    assert_eq!(
        map_key(key(KeyCode::Char('\\'), none()), &state),
        Some(AppAction::Git(GitAction::BisectReset))
    );
}

#[test]
fn test_graph_i_opens_and_closes_repository_insights() {
    let mut state = create_test_state();
    assert_eq!(
        map_key(key(KeyCode::Char('i'), none()), &state),
        Some(AppAction::Git(GitAction::RepositoryInsights))
    );
    state.repository_insights_open = true;
    assert_eq!(
        map_key(key(KeyCode::Esc, none()), &state),
        Some(AppAction::Git(GitAction::RepositoryInsights))
    );
    assert_eq!(
        map_key(key(KeyCode::Char('j'), none()), &state),
        Some(AppAction::Git(GitAction::RepositoryInsightsDown))
    );
}

#[test]
fn test_diff_shortcuts_open_external_tool_and_navigate_hunks() {
    let mut state = create_test_state();
    state.focus = FocusPanel::BottomRight;
    assert_eq!(
        map_key(key(KeyCode::Char('e'), none()), &state),
        Some(AppAction::Git(GitAction::OpenExternalDiff))
    );
    assert_eq!(
        map_key(key(KeyCode::Char('n'), none()), &state),
        Some(AppAction::Navigation(NavigationAction::NextDiffHunk))
    );
    assert_eq!(
        map_key(key(KeyCode::Char('N'), shift()), &state),
        Some(AppAction::Navigation(NavigationAction::PreviousDiffHunk))
    );
    state.view_mode = ViewMode::Staging;
    state.staging_focus = StagingFocus::Diff;
    assert_eq!(
        map_key(key(KeyCode::Char('e'), none()), &state),
        Some(AppAction::Git(GitAction::OpenExternalDiff))
    );
}

#[test]
fn test_project_tree_escape_closes_active_branch_comparison() {
    let mut state = create_test_state();
    state.view_mode = ViewMode::ProjectTree;
    state.comparison_active = true;
    let action = map_key(key(KeyCode::Esc, none()), &state);
    assert_eq!(action, Some(AppAction::Git(GitAction::ClearComparison)));
}

#[test]
fn test_b_switches_to_branches_view_from_graph() {
    let state = create_test_state();
    let action = map_key(key(KeyCode::Char('b'), none()), &state);
    assert_eq!(action, Some(AppAction::SwitchView(ViewMode::Branches)));
}

#[test]
fn test_staging_diff_shortcuts_follow_source_list() {
    let mut state = create_test_state();
    state.view_mode = ViewMode::Staging;
    state.staging_focus = StagingFocus::Diff;
    state.staging_last_file_focus = StagingFocus::Unstaged;
    let stage_hunk = map_key(key(KeyCode::Char('s'), none()), &state);
    let stage_line = map_key(key(KeyCode::Char('S'), shift()), &state);
    assert_eq!(stage_hunk, Some(AppAction::Staging(StagingAction::StageHunk)));
    assert_eq!(stage_line, Some(AppAction::Staging(StagingAction::StageLine)));
    state.staging_last_file_focus = StagingFocus::Staged;
    let unstage_hunk = map_key(key(KeyCode::Char('u'), none()), &state);
    let unstage_line = map_key(key(KeyCode::Char('U'), shift()), &state);
    assert_eq!(unstage_hunk, Some(AppAction::Staging(StagingAction::UnstageHunk)));
    assert_eq!(unstage_line, Some(AppAction::Staging(StagingAction::UnstageLine)));
}

#[test]
fn test_four_switches_to_project_tree_view() {
    let state = create_test_state();
    let action = map_key(key(KeyCode::Char('4'), none()), &state);
    assert_eq!(action, Some(AppAction::SwitchView(ViewMode::ProjectTree)));
}

#[test]
fn test_project_tree_enter_toggles_selected_directory() {
    let mut state = create_test_state();
    state.view_mode = ViewMode::ProjectTree;
    let action = map_key(key(KeyCode::Enter, none()), &state);
    assert_eq!(action, Some(AppAction::ProjectTree(ProjectTreeAction::ToggleSelected)));
}

#[test]
fn test_five_switches_to_conflicts_when_available() {
    let mut state = create_test_state();
    state.conflicts = Some(conflicts_open());
    let action = map_key(key(KeyCode::Char('5'), none()), &state);
    assert_eq!(action, Some(AppAction::SwitchView(ViewMode::Conflicts)));
}

#[test]
fn test_reset_picker_m_key_selects_mixed() {
    let mut state = create_test_state();
    state.reset_picker_active = true;
    let action = map_key(key(KeyCode::Char('m'), none()), &state);
    assert_eq!(action, Some(AppAction::ResetPickerSelectMixed));
}

#[test]
fn test_input_priority_confirmation_over_view_keys() {
    let mut state = create_test_state();
    state.confirmation_pending = true;
    let action = map_key(key(KeyCode::Char('q'), none()), &state);
    assert_eq!(action, None);
}

#[test]
fn test_input_priority_search_over_view_switch() {
    let mut state = create_test_state();
    state.search_active = true;
    let action = map_key(key(KeyCode::Char('3'), none()), &state);
    assert_eq!(action, Some(AppAction::Search(SearchAction::InsertChar('3'))));
}

#[test]
fn test_input_priority_branches_input_over_view_switch() {
    let mut state = create_test_state();
    state.view_mode = ViewMode::Branches;
    state.branches_focus = BranchesFocus::Input;
    let action = map_key(key(KeyCode::Char('1'), none()), &state);
    assert_eq!(action, Some(AppAction::Edit(EditAction::InsertChar('1'))));
}

#[test]
fn test_input_priority_conflict_editing_over_help_and_leave_view() {
    let mut state = create_test_state();
    state.view_mode = ViewMode::Conflicts;
    state.conflicts = Some(ConflictInputState {
        is_editing: true,
        panel_focus: ConflictPanelFocus::ResultPanel,
        resolution_mode: ConflictResolutionMode::Block,
    });
    let action = map_key(key(KeyCode::Char('?'), none()), &state);
    assert_eq!(action, Some(AppAction::Conflict(ConflictAction::EditInsertChar('?'))));
}

#[test]
fn test_search_command_left_moves_to_start() {
    let mut state = create_test_state();
    state.search_active = true;
    let action = map_key(key(KeyCode::Left, sup()), &state);
    assert_eq!(action, Some(AppAction::Search(SearchAction::Edit(EditAction::CursorHome))));
}

#[test]
fn test_filter_option_shift_left_selects_previous_word() {
    let mut state = create_test_state();
    state.filter_popup_open = true;
    let action = map_key(key(KeyCode::Left, alt_shift()), &state);
    assert_eq!(action, Some(AppAction::Filter(FilterAction::Edit(EditAction::SelectWordLeft))));
}

#[test]
fn test_search_command_z_undoes_editing() {
    let mut state = create_test_state();
    state.search_active = true;
    let action = map_key(key(KeyCode::Char('z'), sup()), &state);
    assert_eq!(action, Some(AppAction::Search(SearchAction::Edit(EditAction::Undo))));
}

#[test]
fn test_w_opens_worktree_selector() {
    let state = create_test_state();
    let action = map_key(key(KeyCode::Char('w'), none()), &state);
    assert_eq!(action, Some(AppAction::Branch(BranchAction::OpenWorktrees)));
}

#[test]
fn project_tree_arrows_expand_and_collapse_directories() {
    let mut state = create_test_state();
    state.view_mode = ViewMode::ProjectTree;
    assert_eq!(
        map_key(key(KeyCode::Right, none()), &state),
        Some(AppAction::ProjectTree(ProjectTreeAction::ExpandSelected))
    );
    assert_eq!(
        map_key(key(KeyCode::Left, none()), &state),
        Some(AppAction::ProjectTree(ProjectTreeAction::CollapseSelected))
    );
}

#[test]
fn project_tree_search_captures_text_and_confirmation() {
    let mut state = create_test_state();
    state.view_mode = ViewMode::ProjectTree;
    state.project_tree_search_active = true;
    assert_eq!(
        map_key(key(KeyCode::Char('4'), none()), &state),
        Some(AppAction::ProjectTree(ProjectTreeAction::EditSearch(EditAction::InsertChar('4'))))
    );
    assert_eq!(
        map_key(key(KeyCode::Enter, none()), &state),
        Some(AppAction::ProjectTree(ProjectTreeAction::ConfirmSearch))
    );
}

#[test]
fn ctrl_c_quits_from_every_state() {
    let mut state = create_test_state();
    state.search_active = true;
    state.confirmation_pending = true;
    assert_eq!(map_key(key(KeyCode::Char('c'), control()), &state), Some(AppAction::Quit));
    let mut conflicts = create_test_state();
    conflicts.view_mode = ViewMode::Conflicts;
    conflicts.conflicts = Some(ConflictInputState {
        is_editing: true,
        panel_focus: ConflictPanelFocus::ResultPanel,
        resolution_mode: ConflictResolutionMode::Line,
    });
    assert_eq!(map_key(key(KeyCode::Char('c'), control()), &conflicts), Some(AppAction::Quit));
}

#[test]
fn digits_switch_views_outside_text_input() {
    let state = create_test_state();
    assert_eq!(map_key(key(KeyCode::Char('1'), none()), &state), Some(AppAction::SwitchView(ViewMode::Graph)));
    assert_eq!(map_key(key(KeyCode::Char('2'), none()), &state), Some(AppAction::SwitchView(ViewMode::Staging)));
    assert_eq!(map_key(key(KeyCode::Char('3'), none()), &state), Some(AppAction::SwitchView(ViewMode::Branches)));
    assert_eq!(map_key(key(KeyCode::Char('5'), none()), &state), None);
}

#[test]
fn branches_stash_section_keys() {
    let mut state = create_test_state();
    state.view_mode = ViewMode::Branches;
    state.branches_section = BranchesSection::Stashes;
    assert_eq!(
        map_key(key(KeyCode::Char('a'), none()), &state),
        Some(AppAction::Branch(BranchAction::StashApply))
    );
}
