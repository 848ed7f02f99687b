use git_sv::branches_view::{
    branches_help_line, branches_list_items, build_branch_detail_content, build_stash_detail_content,
    build_worktree_detail_content, detail_scroll_offset, input_cursor_position, input_overlay_lines,
    input_overlay_title, render_tabs, stash_list_items, worktree_list_items, BranchInfo, BranchesViewState,
    InputAction, SelectedBranch, StashEntry, StashFile, WorktreeInfo,
};
use git_sv::i18n::Language;
use git_sv::input::state::{BranchesFocus, BranchesSection};
use git_sv::style::{Segment, ThemeColor};

fn texts(lines: &[Vec<Segment>]) -> Vec<String> {
    lines.iter().map(|l| l.iter().map(|s| s.text.as_str()).collect()).collect()
}

fn branch(name: &str, is_head: bool, counts: Option<(usize, usize)>) -> BranchInfo {
    BranchInfo {
        name: name.to_string(),
        is_head,
        ahead: counts.map(|c| c.0),
        behind: counts.map(|c| c.1),
        last_commit_date: None,
        last_commit_message: None,
    }
}

fn state() -> BranchesViewState {
    BranchesViewState {
        section: BranchesSection::Branches,
        focus: BranchesFocus::List,
        local_branches: vec![branch("main", true, Some((2, 1))), branch("dev", false, None)],
        remote_branches: vec![branch("origin/main", false, None)],
        show_remote: true,
        selected_branch: Some(SelectedBranch::Remote(0)),
        worktrees: vec![WorktreeInfo {
            name: "wt".to_string(),
            path: "/tmp/wt".to_string(),
            is_main: false,
            is_current: true,
            branch: None,
        }],
        worktree_selected: 0,
        stashes: vec![StashEntry {
            index: 0,
            message: "WIP".to_string(),
            branch: Some("dev".to_string()),
            files: vec![
                StashFile { path: "a.rs".to_string(), status: 'M' },
                StashFile { path: "b.rs".to_string(), status: 'A' },
            ],
        }],
        stash_selected: 0,
        stash_file_selected: 1,
        stash_file_diff: Some(vec!["@@ -1 +1 @@".to_string(), "+new".to_string()]),
        stash_diff_scroll: 3,
        input_action: Some(InputAction::CreateBranch),
        input_text: "feat/x".to_string(),
        input_cursor: 2,
        input_selection_anchor: Some(4),
    }
}

#[test]
fn branch_list_shows_local_then_remote_with_selection_row() {
    let s = state();
    let (items, row) = branches_list_items(&s, Language::En);
    assert_eq!(texts(&items), vec!["Local", "● main  2↑ 1↓", "  dev", "", "Remote", "  origin/main"]);
    assert_eq!(row, 5);
    assert_eq!(items[1][0].style.fg, Some(ThemeColor::Success));
    let mut local_only = state();
    local_only.show_remote = false;
    local_only.selected_branch = Some(SelectedBranch::Local(1));
    let (items, row) = branches_list_items(&local_only, Language::Fr);
    assert_eq!(items.len(), 3);
    assert_eq!(row, 2);
}

#[test]
fn branch_detail_describes_the_selection() {
    let s = state();
    assert_eq!(texts(&build_branch_detail_content(&s, Language::En)), vec!["Name: origin/main", "Type: remote"]);
    let mut local = state();
    local.selected_branch = Some(SelectedBranch::Local(0));
    assert_eq!(
        texts(&build_branch_detail_content(&local, Language::Fr)),
        vec!["Nom: main", "HEAD: oui", "Ahead/Behind: 2 / 1"]
    );
    local.selected_branch = None;
    assert_eq!(texts(&build_branch_detail_content(&local, Language::En)), vec!["No branch selected"]);
}

#[test]
fn worktree_and_stash_panels() {
    let s = state();
    assert_eq!(texts(&worktree_list_items(&s)), vec!["● wt"]);
    assert_eq!(
        texts(&build_worktree_detail_content(&s, Language::En)),
        vec!["Name: wt", "Path: /tmp/wt", "Main: no", "Active: yes", "Branch: N/A"]
    );
    assert_eq!(texts(&stash_list_items(&s)), vec!["stash@{0}: WIP"]);
    let detail = build_stash_detail_content(&s, Language::En);
    assert_eq!(
        texts(&detail),
        vec![
            "Message: WIP",
            "Index: stash@{0}",
            "Branch: dev",
            "",
            "Modified files:",
            "  M a.rs",
            "→ A b.rs",
            "",
            "Diff:",
            "@@ -1 +1 @@",
            "+new",
        ]
    );
    assert_eq!(detail[6][0].style.fg, Some(ThemeColor::Success));
    assert_eq!(detail[10][0].style.fg, Some(ThemeColor::Success));
    assert_eq!(detail_scroll_offset(&s), 3);
    let mut no_diff = state();
    no_diff.stash_file_diff = None;
    assert_eq!(detail_scroll_offset(&no_diff), 0);
}

#[test]
fn help_tabs_and_input_overlay() {
    let help = branches_help_line(BranchesSection::Worktrees, BranchesFocus::List, Language::En);
    assert_eq!(help.text, " ↑↓:select  Enter:open  Tab/Shift+Tab:section  n:new  d:delete  1:graph ");
    let input = branches_help_line(BranchesSection::Stashes, BranchesFocus::Input, Language::Fr);
    assert_eq!(input.text, " Entree:confirmer  Echap:annuler  ←→:curseur ");
    let tabs = render_tabs(BranchesSection::Stashes, Language::En);
    let text: String = tabs.iter().map(|s| s.text.as_str()).collect();
    assert_eq!(text, " Branches    Worktrees    Stashes   ");
    assert!(tabs[4].style.underline);
    assert_eq!(input_overlay_title(Some(InputAction::SaveStash), Language::En), " Stash message ");
    assert_eq!(input_overlay_title(None, Language::Fr), " Saisie ");
    let s = state();
    let lines = input_overlay_lines(&s);
    assert_eq!(texts(&lines), vec!["feat/x"]);
    assert_eq!(lines[0][1].style.bg, Some(ThemeColor::Background));
    assert_eq!(lines[0][2].style.bg, Some(ThemeColor::SelectionBg));
    assert_eq!(lines[0][3].style.bg, Some(ThemeColor::SelectionBg));
    assert_eq!(lines[0][4].style.bg, Some(ThemeColor::Background));
    assert_eq!(input_cursor_position(&s, 10, 4), Some((13, 5)));
    assert_eq!(input_cursor_position(&s, u16::MAX - 1, 4), None);
}
