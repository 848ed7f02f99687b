use git_sv::hit_test::Rect;
use git_sv::i18n::Language;
use git_sv::merge_picker::{
    merge_picker_help, merge_picker_items, merge_picker_selection, merge_picker_title, picker_help_area,
    BranchPickerMode, MergePickerState,
};
use git_sv::reset_picker::{reset_picker_content, reset_picker_title, ResetMode, ResetPickerState};
use git_sv::style::{Segment, ThemeColor};

fn text_of(lines: &[Vec<Segment>]) -> String {
    lines.iter().map(|l| l.iter().map(|s| s.text.as_str()).collect::<String>()).collect::<Vec<_>>().join("\n")
}

#[test]
fn test_reset_picker_truncates_unicode_commit_message_safely() {
    let message = format!("{}é fin du commit", "a".repeat(49));
    let state = ResetPickerState { short_hash: "abc1234".to_string(), commit_message: message, selected: ResetMode::Mixed };

    let output = text_of(&reset_picker_content(&state, Language::Fr));

    assert!(output.contains('…'));
}

#[test]
fn reset_picker_marks_the_chosen_kind() {
    let state = ResetPickerState { short_hash: "abc1234".to_string(), commit_message: "fix".to_string(), selected: ResetMode::Hard };
    let lines = reset_picker_content(&state, Language::En);
    assert_eq!(lines.len(), 10);
    assert_eq!(text_of(&lines[1..2]), "Commit: fix");
    assert_eq!(text_of(&lines[5..6]), "  s - Soft (keeps staged changes)");
    assert_eq!(text_of(&lines[7..8]), "▶ h - Hard (loses all changes)");
    assert_eq!(lines[7][3].style.fg, Some(ThemeColor::Error));
    assert!(lines[7][3].style.bold);
    assert_eq!(lines[5][3].style.fg, Some(ThemeColor::TextSecondary));
    assert_eq!(text_of(&lines[9..10]), "ENTER - Confirm  ESC - Cancel");
    assert_eq!(reset_picker_title(&state, Language::En), " Reset to abc1234 ");
    assert_eq!(reset_picker_title(&state, Language::Fr), " Reset vers abc1234 ");
}

#[test]
fn merge_picker_titles_name_the_current_branch() {
    assert_eq!(merge_picker_title(BranchPickerMode::Merge, Some("main"), Language::En), " Merge into 'main' ");
    assert_eq!(merge_picker_title(BranchPickerMode::Rebase, Some("dev"), Language::Fr), " Rebase 'dev' sur ");
    assert_eq!(merge_picker_title(BranchPickerMode::Compare, None, Language::En), " Compare '???' with ");
    assert_eq!(merge_picker_help(BranchPickerMode::Rebase, Language::En), "j/k:navigate  Enter:rebase  Esc:cancel");
}

#[test]
fn merge_picker_lists_branches_indented() {
    let state = MergePickerState {
        branches: vec!["main".to_string(), "feature".to_string()],
        selected: 1,
        mode: BranchPickerMode::Merge,
    };
    let items = merge_picker_items(&state.branches);
    assert_eq!(text_of(&items), "  main\n  feature");
    assert_eq!(merge_picker_selection(&state), Some(1));
    let empty = MergePickerState { branches: vec![], selected: 0, mode: BranchPickerMode::Merge };
    assert_eq!(merge_picker_selection(&empty), None);
    assert_eq!(picker_help_area(Rect::new(10, 5, 40, 12)), Rect::new(10, 18, 40, 1));
}
