use git_sv::i18n::Language;
use git_sv::input::state::StagingFocus;
use git_sv::staging_view::{
    commit_cursor_position, commit_input_border, commit_input_lines, commit_input_title, file_list_border,
    file_list_items, file_list_title, staging_help,
};
use git_sv::status::{count_status, FileStatusKind, StatusEntry};
use git_sv::style::{Segment, ThemeColor};
use git_sv::text_edit::{selection_range, text_with_selection};
use git_sv::style::SegmentStyle;

fn texts(lines: &[Vec<Segment>]) -> Vec<String> {
    lines.iter().map(|l| l.iter().map(|s| s.text.as_str()).collect()).collect()
}

#[test]
fn file_items_show_icon_and_path() {
    let files = vec![
        StatusEntry { path: "src/main.rs".to_string(), status: git2::Status::WT_MODIFIED.bits() },
        StatusEntry { path: "new.txt".to_string(), status: git2::Status::INDEX_NEW.bits() },
        StatusEntry { path: "gone.txt".to_string(), status: git2::Status::WT_DELETED.bits() },
    ];
    let items = file_list_items(&files);
    assert_eq!(texts(&items), vec![" M src/main.rs", " ● new.txt", " D gone.txt"]);
    assert_eq!(items[0][0].style.fg, Some(ThemeColor::Warning));
    assert_eq!(items[1][0].style.fg, Some(ThemeColor::Success));
    assert_eq!(items[2][0].style.fg, Some(ThemeColor::Error));
    assert_eq!(items[0][1].style.fg, Some(ThemeColor::TextNormal));
}

#[test]
fn file_list_titles_count_the_files() {
    assert_eq!(file_list_title(false, 3, Language::Fr), " Non indexes (3) ");
    assert_eq!(file_list_title(true, 12, Language::En), " Staged (12) ");
    assert_eq!(file_list_border(true), ThemeColor::Primary);
    assert_eq!(file_list_border(false), ThemeColor::BorderInactive);
}

#[test]
fn commit_field_titles_depend_on_state() {
    assert_eq!(commit_input_title(true, false, Language::En), " Amend commit (Enter to confirm) ");
    assert_eq!(commit_input_title(false, true, Language::Fr), " Message de commit (Entree pour valider) ");
    assert_eq!(commit_input_title(false, false, Language::En), " Commit message (no staged files) ");
    assert_eq!(commit_input_border(true), ThemeColor::Warning);
}

#[test]
fn empty_unfocused_message_shows_a_hint() {
    let lines = commit_input_lines("", 0, None, false, false, Language::En);
    assert_eq!(texts(&lines), vec!["Press 'c' to write a commit message..."]);
    assert_eq!(lines[0][0].style.fg, Some(ThemeColor::TextSecondary));
    let amend = commit_input_lines("", 0, None, false, true, Language::Fr);
    assert_eq!(texts(&amend), vec!["Appuyez sur 'A' pour amender le dernier commit..."]);
}

#[test]
fn unfocused_message_is_shown_line_by_line() {
    let lines = commit_input_lines("fix: bug\n\ndetails\n", 0, None, false, false, Language::En);
    assert_eq!(texts(&lines), vec!["fix: bug", "", "details"]);
    assert_eq!(lines[0][0].style.fg, Some(ThemeColor::TextNormal));
}

#[test]
fn focused_message_highlights_the_selection() {
    let lines = commit_input_lines("abc\nde", 1, Some(4), true, false, Language::En);
    assert_eq!(texts(&lines), vec!["abc", "de"]);
    assert_eq!(lines[0].len(), 3);
    assert_eq!(lines[0][0].style.bg, None);
    assert_eq!(lines[0][1].style.bg, Some(ThemeColor::SelectionBg));
    assert_eq!(lines[0][2].style.bg, Some(ThemeColor::SelectionBg));
    assert_eq!(lines[1][0].style.bg, None);
}

#[test]
fn text_with_selection_keeps_a_trailing_empty_line() {
    let plain = SegmentStyle::plain();
    let lines = text_with_selection("a\n", 0, None, plain, plain);
    assert_eq!(lines.len(), 2);
    assert!(lines[1].is_empty());
    assert_eq!(selection_range(3, Some(1)), Some((1, 3)));
    assert_eq!(selection_range(3, Some(3)), None);
    assert_eq!(selection_range(1, Some(5)), Some((1, 5)));
}

#[test]
fn cursor_position_follows_line_feeds() {
    assert_eq!(commit_cursor_position("ab\ncde", 5, 10, 20), Some((10 + 2 + 1, 20 + 1 + 1)));
    assert_eq!(commit_cursor_position("ab", 9, 0, 0), Some((3, 1)));
    assert_eq!(commit_cursor_position("", 0, 4, 4), Some((5, 5)));
    assert_eq!(commit_cursor_position("ab", 2, u16::MAX - 2, 0), None);
    assert_eq!(commit_cursor_position("a", 1, u16::MAX - 2, u16::MAX - 1), Some((u16::MAX, u16::MAX)));
}

#[test]
fn staging_help_depends_on_focus_and_merge() {
    let help = staging_help(StagingFocus::Staged, false, Language::En);
    assert_eq!(
        help.text,
        " j/k:nav  Space:diff  u/Enter:unstage  U:unstage all  Tab:→Unstaged  c:commit  A:amend  P:push  Ctrl+P:force push  1:graph  q:quit "
    );
    assert_eq!(help.style.fg, Some(ThemeColor::TextSecondary));
    let merging = staging_help(StagingFocus::Diff, true, Language::Fr);
    assert_eq!(
        merging.text,
        " j/k:defiler  h/l:horizontal  v:vue  Tab/Echap:retour liste  c:commit  P:push  Ctrl+P:force push  A:annuler fusion  1:graphe  q:quitter "
    );
    assert_eq!(
        staging_help(StagingFocus::CommitMessage, true, Language::En).text,
        " Enter:confirm  Esc:cancel  ←→:cursor "
    );
}

#[test]
fn status_kinds_follow_the_git_flags() {
    let entry = |bits: git2::Status| StatusEntry { path: "f".to_string(), status: bits.bits() };
    assert_eq!(entry(git2::Status::CONFLICTED | git2::Status::INDEX_NEW).status_kind(), FileStatusKind::Conflicted);
    assert_eq!(entry(git2::Status::INDEX_NEW | git2::Status::WT_MODIFIED).status_kind(), FileStatusKind::NewStaged);
    assert_eq!(entry(git2::Status::INDEX_DELETED).status_kind(), FileStatusKind::Staged);
    assert_eq!(entry(git2::Status::WT_NEW).status_kind(), FileStatusKind::Untracked);
    assert_eq!(entry(git2::Status::WT_DELETED).status_kind(), FileStatusKind::Deleted);
    assert_eq!(entry(git2::Status::WT_RENAMED).status_kind(), FileStatusKind::Renamed);
    assert_eq!(entry(git2::Status::WT_MODIFIED).status_kind(), FileStatusKind::Modified);
}

#[test]
fn count_status_counts_each_category() {
    let entries = vec![
        StatusEntry { path: "a".to_string(), status: (git2::Status::INDEX_MODIFIED | git2::Status::WT_MODIFIED).bits() },
        StatusEntry { path: "b".to_string(), status: git2::Status::WT_NEW.bits() },
        StatusEntry { path: "c".to_string(), status: git2::Status::WT_DELETED.bits() },
        StatusEntry { path: "d".to_string(), status: git2::Status::INDEX_NEW.bits() },
        StatusEntry { path: "e".to_string(), status: git2::Status::IGNORED.bits() },
    ];
    assert_eq!(count_status(&entries), (2, 2, 1));
    assert_eq!(count_status(&vec![]), (0, 0, 0));
}
