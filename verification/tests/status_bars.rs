use git_sv::i18n::Language;
use git_sv::status::StatusEntry;
use git_sv::status_bar::{main_status_bar, status_summary, view_status_bar};
use git_sv::style::{Segment, ThemeColor};

fn line_text(line: &[Segment]) -> String {
    line.iter().map(|s| s.text.as_str()).collect()
}

fn entry(bits: git2::Status) -> StatusEntry {
    StatusEntry { path: "f".to_string(), status: bits.bits() }
}

#[test]
fn test_clean_label_is_localized_in_english() {
    let label = status_summary(&vec![], Language::En);
    assert_eq!(label.text, "✓ clean");
    assert_eq!(label.style.fg, Some(ThemeColor::Success));
}

#[test]
fn dirty_summary_lists_the_counts() {
    let entries = vec![
        entry(git2::Status::WT_MODIFIED),
        entry(git2::Status::WT_MODIFIED | git2::Status::INDEX_MODIFIED),
        entry(git2::Status::WT_NEW),
    ];
    let s = status_summary(&entries, Language::En);
    assert_eq!(s.text, "✗ 1 staged, 2 modified, 1 untracked");
    assert_eq!(s.style.fg, Some(ThemeColor::Error));
    assert_eq!(status_summary(&vec![entry(git2::Status::WT_NEW)], Language::Fr).text, "✗ 1 non suivis");
    assert_eq!(status_summary(&vec![entry(git2::Status::IGNORED)], Language::Fr).text, "✓ propre");
}

#[test]
fn main_status_bar_adds_markers_in_order() {
    let line = main_status_bar(Some("main"), &vec![], Some("Pushed"), true, true, Language::En);
    assert_eq!(line_text(&line), "git_sv  main  ✓ clean  ⚠ MERGING  [FILTERED]  Pushed");
    assert_eq!(line[4].style.fg, Some(ThemeColor::Error));
    assert!(line[4].style.bold);
    assert_eq!(line[6].style.fg, Some(ThemeColor::Warning));
    assert_eq!(line[8].style.fg, Some(ThemeColor::Secondary));
    let plain = main_status_bar(None, &vec![], None, false, false, Language::Fr);
    assert_eq!(line_text(&plain), "git_sv  ???  ✓ propre");
}

#[test]
fn view_status_bar_cuts_the_path_from_its_start() {
    let line = view_status_bar("staging", Some("dev"), "/home/user/projects/very/long/path/repo", None, None, 30);
    assert_eq!(line_text(&line), " git_sv · staging · …g/path/repo · dev");
    assert_eq!(line[0].style.bg, Some(ThemeColor::StatusBarBg));
    let wide = view_status_bar("graph", None, "/r", Some("ok"), Some(ThemeColor::Surface), 200);
    assert_eq!(line_text(&wide), " git_sv · graph · /r · ???  ok");
    assert_eq!(wide[7].style.bg, Some(ThemeColor::Surface));
}
