use git_sv::graph::Oid;
use git_sv::i18n::Language;
use git_sv::project_tree_view::{
    changed_files_empty_message, changed_files_items, changed_files_selection, changed_files_title,
    history_empty_message, history_items, history_line_with_date, history_title, panel_border,
    project_tree_hints, quick_search, tree_items, tree_title, visible_selection, ChangedFile, DiffStatus,
    PathComparison, PathCommit, PathHistorySide, ProjectEntry, ProjectEntryKind,
};
use git_sv::style::{Segment, ThemeColor};
use git_sv::files_view::{build_commit_file_items, files_title, BottomLeftMode};

fn texts(lines: &[Vec<Segment>]) -> Vec<String> {
    lines.iter().map(|l| l.iter().map(|s| s.text.as_str()).collect()).collect()
}

fn line_text(line: &[Segment]) -> String {
    line.iter().map(|s| s.text.as_str()).collect()
}

fn entry(name: &str, path: &str, depth: usize, kind: ProjectEntryKind, expanded: bool) -> ProjectEntry {
    ProjectEntry { name: name.to_string(), path: path.to_string(), depth, kind, expanded }
}

#[test]
fn tree_items_indent_and_mark_directories() {
    let entries = vec![
        entry("src", "src", 0, ProjectEntryKind::Directory, true),
        entry("ui", "src/ui", 1, ProjectEntryKind::Directory, false),
        entry("main.rs", "src/main.rs", 1, ProjectEntryKind::File, false),
    ];
    let lines = tree_items(&entries, false, Language::En);
    assert_eq!(texts(&lines), vec!["▾ src", "  ▸ ui", "    main.rs"]);
    assert_eq!(lines[0][1].style.fg, Some(ThemeColor::Primary));
    assert!(lines[0][1].style.bold);
    assert_eq!(lines[2][2].style.fg, Some(ThemeColor::TextNormal));
    let found = tree_items(&entries, true, Language::En);
    assert_eq!(texts(&found), vec!["▸ src", "▸ src/ui", "  src/main.rs"]);
    assert_eq!(texts(&tree_items(&vec![], false, Language::Fr)), vec!["  Aucun fichier"]);
}

#[test]
fn tree_titles_and_borders() {
    assert_eq!(tree_title(true, false, 4, Language::En), "▶ Results (4) ");
    assert_eq!(tree_title(false, true, 0, Language::Fr), "▶ Arborescence ");
    assert_eq!(tree_title(false, false, 0, Language::En), " Project tree ");
    assert_eq!(panel_border(true), ThemeColor::BorderActive);
    assert_eq!(visible_selection(false, 7, 5), Some(2));
    assert_eq!(visible_selection(true, 7, 5), None);
}

#[test]
fn quick_search_shows_query_and_count() {
    let line = quick_search("src", 3, None, 2, Language::En);
    assert_eq!(line_text(&line), "/ src   2 result(s) — Enter to reveal");
    assert_eq!(line[4].style.bg, Some(ThemeColor::Primary));
    let mid = quick_search("ab", 0, Some(2), 0, Language::Fr);
    assert_eq!(line_text(&mid), "/ ab  0 résultat(s) — Entrée pour révéler");
    assert_eq!(mid[1].style.bg, Some(ThemeColor::Primary));
    assert_eq!(mid[2].style.bg, Some(ThemeColor::SelectionBg));
}

#[test]
fn history_lines_show_side_hash_date_author_message() {
    let commit = PathCommit {
        oid: Oid::from_bytes([0xab; 20]),
        timestamp: 0,
        author: "Alice".to_string(),
        message: "Fix".to_string(),
        side: Some(PathHistorySide::Target),
    };
    let line = history_line_with_date(&commit, "2 days ago");
    assert_eq!(line_text(&line), "- abababa  2 days ago  Alice  Fix");
    assert_eq!(line[0].style.fg, Some(ThemeColor::Error));
    let rows = history_items(&vec![commit.clone(), commit], Language::En);
    assert_eq!(rows.len(), 2);
    assert!(line_text(&rows[0]).starts_with("- abababa  "));
    assert!(line_text(&rows[0]).ends_with("  Alice  Fix"));
}

#[test]
fn history_titles_describe_the_comparison() {
    let cmp = PathComparison { base_branch: "main".to_string(), target_branch: "dev".to_string(), ahead: Some(2), behind: Some(1) };
    assert_eq!(history_title(Some(&cmp), true, Some("src"), Language::En), "▶ History · main ↔ dev · +2 / -1 — src ");
    let unknown = PathComparison { ahead: None, ..cmp };
    assert_eq!(history_title(Some(&unknown), false, None, Language::Fr), " Historique · main ↔ dev · … — aucune selection ");
    assert_eq!(history_title(None, false, Some("a.rs"), Language::En), " History — a.rs ");
    assert_eq!(history_empty_message(true, true, Language::En), "  No divergent commit for this path");
    assert_eq!(history_empty_message(false, true, Language::En), "  Tab or click to load history");
}

#[test]
fn changed_files_insert_the_separator() {
    let files = vec![
        ChangedFile { path: "a.rs".to_string(), status: DiffStatus::Added, additions: 3, deletions: 0 },
        ChangedFile { path: "b.rs".to_string(), status: DiffStatus::Renamed, additions: 1, deletions: 2 },
    ];
    let lines = changed_files_items(&files, 4, Some(5), Language::En);
    assert_eq!(texts(&lines), vec![" A +3 -0 a.rs", " ── Other files ──", " R +1 -2 b.rs"]);
    assert_eq!(lines[0][0].style.fg, Some(ThemeColor::Success));
    assert_eq!(lines[2][0].style.fg, Some(ThemeColor::Primary));
    assert_eq!(changed_files_selection(false, 5, 4, Some(5)), Some(2));
    assert_eq!(changed_files_selection(false, 4, 4, Some(5)), Some(0));
    assert_eq!(changed_files_selection(false, 6, 4, Some(2)), Some(2));
    assert_eq!(changed_files_title(true, Language::Fr), "▶ Fichiers touchés ");
    assert_eq!(changed_files_empty_message(false, Language::En), "  Tab or click to load files");
}

#[test]
fn project_tree_hints_add_comparison_key() {
    assert_eq!(project_tree_hints(false, Language::En).len(), 7);
    let hints = project_tree_hints(true, Language::En);
    assert_eq!(hints.len(), 8);
    assert_eq!(hints[2].key, "Esc");
    assert_eq!(hints[2].label, "close comparison");
}

#[test]
fn commit_files_align_their_counts() {
    let files = vec![
        ChangedFile { path: "src/lib.rs".to_string(), status: DiffStatus::Modified, additions: 12, deletions: 3 },
        ChangedFile { path: "big.txt".to_string(), status: DiffStatus::Deleted, additions: 0, deletions: 1234 },
    ];
    let lines = build_commit_file_items(&files);
    assert_eq!(texts(&lines), vec![" M + 12 -  3 src/lib.rs", " D +  0 -1234 big.txt"]);
    assert_eq!(lines[0][0].style.fg, Some(ThemeColor::Warning));
    assert_eq!(files_title(BottomLeftMode::Files, Some("abc1234"), 0, false, Language::En), " Files - abc1234 ");
    assert_eq!(files_title(BottomLeftMode::Files, None, 0, true, Language::Fr), "> Fichiers - ??? <");
    assert_eq!(files_title(BottomLeftMode::Parents, None, 5, false, Language::Fr), " Statut (5 fichiers) ");
}

#[test]
fn history_dates_follow_each_commit() {
    let now = std::time::SystemTime::now()
        .duration_since(std::time::UNIX_EPOCH)
        .unwrap()
        .as_secs() as i64;
    let commit = |timestamp: i64| PathCommit {
        oid: Oid::from_bytes([0xab; 20]),
        timestamp,
        author: "Alice".to_string(),
        message: "Fix".to_string(),
        side: None,
    };
    let rows = history_items(&vec![commit(now - 3 * 3600), commit(now - 3 * 86400)], Language::En);
    assert_eq!(rows[0][3].text, "3 hours ago");
    assert_eq!(rows[1][3].text, "3 days ago");
}
