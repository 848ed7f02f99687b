use git_sv::diff_align::{DiffLine, DiffLineType};
use git_sv::diff_view::{
    build_diff_lines, build_side_by_side_lines, effective_view_mode, side_by_side_title,
    unified_content, unified_title, DiffViewMode, FileDiff,
};
use git_sv::i18n::Language;
use git_sv::style::{Segment, ThemeColor};

fn line(t: DiffLineType, content: &str, old: Option<u32>, new: Option<u32>) -> DiffLine {
    DiffLine { line_type: t, content: content.to_string(), old_lineno: old, new_lineno: new }
}

fn sample() -> FileDiff {
    FileDiff {
        path: "src/main.rs".to_string(),
        lines: vec![
            line(DiffLineType::HunkHeader, "@@ -1,2 +1,2 @@", None, None),
            line(DiffLineType::Context, "fn main() {", Some(1), Some(1)),
            line(DiffLineType::Deletion, "old", Some(2), None),
            line(DiffLineType::Addition, "new", None, Some(2)),
        ],
        additions: 1,
        deletions: 1,
    }
}

fn text(l: &[Segment]) -> String {
    l.iter().map(|s| s.text.as_str()).collect()
}

#[test]
fn unified_lines_show_numbers_and_prefixes() {
    let lines = build_diff_lines(&sample());
    assert_eq!(lines.len(), 4);
    assert_eq!(text(&lines[0]), "@@ -1,2 +1,2 @@");
    assert_eq!(lines[0][0].style.fg, Some(ThemeColor::Info));
    assert_eq!(text(&lines[1]), "   1    1  fn main() {");
    assert_eq!(text(&lines[2]), "   2      -old");
    assert_eq!(lines[2][1].style.bg, Some(ThemeColor::TheirsBg));
    assert_eq!(text(&lines[3]), "        2 +new");
    assert_eq!(lines[3][1].style.fg, Some(ThemeColor::Success));
}

#[test]
fn side_by_side_columns_are_aligned() {
    let (left, right) = build_side_by_side_lines(&sample());
    assert_eq!(left.len(), 3);
    assert_eq!(right.len(), 3);
    assert_eq!(text(&left[0]), "     - @@ -1,2 +1,2 @@");
    assert_eq!(text(&right[0]), "     ");
    assert_eq!(text(&left[2]), "   2 - old");
    assert_eq!(text(&right[2]), "   2 + new");
}

#[test]
fn titles_show_summary_zoom_and_position() {
    let diff = sample();
    assert_eq!(
        unified_title(Some(&diff), 4, 10, 5, false, true),
        " Diff - src/main.rs (+1/-1) [ZOOM] [2/4] "
    );
    assert_eq!(unified_title(None, 1, 0, 5, true, false), "> Diff <");
    assert_eq!(
        side_by_side_title(Some(&diff), false, false, Language::Fr),
        " Diff (cote a cote) - src/main.rs (+1/-1) "
    );
    assert_eq!(side_by_side_title(None, true, true, Language::En), "> Diff (side-by-side) [ZOOM] <");
}

#[test]
fn narrow_panels_fall_back_to_unified() {
    assert_eq!(effective_view_mode(122, DiffViewMode::SideBySide), DiffViewMode::Unified);
    assert_eq!(effective_view_mode(123, DiffViewMode::SideBySide), DiffViewMode::SideBySide);
    let none = unified_content(None, Language::En);
    assert_eq!(text(&none[0]), "Select a file to view the diff");
}
