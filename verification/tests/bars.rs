use git_sv::i18n::Language;
use git_sv::input::action::ViewMode;
use git_sv::nav_bar::nav_bar_line;
use git_sv::search_bar::{search_bar_line, SearchState, SearchType};
use git_sv::style::{Segment, ThemeColor};

fn line_text(line: &[Segment]) -> String {
    line.iter().map(|s| s.text.as_str()).collect()
}

fn search(query: &str, cursor: usize) -> SearchState {
    SearchState {
        is_active: true,
        query: query.to_string(),
        cursor,
        selection_anchor: None,
        search_type: SearchType::Message,
        results: vec![],
        current_result: 0,
    }
}

#[test]
fn test_search_bar_renders_accented_query_without_invalid_utf8_slice() {
    let search_state = search("té", 2);

    let output = line_text(&search_bar_line(&search_state).unwrap());

    assert!(output.contains("té"));
}

#[test]
fn search_bar_marks_cursor_and_counts_results() {
    let mut s = search("abc", 1);
    s.selection_anchor = Some(3);
    s.search_type = SearchType::Author;
    s.results = vec![4, 9];
    s.current_result = 1;
    let line = search_bar_line(&s).unwrap();
    assert_eq!(line_text(&line), "/abc  [author]  2/2");
    assert_eq!(line[2].style.bg, Some(ThemeColor::Primary));
    assert_eq!(line[3].style.bg, Some(ThemeColor::SelectionBg));
    assert_eq!(line[1].style.bg, None);

    let at_end = search_bar_line(&search("ab", 7)).unwrap();
    assert_eq!(line_text(&at_end), "/ab   [msg]  0/0");
    assert_eq!(at_end[3].style.bg, Some(ThemeColor::Primary));
    assert_eq!(at_end.last().unwrap().style.fg, Some(ThemeColor::Error));

    let mut off = search("x", 0);
    off.is_active = false;
    assert!(search_bar_line(&off).is_none());
    assert_eq!(line_text(&search_bar_line(&search("", 0)).unwrap()), "/   [msg]");
}

#[test]
fn nav_bar_highlights_the_active_view() {
    let line = nav_bar_line(ViewMode::Staging, 0, Language::En);
    assert_eq!(line_text(&line), "  1 Graph │ 2 Staging │ 3 Branches │ 4 Tree ");
    assert_eq!(line[4].style.bg, Some(ThemeColor::SelectionBg));
    assert_eq!(line[1].style.fg, Some(ThemeColor::TextSecondary));
}

#[test]
fn nav_bar_shows_conflicts_when_unresolved() {
    let line = nav_bar_line(ViewMode::Conflicts, 3, Language::Fr);
    assert_eq!(line_text(&line), "  1 Graphe │ 2 Staging │ 3 Branches │ 4 Arbre │ 5 Conflits (3) ");
    assert_eq!(line.last().unwrap().style.bg, Some(ThemeColor::Error));
    let one = nav_bar_line(ViewMode::Graph, 1, Language::En);
    assert!(line_text(&one).ends_with(" 5 Conflicts (1) "));
    assert_eq!(one.last().unwrap().style.fg, Some(ThemeColor::Error));
    assert_eq!(one.last().unwrap().style.bg, None);
}
