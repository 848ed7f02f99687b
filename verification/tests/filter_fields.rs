use git_sv::filter_popup::{
    field_label_line, field_value_lines, filter_fields, filter_help, filter_popup_areas, filter_popup_border,
    filter_popup_title, FilterField, FilterPopupState,
};
use git_sv::hit_test::Rect;
use git_sv::i18n::Language;
use git_sv::layout::inner_rect;
use git_sv::style::{Segment, ThemeColor};

fn text_of(lines: &[Vec<Segment>]) -> String {
    lines.iter().map(|l| l.iter().map(|s| s.text.as_str()).collect::<String>()).collect::<Vec<_>>().join("\n")
}

#[test]
fn test_filter_popup_displays_current_input_and_reset_legend() {
    let popup_state = FilterPopupState {
        is_open: true,
        selected_field: FilterField::Author,
        author_input: "Alice".to_string(),
        ..FilterPopupState::default()
    };

    let fields = filter_fields(&popup_state, Language::Fr);
    let output: String = fields.iter().map(|(l, v)| format!("{}\n{}\n", text_of(&[l.clone()]), text_of(v))).collect();
    let output = format!("{}{}", output, filter_help(Language::Fr));

    assert!(output.contains("Alice"));
    assert!(output.contains("Ctrl+R"));
}

#[test]
fn selected_field_shows_cursor_and_selection() {
    let lines = field_value_lines("abcd", true, 1, Some(3), Language::En);
    assert_eq!(lines.len(), 1);
    assert_eq!(text_of(&lines), "> abcd");
    assert_eq!(lines[0][0].style.bg, Some(ThemeColor::SelectionBg));
    assert_eq!(lines[0][2].style.bg, Some(ThemeColor::Warning));
    assert_eq!(lines[0][3].style.bg, Some(ThemeColor::Primary));
    assert_eq!(lines[0][4].style.bg, Some(ThemeColor::SelectionBg));
    assert_eq!(lines[0].len(), 5);
    let at_end = field_value_lines("ab", true, 10, None, Language::En);
    assert_eq!(text_of(&at_end), "> ab ");
    assert_eq!(at_end[0][3].style.bg, Some(ThemeColor::Warning));
}

#[test]
fn unselected_fields_show_their_value_or_empty() {
    let empty = field_value_lines("", false, 0, None, Language::En);
    assert_eq!(text_of(&empty), "   (empty) ");
    assert_eq!(empty[0][0].style.bg, Some(ThemeColor::Background));
    assert_eq!(text_of(&field_value_lines("src/", false, 0, None, Language::Fr)), "  src/");
    let label = field_label_line("Chemin", true);
    assert_eq!(label[0].text, "Chemin: ");
    assert!(label[0].style.bold);
}

#[test]
fn filter_fields_come_in_order() {
    let mut state = FilterPopupState::default();
    state.selected_field = FilterField::Path;
    state.path_input = "docs".to_string();
    let fields = filter_fields(&state, Language::En);
    let labels: Vec<String> = fields.iter().map(|(l, _)| l[0].text.clone()).collect();
    assert_eq!(labels, vec!["Author: ", "Start date (YYYY-MM-DD): ", "End date (YYYY-MM-DD): ", "Path: ", "Message contains: "]);
    assert_eq!(fields[3].0[0].style.fg, Some(ThemeColor::Warning));
    assert_eq!(text_of(&fields[3].1), "> docs");
    assert_eq!(fields[3].1[0][1].style.bg, Some(ThemeColor::Warning));
    assert_eq!(filter_popup_title(true, Language::En), "Commit filters (active)");
    assert_eq!(filter_popup_border(false), ThemeColor::Primary);
}

#[test]
fn popup_areas_stack_inside_the_margins() {
    let (popup, areas) = filter_popup_areas(Rect::new(0, 0, 100, 40));
    assert_eq!(popup, Rect::new(15, 8, 70, 24));
    assert_eq!(areas.len(), 9);
    assert_eq!(areas[0], Rect::new(17, 9, 66, 1));
    assert_eq!(areas[2].height, 3);
    assert_eq!(inner_rect(Rect::new(1, 2, 3, 4), 1, 2), Rect::new(2, 4, 1, 0));
    assert_eq!(inner_rect(Rect::new(1, 2, 1, 4), 1, 2), Rect::new(0, 0, 0, 0));
}
