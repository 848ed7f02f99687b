use git_sv::help_bar::{fit_hints, KeyHint};
use git_sv::files_view::BottomLeftMode;
use git_sv::help_bar::{commit_counter, graph_help_hints, help_bar_line};
use git_sv::i18n::Language;
use git_sv::style::ThemeColor;

#[test]
fn test_fit_hints_keeps_priority_order() {
    let hints = [
        KeyHint::new("j/k", "navigate"),
        KeyHint::new("Enter", "details"),
        KeyHint::new("P", "push"),
    ];

    assert_eq!(fit_hints(&hints, 24), &hints[..1]);
}

#[test]
fn fit_hints_counts_two_columns_between_hints() {
    let hints = [
        KeyHint::new("a", "bc"),
        KeyHint::new("d", "ef"),
        KeyHint::new("g", "hi"),
    ];
    // Each hint is 4 columns wide: 4 + 2 + 4 = 10 for two of them.
    assert_eq!(fit_hints(&hints, 9), &hints[..1]);
    assert_eq!(fit_hints(&hints, 10), &hints[..2]);
    assert_eq!(fit_hints(&hints, 16), &hints[..3]);
    assert_eq!(fit_hints(&hints, 3), &hints[..0]);
    assert!(fit_hints(&[], 80).is_empty());
}

#[test]
fn fit_hints_stops_at_the_first_hint_that_does_not_fit() {
    let hints = [
        KeyHint::new("a", "b"),
        KeyHint::new("long", "long label"),
        KeyHint::new("c", "d"),
    ];
    assert_eq!(fit_hints(&hints, 8), &hints[..1]);
}

#[test]
fn graph_help_bar_fits_hints_and_right_aligns_the_counter() {
    let hints = graph_help_hints(false, BottomLeftMode::Files, false, Language::En);
    assert_eq!(hints.len(), 15);
    let counter = commit_counter(0, 42);
    assert_eq!(counter, "1/42");
    let line = help_bar_line(100, &hints, Some(counter.as_str()));
    let text: String = line.iter().map(|s| s.text.as_str()).collect();
    assert_eq!(
        text,
        format!("j/k:navigate  Enter:details  b:branches  c:commit  s:stash  m:merge  R:reset  P:push{}1/42", " ".repeat(12))
    );
    assert_eq!(line[0].style.fg, Some(ThemeColor::Primary));
    assert!(line[0].style.bold);
    assert_eq!(line[1].style.fg, Some(ThemeColor::TextSecondary));
    assert_eq!(line.last().unwrap().style.fg, Some(ThemeColor::TextSecondary));
}

#[test]
fn graph_hints_depend_on_merge_mode_and_filter() {
    let hints = graph_help_hints(true, BottomLeftMode::Parents, true, Language::Fr);
    let keys: Vec<&str> = hints.iter().map(|h| h.key).collect();
    assert_eq!(keys, vec!["j/k", "Enter", "b", "c", "s", "m", "R", "P", "Ctrl+P", "A", "Tab", "Ctrl+R", "r", "?", "q"]);
    assert_eq!(hints[9].label, "annuler fusion");
    assert_eq!(commit_counter(99, 42), "42/42");
    assert_eq!(commit_counter(5, 0), "0/0");
    let line = help_bar_line(10, &hints, None);
    let text: String = line.iter().map(|s| s.text.as_str()).collect();
    assert_eq!(text, "");
}

#[test]
fn fitted_hints_stop_at_the_first_that_does_not_fit() {
    let hints = [KeyHint::new("a", "alpha"), KeyHint::new("b", "beta")];
    assert_eq!(fit_hints(&hints, 14).len(), 1);
    assert_eq!(fit_hints(&hints, 15).len(), 2);
    assert_eq!(fit_hints(&hints, 6).len(), 0);
}
