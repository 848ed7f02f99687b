use git_sv::help_overlay::{build_help_content, overlay_title, CustomCommandHint};
use git_sv::i18n::Language;
use git_sv::input::action::ViewMode;
use git_sv::style::{Segment, ThemeColor};

fn lines_to_text(lines: Vec<Vec<Segment>>) -> String {
    lines
        .into_iter()
        .map(|line| line.into_iter().map(|s| s.text).collect::<String>())
        .collect::<Vec<_>>()
        .join("\n")
}

#[test]
fn test_branches_help_contains_rebase() {
    let content = lines_to_text(build_help_content(ViewMode::Branches, &vec![], Language::Fr));

    assert!(content.contains("Rebase"));
    assert!(content.contains("e"));
    assert!(!content.contains("Indexer le fichier"));
}

#[test]
fn test_staging_help_contains_discard_and_stage() {
    let content = lines_to_text(build_help_content(ViewMode::Staging, &vec![], Language::Fr));

    assert!(content.contains("Indexer le fichier") || content.contains("Stage file"));
    assert!(content.contains("Abandonner le fichier") || content.contains("Discard file"));
    assert!(!content.contains("Nouvelle branche locale"));
}

#[test]
fn help_starts_with_the_global_section() {
    let lines = build_help_content(ViewMode::Graph, &vec![], Language::En);
    assert_eq!(lines[0][0].text, "");
    assert_eq!(lines[1][0].text, "Global");
    assert_eq!(lines[1][0].style.fg, Some(ThemeColor::Warning));
    assert!(lines[1][0].style.bold);
    assert_eq!(lines[2][0].text, "─".repeat(40));
    assert_eq!(lines[3][0].text, "1");
    assert_eq!(lines[3][0].style.fg, Some(ThemeColor::Primary));
    assert_eq!(lines[3][1].text, format!("{}Graph view", " ".repeat(15)));
}

#[test]
fn multi_key_lines_join_the_keys_and_pad_to_sixteen_columns() {
    let lines = build_help_content(ViewMode::Blame, &vec![], Language::En);
    let text = lines_to_text(lines);
    assert!(text.contains(&format!("j / ↓{}Next line", " ".repeat(11))));
    assert!(text.contains(&format!("q / Esc{}Close blame", " ".repeat(9))));
    assert!(text.contains(&format!("q / Ctrl+C{}Quit", " ".repeat(6))));
}

#[test]
fn help_of_the_help_screen_is_the_graph_help() {
    let a = lines_to_text(build_help_content(ViewMode::Help, &vec![], Language::En));
    let b = lines_to_text(build_help_content(ViewMode::Graph, &vec![], Language::En));
    assert_eq!(a, b);
    assert!(a.contains(&format!("[ / ] / \\{}Bisect: good / bad / reset", " ".repeat(7))));
}

#[test]
fn custom_commands_get_their_own_section() {
    let commands = vec![CustomCommandHint { key: "Alt+t".to_string(), name: "Run tests".to_string() }];
    let with = build_help_content(ViewMode::Conflicts, &commands, Language::En);
    let without = build_help_content(ViewMode::Conflicts, &vec![], Language::En);
    assert_eq!(with.len(), without.len() + 4);
    let text = lines_to_text(with);
    assert!(text.contains("Custom commands"));
    assert!(text.contains(&format!("Alt+t{}Run tests", " ".repeat(11))));
    let last = without.last().unwrap();
    assert_eq!(last[0].text, "Esc or ? to close");
    assert!(last[0].style.italic);
}

#[test]
fn overlay_title_is_localized() {
    assert_eq!(overlay_title(Language::Fr), " Aide ");
    assert_eq!(overlay_title(Language::En), " Help ");
}
