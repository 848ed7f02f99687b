use git_sv::keybindings::{
    blame, branches, conflicts, diff, format_key_line, format_keys, git_actions, global,
    navigation, search, staging,
};

#[test]
fn test_format_keys() {
    assert_eq!(format_keys(&["j", "↓"]), "j / ↓");
    assert_eq!(format_keys(&["Enter"]), "Enter");
}

#[test]
fn test_format_key_line() {
    let line = format_key_line("Commit suivant", &["j", "↓"]);
    assert!(line.contains("j / ↓"));
    assert!(line.contains("Commit suivant"));
}

#[test]
fn test_all_keybindings_defined() {
    assert!(!global::QUIT.is_empty());
    assert!(!git_actions::PUSH.is_empty());
    assert!(!git_actions::PULL.is_empty());
    assert!(!branches::CHECKOUT.is_empty());
}

#[test]
fn format_keys_of_no_key_is_empty() {
    assert_eq!(format_keys(&[]), "");
    assert_eq!(format_keys(&navigation::PAGE_DOWN), "Ctrl+D / PgDn");
}

#[test]
fn key_line_puts_four_spaces_after_short_keys_and_none_after_long_ones() {
    assert_eq!(
        format_key_line("Commit suivant", &["j", "↓"]),
        "j / ↓    Commit suivant"
    );
    assert_eq!(
        format_key_line("Page", &["Ctrl+D", "PgDn"]),
        "Ctrl+D / PgDn    Page"
    );
    assert_eq!(
        format_key_line("Go", &["abcdefgh", "ijklmnop"]),
        "abcdefgh / ijklmnopGo"
    );
    assert_eq!(
        format_key_line("x", &["a-very-long-key-name"]),
        "a-very-long-key-namex"
    );
}

#[test]
fn keybinding_tables_hold_their_keys() {
    assert_eq!(global::QUIT, ["q", "Ctrl+C"]);
    assert_eq!(search::OPEN, "/");
    assert_eq!(staging::STAGE, ["s", "Enter"]);
    assert_eq!(diff::TOGGLE_VIEW, "v");
    assert_eq!(blame::CLOSE, ["q", "Esc"]);
    assert_eq!(conflicts::EDIT, ["i", "e"]);
    assert_eq!(navigation::SWITCH_PANEL, "Tab");
}
