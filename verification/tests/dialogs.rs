use git_sv::confirm_dialog::{confirm_legend, ConfirmAction};
use git_sv::graph::Oid;
use git_sv::i18n::Language;

#[test]
fn test_confirm_title_is_localized_in_english() {
    let title = ConfirmAction::BranchDelete("feature".to_string()).title(Language::En);
    assert_eq!(title, "Confirm branch deletion");
}

#[test]
fn confirm_messages_name_their_subject() {
    assert_eq!(
        ConfirmAction::BranchDelete("feature".to_string()).message(Language::Fr),
        "Etes-vous sur de vouloir supprimer la branche 'feature' ?"
    );
    assert_eq!(
        ConfirmAction::StashDrop(3).message(Language::En),
        "Are you sure you want to delete stash @{3} ?"
    );
    let mut bytes = [0u8; 20];
    bytes[0] = 0xde;
    bytes[1] = 0xad;
    bytes[2] = 0xbe;
    bytes[3] = 0xef;
    let oid = Oid::from_bytes(bytes);
    assert_eq!(
        ConfirmAction::ResetSoft(oid).message(Language::En),
        "SOFT reset to deadbee ?\nChanges will be kept in the index."
    );
    assert_eq!(
        ConfirmAction::BisectStart { good: oid, bad: Oid::zero() }.message(Language::En),
        "Start bisect between good commit deadbee and HEAD 0000000?\nThe working tree will change commits during the search."
    );
    assert_eq!(ConfirmAction::DiscardAll.title(Language::Fr), "Confirmer abandon de tous les fichiers");
    assert_eq!(ConfirmAction::ResetHard(oid).title(Language::En), "⚠ Confirm hard reset");
}

#[test]
fn confirm_legend_lists_the_three_keys() {
    let legend = confirm_legend(Language::En);
    let text: String = legend.iter().map(|s| s.text.as_str()).collect();
    assert_eq!(text, "y - Yes  n - No  ESC - Cancel");
    assert!(legend[0].style.bold);
}
