use git_sv::flash::{flash_error, flash_error_message, flash_success};

#[test]
fn test_flash_success() {
    assert_eq!(flash_success("Opération réussie"), "Opération réussie ✓");
}

#[test]
fn test_flash_error() {
    assert_eq!(flash_error("checkout", "boom"), "Erreur checkout: boom");
}

#[test]
fn test_flash_error_message() {
    assert_eq!(flash_error_message("boom"), "Erreur: boom");
}

#[test]
fn flash_messages_of_empty_texts() {
    assert_eq!(flash_success(""), " ✓");
    assert_eq!(flash_error("", ""), "Erreur : ");
}
