//! The confirmation dialog shown before destructive actions.

use vstd::prelude::*;
use crate::commit_line::{short_hash, short_hash_text};
use crate::graph::Oid;
use crate::i18n::{Language, pick};
use crate::strings::{decimal, push_decimal, push_str};
use crate::style::{Segment, SegmentStyle, SegmentView, ThemeColor, segments_view};

verus! {

/// An action that asks for a confirmation.
#[derive(Debug, Clone)]
pub enum ConfirmAction {
    /// Delete a branch.
    BranchDelete(String),
    /// Delete a tag.
    TagDelete(String),
    /// Delete a worktree.
    WorktreeRemove(String),
    /// Drop a stash.
    StashDrop(usize),
    /// Discard the changes of a file.
    DiscardFile(String),
    /// Discard every change.
    DiscardAll,
    /// Cherry-pick a commit.
    CherryPick(Oid),
    /// Abort the merge in progress.
    AbortMerge,
    /// Soft reset to a commit.
    ResetSoft(Oid),
    /// Mixed reset to a commit.
    ResetMixed(Oid),
    /// Hard reset to a commit.
    ResetHard(Oid),
    /// Open the editor for an interactive rebase.
    InteractiveRebase(Oid),
    /// Go back to the former HEAD kept by the reflog.
    UndoLastOperation(Oid, String),
    /// Start a bisect between a good commit and HEAD.
    BisectStart { good: Oid, bad: Oid },
}

/// The question the dialog asks for an action (commit ids shortened to
/// seven digits).
pub open spec fn message_text(a: ConfirmAction, lang: Language) -> Seq<char> {
    match a {
        ConfirmAction::BranchDelete(name) => pick(
            lang,
            "Etes-vous sur de vouloir supprimer la branche '"@ + name@ + "' ?"@,
            "Are you sure you want to delete branch '"@ + name@ + "' ?"@,
        ),
        ConfirmAction::TagDelete(name) => pick(
            lang,
            "Supprimer le tag '"@ + name@ + "' ?"@,
            "Delete tag '"@ + name@ + "' ?"@,
        ),
        ConfirmAction::WorktreeRemove(name) => pick(
            lang,
            "Etes-vous sur de vouloir supprimer le worktree '"@ + name@ + "' ?"@,
            "Are you sure you want to delete worktree '"@ + name@ + "' ?"@,
        ),
        ConfirmAction::StashDrop(index) => pick(
            lang,
            "Etes-vous sur de vouloir supprimer le stash @{"@ + decimal(index as nat) + "} ?"@,
            "Are you sure you want to delete stash @{"@ + decimal(index as nat) + "} ?"@,
        ),
        ConfirmAction::DiscardFile(path) => pick(
            lang,
            "Etes-vous sur de vouloir abandonner les modifications de '"@ + path@ + "' ?"@,
            "Are you sure you want to discard changes in '"@ + path@ + "' ?"@,
        ),
        ConfirmAction::DiscardAll => pick(
            lang,
            "Etes-vous sur de vouloir abandonner TOUTES les modifications non indexees ?"@,
            "Are you sure you want to discard ALL unstaged changes?"@,
        ),
        ConfirmAction::CherryPick(oid) => pick(
            lang,
            "Etes-vous sur de vouloir cherry-pick le commit "@ + short_hash_text(oid) + " ?"@,
            "Are you sure you want to cherry-pick commit "@ + short_hash_text(oid) + " ?"@,
        ),
        ConfirmAction::AbortMerge => pick(
            lang,
            "Etes-vous sur de vouloir annuler la fusion en cours ?"@,
            "Are you sure you want to abort the current merge?"@,
        ),
        ConfirmAction::ResetSoft(oid) => pick(
            lang,
            "Reset SOFT vers "@ + short_hash_text(oid) + " ?\nLes modifications seront conservees dans l'index."@,
            "SOFT reset to "@ + short_hash_text(oid) + " ?\nChanges will be kept in the index."@,
        ),
        ConfirmAction::ResetMixed(oid) => pick(
            lang,
            "Reset MIXED vers "@ + short_hash_text(oid) + " ?\nLes modifications seront conservees dans le working tree mais retirees de l'index."@,
            "MIXED reset to "@ + short_hash_text(oid) + " ?\nChanges will be kept in the working tree but removed from the index."@,
        ),
        ConfirmAction::ResetHard(oid) => pick(
            lang,
            "⚠ RESET HARD vers "@ + short_hash_text(oid) + " ?\n\n⚠ ATTENTION : Toutes les modifications non committees seront PERDUES !"@,
            "⚠ HARD RESET to "@ + short_hash_text(oid) + " ?\n\n⚠ WARNING: All uncommitted changes will be LOST!"@,
        ),
        ConfirmAction::InteractiveRebase(oid) => pick(
            lang,
            "Ouvrir le rebase interactif a partir de "@ + short_hash_text(oid) + " ?\nLa TUI sera suspendue pendant l'edition."@,
            "Open interactive rebase from "@ + short_hash_text(oid) + "?\nThe TUI will be suspended while editing."@,
        ),
        ConfirmAction::UndoLastOperation(oid, description) => pick(
            lang,
            "Annuler '"@ + description@ + "' et revenir a "@ + short_hash_text(oid) + " ?\nLes differences seront conservees dans le working tree."@,
            "Undo '"@ + description@ + "' and return to "@ + short_hash_text(oid) + "?\nDifferences will remain in the working tree."@,
        ),
        ConfirmAction::BisectStart { good, bad } => pick(
            lang,
            "Démarrer un bisect entre le commit bon "@ + short_hash_text(good) + " et HEAD "@ + short_hash_text(bad) + " ?\nLe working tree changera de commit pendant la recherche."@,
            "Start bisect between good commit "@ + short_hash_text(good) + " and HEAD "@ + short_hash_text(bad) + "?\nThe working tree will change commits during the search."@,
        ),
    }
}

/// The title of the dialog for an action.
pub open spec fn title_text(a: ConfirmAction, lang: Language) -> Seq<char> {
    match a {
        ConfirmAction::BranchDelete(_) => pick(lang, "Confirmer suppression branche"@, "Confirm branch deletion"@),
        ConfirmAction::TagDelete(_) => pick(lang, "Confirmer suppression tag"@, "Confirm tag deletion"@),
        ConfirmAction::WorktreeRemove(_) => pick(lang, "Confirmer suppression worktree"@, "Confirm worktree deletion"@),
        ConfirmAction::StashDrop(_) => pick(lang, "Confirmer suppression stash"@, "Confirm stash deletion"@),
        ConfirmAction::DiscardFile(_) => pick(lang, "Confirmer abandon fichier"@, "Confirm file discard"@),
        ConfirmAction::DiscardAll => pick(lang, "Confirmer abandon de tous les fichiers"@, "Confirm discard of all files"@),
        ConfirmAction::CherryPick(_) => pick(lang, "Confirmer le cherry-pick"@, "Confirm cherry-pick"@),
        ConfirmAction::AbortMerge => pick(lang, "Confirmer l'annulation de la fusion"@, "Confirm merge abort"@),
        ConfirmAction::ResetSoft(_) => pick(lang, "Confirmer le reset soft"@, "Confirm soft reset"@),
        ConfirmAction::ResetMixed(_) => pick(lang, "Confirmer le reset mixed"@, "Confirm mixed reset"@),
        ConfirmAction::ResetHard(_) => pick(lang, "⚠ Confirmer le reset hard"@, "⚠ Confirm hard reset"@),
        ConfirmAction::InteractiveRebase(_) => pick(lang, "Confirmer le rebase interactif"@, "Confirm interactive rebase"@),
        ConfirmAction::UndoLastOperation(_, _) => pick(lang, "Confirmer l'annulation"@, "Confirm undo"@),
        ConfirmAction::BisectStart { .. } => pick(lang, "Confirmer le bisect"@, "Confirm bisect"@),
    }
}

impl ConfirmAction {
    /// The question the dialog asks (see `message_text`).
    pub fn message(&self, lang: Language) -> (res: String)
        ensures
            res@ == message_text(*self, lang),
    {
        let mut s = String::new();
        match self {
            ConfirmAction::BranchDelete(name) => {
                match lang {
                    Language::Fr => {
                        push_str(&mut s, "Etes-vous sur de vouloir supprimer la branche '");
                        push_str(&mut s, name.as_str());
                        push_str(&mut s, "' ?");
                    },
                    Language::En => {
                        push_str(&mut s, "Are you sure you want to delete branch '");
                        push_str(&mut s, name.as_str());
                        push_str(&mut s, "' ?");
                    },
                }
            },
            ConfirmAction::TagDelete(name) => {
                match lang {
                    Language::Fr => {
                        push_str(&mut s, "Supprimer le tag '");
                        push_str(&mut s, name.as_str());
                        push_str(&mut s, "' ?");
                    },
                    Language::En => {
                        push_str(&mut s, "Delete tag '");
                        push_str(&mut s, name.as_str());
                        push_str(&mut s, "' ?");
                    },
                }
            },
            ConfirmAction::WorktreeRemove(name) => {
                match lang {
                    Language::Fr => {
                        push_str(&mut s, "Etes-vous sur de vouloir supprimer le worktree '");
                        push_str(&mut s, name.as_str());
                        push_str(&mut s, "' ?");
                    },
                    Language::En => {
                        push_str(&mut s, "Are you sure you want to delete worktree '");
                        push_str(&mut s, name.as_str());
                        push_str(&mut s, "' ?");
                    },
                }
            },
            ConfirmAction::StashDrop(index) => {
                match lang {
                    Language::Fr => {
                        push_str(&mut s, "Etes-vous sur de vouloir supprimer le stash @{");
                        push_decimal(&mut s, *index as u64);
                        push_str(&mut s, "} ?");
                    },
                    Language::En => {
                        push_str(&mut s, "Are you sure you want to delete stash @{");
                        push_decimal(&mut s, *index as u64);
                        push_str(&mut s, "} ?");
                    },
                }
            },
            ConfirmAction::DiscardFile(path) => {
                match lang {
                    Language::Fr => {
                        push_str(&mut s, "Etes-vous sur de vouloir abandonner les modifications de '");
                        push_str(&mut s, path.as_str());
                        push_str(&mut s, "' ?");
                    },
                    Language::En => {
                        push_str(&mut s, "Are you sure you want to discard changes in '");
                        push_str(&mut s, path.as_str());
                        push_str(&mut s, "' ?");
                    },
                }
            },
            ConfirmAction::DiscardAll => {
                match lang {
                    Language::Fr => {
                        push_str(&mut s, "Etes-vous sur de vouloir abandonner TOUTES les modifications non indexees ?");
                    },
                    Language::En => {
                        push_str(&mut s, "Are you sure you want to discard ALL unstaged changes?");
                    },
                }
            },
            ConfirmAction::CherryPick(oid) => {
                match lang {
                    Language::Fr => {
                        push_str(&mut s, "Etes-vous sur de vouloir cherry-pick le commit ");
                        push_str(&mut s, short_hash(oid).as_str());
                        push_str(&mut s, " ?");
                    },
                    Language::En => {
                        push_str(&mut s, "Are you sure you want to cherry-pick commit ");
                        push_str(&mut s, short_hash(oid).as_str());
                        push_str(&mut s, " ?");
                    },
                }
            },
            ConfirmAction::AbortMerge => {
                match lang {
                    Language::Fr => {
                        push_str(&mut s, "Etes-vous sur de vouloir annuler la fusion en cours ?");
                    },
                    Language::En => {
                        push_str(&mut s, "Are you sure you want to abort the current merge?");
                    },
                }
            },
            ConfirmAction::ResetSoft(oid) => {
                match lang {
                    Language::Fr => {
                        push_str(&mut s, "Reset SOFT vers ");
                        push_str(&mut s, short_hash(oid).as_str());
                        push_str(&mut s, " ?\nLes modifications seront conservees dans l'index.");
                    },
                    Language::En => {
                        push_str(&mut s, "SOFT reset to ");
                        push_str(&mut s, short_hash(oid).as_str());
                        push_str(&mut s, " ?\nChanges will be kept in the index.");
                    },
                }
            },
            ConfirmAction::ResetMixed(oid) => {
                match lang {
                    Language::Fr => {
                        push_str(&mut s, "Reset MIXED vers ");
                        push_str(&mut s, short_hash(oid).as_str());
                        push_str(&mut s, " ?\nLes modifications seront conservees dans le working tree mais retirees de l'index.");
                    },
                    Language::En => {
                        push_str(&mut s, "MIXED reset to ");
                        push_str(&mut s, short_hash(oid).as_str());
                        push_str(&mut s, " ?\nChanges will be kept in the working tree but removed from the index.");
                    },
                }
            },
            ConfirmAction::ResetHard(oid) => {
                match lang {
                    Language::Fr => {
                        push_str(&mut s, "⚠ RESET HARD vers ");
                        push_str(&mut s, short_hash(oid).as_str());
                        push_str(&mut s, " ?\n\n⚠ ATTENTION : Toutes les modifications non committees seront PERDUES !");
                    },
                    Language::En => {
                        push_str(&mut s, "⚠ HARD RESET to ");
                        push_str(&mut s, short_hash(oid).as_str());
                        push_str(&mut s, " ?\n\n⚠ WARNING: All uncommitted changes will be LOST!");
                    },
                }
            },
            ConfirmAction::InteractiveRebase(oid) => {
                match lang {
                    Language::Fr => {
                        push_str(&mut s, "Ouvrir le rebase interactif a partir de ");
                        push_str(&mut s, short_hash(oid).as_str());
                        push_str(&mut s, " ?\nLa TUI sera suspendue pendant l'edition.");
                    },
                    Language::En => {
                        push_str(&mut s, "Open interactive rebase from ");
                        push_str(&mut s, short_hash(oid).as_str());
                        push_str(&mut s, "?\nThe TUI will be suspended while editing.");
                    },
                }
            },
            ConfirmAction::UndoLastOperation(oid, description) => {
                match lang {
                    Language::Fr => {
                        push_str(&mut s, "Annuler '");
                        push_str(&mut s, description.as_str());
                        push_str(&mut s, "' et revenir a ");
                        push_str(&mut s, short_hash(oid).as_str());
                        push_str(&mut s, " ?\nLes differences seront conservees dans le working tree.");
                    },
                    Language::En => {
                        push_str(&mut s, "Undo '");
                        push_str(&mut s, description.as_str());
                        push_str(&mut s, "' and return to ");
                        push_str(&mut s, short_hash(oid).as_str());
                        push_str(&mut s, "?\nDifferences will remain in the working tree.");
                    },
                }
            },
            ConfirmAction::BisectStart { good, bad } => {
                match lang {
                    Language::Fr => {
                        push_str(&mut s, "Démarrer un bisect entre le commit bon ");
                        push_str(&mut s, short_hash(good).as_str());
                        push_str(&mut s, " et HEAD ");
                        push_str(&mut s, short_hash(bad).as_str());
                        push_str(&mut s, " ?\nLe working tree changera de commit pendant la recherche.");
                    },
                    Language::En => {
                        push_str(&mut s, "Start bisect between good commit ");
                        push_str(&mut s, short_hash(good).as_str());
                        push_str(&mut s, " and HEAD ");
                        push_str(&mut s, short_hash(bad).as_str());
                        push_str(&mut s, "?\nThe working tree will change commits during the search.");
                    },
                }
            },
        }
        assert(s@ =~= message_text(*self, lang));
        s
    }

    /// The title of the dialog (see `title_text`).
    pub fn title(&self, lang: Language) -> (res: &'static str)
        ensures
            res@ == title_text(*self, lang),
    {
        match self {
            ConfirmAction::BranchDelete(_) => crate::i18n::text(lang, "Confirmer suppression branche", "Confirm branch deletion"),
            ConfirmAction::TagDelete(_) => crate::i18n::text(lang, "Confirmer suppression tag", "Confirm tag deletion"),
            ConfirmAction::WorktreeRemove(_) => crate::i18n::text(lang, "Confirmer suppression worktree", "Confirm worktree deletion"),
            ConfirmAction::StashDrop(_) => crate::i18n::text(lang, "Confirmer suppression stash", "Confirm stash deletion"),
            ConfirmAction::DiscardFile(_) => crate::i18n::text(lang, "Confirmer abandon fichier", "Confirm file discard"),
            ConfirmAction::DiscardAll => crate::i18n::text(lang, "Confirmer abandon de tous les fichiers", "Confirm discard of all files"),
            ConfirmAction::CherryPick(_) => crate::i18n::text(lang, "Confirmer le cherry-pick", "Confirm cherry-pick"),
            ConfirmAction::AbortMerge => crate::i18n::text(lang, "Confirmer l'annulation de la fusion", "Confirm merge abort"),
            ConfirmAction::ResetSoft(_) => crate::i18n::text(lang, "Confirmer le reset soft", "Confirm soft reset"),
            ConfirmAction::ResetMixed(_) => crate::i18n::text(lang, "Confirmer le reset mixed", "Confirm mixed reset"),
            ConfirmAction::ResetHard(_) => crate::i18n::text(lang, "⚠ Confirmer le reset hard", "⚠ Confirm hard reset"),
            ConfirmAction::InteractiveRebase(_) => crate::i18n::text(lang, "Confirmer le rebase interactif", "Confirm interactive rebase"),
            ConfirmAction::UndoLastOperation(_, _) => crate::i18n::text(lang, "Confirmer l'annulation", "Confirm undo"),
            ConfirmAction::BisectStart { .. } => crate::i18n::text(lang, "Confirmer le bisect", "Confirm bisect"),
        }
    }
}

/// The key legend of the dialog: y confirms, n refuses, ESC cancels.
pub open spec fn legend_line(lang: Language) -> Seq<SegmentView> {
    seq![
        SegmentView {
            text: "y"@,
            style: SegmentStyle { fg: Some(ThemeColor::Success), bg: None, bold: true, dim: false, italic: false, underline: false },
        },
        SegmentView { text: pick(lang, " - Oui  "@, " - Yes  "@), style: SegmentStyle::plain_spec() },
        SegmentView {
            text: "n"@,
            style: SegmentStyle { fg: Some(ThemeColor::Error), bg: None, bold: true, dim: false, italic: false, underline: false },
        },
        SegmentView { text: pick(lang, " - Non  "@, " - No  "@), style: SegmentStyle::plain_spec() },
        SegmentView {
            text: "ESC"@,
            style: SegmentStyle { fg: Some(ThemeColor::Warning), bg: None, bold: true, dim: false, italic: false, underline: false },
        },
        SegmentView { text: pick(lang, " - Annuler"@, " - Cancel"@), style: SegmentStyle::plain_spec() },
    ]
}

fn bold(c: ThemeColor) -> (res: SegmentStyle)
    ensures
        res == (SegmentStyle { fg: Some(c), bg: None, bold: true, dim: false, italic: false, underline: false }),
{
    SegmentStyle { fg: Some(c), bg: None, bold: true, dim: false, italic: false, underline: false }
}

/// The key legend of the dialog (see `legend_line`).
pub fn confirm_legend(lang: Language) -> (res: Vec<Segment>)
    ensures
        segments_view(res@) == legend_line(lang),
{
    let mut v: Vec<Segment> = Vec::new();
    v.push(Segment { text: "y".to_owned(), style: bold(ThemeColor::Success) });
    v.push(Segment { text: crate::i18n::text(lang, " - Oui  ", " - Yes  ").to_owned(), style: SegmentStyle::plain() });
    v.push(Segment { text: "n".to_owned(), style: bold(ThemeColor::Error) });
    v.push(Segment { text: crate::i18n::text(lang, " - Non  ", " - No  ").to_owned(), style: SegmentStyle::plain() });
    v.push(Segment { text: "ESC".to_owned(), style: bold(ThemeColor::Warning) });
    v.push(Segment { text: crate::i18n::text(lang, " - Annuler", " - Cancel").to_owned(), style: SegmentStyle::plain() });
    assert(segments_view(v@) =~= legend_line(lang));
    v
}

} // verus!
