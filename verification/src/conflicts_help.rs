//! The help overlay of the conflicts view.

use vstd::prelude::*;
use crate::diff_view::lines_view;
use crate::lines::{push_line, seg, single};
use crate::style::{Segment, SegmentStyle, SegmentView, ThemeColor};

verus! {

/// Title of the overlay's frame.
pub const CONFLICTS_HELP_TITLE: &'static str = "Aide - Résolution de conflits";

/// The lines of the overlay: the shortcuts of the conflicts view by topic.
pub open spec fn conflicts_help_lines() -> Seq<Seq<SegmentView>> {
    seq![
        seq![seg("Raccourcis de la vue Conflits"@, SegmentStyle { fg: Some(ThemeColor::Primary), bg: None, bold: true, dim: false, italic: false, underline: false })],
        seq![seg(""@, SegmentStyle::plain_spec())],
        seq![seg("Navigation"@, SegmentStyle { fg: Some(ThemeColor::Warning), bg: None, bold: false, dim: false, italic: false, underline: false })],
        seq![seg("  ↑/↓ ou j/k  - Naviguer (fichiers / sections / lignes selon le panneau)"@, SegmentStyle::plain_spec())],
        seq![seg("  Tab         - Panneau suivant (Fichiers → Ours → Theirs → Résultat)"@, SegmentStyle::plain_spec())],
        seq![seg("  Shift+Tab   - Panneau précédent"@, SegmentStyle::plain_spec())],
        seq![seg(""@, SegmentStyle::plain_spec())],
        seq![seg("Résolution"@, SegmentStyle { fg: Some(ThemeColor::Warning), bg: None, bold: false, dim: false, italic: false, underline: false })],
        seq![seg("  o           - Garder la version 'ours' (HEAD)"@, SegmentStyle::plain_spec())],
        seq![seg("  t           - Garder la version 'theirs' (branche mergée)"@, SegmentStyle::plain_spec())],
        seq![seg("  b           - Garder les deux versions (mode Bloc uniquement)"@, SegmentStyle::plain_spec())],
        seq![seg("  Espace      - Choisir/déchoisir un bloc ou une ligne"@, SegmentStyle::plain_spec())],
        seq![seg("  Enter       - Valider et sauvegarder le fichier courant"@, SegmentStyle::plain_spec())],
        seq![seg("  r           - Marquer comme résolu (depuis la liste de fichiers)"@, SegmentStyle::plain_spec())],
        seq![seg(""@, SegmentStyle::plain_spec())],
        seq![seg("Édition du résultat"@, SegmentStyle { fg: Some(ThemeColor::Warning), bg: None, bold: false, dim: false, italic: false, underline: false })],
        seq![seg("  i ou e      - Entrer en mode édition (panneau Résultat)"@, SegmentStyle::plain_spec())],
        seq![seg("  Esc         - Quitter le mode édition"@, SegmentStyle::plain_spec())],
        seq![seg("  ↑/↓/←/→     - Déplacer le curseur"@, SegmentStyle::plain_spec())],
        seq![seg("  Caractères  - Insérer du texte"@, SegmentStyle::plain_spec())],
        seq![seg("  Backspace   - Supprimer le caractère avant"@, SegmentStyle::plain_spec())],
        seq![seg("  Delete      - Supprimer le caractère sous le curseur"@, SegmentStyle::plain_spec())],
        seq![seg("  Enter       - Insérer une nouvelle ligne"@, SegmentStyle::plain_spec())],
        seq![seg(""@, SegmentStyle::plain_spec())],
        seq![seg("Actions globales"@, SegmentStyle { fg: Some(ThemeColor::Warning), bg: None, bold: false, dim: false, italic: false, underline: false })],
        seq![seg("  F/B/L       - Mode Fichier/Bloc/Ligne (touche directe)"@, SegmentStyle::plain_spec())],
        seq![seg("  V           - Finaliser le merge (créer le commit)"@, SegmentStyle::plain_spec())],
        seq![seg("  q ou Esc    - Annuler le merge et revenir au graph"@, SegmentStyle::plain_spec())],
        seq![seg("  1/2/3       - Basculer vers Graph/Staging/Branches"@, SegmentStyle::plain_spec())],
        seq![seg(""@, SegmentStyle::plain_spec())],
        seq![seg("Appuyez sur ? pour fermer cette aide"@, SegmentStyle { fg: Some(ThemeColor::TextSecondary), bg: None, bold: false, dim: false, italic: false, underline: false })],
    ]
}

/// The lines of the overlay (see `conflicts_help_lines`).
pub fn conflicts_help_content() -> (res: Vec<Vec<Segment>>)
    ensures
        lines_view(res@) == conflicts_help_lines(),
{
    let mut lines: Vec<Vec<Segment>> = Vec::new();
    push_line(&mut lines, single("Raccourcis de la vue Conflits", SegmentStyle { fg: Some(ThemeColor::Primary), bg: None, bold: true, dim: false, italic: false, underline: false }));
    push_line(&mut lines, single("", SegmentStyle::plain()));
    push_line(&mut lines, single("Navigation", SegmentStyle { fg: Some(ThemeColor::Warning), bg: None, bold: false, dim: false, italic: false, underline: false }));
    push_line(&mut lines, single("  ↑/↓ ou j/k  - Naviguer (fichiers / sections / lignes selon le panneau)", SegmentStyle::plain()));
    push_line(&mut lines, single("  Tab         - Panneau suivant (Fichiers → Ours → Theirs → Résultat)", SegmentStyle::plain()));
    push_line(&mut lines, single("  Shift+Tab   - Panneau précédent", SegmentStyle::plain()));
    push_line(&mut lines, single("", SegmentStyle::plain()));
    push_line(&mut lines, single("Résolution", SegmentStyle { fg: Some(ThemeColor::Warning), bg: None, bold: false, dim: false, italic: false, underline: false }));
    push_line(&mut lines, single("  o           - Garder la version 'ours' (HEAD)", SegmentStyle::plain()));
    push_line(&mut lines, single("  t           - Garder la version 'theirs' (branche mergée)", SegmentStyle::plain()));
    push_line(&mut lines, single("  b           - Garder les deux versions (mode Bloc uniquement)", SegmentStyle::plain()));
    push_line(&mut lines, single("  Espace      - Choisir/déchoisir un bloc ou une ligne", SegmentStyle::plain()));
    push_line(&mut lines, single("  Enter       - Valider et sauvegarder le fichier courant", SegmentStyle::plain()));
    push_line(&mut lines, single("  r           - Marquer comme résolu (depuis la liste de fichiers)", SegmentStyle::plain()));
    push_line(&mut lines, single("", SegmentStyle::plain()));
    push_line(&mut lines, single("Édition du résultat", SegmentStyle { fg: Some(ThemeColor::Warning), bg: None, bold: false, dim: false, italic: false, underline: false }));
    push_line(&mut lines, single("  i ou e      - Entrer en mode édition (panneau Résultat)", SegmentStyle::plain()));
    push_line(&mut lines, single("  Esc         - Quitter le mode édition", SegmentStyle::plain()));
    push_line(&mut lines, single("  ↑/↓/←/→     - Déplacer le curseur", SegmentStyle::plain()));
    push_line(&mut lines, single("  Caractères  - Insérer du texte", SegmentStyle::plain()));
    push_line(&mut lines, single("  Backspace   - Supprimer le caractère avant", SegmentStyle::plain()));
    push_line(&mut lines, single("  Delete      - Supprimer le caractère sous le curseur", SegmentStyle::plain()));
    push_line(&mut lines, single("  Enter       - Insérer une nouvelle ligne", SegmentStyle::plain()));
    push_line(&mut lines, single("", SegmentStyle::plain()));
    push_line(&mut lines, single("Actions globales", SegmentStyle { fg: Some(ThemeColor::Warning), bg: None, bold: false, dim: false, italic: false, underline: false }));
    push_line(&mut lines, single("  F/B/L       - Mode Fichier/Bloc/Ligne (touche directe)", SegmentStyle::plain()));
    push_line(&mut lines, single("  V           - Finaliser le merge (créer le commit)", SegmentStyle::plain()));
    push_line(&mut lines, single("  q ou Esc    - Annuler le merge et revenir au graph", SegmentStyle::plain()));
    push_line(&mut lines, single("  1/2/3       - Basculer vers Graph/Staging/Branches", SegmentStyle::plain()));
    push_line(&mut lines, single("", SegmentStyle::plain()));
    push_line(&mut lines, single("Appuyez sur ? pour fermer cette aide", SegmentStyle { fg: Some(ThemeColor::TextSecondary), bg: None, bold: false, dim: false, italic: false, underline: false }));
    assert(lines_view(lines@) =~= conflicts_help_lines());
    lines
}

} // verus!
