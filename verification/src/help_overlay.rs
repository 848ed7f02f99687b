//! The help overlay (key `?`): every keyboard shortcut of the application,
//! those of the active view first after the global ones.

use vstd::prelude::*;
use crate::diff_view::lines_view;
use crate::help_bar::{display_width, line_columns};
use crate::i18n::{Language, pick, text};
use crate::input::action::ViewMode;
use crate::keybindings::{
    blame, branches, conflicts, diff, format_keys, git_actions, global, joined, key_texts,
    navigation, project_tree, search, staging,
};
use crate::lines::{empty_line, plain_line, push_line, push_seg, seg, text_seg};
use crate::strings::{push_char, push_spaces, push_str, spaces};
use crate::style::{Segment, SegmentStyle, SegmentView, ThemeColor, sat_sub};

verus! {

/// A user-defined command, as the help lists it: its key and its name.
#[derive(Debug, Clone)]
pub struct CustomCommandHint {
    pub key: String,
    pub name: String,
}

/// Width, in columns, that the key column of a help line is padded to.
pub const KEY_COLUMN_WIDTH: usize = 16;

/// Length of the rule under a section title.
pub const SEPARATOR_LENGTH: usize = 40;

/// A section title, bold in the warning color.
pub open spec fn header_line(title: Seq<char>) -> Seq<SegmentView> {
    seq![seg(title, SegmentStyle { fg: Some(ThemeColor::Warning), bg: None, bold: true, dim: false, italic: false, underline: false })]
}

/// The rule under a section title.
pub open spec fn separator_line() -> Seq<SegmentView> {
    plain_line(Seq::new(SEPARATOR_LENGTH as nat, |_i: int| '─'))
}

/// Several keys of one action, as shown: "j / ↓".
pub open spec fn multi_keys(keys: Seq<&str>) -> Seq<char> {
    joined(key_texts(keys), " / "@)
}

/// A help line: the keys in the primary color, then the description,
/// preceded by the spaces that bring the key column to 16 columns (none
/// when the keys take 16 or more).
pub open spec fn key_row(keys: Seq<char>, desc: Seq<char>) -> Seq<SegmentView> {
    seq![
        seg(keys, SegmentStyle::fg_spec(ThemeColor::Primary)),
        seg(
            spaces(sat_sub(KEY_COLUMN_WIDTH as int, line_columns(keys) as int) as nat) + desc,
            SegmentStyle::plain_spec(),
        ),
    ]
}

/// The closing hint at the bottom of the overlay.
pub open spec fn closing_line(lang: Language) -> Seq<SegmentView> {
    seq![seg(
        pick(lang, "Esc ou ? pour fermer"@, "Esc or ? to close"@),
        SegmentStyle { fg: Some(ThemeColor::TextSecondary), bg: None, bold: false, dim: false, italic: true, underline: false },
    )]
}

/// The lines of the user-defined commands, one key line each.
pub open spec fn command_rows(commands: Seq<CustomCommandHint>) -> Seq<Seq<SegmentView>> {
    commands.map_values(|c: CustomCommandHint| key_row(c.key@, c.name@))
}

/// The section of the user-defined commands, when there are any.
pub open spec fn commands_help(commands: Seq<CustomCommandHint>, lang: Language) -> Seq<Seq<SegmentView>> {
    if commands.len() == 0 {
        Seq::empty()
    } else {
        seq![
            plain_line(Seq::empty()),
            header_line(pick(lang, "Commandes personnalisees"@, "Custom commands"@)),
            separator_line(),
        ] + command_rows(commands)
    }
}

/// The help section of the active view (the graph's for the help screen
/// itself).
pub open spec fn view_help(view: ViewMode, lang: Language) -> Seq<Seq<SegmentView>> {
    match view {
        ViewMode::Graph | ViewMode::Help => graph_help(lang),
        ViewMode::Staging => staging_help(lang),
        ViewMode::Branches => branches_help(lang),
        ViewMode::ProjectTree => project_tree_help(lang),
        ViewMode::Blame => blame_help(lang),
        ViewMode::Conflicts => conflicts_help(lang),
    }
}

/// The whole help: a blank line, the global shortcuts, a blank line, the
/// shortcuts of the active view, the user-defined commands, a blank line
/// and the closing hint.
pub open spec fn help_content(
    view: ViewMode,
    commands: Seq<CustomCommandHint>,
    lang: Language,
) -> Seq<Seq<SegmentView>> {
    seq![plain_line(Seq::empty())] + global_help(lang) + seq![plain_line(Seq::empty())]
        + view_help(view, lang) + commands_help(commands, lang)
        + seq![plain_line(Seq::empty()), closing_line(lang)]
}

/// Title of the overlay's frame.
pub fn overlay_title(lang: Language) -> (res: &'static str)
    ensures
        res@ == pick(lang, " Aide "@, " Help "@),
{
    text(lang, " Aide ", " Help ")
}

fn push_section_header(lines: &mut Vec<Vec<Segment>>, title: &str)
    ensures
        lines_view(final(lines)@) == lines_view(old(lines)@).push(header_line(title@)),
{
    let mut line: Vec<Segment> = Vec::new();
    let style = SegmentStyle { fg: Some(ThemeColor::Warning), bg: None, bold: true, dim: false, italic: false, underline: false };
    push_seg(&mut line, text_seg(title, style));
    assert(crate::style::segments_view(line@) =~= header_line(title@));
    push_line(lines, line);
}

fn push_separator(lines: &mut Vec<Vec<Segment>>)
    ensures
        lines_view(final(lines)@) == lines_view(old(lines)@).push(separator_line()),
{
    let mut rule = String::new();
    let mut i: usize = 0;
    while i < SEPARATOR_LENGTH
        invariant
            i <= SEPARATOR_LENGTH,
            rule@ == Seq::new(i as nat, |_j: int| '─'),
        decreases SEPARATOR_LENGTH - i,
    {
        push_char(&mut rule, '─');
        i = i + 1;
        assert(rule@ =~= Seq::new(i as nat, |_j: int| '─'));
    }
    let mut line: Vec<Segment> = Vec::new();
    push_seg(&mut line, Segment { text: rule, style: SegmentStyle::plain() });
    assert(crate::style::segments_view(line@) =~= separator_line());
    push_line(lines, line);
}

/// The two segments of a help line (see `key_row`).
fn key_row_segments(keys: &str, desc: &str) -> (res: Vec<Segment>)
    ensures
        crate::style::segments_view(res@) == key_row(keys@, desc@),
{
    let width = display_width(keys);
    let padding = KEY_COLUMN_WIDTH.saturating_sub(width);
    assert(padding == sat_sub(KEY_COLUMN_WIDTH as int, line_columns(keys@) as int));
    let mut rest = String::new();
    push_spaces(&mut rest, padding);
    push_str(&mut rest, desc);
    let mut line: Vec<Segment> = Vec::new();
    push_seg(&mut line, text_seg(keys, SegmentStyle::fg(ThemeColor::Primary)));
    push_seg(&mut line, Segment { text: rest, style: SegmentStyle::plain() });
    assert(crate::style::segments_view(line@) =~= key_row(keys@, desc@));
    line
}

fn push_key_line(lines: &mut Vec<Vec<Segment>>, key: &str, desc: &str)
    ensures
        lines_view(final(lines)@) == lines_view(old(lines)@).push(key_row(key@, desc@)),
{
    push_line(lines, key_row_segments(key, desc));
}

fn push_key_line_multi(lines: &mut Vec<Vec<Segment>>, keys: &[&str], desc: &str)
    ensures
        lines_view(final(lines)@) == lines_view(old(lines)@).push(key_row(multi_keys(keys@), desc@)),
{
    let joined_keys = format_keys(keys);
    push_line(lines, key_row_segments(joined_keys.as_str(), desc));
}

/// The help section of the shortcuts of every view.
pub open spec fn global_help(lang: Language) -> Seq<Seq<SegmentView>> {
    seq![
        header_line(pick(lang, "Global"@, "Global"@)),
        separator_line(),
        key_row(global::VIEW_GRAPH@, pick(lang, "Vue Graph"@, "Graph view"@)),
        key_row(global::VIEW_STAGING@, pick(lang, "Vue Staging"@, "Staging view"@)),
        key_row(global::VIEW_BRANCHES@, pick(lang, "Vue Branches"@, "Branches view"@)),
        key_row(global::VIEW_PROJECT_TREE@, pick(lang, "Vue Arborescence"@, "Project tree view"@)),
        key_row(global::VIEW_WORKTREES@, pick(lang, "Selecteur de worktrees"@, "Worktree selector"@)),
        key_row(global::VIEW_CONFLICTS@, pick(lang, "Vue Conflits (si actifs)"@, "Conflicts view (if active)"@)),
        key_row(global::HELP@, pick(lang, "Aide"@, "Help"@)),
        key_row(global::REFRESH@, pick(lang, "Rafraichir"@, "Refresh"@)),
        key_row(global::COPY@, pick(lang, "Copier dans le presse-papiers"@, "Copy to clipboard"@)),
        key_row(multi_keys(global::QUIT@), pick(lang, "Quitter"@, "Quit"@)),
    ]
}

/// The help section of the graph view.
pub open spec fn graph_help(lang: Language) -> Seq<Seq<SegmentView>> {
    seq![
        header_line(pick(lang, "Vue Graph"@, "Graph View"@)),
        separator_line(),
        key_row(multi_keys(navigation::DOWN@), pick(lang, "Commit suivant"@, "Next commit"@)),
        key_row(multi_keys(navigation::UP@), pick(lang, "Commit precedent"@, "Previous commit"@)),
        key_row(multi_keys(navigation::TOP@), pick(lang, "Premier commit"@, "First commit"@)),
        key_row(multi_keys(navigation::BOTTOM@), pick(lang, "Dernier commit"@, "Last commit"@)),
        key_row(multi_keys(navigation::PAGE_DOWN@), pick(lang, "Page suivante"@, "Next page"@)),
        key_row(multi_keys(navigation::PAGE_UP@), pick(lang, "Page precedente"@, "Previous page"@)),
        key_row(navigation::SWITCH_PANEL@, pick(lang, "Basculer panneaux"@, "Switch panels"@)),
        key_row("Espace"@, pick(lang, "Ouvrir le diff"@, "Open diff"@)),
        key_row("Enter"@, pick(lang, "Plein ecran / action contextuelle"@, "Fullscreen / contextual action"@)),
        key_row(git_actions::COMMIT@, pick(lang, "Nouveau commit"@, "New commit"@)),
        key_row(git_actions::STASH@, pick(lang, "Stash rapide"@, "Quick stash"@)),
        key_row(git_actions::MERGE@, pick(lang, "Merge"@, "Merge"@)),
        key_row(git_actions::PUSH@, pick(lang, "Push"@, "Push"@)),
        key_row(git_actions::FORCE_PUSH@, pick(lang, "Force push"@, "Force push"@)),
        key_row(git_actions::BLAME@, pick(lang, "Blame du fichier"@, "File blame"@)),
        key_row(git_actions::RESET@, pick(lang, "Reset"@, "Reset"@)),
        key_row(git_actions::INTERACTIVE_REBASE@, pick(lang, "Rebase interactif depuis le commit"@, "Interactive rebase from commit"@)),
        key_row(git_actions::UNDO_REFLOG@, pick(lang, "Annuler via le reflog"@, "Undo from reflog"@)),
        key_row(git_actions::CREATE_TAG@, pick(lang, "Creer un tag sur le commit"@, "Create tag on commit"@)),
        key_row(git_actions::DELETE_TAG@, pick(lang, "Supprimer le tag du commit"@, "Delete commit tag"@)),
        key_row(git_actions::COMPARE_HEAD@, pick(lang, "Comparer le commit a HEAD"@, "Compare commit with HEAD"@)),
        key_row(git_actions::BISECT_START@, pick(lang, "Demarrer un bisect"@, "Start bisect"@)),
        key_row(git_actions::REPOSITORY_INSIGHTS@, pick(lang, "Diagnostic hooks, signature et sous-modules"@, "Hooks, signature and submodule diagnostics"@)),
        key_row(git_actions::GITHUB_PR@, pick(lang, "Statut de la pull request GitHub"@, "GitHub pull request status"@)),
        key_row("[ / ] / \\"@, pick(lang, "Bisect : bon / mauvais / terminer"@, "Bisect: good / bad / reset"@)),
        key_row(search::OPEN@, pick(lang, "Ouvrir la recherche"@, "Open search"@)),
        key_row(search::FILTER@, pick(lang, "Filtre avance"@, "Advanced filter"@)),
        key_row(diff::TOGGLE_VIEW@, pick(lang, "Basculer le mode diff"@, "Toggle diff mode"@)),
        key_row(diff::EXTERNAL@, pick(lang, "Ouvrir le diff externe"@, "Open external diff"@)),
        key_row("n / N"@, pick(lang, "Hunk suivant / precedent"@, "Next / previous hunk"@)),
    ]
}

/// The help section of the staging view.
pub open spec fn staging_help(lang: Language) -> Seq<Seq<SegmentView>> {
    seq![
        header_line(pick(lang, "Vue Staging"@, "Staging View"@)),
        separator_line(),
        key_row(multi_keys(navigation::DOWN@), pick(lang, "Selection suivante"@, "Next selection"@)),
        key_row(multi_keys(navigation::UP@), pick(lang, "Selection precedente"@, "Previous selection"@)),
        key_row(multi_keys(staging::STAGE@), pick(lang, "Indexer le fichier"@, "Stage file"@)),
        key_row(staging::STAGE_ALL@, pick(lang, "Indexer tous les fichiers"@, "Stage all files"@)),
        key_row(multi_keys(staging::UNSTAGE@), pick(lang, "Desindexer le fichier"@, "Unstage file"@)),
        key_row(staging::UNSTAGE_ALL@, pick(lang, "Desindexer tous les fichiers"@, "Unstage all files"@)),
        key_row(staging::DISCARD@, pick(lang, "Abandonner le fichier"@, "Discard file"@)),
        key_row(staging::DISCARD_ALL@, pick(lang, "Abandonner tous les fichiers"@, "Discard all files"@)),
        key_row(staging::STASH_FILE@, pick(lang, "Stash du fichier"@, "Stash file"@)),
        key_row(staging::STASH_ALL@, pick(lang, "Stash des non indexes"@, "Stash unstaged files"@)),
        key_row(multi_keys(staging::SWITCH_FOCUS@), pick(lang, "Basculer le focus"@, "Switch focus"@)),
        key_row(staging::OPEN_DIFF@, pick(lang, "Ouvrir le diff"@, "Open diff"@)),
        key_row(staging::STAGE_HUNK@, pick(lang, "Indexer le hunk dans le diff"@, "Stage hunk in diff"@)),
        key_row(staging::STAGE_LINE@, pick(lang, "Indexer la ligne dans le diff"@, "Stage line in diff"@)),
        key_row(staging::COMMIT_MESSAGE@, pick(lang, "Ecrire un commit"@, "Write commit"@)),
        key_row(staging::AMEND@, pick(lang, "Amender le commit"@, "Amend commit"@)),
        key_row(git_actions::PUSH@, pick(lang, "Push"@, "Push"@)),
        key_row(git_actions::FORCE_PUSH@, pick(lang, "Force push"@, "Force push"@)),
        key_row(diff::TOGGLE_VIEW@, pick(lang, "Basculer le mode diff"@, "Toggle diff mode"@)),
        key_row(diff::EXTERNAL@, pick(lang, "Ouvrir le diff externe"@, "Open external diff"@)),
        key_row("n / N"@, pick(lang, "Hunk suivant / precedent"@, "Next / previous hunk"@)),
    ]
}

/// The help section of the branches view.
pub open spec fn branches_help(lang: Language) -> Seq<Seq<SegmentView>> {
    seq![
        header_line(pick(lang, "Vue Branches"@, "Branches View"@)),
        separator_line(),
        key_row(multi_keys(navigation::DOWN@), pick(lang, "Selection suivante"@, "Next selection"@)),
        key_row(multi_keys(navigation::UP@), pick(lang, "Selection precedente"@, "Previous selection"@)),
        key_row(branches::CHECKOUT@, pick(lang, "Checkout branche"@, "Checkout branch"@)),
        key_row(branches::NEW@, pick(lang, "Nouvelle branche locale"@, "New local branch"@)),
        key_row(branches::DELETE@, pick(lang, "Supprimer branche"@, "Delete branch"@)),
        key_row(branches::RENAME@, pick(lang, "Renommer branche"@, "Rename branch"@)),
        key_row(branches::MERGE@, pick(lang, "Fusionner une branche"@, "Merge a branch"@)),
        key_row(branches::REBASE@, pick(lang, "Rebase sur une branche"@, "Rebase onto a branch"@)),
        key_row(branches::TOGGLE_REMOTE@, pick(lang, "Afficher/masquer les distantes"@, "Toggle remotes"@)),
        key_row(branches::NEXT_SECTION@, pick(lang, "Section suivante"@, "Next section"@)),
        key_row(branches::PREV_SECTION@, pick(lang, "Section precedente"@, "Previous section"@)),
        key_row(branches::WORKTREE_NEW@, pick(lang, "Nouveau worktree"@, "New worktree"@)),
        key_row(branches::WORKTREE_OPEN@, pick(lang, "Ouvrir le worktree"@, "Open worktree"@)),
        key_row(branches::WORKTREE_DELETE@, pick(lang, "Supprimer worktree"@, "Delete worktree"@)),
        key_row(branches::STASH_SAVE@, pick(lang, "Sauver un stash"@, "Save stash"@)),
        key_row(branches::STASH_APPLY@, pick(lang, "Appliquer un stash"@, "Apply stash"@)),
        key_row(branches::STASH_POP@, pick(lang, "Pop un stash"@, "Pop stash"@)),
        key_row(branches::STASH_DROP@, pick(lang, "Supprimer un stash"@, "Drop stash"@)),
        key_row(git_actions::PUSH@, pick(lang, "Push"@, "Push"@)),
        key_row(git_actions::FORCE_PUSH@, pick(lang, "Force push"@, "Force push"@)),
    ]
}

/// The help section of the project tree view.
pub open spec fn project_tree_help(lang: Language) -> Seq<Seq<SegmentView>> {
    seq![
        header_line(pick(lang, "Vue Arborescence"@, "Project Tree View"@)),
        separator_line(),
        key_row(multi_keys(navigation::DOWN@), pick(lang, "Selection suivante"@, "Next selection"@)),
        key_row(multi_keys(navigation::UP@), pick(lang, "Selection precedente"@, "Previous selection"@)),
        key_row(project_tree::TOGGLE@, pick(lang, "Ouvrir/fermer un dossier"@, "Expand/collapse directory"@)),
        key_row(project_tree::COLLAPSE@, pick(lang, "Fermer ou remonter au parent"@, "Collapse or select parent"@)),
        key_row(project_tree::EXPAND@, pick(lang, "Ouvrir un dossier"@, "Expand directory"@)),
        key_row(project_tree::SEARCH@, pick(lang, "Recherche rapide de chemin"@, "Quick path search"@)),
        key_row(project_tree::SWITCH_PANEL@, pick(lang, "Arbre → historique → fichiers → diff"@, "Tree → history → files → diff"@)),
        key_row(project_tree::COMPARE@, pick(lang, "Comparer les commits du chemin avec une branche"@, "Compare path commits with a branch"@)),
        key_row(project_tree::CLOSE_COMPARISON@, pick(lang, "Fermer la comparaison de chemin"@, "Close path comparison"@)),
        key_row(global::COPY@, pick(lang, "Copier le chemin, commit, contenu ou diff actif"@, "Copy active path, commit, file contents or diff"@)),
        key_row(global::REFRESH@, pick(lang, "Rafraichir"@, "Refresh"@)),
        key_row(diff::EXTERNAL@, pick(lang, "Ouvrir le diff externe"@, "Open external diff"@)),
        key_row("n / N"@, pick(lang, "Hunk suivant / precedent"@, "Next / previous hunk"@)),
    ]
}

/// The help section of the blame view.
pub open spec fn blame_help(lang: Language) -> Seq<Seq<SegmentView>> {
    seq![
        header_line(pick(lang, "Vue Blame"@, "Blame View"@)),
        separator_line(),
        key_row(multi_keys(navigation::DOWN@), pick(lang, "Ligne suivante"@, "Next line"@)),
        key_row(multi_keys(navigation::UP@), pick(lang, "Ligne precedente"@, "Previous line"@)),
        key_row(multi_keys(blame::CLOSE@), pick(lang, "Fermer le blame"@, "Close blame"@)),
        key_row(blame::JUMP@, pick(lang, "Aller au commit"@, "Jump to commit"@)),
    ]
}

/// The help section of the conflicts view.
pub open spec fn conflicts_help(lang: Language) -> Seq<Seq<SegmentView>> {
    seq![
        header_line(pick(lang, "Vue Conflits"@, "Conflicts View"@)),
        separator_line(),
        key_row(multi_keys(conflicts::SWITCH_PANEL@), pick(lang, "Basculer les panneaux"@, "Switch panels"@)),
        key_row(multi_keys(conflicts::ACCEPT_OURS@), pick(lang, "Accepter ours"@, "Accept ours"@)),
        key_row(multi_keys(conflicts::ACCEPT_THEIRS@), pick(lang, "Accepter theirs"@, "Accept theirs"@)),
        key_row(conflicts::ACCEPT_BOTH@, pick(lang, "Accepter les deux"@, "Accept both"@)),
        key_row(conflicts::MARK_RESOLVED@, pick(lang, "Marquer comme resolu"@, "Mark resolved"@)),
        key_row(conflicts::FINALIZE@, pick(lang, "Finaliser l'operation"@, "Finalize operation"@)),
        key_row(conflicts::ABORT@, pick(lang, "Annuler l'operation"@, "Abort operation"@)),
    ]
}

/// Appends the help section of the shortcuts of every view.
fn append_global_help(lines: &mut Vec<Vec<Segment>>, lang: Language)
    ensures
        lines_view(final(lines)@) == lines_view(old(lines)@) + global_help(lang),
{
    let ghost start = lines_view(lines@);
    push_section_header(lines, text(lang, "Global", "Global"));
    push_separator(lines);
    push_key_line(lines, global::VIEW_GRAPH, text(lang, "Vue Graph", "Graph view"));
    push_key_line(lines, global::VIEW_STAGING, text(lang, "Vue Staging", "Staging view"));
    push_key_line(lines, global::VIEW_BRANCHES, text(lang, "Vue Branches", "Branches view"));
    push_key_line(lines, global::VIEW_PROJECT_TREE, text(lang, "Vue Arborescence", "Project tree view"));
    push_key_line(lines, global::VIEW_WORKTREES, text(lang, "Selecteur de worktrees", "Worktree selector"));
    push_key_line(lines, global::VIEW_CONFLICTS, text(lang, "Vue Conflits (si actifs)", "Conflicts view (if active)"));
    push_key_line(lines, global::HELP, text(lang, "Aide", "Help"));
    push_key_line(lines, global::REFRESH, text(lang, "Rafraichir", "Refresh"));
    push_key_line(lines, global::COPY, text(lang, "Copier dans le presse-papiers", "Copy to clipboard"));
    push_key_line_multi(lines, &global::QUIT, text(lang, "Quitter", "Quit"));
    assert(lines_view(lines@) =~= start + global_help(lang));
}

/// Appends the help section of the graph view.
fn append_graph_help(lines: &mut Vec<Vec<Segment>>, lang: Language)
    ensures
        lines_view(final(lines)@) == lines_view(old(lines)@) + graph_help(lang),
{
    let ghost start = lines_view(lines@);
    push_section_header(lines, text(lang, "Vue Graph", "Graph View"));
    push_separator(lines);
    push_key_line_multi(lines, &navigation::DOWN, text(lang, "Commit suivant", "Next commit"));
    push_key_line_multi(lines, &navigation::UP, text(lang, "Commit precedent", "Previous commit"));
    push_key_line_multi(lines, &navigation::TOP, text(lang, "Premier commit", "First commit"));
    push_key_line_multi(lines, &navigation::BOTTOM, text(lang, "Dernier commit", "Last commit"));
    push_key_line_multi(lines, &navigation::PAGE_DOWN, text(lang, "Page suivante", "Next page"));
    push_key_line_multi(lines, &navigation::PAGE_UP, text(lang, "Page precedente", "Previous page"));
    push_key_line(lines, navigation::SWITCH_PANEL, text(lang, "Basculer panneaux", "Switch panels"));
    push_key_line(lines, "Espace", text(lang, "Ouvrir le diff", "Open diff"));
    push_key_line(lines, "Enter", text(lang, "Plein ecran / action contextuelle", "Fullscreen / contextual action"));
    push_key_line(lines, git_actions::COMMIT, text(lang, "Nouveau commit", "New commit"));
    push_key_line(lines, git_actions::STASH, text(lang, "Stash rapide", "Quick stash"));
    push_key_line(lines, git_actions::MERGE, text(lang, "Merge", "Merge"));
    push_key_line(lines, git_actions::PUSH, text(lang, "Push", "Push"));
    push_key_line(lines, git_actions::FORCE_PUSH, text(lang, "Force push", "Force push"));
    push_key_line(lines, git_actions::BLAME, text(lang, "Blame du fichier", "File blame"));
    push_key_line(lines, git_actions::RESET, text(lang, "Reset", "Reset"));
    push_key_line(lines, git_actions::INTERACTIVE_REBASE, text(lang, "Rebase interactif depuis le commit", "Interactive rebase from commit"));
    push_key_line(lines, git_actions::UNDO_REFLOG, text(lang, "Annuler via le reflog", "Undo from reflog"));
    push_key_line(lines, git_actions::CREATE_TAG, text(lang, "Creer un tag sur le commit", "Create tag on commit"));
    push_key_line(lines, git_actions::DELETE_TAG, text(lang, "Supprimer le tag du commit", "Delete commit tag"));
    push_key_line(lines, git_actions::COMPARE_HEAD, text(lang, "Comparer le commit a HEAD", "Compare commit with HEAD"));
    push_key_line(lines, git_actions::BISECT_START, text(lang, "Demarrer un bisect", "Start bisect"));
    push_key_line(lines, git_actions::REPOSITORY_INSIGHTS, text(lang, "Diagnostic hooks, signature et sous-modules", "Hooks, signature and submodule diagnostics"));
    push_key_line(lines, git_actions::GITHUB_PR, text(lang, "Statut de la pull request GitHub", "GitHub pull request status"));
    push_key_line(lines, "[ / ] / \\", text(lang, "Bisect : bon / mauvais / terminer", "Bisect: good / bad / reset"));
    push_key_line(lines, search::OPEN, text(lang, "Ouvrir la recherche", "Open search"));
    push_key_line(lines, search::FILTER, text(lang, "Filtre avance", "Advanced filter"));
    push_key_line(lines, diff::TOGGLE_VIEW, text(lang, "Basculer le mode diff", "Toggle diff mode"));
    push_key_line(lines, diff::EXTERNAL, text(lang, "Ouvrir le diff externe", "Open external diff"));
    push_key_line(lines, "n / N", text(lang, "Hunk suivant / precedent", "Next / previous hunk"));
    assert(lines_view(lines@) =~= start + graph_help(lang));
}

/// Appends the help section of the staging view.
fn append_staging_help(lines: &mut Vec<Vec<Segment>>, lang: Language)
    ensures
        lines_view(final(lines)@) == lines_view(old(lines)@) + staging_help(lang),
{
    let ghost start = lines_view(lines@);
    push_section_header(lines, text(lang, "Vue Staging", "Staging View"));
    push_separator(lines);
    push_key_line_multi(lines, &navigation::DOWN, text(lang, "Selection suivante", "Next selection"));
    push_key_line_multi(lines, &navigation::UP, text(lang, "Selection precedente", "Previous selection"));
    push_key_line_multi(lines, &staging::STAGE, text(lang, "Indexer le fichier", "Stage file"));
    push_key_line(lines, staging::STAGE_ALL, text(lang, "Indexer tous les fichiers", "Stage all files"));
    push_key_line_multi(lines, &staging::UNSTAGE, text(lang, "Desindexer le fichier", "Unstage file"));
    push_key_line(lines, staging::UNSTAGE_ALL, text(lang, "Desindexer tous les fichiers", "Unstage all files"));
    push_key_line(lines, staging::DISCARD, text(lang, "Abandonner le fichier", "Discard file"));
    push_key_line(lines, staging::DISCARD_ALL, text(lang, "Abandonner tous les fichiers", "Discard all files"));
    push_key_line(lines, staging::STASH_FILE, text(lang, "Stash du fichier", "Stash file"));
    push_key_line(lines, staging::STASH_ALL, text(lang, "Stash des non indexes", "Stash unstaged files"));
    push_key_line_multi(lines, &staging::SWITCH_FOCUS, text(lang, "Basculer le focus", "Switch focus"));
    push_key_line(lines, staging::OPEN_DIFF, text(lang, "Ouvrir le diff", "Open diff"));
    push_key_line(lines, staging::STAGE_HUNK, text(lang, "Indexer le hunk dans le diff", "Stage hunk in diff"));
    push_key_line(lines, staging::STAGE_LINE, text(lang, "Indexer la ligne dans le diff", "Stage line in diff"));
    push_key_line(lines, staging::COMMIT_MESSAGE, text(lang, "Ecrire un commit", "Write commit"));
    push_key_line(lines, staging::AMEND, text(lang, "Amender le commit", "Amend commit"));
    push_key_line(lines, git_actions::PUSH, text(lang, "Push", "Push"));
    push_key_line(lines, git_actions::FORCE_PUSH, text(lang, "Force push", "Force push"));
    push_key_line(lines, diff::TOGGLE_VIEW, text(lang, "Basculer le mode diff", "Toggle diff mode"));
    push_key_line(lines, diff::EXTERNAL, text(lang, "Ouvrir le diff externe", "Open external diff"));
    push_key_line(lines, "n / N", text(lang, "Hunk suivant / precedent", "Next / previous hunk"));
    assert(lines_view(lines@) =~= start + staging_help(lang));
}

/// Appends the help section of the branches view.
fn append_branches_help(lines: &mut Vec<Vec<Segment>>, lang: Language)
    ensures
        lines_view(final(lines)@) == lines_view(old(lines)@) + branches_help(lang),
{
    let ghost start = lines_view(lines@);
    push_section_header(lines, text(lang, "Vue Branches", "Branches View"));
    push_separator(lines);
    push_key_line_multi(lines, &navigation::DOWN, text(lang, "Selection suivante", "Next selection"));
    push_key_line_multi(lines, &navigation::UP, text(lang, "Selection precedente", "Previous selection"));
    push_key_line(lines, branches::CHECKOUT, text(lang, "Checkout branche", "Checkout branch"));
    push_key_line(lines, branches::NEW, text(lang, "Nouvelle branche locale", "New local branch"));
    push_key_line(lines, branches::DELETE, text(lang, "Supprimer branche", "Delete branch"));
    push_key_line(lines, branches::RENAME, text(lang, "Renommer branche", "Rename branch"));
    push_key_line(lines, branches::MERGE, text(lang, "Fusionner une branche", "Merge a branch"));
    push_key_line(lines, branches::REBASE, text(lang, "Rebase sur une branche", "Rebase onto a branch"));
    push_key_line(lines, branches::TOGGLE_REMOTE, text(lang, "Afficher/masquer les distantes", "Toggle remotes"));
    push_key_line(lines, branches::NEXT_SECTION, text(lang, "Section suivante", "Next section"));
    push_key_line(lines, branches::PREV_SECTION, text(lang, "Section precedente", "Previous section"));
    push_key_line(lines, branches::WORKTREE_NEW, text(lang, "Nouveau worktree", "New worktree"));
    push_key_line(lines, branches::WORKTREE_OPEN, text(lang, "Ouvrir le worktree", "Open worktree"));
    push_key_line(lines, branches::WORKTREE_DELETE, text(lang, "Supprimer worktree", "Delete worktree"));
    push_key_line(lines, branches::STASH_SAVE, text(lang, "Sauver un stash", "Save stash"));
    push_key_line(lines, branches::STASH_APPLY, text(lang, "Appliquer un stash", "Apply stash"));
    push_key_line(lines, branches::STASH_POP, text(lang, "Pop un stash", "Pop stash"));
    push_key_line(lines, branches::STASH_DROP, text(lang, "Supprimer un stash", "Drop stash"));
    push_key_line(lines, git_actions::PUSH, text(lang, "Push", "Push"));
    push_key_line(lines, git_actions::FORCE_PUSH, text(lang, "Force push", "Force push"));
    assert(lines_view(lines@) =~= start + branches_help(lang));
}

/// Appends the help section of the project tree view.
fn append_project_tree_help(lines: &mut Vec<Vec<Segment>>, lang: Language)
    ensures
        lines_view(final(lines)@) == lines_view(old(lines)@) + project_tree_help(lang),
{
    let ghost start = lines_view(lines@);
    push_section_header(lines, text(lang, "Vue Arborescence", "Project Tree View"));
    push_separator(lines);
    push_key_line_multi(lines, &navigation::DOWN, text(lang, "Selection suivante", "Next selection"));
    push_key_line_multi(lines, &navigation::UP, text(lang, "Selection precedente", "Previous selection"));
    push_key_line(lines, project_tree::TOGGLE, text(lang, "Ouvrir/fermer un dossier", "Expand/collapse directory"));
    push_key_line(lines, project_tree::COLLAPSE, text(lang, "Fermer ou remonter au parent", "Collapse or select parent"));
    push_key_line(lines, project_tree::EXPAND, text(lang, "Ouvrir un dossier", "Expand directory"));
    push_key_line(lines, project_tree::SEARCH, text(lang, "Recherche rapide de chemin", "Quick path search"));
    push_key_line(lines, project_tree::SWITCH_PANEL, text(lang, "Arbre → historique → fichiers → diff", "Tree → history → files → diff"));
    push_key_line(lines, project_tree::COMPARE, text(lang, "Comparer les commits du chemin avec une branche", "Compare path commits with a branch"));
    push_key_line(lines, project_tree::CLOSE_COMPARISON, text(lang, "Fermer la comparaison de chemin", "Close path comparison"));
    push_key_line(lines, global::COPY, text(lang, "Copier le chemin, commit, contenu ou diff actif", "Copy active path, commit, file contents or diff"));
    push_key_line(lines, global::REFRESH, text(lang, "Rafraichir", "Refresh"));
    push_key_line(lines, diff::EXTERNAL, text(lang, "Ouvrir le diff externe", "Open external diff"));
    push_key_line(lines, "n / N", text(lang, "Hunk suivant / precedent", "Next / previous hunk"));
    assert(lines_view(lines@) =~= start + project_tree_help(lang));
}

/// Appends the help section of the blame view.
fn append_blame_help(lines: &mut Vec<Vec<Segment>>, lang: Language)
    ensures
        lines_view(final(lines)@) == lines_view(old(lines)@) + blame_help(lang),
{
    let ghost start = lines_view(lines@);
    push_section_header(lines, text(lang, "Vue Blame", "Blame View"));
    push_separator(lines);
    push_key_line_multi(lines, &navigation::DOWN, text(lang, "Ligne suivante", "Next line"));
    push_key_line_multi(lines, &navigation::UP, text(lang, "Ligne precedente", "Previous line"));
    push_key_line_multi(lines, &blame::CLOSE, text(lang, "Fermer le blame", "Close blame"));
    push_key_line(lines, blame::JUMP, text(lang, "Aller au commit", "Jump to commit"));
    assert(lines_view(lines@) =~= start + blame_help(lang));
}

/// Appends the help section of the conflicts view.
fn append_conflicts_help(lines: &mut Vec<Vec<Segment>>, lang: Language)
    ensures
        lines_view(final(lines)@) == lines_view(old(lines)@) + conflicts_help(lang),
{
    let ghost start = lines_view(lines@);
    push_section_header(lines, text(lang, "Vue Conflits", "Conflicts View"));
    push_separator(lines);
    push_key_line_multi(lines, &conflicts::SWITCH_PANEL, text(lang, "Basculer les panneaux", "Switch panels"));
    push_key_line_multi(lines, &conflicts::ACCEPT_OURS, text(lang, "Accepter ours", "Accept ours"));
    push_key_line_multi(lines, &conflicts::ACCEPT_THEIRS, text(lang, "Accepter theirs", "Accept theirs"));
    push_key_line(lines, conflicts::ACCEPT_BOTH, text(lang, "Accepter les deux", "Accept both"));
    push_key_line(lines, conflicts::MARK_RESOLVED, text(lang, "Marquer comme resolu", "Mark resolved"));
    push_key_line(lines, conflicts::FINALIZE, text(lang, "Finaliser l'operation", "Finalize operation"));
    push_key_line(lines, conflicts::ABORT, text(lang, "Annuler l'operation", "Abort operation"));
    assert(lines_view(lines@) =~= start + conflicts_help(lang));
}

/// Appends the help section of the active view (see `view_help`).
fn append_view_help(lines: &mut Vec<Vec<Segment>>, view: ViewMode, lang: Language)
    ensures
        lines_view(final(lines)@) == lines_view(old(lines)@) + view_help(view, lang),
{
    match view {
        ViewMode::Graph | ViewMode::Help => append_graph_help(lines, lang),
        ViewMode::Staging => append_staging_help(lines, lang),
        ViewMode::Branches => append_branches_help(lines, lang),
        ViewMode::ProjectTree => append_project_tree_help(lines, lang),
        ViewMode::Blame => append_blame_help(lines, lang),
        ViewMode::Conflicts => append_conflicts_help(lines, lang),
    }
}

/// Appends the section of the user-defined commands (see `commands_help`).
fn append_commands_help(lines: &mut Vec<Vec<Segment>>, commands: &Vec<CustomCommandHint>, lang: Language)
    ensures
        lines_view(final(lines)@) == lines_view(old(lines)@) + commands_help(commands@, lang),
{
    if commands.len() == 0 {
        assert(lines_view(lines@) =~= lines_view(old(lines)@) + commands_help(commands@, lang));
        return;
    }
    let ghost start = lines_view(lines@);
    push_line(lines, empty_line());
    push_section_header(lines, text(lang, "Commandes personnalisees", "Custom commands"));
    push_separator(lines);
    let ghost head = lines_view(lines@);
    let mut i: usize = 0;
    while i < commands.len()
        invariant
            i <= commands@.len(),
            lines_view(lines@) == head + command_rows(commands@.take(i as int)),
        decreases commands@.len() - i,
    {
        push_key_line(lines, commands[i].key.as_str(), commands[i].name.as_str());
        proof {
            assert(command_rows(commands@.take(i + 1)) =~= command_rows(commands@.take(i as int)).push(
                key_row(commands@[i as int].key@, commands@[i as int].name@),
            ));
        }
        i = i + 1;
    }
    assert(commands@.take(i as int) =~= commands@);
    assert(lines_view(lines@) =~= start + commands_help(commands@, lang));
}

/// The lines of the help overlay (see `help_content`).
pub fn build_help_content(
    view: ViewMode,
    commands: &Vec<CustomCommandHint>,
    lang: Language,
) -> (res: Vec<Vec<Segment>>)
    ensures
        lines_view(res@) == help_content(view, commands@, lang),
{
    let mut lines: Vec<Vec<Segment>> = Vec::new();
    push_line(&mut lines, empty_line());
    append_global_help(&mut lines, lang);
    push_line(&mut lines, empty_line());
    append_view_help(&mut lines, view, lang);
    append_commands_help(&mut lines, commands, lang);
    push_line(&mut lines, empty_line());
    let mut closing: Vec<Segment> = Vec::new();
    push_seg(
        &mut closing,
        text_seg(
            text(lang, "Esc ou ? pour fermer", "Esc or ? to close"),
            SegmentStyle { fg: Some(ThemeColor::TextSecondary), bg: None, bold: false, dim: false, italic: true, underline: false },
        ),
    );
    assert(crate::style::segments_view(closing@) =~= closing_line(lang));
    push_line(&mut lines, closing);
    assert(lines_view(lines@) =~= help_content(view, commands@, lang));
    lines
}

} // verus!
