//! The project tree view: the files of the working tree, the history of the
//! selected path (possibly compared with another branch), the files touched
//! by the selected commit, and the quick path search.

use vstd::prelude::*;
use crate::commit_line::{hex_text, short_hash, short_hash_text};
use crate::diff_view::lines_view;
use crate::graph::Oid;
use crate::help_bar::KeyHint;
use crate::i18n::{Language, pick, text};
use crate::lines::{push_line, push_seg, seg, text_seg};
use crate::strings::{chars_of, decimal, push_char, push_decimal, push_spaces, push_str, spaces};
use crate::style::{Segment, SegmentStyle, SegmentView, ThemeColor, segments_view};
use crate::text_edit::{in_selection, selection_range, selection_span};
use crate::time::{format_relative_time, is_relative_date_of};

verus! {

/// Whether a tree entry is a directory or a file.
#[derive(Debug, Clone, Copy, PartialEq, Eq, Structural)]
pub enum ProjectEntryKind {
    Directory,
    File,
}

/// An entry of the project tree.
#[derive(Debug, Clone)]
pub struct ProjectEntry {
    pub name: String,
    pub path: String,
    pub depth: usize,
    pub kind: ProjectEntryKind,
    pub expanded: bool,
}

/// Style of a tree entry: directories bold in the primary color.
pub open spec fn entry_style(kind: ProjectEntryKind) -> SegmentStyle {
    match kind {
        ProjectEntryKind::Directory => SegmentStyle { fg: Some(ThemeColor::Primary), bg: None, bold: true, dim: false, italic: false, underline: false },
        ProjectEntryKind::File => SegmentStyle::fg_spec(ThemeColor::TextNormal),
    }
}

/// The marker before an entry: a directory's state (always closed among
/// search results), none for a file.
pub open spec fn entry_marker(e: ProjectEntry, search_active: bool) -> Seq<char> {
    match e.kind {
        ProjectEntryKind::Directory => if !search_active && e.expanded { "▾ "@ } else { "▸ "@ },
        ProjectEntryKind::File => "  "@,
    }
}

/// The line of a tree entry: indented two spaces per level (not among
/// search results), its marker, then its name (its path among search
/// results).
pub open spec fn entry_line(e: ProjectEntry, search_active: bool) -> Seq<SegmentView> {
    seq![
        seg(if search_active { Seq::empty() } else { spaces((2 * e.depth) as nat) }, SegmentStyle::plain_spec()),
        seg(entry_marker(e, search_active), entry_style(e.kind)),
        seg(if search_active { e.path@ } else { e.name@ }, entry_style(e.kind)),
    ]
}

/// The lines of the tree panel: one per entry, or a notice without any.
pub open spec fn tree_lines(entries: Seq<ProjectEntry>, search_active: bool, lang: Language) -> Seq<Seq<SegmentView>> {
    if entries.len() == 0 {
        seq![seq![seg(pick(lang, "  Aucun fichier"@, "  No files"@), SegmentStyle::plain_spec())]]
    } else {
        entries.map_values(|e: ProjectEntry| entry_line(e, search_active))
    }
}

fn entry_style_of(kind: ProjectEntryKind) -> (res: SegmentStyle)
    ensures
        res == entry_style(kind),
{
    match kind {
        ProjectEntryKind::Directory => SegmentStyle { fg: Some(ThemeColor::Primary), bg: None, bold: true, dim: false, italic: false, underline: false },
        ProjectEntryKind::File => SegmentStyle::fg(ThemeColor::TextNormal),
    }
}

/// The lines of the tree panel (see `tree_lines`); `entries` are those
/// visible.
pub fn tree_items(entries: &Vec<ProjectEntry>, search_active: bool, lang: Language) -> (res: Vec<Vec<Segment>>)
    requires
        forall|i: int| 0 <= i < entries@.len() ==> 2 * #[trigger] entries@[i].depth <= usize::MAX,
    ensures
        lines_view(res@) == tree_lines(entries@, search_active, lang),
{
    let mut lines: Vec<Vec<Segment>> = Vec::new();
    if entries.len() == 0 {
        let mut line: Vec<Segment> = Vec::new();
        push_seg(&mut line, text_seg(text(lang, "  Aucun fichier", "  No files"), SegmentStyle::plain()));
        assert(segments_view(line@) =~= tree_lines(entries@, search_active, lang)[0]);
        push_line(&mut lines, line);
        assert(lines_view(lines@) =~= tree_lines(entries@, search_active, lang));
        return lines;
    }
    let ghost want = entries@.map_values(|e: ProjectEntry| entry_line(e, search_active));
    let mut i: usize = 0;
    while i < entries.len()
        invariant
            i <= entries@.len(),
            forall|k: int| 0 <= k < entries@.len() ==> 2 * #[trigger] entries@[k].depth <= usize::MAX,
            want == entries@.map_values(|e: ProjectEntry| entry_line(e, search_active)),
            lines_view(lines@) == want.take(i as int),
        decreases entries@.len() - i,
    {
        let e = &entries[i];
        let mut indent = String::new();
        if !search_active {
            push_spaces(&mut indent, 2 * e.depth);
        }
        let style = entry_style_of(e.kind);
        let marker = match e.kind {
            ProjectEntryKind::Directory => if !search_active && e.expanded { "▾ " } else { "▸ " },
            ProjectEntryKind::File => "  ",
        };
        let label = if search_active { e.path.clone() } else { e.name.clone() };
        let mut line: Vec<Segment> = Vec::new();
        push_seg(&mut line, Segment { text: indent, style: SegmentStyle::plain() });
        push_seg(&mut line, text_seg(marker, style));
        push_seg(&mut line, Segment { text: label, style });
        assert(segments_view(line@) =~= want[i as int]);
        push_line(&mut lines, line);
        assert(want.take(i + 1) =~= want.take(i as int).push(want[i as int]));
        i = i + 1;
    }
    assert(want.take(i as int) =~= want);
    lines
}

/// Title of the tree panel: the number of search results while searching,
/// a marker when focused.
pub open spec fn tree_title_text(search_active: bool, focused: bool, result_count: nat, lang: Language) -> Seq<char> {
    if search_active {
        pick(lang, "▶ Résultats ("@, "▶ Results ("@) + decimal(result_count) + ") "@
    } else if focused {
        pick(lang, "▶ Arborescence "@, "▶ Project tree "@)
    } else {
        pick(lang, " Arborescence "@, " Project tree "@)
    }
}

/// Title of the tree panel (see `tree_title_text`).
pub fn tree_title(search_active: bool, focused: bool, result_count: usize, lang: Language) -> (res: String)
    ensures
        res@ == tree_title_text(search_active, focused, result_count as nat, lang),
{
    let mut s = String::new();
    if search_active {
        push_str(&mut s, text(lang, "▶ Résultats (", "▶ Results ("));
        push_decimal(&mut s, result_count as u64);
        push_str(&mut s, ") ");
    } else if focused {
        push_str(&mut s, text(lang, "▶ Arborescence ", "▶ Project tree "));
    } else {
        push_str(&mut s, text(lang, " Arborescence ", " Project tree "));
    }
    s
}

/// Border color of a panel of the view: the active border when focused.
pub fn panel_border(focused: bool) -> (res: ThemeColor)
    ensures
        res == (if focused { ThemeColor::BorderActive } else { ThemeColor::BorderInactive }),
{
    if focused {
        ThemeColor::BorderActive
    } else {
        ThemeColor::BorderInactive
    }
}

/// The row of a list to highlight: the selected one relative to the first
/// visible, none for an empty list.
pub fn visible_selection(is_empty: bool, selected_index: usize, scroll_offset: usize) -> (res: Option<usize>)
    requires
        is_empty || scroll_offset <= selected_index,
    ensures
        res == (if is_empty { None } else { Some((selected_index - scroll_offset) as usize) }),
{
    if is_empty {
        None
    } else {
        Some(selected_index - scroll_offset)
    }
}

/// Style of the cursor cell of the quick search.
pub open spec fn search_cursor_style() -> SegmentStyle {
    SegmentStyle { fg: Some(ThemeColor::Background), bg: Some(ThemeColor::Primary), bold: false, dim: false, italic: false, underline: false }
}

/// The segment of character `i` of the quick search query.
pub open spec fn search_char(query: Seq<char>, cursor: usize, anchor: Option<usize>, i: int) -> SegmentView {
    let pos = if cursor < query.len() { cursor as int } else { query.len() as int };
    seg(
        seq![query[i]],
        if i == pos {
            search_cursor_style()
        } else if in_selection(selection_span(pos as usize, anchor), i) {
            SegmentStyle { fg: Some(ThemeColor::SelectionFg), bg: Some(ThemeColor::SelectionBg), bold: false, dim: false, italic: false, underline: false }
        } else {
            SegmentStyle::fg_spec(ThemeColor::TextNormal)
        },
    )
}

/// The quick search line: "/ ", the query with its cursor and selection,
/// a cursor cell at its end when the cursor is there, and the number of
/// results.
pub open spec fn quick_search_line(
    query: Seq<char>,
    cursor: usize,
    anchor: Option<usize>,
    result_count: nat,
    lang: Language,
) -> Seq<SegmentView> {
    let pos = if cursor < query.len() { cursor as int } else { query.len() as int };
    seq![seg("/ "@, SegmentStyle { fg: Some(ThemeColor::Primary), bg: None, bold: true, dim: false, italic: false, underline: false })]
        + Seq::new(query.len(), |i: int| search_char(query, cursor, anchor, i))
        + (if pos == query.len() {
            seq![seg(" "@, SegmentStyle { fg: None, bg: Some(ThemeColor::Primary), bold: false, dim: false, italic: false, underline: false })]
        } else {
            Seq::empty()
        })
        + seq![seg(
            "  "@ + decimal(result_count) + pick(lang, " résultat(s) — Entrée pour révéler"@, " result(s) — Enter to reveal"@),
            SegmentStyle::fg_spec(ThemeColor::TextSecondary),
        )]
}

/// The quick search line (see `quick_search_line`).
pub fn quick_search(
    query: &str,
    cursor: usize,
    selection_anchor: Option<usize>,
    result_count: usize,
    lang: Language,
) -> (res: Vec<Segment>)
    ensures
        segments_view(res@) == quick_search_line(query@, cursor, selection_anchor, result_count as nat, lang),
{
    let chars = chars_of(query);
    let n = chars.len();
    let pos = if cursor < n { cursor } else { n };
    let selection = selection_range(pos, selection_anchor);
    let mut line: Vec<Segment> = Vec::new();
    push_seg(&mut line, text_seg("/ ", SegmentStyle { fg: Some(ThemeColor::Primary), bg: None, bold: true, dim: false, italic: false, underline: false }));
    let ghost head = segments_view(line@);
    let ghost q = query@;
    let mut i: usize = 0;
    while i < n
        invariant
            chars@ == q,
            q == query@,
            n == q.len(),
            pos == (if cursor < q.len() { cursor as int } else { q.len() as int }),
            selection == selection_span(pos, selection_anchor),
            i <= n,
            segments_view(line@) == head + Seq::new(i as nat, |j: int| search_char(q, cursor, selection_anchor, j)),
        decreases n - i,
    {
        let style = if i == pos {
            SegmentStyle { fg: Some(ThemeColor::Background), bg: Some(ThemeColor::Primary), bold: false, dim: false, italic: false, underline: false }
        } else {
            let selected = match selection {
                Some(r) => r.0 <= i && i < r.1,
                None => false,
            };
            if selected {
                SegmentStyle { fg: Some(ThemeColor::SelectionFg), bg: Some(ThemeColor::SelectionBg), bold: false, dim: false, italic: false, underline: false }
            } else {
                SegmentStyle::fg(ThemeColor::TextNormal)
            }
        };
        let mut c = String::new();
        push_char(&mut c, chars[i]);
        push_seg(&mut line, Segment { text: c, style });
        assert(segments_view(line@) =~= head + Seq::new((i + 1) as nat, |j: int| search_char(q, cursor, selection_anchor, j)));
        i = i + 1;
    }
    let ghost body = segments_view(line@);
    if pos == n {
        push_seg(&mut line, text_seg(" ", SegmentStyle { fg: None, bg: Some(ThemeColor::Primary), bold: false, dim: false, italic: false, underline: false }));
    }
    let ghost with_cursor = segments_view(line@);
    let mut count = String::new();
    push_str(&mut count, "  ");
    push_decimal(&mut count, result_count as u64);
    push_str(&mut count, text(lang, " résultat(s) — Entrée pour révéler", " result(s) — Enter to reveal"));
    push_seg(&mut line, Segment { text: count, style: SegmentStyle::fg(ThemeColor::TextSecondary) });
    assert(segments_view(line@) =~= quick_search_line(query@, cursor, selection_anchor, result_count as nat, lang));
    line
}

/// Title of the quick search.
pub fn quick_search_title(lang: Language) -> (res: &'static str)
    ensures
        res@ == pick(lang, " Recherche rapide "@, " Quick search "@),
{
    text(lang, " Recherche rapide ", " Quick search ")
}

/// On which side of a comparison a commit of the path's history lies.
#[derive(Debug, Clone, Copy, PartialEq, Eq, Structural)]
pub enum PathHistorySide {
    /// Only on the current branch.
    Current,
    /// Only on the branch compared with.
    Target,
}

/// A commit of the selected path's history.
#[derive(Debug, Clone)]
pub struct PathCommit {
    pub oid: Oid,
    pub timestamp: i64,
    pub author: String,
    pub message: String,
    /// Its side when the path is compared with a branch.
    pub side: Option<PathHistorySide>,
}

/// A comparison of the path's history with another branch.
#[derive(Debug, Clone)]
pub struct PathComparison {
    pub base_branch: String,
    pub target_branch: String,
    pub ahead: Option<usize>,
    pub behind: Option<usize>,
}

/// The side marker of a history commit and its color.
pub open spec fn side_marker(side: Option<PathHistorySide>) -> SegmentView {
    match side {
        Some(PathHistorySide::Current) => seg("+ "@, SegmentStyle { fg: Some(ThemeColor::Success), bg: None, bold: true, dim: false, italic: false, underline: false }),
        Some(PathHistorySide::Target) => seg("- "@, SegmentStyle { fg: Some(ThemeColor::Error), bg: None, bold: true, dim: false, italic: false, underline: false }),
        None => seg("  "@, SegmentStyle { fg: Some(ThemeColor::TextSecondary), bg: None, bold: true, dim: false, italic: false, underline: false }),
    }
}

/// The line of a history commit with its date shown as given: side
/// marker, short hash, date, author and message, two spaces apart.
pub open spec fn history_line(c: PathCommit, date: Seq<char>) -> Seq<SegmentView> {
    seq![
        side_marker(c.side),
        seg(short_hash_text(c.oid), SegmentStyle::fg_spec(ThemeColor::CommitHash)),
        seg("  "@, SegmentStyle::plain_spec()),
        seg(date, SegmentStyle::fg_spec(ThemeColor::TextSecondary)),
        seg("  "@, SegmentStyle::plain_spec()),
        seg(c.author@, SegmentStyle::fg_spec(ThemeColor::Secondary)),
        seg("  "@, SegmentStyle::plain_spec()),
        seg(c.message@, SegmentStyle::plain_spec()),
    ]
}

/// Whether `row` is the line of `c`, its date being the time elapsed since
/// the commit's timestamp.
pub open spec fn is_history_row_of(row: Vec<Segment>, c: PathCommit, lang: Language) -> bool {
    exists|date: Seq<char>|
        is_relative_date_of(date, c.timestamp, lang) && segments_view(row@) == history_line(c, date)
}

/// The line of a history commit with its date as given (see
/// `history_line`).
pub fn history_line_with_date(c: &PathCommit, date: &str) -> (res: Vec<Segment>)
    ensures
        segments_view(res@) == history_line(*c, date@),
{
    let marker = match c.side {
        Some(PathHistorySide::Current) => text_seg("+ ", SegmentStyle { fg: Some(ThemeColor::Success), bg: None, bold: true, dim: false, italic: false, underline: false }),
        Some(PathHistorySide::Target) => text_seg("- ", SegmentStyle { fg: Some(ThemeColor::Error), bg: None, bold: true, dim: false, italic: false, underline: false }),
        None => text_seg("  ", SegmentStyle { fg: Some(ThemeColor::TextSecondary), bg: None, bold: true, dim: false, italic: false, underline: false }),
    };
    let mut line: Vec<Segment> = Vec::new();
    push_seg(&mut line, marker);
    push_seg(&mut line, Segment { text: short_hash(&c.oid), style: SegmentStyle::fg(ThemeColor::CommitHash) });
    push_seg(&mut line, text_seg("  ", SegmentStyle::plain()));
    push_seg(&mut line, text_seg(date, SegmentStyle::fg(ThemeColor::TextSecondary)));
    push_seg(&mut line, text_seg("  ", SegmentStyle::plain()));
    push_seg(&mut line, Segment { text: c.author.clone(), style: SegmentStyle::fg(ThemeColor::Secondary) });
    push_seg(&mut line, text_seg("  ", SegmentStyle::plain()));
    push_seg(&mut line, Segment { text: c.message.clone(), style: SegmentStyle::plain() });
    assert(segments_view(line@) =~= history_line(*c, date@));
    line
}

/// The lines of the visible history commits, each with the time elapsed
/// since it.
pub fn history_items(commits: &Vec<PathCommit>, lang: Language) -> (res: Vec<Vec<Segment>>)
    ensures
        res@.len() == commits@.len(),
        forall|i: int| 0 <= i < commits@.len() ==> is_history_row_of(#[trigger] res@[i], commits@[i], lang),
{
    let mut rows: Vec<Vec<Segment>> = Vec::new();
    let mut i: usize = 0;
    while i < commits.len()
        invariant
            i <= commits@.len(),
            rows@.len() == i,
            forall|k: int| 0 <= k < i ==> is_history_row_of(#[trigger] rows@[k], commits@[k], lang),
        decreases commits@.len() - i,
    {
        let date = format_relative_time(commits[i].timestamp, lang);
        let row = history_line_with_date(&commits[i], date.as_str());
        rows.push(row);
        proof {
            assert(is_relative_date_of(date@, commits@[i as int].timestamp, lang));
            assert(is_history_row_of(rows@[i as int], commits@[i as int], lang));
        }
        i = i + 1;
    }
    rows
}

/// The ahead/behind counts of a comparison, "…" while unknown.
pub open spec fn counts_text(c: PathComparison) -> Seq<char> {
    match (c.ahead, c.behind) {
        (Some(a), Some(b)) => "+"@ + decimal(a as nat) + " / -"@ + decimal(b as nat),
        _ => "…"@,
    }
}

/// Title of the history panel: the compared branches and their counts
/// when comparing, the selected path ("no selection" without one), a marker
/// when focused.
pub open spec fn history_title_text(
    comparison: Option<PathComparison>,
    focused: bool,
    selected_path: Option<&str>,
    lang: Language,
) -> Seq<char> {
    let path = match selected_path {
        Some(p) => p@,
        None => pick(lang, "aucune selection"@, "no selection"@),
    };
    match comparison {
        Some(c) => (if focused { "▶ "@ } else { " "@ }) + pick(lang, "Historique · "@, "History · "@)
            + c.base_branch@ + " ↔ "@ + c.target_branch@ + " · "@ + counts_text(c) + " — "@ + path + " "@,
        None => (if focused { "▶ "@ } else { " "@ }) + pick(lang, "Historique — "@, "History — "@) + path + " "@,
    }
}

/// Title of the history panel (see `history_title_text`).
pub fn history_title(
    comparison: Option<&PathComparison>,
    focused: bool,
    selected_path: Option<&str>,
    lang: Language,
) -> (res: String)
    ensures
        res@ == history_title_text(
            match comparison { Some(c) => Some(*c), None => None },
            focused,
            selected_path,
            lang,
        ),
{
    let path = match selected_path {
        Some(p) => p,
        None => text(lang, "aucune selection", "no selection"),
    };
    let mut s = String::new();
    push_str(&mut s, if focused { "▶ " } else { " " });
    match comparison {
        Some(c) => {
            push_str(&mut s, text(lang, "Historique · ", "History · "));
            push_str(&mut s, c.base_branch.as_str());
            push_str(&mut s, " ↔ ");
            push_str(&mut s, c.target_branch.as_str());
            push_str(&mut s, " · ");
            match (c.ahead, c.behind) {
                (Some(a), Some(b)) => {
                    push_str(&mut s, "+");
                    push_decimal(&mut s, a as u64);
                    push_str(&mut s, " / -");
                    push_decimal(&mut s, b as u64);
                },
                _ => push_str(&mut s, "…"),
            }
            push_str(&mut s, " — ");
        },
        None => {
            push_str(&mut s, text(lang, "Historique — ", "History — "));
        },
    }
    push_str(&mut s, path);
    push_str(&mut s, " ");
    s
}

/// The notice of an empty history: no divergent commit when comparing, no
/// commit when loaded, how to load it otherwise.
pub fn history_empty_message(history_loaded: bool, comparing: bool, lang: Language) -> (res: &'static str)
    ensures
        res@ == (if history_loaded && comparing {
            pick(lang, "  Aucun commit divergent pour ce chemin"@, "  No divergent commit for this path"@)
        } else if history_loaded {
            pick(lang, "  Aucun commit pour ce chemin"@, "  No commits for this path"@)
        } else {
            pick(lang, "  Tab ou clic pour charger l'historique"@, "  Tab or click to load history"@)
        }),
{
    if history_loaded && comparing {
        text(lang, "  Aucun commit divergent pour ce chemin", "  No divergent commit for this path")
    } else if history_loaded {
        text(lang, "  Aucun commit pour ce chemin", "  No commits for this path")
    } else {
        text(lang, "  Tab ou clic pour charger l'historique", "  Tab or click to load history")
    }
}

/// How a file was changed by a commit.
#[derive(Debug, Clone, Copy, PartialEq, Eq, Structural)]
pub enum DiffStatus {
    Added,
    Modified,
    Deleted,
    Renamed,
}

/// A file changed by a commit, with its line counts.
#[derive(Debug, Clone)]
pub struct ChangedFile {
    pub path: String,
    pub status: DiffStatus,
    pub additions: usize,
    pub deletions: usize,
}

/// The letter of a change.
pub open spec fn status_letter(s: DiffStatus) -> char {
    match s {
        DiffStatus::Added => 'A',
        DiffStatus::Modified => 'M',
        DiffStatus::Deleted => 'D',
        DiffStatus::Renamed => 'R',
    }
}

/// The color of a change.
pub open spec fn status_tint(s: DiffStatus) -> ThemeColor {
    match s {
        DiffStatus::Added => ThemeColor::Success,
        DiffStatus::Modified => ThemeColor::Warning,
        DiffStatus::Deleted => ThemeColor::Error,
        DiffStatus::Renamed => ThemeColor::Primary,
    }
}

impl DiffStatus {
    /// The letter of the change (see `status_letter`).
    pub fn display_char(&self) -> (res: char)
        ensures
            res == status_letter(*self),
    {
        match self {
            DiffStatus::Added => 'A',
            DiffStatus::Modified => 'M',
            DiffStatus::Deleted => 'D',
            DiffStatus::Renamed => 'R',
        }
    }

    /// The color of the change (see `status_tint`).
    pub fn color(&self) -> (res: ThemeColor)
        ensures
            res == status_tint(*self),
    {
        match self {
            DiffStatus::Added => ThemeColor::Success,
            DiffStatus::Modified => ThemeColor::Warning,
            DiffStatus::Deleted => ThemeColor::Error,
            DiffStatus::Renamed => ThemeColor::Primary,
        }
    }
}

/// The line of a changed file: its letter, its additions and deletions,
/// and its path.
pub open spec fn changed_file_line(f: ChangedFile) -> Seq<SegmentView> {
    seq![
        seg(seq![' ', status_letter(f.status), ' '], SegmentStyle::fg_spec(status_tint(f.status))),
        seg("+"@ + decimal(f.additions as nat) + " "@, SegmentStyle::fg_spec(ThemeColor::Success)),
        seg("-"@ + decimal(f.deletions as nat) + " "@, SegmentStyle::fg_spec(ThemeColor::Error)),
        seg(f.path@, SegmentStyle::fg_spec(ThemeColor::TextNormal)),
    ]
}

/// The separator between the files under the selected path and the others.
pub open spec fn other_files_line(lang: Language) -> Seq<SegmentView> {
    seq![seg(pick(lang, " ── Autres fichiers ──"@, " ── Other files ──"@), SegmentStyle::fg_spec(ThemeColor::TextSecondary))]
}

/// The lines of the visible changed files, `first` being the index of the
/// first of them: the separator stands before the file at
/// `separator_index`.
pub open spec fn changed_files_lines(
    files: Seq<ChangedFile>,
    first: nat,
    separator_index: Option<usize>,
    lang: Language,
) -> Seq<Seq<SegmentView>>
    decreases files.len(),
{
    if files.len() == 0 {
        Seq::empty()
    } else {
        let k = files.len() - 1;
        changed_files_lines(files.drop_last(), first, separator_index, lang)
            + (if separator_index == Some((first + k) as usize) { seq![other_files_line(lang)] } else { Seq::empty() })
            + seq![changed_file_line(files.last())]
    }
}

/// The lines of the visible changed files (see `changed_files_lines`).
pub fn changed_files_items(
    files: &Vec<ChangedFile>,
    first: usize,
    separator_index: Option<usize>,
    lang: Language,
) -> (res: Vec<Vec<Segment>>)
    requires
        first + files@.len() <= usize::MAX,
    ensures
        lines_view(res@) == changed_files_lines(files@, first as nat, separator_index, lang),
{
    let mut lines: Vec<Vec<Segment>> = Vec::new();
    let mut i: usize = 0;
    assert(files@.take(0) =~= Seq::<ChangedFile>::empty());
    while i < files.len()
        invariant
            i <= files@.len(),
            first + files@.len() <= usize::MAX,
            lines_view(lines@) == changed_files_lines(files@.take(i as int), first as nat, separator_index, lang),
        decreases files@.len() - i,
    {
        let ghost before = lines_view(lines@);
        if separator_index == Some(first + i) {
            let mut sep: Vec<Segment> = Vec::new();
            push_seg(&mut sep, text_seg(text(lang, " ── Autres fichiers ──", " ── Other files ──"), SegmentStyle::fg(ThemeColor::TextSecondary)));
            assert(segments_view(sep@) =~= other_files_line(lang));
            push_line(&mut lines, sep);
        }
        let ghost with_sep = lines_view(lines@);
        let f = &files[i];
        let mut letter = String::new();
        push_char(&mut letter, ' ');
        push_char(&mut letter, f.status.display_char());
        push_char(&mut letter, ' ');
        let mut adds = String::new();
        push_str(&mut adds, "+");
        push_decimal(&mut adds, f.additions as u64);
        push_str(&mut adds, " ");
        let mut dels = String::new();
        push_str(&mut dels, "-");
        push_decimal(&mut dels, f.deletions as u64);
        push_str(&mut dels, " ");
        let mut line: Vec<Segment> = Vec::new();
        push_seg(&mut line, Segment { text: letter, style: SegmentStyle::fg(f.status.color()) });
        push_seg(&mut line, Segment { text: adds, style: SegmentStyle::fg(ThemeColor::Success) });
        push_seg(&mut line, Segment { text: dels, style: SegmentStyle::fg(ThemeColor::Error) });
        push_seg(&mut line, Segment { text: f.path.clone(), style: SegmentStyle::fg(ThemeColor::TextNormal) });
        assert(letter@ =~= seq![' ', status_letter(f.status), ' ']);
        assert(segments_view(line@) =~= changed_file_line(*f));
        push_line(&mut lines, line);
        proof {
            let next = files@.take(i + 1);
            assert(next.drop_last() =~= files@.take(i as int));
            assert(next.last() == files@[i as int]);
            assert(with_sep =~= before + (if separator_index == Some((first + i) as usize) { seq![other_files_line(lang)] } else { Seq::empty() }));
            assert(lines_view(lines@) =~= changed_files_lines(next, first as nat, separator_index, lang));
        }
        i = i + 1;
    }
    assert(files@.take(i as int) =~= files@);
    lines
}

/// Title of the changed files panel.
pub fn changed_files_title(focused: bool, lang: Language) -> (res: &'static str)
    ensures
        res@ == (if focused {
            pick(lang, "▶ Fichiers touchés "@, "▶ Changed files "@)
        } else {
            pick(lang, " Fichiers touchés "@, " Changed files "@)
        }),
{
    if focused {
        text(lang, "▶ Fichiers touchés ", "▶ Changed files ")
    } else {
        text(lang, " Fichiers touchés ", " Changed files ")
    }
}

/// The notice of an empty changed files panel.
pub fn changed_files_empty_message(details_loaded: bool, lang: Language) -> (res: &'static str)
    ensures
        res@ == (if details_loaded {
            pick(lang, "  Aucun fichier"@, "  No files"@)
        } else {
            pick(lang, "  Tab ou clic pour charger les fichiers"@, "  Tab or click to load files"@)
        }),
{
    if details_loaded {
        text(lang, "  Aucun fichier", "  No files")
    } else {
        text(lang, "  Tab ou clic pour charger les fichiers", "  Tab or click to load files")
    }
}

/// The row of the changed files list to highlight: the selected file
/// relative to the first visible, one further down when the separator is
/// visible and stands before it; none for an empty list.
pub fn changed_files_selection(
    is_empty: bool,
    selected_index: usize,
    scroll_offset: usize,
    separator_index: Option<usize>,
) -> (res: Option<usize>)
    requires
        is_empty || scroll_offset <= selected_index,
        !is_empty && (match separator_index {
            Some(s) => s >= scroll_offset && selected_index >= s,
            None => false,
        }) ==> selected_index - scroll_offset < usize::MAX,
    ensures
        res == (if is_empty {
            None
        } else {
            let shift: int = match separator_index {
                Some(s) => if s >= scroll_offset && selected_index >= s { 1 } else { 0 },
                None => 0,
            };
            Some((selected_index - scroll_offset + shift) as usize)
        }),
{
    if is_empty {
        return None;
    }
    let visual = selected_index - scroll_offset;
    let below = match separator_index {
        Some(s) => s >= scroll_offset && selected_index >= s,
        None => false,
    };
    if below {
        Some(visual + 1)
    } else {
        Some(visual)
    }
}

/// Title of the diff panel before its diff is loaded.
pub fn diff_placeholder_title(focused: bool) -> (res: &'static str)
    ensures
        res@ == (if focused { "▶ Diff "@ } else { " Diff "@ }),
{
    if focused {
        "▶ Diff "
    } else {
        " Diff "
    }
}

/// The text of the diff panel before its diff is loaded.
pub fn diff_placeholder_text(lang: Language) -> (res: &'static str)
    ensures
        res@ == pick(lang, "Tab ou clic pour charger le diff"@, "Tab or click to load diff"@),
{
    text(lang, "Tab ou clic pour charger le diff", "Tab or click to load diff")
}

/// The keys of the view, the one closing a comparison only while comparing.
pub open spec fn tree_hints(comparing: bool, lang: Language) -> Seq<(Seq<char>, Seq<char>)> {
    seq![("j/k"@, pick(lang, "naviguer"@, "navigate"@)), ("C"@, pick(lang, "comparer"@, "compare"@))]
        + (if comparing { seq![("Esc"@, pick(lang, "fermer comparaison"@, "close comparison"@))] } else { Seq::empty() })
        + seq![
            ("Tab"@, pick(lang, "changer panneau"@, "switch panel"@)),
            ("←/→"@, pick(lang, "fermer/ouvrir"@, "collapse/expand"@)),
            ("/"@, pick(lang, "rechercher"@, "search"@)),
            ("y"@, pick(lang, "copier"@, "copy"@)),
            ("?"@, pick(lang, "aide"@, "help"@)),
        ]
}

/// The keys of the view (see `tree_hints`).
pub fn project_tree_hints(comparing: bool, lang: Language) -> (res: Vec<KeyHint<'static>>)
    ensures
        res@.map_values(|h: KeyHint| (h.key@, h.label@)) == tree_hints(comparing, lang),
{
    let mut hints: Vec<KeyHint<'static>> = Vec::new();
    hints.push(KeyHint::new("j/k", text(lang, "naviguer", "navigate")));
    hints.push(KeyHint::new("C", text(lang, "comparer", "compare")));
    if comparing {
        hints.push(KeyHint::new("Esc", text(lang, "fermer comparaison", "close comparison")));
    }
    hints.push(KeyHint::new("Tab", text(lang, "changer panneau", "switch panel")));
    hints.push(KeyHint::new("←/→", text(lang, "fermer/ouvrir", "collapse/expand")));
    hints.push(KeyHint::new("/", text(lang, "rechercher", "search")));
    hints.push(KeyHint::new("y", text(lang, "copier", "copy")));
    hints.push(KeyHint::new("?", text(lang, "aide", "help")));
    assert(hints@.map_values(|h: KeyHint| (h.key@, h.label@)) =~= tree_hints(comparing, lang));
    hints
}

/// Rows added before the file at `k` of the window by the separator: one
/// when the separator stands at or before it within the window.
pub open spec fn rows_before(first: nat, separator_index: Option<usize>, k: int) -> int {
    match separator_index {
        Some(s) => if first <= s <= first + k { 1 } else { 0 },
        None => 0,
    }
}

/// The file at `k` of the window is drawn on row `k` plus the separator's
/// row when the separator comes before it; the list has one row per file
/// plus the separator's when it falls in the window.
pub proof fn lemma_changed_file_rows(files: Seq<ChangedFile>, first: nat, separator_index: Option<usize>, lang: Language)
    requires
        first + files.len() <= usize::MAX,
    ensures
        changed_files_lines(files, first, separator_index, lang).len() == files.len() + rows_before(
            first,
            separator_index,
            files.len() - 1,
        ),
        forall|k: int|
            0 <= k < files.len() ==> #[trigger] changed_files_lines(files, first, separator_index, lang)[k + rows_before(
                first,
                separator_index,
                k,
            )] == changed_file_line(files[k]),
    decreases files.len(),
{
    if files.len() > 0 {
        let prev = files.drop_last();
        lemma_changed_file_rows(prev, first, separator_index, lang);
        let lines = changed_files_lines(files, first, separator_index, lang);
        let plines = changed_files_lines(prev, first, separator_index, lang);
        let n = files.len() - 1;
        let sep_part = if separator_index == Some((first + n) as usize) { seq![other_files_line(lang)] } else { Seq::<Seq<SegmentView>>::empty() };
        assert(lines == plines + sep_part + seq![changed_file_line(files.last())]);
        assert(sep_part.len() == (if separator_index == Some((first + n) as usize) { 1int } else { 0int }));
        assert(rows_before(first, separator_index, n) == rows_before(first, separator_index, n - 1) + sep_part.len());
        assert forall|k: int| 0 <= k < files.len() implies #[trigger] lines[k + rows_before(first, separator_index, k)]
            == changed_file_line(files[k]) by {
            if k < n {
                assert(prev[k] == files[k]);
                assert(rows_before(first, separator_index, k) <= rows_before(first, separator_index, n - 1));
                assert(k + rows_before(first, separator_index, k) < plines.len());
            } else {
                assert(k + rows_before(first, separator_index, k) == lines.len() - 1);
            }
        }
    }
}

/// The row that the changed files list highlights is the line of the
/// selected file, when the window shows the files from the scroll offset
/// on and the selected one is among them.
pub proof fn law_changed_files_selection_shows_selected_file(
    files: Seq<ChangedFile>,
    selected_index: usize,
    scroll_offset: usize,
    separator_index: Option<usize>,
    lang: Language,
)
    requires
        scroll_offset <= selected_index < scroll_offset + files.len(),
        scroll_offset + files.len() <= usize::MAX,
    ensures
        ({
            let shift: int = match separator_index {
                Some(s) => if s >= scroll_offset && selected_index >= s { 1 } else { 0 },
                None => 0,
            };
            changed_files_lines(files, scroll_offset as nat, separator_index, lang)[selected_index - scroll_offset + shift]
                == changed_file_line(files[selected_index - scroll_offset])
        }),
{
    lemma_changed_file_rows(files, scroll_offset as nat, separator_index, lang);
    let k = selected_index - scroll_offset;
    assert(changed_files_lines(files, scroll_offset as nat, separator_index, lang)[k + rows_before(
        scroll_offset as nat,
        separator_index,
        k,
    )] == changed_file_line(files[k]));
}

} // verus!
