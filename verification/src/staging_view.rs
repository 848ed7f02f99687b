//! The staging view: unstaged and staged files, the diff of the selected
//! file, the commit message field and the keys of the focused panel.

use vstd::prelude::*;
use crate::diff_view::lines_view;
use crate::i18n::{Language, pick, text};
use crate::input::state::StagingFocus;
use crate::status::{FileStatusKind, StatusEntry, flags_of, kind_of};
use crate::lines::{push_line, push_seg, seg, text_seg};
use crate::strings::{decimal, push_decimal, push_str, split_lines, strings_view, text_lines};
use crate::style::{Segment, SegmentStyle, SegmentView, ThemeColor, segments_view};
use crate::text_edit::{selection_lines, selection_span, text_with_selection};

verus! {

/// The one-character icon of a file state.
pub open spec fn status_icon(kind: FileStatusKind) -> Seq<char> {
    match kind {
        FileStatusKind::Staged | FileStatusKind::NewStaged => "●"@,
        FileStatusKind::Modified => "M"@,
        FileStatusKind::Deleted => "D"@,
        FileStatusKind::Untracked => "?"@,
        FileStatusKind::Renamed => "R"@,
        FileStatusKind::Conflicted => "!"@,
    }
}

/// The color of a file state.
pub open spec fn status_color(kind: FileStatusKind) -> ThemeColor {
    match kind {
        FileStatusKind::Staged | FileStatusKind::NewStaged => ThemeColor::Success,
        FileStatusKind::Modified => ThemeColor::Warning,
        FileStatusKind::Deleted => ThemeColor::Error,
        FileStatusKind::Untracked => ThemeColor::TextSecondary,
        FileStatusKind::Renamed => ThemeColor::Info,
        FileStatusKind::Conflicted => ThemeColor::Error,
    }
}

/// The line of a file in a list: its icon between spaces, in the state's
/// color, then its path.
pub open spec fn file_item(e: StatusEntry) -> Seq<SegmentView> {
    let kind = kind_of(flags_of(e.status));
    seq![
        seg(" "@ + status_icon(kind) + " "@, SegmentStyle::fg_spec(status_color(kind))),
        seg(e.path@, SegmentStyle::fg_spec(ThemeColor::TextNormal)),
    ]
}

/// The lines of a file list.
pub open spec fn file_items(files: Seq<StatusEntry>) -> Seq<Seq<SegmentView>> {
    files.map_values(|e: StatusEntry| file_item(e))
}

fn status_icon_text(kind: FileStatusKind) -> (res: &'static str)
    ensures
        res@ == status_icon(kind),
{
    match kind {
        FileStatusKind::Staged | FileStatusKind::NewStaged => "●",
        FileStatusKind::Modified => "M",
        FileStatusKind::Deleted => "D",
        FileStatusKind::Untracked => "?",
        FileStatusKind::Renamed => "R",
        FileStatusKind::Conflicted => "!",
    }
}

fn status_color_of(kind: FileStatusKind) -> (res: ThemeColor)
    ensures
        res == status_color(kind),
{
    match kind {
        FileStatusKind::Staged | FileStatusKind::NewStaged => ThemeColor::Success,
        FileStatusKind::Modified => ThemeColor::Warning,
        FileStatusKind::Deleted => ThemeColor::Error,
        FileStatusKind::Untracked => ThemeColor::TextSecondary,
        FileStatusKind::Renamed => ThemeColor::Info,
        FileStatusKind::Conflicted => ThemeColor::Error,
    }
}

/// The lines of a file list (see `file_item`).
pub fn file_list_items(files: &Vec<StatusEntry>) -> (res: Vec<Vec<Segment>>)
    ensures
        lines_view(res@) == file_items(files@),
{
    let ghost items = file_items(files@);
    let mut lines: Vec<Vec<Segment>> = Vec::new();
    let mut i: usize = 0;
    while i < files.len()
        invariant
            i <= files@.len(),
            items == file_items(files@),
            lines_view(lines@) == items.take(i as int),
        decreases files@.len() - i,
    {
        let e = &files[i];
        let kind = e.status_kind();
        let mut icon = String::new();
        push_str(&mut icon, " ");
        push_str(&mut icon, status_icon_text(kind));
        push_str(&mut icon, " ");
        let mut line: Vec<Segment> = Vec::new();
        push_seg(&mut line, Segment { text: icon, style: SegmentStyle::fg(status_color_of(kind)) });
        push_seg(&mut line, Segment { text: e.path.clone(), style: SegmentStyle::fg(ThemeColor::TextNormal) });
        assert(segments_view(line@) =~= items[i as int]);
        push_line(&mut lines, line);
        assert(items.take(i + 1) =~= items.take(i as int).push(items[i as int]));
        i = i + 1;
    }
    assert(items.take(i as int) =~= items);
    lines
}

/// Title of a file list: which files, and how many.
pub open spec fn file_list_title_text(staged: bool, count: nat, lang: Language) -> Seq<char> {
    " "@ + (if staged { pick(lang, "Indexes"@, "Staged"@) } else { pick(lang, "Non indexes"@, "Unstaged"@) })
        + " ("@ + decimal(count) + ") "@
}

/// Title of the staged or unstaged file list (see `file_list_title_text`).
pub fn file_list_title(staged: bool, count: usize, lang: Language) -> (res: String)
    ensures
        res@ == file_list_title_text(staged, count as nat, lang),
{
    let mut s = String::new();
    push_str(&mut s, " ");
    if staged {
        push_str(&mut s, text(lang, "Indexes", "Staged"));
    } else {
        push_str(&mut s, text(lang, "Non indexes", "Unstaged"));
    }
    push_str(&mut s, " (");
    push_decimal(&mut s, count as u64);
    push_str(&mut s, ") ");
    s
}

/// Border color of a file list: the primary color when it has the focus.
pub fn file_list_border(is_focused: bool) -> (res: ThemeColor)
    ensures
        res == (if is_focused { ThemeColor::Primary } else { ThemeColor::BorderInactive }),
{
    if is_focused {
        ThemeColor::Primary
    } else {
        ThemeColor::BorderInactive
    }
}

/// Title of the commit message field.
pub open spec fn commit_title_text(is_amending: bool, has_staged_files: bool, lang: Language) -> Seq<char> {
    if is_amending {
        pick(lang, " Amend commit (Entree pour valider) "@, " Amend commit (Enter to confirm) "@)
    } else if has_staged_files {
        pick(lang, " Message de commit (Entree pour valider) "@, " Commit message (Enter to confirm) "@)
    } else {
        pick(lang, " Message de commit (aucun fichier indexe) "@, " Commit message (no staged files) "@)
    }
}

/// Title of the commit message field (see `commit_title_text`).
pub fn commit_input_title(is_amending: bool, has_staged_files: bool, lang: Language) -> (res: &'static str)
    ensures
        res@ == commit_title_text(is_amending, has_staged_files, lang),
{
    if is_amending {
        text(lang, " Amend commit (Entree pour valider) ", " Amend commit (Enter to confirm) ")
    } else if has_staged_files {
        text(lang, " Message de commit (Entree pour valider) ", " Commit message (Enter to confirm) ")
    } else {
        text(lang, " Message de commit (aucun fichier indexe) ", " Commit message (no staged files) ")
    }
}

/// Border color of the commit message field: the warning color when it
/// has the focus.
pub fn commit_input_border(is_focused: bool) -> (res: ThemeColor)
    ensures
        res == (if is_focused { ThemeColor::Warning } else { ThemeColor::BorderInactive }),
{
    if is_focused {
        ThemeColor::Warning
    } else {
        ThemeColor::BorderInactive
    }
}

/// Whether the field shows a hint in place of an empty message.
pub open spec fn shows_hint(message: Seq<char>, is_focused: bool) -> bool {
    message.len() == 0 && !is_focused
}

/// The hint of an empty, unfocused message field.
pub open spec fn commit_hint(is_amending: bool, lang: Language) -> Seq<char> {
    if is_amending {
        pick(lang, "Appuyez sur 'A' pour amender le dernier commit..."@, "Press 'A' to amend the last commit..."@)
    } else {
        pick(lang, "Appuyez sur 'c' pour ecrire un message de commit..."@, "Press 'c' to write a commit message..."@)
    }
}

/// The lines of a text shown as a paragraph: one empty line for an empty
/// text, its lines otherwise.
pub open spec fn paragraph_lines(t: Seq<char>) -> Seq<Seq<char>> {
    if t.len() == 0 {
        seq![Seq::empty()]
    } else {
        text_lines(t)
    }
}

/// Style of the selected characters of the field.
pub open spec fn selected_style() -> SegmentStyle {
    SegmentStyle {
        fg: Some(ThemeColor::SelectionFg),
        bg: Some(ThemeColor::SelectionBg),
        bold: false,
        dim: false,
        italic: false,
        underline: false,
    }
}

/// What the commit message field shows: while it has the focus, the
/// message with its selection highlighted; otherwise the message (or the
/// hint when it is empty), line by line, in the secondary color for the
/// hint and the normal one for a message.
pub open spec fn commit_field_lines(
    message: Seq<char>,
    cursor: usize,
    anchor: Option<usize>,
    is_focused: bool,
    is_amending: bool,
    lang: Language,
) -> Seq<Seq<SegmentView>> {
    if is_focused {
        selection_lines(message, selection_span(cursor, anchor), SegmentStyle::fg_spec(ThemeColor::TextNormal), selected_style())
    } else if shows_hint(message, is_focused) {
        paragraph_lines(commit_hint(is_amending, lang)).map_values(
            |l: Seq<char>| seq![seg(l, SegmentStyle::fg_spec(ThemeColor::TextSecondary))],
        )
    } else {
        paragraph_lines(message).map_values(|l: Seq<char>| seq![seg(l, SegmentStyle::fg_spec(ThemeColor::TextNormal))])
    }
}

/// The lines of a text as a paragraph, each one segment in a style.
pub(crate) fn paragraph(t: &str, style: SegmentStyle) -> (res: Vec<Vec<Segment>>)
    ensures
        lines_view(res@) == paragraph_lines(t@).map_values(|l: Seq<char>| seq![seg(l, style)]),
{
    let ghost want = paragraph_lines(t@).map_values(|l: Seq<char>| seq![seg(l, style)]);
    let mut lines: Vec<Vec<Segment>> = Vec::new();
    if t.unicode_len() == 0 {
        let mut line: Vec<Segment> = Vec::new();
        push_seg(&mut line, Segment { text: String::new(), style });
        assert(segments_view(line@) =~= want[0]);
        push_line(&mut lines, line);
        assert(lines_view(lines@) =~= want);
        return lines;
    }
    let parts = split_lines(t);
    let mut i: usize = 0;
    while i < parts.len()
        invariant
            i <= parts@.len(),
            t@.len() > 0,
            strings_view(parts@) == text_lines(t@),
            want == paragraph_lines(t@).map_values(|l: Seq<char>| seq![seg(l, style)]),
            lines_view(lines@) == want.take(i as int),
        decreases parts@.len() - i,
    {
        let mut line: Vec<Segment> = Vec::new();
        push_seg(&mut line, Segment { text: parts[i].clone(), style });
        assert(parts@[i as int]@ == text_lines(t@)[i as int]);
        assert(segments_view(line@) =~= want[i as int]);
        push_line(&mut lines, line);
        assert(want.take(i + 1) =~= want.take(i as int).push(want[i as int]));
        i = i + 1;
    }
    assert(want.take(i as int) =~= want);
    lines
}

/// What the commit message field shows (see `commit_field_lines`).
pub fn commit_input_lines(
    message: &str,
    cursor: usize,
    selection_anchor: Option<usize>,
    is_focused: bool,
    is_amending: bool,
    lang: Language,
) -> (res: Vec<Vec<Segment>>)
    ensures
        lines_view(res@) == commit_field_lines(message@, cursor, selection_anchor, is_focused, is_amending, lang),
{
    if is_focused {
        let selected = SegmentStyle {
            fg: Some(ThemeColor::SelectionFg),
            bg: Some(ThemeColor::SelectionBg),
            bold: false,
            dim: false,
            italic: false,
            underline: false,
        };
        text_with_selection(message, cursor, selection_anchor, SegmentStyle::fg(ThemeColor::TextNormal), selected)
    } else if message.unicode_len() == 0 {
        let hint = if is_amending {
            text(lang, "Appuyez sur 'A' pour amender le dernier commit...", "Press 'A' to amend the last commit...")
        } else {
            text(lang, "Appuyez sur 'c' pour ecrire un message de commit...", "Press 'c' to write a commit message...")
        };
        paragraph(hint, SegmentStyle::fg(ThemeColor::TextSecondary))
    } else {
        paragraph(message, SegmentStyle::fg(ThemeColor::TextNormal))
    }
}

/// Line and column of the position after the given characters: a line
/// feed starts a new line at column zero, any other character moves one
/// column right.
pub open spec fn text_position(chars: Seq<char>) -> (nat, nat)
    decreases chars.len(),
{
    if chars.len() == 0 {
        (0, 0)
    } else {
        let p = text_position(chars.drop_last());
        if chars.last() == '\n' {
            ((p.0 + 1) as nat, 0)
        } else {
            (p.0, (p.1 + 1) as nat)
        }
    }
}

/// Where the cursor of the message field stands: the line and column
/// after the characters before it.
pub open spec fn cursor_offset(message: Seq<char>, cursor: usize) -> (nat, nat) {
    text_position(message.take(if cursor < message.len() { cursor as int } else { message.len() as int }))
}

/// Terminal cell of the cursor of the message field drawn in `area`: inside
/// the frame, at the line and column of the cursor; `None` when that cell
/// lies beyond the terminal's coordinates.
pub fn commit_cursor_position(message: &str, cursor: usize, area_x: u16, area_y: u16) -> (res: Option<(u16, u16)>)
    ensures
        match res {
            Some((x, y)) => {
                &&& x == area_x + cursor_offset(message@, cursor).1 + 1
                &&& y == area_y + cursor_offset(message@, cursor).0 + 1
            },
            None => area_x + cursor_offset(message@, cursor).1 + 1 > u16::MAX
                || area_y + cursor_offset(message@, cursor).0 + 1 > u16::MAX,
        },
{
    let chars = crate::strings::chars_of(message);
    let n = if cursor < chars.len() { cursor } else { chars.len() };
    let mut line: usize = 0;
    let mut col: usize = 0;
    let mut i: usize = 0;
    while i < n
        invariant
            chars@ == message@,
            n <= chars@.len(),
            i <= n,
            line <= i,
            col <= i,
            (line as nat, col as nat) == text_position(chars@.take(i as int)),
        decreases n - i,
    {
        proof {
            assert(chars@.take(i + 1).drop_last() =~= chars@.take(i as int));
        }
        if chars[i] == '\n' {
            line = line + 1;
            col = 0;
        } else {
            col = col + 1;
        }
        i = i + 1;
    }
    let room_x = (u16::MAX - area_x) as usize;
    let room_y = (u16::MAX - area_y) as usize;
    if col < room_x && line < room_y {
        Some(((area_x as usize + col + 1) as u16, (area_y as usize + line + 1) as u16))
    } else {
        None
    }
}

/// What the amend key adds to the help: nothing during a merge.
pub open spec fn amend_hint(is_merging: bool, lang: Language) -> Seq<char> {
    if is_merging {
        Seq::empty()
    } else {
        pick(lang, "  A:amender"@, "  A:amend"@)
    }
}

/// What the abort key adds to the help: only during a merge.
pub open spec fn abort_hint(is_merging: bool, lang: Language) -> Seq<char> {
    if is_merging {
        pick(lang, "  A:annuler fusion"@, "  A:abort merge"@)
    } else {
        Seq::empty()
    }
}

/// The keys of a file list or of the diff, around the commit, push and
/// view keys.
pub open spec fn panel_keys(lead_fr: Seq<char>, lead_en: Seq<char>, is_merging: bool, lang: Language) -> Seq<char> {
    pick(lang, lead_fr, lead_en) + "  c:commit"@ + amend_hint(is_merging, lang) + "  P:push  Ctrl+P:force push"@
        + abort_hint(is_merging, lang) + pick(lang, "  1:graphe  q:quitter"@, "  1:graph  q:quit"@)
}

/// The keys of the focused panel of the staging view.
pub open spec fn staging_help_text(focus: StagingFocus, is_merging: bool, lang: Language) -> Seq<char> {
    " "@ + match focus {
        StagingFocus::Unstaged => panel_keys(
            "j/k:naviguer  Espace:diff  s/Entree:indexer  S:stocker fichier  Ctrl+S:stocker non indexes  a:indexer tout  d:abandonner  Tab:→Indexes"@,
            "j/k:nav  Space:diff  s/Enter:stage  S:stash file  Ctrl+S:stash unstaged  a:stage all  d:discard  Tab:→Staged"@,
            is_merging,
            lang,
        ),
        StagingFocus::Staged => panel_keys(
            "j/k:naviguer  Espace:diff  u/Entree:desindexer  U:desindexer tout  Tab:→Non indexes"@,
            "j/k:nav  Space:diff  u/Enter:unstage  U:unstage all  Tab:→Unstaged"@,
            is_merging,
            lang,
        ),
        StagingFocus::Diff => panel_keys(
            "j/k:defiler  h/l:horizontal  v:vue  Tab/Echap:retour liste"@,
            "j/k:scroll  h/l:horizontal  v:view  Tab/Esc:back to list"@,
            is_merging,
            lang,
        ),
        StagingFocus::CommitMessage => pick(
            lang,
            "Entree:confirmer  Echap:annuler  ←→:curseur"@,
            "Enter:confirm  Esc:cancel  ←→:cursor"@,
        ),
    } + " "@
}

/// The keys of the focused panel (see `staging_help_text`), in the
/// secondary color.
pub fn staging_help(focus: StagingFocus, is_merging: bool, lang: Language) -> (res: Segment)
    ensures
        res@ == seg(staging_help_text(focus, is_merging, lang), SegmentStyle::fg_spec(ThemeColor::TextSecondary)),
{
    let mut s = String::new();
    push_str(&mut s, " ");
    let lead = match focus {
        StagingFocus::Unstaged => Some(text(
            lang,
            "j/k:naviguer  Espace:diff  s/Entree:indexer  S:stocker fichier  Ctrl+S:stocker non indexes  a:indexer tout  d:abandonner  Tab:→Indexes",
            "j/k:nav  Space:diff  s/Enter:stage  S:stash file  Ctrl+S:stash unstaged  a:stage all  d:discard  Tab:→Staged",
        )),
        StagingFocus::Staged => Some(text(
            lang,
            "j/k:naviguer  Espace:diff  u/Entree:desindexer  U:desindexer tout  Tab:→Non indexes",
            "j/k:nav  Space:diff  u/Enter:unstage  U:unstage all  Tab:→Unstaged",
        )),
        StagingFocus::Diff => Some(text(
            lang,
            "j/k:defiler  h/l:horizontal  v:vue  Tab/Echap:retour liste",
            "j/k:scroll  h/l:horizontal  v:view  Tab/Esc:back to list",
        )),
        StagingFocus::CommitMessage => None,
    };
    match lead {
        Some(l) => {
            push_str(&mut s, l);
            push_str(&mut s, "  c:commit");
            if !is_merging {
                push_str(&mut s, text(lang, "  A:amender", "  A:amend"));
            }
            push_str(&mut s, "  P:push  Ctrl+P:force push");
            if is_merging {
                push_str(&mut s, text(lang, "  A:annuler fusion", "  A:abort merge"));
            }
            push_str(&mut s, text(lang, "  1:graphe  q:quitter", "  1:graph  q:quit"));
        },
        None => {
            push_str(&mut s, text(lang, "Entree:confirmer  Echap:annuler  ←→:curseur", "Enter:confirm  Esc:cancel  ←→:cursor"));
        },
    }
    push_str(&mut s, " ");
    assert(s@ =~= staging_help_text(focus, is_merging, lang));
    Segment { text: s, style: SegmentStyle::fg(ThemeColor::TextSecondary) }
}

} // verus!
