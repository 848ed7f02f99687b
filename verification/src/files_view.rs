//! The files panel under the graph: the files touched by the selected
//! commit with their line counts.

use vstd::prelude::*;
use crate::diff_view::lines_view;
use crate::i18n::{Language, pick, text};
use crate::lines::{push_line, push_seg, seg};
use crate::project_tree_view::{ChangedFile, status_letter, status_tint};
use crate::strings::{decimal, push_char, push_decimal, push_str, spaces};
use crate::style::{Segment, SegmentStyle, SegmentView, ThemeColor, segments_view};
use crate::text::pad_left;

verus! {

/// A number right-aligned on at least three characters.
pub open spec fn count3(n: nat) -> Seq<char> {
    let d = decimal(n);
    if d.len() >= 3 { d } else { spaces((3 - d.len()) as nat) + d }
}

/// The line of a file of the commit: its letter, its additions and
/// deletions on three characters, and its path.
pub open spec fn commit_file_line(f: ChangedFile) -> Seq<SegmentView> {
    seq![
        seg(seq![' ', status_letter(f.status), ' '], SegmentStyle::fg_spec(status_tint(f.status))),
        seg("+"@ + count3(f.additions as nat) + " "@, SegmentStyle::fg_spec(ThemeColor::Success)),
        seg("-"@ + count3(f.deletions as nat) + " "@, SegmentStyle::fg_spec(ThemeColor::Error)),
        seg(f.path@, SegmentStyle::fg_spec(ThemeColor::TextNormal)),
    ]
}

/// A number right-aligned on at least three characters (see `count3`).
fn count_text(n: usize) -> (res: String)
    ensures
        res@ == count3(n as nat),
{
    let mut d = String::new();
    push_decimal(&mut d, n as u64);
    pad_left(d.as_str(), 3)
}

/// The lines of the files of the commit (see `commit_file_line`).
pub fn build_commit_file_items(files: &Vec<ChangedFile>) -> (res: Vec<Vec<Segment>>)
    ensures
        lines_view(res@) == files@.map_values(|f: ChangedFile| commit_file_line(f)),
{
    let ghost want = files@.map_values(|f: ChangedFile| commit_file_line(f));
    let mut lines: Vec<Vec<Segment>> = Vec::new();
    let mut i: usize = 0;
    while i < files.len()
        invariant
            i <= files@.len(),
            want == files@.map_values(|f: ChangedFile| commit_file_line(f)),
            lines_view(lines@) == want.take(i as int),
        decreases files@.len() - i,
    {
        let f = &files[i];
        let mut letter = String::new();
        push_char(&mut letter, ' ');
        push_char(&mut letter, f.status.display_char());
        push_char(&mut letter, ' ');
        let mut adds = String::new();
        push_str(&mut adds, "+");
        push_str(&mut adds, count_text(f.additions).as_str());
        push_str(&mut adds, " ");
        let mut dels = String::new();
        push_str(&mut dels, "-");
        push_str(&mut dels, count_text(f.deletions).as_str());
        push_str(&mut dels, " ");
        let mut line: Vec<Segment> = Vec::new();
        push_seg(&mut line, Segment { text: letter, style: SegmentStyle::fg(f.status.color()) });
        push_seg(&mut line, Segment { text: adds, style: SegmentStyle::fg(ThemeColor::Success) });
        push_seg(&mut line, Segment { text: dels, style: SegmentStyle::fg(ThemeColor::Error) });
        push_seg(&mut line, Segment { text: f.path.clone(), style: SegmentStyle::fg(ThemeColor::TextNormal) });
        assert(letter@ =~= seq![' ', status_letter(f.status), ' ']);
        assert(segments_view(line@) =~= want[i as int]);
        push_line(&mut lines, line);
        assert(want.take(i + 1) =~= want.take(i as int).push(want[i as int]));
        i = i + 1;
    }
    assert(want.take(i as int) =~= want);
    lines
}

/// What the files panel lists.
#[derive(Debug, Clone, Copy, PartialEq, Eq, Structural)]
pub enum BottomLeftMode {
    /// The files of the selected commit.
    Files,
    /// The status of the working tree.
    Parents,
}

/// Title of the files panel: the commit's hash ("???" without one) or the
/// number of changed files, between chevrons when focused.
pub open spec fn files_title_text(
    mode: BottomLeftMode,
    commit_hash: Option<&str>,
    status_count: nat,
    is_focused: bool,
    lang: Language,
) -> Seq<char> {
    let t = match mode {
        BottomLeftMode::Files => {
            let h = match commit_hash { Some(h) => h@, None => "???"@ };
            pick(lang, " Fichiers - "@ + h + " "@, " Files - "@ + h + " "@)
        },
        BottomLeftMode::Parents => pick(
            lang,
            " Statut ("@ + decimal(status_count) + " fichiers) "@,
            " Status ("@ + decimal(status_count) + " files) "@,
        ),
    };
    if is_focused { ">"@ + t + "<"@ } else { t }
}

/// Title of the files panel (see `files_title_text`).
pub fn files_title(
    mode: BottomLeftMode,
    commit_hash: Option<&str>,
    status_count: usize,
    is_focused: bool,
    lang: Language,
) -> (res: String)
    ensures
        res@ == files_title_text(mode, commit_hash, status_count as nat, is_focused, lang),
{
    let mut s = String::new();
    if is_focused {
        push_str(&mut s, ">");
    }
    match mode {
        BottomLeftMode::Files => {
            let h = match commit_hash {
                Some(h) => h,
                None => "???",
            };
            push_str(&mut s, text(lang, " Fichiers - ", " Files - "));
            push_str(&mut s, h);
            push_str(&mut s, " ");
        },
        BottomLeftMode::Parents => {
            push_str(&mut s, text(lang, " Statut (", " Status ("));
            push_decimal(&mut s, status_count as u64);
            push_str(&mut s, text(lang, " fichiers) ", " files) "));
        },
    }
    if is_focused {
        push_str(&mut s, "<");
    }
    assert(s@ =~= files_title_text(mode, commit_hash, status_count as nat, is_focused, lang));
    s
}

} // verus!
