//! The branch picker used to merge into, rebase onto, or compare with the
//! current branch.

use vstd::prelude::*;
use crate::diff_view::lines_view;
use crate::hit_test::Rect;
use crate::i18n::{Language, pick, text};
use crate::lines::{push_line, push_seg, seg, text_seg};
use crate::strings::push_str;
use crate::style::{Segment, SegmentStyle, SegmentView, segments_view};

verus! {

/// What the picked branch is for.
#[derive(Debug, Clone, Copy, PartialEq, Eq, Structural)]
pub enum BranchPickerMode {
    Merge,
    Rebase,
    Compare,
}

/// What the picker shows: the branches and the one selected.
#[derive(Debug, Clone)]
pub struct MergePickerState {
    pub branches: Vec<String>,
    pub selected: usize,
    pub mode: BranchPickerMode,
}

/// The current branch's name as the title shows it ("???" when unknown).
pub open spec fn branch_shown(current_branch: Option<&str>) -> Seq<char> {
    match current_branch {
        Some(b) => b@,
        None => "???"@,
    }
}

/// Title of the popup: what is done with the current branch.
pub open spec fn picker_title_text(mode: BranchPickerMode, current_branch: Option<&str>, lang: Language) -> Seq<char> {
    let b = branch_shown(current_branch);
    match mode {
        BranchPickerMode::Merge => pick(lang, " Fusionner dans '"@ + b + "' "@, " Merge into '"@ + b + "' "@),
        BranchPickerMode::Rebase => pick(lang, " Rebase '"@ + b + "' sur "@, " Rebase '"@ + b + "' onto "@),
        BranchPickerMode::Compare => pick(lang, " Comparer '"@ + b + "' avec "@, " Compare '"@ + b + "' with "@),
    }
}

/// The line of a branch in the list: indented by two spaces.
pub open spec fn branch_item(name: Seq<char>) -> Seq<SegmentView> {
    seq![seg("  "@, SegmentStyle::plain_spec()), seg(name, SegmentStyle::plain_spec())]
}

/// The keys of the picker, under it.
pub open spec fn picker_help_text(mode: BranchPickerMode, lang: Language) -> Seq<char> {
    match mode {
        BranchPickerMode::Merge => pick(lang, "j/k:naviguer  Enter:fusionner  Esc:annuler"@, "j/k:navigate  Enter:merge  Esc:cancel"@),
        BranchPickerMode::Rebase => pick(lang, "j/k:naviguer  Enter:rebase  Esc:annuler"@, "j/k:navigate  Enter:rebase  Esc:cancel"@),
        BranchPickerMode::Compare => pick(lang, "j/k:naviguer  Enter:comparer  Esc:annuler"@, "j/k:navigate  Enter:compare  Esc:cancel"@),
    }
}

/// Title of the popup (see `picker_title_text`).
pub fn merge_picker_title(mode: BranchPickerMode, current_branch: Option<&str>, lang: Language) -> (res: String)
    ensures
        res@ == picker_title_text(mode, current_branch, lang),
{
    let name = match current_branch {
        Some(b) => b,
        None => "???",
    };
    let mut s = String::new();
    match mode {
        BranchPickerMode::Merge => {
            push_str(&mut s, text(lang, " Fusionner dans '", " Merge into '"));
            push_str(&mut s, name);
            push_str(&mut s, "' ");
        },
        BranchPickerMode::Rebase => {
            push_str(&mut s, " Rebase '");
            push_str(&mut s, name);
            push_str(&mut s, text(lang, "' sur ", "' onto "));
        },
        BranchPickerMode::Compare => {
            push_str(&mut s, text(lang, " Comparer '", " Compare '"));
            push_str(&mut s, name);
            push_str(&mut s, text(lang, "' avec ", "' with "));
        },
    }
    s
}

/// The lines of the branch list, one per branch (see `branch_item`).
pub fn merge_picker_items(branches: &Vec<String>) -> (res: Vec<Vec<Segment>>)
    ensures
        lines_view(res@) == branches@.map_values(|b: String| branch_item(b@)),
{
    let ghost items = branches@.map_values(|b: String| branch_item(b@));
    let mut lines: Vec<Vec<Segment>> = Vec::new();
    let mut i: usize = 0;
    while i < branches.len()
        invariant
            i <= branches@.len(),
            items == branches@.map_values(|b: String| branch_item(b@)),
            lines_view(lines@) == items.take(i as int),
        decreases branches@.len() - i,
    {
        let mut line: Vec<Segment> = Vec::new();
        push_seg(&mut line, text_seg("  ", SegmentStyle::plain()));
        push_seg(&mut line, Segment { text: branches[i].clone(), style: SegmentStyle::plain() });
        assert(segments_view(line@) =~= items[i as int]);
        push_line(&mut lines, line);
        assert(items.take(i + 1) =~= items.take(i as int).push(items[i as int]));
        i = i + 1;
    }
    assert(items.take(i as int) =~= items);
    lines
}

/// The row highlighted in the list: the selected one, none when the list
/// is empty.
pub fn merge_picker_selection(state: &MergePickerState) -> (res: Option<usize>)
    ensures
        res == (if state.branches@.len() == 0 { None } else { Some(state.selected) }),
{
    if state.branches.len() == 0 {
        None
    } else {
        Some(state.selected)
    }
}

/// The keys of the picker (see `picker_help_text`).
pub fn merge_picker_help(mode: BranchPickerMode, lang: Language) -> (res: &'static str)
    ensures
        res@ == picker_help_text(mode, lang),
{
    match mode {
        BranchPickerMode::Merge => text(lang, "j/k:naviguer  Enter:fusionner  Esc:annuler", "j/k:navigate  Enter:merge  Esc:cancel"),
        BranchPickerMode::Rebase => text(lang, "j/k:naviguer  Enter:rebase  Esc:annuler", "j/k:navigate  Enter:rebase  Esc:cancel"),
        BranchPickerMode::Compare => text(lang, "j/k:naviguer  Enter:comparer  Esc:annuler", "j/k:navigate  Enter:compare  Esc:cancel"),
    }
}

/// Where the keys are shown: the row one below the popup's bottom, as wide
/// as the popup.
pub fn picker_help_area(popup: Rect) -> (res: Rect)
    requires
        popup.y + popup.height + 1 <= u16::MAX,
    ensures
        res == (Rect { x: popup.x, y: (popup.y + popup.height + 1) as u16, width: popup.width, height: 1 }),
{
    Rect { x: popup.x, y: popup.y + popup.height + 1, width: popup.width, height: 1 }
}

} // verus!
