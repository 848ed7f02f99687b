//! The branches view: local and remote branches, worktrees and stashes,
//! each as a list with a detail panel.

use vstd::prelude::*;
use crate::blame_view::{seconds_of, timestamp_seconds};
use crate::diff_view::lines_view;
use crate::i18n::{Language, pick};
use crate::input::state::{BranchesFocus, BranchesSection};
use crate::strings::{decimal, push_decimal, push_str};
use crate::style::{Segment, SegmentStyle, SegmentView, ThemeColor, segments_view};
use crate::time::{format_relative_time, is_relative_date_of};
use crate::watcher::FileStamp;
use crate::help_bar::{display_width, line_columns};
use crate::strings::{chars_of, string_from_chars};
use crate::text_edit::{selection_lines, selection_span, text_with_selection};
use crate::lines::{bold_plain, bold_style, empty_line, plain_line, push_line, push_seg, seg, single, text_seg};

verus! {

/// A branch as the view lists it.
#[derive(Debug, Clone)]
pub struct BranchInfo {
    pub name: String,
    pub is_head: bool,
    pub ahead: Option<usize>,
    pub behind: Option<usize>,
    pub last_commit_date: Option<FileStamp>,
    pub last_commit_message: Option<String>,
}

/// A worktree of the repository.
#[derive(Debug, Clone)]
pub struct WorktreeInfo {
    pub name: String,
    pub path: String,
    pub is_main: bool,
    pub is_current: bool,
    pub branch: Option<String>,
}

/// A file changed by a stash, with its one-letter status (A, M, D, R, ...).
#[derive(Debug, Clone)]
pub struct StashFile {
    pub path: String,
    pub status: char,
}

/// A stash entry.
#[derive(Debug, Clone)]
pub struct StashEntry {
    pub index: usize,
    pub message: String,
    pub branch: Option<String>,
    pub files: Vec<StashFile>,
}

/// The branch whose detail is shown.
#[derive(Debug, Clone, Copy, PartialEq, Eq, Structural)]
pub enum SelectedBranch {
    Local(usize),
    Remote(usize),
}

/// What the input overlay is asking for.
#[derive(Debug, Clone, Copy, PartialEq, Eq, Structural)]
pub enum InputAction {
    CreateBranch,
    RenameBranch,
    CreateWorktree,
    SaveStash,
}

/// State of the branches view.
#[derive(Debug, Clone)]
pub struct BranchesViewState {
    pub section: BranchesSection,
    pub focus: BranchesFocus,
    pub local_branches: Vec<BranchInfo>,
    pub remote_branches: Vec<BranchInfo>,
    pub show_remote: bool,
    pub selected_branch: Option<SelectedBranch>,
    pub worktrees: Vec<WorktreeInfo>,
    pub worktree_selected: usize,
    pub stashes: Vec<StashEntry>,
    pub stash_selected: usize,
    pub stash_file_selected: usize,
    /// The diff of the selected stash file, when loaded.
    pub stash_file_diff: Option<Vec<String>>,
    pub stash_diff_scroll: usize,
    pub input_action: Option<InputAction>,
    pub input_text: String,
    pub input_cursor: usize,
    pub input_selection_anchor: Option<usize>,
}

/// What the branches view is drawn from.
pub struct BranchesRenderContext<'a> {
    pub state: &'a BranchesViewState,
    pub current_branch: Option<&'a str>,
    pub repo_path: &'a str,
    pub flash_message: Option<&'a str>,
}

/// A "Label: value" line, the label in bold.
pub open spec fn field_line(label: Seq<char>, value: SegmentView) -> Seq<SegmentView> {
    seq![seg(label, bold_plain()), value]
}

/// The detail panel scrolls only when a stash file diff is shown; the
/// offset is taken as a `u16`, cut as an `as` conversion does.
pub open spec fn detail_scroll(state: BranchesViewState) -> u16 {
    match state.stash_file_diff {
        Some(d) => if d@.len() > 0 {
            state.stash_diff_scroll as u16
        } else {
            0
        },
        None => 0,
    }
}

/// The scroll offset of the detail panel (see `detail_scroll`).
pub fn detail_scroll_offset(state: &BranchesViewState) -> (res: u16)
    ensures
        res == detail_scroll(*state),
{
    match &state.stash_file_diff {
        Some(d) => if d.len() > 0 {
            state.stash_diff_scroll as u16
        } else {
            0
        },
        None => 0,
    }
}

/// "yes"/"no" in the success color when true.
pub open spec fn yes_no(value: bool, lang: Language, bold_when_true: bool) -> SegmentView {
    if value {
        seg(
            pick(lang, "oui"@, "yes"@),
            SegmentStyle {
                fg: Some(ThemeColor::Success),
                bg: None,
                bold: bold_when_true,
                dim: false,
                italic: false, underline: false,
            },
        )
    } else {
        seg(pick(lang, "non"@, "no"@), SegmentStyle::plain_spec())
    }
}

/// The lines about a branch's last commit: when it was made (as a relative
/// date) and its message.
pub open spec fn last_commit_lines(
    date: Option<FileStamp>,
    message: Option<String>,
    relative: Seq<char>,
    lang: Language,
) -> Seq<Seq<SegmentView>> {
    let when = if date is Some {
        seq![
            seq![
                seg(pick(lang, "Modifiee: "@, "Updated:  "@), bold_plain()),
                seg(relative, SegmentStyle::fg_spec(ThemeColor::Primary)),
            ],
        ]
    } else {
        Seq::empty()
    };
    let what = match message {
        Some(m) => seq![
            plain_line(Seq::empty()),
            seq![seg(pick(lang, "Dernier commit:"@, "Last commit:"@), bold_plain())],
            plain_line(m@),
        ],
        None => Seq::empty(),
    };
    when + what
}

/// The detail of the selected branch, given the relative date of its last
/// commit.
pub open spec fn branch_detail(state: BranchesViewState, relative: Seq<char>, lang: Language) -> Seq<
    Seq<SegmentView>,
> {
    match state.selected_branch {
        Some(SelectedBranch::Remote(idx)) => if idx < state.remote_branches@.len() {
            let b = state.remote_branches@[idx as int];
            seq![
                field_line(pick(lang, "Nom: "@, "Name: "@), seg(b.name@, SegmentStyle::plain_spec())),
                field_line(
                    "Type: "@,
                    seg(pick(lang, "distante"@, "remote"@), SegmentStyle::fg_spec(ThemeColor::TextSecondary)),
                ),
            ] + last_commit_lines(b.last_commit_date, b.last_commit_message, relative, lang)
        } else {
            seq![plain_line(pick(lang, "Aucune branche distante selectionnee"@, "No remote branch selected"@))]
        },
        Some(SelectedBranch::Local(idx)) => if idx < state.local_branches@.len() {
            let b = state.local_branches@[idx as int];
            let counts = if b.ahead is Some && b.behind is Some {
                seq![
                    field_line(
                        "Ahead/Behind: "@,
                        seg(
                            decimal(b.ahead->0 as nat) + " / "@ + decimal(b.behind->0 as nat),
                            SegmentStyle::plain_spec(),
                        ),
                    ),
                ]
            } else {
                Seq::empty()
            };
            seq![
                field_line(pick(lang, "Nom: "@, "Name: "@), seg(b.name@, SegmentStyle::plain_spec())),
                field_line("HEAD: "@, yes_no(b.is_head, lang, false)),
            ] + counts + last_commit_lines(b.last_commit_date, b.last_commit_message, relative, lang)
        } else {
            seq![plain_line(pick(lang, "Aucune branche locale selectionnee"@, "No local branch selected"@))]
        },
        None => seq![plain_line(pick(lang, "Aucune branche selectionnee"@, "No branch selected"@))],
    }
}

fn field(label: &str, value: Segment) -> (res: Vec<Segment>)
    ensures
        segments_view(res@) == field_line(label@, value@),
{
    let mut v: Vec<Segment> = Vec::new();
    push_seg(&mut v, text_seg(label, bold_style()));
    push_seg(&mut v, value);
    v
}

fn yes_no_seg(value: bool, lang: Language, bold_when_true: bool) -> (res: Segment)
    ensures
        res@ == yes_no(value, lang, bold_when_true),
{
    if value {
        text_seg(
            crate::i18n::text(lang, "oui", "yes"),
            SegmentStyle {
                fg: Some(ThemeColor::Success),
                bg: None,
                bold: bold_when_true,
                dim: false,
                italic: false, underline: false,
            },
        )
    } else {
        text_seg(crate::i18n::text(lang, "non", "no"), SegmentStyle::plain())
    }
}

/// Appends the lines about a branch's last commit (see `last_commit_lines`).
pub fn append_last_commit_lines(
    lines: &mut Vec<Vec<Segment>>,
    date: Option<FileStamp>,
    message: &Option<String>,
    relative: &str,
    lang: Language,
)
    ensures
        lines_view(final(lines)@) == lines_view(old(lines)@) + last_commit_lines(
            date,
            *message,
            relative@,
            lang,
        ),
{
    let ghost start = lines_view(lines@);
    let ghost when: Seq<Seq<SegmentView>> = if date is Some {
        seq![
            seq![
                seg(pick(lang, "Modifiee: "@, "Updated:  "@), bold_plain()),
                seg(relative@, SegmentStyle::fg_spec(ThemeColor::Primary)),
            ],
        ]
    } else {
        Seq::empty()
    };
    if date.is_some() {
        let mut v: Vec<Segment> = Vec::new();
        push_seg(&mut v, text_seg(crate::i18n::text(lang, "Modifiee: ", "Updated:  "), bold_style()));
        push_seg(&mut v, text_seg(relative, SegmentStyle::fg(ThemeColor::Primary)));
        assert(segments_view(v@) =~= when[0]);
        push_line(lines, v);
    }
    assert(lines_view(lines@) =~= start + when);
    let ghost mid = lines_view(lines@);
    match message {
        Some(m) => {
            push_line(lines, empty_line());
            push_line(lines, single(crate::i18n::text(lang, "Dernier commit:", "Last commit:"), bold_style()));
            push_line(lines, single(m.as_str(), SegmentStyle::plain()));
            assert(lines_view(lines@) =~= mid + seq![
                plain_line(Seq::empty()),
                seq![seg(pick(lang, "Dernier commit:"@, "Last commit:"@), bold_plain())],
                plain_line(m@),
            ]);
        },
        None => {},
    }
    assert(lines_view(lines@) =~= start + last_commit_lines(date, *message, relative@, lang));
}

/// The relative date of a branch's last commit: empty without a date,
/// otherwise the time elapsed since it.
pub open spec fn is_last_commit_relative(relative: Seq<char>, date: Option<FileStamp>, lang: Language) -> bool {
    match date {
        Some(d) => is_relative_date_of(relative, timestamp_seconds(d), lang),
        None => relative == Seq::<char>::empty(),
    }
}

/// The date of the last commit of the selected branch, if a branch is
/// selected.
pub open spec fn selected_branch_date(state: BranchesViewState) -> Option<FileStamp> {
    match state.selected_branch {
        Some(SelectedBranch::Remote(idx)) => if idx < state.remote_branches@.len() {
            state.remote_branches@[idx as int].last_commit_date
        } else {
            None
        },
        Some(SelectedBranch::Local(idx)) => if idx < state.local_branches@.len() {
            state.local_branches@[idx as int].last_commit_date
        } else {
            None
        },
        None => None,
    }
}

/// The relative date of a branch's last commit (see
/// `is_last_commit_relative`).
fn last_commit_relative(date: Option<FileStamp>, lang: Language) -> (res: String)
    ensures
        is_last_commit_relative(res@, date, lang),
{
    match date {
        Some(d) => format_relative_time(seconds_of(d), lang),
        None => String::new(),
    }
}

/// The detail of the selected branch; the date of its last commit is shown
/// as the time elapsed since then.
pub fn build_branch_detail_content(state: &BranchesViewState, lang: Language) -> (res: Vec<Vec<Segment>>)
    ensures
        exists|relative: Seq<char>|
            is_last_commit_relative(relative, selected_branch_date(*state), lang)
                && lines_view(res@) == branch_detail(*state, relative, lang),
{
    let mut lines: Vec<Vec<Segment>> = Vec::new();
    match state.selected_branch {
        Some(SelectedBranch::Remote(idx)) => {
            if idx < state.remote_branches.len() {
                let b = &state.remote_branches[idx];
                let relative = last_commit_relative(b.last_commit_date, lang);
                push_line(&mut lines, field(crate::i18n::text(lang, "Nom: ", "Name: "), text_seg(b.name.as_str(), SegmentStyle::plain())));
                push_line(&mut lines, field("Type: ", text_seg(crate::i18n::text(lang, "distante", "remote"), SegmentStyle::fg(ThemeColor::TextSecondary))));
                append_last_commit_lines(&mut lines, b.last_commit_date, &b.last_commit_message, relative.as_str(), lang);
                assert(lines_view(lines@) =~= branch_detail(*state, relative@, lang));
            } else {
                push_line(&mut lines, single(crate::i18n::text(lang, "Aucune branche distante selectionnee", "No remote branch selected"), SegmentStyle::plain()));
                assert(lines_view(lines@) =~= branch_detail(*state, Seq::empty(), lang));
            }
        },
        Some(SelectedBranch::Local(idx)) => {
            if idx < state.local_branches.len() {
                let b = &state.local_branches[idx];
                let relative = last_commit_relative(b.last_commit_date, lang);
                push_line(&mut lines, field(crate::i18n::text(lang, "Nom: ", "Name: "), text_seg(b.name.as_str(), SegmentStyle::plain())));
                push_line(&mut lines, field("HEAD: ", yes_no_seg(b.is_head, lang, false)));
                match (b.ahead, b.behind) {
                    (Some(ahead), Some(behind)) => {
                        let mut counts = String::new();
                        push_decimal(&mut counts, ahead as u64);
                        push_str(&mut counts, " / ");
                        push_decimal(&mut counts, behind as u64);
                        push_line(&mut lines, field("Ahead/Behind: ", Segment { text: counts, style: SegmentStyle::plain() }));
                    },
                    _ => {},
                }
                append_last_commit_lines(&mut lines, b.last_commit_date, &b.last_commit_message, relative.as_str(), lang);
                assert(lines_view(lines@) =~= branch_detail(*state, relative@, lang));
            } else {
                push_line(&mut lines, single(crate::i18n::text(lang, "Aucune branche locale selectionnee", "No local branch selected"), SegmentStyle::plain()));
                assert(lines_view(lines@) =~= branch_detail(*state, Seq::empty(), lang));
            }
        },
        None => {
            push_line(&mut lines, single(crate::i18n::text(lang, "Aucune branche selectionnee", "No branch selected"), SegmentStyle::plain()));
            assert(lines_view(lines@) =~= branch_detail(*state, Seq::empty(), lang));
        },
    }
    lines
}

/// The detail of the selected worktree.
pub open spec fn worktree_detail(state: BranchesViewState, lang: Language) -> Seq<Seq<SegmentView>> {
    if state.worktree_selected < state.worktrees@.len() {
        let w = state.worktrees@[state.worktree_selected as int];
        seq![
            field_line(pick(lang, "Nom: "@, "Name: "@), seg(w.name@, SegmentStyle::plain_spec())),
            field_line(pick(lang, "Chemin: "@, "Path: "@), seg(w.path@, SegmentStyle::plain_spec())),
            field_line(pick(lang, "Principal: "@, "Main: "@), yes_no(w.is_main, lang, false)),
            field_line(pick(lang, "Actif: "@, "Active: "@), yes_no(w.is_current, lang, true)),
            field_line(
                pick(lang, "Branche: "@, "Branch: "@),
                seg(
                    match w.branch {
                        Some(b) => b@,
                        None => "N/A"@,
                    },
                    SegmentStyle::plain_spec(),
                ),
            ),
        ]
    } else {
        seq![plain_line(pick(lang, "Aucun worktree selectionne"@, "No worktree selected"@))]
    }
}

/// The detail of the selected worktree (see `worktree_detail`).
pub fn build_worktree_detail_content(state: &BranchesViewState, lang: Language) -> (res: Vec<Vec<Segment>>)
    ensures
        lines_view(res@) == worktree_detail(*state, lang),
{
    let mut lines: Vec<Vec<Segment>> = Vec::new();
    if state.worktree_selected < state.worktrees.len() {
        let w = &state.worktrees[state.worktree_selected];
        push_line(&mut lines, field(crate::i18n::text(lang, "Nom: ", "Name: "), text_seg(w.name.as_str(), SegmentStyle::plain())));
        push_line(&mut lines, field(crate::i18n::text(lang, "Chemin: ", "Path: "), text_seg(w.path.as_str(), SegmentStyle::plain())));
        push_line(&mut lines, field(crate::i18n::text(lang, "Principal: ", "Main: "), yes_no_seg(w.is_main, lang, false)));
        push_line(&mut lines, field(crate::i18n::text(lang, "Actif: ", "Active: "), yes_no_seg(w.is_current, lang, true)));
        let branch = match &w.branch {
            Some(b) => b.as_str(),
            None => "N/A",
        };
        push_line(&mut lines, field(crate::i18n::text(lang, "Branche: ", "Branch: "), text_seg(branch, SegmentStyle::plain())));
    } else {
        push_line(&mut lines, single(crate::i18n::text(lang, "Aucun worktree selectionne", "No worktree selected"), SegmentStyle::plain()));
    }
    assert(lines_view(lines@) =~= worktree_detail(*state, lang));
    lines
}

/// The color of a stash file's status letter.
pub open spec fn status_color(status: char) -> ThemeColor {
    if status == 'A' {
        ThemeColor::Success
    } else if status == 'M' {
        ThemeColor::Warning
    } else if status == 'D' {
        ThemeColor::Error
    } else if status == 'R' {
        ThemeColor::Primary
    } else {
        ThemeColor::TextSecondary
    }
}

/// The line of a stash file: an arrow when selected, its status letter in
/// its color, and its path.
pub open spec fn stash_file_line(f: StashFile, is_selected: bool) -> Seq<SegmentView> {
    seq![
        seg(
            (if is_selected {
                "→ "@
            } else {
                "  "@
            }) + seq![f.status] + " "@,
            SegmentStyle {
                fg: Some(status_color(f.status)),
                bg: None,
                bold: is_selected,
                dim: false,
                italic: false, underline: false,
            },
        ),
        seg(f.path@, SegmentStyle::plain_spec()),
    ]
}

/// A line of a stash file diff, colored by its first character.
pub open spec fn stash_diff_line(l: Seq<char>) -> Seq<SegmentView> {
    let style = if l.len() > 0 && l[0] == '+' {
        SegmentStyle::fg_spec(ThemeColor::Success)
    } else if l.len() > 0 && l[0] == '-' {
        SegmentStyle::fg_spec(ThemeColor::Error)
    } else if l.len() > 0 && l[0] == '@' {
        SegmentStyle::fg_spec(ThemeColor::Primary)
    } else {
        SegmentStyle::plain_spec()
    };
    seq![seg(l, style)]
}

/// The detail of the selected stash: message, index, branch, files, and
/// the diff of the selected file when it is loaded and not empty.
pub open spec fn stash_detail(state: BranchesViewState, lang: Language) -> Seq<Seq<SegmentView>> {
    if state.stash_selected < state.stashes@.len() {
        let s = state.stashes@[state.stash_selected as int];
        let head = seq![
            field_line("Message: "@, seg(s.message@, SegmentStyle::plain_spec())),
            field_line("Index: "@, seg("stash@{"@ + decimal(s.index as nat) + "}"@, SegmentStyle::plain_spec())),
        ];
        let branch = match s.branch {
            Some(b) => seq![field_line(pick(lang, "Branche: "@, "Branch: "@), seg(b@, SegmentStyle::plain_spec()))],
            None => Seq::empty(),
        };
        let files = if s.files@.len() > 0 {
            let listing = seq![
                plain_line(Seq::empty()),
                seq![seg(pick(lang, "Fichiers modifies:"@, "Modified files:"@), bold_plain())],
            ] + Seq::new(
                s.files@.len(),
                |i: int| stash_file_line(s.files@[i], i == state.stash_file_selected),
            );
            let diff = match state.stash_file_diff {
                Some(d) => if d@.len() > 0 {
                    seq![plain_line(Seq::empty()), seq![seg("Diff:"@, bold_plain())]] + Seq::new(
                        d@.len(),
                        |i: int| stash_diff_line(d@[i]@),
                    )
                } else {
                    Seq::empty()
                },
                None => Seq::empty(),
            };
            listing + diff
        } else {
            Seq::empty()
        };
        head + branch + files
    } else {
        seq![plain_line(pick(lang, "Aucun stash selectionne"@, "No stash selected"@))]
    }
}

/// The detail of the selected stash (see `stash_detail`).
pub fn build_stash_detail_content(state: &BranchesViewState, lang: Language) -> (res: Vec<Vec<Segment>>)
    ensures
        lines_view(res@) == stash_detail(*state, lang),
{
    let mut lines: Vec<Vec<Segment>> = Vec::new();
    if state.stash_selected >= state.stashes.len() {
        push_line(&mut lines, single(crate::i18n::text(lang, "Aucun stash selectionne", "No stash selected"), SegmentStyle::plain()));
        assert(lines_view(lines@) =~= stash_detail(*state, lang));
        return lines;
    }
    let s = &state.stashes[state.stash_selected];
    push_line(&mut lines, field("Message: ", text_seg(s.message.as_str(), SegmentStyle::plain())));
    let mut index = String::new();
    push_str(&mut index, "stash@{");
    push_decimal(&mut index, s.index as u64);
    push_str(&mut index, "}");
    push_line(&mut lines, field("Index: ", Segment { text: index, style: SegmentStyle::plain() }));
    match &s.branch {
        Some(b) => push_line(&mut lines, field(crate::i18n::text(lang, "Branche: ", "Branch: "), text_seg(b.as_str(), SegmentStyle::plain()))),
        None => {},
    }
    let ghost before_files = lines_view(lines@);
    if s.files.len() > 0 {
        push_line(&mut lines, empty_line());
        push_line(&mut lines, single(crate::i18n::text(lang, "Fichiers modifies:", "Modified files:"), bold_style()));
        let ghost listed = lines_view(lines@);
        let mut i: usize = 0;
        while i < s.files.len()
            invariant
                i <= s.files@.len(),
                lines_view(lines@) == listed + Seq::new(
                    i as nat,
                    |k: int| stash_file_line(s.files@[k], k == state.stash_file_selected),
                ),
            decreases s.files@.len() - i,
        {
            let f = &s.files[i];
            let selected = i == state.stash_file_selected;
            let mut head = String::new();
            push_str(
                &mut head,
                if selected {
                    "→ "
                } else {
                    "  "
                },
            );
            crate::strings::push_char(&mut head, f.status);
            push_str(&mut head, " ");
            assert(head@ =~= (if selected {
                "→ "@
            } else {
                "  "@
            }) + seq![f.status] + " "@);
            let color = if f.status == 'A' {
                ThemeColor::Success
            } else if f.status == 'M' {
                ThemeColor::Warning
            } else if f.status == 'D' {
                ThemeColor::Error
            } else if f.status == 'R' {
                ThemeColor::Primary
            } else {
                ThemeColor::TextSecondary
            };
            let mut v: Vec<Segment> = Vec::new();
            push_seg(&mut v, Segment { text: head, style: SegmentStyle { fg: Some(color), bg: None, bold: selected, dim: false, italic: false, underline: false } });
            push_seg(&mut v, text_seg(f.path.as_str(), SegmentStyle::plain()));
            assert(segments_view(v@) =~= stash_file_line(*f, selected));
            push_line(&mut lines, v);
            proof {
                assert(lines_view(lines@) =~= listed + Seq::new(
                    (i + 1) as nat,
                    |k: int| stash_file_line(s.files@[k], k == state.stash_file_selected),
                ));
            }
            i = i + 1;
        }
        match &state.stash_file_diff {
            Some(d) => {
                if d.len() > 0 {
                    push_line(&mut lines, empty_line());
                    push_line(&mut lines, single("Diff:", bold_style()));
                    let ghost diffed = lines_view(lines@);
                    let mut j: usize = 0;
                    while j < d.len()
                        invariant
                            j <= d@.len(),
                            lines_view(lines@) == diffed + Seq::new(j as nat, |k: int| stash_diff_line(d@[k]@)),
                        decreases d@.len() - j,
                    {
                        let l = d[j].as_str();
                        let n = l.unicode_len();
                        let style = if n > 0 && l.get_char(0) == '+' {
                            SegmentStyle::fg(ThemeColor::Success)
                        } else if n > 0 && l.get_char(0) == '-' {
                            SegmentStyle::fg(ThemeColor::Error)
                        } else if n > 0 && l.get_char(0) == '@' {
                            SegmentStyle::fg(ThemeColor::Primary)
                        } else {
                            SegmentStyle::plain()
                        };
                        push_line(&mut lines, single(l, style));
                        proof {
                            assert(lines_view(lines@) =~= diffed + Seq::new((j + 1) as nat, |k: int| stash_diff_line(d@[k]@)));
                        }
                        j = j + 1;
                    }
                }
            },
            None => {},
        }
    }
    assert(lines_view(lines@) =~= stash_detail(*state, lang));
    lines
}

/// A bold section header of the branch list.
pub open spec fn list_header(text: Seq<char>) -> Seq<SegmentView> {
    seq![
        seg(
            text,
            SegmentStyle {
                fg: Some(ThemeColor::CommitHash),
                bg: None,
                bold: true,
                dim: false,
                italic: false,
                underline: false,
            },
        ),
    ]
}

/// The style of the current branch or worktree: bold success.
pub open spec fn current_style(is_current: bool) -> SegmentStyle {
    if is_current {
        SegmentStyle {
            fg: Some(ThemeColor::Success),
            bg: None,
            bold: true,
            dim: false,
            italic: false,
            underline: false,
        }
    } else {
        SegmentStyle::plain_spec()
    }
}

/// The item of a local branch: a dot for HEAD, its name, and how far it is
/// ahead of and behind its upstream when known.
pub open spec fn local_branch_item(b: BranchInfo) -> Seq<SegmentView> {
    let style = current_style(b.is_head);
    let base = seq![
        seg(
            if b.is_head {
                "● "@
            } else {
                "  "@
            },
            style,
        ),
        seg(b.name@, style),
    ];
    if b.ahead is Some && b.behind is Some {
        base.push(
            seg(
                "  "@ + decimal(b.ahead->0 as nat) + "↑ "@ + decimal(b.behind->0 as nat) + "↓"@,
                SegmentStyle::fg_spec(ThemeColor::TextSecondary),
            ),
        )
    } else {
        base
    }
}

/// The item of a remote branch.
pub open spec fn remote_branch_item(b: BranchInfo) -> Seq<SegmentView> {
    seq![seg("  "@, SegmentStyle::plain_spec()), seg(b.name@, SegmentStyle::fg_spec(ThemeColor::TextSecondary))]
}

/// The branch list: the local branches under their header, then, when
/// remote branches are shown, a blank line and the remote ones under theirs.
pub open spec fn branch_list(state: BranchesViewState, lang: Language) -> Seq<Seq<SegmentView>> {
    let local = seq![list_header("Local"@)] + Seq::new(
        state.local_branches@.len(),
        |i: int| local_branch_item(state.local_branches@[i]),
    );
    if state.show_remote {
        local + seq![plain_line(Seq::empty()), list_header(pick(lang, "Distant"@, "Remote"@))] + Seq::new(
            state.remote_branches@.len(),
            |i: int| remote_branch_item(state.remote_branches@[i]),
        )
    } else {
        local
    }
}

/// The row of the selected branch in the list: past the local header, or
/// past the local branches, the blank line and the remote header.
pub open spec fn branch_visual_index(state: BranchesViewState) -> int {
    match state.selected_branch {
        Some(SelectedBranch::Local(idx)) => idx + 1,
        Some(SelectedBranch::Remote(idx)) => state.local_branches@.len() + idx + 3,
        None => 0,
    }
}

fn header_line(text: &str) -> (res: Vec<Segment>)
    ensures
        segments_view(res@) == list_header(text@),
{
    single(
        text,
        SegmentStyle {
            fg: Some(ThemeColor::CommitHash),
            bg: None,
            bold: true,
            dim: false,
            italic: false,
            underline: false,
        },
    )
}

fn current_style_of(is_current: bool) -> (res: SegmentStyle)
    ensures
        res == current_style(is_current),
{
    if is_current {
        SegmentStyle {
            fg: Some(ThemeColor::Success),
            bg: None,
            bold: true,
            dim: false,
            italic: false,
            underline: false,
        }
    } else {
        SegmentStyle::plain()
    }
}

/// The branch list and the row of the selected branch (see `branch_list`
/// and `branch_visual_index`).
pub fn branches_list_items(state: &BranchesViewState, lang: Language) -> (res: (Vec<Vec<Segment>>, usize))
    requires
        match state.selected_branch {
            Some(SelectedBranch::Local(idx)) => idx < usize::MAX,
            Some(SelectedBranch::Remote(idx)) => state.local_branches@.len() + idx + 3 <= usize::MAX,
            None => true,
        },
    ensures
        lines_view(res.0@) == branch_list(*state, lang),
        res.1 == branch_visual_index(*state),
{
    let mut items: Vec<Vec<Segment>> = Vec::new();
    push_line(&mut items, header_line("Local"));
    let ghost after_header = lines_view(items@);
    let mut i: usize = 0;
    while i < state.local_branches.len()
        invariant
            i <= state.local_branches@.len(),
            lines_view(items@) == after_header + Seq::new(
                i as nat,
                |k: int| local_branch_item(state.local_branches@[k]),
            ),
        decreases state.local_branches@.len() - i,
    {
        let b = &state.local_branches[i];
        let style = current_style_of(b.is_head);
        let mut v: Vec<Segment> = Vec::new();
        push_seg(
            &mut v,
            text_seg(
                if b.is_head {
                    "● "
                } else {
                    "  "
                },
                style,
            ),
        );
        push_seg(&mut v, text_seg(b.name.as_str(), style));
        match (b.ahead, b.behind) {
            (Some(ahead), Some(behind)) => {
                let mut counts = String::new();
                push_str(&mut counts, "  ");
                push_decimal(&mut counts, ahead as u64);
                push_str(&mut counts, "↑ ");
                push_decimal(&mut counts, behind as u64);
                push_str(&mut counts, "↓");
                push_seg(&mut v, Segment { text: counts, style: SegmentStyle::fg(ThemeColor::TextSecondary) });
            },
            _ => {},
        }
        assert(segments_view(v@) =~= local_branch_item(*b));
        push_line(&mut items, v);
        proof {
            assert(lines_view(items@) =~= after_header + Seq::new(
                (i + 1) as nat,
                |k: int| local_branch_item(state.local_branches@[k]),
            ));
        }
        i = i + 1;
    }
    if state.show_remote {
        push_line(&mut items, empty_line());
        push_line(&mut items, header_line(crate::i18n::text(lang, "Distant", "Remote")));
        let ghost after_remote_header = lines_view(items@);
        let mut j: usize = 0;
        while j < state.remote_branches.len()
            invariant
                j <= state.remote_branches@.len(),
                lines_view(items@) == after_remote_header + Seq::new(
                    j as nat,
                    |k: int| remote_branch_item(state.remote_branches@[k]),
                ),
            decreases state.remote_branches@.len() - j,
        {
            let b = &state.remote_branches[j];
            let mut v: Vec<Segment> = Vec::new();
            push_seg(&mut v, text_seg("  ", SegmentStyle::plain()));
            push_seg(&mut v, text_seg(b.name.as_str(), SegmentStyle::fg(ThemeColor::TextSecondary)));
            assert(segments_view(v@) =~= remote_branch_item(*b));
            push_line(&mut items, v);
            proof {
                assert(lines_view(items@) =~= after_remote_header + Seq::new(
                    (j + 1) as nat,
                    |k: int| remote_branch_item(state.remote_branches@[k]),
                ));
            }
            j = j + 1;
        }
    }
    assert(lines_view(items@) =~= branch_list(*state, lang));
    let visual = match state.selected_branch {
        Some(SelectedBranch::Local(idx)) => idx + 1,
        Some(SelectedBranch::Remote(idx)) => state.local_branches.len() + idx + 3,
        None => 0,
    };
    (items, visual)
}

/// The item of a worktree: a dot and bold success for the current one.
pub open spec fn worktree_item(w: WorktreeInfo) -> Seq<SegmentView> {
    let style = current_style(w.is_current);
    seq![
        seg(
            if w.is_current {
                "● "@
            } else {
                "  "@
            },
            style,
        ),
        seg(w.name@, style),
    ]
}

/// The worktree list, one item per worktree.
pub fn worktree_list_items(state: &BranchesViewState) -> (res: Vec<Vec<Segment>>)
    ensures
        lines_view(res@) == Seq::new(
            state.worktrees@.len(),
            |i: int| worktree_item(state.worktrees@[i]),
        ),
{
    let mut items: Vec<Vec<Segment>> = Vec::new();
    let mut i: usize = 0;
    while i < state.worktrees.len()
        invariant
            i <= state.worktrees@.len(),
            lines_view(items@) == Seq::new(i as nat, |k: int| worktree_item(state.worktrees@[k])),
        decreases state.worktrees@.len() - i,
    {
        let w = &state.worktrees[i];
        let style = current_style_of(w.is_current);
        let mut v: Vec<Segment> = Vec::new();
        push_seg(
            &mut v,
            text_seg(
                if w.is_current {
                    "● "
                } else {
                    "  "
                },
                style,
            ),
        );
        push_seg(&mut v, text_seg(w.name.as_str(), style));
        assert(segments_view(v@) =~= worktree_item(*w));
        push_line(&mut items, v);
        proof {
            assert(lines_view(items@) =~= Seq::new((i + 1) as nat, |k: int| worktree_item(state.worktrees@[k])));
        }
        i = i + 1;
    }
    items
}

/// The item of a stash: its reference in the primary color, then its
/// message.
pub open spec fn stash_item(st: StashEntry) -> Seq<SegmentView> {
    seq![
        seg("stash@{"@ + decimal(st.index as nat) + "}: "@, SegmentStyle::fg_spec(ThemeColor::Primary)),
        seg(st.message@, SegmentStyle::plain_spec()),
    ]
}

/// The stash list, one item per stash.
pub fn stash_list_items(state: &BranchesViewState) -> (res: Vec<Vec<Segment>>)
    ensures
        lines_view(res@) == Seq::new(state.stashes@.len(), |i: int| stash_item(state.stashes@[i])),
{
    let mut items: Vec<Vec<Segment>> = Vec::new();
    let mut i: usize = 0;
    while i < state.stashes.len()
        invariant
            i <= state.stashes@.len(),
            lines_view(items@) == Seq::new(i as nat, |k: int| stash_item(state.stashes@[k])),
        decreases state.stashes@.len() - i,
    {
        let st = &state.stashes[i];
        let mut reference = String::new();
        push_str(&mut reference, "stash@{");
        push_decimal(&mut reference, st.index as u64);
        push_str(&mut reference, "}: ");
        let mut v: Vec<Segment> = Vec::new();
        push_seg(&mut v, Segment { text: reference, style: SegmentStyle::fg(ThemeColor::Primary) });
        push_seg(&mut v, text_seg(st.message.as_str(), SegmentStyle::plain()));
        assert(segments_view(v@) =~= stash_item(*st));
        push_line(&mut items, v);
        proof {
            assert(lines_view(items@) =~= Seq::new((i + 1) as nat, |k: int| stash_item(state.stashes@[k])));
        }
        i = i + 1;
    }
    items
}

/// The help of the branches view: the input keys while typing, else the
/// keys of the section.
pub open spec fn branches_help(section: BranchesSection, focus: BranchesFocus, lang: Language) -> Seq<char> {
    if focus == BranchesFocus::Input {
        pick(lang, "Entree:confirmer  Echap:annuler  ←→:curseur"@, "Enter:confirm  Esc:cancel  ←→:cursor"@)
    } else {
        match section {
            BranchesSection::Branches => pick(
                lang,
                "Tab/Shift+Tab:section  Entree:checkout  n:nouvelle  d:supprimer  r:renommer  m:fusion  e:rebase  R:distantes  P:push  Ctrl+P:force push  1:graphe  2:staging"@,
                "Tab/Shift+Tab:section  Enter:checkout  n:new  d:delete  r:rename  m:merge  e:rebase  R:remote  P:push  Ctrl+P:force push  1:graph  2:staging"@,
            ),
            BranchesSection::Worktrees => pick(
                lang,
                "↑↓:selectionner  Entree:ouvrir  Tab/Shift+Tab:section  n:nouveau  d:supprimer  1:graphe"@,
                "↑↓:select  Enter:open  Tab/Shift+Tab:section  n:new  d:delete  1:graph"@,
            ),
            BranchesSection::Stashes => pick(
                lang,
                "Tab/Shift+Tab:section  h/l:fichiers  J/K:defiler diff  a:appliquer  p:pop  d:supprimer  s:sauver  1:graphe  2:staging"@,
                "Tab/Shift+Tab:section  h/l:files  J/K:scroll diff  a:apply  p:pop  d:drop  s:save  1:graph  2:staging"@,
            ),
        }
    }
}

/// The help bar of the branches view: the help between spaces, in the
/// secondary text color.
pub fn branches_help_line(section: BranchesSection, focus: BranchesFocus, lang: Language) -> (res: Segment)
    ensures
        res@ == seg(" "@ + branches_help(section, focus, lang) + " "@, SegmentStyle::fg_spec(ThemeColor::TextSecondary)),
{
    let help = if focus == BranchesFocus::Input {
        crate::i18n::text(lang, "Entree:confirmer  Echap:annuler  ←→:curseur", "Enter:confirm  Esc:cancel  ←→:cursor")
    } else {
        match section {
            BranchesSection::Branches => crate::i18n::text(
                lang,
                "Tab/Shift+Tab:section  Entree:checkout  n:nouvelle  d:supprimer  r:renommer  m:fusion  e:rebase  R:distantes  P:push  Ctrl+P:force push  1:graphe  2:staging",
                "Tab/Shift+Tab:section  Enter:checkout  n:new  d:delete  r:rename  m:merge  e:rebase  R:remote  P:push  Ctrl+P:force push  1:graph  2:staging",
            ),
            BranchesSection::Worktrees => crate::i18n::text(
                lang,
                "↑↓:selectionner  Entree:ouvrir  Tab/Shift+Tab:section  n:nouveau  d:supprimer  1:graphe",
                "↑↓:select  Enter:open  Tab/Shift+Tab:section  n:new  d:delete  1:graph",
            ),
            BranchesSection::Stashes => crate::i18n::text(
                lang,
                "Tab/Shift+Tab:section  h/l:fichiers  J/K:defiler diff  a:appliquer  p:pop  d:supprimer  s:sauver  1:graphe  2:staging",
                "Tab/Shift+Tab:section  h/l:files  J/K:scroll diff  a:apply  p:pop  d:drop  s:save  1:graph  2:staging",
            ),
        }
    };
    let mut text = String::new();
    push_str(&mut text, " ");
    push_str(&mut text, help);
    push_str(&mut text, " ");
    Segment { text, style: SegmentStyle::fg(ThemeColor::TextSecondary) }
}

/// The title of the input overlay, by what it asks for.
pub open spec fn input_title_text(action: Option<InputAction>, lang: Language) -> Seq<char> {
    match action {
        Some(InputAction::CreateBranch) => pick(lang, " Nouvelle branche "@, " New branch "@),
        Some(InputAction::RenameBranch) => pick(lang, " Renommer la branche "@, " Rename branch "@),
        Some(InputAction::CreateWorktree) => pick(
            lang,
            " Nouveau worktree: nom chemin [branche] "@,
            " New worktree: name path [branch] "@,
        ),
        Some(InputAction::SaveStash) => pick(lang, " Message du stash "@, " Stash message "@),
        None => pick(lang, " Saisie "@, " Input "@),
    }
}

/// The title of the input overlay (see `input_title_text`).
pub fn input_overlay_title(action: Option<InputAction>, lang: Language) -> (res: &'static str)
    ensures
        res@ == input_title_text(action, lang),
{
    match action {
        Some(InputAction::CreateBranch) => crate::i18n::text(lang, " Nouvelle branche ", " New branch "),
        Some(InputAction::RenameBranch) => crate::i18n::text(lang, " Renommer la branche ", " Rename branch "),
        Some(InputAction::CreateWorktree) => crate::i18n::text(
            lang,
            " Nouveau worktree: nom chemin [branche] ",
            " New worktree: name path [branch] ",
        ),
        Some(InputAction::SaveStash) => crate::i18n::text(lang, " Message du stash ", " Stash message "),
        None => crate::i18n::text(lang, " Saisie ", " Input "),
    }
}

/// The style of a section tab: bold, underlined active border color for the
/// active one.
pub open spec fn tab_style(is_active: bool) -> SegmentStyle {
    if is_active {
        SegmentStyle {
            fg: Some(ThemeColor::BorderActive),
            bg: None,
            bold: true,
            dim: false,
            italic: false,
            underline: true,
        }
    } else {
        SegmentStyle::fg_spec(ThemeColor::TextSecondary)
    }
}

/// The section tabs: each label between spaces, followed by a gap.
pub open spec fn tabs_line(active: BranchesSection, lang: Language) -> Seq<SegmentView> {
    let gap = seg("  "@, SegmentStyle::fg_spec(ThemeColor::TextNormal));
    seq![
        seg(" Branches "@, tab_style(active == BranchesSection::Branches)),
        gap,
        seg(" Worktrees "@, tab_style(active == BranchesSection::Worktrees)),
        gap,
        seg(" Stashes "@, tab_style(active == BranchesSection::Stashes)),
        gap,
    ]
}

fn tab_style_of(is_active: bool) -> (res: SegmentStyle)
    ensures
        res == tab_style(is_active),
{
    if is_active {
        SegmentStyle {
            fg: Some(ThemeColor::BorderActive),
            bg: None,
            bold: true,
            dim: false,
            italic: false,
            underline: true,
        }
    } else {
        SegmentStyle::fg(ThemeColor::TextSecondary)
    }
}

/// The section tabs of the view (see `tabs_line`).
pub fn render_tabs(active: BranchesSection, lang: Language) -> (res: Vec<Segment>)
    ensures
        segments_view(res@) == tabs_line(active, lang),
{
    let mut v: Vec<Segment> = Vec::new();
    push_seg(&mut v, text_seg(" Branches ", tab_style_of(active == BranchesSection::Branches)));
    push_seg(&mut v, text_seg("  ", SegmentStyle::fg(ThemeColor::TextNormal)));
    push_seg(&mut v, text_seg(" Worktrees ", tab_style_of(active == BranchesSection::Worktrees)));
    push_seg(&mut v, text_seg("  ", SegmentStyle::fg(ThemeColor::TextNormal)));
    push_seg(&mut v, text_seg(" Stashes ", tab_style_of(active == BranchesSection::Stashes)));
    push_seg(&mut v, text_seg("  ", SegmentStyle::fg(ThemeColor::TextNormal)));
    v
}

/// The row the branch list highlights is the item of the selected branch,
/// whenever that branch exists (and, for a remote one, remote branches are
/// shown).
pub proof fn law_branch_row_shows_selected_branch(state: BranchesViewState, lang: Language)
    ensures
        match state.selected_branch {
            Some(SelectedBranch::Local(idx)) => idx < state.local_branches@.len() ==> branch_list(state, lang)[branch_visual_index(state)]
                == local_branch_item(state.local_branches@[idx as int]),
            Some(SelectedBranch::Remote(idx)) => idx < state.remote_branches@.len() && state.show_remote
                ==> branch_list(state, lang)[branch_visual_index(state)] == remote_branch_item(state.remote_branches@[idx as int]),
            None => true,
        },
{
    let local = seq![list_header("Local"@)] + Seq::new(
        state.local_branches@.len(),
        |i: int| local_branch_item(state.local_branches@[i]),
    );
    match state.selected_branch {
        Some(SelectedBranch::Local(idx)) => {
            if idx < state.local_branches@.len() {
                assert(local[idx + 1] == local_branch_item(state.local_branches@[idx as int]));
                if state.show_remote {
                    let all = branch_list(state, lang);
                    assert(all[idx + 1] == local[idx + 1]);
                }
            }
        },
        Some(SelectedBranch::Remote(idx)) => {
            if idx < state.remote_branches@.len() && state.show_remote {
                let head = local + seq![plain_line(Seq::empty()), list_header(pick(lang, "Distant"@, "Remote"@))];
                let remote = Seq::new(state.remote_branches@.len(), |i: int| remote_branch_item(state.remote_branches@[i]));
                assert(branch_list(state, lang) == head + remote);
                assert(head.len() == state.local_branches@.len() + 3);
                assert((head + remote)[head.len() + idx] == remote[idx as int]);
            }
        },
        None => {},
    }
}

/// Normal style of the input overlay's text.
pub open spec fn input_text_style() -> SegmentStyle {
    SegmentStyle { fg: Some(ThemeColor::TextNormal), bg: Some(ThemeColor::Background), bold: false, dim: false, italic: false, underline: false }
}

/// Style of the selected characters of the input overlay.
pub open spec fn input_selection_style() -> SegmentStyle {
    SegmentStyle { fg: Some(ThemeColor::SelectionFg), bg: Some(ThemeColor::SelectionBg), bold: false, dim: false, italic: false, underline: false }
}

/// The text of the input overlay with its selection highlighted.
pub fn input_overlay_lines(state: &BranchesViewState) -> (res: Vec<Vec<Segment>>)
    ensures
        lines_view(res@) == selection_lines(
            state.input_text@,
            selection_span(state.input_cursor, state.input_selection_anchor),
            input_text_style(),
            input_selection_style(),
        ),
{
    text_with_selection(
        state.input_text.as_str(),
        state.input_cursor,
        state.input_selection_anchor,
        SegmentStyle { fg: Some(ThemeColor::TextNormal), bg: Some(ThemeColor::Background), bold: false, dim: false, italic: false, underline: false },
        SegmentStyle { fg: Some(ThemeColor::SelectionFg), bg: Some(ThemeColor::SelectionBg), bold: false, dim: false, italic: false, underline: false },
    )
}

/// The characters of the input before its cursor.
pub open spec fn before_cursor(text: Seq<char>, cursor: usize) -> Seq<char> {
    text.take(if cursor < text.len() { cursor as int } else { text.len() as int })
}

/// Terminal cell of the input overlay's cursor in a popup at (x, y): on its
/// first row inside the frame, after the columns of the text before the
/// cursor (counted as a `u16`, cut as an `as` conversion does); none when
/// that cell lies past the terminal's coordinates.
pub fn input_cursor_position(state: &BranchesViewState, popup_x: u16, popup_y: u16) -> (res: Option<(u16, u16)>)
    ensures
        ({
            let w = line_columns(before_cursor(state.input_text@, state.input_cursor)) as u16;
            match res {
                Some(p) => popup_x + w + 1 <= u16::MAX && popup_y + 1 <= u16::MAX && p == (
                    (popup_x + w + 1) as u16,
                    (popup_y + 1) as u16,
                ),
                None => popup_x + w + 1 > u16::MAX || popup_y + 1 > u16::MAX,
            }
        }),
{
    let chars = chars_of(state.input_text.as_str());
    let end = if state.input_cursor < chars.len() { state.input_cursor } else { chars.len() };
    let before = string_from_chars(&chars, 0, end);
    assert(before@ =~= before_cursor(state.input_text@, state.input_cursor));
    let width = display_width(before.as_str()) as u16;
    if popup_x as u32 + width as u32 + 1 > 0xffff || popup_y == 0xffff {
        return None;
    }
    Some((popup_x + width + 1, popup_y + 1))
}

} // verus!
