//! The status bars at the top of the views: branch, working tree state,
//! merge and filter markers, repository path and flash message.

use vstd::prelude::*;
use crate::i18n::{Language, pick, text};
use crate::keybindings::joined;
use crate::lines::{push_seg, seg, text_seg};
use crate::status::{StatusEntry, count_status, count_where, counts_modified, counts_staged, counts_untracked};
use crate::strings::{decimal, push_decimal, push_str};
use crate::style::{Segment, SegmentStyle, SegmentView, ThemeColor, segments_view};
use crate::text::{truncate_start, truncated_start};

verus! {

/// Bold text in a color.
pub open spec fn bold_in(c: ThemeColor) -> SegmentStyle {
    SegmentStyle { fg: Some(c), bg: None, bold: true, dim: false, italic: false, underline: false }
}

/// The parts of a dirty working tree's summary, each present when its
/// count is not zero: staged, modified, untracked.
pub open spec fn summary_parts(modified: nat, staged: nat, untracked: nat, lang: Language) -> Seq<Seq<char>> {
    (if staged > 0 { seq![decimal(staged) + pick(lang, " indexes"@, " staged"@)] } else { Seq::empty() })
        + (if modified > 0 { seq![decimal(modified) + pick(lang, " modifies"@, " modified"@)] } else { Seq::empty() })
        + (if untracked > 0 { seq![decimal(untracked) + pick(lang, " non suivis"@, " untracked"@)] } else { Seq::empty() })
}

/// The state of the working tree: clean in the success color, otherwise
/// the counts in the error color.
pub open spec fn summary_segment(modified: nat, staged: nat, untracked: nat, lang: Language) -> SegmentView {
    if modified == 0 && staged == 0 && untracked == 0 {
        seg(pick(lang, "✓ propre"@, "✓ clean"@), SegmentStyle::fg_spec(ThemeColor::Success))
    } else {
        seg("✗ "@ + joined(summary_parts(modified, staged, untracked, lang), ", "@), SegmentStyle::fg_spec(ThemeColor::Error))
    }
}

/// The summary of the files' states (see `summary_segment`).
pub open spec fn entries_summary(entries: Seq<StatusEntry>, lang: Language) -> SegmentView {
    summary_segment(
        count_where(entries, |f| counts_modified(f)),
        count_where(entries, |f| counts_staged(f)),
        count_where(entries, |f| counts_untracked(f)),
        lang,
    )
}

/// The summary of the working tree (see `entries_summary`).
pub fn status_summary(entries: &Vec<StatusEntry>, lang: Language) -> (res: Segment)
    ensures
        res@ == entries_summary(entries@, lang),
{
    let (modified, staged, untracked) = count_status(entries);
    if modified == 0 && staged == 0 && untracked == 0 {
        return text_seg(text(lang, "✓ propre", "✓ clean"), SegmentStyle::fg(ThemeColor::Success));
    }
    let ghost parts = summary_parts(modified as nat, staged as nat, untracked as nat, lang);
    let mut s = String::new();
    push_str(&mut s, "✗ ");
    let mut count: usize = 0;
    let ghost done: Seq<Seq<char>> = Seq::empty();
    if staged > 0 {
        let mut p = String::new();
        push_decimal(&mut p, staged as u64);
        push_str(&mut p, text(lang, " indexes", " staged"));
        push_str(&mut s, p.as_str());
        proof { done = done.push(p@); }
        count = count + 1;
    }
    assert(s@ == "✗ "@ + joined(done, ", "@));
    if modified > 0 {
        let mut p = String::new();
        push_decimal(&mut p, modified as u64);
        push_str(&mut p, text(lang, " modifies", " modified"));
        if count > 0 {
            push_str(&mut s, ", ");
        }
        push_str(&mut s, p.as_str());
        proof {
            let next = done.push(p@);
            assert(next.drop_last() =~= done);
            done = next;
        }
        count = count + 1;
    }
    assert(s@ =~= "✗ "@ + joined(done, ", "@));
    if untracked > 0 {
        let mut p = String::new();
        push_decimal(&mut p, untracked as u64);
        push_str(&mut p, text(lang, " non suivis", " untracked"));
        if count > 0 {
            push_str(&mut s, ", ");
        }
        push_str(&mut s, p.as_str());
        proof {
            let next = done.push(p@);
            assert(next.drop_last() =~= done);
            done = next;
        }
    }
    assert(done =~= parts);
    assert(s@ =~= "✗ "@ + joined(parts, ", "@));
    Segment { text: s, style: SegmentStyle::fg(ThemeColor::Error) }
}

/// The status bar of the graph view: the application's name, the branch
/// ("???" when unknown), the working tree's state, then the merge marker,
/// the filter marker and the flash message when there are any.
pub open spec fn main_status_line(
    branch: Option<&str>,
    entries: Seq<StatusEntry>,
    flash: Option<&str>,
    filter_active: bool,
    is_merging: bool,
    lang: Language,
) -> Seq<SegmentView> {
    seq![
        seg("git_sv  "@, SegmentStyle::fg_spec(ThemeColor::Primary)),
        seg(
            (match branch { Some(b) => b@, None => "???"@ }) + "  "@,
            SegmentStyle::fg_spec(ThemeColor::CommitHash),
        ),
        entries_summary(entries, lang),
    ] + (if is_merging {
        seq![seg("  "@, SegmentStyle::plain_spec()), seg(pick(lang, "⚠ FUSION"@, "⚠ MERGING"@), bold_in(ThemeColor::Error))]
    } else {
        Seq::empty()
    }) + (if filter_active {
        seq![seg("  "@, SegmentStyle::plain_spec()), seg(pick(lang, "[FILTRE]"@, "[FILTERED]"@), bold_in(ThemeColor::Warning))]
    } else {
        Seq::empty()
    }) + (match flash {
        Some(m) => seq![seg("  "@, SegmentStyle::plain_spec()), seg(m@, bold_in(ThemeColor::Secondary))],
        None => Seq::empty(),
    })
}

fn bold_in_style(c: ThemeColor) -> (res: SegmentStyle)
    ensures
        res == bold_in(c),
{
    SegmentStyle { fg: Some(c), bg: None, bold: true, dim: false, italic: false, underline: false }
}

/// The status bar of the graph view (see `main_status_line`).
pub fn main_status_bar(
    branch: Option<&str>,
    entries: &Vec<StatusEntry>,
    flash: Option<&str>,
    filter_active: bool,
    is_merging: bool,
    lang: Language,
) -> (res: Vec<Segment>)
    ensures
        segments_view(res@) == main_status_line(branch, entries@, flash, filter_active, is_merging, lang),
{
    let mut line: Vec<Segment> = Vec::new();
    push_seg(&mut line, text_seg("git_sv  ", SegmentStyle::fg(ThemeColor::Primary)));
    let mut b = String::new();
    match branch {
        Some(name) => push_str(&mut b, name),
        None => push_str(&mut b, "???"),
    }
    push_str(&mut b, "  ");
    push_seg(&mut line, Segment { text: b, style: SegmentStyle::fg(ThemeColor::CommitHash) });
    push_seg(&mut line, status_summary(entries, lang));
    let ghost head = segments_view(line@);
    if is_merging {
        push_seg(&mut line, text_seg("  ", SegmentStyle::plain()));
        push_seg(&mut line, text_seg(text(lang, "⚠ FUSION", "⚠ MERGING"), bold_in_style(ThemeColor::Error)));
    }
    let ghost with_merge = segments_view(line@);
    if filter_active {
        push_seg(&mut line, text_seg("  ", SegmentStyle::plain()));
        push_seg(&mut line, text_seg(text(lang, "[FILTRE]", "[FILTERED]"), bold_in_style(ThemeColor::Warning)));
    }
    let ghost with_filter = segments_view(line@);
    match flash {
        Some(m) => {
            push_seg(&mut line, text_seg("  ", SegmentStyle::plain()));
            push_seg(&mut line, text_seg(m, bold_in_style(ThemeColor::Secondary)));
        },
        None => {},
    }
    assert(with_merge =~= head + (if is_merging {
        seq![seg("  "@, SegmentStyle::plain_spec()), seg(pick(lang, "⚠ FUSION"@, "⚠ MERGING"@), bold_in(ThemeColor::Error))]
    } else {
        Seq::empty()
    }));
    assert(with_filter =~= with_merge + (if filter_active {
        seq![seg("  "@, SegmentStyle::plain_spec()), seg(pick(lang, "[FILTRE]"@, "[FILTERED]"@), bold_in(ThemeColor::Warning))]
    } else {
        Seq::empty()
    }));
    assert(segments_view(line@) =~= main_status_line(branch, entries@, flash, filter_active, is_merging, lang));
    line
}

/// Width of the repository path in a view's status bar: a third of the
/// bar, at least 12 and at most 40 columns.
pub open spec fn path_width(area_width: u16) -> nat {
    let w = area_width / 3;
    if w < 12 {
        12
    } else if w > 40 {
        40
    } else {
        w as nat
    }
}

/// A style with a background.
pub open spec fn on_bg(fg: ThemeColor, bg: ThemeColor, bold: bool) -> SegmentStyle {
    SegmentStyle { fg: Some(fg), bg: Some(bg), bold, dim: false, italic: false, underline: false }
}

/// The status bar of the other views, on the status bar background unless
/// another is given: the application's name, the view, the repository path
/// cut from its start to `path_width`, the branch ("???" when unknown), and
/// the flash message when there is one.
pub open spec fn view_status_line(
    view_title: Seq<char>,
    branch: Option<&str>,
    repo_path: Seq<char>,
    flash: Option<&str>,
    bg: Option<ThemeColor>,
    area_width: u16,
) -> Seq<SegmentView> {
    let b = match bg { Some(c) => c, None => ThemeColor::StatusBarBg };
    seq![
        seg(" git_sv "@, on_bg(ThemeColor::Primary, b, true)),
        seg("· "@, on_bg(ThemeColor::TextSecondary, b, false)),
        seg(view_title + " "@, on_bg(ThemeColor::StatusBarFg, b, true)),
        seg("· "@, on_bg(ThemeColor::TextSecondary, b, false)),
        seg(truncated_start(repo_path, path_width(area_width), true), on_bg(ThemeColor::TextSecondary, b, false)),
        seg(" · "@, on_bg(ThemeColor::TextSecondary, b, false)),
        seg(match branch { Some(n) => n@, None => "???"@ }, on_bg(ThemeColor::CommitHash, b, false)),
    ] + match flash {
        Some(m) => seq![seg("  "@ + m@, on_bg(ThemeColor::Secondary, b, true))],
        None => Seq::empty(),
    }
}

fn on_bg_style(fg: ThemeColor, bg: ThemeColor, bold: bool) -> (res: SegmentStyle)
    ensures
        res == on_bg(fg, bg, bold),
{
    SegmentStyle { fg: Some(fg), bg: Some(bg), bold, dim: false, italic: false, underline: false }
}

/// The status bar of a view (see `view_status_line`).
pub fn view_status_bar(
    view_title: &str,
    branch: Option<&str>,
    repo_path: &str,
    flash: Option<&str>,
    bg: Option<ThemeColor>,
    area_width: u16,
) -> (res: Vec<Segment>)
    ensures
        segments_view(res@) == view_status_line(view_title@, branch, repo_path@, flash, bg, area_width),
{
    let b = match bg {
        Some(c) => c,
        None => ThemeColor::StatusBarBg,
    };
    let third = area_width / 3;
    let width: u16 = if third < 12 {
        12
    } else if third > 40 {
        40
    } else {
        third
    };
    let mut line: Vec<Segment> = Vec::new();
    push_seg(&mut line, text_seg(" git_sv ", on_bg_style(ThemeColor::Primary, b, true)));
    push_seg(&mut line, text_seg("· ", on_bg_style(ThemeColor::TextSecondary, b, false)));
    let mut title = String::new();
    push_str(&mut title, view_title);
    push_str(&mut title, " ");
    push_seg(&mut line, Segment { text: title, style: on_bg_style(ThemeColor::StatusBarFg, b, true) });
    push_seg(&mut line, text_seg("· ", on_bg_style(ThemeColor::TextSecondary, b, false)));
    push_seg(&mut line, Segment {
        text: truncate_start(repo_path, width as usize, true),
        style: on_bg_style(ThemeColor::TextSecondary, b, false),
    });
    push_seg(&mut line, text_seg(" · ", on_bg_style(ThemeColor::TextSecondary, b, false)));
    let name = match branch {
        Some(n) => n,
        None => "???",
    };
    push_seg(&mut line, text_seg(name, on_bg_style(ThemeColor::CommitHash, b, false)));
    match flash {
        Some(m) => {
            let mut msg = String::new();
            push_str(&mut msg, "  ");
            push_str(&mut msg, m);
            push_seg(&mut line, Segment { text: msg, style: on_bg_style(ThemeColor::Secondary, b, true) });
        },
        None => {},
    }
    assert(segments_view(line@) =~= view_status_line(view_title@, branch, repo_path@, flash, bg, area_width));
    line
}

} // verus!
