//! The pull request overlay: state, review, mergeability, checks and size
//! of the GitHub pull request of the current branch.

use vstd::prelude::*;
use crate::diff_view::lines_view;
use crate::lines::{empty_line, plain_line, push_line, push_seg, seg, single, text_seg};
use crate::strings::{decimal, push_decimal, push_spaces, push_str, spaces};
use crate::style::{Segment, SegmentStyle, SegmentView, ThemeColor, segments_view};

verus! {

/// The results of the checks of a pull request.
#[derive(Debug, Clone, Copy, PartialEq, Eq, Structural)]
pub struct CheckSummary {
    pub passed: u32,
    pub failed: u32,
    pub pending: u32,
    pub skipped: u32,
}

/// A pull request, with the labels of its review and merge states as
/// GitHub's answer was read.
#[derive(Debug, Clone)]
pub struct GithubPullRequest {
    pub number: u64,
    pub title: String,
    pub state: String,
    pub is_draft: bool,
    pub review_label: String,
    pub merge_label: String,
    pub url: String,
    pub additions: u64,
    pub deletions: u64,
    pub changed_files: u64,
    pub checks: CheckSummary,
}

/// Title of the overlay: number, state, and whether it is a draft.
pub open spec fn pr_title_text(pr: GithubPullRequest) -> Seq<char> {
    " GitHub PR #"@ + decimal(pr.number as nat) + " · "@ + pr.state@ + (if pr.is_draft { " · brouillon"@ } else { Seq::empty() }) + " "@
}

/// Title of the overlay (see `pr_title_text`).
pub fn pr_title(pr: &GithubPullRequest) -> (res: String)
    ensures
        res@ == pr_title_text(*pr),
{
    let mut s = String::new();
    push_str(&mut s, " GitHub PR #");
    push_decimal(&mut s, pr.number);
    push_str(&mut s, " · ");
    push_str(&mut s, pr.state.as_str());
    if pr.is_draft {
        push_str(&mut s, " · brouillon");
    }
    push_str(&mut s, " ");
    assert(s@ =~= pr_title_text(*pr));
    s
}

/// A label padded with spaces to nine characters.
pub open spec fn padded_label(label: Seq<char>) -> Seq<char> {
    label + spaces(if label.len() < 9 { (9 - label.len()) as nat } else { 0 })
}

/// A "label value" line, the label bold and padded to nine characters.
pub open spec fn detail_row(label: Seq<char>, value: Seq<char>) -> Seq<SegmentView> {
    seq![
        seg(padded_label(label), SegmentStyle { fg: None, bg: None, bold: true, dim: false, italic: false, underline: false }),
        seg(value, SegmentStyle::plain_spec()),
    ]
}

/// A "label value" line (see `detail_row`).
pub fn detail_line(label: &str, value: &str) -> (res: Vec<Segment>)
    ensures
        segments_view(res@) == detail_row(label@, value@),
{
    let n = label.unicode_len();
    let mut l = String::new();
    push_str(&mut l, label);
    push_spaces(&mut l, if n < 9 { 9 - n } else { 0 });
    let mut line: Vec<Segment> = Vec::new();
    push_seg(&mut line, Segment { text: l, style: SegmentStyle { fg: None, bg: None, bold: true, dim: false, italic: false, underline: false } });
    push_seg(&mut line, text_seg(value, SegmentStyle::plain()));
    assert(segments_view(line@) =~= detail_row(label@, value@));
    line
}

/// The number of checks.
pub open spec fn checks_total(c: CheckSummary) -> nat {
    (c.passed + c.failed + c.pending + c.skipped) as nat
}

/// The content of the overlay: title, review, mergeability, checks, size,
/// URL and the keys.
pub open spec fn pr_lines(pr: GithubPullRequest) -> Seq<Seq<SegmentView>> {
    let c = pr.checks;
    seq![
        plain_line(Seq::empty()),
        seq![seg(pr.title@, SegmentStyle { fg: None, bg: None, bold: true, dim: false, italic: false, underline: false })],
        plain_line(Seq::empty()),
        detail_row("Revue"@, pr.review_label@),
        detail_row("Fusion"@, pr.merge_label@),
        detail_row(
            "Checks ("@ + decimal(checks_total(c)) + ")"@,
            decimal(c.passed as nat) + " réussis · "@ + decimal(c.failed as nat) + " échoués · "@ + decimal(c.pending as nat)
                + " en cours · "@ + decimal(c.skipped as nat) + " ignorés"@,
        ),
        detail_row(
            "Diff"@,
            decimal(pr.changed_files as nat) + " fichiers · +"@ + decimal(pr.additions as nat) + " / -"@ + decimal(pr.deletions as nat),
        ),
        plain_line(Seq::empty()),
        seq![seg(pr.url@, SegmentStyle::fg_spec(ThemeColor::Primary))],
        plain_line(Seq::empty()),
        seq![seg("Esc ou O pour fermer"@, SegmentStyle { fg: Some(ThemeColor::TextSecondary), bg: None, bold: false, dim: false, italic: true, underline: false })],
    ]
}

/// The content of the overlay (see `pr_lines`).
pub fn pr_content(pr: &GithubPullRequest) -> (res: Vec<Vec<Segment>>)
    ensures
        lines_view(res@) == pr_lines(*pr),
{
    let c = pr.checks;
    let mut lines: Vec<Vec<Segment>> = Vec::new();
    push_line(&mut lines, empty_line());
    push_line(&mut lines, single(pr.title.as_str(), SegmentStyle { fg: None, bg: None, bold: true, dim: false, italic: false, underline: false }));
    push_line(&mut lines, empty_line());
    push_line(&mut lines, detail_line("Revue", pr.review_label.as_str()));
    push_line(&mut lines, detail_line("Fusion", pr.merge_label.as_str()));
    let mut label = String::new();
    push_str(&mut label, "Checks (");
    push_decimal(&mut label, c.passed as u64 + c.failed as u64 + c.pending as u64 + c.skipped as u64);
    push_str(&mut label, ")");
    let mut value = String::new();
    push_decimal(&mut value, c.passed as u64);
    push_str(&mut value, " réussis · ");
    push_decimal(&mut value, c.failed as u64);
    push_str(&mut value, " échoués · ");
    push_decimal(&mut value, c.pending as u64);
    push_str(&mut value, " en cours · ");
    push_decimal(&mut value, c.skipped as u64);
    push_str(&mut value, " ignorés");
    push_line(&mut lines, detail_line(label.as_str(), value.as_str()));
    let mut diff = String::new();
    push_decimal(&mut diff, pr.changed_files);
    push_str(&mut diff, " fichiers · +");
    push_decimal(&mut diff, pr.additions);
    push_str(&mut diff, " / -");
    push_decimal(&mut diff, pr.deletions);
    push_line(&mut lines, detail_line("Diff", diff.as_str()));
    push_line(&mut lines, empty_line());
    push_line(&mut lines, single(pr.url.as_str(), SegmentStyle::fg(ThemeColor::Primary)));
    push_line(&mut lines, empty_line());
    push_line(&mut lines, single(
        "Esc ou O pour fermer",
        SegmentStyle { fg: Some(ThemeColor::TextSecondary), bg: None, bold: false, dim: false, italic: true, underline: false },
    ));
    assert(lines_view(lines@) =~= pr_lines(*pr));
    lines
}

} // verus!
