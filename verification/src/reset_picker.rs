//! The reset picker: choose a soft, mixed or hard reset to a commit.

use vstd::prelude::*;
use crate::diff_view::lines_view;
use crate::i18n::{Language, pick, text};
use crate::lines::{bold_plain, bold_style, empty_line, plain_line, push_line, push_seg, seg, text_seg};
use crate::strings::push_str;
use crate::style::{Segment, SegmentStyle, SegmentView, ThemeColor, segments_view};
use crate::text::{truncate, truncated};

verus! {

/// The kinds of reset.
#[derive(Debug, Clone, Copy, PartialEq, Eq, Structural)]
pub enum ResetMode {
    /// Keep the index and the working tree.
    Soft,
    /// Reset the index, keep the working tree.
    Mixed,
    /// Reset the index and the working tree.
    Hard,
}

/// What the reset picker shows: the target commit and the kind chosen.
#[derive(Debug, Clone)]
pub struct ResetPickerState {
    pub short_hash: String,
    pub commit_message: String,
    pub selected: ResetMode,
}

/// Width and height of the popup.
pub const RESET_POPUP_WIDTH: u16 = 64;
pub const RESET_POPUP_HEIGHT: u16 = 12;

/// Most characters of the commit message shown.
pub const RESET_MESSAGE_MAX: usize = 50;

/// Title of the popup.
pub open spec fn reset_title_text(short_hash: Seq<char>, lang: Language) -> Seq<char> {
    pick(lang, " Reset vers "@ + short_hash + " "@, " Reset to "@ + short_hash + " "@)
}

/// Bold text in a color.
pub open spec fn strong(c: ThemeColor) -> SegmentStyle {
    SegmentStyle { fg: Some(c), bg: None, bold: true, dim: false, italic: false, underline: false }
}

/// The line of one kind of reset: a marker when chosen, its key in bold,
/// its name, and its effect in the kind's color (bold) when chosen, in the
/// secondary color otherwise.
pub open spec fn option_line(
    chosen: bool,
    key: Seq<char>,
    name: Seq<char>,
    effect: Seq<char>,
    color: ThemeColor,
) -> Seq<SegmentView> {
    seq![
        seg(if chosen { "▶ "@ } else { "  "@ }, SegmentStyle::plain_spec()),
        seg(key, bold_plain()),
        seg(name, SegmentStyle::plain_spec()),
        seg(effect, if chosen { strong(color) } else { SegmentStyle::fg_spec(ThemeColor::TextSecondary) }),
    ]
}

/// The lines of the popup.
pub open spec fn reset_lines(state: ResetPickerState, lang: Language) -> Seq<Seq<SegmentView>> {
    seq![
        plain_line(Seq::empty()),
        seq![
            seg("Commit: "@, SegmentStyle::plain_spec()),
            seg(truncated(state.commit_message@, RESET_MESSAGE_MAX as nat, true), bold_plain()),
        ],
        plain_line(Seq::empty()),
        plain_line(pick(lang, "Choisissez le type de reset :"@, "Choose reset type:"@)),
        plain_line(Seq::empty()),
        option_line(
            state.selected == ResetMode::Soft,
            "s"@,
            " - Soft "@,
            pick(lang, "(garde les modifications stagees)"@, "(keeps staged changes)"@),
            ThemeColor::Success,
        ),
        option_line(
            state.selected == ResetMode::Mixed,
            "m"@,
            " - Mixed "@,
            pick(lang, "(retire de l'index mais garde les fichiers)"@, "(unstages changes but keeps files)"@),
            ThemeColor::Warning,
        ),
        option_line(
            state.selected == ResetMode::Hard,
            "h"@,
            " - Hard "@,
            pick(lang, "(perd toutes les modifications)"@, "(loses all changes)"@),
            ThemeColor::Error,
        ),
        plain_line(Seq::empty()),
        seq![
            seg("ENTER"@, strong(ThemeColor::Primary)),
            seg(pick(lang, " - Confirmer  "@, " - Confirm  "@), SegmentStyle::plain_spec()),
            seg("ESC"@, strong(ThemeColor::Warning)),
            seg(pick(lang, " - Annuler"@, " - Cancel"@), SegmentStyle::plain_spec()),
        ],
    ]
}

/// Title of the popup (see `reset_title_text`).
pub fn reset_picker_title(state: &ResetPickerState, lang: Language) -> (res: String)
    ensures
        res@ == reset_title_text(state.short_hash@, lang),
{
    let mut s = String::new();
    push_str(&mut s, text(lang, " Reset vers ", " Reset to "));
    push_str(&mut s, state.short_hash.as_str());
    push_str(&mut s, " ");
    s
}

fn strong_style(c: ThemeColor) -> (res: SegmentStyle)
    ensures
        res == strong(c),
{
    SegmentStyle { fg: Some(c), bg: None, bold: true, dim: false, italic: false, underline: false }
}

fn option_segments(chosen: bool, key: &str, name: &str, effect: &str, color: ThemeColor) -> (res: Vec<Segment>)
    ensures
        segments_view(res@) == option_line(chosen, key@, name@, effect@, color),
{
    let mut line: Vec<Segment> = Vec::new();
    push_seg(&mut line, text_seg(if chosen { "▶ " } else { "  " }, SegmentStyle::plain()));
    push_seg(&mut line, text_seg(key, bold_style()));
    push_seg(&mut line, text_seg(name, SegmentStyle::plain()));
    let style = if chosen { strong_style(color) } else { SegmentStyle::fg(ThemeColor::TextSecondary) };
    push_seg(&mut line, text_seg(effect, style));
    assert(segments_view(line@) =~= option_line(chosen, key@, name@, effect@, color));
    line
}

/// The lines of the popup (see `reset_lines`).
pub fn reset_picker_content(state: &ResetPickerState, lang: Language) -> (res: Vec<Vec<Segment>>)
    ensures
        lines_view(res@) == reset_lines(*state, lang),
{
    let mut lines: Vec<Vec<Segment>> = Vec::new();
    push_line(&mut lines, empty_line());
    let mut commit: Vec<Segment> = Vec::new();
    push_seg(&mut commit, text_seg("Commit: ", SegmentStyle::plain()));
    push_seg(&mut commit, Segment { text: truncate(state.commit_message.as_str(), RESET_MESSAGE_MAX, true), style: bold_style() });
    assert(segments_view(commit@) =~= reset_lines(*state, lang)[1]);
    push_line(&mut lines, commit);
    push_line(&mut lines, empty_line());
    let mut choose: Vec<Segment> = Vec::new();
    push_seg(&mut choose, text_seg(text(lang, "Choisissez le type de reset :", "Choose reset type:"), SegmentStyle::plain()));
    assert(segments_view(choose@) =~= reset_lines(*state, lang)[3]);
    push_line(&mut lines, choose);
    push_line(&mut lines, empty_line());
    push_line(&mut lines, option_segments(
        state.selected == ResetMode::Soft,
        "s",
        " - Soft ",
        text(lang, "(garde les modifications stagees)", "(keeps staged changes)"),
        ThemeColor::Success,
    ));
    push_line(&mut lines, option_segments(
        state.selected == ResetMode::Mixed,
        "m",
        " - Mixed ",
        text(lang, "(retire de l'index mais garde les fichiers)", "(unstages changes but keeps files)"),
        ThemeColor::Warning,
    ));
    push_line(&mut lines, option_segments(
        state.selected == ResetMode::Hard,
        "h",
        " - Hard ",
        text(lang, "(perd toutes les modifications)", "(loses all changes)"),
        ThemeColor::Error,
    ));
    push_line(&mut lines, empty_line());
    let mut legend: Vec<Segment> = Vec::new();
    push_seg(&mut legend, text_seg("ENTER", strong_style(ThemeColor::Primary)));
    push_seg(&mut legend, text_seg(text(lang, " - Confirmer  ", " - Confirm  "), SegmentStyle::plain()));
    push_seg(&mut legend, text_seg("ESC", strong_style(ThemeColor::Warning)));
    push_seg(&mut legend, text_seg(text(lang, " - Annuler", " - Cancel"), SegmentStyle::plain()));
    assert(segments_view(legend@) =~= reset_lines(*state, lang)[9]);
    push_line(&mut lines, legend);
    assert(lines_view(lines@) =~= reset_lines(*state, lang));
    lines
}

} // verus!
