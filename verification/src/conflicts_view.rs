//! The conflict resolution view: the conflicted files, "ours" and "theirs"
//! side by side, the result being edited, and the status and help bars.

use vstd::prelude::*;
use crate::diff_view::lines_view;
use crate::input::state::{ConflictPanelFocus, ConflictResolutionMode};
use crate::strings::{chars_of, decimal, push_char, push_decimal, push_spaces, push_str, spaces,
    string_from_chars};
use crate::style::{Segment, SegmentStyle, SegmentView, ThemeColor, sat_sub, segments_view};

verus! {

/// How a conflict section was resolved.
#[derive(Debug, Clone, Copy, PartialEq, Eq, Structural)]
pub enum ConflictResolution {
    Ours,
    Theirs,
    Both,
}

/// Kind of conflict of a file.
#[derive(Debug, Clone, Copy, PartialEq, Eq, Structural)]
pub enum ConflictType {
    BothModified,
    BothAdded,
    DeletedByUs,
    DeletedByThem,
}

/// Lines kept from each side when a section is resolved line by line.
#[derive(Debug, Clone)]
pub struct LineLevelResolution {
    pub ours_lines_included: Vec<bool>,
    pub theirs_lines_included: Vec<bool>,
}

/// One conflicting region of a file, with the lines around it.
#[derive(Debug, Clone)]
pub struct ConflictSection {
    pub context_before: Vec<String>,
    pub ours: Vec<String>,
    pub theirs: Vec<String>,
    pub context_after: Vec<String>,
    pub resolution: Option<ConflictResolution>,
    pub line_level_resolution: Option<LineLevelResolution>,
}

/// A conflicted file.
#[derive(Debug, Clone)]
pub struct ConflictFile {
    pub path: String,
    pub conflicts: Vec<ConflictSection>,
    pub is_resolved: bool,
    pub conflict_type: Option<ConflictType>,
}

/// State of the conflict resolution view.
#[derive(Debug, Clone)]
pub struct ConflictsState {
    pub all_files: Vec<ConflictFile>,
    pub file_selected: usize,
    pub section_selected: usize,
    pub line_selected: usize,
    pub panel_focus: ConflictPanelFocus,
    pub resolution_mode: ConflictResolutionMode,
    /// What is being merged, as shown in the status bar.
    pub operation_description: String,
    pub ours_branch_name: String,
    pub theirs_branch_name: String,
    pub ours_scroll: usize,
    pub theirs_scroll: usize,
    pub result_scroll: usize,
    pub is_editing: bool,
    pub edit_buffer: Vec<String>,
    pub edit_cursor_line: usize,
    pub edit_cursor_col: usize,
    pub ours_panel_height: usize,
    pub theirs_panel_height: usize,
    pub result_panel_height: usize,
}

/// What the conflicts view is drawn from.
pub struct ConflictsRenderContext<'a> {
    pub state: &'a ConflictsState,
    pub current_branch: Option<&'a str>,
    pub repo_path: &'a str,
    pub flash_message: Option<&'a str>,
}

/// Which side of the conflict a panel shows.
#[derive(Debug, Clone, Copy, PartialEq, Eq, Structural)]
pub enum Side {
    Ours,
    Theirs,
}

/// A bold style in one color.
pub open spec fn bold_fg(c: ThemeColor) -> SegmentStyle {
    SegmentStyle { fg: Some(c), bg: None, bold: true, dim: false, italic: false, underline: false }
}

/// The style of a panel title: warning color when focused.
pub open spec fn panel_title_style_spec(is_focused: bool) -> SegmentStyle {
    bold_fg(
        if is_focused {
            ThemeColor::Warning
        } else {
            ThemeColor::TextNormal
        },
    )
}

/// The style of a panel title (see `panel_title_style_spec`).
pub fn panel_title_style(is_focused: bool) -> (res: SegmentStyle)
    ensures
        res == panel_title_style_spec(is_focused),
{
    SegmentStyle {
        fg: Some(
            if is_focused {
                ThemeColor::Warning
            } else {
                ThemeColor::TextNormal
            },
        ),
        bg: None,
        bold: true,
        dim: false,
        italic: false, underline: false,
    }
}

/// The border color of a panel: its own color when focused.
pub fn panel_border_color(is_focused: bool, border_color: ThemeColor) -> (res: ThemeColor)
    ensures
        res == if is_focused {
            border_color
        } else {
            ThemeColor::BorderInactive
        },
{
    if is_focused {
        border_color
    } else {
        ThemeColor::BorderInactive
    }
}

/// `n` horizontal box-drawing characters.
pub open spec fn rule(n: nat) -> Seq<char> {
    Seq::new(n, |_i: int| '─')
}

/// The line separating two sections: a rule two columns shorter than the
/// panel.
pub open spec fn separator_line(width: u16) -> Seq<SegmentView> {
    seq![
        SegmentView {
            text: rule(sat_sub(width as int, 2) as nat),
            style: SegmentStyle::fg_spec(ThemeColor::TextSecondary),
        },
    ]
}

/// The title of a section: "#k/n", highlighted when selected.
pub open spec fn section_title_line(idx: nat, total: nat, is_selected: bool) -> Seq<SegmentView> {
    seq![
        SegmentView {
            text: "#"@ + decimal(idx + 1) + "/"@ + decimal(total),
            style: bold_fg(
                if is_selected {
                    ThemeColor::Warning
                } else {
                    ThemeColor::TextSecondary
                },
            ),
        },
    ]
}

/// Context lines, indented by two spaces.
pub open spec fn context_lines(lines: Seq<String>) -> Seq<Seq<SegmentView>> {
    lines.map_values(
        |l: String|
            seq![
                SegmentView {
                    text: "  "@ + l@,
                    style: SegmentStyle::fg_spec(ThemeColor::TextSecondary),
                },
            ],
    )
}

fn single(text: String, style: SegmentStyle) -> (res: Vec<Segment>)
    ensures
        segments_view(res@) == seq![SegmentView { text: text@, style }],
{
    let mut v: Vec<Segment> = Vec::new();
    v.push(Segment { text, style });
    assert(segments_view(v@) =~= seq![SegmentView { text: text@, style }]);
    v
}

fn push_line(lines: &mut Vec<Vec<Segment>>, line: Vec<Segment>)
    ensures
        lines_view(final(lines)@) == lines_view(old(lines)@).push(segments_view(line@)),
{
    lines.push(line);
    assert(lines_view(lines@) =~= lines_view(old(lines)@).push(segments_view(line@)));
}

/// The separator between two sections (see `separator_line`).
pub fn conflict_separator(width: u16) -> (res: Vec<Segment>)
    ensures
        segments_view(res@) == separator_line(width),
{
    let n = width.saturating_sub(2) as usize;
    let mut text = String::new();
    let mut i: usize = 0;
    while i < n
        invariant
            i <= n,
            text@ == rule(i as nat),
        decreases n - i,
    {
        push_char(&mut text, '─');
        i = i + 1;
        assert(text@ =~= rule(i as nat));
    }
    single(text, SegmentStyle::fg(ThemeColor::TextSecondary))
}

/// The title line of a section (see `section_title_line`).
pub fn conflict_section_title(idx: usize, total: usize, is_selected: bool) -> (res: Vec<Segment>)
    requires
        idx < usize::MAX,
    ensures
        segments_view(res@) == section_title_line(idx as nat, total as nat, is_selected),
{
    let mut text = String::new();
    push_str(&mut text, "#");
    push_decimal(&mut text, idx as u64 + 1);
    push_str(&mut text, "/");
    push_decimal(&mut text, total as u64);
    single(
        text,
        SegmentStyle {
            fg: Some(
                if is_selected {
                    ThemeColor::Warning
                } else {
                    ThemeColor::TextSecondary
                },
            ),
            bg: None,
            bold: true,
            dim: false,
            italic: false, underline: false,
        },
    )
}

/// Appends context lines (see `context_lines`).
pub fn push_context_lines(lines: &mut Vec<Vec<Segment>>, context: &Vec<String>)
    ensures
        lines_view(final(lines)@) == lines_view(old(lines)@) + context_lines(context@),
{
    let ghost start = lines_view(lines@);
    let mut i: usize = 0;
    while i < context.len()
        invariant
            i <= context@.len(),
            lines_view(lines@) == start + context_lines(context@.take(i as int)),
        decreases context@.len() - i,
    {
        let mut text = String::new();
        push_str(&mut text, "  ");
        push_str(&mut text, context[i].as_str());
        push_line(lines, single(text, SegmentStyle::fg(ThemeColor::TextSecondary)));
        proof {
            assert(context@.take(i + 1) =~= context@.take(i as int).push(context@[i as int]));
            assert(context_lines(context@.take(i + 1)) =~= context_lines(context@.take(i as int)).push(
                context_lines(context@.take(i + 1))[i as int],
            ));
        }
        i = i + 1;
    }
    assert(context@.take(i as int) =~= context@);
}

/// The style of the cursor cell of the line being edited.
pub open spec fn cursor_style() -> SegmentStyle {
    SegmentStyle {
        fg: Some(ThemeColor::SelectionBg),
        bg: Some(ThemeColor::SelectionFg),
        bold: false,
        dim: false,
        italic: false, underline: false,
    }
}

/// The line being edited, with its number and the cursor shown on the
/// character under it, or after the end of the line.
pub open spec fn edit_line_with_cursor(line: Seq<char>, cursor_col: nat, line_num: Seq<char>) -> Seq<
    SegmentView,
> {
    let head = seq![
        SegmentView { text: line_num, style: SegmentStyle::fg_spec(ThemeColor::TextSecondary) },
        SegmentView { text: " "@, style: SegmentStyle::plain_spec() },
    ];
    if cursor_col >= line.len() {
        head + seq![
            SegmentView { text: line, style: SegmentStyle::fg_spec(ThemeColor::TextNormal) },
            SegmentView { text: " "@, style: cursor_style() },
        ]
    } else {
        let before = if cursor_col > 0 {
            seq![
                SegmentView {
                    text: line.take(cursor_col as int),
                    style: SegmentStyle::fg_spec(ThemeColor::TextNormal),
                },
            ]
        } else {
            Seq::empty()
        };
        let after = if cursor_col + 1 < line.len() {
            seq![
                SegmentView {
                    text: line.skip(cursor_col as int + 1),
                    style: SegmentStyle::fg_spec(ThemeColor::TextNormal),
                },
            ]
        } else {
            Seq::empty()
        };
        head + before + seq![
            SegmentView { text: seq![line[cursor_col as int]], style: cursor_style() },
        ] + after
    }
}

fn push_segment(v: &mut Vec<Segment>, seg: Segment)
    ensures
        segments_view(final(v)@) == segments_view(old(v)@).push(seg@),
{
    v.push(seg);
    assert(segments_view(v@) =~= segments_view(old(v)@).push(seg@));
}

/// The line being edited (see `edit_line_with_cursor`).
pub fn render_edit_line_with_cursor(line: &str, cursor_col: usize, line_num: &str) -> (res: Vec<
    Segment,
>)
    ensures
        segments_view(res@) == edit_line_with_cursor(line@, cursor_col as nat, line_num@),
{
    let mut v: Vec<Segment> = Vec::new();
    push_segment(&mut v, Segment { text: line_num.to_owned(), style: SegmentStyle::fg(ThemeColor::TextSecondary) });
    push_segment(&mut v, Segment { text: " ".to_owned(), style: SegmentStyle::plain() });
    let chars = chars_of(line);
    let cursor = SegmentStyle {
        fg: Some(ThemeColor::SelectionBg),
        bg: Some(ThemeColor::SelectionFg),
        bold: false,
        dim: false,
        italic: false, underline: false,
    };
    if cursor_col >= chars.len() {
        push_segment(&mut v, Segment { text: line.to_owned(), style: SegmentStyle::fg(ThemeColor::TextNormal) });
        push_segment(&mut v, Segment { text: " ".to_owned(), style: cursor });
    } else {
        if cursor_col > 0 {
            let before = string_from_chars(&chars, 0, cursor_col);
            assert(chars@.subrange(0, cursor_col as int) =~= line@.take(cursor_col as int));
            push_segment(&mut v, Segment { text: before, style: SegmentStyle::fg(ThemeColor::TextNormal) });
        }
        let mut at = String::new();
        push_char(&mut at, chars[cursor_col]);
        assert(at@ =~= seq![line@[cursor_col as int]]);
        push_segment(&mut v, Segment { text: at, style: cursor });
        if cursor_col + 1 < chars.len() {
            let after = string_from_chars(&chars, cursor_col + 1, chars.len());
            assert(chars@.subrange(cursor_col + 1, chars@.len() as int) =~= line@.skip(cursor_col + 1));
            push_segment(&mut v, Segment { text: after, style: SegmentStyle::fg(ThemeColor::TextNormal) });
        }
    }
    assert(segments_view(v@) =~= edit_line_with_cursor(line@, cursor_col as nat, line_num@));
    v
}

/// The lines of one side of a section.
pub open spec fn side_lines(section: ConflictSection, side: Side) -> Seq<String> {
    match side {
        Side::Ours => section.ours@,
        Side::Theirs => section.theirs@,
    }
}

/// The color of a side: success for ours, info for theirs.
pub open spec fn side_color(side: Side) -> ThemeColor {
    match side {
        Side::Ours => ThemeColor::Success,
        Side::Theirs => ThemeColor::Info,
    }
}

/// Whether line `j` of a side is kept by a line-by-line resolution: as the
/// resolution says, lines past its end are not kept, and without one every
/// line of ours and none of theirs is kept.
pub open spec fn line_included(section: ConflictSection, side: Side, j: int) -> bool {
    match section.line_level_resolution {
        Some(lr) => {
            let flags = match side {
                Side::Ours => lr.ours_lines_included@,
                Side::Theirs => lr.theirs_lines_included@,
            };
            0 <= j < flags.len() && flags[j]
        },
        None => side == Side::Ours,
    }
}

/// A line of a side in line mode: a check box and the line, highlighted
/// under the cursor.
pub open spec fn line_mode_line(line: Seq<char>, included: bool, is_current: bool, side: Side) -> Seq<
    SegmentView,
> {
    let color = if included {
        side_color(side)
    } else {
        ThemeColor::TextSecondary
    };
    let style = if is_current {
        SegmentStyle {
            fg: Some(color),
            bg: Some(ThemeColor::SelectionBg),
            bold: true,
            dim: false,
            italic: false, underline: false,
        }
    } else {
        SegmentStyle::fg_spec(color)
    };
    seq![
        SegmentView {
            text: (if included {
                "[x]"@
            } else {
                "[ ]"@
            }) + " "@ + line,
            style,
        },
    ]
}

/// Whether a resolution takes this side.
pub open spec fn resolution_takes(r: Option<ConflictResolution>, side: Side) -> bool {
    match r {
        Some(ConflictResolution::Both) => true,
        Some(ConflictResolution::Ours) => side == Side::Ours,
        Some(ConflictResolution::Theirs) => side == Side::Theirs,
        None => false,
    }
}

/// The body of a section on one side: in line mode on the selected section,
/// one check box line per line; otherwise the lines marked "> ", bold when
/// the selected section's resolution takes this side.
pub open spec fn section_body(
    section: ConflictSection,
    side: Side,
    is_selected: bool,
    line_mode: bool,
    line_selected: nat,
    is_focused: bool,
) -> Seq<Seq<SegmentView>> {
    let lines = side_lines(section, side);
    if line_mode && is_selected {
        Seq::new(
            lines.len(),
            |j: int|
                line_mode_line(
                    lines[j]@,
                    line_included(section, side, j),
                    j == line_selected && is_focused,
                    side,
                ),
        )
    } else {
        let style = if is_selected && resolution_takes(section.resolution, side) {
            bold_fg(side_color(side))
        } else {
            SegmentStyle::fg_spec(side_color(side))
        };
        Seq::new(lines.len(), |j: int| seq![SegmentView { text: "> "@ + lines[j]@, style }])
    }
}

/// The lines of section `idx` of `total` on one side: a separator before all
/// but the first, its title outside file mode, and its body between its
/// context lines.
pub open spec fn section_lines(
    state: ConflictsState,
    section: ConflictSection,
    idx: nat,
    total: nat,
    side: Side,
    is_focused: bool,
    width: u16,
) -> Seq<Seq<SegmentView>> {
    let file_mode = state.resolution_mode == ConflictResolutionMode::File;
    let line_mode = state.resolution_mode == ConflictResolutionMode::Line;
    let is_selected = file_mode || idx == state.section_selected;
    let sep = if idx > 0 {
        seq![separator_line(width)]
    } else {
        Seq::empty()
    };
    let title = if !file_mode {
        seq![section_title_line(idx, total, is_selected)]
    } else {
        Seq::empty()
    };
    sep + title + context_lines(section.context_before@) + section_body(
        section,
        side,
        is_selected,
        line_mode,
        state.line_selected as nat,
        is_focused,
    ) + context_lines(section.context_after@)
}

/// The lines of the `k` first sections of a file on one side.
pub open spec fn sections_lines(
    state: ConflictsState,
    file: ConflictFile,
    k: int,
    side: Side,
    is_focused: bool,
    width: u16,
) -> Seq<Seq<SegmentView>>
    decreases k,
{
    if k <= 0 {
        Seq::empty()
    } else {
        sections_lines(state, file, k - 1, side, is_focused, width) + section_lines(
            state,
            file.conflicts@[k - 1],
            (k - 1) as nat,
            file.conflicts@.len(),
            side,
            is_focused,
            width,
        )
    }
}

/// What a panel shows: a message alone, or lines.
pub enum PanelBody {
    Message(String, SegmentStyle),
    Lines(Vec<Vec<Segment>>),
}

/// A side panel: its title, border color, content and scroll.
pub struct SidePanel {
    pub title: String,
    pub title_style: SegmentStyle,
    pub border: ThemeColor,
    pub body: PanelBody,
    pub scroll: usize,
}

/// The title of a side panel: the branch name, with the mode in file and
/// line modes.
pub open spec fn side_title_text(branch: Seq<char>, mode: ConflictResolutionMode) -> Seq<char> {
    match mode {
        ConflictResolutionMode::File => " "@ + branch + " [Fichier entier] "@,
        ConflictResolutionMode::Line => " "@ + branch + " [Mode Ligne] "@,
        ConflictResolutionMode::Block => " "@ + branch + " "@,
    }
}

/// The border color of a side panel: by mode when focused.
pub open spec fn side_border(is_focused: bool, mode: ConflictResolutionMode) -> ThemeColor {
    if is_focused {
        match mode {
            ConflictResolutionMode::File => ThemeColor::Success,
            ConflictResolutionMode::Line => ThemeColor::Info,
            ConflictResolutionMode::Block => ThemeColor::Warning,
        }
    } else {
        ThemeColor::BorderInactive
    }
}

/// The panel focus that shows a side.
pub open spec fn side_focus(side: Side) -> ConflictPanelFocus {
    match side {
        Side::Ours => ConflictPanelFocus::OursPanel,
        Side::Theirs => ConflictPanelFocus::TheirsPanel,
    }
}

/// Whether a panel body is the given message, or the given lines.
pub open spec fn body_is_message(body: PanelBody, text: Seq<char>, style: SegmentStyle) -> bool {
    body matches PanelBody::Message(t, s) && t@ == text && s == style
}

/// Whether a panel body holds the given lines.
pub open spec fn body_is_lines(body: PanelBody, lines: Seq<Seq<SegmentView>>) -> bool {
    body matches PanelBody::Lines(l) && lines_view(l@) == lines
}

fn section_body_lines(
    lines: &mut Vec<Vec<Segment>>,
    section: &ConflictSection,
    side: Side,
    is_selected: bool,
    line_mode: bool,
    line_selected: usize,
    is_focused: bool,
)
    ensures
        lines_view(final(lines)@) == lines_view(old(lines)@) + section_body(
            *section,
            side,
            is_selected,
            line_mode,
            line_selected as nat,
            is_focused,
        ),
{
    let ghost start = lines_view(lines@);
    let ghost expected = section_body(*section, side, is_selected, line_mode, line_selected as nat, is_focused);
    let side_text = match side {
        Side::Ours => &section.ours,
        Side::Theirs => &section.theirs,
    };
    let color = match side {
        Side::Ours => ThemeColor::Success,
        Side::Theirs => ThemeColor::Info,
    };
    let mut j: usize = 0;
    while j < side_text.len()
        invariant
            side_text@ == side_lines(*section, side),
            expected == section_body(*section, side, is_selected, line_mode, line_selected as nat, is_focused),
            color == side_color(side),
            expected.len() == side_text@.len(),
            j <= side_text@.len(),
            lines_view(lines@) == start + expected.take(j as int),
        decreases side_text@.len() - j,
    {
        let mut text = String::new();
        let style = if line_mode && is_selected {
            let included = match &section.line_level_resolution {
                Some(lr) => {
                    let flags = match side {
                        Side::Ours => &lr.ours_lines_included,
                        Side::Theirs => &lr.theirs_lines_included,
                    };
                    j < flags.len() && flags[j]
                },
                None => side == Side::Ours,
            };
            push_str(
                &mut text,
                if included {
                    "[x]"
                } else {
                    "[ ]"
                },
            );
            push_str(&mut text, " ");
            push_str(&mut text, side_text[j].as_str());
            let c = if included {
                color
            } else {
                ThemeColor::TextSecondary
            };
            if j == line_selected && is_focused {
                SegmentStyle {
                    fg: Some(c),
                    bg: Some(ThemeColor::SelectionBg),
                    bold: true,
                    dim: false,
                    italic: false, underline: false,
                }
            } else {
                SegmentStyle::fg(c)
            }
        } else {
            push_str(&mut text, "> ");
            push_str(&mut text, side_text[j].as_str());
            let takes = match section.resolution {
                Some(ConflictResolution::Both) => true,
                Some(ConflictResolution::Ours) => side == Side::Ours,
                Some(ConflictResolution::Theirs) => side == Side::Theirs,
                None => false,
            };
            if is_selected && takes {
                SegmentStyle { fg: Some(color), bg: None, bold: true, dim: false, italic: false, underline: false }
            } else {
                SegmentStyle::fg(color)
            }
        };
        push_line(lines, single(text, style));
        proof {
            assert(expected.take(j + 1) =~= expected.take(j as int).push(expected[j as int]));
        }
        j = j + 1;
    }
    assert(expected.take(j as int) =~= expected);
}

/// The lines of one side of a file's sections (see `sections_lines`).
pub fn side_panel_lines(
    state: &ConflictsState,
    file: &ConflictFile,
    side: Side,
    is_focused: bool,
    width: u16,
) -> (res: Vec<Vec<Segment>>)
    requires
        file.conflicts@.len() < usize::MAX,
    ensures
        lines_view(res@) == sections_lines(
            *state,
            *file,
            file.conflicts@.len() as int,
            side,
            is_focused,
            width,
        ),
{
    let file_mode = state.resolution_mode == ConflictResolutionMode::File;
    let line_mode = state.resolution_mode == ConflictResolutionMode::Line;
    let total = file.conflicts.len();
    let mut lines: Vec<Vec<Segment>> = Vec::new();
    let mut idx: usize = 0;
    while idx < total
        invariant
            total == file.conflicts@.len(),
            total < usize::MAX,
            file_mode == (state.resolution_mode == ConflictResolutionMode::File),
            line_mode == (state.resolution_mode == ConflictResolutionMode::Line),
            idx <= total,
            lines_view(lines@) == sections_lines(*state, *file, idx as int, side, is_focused, width),
        decreases total - idx,
    {
        let section = &file.conflicts[idx];
        let is_selected = file_mode || idx == state.section_selected;
        let ghost before = lines_view(lines@);
        if idx > 0 {
            push_line(&mut lines, conflict_separator(width));
        }
        if !file_mode {
            push_line(&mut lines, conflict_section_title(idx, total, is_selected));
        }
        push_context_lines(&mut lines, &section.context_before);
        section_body_lines(
            &mut lines,
            section,
            side,
            is_selected,
            line_mode,
            state.line_selected,
            is_focused,
        );
        push_context_lines(&mut lines, &section.context_after);
        proof {
            let expected = section_lines(*state, *section, idx as nat, total as nat, side, is_focused, width);
            assert(lines_view(lines@) =~= before + expected);
        }
        idx = idx + 1;
    }
    lines
}

/// The "ours" or "theirs" panel of the view: without a selected file it asks
/// for one, a file without conflicts says so, otherwise its sections.
pub fn side_panel(state: &ConflictsState, side: Side, width: u16) -> (res: SidePanel)
    requires
        forall|i: int| 0 <= i < state.all_files@.len() ==> #[trigger] state.all_files@[i].conflicts@.len() < usize::MAX,
    ensures
        res.title@ == side_title_text(
            match side {
                Side::Ours => state.ours_branch_name@,
                Side::Theirs => state.theirs_branch_name@,
            },
            state.resolution_mode,
        ),
        res.title_style == panel_title_style_spec(state.panel_focus == side_focus(side)),
        res.border == side_border(state.panel_focus == side_focus(side), state.resolution_mode),
        res.scroll == match side {
            Side::Ours => state.ours_scroll,
            Side::Theirs => state.theirs_scroll,
        },
        state.file_selected >= state.all_files@.len() ==> body_is_message(
            res.body,
            "Sélectionnez un fichier"@,
            SegmentStyle::fg_spec(ThemeColor::TextSecondary),
        ),
        state.file_selected < state.all_files@.len() ==> {
            let file = state.all_files@[state.file_selected as int];
            if file.conflicts@.len() == 0 {
                body_is_message(res.body, "Aucun conflit"@, SegmentStyle::fg_spec(ThemeColor::Success))
            } else {
                body_is_lines(
                    res.body,
                    sections_lines(
                        *state,
                        file,
                        file.conflicts@.len() as int,
                        side,
                        state.panel_focus == side_focus(side),
                        width,
                    ),
                )
            }
        },
{
    let focus = match side {
        Side::Ours => ConflictPanelFocus::OursPanel,
        Side::Theirs => ConflictPanelFocus::TheirsPanel,
    };
    let is_focused = state.panel_focus == focus;
    let branch = match side {
        Side::Ours => state.ours_branch_name.as_str(),
        Side::Theirs => state.theirs_branch_name.as_str(),
    };
    let mut title = String::new();
    push_str(&mut title, " ");
    push_str(&mut title, branch);
    match state.resolution_mode {
        ConflictResolutionMode::File => push_str(&mut title, " [Fichier entier] "),
        ConflictResolutionMode::Line => push_str(&mut title, " [Mode Ligne] "),
        ConflictResolutionMode::Block => push_str(&mut title, " "),
    }
    let border = if is_focused {
        match state.resolution_mode {
            ConflictResolutionMode::File => ThemeColor::Success,
            ConflictResolutionMode::Line => ThemeColor::Info,
            ConflictResolutionMode::Block => ThemeColor::Warning,
        }
    } else {
        ThemeColor::BorderInactive
    };
    let scroll = match side {
        Side::Ours => state.ours_scroll,
        Side::Theirs => state.theirs_scroll,
    };
    let body = if state.file_selected >= state.all_files.len() {
        PanelBody::Message("Sélectionnez un fichier".to_owned(), SegmentStyle::fg(ThemeColor::TextSecondary))
    } else {
        let file = &state.all_files[state.file_selected];
        if file.conflicts.len() == 0 {
            PanelBody::Message("Aucun conflit".to_owned(), SegmentStyle::fg(ThemeColor::Success))
        } else {
            PanelBody::Lines(side_panel_lines(state, file, side, is_focused, width))
        }
    };
    assert(title@ =~= side_title_text(branch@, state.resolution_mode));
    SidePanel { title, title_style: panel_title_style(is_focused), border, body, scroll }
}

/// The type marker of a conflicted file.
pub open spec fn type_icon(t: Option<ConflictType>) -> Seq<char> {
    match t {
        Some(ConflictType::DeletedByUs) => "D←"@,
        Some(ConflictType::DeletedByThem) => "D→"@,
        Some(ConflictType::BothAdded) => "A+"@,
        _ => "  "@,
    }
}

/// How a resolved file was resolved, from its first section.
pub open spec fn resolution_label(file: ConflictFile) -> Seq<char> {
    if file.is_resolved && file.conflicts@.len() > 0 {
        match file.conflicts@[0].resolution {
            Some(ConflictResolution::Ours) => " [Ours]"@,
            Some(ConflictResolution::Theirs) => " [Theirs]"@,
            Some(ConflictResolution::Both) => " [Les deux]"@,
            None => Seq::empty(),
        }
    } else {
        Seq::empty()
    }
}

/// The item of a conflicted file in the file list: its state, type, path
/// and resolution, in the success or error color, highlighted when
/// selected.
pub open spec fn file_item(file: ConflictFile, is_selected: bool) -> SegmentView {
    let color = if file.is_resolved {
        ThemeColor::Success
    } else {
        ThemeColor::Error
    };
    SegmentView {
        text: (if file.is_resolved {
            "✓"@
        } else {
            "✗"@
        }) + " "@ + type_icon(file.conflict_type) + file.path@ + resolution_label(file),
        style: if is_selected {
            SegmentStyle {
                fg: Some(color),
                bg: Some(ThemeColor::SelectionBg),
                bold: true,
                dim: false,
                italic: false, underline: false,
            }
        } else {
            SegmentStyle::fg_spec(color)
        },
    }
}

/// The items of the file list, one per conflicted file.
pub fn file_list_items(state: &ConflictsState) -> (res: Vec<Segment>)
    ensures
        segments_view(res@) == Seq::new(
            state.all_files@.len(),
            |i: int| file_item(state.all_files@[i], i == state.file_selected),
        ),
{
    let mut items: Vec<Segment> = Vec::new();
    let mut i: usize = 0;
    while i < state.all_files.len()
        invariant
            i <= state.all_files@.len(),
            segments_view(items@) == Seq::new(
                i as nat,
                |k: int| file_item(state.all_files@[k], k == state.file_selected),
            ),
        decreases state.all_files@.len() - i,
    {
        let file = &state.all_files[i];
        let mut text = String::new();
        push_str(
            &mut text,
            if file.is_resolved {
                "✓"
            } else {
                "✗"
            },
        );
        push_str(&mut text, " ");
        match file.conflict_type {
            Some(ConflictType::DeletedByUs) => push_str(&mut text, "D←"),
            Some(ConflictType::DeletedByThem) => push_str(&mut text, "D→"),
            Some(ConflictType::BothAdded) => push_str(&mut text, "A+"),
            _ => push_str(&mut text, "  "),
        }
        push_str(&mut text, file.path.as_str());
        let ghost before_label = text@;
        if file.is_resolved && file.conflicts.len() > 0 {
            match file.conflicts[0].resolution {
                Some(ConflictResolution::Ours) => push_str(&mut text, " [Ours]"),
                Some(ConflictResolution::Theirs) => push_str(&mut text, " [Theirs]"),
                Some(ConflictResolution::Both) => push_str(&mut text, " [Les deux]"),
                None => {},
            }
        }
        assert(text@ =~= before_label + resolution_label(*file));
        let color = if file.is_resolved {
            ThemeColor::Success
        } else {
            ThemeColor::Error
        };
        let style = if i == state.file_selected {
            SegmentStyle {
                fg: Some(color),
                bg: Some(ThemeColor::SelectionBg),
                bold: true,
                dim: false,
                italic: false, underline: false,
            }
        } else {
            SegmentStyle::fg(color)
        };
        push_segment(&mut items, Segment { text, style });
        proof {
            assert(segments_view(items@) =~= Seq::new(
                (i + 1) as nat,
                |k: int| file_item(state.all_files@[k], k == state.file_selected),
            ));
        }
        i = i + 1;
    }
    items
}

/// The style of the result panel's title: editing, focused, or neither.
pub open spec fn result_title_style(state: ConflictsState) -> SegmentStyle {
    if state.is_editing {
        bold_fg(ThemeColor::Secondary)
    } else if state.panel_focus == ConflictPanelFocus::ResultPanel {
        bold_fg(ThemeColor::Warning)
    } else {
        bold_fg(ThemeColor::TextNormal)
    }
}

/// The line number of an edited line: right aligned on three columns and
/// followed by " │".
pub open spec fn edit_line_number(idx: nat) -> Seq<char> {
    spaces(sat_sub(3, decimal(idx + 1).len() as int) as nat) + decimal(idx + 1) + " │"@
}

/// A line of the edit buffer: the cursor line shows the cursor, the others
/// their number and text.
pub open spec fn edit_buffer_line(state: ConflictsState, idx: int) -> Seq<SegmentView> {
    let content = state.edit_buffer@[idx]@;
    let num = edit_line_number(idx as nat);
    if idx == state.edit_cursor_line {
        edit_line_with_cursor(content, state.edit_cursor_col as nat, num)
    } else {
        seq![
            SegmentView { text: num, style: SegmentStyle::fg_spec(ThemeColor::TextSecondary) },
            SegmentView { text: " "@, style: SegmentStyle::plain_spec() },
            SegmentView { text: content, style: SegmentStyle::fg_spec(ThemeColor::TextNormal) },
        ]
    }
}

/// The lines of the result panel while editing, one per line of the edit
/// buffer.
pub fn edit_buffer_lines(state: &ConflictsState) -> (res: Vec<Vec<Segment>>)
    requires
        state.edit_buffer@.len() < usize::MAX,
    ensures
        lines_view(res@) == Seq::new(state.edit_buffer@.len(), |i: int| edit_buffer_line(*state, i)),
{
    let mut lines: Vec<Vec<Segment>> = Vec::new();
    let mut i: usize = 0;
    while i < state.edit_buffer.len()
        invariant
            state.edit_buffer@.len() < usize::MAX,
            i <= state.edit_buffer@.len(),
            lines_view(lines@) == Seq::new(i as nat, |k: int| edit_buffer_line(*state, k)),
        decreases state.edit_buffer@.len() - i,
    {
        let mut digits = String::new();
        push_decimal(&mut digits, i as u64 + 1);
        let mut num = String::new();
        push_spaces(&mut num, 3usize.saturating_sub(digits.as_str().unicode_len()));
        push_str(&mut num, digits.as_str());
        push_str(&mut num, " │");
        assert(num@ =~= edit_line_number(i as nat));
        let content = state.edit_buffer[i].as_str();
        let line = if i == state.edit_cursor_line {
            render_edit_line_with_cursor(content, state.edit_cursor_col, num.as_str())
        } else {
            let mut v: Vec<Segment> = Vec::new();
            push_segment(&mut v, Segment { text: num, style: SegmentStyle::fg(ThemeColor::TextSecondary) });
            push_segment(&mut v, Segment { text: " ".to_owned(), style: SegmentStyle::plain() });
            push_segment(&mut v, Segment { text: content.to_owned(), style: SegmentStyle::fg(ThemeColor::TextNormal) });
            assert(segments_view(v@) =~= edit_buffer_line(*state, i as int));
            v
        };
        assert(segments_view(line@) == edit_buffer_line(*state, i as int));
        push_line(&mut lines, line);
        proof {
            assert(lines_view(lines@) =~= Seq::new((i + 1) as nat, |k: int| edit_buffer_line(*state, k)));
        }
        i = i + 1;
    }
    lines
}

/// The title of the result panel and its style.
pub fn result_panel_title(state: &ConflictsState) -> (res: (String, SegmentStyle))
    ensures
        res.0@ == if state.is_editing {
            "Résultat [ÉDITION]"@
        } else {
            "Résultat"@
        },
        res.1 == result_title_style(*state),
{
    let title = if state.is_editing {
        "Résultat [ÉDITION]".to_owned()
    } else {
        "Résultat".to_owned()
    };
    let color = if state.is_editing {
        ThemeColor::Secondary
    } else if state.panel_focus == ConflictPanelFocus::ResultPanel {
        ThemeColor::Warning
    } else {
        ThemeColor::TextNormal
    };
    (title, SegmentStyle { fg: Some(color), bg: None, bold: true, dim: false, italic: false, underline: false })
}

/// Where a line of a resolved file comes from.
#[derive(Debug, Clone, Copy, PartialEq, Eq, Structural)]
pub enum LineSource {
    Context,
    Ours,
    Theirs,
    ConflictMarker,
}

/// A line of a file as resolved so far, and where it comes from.
#[derive(Debug, Clone)]
pub struct ResolvedLine {
    pub content: String,
    pub source: LineSource,
}

/// The style of a resolved line: context in normal text, each side on its
/// own background, a remaining conflict marker in bold warning color.
pub open spec fn source_style(source: LineSource) -> SegmentStyle {
    match source {
        LineSource::Context => SegmentStyle { fg: Some(ThemeColor::TextNormal), bg: None, bold: false, dim: false, italic: false, underline: false },
        LineSource::Ours => SegmentStyle { fg: Some(ThemeColor::TextNormal), bg: Some(ThemeColor::OursBg), bold: false, dim: false, italic: false, underline: false },
        LineSource::Theirs => SegmentStyle { fg: Some(ThemeColor::TextNormal), bg: Some(ThemeColor::TheirsBg), bold: false, dim: false, italic: false, underline: false },
        LineSource::ConflictMarker => SegmentStyle { fg: Some(ThemeColor::Warning), bg: None, bold: true, dim: false, italic: false, underline: false },
    }
}

/// The line the result panel shows for a resolved line.
pub open spec fn resolved_line_view(line: ResolvedLine) -> Seq<SegmentView> {
    seq![SegmentView { text: line.content@, style: source_style(line.source) }]
}

/// The result panel's lines for the resolved content of the selected file
/// (when no edit is under way): one line each, styled by its source.
pub fn resolved_lines(resolved: &Vec<ResolvedLine>) -> (res: Vec<Vec<Segment>>)
    ensures
        lines_view(res@) == resolved@.map_values(|l: ResolvedLine| resolved_line_view(l)),
{
    let mut lines: Vec<Vec<Segment>> = Vec::new();
    let mut i: usize = 0;
    while i < resolved.len()
        invariant
            i <= resolved@.len(),
            lines_view(lines@) == resolved@.take(i as int).map_values(|l: ResolvedLine| resolved_line_view(l)),
        decreases resolved@.len() - i,
    {
        let style = match resolved[i].source {
            LineSource::Context => SegmentStyle { fg: Some(ThemeColor::TextNormal), bg: None, bold: false, dim: false, italic: false, underline: false },
            LineSource::Ours => SegmentStyle { fg: Some(ThemeColor::TextNormal), bg: Some(ThemeColor::OursBg), bold: false, dim: false, italic: false, underline: false },
            LineSource::Theirs => SegmentStyle { fg: Some(ThemeColor::TextNormal), bg: Some(ThemeColor::TheirsBg), bold: false, dim: false, italic: false, underline: false },
            LineSource::ConflictMarker => SegmentStyle { fg: Some(ThemeColor::Warning), bg: None, bold: true, dim: false, italic: false, underline: false },
        };
        let mut line: Vec<Segment> = Vec::new();
        line.push(Segment { text: resolved[i].content.clone(), style });
        assert(segments_view(line@) =~= resolved_line_view(resolved@[i as int]));
        let ghost before = lines_view(lines@);
        lines.push(line);
        assert(lines_view(lines@) =~= before.push(segments_view(line@)));
        assert(resolved@.take(i + 1) =~= resolved@.take(i as int).push(resolved@[i as int]));
        i = i + 1;
    }
    assert(resolved@.take(i as int) =~= resolved@);
    lines
}

/// The last component of a path (`Path::file_name`), when it has one.
pub uninterp spec fn path_file_name(path: Seq<char>) -> Option<Seq<char>>;

/// The last component of a path (`Path::new(path).file_name()`), as text;
/// a `&str` path has a UTF-8 last component.
#[verifier::external_body]
fn file_name_of(path: &str) -> (res: Option<String>)
    ensures
        match res {
            Some(n) => path_file_name(path@) == Some(n@),
            None => path_file_name(path@) is None,
        },
{
    match std::path::Path::new(path).file_name() {
        Some(name) => name.to_str().map(|n| n.to_owned()),
        None => None,
    }
}

/// How many files are not resolved yet.
pub open spec fn unresolved_count(files: Seq<ConflictFile>) -> nat
    decreases files.len(),
{
    if files.len() == 0 {
        0
    } else {
        unresolved_count(files.drop_last()) + if files.last().is_resolved {
            0nat
        } else {
            1nat
        }
    }
}

/// The status bar text: repository name, branch, operation, then the flash
/// message or the number of unresolved files.
pub open spec fn status_text(
    state: ConflictsState,
    current_branch: Option<Seq<char>>,
    repo_path: Seq<char>,
    flash_message: Option<Seq<char>>,
) -> Seq<char> {
    let repo = match path_file_name(repo_path) {
        Some(n) => n,
        None => repo_path,
    };
    let branch = match current_branch {
        Some(b) => b,
        None => "HEAD détachée"@,
    };
    let head = repo + " · "@ + branch + " · "@ + state.operation_description@ + " · "@;
    match flash_message {
        Some(m) => head + m,
        None => head + decimal(unresolved_count(state.all_files@)) + " fichier(s) non résolu(s)"@,
    }
}

/// The status bar of the view (see `status_text`), in bold primary color.
pub fn build_status_bar(ctx: &ConflictsRenderContext) -> (res: Segment)
    ensures
        res@.text == status_text(
            *ctx.state,
            match ctx.current_branch {
                Some(b) => Some(b@),
                None => None,
            },
            ctx.repo_path@,
            match ctx.flash_message {
                Some(m) => Some(m@),
                None => None,
            },
        ),
        res@.style == bold_fg(ThemeColor::Primary),
{
    let state = ctx.state;
    let mut text = String::new();
    match file_name_of(ctx.repo_path) {
        Some(name) => push_str(&mut text, name.as_str()),
        None => push_str(&mut text, ctx.repo_path),
    }
    push_str(&mut text, " · ");
    match ctx.current_branch {
        Some(b) => push_str(&mut text, b),
        None => push_str(&mut text, "HEAD détachée"),
    }
    push_str(&mut text, " · ");
    push_str(&mut text, state.operation_description.as_str());
    push_str(&mut text, " · ");
    match ctx.flash_message {
        Some(m) => push_str(&mut text, m),
        None => {
            let mut count: usize = 0;
            let mut i: usize = 0;
            while i < state.all_files.len()
                invariant
                    i <= state.all_files@.len(),
                    count <= i,
                    count == unresolved_count(state.all_files@.take(i as int)),
                decreases state.all_files@.len() - i,
            {
                assert(state.all_files@.take(i + 1).drop_last() =~= state.all_files@.take(i as int));
                if !state.all_files[i].is_resolved {
                    count = count + 1;
                }
                i = i + 1;
            }
            assert(state.all_files@.take(i as int) =~= state.all_files@);
            push_decimal(&mut text, count as u64);
            push_str(&mut text, " fichier(s) non résolu(s)");
        },
    }
    let ghost expected = status_text(
        *ctx.state,
        match ctx.current_branch {
            Some(b) => Some(b@),
            None => None,
        },
        ctx.repo_path@,
        match ctx.flash_message {
            Some(m) => Some(m@),
            None => None,
        },
    );
    assert(text@ =~= expected);
    Segment {
        text,
        style: SegmentStyle {
            fg: Some(ThemeColor::Primary),
            bg: None,
            bold: true,
            dim: false,
            italic: false, underline: false,
        },
    }
}

/// The mode shown at the end of the help bar.
pub open spec fn mode_indicator(mode: ConflictResolutionMode) -> Seq<char> {
    match mode {
        ConflictResolutionMode::File => "Mode:Fichier"@,
        ConflictResolutionMode::Block => "Mode:Bloc"@,
        ConflictResolutionMode::Line => "Mode:Ligne"@,
    }
}

/// The help bar text: editing keys while editing; file list keys when the
/// list has the focus; otherwise the keys of the resolution mode.
pub open spec fn help_text(state: ConflictsState) -> Seq<char> {
    if state.is_editing {
        "Esc:Annuler  Ctrl+S:Sauvegarder  ↑↓←→:Curseur  Enter:Nouvelle ligne  Backspace:Suppr"@
    } else if state.panel_focus == ConflictPanelFocus::FileList {
        "o/←:Ours  t/→:Theirs  Tab:Panneau  ↑↓:Nav  r:Résoudre  V:Finaliser  q:Quitter  A:Avorter | "@
            + mode_indicator(state.resolution_mode)
    } else {
        let action = match state.resolution_mode {
            ConflictResolutionMode::File => "Enter:Choisir  o:Ours  t:Theirs  Tab:Panneau  ↑↓:Nav"@,
            ConflictResolutionMode::Block => "Espace:Choisir  Enter:Valider  b:Les deux  Tab:Panneau  ↑↓:Nav"@,
            ConflictResolutionMode::Line => "Espace:Choisir ligne  Enter:Valider  Tab:Panneau  ↑↓:Nav"@,
        };
        action + "  F/B/L:Mode  i:Éditer  V:Finaliser  q:Quitter  A:Avorter | "@ + mode_indicator(
            state.resolution_mode,
        )
    }
}

/// The help bar of the view (see `help_text`), in the secondary text color.
pub fn build_help_bar(state: &ConflictsState) -> (res: Segment)
    ensures
        res@.text == help_text(*state),
        res@.style == SegmentStyle::fg_spec(ThemeColor::TextSecondary),
{
    let mut text = String::new();
    if state.is_editing {
        push_str(
            &mut text,
            "Esc:Annuler  Ctrl+S:Sauvegarder  ↑↓←→:Curseur  Enter:Nouvelle ligne  Backspace:Suppr",
        );
    } else {
        if state.panel_focus == ConflictPanelFocus::FileList {
            push_str(
                &mut text,
                "o/←:Ours  t/→:Theirs  Tab:Panneau  ↑↓:Nav  r:Résoudre  V:Finaliser  q:Quitter  A:Avorter | ",
            );
        } else {
            match state.resolution_mode {
                ConflictResolutionMode::File => push_str(
                    &mut text,
                    "Enter:Choisir  o:Ours  t:Theirs  Tab:Panneau  ↑↓:Nav",
                ),
                ConflictResolutionMode::Block => push_str(
                    &mut text,
                    "Espace:Choisir  Enter:Valider  b:Les deux  Tab:Panneau  ↑↓:Nav",
                ),
                ConflictResolutionMode::Line => push_str(
                    &mut text,
                    "Espace:Choisir ligne  Enter:Valider  Tab:Panneau  ↑↓:Nav",
                ),
            }
            push_str(&mut text, "  F/B/L:Mode  i:Éditer  V:Finaliser  q:Quitter  A:Avorter | ");
        }
        match state.resolution_mode {
            ConflictResolutionMode::File => push_str(&mut text, "Mode:Fichier"),
            ConflictResolutionMode::Block => push_str(&mut text, "Mode:Bloc"),
            ConflictResolutionMode::Line => push_str(&mut text, "Mode:Ligne"),
        }
    }
    assert(text@ =~= help_text(*state));
    Segment { text, style: SegmentStyle::fg(ThemeColor::TextSecondary) }
}

/// How many files are not yet marked resolved (see `unresolved_count`).
pub fn unresolved_file_count(files: &Vec<ConflictFile>) -> (res: usize)
    ensures
        res == unresolved_count(files@),
{
    let mut n: usize = 0;
    let mut i: usize = 0;
    while i < files.len()
        invariant
            i <= files@.len(),
            n == unresolved_count(files@.take(i as int)),
            n <= i,
        decreases files@.len() - i,
    {
        assert(files@.take(i + 1).drop_last() =~= files@.take(i as int));
        if !files[i].is_resolved {
            n = n + 1;
        }
        i = i + 1;
    }
    assert(files@.take(i as int) =~= files@);
    n
}

} // verus!
