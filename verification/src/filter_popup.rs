//! The commit filter popup: author, dates, path and message fields, the
//! selected one editable with its cursor and selection.

use vstd::prelude::*;
use crate::diff_view::lines_view;
use crate::hit_test::Rect;
use crate::i18n::{Language, pick, text};
use crate::layout::{Constraint, Direction, centered_rect, inner_area, inner_rect, is_split, stacked_areas, within};
use crate::lines::{push_line, push_seg, seg, text_seg};
use crate::staging_view::{paragraph, paragraph_lines};
use crate::strings::{chars_of, push_char, push_str};
use crate::style::{Segment, SegmentStyle, SegmentView, ThemeColor, segments_view};
use crate::text_edit::{in_selection, selection_range, selection_span};

verus! {

/// The fields of the filter.
#[derive(Debug, Clone, Copy, PartialEq, Eq, Structural)]
pub enum FilterField {
    Author,
    DateFrom,
    DateTo,
    Path,
    Message,
}

/// The popup's state: whether it is open, the field selected, the text of
/// each field, and the cursor and selection anchor of the selected one.
#[derive(Debug, Clone)]
pub struct FilterPopupState {
    pub is_open: bool,
    pub selected_field: FilterField,
    pub author_input: String,
    pub date_from_input: String,
    pub date_to_input: String,
    pub path_input: String,
    pub message_input: String,
    pub cursor: usize,
    pub selection_anchor: Option<usize>,
}

impl Default for FilterPopupState {
    fn default() -> (res: Self)
        ensures
            !res.is_open,
            res.selected_field == FilterField::Author,
            res.author_input@.len() == 0,
            res.date_from_input@.len() == 0,
            res.date_to_input@.len() == 0,
            res.path_input@.len() == 0,
            res.message_input@.len() == 0,
            res.cursor == 0,
            res.selection_anchor is None,
    {
        FilterPopupState {
            is_open: false,
            selected_field: FilterField::Author,
            author_input: String::new(),
            date_from_input: String::new(),
            date_to_input: String::new(),
            path_input: String::new(),
            message_input: String::new(),
            cursor: 0,
            selection_anchor: None,
        }
    }
}

/// Title of the popup, marking a filter in force.
pub open spec fn filter_title_text(filter_active: bool, lang: Language) -> Seq<char> {
    if filter_active {
        pick(lang, "Filtres de commits (actifs)"@, "Commit filters (active)"@)
    } else {
        pick(lang, "Filtres de commits"@, "Commit filters"@)
    }
}

/// Title of the popup (see `filter_title_text`).
pub fn filter_popup_title(filter_active: bool, lang: Language) -> (res: &'static str)
    ensures
        res@ == filter_title_text(filter_active, lang),
{
    if filter_active {
        text(lang, "Filtres de commits (actifs)", "Commit filters (active)")
    } else {
        text(lang, "Filtres de commits", "Commit filters")
    }
}

/// Border color of the popup: the warning color while a filter is in
/// force.
pub fn filter_popup_border(filter_active: bool) -> (res: ThemeColor)
    ensures
        res == (if filter_active { ThemeColor::Warning } else { ThemeColor::Primary }),
{
    if filter_active {
        ThemeColor::Warning
    } else {
        ThemeColor::Primary
    }
}

/// The line above the fields.
pub fn filter_description(lang: Language) -> (res: &'static str)
    ensures
        res@ == pick(lang, "Filtrer les commits affiches dans le graphe"@, "Filter commits shown in the graph"@),
{
    text(lang, "Filtrer les commits affiches dans le graphe", "Filter commits shown in the graph")
}

/// The keys, under the fields.
pub fn filter_help(lang: Language) -> (res: &'static str)
    ensures
        res@ == pick(
            lang,
            "⌘/⌥/⇧+←→: editer | ⌘Z:annuler | Ctrl+R:effacer | Entree:appliquer"@,
            "Cmd/Alt/Shift+←→: edit | Cmd+Z:undo | Ctrl+R:clear | Enter:apply"@,
        ),
{
    text(
        lang,
        "⌘/⌥/⇧+←→: editer | ⌘Z:annuler | Ctrl+R:effacer | Entree:appliquer",
        "Cmd/Alt/Shift+←→: edit | Cmd+Z:undo | Ctrl+R:clear | Enter:apply",
    )
}

/// The areas of the popup in the screen: the centered popup (70% by 60%),
/// and inside it, two cells from the sides and one from the top and the
/// bottom, the description, a gap, the five fields of three rows each, a
/// gap of two rows and the keys, stacked top to bottom. The popup lies in
/// the screen; the nine areas are a vertical cut of its inside.
pub fn filter_popup_areas(screen: Rect) -> (res: (Rect, Vec<Rect>))
    ensures
        within(res.0, screen),
        is_split(res.1@, inner_area(res.0, 2, 1), Direction::Vertical, 9),
{
    let popup = centered_rect(70, 60, screen);
    let inner = inner_rect(popup, 2, 1);
    let areas = stacked_areas(inner, vec![
        Constraint::Length(1),
        Constraint::Length(1),
        Constraint::Length(3),
        Constraint::Length(3),
        Constraint::Length(3),
        Constraint::Length(3),
        Constraint::Length(3),
        Constraint::Length(2),
        Constraint::Length(1),
    ]);
    (popup, areas)
}

/// The two rows of a field's area: its label, then its value.
pub fn field_rows(area: Rect) -> (res: Vec<Rect>)
    ensures
        is_split(res@, area, Direction::Vertical, 2),
{
    stacked_areas(area, vec![Constraint::Length(1), Constraint::Length(1)])
}

/// The label of a field.
pub open spec fn field_label_text(f: FilterField, lang: Language) -> Seq<char> {
    match f {
        FilterField::Author => pick(lang, "Auteur"@, "Author"@),
        FilterField::DateFrom => pick(lang, "Date debut (YYYY-MM-DD)"@, "Start date (YYYY-MM-DD)"@),
        FilterField::DateTo => pick(lang, "Date fin (YYYY-MM-DD)"@, "End date (YYYY-MM-DD)"@),
        FilterField::Path => pick(lang, "Chemin"@, "Path"@),
        FilterField::Message => pick(lang, "Message contient"@, "Message contains"@),
    }
}

/// The text of a field.
pub open spec fn field_value_text(s: FilterPopupState, f: FilterField) -> Seq<char> {
    match f {
        FilterField::Author => s.author_input@,
        FilterField::DateFrom => s.date_from_input@,
        FilterField::DateTo => s.date_to_input@,
        FilterField::Path => s.path_input@,
        FilterField::Message => s.message_input@,
    }
}

/// The label line of a field: "Label: ", bold in the warning color when
/// the field is selected.
pub open spec fn label_line(label: Seq<char>, is_selected: bool) -> Seq<SegmentView> {
    seq![seg(
        label + ": "@,
        if is_selected {
            SegmentStyle { fg: Some(ThemeColor::Warning), bg: None, bold: true, dim: false, italic: false, underline: false }
        } else {
            SegmentStyle::fg_spec(ThemeColor::TextSecondary)
        },
    )]
}

/// A color pair.
pub open spec fn colors(fg: ThemeColor, bg: ThemeColor) -> SegmentStyle {
    SegmentStyle { fg: Some(fg), bg: Some(bg), bold: false, dim: false, italic: false, underline: false }
}

/// Style of a field's value: on the selection colors when selected (the
/// secondary color for an empty one), on the background otherwise.
pub open spec fn value_style(value: Seq<char>, is_selected: bool) -> SegmentStyle {
    if is_selected {
        if value.len() == 0 {
            colors(ThemeColor::TextSecondary, ThemeColor::SelectionBg)
        } else {
            colors(ThemeColor::SelectionFg, ThemeColor::SelectionBg)
        }
    } else {
        colors(ThemeColor::TextNormal, ThemeColor::Background)
    }
}

/// The segment of character `i` of the selected field's value: the cursor
/// cell, a selected character, or in the value's style.
pub open spec fn value_char(value: Seq<char>, cursor: usize, anchor: Option<usize>, i: int) -> SegmentView {
    let pos = if cursor < value.len() { cursor as int } else { value.len() as int };
    seg(
        seq![value[i]],
        if i == pos {
            colors(ThemeColor::Background, ThemeColor::Warning)
        } else if in_selection(selection_span(pos as usize, anchor), i) {
            colors(ThemeColor::Background, ThemeColor::Primary)
        } else {
            value_style(value, true)
        },
    )
}

/// The value of a field: when selected, one line with "> ", its characters
/// one by one and a cursor cell at its end when the cursor is there;
/// otherwise "  " and the value (or "(empty)"), line by line.
pub open spec fn value_lines(
    value: Seq<char>,
    is_selected: bool,
    cursor: usize,
    anchor: Option<usize>,
    lang: Language,
) -> Seq<Seq<SegmentView>> {
    if is_selected {
        let pos = if cursor < value.len() { cursor as int } else { value.len() as int };
        seq![
            seq![seg("> "@, value_style(value, true))]
                + Seq::new(value.len(), |i: int| value_char(value, cursor, anchor, i))
                + (if pos == value.len() { seq![seg(" "@, colors(ThemeColor::Background, ThemeColor::Warning))] } else { Seq::empty() })
        ]
    } else {
        paragraph_lines("  "@ + (if value.len() == 0 { pick(lang, " (vide) "@, " (empty) "@) } else { value }))
            .map_values(|l: Seq<char>| seq![seg(l, value_style(value, false))])
    }
}

/// The label line of a field (see `label_line`).
pub fn field_label_line(label: &str, is_selected: bool) -> (res: Vec<Segment>)
    ensures
        segments_view(res@) == label_line(label@, is_selected),
{
    let mut s = String::new();
    push_str(&mut s, label);
    push_str(&mut s, ": ");
    let style = if is_selected {
        SegmentStyle { fg: Some(ThemeColor::Warning), bg: None, bold: true, dim: false, italic: false, underline: false }
    } else {
        SegmentStyle::fg(ThemeColor::TextSecondary)
    };
    let mut line: Vec<Segment> = Vec::new();
    push_seg(&mut line, Segment { text: s, style });
    assert(segments_view(line@) =~= label_line(label@, is_selected));
    line
}

fn colors_of(fg: ThemeColor, bg: ThemeColor) -> (res: SegmentStyle)
    ensures
        res == colors(fg, bg),
{
    SegmentStyle { fg: Some(fg), bg: Some(bg), bold: false, dim: false, italic: false, underline: false }
}

/// The value lines of a field (see `value_lines`).
pub fn field_value_lines(
    value: &str,
    is_selected: bool,
    cursor: usize,
    selection_anchor: Option<usize>,
    lang: Language,
) -> (res: Vec<Vec<Segment>>)
    ensures
        lines_view(res@) == value_lines(value@, is_selected, cursor, selection_anchor, lang),
{
    let chars = chars_of(value);
    let n = chars.len();
    let style = if is_selected {
        if n == 0 {
            colors_of(ThemeColor::TextSecondary, ThemeColor::SelectionBg)
        } else {
            colors_of(ThemeColor::SelectionFg, ThemeColor::SelectionBg)
        }
    } else {
        colors_of(ThemeColor::TextNormal, ThemeColor::Background)
    };
    if !is_selected {
        let mut shown = String::new();
        push_str(&mut shown, "  ");
        if n == 0 {
            push_str(&mut shown, text(lang, " (vide) ", " (empty) "));
        } else {
            push_str(&mut shown, value);
        }
        return paragraph(shown.as_str(), style);
    }
    let pos = if cursor < n { cursor } else { n };
    let selection = selection_range(pos, selection_anchor);
    let mut line: Vec<Segment> = Vec::new();
    push_seg(&mut line, text_seg("> ", style));
    let ghost head = segments_view(line@);
    let ghost v = value@;
    let mut i: usize = 0;
    while i < n
        invariant
            chars@ == v,
            v == value@,
            n == v.len(),
            pos == (if cursor < v.len() { cursor as int } else { v.len() as int }),
            selection == selection_span(pos, selection_anchor),
            style == value_style(v, true),
            i <= n,
            segments_view(line@) == head + Seq::new(i as nat, |j: int| value_char(v, cursor, selection_anchor, j)),
        decreases n - i,
    {
        let char_style = if i == pos {
            colors_of(ThemeColor::Background, ThemeColor::Warning)
        } else {
            let selected = match selection {
                Some(r) => r.0 <= i && i < r.1,
                None => false,
            };
            if selected {
                colors_of(ThemeColor::Background, ThemeColor::Primary)
            } else {
                style
            }
        };
        let mut c = String::new();
        push_char(&mut c, chars[i]);
        push_seg(&mut line, Segment { text: c, style: char_style });
        assert(segments_view(line@) =~= head + Seq::new((i + 1) as nat, |j: int| value_char(v, cursor, selection_anchor, j)));
        i = i + 1;
    }
    let ghost body = segments_view(line@);
    if pos == n {
        push_seg(&mut line, text_seg(" ", colors_of(ThemeColor::Background, ThemeColor::Warning)));
    }
    let mut lines: Vec<Vec<Segment>> = Vec::new();
    assert(segments_view(line@) =~= value_lines(value@, is_selected, cursor, selection_anchor, lang)[0]);
    push_line(&mut lines, line);
    assert(lines_view(lines@) =~= value_lines(value@, is_selected, cursor, selection_anchor, lang));
    lines
}

/// The fields in the order the popup shows them.
pub open spec fn field_order() -> Seq<FilterField> {
    seq![FilterField::Author, FilterField::DateFrom, FilterField::DateTo, FilterField::Path, FilterField::Message]
}

/// The label line and the value lines of each field, in order (see
/// `label_line` and `value_lines`); the selected field gets the popup's
/// cursor and selection.
pub fn filter_fields(state: &FilterPopupState, lang: Language) -> (res: Vec<(Vec<Segment>, Vec<Vec<Segment>>)>)
    ensures
        res@.len() == 5,
        forall|i: int| 0 <= i < 5 ==> {
            let f = #[trigger] field_order()[i];
            &&& segments_view(res@[i].0@) == label_line(field_label_text(f, lang), state.selected_field == f)
            &&& lines_view(res@[i].1@) == value_lines(
                field_value_text(*state, f),
                state.selected_field == f,
                state.cursor,
                state.selection_anchor,
                lang,
            )
        },
{
    let mut out: Vec<(Vec<Segment>, Vec<Vec<Segment>>)> = Vec::new();
    let fields = [FilterField::Author, FilterField::DateFrom, FilterField::DateTo, FilterField::Path, FilterField::Message];
    assert(fields@ =~= field_order());
    let mut i: usize = 0;
    while i < 5
        invariant
            i <= 5,
            fields@ == field_order(),
            out@.len() == i,
            forall|k: int| 0 <= k < i ==> {
                let f = #[trigger] field_order()[k];
                &&& segments_view(out@[k].0@) == label_line(field_label_text(f, lang), state.selected_field == f)
                &&& lines_view(out@[k].1@) == value_lines(
                    field_value_text(*state, f),
                    state.selected_field == f,
                    state.cursor,
                    state.selection_anchor,
                    lang,
                )
            },
        decreases 5 - i,
    {
        let f = fields[i];
        let (label, value) = match f {
            FilterField::Author => (text(lang, "Auteur", "Author"), state.author_input.as_str()),
            FilterField::DateFrom => (text(lang, "Date debut (YYYY-MM-DD)", "Start date (YYYY-MM-DD)"), state.date_from_input.as_str()),
            FilterField::DateTo => (text(lang, "Date fin (YYYY-MM-DD)", "End date (YYYY-MM-DD)"), state.date_to_input.as_str()),
            FilterField::Path => (text(lang, "Chemin", "Path"), state.path_input.as_str()),
            FilterField::Message => (text(lang, "Message contient", "Message contains"), state.message_input.as_str()),
        };
        let is_selected = state.selected_field == f;
        let l = field_label_line(label, is_selected);
        let v = field_value_lines(value, is_selected, state.cursor, state.selection_anchor, lang);
        out.push((l, v));
        i = i + 1;
    }
    out
}

} // verus!
