//! The search bar of the graph view: the query with its cursor and
//! selection, the kind of search, and the position among the results.

use vstd::prelude::*;
use crate::lines::{push_seg, seg, text_seg};
use crate::strings::{chars_of, decimal, push_char, push_decimal, push_str};
use crate::style::{Segment, SegmentStyle, SegmentView, ThemeColor, segments_view};
use crate::text_edit::{in_selection, selection_range, selection_span};

verus! {

/// What the query is matched against.
#[derive(Debug, Clone, Copy, PartialEq, Eq, Structural)]
pub enum SearchType {
    Message,
    Author,
    Hash,
}

/// The search in progress.
#[derive(Debug, Clone)]
pub struct SearchState {
    pub is_active: bool,
    pub query: String,
    /// Cursor position, in characters.
    pub cursor: usize,
    pub selection_anchor: Option<usize>,
    pub search_type: SearchType,
    /// Indices of the matching commits.
    pub results: Vec<usize>,
    /// Index, among the results, of the one shown.
    pub current_result: usize,
}

/// The label of a kind of search.
pub open spec fn type_label(t: SearchType) -> Seq<char> {
    match t {
        SearchType::Message => "msg"@,
        SearchType::Author => "author"@,
        SearchType::Hash => "hash"@,
    }
}

/// Style of the cursor cell: the background color on the primary color,
/// bold.
pub open spec fn cursor_style() -> SegmentStyle {
    SegmentStyle { fg: Some(ThemeColor::Background), bg: Some(ThemeColor::Primary), bold: true, dim: false, italic: false, underline: false }
}

/// Style of a selected character.
pub open spec fn selected_char_style() -> SegmentStyle {
    SegmentStyle { fg: Some(ThemeColor::SelectionFg), bg: Some(ThemeColor::SelectionBg), bold: false, dim: false, italic: false, underline: false }
}

/// The cursor's position, put back at the end of the query when past it.
pub open spec fn cursor_in(query: Seq<char>, cursor: usize) -> int {
    if cursor < query.len() { cursor as int } else { query.len() as int }
}

/// The segment of the query's character at `i`: the cursor cell, a
/// selected character, or plain.
pub open spec fn query_char(query: Seq<char>, cursor: usize, anchor: Option<usize>, i: int) -> SegmentView {
    let pos = cursor_in(query, cursor);
    seg(
        seq![query[i]],
        if i == pos {
            cursor_style()
        } else if in_selection(selection_span(pos as usize, anchor), i) {
            selected_char_style()
        } else {
            SegmentStyle::plain_spec()
        },
    )
}

/// The search bar's line: a bold "/", the query a character per segment,
/// a cursor cell after it when the cursor is at its end, the kind of
/// search, then the result shown and the number of results, or "0/0" in
/// the error color when a query found nothing.
pub open spec fn search_line(s: SearchState) -> Seq<SegmentView> {
    let q = s.query@;
    seq![seg("/"@, SegmentStyle { fg: Some(ThemeColor::Primary), bg: None, bold: true, dim: false, italic: false, underline: false })]
        + Seq::new(q.len(), |i: int| query_char(q, s.cursor, s.selection_anchor, i))
        + (if cursor_in(q, s.cursor) == q.len() { seq![seg(" "@, cursor_style())] } else { Seq::empty() })
        + seq![
            seg("  "@, SegmentStyle::plain_spec()),
            seg("["@ + type_label(s.search_type) + "]"@, SegmentStyle::fg_spec(ThemeColor::Warning)),
        ]
        + (if s.results@.len() > 0 {
            seq![
                seg("  "@, SegmentStyle::plain_spec()),
                seg(decimal((s.current_result + 1) as nat) + "/"@ + decimal(s.results@.len()), SegmentStyle::fg_spec(ThemeColor::Success)),
            ]
        } else if q.len() > 0 {
            seq![seg("  "@, SegmentStyle::plain_spec()), seg("0/0"@, SegmentStyle::fg_spec(ThemeColor::Error))]
        } else {
            Seq::empty()
        })
}

/// The search bar's line (see `search_line`), nothing when no search is
/// active.
pub fn search_bar_line(s: &SearchState) -> (res: Option<Vec<Segment>>)
    requires
        s.current_result < usize::MAX,
    ensures
        match res {
            Some(line) => s.is_active && segments_view(line@) == search_line(*s),
            None => !s.is_active,
        },
{
    if !s.is_active {
        return None;
    }
    let chars = chars_of(s.query.as_str());
    let n = chars.len();
    let pos = if s.cursor < n { s.cursor } else { n };
    let selection = selection_range(pos, s.selection_anchor);
    let mut line: Vec<Segment> = Vec::new();
    push_seg(&mut line, text_seg("/", SegmentStyle { fg: Some(ThemeColor::Primary), bg: None, bold: true, dim: false, italic: false, underline: false }));
    let ghost head = segments_view(line@);
    let ghost q = s.query@;
    let mut i: usize = 0;
    while i < n
        invariant
            chars@ == q,
            q == s.query@,
            n == q.len(),
            pos == cursor_in(q, s.cursor),
            selection == selection_span(pos, s.selection_anchor),
            i <= n,
            segments_view(line@) == head + Seq::new(i as nat, |j: int| query_char(q, s.cursor, s.selection_anchor, j)),
        decreases n - i,
    {
        let style = if i == pos {
            SegmentStyle { fg: Some(ThemeColor::Background), bg: Some(ThemeColor::Primary), bold: true, dim: false, italic: false, underline: false }
        } else {
            let selected = match selection {
                Some(r) => r.0 <= i && i < r.1,
                None => false,
            };
            if selected {
                SegmentStyle { fg: Some(ThemeColor::SelectionFg), bg: Some(ThemeColor::SelectionBg), bold: false, dim: false, italic: false, underline: false }
            } else {
                SegmentStyle::plain()
            }
        };
        let mut c = String::new();
        push_char(&mut c, chars[i]);
        push_seg(&mut line, Segment { text: c, style });
        assert(segments_view(line@) =~= head + Seq::new((i + 1) as nat, |j: int| query_char(q, s.cursor, s.selection_anchor, j)));
        i = i + 1;
    }
    let ghost with_query = segments_view(line@);
    if pos == n {
        push_seg(&mut line, text_seg(" ", SegmentStyle { fg: Some(ThemeColor::Background), bg: Some(ThemeColor::Primary), bold: true, dim: false, italic: false, underline: false }));
    }
    let ghost with_cursor = segments_view(line@);
    push_seg(&mut line, text_seg("  ", SegmentStyle::plain()));
    let mut label = String::new();
    push_str(&mut label, "[");
    push_str(&mut label, match s.search_type {
        SearchType::Message => "msg",
        SearchType::Author => "author",
        SearchType::Hash => "hash",
    });
    push_str(&mut label, "]");
    push_seg(&mut line, Segment { text: label, style: SegmentStyle::fg(ThemeColor::Warning) });
    let ghost with_label = segments_view(line@);
    if s.results.len() > 0 {
        push_seg(&mut line, text_seg("  ", SegmentStyle::plain()));
        let mut count = String::new();
        push_decimal(&mut count, (s.current_result as u64) + 1);
        push_str(&mut count, "/");
        push_decimal(&mut count, s.results.len() as u64);
        push_seg(&mut line, Segment { text: count, style: SegmentStyle::fg(ThemeColor::Success) });
    } else if n > 0 {
        push_seg(&mut line, text_seg("  ", SegmentStyle::plain()));
        push_seg(&mut line, text_seg("0/0", SegmentStyle::fg(ThemeColor::Error)));
    }
    assert(with_cursor =~= with_query + (if cursor_in(q, s.cursor) == q.len() { seq![seg(" "@, cursor_style())] } else { Seq::empty() }));
    assert(segments_view(line@) =~= search_line(*s));
    Some(line)
}

} // verus!
