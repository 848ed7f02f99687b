//! Text fields: the selection of a field, and its text drawn with the
//! selected characters highlighted.

use vstd::prelude::*;
use crate::diff_view::lines_view;
use crate::lines::seg;
use crate::strings::chars_of;
use crate::style::{Segment, SegmentStyle, SegmentView, segments_text, segments_view};

verus! {

/// The characters selected between the cursor and the anchor, as a
/// half-open range of character positions: none without an anchor or when
/// the anchor is at the cursor.
pub open spec fn selection_span(cursor: usize, anchor: Option<usize>) -> Option<(usize, usize)> {
    match anchor {
        Some(a) => if a == cursor {
            None
        } else if a < cursor {
            Some((a, cursor))
        } else {
            Some((cursor, a))
        },
        None => None,
    }
}

/// The selected range of a field (see `selection_span`).
pub fn selection_range(cursor: usize, anchor: Option<usize>) -> (res: Option<(usize, usize)>)
    ensures
        res == selection_span(cursor, anchor),
{
    match anchor {
        Some(a) => if a == cursor {
            None
        } else if a < cursor {
            Some((a, cursor))
        } else {
            Some((cursor, a))
        },
        None => None,
    }
}

/// Whether the character at `i` is selected.
pub open spec fn in_selection(sel: Option<(usize, usize)>, i: int) -> bool {
    match sel {
        Some(r) => r.0 <= i < r.1,
        None => false,
    }
}

/// The lines of a field's text: a new line at each line feed (so a final
/// line feed ends with an empty line), each character a segment of its
/// own, in the selection style when selected, the normal style otherwise.
pub open spec fn selection_lines(
    chars: Seq<char>,
    sel: Option<(usize, usize)>,
    normal: SegmentStyle,
    selected: SegmentStyle,
) -> Seq<Seq<SegmentView>>
    decreases chars.len(),
{
    if chars.len() == 0 {
        seq![Seq::empty()]
    } else {
        let prev = selection_lines(chars.drop_last(), sel, normal, selected);
        let i = chars.len() - 1;
        if chars.last() == '\n' {
            prev.push(Seq::empty())
        } else {
            let style = if in_selection(sel, i) { selected } else { normal };
            prev.update(prev.len() - 1, prev.last().push(seg(seq![chars.last()], style)))
        }
    }
}

/// The lines of a field's text always hold at least one line.
pub proof fn lemma_selection_lines_nonempty(
    chars: Seq<char>,
    sel: Option<(usize, usize)>,
    normal: SegmentStyle,
    selected: SegmentStyle,
)
    ensures
        selection_lines(chars, sel, normal, selected).len() >= 1,
    decreases chars.len(),
{
    if chars.len() > 0 {
        lemma_selection_lines_nonempty(chars.drop_last(), sel, normal, selected);
    }
}

/// The texts of lines, a line feed between two consecutive ones.
pub open spec fn joined_lines(lines: Seq<Seq<SegmentView>>) -> Seq<char>
    decreases lines.len(),
{
    if lines.len() == 0 {
        Seq::empty()
    } else if lines.len() == 1 {
        segments_text(lines[0])
    } else {
        joined_lines(lines.drop_last()) + seq!['\n'] + segments_text(lines.last())
    }
}

/// Highlighting a selection loses and adds no character: the lines, joined
/// by line feeds, give the text back.
pub proof fn law_selection_lines_keep_text(
    chars: Seq<char>,
    sel: Option<(usize, usize)>,
    normal: SegmentStyle,
    selected: SegmentStyle,
)
    ensures
        joined_lines(selection_lines(chars, sel, normal, selected)) == chars,
    decreases chars.len(),
{
    if chars.len() == 0 {
        assert(segments_text(Seq::<SegmentView>::empty()) =~= Seq::<char>::empty());
    } else {
        let prefix = chars.drop_last();
        law_selection_lines_keep_text(prefix, sel, normal, selected);
        lemma_selection_lines_nonempty(prefix, sel, normal, selected);
        let prev = selection_lines(prefix, sel, normal, selected);
        let lines = selection_lines(chars, sel, normal, selected);
        let c = chars.last();
        if c == '\n' {
            assert(lines == prev.push(Seq::empty()));
            assert(lines.drop_last() =~= prev);
            assert(segments_text(Seq::<SegmentView>::empty()) =~= Seq::<char>::empty());
            assert(joined_lines(lines) =~= prefix + seq!['\n']);
            assert(prefix + seq!['\n'] =~= chars);
        } else {
            let style = if in_selection(sel, chars.len() - 1) { selected } else { normal };
            let x = seg(seq![c], style);
            let last = prev.last().push(x);
            assert(lines == prev.update(prev.len() - 1, last));
            assert(last.drop_last() =~= prev.last());
            assert(segments_text(last) =~= segments_text(prev.last()) + seq![c]);
            if prev.len() == 1 {
                assert(joined_lines(lines) =~= segments_text(prev[0]) + seq![c]);
            } else {
                assert(lines.drop_last() =~= prev.drop_last());
                assert(joined_lines(lines) =~= joined_lines(prev.drop_last()) + seq!['\n'] + segments_text(prev.last()) + seq![c]);
            }
            assert(prefix + seq![c] =~= chars);
        }
    }
}

/// A field's text with its selection highlighted (see `selection_lines`).
pub fn text_with_selection(
    text: &str,
    cursor: usize,
    selection_anchor: Option<usize>,
    normal_style: SegmentStyle,
    selection_style: SegmentStyle,
) -> (res: Vec<Vec<Segment>>)
    ensures
        lines_view(res@) == selection_lines(text@, selection_span(cursor, selection_anchor), normal_style, selection_style),
{
    let selection = selection_range(cursor, selection_anchor);
    let ghost sel = selection_span(cursor, selection_anchor);
    let chars = chars_of(text);
    let mut lines: Vec<Vec<Segment>> = Vec::new();
    let first: Vec<Segment> = Vec::new();
    assert(segments_view(first@) =~= Seq::<SegmentView>::empty());
    lines.push(first);
    assert(chars@.take(0).len() == 0);
    assert(lines_view(lines@) =~= selection_lines(chars@.take(0), sel, normal_style, selection_style));
    let mut i: usize = 0;
    while i < chars.len()
        invariant
            i <= chars@.len(),
            chars@ == text@,
            selection == sel,
            lines@.len() >= 1,
            lines_view(lines@) == selection_lines(chars@.take(i as int), sel, normal_style, selection_style),
        decreases chars@.len() - i,
    {
        let c = chars[i];
        let ghost prefix = chars@.take(i + 1);
        assert(prefix.drop_last() =~= chars@.take(i as int));
        assert(prefix.last() == c);
        if c == '\n' {
            let ghost before = lines_view(lines@);
            let fresh: Vec<Segment> = Vec::new();
            assert(segments_view(fresh@) =~= Seq::<SegmentView>::empty());
            lines.push(fresh);
            assert(lines_view(lines@) =~= before.push(Seq::empty()));
        } else {
            let selected = match selection {
                Some(r) => r.0 <= i && i < r.1,
                None => false,
            };
            let style = if selected { selection_style } else { normal_style };
            let mut s = String::new();
            crate::strings::push_char(&mut s, c);
            let ghost before = lines_view(lines@);
            let mut last = lines.pop().unwrap();
            assert(segments_view(last@) == before.last());
            last.push(Segment { text: s, style });
            assert(segments_view(last@) =~= before.last().push(seg(seq![c], style)));
            lines.push(last);
            assert(lines_view(lines@) =~= before.update(before.len() - 1, before.last().push(seg(seq![c], style))));
        }
        i = i + 1;
    }
    assert(chars@.take(i as int) =~= chars@);
    lines
}

} // verus!
