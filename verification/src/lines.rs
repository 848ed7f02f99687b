//! Building blocks for lines of styled segments.

use vstd::prelude::*;
use crate::diff_view::lines_view;
use crate::style::{Segment, SegmentStyle, SegmentView, segments_view};

verus! {

/// Bold text without color.
pub open spec fn bold_plain() -> SegmentStyle {
    SegmentStyle { fg: None, bg: None, bold: true, dim: false, italic: false, underline: false }
}

/// A segment of text in a style.
pub open spec fn seg(text: Seq<char>, style: SegmentStyle) -> SegmentView {
    SegmentView { text, style }
}

/// A line of one plain segment.
pub open spec fn plain_line(text: Seq<char>) -> Seq<SegmentView> {
    seq![seg(text, SegmentStyle::plain_spec())]
}

pub(crate) fn text_seg(text: &str, style: SegmentStyle) -> (res: Segment)
    ensures
        res@ == seg(text@, style),
{
    Segment { text: text.to_owned(), style }
}

pub(crate) fn push_seg(v: &mut Vec<Segment>, s: Segment)
    ensures
        segments_view(final(v)@) == segments_view(old(v)@).push(s@),
{
    v.push(s);
    assert(segments_view(v@) =~= segments_view(old(v)@).push(s@));
}

pub(crate) fn push_line(lines: &mut Vec<Vec<Segment>>, line: Vec<Segment>)
    ensures
        lines_view(final(lines)@) == lines_view(old(lines)@).push(segments_view(line@)),
{
    lines.push(line);
    assert(lines_view(lines@) =~= lines_view(old(lines)@).push(segments_view(line@)));
}

pub(crate) fn bold_style() -> (res: SegmentStyle)
    ensures
        res == bold_plain(),
{
    SegmentStyle { fg: None, bg: None, bold: true, dim: false, italic: false, underline: false }
}

pub(crate) fn single(text: &str, style: SegmentStyle) -> (res: Vec<Segment>)
    ensures
        segments_view(res@) == seq![seg(text@, style)],
{
    let mut v: Vec<Segment> = Vec::new();
    push_seg(&mut v, text_seg(text, style));
    v
}

pub(crate) fn empty_line() -> (res: Vec<Segment>)
    ensures
        segments_view(res@) == plain_line(Seq::empty()),
{
    let mut v: Vec<Segment> = Vec::new();
    push_seg(&mut v, Segment { text: String::new(), style: SegmentStyle::plain() });
    assert(segments_view(v@) =~= plain_line(Seq::empty()));
    v
}

} // verus!
