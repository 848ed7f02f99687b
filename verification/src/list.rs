//! A reusable list in the common style.

use vstd::prelude::*;
use crate::block::{block_of, BlockSpec, BorderSides, StyledBlock, StyledBlockView};
use crate::diff_view::lines_view;
use crate::lines::{empty_line, plain_line, push_line, push_seg};
use crate::strings::{split_lines, text_lines};
use crate::style::{Segment, SegmentStyle, SegmentView};

verus! {

/// One item of a list: its lines and the style laid over the whole item.
pub struct ListItemSpec {
    pub lines: Vec<Vec<Segment>>,
    pub style: SegmentStyle,
}

/// A list item as mathematical values.
pub struct ListItemView {
    pub lines: Seq<Seq<SegmentView>>,
    pub style: SegmentStyle,
}

impl View for ListItemSpec {
    type V = ListItemView;

    open spec fn view(&self) -> ListItemView {
        ListItemView { lines: lines_view(self.lines@), style: self.style }
    }
}

/// The lines of an item made of a text: one plain line per line of the
/// text, and a single empty line for an empty text.
pub open spec fn item_lines(text: Seq<char>) -> Seq<Seq<SegmentView>> {
    if text.len() == 0 {
        seq![plain_line(Seq::empty())]
    } else {
        text_lines(text).map_values(|l: Seq<char>| plain_line(l))
    }
}

/// An item of the lines of `content`, without style.
pub fn list_item(content: &str) -> (res: ListItemSpec)
    ensures
        res@ == (ListItemView { lines: item_lines(content@), style: SegmentStyle::plain_spec() }),
{
    list_item_styled(content, SegmentStyle::plain())
}

/// An item of the lines of `content`, in `style`.
pub fn list_item_styled(content: &str, style: SegmentStyle) -> (res: ListItemSpec)
    ensures
        res@ == (ListItemView { lines: item_lines(content@), style }),
{
    let mut lines: Vec<Vec<Segment>> = Vec::new();
    if content.unicode_len() == 0 {
        push_line(&mut lines, empty_line());
        assert(lines_view(lines@) =~= item_lines(content@));
        return ListItemSpec { lines, style };
    }
    let parts = split_lines(content);
    let ghost target = text_lines(content@).map_values(|l: Seq<char>| plain_line(l));
    let mut i: usize = 0;
    while i < parts.len()
        invariant
            i <= parts@.len(),
            parts@.len() == text_lines(content@).len(),
            forall|k: int| 0 <= k < parts@.len() ==> #[trigger] parts@[k]@ == text_lines(content@)[k],
            target == text_lines(content@).map_values(|l: Seq<char>| plain_line(l)),
            lines_view(lines@) == target.take(i as int),
        decreases parts@.len() - i,
    {
        let mut line: Vec<Segment> = Vec::new();
        push_seg(&mut line, Segment { text: parts[i].clone(), style: SegmentStyle::plain() });
        assert(crate::style::segments_view(line@) =~= plain_line(parts@[i as int]@));
        push_line(&mut lines, line);
        assert(target.take(i + 1) =~= target.take(i as int).push(target[i as int]));
        i = i + 1;
    }
    proof {
        assert(target.take(i as int) =~= target);
        assert(content@.len() != 0);
    }
    ListItemSpec { lines, style }
}

/// The settings of a `StyledList` as mathematical values.
pub struct StyledListView {
    pub items: Seq<ListItemView>,
    pub title: Seq<char>,
    pub is_focused: bool,
    pub selected: Option<usize>,
}

/// A titled list, focused or not, with an optional selected row.
pub struct StyledList {
    items: Vec<ListItemSpec>,
    title: String,
    is_focused: bool,
    selected: Option<usize>,
}

impl View for StyledList {
    type V = StyledListView;

    closed spec fn view(&self) -> StyledListView {
        StyledListView {
            items: self.items@.map_values(|it: ListItemSpec| it@),
            title: self.title@,
            is_focused: self.is_focused,
            selected: self.selected,
        }
    }
}

impl StyledList {
    /// An empty, unfocused list with this title and no selection.
    pub fn new(title: &str) -> (res: Self)
        ensures
            res@ == (StyledListView { items: Seq::empty(), title: title@, is_focused: false, selected: None }),
    {
        let res = StyledList { items: Vec::new(), title: title.to_owned(), is_focused: false, selected: None };
        assert(res@.items =~= Seq::<ListItemView>::empty());
        res
    }

    /// The same list with these items.
    pub fn items(self, items: Vec<ListItemSpec>) -> (res: Self)
        ensures
            res@ == (StyledListView { items: items@.map_values(|it: ListItemSpec| it@), ..self@ }),
    {
        StyledList { items, ..self }
    }

    /// The same list with the given focus.
    pub fn focused(self, is_focused: bool) -> (res: Self)
        ensures
            res@ == (StyledListView { is_focused, ..self@ }),
    {
        StyledList { is_focused, ..self }
    }

    /// The same list with the given selected row.
    pub fn selected(self, index: Option<usize>) -> (res: Self)
        ensures
            res@ == (StyledListView { selected: index, ..self@ }),
    {
        StyledList { selected: index, ..self }
    }

    /// The block the list is drawn in: its title, bordered on every side,
    /// in the common styles for its focus.
    pub fn block(&self) -> (res: BlockSpec)
        ensures
            res@ == block_of(StyledBlockView {
                title: self@.title,
                is_focused: self@.is_focused,
                borders: BorderSides { top: true, right: true, bottom: true, left: true },
            }),
    {
        StyledBlock::new(self.title.as_str()).focused(self.is_focused).build()
    }

    /// What drawing the list takes: its block, its items and its selection.
    pub fn into_parts(self) -> (res: (BlockSpec, Vec<ListItemSpec>, Option<usize>))
        ensures
            res.0@ == block_of(StyledBlockView {
                title: self@.title,
                is_focused: self@.is_focused,
                borders: BorderSides { top: true, right: true, bottom: true, left: true },
            }),
            res.1@.map_values(|it: ListItemSpec| it@) == self@.items,
            res.2 == self@.selected,
    {
        let block = self.block();
        (block, self.items, self.selected)
    }
}

} // verus!
