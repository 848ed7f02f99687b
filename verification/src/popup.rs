//! The base of popups and dialogs.

use vstd::prelude::*;
use crate::block::{BlockSpec, BlockSpecView, BorderSides};
use crate::diff_view::lines_view;
use crate::hit_test::Rect;
use crate::layout::{centered_rect, within};
use crate::style::{border_style, styled, Segment, SegmentStyle, SegmentView, ThemeColor};

verus! {

/// The settings of a popup as mathematical values.
pub struct PopupView {
    pub title: Seq<char>,
    pub content: Seq<Seq<SegmentView>>,
    pub width_percent: u16,
    pub height_percent: u16,
    pub is_focused: bool,
}

/// A titled popup of lines, sized in percent of the area it stands in.
pub struct Popup {
    title: String,
    content: Vec<Vec<Segment>>,
    width_percent: u16,
    height_percent: u16,
    is_focused: bool,
}

impl View for Popup {
    type V = PopupView;

    closed spec fn view(&self) -> PopupView {
        PopupView {
            title: self.title@,
            content: lines_view(self.content@),
            width_percent: self.width_percent,
            height_percent: self.height_percent,
            is_focused: self.is_focused,
        }
    }
}

impl Popup {
    /// An empty, focused popup of 60% by 40% with this title.
    pub fn new(title: &str) -> (res: Self)
        ensures
            res@ == (PopupView {
                title: title@,
                content: Seq::empty(),
                width_percent: 60,
                height_percent: 40,
                is_focused: true,
            }),
    {
        let res = Popup {
            title: title.to_owned(),
            content: Vec::new(),
            width_percent: 60,
            height_percent: 40,
            is_focused: true,
        };
        assert(res@.content =~= Seq::<Seq<SegmentView>>::empty());
        res
    }

    /// The same popup with these lines.
    pub fn content(self, content: Vec<Vec<Segment>>) -> (res: Self)
        ensures
            res@ == (PopupView { content: lines_view(content@), ..self@ }),
    {
        Popup { content, ..self }
    }

    /// The same popup with this size, in percent.
    pub fn size(self, width: u16, height: u16) -> (res: Self)
        ensures
            res@ == (PopupView { width_percent: width, height_percent: height, ..self@ }),
    {
        Popup { width_percent: width, height_percent: height, ..self }
    }

    /// The same popup with the given focus.
    pub fn focused(self, is_focused: bool) -> (res: Self)
        ensures
            res@ == (PopupView { is_focused, ..self@ }),
    {
        Popup { is_focused, ..self }
    }

    /// Whether both percentages are at most 100, as `area` needs.
    pub fn has_valid_size(&self) -> (res: bool)
        ensures
            res == (self@.width_percent <= 100 && self@.height_percent <= 100),
    {
        self.width_percent <= 100 && self.height_percent <= 100
    }

    /// Where the popup stands in `parent`: centered, of its percentages (see
    /// `centered_rect`); it lies inside `parent`.
    pub fn area(&self, parent: Rect) -> (res: Rect)
        requires
            self@.width_percent <= 100,
            self@.height_percent <= 100,
        ensures
            within(res, parent),
    {
        centered_rect(self.width_percent, self.height_percent, parent)
    }

    /// The block the popup is drawn in: its title, bordered on every side,
    /// the border cyan when focused and dark gray otherwise.
    pub fn block(&self) -> (res: BlockSpec)
        ensures
            res@ == (BlockSpecView {
                title: self@.title,
                title_style: SegmentStyle::plain_spec(),
                borders: BorderSides { top: true, right: true, bottom: true, left: true },
                border_style: styled(
                    Some(if self@.is_focused { ThemeColor::Cyan } else { ThemeColor::DarkGray }),
                    None,
                    false,
                    false,
                ),
            }),
    {
        BlockSpec {
            title: self.title.clone(),
            title_style: SegmentStyle::plain(),
            borders: BorderSides::all(),
            border_style: border_style(self.is_focused),
        }
    }

    /// The lines of the popup.
    pub fn lines(&self) -> (res: &Vec<Vec<Segment>>)
        ensures
            lines_view(res@) == self@.content,
    {
        &self.content
    }
}

} // verus!
