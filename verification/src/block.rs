//! A builder for bordered blocks in the common style.

use vstd::prelude::*;
use crate::style::{border_style, styled, title_style, SegmentStyle, ThemeColor};

verus! {

/// Which sides of a block carry a border.
#[derive(Debug, Clone, Copy, PartialEq, Eq, Structural)]
pub struct BorderSides {
    pub top: bool,
    pub right: bool,
    pub bottom: bool,
    pub left: bool,
}

impl BorderSides {
    /// A border on every side.
    pub fn all() -> (res: Self)
        ensures
            res == (BorderSides { top: true, right: true, bottom: true, left: true }),
    {
        BorderSides { top: true, right: true, bottom: true, left: true }
    }

    /// No border at all.
    pub fn none() -> (res: Self)
        ensures
            res == (BorderSides { top: false, right: false, bottom: false, left: false }),
    {
        BorderSides { top: false, right: false, bottom: false, left: false }
    }
}

/// What a block is drawn with: its title and the styles of title and border.
pub struct BlockSpec {
    pub title: String,
    pub title_style: SegmentStyle,
    pub borders: BorderSides,
    pub border_style: SegmentStyle,
}

/// A block as mathematical values.
pub struct BlockSpecView {
    pub title: Seq<char>,
    pub title_style: SegmentStyle,
    pub borders: BorderSides,
    pub border_style: SegmentStyle,
}

impl View for BlockSpec {
    type V = BlockSpecView;

    open spec fn view(&self) -> BlockSpecView {
        BlockSpecView {
            title: self.title@,
            title_style: self.title_style,
            borders: self.borders,
            border_style: self.border_style,
        }
    }
}

/// The settings of a `StyledBlock` as mathematical values.
pub struct StyledBlockView {
    pub title: Seq<char>,
    pub is_focused: bool,
    pub borders: BorderSides,
}

/// Builder of blocks with the common title and border styles.
pub struct StyledBlock {
    title: String,
    is_focused: bool,
    borders: BorderSides,
}

impl View for StyledBlock {
    type V = StyledBlockView;

    closed spec fn view(&self) -> StyledBlockView {
        StyledBlockView { title: self.title@, is_focused: self.is_focused, borders: self.borders }
    }
}

/// The block a builder with these settings gives: a bold white title, and
/// a cyan border when focused, dark gray otherwise.
pub open spec fn block_of(b: StyledBlockView) -> BlockSpecView {
    BlockSpecView {
        title: b.title,
        title_style: styled(Some(ThemeColor::White), None, true, false),
        borders: b.borders,
        border_style: styled(Some(if b.is_focused { ThemeColor::Cyan } else { ThemeColor::DarkGray }), None, false, false),
    }
}

impl StyledBlock {
    /// A block with this title, unfocused, bordered on every side.
    pub fn new(title: &str) -> (res: Self)
        ensures
            res@ == (StyledBlockView {
                title: title@,
                is_focused: false,
                borders: BorderSides { top: true, right: true, bottom: true, left: true },
            }),
    {
        StyledBlock { title: title.to_owned(), is_focused: false, borders: BorderSides::all() }
    }

    /// The same block with the given focus.
    pub fn focused(self, is_focused: bool) -> (res: Self)
        ensures
            res@ == (StyledBlockView { is_focused, ..self@ }),
    {
        StyledBlock { is_focused, ..self }
    }

    /// The same block with the given borders.
    pub fn borders(self, borders: BorderSides) -> (res: Self)
        ensures
            res@ == (StyledBlockView { borders, ..self@ }),
    {
        StyledBlock { borders, ..self }
    }

    /// The block to draw.
    pub fn build(self) -> (res: BlockSpec)
        ensures
            res@ == block_of(self@),
    {
        BlockSpec {
            title: self.title,
            title_style: title_style(),
            borders: self.borders,
            border_style: border_style(self.is_focused),
        }
    }
}

} // verus!
