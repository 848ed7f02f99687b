use git_sv::block::{BorderSides, StyledBlock};
use git_sv::hit_test::Rect;
use git_sv::layout::centered_rect;
use git_sv::list::{list_item, list_item_styled, StyledList};
use git_sv::popup::Popup;
use git_sv::style::{Segment, SegmentStyle, ThemeColor};

#[test]
fn styled_block_uses_focus_and_title_styles() {
    let block = StyledBlock::new("Branches").focused(true).build();
    assert_eq!(block.title, "Branches");
    assert_eq!(block.borders, BorderSides::all());
    assert_eq!(block.border_style, SegmentStyle::fg(ThemeColor::Cyan));
    assert_eq!(block.title_style.fg, Some(ThemeColor::White));
    assert!(block.title_style.bold);

    let plain = StyledBlock::new("Files").borders(BorderSides::none()).build();
    assert_eq!(plain.borders, BorderSides::none());
    assert_eq!(plain.border_style, SegmentStyle::fg(ThemeColor::DarkGray));
}

#[test]
fn list_items_split_their_text_into_lines() {
    let item = list_item("first\nsecond");
    assert_eq!(item.lines.len(), 2);
    assert_eq!(item.lines[0][0].text, "first");
    assert_eq!(item.lines[1][0].text, "second");
    assert_eq!(item.style, SegmentStyle::plain());

    let empty = list_item("");
    assert_eq!(empty.lines.len(), 1);
    assert_eq!(empty.lines[0][0].text, "");

    let styled = list_item_styled("x", SegmentStyle::fg(ThemeColor::Red));
    assert_eq!(styled.lines.len(), 1);
    assert_eq!(styled.style, SegmentStyle::fg(ThemeColor::Red));
}

#[test]
fn styled_list_block_follows_focus() {
    let list = StyledList::new("Stashes")
        .items(vec![list_item("a"), list_item("b")])
        .selected(Some(1))
        .focused(true);
    let block = list.block();
    assert_eq!(block.title, "Stashes");
    assert_eq!(block.border_style, SegmentStyle::fg(ThemeColor::Cyan));
    assert_eq!(StyledList::new("x").block().border_style, SegmentStyle::fg(ThemeColor::DarkGray));
}

#[test]
fn popup_is_centered_by_its_percentages() {
    let parent = Rect::new(0, 0, 100, 50);
    let popup = Popup::new("Aide");
    assert_eq!(popup.area(parent), centered_rect(60, 40, parent));
    assert_eq!(popup.area(parent), Rect::new(20, 15, 60, 20));
    let resized = popup.size(50, 50).focused(false);
    assert_eq!(resized.area(Rect::new(0, 0, 100, 40)), Rect::new(25, 10, 50, 20));
    let block = resized.block();
    assert_eq!(block.title, "Aide");
    assert_eq!(block.border_style, SegmentStyle::fg(ThemeColor::DarkGray));
    let content = resized.content(vec![vec![Segment { text: "ligne".to_string(), style: SegmentStyle::plain() }]]);
    assert_eq!(content.lines().len(), 1);
}

#[test]
fn popup_size_over_a_hundred_percent_is_invalid() {
    assert!(Popup::new("x").has_valid_size());
    assert!(!Popup::new("x").size(120, 40).has_valid_size());
    assert!(!Popup::new("x").size(40, 101).has_valid_size());
}
