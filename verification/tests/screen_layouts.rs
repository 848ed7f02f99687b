use git_sv::hit_test::Rect;
use git_sv::layout::{
    build_branches_layout, build_layout, build_project_tree_layout, build_staging_layout,
    centered_rect, centered_rect_fixed,
};

#[test]
fn test_branches_layout_reserves_both_navigation_levels() {
    let layout = build_branches_layout(Rect::new(0, 0, 80, 24));

    assert_eq!(layout.nav_bar.height, 2);
    assert_eq!(layout.tabs.height, 1);
    assert_eq!(layout.help_bar.height, 2);
}

#[test]
fn test_staging_layout_reserves_global_navigation() {
    let layout = build_staging_layout(Rect::new(0, 0, 80, 24));

    assert_eq!(layout.nav_bar.height, 2);
    assert_eq!(layout.help_bar.height, 2);
    assert!(layout.diff_panel.height >= 3);
}

#[test]
fn layout_reserves_navigation_and_help() {
    let layout = build_project_tree_layout(Rect::new(0, 0, 100, 30), false);

    assert_eq!(layout.status_bar.height, 1);
    assert_eq!(layout.nav_bar.height, 2);
    assert_eq!(layout.help_bar.height, 2);
    assert!(layout.tree_panel.width < layout.history_panel.width + layout.changed_files_panel.width);
    assert!(layout.diff_panel.width > layout.changed_files_panel.width);
    assert!(layout.search_bar.is_none());
}

#[test]
fn layout_reserves_search_when_active() {
    let layout = build_project_tree_layout(Rect::new(0, 0, 100, 30), true);

    assert_eq!(layout.search_bar.expect("search bar").height, 3);
}

#[test]
fn test_centered_rect_fixed_is_centered_and_bounded() {
    assert_eq!(centered_rect_fixed(60, 12, Rect::new(0, 0, 80, 24)), Rect::new(10, 6, 60, 12));
    assert_eq!(centered_rect_fixed(60, 12, Rect::new(0, 0, 40, 8)), Rect::new(0, 0, 40, 8));
}

#[test]
fn graph_layout_stacks_bars_around_the_content() {
    let layout = build_layout(Rect::new(0, 0, 100, 40), false);
    assert_eq!(layout.status_bar, Rect::new(0, 0, 100, 1));
    assert_eq!(layout.nav_bar, Rect::new(0, 1, 100, 1));
    assert_eq!(layout.help_bar, Rect::new(0, 39, 100, 1));
    assert!(layout.search_bar.is_none());
    assert_eq!(layout.graph.height + layout.bottom_left.height, 37);
    assert_eq!(layout.bottom_left.width + layout.bottom_right.width, 100);
    assert_eq!(layout.bottom_left.y, layout.bottom_right.y);

    let searching = build_layout(Rect::new(0, 0, 100, 40), true);
    assert_eq!(searching.search_bar.map(|r| r.height), Some(3));
    assert_eq!(searching.graph.height + searching.bottom_left.height, 34);
}

#[test]
fn centered_rect_takes_the_middle_share() {
    let r = centered_rect(50, 50, Rect::new(0, 0, 100, 40));
    assert_eq!(r, Rect::new(25, 10, 50, 20));
}
