use git_sv::hit_test::{
    calculate_commit_index, calculate_file_index, calculate_nav_tab, hit_test, point_in_rect,
    ClickableZone, GraphLayout, HitTestContext, Rect,
};
use git_sv::layout::{build_branches_layout, build_project_tree_layout, build_staging_layout};
use git_sv::i18n::Language;
use git_sv::input::action::ViewMode;

#[test]
fn test_point_in_rect() {
    let rect = Rect::new(10, 10, 20, 10);

    assert!(point_in_rect(10, 10, rect));
    assert!(point_in_rect(15, 15, rect));
    assert!(point_in_rect(29, 19, rect));

    assert!(!point_in_rect(9, 15, rect));
    assert!(!point_in_rect(30, 15, rect));
    assert!(!point_in_rect(15, 9, rect));
    assert!(!point_in_rect(15, 20, rect));
}

#[test]
fn test_calculate_commit_index() {
    assert_eq!(calculate_commit_index(100, 10, 0), Some(10));
    assert_eq!(calculate_commit_index(100, 10, 1), Some(10));
    assert_eq!(calculate_commit_index(100, 10, 2), Some(11));
    assert_eq!(calculate_commit_index(100, 10, 4), Some(12));

    assert_eq!(calculate_commit_index(100, 10, 200), None);
}

#[test]
fn test_calculate_file_index() {
    assert_eq!(calculate_file_index(10, 0), Some(0));
    assert_eq!(calculate_file_index(10, 5), Some(5));
    assert_eq!(calculate_file_index(10, 9), Some(9));
    assert_eq!(calculate_file_index(10, 10), None);
}

#[test]
fn test_calculate_nav_tab() {
    assert_eq!(calculate_nav_tab(1, 0, Language::Fr), Some(ViewMode::Graph));
    assert_eq!(calculate_nav_tab(10, 0, Language::Fr), Some(ViewMode::Graph));
    assert_eq!(calculate_nav_tab(15, 0, Language::Fr), Some(ViewMode::Staging));
    assert_eq!(calculate_nav_tab(30, 0, Language::Fr), Some(ViewMode::Branches));
    assert_eq!(calculate_nav_tab(40, 0, Language::Fr), Some(ViewMode::ProjectTree));
    assert_eq!(calculate_nav_tab(50, 2, Language::Fr), Some(ViewMode::Conflicts));
    assert_eq!(calculate_nav_tab(100, 0, Language::Fr), None);
}

#[test]
fn nav_tab_widths_follow_the_language() {
    // "Graphe" takes 11 columns (1..12), "Graph" 10 (1..11).
    assert_eq!(calculate_nav_tab(11, 0, Language::Fr), Some(ViewMode::Graph));
    assert_eq!(calculate_nav_tab(11, 0, Language::En), Some(ViewMode::Staging));
    assert_eq!(calculate_nav_tab(0, 0, Language::En), None);
    assert_eq!(calculate_nav_tab(46, 0, Language::Fr), Some(ViewMode::ProjectTree));
    assert_eq!(calculate_nav_tab(47, 0, Language::Fr), None);
    assert_eq!(calculate_nav_tab(47, 1, Language::Fr), Some(ViewMode::Conflicts));
}

#[test]
fn commit_index_skips_connection_lines() {
    assert_eq!(calculate_commit_index(3, 0, 5), Some(2));
    assert_eq!(calculate_commit_index(3, 0, 6), None);
    assert_eq!(calculate_commit_index(0, 0, 0), None);
}

fn context(view_mode: ViewMode) -> HitTestContext {
    let screen = Rect::new(0, 0, 100, 40);
    HitTestContext {
        merge_picker_active: false,
        reset_picker_active: false,
        confirmation_pending: false,
        filter_popup_open: false,
        view_mode,
        screen,
        graph: GraphLayout {
            status_bar: Rect::new(0, 0, 100, 1),
            nav_bar: Rect::new(0, 1, 100, 2),
            graph: Rect::new(0, 3, 100, 20),
            bottom_left: Rect::new(0, 23, 50, 15),
            bottom_right: Rect::new(50, 23, 50, 15),
            search_bar: None,
            diff_fullscreen: None,
            help_bar: Rect::new(0, 38, 100, 2),
        },
        staging: build_staging_layout(screen),
        branches: build_branches_layout(screen),
        project_tree: build_project_tree_layout(screen, false),
    }
}

#[test]
fn clicks_are_located_in_the_graph_panels() {
    let ctx = context(ViewMode::Graph);
    let hit = hit_test(&ctx, 10, 5).unwrap();
    assert_eq!(hit.zone, ClickableZone::Graph);
    assert_eq!((hit.relative_x, hit.relative_y), (10, 2));
    assert_eq!(hit.rect, ctx.graph.graph);

    let hit = hit_test(&ctx, 60, 30).unwrap();
    assert_eq!(hit.zone, ClickableZone::BottomRight);
    assert_eq!((hit.relative_x, hit.relative_y), (10, 7));

    let hit = hit_test(&ctx, 3, 0).unwrap();
    assert_eq!(hit.zone, ClickableZone::StatusBar);
}

#[test]
fn fullscreen_diff_covers_the_panels() {
    let mut ctx = context(ViewMode::Graph);
    ctx.graph.diff_fullscreen = Some(Rect::new(0, 3, 100, 35));
    let hit = hit_test(&ctx, 10, 5).unwrap();
    assert_eq!(hit.zone, ClickableZone::BottomRight);
    assert_eq!((hit.relative_x, hit.relative_y), (10, 2));
}

#[test]
fn modals_take_every_click_and_empty_screens_none() {
    let mut ctx = context(ViewMode::Staging);
    ctx.confirmation_pending = true;
    let hit = hit_test(&ctx, 42, 17).unwrap();
    assert_eq!(hit.zone, ClickableZone::Modal);
    assert_eq!((hit.relative_x, hit.relative_y), (42, 17));

    let mut empty = context(ViewMode::Graph);
    empty.screen = Rect::new(0, 0, 0, 40);
    assert_eq!(hit_test(&empty, 1, 1), None);
}

#[test]
fn clicks_beyond_every_zone_are_outside() {
    let ctx = context(ViewMode::Graph);
    let hit = hit_test(&ctx, 150, 5).unwrap();
    assert_eq!(hit.zone, ClickableZone::Outside);
    assert_eq!((hit.relative_x, hit.relative_y), (150, 5));
    assert_eq!(hit.rect, ctx.screen);
}

#[test]
fn staging_clicks_find_their_panel() {
    let ctx = context(ViewMode::Staging);
    let panel = ctx.staging.unstaged_panel;
    let hit = hit_test(&ctx, panel.x + 1, panel.y + 1).unwrap();
    assert_eq!(hit.zone, ClickableZone::BottomLeft);
    assert_eq!((hit.relative_x, hit.relative_y), (1, 1));
}
