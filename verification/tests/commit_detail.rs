use git_sv::detail_view::{build_detail_lines, detail_border_color, detail_content, DETAIL_TITLE};
use git_sv::graph::{CommitNode, EdgeType, GraphCell, GraphRow, Oid, RefInfo, RefType};
use git_sv::style::{Segment, ThemeColor};
use git_sv::time::format_absolute_time;
use chrono::{Local, TimeZone};

fn create_test_graph() -> Vec<GraphRow> {
    vec![
        GraphRow {
            node: CommitNode {
                oid: Oid::from_bytes([1; 20]),
                message: "First commit\nWith multiple lines".to_string(),
                author: "Alice".to_string(),
                timestamp: 1609459200,
                parents: vec![],
                refs: vec![RefInfo::new("main", RefType::Head), RefInfo::new("v1.0", RefType::Tag)],
                branch_name: Some("main".to_string()),
                column: 0,
                color_index: 0,
            },
            cells: vec![Some(GraphCell { edge_type: EdgeType::Vertical, color_index: 0 })],
            connection: None,
        },
        GraphRow {
            node: CommitNode {
                oid: Oid::from_bytes([2; 20]),
                message: "Merge commit".to_string(),
                author: "Bob".to_string(),
                timestamp: 1609545600,
                parents: vec![Oid::from_bytes([1; 20]), Oid::from_bytes([3; 20])],
                refs: vec![],
                branch_name: None,
                column: 0,
                color_index: 0,
            },
            cells: vec![Some(GraphCell { edge_type: EdgeType::Vertical, color_index: 0 })],
            connection: None,
        },
    ]
}

fn content_text(lines: &[Vec<Segment>]) -> String {
    lines.iter().map(|l| l.iter().map(|s| s.text.as_str()).collect::<String>()).collect::<Vec<_>>().join("\n")
}

#[test]
fn test_detail_view_uses_theme() {
    let graph = create_test_graph();
    let lines = detail_content(&graph, 0, 60);
    let content = content_text(&lines);
    assert!(DETAIL_TITLE.contains("Détail"));
    assert!(content.contains("First commit"));
    assert_eq!(detail_border_color(true), ThemeColor::BorderActive);
    assert_eq!(detail_border_color(false), ThemeColor::BorderInactive);
    assert_eq!(lines[1][1].style.fg, Some(ThemeColor::CommitHash));
}

#[test]
fn test_detail_view_merge_indicator() {
    let graph = create_test_graph();
    let content = content_text(&detail_content(&graph, 1, 60));
    assert!(content.contains("⊕ Merge") || content.contains("Merge"));
}

#[test]
fn test_detail_view_initial_indicator() {
    let graph = create_test_graph();
    let content = content_text(&detail_content(&graph, 0, 60));
    assert!(content.contains("◆ Initial") || content.contains("Initial"));
}

#[test]
fn test_detail_view_multi_line_message() {
    let graph = create_test_graph();
    let content = content_text(&detail_content(&graph, 0, 60));
    assert!(content.contains("First commit"));
    assert!(content.contains("With multiple lines"));
}

#[test]
fn test_detail_view_no_selection() {
    let graph: Vec<GraphRow> = vec![];
    let content = content_text(&detail_content(&graph, 0, 60));
    assert!(content.contains("Aucun commit"));
}

#[test]
fn detail_lines_list_every_field_in_order() {
    let graph = create_test_graph();
    let lines = build_detail_lines(&graph[0].node, "2021-01-01 00:00:00", 12);
    let texts: Vec<String> = lines.iter().map(|l| l.iter().map(|s| s.text.as_str()).collect()).collect();
    assert_eq!(
        texts,
        vec![
            "◆ Initial".to_string(),
            format!("Commit:  {}", "01".repeat(20)),
            "Auteur:  Alice".to_string(),
            "Date:    2021-01-01 00:00:00".to_string(),
            "Refs:    main, v1.0".to_string(),
            "Branche: main".to_string(),
            "─".repeat(10),
            "First commit".to_string(),
            "With multiple lines".to_string(),
        ]
    );
    assert_eq!(lines[5][1].style.fg, Some(ThemeColor::Success));
}

#[test]
fn detail_lines_of_a_merge_list_short_parent_hashes() {
    let graph = create_test_graph();
    let lines = build_detail_lines(&graph[1].node, "d", 1);
    let texts: Vec<String> = lines.iter().map(|l| l.iter().map(|s| s.text.as_str()).collect()).collect();
    assert_eq!(texts[4], "Parents: 0101010, 0303030");
    assert_eq!(texts[5], "");
    assert_eq!(texts[6], "Merge commit");
    assert_eq!(lines[0][0].style.fg, Some(ThemeColor::Info));
    assert!(lines[0][0].style.bold);
}

#[test]
fn test_format_absolute_time_valid() {
    let timestamp = 1_700_000_000;
    let expected = Local.timestamp_opt(timestamp, 0).single().unwrap().format("%Y-%m-%d %H:%M:%S").to_string();
    assert_eq!(format_absolute_time(timestamp), expected);
}

#[test]
fn test_format_absolute_time_epoch() {
    let timestamp = 0;
    let expected = Local.timestamp_opt(timestamp, 0).single().unwrap().format("%Y-%m-%d %H:%M:%S").to_string();
    assert_eq!(format_absolute_time(timestamp), expected);
}

#[test]
fn absolute_time_keeps_its_layout_out_of_range() {
    let text = format_absolute_time(i64::MAX);
    let chars: Vec<char> = text.chars().collect();
    assert_eq!(chars.len(), 19);
    assert_eq!((chars[4], chars[7], chars[10], chars[13], chars[16]), ('-', '-', ' ', ':', ':'));
}
