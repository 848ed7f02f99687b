use git_sv::commit_line::{build_commit_line, short_hash, truncate_text, first_line};
use git_sv::graph::{
    build_connection_line, find_horizontal_color_bounded, CommitNode, ConnectionRow, EdgeType,
    GraphCell, GraphRow, Oid, RefInfo, RefType,
};
use git_sv::graph_header::{build_empty_state_line, build_title};
use git_sv::graph_items::{build_graph_items, focused_graph_title, graph_scroll_window};
use git_sv::i18n::Language;
use git_sv::style::{Segment, ThemeColor};
use ratatui::text::Span;

fn create_test_graph() -> Vec<GraphRow> {
    vec![
        GraphRow {
            node: CommitNode {
                oid: Oid::from_bytes([1; 20]),
                message: "First commit".to_string(),
                author: "Alice".to_string(),
                timestamp: 1609459200,
                parents: vec![],
                refs: vec![],
                branch_name: None,
                column: 0,
                color_index: 0,
            },
            cells: vec![Some(GraphCell {
                edge_type: EdgeType::Vertical,
                color_index: 0,
            })],
            connection: None,
        },
        GraphRow {
            node: CommitNode {
                oid: Oid::from_bytes([2; 20]),
                message: "Second commit".to_string(),
                author: "Bob".to_string(),
                timestamp: 1609545600,
                parents: vec![Oid::from_bytes([1; 20])],
                refs: vec![],
                branch_name: None,
                column: 0,
                color_index: 0,
            },
            cells: vec![Some(GraphCell {
                edge_type: EdgeType::Vertical,
                color_index: 0,
            })],
            connection: None,
        },
    ]
}

fn line_text(line: &[Segment]) -> String {
    line.iter().map(|s| s.text.as_str()).collect()
}

fn line_width(line: &[Segment]) -> usize {
    line.iter().map(|s| Span::raw(s.text.as_str()).width()).sum()
}

#[test]
fn mod_test_find_horizontal_color_bounded() {
    let connection1 = ConnectionRow {
        cells: vec![
            Some(GraphCell { edge_type: EdgeType::MergeFromRight, color_index: 0 }),
            Some(GraphCell { edge_type: EdgeType::Horizontal, color_index: 0 }),
            None,
            Some(GraphCell { edge_type: EdgeType::Horizontal, color_index: 0 }),
            Some(GraphCell { edge_type: EdgeType::ForkRight, color_index: 0 }),
        ],
    };
    assert_eq!(find_horizontal_color_bounded(2, &connection1), Some(0));

    let connection2 = ConnectionRow {
        cells: vec![
            Some(GraphCell { edge_type: EdgeType::MergeFromRight, color_index: 0 }),
            None,
            Some(GraphCell { edge_type: EdgeType::ForkRight, color_index: 0 }),
        ],
    };
    assert_eq!(find_horizontal_color_bounded(1, &connection2), Some(0));

    let connection3 = ConnectionRow {
        cells: vec![
            Some(GraphCell { edge_type: EdgeType::ForkRight, color_index: 0 }),
            None,
            Some(GraphCell { edge_type: EdgeType::Horizontal, color_index: 1 }),
        ],
    };
    assert_eq!(find_horizontal_color_bounded(1, &connection3), Some(1));
}

#[test]
fn graph_view_test_find_horizontal_color_bounded() {
    let connection1 = ConnectionRow {
        cells: vec![
            Some(GraphCell { edge_type: EdgeType::MergeFromRight, color_index: 0 }),
            Some(GraphCell { edge_type: EdgeType::Horizontal, color_index: 0 }),
            None,
            Some(GraphCell { edge_type: EdgeType::Horizontal, color_index: 0 }),
            Some(GraphCell { edge_type: EdgeType::ForkRight, color_index: 0 }),
        ],
    };
    let color = find_horizontal_color_bounded(2, &connection1);
    assert_eq!(color, Some(0), "Devrait trouver la couleur 0 entre deux horizontales");

    let connection2 = ConnectionRow {
        cells: vec![
            Some(GraphCell { edge_type: EdgeType::MergeFromRight, color_index: 0 }),
            None,
            Some(GraphCell { edge_type: EdgeType::ForkRight, color_index: 0 }),
        ],
    };
    let color2 = find_horizontal_color_bounded(1, &connection2);
    assert_eq!(color2, Some(0), "Devrait trouver la couleur du merge");

    let connection3 = ConnectionRow {
        cells: vec![
            Some(GraphCell { edge_type: EdgeType::ForkRight, color_index: 0 }),
            None,
            Some(GraphCell { edge_type: EdgeType::Horizontal, color_index: 1 }),
        ],
    };
    let color3 = find_horizontal_color_bounded(1, &connection3);
    assert_eq!(
        color3,
        Some(1),
        "Trouve la couleur à droite même si gauche n'est pas horizontal"
    );
}

#[test]
fn horizontal_color_is_none_between_vertical_lanes() {
    let connection = ConnectionRow {
        cells: vec![
            Some(GraphCell { edge_type: EdgeType::Vertical, color_index: 3 }),
            None,
            Some(GraphCell { edge_type: EdgeType::Vertical, color_index: 4 }),
        ],
    };
    assert_eq!(find_horizontal_color_bounded(1, &connection), None);
    let edge = ConnectionRow { cells: vec![None] };
    assert_eq!(find_horizontal_color_bounded(0, &edge), None);
    assert_eq!(find_horizontal_color_bounded(1, &edge), None);
}

#[test]
fn test_graph_title_shows_selection_position() {
    let title = build_title("main", 41, 177, 177, Some(177), false, false, Language::Fr);
    assert!(title.contains("42/177"));
    assert!(title.contains("main"));
}

#[test]
fn graph_title_formats_loading_states() {
    assert_eq!(
        build_title("dev", 0, 0, 10, Some(50), true, true, Language::En),
        " Graph · dev · commit 0/0 · loading… "
    );
    assert_eq!(
        build_title("dev", 500, 20, 20, Some(50), true, false, Language::Fr),
        " Graphe · dev · commit 20/20 · 20/50 charges "
    );
    assert_eq!(
        build_title("dev", 3, 20, 20, None, true, false, Language::En),
        " Graph · dev · commit 4/20 · 20+ loaded "
    );
    assert_eq!(
        build_title("dev", 3, 20, 20, Some(20), false, false, Language::En),
        " Graph · dev · commit 4/20 "
    );
}

#[test]
fn test_build_graph_items_limits_to_visible_window() {
    let graph = create_test_graph();
    let (items, selected_visual_index) = build_graph_items(&graph, 1, 80, 1, 1, Language::Fr);
    assert_eq!(items.len(), 1);
    assert_eq!(selected_visual_index, Some(0));
}

#[test]
fn mod_test_build_graph_items() {
    let graph = create_test_graph();
    let (items, selected_visual_index) =
        build_graph_items(&graph, 0, 80, 0, graph.len(), Language::Fr);
    assert!(!items.is_empty());
    assert!(items.len() >= graph.len());
    assert_eq!(selected_visual_index, Some(0));
}

#[test]
fn graph_view_test_build_graph_items() {
    let graph = create_test_graph();
    let (items, _) = build_graph_items(&graph, 0, 80, 0, graph.len(), Language::Fr);
    assert!(!items.is_empty());
    assert!(items.len() >= graph.len());
}

#[test]
fn graph_items_put_connections_below_their_commit() {
    let mut graph = create_test_graph();
    graph[0].connection = Some(ConnectionRow {
        cells: vec![Some(GraphCell { edge_type: EdgeType::Vertical, color_index: 0 })],
    });
    let (items, selected) = build_graph_items(&graph, 1, 80, 0, 2, Language::En);
    assert_eq!(items.len(), 3);
    assert_eq!(line_text(&items[1]), "│");
    assert_eq!(selected, Some(2));
    let (_, outside) = build_graph_items(&graph, 5, 80, 0, 2, Language::En);
    assert_eq!(outside, None);
}

#[test]
fn mod_test_build_commit_line() {
    let row = &create_test_graph()[0];
    let line = build_commit_line(row, false, 80, 2, Language::Fr);
    assert!(line_text(&line).contains("First commit"));
}

#[test]
fn graph_view_test_build_commit_line() {
    let row = &create_test_graph()[0];
    let line = build_commit_line(row, false, 80, 2, Language::Fr);
    assert!(line_text(&line).contains("First commit"));
}

#[test]
fn mod_test_build_commit_line_selected() {
    let row = &create_test_graph()[0];
    let line = build_commit_line(row, true, 80, 2, Language::Fr);
    assert!(!line.is_empty());
}

#[test]
fn graph_view_test_build_commit_line_selected() {
    let row = &create_test_graph()[0];
    let line = build_commit_line(row, true, 80, 2, Language::Fr);
    assert!(!line.is_empty());
}

#[test]
fn test_head_commit_has_distinct_landmarks() {
    let mut row = create_test_graph()[0].clone();
    row.node.refs = vec![
        RefInfo::new("main", RefType::LocalBranch),
        RefInfo::new("main", RefType::Head),
    ];
    let line = build_commit_line(&row, true, 120, 2, Language::Fr);
    let text = line_text(&line);
    let head_badge = line
        .iter()
        .find(|span| span.text.contains("HEAD:main"))
        .expect("Le badge HEAD doit etre visible");
    assert!(text.contains('◆'));
    assert!(text.contains("▶"));
    assert_eq!(head_badge.style.bg, Some(ThemeColor::Success));
    assert!(!text.contains(" main "));
}

#[test]
fn test_selected_commit_fills_available_width() {
    let row = &create_test_graph()[0];
    let line = build_commit_line(row, true, 80, 2, Language::Fr);
    assert_eq!(line_width(&line), 80);
    assert!(line.iter().all(|span| span.style.bg.is_some()));
}

#[test]
fn test_many_refs_are_collapsed_into_summary() {
    let mut row = create_test_graph()[0].clone();
    row.node.refs = (0..8)
        .map(|index| RefInfo::new(&format!("feature/long-name-{index}"), RefType::LocalBranch))
        .collect();
    let line = build_commit_line(&row, false, 100, 2, Language::Fr);
    assert!(line_text(&line).contains(" +"));
}

#[test]
fn test_unicode_message_truncation_stays_on_character_boundaries() {
    let mut row = create_test_graph()[0].clone();
    row.node.message = "évolution ".repeat(30);
    let line = build_commit_line(&row, false, 70, 2, Language::Fr);
    let text = line_text(&line);
    assert!(text.contains('…'));
    assert!(text.contains("évolution"));
}

#[test]
fn test_build_commit_line_renders_branch_closure_symbol() {
    let row = GraphRow {
        node: CommitNode {
            oid: Oid::from_bytes([3; 20]),
            message: "Branch closes".to_string(),
            author: "Alice".to_string(),
            timestamp: 1609459200,
            parents: vec![Oid::from_bytes([1; 20])],
            refs: vec![],
            branch_name: None,
            column: 0,
            color_index: 0,
        },
        cells: vec![
            None,
            Some(GraphCell { edge_type: EdgeType::MergeFromLeft, color_index: 1 }),
        ],
        connection: None,
    };
    let line = build_commit_line(&row, false, 80, 2, Language::Fr);
    assert!(line_text(&line).contains("╯"));
}

#[test]
fn mod_test_selected_commit_line_all_spans_have_bg() {
    let row = &create_test_graph()[0];
    let line = build_commit_line(row, true, 80, 2, Language::Fr);
    let with_bg: Vec<_> = line
        .iter()
        .filter(|s| s.style.bg == Some(ThemeColor::SelectionBg))
        .collect();
    assert!(with_bg.len() >= 3);
    let message = line
        .iter()
        .find(|s| s.text.contains("First commit"))
        .expect("Devrait trouver le span du message");
    assert_eq!(message.style.bg, Some(ThemeColor::SelectionBg));
    let hash = line
        .iter()
        .find(|s| s.text.len() == 8 && s.text.trim().len() == 7)
        .expect("Devrait trouver le span du hash (7 caractères + espace)");
    assert_eq!(hash.style.bg, Some(ThemeColor::SelectionBg));
}

#[test]
fn graph_view_test_selected_commit_line_all_spans_have_bg() {
    let row = &create_test_graph()[0];
    let line = build_commit_line(row, true, 80, 2, Language::Fr);
    let with_bg: Vec<_> = line
        .iter()
        .filter(|s| s.style.bg == Some(ThemeColor::SelectionBg))
        .collect();
    assert!(with_bg.len() >= 3);
    let message = line.iter().find(|s| s.text.contains("First commit")).unwrap();
    assert_eq!(message.style.bg, Some(ThemeColor::SelectionBg));
    let hash = line
        .iter()
        .find(|s| s.text.len() == 8 && s.text.trim().len() == 7)
        .unwrap();
    assert_eq!(hash.style.bg, Some(ThemeColor::SelectionBg));
}

#[test]
fn mod_test_unselected_commit_line_no_bg() {
    let row = &create_test_graph()[0];
    let line = build_commit_line(row, false, 80, 2, Language::Fr);
    assert!(line.iter().all(|s| s.style.bg.is_none()));
}

#[test]
fn graph_view_test_unselected_commit_line_no_bg() {
    let row = &create_test_graph()[0];
    let line = build_commit_line(row, false, 80, 2, Language::Fr);
    let with_bg: Vec<_> = line.iter().filter(|s| s.style.bg.is_some()).collect();
    assert!(with_bg.is_empty());
}

#[test]
fn mod_test_no_horizontal_leak_past_fork() {
    let connection = ConnectionRow {
        cells: vec![
            Some(GraphCell { edge_type: EdgeType::MergeFromRight, color_index: 0 }),
            Some(GraphCell { edge_type: EdgeType::Horizontal, color_index: 0 }),
            Some(GraphCell { edge_type: EdgeType::ForkRight, color_index: 0 }),
            None,
            Some(GraphCell { edge_type: EdgeType::Vertical, color_index: 1 }),
        ],
    };
    let line = build_connection_line(&connection);
    let all: Vec<&str> = line.iter().map(|s| s.text.as_str()).collect();
    assert_eq!(all[6], "  ");
    let after_fork: String = all.iter().skip(6).copied().collect();
    assert!(!after_fork.contains('─'));
}

#[test]
fn graph_view_test_no_horizontal_leak_past_fork() {
    let connection = ConnectionRow {
        cells: vec![
            Some(GraphCell { edge_type: EdgeType::MergeFromRight, color_index: 0 }),
            Some(GraphCell { edge_type: EdgeType::Horizontal, color_index: 0 }),
            Some(GraphCell { edge_type: EdgeType::ForkRight, color_index: 0 }),
            None,
            Some(GraphCell { edge_type: EdgeType::Vertical, color_index: 1 }),
        ],
    };
    let line = build_connection_line(&connection);
    let all: Vec<&str> = line.iter().map(|s| s.text.as_str()).collect();
    assert_eq!(all[6], "  ");
    let after_fork: String = all.iter().skip(6).copied().collect();
    assert!(!after_fork.contains('─'));
}

#[test]
fn connection_line_without_horizontal_neighbours() {
    let connection = ConnectionRow {
        cells: vec![
            Some(GraphCell { edge_type: EdgeType::MergeFromRight, color_index: 0 }),
            Some(GraphCell { edge_type: EdgeType::ForkRight, color_index: 0 }),
            None,
            Some(GraphCell { edge_type: EdgeType::Vertical, color_index: 1 }),
        ],
    };
    assert_eq!(line_text(&build_connection_line(&connection)), "╰ ╮   │");
}

#[test]
fn mod_test_horizontal_between_merge_and_fork() {
    let connection = ConnectionRow {
        cells: vec![
            Some(GraphCell { edge_type: EdgeType::MergeFromRight, color_index: 0 }),
            None,
            Some(GraphCell { edge_type: EdgeType::ForkRight, color_index: 0 }),
        ],
    };
    let line = build_connection_line(&connection);
    assert!(line_text(&line).contains("──"));
}

#[test]
fn graph_view_test_horizontal_between_merge_and_fork() {
    let connection = ConnectionRow {
        cells: vec![
            Some(GraphCell { edge_type: EdgeType::MergeFromRight, color_index: 0 }),
            None,
            Some(GraphCell { edge_type: EdgeType::ForkRight, color_index: 0 }),
        ],
    };
    let line = build_connection_line(&connection);
    assert!(line_text(&line).contains("──"));
}

#[test]
fn horizontal_between_merge_and_fork_takes_the_merge_color() {
    let connection = ConnectionRow {
        cells: vec![
            Some(GraphCell { edge_type: EdgeType::MergeFromRight, color_index: 2 }),
            None,
            Some(GraphCell { edge_type: EdgeType::ForkRight, color_index: 2 }),
        ],
    };
    let line = build_connection_line(&connection);
    assert_eq!(line_text(&line), "╰ ──╮");
    assert_eq!(line[2].style.fg, Some(ThemeColor::Branch(2)));
}

#[test]
fn mod_test_message_truncation() {
    let mut row = create_test_graph()[0].clone();
    row.node.message = "A".repeat(200);
    let line = build_commit_line(&row, false, 120, 2, Language::Fr);
    let text = line_text(&line);
    assert!(text.contains('…'));
    assert!(!text.contains(&"A".repeat(150)));
}

#[test]
fn graph_view_test_message_truncation() {
    let mut row = create_test_graph()[0].clone();
    row.node.message = "A".repeat(200);
    let line = build_commit_line(&row, false, 120, 2, Language::Fr);
    let text = line_text(&line);
    assert!(text.contains('…'));
    assert!(!text.contains(&"A".repeat(150)));
}

#[test]
fn truncated_message_keeps_the_line_within_its_width() {
    let mut row = create_test_graph()[0].clone();
    row.node.message = "B".repeat(300);
    let line = build_commit_line(&row, false, 100, 2, Language::En);
    assert!(line_text(&line).contains('…'));
    assert_eq!(line_width(&line), 100);
}

#[test]
fn mod_test_separator_between_graph_and_text() {
    let row = &create_test_graph()[0];
    let line = build_commit_line(row, false, 80, 2, Language::Fr);
    let separator = line
        .iter()
        .find(|s| s.text == "  ")
        .expect("Devrait trouver le séparateur de 2 espaces");
    assert_eq!(separator.text, "  ");
}

#[test]
fn graph_view_test_separator_between_graph_and_text() {
    let row = &create_test_graph()[0];
    let line = build_commit_line(row, false, 80, 2, Language::Fr);
    let separator = line.iter().find(|s| s.text == "  ").unwrap();
    assert_eq!(separator.text, "  ");
}

#[test]
fn commit_line_starts_with_node_padding_and_marker() {
    let row = &create_test_graph()[0];
    let line = build_commit_line(row, false, 80, 2, Language::En);
    assert_eq!(line[0].text, "●");
    assert_eq!(line[1].text, "  ");
    assert_eq!(line[2].text, "   ");
    assert_eq!(line[3].text, "0101010 ");
}

#[test]
fn graph_view_test_author_date_separate_styles() {
    let row = &create_test_graph()[0];
    let line = build_commit_line(row, false, 80, 2, Language::Fr);
    let author_idx = line.iter().position(|s| s.text.contains("Alice")).unwrap();
    let date = line.get(author_idx + 1).unwrap();
    assert!(date.style.dim);
}

#[test]
fn graph_view_test_graph_columns_aligned() {
    let graph = create_test_graph();
    let line = build_commit_line(&graph[0], false, 80, 3, Language::Fr);
    assert!(!line.is_empty());
    let padding: Vec<_> = line
        .iter()
        .filter(|s| s.text.chars().all(|c| c == ' '))
        .collect();
    assert!(!padding.is_empty());
}

#[test]
fn mod_test_author_date_separate_styles() {
    let row = &create_test_graph()[0];
    let line = build_commit_line(row, false, 80, 2, Language::Fr);
    let author_idx = line.iter().position(|s| s.text.contains("Alice")).unwrap();
    let date = line
        .get(author_idx + 1)
        .expect("Devrait trouver le span de la date après l'auteur");
    assert!(date.style.dim);
}

#[test]
fn mod_test_graph_columns_aligned() {
    let graph = create_test_graph();
    let line = build_commit_line(&graph[0], false, 80, 3, Language::Fr);
    let padding: Vec<_> = line
        .iter()
        .filter(|s| s.text.chars().all(|c| c == ' '))
        .collect();
    assert!(!padding.is_empty());
}

#[test]
fn test_empty_graph_shows_filtered_message() {
    let line = build_empty_state_line(true, Language::Fr);
    assert!(line_text(&line).contains("Aucun commit ne correspond aux filtres actifs"));
    let plain = build_empty_state_line(false, Language::En);
    assert_eq!(line_text(&plain), "No commit to display.");
    assert!(plain[0].style.italic);
}

#[test]
fn short_hash_is_seven_lowercase_hex_digits() {
    let mut bytes = [0u8; 20];
    bytes[0] = 0xab;
    bytes[1] = 0x0f;
    bytes[2] = 0x93;
    bytes[3] = 0x7c;
    assert_eq!(short_hash(&Oid::from_bytes(bytes)), "ab0f937");
    assert_eq!(short_hash(&Oid::zero()), "0000000");
}

#[test]
fn truncate_text_ends_cut_text_with_an_ellipsis() {
    assert_eq!(truncate_text("abcdef", 6), "abcdef");
    assert_eq!(truncate_text("abcdef", 4), "abc…");
    assert_eq!(truncate_text("abcdef", 1), "…");
    assert_eq!(truncate_text("abcdef", 0), "");
}

#[test]
fn first_line_stops_at_the_first_line_feed() {
    assert_eq!(first_line("subject\r\nbody"), "subject");
    assert_eq!(first_line("subject\nbody"), "subject");
    assert_eq!(first_line("only\r"), "only\r");
    assert_eq!(first_line(""), "");
    assert_eq!(first_line("\nsecond"), "");
}

#[test]
fn badges_are_ordered_by_kind_and_local_head_branch_is_not_repeated() {
    let mut row = create_test_graph()[0].clone();
    row.node.refs = vec![
        RefInfo::new("o/m", RefType::RemoteBranch),
        RefInfo::new("v1", RefType::Tag),
        RefInfo::new("main", RefType::LocalBranch),
        RefInfo::new("main", RefType::Head),
    ];
    let line = build_commit_line(&row, false, 200, 1, Language::En);
    let texts: Vec<&str> = line.iter().map(|s| s.text.as_str()).collect();
    let head = texts.iter().position(|t| *t == " HEAD:main ").unwrap();
    let tag = texts.iter().position(|t| *t == " tag:v1 ").unwrap();
    let remote = texts.iter().position(|t| *t == " remote:o/m ").unwrap();
    assert!(head < tag && tag < remote);
    assert!(!texts.contains(&" main "));
}

#[test]
fn narrow_lines_have_no_author_column() {
    let row = &create_test_graph()[0];
    let line = build_commit_line(row, false, 57, 1, Language::En);
    assert!(!line_text(&line).contains("Alice"));
    let wide = build_commit_line(row, false, 58, 1, Language::En);
    assert!(line_text(&wide).contains(" │ Alice     "));
}

#[test]
fn graph_window_centers_the_selection() {
    assert_eq!(graph_scroll_window(20, 10), (6, 9));
    assert_eq!(graph_scroll_window(20, 2), (0, 9));
    assert_eq!(graph_scroll_window(3, 5), (5, 1));
    assert_eq!(graph_scroll_window(0, 0), (0, 1));
    assert_eq!(focused_graph_title(" main ".to_string(), true), "▶ main ");
    assert_eq!(focused_graph_title(" main ".to_string(), false), " main ");
}
