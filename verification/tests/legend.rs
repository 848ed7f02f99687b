use git_sv::graph::{CommitNode, GraphRow, Oid, RefInfo, RefType};
use git_sv::graph_legend::{legend_entries, render_compact_legend, render_legend};
use git_sv::style::{Segment, ThemeColor};

fn row(refs: Vec<RefInfo>, color_index: usize) -> GraphRow {
    GraphRow {
        node: CommitNode {
            oid: Oid::zero(),
            message: String::new(),
            author: String::new(),
            timestamp: 0,
            parents: vec![],
            refs,
            branch_name: None,
            column: 0,
            color_index,
        },
        cells: vec![],
        connection: None,
    }
}

fn line_text(line: &[Segment]) -> String {
    line.iter().map(|s| s.text.as_str()).collect()
}

#[test]
fn legend_lists_each_local_branch_once() {
    let graph = vec![
        row(vec![RefInfo::new("main", RefType::Head), RefInfo::new("v1", RefType::Tag)], 0),
        row(vec![RefInfo::new("origin/main", RefType::RemoteBranch)], 1),
        row(vec![RefInfo::new("feature", RefType::LocalBranch), RefInfo::new("main", RefType::LocalBranch)], 2),
    ];
    let entries = legend_entries(&graph, false);
    assert_eq!(entries, vec![("main".to_string(), 0), ("feature".to_string(), 2)]);
    let line = render_legend(&graph).unwrap();
    assert_eq!(line_text(&line), "Branches: ● main  ● feature");
    assert_eq!(line[1].style.fg, Some(ThemeColor::Branch(0)));
    assert_eq!(line[4].style.fg, Some(ThemeColor::Branch(2)));
    let compact = render_compact_legend(&graph).unwrap();
    assert_eq!(line_text(&compact), "● ● ● ●");
    assert_eq!(compact[2].style.fg, Some(ThemeColor::Branch(0)));
    assert_eq!(compact[4].style.fg, Some(ThemeColor::Branch(1)));
}

#[test]
fn legend_keeps_five_branches_from_twenty_rows() {
    let mut graph: Vec<GraphRow> = (0..7).map(|i| row(vec![RefInfo::new(&format!("b{}", i), RefType::LocalBranch)], i)).collect();
    assert_eq!(legend_entries(&graph, false).len(), 5);
    assert_eq!(legend_entries(&graph, false)[4].0, "b4");
    let mut late: Vec<GraphRow> = (0..20).map(|i| row(vec![], i)).collect();
    late.push(row(vec![RefInfo::new("late", RefType::LocalBranch)], 20));
    assert!(render_legend(&late).is_none());
    assert!(render_compact_legend(&late).is_none());
    graph.truncate(0);
    assert!(legend_entries(&graph, true).is_empty());
}
