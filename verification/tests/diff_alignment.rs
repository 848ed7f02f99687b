use git_sv::diff_align::{align_diff_lines, DiffLine, DiffLineType};

fn create_test_line(
    line_type: DiffLineType,
    content: &str,
    old_no: Option<u32>,
    new_no: Option<u32>,
) -> DiffLine {
    DiffLine {
        line_type,
        content: content.to_string(),
        old_lineno: old_no,
        new_lineno: new_no,
    }
}

#[test]
fn test_align_diff_lines_context_only() {
    let lines = vec![
        create_test_line(DiffLineType::Context, "line 1", Some(1), Some(1)),
        create_test_line(DiffLineType::Context, "line 2", Some(2), Some(2)),
    ];

    let pairs = align_diff_lines(&lines);
    assert_eq!(pairs.len(), 2);

    assert!(pairs[0].left.is_some());
    assert!(pairs[0].right.is_some());
    assert_eq!(pairs[0].left.as_ref().unwrap().content, "line 1");
    assert_eq!(pairs[0].right.as_ref().unwrap().content, "line 1");
}

#[test]
fn test_align_diff_lines_with_deletion() {
    let lines = vec![create_test_line(DiffLineType::Deletion, "old line", Some(5), None)];

    let pairs = align_diff_lines(&lines);
    assert_eq!(pairs.len(), 1);

    assert!(pairs[0].left.is_some());
    assert!(pairs[0].right.is_none());
    assert_eq!(pairs[0].left.as_ref().unwrap().content, "old line");
}

#[test]
fn test_align_diff_lines_with_addition() {
    let lines = vec![create_test_line(DiffLineType::Addition, "new line", None, Some(5))];

    let pairs = align_diff_lines(&lines);
    assert_eq!(pairs.len(), 1);

    assert!(pairs[0].left.is_none());
    assert!(pairs[0].right.is_some());
    assert_eq!(pairs[0].right.as_ref().unwrap().content, "new line");
}

#[test]
fn test_align_diff_lines_simple_change() {
    let lines = vec![
        create_test_line(DiffLineType::Deletion, "old content", Some(10), None),
        create_test_line(DiffLineType::Addition, "new content", None, Some(10)),
    ];

    let pairs = align_diff_lines(&lines);
    assert_eq!(pairs.len(), 1);

    assert!(pairs[0].left.is_some());
    assert!(pairs[0].right.is_some());
    assert_eq!(pairs[0].left.as_ref().unwrap().content, "old content");
    assert_eq!(pairs[0].right.as_ref().unwrap().content, "new content");
}

#[test]
fn test_align_diff_lines_hunk_header() {
    let lines = vec![
        create_test_line(DiffLineType::HunkHeader, "@@ -10,5 +10,7 @@", None, None),
        create_test_line(DiffLineType::Context, "context line", Some(10), Some(10)),
    ];

    let pairs = align_diff_lines(&lines);
    assert_eq!(pairs.len(), 2);

    assert!(pairs[0].left.is_some());
    assert!(pairs[0].right.is_none());
    assert_eq!(
        pairs[0].left.as_ref().unwrap().line_type,
        DiffLineType::HunkHeader
    );
}

#[test]
fn test_align_diff_lines_multiple_changes() {
    let lines = vec![
        create_test_line(DiffLineType::Deletion, "old 1", Some(1), None),
        create_test_line(DiffLineType::Deletion, "old 2", Some(2), None),
        create_test_line(DiffLineType::Addition, "new A", None, Some(1)),
        create_test_line(DiffLineType::Addition, "new B", None, Some(2)),
        create_test_line(DiffLineType::Addition, "new C", None, Some(3)),
    ];

    let pairs = align_diff_lines(&lines);
    assert_eq!(pairs.len(), 3);

    assert!(pairs[0].left.is_some());
    assert!(pairs[0].right.is_some());

    assert!(pairs[1].left.is_some());
    assert!(pairs[1].right.is_some());

    assert!(pairs[2].left.is_none());
    assert!(pairs[2].right.is_some());
}

#[test]
fn alignment_keeps_both_versions_in_order() {
    let lines = vec![
        create_test_line(DiffLineType::Context, "a", Some(1), Some(1)),
        create_test_line(DiffLineType::Deletion, "b", Some(2), None),
        create_test_line(DiffLineType::Deletion, "c", Some(3), None),
        create_test_line(DiffLineType::Addition, "B", None, Some(2)),
        create_test_line(DiffLineType::Context, "d", Some(4), Some(3)),
        create_test_line(DiffLineType::Addition, "E", None, Some(4)),
    ];
    let pairs = align_diff_lines(&lines);
    let left: Vec<String> = pairs
        .iter()
        .filter_map(|p| p.left.as_ref().map(|l| l.content.clone()))
        .collect();
    let right: Vec<String> = pairs
        .iter()
        .filter_map(|p| p.right.as_ref().map(|l| l.content.clone()))
        .collect();
    assert_eq!(left, vec!["a", "b", "c", "d"]);
    assert_eq!(right, vec!["a", "B", "d", "E"]);
    assert!(pairs.iter().all(|p| p.left.is_some() || p.right.is_some()));
    assert_eq!(pairs.len(), 5);
    assert_eq!(pairs[2].right.as_ref().map(|l| l.content.as_str()), None);
}

#[test]
fn alignment_of_an_empty_diff_is_empty() {
    assert!(align_diff_lines(&[]).is_empty());
}
