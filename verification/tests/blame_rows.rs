use git_sv::blame_view::{
    blame_line_segments, blame_title, line_number_width, render_blame_content, seconds_of,
    BlameLine, BlameState, BlameView, FileBlame,
};
use git_sv::i18n::Language;
use git_sv::style::ThemeColor;
use git_sv::watcher::FileStamp;

fn blame_line(num: usize, author: &str) -> BlameLine {
    BlameLine {
        short_hash: "abc1234".to_string(),
        author: author.to_string(),
        timestamp: FileStamp { before_epoch: false, nanos: 0 },
        line_num: num,
        content: format!("line {num}"),
    }
}

#[test]
fn blame_row_columns() {
    let row = blame_line_segments(&blame_line(7, "Alice"), true, 4, "hier");
    assert_eq!(row.len(), 5);
    assert_eq!(row[0].text, "abc1234 ");
    assert_eq!(row[1].text, "Alice        ");
    assert_eq!(row[2].text, " hier       ");
    assert_eq!(row[3].text, "   7 ");
    assert_eq!(row[4].text, "line 7");
    assert!(row.iter().all(|s| s.style.bg == Some(ThemeColor::DarkGray)));
}

#[test]
fn long_author_and_date_are_cut() {
    let row = blame_line_segments(&blame_line(1, "Bartholomew Longname"), false, 4, "il y a 3 semaines");
    assert_eq!(row[1].text, "Bartholomew… ");
    assert_eq!(row[2].text, " il y a 3 … ");
    assert_eq!(row[0].style.bg, Some(ThemeColor::Reset));
}

#[test]
fn blame_window_and_title() {
    let blame = FileBlame {
        path: "src/lib.rs".to_string(),
        lines: (1..=6).map(|n| blame_line(n, "Bob")).collect(),
    };
    let state = BlameState {
        blame: Some(blame.clone()),
        file_path: "lib.rs".to_string(),
        scroll_offset: 2,
        selected_line: 3,
    };
    assert_eq!(blame_title(&state), " Blame: src/lib.rs ");
    let view = BlameView::new(&state);
    assert_eq!(view.state.scroll_offset, 2);
    let rows = render_blame_content(&blame, &state, 3, Language::En);
    assert_eq!(rows.len(), 3);
    assert_eq!(rows[0][4].text, "line 3");
    assert_eq!(rows[1][0].style.bg, Some(ThemeColor::DarkGray));
    assert_eq!(rows[0][0].style.bg, Some(ThemeColor::Reset));
    let loading = BlameState { blame: None, ..state };
    assert_eq!(blame_title(&loading), " Blame: lib.rs ");
}

#[test]
fn line_number_column_is_at_least_four_wide() {
    assert_eq!(line_number_width(9), 4);
    assert_eq!(line_number_width(12345), 5);
    assert_eq!(seconds_of(FileStamp { before_epoch: true, nanos: 5 }), 0);
    assert_eq!(seconds_of(FileStamp { before_epoch: false, nanos: 2_500_000_000 }), 2);
}

#[test]
fn blame_dates_follow_each_line() {
    let now = std::time::SystemTime::now()
        .duration_since(std::time::UNIX_EPOCH)
        .unwrap()
        .as_nanos();
    let mut old = blame_line(1, "Ann");
    old.timestamp = FileStamp { before_epoch: false, nanos: now - 26 * 3600 * 1_000_000_000 };
    let mut older = blame_line(2, "Ann");
    older.timestamp = FileStamp { before_epoch: false, nanos: now - 5 * 86400 * 1_000_000_000 };
    let blame = FileBlame { path: "a".to_string(), lines: vec![old, older] };
    let state = BlameState { blame: Some(blame.clone()), file_path: "a".to_string(), scroll_offset: 0, selected_line: 0 };
    let rows = render_blame_content(&blame, &state, 2, Language::En);
    assert_eq!(rows[0][2].text.trim(), "yesterday");
    assert_eq!(rows[1][2].text.trim(), "5 days ago");
}
