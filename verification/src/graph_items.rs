//! The visible window of the commit graph: one line per commit, followed by
//! the connection line drawn below it when there is one.

use vstd::prelude::*;
use crate::commit_line::{build_commit_line, commit_line, lane_count,
    metadata_text};
use crate::graph::{GraphRow, build_connection_line, connection_lanes};
use crate::i18n::Language;
use crate::style::{Segment, segments_view};
use crate::time::is_relative_date_of;

verus! {

/// The lane count of the widest of the `n` first rows, at least 1.
pub open spec fn max_lanes(rows: Seq<GraphRow>, n: int) -> int
    decreases n,
{
    if n <= 0 {
        1
    } else {
        let prev = max_lanes(rows, n - 1);
        let here = lane_count(rows[n - 1]);
        if here > prev {
            here
        } else {
            prev
        }
    }
}

/// How many of the `k` first rows have a connection line.
pub open spec fn connection_count(rows: Seq<GraphRow>, k: int) -> int
    decreases k,
{
    if k <= 0 {
        0
    } else {
        connection_count(rows, k - 1) + if rows[k - 1].connection is Some {
            1int
        } else {
            0int
        }
    }
}

/// The index of the line of row `k`: one line per earlier row, plus one per
/// earlier connection.
pub open spec fn item_start(rows: Seq<GraphRow>, k: int) -> int {
    k + connection_count(rows, k)
}

/// The rows shown: from `scroll_offset`, at most `visible_count` of them.
pub open spec fn visible_window(graph: Seq<GraphRow>, scroll_offset: int, visible_count: int) -> Seq<
    GraphRow,
> {
    let end = if scroll_offset + visible_count < graph.len() {
        scroll_offset + visible_count
    } else {
        graph.len() as int
    };
    graph.subrange(scroll_offset, end)
}

/// `line` is the line of commit `row`, its date column showing the time
/// elapsed since the commit's timestamp.
pub open spec fn is_commit_line_of(
    line: Vec<Segment>,
    row: GraphRow,
    is_selected: bool,
    available_width: int,
    cols: int,
    lang: Language,
) -> bool {
    exists|date: Seq<char>|
        {
            &&& is_relative_date_of(date, row.node.timestamp, lang)
            &&& segments_view(line@) == commit_line(
                row,
                is_selected,
                available_width,
                cols,
                metadata_text(row.node.author@, date, available_width),
            )
        }
}

/// The lines of the visible window of the graph and the index of the
/// selected commit's line among them, if it is in the window. Every commit
/// line is drawn with the lane count of the widest visible row.
pub fn build_graph_items(
    graph: &Vec<GraphRow>,
    selected_index: usize,
    available_width: u16,
    scroll_offset: usize,
    visible_count: usize,
    lang: Language,
) -> (res: (Vec<Vec<Segment>>, Option<usize>))
    requires
        scroll_offset <= graph@.len(),
        scroll_offset + visible_count <= usize::MAX,
        forall|i: int|
            0 <= i < visible_window(graph@, scroll_offset as int, visible_count as int).len()
                ==> #[trigger] visible_window(
                graph@,
                scroll_offset as int,
                visible_count as int,
            )[i].node.column < usize::MAX,
    ensures
        ({
            let rows = visible_window(graph@, scroll_offset as int, visible_count as int);
            let lines = res.0@;
            let cols = max_lanes(rows, rows.len() as int);
            &&& lines.len() == item_start(rows, rows.len() as int)
            &&& forall|k: int|
                0 <= k < rows.len() ==> is_commit_line_of(
                    #[trigger] lines[item_start(rows, k)],
                    rows[k],
                    scroll_offset + k == selected_index,
                    available_width as int,
                    cols,
                    lang,
                )
            &&& forall|k: int|
                0 <= k < rows.len() && (#[trigger] rows[k]).connection is Some ==> segments_view(
                    lines[item_start(rows, k) + 1]@,
                ) == connection_lanes(
                    rows[k].connection->0.cells@,
                    rows[k].connection->0.cells@.len() as int,
                )
            &&& res.1 == if scroll_offset <= selected_index < scroll_offset + rows.len() {
                Some((item_start(rows, selected_index - scroll_offset)) as usize)
            } else {
                None::<usize>
            }
        }),
{
    let ghost rows = visible_window(graph@, scroll_offset as int, visible_count as int);
    let end = if scroll_offset + visible_count < graph.len() {
        scroll_offset + visible_count
    } else {
        graph.len()
    };
    let mut max_graph_cols: usize = 1;
    let mut i: usize = scroll_offset;
    while i < end
        invariant
            scroll_offset <= i <= end <= graph@.len(),
            rows == graph@.subrange(scroll_offset as int, end as int),
            forall|j: int| 0 <= j < rows.len() ==> #[trigger] rows[j].node.column < usize::MAX,
            max_graph_cols == max_lanes(rows, i - scroll_offset),
        decreases end - i,
    {
        let row = &graph[i];
        assert(rows[i - scroll_offset] == graph@[i as int]);
        let width = if row.cells.len() > row.node.column + 1 {
            row.cells.len()
        } else {
            row.node.column + 1
        };
        if width > max_graph_cols {
            max_graph_cols = width;
        }
        i = i + 1;
    }
    let mut items: Vec<Vec<Segment>> = Vec::new();
    let mut selected_visual_index: Option<usize> = None;
    let mut k: usize = 0;
    while k < end - scroll_offset
        invariant
            scroll_offset <= end <= graph@.len(),
            end - scroll_offset == rows.len(),
            rows == graph@.subrange(scroll_offset as int, end as int),
            forall|j: int| 0 <= j < rows.len() ==> #[trigger] rows[j].node.column < usize::MAX,
            max_graph_cols == max_lanes(rows, rows.len() as int),
            k <= rows.len(),
            items@.len() == item_start(rows, k as int),
            item_start(rows, k as int) <= 2 * k,
            forall|m: int|
                0 <= m < k ==> is_commit_line_of(
                    #[trigger] items@[item_start(rows, m)],
                    rows[m],
                    scroll_offset + m == selected_index,
                    available_width as int,
                    max_graph_cols as int,
                    lang,
                ),
            forall|m: int|
                0 <= m < k && (#[trigger] rows[m]).connection is Some ==> segments_view(
                    items@[item_start(rows, m) + 1]@,
                ) == connection_lanes(
                    rows[m].connection->0.cells@,
                    rows[m].connection->0.cells@.len() as int,
                ),
            selected_visual_index == if scroll_offset <= selected_index < scroll_offset + k {
                Some((item_start(rows, selected_index - scroll_offset)) as usize)
            } else {
                None::<usize>
            },
        decreases rows.len() - k,
    {
        let row = &graph[scroll_offset + k];
        assert(rows[k as int] == graph@[scroll_offset + k]);
        let is_selected = scroll_offset + k == selected_index;
        if is_selected {
            selected_visual_index = Some(items.len());
        }
        let line = build_commit_line(row, is_selected, available_width, max_graph_cols, lang);
        let ghost old_items = items@;
        items.push(line);
        match &row.connection {
            Some(connection) => {
                items.push(build_connection_line(connection));
            },
            None => {},
        }
        assert(items@.take(old_items.len() as int) =~= old_items);
        proof {
            let ks = k as int;
            assert(item_start(rows, ks + 1) == item_start(rows, ks) + 1 + if rows[ks].connection is Some {
                1int
            } else {
                0int
            });
            assert(items@[item_start(rows, ks)] == line);
            assert forall|m: int|
                0 <= m < ks + 1 implies is_commit_line_of(
                    #[trigger] items@[item_start(rows, m)],
                    rows[m],
                    scroll_offset + m == selected_index,
                    available_width as int,
                    max_graph_cols as int,
                    lang,
                ) by {
                if m < ks {
                    lemma_item_start_mono(rows, m + 1, ks);
                    lemma_item_start_mono(rows, m, m + 1);
                    assert(item_start(rows, m) < old_items.len());
                    assert(items@.take(old_items.len() as int)[item_start(rows, m)] == items@[item_start(rows, m)]);
                }
            }
            assert forall|m: int|
                0 <= m < ks + 1 && (#[trigger] rows[m]).connection is Some implies segments_view(
                    items@[item_start(rows, m) + 1]@,
                ) == connection_lanes(
                    rows[m].connection->0.cells@,
                    rows[m].connection->0.cells@.len() as int,
                ) by {
                if m < ks {
                    lemma_item_start_mono(rows, m + 1, ks);
                    assert(item_start(rows, m + 1) == item_start(rows, m) + 2);
                    assert(items@.take(old_items.len() as int)[item_start(rows, m) + 1] == items@[item_start(rows, m) + 1]);
                }
            }
        }
        k = k + 1;
    }
    (items, selected_visual_index)
}

proof fn lemma_item_start_mono(rows: Seq<GraphRow>, a: int, b: int)
    requires
        0 <= a <= b <= rows.len(),
    ensures
        item_start(rows, a) <= item_start(rows, b),
        a < b ==> item_start(rows, a) + 1 <= item_start(rows, b),
        0 <= connection_count(rows, a) <= a,
        0 <= connection_count(rows, b) <= b,
    decreases b - a,
{
    lemma_connection_count_bounds(rows, a);
    lemma_connection_count_bounds(rows, b);
    if a < b {
        lemma_item_start_mono(rows, a, b - 1);
    }
}

proof fn lemma_connection_count_bounds(rows: Seq<GraphRow>, a: int)
    requires
        0 <= a,
    ensures
        0 <= connection_count(rows, a) <= a,
    decreases a,
{
    if a > 0 {
        lemma_connection_count_bounds(rows, a - 1);
    }
}

/// The window of the graph in a panel of `area_height` rows: each commit
/// takes two rows (commit and connection) inside the frame, at least one
/// commit is shown, and the selection sits in the middle when it can.
pub open spec fn graph_window(area_height: u16, selected_index: usize) -> (usize, usize) {
    let inner = if area_height >= 2 { area_height - 2 } else { 0 };
    let visible = if inner / 2 >= 1 { inner / 2 } else { 1 };
    let half = visible / 2;
    ((if selected_index >= half { selected_index - half } else { 0 }) as usize, visible as usize)
}

/// The first commit shown and the number of commits shown (see
/// `graph_window`).
pub fn graph_scroll_window(area_height: u16, selected_index: usize) -> (res: (usize, usize))
    ensures
        res == graph_window(area_height, selected_index),
        res.1 >= 1,
        res.0 <= selected_index < res.0 + res.1,
{
    let inner: usize = if area_height >= 2 { (area_height - 2) as usize } else { 0 };
    let visible = if inner / 2 >= 1 { inner / 2 } else { 1 };
    let half = visible / 2;
    let offset = if selected_index >= half { selected_index - half } else { 0 };
    (offset, visible)
}

/// The panel's title, marked when the panel has the focus.
pub fn focused_graph_title(title: String, is_focused: bool) -> (res: String)
    ensures
        res@ == (if is_focused { "▶"@ + title@ } else { title@ }),
{
    if is_focused {
        let mut s = String::new();
        crate::strings::push_str(&mut s, "▶");
        crate::strings::push_str(&mut s, title.as_str());
        s
    } else {
        title
    }
}

} // verus!
