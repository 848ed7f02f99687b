//! The commit graph: rows of lanes and the text lines drawn for them.

use vstd::prelude::*;
use crate::style::{Segment, SegmentStyle, SegmentView, ThemeColor, segments_view};
use crate::strings::{push_char, push_spaces, spaces};

verus! {

/// Shape of the graph in one lane of a row.
#[derive(Debug, Clone, Copy, PartialEq, Eq, Structural)]
pub enum EdgeType {
    Vertical,
    Horizontal,
    Cross,
    MergeFromRight,
    MergeFromLeft,
    ForkRight,
    ForkLeft,
}

/// One lane of a row of the graph.
#[derive(Debug, Clone, Copy, PartialEq, Eq, Structural)]
pub struct GraphCell {
    pub edge_type: EdgeType,
    pub color_index: usize,
}

/// The row drawn between two commits, joining their lanes.
#[derive(Debug, Clone)]
pub struct ConnectionRow {
    pub cells: Vec<Option<GraphCell>>,
}

/// Kind of a reference pointing at a commit.
#[derive(Debug, Clone, Copy, PartialEq, Eq, Structural)]
pub enum RefType {
    Head,
    LocalBranch,
    Tag,
    RemoteBranch,
}

/// A reference (branch, tag, HEAD) pointing at a commit.
#[derive(Debug, Clone)]
pub struct RefInfo {
    pub name: String,
    pub ref_type: RefType,
}

impl RefInfo {
    /// A reference of the given kind and name.
    pub fn new(name: &str, ref_type: RefType) -> (res: Self)
        ensures
            res.name@ == name@,
            res.ref_type == ref_type,
    {
        RefInfo { name: name.to_owned(), ref_type }
    }
}

/// A git object id: twenty bytes.
#[derive(Debug, Clone, Copy, PartialEq, Eq)]
pub struct Oid {
    pub bytes: [u8; 20],
}

impl Oid {
    /// The id made of the given bytes.
    pub fn from_bytes(bytes: [u8; 20]) -> (res: Self)
        ensures
            res.bytes@ == bytes@,
    {
        Oid { bytes }
    }

    /// The id whose bytes are all zero.
    pub fn zero() -> (res: Self)
        ensures
            forall|i: int| 0 <= i < 20 ==> res.bytes@[i] == 0,
    {
        Oid { bytes: [0u8; 20] }
    }
}

/// A commit as the graph shows it.
#[derive(Debug, Clone)]
pub struct CommitNode {
    pub oid: Oid,
    pub message: String,
    pub author: String,
    pub timestamp: i64,
    pub parents: Vec<Oid>,
    pub refs: Vec<RefInfo>,
    pub branch_name: Option<String>,
    /// Lane of the commit's node.
    pub column: usize,
    pub color_index: usize,
}

/// One commit of the graph with the lanes of its row and the connection
/// row drawn below it.
#[derive(Debug, Clone)]
pub struct GraphRow {
    pub node: CommitNode,
    pub cells: Vec<Option<GraphCell>>,
    pub connection: Option<ConnectionRow>,
}

/// The box-drawing character of an edge.
pub open spec fn edge_char(t: EdgeType) -> char {
    match t {
        EdgeType::Vertical => '│',
        EdgeType::Horizontal => '─',
        EdgeType::Cross => '┼',
        EdgeType::MergeFromRight => '╰',
        EdgeType::MergeFromLeft => '╯',
        EdgeType::ForkRight => '╮',
        EdgeType::ForkLeft => '╭',
    }
}

/// Returns the box-drawing character of an edge.
pub fn edge_symbol(t: EdgeType) -> (c: char)
    ensures
        c == edge_char(t),
{
    match t {
        EdgeType::Vertical => '│',
        EdgeType::Horizontal => '─',
        EdgeType::Cross => '┼',
        EdgeType::MergeFromRight => '╰',
        EdgeType::MergeFromLeft => '╯',
        EdgeType::ForkRight => '╮',
        EdgeType::ForkLeft => '╭',
    }
}

/// The nearest occupied lane strictly left of `col`.
pub open spec fn nearest_left(cells: Seq<Option<GraphCell>>, col: int) -> Option<GraphCell>
    decreases col,
{
    if col <= 0 {
        None
    } else if cells[col - 1] is Some {
        cells[col - 1]
    } else {
        nearest_left(cells, col - 1)
    }
}

/// The nearest occupied lane at or right of `from`.
pub open spec fn nearest_right(cells: Seq<Option<GraphCell>>, from: int) -> Option<GraphCell>
    decreases cells.len() - from,
{
    if from < 0 || from >= cells.len() {
        None
    } else if cells[from] is Some {
        cells[from]
    } else {
        nearest_right(cells, from + 1)
    }
}

/// Whether a lane edge lets a line run on towards its right.
pub open spec fn opens_right(t: EdgeType) -> bool {
    t == EdgeType::Horizontal || t == EdgeType::MergeFromRight || t == EdgeType::MergeFromLeft
}

/// Whether a lane edge lets a line arrive from its left.
pub open spec fn opens_left(t: EdgeType) -> bool {
    t == EdgeType::Horizontal || t == EdgeType::ForkRight || t == EdgeType::ForkLeft
}

/// The color given by the nearest occupied lane left of `col`, when its
/// edge lets a line run on towards the right.
pub open spec fn color_from_left(cells: Seq<Option<GraphCell>>, col: int) -> Option<usize> {
    match nearest_left(cells, col) {
        Some(c) => if opens_right(c.edge_type) {
            Some(c.color_index)
        } else {
            None
        },
        None => None,
    }
}

/// The color given by the nearest occupied lane at or right of `from`, when
/// its edge lets a line arrive from the left.
pub open spec fn color_from_right(cells: Seq<Option<GraphCell>>, from: int) -> Option<usize> {
    match nearest_right(cells, from) {
        Some(c) => if opens_left(c.edge_type) {
            Some(c.color_index)
        } else {
            None
        },
        None => None,
    }
}

/// The color of the horizontal line crossing the empty lane `col`: that of
/// the nearest occupied lane on its left when it is a horizontal or a merge,
/// else that of the nearest occupied lane on its right when it is a
/// horizontal or a fork.
pub open spec fn horizontal_color(cells: Seq<Option<GraphCell>>, col: int) -> Option<usize> {
    if color_from_left(cells, col) is Some {
        color_from_left(cells, col)
    } else {
        color_from_right(cells, col + 1)
    }
}

/// Finds the color of the horizontal line that crosses the empty lane `col`
/// of a connection row, bounded by the nearest occupied lanes.
pub fn find_horizontal_color_bounded(col: usize, connection: &ConnectionRow) -> (res: Option<usize>)
    requires
        col <= connection.cells@.len(),
    ensures
        res == horizontal_color(connection.cells@, col as int),
{
    let cells = &connection.cells;
    let ghost s = cells@;
    let mut c = col;
    while c > 0
        invariant
            s == cells@,
            s == connection.cells@,
            c <= col <= s.len(),
            color_from_left(s, col as int) == color_from_left(s, c as int),
        decreases c,
    {
        let ghost prev = c - 1;
        match cells[c - 1] {
            Some(cell) => {
                assert(nearest_left(s, c as int) == s[prev]);
                if cell.edge_type == EdgeType::Horizontal || cell.edge_type
                    == EdgeType::MergeFromRight || cell.edge_type == EdgeType::MergeFromLeft {
                    return Some(cell.color_index);
                }
                return find_right_color(col, cells);
            },
            None => {},
        }
        c = c - 1;
    }
    find_right_color(col, cells)
}

fn find_right_color(col: usize, cells: &Vec<Option<GraphCell>>) -> (res: Option<usize>)
    requires
        col <= cells@.len(),
    ensures
        res == color_from_right(cells@, col + 1),
{
    if col >= cells.len() {
        return None;
    }
    let ghost s = cells@;
    let mut r = col + 1;
    while r < cells.len()
        invariant
            s == cells@,
            col + 1 <= r <= s.len(),
            color_from_right(s, col + 1) == color_from_right(s, r as int),
        decreases s.len() - r,
    {
        match cells[r] {
            Some(cell) => {
                if cell.edge_type == EdgeType::Horizontal || cell.edge_type == EdgeType::ForkRight
                    || cell.edge_type == EdgeType::ForkLeft {
                    return Some(cell.color_index);
                }
                return None;
            },
            None => {},
        }
        r = r + 1;
    }
    None
}

/// A one-character segment.
pub open spec fn char_segment(c: char, style: SegmentStyle) -> SegmentView {
    SegmentView { text: seq![c], style }
}

/// A segment of `n` spaces without style.
pub open spec fn blank_segment(n: nat) -> SegmentView {
    SegmentView { text: spaces(n), style: SegmentStyle::plain_spec() }
}

/// The color a branch lane is drawn with.
pub open spec fn lane_color(index: usize) -> ThemeColor {
    ThemeColor::Branch(index)
}

pub open spec fn is_horizontal_at(cells: Seq<Option<GraphCell>>, i: int) -> bool {
    0 <= i < cells.len() && (cells[i] matches Some(c) && c.edge_type == EdgeType::Horizontal)
}

/// Whether the lane `i` carries a line that continues towards its right.
pub open spec fn extends_right(cells: Seq<Option<GraphCell>>, i: int) -> bool {
    0 <= i < cells.len() && (cells[i] matches Some(c) && (c.edge_type == EdgeType::Horizontal
        || c.edge_type == EdgeType::MergeFromRight || c.edge_type == EdgeType::Cross))
}

/// Whether the lane `i` carries a line that continues towards its left.
pub open spec fn extends_left(cells: Seq<Option<GraphCell>>, i: int) -> bool {
    0 <= i < cells.len() && (cells[i] matches Some(c) && (c.edge_type == EdgeType::Horizontal
        || c.edge_type == EdgeType::ForkRight || c.edge_type == EdgeType::ForkLeft
        || c.edge_type == EdgeType::Cross))
}

/// The segments drawn for lane `col` of a connection row: an occupied lane
/// shows its edge, followed (except on the last lane) by a horizontal
/// line when a neighbour is horizontal or by a space; an empty lane between
/// two lines that meet across it is crossed by a horizontal line in their
/// color, and is blank otherwise.
pub open spec fn connection_lane(cells: Seq<Option<GraphCell>>, col: int) -> Seq<SegmentView> {
    let n = cells.len();
    match cells[col] {
        Some(cell) => {
            let color = SegmentStyle::fg_spec(lane_color(cell.color_index));
            let edge = seq![char_segment(edge_char(cell.edge_type), color)];
            if col < n - 1 {
                if is_horizontal_at(cells, col + 1) || is_horizontal_at(cells, col - 1) {
                    edge.push(char_segment('─', color))
                } else {
                    edge.push(char_segment(' ', SegmentStyle::plain_spec()))
                }
            } else {
                edge
            }
        },
        None => {
            if extends_right(cells, col - 1) && extends_left(cells, col + 1) {
                match horizontal_color(cells, col) {
                    Some(idx) => {
                        let color = SegmentStyle::fg_spec(lane_color(idx));
                        seq![char_segment('─', color), char_segment('─', color)]
                    },
                    None => seq![blank_segment(2)],
                }
            } else {
                seq![blank_segment(2)]
            }
        },
    }
}

/// The segments of the first `n` lanes of a connection row.
pub open spec fn connection_lanes(cells: Seq<Option<GraphCell>>, n: int) -> Seq<SegmentView>
    decreases n,
{
    if n <= 0 {
        Seq::empty()
    } else {
        connection_lanes(cells, n - 1) + connection_lane(cells, n - 1)
    }
}

pub(crate) fn segment_of_char(c: char, style: SegmentStyle) -> (res: Segment)
    ensures
        res@ == char_segment(c, style),
{
    let mut text = String::new();
    push_char(&mut text, c);
    Segment { text, style }
}

pub(crate) fn blank(n: usize) -> (res: Segment)
    ensures
        res@ == blank_segment(n as nat),
{
    let mut text = String::new();
    push_spaces(&mut text, n);
    assert(text@ =~= spaces(n as nat));
    Segment { text, style: SegmentStyle::plain() }
}

fn cell_is_horizontal(cells: &Vec<Option<GraphCell>>, i: usize) -> (res: bool)
    ensures
        res == is_horizontal_at(cells@, i as int),
{
    if i < cells.len() {
        match cells[i] {
            Some(c) => c.edge_type == EdgeType::Horizontal,
            None => false,
        }
    } else {
        false
    }
}

/// Builds the segments of a connection row between two commits.
pub fn build_connection_line(connection: &ConnectionRow) -> (res: Vec<Segment>)
    ensures
        segments_view(res@) == connection_lanes(connection.cells@, connection.cells@.len() as int),
{
    let cells = &connection.cells;
    let num_cols = cells.len();
    let mut segments: Vec<Segment> = Vec::new();
    let mut col: usize = 0;
    while col < num_cols
        invariant
            cells@ == connection.cells@,
            num_cols == cells@.len(),
            col <= num_cols,
            segments_view(segments@) == connection_lanes(cells@, col as int),
        decreases num_cols - col,
    {
        let ghost before = segments@;
        match cells[col] {
            Some(cell) => {
                let color = SegmentStyle::fg(ThemeColor::Branch(cell.color_index));
                segments.push(segment_of_char(edge_symbol(cell.edge_type), color));
                if col < num_cols - 1 {
                    let right = cell_is_horizontal(cells, col + 1);
                    let left = col > 0 && cell_is_horizontal(cells, col - 1);
                    assert(col == 0 ==> !is_horizontal_at(cells@, col - 1));
                    if right || left {
                        segments.push(segment_of_char('─', color));
                    } else {
                        segments.push(segment_of_char(' ', SegmentStyle::plain()));
                    }
                }
            },
            None => {
                let left_is_horizontal = col > 0 && match cells[col - 1] {
                    Some(c) => c.edge_type == EdgeType::Horizontal || c.edge_type
                        == EdgeType::MergeFromRight || c.edge_type == EdgeType::Cross,
                    None => false,
                };
                let right_is_horizontal = col + 1 < num_cols && match cells[col + 1] {
                    Some(c) => c.edge_type == EdgeType::Horizontal || c.edge_type
                        == EdgeType::ForkRight || c.edge_type == EdgeType::ForkLeft || c.edge_type
                        == EdgeType::Cross,
                    None => false,
                };
                if left_is_horizontal && right_is_horizontal {
                    match find_horizontal_color_bounded(col, connection) {
                        Some(idx) => {
                            let color = SegmentStyle::fg(ThemeColor::Branch(idx));
                            segments.push(segment_of_char('─', color));
                            segments.push(segment_of_char('─', color));
                        },
                        None => {
                            segments.push(blank(2));
                        },
                    }
                } else {
                    segments.push(blank(2));
                }
            },
        }
        proof {
            let added = connection_lane(cells@, col as int);
            assert(segments_view(segments@) =~= segments_view(before) + added);
        }
        col = col + 1;
    }
    segments
}

} // verus!
