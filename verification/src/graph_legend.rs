//! The legend under the graph: the colors of the branches met in its first
//! rows.

use vstd::prelude::*;
use crate::graph::{GraphRow, RefInfo, RefType};
use crate::lines::{push_seg, seg, text_seg};
use crate::strings::push_str;
use crate::style::{Segment, SegmentStyle, SegmentView, ThemeColor, segments_view};

verus! {

/// How many rows of the graph the legend looks at.
pub const LEGEND_ROWS: usize = 20;

/// How many branches the legend shows.
pub const LEGEND_MAX: usize = 5;

/// Whether a reference counts for the legend: any reference for the compact
/// legend, local branches and HEAD for the full one.
pub open spec fn counts_for_legend(t: RefType, any_ref: bool) -> bool {
    any_ref || t == RefType::LocalBranch || t == RefType::Head
}

/// The references of a row that count, with the row's color, in order.
pub open spec fn ref_candidates(refs: Seq<RefInfo>, color: usize, any_ref: bool) -> Seq<(Seq<char>, usize)>
    decreases refs.len(),
{
    if refs.len() == 0 {
        Seq::empty()
    } else {
        ref_candidates(refs.drop_last(), color, any_ref)
            + (if counts_for_legend(refs.last().ref_type, any_ref) { seq![(refs.last().name@, color)] } else { Seq::empty() })
    }
}

/// The references that count in rows, in order.
pub open spec fn row_candidates(rows: Seq<GraphRow>, any_ref: bool) -> Seq<(Seq<char>, usize)>
    decreases rows.len(),
{
    if rows.len() == 0 {
        Seq::empty()
    } else {
        row_candidates(rows.drop_last(), any_ref) + ref_candidates(rows.last().node.refs@, rows.last().node.color_index, any_ref)
    }
}

/// Whether a name is among the entries.
pub open spec fn has_name(entries: Seq<(Seq<char>, usize)>, name: Seq<char>) -> bool {
    exists|k: int| 0 <= k < entries.len() && entries[k].0 == name
}

/// The entries whose name was not met before, in order.
pub open spec fn first_occurrences(s: Seq<(Seq<char>, usize)>) -> Seq<(Seq<char>, usize)>
    decreases s.len(),
{
    if s.len() == 0 {
        Seq::empty()
    } else {
        let p = first_occurrences(s.drop_last());
        if has_name(p, s.last().0) {
            p
        } else {
            p.push(s.last())
        }
    }
}

/// The branches the legend shows: those met first in the first rows of the
/// graph, each with the color of its row, at most `LEGEND_MAX`.
pub open spec fn legend_branches(graph: Seq<GraphRow>, any_ref: bool) -> Seq<(Seq<char>, usize)> {
    let rows = if graph.len() < LEGEND_ROWS { graph } else { graph.take(LEGEND_ROWS as int) };
    let all = first_occurrences(row_candidates(rows, any_ref));
    if all.len() < LEGEND_MAX { all } else { all.take(LEGEND_MAX as int) }
}

/// A name never occurs twice among first occurrences.
pub proof fn lemma_first_occurrences_distinct(s: Seq<(Seq<char>, usize)>)
    ensures
        forall|i: int, j: int|
            0 <= i < j < first_occurrences(s).len() ==> first_occurrences(s)[i].0 != first_occurrences(s)[j].0,
    decreases s.len(),
{
    if s.len() > 0 {
        lemma_first_occurrences_distinct(s.drop_last());
        let p = first_occurrences(s.drop_last());
        if !has_name(p, s.last().0) {
            assert forall|i: int, j: int|
                0 <= i < j < first_occurrences(s).len() implies first_occurrences(s)[i].0 != first_occurrences(s)[j].0 by {
                if j == p.len() {
                    assert(first_occurrences(s)[i] == p[i]);
                }
            }
        }
    }
}

/// The legend never shows a branch twice and never more than
/// `LEGEND_MAX` branches.
pub proof fn law_legend_branches_distinct(graph: Seq<GraphRow>, any_ref: bool)
    ensures
        legend_branches(graph, any_ref).len() <= LEGEND_MAX,
        forall|i: int, j: int|
            0 <= i < j < legend_branches(graph, any_ref).len() ==> legend_branches(graph, any_ref)[i].0
                != legend_branches(graph, any_ref)[j].0,
{
    let rows = if graph.len() < LEGEND_ROWS { graph } else { graph.take(LEGEND_ROWS as int) };
    lemma_first_occurrences_distinct(row_candidates(rows, any_ref));
}

/// Whether the entries hold a name (see `has_name`).
fn contains_name(entries: &Vec<(String, usize)>, name: &String) -> (res: bool)
    ensures
        res == has_name(entries@.map_values(|e: (String, usize)| (e.0@, e.1)), name@),
{
    let ghost v = entries@.map_values(|e: (String, usize)| (e.0@, e.1));
    let mut k: usize = 0;
    while k < entries.len()
        invariant
            k <= entries@.len(),
            v == entries@.map_values(|e: (String, usize)| (e.0@, e.1)),
            forall|m: int| 0 <= m < k ==> v[m].0 != name@,
        decreases entries@.len() - k,
    {
        if entries[k].0 == *name {
            assert(v[k as int].0 == name@);
            return true;
        }
        k = k + 1;
    }
    false
}

/// The entries as names and colors.
pub open spec fn entries_view(entries: Seq<(String, usize)>) -> Seq<(Seq<char>, usize)> {
    entries.map_values(|e: (String, usize)| (e.0@, e.1))
}

/// The branches the legend shows (see `legend_branches`).
pub fn legend_entries(graph: &Vec<GraphRow>, any_ref: bool) -> (res: Vec<(String, usize)>)
    ensures
        entries_view(res@) == legend_branches(graph@, any_ref),
{
    let rows_n = if graph.len() < LEGEND_ROWS { graph.len() } else { LEGEND_ROWS };
    let ghost rows = if graph@.len() < LEGEND_ROWS { graph@ } else { graph@.take(LEGEND_ROWS as int) };
    let mut found: Vec<(String, usize)> = Vec::new();
    let mut i: usize = 0;
    assert(graph@.take(0) =~= Seq::<GraphRow>::empty());
    while i < rows_n
        invariant
            rows_n <= graph@.len(),
            rows_n == rows.len(),
            rows =~= graph@.take(rows_n as int),
            i <= rows_n,
            entries_view(found@) == first_occurrences(row_candidates(graph@.take(i as int), any_ref)),
        decreases rows_n - i,
    {
        let row = &graph[i];
        let color = row.node.color_index;
        let ghost before = row_candidates(graph@.take(i as int), any_ref);
        let mut j: usize = 0;
        assert(row.node.refs@.take(0) =~= Seq::<RefInfo>::empty());
        assert(before + ref_candidates(row.node.refs@.take(0), color, any_ref) =~= before);
        while j < row.node.refs.len()
            invariant
                j <= row.node.refs@.len(),
                color == row.node.color_index,
                entries_view(found@) == first_occurrences(before + ref_candidates(row.node.refs@.take(j as int), color, any_ref)),
            decreases row.node.refs@.len() - j,
        {
            let r = &row.node.refs[j];
            let counts = any_ref || r.ref_type == RefType::LocalBranch || r.ref_type == RefType::Head;
            let ghost prev = before + ref_candidates(row.node.refs@.take(j as int), color, any_ref);
            proof {
                let next = row.node.refs@.take(j + 1);
                assert(next.drop_last() =~= row.node.refs@.take(j as int));
                assert(next.last() == *r);
            }
            if counts {
                let seen = contains_name(&found, &r.name);
                let ghost cand = prev.push((r.name@, color));
                assert(cand.drop_last() =~= prev);
                assert(before + ref_candidates(row.node.refs@.take(j + 1), color, any_ref) =~= cand);
                if !seen {
                    let ghost old_view = entries_view(found@);
                    found.push((r.name.clone(), color));
                    assert(entries_view(found@) =~= old_view.push((r.name@, color)));
                }
            } else {
                assert(before + ref_candidates(row.node.refs@.take(j + 1), color, any_ref) =~= prev);
            }
            j = j + 1;
        }
        proof {
            let next = graph@.take(i + 1);
            assert(next.drop_last() =~= graph@.take(i as int));
            assert(next.last() == graph@[i as int]);
            assert(row.node.refs@.take(j as int) =~= row.node.refs@);
            assert(row_candidates(next, any_ref) =~= before + ref_candidates(row.node.refs@, color, any_ref));
        }
        i = i + 1;
    }
    assert(graph@.take(rows_n as int) =~= rows);
    if found.len() > LEGEND_MAX {
        found.truncate(LEGEND_MAX);
    }
    assert(entries_view(found@) =~= legend_branches(graph@, any_ref));
    found
}

/// The full legend: "Branches: ", then a dot in each branch's color and its
/// name, two spaces apart.
pub open spec fn legend_line(entries: Seq<(Seq<char>, usize)>) -> Seq<SegmentView>
    decreases entries.len(),
{
    if entries.len() == 0 {
        seq![seg("Branches: "@, SegmentStyle { fg: Some(ThemeColor::Gray), bg: None, bold: true, dim: false, italic: false, underline: false })]
    } else {
        let last = entries.last();
        legend_line(entries.drop_last())
            + (if entries.len() > 1 { seq![seg("  "@, SegmentStyle::plain_spec())] } else { Seq::empty() })
            + seq![
                seg("●"@, SegmentStyle { fg: Some(ThemeColor::Branch(last.1)), bg: None, bold: true, dim: false, italic: false, underline: false }),
                seg(" "@ + last.0, SegmentStyle::plain_spec()),
            ]
    }
}

/// The full legend of the graph (see `legend_line`); none when no branch
/// is met.
pub fn render_legend(graph: &Vec<GraphRow>) -> (res: Option<Vec<Segment>>)
    ensures
        match res {
            Some(line) => legend_branches(graph@, false).len() > 0
                && segments_view(line@) == legend_line(legend_branches(graph@, false)),
            None => legend_branches(graph@, false).len() == 0,
        },
{
    let entries = legend_entries(graph, false);
    if entries.len() == 0 {
        return None;
    }
    let ghost ev = entries_view(entries@);
    let mut line: Vec<Segment> = Vec::new();
    push_seg(&mut line, text_seg("Branches: ", SegmentStyle { fg: Some(ThemeColor::Gray), bg: None, bold: true, dim: false, italic: false, underline: false }));
    let mut i: usize = 0;
    assert(ev.take(0) =~= Seq::<(Seq<char>, usize)>::empty());
    while i < entries.len()
        invariant
            i <= entries@.len(),
            ev == entries_view(entries@),
            segments_view(line@) == legend_line(ev.take(i as int)),
        decreases entries@.len() - i,
    {
        let ghost before = segments_view(line@);
        if i > 0 {
            push_seg(&mut line, text_seg("  ", SegmentStyle::plain()));
        }
        push_seg(&mut line, text_seg("●", SegmentStyle { fg: Some(ThemeColor::Branch(entries[i].1)), bg: None, bold: true, dim: false, italic: false, underline: false }));
        let mut name = String::new();
        push_str(&mut name, " ");
        push_str(&mut name, entries[i].0.as_str());
        push_seg(&mut line, Segment { text: name, style: SegmentStyle::plain() });
        proof {
            let next = ev.take(i + 1);
            assert(next.drop_last() =~= ev.take(i as int));
            assert(next.last() == ev[i as int]);
            assert(segments_view(line@) =~= legend_line(next));
        }
        i = i + 1;
    }
    assert(ev.take(i as int) =~= ev);
    Some(line)
}

/// The compact legend: a dot in each color, one space apart.
pub open spec fn compact_line(entries: Seq<(Seq<char>, usize)>) -> Seq<SegmentView>
    decreases entries.len(),
{
    if entries.len() == 0 {
        Seq::empty()
    } else {
        compact_line(entries.drop_last())
            + (if entries.len() > 1 { seq![seg(" "@, SegmentStyle::plain_spec())] } else { Seq::empty() })
            + seq![seg("●"@, SegmentStyle { fg: Some(ThemeColor::Branch(entries.last().1)), bg: None, bold: true, dim: false, italic: false, underline: false })]
    }
}

/// The compact legend (see `compact_line`) of the first references met,
/// of any kind; none when there is none.
pub fn render_compact_legend(graph: &Vec<GraphRow>) -> (res: Option<Vec<Segment>>)
    ensures
        match res {
            Some(line) => legend_branches(graph@, true).len() > 0
                && segments_view(line@) == compact_line(legend_branches(graph@, true)),
            None => legend_branches(graph@, true).len() == 0,
        },
{
    let entries = legend_entries(graph, true);
    if entries.len() == 0 {
        return None;
    }
    let ghost ev = entries_view(entries@);
    let mut line: Vec<Segment> = Vec::new();
    let mut i: usize = 0;
    assert(ev.take(0) =~= Seq::<(Seq<char>, usize)>::empty());
    assert(segments_view(line@) =~= compact_line(ev.take(0)));
    while i < entries.len()
        invariant
            i <= entries@.len(),
            ev == entries_view(entries@),
            segments_view(line@) == compact_line(ev.take(i as int)),
        decreases entries@.len() - i,
    {
        if i > 0 {
            push_seg(&mut line, text_seg(" ", SegmentStyle::plain()));
        }
        push_seg(&mut line, text_seg("●", SegmentStyle { fg: Some(ThemeColor::Branch(entries[i].1)), bg: None, bold: true, dim: false, italic: false, underline: false }));
        proof {
            let next = ev.take(i + 1);
            assert(next.drop_last() =~= ev.take(i as int));
            assert(next.last() == ev[i as int]);
            assert(segments_view(line@) =~= compact_line(next));
        }
        i = i + 1;
    }
    assert(ev.take(i as int) =~= ev);
    Some(line)
}

} // verus!
