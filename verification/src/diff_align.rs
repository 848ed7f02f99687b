//! Alignment of diff lines into the two columns of a side-by-side diff.

use vstd::prelude::*;

verus! {

/// Kind of a line of a unified diff.
#[derive(Debug, Clone, Copy, PartialEq, Eq, Structural)]
pub enum DiffLineType {
    Context,
    Addition,
    Deletion,
    HunkHeader,
}

/// A line of a unified diff.
#[derive(Debug, Clone)]
pub struct DiffLine {
    pub line_type: DiffLineType,
    pub content: String,
    pub old_lineno: Option<u32>,
    pub new_lineno: Option<u32>,
}

/// A line shown in one column of a side-by-side diff.
#[derive(Debug, Clone)]
pub struct SideBySideLine {
    pub old_lineno: Option<u32>,
    pub new_lineno: Option<u32>,
    pub content: String,
    pub line_type: DiffLineType,
}

/// A row of a side-by-side diff: the old version on the left, the new one on
/// the right; a missing side is a placeholder.
#[derive(Debug, Clone)]
pub struct LinePair {
    pub left: Option<SideBySideLine>,
    pub right: Option<SideBySideLine>,
}

/// How a line of the old version shows in the left column.
pub open spec fn left_line(l: DiffLine) -> SideBySideLine {
    SideBySideLine {
        old_lineno: if l.line_type == DiffLineType::HunkHeader { None } else { l.old_lineno },
        new_lineno: None,
        content: l.content,
        line_type: l.line_type,
    }
}

/// How a line of the new version shows in the right column.
pub open spec fn right_line(l: DiffLine) -> SideBySideLine {
    SideBySideLine { old_lineno: None, new_lineno: l.new_lineno, content: l.content, line_type: l.line_type }
}

/// Number of leading lines of kind `t`.
pub open spec fn run_len(s: Seq<DiffLine>, t: DiffLineType) -> nat
    decreases s.len(),
{
    if s.len() > 0 && s[0].line_type == t {
        1 + run_len(s.drop_first(), t)
    } else {
        0
    }
}

/// Rows pairing `dels` deletions (the first lines of `s`) with the `adds`
/// additions that follow them, row by row, placeholders filling the
/// shorter side.
pub open spec fn paired_block(s: Seq<DiffLine>, dels: nat, adds: nat) -> Seq<LinePair> {
    Seq::new(
        if dels >= adds { dels } else { adds },
        |k: int|
            LinePair {
                left: if k < dels { Some(left_line(s[k])) } else { None },
                right: if k < adds { Some(right_line(s[dels + k])) } else { None },
            },
    )
}

/// The side-by-side rows of a diff: a hunk header spans the left column, a
/// context line shows on both sides, a run of deletions is paired row by row
/// with the run of additions right after it, and a lone addition has a
/// placeholder on its left.
pub open spec fn aligned(s: Seq<DiffLine>) -> Seq<LinePair>
    decreases s.len(),
{
    if s.len() == 0 {
        Seq::empty()
    } else {
        match s[0].line_type {
            DiffLineType::HunkHeader => seq![LinePair { left: Some(left_line(s[0])), right: None }]
                + aligned(s.drop_first()),
            DiffLineType::Context => seq![
                LinePair { left: Some(left_line(s[0])), right: Some(right_line(s[0])) },
            ] + aligned(s.drop_first()),
            DiffLineType::Addition => seq![LinePair { left: None, right: Some(right_line(s[0])) }]
                + aligned(s.drop_first()),
            DiffLineType::Deletion => {
                let dels = run_len(s, DiffLineType::Deletion);
                let adds = run_len(s.skip(dels as int), DiffLineType::Addition);
                proof {
                    lemma_run_len_bounded(s, DiffLineType::Deletion);
                    lemma_run_len_bounded(s.skip(dels as int), DiffLineType::Addition);
                }
                paired_block(s, dels, adds) + aligned(s.skip((dels + adds) as int))
            },
        }
    }
}

pub proof fn lemma_run_len_bounded(s: Seq<DiffLine>, t: DiffLineType)
    ensures
        run_len(s, t) <= s.len(),
        forall|k: int| 0 <= k < run_len(s, t) ==> s[k].line_type == t,
        run_len(s, t) < s.len() ==> s[run_len(s, t) as int].line_type != t,
    decreases s.len(),
{
    if s.len() > 0 && s[0].line_type == t {
        lemma_run_len_bounded(s.drop_first(), t);
        assert forall|k: int| 0 <= k < run_len(s, t) implies s[k].line_type == t by {
            if k > 0 {
                assert(s[k] == s.drop_first()[k - 1]);
            }
        }
    }
}

proof fn lemma_run_len_exact(s: Seq<DiffLine>, t: DiffLineType, n: nat)
    requires
        n <= s.len(),
        forall|k: int| 0 <= k < n ==> s[k].line_type == t,
        n == s.len() || s[n as int].line_type != t,
    ensures
        run_len(s, t) == n,
    decreases n,
{
    if n > 0 {
        assert forall|k: int| 0 <= k < n - 1 implies s.drop_first()[k].line_type == t by {
            assert(s.drop_first()[k] == s[k + 1]);
        }
        lemma_run_len_exact(s.drop_first(), t, (n - 1) as nat);
    }
}

fn left_of(l: &DiffLine) -> (res: SideBySideLine)
    ensures
        res == left_line(*l),
{
    SideBySideLine {
        old_lineno: if l.line_type == DiffLineType::HunkHeader { None } else { l.old_lineno },
        new_lineno: None,
        content: l.content.clone(),
        line_type: l.line_type,
    }
}

fn right_of(l: &DiffLine) -> (res: SideBySideLine)
    ensures
        res == right_line(*l),
{
    SideBySideLine {
        old_lineno: None,
        new_lineno: l.new_lineno,
        content: l.content.clone(),
        line_type: l.line_type,
    }
}

/// Aligns the lines of a diff into side-by-side rows.
pub fn align_diff_lines(lines: &[DiffLine]) -> (pairs: Vec<LinePair>)
    ensures
        pairs@ == aligned(lines@),
{
    let mut pairs: Vec<LinePair> = Vec::new();
    let mut i: usize = 0;
    let ghost all = lines@;
    assert(all.skip(0) =~= all);
    while i < lines.len()
        invariant
            all == lines@,
            i <= all.len(),
            pairs@ + aligned(all.skip(i as int)) == aligned(all),
        decreases all.len() - i,
    {
        let ghost rest = all.skip(i as int);
        assert(rest[0] == lines@[i as int]);
        match lines[i].line_type {
            DiffLineType::HunkHeader => {
                let left = left_of(&lines[i]);
                pairs.push(LinePair { left: Some(left), right: None });
                assert(rest.drop_first() =~= all.skip(i + 1));
                i = i + 1;
                assert(pairs@ + aligned(all.skip(i as int)) =~= aligned(all));
            },
            DiffLineType::Context => {
                let left = left_of(&lines[i]);
                let right = right_of(&lines[i]);
                pairs.push(LinePair { left: Some(left), right: Some(right) });
                assert(rest.drop_first() =~= all.skip(i + 1));
                i = i + 1;
                assert(pairs@ + aligned(all.skip(i as int)) =~= aligned(all));
            },
            DiffLineType::Addition => {
                let right = right_of(&lines[i]);
                pairs.push(LinePair { left: None, right: Some(right) });
                assert(rest.drop_first() =~= all.skip(i + 1));
                i = i + 1;
                assert(pairs@ + aligned(all.skip(i as int)) =~= aligned(all));
            },
            DiffLineType::Deletion => {
                let start = i;
                while i < lines.len() && lines[i].line_type == DiffLineType::Deletion
                    invariant
                        all == lines@,
                        start <= i <= all.len(),
                        forall|k: int| start <= k < i ==> all[k].line_type == DiffLineType::Deletion,
                    decreases all.len() - i,
                {
                    i = i + 1;
                }
                let mid = i;
                while i < lines.len() && lines[i].line_type == DiffLineType::Addition
                    invariant
                        all == lines@,
                        mid <= i <= all.len(),
                        forall|k: int| mid <= k < i ==> all[k].line_type == DiffLineType::Addition,
                    decreases all.len() - i,
                {
                    i = i + 1;
                }
                let dels = mid - start;
                let adds = i - mid;
                proof {
                    assert(rest.len() == all.len() - start);
                    assert forall|k: int| 0 <= k < dels implies rest[k].line_type
                        == DiffLineType::Deletion by {
                        assert(rest[k] == all[start + k]);
                    }
                    if dels < rest.len() {
                        assert(rest[dels as int] == all[mid as int]);
                    }
                    lemma_run_len_exact(rest, DiffLineType::Deletion, dels as nat);
                    let tail = all.skip(mid as int);
                    assert(rest.skip(dels as int) =~= tail);
                    assert forall|k: int| 0 <= k < adds implies tail[k].line_type
                        == DiffLineType::Addition by {
                        assert(tail[k] == all[mid + k]);
                    }
                    if adds < tail.len() {
                        assert(tail[adds as int] == all[i as int]);
                    }
                    lemma_run_len_exact(tail, DiffLineType::Addition, adds as nat);
                    assert(rest.skip((dels + adds) as int) =~= all.skip(i as int));
                }
                let ghost before = pairs@;
                let max_len = if dels >= adds { dels } else { adds };
                let mut idx: usize = 0;
                while idx < max_len
                    invariant
                        all == lines@,
                        rest == all.skip(start as int),
                        start + dels + adds == i <= all.len(),
                        max_len == (if dels >= adds { dels } else { adds }),
                        idx <= max_len,
                        pairs@ == before + paired_block(rest, dels as nat, adds as nat).take(idx as int),
                    decreases max_len - idx,
                {
                    let left = if idx < dels {
                        assert(rest[idx as int] == all[start + idx]);
                        Some(left_of(&lines[start + idx]))
                    } else {
                        None
                    };
                    let right = if idx < adds {
                        assert(rest[dels + idx] == all[start + dels + idx]);
                        Some(right_of(&lines[start + dels + idx]))
                    } else {
                        None
                    };
                    pairs.push(LinePair { left, right });
                    idx = idx + 1;
                    assert(pairs@ =~= before + paired_block(rest, dels as nat, adds as nat).take(idx as int));
                }
                assert(paired_block(rest, dels as nat, adds as nat).take(idx as int) =~= paired_block(
                    rest,
                    dels as nat,
                    adds as nat,
                ));
                assert(pairs@ + aligned(all.skip(i as int)) =~= aligned(all));
            },
        }
    }
    assert(all.skip(i as int) =~= Seq::<DiffLine>::empty());
    assert(pairs@ =~= aligned(all));
    pairs
}


/// The lines of the left column of side-by-side rows, top to bottom.
pub open spec fn left_column(p: Seq<LinePair>) -> Seq<SideBySideLine>
    decreases p.len(),
{
    if p.len() == 0 {
        Seq::empty()
    } else {
        let head = match p[0].left {
            Some(l) => seq![l],
            None => Seq::empty(),
        };
        head + left_column(p.drop_first())
    }
}

/// The lines of the right column of side-by-side rows, top to bottom.
pub open spec fn right_column(p: Seq<LinePair>) -> Seq<SideBySideLine>
    decreases p.len(),
{
    if p.len() == 0 {
        Seq::empty()
    } else {
        let head = match p[0].right {
            Some(l) => seq![l],
            None => Seq::empty(),
        };
        head + right_column(p.drop_first())
    }
}

/// Whether a line belongs to the old version (everything but additions).
pub open spec fn on_old_side(l: DiffLine) -> bool {
    l.line_type != DiffLineType::Addition
}

/// Whether a line belongs to the new version (context and additions).
pub open spec fn on_new_side(l: DiffLine) -> bool {
    l.line_type == DiffLineType::Context || l.line_type == DiffLineType::Addition
}

/// The lines of the old version, as the left column shows them.
pub open spec fn old_side(s: Seq<DiffLine>) -> Seq<SideBySideLine>
    decreases s.len(),
{
    if s.len() == 0 {
        Seq::empty()
    } else {
        let head = if on_old_side(s[0]) { seq![left_line(s[0])] } else { Seq::empty() };
        head + old_side(s.drop_first())
    }
}

/// The lines of the new version, as the right column shows them.
pub open spec fn new_side(s: Seq<DiffLine>) -> Seq<SideBySideLine>
    decreases s.len(),
{
    if s.len() == 0 {
        Seq::empty()
    } else {
        let head = if on_new_side(s[0]) { seq![right_line(s[0])] } else { Seq::empty() };
        head + new_side(s.drop_first())
    }
}

proof fn lemma_columns_of_concat(a: Seq<LinePair>, b: Seq<LinePair>)
    ensures
        left_column(a + b) == left_column(a) + left_column(b),
        right_column(a + b) == right_column(a) + right_column(b),
    decreases a.len(),
{
    if a.len() == 0 {
        assert(a + b =~= b);
        assert(left_column(a) =~= Seq::<SideBySideLine>::empty());
        assert(left_column(a + b) =~= left_column(a) + left_column(b));
        assert(right_column(a + b) =~= right_column(a) + right_column(b));
    } else {
        assert((a + b).drop_first() =~= a.drop_first() + b);
        assert((a + b)[0] == a[0]);
        lemma_columns_of_concat(a.drop_first(), b);
        assert(left_column(a + b) =~= left_column(a) + left_column(b));
        assert(right_column(a + b) =~= right_column(a) + right_column(b));
    }
}

proof fn lemma_block_columns(s: Seq<DiffLine>, d: nat, a: nat, p: Seq<LinePair>)
    requires
        d + a <= s.len(),
        p.len() <= (if d >= a { d } else { a }),
        forall|k: int|
            0 <= k < p.len() ==> #[trigger] p[k] == paired_block(s, d, a)[k + (if d >= a {
                d
            } else {
                a
            }) - p.len()],
    ensures
        ({
            let m: int = (if d >= a { d } else { a }) as int;
            let off: int = m - p.len();
            &&& left_column(p) =~= Seq::new(
                (if d > off { d - off } else { 0 }) as nat,
                |k: int| left_line(s[off + k]),
            )
            &&& right_column(p) =~= Seq::new(
                (if a > off { a - off } else { 0 }) as nat,
                |k: int| right_line(s[d + off + k]),
            )
        }),
    decreases p.len(),
{
    let m: int = (if d >= a { d } else { a }) as int;
    let off: int = m - p.len();
    if p.len() > 0 {
        let q = p.drop_first();
        assert forall|k: int| 0 <= k < q.len() implies #[trigger] q[k] == paired_block(s, d, a)[k
            + m - q.len()] by {
            assert(q[k] == p[k + 1]);
        }
        lemma_block_columns(s, d, a, q);
        assert(p[0] == paired_block(s, d, a)[off]);
    }
}

proof fn lemma_old_side_of_deletions(s: Seq<DiffLine>, d: nat)
    requires
        d <= s.len(),
        forall|k: int| 0 <= k < d ==> s[k].line_type == DiffLineType::Deletion,
    ensures
        old_side(s) =~= Seq::new(d, |k: int| left_line(s[k])) + old_side(s.skip(d as int)),
        new_side(s) =~= new_side(s.skip(d as int)),
    decreases d,
{
    if d > 0 {
        let t = s.drop_first();
        assert forall|k: int| 0 <= k < d - 1 implies t[k].line_type == DiffLineType::Deletion by {
            assert(t[k] == s[k + 1]);
        }
        lemma_old_side_of_deletions(t, (d - 1) as nat);
        assert(t.skip(d - 1) =~= s.skip(d as int));
    } else {
        assert(s.skip(0) =~= s);
    }
}

proof fn lemma_new_side_of_additions(s: Seq<DiffLine>, a: nat)
    requires
        a <= s.len(),
        forall|k: int| 0 <= k < a ==> s[k].line_type == DiffLineType::Addition,
    ensures
        new_side(s) =~= Seq::new(a, |k: int| right_line(s[k])) + new_side(s.skip(a as int)),
        old_side(s) =~= old_side(s.skip(a as int)),
    decreases a,
{
    if a > 0 {
        let t = s.drop_first();
        assert forall|k: int| 0 <= k < a - 1 implies t[k].line_type == DiffLineType::Addition by {
            assert(t[k] == s[k + 1]);
        }
        lemma_new_side_of_additions(t, (a - 1) as nat);
        assert(t.skip(a - 1) =~= s.skip(a as int));
    } else {
        assert(s.skip(0) =~= s);
    }
}

/// Side-by-side alignment loses and reorders nothing: the left column shows
/// the lines of the old version (context, deletions, hunk headers) and the
/// right column the lines of the new version (context, additions), each in
/// the order of the diff.
pub proof fn law_alignment_keeps_both_versions(s: Seq<DiffLine>)
    ensures
        left_column(aligned(s)) == old_side(s),
        right_column(aligned(s)) == new_side(s),
    decreases s.len(),
{
    if s.len() > 0 {
        let rest = s.drop_first();
        match s[0].line_type {
            DiffLineType::Deletion => {
                let d = run_len(s, DiffLineType::Deletion);
                let a = run_len(s.skip(d as int), DiffLineType::Addition);
                lemma_run_len_bounded(s, DiffLineType::Deletion);
                lemma_run_len_bounded(s.skip(d as int), DiffLineType::Addition);
                let block = paired_block(s, d, a);
                let tail = s.skip((d + a) as int);
                law_alignment_keeps_both_versions(tail);
                lemma_columns_of_concat(block, aligned(tail));
                lemma_block_columns(s, d, a, block);
                lemma_old_side_of_deletions(s, d);
                let u = s.skip(d as int);
                assert forall|k: int| 0 <= k < a implies u[k].line_type
                    == DiffLineType::Addition by {
                }
                lemma_new_side_of_additions(u, a);
                assert(u.skip(a as int) =~= tail);
                assert(aligned(s) == block + aligned(tail));
                assert(left_column(block) =~= Seq::new(d, |k: int| left_line(s[k])));
                assert(right_column(block) =~= Seq::new(a, |k: int| right_line(u[k])));
                assert(old_side(u) == old_side(tail));
                assert(new_side(s) == new_side(u));
                assert(left_column(aligned(s)) == left_column(block) + left_column(aligned(tail)));
                assert(left_column(aligned(tail)) == old_side(tail));
                let lefts = Seq::new(d, |k: int| left_line(s[k]));
                assert(old_side(s) =~= lefts + old_side(u));
                assert(left_column(block) =~= lefts);
                assert(left_column(aligned(s)) == lefts + old_side(tail));
                assert(old_side(s) == lefts + old_side(tail));
                assert(left_column(aligned(s)) =~= old_side(s));
                assert(right_column(aligned(s)) =~= new_side(s));
            },
            _ => {
                law_alignment_keeps_both_versions(rest);
                let pair = aligned(s)[0];
                let head = seq![pair];
                assert(aligned(s) =~= head + aligned(rest));
                lemma_columns_of_concat(head, aligned(rest));
                assert(head.drop_first() =~= Seq::<LinePair>::empty());
                assert(left_column(head.drop_first()) =~= Seq::<SideBySideLine>::empty());
                assert(right_column(head.drop_first()) =~= Seq::<SideBySideLine>::empty());
                let lh = if on_old_side(s[0]) { seq![left_line(s[0])] } else { Seq::empty() };
                let rh = if on_new_side(s[0]) { seq![right_line(s[0])] } else { Seq::empty() };
                assert(left_column(head) =~= lh);
                assert(right_column(head) =~= rh);
                assert(left_column(aligned(s)) =~= old_side(s));
                assert(right_column(aligned(s)) =~= new_side(s));
            },
        }
    }
}

/// No row of the alignment is empty, and there are never more rows than
/// diff lines.
pub proof fn law_alignment_rows_are_filled(s: Seq<DiffLine>)
    ensures
        aligned(s).len() <= s.len(),
        forall|k: int|
            0 <= k < aligned(s).len() ==> (#[trigger] aligned(s)[k]).left.is_some()
                || aligned(s)[k].right.is_some(),
    decreases s.len(),
{
    if s.len() > 0 {
        let rest = s.drop_first();
        match s[0].line_type {
            DiffLineType::Deletion => {
                let d = run_len(s, DiffLineType::Deletion);
                let a = run_len(s.skip(d as int), DiffLineType::Addition);
                lemma_run_len_bounded(s, DiffLineType::Deletion);
                lemma_run_len_bounded(s.skip(d as int), DiffLineType::Addition);
                let block = paired_block(s, d, a);
                let tail = s.skip((d + a) as int);
                law_alignment_rows_are_filled(tail);
                assert forall|k: int| 0 <= k < aligned(s).len() implies (#[trigger] aligned(
                    s,
                )[k]).left.is_some() || aligned(s)[k].right.is_some() by {
                    if k >= block.len() {
                        assert(aligned(s)[k] == aligned(tail)[k - block.len()]);
                    }
                }
            },
            _ => {
                law_alignment_rows_are_filled(rest);
                assert forall|k: int| 0 <= k < aligned(s).len() implies (#[trigger] aligned(
                    s,
                )[k]).left.is_some() || aligned(s)[k].right.is_some() by {
                    if k >= 1 {
                        assert(aligned(s)[k] == aligned(rest)[k - 1]);
                    }
                }
            },
        }
    }
}

/// The lines of the diff that a column shows, in order: `old` picks the
/// lines of the old version (all but additions), otherwise those of the new
/// version (context and additions).
pub open spec fn shown_lines(s: Seq<DiffLine>, old: bool) -> Seq<DiffLine>
    decreases s.len(),
{
    if s.len() == 0 {
        Seq::empty()
    } else {
        let keep = if old {
            s[0].line_type != DiffLineType::Addition
        } else {
            s[0].line_type == DiffLineType::Context || s[0].line_type == DiffLineType::Addition
        };
        (if keep { seq![s[0]] } else { Seq::empty() }) + shown_lines(s.drop_first(), old)
    }
}

proof fn lemma_sides_show_lines(s: Seq<DiffLine>)
    ensures
        old_side(s) == shown_lines(s, true).map_values(|l: DiffLine| left_line(l)),
        new_side(s) == shown_lines(s, false).map_values(|l: DiffLine| right_line(l)),
    decreases s.len(),
{
    if s.len() > 0 {
        lemma_sides_show_lines(s.drop_first());
        let o = shown_lines(s.drop_first(), true);
        let n = shown_lines(s.drop_first(), false);
        if on_old_side(s[0]) {
            assert(shown_lines(s, true) == seq![s[0]] + o);
            assert((seq![s[0]] + o).map_values(|l: DiffLine| left_line(l)) =~= seq![left_line(s[0])]
                + o.map_values(|l: DiffLine| left_line(l)));
        } else {
            assert(shown_lines(s, true) =~= o);
            assert(old_side(s) =~= old_side(s.drop_first()));
        }
        if on_new_side(s[0]) {
            assert(shown_lines(s, false) == seq![s[0]] + n);
            assert((seq![s[0]] + n).map_values(|l: DiffLine| right_line(l)) =~= seq![right_line(s[0])]
                + n.map_values(|l: DiffLine| right_line(l)));
        } else {
            assert(shown_lines(s, false) =~= n);
            assert(new_side(s) =~= new_side(s.drop_first()));
        }
    }
}

/// Each column carries the fields of the diff line it shows: the k-th line
/// of the left column is the k-th line of the old version with its content,
/// kind and old-file line number (none for a hunk header) and no new-file
/// number; the k-th line of the right column is the k-th line of the new
/// version with its content, kind and new-file line number and no old-file
/// number.
pub proof fn law_columns_carry_line_numbers(s: Seq<DiffLine>)
    ensures
        left_column(aligned(s)).len() == shown_lines(s, true).len(),
        forall|k: int|
            0 <= k < shown_lines(s, true).len() ==> {
                let shown = #[trigger] left_column(aligned(s))[k];
                let line = shown_lines(s, true)[k];
                &&& shown.content == line.content
                &&& shown.line_type == line.line_type
                &&& shown.new_lineno is None
                &&& shown.old_lineno == (if line.line_type == DiffLineType::HunkHeader {
                    None
                } else {
                    line.old_lineno
                })
            },
        right_column(aligned(s)).len() == shown_lines(s, false).len(),
        forall|k: int|
            0 <= k < shown_lines(s, false).len() ==> {
                let shown = #[trigger] right_column(aligned(s))[k];
                let line = shown_lines(s, false)[k];
                &&& shown.content == line.content
                &&& shown.line_type == line.line_type
                &&& shown.old_lineno is None
                &&& shown.new_lineno == line.new_lineno
            },
{
    law_alignment_keeps_both_versions(s);
    lemma_sides_show_lines(s);
}

/// A run of `d` deletions followed by a run of `a` additions is shown on
/// as many rows as the longer run: row k shows the k-th deleted line on the
/// left (with its old-file line number) while there is one, and the k-th
/// added line on the right (with its new-file line number) while there is
/// one.
pub proof fn law_deletions_pair_with_following_additions(s: Seq<DiffLine>, d: nat, a: nat)
    requires
        d > 0,
        d + a <= s.len(),
        forall|k: int| 0 <= k < d ==> s[k].line_type == DiffLineType::Deletion,
        d == s.len() || s[d as int].line_type != DiffLineType::Deletion,
        forall|k: int| d <= k < d + a ==> s[k].line_type == DiffLineType::Addition,
        d + a == s.len() || s[(d + a) as int].line_type != DiffLineType::Addition,
    ensures
        aligned(s).len() >= (if d >= a { d } else { a }),
        forall|k: int|
            0 <= k < (if d >= a { d } else { a }) ==> {
                let row = #[trigger] aligned(s)[k];
                &&& (row.left is Some <==> k < d)
                &&& k < d ==> row.left->0.content == s[k].content && row.left->0.old_lineno
                    == s[k].old_lineno && row.left->0.line_type == DiffLineType::Deletion
                &&& (row.right is Some <==> k < a)
                &&& k < a ==> row.right->0.content == s[d + k].content && row.right->0.new_lineno
                    == s[d + k].new_lineno && row.right->0.line_type == DiffLineType::Addition
            },
{
    lemma_run_len_exact(s, DiffLineType::Deletion, d);
    let u = s.skip(d as int);
    assert forall|k: int| 0 <= k < a implies u[k].line_type == DiffLineType::Addition by {
        assert(u[k] == s[d + k]);
    }
    if d + a < s.len() {
        assert(u[a as int] == s[(d + a) as int]);
    }
    lemma_run_len_exact(u, DiffLineType::Addition, a);
    lemma_run_len_bounded(s, DiffLineType::Deletion);
    lemma_run_len_bounded(u, DiffLineType::Addition);
    let block = paired_block(s, d, a);
    let tail = s.skip((d + a) as int);
    assert(aligned(s) == block + aligned(tail));
    assert forall|k: int| 0 <= k < (if d >= a { d } else { a }) implies {
        let row = #[trigger] aligned(s)[k];
        &&& (row.left is Some <==> k < d)
        &&& k < d ==> row.left->0.content == s[k].content && row.left->0.old_lineno
            == s[k].old_lineno && row.left->0.line_type == DiffLineType::Deletion
        &&& (row.right is Some <==> k < a)
        &&& k < a ==> row.right->0.content == s[d + k].content && row.right->0.new_lineno
            == s[d + k].new_lineno && row.right->0.line_type == DiffLineType::Addition
    } by {
        assert(aligned(s)[k] == block[k]);
    }
}

} // verus!
