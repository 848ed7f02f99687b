//! The line drawn for one commit of the graph: lanes, selection marker,
//! short hash, reference badges, message and author/date columns.

use vstd::prelude::*;
use crate::graph::{GraphRow, Oid, RefInfo, RefType, blank, blank_segment, char_segment, edge_char,
    edge_symbol, lane_color, segment_of_char};
use crate::strings::{before_newline, first_line_of, lemma_before_newline, chars_of, decimal, push_char, push_decimal, push_str, spaces, push_spaces,
    string_from_chars};
use crate::style::{Segment, SegmentStyle, SegmentView, ThemeColor, segments_view, sat_add, sat_sub, segments_columns, spans_width};
use crate::i18n::Language;
use crate::time::{format_relative_time, is_relative_date_of};

verus! {

/// Least free width, in columns, kept for the commit message.
pub const MIN_MESSAGE_WIDTH: usize = 16;

/// Most columns the reference badges may take.
pub const MAX_REFS_WIDTH: usize = 40;

/// The lowercase hexadecimal digit of `n < 16`.
pub open spec fn hex_char(n: int) -> char {
    if n < 10 {
        (48 + n) as char
    } else {
        (87 + n) as char
    }
}

/// The lowercase hexadecimal text of a byte string, two digits per byte.
pub open spec fn hex_text(bytes: Seq<u8>) -> Seq<char> {
    Seq::new(
        2 * bytes.len(),
        |i: int|
            hex_char(
                if i % 2 == 0 {
                    bytes[i / 2] / 16
                } else {
                    bytes[i / 2] % 16
                } as int,
            ),
    )
}

/// The seven first hexadecimal digits of a commit id.
pub open spec fn short_hash_text(oid: Oid) -> Seq<char> {
    hex_text(oid.bytes@).take(7)
}

fn hex_digit(n: u8) -> (c: char)
    requires
        n < 16,
    ensures
        c == hex_char(n as int),
{
    if n < 10 {
        (48u8 + n) as char
    } else {
        (87u8 + n) as char
    }
}

/// The `n` first hexadecimal digits of a commit id.
fn hex_prefix(oid: &Oid, n: usize) -> (res: String)
    requires
        n <= 40,
    ensures
        res@ == hex_text(oid.bytes@).take(n as int),
{
    let ghost full = hex_text(oid.bytes@);
    let mut s = String::new();
    let mut i: usize = 0;
    while i < n
        invariant
            i <= n <= 40,
            full == hex_text(oid.bytes@),
            s@ == full.take(i as int),
        decreases n - i,
    {
        let b = oid.bytes[i / 2];
        let nibble = if i % 2 == 0 {
            b / 16
        } else {
            b % 16
        };
        push_char(&mut s, hex_digit(nibble));
        i = i + 1;
        assert(s@ =~= full.take(i as int));
    }
    s
}

/// The abbreviated (seven digit) hexadecimal form of a commit id.
pub fn short_hash(oid: &Oid) -> (res: String)
    ensures
        res@ == short_hash_text(*oid),
{
    hex_prefix(oid, 7)
}

/// The full (forty digit) hexadecimal form of a commit id.
pub fn full_hash(oid: &Oid) -> (res: String)
    ensures
        res@ == hex_text(oid.bytes@),
{
    let s = hex_prefix(oid, 40);
    assert(hex_text(oid.bytes@).take(40) =~= hex_text(oid.bytes@));
    s
}

/// Whether one of the references is HEAD.
pub open spec fn points_to_head(refs: Seq<RefInfo>) -> bool {
    exists|i: int| 0 <= i < refs.len() && refs[i].ref_type == RefType::Head
}

/// Whether one of the references is HEAD.
pub fn has_head_ref(refs: &Vec<RefInfo>) -> (res: bool)
    ensures
        res == points_to_head(refs@),
{
    let mut i: usize = 0;
    while i < refs.len()
        invariant
            i <= refs@.len(),
            forall|j: int| 0 <= j < i ==> refs@[j].ref_type != RefType::Head,
        decreases refs@.len() - i,
    {
        if refs[i].ref_type == RefType::Head {
            return true;
        }
        i = i + 1;
    }
    false
}

/// The name of the first HEAD reference, if any.
pub open spec fn first_head_name(refs: Seq<RefInfo>) -> Option<Seq<char>>
    decreases refs.len(),
{
    if refs.len() == 0 {
        None
    } else if refs[0].ref_type == RefType::Head {
        Some(refs[0].name@)
    } else {
        first_head_name(refs.drop_first())
    }
}

fn head_name(refs: &Vec<RefInfo>) -> (res: Option<usize>)
    ensures
        match res {
            Some(i) => i < refs@.len() && first_head_name(refs@) == Some(refs@[i as int].name@),
            None => first_head_name(refs@) is None,
        },
{
    let mut i: usize = 0;
    assert(refs@.skip(0) =~= refs@);
    while i < refs.len()
        invariant
            i <= refs@.len(),
            first_head_name(refs@) == first_head_name(refs@.skip(i as int)),
        decreases refs@.len() - i,
    {
        assert(refs@.skip(i as int).drop_first() =~= refs@.skip(i + 1));
        if refs[i].ref_type == RefType::Head {
            return Some(i);
        }
        i = i + 1;
    }
    None
}

/// Display order of reference kinds: HEAD, local branches, tags, remote
/// branches.
pub open spec fn ref_rank(t: RefType) -> int {
    match t {
        RefType::Head => 0,
        RefType::LocalBranch => 1,
        RefType::Tag => 2,
        RefType::RemoteBranch => 3,
    }
}

/// A local branch of the same name as HEAD is not shown a second time.
pub open spec fn badge_kept(r: RefInfo, head: Option<Seq<char>>) -> bool {
    !(r.ref_type == RefType::LocalBranch && head == Some(r.name@))
}

/// The kept references of rank `k` among the `n` first, in their order.
pub open spec fn refs_of_rank(refs: Seq<RefInfo>, head: Option<Seq<char>>, k: int, n: int) -> Seq<
    RefInfo,
>
    decreases n,
{
    if n <= 0 {
        Seq::empty()
    } else {
        let prev = refs_of_rank(refs, head, k, n - 1);
        if badge_kept(refs[n - 1], head) && ref_rank(refs[n - 1].ref_type) == k {
            prev.push(refs[n - 1])
        } else {
            prev
        }
    }
}

/// The references shown as badges: those kept, stably ordered by kind.
pub open spec fn badge_order(refs: Seq<RefInfo>) -> Seq<RefInfo> {
    let head = first_head_name(refs);
    let n = refs.len() as int;
    refs_of_rank(refs, head, 0, n) + refs_of_rank(refs, head, 1, n) + refs_of_rank(refs, head, 2, n)
        + refs_of_rank(refs, head, 3, n)
}

/// The references `refs[order[i]]`.
pub open spec fn select_refs(refs: Seq<RefInfo>, order: Seq<usize>) -> Seq<RefInfo> {
    order.map_values(|i: usize| refs[i as int])
}

fn rank_of(t: RefType) -> (res: u8)
    ensures
        res == ref_rank(t),
{
    match t {
        RefType::Head => 0,
        RefType::LocalBranch => 1,
        RefType::Tag => 2,
        RefType::RemoteBranch => 3,
    }
}

fn push_refs_of_rank(
    refs: &Vec<RefInfo>,
    head: Option<usize>,
    k: u8,
    order: &mut Vec<usize>,
)
    requires
        k <= 3,
        match head {
            Some(h) => h < refs@.len() && first_head_name(refs@) == Some(refs@[h as int].name@),
            None => first_head_name(refs@) is None,
        },
        forall|j: int| 0 <= j < old(order)@.len() ==> old(order)@[j] < refs@.len(),
    ensures
        forall|j: int| 0 <= j < final(order)@.len() ==> final(order)@[j] < refs@.len(),
        select_refs(refs@, final(order)@) == select_refs(refs@, old(order)@) + refs_of_rank(
            refs@,
            first_head_name(refs@),
            k as int,
            refs@.len() as int,
        ),
{
    let ghost start = order@;
    let ghost headname = first_head_name(refs@);
    let mut i: usize = 0;
    while i < refs.len()
        invariant
            k <= 3,
            i <= refs@.len(),
            headname == first_head_name(refs@),
            match head {
                Some(h) => h < refs@.len() && headname == Some(refs@[h as int].name@),
                None => headname is None,
            },
            forall|j: int| 0 <= j < order@.len() ==> order@[j] < refs@.len(),
            select_refs(refs@, order@) == select_refs(refs@, start) + refs_of_rank(
                refs@,
                headname,
                k as int,
                i as int,
            ),
        decreases refs@.len() - i,
    {
        let r = &refs[i];
        let same_as_head = match head {
            Some(h) => r.name == refs[h].name,
            None => false,
        };
        let kept = !(r.ref_type == RefType::LocalBranch && same_as_head);
        let ghost before = order@;
        if kept && rank_of(r.ref_type) == k {
            order.push(i);
            assert(select_refs(refs@, order@) =~= select_refs(refs@, before).push(refs@[i as int]));
        }
        i = i + 1;
    }
}

/// Indices of the references shown as badges, in display order.
pub fn badge_refs(refs: &Vec<RefInfo>) -> (order: Vec<usize>)
    ensures
        forall|j: int| 0 <= j < order@.len() ==> order@[j] < refs@.len(),
        select_refs(refs@, order@) == badge_order(refs@),
{
    let head = head_name(refs);
    let mut order: Vec<usize> = Vec::new();
    assert(select_refs(refs@, order@) =~= Seq::<RefInfo>::empty());
    push_refs_of_rank(refs, head, 0, &mut order);
    push_refs_of_rank(refs, head, 1, &mut order);
    push_refs_of_rank(refs, head, 2, &mut order);
    push_refs_of_rank(refs, head, 3, &mut order);
    order
}

/// The text of a reference badge.
pub open spec fn badge_label(r: RefInfo) -> Seq<char> {
    match r.ref_type {
        RefType::Head => " HEAD:"@ + r.name@ + " "@,
        RefType::LocalBranch => " "@ + r.name@ + " "@,
        RefType::Tag => " tag:"@ + r.name@ + " "@,
        RefType::RemoteBranch => " remote:"@ + r.name@ + " "@,
    }
}

/// The style of a reference badge; local branches take the commit's lane
/// color.
pub open spec fn badge_style(t: RefType, color_index: usize) -> SegmentStyle {
    match t {
        RefType::Head => SegmentStyle {
            fg: Some(ThemeColor::Background),
            bg: Some(ThemeColor::Success),
            bold: true,
            dim: false,
            italic: false, underline: false,
        },
        RefType::LocalBranch => SegmentStyle {
            fg: Some(ThemeColor::Background),
            bg: Some(ThemeColor::Branch(color_index)),
            bold: true,
            dim: false,
            italic: false, underline: false,
        },
        RefType::Tag => SegmentStyle {
            fg: Some(ThemeColor::Background),
            bg: Some(ThemeColor::Warning),
            bold: true,
            dim: false,
            italic: false, underline: false,
        },
        RefType::RemoteBranch => SegmentStyle {
            fg: Some(ThemeColor::TextSecondary),
            bg: None,
            bold: false,
            dim: true,
            italic: false, underline: false,
        },
    }
}

/// Dimmed secondary text.
pub open spec fn dim_secondary() -> SegmentStyle {
    SegmentStyle {
        fg: Some(ThemeColor::TextSecondary),
        bg: None,
        bold: false,
        dim: true,
        italic: false, underline: false,
    }
}

/// A segment of one space without style.
pub open spec fn one_space() -> SegmentView {
    SegmentView { text: spaces(1), style: SegmentStyle::plain_spec() }
}

/// Badges of the `n` first references: the segments, the columns used and
/// the number of references left out. A badge is shown, followed by a
/// space, while it fits strictly within the budget.
pub open spec fn badges_after(refs: Seq<RefInfo>, budget: int, color_index: usize, n: int) -> (
    Seq<SegmentView>,
    int,
    int,
)
    decreases n,
{
    if n <= 0 {
        (Seq::empty(), 0, 0)
    } else {
        let (segs, used, hidden) = badges_after(refs, budget, color_index, n - 1);
        let label = badge_label(refs[n - 1]);
        if used + label.len() < budget {
            (
                segs + seq![
                    SegmentView { text: label, style: badge_style(refs[n - 1].ref_type, color_index) },
                    one_space(),
                ],
                used + label.len() + 1,
                hidden,
            )
        } else {
            (segs, used, hidden + 1)
        }
    }
}

/// The text summing up hidden references: " +N ".
pub open spec fn hidden_summary(hidden: nat) -> Seq<char> {
    " +"@ + decimal(hidden) + " "@
}

/// The badges of the references within a width budget; the references that
/// do not fit are counted in a dimmed " +N " when that fits.
pub open spec fn ref_badges(refs: Seq<RefInfo>, budget: int, color_index: usize) -> Seq<SegmentView> {
    let (segs, used, hidden) = badges_after(refs, budget, color_index, refs.len() as int);
    let summary = hidden_summary(hidden as nat);
    if hidden > 0 && used + summary.len() <= budget {
        segs.push(SegmentView { text: summary, style: dim_secondary() })
    } else {
        segs
    }
}

proof fn lemma_badges_used_bounded(refs: Seq<RefInfo>, budget: int, color_index: usize, n: int)
    requires
        budget >= 0,
    ensures
        0 <= badges_after(refs, budget, color_index, n).1 <= budget,
        badges_after(refs, budget, color_index, n).2 >= 0,
    decreases n,
{
    if n > 0 {
        lemma_badges_used_bounded(refs, budget, color_index, n - 1);
    }
}

fn badge_label_text(r: &RefInfo) -> (res: String)
    ensures
        res@ == badge_label(*r),
{
    let mut s = String::new();
    match r.ref_type {
        RefType::Head => push_str(&mut s, " HEAD:"),
        RefType::LocalBranch => push_str(&mut s, " "),
        RefType::Tag => push_str(&mut s, " tag:"),
        RefType::RemoteBranch => push_str(&mut s, " remote:"),
    }
    push_str(&mut s, r.name.as_str());
    push_str(&mut s, " ");
    assert(s@ =~= badge_label(*r));
    s
}

fn badge_style_of(t: RefType, color_index: usize) -> (res: SegmentStyle)
    ensures
        res == badge_style(t, color_index),
{
    match t {
        RefType::Head => SegmentStyle {
            fg: Some(ThemeColor::Background),
            bg: Some(ThemeColor::Success),
            bold: true,
            dim: false,
            italic: false, underline: false,
        },
        RefType::LocalBranch => SegmentStyle {
            fg: Some(ThemeColor::Background),
            bg: Some(ThemeColor::Branch(color_index)),
            bold: true,
            dim: false,
            italic: false, underline: false,
        },
        RefType::Tag => SegmentStyle {
            fg: Some(ThemeColor::Background),
            bg: Some(ThemeColor::Warning),
            bold: true,
            dim: false,
            italic: false, underline: false,
        },
        RefType::RemoteBranch => SegmentStyle {
            fg: Some(ThemeColor::TextSecondary),
            bg: None,
            bold: false,
            dim: true,
            italic: false, underline: false,
        },
    }
}

fn space_segment() -> (res: Segment)
    ensures
        res@ == one_space(),
{
    let mut text = String::new();
    push_spaces(&mut text, 1);
    Segment { text, style: SegmentStyle::plain() }
}

/// Appends the badges of the references `refs[order[..]]` within a width
/// budget (see `ref_badges`).
pub fn push_ref_badges(
    segments: &mut Vec<Segment>,
    refs: &Vec<RefInfo>,
    order: &Vec<usize>,
    width_budget: usize,
    color_index: usize,
)
    requires
        forall|j: int| 0 <= j < order@.len() ==> order@[j] < refs@.len(),
    ensures
        segments_view(final(segments)@) == segments_view(old(segments)@) + ref_badges(
            select_refs(refs@, order@),
            width_budget as int,
            color_index,
        ),
{
    let ghost start = segments_view(segments@);
    let ghost sel = select_refs(refs@, order@);
    let mut used: usize = 0;
    let mut hidden: usize = 0;
    let mut i: usize = 0;
    while i < order.len()
        invariant
            i <= order@.len(),
            sel == select_refs(refs@, order@),
            forall|j: int| 0 <= j < order@.len() ==> order@[j] < refs@.len(),
            used <= width_budget,
            hidden <= i,
            badges_after(sel, width_budget as int, color_index, i as int) == (
                segments_view(segments@).skip(start.len() as int),
                used as int,
                hidden as int,
            ),
            segments_view(segments@).len() >= start.len(),
            segments_view(segments@).take(start.len() as int) == start,
        decreases order@.len() - i,
    {
        let r = &refs[order[i]];
        let label = badge_label_text(r);
        let label_width = label.as_str().unicode_len();
        let ghost before = segments_view(segments@);
        if label_width < width_budget - used {
            let style = badge_style_of(r.ref_type, color_index);
            segments.push(Segment { text: label, style });
            segments.push(space_segment());
            used = used + label_width + 1;
            proof {
                let after = segments_view(segments@);
                assert(after =~= before.push(after[before.len() as int]).push(after[before.len() as int + 1]));
                assert(after.skip(start.len() as int) =~= before.skip(start.len() as int) + seq![
                    after[before.len() as int], after[before.len() as int + 1]]);
                assert(after.take(start.len() as int) =~= before.take(start.len() as int));
            }
        } else {
            hidden = hidden + 1;
        }
        i = i + 1;
    }
    proof {
        lemma_badges_used_bounded(sel, width_budget as int, color_index, sel.len() as int);
    }
    if hidden > 0 {
        let mut summary = String::new();
        push_str(&mut summary, " +");
        push_decimal(&mut summary, hidden as u64);
        push_str(&mut summary, " ");
        assert(summary@ =~= hidden_summary(hidden as nat));
        let summary_width = summary.as_str().unicode_len();
        if summary_width <= width_budget - used {
            let ghost before = segments_view(segments@);
            segments.push(Segment { text: summary, style: SegmentStyle {
                fg: Some(ThemeColor::TextSecondary),
                bg: None,
                bold: false,
                dim: true,
                italic: false, underline: false,
            } });
            proof {
                let after = segments_view(segments@);
                assert(after.skip(start.len() as int) =~= before.skip(start.len() as int).push(
                    after.last()));
                assert(after.take(start.len() as int) =~= before.take(start.len() as int));
            }
        }
    }
    assert(segments_view(segments@) =~= start + segments_view(segments@).skip(start.len() as int));
}

/// A text cut to at most `max` characters, the last one kept replaced by an
/// ellipsis when the text is cut.
pub open spec fn truncated_text(v: Seq<char>, max: int) -> Seq<char> {
    if v.len() <= max {
        v
    } else if max <= 0 {
        Seq::empty()
    } else if max == 1 {
        seq!['…']
    } else {
        v.take(max - 1).push('…')
    }
}

/// Cuts a text to at most `max_width` characters, ending it with an
/// ellipsis when it is cut.
pub fn truncate_text(value: &str, max_width: usize) -> (res: String)
    ensures
        res@ == truncated_text(value@, max_width as int),
{
    let width = value.unicode_len();
    if width <= max_width {
        return value.to_owned();
    }
    if max_width == 0 {
        return String::new();
    }
    if max_width == 1 {
        let mut s = String::new();
        push_char(&mut s, '…');
        assert(s@ =~= seq!['…']);
        return s;
    }
    let chars = chars_of(value);
    let mut truncated = string_from_chars(&chars, 0, max_width - 1);
    push_char(&mut truncated, '…');
    assert(chars@.subrange(0, max_width - 1) =~= value@.take(max_width - 1));
    truncated
}

/// The author and date columns shown after the message, from the relative
/// date text: none under 58 columns; under 96 columns the author on 10
/// characters (left aligned) and the date on 12 (right aligned); else 14
/// and 16.
pub open spec fn metadata_text(author: Seq<char>, date: Seq<char>, available_width: int) -> Option<
    (Seq<char>, Seq<char>),
> {
    if available_width < 58 {
        None
    } else {
        let (aw, dw) = if available_width < 96 {
            (10int, 12int)
        } else {
            (14int, 16int)
        };
        let a = truncated_text(author, aw);
        let d = truncated_text(date, dw);
        Some(
            (
                " │ "@ + a + spaces(sat_sub(aw, a.len() as int) as nat),
                " · "@ + spaces(sat_sub(dw, d.len() as int) as nat) + d,
            ),
        )
    }
}

/// Lays out the author and relative date columns of a commit line.
pub fn format_metadata(author: &str, relative_date: &str, available_width: u16) -> (res: Option<
    (String, String),
>)
    ensures
        match res {
            Some((a, d)) => metadata_text(author@, relative_date@, available_width as int) == Some(
                (a@, d@),
            ),
            None => metadata_text(author@, relative_date@, available_width as int) is None,
        },
{
    if available_width < 58 {
        return None;
    }
    let (aw, dw): (usize, usize) = if available_width < 96 {
        (10, 12)
    } else {
        (14, 16)
    };
    let a = truncate_text(author, aw);
    let d = truncate_text(relative_date, dw);
    let alen = a.as_str().unicode_len();
    let dlen = d.as_str().unicode_len();
    let mut author_col = String::new();
    push_str(&mut author_col, " │ ");
    push_str(&mut author_col, a.as_str());
    push_spaces(&mut author_col, aw.saturating_sub(alen));
    let mut date_col = String::new();
    push_str(&mut date_col, " · ");
    push_spaces(&mut date_col, dw.saturating_sub(dlen));
    push_str(&mut date_col, d.as_str());
    assert(author_col@ =~= " │ "@ + a@ + spaces(sat_sub(aw as int, a@.len() as int) as nat));
    assert(date_col@ =~= " · "@ + spaces(sat_sub(dw as int, d@.len() as int) as nat) + d@);
    Some((author_col, date_col))
}

/// The author and relative date columns of a commit line: the date is the
/// time elapsed from the commit's timestamp to now.
pub fn build_metadata(author: &str, timestamp: i64, available_width: u16, lang: Language) -> (res:
    Option<(String, String)>)
    ensures
        exists|date: Seq<char>|
            {
                &&& is_relative_date_of(date, timestamp, lang)
                &&& match res {
                    Some((a, d)) => metadata_text(author@, date, available_width as int) == Some(
                        (a@, d@),
                    ),
                    None => metadata_text(author@, date, available_width as int) is None,
                }
            },
{
    let date = format_relative_time(timestamp, lang);
    format_metadata(author, date.as_str(), available_width)
}

/// The first line of a text (see `first_line_of`).
pub fn first_line(s: &str) -> (res: String)
    ensures
        res@ == first_line_of(s@),
{
    let chars = chars_of(s);
    let n = chars.len();
    let mut i: usize = 0;
    while i < n && chars[i] != '\n'
        invariant
            n == chars@.len(),
            chars@ == s@,
            i <= n,
            forall|j: int| 0 <= j < i ==> chars@[j] != '\n',
        decreases n - i,
    {
        i = i + 1;
    }
    proof {
        lemma_before_newline(s@, i as int);
    }
    let end = if i < n && i > 0 && chars[i - 1] == '\r' {
        i - 1
    } else {
        i
    };
    let res = string_from_chars(&chars, 0, end);
    assert(res@ =~= first_line_of(s@));
    res
}

/// The symbol of a commit node: HEAD, merge commit, or plain commit.
pub open spec fn node_symbol(is_head: bool, parent_count: int) -> char {
    if is_head {
        '◆'
    } else if parent_count > 1 {
        '○'
    } else {
        '●'
    }
}

/// The style of a commit node: bold, in the success color for HEAD and in
/// its lane color otherwise.
pub open spec fn node_style(is_head: bool, color_index: usize) -> SegmentStyle {
    SegmentStyle {
        fg: Some(
            if is_head {
                ThemeColor::Success
            } else {
                lane_color(color_index)
            },
        ),
        bg: None,
        bold: true,
        dim: false,
        italic: false, underline: false,
    }
}

/// The number of lanes of a commit row: its cells, and at least up to the
/// node's own lane.
pub open spec fn lane_count(row: GraphRow) -> int {
    if row.cells@.len() > row.node.column + 1 {
        row.cells@.len() as int
    } else {
        row.node.column + 1
    }
}

/// The segments of lane `col` of a commit row of `n` lanes: the node, an
/// edge, or blank; every lane but the last is two columns wide.
pub open spec fn commit_lane(row: GraphRow, col: int, n: int) -> Seq<SegmentView> {
    let node = row.node;
    let cells = row.cells@;
    if col == node.column {
        let head = points_to_head(node.refs@);
        let sym = char_segment(
            node_symbol(head, node.parents@.len() as int),
            node_style(head, node.color_index),
        );
        if col < n - 1 {
            seq![sym, blank_segment(1)]
        } else {
            seq![sym]
        }
    } else if col < cells.len() && cells[col] is Some {
        let cell = cells[col]->0;
        let edge = char_segment(
            edge_char(cell.edge_type),
            SegmentStyle::fg_spec(lane_color(cell.color_index)),
        );
        if col < n - 1 {
            seq![edge, blank_segment(1)]
        } else {
            seq![edge]
        }
    } else {
        seq![
            blank_segment(
                if col < n - 1 {
                    2nat
                } else {
                    1nat
                },
            ),
        ]
    }
}

/// The segments of the `k` first lanes of a commit row of `n` lanes.
pub open spec fn commit_lanes(row: GraphRow, n: int, k: int) -> Seq<SegmentView>
    decreases k,
{
    if k <= 0 {
        Seq::empty()
    } else {
        commit_lanes(row, n, k - 1) + commit_lane(row, k - 1, n)
    }
}

/// `k` blank lanes of two columns.
pub open spec fn lane_padding(k: int) -> Seq<SegmentView> {
    Seq::new(
        if k > 0 {
            k as nat
        } else {
            0nat
        },
        |i: int| blank_segment(2),
    )
}

/// The style of the commit's own texts: the given color, bold when the
/// commit is selected.
pub open spec fn content_style(color: ThemeColor, is_selected: bool) -> SegmentStyle {
    SegmentStyle { fg: Some(color), bg: None, bold: is_selected, dim: false, italic: false, underline: false }
}

/// The selection marker between the graph and the hash.
pub open spec fn marker_segment(is_selected: bool) -> SegmentView {
    SegmentView {
        text: if is_selected {
            " ▶ "@
        } else {
            "   "@
        },
        style: SegmentStyle {
            fg: Some(ThemeColor::Primary),
            bg: None,
            bold: true,
            dim: false,
            italic: false, underline: false,
        },
    }
}

/// The lanes, the padding to the widest row, the marker and the short hash.
pub open spec fn commit_prefix(row: GraphRow, is_selected: bool, max_graph_cols: int) -> Seq<
    SegmentView,
> {
    let n = lane_count(row);
    commit_lanes(row, n, n) + lane_padding(max_graph_cols - n) + seq![
        marker_segment(is_selected),
        SegmentView {
            text: short_hash_text(row.node.oid) + " "@,
            style: content_style(ThemeColor::CommitHash, is_selected),
        },
    ]
}

/// Characters taken by the author and date columns.
pub open spec fn metadata_width(meta: Option<(Seq<char>, Seq<char>)>) -> int {
    match meta {
        Some((a, d)) => sat_add(a.len() as int, d.len() as int),
        None => 0,
    }
}

/// The segments of the author and date columns.
pub open spec fn metadata_segments(meta: Option<(Seq<char>, Seq<char>)>, is_selected: bool) -> Seq<
    SegmentView,
> {
    match meta {
        Some((a, d)) => seq![
            SegmentView { text: a, style: content_style(ThemeColor::TextSecondary, is_selected) },
            SegmentView {
                text: d,
                style: SegmentStyle {
                    fg: Some(ThemeColor::TextSecondary),
                    bg: None,
                    bold: is_selected,
                    dim: true,
                    italic: false, underline: false,
                },
            },
        ],
        None => Seq::empty(),
    }
}

/// The selection background given to every segment that has none.
pub open spec fn selection_style(st: SegmentStyle) -> SegmentStyle {
    if st.bg is None {
        SegmentStyle { bg: Some(ThemeColor::SelectionBg), ..st }
    } else {
        st
    }
}

/// A line with the selection background put under every segment without a
/// background.
pub open spec fn with_selection_bg(s: Seq<SegmentView>) -> Seq<SegmentView> {
    s.map_values(|g: SegmentView| SegmentView { text: g.text, style: selection_style(g.style) })
}

/// The columns left to the badges: what remains of the width once the
/// prefix, the author and date columns and a message of 16 columns are
/// placed, at most 40.
pub open spec fn badge_budget(prefix_columns: int, meta_w: int, available_width: int) -> int {
    let room = sat_sub(available_width, sat_add(sat_add(prefix_columns, meta_w), MIN_MESSAGE_WIDTH as int));
    if room < MAX_REFS_WIDTH {
        room
    } else {
        MAX_REFS_WIDTH as int
    }
}

/// The message segment: the first line of the message cut to `max_msg`
/// characters.
pub open spec fn message_segment(row: GraphRow, is_selected: bool, max_msg: int) -> SegmentView {
    SegmentView {
        text: truncated_text(first_line_of(row.node.message@), max_msg),
        style: content_style(
            if is_selected {
                ThemeColor::SelectionFg
            } else {
                ThemeColor::TextNormal
            },
            is_selected,
        ),
    }
}

/// A line filled with spaces up to the available width, with the selection
/// background when selected.
pub open spec fn filled_line(body: Seq<SegmentView>, available_width: int, is_selected: bool) -> Seq<
    SegmentView,
> {
    let lw = segments_columns(body);
    let full = if lw < available_width {
        body.push(blank_segment((available_width - lw) as nat))
    } else {
        body
    };
    if is_selected {
        with_selection_bg(full)
    } else {
        full
    }
}

/// The line of a commit row, for given author and date columns. The badges
/// get what is left of the width once the prefix, the columns and a
/// message of 16 columns are placed, at most 40 columns; the message (its
/// first line) gets the rest. A shorter line is filled with spaces up to
/// the available width, and a selected line gets the selection background.
#[verifier::opaque]
pub open spec fn commit_line(
    row: GraphRow,
    is_selected: bool,
    available_width: int,
    max_graph_cols: int,
    meta: Option<(Seq<char>, Seq<char>)>,
) -> Seq<SegmentView> {
    let prefix = commit_prefix(row, is_selected, max_graph_cols);
    let meta_w = metadata_width(meta);
    let budget = badge_budget(segments_columns(prefix), meta_w, available_width);
    let with_refs = prefix + ref_badges(badge_order(row.node.refs@), budget, row.node.color_index);
    let max_msg = sat_sub(available_width, sat_add(segments_columns(with_refs), meta_w));
    filled_line(
        with_refs.push(message_segment(row, is_selected, max_msg)) + metadata_segments(meta, is_selected),
        available_width,
        is_selected,
    )
}

/// The author and date columns as texts.
pub open spec fn metadata_view(m: &Option<(String, String)>) -> Option<(Seq<char>, Seq<char>)> {
    match m {
        Some((a, d)) => Some((a@, d@)),
        None => None,
    }
}

fn lane_segments(row: &GraphRow) -> (res: Vec<Segment>)
    requires
        row.node.column < usize::MAX,
    ensures
        segments_view(res@) == commit_lanes(*row, lane_count(*row), lane_count(*row)),
{
    let node = &row.node;
    let cells = &row.cells;
    let is_head = has_head_ref(&node.refs);
    let num_cols = if cells.len() > node.column + 1 {
        cells.len()
    } else {
        node.column + 1
    };
    let ghost n = lane_count(*row);
    let mut segments: Vec<Segment> = Vec::new();
    let mut col: usize = 0;
    while col < num_cols
        invariant
            n == lane_count(*row),
            num_cols == n,
            node == &row.node,
            cells == &row.cells,
            is_head == points_to_head(row.node.refs@),
            col <= num_cols,
            segments_view(segments@) == commit_lanes(*row, n, col as int),
        decreases num_cols - col,
    {
        let ghost before = segments_view(segments@);
        if col == node.column {
            let symbol = if is_head {
                '◆'
            } else if node.parents.len() > 1 {
                '○'
            } else {
                '●'
            };
            let style = SegmentStyle {
                fg: Some(
                    if is_head {
                        ThemeColor::Success
                    } else {
                        ThemeColor::Branch(node.color_index)
                    },
                ),
                bg: None,
                bold: true,
                dim: false,
                italic: false, underline: false,
            };
            segments.push(segment_of_char(symbol, style));
            if col < num_cols - 1 {
                segments.push(blank(1));
            }
        } else if col < cells.len() && cells[col].is_some() {
            let cell = cells[col].unwrap();
            let style = SegmentStyle::fg(ThemeColor::Branch(cell.color_index));
            segments.push(segment_of_char(edge_symbol(cell.edge_type), style));
            if col < num_cols - 1 {
                segments.push(blank(1));
            }
        } else {
            let width = if col < num_cols - 1 {
                2
            } else {
                1
            };
            segments.push(blank(width));
        }
        proof {
            assert(segments_view(segments@) =~= before + commit_lane(*row, col as int, n));
        }
        col = col + 1;
    }
    segments
}

fn push_segment(segments: &mut Vec<Segment>, seg: Segment)
    ensures
        segments_view(final(segments)@) == segments_view(old(segments)@).push(seg@),
{
    segments.push(seg);
    proof {
        assert(segments_view(segments@) =~= segments_view(old(segments)@).push(seg@));
    }
}

fn text_segment(text: &str, style: SegmentStyle) -> (res: Segment)
    ensures
        res@ == (SegmentView { text: text@, style }),
{
    Segment { text: text.to_owned(), style }
}

fn content_style_of(color: ThemeColor, is_selected: bool) -> (res: SegmentStyle)
    ensures
        res == content_style(color, is_selected),
{
    SegmentStyle { fg: Some(color), bg: None, bold: is_selected, dim: false, italic: false, underline: false }
}

fn apply_selection_bg(segments: Vec<Segment>) -> (res: Vec<Segment>)
    ensures
        segments_view(res@) == with_selection_bg(segments_view(segments@)),
{
    let mut out: Vec<Segment> = Vec::new();
    let mut i: usize = 0;
    while i < segments.len()
        invariant
            i <= segments@.len(),
            segments_view(out@) == with_selection_bg(segments_view(segments@.take(i as int))),
        decreases segments@.len() - i,
    {
        let seg = &segments[i];
        let style = if seg.style.bg.is_none() {
            SegmentStyle { bg: Some(ThemeColor::SelectionBg), ..seg.style }
        } else {
            seg.style
        };
        let ghost before = segments_view(out@);
        out.push(Segment { text: seg.text.clone(), style });
        proof {
            assert(segments@.take(i + 1) =~= segments@.take(i as int).push(segments@[i as int]));
            assert(segments_view(out@) =~= before.push(
                SegmentView { text: segments@[i as int].text@, style: selection_style(segments@[i as int].style) },
            ));
            assert(segments_view(out@) =~= with_selection_bg(segments_view(segments@.take(i + 1))));
        }
        i = i + 1;
    }
    assert(segments@.take(i as int) =~= segments@);
    out
}

fn prefix_segments(row: &GraphRow, is_selected: bool, max_graph_cols: usize) -> (res: Vec<Segment>)
    requires
        row.node.column < usize::MAX,
    ensures
        segments_view(res@) == commit_prefix(*row, is_selected, max_graph_cols as int),
{
    let node = &row.node;
    let mut segments = lane_segments(row);
    let num_cols = if row.cells.len() > node.column + 1 {
        row.cells.len()
    } else {
        node.column + 1
    };
    let mut pad: usize = num_cols;
    let ghost lanes = segments_view(segments@);
    while pad < max_graph_cols
        invariant
            num_cols <= pad <= max_graph_cols || (pad == num_cols && max_graph_cols < num_cols),
            segments_view(segments@) == lanes + lane_padding(pad - num_cols),
        decreases max_graph_cols - pad,
    {
        push_segment(&mut segments, blank(2));
        pad = pad + 1;
        assert(lane_padding(pad - num_cols) =~= lane_padding(pad - 1 - num_cols).push(
            blank_segment(2),
        ));
    }
    assert(lane_padding(pad - num_cols) =~= lane_padding(max_graph_cols - num_cols));
    let marker = if is_selected {
        " ▶ "
    } else {
        "   "
    };
    push_segment(
        &mut segments,
        text_segment(
            marker,
            SegmentStyle {
                fg: Some(ThemeColor::Primary),
                bg: None,
                bold: true,
                dim: false,
                italic: false, underline: false,
            },
        ),
    );
    let mut hash_text = short_hash(&node.oid);
    push_str(&mut hash_text, " ");
    push_segment(
        &mut segments,
        Segment { text: hash_text, style: content_style_of(ThemeColor::CommitHash, is_selected) },
    );
    assert(segments_view(segments@) =~= commit_prefix(*row, is_selected, max_graph_cols as int));
    segments
}

fn finish_line(segments: Vec<Segment>, available_width: u16, is_selected: bool) -> (res: Vec<Segment>)
    ensures
        segments_view(res@) == filled_line(segments_view(segments@), available_width as int, is_selected),
{
    let mut segments = segments;
    let line_width = spans_width(&segments);
    if line_width < available_width as usize {
        push_segment(&mut segments, blank(available_width as usize - line_width));
    }
    if is_selected {
        apply_selection_bg(segments)
    } else {
        segments
    }
}

/// Builds the line of a commit row for given author and date columns (see
/// `commit_line`).
pub fn commit_line_with_metadata(
    row: &GraphRow,
    is_selected: bool,
    available_width: u16,
    max_graph_cols: usize,
    metadata: Option<(String, String)>,
) -> (res: Vec<Segment>)
    requires
        row.node.column < usize::MAX,
    ensures
        segments_view(res@) == commit_line(
            *row,
            is_selected,
            available_width as int,
            max_graph_cols as int,
            metadata_view(&metadata),
        ),
{
    let ghost meta = metadata_view(&metadata);
    let node = &row.node;
    let mut segments = prefix_segments(row, is_selected, max_graph_cols);
    let ghost prefix = segments_view(segments@);
    let meta_w: usize = match &metadata {
        Some((a, d)) => a.as_str().unicode_len().saturating_add(d.as_str().unicode_len()),
        None => 0,
    };
    assert(meta_w == metadata_width(meta));
    let occupied = spans_width(&segments).saturating_add(meta_w);
    let room = (available_width as usize).saturating_sub(occupied.saturating_add(MIN_MESSAGE_WIDTH));
    let refs_budget = if room < MAX_REFS_WIDTH {
        room
    } else {
        MAX_REFS_WIDTH
    };
    assert(refs_budget == badge_budget(segments_columns(prefix), meta_w as int, available_width as int));
    let order = badge_refs(&node.refs);
    push_ref_badges(&mut segments, &node.refs, &order, refs_budget, node.color_index);
    let ghost with_refs = segments_view(segments@);
    assert(with_refs == prefix + ref_badges(badge_order(row.node.refs@), refs_budget as int, row.node.color_index));
    let max_message_width = (available_width as usize).saturating_sub(
        spans_width(&segments).saturating_add(meta_w),
    );
    let line = first_line(node.message.as_str());
    let display_message = truncate_text(line.as_str(), max_message_width);
    let message_color = if is_selected {
        ThemeColor::SelectionFg
    } else {
        ThemeColor::TextNormal
    };
    push_segment(
        &mut segments,
        Segment { text: display_message, style: content_style_of(message_color, is_selected) },
    );
    let ghost with_msg = segments_view(segments@);
    assert(with_msg == with_refs.push(message_segment(*row, is_selected, max_message_width as int)));
    match metadata {
        Some((author, date)) => {
            push_segment(
                &mut segments,
                Segment { text: author, style: content_style_of(ThemeColor::TextSecondary, is_selected) },
            );
            push_segment(
                &mut segments,
                Segment {
                    text: date,
                    style: SegmentStyle {
                        fg: Some(ThemeColor::TextSecondary),
                        bg: None,
                        bold: is_selected,
                        dim: true,
                        italic: false, underline: false,
                    },
                },
            );
        },
        None => {},
    }
    assert(segments_view(segments@) =~= with_msg + metadata_segments(meta, is_selected));
    let res = finish_line(segments, available_width, is_selected);
    proof {
        reveal(commit_line);
    }
    res
}

/// Builds the line of a commit row; its date column shows the time elapsed
/// from the commit to now.
pub fn build_commit_line(
    row: &GraphRow,
    is_selected: bool,
    available_width: u16,
    max_graph_cols: usize,
    lang: Language,
) -> (res: Vec<Segment>)
    requires
        row.node.column < usize::MAX,
    ensures
        exists|date: Seq<char>|
            {
                &&& is_relative_date_of(date, row.node.timestamp, lang)
                &&& segments_view(res@) == commit_line(
                    *row,
                    is_selected,
                    available_width as int,
                    max_graph_cols as int,
                    metadata_text(row.node.author@, date, available_width as int),
                )
            },
{
    let metadata = build_metadata(
        row.node.author.as_str(),
        row.node.timestamp,
        available_width,
        lang,
    );
    let ghost meta = metadata_view(&metadata);
    let res = commit_line_with_metadata(row, is_selected, available_width, max_graph_cols, metadata);
    proof {
        let date = choose|date: Seq<char>|
            {
                &&& is_relative_date_of(date, row.node.timestamp, lang)
                &&& match metadata {
                    Some((a, d)) => metadata_text(row.node.author@, date, available_width as int)
                        == Some((a@, d@)),
                    None => metadata_text(row.node.author@, date, available_width as int) is None,
                }
            };
        assert(meta == metadata_text(row.node.author@, date, available_width as int));
        assert(segments_view(res@) == commit_line(
            *row,
            is_selected,
            available_width as int,
            max_graph_cols as int,
            metadata_text(row.node.author@, date, available_width as int),
        ));
    }
    res
}

} // verus!
