//! Context help bar: the shortcuts that fit in the available width, in
//! priority order.

use vstd::prelude::*;
use ratatui::text::Line;
use crate::files_view::BottomLeftMode;
use crate::i18n::{Language, pick, text};
use crate::lines::{push_seg, seg, text_seg};
use crate::strings::{decimal, push_decimal, push_spaces, push_str, spaces};
use crate::style::{Segment, SegmentStyle, SegmentView, ThemeColor, sat_add, sat_sub, segments_view};

verus! {

/// A shortcut and the label of its action.
#[derive(Debug, Clone, Copy, PartialEq, Eq)]
pub struct KeyHint<'a> {
    pub key: &'a str,
    pub label: &'a str,
}

impl<'a> KeyHint<'a> {
    /// A shortcut with its label.
    pub fn new(key: &'a str, label: &'a str) -> (res: Self)
        ensures
            res.key@ == key@,
            res.label@ == label@,
    {
        KeyHint { key, label }
    }
}

/// The number of terminal columns ratatui gives a line made of this text
/// (`Line::from(text).width()`).
pub uninterp spec fn line_columns(text: Seq<char>) -> usize;

/// Terminal columns of a text as a ratatui line (`Line::from(text).width()`).
#[verifier::external_body]
pub(crate) fn display_width(value: &str) -> (res: usize)
    ensures
        res == line_columns(value@),
{
    Line::from(value).width()
}

/// Columns taken by a hint: the key, a colon and the label.
pub open spec fn hint_width(h: KeyHint) -> int {
    line_columns(h.key@) + 1 + line_columns(h.label@)
}

/// How many hints, from the `i`-th on, fit when `used` columns are taken:
/// hints are taken in order, two columns apart, while the next one fits.
pub open spec fn fit_count(hints: Seq<KeyHint>, available: int, i: int, used: int) -> int
    decreases hints.len() - i,
{
    if i < 0 || i >= hints.len() {
        i
    } else {
        let separator = if used > 0 {
            2int
        } else {
            0int
        };
        let w = hint_width(hints[i]);
        if used + separator + w > available {
            i
        } else {
            fit_count(hints, available, i + 1, used + separator + w)
        }
    }
}

proof fn lemma_fit_count_bounds(hints: Seq<KeyHint>, available: int, i: int, used: int)
    requires
        0 <= i <= hints.len(),
    ensures
        i <= fit_count(hints, available, i, used) <= hints.len(),
    decreases hints.len() - i,
{
    if i < hints.len() {
        let separator = if used > 0 {
            2int
        } else {
            0int
        };
        lemma_fit_count_bounds(hints, available, i + 1, used + separator + hint_width(hints[i]));
    }
}

/// Columns taken by hints laid out in a row, two columns apart.
pub open spec fn hints_columns(hints: Seq<KeyHint>) -> int
    decreases hints.len(),
{
    if hints.len() == 0 {
        0
    } else if hints.len() == 1 {
        hint_width(hints[0])
    } else {
        hints_columns(hints.drop_last()) + 2 + hint_width(hints.last())
    }
}

proof fn lemma_fit_count_fits(hints: Seq<KeyHint>, available: int, i: int, used: int)
    requires
        0 <= i <= hints.len(),
        used == hints_columns(hints.take(i)),
        used <= available,
    ensures
        hints_columns(hints.take(fit_count(hints, available, i, used))) <= available,
        fit_count(hints, available, i, used) < hints.len() ==> hints_columns(
            hints.take(fit_count(hints, available, i, used) + 1),
        ) > available,
    decreases hints.len() - i,
{
    if i < hints.len() {
        let separator = if used > 0 { 2int } else { 0int };
        let next = used + separator + hint_width(hints[i]);
        assert(hints.take(i + 1).drop_last() =~= hints.take(i));
        if i == 0 {
            assert(hints.take(0) =~= Seq::<KeyHint>::empty());
            assert(hints_columns(hints.take(1)) == hint_width(hints[0]));
        } else {
            assert(hints.take(i).len() == i);
            assert(hints_columns(hints.take(i)) >= 1) by {
                if i == 1 {
                    assert(hints_columns(hints.take(1)) == hint_width(hints[0]));
                } else {
                    assert(hints_columns(hints.take(i)) == hints_columns(hints.take(i).drop_last()) + 2 + hint_width(hints.take(i).last()));
                    assert(hints_columns(hints.take(i).drop_last()) >= 0) by {
                        lemma_hints_columns_nonneg(hints.take(i).drop_last());
                    }
                }
            }
            assert(hints_columns(hints.take(i + 1)) == used + 2 + hint_width(hints[i]));
        }
        assert(hints_columns(hints.take(i + 1)) == next);
        if next <= available {
            lemma_fit_count_fits(hints, available, i + 1, next);
        }
    }
}

proof fn lemma_hints_columns_nonneg(hints: Seq<KeyHint>)
    ensures
        hints_columns(hints) >= 0,
    decreases hints.len(),
{
    if hints.len() > 1 {
        lemma_hints_columns_nonneg(hints.drop_last());
    }
}

/// The help bar shows the leading hints that fit in the available width:
/// together they take no more than it, and one hint more would not fit.
pub proof fn law_fitted_hints_fit(hints: Seq<KeyHint>, available: nat)
    ensures
        0 <= fit_count(hints, available as int, 0, 0) <= hints.len(),
        hints_columns(hints.take(fit_count(hints, available as int, 0, 0))) <= available,
        fit_count(hints, available as int, 0, 0) < hints.len() ==> hints_columns(
            hints.take(fit_count(hints, available as int, 0, 0) + 1),
        ) > available,
{
    lemma_fit_count_bounds(hints, available as int, 0, 0);
    assert(hints.take(0) =~= Seq::<KeyHint>::empty());
    lemma_fit_count_fits(hints, available as int, 0, 0);
}

/// The leading hints that fit in `available` columns, two columns apart.
pub fn fit_hints<'a>(hints: &'a [KeyHint<'a>], available: usize) -> (res: &'a [KeyHint<'a>])
    ensures
        res@ == hints@.take(fit_count(hints@, available as int, 0, 0)),
{
    let mut used: usize = 0;
    let mut count: usize = 0;
    proof {
        lemma_fit_count_bounds(hints@, available as int, 0, 0);
    }
    while count < hints.len()
        invariant_except_break
            count <= hints@.len(),
            used <= available,
            fit_count(hints@, available as int, 0, 0) == fit_count(
                hints@,
                available as int,
                count as int,
                used as int,
            ),
        ensures
            count <= hints@.len(),
            fit_count(hints@, available as int, 0, 0) == count,
        decreases hints@.len() - count,
    {
        let hint = &hints[count];
        let separator: usize = if used > 0 {
            2
        } else {
            0
        };
        let key_width = display_width(hint.key);
        let label_width = display_width(hint.label);
        let room = available - used;
        let fits = separator <= room && key_width <= room - separator && 1 <= room - separator
            - key_width && label_width <= room - separator - key_width - 1;
        if !fits {
            break;
        }
        used = used + separator + key_width + 1 + label_width;
        count = count + 1;
    }
    &hints[0..count]
}

/// The segments of the hints shown: each key bold in the primary color,
/// then ":" and its label in the secondary color, two spaces between
/// hints.
pub open spec fn hint_segments(hints: Seq<KeyHint>) -> Seq<SegmentView>
    decreases hints.len(),
{
    if hints.len() == 0 {
        Seq::empty()
    } else {
        let h = hints.last();
        hint_segments(hints.drop_last())
            + (if hints.len() > 1 { seq![seg("  "@, SegmentStyle::plain_spec())] } else { Seq::empty() })
            + seq![
                seg(h.key@, SegmentStyle { fg: Some(ThemeColor::Primary), bg: None, bold: true, dim: false, italic: false, underline: false }),
                seg(":"@ + h.label@, SegmentStyle::fg_spec(ThemeColor::TextSecondary)),
            ]
    }
}

/// Columns of a sequence of segments as ratatui lines measure each,
/// held at `usize::MAX`.
pub open spec fn line_segments_columns(s: Seq<SegmentView>) -> int
    decreases s.len(),
{
    if s.len() == 0 {
        0
    } else {
        sat_add(line_segments_columns(s.drop_last()), line_columns(s.last().text) as int)
    }
}

/// The help bar of `width` columns: the hints that fit, and the trailing
/// text, if any, pushed to the right end (two columns are kept free before
/// it when fitting the hints).
pub open spec fn help_bar_segments(width: u16, hints: Seq<KeyHint>, trailing: Option<&str>) -> Seq<SegmentView> {
    let tw: int = match trailing { Some(t) => line_columns(t@) as int, None => 0 };
    let gap: int = if trailing is Some { 2 } else { 0 };
    let available = sat_sub(width as int, sat_add(tw, gap));
    let spans = hint_segments(hints.take(fit_count(hints, available, 0, 0)));
    match trailing {
        Some(t) => spans + seq![
            seg(spaces(sat_sub(width as int, sat_add(line_segments_columns(spans), tw)) as nat), SegmentStyle::plain_spec()),
            seg(t@, SegmentStyle::fg_spec(ThemeColor::TextSecondary)),
        ],
        None => spans,
    }
}

/// The help bar (see `help_bar_segments`).
pub fn help_bar_line(width: u16, hints: &[KeyHint], trailing: Option<&str>) -> (res: Vec<Segment>)
    ensures
        segments_view(res@) == help_bar_segments(width, hints@, trailing),
{
    let tw: usize = match trailing {
        Some(t) => display_width(t),
        None => 0,
    };
    let gap: usize = if trailing.is_some() { 2 } else { 0 };
    let available = (width as usize).saturating_sub(tw.saturating_add(gap));
    let visible = fit_hints(hints, available);
    let mut line: Vec<Segment> = Vec::new();
    let mut used: usize = 0;
    let mut i: usize = 0;
    assert(visible@.take(0) =~= Seq::<KeyHint>::empty());
    while i < visible.len()
        invariant
            i <= visible@.len(),
            segments_view(line@) == hint_segments(visible@.take(i as int)),
            used == line_segments_columns(segments_view(line@)),
        decreases visible@.len() - i,
    {
        let ghost before = segments_view(line@);
        if i > 0 {
            push_seg(&mut line, text_seg("  ", SegmentStyle::plain()));
            used = used.saturating_add(display_width("  "));
            assert(segments_view(line@).drop_last() =~= before);
        }
        let ghost mid = segments_view(line@);
        assert(used == line_segments_columns(mid));
        let h = visible[i];
        push_seg(&mut line, text_seg(h.key, SegmentStyle { fg: Some(ThemeColor::Primary), bg: None, bold: true, dim: false, italic: false, underline: false }));
        used = used.saturating_add(display_width(h.key));
        let ghost mid2 = segments_view(line@);
        assert(mid2.drop_last() =~= mid);
        assert(used == line_segments_columns(mid2));
        let mut label = String::new();
        push_str(&mut label, ":");
        push_str(&mut label, h.label);
        used = used.saturating_add(display_width(label.as_str()));
        push_seg(&mut line, Segment { text: label, style: SegmentStyle::fg(ThemeColor::TextSecondary) });
        assert(segments_view(line@).drop_last() =~= mid2);
        proof {
            let next = visible@.take(i + 1);
            assert(next.drop_last() =~= visible@.take(i as int));
            assert(next.last() == h);
            assert(segments_view(line@) =~= hint_segments(next));
            let s = segments_view(line@);
            assert(s.drop_last() =~= mid.push(s[s.len() - 2]));
            assert(s.drop_last().drop_last() =~= mid);
            if i > 0 {
                assert(mid.drop_last() =~= before);
            }
        }
        i = i + 1;
    }
    assert(visible@.take(i as int) =~= visible@);
    match trailing {
        Some(t) => {
            let ghost spans = segments_view(line@);
            let padding = (width as usize).saturating_sub(used.saturating_add(tw));
            let mut pad = String::new();
            push_spaces(&mut pad, padding);
            push_seg(&mut line, Segment { text: pad, style: SegmentStyle::plain() });
            push_seg(&mut line, text_seg(t, SegmentStyle::fg(ThemeColor::TextSecondary)));
            assert(segments_view(line@) =~= spans + seq![
                seg(spaces(sat_sub(width as int, sat_add(line_segments_columns(spans), tw as int)) as nat), SegmentStyle::plain_spec()),
                seg(t@, SegmentStyle::fg_spec(ThemeColor::TextSecondary)),
            ]);
        },
        None => {},
    }
    line
}

/// The hints of the graph view: the usual keys, the abort key during a
/// merge, the keys of the bottom panel, the key clearing the filters when
/// some are set, then refresh, help and quit.
pub open spec fn graph_hints(is_merging: bool, mode: BottomLeftMode, filter_active: bool, lang: Language) -> Seq<(Seq<char>, Seq<char>)> {
    seq![
        ("j/k"@, pick(lang, "naviguer"@, "navigate"@)),
        ("Enter"@, pick(lang, "detail"@, "details"@)),
        ("b"@, "branches"@),
        ("c"@, "commit"@),
        ("s"@, "stash"@),
        ("m"@, pick(lang, "fusion"@, "merge"@)),
        ("R"@, "reset"@),
        ("P"@, "push"@),
        ("Ctrl+P"@, pick(lang, "push force"@, "force push"@)),
    ] + (if is_merging { seq![("A"@, pick(lang, "annuler fusion"@, "abort merge"@))] } else { Seq::empty() })
        + (match mode {
            BottomLeftMode::Files => seq![
                ("Tab"@, pick(lang, "fichiers"@, "files"@)),
                ("Espace"@, "diff"@),
                ("Enter"@, pick(lang, "plein ecran"@, "fullscreen"@)),
            ],
            BottomLeftMode::Parents => seq![("Tab"@, "commit"@)],
        })
        + (if filter_active { seq![("Ctrl+R"@, pick(lang, "effacer filtres"@, "clear filters"@))] } else { Seq::empty() })
        + seq![
            ("r"@, pick(lang, "rafraichir"@, "refresh"@)),
            ("?"@, pick(lang, "aide"@, "help"@)),
            ("q"@, pick(lang, "quitter"@, "quit"@)),
        ]
}

/// The hints of the graph view (see `graph_hints`).
pub fn graph_help_hints(is_merging: bool, mode: BottomLeftMode, filter_active: bool, lang: Language) -> (res: Vec<KeyHint<'static>>)
    ensures
        res@.map_values(|h: KeyHint| (h.key@, h.label@)) == graph_hints(is_merging, mode, filter_active, lang),
{
    let mut keys: Vec<KeyHint<'static>> = Vec::new();
    keys.push(KeyHint::new("j/k", text(lang, "naviguer", "navigate")));
    keys.push(KeyHint::new("Enter", text(lang, "detail", "details")));
    keys.push(KeyHint::new("b", "branches"));
    keys.push(KeyHint::new("c", "commit"));
    keys.push(KeyHint::new("s", "stash"));
    keys.push(KeyHint::new("m", text(lang, "fusion", "merge")));
    keys.push(KeyHint::new("R", "reset"));
    keys.push(KeyHint::new("P", "push"));
    keys.push(KeyHint::new("Ctrl+P", text(lang, "push force", "force push")));
    if is_merging {
        keys.push(KeyHint::new("A", text(lang, "annuler fusion", "abort merge")));
    }
    match mode {
        BottomLeftMode::Files => {
            keys.push(KeyHint::new("Tab", text(lang, "fichiers", "files")));
            keys.push(KeyHint::new("Espace", "diff"));
            keys.push(KeyHint::new("Enter", text(lang, "plein ecran", "fullscreen")));
        },
        BottomLeftMode::Parents => keys.push(KeyHint::new("Tab", "commit")),
    }
    if filter_active {
        keys.push(KeyHint::new("Ctrl+R", text(lang, "effacer filtres", "clear filters")));
    }
    keys.push(KeyHint::new("r", text(lang, "rafraichir", "refresh")));
    keys.push(KeyHint::new("?", text(lang, "aide", "help")));
    keys.push(KeyHint::new("q", text(lang, "quitter", "quit")));
    assert(keys@.map_values(|h: KeyHint| (h.key@, h.label@)) =~= graph_hints(is_merging, mode, filter_active, lang));
    keys
}

/// The position of the selected commit among them, "n/total" (the
/// selection held at the last commit; 0 without commits).
pub open spec fn counter_text(selected_index: usize, total: usize) -> Seq<char> {
    let position: nat = if total == 0 {
        0
    } else if selected_index < total {
        (selected_index + 1) as nat
    } else {
        total as nat
    };
    decimal(position) + "/"@ + decimal(total as nat)
}

/// The position of the selected commit (see `counter_text`).
pub fn commit_counter(selected_index: usize, total: usize) -> (res: String)
    ensures
        res@ == counter_text(selected_index, total),
{
    let position: usize = if total == 0 {
        0
    } else if selected_index < total {
        selected_index + 1
    } else {
        total
    };
    let mut s = String::new();
    push_decimal(&mut s, position as u64);
    push_str(&mut s, "/");
    push_decimal(&mut s, total as u64);
    s
}

} // verus!
