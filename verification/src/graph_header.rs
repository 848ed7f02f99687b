//! Title and empty-state text of the graph panel.

use vstd::prelude::*;
use crate::i18n::{Language, pick};
use crate::strings::{decimal, push_decimal, push_str};
use crate::style::{Segment, SegmentStyle, SegmentView, ThemeColor};

verus! {

/// The message shown when the graph has no commit.
pub open spec fn empty_state_text(filter_active: bool, lang: Language) -> Seq<char> {
    if filter_active {
        pick(
            lang,
            "Aucun commit ne correspond aux filtres actifs."@,
            "No commit matches the active filters."@,
        )
    } else {
        pick(lang, "Aucun commit a afficher."@, "No commit to display."@)
    }
}

/// The line shown when the graph has no commit: one italic segment in the
/// secondary text color.
pub fn build_empty_state_line(filter_active: bool, lang: Language) -> (res: Vec<Segment>)
    ensures
        res@.len() == 1,
        res@[0]@ == (SegmentView {
            text: empty_state_text(filter_active, lang),
            style: SegmentStyle {
                fg: Some(ThemeColor::TextSecondary),
                bg: None,
                bold: false,
                dim: false,
                italic: true, underline: false,
            },
        }),
{
    let message = if filter_active {
        crate::i18n::text(
            lang,
            "Aucun commit ne correspond aux filtres actifs.",
            "No commit matches the active filters.",
        )
    } else {
        crate::i18n::text(lang, "Aucun commit a afficher.", "No commit to display.")
    };
    let mut v: Vec<Segment> = Vec::new();
    v.push(
        Segment {
            text: message.to_owned(),
            style: SegmentStyle {
                fg: Some(ThemeColor::TextSecondary),
                bg: None,
                bold: false,
                dim: false,
                italic: true, underline: false,
            },
        },
    );
    v
}

/// The position shown for the selection: 1-based, held within the visible
/// commits, 0 when there is none.
pub open spec fn title_position(selected_index: int, visible_count: int) -> int {
    if visible_count == 0 {
        0
    } else if selected_index < visible_count - 1 {
        selected_index + 1
    } else {
        visible_count
    }
}

/// The loading state appended to the title: loading more, loaded out of a
/// known total, loaded with more to come, or nothing.
pub open spec fn loading_text(
    loaded_count: nat,
    total_commits: Option<usize>,
    can_load_more: bool,
    is_loading_more: bool,
    lang: Language,
) -> Seq<char> {
    if is_loading_more {
        pick(lang, " · chargement…"@, " · loading…"@)
    } else if total_commits is Some && loaded_count < total_commits->0 {
        " · "@ + decimal(loaded_count) + "/"@ + decimal(total_commits->0 as nat) + pick(
            lang,
            " charges"@,
            " loaded"@,
        )
    } else if can_load_more {
        " · "@ + decimal(loaded_count) + pick(lang, "+ charges"@, "+ loaded"@)
    } else {
        Seq::empty()
    }
}

/// The title of the graph panel: branch, selected position out of the
/// visible commits, and loading state.
pub open spec fn title_text(
    branch_name: Seq<char>,
    selected_index: nat,
    visible_count: nat,
    loaded_count: nat,
    total_commits: Option<usize>,
    can_load_more: bool,
    is_loading_more: bool,
    lang: Language,
) -> Seq<char> {
    pick(lang, " Graphe · "@, " Graph · "@) + branch_name + " · commit "@ + decimal(
        title_position(selected_index as int, visible_count as int) as nat,
    ) + "/"@ + decimal(visible_count) + loading_text(
        loaded_count,
        total_commits,
        can_load_more,
        is_loading_more,
        lang,
    ) + " "@
}

fn push_pick(s: &mut String, lang: Language, fr: &str, en: &str)
    ensures
        final(s)@ == old(s)@ + pick(lang, fr@, en@),
{
    match lang {
        Language::Fr => push_str(s, fr),
        Language::En => push_str(s, en),
    }
}

/// Builds the title of the graph panel (see `title_text`).
pub fn build_title(
    branch_name: &str,
    selected_index: usize,
    visible_count: usize,
    loaded_count: usize,
    total_commits: Option<usize>,
    can_load_more: bool,
    is_loading_more: bool,
    lang: Language,
) -> (res: String)
    ensures
        res@ == title_text(
            branch_name@,
            selected_index as nat,
            visible_count as nat,
            loaded_count as nat,
            total_commits,
            can_load_more,
            is_loading_more,
            lang,
        ),
{
    let position: usize = if visible_count == 0 {
        0
    } else if selected_index < visible_count - 1 {
        selected_index + 1
    } else {
        visible_count
    };
    let mut s = String::new();
    push_pick(&mut s, lang, " Graphe · ", " Graph · ");
    push_str(&mut s, branch_name);
    push_str(&mut s, " · commit ");
    push_decimal(&mut s, position as u64);
    push_str(&mut s, "/");
    push_decimal(&mut s, visible_count as u64);
    let ghost before_loading = s@;
    if is_loading_more {
        push_pick(&mut s, lang, " · chargement…", " · loading…");
    } else {
        match total_commits {
            Some(total) if loaded_count < total => {
                push_str(&mut s, " · ");
                push_decimal(&mut s, loaded_count as u64);
                push_str(&mut s, "/");
                push_decimal(&mut s, total as u64);
                push_pick(&mut s, lang, " charges", " loaded");
            },
            _ => {
                if can_load_more {
                    push_str(&mut s, " · ");
                    push_decimal(&mut s, loaded_count as u64);
                    push_pick(&mut s, lang, "+ charges", "+ loaded");
                }
            },
        }
    }
    assert(s@ =~= before_loading + loading_text(
        loaded_count as nat,
        total_commits,
        can_load_more,
        is_loading_more,
        lang,
    ));
    push_str(&mut s, " ");
    assert(s@ =~= title_text(
        branch_name@,
        selected_index as nat,
        visible_count as nat,
        loaded_count as nat,
        total_commits,
        can_load_more,
        is_loading_more,
        lang,
    ));
    s
}

} // verus!
