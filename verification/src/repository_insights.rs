//! The repository diagnostics overlay: signature of the selected commit,
//! hooks and submodules.

use vstd::prelude::*;
use crate::diff_view::lines_view;
use crate::lines::{empty_line, plain_line, push_line, push_seg, seg, single, text_seg};
use crate::strings::{decimal, push_decimal, push_str};
use crate::style::{Segment, SegmentStyle, SegmentView, ThemeColor, segments_view};

verus! {

/// The state of the selected commit's signature.
#[derive(Debug, Clone, Copy, PartialEq, Eq, Structural)]
pub enum SignatureState {
    Verified,
    Unsigned,
    UnknownKey,
    Present,
    Invalid,
}

/// A hook of the repository.
#[derive(Debug, Clone)]
pub struct HookInfo {
    pub name: String,
    pub enabled: bool,
}

/// The state of a submodule.
#[derive(Debug, Clone, Copy, PartialEq, Eq, Structural)]
pub enum SubmoduleState {
    Clean,
    Modified,
    Uninitialized,
}

/// A submodule, with the label of its state as the repository describes it.
#[derive(Debug, Clone)]
pub struct SubmoduleInfo {
    pub name: String,
    pub path: String,
    pub url: Option<String>,
    pub revision: Option<String>,
    pub state: SubmoduleState,
    pub state_label: String,
}

/// What the overlay shows: the commit, its signature's state and summary,
/// the hooks, the submodules and how many of those need checking.
#[derive(Debug, Clone)]
pub struct RepositoryInsights {
    pub commit: String,
    pub signature: SignatureState,
    pub signature_summary: String,
    pub hooks: Vec<HookInfo>,
    pub submodules: Vec<SubmoduleInfo>,
    pub dirty_submodule_count: usize,
}

/// Title of the overlay: the seven first characters of the commit.
pub open spec fn insights_title_text(commit: Seq<char>) -> Seq<char> {
    " Diagnostic dépôt · "@ + (if commit.len() < 7 { commit } else { commit.take(7) }) + " "@
}

/// Title of the overlay (see `insights_title_text`).
pub fn insights_title(insights: &RepositoryInsights) -> (res: String)
    ensures
        res@ == insights_title_text(insights.commit@),
{
    let chars = crate::strings::chars_of(insights.commit.as_str());
    let end = if chars.len() < 7 { chars.len() } else { 7 };
    let short = crate::strings::string_from_chars(&chars, 0, end);
    let mut s = String::new();
    push_str(&mut s, " Diagnostic dépôt · ");
    push_str(&mut s, short.as_str());
    push_str(&mut s, " ");
    assert(s@ =~= insights_title_text(insights.commit@));
    s
}

/// A bold section title between spaces.
pub open spec fn section_line(title: Seq<char>) -> Seq<SegmentView> {
    seq![seg(" "@ + title + " "@, SegmentStyle { fg: None, bg: None, bold: true, dim: false, italic: false, underline: false })]
}

/// A status symbol in a color, between spaces after an indent.
pub open spec fn symbol_seg(symbol: Seq<char>, color: ThemeColor) -> SegmentView {
    seg("  "@ + symbol + " "@, SegmentStyle::fg_spec(color))
}

/// The symbol and color of a signature state.
pub open spec fn signature_mark(s: SignatureState) -> SegmentView {
    match s {
        SignatureState::Verified => symbol_seg("✓"@, ThemeColor::Success),
        SignatureState::Unsigned => symbol_seg("○"@, ThemeColor::TextSecondary),
        SignatureState::UnknownKey | SignatureState::Present => symbol_seg("!"@, ThemeColor::Warning),
        SignatureState::Invalid => symbol_seg("✗"@, ThemeColor::Error),
    }
}

/// How many hooks are enabled.
pub open spec fn enabled_count(hooks: Seq<HookInfo>) -> nat
    decreases hooks.len(),
{
    if hooks.len() == 0 {
        0
    } else {
        enabled_count(hooks.drop_last()) + if hooks.last().enabled { 1nat } else { 0nat }
    }
}

/// The line of a hook: enabled ones checked, the others marked as not
/// executable.
pub open spec fn hook_line(h: HookInfo) -> Seq<SegmentView> {
    if h.enabled {
        seq![symbol_seg("✓"@, ThemeColor::Success), seg(h.name@, SegmentStyle::plain_spec()), seg(""@, SegmentStyle::fg_spec(ThemeColor::TextSecondary))]
    } else {
        seq![symbol_seg("○"@, ThemeColor::TextSecondary), seg(h.name@, SegmentStyle::plain_spec()), seg(" · non exécutable"@, SegmentStyle::fg_spec(ThemeColor::TextSecondary))]
    }
}

/// The symbol and color of a submodule state.
pub open spec fn submodule_mark(s: SubmoduleState) -> SegmentView {
    match s {
        SubmoduleState::Clean => symbol_seg("✓"@, ThemeColor::Success),
        SubmoduleState::Modified => symbol_seg("!"@, ThemeColor::Warning),
        SubmoduleState::Uninitialized => symbol_seg("○"@, ThemeColor::TextSecondary),
    }
}

/// The lines of a submodule: its state, path, revision ("-------" when
/// unknown) and state label, then its URL when known.
pub open spec fn submodule_lines(m: SubmoduleInfo) -> Seq<Seq<SegmentView>> {
    seq![seq![
        submodule_mark(m.state),
        seg(m.path@, SegmentStyle { fg: None, bg: None, bold: true, dim: false, italic: false, underline: false }),
        seg(" · "@ + (match m.revision { Some(r) => r@, None => "-------"@ }) + " · "@ + m.state_label@, SegmentStyle::plain_spec()),
    ]] + match m.url {
        Some(u) => seq![seq![seg("      "@ + u@, SegmentStyle::fg_spec(ThemeColor::TextSecondary))]],
        None => Seq::empty(),
    }
}

/// The lines of all submodules.
pub open spec fn submodules_lines(ms: Seq<SubmoduleInfo>) -> Seq<Seq<SegmentView>>
    decreases ms.len(),
{
    if ms.len() == 0 {
        Seq::empty()
    } else {
        submodules_lines(ms.drop_last()) + submodule_lines(ms.last())
    }
}

/// A notice line in the secondary color.
pub open spec fn notice(t: Seq<char>) -> Seq<Seq<SegmentView>> {
    seq![seq![seg(t, SegmentStyle::fg_spec(ThemeColor::TextSecondary))]]
}

/// The content of the overlay: the signature, the hooks (enabled and
/// configured counts) and the submodules (count and how many to check),
/// each section followed by a blank line, then the keys.
pub open spec fn insights_lines(r: RepositoryInsights) -> Seq<Seq<SegmentView>> {
    seq![plain_line(Seq::empty()), section_line("Signature du commit"@), seq![signature_mark(r.signature), seg(r.signature_summary@, SegmentStyle::plain_spec())], plain_line(Seq::empty())]
        + seq![section_line("Hooks · "@ + decimal(enabled_count(r.hooks@)) + " actif(s) / "@ + decimal(r.hooks@.len()) + " configuré(s)"@)]
        + (if r.hooks@.len() == 0 { notice("  Aucun hook personnalisé"@) } else { r.hooks@.map_values(|h: HookInfo| hook_line(h)) })
        + seq![plain_line(Seq::empty())]
        + seq![section_line("Sous-modules · "@ + decimal(r.submodules@.len()) + " · "@ + decimal(r.dirty_submodule_count as nat) + " à vérifier"@)]
        + (if r.submodules@.len() == 0 { notice("  Aucun sous-module"@) } else { submodules_lines(r.submodules@) })
        + seq![plain_line(Seq::empty())]
        + seq![seq![seg("  j/k défiler · Esc ou i fermer"@, SegmentStyle { fg: Some(ThemeColor::TextSecondary), bg: None, bold: false, dim: false, italic: true, underline: false })]]
}

fn push_section(lines: &mut Vec<Vec<Segment>>, title: String)
    ensures
        lines_view(final(lines)@) == lines_view(old(lines)@).push(section_line(title@)),
{
    let mut s = String::new();
    push_str(&mut s, " ");
    push_str(&mut s, title.as_str());
    push_str(&mut s, " ");
    let mut line: Vec<Segment> = Vec::new();
    push_seg(&mut line, Segment { text: s, style: SegmentStyle { fg: None, bg: None, bold: true, dim: false, italic: false, underline: false } });
    assert(segments_view(line@) =~= section_line(title@));
    push_line(lines, line);
}

fn symbol(sym: &str, color: ThemeColor) -> (res: Segment)
    ensures
        res@ == symbol_seg(sym@, color),
{
    let mut s = String::new();
    push_str(&mut s, "  ");
    push_str(&mut s, sym);
    push_str(&mut s, " ");
    Segment { text: s, style: SegmentStyle::fg(color) }
}

/// How many hooks are enabled (see `enabled_count`).
pub fn enabled_hook_count(hooks: &Vec<HookInfo>) -> (res: usize)
    ensures
        res == enabled_count(hooks@),
{
    let mut n: usize = 0;
    let mut i: usize = 0;
    while i < hooks.len()
        invariant
            i <= hooks@.len(),
            n == enabled_count(hooks@.take(i as int)),
            n <= i,
        decreases hooks@.len() - i,
    {
        assert(hooks@.take(i + 1).drop_last() =~= hooks@.take(i as int));
        if hooks[i].enabled {
            n = n + 1;
        }
        i = i + 1;
    }
    assert(hooks@.take(i as int) =~= hooks@);
    n
}

/// Appends the hook lines, or a notice without hooks.
fn append_hooks(lines: &mut Vec<Vec<Segment>>, hooks: &Vec<HookInfo>)
    ensures
        lines_view(final(lines)@) == lines_view(old(lines)@) + (if hooks@.len() == 0 {
            notice("  Aucun hook personnalisé"@)
        } else {
            hooks@.map_values(|h: HookInfo| hook_line(h))
        }),
{
    let ghost start = lines_view(lines@);
    if hooks.len() == 0 {
        push_line(lines, single("  Aucun hook personnalisé", SegmentStyle::fg(ThemeColor::TextSecondary)));
    } else {
        let ghost want = hooks@.map_values(|h: HookInfo| hook_line(h));
        let mut i: usize = 0;
        while i < hooks.len()
            invariant
                i <= hooks@.len(),
                want == hooks@.map_values(|h: HookInfo| hook_line(h)),
                lines_view(lines@) == start + want.take(i as int),
            decreases hooks@.len() - i,
        {
            let h = &hooks[i];
            let mut line: Vec<Segment> = Vec::new();
            if h.enabled {
                push_seg(&mut line, symbol("✓", ThemeColor::Success));
                push_seg(&mut line, Segment { text: h.name.clone(), style: SegmentStyle::plain() });
                push_seg(&mut line, text_seg("", SegmentStyle::fg(ThemeColor::TextSecondary)));
            } else {
                push_seg(&mut line, symbol("○", ThemeColor::TextSecondary));
                push_seg(&mut line, Segment { text: h.name.clone(), style: SegmentStyle::plain() });
                push_seg(&mut line, text_seg(" · non exécutable", SegmentStyle::fg(ThemeColor::TextSecondary)));
            }
            assert(segments_view(line@) =~= want[i as int]);
            push_line(lines, line);
            assert(want.take(i + 1) =~= want.take(i as int).push(want[i as int]));
            i = i + 1;
        }
        assert(want.take(i as int) =~= want);
    }
    assert(lines_view(lines@) =~= start + (if hooks@.len() == 0 {
        notice("  Aucun hook personnalisé"@)
    } else {
        hooks@.map_values(|h: HookInfo| hook_line(h))
    }));
}

/// Appends the submodule lines, or a notice without submodules.
fn append_submodules(lines: &mut Vec<Vec<Segment>>, submodules: &Vec<SubmoduleInfo>)
    ensures
        lines_view(final(lines)@) == lines_view(old(lines)@) + (if submodules@.len() == 0 {
            notice("  Aucun sous-module"@)
        } else {
            submodules_lines(submodules@)
        }),
{
    let ghost start = lines_view(lines@);
    if submodules.len() == 0 {
        push_line(lines, single("  Aucun sous-module", SegmentStyle::fg(ThemeColor::TextSecondary)));
    } else {
        let mut i: usize = 0;
        assert(submodules@.take(0) =~= Seq::<SubmoduleInfo>::empty());
        while i < submodules.len()
            invariant
                i <= submodules@.len(),
                lines_view(lines@) == start + submodules_lines(submodules@.take(i as int)),
            decreases submodules@.len() - i,
        {
            let m = &submodules[i];
            let ghost before = lines_view(lines@);
            let mark = match m.state {
                SubmoduleState::Clean => symbol("✓", ThemeColor::Success),
                SubmoduleState::Modified => symbol("!", ThemeColor::Warning),
                SubmoduleState::Uninitialized => symbol("○", ThemeColor::TextSecondary),
            };
            let mut tail = String::new();
            push_str(&mut tail, " · ");
            match &m.revision {
                Some(rev) => push_str(&mut tail, rev.as_str()),
                None => push_str(&mut tail, "-------"),
            }
            push_str(&mut tail, " · ");
            push_str(&mut tail, m.state_label.as_str());
            let mut line: Vec<Segment> = Vec::new();
            push_seg(&mut line, mark);
            push_seg(&mut line, Segment { text: m.path.clone(), style: SegmentStyle { fg: None, bg: None, bold: true, dim: false, italic: false, underline: false } });
            push_seg(&mut line, Segment { text: tail, style: SegmentStyle::plain() });
            assert(segments_view(line@) =~= submodule_lines(*m)[0]);
            push_line(lines, line);
            match &m.url {
                Some(u) => {
                    let mut t = String::new();
                    push_str(&mut t, "      ");
                    push_str(&mut t, u.as_str());
                    let mut url_line: Vec<Segment> = Vec::new();
                    push_seg(&mut url_line, Segment { text: t, style: SegmentStyle::fg(ThemeColor::TextSecondary) });
                    assert(segments_view(url_line@) =~= submodule_lines(*m)[1]);
                    push_line(lines, url_line);
                },
                None => {},
            }
            proof {
                let next = submodules@.take(i + 1);
                assert(next.drop_last() =~= submodules@.take(i as int));
                assert(next.last() == *m);
                assert(lines_view(lines@) =~= before + submodule_lines(*m));
            }
            i = i + 1;
        }
        assert(submodules@.take(i as int) =~= submodules@);
    }
    assert(lines_view(lines@) =~= start + (if submodules@.len() == 0 {
        notice("  Aucun sous-module"@)
    } else {
        submodules_lines(submodules@)
    }));
}

/// The content of the overlay (see `insights_lines`).
pub fn insights_content(r: &RepositoryInsights) -> (res: Vec<Vec<Segment>>)
    ensures
        lines_view(res@) == insights_lines(*r),
{
    let mut lines: Vec<Vec<Segment>> = Vec::new();
    push_line(&mut lines, empty_line());
    push_section(&mut lines, "Signature du commit".to_owned());
    let mark = match r.signature {
        SignatureState::Verified => symbol("✓", ThemeColor::Success),
        SignatureState::Unsigned => symbol("○", ThemeColor::TextSecondary),
        SignatureState::UnknownKey | SignatureState::Present => symbol("!", ThemeColor::Warning),
        SignatureState::Invalid => symbol("✗", ThemeColor::Error),
    };
    let mut sig: Vec<Segment> = Vec::new();
    push_seg(&mut sig, mark);
    push_seg(&mut sig, Segment { text: r.signature_summary.clone(), style: SegmentStyle::plain() });
    assert(segments_view(sig@) =~= seq![signature_mark(r.signature), seg(r.signature_summary@, SegmentStyle::plain_spec())]);
    push_line(&mut lines, sig);
    push_line(&mut lines, empty_line());

    let mut hooks_title = String::new();
    push_str(&mut hooks_title, "Hooks · ");
    push_decimal(&mut hooks_title, enabled_hook_count(&r.hooks) as u64);
    push_str(&mut hooks_title, " actif(s) / ");
    push_decimal(&mut hooks_title, r.hooks.len() as u64);
    push_str(&mut hooks_title, " configuré(s)");
    assert(hooks_title@ =~= "Hooks · "@ + decimal(enabled_count(r.hooks@)) + " actif(s) / "@ + decimal(r.hooks@.len()) + " configuré(s)"@);
    push_section(&mut lines, hooks_title);
    let ghost part2 = lines_view(lines@);
    append_hooks(&mut lines, &r.hooks);
    let ghost hooks_part = lines_view(lines@);
    assert(hooks_part =~= part2 + (if r.hooks@.len() == 0 { notice("  Aucun hook personnalisé"@) } else { r.hooks@.map_values(|h: HookInfo| hook_line(h)) }));
    push_line(&mut lines, empty_line());

    let mut sub_title = String::new();
    push_str(&mut sub_title, "Sous-modules · ");
    push_decimal(&mut sub_title, r.submodules.len() as u64);
    push_str(&mut sub_title, " · ");
    push_decimal(&mut sub_title, r.dirty_submodule_count as u64);
    push_str(&mut sub_title, " à vérifier");
    assert(sub_title@ =~= "Sous-modules · "@ + decimal(r.submodules@.len()) + " · "@ + decimal(r.dirty_submodule_count as nat) + " à vérifier"@);
    push_section(&mut lines, sub_title);
    let ghost part4 = lines_view(lines@);
    append_submodules(&mut lines, &r.submodules);
    let ghost sub_part = lines_view(lines@);
    assert(sub_part =~= part4 + (if r.submodules@.len() == 0 { notice("  Aucun sous-module"@) } else { submodules_lines(r.submodules@) }));
    push_line(&mut lines, empty_line());
    push_line(&mut lines, single(
        "  j/k défiler · Esc ou i fermer",
        SegmentStyle { fg: Some(ThemeColor::TextSecondary), bg: None, bold: false, dim: false, italic: true, underline: false },
    ));
    assert(lines_view(lines@) =~= insights_lines(*r));
    lines
}

} // verus!
