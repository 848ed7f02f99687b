use git_sv::conflicts_view::{
    build_help_bar, build_status_bar, conflict_section_title, conflict_separator,
    edit_buffer_lines, file_list_items, render_edit_line_with_cursor, side_panel,
    ConflictFile, ConflictResolution, ConflictSection, ConflictType, ConflictsRenderContext,
    ConflictsState, LineLevelResolution, LineSource, PanelBody, ResolvedLine, Side, resolved_lines,
};
use git_sv::input::state::{ConflictPanelFocus, ConflictResolutionMode};
use git_sv::style::{Segment, ThemeColor};

fn s(v: &[&str]) -> Vec<String> {
    v.iter().map(|x| x.to_string()).collect()
}

fn section() -> ConflictSection {
    ConflictSection {
        context_before: s(&["before"]),
        ours: s(&["mine 1", "mine 2"]),
        theirs: s(&["yours"]),
        context_after: s(&["after"]),
        resolution: Some(ConflictResolution::Ours),
        line_level_resolution: None,
    }
}

fn state() -> ConflictsState {
    ConflictsState {
        all_files: vec![
            ConflictFile {
                path: "a.rs".to_string(),
                conflicts: vec![section(), section()],
                is_resolved: false,
                conflict_type: Some(ConflictType::BothModified),
            },
            ConflictFile {
                path: "b.rs".to_string(),
                conflicts: vec![section()],
                is_resolved: true,
                conflict_type: Some(ConflictType::DeletedByUs),
            },
        ],
        file_selected: 0,
        section_selected: 0,
        line_selected: 1,
        panel_focus: ConflictPanelFocus::OursPanel,
        resolution_mode: ConflictResolutionMode::Block,
        operation_description: "merge feature".to_string(),
        ours_branch_name: "main".to_string(),
        theirs_branch_name: "feature".to_string(),
        ours_scroll: 0,
        theirs_scroll: 4,
        result_scroll: 0,
        is_editing: false,
        edit_buffer: Vec::new(),
        edit_cursor_line: 0,
        edit_cursor_col: 0,
        ours_panel_height: 0,
        theirs_panel_height: 0,
        result_panel_height: 0,
    }
}

fn text(l: &[Segment]) -> String {
    l.iter().map(|s| s.text.as_str()).collect()
}

#[test]
fn separator_and_section_title() {
    assert_eq!(text(&conflict_separator(6)), "────");
    assert_eq!(text(&conflict_separator(1)), "");
    let title = conflict_section_title(0, 3, true);
    assert_eq!(text(&title), "#1/3");
    assert_eq!(title[0].style.fg, Some(ThemeColor::Warning));
}

#[test]
fn ours_panel_in_block_mode() {
    let st = state();
    let panel = side_panel(&st, Side::Ours, 10);
    assert_eq!(panel.title, " main ");
    assert_eq!(panel.border, ThemeColor::Warning);
    let PanelBody::Lines(lines) = panel.body else { panic!("lines expected") };
    let texts: Vec<String> = lines.iter().map(|l| text(l)).collect();
    assert_eq!(
        texts,
        vec![
            "#1/2", "  before", "> mine 1", "> mine 2", "  after", "────────", "#2/2", "  before",
            "> mine 1", "> mine 2", "  after",
        ]
    );
    assert!(lines[2][0].style.bold);
    assert!(!lines[8][0].style.bold);
}

#[test]
fn theirs_panel_in_line_mode() {
    let mut st = state();
    st.resolution_mode = ConflictResolutionMode::Line;
    st.panel_focus = ConflictPanelFocus::TheirsPanel;
    st.line_selected = 0;
    st.all_files[0].conflicts[0].line_level_resolution = Some(LineLevelResolution {
        ours_lines_included: vec![true, false],
        theirs_lines_included: vec![true],
    });
    let panel = side_panel(&st, Side::Theirs, 10);
    assert_eq!(panel.title, " feature [Mode Ligne] ");
    assert_eq!(panel.border, ThemeColor::Info);
    assert_eq!(panel.scroll, 4);
    let PanelBody::Lines(lines) = panel.body else { panic!("lines expected") };
    assert_eq!(text(&lines[2]), "[x] yours");
    assert_eq!(lines[2][0].style.bg, Some(ThemeColor::SelectionBg));
    let ours = side_panel(&st, Side::Ours, 10);
    let PanelBody::Lines(ours_lines) = ours.body else { panic!("lines expected") };
    assert_eq!(text(&ours_lines[2]), "[x] mine 1");
    assert_eq!(text(&ours_lines[3]), "[ ] mine 2");
}

#[test]
fn empty_panels_show_a_message() {
    let mut st = state();
    st.file_selected = 5;
    match side_panel(&st, Side::Ours, 10).body {
        PanelBody::Message(m, _) => assert_eq!(m, "Sélectionnez un fichier"),
        PanelBody::Lines(_) => panic!("message expected"),
    }
    st.file_selected = 0;
    st.all_files[0].conflicts.clear();
    match side_panel(&st, Side::Ours, 10).body {
        PanelBody::Message(m, style) => {
            assert_eq!(m, "Aucun conflit");
            assert_eq!(style.fg, Some(ThemeColor::Success));
        }
        PanelBody::Lines(_) => panic!("message expected"),
    }
}

#[test]
fn file_list_items_show_state_type_and_resolution() {
    let items = file_list_items(&state());
    assert_eq!(items[0].text, "✗   a.rs");
    assert_eq!(items[0].style.bg, Some(ThemeColor::SelectionBg));
    assert_eq!(items[1].text, "✓ D←b.rs [Ours]");
    assert_eq!(items[1].style.fg, Some(ThemeColor::Success));
}

#[test]
fn edit_line_shows_the_cursor() {
    let line = render_edit_line_with_cursor("abc", 1, "  1 │");
    assert_eq!(text(&line), "  1 │ abc");
    assert_eq!(line[3].text, "b");
    assert_eq!(line[3].style.bg, Some(ThemeColor::SelectionFg));
    let end = render_edit_line_with_cursor("ab", 5, "  2 │");
    assert_eq!(text(&end), "  2 │ ab ");
    let mut st = state();
    st.is_editing = true;
    st.edit_buffer = s(&["first", "second"]);
    st.edit_cursor_line = 1;
    st.edit_cursor_col = 0;
    let lines = edit_buffer_lines(&st);
    assert_eq!(text(&lines[0]), "  1 │ first");
    assert_eq!(text(&lines[1]), "  2 │ second");
    assert_eq!(lines[1][2].text, "s");
}

#[test]
fn status_and_help_bars() {
    let st = state();
    let ctx = ConflictsRenderContext {
        state: &st,
        current_branch: None,
        repo_path: "/home/me/project",
        flash_message: None,
    };
    assert_eq!(
        build_status_bar(&ctx).text,
        "project · HEAD détachée · merge feature · 1 fichier(s) non résolu(s)"
    );
    let flashed = ConflictsRenderContext { current_branch: Some("main"), flash_message: Some("ok"), ..ctx };
    assert_eq!(build_status_bar(&flashed).text, "project · main · merge feature · ok");
    assert_eq!(
        build_help_bar(&st).text,
        "Espace:Choisir  Enter:Valider  b:Les deux  Tab:Panneau  ↑↓:Nav  F/B/L:Mode  i:Éditer  V:Finaliser  q:Quitter  A:Avorter | Mode:Bloc"
    );
    let mut list = state();
    list.panel_focus = ConflictPanelFocus::FileList;
    list.resolution_mode = ConflictResolutionMode::File;
    assert!(build_help_bar(&list).text.ends_with("A:Avorter | Mode:Fichier"));
}

#[test]
fn resolved_lines_are_styled_by_their_source() {
    let resolved = vec![
        ResolvedLine { content: "fn main() {".to_string(), source: LineSource::Context },
        ResolvedLine { content: "    ours();".to_string(), source: LineSource::Ours },
        ResolvedLine { content: "    theirs();".to_string(), source: LineSource::Theirs },
        ResolvedLine { content: "<<<<<<< HEAD".to_string(), source: LineSource::ConflictMarker },
    ];
    let lines = resolved_lines(&resolved);
    assert_eq!(lines.len(), 4);
    assert_eq!(lines[1][0].text, "    ours();");
    assert_eq!(lines[0][0].style.bg, None);
    assert_eq!(lines[1][0].style.bg, Some(ThemeColor::OursBg));
    assert_eq!(lines[2][0].style.bg, Some(ThemeColor::TheirsBg));
    assert_eq!(lines[3][0].style.fg, Some(ThemeColor::Warning));
    assert!(lines[3][0].style.bold);
    assert!(resolved_lines(&Vec::new()).is_empty());
}
