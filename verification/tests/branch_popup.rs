use git_sv::branch_panel::{branch_panel_help_area, branch_panel_items, branch_panel_title, BRANCH_PANEL_HELP};
use git_sv::branches_view::BranchInfo;
use git_sv::hit_test::Rect;
use git_sv::style::ThemeColor;

fn branch(name: &str, is_head: bool) -> BranchInfo {
    BranchInfo { name: name.to_string(), is_head, ahead: None, behind: None, last_commit_date: None, last_commit_message: None }
}

#[test]
fn branch_popup_marks_head_and_selection() {
    let branches = vec![branch("main", true), branch("dev", false), branch("old", false)];
    let items = branch_panel_items(&branches, 1);
    let texts: Vec<String> = items.iter().map(|l| l.iter().map(|s| s.text.as_str()).collect()).collect();
    assert_eq!(texts, vec!["* main", "  dev", "  old"]);
    assert_eq!(items[0][0].style.fg, Some(ThemeColor::Success));
    assert_eq!(items[1][1].style.bg, Some(ThemeColor::SelectionBg));
    assert_eq!(items[2][1].style.fg, Some(ThemeColor::TextNormal));
    assert_eq!(branch_panel_title(3), " Branches (3) ");
    assert_eq!(BRANCH_PANEL_HELP, "Enter:checkout  n:new  d:delete  Esc/b:close");
    assert_eq!(branch_panel_help_area(Rect::new(10, 5, 40, 12)), Rect::new(11, 15, 38, 1));
    assert_eq!(branch_panel_help_area(Rect::new(0, 0, 1, 1)), Rect::new(1, 0, 0, 1));
}
