//! Verified core of a terminal git client: text layout helpers, commit-graph
//! line construction, side-by-side diff alignment, input decisions and the
//! repository change watcher.

pub mod i18n;
pub mod strings;
pub mod text;
pub mod input;
pub mod hit_test;
pub mod layout;
pub mod diff_align;
pub mod style;
pub mod lines;
pub mod block;
pub mod list;
pub mod popup;
pub mod graph;
pub mod time;
pub mod commit_line;
pub mod graph_header;
pub mod graph_items;
pub mod help_bar;
pub mod keybindings;
pub mod flash;
pub mod watcher;
pub mod loading;
pub mod theme;
pub mod diff_view;
pub mod blame_view;
pub mod conflicts_view;
pub mod conflicts_help;
pub mod confirm_dialog;
pub mod branches_view;
pub mod help_overlay;
pub mod detail_view;
pub mod reset_picker;
pub mod merge_picker;
pub mod text_edit;
pub mod status;
pub mod staging_view;
pub mod status_bar;
pub mod nav_bar;
pub mod search_bar;
pub mod filter_popup;
pub mod project_tree_view;
pub mod graph_legend;
pub mod branch_panel;
pub mod repository_insights;
pub mod github_pr;
pub mod files_view;
