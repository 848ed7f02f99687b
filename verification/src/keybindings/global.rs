//! Actions available in every view.

use vstd::prelude::*;

verus! {

/// Quit the application.
pub const QUIT: [&'static str; 2] = ["q", "Ctrl+C"];

/// Show the help.
pub const HELP: &'static str = "?";

/// Refresh the data.
pub const REFRESH: &'static str = "r";

/// Copy to the clipboard.
pub const COPY: &'static str = "y";

/// Graph (history) view.
pub const VIEW_GRAPH: &'static str = "1";

/// Staging view.
pub const VIEW_STAGING: &'static str = "2";

/// Branches view.
pub const VIEW_BRANCHES: &'static str = "3";

/// Conflicts view (while conflicts are active).
pub const VIEW_CONFLICTS: &'static str = "4";

/// Project tree view.
pub const VIEW_PROJECT_TREE: &'static str = "4";

/// Worktree selector.
pub const VIEW_WORKTREES: &'static str = "w";

} // verus!
