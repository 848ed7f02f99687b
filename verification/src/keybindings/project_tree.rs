//! Project tree view.

use vstd::prelude::*;

verus! {

/// Expand or collapse the selected directory.
pub const TOGGLE: &'static str = "Enter";

/// Collapse the directory, or select its parent.
pub const COLLAPSE: &'static str = "h";

/// Expand the directory.
pub const EXPAND: &'static str = "l";

/// Quick path search.
pub const SEARCH: &'static str = "/";

/// Next panel: tree, history, files, diff.
pub const SWITCH_PANEL: &'static str = "Tab";

/// Compare the commits of the path with a branch.
pub const COMPARE: &'static str = "C";

/// Close the path comparison.
pub const CLOSE_COMPARISON: &'static str = "Esc";

} // verus!
