//! Branches view.

use vstd::prelude::*;

verus! {

/// Check out the selected branch.
pub const CHECKOUT: &'static str = "Enter";

/// Create a branch.
pub const NEW: &'static str = "n";

/// Delete the branch.
pub const DELETE: &'static str = "d";

/// Rename the branch.
pub const RENAME: &'static str = "r";

/// Show or hide remote branches.
pub const TOGGLE_REMOTE: &'static str = "R";

/// Merge.
pub const MERGE: &'static str = "m";

/// Next section.
pub const NEXT_SECTION: &'static str = "Tab";

/// Previous section.
pub const PREV_SECTION: &'static str = "Shift+Tab";

/// Create a worktree.
pub const WORKTREE_NEW: &'static str = "n";

/// Delete a worktree.
pub const WORKTREE_DELETE: &'static str = "d";

/// Save a stash.
pub const STASH_SAVE: &'static str = "s";

/// Apply a stash.
pub const STASH_APPLY: &'static str = "a";

/// Pop a stash.
pub const STASH_POP: &'static str = "p";

/// Drop a stash.
pub const STASH_DROP: &'static str = "d";

/// Next file of the stash.
pub const STASH_FILE_NEXT: &'static str = "l";

/// Previous file of the stash.
pub const STASH_FILE_PREV: &'static str = "h";

/// Rebase onto the selected branch.
pub const REBASE: &'static str = "e";

/// Open the selected worktree.
pub const WORKTREE_OPEN: &'static str = "Enter";

} // verus!
