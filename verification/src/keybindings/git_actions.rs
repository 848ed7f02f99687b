//! Git actions of the graph view.

use vstd::prelude::*;

verus! {

/// Push.
pub const PUSH: &'static str = "P";

/// Pull.
pub const PULL: &'static str = "p";

/// Force push.
pub const FORCE_PUSH: &'static str = "Ctrl+P";

/// Fetch.
pub const FETCH: &'static str = "f";

/// Open the branches view.
pub const BRANCHES: &'static str = "b";

/// New commit.
pub const COMMIT: &'static str = "c";

/// Quick stash.
pub const STASH: &'static str = "s";

/// Merge.
pub const MERGE: &'static str = "m";

/// Cherry-pick.
pub const CHERRY_PICK: &'static str = "x";

/// Git blame.
pub const BLAME: &'static str = "B";

/// Reset.
pub const RESET: &'static str = "R";

/// Abort the merge in progress.
pub const ABORT_MERGE: &'static str = "A";

/// Load more history.
pub const LOAD_MORE: &'static str = "L";

/// Interactive rebase from the selected commit.
pub const INTERACTIVE_REBASE: &'static str = "I";

/// Undo the last operation through the reflog.
pub const UNDO_REFLOG: &'static str = "Z";

/// Create a tag on the selected commit.
pub const CREATE_TAG: &'static str = "t";

/// Delete the tag of the selected commit.
pub const DELETE_TAG: &'static str = "T";

/// Compare the selected commit with HEAD.
pub const COMPARE_HEAD: &'static str = "C";

/// Start a bisect.
pub const BISECT_START: &'static str = "X";

/// Hooks, signature and submodule diagnostics.
pub const REPOSITORY_INSIGHTS: &'static str = "i";

/// Status of the GitHub pull request.
pub const GITHUB_PR: &'static str = "O";

} // verus!
