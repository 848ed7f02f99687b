//! Staging view.

use vstd::prelude::*;

verus! {

/// Stage the selected file.
pub const STAGE: [&'static str; 2] = ["s", "Enter"];

/// Stage every file.
pub const STAGE_ALL: &'static str = "a";

/// Stash the selected file.
pub const STASH_FILE: &'static str = "S";

/// Stash every unstaged file.
pub const STASH_ALL: &'static str = "Ctrl+S";

/// Unstage the selected file.
pub const UNSTAGE: [&'static str; 2] = ["u", "Enter"];

/// Unstage every file.
pub const UNSTAGE_ALL: &'static str = "U";

/// Discard the file's changes.
pub const DISCARD: &'static str = "d";

/// Discard every change.
pub const DISCARD_ALL: &'static str = "D";

/// Start typing the commit message.
pub const COMMIT_MESSAGE: &'static str = "c";

/// Amend the last commit.
pub const AMEND: &'static str = "A";

/// Move the focus.
pub const SWITCH_FOCUS: [&'static str; 2] = ["Tab", "Space"];

/// Open the diff of the selected file.
pub const OPEN_DIFF: &'static str = "Space";

/// Stage the hunk under the cursor of the diff.
pub const STAGE_HUNK: &'static str = "s";

/// Stage the line under the cursor of the diff.
pub const STAGE_LINE: &'static str = "S";

} // verus!
