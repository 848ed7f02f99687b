//! Conflict resolution.

use vstd::prelude::*;

verus! {

/// Switch between panels.
pub const SWITCH_PANEL: [&'static str; 2] = ["Tab", "Shift+Tab"];

/// Accept ours.
pub const ACCEPT_OURS: [&'static str; 2] = ["o", "←"];

/// Accept theirs.
pub const ACCEPT_THEIRS: [&'static str; 2] = ["t", "→"];

/// Accept both (block mode).
pub const ACCEPT_BOTH: &'static str = "b";

/// Mark as resolved.
pub const MARK_RESOLVED: &'static str = "Enter";

/// Finish the merge.
pub const FINALIZE: &'static str = "V";

/// Abort the merge.
pub const ABORT: &'static str = "A";

/// File mode.
pub const MODE_FILE: &'static str = "F";

/// Block mode.
pub const MODE_BLOCK: &'static str = "B";

/// Line mode.
pub const MODE_LINE: &'static str = "L";

/// Edit the result.
pub const EDIT: [&'static str; 2] = ["i", "e"];

} // verus!
