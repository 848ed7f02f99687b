//! Blame view.

use vstd::prelude::*;

verus! {

/// Close the blame view.
pub const CLOSE: [&'static str; 2] = ["q", "Esc"];

/// Jump to the commit.
pub const JUMP: &'static str = "Enter";

} // verus!
