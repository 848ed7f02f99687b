//! Diff display.

use vstd::prelude::*;

verus! {

/// Switch between unified and side-by-side diff.
pub const TOGGLE_VIEW: &'static str = "v";

/// Full screen.
pub const FULLSCREEN: [&'static str; 2] = ["z", "Enter"];

/// Scroll up.
pub const UP: [&'static str; 2] = ["k", "↑"];

/// Scroll down.
pub const DOWN: [&'static str; 2] = ["j", "↓"];

/// Scroll left.
pub const LEFT: [&'static str; 2] = ["h", "←"];

/// Scroll right.
pub const RIGHT: [&'static str; 2] = ["l", "→"];

/// Open the diff in the external tool.
pub const EXTERNAL: &'static str = "e";

} // verus!
