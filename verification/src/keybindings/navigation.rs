//! Moving through the commit graph.

use vstd::prelude::*;

verus! {

/// Next commit.
pub const DOWN: [&'static str; 2] = ["j", "↓"];

/// Previous commit.
pub const UP: [&'static str; 2] = ["k", "↑"];

/// First commit.
pub const TOP: [&'static str; 2] = ["g", "Home"];

/// Last commit.
pub const BOTTOM: [&'static str; 2] = ["G", "End"];

/// Next page.
pub const PAGE_DOWN: [&'static str; 2] = ["Ctrl+D", "PgDn"];

/// Previous page.
pub const PAGE_UP: [&'static str; 2] = ["Ctrl+U", "PgUp"];

/// Switch between panels.
pub const SWITCH_PANEL: &'static str = "Tab";

} // verus!
