//! Search and filters.

use vstd::prelude::*;

verus! {

/// Open the search.
pub const OPEN: &'static str = "/";

/// Next match.
pub const NEXT: &'static str = "n";

/// Previous match.
pub const PREVIOUS: &'static str = "N";

/// Advanced filter.
pub const FILTER: &'static str = "F";

} // verus!
