//! Page sizes shared by the listing endpoints.

use vstd::prelude::*;

verus! {

/// Page size when a client does not ask for one.
pub const DEFAULT_PAGE_SIZE: u32 = 20;

/// Largest page a client may ask for.
pub const MAX_PAGE_SIZE: u32 = 100;

} // verus!
