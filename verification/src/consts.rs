//! Fixed coordinates of the provider's interface.

use vstd::prelude::*;

verus! {

/// Host that account authorization is addressed to.
pub const BASE_URL: &'static str = "https://api.backblazeb2.com";

/// Path segment that selects the interface version.
pub const API_VERSION: &'static str = "b2api/v3";

/// Largest number of names that one listing may hold.
pub const MAX_FILE_COUNT: u64 = 10_000;

} // verus!
