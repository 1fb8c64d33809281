use vstd::prelude::*;

verus! {

/// Lowest risk rating a listing may carry.
pub const MIN_RISK_RATING: u8 = 1;

/// Highest risk rating a listing may carry.
pub const MAX_RISK_RATING: u8 = 10;

/// Number of contributor slots in every invoice record.
pub const MAX_CONTRIBUTORS: usize = 64;

} // verus!
