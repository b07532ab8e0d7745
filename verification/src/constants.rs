use vstd::prelude::*;

verus! {

/// Smallest granularity of an amount: goals, donations and withdrawals must
/// be strictly greater than this.
pub const MINIMUM_UNIT: u64 = 1_000_000_000;

/// Longest accepted title, description or image URL, in characters.
pub const MAX_TEXT_LEN: usize = 100;

/// Fee percentage that a freshly initialized platform charges.
pub const DEFAULT_PLATFORM_FEE: u64 = 3;

/// Lowest fee percentage that the platform may be set to.
pub const MIN_PLATFORM_FEE: u64 = 1;

/// Highest fee percentage that the platform may be set to.
pub const MAX_PLATFORM_FEE: u64 = 15;

} // verus!
