//! Quantisation constants shared by the quoters.

use vstd::prelude::*;

verus! {

/// Number of fractional decimal digits kept in sizes and prices.
pub const MAX_DECIMALS: u32 = 2;

/// Number of fixed-point steps in one whole unit (ten to the `MAX_DECIMALS`).
pub const SCALE: u64 = 100;

/// The unit price, in hundredths.
pub const PRICE_ONE: i64 = 100;

/// Smallest size, in hundredths of a token, that the exchange accepts (15.00).
pub const MIN_SIZE: u64 = 1500;

/// Smallest price step, in hundredths (0.01).
pub const MIN_TICK: i64 = 1;

} // verus!
