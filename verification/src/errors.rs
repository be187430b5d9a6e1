//! Errors that the library reports.

use vstd::prelude::*;

verus! {

/// A configuration that the quoters refuse at construction.
#[derive(Debug, Clone, Copy, PartialEq, Eq, Structural)]
pub enum ConfigError {
    /// The amounts of a band are not ordered `min <= avg <= max`.
    BandAmounts,
    /// The margins of a band are not ordered `min <= avg <= max`, or `min`
    /// is not below `max`.
    BandMargins,
    /// Two bands cover a common open interval of margins.
    BandsOverlap,
    /// The depth of the liquidity curve does not exceed its spread.
    DepthNotAboveSpread,
    /// The configuration is not of the shape that the chosen strategy reads.
    ShapeMismatch,
}

/// A reason for which a synchronisation tick is skipped.
#[derive(Debug, Clone, Copy, PartialEq, Eq, Structural)]
pub enum SyncError {
    /// At least one of the three balances is zero.
    ZeroBalances,
}

impl SyncError {
    /// A short text for the log.
    pub fn message(&self) -> (r: &'static str)
        ensures
            r@ == "zero balances"@,
    {
        "zero balances"
    }
}

} // verus!
