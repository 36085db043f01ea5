use vstd::prelude::*;

verus! {

/// The failures the engine reports to its caller.
///
/// A strategy that has nothing to do and a partial fill are not errors:
/// the former is an absent order, the latter an ordinary outcome.
#[derive(Clone, Copy, Debug, PartialEq, Eq, Structural)]
pub enum TradingError {
    /// An upstream market-data fetch or parse failed.
    DataUnavailable,
    /// A required configuration value was absent.
    ConfigMissing,
    /// The requested strategy name is not registered.
    StrategyNotFound,
    /// A ledger update would leave the range of the fixed-point
    /// representation.
    LedgerOutOfRange,
}

} // verus!
