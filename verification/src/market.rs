use vstd::prelude::*;

verus! {

/// Penalty coefficient a freshly initialized market starts with.
pub const DEFAULT_PENALTY_COEFFICIENT: u64 = 10;

/// Time-sensitivity constant (in seconds) a freshly initialized market starts
/// with; it must stay positive, since the penalty engine divides by elapsed
/// time scaled against it.
pub const DEFAULT_TIME_SENSITIVITY: u64 = 1000;

/// The shared reference-price record that penalties are computed against.
///
/// `penalty_coefficient` is an integer scalar: one coefficient unit multiplies
/// the exponential deviation term one-for-one. `time_sensitivity` is a time
/// constant in the same unit as timestamps (seconds).
#[derive(Clone, Copy, Debug, PartialEq, Eq, Structural)]
pub struct Market {
    /// Reference price, in the smallest price unit.
    pub current_price: u64,
    /// Scalar controlling price-deviation penalty magnitude.
    pub penalty_coefficient: u64,
    /// Constant controlling how strongly transaction recency amplifies penalty.
    pub time_sensitivity: u64,
}

impl Market {
    /// A market is usable only while its time constant is positive; a zero
    /// `time_sensitivity` is a configuration error the engine rejects.
    pub open spec fn well_formed(self) -> bool {
        self.time_sensitivity > 0
    }
}

/// One participant's record: a balance and the time of the last processed
/// order. The balance is signed so that debt can be represented when the
/// venue runs with `BalancePolicy::AllowDebt`.
#[derive(Clone, Copy, Debug, PartialEq, Eq, Structural)]
pub struct User {
    /// Monetary balance, in the smallest price unit; negative means debt.
    pub balance: i64,
    /// Timestamp (seconds since epoch) of the most recent processed order.
    pub last_transaction: i64,
}

/// Creates a market around the given reference price, with the documented
/// default penalty parameters.
pub fn initialize_market(price: u64) -> (market: Market)
    ensures
        market.current_price == price,
        market.penalty_coefficient == DEFAULT_PENALTY_COEFFICIENT,
        market.time_sensitivity == DEFAULT_TIME_SENSITIVITY,
        market.well_formed(),
{
    Market {
        current_price: price,
        penalty_coefficient: DEFAULT_PENALTY_COEFFICIENT,
        time_sensitivity: DEFAULT_TIME_SENSITIVITY,
    }
}

} // verus!
