use vstd::prelude::*;

verus! {

/// Why an order was rejected. Every failure leaves the user's record untouched.
#[derive(Clone, Copy, Debug, PartialEq, Eq, Structural)]
pub enum OrderError {
    /// The market's `time_sensitivity` is zero, so the time multiplier is
    /// undefined; the order is refused before any computation.
    ConfigurationError,
    /// No time has elapsed since the user's last transaction (or the supplied
    /// clock reading lies before it), so the time multiplier would divide by a
    /// non-positive duration.
    DegenerateTimeError,
    /// The penalty computation would exceed the representable range; the order
    /// is refused rather than settled with a wrapped value.
    OverflowError,
    /// Under `BalancePolicy::RejectInsufficient`, settling the penalty would
    /// leave the balance negative.
    InsufficientBalanceError,
}

/// What to do when a penalty exceeds the user's balance.
#[derive(Clone, Copy, Debug, PartialEq, Eq, Structural)]
pub enum BalancePolicy {
    /// Let the balance go negative: the shortfall is carried as debt.
    AllowDebt,
    /// Refuse any order whose penalty would leave the balance negative.
    RejectInsufficient,
}

} // verus!
