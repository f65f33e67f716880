use vstd::prelude::*;

verus! {

/// Why an operation was refused. Every refusal leaves all state unchanged.
#[derive(Debug, Clone, Copy, PartialEq, Eq, Structural)]
pub enum ErrorCode {
    /// The oracle's price is too old, for another feed, or not positive.
    StaleOrInvalidPrice,
    /// Deposit or withdraw would leave the position under the minimum health factor.
    BelowMinHealthFactor,
    /// Liquidation of a position at or above the minimum health factor.
    AboveMinHealthFactor,
    /// Overflow, underflow or a balance that custody cannot cover.
    ArithmeticFault,
    /// The signer is not the configured authority.
    Unauthorized,
}

} // verus!
