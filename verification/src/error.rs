use vstd::prelude::*;

verus! {

/// Every way an operation can be refused. The first violated check aborts
/// the whole operation with no partial effect.
#[derive(Clone, Copy, Debug, PartialEq, Eq, Structural)]
pub enum F44Code {
    /// The caller is not the identity this operation is gated on.
    NotAuthorized,
    /// The supplied fee recipient is not the configured one.
    InvalidFeeRecipient,
    /// The configuration was already initialized.
    AlreadyInitialized,
    /// The configuration has not been initialized yet.
    NotInitialized,
    /// The curve reached its completion threshold and no longer trades.
    CurveComplete,
    /// The curve has not completed, so it cannot be withdrawn.
    CurveNotComplete,
    /// An amount that must be positive was zero.
    ZeroAmount,
    /// A computed amount was out of range for a transfer.
    InvalidAmount,
    /// The slope makes the curve's prices unrepresentable.
    InvalidSlope,
    /// A price does not fit the fixed-point range.
    InvalidPrice,
    /// The configured reserves cannot back a curve.
    InvalidReserves,
    /// A checked arithmetic step overflowed or divided by zero.
    MathOverflow,
    /// A computed settlement amount does not fit the fixed-point range.
    InvalidCalculation,
    /// The cost of a buy exceeds the caller's slippage ceiling.
    TooMuchRequired,
    /// The proceeds of a sell fall short of the caller's slippage floor.
    TooLittleReceived,
    /// A vault cannot cover the requested payout.
    InsufficientBalance,
    /// The curve's vault cannot deliver the requested tokens.
    InsufficientLiquidity,
    /// The supplied liquidity is not the required multiple of the
    /// configured agent amount.
    NotEnoughAmount,
}

} // verus!
