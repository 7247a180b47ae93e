use vstd::prelude::*;

verus! {

/// Failure kinds surfaced by the curve math and the trade orchestration.
#[derive(Clone, Copy, Debug, PartialEq, Eq, Structural)]
pub enum CurveError {
    /// Arithmetic overflow or underflow.
    MathOverflow,
    /// Division by zero.
    DivByZero,
    /// Slippage guard violated: less out than the caller required.
    InsufficientOut,
    /// Insufficient input amount.
    InsufficientIn,
    /// No inventory remaining on the curve at initialization.
    InsufficientInventory,
    /// Trade attempted on a closed curve.
    Graduated,
    /// Binding mismatch between a supplied and an expected record.
    BadAccount,
    /// Fee rate above the basis-point denominator.
    BadFee,
}

} // verus!
