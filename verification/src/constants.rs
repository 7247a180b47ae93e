use vstd::prelude::*;

verus! {

/// Fixed-point scale applied to the virtual reserves, so that integer-only
/// arithmetic keeps fractional precision.
pub const SCALE: u128 = 10_000;

/// Basis-point denominator: 10_000 bps = 100.00%.
pub const BPS_DENOMINATOR: u16 = 10_000;

} // verus!
