//! Quote computation for the constant-product curve.
//!
//! All quantities are integers.  Reserves are scaled by `SCALE`; every
//! division floors, so rounding always favors the pool, never the trader.
//! Every function reports a typed failure instead of saturating, wrapping,
//! or silently truncating.

use vstd::prelude::*;
use vstd::arithmetic::div_mod::{
    lemma_div_by_multiple, lemma_div_is_ordered, lemma_div_is_ordered_by_denominator,
    lemma_div_pos_is_pos,
};
use vstd::arithmetic::mul::{
    lemma_mul_inequality, lemma_mul_is_commutative, lemma_mul_nonnegative, lemma_mul_upper_bound,
};

use crate::constants::{BPS_DENOMINATOR, SCALE};
use crate::errors::CurveError;

verus! {

/// Fee charged on `gross` at `fee_bps` basis points, rounded down.
pub open spec fn spec_fee(gross: int, fee_bps: int) -> int {
    gross * fee_bps / (BPS_DENOMINATOR as int)
}

/// `floor(a * b / d)`, or the failure the checked computation reports: the
/// product not representable in 128 bits, or a zero divisor.
pub open spec fn spec_mul_div(a: u128, b: u128, d: u128) -> Result<u128, CurveError> {
    if a * b > u128::MAX {
        Err(CurveError::MathOverflow)
    } else if d == 0 {
        Err(CurveError::MathOverflow)
    } else {
        Ok(((a * b) / (d as int)) as u128)
    }
}

/// A fee at a rate of at most `BPS_DENOMINATOR` basis points never exceeds
/// the amount it is charged on.
proof fn lemma_fee_bounds(gross: int, fee_bps: int)
    requires
        0 <= gross <= u64::MAX,
        0 <= fee_bps <= BPS_DENOMINATOR,
    ensures
        0 <= gross * fee_bps <= u64::MAX * (BPS_DENOMINATOR as int),
        0 <= spec_fee(gross, fee_bps) <= gross,
{
    let bps = BPS_DENOMINATOR as int;
    lemma_mul_nonnegative(gross, fee_bps);
    lemma_mul_upper_bound(gross, u64::MAX as int, fee_bps, bps);
    lemma_mul_inequality(fee_bps, bps, gross);
    lemma_mul_is_commutative(gross, fee_bps);
    lemma_mul_is_commutative(gross, bps);
    lemma_div_is_ordered(gross * fee_bps, gross * bps, bps);
    lemma_div_by_multiple(gross, bps);
    lemma_div_pos_is_pos(gross * fee_bps, bps);
}

/// Safe `floor(a * b / d)` with overflow checks; both an unrepresentable
/// product and a zero divisor report `MathOverflow`, leaving the zero-divisor
/// taxonomy (`DivByZero`) to callers that guard it themselves.
pub fn mul_div(a: u128, b: u128, d: u128) -> (r: Result<u128, CurveError>)
    ensures
        r == spec_mul_div(a, b, d),
        r matches Ok(q) ==> d != 0 && q == a * b / (d as int),
{
    let p = match a.checked_mul(b) {
        Some(p) => p,
        None => {
            return Err(CurveError::MathOverflow);
        },
    };
    match p.checked_div(d) {
        Some(q) => Ok(q),
        None => Err(CurveError::MathOverflow),
    }
}

/// `x = k / y`: the virtual collateral reserve recomputed from the invariant
/// and the token reserve.
pub open spec fn spec_x_from_k_y(k_scaled: u128, y_scaled: u128) -> Result<u128, CurveError> {
    if y_scaled == 0 {
        Err(CurveError::DivByZero)
    } else {
        Ok(((k_scaled as int) / (y_scaled as int)) as u128)
    }
}

/// Recompute the virtual collateral reserve from the invariant: `x = k / y`.
pub fn x_from_k_y(k_scaled: u128, y_scaled: u128) -> (r: Result<u128, CurveError>)
    ensures
        r == spec_x_from_k_y(k_scaled, y_scaled),
{
    if y_scaled == 0 {
        return Err(CurveError::DivByZero);
    }
    mul_div(k_scaled, 1, y_scaled)
}

/// The buy quote: for a gross collateral payment `dx_gross_lamports` against
/// reserves of invariant `k_scaled` and token reserve `y0_scaled`, the fee is
/// taken off the gross amount first, the net amount enters the invariant, and
/// the token reserve drops to `k / (k/y0 + net*SCALE)`.  The result is
/// `(tokens_out, fee, net_in, y1_scaled)`.
pub open spec fn spec_quote_buy(
    k_scaled: u128,
    y0_scaled: u128,
    dx_gross_lamports: u64,
    fee_bps: u16,
) -> Result<(u64, u64, u64, u128), CurveError> {
    if fee_bps > BPS_DENOMINATOR {
        Err(CurveError::BadFee)
    } else if y0_scaled == 0 {
        Err(CurveError::DivByZero)
    } else {
        let fee = spec_fee(dx_gross_lamports as int, fee_bps as int);
        let net = dx_gross_lamports as int - fee;
        let denom = (k_scaled as int) / (y0_scaled as int) + net * (SCALE as int);
        if !(0 < denom <= u128::MAX) {
            Err(CurveError::MathOverflow)
        } else {
            let y1 = (k_scaled as int) / denom;
            if y1 > y0_scaled as int {
                Err(CurveError::MathOverflow)
            } else {
                let dy = (y0_scaled as int - y1) / (SCALE as int);
                if dy > u64::MAX as int {
                    Err(CurveError::MathOverflow)
                } else {
                    Ok((dy as u64, fee as u64, net as u64, y1 as u128))
                }
            }
        }
    }
}

/// Quote `tokens_out` for a given gross collateral amount (lamports) and
/// `fee_bps`.  The fee is taken outside the pool, so `k` stays constant.
/// Returns `(dy_tokens, fee_lamports, dx_net_lamports, y1_scaled)`.
pub fn cpmm_quote_buy_dx(
    k_scaled: u128,
    y0_scaled: u128,
    dx_gross_lamports: u64,
    fee_bps: u16,
) -> (r: Result<(u64, u64, u64, u128), CurveError>)
    ensures
        r == spec_quote_buy(k_scaled, y0_scaled, dx_gross_lamports, fee_bps),
        // Fee conservation: fee and net amount split the gross exactly.
        r matches Ok((dy, fee, net, y1)) ==> fee + net == dx_gross_lamports,
        // A buy never grows the token reserve, and the tokens out are exactly
        // the scaled-down reserve difference.
        r matches Ok((dy, fee, net, y1)) ==> y1 <= y0_scaled && dy == (y0_scaled - y1)
            / (SCALE as int),
{
    if fee_bps > BPS_DENOMINATOR {
        return Err(CurveError::BadFee);
    }
    if y0_scaled == 0 {
        return Err(CurveError::DivByZero);
    }
    proof {
        lemma_fee_bounds(dx_gross_lamports as int, fee_bps as int);
    }
    // Fee in lamports: the 128-bit product of two 64-bit-bounded values fits.
    let fee_lamports = ((dx_gross_lamports as u128) * (fee_bps as u128) / (BPS_DENOMINATOR
        as u128)) as u64;
    // Net lamports sent into the pool; the fee never exceeds the gross
    // amount, but the underflow check stands rather than being assumed.
    let dx_net_lamports = match dx_gross_lamports.checked_sub(fee_lamports) {
        Some(v) => v,
        None => {
            return Err(CurveError::InsufficientIn);
        },
    };
    proof {
        lemma_mul_inequality(dx_net_lamports as int, u64::MAX as int, SCALE as int);
    }
    let dx_net_scaled = match (dx_net_lamports as u128).checked_mul(SCALE) {
        Some(v) => v,
        None => {
            return Err(CurveError::MathOverflow);
        },
    };
    // A = k / y0: the current virtual collateral reserve, scaled.
    let a = match mul_div(k_scaled, 1, y0_scaled) {
        Ok(v) => v,
        Err(e) => {
            return Err(e);
        },
    };
    let denom = match a.checked_add(dx_net_scaled) {
        Some(v) => v,
        None => {
            return Err(CurveError::MathOverflow);
        },
    };
    // y1 = k / (A + dx)
    let y1_scaled = match mul_div(k_scaled, 1, denom) {
        Ok(v) => v,
        Err(e) => {
            return Err(e);
        },
    };
    // dy = y0 - y1; truncation can price y1 above y0, which is refused.
    let dy_scaled = match y0_scaled.checked_sub(y1_scaled) {
        Some(v) => v,
        None => {
            return Err(CurveError::MathOverflow);
        },
    };
    let dy_wide = dy_scaled / SCALE;
    if dy_wide > u64::MAX as u128 {
        return Err(CurveError::MathOverflow);
    }
    Ok((dy_wide as u64, fee_lamports, dx_net_lamports, y1_scaled))
}

/// The gross collateral payout for a sell that moves the token reserve from
/// `y0_scaled` up to `y1_scaled`: the scaled-down drop of the collateral
/// reserve, `(k/y0 - k/y1) / SCALE`.
pub open spec fn spec_sell_gross_out(k_scaled: u128, y0_scaled: u128, y1_scaled: u128) -> int {
    ((k_scaled as int) / (y0_scaled as int) - (k_scaled as int) / (y1_scaled as int)) / (SCALE
        as int)
}

/// The sell quote, the algebraic inverse of the buy quote: `dy_tokens` go
/// back into the reserve, the collateral reserve drop is paid out, and the
/// fee is taken from that payout.  The result is
/// `(net_out, fee, y1_scaled)`.
pub open spec fn spec_quote_sell(
    k_scaled: u128,
    y0_scaled: u128,
    dy_tokens: u64,
    fee_bps: u16,
) -> Result<(u64, u64, u128), CurveError> {
    if fee_bps > BPS_DENOMINATOR {
        Err(CurveError::BadFee)
    } else if y0_scaled == 0 {
        Err(CurveError::DivByZero)
    } else {
        let y1 = y0_scaled as int + dy_tokens as int * (SCALE as int);
        if y1 > u128::MAX as int {
            Err(CurveError::MathOverflow)
        } else {
            let dx = spec_sell_gross_out(k_scaled, y0_scaled, y1 as u128);
            if dx > u64::MAX as int {
                Err(CurveError::MathOverflow)
            } else {
                let fee = spec_fee(dx, fee_bps as int);
                Ok(((dx - fee) as u64, fee as u64, y1 as u128))
            }
        }
    }
}

/// Quote the net collateral out (lamports, after the fee) for selling
/// `dy_tokens` back to the curve.  The fee is taken from the payout, outside
/// the pool.  Returns `(dx_net_lamports, fee_lamports, y1_scaled)`.
pub fn cpmm_quote_sell_dy(
    k_scaled: u128,
    y0_scaled: u128,
    dy_tokens: u64,
    fee_bps: u16,
) -> (r: Result<(u64, u64, u128), CurveError>)
    ensures
        r == spec_quote_sell(k_scaled, y0_scaled, dy_tokens, fee_bps),
        // Fee conservation: fee and net payout split the gross payout exactly.
        r matches Ok((net, fee, y1)) ==> net + fee == spec_sell_gross_out(
            k_scaled,
            y0_scaled,
            y1,
        ),
        // A sell grows the token reserve by exactly the scaled tokens in.
        r matches Ok((net, fee, y1)) ==> y1 == y0_scaled + dy_tokens * (SCALE as int) && y1
            >= y0_scaled,
{
    if fee_bps > BPS_DENOMINATOR {
        return Err(CurveError::BadFee);
    }
    if y0_scaled == 0 {
        return Err(CurveError::DivByZero);
    }
    proof {
        lemma_mul_inequality(dy_tokens as int, u64::MAX as int, SCALE as int);
    }
    let dy_scaled = match (dy_tokens as u128).checked_mul(SCALE) {
        Some(v) => v,
        None => {
            return Err(CurveError::MathOverflow);
        },
    };
    // x_before = k / y0
    let x_before = match mul_div(k_scaled, 1, y0_scaled) {
        Ok(v) => v,
        Err(e) => {
            return Err(e);
        },
    };
    let y1_scaled = match y0_scaled.checked_add(dy_scaled) {
        Some(v) => v,
        None => {
            return Err(CurveError::MathOverflow);
        },
    };
    // x_after = k / (y0 + dy); a larger token reserve never raises the
    // collateral reserve.
    let x_after = match mul_div(k_scaled, 1, y1_scaled) {
        Ok(v) => v,
        Err(e) => {
            return Err(e);
        },
    };
    proof {
        lemma_div_is_ordered_by_denominator(k_scaled as int, y0_scaled as int, y1_scaled as int);
    }
    // dx = x_before - x_after: the payout never underflows, but the check
    // stands rather than being assumed.
    let dx_scaled = match x_before.checked_sub(x_after) {
        Some(v) => v,
        None => {
            return Err(CurveError::MathOverflow);
        },
    };
    let dx_wide = dx_scaled / SCALE;
    if dx_wide > u64::MAX as u128 {
        return Err(CurveError::MathOverflow);
    }
    let dx_lamports = dx_wide as u64;
    proof {
        lemma_fee_bounds(dx_lamports as int, fee_bps as int);
    }
    // Fee on the payout.
    let fee_lamports = ((dx_lamports as u128) * (fee_bps as u128) / (BPS_DENOMINATOR
        as u128)) as u64;
    // The fee never exceeds the payout; the check stands.
    let dx_net_lamports = match dx_lamports.checked_sub(fee_lamports) {
        Some(v) => v,
        None => {
            return Err(CurveError::MathOverflow);
        },
    };
    Ok((dx_net_lamports, fee_lamports, y1_scaled))
}

} // verus!
