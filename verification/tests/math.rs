use bonding_curve::constants::SCALE;
use bonding_curve::errors::CurveError;
use bonding_curve::math::{cpmm_quote_buy_dx, cpmm_quote_sell_dy, mul_div, x_from_k_y};

#[test]
fn mul_div_exact() {
    assert_eq!(mul_div(6, 7, 2), Ok(21));
    assert_eq!(mul_div(7, 2, 3), Ok(4)); // floors toward zero
    assert_eq!(mul_div(0, 123, 5), Ok(0));
}

#[test]
fn mul_div_overflow() {
    assert_eq!(mul_div(u128::MAX, 2, 1), Err(CurveError::MathOverflow));
}

#[test]
fn mul_div_zero_divisor() {
    assert_eq!(mul_div(1, 1, 0), Err(CurveError::MathOverflow));
}

#[test]
fn x_from_k_y_recomputes_reserve() {
    assert_eq!(x_from_k_y(1_000_000_000_000, 500_000), Ok(2_000_000));
    assert_eq!(x_from_k_y(5, 2), Ok(2));
}

#[test]
fn x_from_k_y_zero_reserve() {
    assert_eq!(x_from_k_y(1_000_000_000_000, 0), Err(CurveError::DivByZero));
}

// Classic constant product with no fee: x0 = 100, y0 = 100 (scaled), gross
// in 100 -> k = 10_000, new x = 200, new y = 50, so 50 tokens out.
#[test]
fn quote_buy_classic_cpmm() {
    let k = 100 * SCALE * 100 * SCALE;
    let y0 = 100 * SCALE;
    let r = cpmm_quote_buy_dx(k, y0, 100, 0).unwrap();
    assert_eq!(r, (50, 0, 100, 50 * SCALE));
}

// 1% fee on a gross of 1000: fee 10, net 990, and only the net moves the
// invariant.
#[test]
fn quote_buy_fee_split() {
    let k = 1_000_000_000_000;
    let y0 = 1_000_000;
    let (dy, fee, net, y1) = cpmm_quote_buy_dx(k, y0, 1000, 100).unwrap();
    assert_eq!(fee, 10);
    assert_eq!(net, 990);
    assert_eq!(fee as u128 + net as u128, 1000);
    // y1 = k / (k/y0 + 990*SCALE) = 10^12 / 10_900_000
    assert_eq!(y1, 91_743);
    assert_eq!(dy, (y0 - y1) as u64 / SCALE as u64);
    assert_eq!(dy, 90);
}

#[test]
fn quote_buy_bad_fee() {
    assert_eq!(
        cpmm_quote_buy_dx(1, 1, 1, 10_001),
        Err(CurveError::BadFee)
    );
}

#[test]
fn quote_buy_zero_reserve() {
    assert_eq!(
        cpmm_quote_buy_dx(1_000_000, 0, 1, 0),
        Err(CurveError::DivByZero)
    );
}

// k/y0 truncates to zero and nothing comes in: the next divisor would be
// zero, which the checked division refuses.
#[test]
fn quote_buy_empty_denominator() {
    assert_eq!(
        cpmm_quote_buy_dx(5, 10, 0, 0),
        Err(CurveError::MathOverflow)
    );
}

// Truncation can price the new reserve above the old one (k=10, y0=4:
// A = 2, y1 = 10/2 = 5 > 4); such a quote is refused, never issued.
#[test]
fn quote_buy_rounding_never_favors_trader() {
    assert_eq!(
        cpmm_quote_buy_dx(10, 4, 0, 0),
        Err(CurveError::MathOverflow)
    );
}

// The inverse of the classic buy: selling the 50 tokens back at no fee
// returns the 100 lamports and restores the reserve.
#[test]
fn quote_sell_classic_cpmm() {
    let k = 100 * SCALE * 100 * SCALE;
    let y0 = 50 * SCALE;
    let r = cpmm_quote_sell_dy(k, y0, 50, 0).unwrap();
    assert_eq!(r, (100, 0, 100 * SCALE));
}

#[test]
fn quote_sell_fee_split() {
    let k = 100 * SCALE * 100 * SCALE;
    let y0 = 50 * SCALE;
    let (net, fee, y1) = cpmm_quote_sell_dy(k, y0, 50, 100).unwrap();
    // gross payout 100, 1% fee on the payout
    assert_eq!(fee, 1);
    assert_eq!(net, 99);
    assert_eq!(y1, 100 * SCALE);
}

#[test]
fn quote_sell_bad_fee() {
    assert_eq!(
        cpmm_quote_sell_dy(1, 1, 1, 10_001),
        Err(CurveError::BadFee)
    );
}

#[test]
fn quote_sell_zero_reserve() {
    assert_eq!(
        cpmm_quote_sell_dy(1_000_000, 0, 1, 0),
        Err(CurveError::DivByZero)
    );
}

#[test]
fn quote_sell_reserve_overflow() {
    assert_eq!(
        cpmm_quote_sell_dy(1_000_000, u128::MAX, 1, 0),
        Err(CurveError::MathOverflow)
    );
}

// A buy followed by the mirror sell at zero fee comes back to the starting
// reserve and returns the collateral.
#[test]
fn buy_then_sell_round_trip() {
    let k = 100 * SCALE * 100 * SCALE;
    let y0 = 100 * SCALE;
    let (dy, _, net_in, y1) = cpmm_quote_buy_dx(k, y0, 100, 0).unwrap();
    assert_eq!(net_in, 100);
    let (net_out, fee, y2) = cpmm_quote_sell_dy(k, y1, dy, 0).unwrap();
    assert_eq!(fee, 0);
    assert_eq!(net_out, 100);
    assert_eq!(y2, y0);
}
