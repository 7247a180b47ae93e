//! Notifications a successful trade hands to the host's append-only event
//! log.  The core only builds the values; emitting them is the host's work.

use vstd::prelude::*;

use crate::state::AccountId;

verus! {

/// A successful buy: collateral in, tokens out.
#[derive(Clone, Copy, Debug)]
pub struct BuyExecuted {
    pub mint: AccountId,
    pub buyer: AccountId,
    /// Gross lamports paid by the buyer, fee included.
    pub dx_lamports: u64,
    pub fee_lamports: u64,
    /// Tokens received by the buyer.
    pub dy_tokens: u64,
    /// Scaled reserves after the trade.
    pub x_v_after: u128,
    pub y_v_after: u128,
}

/// A successful sell: tokens in, collateral out.
#[derive(Clone, Copy, Debug)]
pub struct SellExecuted {
    pub mint: AccountId,
    pub seller: AccountId,
    pub dy_tokens: u64,
    pub fee_lamports: u64,
    /// Net lamports paid to the seller, after the fee.
    pub dx_lamports: u64,
    /// Scaled reserves after the trade.
    pub x_v_after: u128,
    pub y_v_after: u128,
}

/// The curve's inventory is fully sold and issuance is closed for good.
#[derive(Clone, Copy, Debug)]
pub struct Graduated {
    pub mint: AccountId,
    pub tokens_sold: u64,
    /// Scaled reserves at graduation.
    pub x_v_final: u128,
    pub y_v_final: u128,
}

} // verus!
