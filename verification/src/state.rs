//! Persisted records: the per-deployment policy and the per-token curve,
//! with the curve's state-transition rules.
//!
//! The state machine has two states, `Active` and `Graduated`.  The only
//! transition is `Active -> Graduated`, triggered by a buy crossing the
//! supply cap; nothing leaves `Graduated`.

use vstd::prelude::*;

use crate::constants::{BPS_DENOMINATOR, SCALE};
use crate::errors::CurveError;

verus! {

/// An opaque 32-byte identity of an external record (a token, a vault, an
/// authority, a wallet).  The core never derives or verifies these; it only
/// carries them and compares them for equality.
pub type AccountId = [u8; 32];

/// Byte-for-byte equality of two identities.
pub fn keys_equal(a: &AccountId, b: &AccountId) -> (r: bool)
    ensures
        r <==> a@ == b@,
{
    let mut i: usize = 0;
    while i < 32
        invariant
            0 <= i <= 32,
            forall|j: int| 0 <= j < i ==> a@[j] == b@[j],
        decreases 32 - i,
    {
        if a[i] != b[i] {
            return false;
        }
        i = i + 1;
    }
    proof {
        assert(a@ =~= b@);
    }
    true
}

/// Bump seeds of the derived addresses bound to a curve.  The derivation
/// itself happens in the host; the curve only stores the results.
#[derive(Clone, Copy, Debug, PartialEq, Eq, Structural)]
pub struct CurveBumps {
    pub curve_bump: u8,
    pub vault_bump: u8,
    pub mint_auth_bump: u8,
}

/// The per-deployment policy: fee rates and the sell-permission flag, owned
/// by an external administrator and read-only during a trade.
#[derive(Clone, Copy, Debug)]
pub struct Config {
    pub admin: AccountId,
    pub fee_recipient: AccountId,
    pub buy_fee_bps: u16,
    pub sell_fee_bps: u16,
    pub allow_sell_pre_grad: bool,
}

impl Config {
    /// Both fee rates stay within the basis-point denominator.
    pub open spec fn wf(self) -> bool {
        self.buy_fee_bps <= BPS_DENOMINATOR && self.sell_fee_bps <= BPS_DENOMINATOR
    }
}

/// The record of a single bonding curve: virtual reserves and invariant
/// (scaled by `SCALE`), inventory counters, and the terminal graduation
/// flag.
#[derive(Clone, Copy, Debug)]
pub struct Curve {
    /// The token this curve issues.
    pub token_mint: AccountId,
    /// Custody of the collateral taken in.
    pub sol_vault: AccountId,
    /// The derived authority allowed to mint the token.
    pub mint_auth: AccountId,
    /// Virtual collateral reserve as recorded at initialization; pricing
    /// rederives the live value as `k_scaled / y_v_scaled`.
    pub x_v_scaled: u128,
    /// Virtual token reserve, scaled.
    pub y_v_scaled: u128,
    /// The constant product of the virtual reserves, set once.
    pub k_scaled: u128,
    /// The scale factor the reserves carry.
    pub scale: u128,
    /// Inventory ceiling: issuance closes when `tokens_sold` reaches it.
    pub curve_supply_cap: u64,
    /// Cumulative tokens issued, net of tokens redeemed.
    pub tokens_sold: u64,
    /// Terminal flag: once set, never cleared.
    pub graduated: bool,
    pub bumps: CurveBumps,
}

impl Curve {
    /// Well-formedness: the scale is the fixed one, the token reserve is
    /// positive (the division guard), and while the curve is active the
    /// inventory sits strictly below the cap — crossing the cap graduates
    /// the curve within the same operation.
    pub open spec fn wf(self) -> bool {
        &&& self.scale == SCALE
        &&& self.y_v_scaled > 0
        &&& (!self.graduated ==> self.tokens_sold < self.curve_supply_cap)
    }

    /// Commit a buy quote: move the token reserve down to `y1_scaled`, add
    /// the tokens out to the inventory, and graduate the curve if the cap is
    /// reached.  On any failure the curve is unchanged.
    pub fn apply_buy(&mut self, dy_tokens: u64, y1_scaled: u128) -> (r: Result<(), CurveError>)
        ensures
            old(self).graduated ==> r == Err::<(), CurveError>(CurveError::Graduated)
                && *final(self) == *old(self),
            !old(self).graduated && old(self).tokens_sold + dy_tokens > u64::MAX ==> r == Err::<
                (),
                CurveError,
            >(CurveError::MathOverflow) && *final(self) == *old(self),
            !old(self).graduated && old(self).tokens_sold + dy_tokens <= u64::MAX ==> {
                &&& r == Ok::<(), CurveError>(())
                &&& final(self).y_v_scaled == y1_scaled
                &&& final(self).tokens_sold == old(self).tokens_sold + dy_tokens
                &&& final(self).graduated == (old(self).tokens_sold + dy_tokens
                    >= old(self).curve_supply_cap)
                &&& final(self).token_mint == old(self).token_mint
                &&& final(self).sol_vault == old(self).sol_vault
                &&& final(self).mint_auth == old(self).mint_auth
                &&& final(self).x_v_scaled == old(self).x_v_scaled
                &&& final(self).k_scaled == old(self).k_scaled
                &&& final(self).scale == old(self).scale
                &&& final(self).curve_supply_cap == old(self).curve_supply_cap
                &&& final(self).bumps == old(self).bumps
            },
            // Graduation is monotonic: no outcome clears the flag.
            old(self).graduated ==> final(self).graduated,
            // Well-formedness is preserved as long as the new reserve keeps
            // the division guard.
            old(self).wf() && y1_scaled > 0 ==> final(self).wf(),
    {
        if self.graduated {
            return Err(CurveError::Graduated);
        }
        let sold = match self.tokens_sold.checked_add(dy_tokens) {
            Some(v) => v,
            None => {
                return Err(CurveError::MathOverflow);
            },
        };
        self.y_v_scaled = y1_scaled;
        self.tokens_sold = sold;
        if sold >= self.curve_supply_cap {
            self.graduated = true;
        }
        Ok(())
    }

    /// Commit a sell quote: move the token reserve up to `y1_scaled` and
    /// take the redeemed tokens out of the inventory.  Selling is gated on
    /// the graduation flag and the policy flag together: the curve must
    /// still be active and the policy must permit selling before
    /// graduation; a sell against a curve closed to it reports `Graduated`.
    /// On any failure the curve is unchanged.
    pub fn apply_sell(
        &mut self,
        dy_tokens: u64,
        y1_scaled: u128,
        allow_sell_pre_grad: bool,
    ) -> (r: Result<(), CurveError>)
        ensures
            old(self).graduated || !allow_sell_pre_grad ==> r == Err::<(), CurveError>(
                CurveError::Graduated,
            ) && *final(self) == *old(self),
            !old(self).graduated && allow_sell_pre_grad && old(self).tokens_sold < dy_tokens ==> r
                == Err::<(), CurveError>(CurveError::MathOverflow) && *final(self) == *old(self),
            !old(self).graduated && allow_sell_pre_grad && old(self).tokens_sold >= dy_tokens
                ==> {
                &&& r == Ok::<(), CurveError>(())
                &&& final(self).y_v_scaled == y1_scaled
                &&& final(self).tokens_sold == old(self).tokens_sold - dy_tokens
                &&& final(self).graduated == old(self).graduated
                &&& final(self).token_mint == old(self).token_mint
                &&& final(self).sol_vault == old(self).sol_vault
                &&& final(self).mint_auth == old(self).mint_auth
                &&& final(self).x_v_scaled == old(self).x_v_scaled
                &&& final(self).k_scaled == old(self).k_scaled
                &&& final(self).scale == old(self).scale
                &&& final(self).curve_supply_cap == old(self).curve_supply_cap
                &&& final(self).bumps == old(self).bumps
            },
            // Graduation is monotonic: no outcome clears the flag.
            old(self).graduated ==> final(self).graduated,
            old(self).wf() && y1_scaled > 0 ==> final(self).wf(),
    {
        if self.graduated || !allow_sell_pre_grad {
            return Err(CurveError::Graduated);
        }
        let sold = match self.tokens_sold.checked_sub(dy_tokens) {
            Some(v) => v,
            None => {
                return Err(CurveError::MathOverflow);
            },
        };
        self.y_v_scaled = y1_scaled;
        self.tokens_sold = sold;
        Ok(())
    }
}

} // verus!
