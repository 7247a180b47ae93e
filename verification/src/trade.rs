//! Per-trade orchestration and one-time initialization.
//!
//! Each operation computes its whole effect first — the next curve state,
//! the amounts to move, the notifications to emit — and hands it back as one
//! value.  The host performs the transfers and commits the next state behind
//! a single all-or-nothing boundary; on any error nothing is persisted.

use vstd::prelude::*;
use vstd::arithmetic::mul::lemma_mul_inequality;

use crate::constants::{BPS_DENOMINATOR, SCALE};
use crate::errors::CurveError;
use crate::events::{BuyExecuted, Graduated, SellExecuted};
use crate::math::{
    cpmm_quote_buy_dx, cpmm_quote_sell_dy, mul_div, spec_quote_buy, spec_quote_sell,
};
use crate::state::{keys_equal, AccountId, Config, Curve, CurveBumps};

verus! {

/// Parameters of a buy: the gross collateral the buyer pays and the least
/// number of tokens the buyer will accept (the slippage guard).
#[derive(Clone, Copy, Debug)]
pub struct BuyArgs {
    pub max_pay_lamports: u64,
    pub min_tokens_out: u64,
}

/// Parameters of a sell: the tokens redeemed and the least net payout the
/// seller will accept (the slippage guard).
#[derive(Clone, Copy, Debug)]
pub struct SellArgs {
    pub tokens_in: u64,
    pub min_net_out: u64,
}

/// Parameters of the one-time policy initialization.
#[derive(Clone, Copy, Debug)]
pub struct InitConfigArgs {
    pub fee_recipient: AccountId,
    pub buy_fee_bps: u16,
    pub sell_fee_bps: u16,
    pub allow_sell_pre_grad: bool,
}

/// Parameters of the one-time curve initialization: unscaled initial
/// reserves, the inventory ceiling, and whether the host should hand the
/// minting authority to the curve's derived authority.
#[derive(Clone, Copy, Debug)]
pub struct InitCurveArgs {
    pub x_v0_lamports: u64,
    pub y_v0_tokens: u64,
    pub curve_supply_cap: u64,
    pub take_mint_authority: bool,
}

/// Everything a successful buy asks of the host: the next curve state to
/// commit, the transfers and the mint to perform, and the notifications to
/// emit.
#[derive(Clone, Copy, Debug)]
pub struct BuyOutcome {
    /// The curve state to commit.
    pub next: Curve,
    /// Lamports the buyer pays to the fee recipient, when positive.
    pub fee_lamports: u64,
    /// Lamports the buyer pays into the curve's collateral custody, when
    /// positive.
    pub dx_net_lamports: u64,
    /// Tokens minted to the buyer under the curve's minting authority.
    pub dy_tokens: u64,
    /// The trade-executed notification.
    pub executed: BuyExecuted,
    /// The graduation notification, exactly when this trade crossed the cap.
    pub graduation: Option<Graduated>,
}

/// Everything a successful sell asks of the host: the next curve state to
/// commit, the burn, the payouts, and the notification to emit.
#[derive(Clone, Copy, Debug)]
pub struct SellOutcome {
    /// The curve state to commit.
    pub next: Curve,
    /// Lamports paid from custody to the fee recipient, when positive.
    pub fee_lamports: u64,
    /// Lamports paid from custody to the seller.
    pub dx_net_lamports: u64,
    /// Tokens burned from the seller.
    pub dy_tokens: u64,
    /// The trade-executed notification.
    pub executed: SellExecuted,
}

/// The buy operation as a function of the current state and the call's
/// arguments alone.
pub open spec fn spec_buy(curve: Curve, config: Config, buyer: AccountId, args: BuyArgs) -> Result<
    BuyOutcome,
    CurveError,
> {
    if curve.graduated {
        Err(CurveError::Graduated)
    } else {
        match spec_quote_buy(
            curve.k_scaled,
            curve.y_v_scaled,
            args.max_pay_lamports,
            config.buy_fee_bps,
        ) {
            Err(e) => Err(e),
            Ok((dy, fee, net, y1)) => {
                if dy < args.min_tokens_out {
                    Err(CurveError::InsufficientOut)
                } else if curve.tokens_sold + dy > u64::MAX {
                    Err(CurveError::MathOverflow)
                } else if y1 == 0 {
                    Err(CurveError::MathOverflow)
                } else {
                    let sold = (curve.tokens_sold + dy) as u64;
                    let grad = sold >= curve.curve_supply_cap;
                    let x_after = ((curve.k_scaled as int) / (y1 as int)) as u128;
                    Ok(
                        BuyOutcome {
                            next: Curve {
                                token_mint: curve.token_mint,
                                sol_vault: curve.sol_vault,
                                mint_auth: curve.mint_auth,
                                x_v_scaled: curve.x_v_scaled,
                                y_v_scaled: y1,
                                k_scaled: curve.k_scaled,
                                scale: curve.scale,
                                curve_supply_cap: curve.curve_supply_cap,
                                tokens_sold: sold,
                                graduated: grad,
                                bumps: curve.bumps,
                            },
                            fee_lamports: fee,
                            dx_net_lamports: net,
                            dy_tokens: dy,
                            executed: BuyExecuted {
                                mint: curve.token_mint,
                                buyer,
                                dx_lamports: args.max_pay_lamports,
                                fee_lamports: fee,
                                dy_tokens: dy,
                                x_v_after: x_after,
                                y_v_after: y1,
                            },
                            graduation: if grad {
                                Some(
                                    Graduated {
                                        mint: curve.token_mint,
                                        tokens_sold: sold,
                                        x_v_final: x_after,
                                        y_v_final: y1,
                                    },
                                )
                            } else {
                                None
                            },
                        },
                    )
                }
            },
        }
    }
}

/// Buy tokens with collateral: quote, enforce the slippage guard, and build
/// the next state and the effects for the host to commit atomically.
pub fn buy(curve: &Curve, config: &Config, buyer: AccountId, args: BuyArgs) -> (r: Result<
    BuyOutcome,
    CurveError,
>)
    ensures
        r == spec_buy(*curve, *config, buyer, args),
        // A closed curve refuses every buy.
        curve.graduated ==> r == Err::<BuyOutcome, CurveError>(CurveError::Graduated),
        r matches Ok(o) ==> {
            &&& !curve.graduated
            // Fee conservation: fee and net split the gross exactly.
            &&& o.fee_lamports + o.dx_net_lamports == args.max_pay_lamports
            // The slippage guard held.
            &&& o.dy_tokens >= args.min_tokens_out
            // Inventory accounting.
            &&& o.next.tokens_sold == curve.tokens_sold + o.dy_tokens
            // The cap boundary: the flag is set exactly when this trade
            // reaches the cap, and the graduation notification comes with
            // it, in the same call.
            &&& o.next.graduated == (curve.tokens_sold + o.dy_tokens
                >= curve.curve_supply_cap)
            &&& (o.graduation is Some <==> o.next.graduated)
            &&& o.next.k_scaled == curve.k_scaled
        },
        // A successful buy keeps the curve well-formed.
        curve.wf() ==> (r matches Ok(o) ==> o.next.wf()),
{
    if curve.graduated {
        return Err(CurveError::Graduated);
    }
    let (dy_tokens, fee_lamports, dx_net_lamports, y_after_scaled) = match cpmm_quote_buy_dx(
        curve.k_scaled,
        curve.y_v_scaled,
        args.max_pay_lamports,
        config.buy_fee_bps,
    ) {
        Ok(q) => q,
        Err(e) => {
            return Err(e);
        },
    };
    if dy_tokens < args.min_tokens_out {
        return Err(CurveError::InsufficientOut);
    }
    // Gross paid, for the notification; fee and net split the gross exactly,
    // but the overflow check stands rather than being assumed.
    let gross = match dx_net_lamports.checked_add(fee_lamports) {
        Some(v) => v,
        None => {
            return Err(CurveError::MathOverflow);
        },
    };
    let mut next = *curve;
    match next.apply_buy(dy_tokens, y_after_scaled) {
        Ok(()) => {},
        Err(e) => {
            return Err(e);
        },
    }
    // Post-trade collateral reserve for the notifications; a buy that would
    // empty the token reserve fails here and is never committed.
    let x_after = match mul_div(curve.k_scaled, 1, y_after_scaled) {
        Ok(v) => v,
        Err(e) => {
            return Err(e);
        },
    };
    let executed = BuyExecuted {
        mint: curve.token_mint,
        buyer,
        dx_lamports: gross,
        fee_lamports,
        dy_tokens,
        x_v_after: x_after,
        y_v_after: y_after_scaled,
    };
    let graduation = if next.graduated {
        Some(
            Graduated {
                mint: curve.token_mint,
                tokens_sold: next.tokens_sold,
                x_v_final: x_after,
                y_v_final: next.y_v_scaled,
            },
        )
    } else {
        None
    };
    Ok(BuyOutcome { next, fee_lamports, dx_net_lamports, dy_tokens, executed, graduation })
}

/// The sell operation as a function of the current state and the call's
/// arguments alone.  Selling is permitted only while the curve is active and
/// only when the policy allows selling before graduation; a curve closed to
/// selling reports `Graduated`.
pub open spec fn spec_sell(
    curve: Curve,
    config: Config,
    seller: AccountId,
    args: SellArgs,
) -> Result<SellOutcome, CurveError> {
    if curve.graduated || !config.allow_sell_pre_grad {
        Err(CurveError::Graduated)
    } else {
        match spec_quote_sell(
            curve.k_scaled,
            curve.y_v_scaled,
            args.tokens_in,
            config.sell_fee_bps,
        ) {
            Err(e) => Err(e),
            Ok((net, fee, y1)) => {
                if net < args.min_net_out {
                    Err(CurveError::InsufficientOut)
                } else if curve.tokens_sold < args.tokens_in {
                    Err(CurveError::MathOverflow)
                } else {
                    let sold = (curve.tokens_sold - args.tokens_in) as u64;
                    let x_after = ((curve.k_scaled as int) / (y1 as int)) as u128;
                    Ok(
                        SellOutcome {
                            next: Curve {
                                token_mint: curve.token_mint,
                                sol_vault: curve.sol_vault,
                                mint_auth: curve.mint_auth,
                                x_v_scaled: curve.x_v_scaled,
                                y_v_scaled: y1,
                                k_scaled: curve.k_scaled,
                                scale: curve.scale,
                                curve_supply_cap: curve.curve_supply_cap,
                                tokens_sold: sold,
                                graduated: curve.graduated,
                                bumps: curve.bumps,
                            },
                            fee_lamports: fee,
                            dx_net_lamports: net,
                            dy_tokens: args.tokens_in,
                            executed: SellExecuted {
                                mint: curve.token_mint,
                                seller,
                                dy_tokens: args.tokens_in,
                                fee_lamports: fee,
                                dx_lamports: net,
                                x_v_after: x_after,
                                y_v_after: y1,
                            },
                        },
                    )
                }
            },
        }
    }
}

/// Sell tokens back for collateral: quote, enforce the slippage guard, and
/// build the next state and the effects for the host to commit atomically.
pub fn sell(curve: &Curve, config: &Config, seller: AccountId, args: SellArgs) -> (r: Result<
    SellOutcome,
    CurveError,
>)
    ensures
        r == spec_sell(*curve, *config, seller, args),
        // A closed curve refuses every sell.
        curve.graduated ==> r == Err::<SellOutcome, CurveError>(CurveError::Graduated),
        r matches Ok(o) ==> {
            &&& !curve.graduated
            // A sell never graduates the curve.
            &&& o.next.graduated == curve.graduated
            // The slippage guard held.
            &&& o.dx_net_lamports >= args.min_net_out
            // Inventory accounting.
            &&& o.next.tokens_sold == curve.tokens_sold - o.dy_tokens
            &&& o.dy_tokens == args.tokens_in
            &&& o.next.k_scaled == curve.k_scaled
        },
        // A successful sell keeps the curve well-formed.
        curve.wf() ==> (r matches Ok(o) ==> o.next.wf()),
{
    if curve.graduated || !config.allow_sell_pre_grad {
        return Err(CurveError::Graduated);
    }
    let (dx_net_lamports, fee_lamports, y_after_scaled) = match cpmm_quote_sell_dy(
        curve.k_scaled,
        curve.y_v_scaled,
        args.tokens_in,
        config.sell_fee_bps,
    ) {
        Ok(q) => q,
        Err(e) => {
            return Err(e);
        },
    };
    if dx_net_lamports < args.min_net_out {
        return Err(CurveError::InsufficientOut);
    }
    let mut next = *curve;
    match next.apply_sell(args.tokens_in, y_after_scaled, config.allow_sell_pre_grad) {
        Ok(()) => {},
        Err(e) => {
            return Err(e);
        },
    }
    // Post-trade collateral reserve for the notification; the token reserve
    // only grew, so the division guard holds.
    let x_after = match mul_div(curve.k_scaled, 1, y_after_scaled) {
        Ok(v) => v,
        Err(e) => {
            return Err(e);
        },
    };
    let executed = SellExecuted {
        mint: curve.token_mint,
        seller,
        dy_tokens: args.tokens_in,
        fee_lamports,
        dx_lamports: dx_net_lamports,
        x_v_after: x_after,
        y_v_after: y_after_scaled,
    };
    Ok(SellOutcome { next, fee_lamports, dx_net_lamports, dy_tokens: args.tokens_in, executed })
}

/// The one-time policy initialization as a function of its arguments.
pub open spec fn spec_init_config(admin: AccountId, args: InitConfigArgs) -> Result<
    Config,
    CurveError,
> {
    if args.buy_fee_bps > BPS_DENOMINATOR || args.sell_fee_bps > BPS_DENOMINATOR {
        Err(CurveError::BadFee)
    } else {
        Ok(
            Config {
                admin,
                fee_recipient: args.fee_recipient,
                buy_fee_bps: args.buy_fee_bps,
                sell_fee_bps: args.sell_fee_bps,
                allow_sell_pre_grad: args.allow_sell_pre_grad,
            },
        )
    }
}

/// Build the per-deployment policy record, refusing fee rates above the
/// basis-point denominator.  The host persists the result once.
pub fn init_config(admin: AccountId, args: InitConfigArgs) -> (r: Result<Config, CurveError>)
    ensures
        r == spec_init_config(admin, args),
        r matches Ok(c) ==> c.wf(),
        r is Err <==> args.buy_fee_bps > BPS_DENOMINATOR || args.sell_fee_bps > BPS_DENOMINATOR,
{
    if args.buy_fee_bps > BPS_DENOMINATOR {
        return Err(CurveError::BadFee);
    }
    if args.sell_fee_bps > BPS_DENOMINATOR {
        return Err(CurveError::BadFee);
    }
    Ok(
        Config {
            admin,
            fee_recipient: args.fee_recipient,
            buy_fee_bps: args.buy_fee_bps,
            sell_fee_bps: args.sell_fee_bps,
            allow_sell_pre_grad: args.allow_sell_pre_grad,
        },
    )
}

/// The one-time curve initialization as a function of its arguments: only
/// the recorded administrator may create a curve; the reserves are scaled,
/// the invariant is their product, the inventory starts empty, and the curve
/// starts active.
pub open spec fn spec_init_curve(
    config: Config,
    admin: AccountId,
    args: InitCurveArgs,
    token_mint: AccountId,
    sol_vault: AccountId,
    mint_auth: AccountId,
    bumps: CurveBumps,
) -> Result<Curve, CurveError> {
    if config.admin@ != admin@ {
        Err(CurveError::BadAccount)
    } else if args.curve_supply_cap == 0 {
        Err(CurveError::InsufficientInventory)
    } else if args.x_v0_lamports == 0 || args.y_v0_tokens == 0 {
        Err(CurveError::InsufficientIn)
    } else {
        let x_v = args.x_v0_lamports as int * (SCALE as int);
        let y_v = args.y_v0_tokens as int * (SCALE as int);
        if x_v * y_v > u128::MAX as int {
            Err(CurveError::MathOverflow)
        } else {
            Ok(
                Curve {
                    token_mint,
                    sol_vault,
                    mint_auth,
                    x_v_scaled: x_v as u128,
                    y_v_scaled: y_v as u128,
                    k_scaled: (x_v * y_v) as u128,
                    scale: SCALE,
                    curve_supply_cap: args.curve_supply_cap,
                    tokens_sold: 0,
                    graduated: false,
                    bumps,
                },
            )
        }
    }
}

/// Build a fresh curve record: the caller must be the recorded
/// administrator, the reserves and the supply cap must be positive; the
/// reserves are scaled and the invariant is set once as their product.  The
/// host persists the result, funds the custody accounts, and optionally
/// moves the minting authority as `args.take_mint_authority` asks.
pub fn init_curve(
    config: &Config,
    admin: AccountId,
    args: InitCurveArgs,
    token_mint: AccountId,
    sol_vault: AccountId,
    mint_auth: AccountId,
    bumps: CurveBumps,
) -> (r: Result<Curve, CurveError>)
    ensures
        r == spec_init_curve(*config, admin, args, token_mint, sol_vault, mint_auth, bumps),
        r matches Ok(c) ==> {
            &&& c.wf()
            &&& c.x_v_scaled == args.x_v0_lamports * (SCALE as int)
            &&& c.y_v_scaled == args.y_v0_tokens * (SCALE as int)
            &&& c.k_scaled == c.x_v_scaled * c.y_v_scaled
            &&& c.tokens_sold == 0
            &&& !c.graduated
            &&& c.curve_supply_cap == args.curve_supply_cap
        },
{
    if !keys_equal(&config.admin, &admin) {
        return Err(CurveError::BadAccount);
    }
    if args.curve_supply_cap == 0 {
        return Err(CurveError::InsufficientInventory);
    }
    if args.x_v0_lamports == 0 || args.y_v0_tokens == 0 {
        return Err(CurveError::InsufficientIn);
    }
    proof {
        lemma_mul_inequality(args.x_v0_lamports as int, u64::MAX as int, SCALE as int);
        lemma_mul_inequality(args.y_v0_tokens as int, u64::MAX as int, SCALE as int);
    }
    let x_v_scaled = match (args.x_v0_lamports as u128).checked_mul(SCALE) {
        Some(v) => v,
        None => {
            return Err(CurveError::MathOverflow);
        },
    };
    let y_v_scaled = match (args.y_v0_tokens as u128).checked_mul(SCALE) {
        Some(v) => v,
        None => {
            return Err(CurveError::MathOverflow);
        },
    };
    let k_scaled = match x_v_scaled.checked_mul(y_v_scaled) {
        Some(v) => v,
        None => {
            return Err(CurveError::MathOverflow);
        },
    };
    Ok(
        Curve {
            token_mint,
            sol_vault,
            mint_auth,
            x_v_scaled,
            y_v_scaled,
            k_scaled,
            scale: SCALE,
            curve_supply_cap: args.curve_supply_cap,
            tokens_sold: 0,
            graduated: false,
            bumps,
        },
    )
}

/// One trade request against a curve, as the terminal-graduation statement
/// quantifies over them.
pub enum TradeOp {
    Buy(AccountId, BuyArgs),
    Sell(AccountId, SellArgs),
}

/// The curve state after one trade request: the successor state on success,
/// the unchanged state when the request is refused — the host persists
/// nothing of a failed call.
pub open spec fn spec_step(curve: Curve, config: Config, op: TradeOp) -> Curve {
    match op {
        TradeOp::Buy(buyer, args) => match spec_buy(curve, config, buyer, args) {
            Ok(o) => o.next,
            Err(_) => curve,
        },
        TradeOp::Sell(seller, args) => match spec_sell(curve, config, seller, args) {
            Ok(o) => o.next,
            Err(_) => curve,
        },
    }
}

/// The curve state after a whole sequence of trade requests, applied in
/// order.
pub open spec fn spec_run(curve: Curve, config: Config, ops: Seq<TradeOp>) -> Curve
    decreases ops.len(),
{
    if ops.len() == 0 {
        curve
    } else {
        spec_run(spec_step(curve, config, ops[0]), config, ops.drop_first())
    }
}

/// Graduation is terminal: once the flag is set, no sequence of trade
/// requests — successful or refused — ever clears it.
pub proof fn lemma_graduation_terminal(curve: Curve, config: Config, ops: Seq<TradeOp>)
    requires
        curve.graduated,
    ensures
        spec_run(curve, config, ops).graduated,
    decreases ops.len(),
{
    if ops.len() > 0 {
        assert(spec_step(curve, config, ops[0]) == curve);
        lemma_graduation_terminal(curve, config, ops.drop_first());
    }
}

/// The data-model invariant holds in every reachable state: under any
/// sequence of trade requests the scale stays fixed, the token reserve
/// keeps the division guard, and an active curve's inventory stays strictly
/// below its cap.
pub proof fn lemma_wf_preserved(curve: Curve, config: Config, ops: Seq<TradeOp>)
    requires
        curve.wf(),
    ensures
        spec_run(curve, config, ops).wf(),
    decreases ops.len(),
{
    if ops.len() > 0 {
        assert(spec_step(curve, config, ops[0]).wf());
        lemma_wf_preserved(spec_step(curve, config, ops[0]), config, ops.drop_first());
    }
}

/// Graduation is terminal.  A graduated curve refuses every buy and every
/// sell outright, and no successful operation clears the flag — so no
/// sequence of operations ever takes a curve out of the graduated state.
pub proof fn lemma_graduation_monotonic(
    curve: Curve,
    config: Config,
    who: AccountId,
    b: BuyArgs,
    s: SellArgs,
)
    ensures
        curve.graduated ==> spec_buy(curve, config, who, b) == Err::<BuyOutcome, CurveError>(
            CurveError::Graduated,
        ),
        curve.graduated ==> spec_sell(curve, config, who, s) == Err::<SellOutcome, CurveError>(
            CurveError::Graduated,
        ),
        spec_buy(curve, config, who, b) matches Ok(o) ==> (curve.graduated
            ==> o.next.graduated),
        spec_sell(curve, config, who, s) matches Ok(o) ==> o.next.graduated == curve.graduated,
{
}

/// The cap boundary.  A successful buy graduates the curve exactly when the
/// resulting inventory reaches the supply cap — within that same call, with
/// the graduation notification attached — and leaves the curve active when
/// the inventory lands below the cap.
pub proof fn lemma_graduation_boundary(
    curve: Curve,
    config: Config,
    buyer: AccountId,
    args: BuyArgs,
)
    ensures
        spec_buy(curve, config, buyer, args) matches Ok(o) ==> (o.next.graduated <==> (
        curve.tokens_sold + o.dy_tokens >= curve.curve_supply_cap)),
        spec_buy(curve, config, buyer, args) matches Ok(o) ==> (o.graduation is Some
            <==> o.next.graduated),
        spec_buy(curve, config, buyer, args) matches Ok(o) ==> o.next.tokens_sold
            == curve.tokens_sold + o.dy_tokens,
{
}

} // verus!
