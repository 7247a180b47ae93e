//! A single-asset bonding curve: a virtual-reserve constant-product market
//! maker that mints a scarce token against collateral and redeems it back,
//! until a fixed supply cap is reached and the curve permanently closes
//! ("graduates").
//!
//! The crate holds the pricing math, the curve's state-transition rules, and
//! the per-trade orchestration, each with a contract that pins its result
//! down exactly.  The host that owns the persistent records, moves the
//! funds, and provides all-or-nothing commit semantics sits outside.

pub mod constants;
pub mod errors;
pub mod math;
pub mod events;
pub mod state;
pub mod trade;
