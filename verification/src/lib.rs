//! Accounting and pricing core of a perpetual-futures clearing house.
//!
//! The crate provides the deterministic engine of the exchange: fixed-point
//! arithmetic on wide integers, constant-product pricing over a market's
//! reserves, the registry of markets, each user's position ledger with
//! funding-payment settlement, order fee and reward formulas, margin and
//! liquidation rules, oracle guard rails, and six append-only history logs.
//! Every operation either completes with the documented effect or fails with
//! a typed error; arithmetic never wraps, truncates or saturates silently.

pub mod amm;
pub mod bn;
pub mod cast;
pub mod collateral;
pub mod constants;
pub mod curve_history;
pub mod deposit_history;
pub mod errors;
pub mod fees;
pub mod funding_payment_history;
pub mod funding_rate_history;
pub mod history;
pub mod ids;
pub mod liquidation;
pub mod liquidation_history;
pub mod margin_validation;
pub mod market;
pub mod oracle;
pub mod order_history;
pub mod order_state;
pub mod orders;
pub mod position;
pub mod state;
pub mod trade_history;
pub mod user;
pub mod user_initialization;
pub mod user_orders;

pub use errors::ClearingHouseResult;
