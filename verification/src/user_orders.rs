//! Orders resting against a user's account.
//!
//! An order record is created by a place operation, mutated by fill and
//! cancel operations, and overwritten on reuse; only the order history log
//! keeps the full lifecycle.

use vstd::prelude::*;

use crate::ids::AccountKey;
use crate::position::PositionDirection;

verus! {

/// Lifecycle state of an order slot.
#[derive(Clone, Copy, Debug, PartialEq, Eq, Structural)]
pub enum OrderStatus {
    /// Created but not yet open, such as a trigger order waiting on its
    /// condition.
    Init,
    /// Open and fillable.
    Open,
}

/// How an order prices itself.
#[derive(Clone, Copy, Debug, PartialEq, Eq, Structural)]
pub enum OrderType {
    /// Fill immediately at the current mark price.
    Market,
    /// Fill at the limit price or better.
    Limit,
    /// Becomes a market order once the trigger condition holds.
    TriggerMarket,
    /// Becomes a limit order once the trigger condition holds.
    TriggerLimit,
}

/// Fee discount tier granted by discount-token holdings, from none to the
/// deepest tier.
#[derive(Clone, Copy, Debug, PartialEq, Eq, Structural)]
pub enum OrderDiscountTier {
    /// No discount.
    NoDiscount,
    /// Shallowest discount tier.
    First,
    /// Second discount tier.
    Second,
    /// Third discount tier.
    Third,
    /// Deepest discount tier.
    Fourth,
}

/// Condition under which a trigger order activates.
#[derive(Clone, Copy, Debug, PartialEq, Eq, Structural)]
pub enum OrderTriggerCondition {
    /// Activates when the mark price rises above the trigger price.
    Above,
    /// Activates when the mark price falls below the trigger price.
    Below,
}

/// One order of a user.
#[derive(Clone, Copy, Debug, PartialEq, Eq, Structural)]
pub struct Order {
    /// Lifecycle state of this slot.
    pub status: OrderStatus,
    /// How the order prices itself.
    pub order_type: OrderType,
    /// Side of the exposure the order seeks.
    pub direction: PositionDirection,
    /// Caller-chosen small identifier.
    pub user_order_id: u8,
    /// Whether the order may only reduce the position's magnitude.
    pub reduce_only: bool,
    /// Whether the order must rest rather than take.
    pub post_only: bool,
    /// Whether the order must fill immediately or be canceled.
    pub immediate_or_cancel: bool,
    /// Fee discount tier resolved when the order was placed.
    pub discount_tier: OrderDiscountTier,
    /// Condition under which a trigger order activates.
    pub trigger_condition: OrderTriggerCondition,
    /// Timestamp of order creation.
    pub ts: i64,
    /// Market the order trades.
    pub market_index: u64,
    /// Globally unique, strictly increasing order id.
    pub order_id: u128,
    /// Limit price.
    pub price: u128,
    /// Signed base amount the user asked for.
    pub user_base_asset_amount: i128,
    /// Quote amount of the order.
    pub quote_asset_amount: u128,
    /// Base amount of the order.
    pub base_asset_amount: u128,
    /// Base amount filled so far.
    pub base_asset_amount_filled: u128,
    /// Quote amount filled so far.
    pub quote_asset_amount_filled: u128,
    /// Fee charged so far; negative values are rebates.
    pub fee: i128,
    /// Price that activates a trigger order.
    pub trigger_price: u128,
    /// Referrer of the order's owner, or the zero key.
    pub referrer: AccountKey,
    /// Offset against the oracle price for dynamically priced orders.
    pub oracle_price_offset: i128,
}

impl Order {
    /// An empty, never-placed order slot.
    pub fn zeroed() -> (r: Order)
        ensures
            r == Order::spec_zeroed(),
    {
        Order {
            status: OrderStatus::Init,
            order_type: OrderType::Market,
            direction: PositionDirection::Long,
            user_order_id: 0,
            reduce_only: false,
            post_only: false,
            immediate_or_cancel: false,
            discount_tier: OrderDiscountTier::NoDiscount,
            trigger_condition: OrderTriggerCondition::Above,
            ts: 0,
            market_index: 0,
            order_id: 0,
            price: 0,
            user_base_asset_amount: 0,
            quote_asset_amount: 0,
            base_asset_amount: 0,
            base_asset_amount_filled: 0,
            quote_asset_amount_filled: 0,
            fee: 0,
            trigger_price: 0,
            referrer: AccountKey { hi: 0, lo: 0 },
            oracle_price_offset: 0,
        }
    }

    /// The empty order slot value.
    pub open spec fn spec_zeroed() -> Order {
        Order {
            status: OrderStatus::Init,
            order_type: OrderType::Market,
            direction: PositionDirection::Long,
            user_order_id: 0,
            reduce_only: false,
            post_only: false,
            immediate_or_cancel: false,
            discount_tier: OrderDiscountTier::NoDiscount,
            trigger_condition: OrderTriggerCondition::Above,
            ts: 0,
            market_index: 0,
            order_id: 0,
            price: 0,
            user_base_asset_amount: 0,
            quote_asset_amount: 0,
            base_asset_amount: 0,
            base_asset_amount_filled: 0,
            quote_asset_amount_filled: 0,
            fee: 0,
            trigger_price: 0,
            referrer: AccountKey { hi: 0, lo: 0 },
            oracle_price_offset: 0,
        }
    }
}

} // verus!
