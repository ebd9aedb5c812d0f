//! Order placement and the rules that gate orders.
//!
//! Placing an order enforces the minimum notional, assigns the next
//! strictly increasing order id, stamps the caller's discount tier, and
//! records the placement in the order history. Reduce-only orders may
//! never grow the position's magnitude; immediate-or-cancel orders that
//! cannot fill completely must be canceled rather than rest.

use vstd::math::abs;
use vstd::prelude::*;

use crate::errors::{ClearingHouseResult, Errors};
use crate::history::next_id;
use crate::ids::AccountKey;
use crate::order_history::{OrderAction, OrderHistory, OrderRecord};
use crate::order_state::OrderState;
use crate::position::PositionDirection;
use crate::user_orders::{
    Order, OrderDiscountTier, OrderStatus, OrderTriggerCondition, OrderType,
};

verus! {

/// What a caller asks for when placing an order.
#[derive(Clone, Copy, Debug, PartialEq, Eq, Structural)]
pub struct OrderParams {
    /// How the order prices itself.
    pub order_type: OrderType,
    /// Side of the exposure the order seeks.
    pub direction: PositionDirection,
    /// Caller-chosen small identifier.
    pub user_order_id: u8,
    /// Whether the order may only reduce the position's magnitude.
    pub reduce_only: bool,
    /// Whether the order must rest rather than take.
    pub post_only: bool,
    /// Whether the order must fill immediately or be canceled.
    pub immediate_or_cancel: bool,
    /// Condition under which a trigger order activates.
    pub trigger_condition: OrderTriggerCondition,
    /// Market to trade.
    pub market_index: u64,
    /// Limit price.
    pub price: u128,
    /// Quote amount of the order.
    pub quote_asset_amount: u128,
    /// Base amount of the order.
    pub base_asset_amount: u128,
    /// Price that activates a trigger order.
    pub trigger_price: u128,
    /// Referrer of the order's owner, or the zero key.
    pub referrer: AccountKey,
    /// Offset against the oracle price for dynamically priced orders.
    pub oracle_price_offset: i128,
}

/// The order a successful placement creates: open, unfilled, carrying
/// the requested terms, the resolved discount tier and the assigned id.
pub open spec fn spec_placed_order(
    params: OrderParams,
    order_id: u128,
    discount_tier: OrderDiscountTier,
    now: i64,
) -> Order {
    Order {
        status: OrderStatus::Open,
        order_type: params.order_type,
        direction: params.direction,
        user_order_id: params.user_order_id,
        reduce_only: params.reduce_only,
        post_only: params.post_only,
        immediate_or_cancel: params.immediate_or_cancel,
        discount_tier: discount_tier,
        trigger_condition: params.trigger_condition,
        ts: now,
        market_index: params.market_index,
        order_id: order_id,
        price: params.price,
        user_base_asset_amount: 0,
        quote_asset_amount: params.quote_asset_amount,
        base_asset_amount: params.base_asset_amount,
        base_asset_amount_filled: 0,
        quote_asset_amount_filled: 0,
        fee: 0,
        trigger_price: params.trigger_price,
        referrer: params.referrer,
        oracle_price_offset: params.oracle_price_offset,
    }
}

/// Places an order: rejects one below the minimum notional with
/// `OrderAmountTooSmall`, otherwise assigns the next order id, builds the
/// open order and appends a placement record to the order history.
pub fn place_order(
    order_state: &OrderState,
    order_history: &mut OrderHistory,
    params: &OrderParams,
    discount_tier: OrderDiscountTier,
    user_key: AccountKey,
    authority: AccountKey,
    now: i64,
) -> (r: ClearingHouseResult<Order>)
    requires
        old(order_history).wf(),
        old(order_history).last_order_id < u128::MAX,
        next_id(old(order_history).ids(), old(order_history).spec_head()) <= u128::MAX,
    ensures
        final(order_history).wf(),
        params.quote_asset_amount < order_state.min_order_quote_asset_amount ==> r == Err::<
            Order,
            Errors,
        >(Errors::OrderAmountTooSmall) && final(order_history).last_order_id == old(
            order_history,
        ).last_order_id && final(order_history).records() == old(order_history).records()
            && final(order_history).spec_head() == old(order_history).spec_head(),
        params.quote_asset_amount >= order_state.min_order_quote_asset_amount ==> {
            let order = spec_placed_order(
                *params,
                (old(order_history).last_order_id + 1) as u128,
                discount_tier,
                now,
            );
            &&& r == Ok::<Order, Errors>(order)
            &&& final(order_history).last_order_id == old(order_history).last_order_id + 1
            &&& final(order_history).spec_head() == (old(order_history).spec_head() + 1) % 1024
            &&& final(order_history).records() == old(order_history).records().update(
                old(order_history).spec_head() as int,
                OrderRecord {
                    ts: now,
                    action: OrderAction::Place,
                    record_id: next_id(
                        old(order_history).ids(),
                        old(order_history).spec_head(),
                    ) as u128,
                    user: user_key,
                    authority: authority,
                    order: order,
                    filler: AccountKey { hi: 0, lo: 0 },
                    trade_record_id: 0,
                    base_asset_amount_filled: 0,
                    quote_asset_amount_filled: 0,
                    fee: 0,
                    filler_reward: 0,
                    quote_asset_amount_surplus: 0,
                },
            )
        },
{
    if params.quote_asset_amount < order_state.min_order_quote_asset_amount {
        return Err(Errors::OrderAmountTooSmall);
    }

    let record_id = order_history.next_record_id();
    let order_id = order_history.next_order_id();

    let order = Order {
        status: OrderStatus::Open,
        order_type: params.order_type,
        direction: params.direction,
        user_order_id: params.user_order_id,
        reduce_only: params.reduce_only,
        post_only: params.post_only,
        immediate_or_cancel: params.immediate_or_cancel,
        discount_tier: discount_tier,
        trigger_condition: params.trigger_condition,
        ts: now,
        market_index: params.market_index,
        order_id: order_id,
        price: params.price,
        user_base_asset_amount: 0,
        quote_asset_amount: params.quote_asset_amount,
        base_asset_amount: params.base_asset_amount,
        base_asset_amount_filled: 0,
        quote_asset_amount_filled: 0,
        fee: 0,
        trigger_price: params.trigger_price,
        referrer: params.referrer,
        oracle_price_offset: params.oracle_price_offset,
    };

    order_history.append(
        OrderRecord {
            ts: now,
            action: OrderAction::Place,
            record_id,
            user: user_key,
            authority,
            order,
            filler: AccountKey { hi: 0, lo: 0 },
            trade_record_id: 0,
            base_asset_amount_filled: 0,
            quote_asset_amount_filled: 0,
            fee: 0,
            filler_reward: 0,
            quote_asset_amount_surplus: 0,
        },
    );

    Ok(order)
}

/// Takes an order out of the open state by cancellation or expiry: the
/// slot is reset for reuse, and only the appended history record keeps
/// the order's final form.
pub fn cancel_order(
    order: &mut Order,
    order_history: &mut OrderHistory,
    action: OrderAction,
    user_key: AccountKey,
    authority: AccountKey,
    now: i64,
)
    requires
        old(order).status == OrderStatus::Open,
        action == OrderAction::Cancel || action == OrderAction::Expire,
        old(order_history).wf(),
        next_id(old(order_history).ids(), old(order_history).spec_head()) <= u128::MAX,
    ensures
        *final(order) == Order::spec_zeroed(),
        final(order_history).wf(),
        final(order_history).last_order_id == old(order_history).last_order_id,
        final(order_history).spec_head() == (old(order_history).spec_head() + 1) % 1024,
        final(order_history).records() == old(order_history).records().update(
            old(order_history).spec_head() as int,
            OrderRecord {
                ts: now,
                action: action,
                record_id: next_id(
                    old(order_history).ids(),
                    old(order_history).spec_head(),
                ) as u128,
                user: user_key,
                authority: authority,
                order: *old(order),
                filler: AccountKey { hi: 0, lo: 0 },
                trade_record_id: 0,
                base_asset_amount_filled: 0,
                quote_asset_amount_filled: 0,
                fee: 0,
                filler_reward: 0,
                quote_asset_amount_surplus: 0,
            },
        ),
{
    let record_id = order_history.next_record_id();
    order_history.append(
        OrderRecord {
            ts: now,
            action,
            record_id,
            user: user_key,
            authority,
            order: *order,
            filler: AccountKey { hi: 0, lo: 0 },
            trade_record_id: 0,
            base_asset_amount_filled: 0,
            quote_asset_amount_filled: 0,
            fee: 0,
            filler_reward: 0,
            quote_asset_amount_surplus: 0,
        },
    );
    *order = Order::zeroed();
}

/// The magnitude of a signed position size.
pub fn abs_i128(x: i128) -> (r: u128)
    ensures
        r == abs(x as int),
{
    if x >= 0 {
        x as u128
    } else if x == i128::MIN {
        (i128::MAX as u128) + 1
    } else {
        (-x) as u128
    }
}

/// Whether a reduce-only order of the given direction and size respects
/// the position: it must oppose the position's side and not exceed its
/// magnitude, so the net exposure can only shrink.
pub open spec fn spec_reduce_only_respected(
    direction: PositionDirection,
    base_asset_amount: u128,
    position_base_asset_amount: i128,
) -> bool {
    if position_base_asset_amount > 0 {
        direction == PositionDirection::Short && base_asset_amount <= position_base_asset_amount
    } else if position_base_asset_amount < 0 {
        direction == PositionDirection::Long && base_asset_amount <= abs(
            position_base_asset_amount as int,
        )
    } else {
        false
    }
}

/// Checks a reduce-only order against the position it would reduce;
/// a violation fails with `ReduceOnlyOrderIncreasedRisk`.
pub fn validate_reduce_only(
    direction: PositionDirection,
    base_asset_amount: u128,
    position_base_asset_amount: i128,
) -> (r: ClearingHouseResult)
    ensures
        r is Ok <==> spec_reduce_only_respected(
            direction,
            base_asset_amount,
            position_base_asset_amount,
        ),
        r is Err ==> r == Err::<(), Errors>(Errors::ReduceOnlyOrderIncreasedRisk),
{
    let respected = if position_base_asset_amount > 0 {
        matches!(direction, PositionDirection::Short) && base_asset_amount
            <= position_base_asset_amount as u128
    } else if position_base_asset_amount < 0 {
        matches!(direction, PositionDirection::Long) && base_asset_amount <= abs_i128(
            position_base_asset_amount,
        )
    } else {
        false
    };
    if respected {
        Ok(())
    } else {
        Err(Errors::ReduceOnlyOrderIncreasedRisk)
    }
}

/// Whether a trigger order's condition holds at the given mark price:
/// above-orders activate strictly above the trigger price, below-orders
/// strictly below it.
pub fn trigger_condition_satisfied(
    condition: OrderTriggerCondition,
    trigger_price: u128,
    mark_price: u128,
) -> (r: bool)
    ensures
        condition == OrderTriggerCondition::Above ==> r == (mark_price > trigger_price),
        condition == OrderTriggerCondition::Below ==> r == (mark_price < trigger_price),
{
    match condition {
        OrderTriggerCondition::Above => mark_price > trigger_price,
        OrderTriggerCondition::Below => mark_price < trigger_price,
    }
}

/// Whether an immediate-or-cancel order must now be canceled: it did not
/// fill its full base amount, and such an order may never rest.
pub fn must_cancel_unfilled_ioc(order: &Order, base_asset_amount_filled: u128) -> (r: bool)
    ensures
        r == (order.immediate_or_cancel && base_asset_amount_filled < order.base_asset_amount),
{
    order.immediate_or_cancel && base_asset_amount_filled < order.base_asset_amount
}

} // verus!
