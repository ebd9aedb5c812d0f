//! The global order-state singleton: the order log's identity, the
//! filler reward structure and the minimum acceptable order size.

use vstd::prelude::*;

use crate::ids::AccountKey;

verus! {

/// How an order's filler is rewarded: a share of the fee with a
/// time-based lower bound, so even tiny orders are worth filling.
#[derive(Clone, Copy, Debug, PartialEq, Eq, Structural)]
pub struct OrderFillerRewardStructure {
    /// Numerator of the filler's share of the fee.
    pub reward_numerator: u128,
    /// Denominator of the filler's share of the fee.
    pub reward_denominator: u128,
    /// Smallest reward paid when time-based eligibility applies.
    pub time_based_reward_lower_bound: u128,
}

/// The admin-initialized order-state singleton.
#[derive(Clone, Copy, Debug, PartialEq, Eq, Structural)]
pub struct OrderState {
    /// Identity of the order history log.
    pub order_history: AccountKey,
    /// How fillers are rewarded.
    pub order_filler_reward_structure: OrderFillerRewardStructure,
    /// Smallest quote amount accepted for a new order.
    pub min_order_quote_asset_amount: u128,
}

impl OrderState {
    /// The order state an exchange starts with: fillers earn a tenth of
    /// the fee with a one-cent floor, and orders below fifty cents are
    /// rejected.
    pub fn new(order_history: AccountKey) -> (r: OrderState)
        ensures
            r == (OrderState {
                order_history,
                order_filler_reward_structure: OrderFillerRewardStructure {
                    reward_numerator: 1,
                    reward_denominator: 10,
                    time_based_reward_lower_bound: 10_000,
                },
                min_order_quote_asset_amount: 500_000,
            }),
    {
        OrderState {
            order_history,
            order_filler_reward_structure: OrderFillerRewardStructure {
                reward_numerator: 1,
                reward_denominator: 10,
                time_based_reward_lower_bound: 10_000,
            },
            min_order_quote_asset_amount: 500_000,
        }
    }
}

} // verus!
