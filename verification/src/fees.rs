//! Fee, discount and filler-reward formulas of the order engine.

use vstd::prelude::*;

use crate::errors::{ClearingHouseResult, Errors};
use crate::order_state::OrderFillerRewardStructure;
use crate::state::{DiscountTokenTier, FeeStructure};
use crate::user_orders::OrderDiscountTier;

verus! {

/// A proportional share: `amount * numerator / denominator`, rounded
/// down.
pub open spec fn share_of(amount: int, numerator: int, denominator: int) -> int {
    (amount * numerator) / denominator
}

/// The discount fraction granted by a tier of the fee schedule.
pub open spec fn spec_discount_tier(
    fee_structure: FeeStructure,
    tier: OrderDiscountTier,
) -> DiscountTokenTier {
    match tier {
        OrderDiscountTier::NoDiscount => DiscountTokenTier {
            discount_numerator: 0,
            discount_denominator: 1,
            minimum_balance: 0,
        },
        OrderDiscountTier::First => fee_structure.discount_token_tiers.first_tier,
        OrderDiscountTier::Second => fee_structure.discount_token_tiers.second_tier,
        OrderDiscountTier::Third => fee_structure.discount_token_tiers.third_tier,
        OrderDiscountTier::Fourth => fee_structure.discount_token_tiers.fourth_tier,
    }
}

/// The parts a trade's fee splits into.
#[derive(Clone, Copy, Debug, PartialEq, Eq, Structural)]
pub struct FeeResult {
    /// Fee the trader pays, after all discounts.
    pub user_fee: u128,
    /// Discount granted for discount-token holdings.
    pub token_discount: u128,
    /// Reward owed to the trader's referrer.
    pub referral_reward: u128,
    /// Discount granted because the trader was referred.
    pub referee_discount: u128,
}

/// Whether the fee computation stays within 128 bits and divides by
/// nothing zero, for the given notional and schedule.
pub open spec fn spec_can_calculate_fee(
    quote_asset_amount: u128,
    fee_structure: FeeStructure,
    tier: DiscountTokenTier,
    has_referrer: bool,
) -> bool {
    let raw_fee = share_of(
        quote_asset_amount as int,
        fee_structure.fee_numerator as int,
        fee_structure.fee_denominator as int,
    );
    &&& fee_structure.fee_denominator != 0
    &&& quote_asset_amount * fee_structure.fee_numerator <= u128::MAX
    &&& tier.discount_denominator != 0
    &&& raw_fee * tier.discount_numerator <= u128::MAX
    &&& (has_referrer ==> {
        &&& fee_structure.referral_discount.referral_reward_denominator != 0
        &&& fee_structure.referral_discount.referee_discount_denominator != 0
        &&& raw_fee * fee_structure.referral_discount.referral_reward_numerator <= u128::MAX
        &&& raw_fee * fee_structure.referral_discount.referee_discount_numerator <= u128::MAX
    })
    &&& share_of(raw_fee, tier.discount_numerator as int, tier.discount_denominator as int) + (
    if has_referrer {
        share_of(
            raw_fee,
            fee_structure.referral_discount.referee_discount_numerator as int,
            fee_structure.referral_discount.referee_discount_denominator as int,
        )
    } else {
        0
    }) <= raw_fee
}

/// The fee split the computation yields when it stays representable.
pub open spec fn spec_fee_result(
    quote_asset_amount: u128,
    fee_structure: FeeStructure,
    tier: DiscountTokenTier,
    has_referrer: bool,
) -> FeeResult {
    let raw_fee = share_of(
        quote_asset_amount as int,
        fee_structure.fee_numerator as int,
        fee_structure.fee_denominator as int,
    );
    let token_discount = share_of(
        raw_fee,
        tier.discount_numerator as int,
        tier.discount_denominator as int,
    );
    let referral_reward = if has_referrer {
        share_of(
            raw_fee,
            fee_structure.referral_discount.referral_reward_numerator as int,
            fee_structure.referral_discount.referral_reward_denominator as int,
        )
    } else {
        0
    };
    let referee_discount = if has_referrer {
        share_of(
            raw_fee,
            fee_structure.referral_discount.referee_discount_numerator as int,
            fee_structure.referral_discount.referee_discount_denominator as int,
        )
    } else {
        0
    };
    FeeResult {
        user_fee: (raw_fee - token_discount - referee_discount) as u128,
        token_discount: token_discount as u128,
        referral_reward: referral_reward as u128,
        referee_discount: referee_discount as u128,
    }
}

/// Computes the fee for a trade of the given quote notional: the base
/// rate of the schedule, reduced by the resolved discount tier and, when
/// a referrer is present, by the referee discount, with the referrer's
/// reward alongside. Every step is checked; any overflow or zero
/// denominator fails with `MathError`.
pub fn calculate_fee(
    quote_asset_amount: u128,
    fee_structure: &FeeStructure,
    discount_tier: OrderDiscountTier,
    has_referrer: bool,
) -> (r: ClearingHouseResult<FeeResult>)
    ensures
        r is Ok <==> spec_can_calculate_fee(
            quote_asset_amount,
            *fee_structure,
            spec_discount_tier(*fee_structure, discount_tier),
            has_referrer,
        ),
        r is Err ==> r == Err::<FeeResult, Errors>(Errors::MathError),
        r matches Ok(v) ==> v == spec_fee_result(
            quote_asset_amount,
            *fee_structure,
            spec_discount_tier(*fee_structure, discount_tier),
            has_referrer,
        ),
{
    let (tier_numerator, tier_denominator): (u128, u128) = match discount_tier {
        OrderDiscountTier::NoDiscount => (0, 1),
        OrderDiscountTier::First => (
            fee_structure.discount_token_tiers.first_tier.discount_numerator,
            fee_structure.discount_token_tiers.first_tier.discount_denominator,
        ),
        OrderDiscountTier::Second => (
            fee_structure.discount_token_tiers.second_tier.discount_numerator,
            fee_structure.discount_token_tiers.second_tier.discount_denominator,
        ),
        OrderDiscountTier::Third => (
            fee_structure.discount_token_tiers.third_tier.discount_numerator,
            fee_structure.discount_token_tiers.third_tier.discount_denominator,
        ),
        OrderDiscountTier::Fourth => (
            fee_structure.discount_token_tiers.fourth_tier.discount_numerator,
            fee_structure.discount_token_tiers.fourth_tier.discount_denominator,
        ),
    };

    let scaled = match quote_asset_amount.checked_mul(fee_structure.fee_numerator) {
        Some(v) => v,
        None => {
            return Err(Errors::MathError);
        },
    };
    let raw_fee = match scaled.checked_div(fee_structure.fee_denominator) {
        Some(v) => v,
        None => {
            return Err(Errors::MathError);
        },
    };

    let discount_scaled = match raw_fee.checked_mul(tier_numerator) {
        Some(v) => v,
        None => {
            return Err(Errors::MathError);
        },
    };
    let token_discount = match discount_scaled.checked_div(tier_denominator) {
        Some(v) => v,
        None => {
            return Err(Errors::MathError);
        },
    };

    let mut referral_reward: u128 = 0;
    let mut referee_discount: u128 = 0;
    if has_referrer {
        let reward_scaled = match raw_fee.checked_mul(
            fee_structure.referral_discount.referral_reward_numerator,
        ) {
            Some(v) => v,
            None => {
                return Err(Errors::MathError);
            },
        };
        referral_reward = match reward_scaled.checked_div(
            fee_structure.referral_discount.referral_reward_denominator,
        ) {
            Some(v) => v,
            None => {
                return Err(Errors::MathError);
            },
        };
        let referee_scaled = match raw_fee.checked_mul(
            fee_structure.referral_discount.referee_discount_numerator,
        ) {
            Some(v) => v,
            None => {
                return Err(Errors::MathError);
            },
        };
        referee_discount = match referee_scaled.checked_div(
            fee_structure.referral_discount.referee_discount_denominator,
        ) {
            Some(v) => v,
            None => {
                return Err(Errors::MathError);
            },
        };
    }

    let after_token_discount = match raw_fee.checked_sub(token_discount) {
        Some(v) => v,
        None => {
            return Err(Errors::MathError);
        },
    };
    let user_fee = match after_token_discount.checked_sub(referee_discount) {
        Some(v) => v,
        None => {
            return Err(Errors::MathError);
        },
    };

    Ok(
        FeeResult {
            user_fee,
            token_discount,
            referral_reward,
            referee_discount,
        },
    )
}

/// Computes the reward owed to an order's filler: the configured share
/// of the fee, raised to the time-based lower bound when time-based
/// eligibility applies. Fails with `MathError` on overflow or a zero
/// denominator.
pub fn calculate_filler_reward(
    fee: u128,
    time_based_eligible: bool,
    reward_structure: &OrderFillerRewardStructure,
) -> (r: ClearingHouseResult<u128>)
    ensures
        r is Ok <==> (reward_structure.reward_denominator != 0 && fee
            * reward_structure.reward_numerator <= u128::MAX),
        r is Err ==> r == Err::<u128, Errors>(Errors::MathError),
        r matches Ok(v) ==> {
            let size_reward = share_of(
                fee as int,
                reward_structure.reward_numerator as int,
                reward_structure.reward_denominator as int,
            );
            if time_based_eligible && size_reward
                < reward_structure.time_based_reward_lower_bound {
                v == reward_structure.time_based_reward_lower_bound
            } else {
                v == size_reward
            }
        },
{
    let scaled = match fee.checked_mul(reward_structure.reward_numerator) {
        Some(v) => v,
        None => {
            return Err(Errors::MathError);
        },
    };
    let size_reward = match scaled.checked_div(reward_structure.reward_denominator) {
        Some(v) => v,
        None => {
            return Err(Errors::MathError);
        },
    };

    if time_based_eligible && size_reward < reward_structure.time_based_reward_lower_bound {
        Ok(reward_structure.time_based_reward_lower_bound)
    } else {
        Ok(size_reward)
    }
}

} // verus!
