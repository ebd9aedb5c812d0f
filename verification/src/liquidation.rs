//! Liquidation tier selection and parameter application.
//!
//! An undercollateralized account is liquidated in one of two tiers,
//! chosen by its margin ratio against the market's thresholds: a partial
//! liquidation closes a configured fraction of the position and charges a
//! configured penalty; a full liquidation closes all of it. Each penalty
//! splits between the liquidator and the insurance fund by a configured
//! share denominator.

use vstd::prelude::*;

use crate::errors::{ClearingHouseResult, Errors};
use crate::oracle::div_trunc;
use crate::state::State;

verus! {

/// Which liquidation an account's margin ratio allows.
#[derive(Clone, Copy, Debug, PartialEq, Eq, Structural)]
pub enum LiquidationTier {
    /// The margin ratio is above the partial threshold: no liquidation.
    NotEligible,
    /// The margin ratio is at or below the partial threshold: close a
    /// fraction of the position.
    Partial,
    /// The margin ratio is at or below the maintenance threshold: close
    /// the whole position.
    Full,
}

/// Selects the liquidation tier for a margin ratio against a market's
/// partial and maintenance thresholds.
pub fn select_liquidation_tier(
    margin_ratio: u128,
    margin_ratio_partial: u32,
    margin_ratio_maintenance: u32,
) -> (r: LiquidationTier)
    ensures
        margin_ratio <= margin_ratio_maintenance ==> r == LiquidationTier::Full,
        margin_ratio_maintenance < margin_ratio && margin_ratio <= margin_ratio_partial ==> r
            == LiquidationTier::Partial,
        margin_ratio > margin_ratio_partial && margin_ratio > margin_ratio_maintenance ==> r
            == LiquidationTier::NotEligible,
{
    if margin_ratio <= margin_ratio_maintenance as u128 {
        LiquidationTier::Full
    } else if margin_ratio <= margin_ratio_partial as u128 {
        LiquidationTier::Partial
    } else {
        LiquidationTier::NotEligible
    }
}

/// What a liquidation does: how much of the position closes, the penalty
/// taken from collateral, and how the penalty splits.
#[derive(Clone, Copy, Debug, PartialEq, Eq, Structural)]
pub struct LiquidationSplit {
    /// Signed base amount to close, with the position's own sign.
    pub base_asset_amount_closed: i128,
    /// Penalty charged against the account's collateral.
    pub liquidation_fee: u128,
    /// Share of the penalty paid to the liquidator.
    pub fee_to_liquidator: u128,
    /// Share of the penalty paid to the insurance fund.
    pub fee_to_insurance_fund: u128,
}

/// The fraction of a signed position a partial liquidation closes, with
/// machine (truncating) division.
pub open spec fn spec_partial_close_amount(base_asset_amount: i128, state: State) -> int {
    div_trunc(
        base_asset_amount * state.partial_liquidation_close_percentage_numerator,
        state.partial_liquidation_close_percentage_denominator as int,
    )
}

/// The penalty a liquidation charges on the given collateral at the
/// given penalty rate.
pub open spec fn spec_penalty(collateral: u128, numerator: u128, denominator: u128) -> int {
    (collateral * numerator) / denominator as int
}

/// Computes a partial liquidation: closes the configured fraction of the
/// position, charges the configured penalty on collateral, and splits it
/// between liquidator and insurance fund. Fails with `MathError` on
/// overflow or a zero configured denominator, deciding nothing.
pub fn calculate_partial_liquidation(
    base_asset_amount: i128,
    collateral: u128,
    state: &State,
) -> (r: ClearingHouseResult<LiquidationSplit>)
    ensures
        r is Err ==> r == Err::<LiquidationSplit, Errors>(Errors::MathError),
        r is Ok <==> {
            &&& state.partial_liquidation_close_percentage_numerator <= i128::MAX
            &&& 0 < state.partial_liquidation_close_percentage_denominator <= i128::MAX
            &&& i128::MIN <= base_asset_amount
                * state.partial_liquidation_close_percentage_numerator <= i128::MAX
            &&& collateral * state.partial_liquidation_penalty_percentage_numerator <= u128::MAX
            &&& state.partial_liquidation_penalty_percentage_denominator != 0
            &&& state.partial_liquidation_liquidator_share_denominator != 0
        },
        r matches Ok(v) ==> {
            let close = spec_partial_close_amount(base_asset_amount, *state);
            let penalty = spec_penalty(
                collateral,
                state.partial_liquidation_penalty_percentage_numerator,
                state.partial_liquidation_penalty_percentage_denominator,
            );
            &&& state.partial_liquidation_close_percentage_denominator != 0
            &&& state.partial_liquidation_penalty_percentage_denominator != 0
            &&& state.partial_liquidation_liquidator_share_denominator != 0
            &&& v.base_asset_amount_closed == close
            &&& v.liquidation_fee == penalty
            &&& v.fee_to_liquidator == penalty
                / state.partial_liquidation_liquidator_share_denominator as int
            &&& v.fee_to_insurance_fund == penalty - v.fee_to_liquidator
        },
{
    if state.partial_liquidation_close_percentage_numerator > i128::MAX as u128
        || state.partial_liquidation_close_percentage_denominator > i128::MAX as u128 {
        return Err(Errors::MathError);
    }
    let scaled_close = match base_asset_amount.checked_mul(
        state.partial_liquidation_close_percentage_numerator as i128,
    ) {
        Some(v) => v,
        None => {
            return Err(Errors::MathError);
        },
    };
    proof {
        if state.partial_liquidation_close_percentage_denominator == 0 {
        } else if scaled_close >= 0 {
            vstd::arithmetic::div_mod::lemma_div_nonincreasing(
                scaled_close as int,
                state.partial_liquidation_close_percentage_denominator as int,
            );
            vstd::arithmetic::div_mod::lemma_div_pos_is_pos(
                scaled_close as int,
                state.partial_liquidation_close_percentage_denominator as int,
            );
        } else {
            vstd::arithmetic::div_mod::lemma_div_nonincreasing(
                (scaled_close * -1) as int,
                state.partial_liquidation_close_percentage_denominator as int,
            );
            vstd::arithmetic::div_mod::lemma_div_pos_is_pos(
                (scaled_close * -1) as int,
                state.partial_liquidation_close_percentage_denominator as int,
            );
        }
    }
    let base_asset_amount_closed = match scaled_close.checked_div(
        state.partial_liquidation_close_percentage_denominator as i128,
    ) {
        Some(v) => v,
        None => {
            return Err(Errors::MathError);
        },
    };

    let scaled_penalty = match collateral.checked_mul(
        state.partial_liquidation_penalty_percentage_numerator,
    ) {
        Some(v) => v,
        None => {
            return Err(Errors::MathError);
        },
    };
    let liquidation_fee = match scaled_penalty.checked_div(
        state.partial_liquidation_penalty_percentage_denominator,
    ) {
        Some(v) => v,
        None => {
            return Err(Errors::MathError);
        },
    };

    let fee_to_liquidator = match liquidation_fee.checked_div(
        state.partial_liquidation_liquidator_share_denominator,
    ) {
        Some(v) => v,
        None => {
            return Err(Errors::MathError);
        },
    };
    proof {
        vstd::arithmetic::div_mod::lemma_div_nonincreasing(
            liquidation_fee as int,
            state.partial_liquidation_liquidator_share_denominator as int,
        );
        vstd::arithmetic::div_mod::lemma_div_pos_is_pos(
            liquidation_fee as int,
            state.partial_liquidation_liquidator_share_denominator as int,
        );
    }
    let fee_to_insurance_fund = liquidation_fee - fee_to_liquidator;

    Ok(
        LiquidationSplit {
            base_asset_amount_closed,
            liquidation_fee,
            fee_to_liquidator,
            fee_to_insurance_fund,
        },
    )
}

/// Computes a full liquidation: closes the whole position, charges the
/// full-liquidation penalty on collateral, and splits it between
/// liquidator and insurance fund. Fails with `MathError` on overflow or
/// a zero configured denominator, deciding nothing.
pub fn calculate_full_liquidation(
    base_asset_amount: i128,
    collateral: u128,
    state: &State,
) -> (r: ClearingHouseResult<LiquidationSplit>)
    ensures
        r is Err ==> r == Err::<LiquidationSplit, Errors>(Errors::MathError),
        r is Ok <==> {
            &&& collateral * state.full_liquidation_penalty_percentage_numerator <= u128::MAX
            &&& state.full_liquidation_penalty_percentage_denominator != 0
            &&& state.full_liquidation_liquidator_share_denominator != 0
        },
        r matches Ok(v) ==> {
            let penalty = spec_penalty(
                collateral,
                state.full_liquidation_penalty_percentage_numerator,
                state.full_liquidation_penalty_percentage_denominator,
            );
            &&& state.full_liquidation_penalty_percentage_denominator != 0
            &&& state.full_liquidation_liquidator_share_denominator != 0
            &&& v.base_asset_amount_closed == base_asset_amount
            &&& v.liquidation_fee == penalty
            &&& v.fee_to_liquidator == penalty
                / state.full_liquidation_liquidator_share_denominator as int
            &&& v.fee_to_insurance_fund == penalty - v.fee_to_liquidator
        },
{
    let scaled_penalty = match collateral.checked_mul(
        state.full_liquidation_penalty_percentage_numerator,
    ) {
        Some(v) => v,
        None => {
            return Err(Errors::MathError);
        },
    };
    let liquidation_fee = match scaled_penalty.checked_div(
        state.full_liquidation_penalty_percentage_denominator,
    ) {
        Some(v) => v,
        None => {
            return Err(Errors::MathError);
        },
    };

    let fee_to_liquidator = match liquidation_fee.checked_div(
        state.full_liquidation_liquidator_share_denominator,
    ) {
        Some(v) => v,
        None => {
            return Err(Errors::MathError);
        },
    };
    proof {
        vstd::arithmetic::div_mod::lemma_div_nonincreasing(
            liquidation_fee as int,
            state.full_liquidation_liquidator_share_denominator as int,
        );
        vstd::arithmetic::div_mod::lemma_div_pos_is_pos(
            liquidation_fee as int,
            state.full_liquidation_liquidator_share_denominator as int,
        );
    }
    let fee_to_insurance_fund = liquidation_fee - fee_to_liquidator;

    Ok(
        LiquidationSplit {
            base_asset_amount_closed: base_asset_amount,
            liquidation_fee,
            fee_to_liquidator,
            fee_to_insurance_fund,
        },
    )
}

} // verus!
