//! The admin-controlled global configuration singleton.
//!
//! Created once at exchange initialization; mutated only by admin-gated
//! operations that attach the history logs and the order state; never
//! destroyed during normal operation.

use vstd::prelude::*;

use crate::constants::{
    DEFAULT_DISCOUNT_TOKEN_FIRST_TIER_DISCOUNT_DENOMINATOR,
    DEFAULT_DISCOUNT_TOKEN_FIRST_TIER_DISCOUNT_NUMERATOR,
    DEFAULT_DISCOUNT_TOKEN_FIRST_TIER_MINIMUM_BALANCE,
    DEFAULT_DISCOUNT_TOKEN_FOURTH_TIER_DISCOUNT_DENOMINATOR,
    DEFAULT_DISCOUNT_TOKEN_FOURTH_TIER_DISCOUNT_NUMERATOR,
    DEFAULT_DISCOUNT_TOKEN_FOURTH_TIER_MINIMUM_BALANCE,
    DEFAULT_DISCOUNT_TOKEN_SECOND_TIER_DISCOUNT_DENOMINATOR,
    DEFAULT_DISCOUNT_TOKEN_SECOND_TIER_DISCOUNT_NUMERATOR,
    DEFAULT_DISCOUNT_TOKEN_SECOND_TIER_MINIMUM_BALANCE,
    DEFAULT_DISCOUNT_TOKEN_THIRD_TIER_DISCOUNT_DENOMINATOR,
    DEFAULT_DISCOUNT_TOKEN_THIRD_TIER_DISCOUNT_NUMERATOR,
    DEFAULT_DISCOUNT_TOKEN_THIRD_TIER_MINIMUM_BALANCE, DEFAULT_FEE_DENOMINATOR,
    DEFAULT_FEE_NUMERATOR, DEFAULT_REFEREE_DISCOUNT_DENOMINATOR,
    DEFAULT_REFEREE_DISCOUNT_NUMERATOR, DEFAULT_REFERRER_REWARD_DENOMINATOR,
    DEFAULT_REFERRER_REWARD_NUMERATOR,
};
use vstd::math::abs;

use crate::bn::U256;
use crate::errors::{ClearingHouseResult, Errors};
use crate::ids::AccountKey;
use crate::market::OraclePriceData;

verus! {

/// Bound on how far mark price may diverge from oracle price before a
/// reading is rejected.
#[derive(Clone, Copy, Debug, PartialEq, Eq, Structural)]
pub struct PriceDivergenceGuardRails {
    /// Numerator of the largest tolerated divergence ratio.
    pub mark_oracle_divergence_numerator: u128,
    /// Denominator of the largest tolerated divergence ratio.
    pub mark_oracle_divergence_denominator: u128,
}

/// Bounds on the freshness and tightness of an oracle reading.
#[derive(Clone, Copy, Debug, PartialEq, Eq, Structural)]
pub struct ValidityGuardRails {
    /// Widest confidence interval still trusted.
    pub confidence_interval_max_size: u128,
    /// Volatility ratio beyond which a reading is rejected.
    pub too_volatile_ratio: i128,
    /// Slots after which an unrefreshed reading counts as stale.
    pub slots_before_stable: i64,
}

/// The oracle guard rails: configured bounds gating when an oracle
/// reading may be trusted.
#[derive(Clone, Copy, Debug, PartialEq, Eq, Structural)]
pub struct OracleGuardRails {
    /// Mark-versus-oracle divergence bound.
    pub price_divergence: PriceDivergenceGuardRails,
    /// Freshness and confidence bounds.
    pub validity: ValidityGuardRails,
    /// Whether the guard rails gate liquidation eligibility at all.
    pub use_for_liquidations: bool,
}

/// One discount tier granted for a minimum discount-token balance.
#[derive(Clone, Copy, Debug, PartialEq, Eq, Structural)]
pub struct DiscountTokenTier {
    /// Numerator of the tier's fee discount.
    pub discount_numerator: u128,
    /// Denominator of the tier's fee discount.
    pub discount_denominator: u128,
    /// Smallest token balance granting the tier.
    pub minimum_balance: u64,
}

/// The four discount tiers, shallowest first.
#[derive(Clone, Copy, Debug, PartialEq, Eq, Structural)]
pub struct DiscountTokenTiers {
    /// Shallowest tier.
    pub first_tier: DiscountTokenTier,
    /// Second tier.
    pub second_tier: DiscountTokenTier,
    /// Third tier.
    pub third_tier: DiscountTokenTier,
    /// Deepest tier.
    pub fourth_tier: DiscountTokenTier,
}

/// Referral terms: the referrer's reward and the referee's discount.
#[derive(Clone, Copy, Debug, PartialEq, Eq, Structural)]
pub struct ReferralDiscount {
    /// Numerator of the referrer's reward share of the fee.
    pub referral_reward_numerator: u128,
    /// Denominator of the referrer's reward share of the fee.
    pub referral_reward_denominator: u128,
    /// Numerator of the referee's discount share of the fee.
    pub referee_discount_numerator: u128,
    /// Denominator of the referee's discount share of the fee.
    pub referee_discount_denominator: u128,
}

/// The exchange's fee schedule.
#[derive(Clone, Copy, Debug, PartialEq, Eq, Structural)]
pub struct FeeStructure {
    /// Numerator of the base fee rate.
    pub fee_numerator: u128,
    /// Denominator of the base fee rate.
    pub fee_denominator: u128,
    /// Fee discounts granted for discount-token holdings.
    pub discount_token_tiers: DiscountTokenTiers,
    /// Referral reward and discount terms.
    pub referral_discount: ReferralDiscount,
}

/// The global configuration singleton.
#[derive(Clone, Copy, Debug, PartialEq, Eq, Structural)]
pub struct State {
    /// Whether all trading is paused.
    pub exchange_paused: bool,
    /// Whether funding-rate updates are paused.
    pub funding_paused: bool,
    /// Whether the admin may set prices directly.
    pub admin_controls_prices: bool,
    /// Bump seed of the collateral vault authority.
    pub collateral_vault_authority_nonce: u8,
    /// Bump seed of the insurance vault authority.
    pub insurance_vault_authority_nonce: u8,
    /// The admin identity.
    pub admin: AccountKey,
    /// Mint of the collateral asset.
    pub collateral_mint: AccountKey,
    /// Vault holding deposited collateral.
    pub collateral_vault: AccountKey,
    /// Authority over the collateral vault.
    pub collateral_vault_authority: AccountKey,
    /// The deposit history log, or zero before attachment.
    pub deposit_history: AccountKey,
    /// The trade history log, or zero before attachment.
    pub trade_history: AccountKey,
    /// The funding-payment history log, or zero before attachment.
    pub funding_payment_history: AccountKey,
    /// The funding-rate history log, or zero before attachment.
    pub funding_rate_history: AccountKey,
    /// The liquidation history log, or zero before attachment.
    pub liquidation_history: AccountKey,
    /// The curve history log, or zero before attachment.
    pub curve_history: AccountKey,
    /// Vault holding the insurance fund.
    pub insurance_vault: AccountKey,
    /// Authority over the insurance vault.
    pub insurance_vault_authority: AccountKey,
    /// The markets table.
    pub markets: AccountKey,
    /// Default initial margin ratio.
    pub margin_ratio_initial: u128,
    /// Default maintenance margin ratio.
    pub margin_ratio_maintenance: u128,
    /// Default partial-liquidation margin ratio.
    pub margin_ratio_partial: u128,
    /// Numerator of the fraction closed by a partial liquidation.
    pub partial_liquidation_close_percentage_numerator: u128,
    /// Denominator of the fraction closed by a partial liquidation.
    pub partial_liquidation_close_percentage_denominator: u128,
    /// Numerator of the partial-liquidation penalty rate.
    pub partial_liquidation_penalty_percentage_numerator: u128,
    /// Denominator of the partial-liquidation penalty rate.
    pub partial_liquidation_penalty_percentage_denominator: u128,
    /// Numerator of the full-liquidation penalty rate.
    pub full_liquidation_penalty_percentage_numerator: u128,
    /// Denominator of the full-liquidation penalty rate.
    pub full_liquidation_penalty_percentage_denominator: u128,
    /// Denominator of the liquidator's share of a partial penalty.
    pub partial_liquidation_liquidator_share_denominator: u128,
    /// Denominator of the liquidator's share of a full penalty.
    pub full_liquidation_liquidator_share_denominator: u128,
    /// The fee schedule.
    pub fee_structure: FeeStructure,
    /// Mint gating user creation, or zero for open access.
    pub whitelist_mint: AccountKey,
    /// Mint of the fee-discount token.
    pub discount_mint: AccountKey,
    /// Oracle guard rails.
    pub oracle_guard_rails: OracleGuardRails,
    /// Largest allowed total deposit, or zero for no cap.
    pub max_deposit: u128,
    /// The extended curve history log, or zero before attachment.
    pub extended_curve_history: AccountKey,
    /// The order state singleton, or zero before attachment.
    pub order_state: AccountKey,
}

/// The configuration an exchange starts with: conservative margin
/// defaults, quarter-position partial liquidations with a 2.5% penalty,
/// the default fee schedule and guard rails, and no logs or order state
/// attached yet.
pub open spec fn spec_initial_state(
    admin: AccountKey,
    collateral_mint: AccountKey,
    collateral_vault: AccountKey,
    collateral_vault_authority: AccountKey,
    collateral_vault_authority_nonce: u8,
    insurance_vault: AccountKey,
    insurance_vault_authority: AccountKey,
    insurance_vault_authority_nonce: u8,
    markets: AccountKey,
    admin_controls_prices: bool,
) -> State {
    State {
        exchange_paused: false,
        funding_paused: false,
        admin_controls_prices: admin_controls_prices,
        collateral_vault_authority_nonce: collateral_vault_authority_nonce,
        insurance_vault_authority_nonce: insurance_vault_authority_nonce,
        admin: admin,
        collateral_mint: collateral_mint,
        collateral_vault: collateral_vault,
        collateral_vault_authority: collateral_vault_authority,
        deposit_history: AccountKey { hi: 0, lo: 0 },
        trade_history: AccountKey { hi: 0, lo: 0 },
        funding_payment_history: AccountKey { hi: 0, lo: 0 },
        funding_rate_history: AccountKey { hi: 0, lo: 0 },
        liquidation_history: AccountKey { hi: 0, lo: 0 },
        curve_history: AccountKey { hi: 0, lo: 0 },
        insurance_vault: insurance_vault,
        insurance_vault_authority: insurance_vault_authority,
        markets: markets,
        margin_ratio_initial: 2000,
        margin_ratio_maintenance: 625,
        margin_ratio_partial: 500,
        partial_liquidation_close_percentage_numerator: 25,
        partial_liquidation_close_percentage_denominator: 100,
        partial_liquidation_penalty_percentage_numerator: 25,
        partial_liquidation_penalty_percentage_denominator: 1000,
        full_liquidation_penalty_percentage_numerator: 1,
        full_liquidation_penalty_percentage_denominator: 1,
        partial_liquidation_liquidator_share_denominator: 2,
        full_liquidation_liquidator_share_denominator: 20,
        fee_structure: spec_default_fee_structure(),
        whitelist_mint: AccountKey { hi: 0, lo: 0 },
        discount_mint: AccountKey { hi: 0, lo: 0 },
        oracle_guard_rails: OracleGuardRails {
            price_divergence: PriceDivergenceGuardRails {
                mark_oracle_divergence_numerator: 1,
                mark_oracle_divergence_denominator: 10,
            },
            validity: ValidityGuardRails {
                slots_before_stable: 1000,
                confidence_interval_max_size: 4,
                too_volatile_ratio: 5,
            },
            use_for_liquidations: true,
        },
        max_deposit: 0,
        extended_curve_history: AccountKey { hi: 0, lo: 0 },
        order_state: AccountKey { hi: 0, lo: 0 },
    }
}

/// The default fee schedule: the base rate with the four discount tiers
/// and the referral terms.
pub open spec fn spec_default_fee_structure() -> FeeStructure {
    FeeStructure {
        fee_numerator: DEFAULT_FEE_NUMERATOR,
        fee_denominator: DEFAULT_FEE_DENOMINATOR,
        discount_token_tiers: DiscountTokenTiers {
            first_tier: DiscountTokenTier {
                minimum_balance: DEFAULT_DISCOUNT_TOKEN_FIRST_TIER_MINIMUM_BALANCE,
                discount_numerator: DEFAULT_DISCOUNT_TOKEN_FIRST_TIER_DISCOUNT_NUMERATOR,
                discount_denominator: DEFAULT_DISCOUNT_TOKEN_FIRST_TIER_DISCOUNT_DENOMINATOR,
            },
            second_tier: DiscountTokenTier {
                minimum_balance: DEFAULT_DISCOUNT_TOKEN_SECOND_TIER_MINIMUM_BALANCE,
                discount_numerator: DEFAULT_DISCOUNT_TOKEN_SECOND_TIER_DISCOUNT_NUMERATOR,
                discount_denominator: DEFAULT_DISCOUNT_TOKEN_SECOND_TIER_DISCOUNT_DENOMINATOR,
            },
            third_tier: DiscountTokenTier {
                minimum_balance: DEFAULT_DISCOUNT_TOKEN_THIRD_TIER_MINIMUM_BALANCE,
                discount_numerator: DEFAULT_DISCOUNT_TOKEN_THIRD_TIER_DISCOUNT_NUMERATOR,
                discount_denominator: DEFAULT_DISCOUNT_TOKEN_THIRD_TIER_DISCOUNT_DENOMINATOR,
            },
            fourth_tier: DiscountTokenTier {
                minimum_balance: DEFAULT_DISCOUNT_TOKEN_FOURTH_TIER_MINIMUM_BALANCE,
                discount_numerator: DEFAULT_DISCOUNT_TOKEN_FOURTH_TIER_DISCOUNT_NUMERATOR,
                discount_denominator: DEFAULT_DISCOUNT_TOKEN_FOURTH_TIER_DISCOUNT_DENOMINATOR,
            },
        },
        referral_discount: ReferralDiscount {
            referral_reward_numerator: DEFAULT_REFERRER_REWARD_NUMERATOR,
            referral_reward_denominator: DEFAULT_REFERRER_REWARD_DENOMINATOR,
            referee_discount_numerator: DEFAULT_REFEREE_DISCOUNT_NUMERATOR,
            referee_discount_denominator: DEFAULT_REFEREE_DISCOUNT_DENOMINATOR,
        },
    }
}

/// Builds the global configuration once, at exchange initialization,
/// with the documented defaults and no logs or order state attached.
pub fn initialize_state(
    admin: AccountKey,
    collateral_mint: AccountKey,
    collateral_vault: AccountKey,
    collateral_vault_authority: AccountKey,
    collateral_vault_authority_nonce: u8,
    insurance_vault: AccountKey,
    insurance_vault_authority: AccountKey,
    insurance_vault_authority_nonce: u8,
    markets: AccountKey,
    admin_controls_prices: bool,
) -> (r: State)
    ensures
        r == spec_initial_state(
            admin,
            collateral_mint,
            collateral_vault,
            collateral_vault_authority,
            collateral_vault_authority_nonce,
            insurance_vault,
            insurance_vault_authority,
            insurance_vault_authority_nonce,
            markets,
            admin_controls_prices,
        ),
{
    State {
        exchange_paused: false,
        funding_paused: false,
        admin_controls_prices: admin_controls_prices,
        collateral_vault_authority_nonce: collateral_vault_authority_nonce,
        insurance_vault_authority_nonce: insurance_vault_authority_nonce,
        admin: admin,
        collateral_mint: collateral_mint,
        collateral_vault: collateral_vault,
        collateral_vault_authority: collateral_vault_authority,
        deposit_history: AccountKey { hi: 0, lo: 0 },
        trade_history: AccountKey { hi: 0, lo: 0 },
        funding_payment_history: AccountKey { hi: 0, lo: 0 },
        funding_rate_history: AccountKey { hi: 0, lo: 0 },
        liquidation_history: AccountKey { hi: 0, lo: 0 },
        curve_history: AccountKey { hi: 0, lo: 0 },
        insurance_vault: insurance_vault,
        insurance_vault_authority: insurance_vault_authority,
        markets: markets,
        margin_ratio_initial: 2000,
        margin_ratio_maintenance: 625,
        margin_ratio_partial: 500,
        partial_liquidation_close_percentage_numerator: 25,
        partial_liquidation_close_percentage_denominator: 100,
        partial_liquidation_penalty_percentage_numerator: 25,
        partial_liquidation_penalty_percentage_denominator: 1000,
        full_liquidation_penalty_percentage_numerator: 1,
        full_liquidation_penalty_percentage_denominator: 1,
        partial_liquidation_liquidator_share_denominator: 2,
        full_liquidation_liquidator_share_denominator: 20,
        fee_structure: FeeStructure {
            fee_numerator: DEFAULT_FEE_NUMERATOR,
            fee_denominator: DEFAULT_FEE_DENOMINATOR,
            discount_token_tiers: DiscountTokenTiers {
                first_tier: DiscountTokenTier {
                    minimum_balance: DEFAULT_DISCOUNT_TOKEN_FIRST_TIER_MINIMUM_BALANCE,
                    discount_numerator: DEFAULT_DISCOUNT_TOKEN_FIRST_TIER_DISCOUNT_NUMERATOR,
                    discount_denominator: DEFAULT_DISCOUNT_TOKEN_FIRST_TIER_DISCOUNT_DENOMINATOR,
                },
                second_tier: DiscountTokenTier {
                    minimum_balance: DEFAULT_DISCOUNT_TOKEN_SECOND_TIER_MINIMUM_BALANCE,
                    discount_numerator: DEFAULT_DISCOUNT_TOKEN_SECOND_TIER_DISCOUNT_NUMERATOR,
                    discount_denominator: DEFAULT_DISCOUNT_TOKEN_SECOND_TIER_DISCOUNT_DENOMINATOR,
                },
                third_tier: DiscountTokenTier {
                    minimum_balance: DEFAULT_DISCOUNT_TOKEN_THIRD_TIER_MINIMUM_BALANCE,
                    discount_numerator: DEFAULT_DISCOUNT_TOKEN_THIRD_TIER_DISCOUNT_NUMERATOR,
                    discount_denominator: DEFAULT_DISCOUNT_TOKEN_THIRD_TIER_DISCOUNT_DENOMINATOR,
                },
                fourth_tier: DiscountTokenTier {
                    minimum_balance: DEFAULT_DISCOUNT_TOKEN_FOURTH_TIER_MINIMUM_BALANCE,
                    discount_numerator: DEFAULT_DISCOUNT_TOKEN_FOURTH_TIER_DISCOUNT_NUMERATOR,
                    discount_denominator: DEFAULT_DISCOUNT_TOKEN_FOURTH_TIER_DISCOUNT_DENOMINATOR,
                },
            },
            referral_discount: ReferralDiscount {
                referral_reward_numerator: DEFAULT_REFERRER_REWARD_NUMERATOR,
                referral_reward_denominator: DEFAULT_REFERRER_REWARD_DENOMINATOR,
                referee_discount_numerator: DEFAULT_REFEREE_DISCOUNT_NUMERATOR,
                referee_discount_denominator: DEFAULT_REFEREE_DISCOUNT_DENOMINATOR,
            },
        },
        whitelist_mint: AccountKey { hi: 0, lo: 0 },
        discount_mint: AccountKey { hi: 0, lo: 0 },
        oracle_guard_rails: OracleGuardRails {
            price_divergence: PriceDivergenceGuardRails {
                mark_oracle_divergence_numerator: 1,
                mark_oracle_divergence_denominator: 10,
            },
            validity: ValidityGuardRails {
                slots_before_stable: 1000,
                confidence_interval_max_size: 4,
                too_volatile_ratio: 5,
            },
            use_for_liquidations: true,
        },
        max_deposit: 0,
        extended_curve_history: AccountKey { hi: 0, lo: 0 },
        order_state: AccountKey { hi: 0, lo: 0 },
    }
}

/// Whether all six history logs are already attached.
pub open spec fn spec_histories_attached(state: State) -> bool {
    &&& !state.trade_history.spec_is_zero()
    &&& !state.deposit_history.spec_is_zero()
    &&& !state.liquidation_history.spec_is_zero()
    &&& !state.funding_rate_history.spec_is_zero()
    &&& !state.funding_payment_history.spec_is_zero()
    &&& !state.curve_history.spec_is_zero()
}

/// Attaches the six history logs to the global configuration; fails with
/// `HistoriesAllInitialized`, changing nothing, when all six are already
/// attached.
pub fn initialize_history(
    state: &mut State,
    trade_history: AccountKey,
    deposit_history: AccountKey,
    liquidation_history: AccountKey,
    funding_rate_history: AccountKey,
    funding_payment_history: AccountKey,
    curve_history: AccountKey,
) -> (r: ClearingHouseResult)
    ensures
        spec_histories_attached(*old(state)) ==> r == Err::<(), Errors>(
            Errors::HistoriesAllInitialized,
        ) && *final(state) == *old(state),
        !spec_histories_attached(*old(state)) ==> r is Ok && *final(state) == (State {
            trade_history,
            deposit_history,
            liquidation_history,
            funding_rate_history,
            funding_payment_history,
            curve_history,
            ..*old(state)
        }),
{
    if !state.trade_history.is_zero() && !state.deposit_history.is_zero()
        && !state.liquidation_history.is_zero() && !state.funding_rate_history.is_zero()
        && !state.funding_payment_history.is_zero() && !state.curve_history.is_zero() {
        return Err(Errors::HistoriesAllInitialized);
    }

    state.trade_history = trade_history;
    state.deposit_history = deposit_history;
    state.liquidation_history = liquidation_history;
    state.funding_rate_history = funding_rate_history;
    state.funding_payment_history = funding_payment_history;
    state.curve_history = curve_history;

    Ok(())
}

/// Attaches the order state singleton to the global configuration; fails
/// with `OrderStateAlreadyInitialized`, changing nothing, when one is
/// already attached.
pub fn attach_order_state(state: &mut State, order_state: AccountKey) -> (r: ClearingHouseResult)
    ensures
        !old(state).order_state.spec_is_zero() ==> r == Err::<(), Errors>(
            Errors::OrderStateAlreadyInitialized,
        ) && *final(state) == *old(state),
        old(state).order_state.spec_is_zero() ==> r is Ok && *final(state) == (State {
            order_state,
            ..*old(state)
        }),
{
    if !state.order_state.is_zero() {
        return Err(Errors::OrderStateAlreadyInitialized);
    }
    state.order_state = order_state;
    Ok(())
}

impl OracleGuardRails {
    /// Whether an oracle reading may gate a liquidation.
    ///
    /// When the rails are switched off every reading is usable. Otherwise
    /// a reading is usable exactly when it is fresh enough, its confidence
    /// interval is narrow enough, its price is positive, and the mark
    /// price diverges from it by no more than the configured ratio.
    pub open spec fn spec_oracle_usable(self, oracle: OraclePriceData, mark_price: u128) -> bool {
        ||| !self.use_for_liquidations
        ||| {
            &&& oracle.delay <= self.validity.slots_before_stable
            &&& oracle.confidence <= self.validity.confidence_interval_max_size
            &&& oracle.price > 0
            &&& abs(mark_price - oracle.price)
                * self.price_divergence.mark_oracle_divergence_denominator <= oracle.price
                * self.price_divergence.mark_oracle_divergence_numerator
        }
    }

    /// Evaluates the guard rails on a normalized oracle reading against
    /// the current mark price. The divergence test cross-multiplies in
    /// 256-bit arithmetic, so no reading is ever misjudged by overflow.
    pub fn oracle_usable_for_liquidation(&self, oracle: &OraclePriceData, mark_price: u128) -> (r:
        bool)
        ensures
            r == self.spec_oracle_usable(*oracle, mark_price),
    {
        if !self.use_for_liquidations {
            return true;
        }
        if oracle.delay > self.validity.slots_before_stable {
            return false;
        }
        if oracle.confidence > self.validity.confidence_interval_max_size {
            return false;
        }
        if oracle.price <= 0 {
            return false;
        }
        let oracle_price = oracle.price as u128;
        let divergence = if mark_price >= oracle_price {
            mark_price - oracle_price
        } else {
            oracle_price - mark_price
        };
        let scaled_divergence = U256::from_mul_u128(
            divergence,
            self.price_divergence.mark_oracle_divergence_denominator,
        );
        let tolerated = U256::from_mul_u128(
            oracle_price,
            self.price_divergence.mark_oracle_divergence_numerator,
        );
        scaled_divergence.le(&tolerated)
    }
}

} // verus!
