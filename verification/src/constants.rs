//! Precision constants and fixed capacities of the engine.
//!
//! All quantities are fixed-point integers; each constant below names the
//! scale of one family of values or one hard capacity of the data model.

use vstd::prelude::*;

verus! {

/// Scale of every mark price: a price of 1.0 is this many price units.
pub const MARK_PRICE_PRECISION: u128 = 10_000_000_000;

/// Scale of a market's peg multiplier: a neutral peg equals this value.
pub const PEG_PRECISION: u128 = 1_000;

/// Factor that lifts a peg-scaled reserve ratio to mark-price scale.
pub const PRICE_TO_PEG_PRECISION_RATIO: u128 = MARK_PRICE_PRECISION / PEG_PRECISION;

/// Scale of margin ratios: a ratio of 100% equals this value.
pub const MARGIN_PRECISION: u32 = 10_000;

/// Smallest margin ratio any tier may be configured with.
pub const MINIMUM_MARGIN_RATIO: u32 = MARGIN_PRECISION / 50;

/// Largest margin ratio any tier may be configured with.
pub const MAXIMUM_MARGIN_RATIO: u32 = MARGIN_PRECISION;

/// Scale of cumulative funding rates: a funding payment is the rate delta
/// times the position size divided by this value.
pub const FUNDING_PRECISION: u128 = 10_000;

/// Number of market slots in the registry.
pub const MAX_MARKETS: usize = 64;

/// Number of concurrent market-position slots per user.
pub const MAX_POSITIONS: usize = 5;

/// Number of record slots in each circular history log.
pub const LOG_CAPACITY: usize = 1024;

/// Numerator of the default exchange fee rate.
pub const DEFAULT_FEE_NUMERATOR: u128 = 10;

/// Denominator of the default exchange fee rate.
pub const DEFAULT_FEE_DENOMINATOR: u128 = 10_000;

/// Discount-token balance required for the first discount tier.
pub const DEFAULT_DISCOUNT_TOKEN_FIRST_TIER_MINIMUM_BALANCE: u64 = 1_000_000_000_000;

/// Numerator of the first tier's fee discount.
pub const DEFAULT_DISCOUNT_TOKEN_FIRST_TIER_DISCOUNT_NUMERATOR: u128 = 1;

/// Denominator of the first tier's fee discount.
pub const DEFAULT_DISCOUNT_TOKEN_FIRST_TIER_DISCOUNT_DENOMINATOR: u128 = 20;

/// Discount-token balance required for the second discount tier.
pub const DEFAULT_DISCOUNT_TOKEN_SECOND_TIER_MINIMUM_BALANCE: u64 = 10_000_000_000_000;

/// Numerator of the second tier's fee discount.
pub const DEFAULT_DISCOUNT_TOKEN_SECOND_TIER_DISCOUNT_NUMERATOR: u128 = 1;

/// Denominator of the second tier's fee discount.
pub const DEFAULT_DISCOUNT_TOKEN_SECOND_TIER_DISCOUNT_DENOMINATOR: u128 = 10;

/// Discount-token balance required for the third discount tier.
pub const DEFAULT_DISCOUNT_TOKEN_THIRD_TIER_MINIMUM_BALANCE: u64 = 25_000_000_000_000;

/// Numerator of the third tier's fee discount.
pub const DEFAULT_DISCOUNT_TOKEN_THIRD_TIER_DISCOUNT_NUMERATOR: u128 = 1;

/// Denominator of the third tier's fee discount.
pub const DEFAULT_DISCOUNT_TOKEN_THIRD_TIER_DISCOUNT_DENOMINATOR: u128 = 4;

/// Discount-token balance required for the fourth discount tier.
pub const DEFAULT_DISCOUNT_TOKEN_FOURTH_TIER_MINIMUM_BALANCE: u64 = 100_000_000_000_000;

/// Numerator of the fourth tier's fee discount.
pub const DEFAULT_DISCOUNT_TOKEN_FOURTH_TIER_DISCOUNT_NUMERATOR: u128 = 1;

/// Denominator of the fourth tier's fee discount.
pub const DEFAULT_DISCOUNT_TOKEN_FOURTH_TIER_DISCOUNT_DENOMINATOR: u128 = 2;

/// Numerator of the reward granted for referring a trader.
pub const DEFAULT_REFERRER_REWARD_NUMERATOR: u128 = 5;

/// Denominator of the reward granted for referring a trader.
pub const DEFAULT_REFERRER_REWARD_DENOMINATOR: u128 = 100;

/// Numerator of the discount granted to a referred trader.
pub const DEFAULT_REFEREE_DISCOUNT_NUMERATOR: u128 = 5;

/// Denominator of the discount granted to a referred trader.
pub const DEFAULT_REFEREE_DISCOUNT_DENOMINATOR: u128 = 100;

} // verus!
