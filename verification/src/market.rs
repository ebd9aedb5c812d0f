//! The market registry: a fixed table of markets, each owning one
//! automated market maker.

use vstd::prelude::*;

use crate::amm;
use crate::amm::price_of;
use crate::bn::{word_base_3, U192};
use crate::cast::cast_u64_to_i64;
use crate::errors::{ClearingHouseResult, Errors};
use crate::ids::AccountKey;
use crate::margin_validation::{margin_triple_valid, margin_validation};
use crate::oracle::{
    decimal_precision, scale_oracle_conf, scale_oracle_price, scaled_to_mark_precision,
};

verus! {

/// Which oracle network a market reads its price from.
#[derive(Clone, Copy, Debug, PartialEq, Eq, Structural)]
pub enum OracleSource {
    /// A pyth price feed.
    Pyth,
    /// A switchboard price feed.
    Switchboard,
}

/// A decoded oracle price message: the mantissas, the shared decimal
/// exponent, and the slot the reading was posted in.
#[derive(Clone, Copy, Debug, PartialEq, Eq, Structural)]
pub struct PriceUpdate {
    /// Signed price mantissa.
    pub price: i64,
    /// Unsigned confidence-interval mantissa.
    pub conf: u64,
    /// Decimal exponent shared by price, confidence and EMA price.
    pub exponent: i32,
    /// Signed exponential-moving-average price mantissa.
    pub ema_price: i64,
    /// Slot the reading was posted in.
    pub posted_slot: u64,
}

/// A normalized oracle reading, scaled to mark-price precision.
#[derive(Clone, Copy, Debug, PartialEq, Eq, Structural)]
pub struct OraclePriceData {
    /// Price at mark-price precision.
    pub price: i128,
    /// Width of the confidence interval; smaller is more trustworthy.
    pub confidence: u128,
    /// Slots elapsed between posting and reading.
    pub delay: i64,
    /// Whether the feed had enough data points behind the reading.
    pub has_sufficient_number_of_data_points: bool,
}

/// The automated market maker of one market: reserves, peg, funding
/// state, fee accumulators and oracle bookkeeping.
#[derive(Clone, Copy, Debug, PartialEq, Eq, Structural)]
pub struct AMM {
    /// Base-asset reserve of the constant-product curve.
    pub base_asset_reserve: u128,
    /// Quote-asset reserve of the constant-product curve.
    pub quote_asset_reserve: u128,
    /// Square root of the constant product.
    pub sqrt_k: u128,
    /// Cumulative repeg rebate owed to longs.
    pub cumulative_repeg_rebate_long: u128,
    /// Cumulative repeg rebate owed to shorts.
    pub cumulative_repeg_rebate_short: u128,
    /// Cumulative funding rate charged to longs.
    pub cumulative_funding_rate_long: u128,
    /// Cumulative funding rate charged to shorts.
    pub cumulative_funding_rate_short: u128,
    /// Funding rate of the most recent update.
    pub last_funding_rate: i128,
    /// Timestamp of the most recent funding update.
    pub last_funding_rate_ts: i64,
    /// Length of one funding period, in seconds.
    pub funding_period: i64,
    /// Peg multiplier scaling the reserve ratio into a price.
    pub peg_multiplier: u128,
    /// Fees accumulated since inception.
    pub total_fee: u128,
    /// Fees accumulated minus what was distributed.
    pub total_fee_minus_distributions: u128,
    /// Fees withdrawn from the market.
    pub total_fee_withdrawn: u128,
    /// Smallest base amount one trade may move.
    pub minimum_base_asset_trade_size: u128,
    /// Smallest quote amount one trade may move.
    pub minimum_quote_asset_trade_size: u128,
    /// Most recent mark-price time-weighted average.
    pub last_mark_price_twap: u128,
    /// Timestamp of the most recent mark-price TWAP update.
    pub last_mark_price_twap_ts: i64,
    /// Timestamp of the most recent oracle TWAP update.
    pub last_oracle_price_twap_ts: i64,
    /// Most recent oracle-price time-weighted average.
    pub last_oracle_price_twap: i128,
    /// Identity of the oracle account.
    pub oracle: AccountKey,
    /// Most recent oracle price.
    pub last_oracle_price: i128,
    /// Base spread applied around the mark price, in basis points.
    pub base_spread: u16,
    /// Which oracle network the market reads.
    pub oracle_source: OracleSource,
}

impl AMM {
    /// The mark price of the current reserves and peg, by the
    /// constant-product pricing formula.
    pub fn mark_price(&self) -> (r: ClearingHouseResult<u128>)
        ensures
            (self.quote_asset_reserve * self.peg_multiplier > u128::MAX
                || self.base_asset_reserve == 0) <==> r == Err::<u128, Errors>(Errors::MathError),
            (self.quote_asset_reserve * self.peg_multiplier <= u128::MAX
                && self.base_asset_reserve != 0) ==> {
                let price = price_of(
                    self.quote_asset_reserve as int,
                    self.base_asset_reserve as int,
                    self.peg_multiplier as int,
                );
                if price <= u128::MAX {
                    r matches Ok(p) && p == price
                } else {
                    r == Err::<u128, Errors>(Errors::BnConversionError)
                }
            },
    {
        amm::calculate_price(
            self.quote_asset_reserve,
            self.base_asset_reserve,
            self.peg_multiplier,
        )
    }

    /// Normalizes a decoded oracle reading: price and confidence scaled to
    /// mark-price precision, and the reading's age in slots.
    ///
    /// Fails with `MathError` when the exponent's precision exceeds 128
    /// bits, and with `FailToCast` when a slot number exceeds the signed
    /// 64-bit range.
    pub fn get_pyth_price(&self, price_update: &PriceUpdate, clock_slot: u64) -> (r:
        ClearingHouseResult<OraclePriceData>)
        ensures
            decimal_precision(price_update.exponent) > u128::MAX ==> r == Err::<
                OraclePriceData,
                Errors,
            >(Errors::MathError),
            decimal_precision(price_update.exponent) <= u128::MAX && (clock_slot > i64::MAX
                || price_update.posted_slot > i64::MAX) ==> r == Err::<OraclePriceData, Errors>(
                Errors::FailToCast,
            ),
            decimal_precision(price_update.exponent) <= u128::MAX && clock_slot <= i64::MAX
                && price_update.posted_slot <= i64::MAX ==> (r matches Ok(o) && o == (OraclePriceData {
                price: scaled_to_mark_precision(
                    price_update.price as int,
                    decimal_precision(price_update.exponent),
                ) as i128,
                confidence: ((price_update.conf * crate::oracle::oracle_scale_mul(
                    decimal_precision(price_update.exponent),
                )) / crate::oracle::oracle_scale_div(
                    decimal_precision(price_update.exponent),
                )) as u128,
                delay: (clock_slot - price_update.posted_slot) as i64,
                has_sufficient_number_of_data_points: true,
            })),
    {
        let pyth_price_scaled = match scale_oracle_price(price_update.price, price_update.exponent) {
            Ok(v) => v,
            Err(e) => {
                return Err(e);
            },
        };
        let pyth_price_conf_scaled = match scale_oracle_conf(
            price_update.conf,
            price_update.exponent,
        ) {
            Ok(v) => v,
            Err(e) => {
                return Err(e);
            },
        };

        let clock = match cast_u64_to_i64(clock_slot) {
            Ok(v) => v,
            Err(e) => {
                return Err(e);
            },
        };
        let posted = match cast_u64_to_i64(price_update.posted_slot) {
            Ok(v) => v,
            Err(e) => {
                return Err(e);
            },
        };
        let pyth_price_delay = match clock.checked_sub(posted) {
            Some(v) => v,
            None => {
                return Err(Errors::MathError);
            },
        };

        Ok(
            OraclePriceData {
                price: pyth_price_scaled,
                confidence: pyth_price_conf_scaled,
                delay: pyth_price_delay,
                has_sufficient_number_of_data_points: true,
            },
        )
    }

    /// Normalizes the exponential-moving-average price of a decoded
    /// oracle reading to mark-price precision.
    pub fn get_pyth_ema_price(&self, price_update: &PriceUpdate) -> (r: ClearingHouseResult<i128>)
        ensures
            decimal_precision(price_update.exponent) > u128::MAX ==> r == Err::<i128, Errors>(
                Errors::MathError,
            ),
            decimal_precision(price_update.exponent) <= u128::MAX ==> (r matches Ok(p) && p
                == scaled_to_mark_precision(
                price_update.ema_price as int,
                decimal_precision(price_update.exponent),
            )),
    {
        scale_oracle_price(price_update.ema_price, price_update.exponent)
    }
}

/// One market slot of the registry.
#[derive(Clone, Copy, Debug, PartialEq, Eq, Structural)]
pub struct Market {
    /// Base exposure held by longs; never negative.
    pub base_asset_amount_long: i128,
    /// Base exposure held by shorts; never positive.
    pub base_asset_amount_short: i128,
    /// Net base exposure: always the sum of the long and short sides.
    pub base_asset_amount: i128,
    /// Number of accounts holding a position in the market.
    pub open_interest: u128,
    /// The market's pricing curve and funding state.
    pub amm: AMM,
    /// Margin ratio required to open a position.
    pub margin_ratio_initial: u32,
    /// Margin ratio below which partial liquidation is allowed.
    pub margin_ratio_partial: u32,
    /// Margin ratio below which full liquidation is allowed.
    pub margin_ratio_maintenance: u32,
    /// Whether this slot has been initialized.
    pub initialized: bool,
}

impl Market {
    /// The net-exposure invariant: the net amount is the sum of the long
    /// and short sides.
    pub open spec fn wf(self) -> bool {
        self.base_asset_amount == self.base_asset_amount_long + self.base_asset_amount_short
    }

    /// Whether this slot has been initialized.
    pub fn is_initialized(&self) -> (r: bool)
        ensures
            r == self.initialized,
    {
        self.initialized
    }

    /// An empty, uninitialized market slot.
    pub fn zeroed() -> (r: Market)
        ensures
            r == Market::spec_zeroed(),
    {
        Market {
            base_asset_amount_long: 0,
            base_asset_amount_short: 0,
            base_asset_amount: 0,
            open_interest: 0,
            amm: AMM {
                base_asset_reserve: 0,
                quote_asset_reserve: 0,
                sqrt_k: 0,
                cumulative_repeg_rebate_long: 0,
                cumulative_repeg_rebate_short: 0,
                cumulative_funding_rate_long: 0,
                cumulative_funding_rate_short: 0,
                last_funding_rate: 0,
                last_funding_rate_ts: 0,
                funding_period: 0,
                peg_multiplier: 0,
                total_fee: 0,
                total_fee_minus_distributions: 0,
                total_fee_withdrawn: 0,
                minimum_base_asset_trade_size: 0,
                minimum_quote_asset_trade_size: 0,
                last_mark_price_twap: 0,
                last_mark_price_twap_ts: 0,
                last_oracle_price_twap_ts: 0,
                last_oracle_price_twap: 0,
                oracle: AccountKey { hi: 0, lo: 0 },
                last_oracle_price: 0,
                base_spread: 0,
                oracle_source: OracleSource::Pyth,
            },
            margin_ratio_initial: 0,
            margin_ratio_partial: 0,
            margin_ratio_maintenance: 0,
            initialized: false,
        }
    }

    /// The empty market slot value.
    pub open spec fn spec_zeroed() -> Market {
        Market {
            base_asset_amount_long: 0,
            base_asset_amount_short: 0,
            base_asset_amount: 0,
            open_interest: 0,
            amm: AMM {
                base_asset_reserve: 0,
                quote_asset_reserve: 0,
                sqrt_k: 0,
                cumulative_repeg_rebate_long: 0,
                cumulative_repeg_rebate_short: 0,
                cumulative_funding_rate_long: 0,
                cumulative_funding_rate_short: 0,
                last_funding_rate: 0,
                last_funding_rate_ts: 0,
                funding_period: 0,
                peg_multiplier: 0,
                total_fee: 0,
                total_fee_minus_distributions: 0,
                total_fee_withdrawn: 0,
                minimum_base_asset_trade_size: 0,
                minimum_quote_asset_trade_size: 0,
                last_mark_price_twap: 0,
                last_mark_price_twap_ts: 0,
                last_oracle_price_twap_ts: 0,
                last_oracle_price_twap: 0,
                oracle: AccountKey { hi: 0, lo: 0 },
                last_oracle_price: 0,
                base_spread: 0,
                oracle_source: OracleSource::Pyth,
            },
            margin_ratio_initial: 0,
            margin_ratio_partial: 0,
            margin_ratio_maintenance: 0,
            initialized: false,
        }
    }
}

/// The market a successful initialization writes into its slot: fresh
/// exposure counters, the reserves and peg as given, the computed mark
/// price as the first TWAP observation, and the oracle reading as the
/// first oracle observation.
pub open spec fn spec_initialized_market(
    amm_base_asset_reserve: u128,
    amm_quote_asset_reserve: u128,
    amm_periodicity: i64,
    amm_peg_multiplier: u128,
    oracle_source: OracleSource,
    oracle: AccountKey,
    oracle_price: i128,
    oracle_price_twap: i128,
    now: i64,
    margin_ratio_initial: u32,
    margin_ratio_partial: u32,
    margin_ratio_maintenance: u32,
) -> Market {
    Market {
        base_asset_amount_long: 0,
        base_asset_amount_short: 0,
        base_asset_amount: 0,
        open_interest: 0,
        amm: AMM {
            base_asset_reserve: amm_base_asset_reserve,
            quote_asset_reserve: amm_quote_asset_reserve,
            sqrt_k: amm_base_asset_reserve,
            cumulative_repeg_rebate_long: 0,
            cumulative_repeg_rebate_short: 0,
            cumulative_funding_rate_long: 0,
            cumulative_funding_rate_short: 0,
            last_funding_rate: 0,
            last_funding_rate_ts: now,
            funding_period: amm_periodicity,
            peg_multiplier: amm_peg_multiplier,
            total_fee: 0,
            total_fee_minus_distributions: 0,
            total_fee_withdrawn: 0,
            minimum_base_asset_trade_size: 10000000,
            minimum_quote_asset_trade_size: 10000000,
            last_mark_price_twap: price_of(
                amm_base_asset_reserve as int,
                amm_base_asset_reserve as int,
                amm_peg_multiplier as int,
            ) as u128,
            last_mark_price_twap_ts: now,
            last_oracle_price_twap_ts: now,
            last_oracle_price_twap: oracle_price_twap,
            oracle: oracle,
            last_oracle_price: oracle_price,
            base_spread: 0,
            oracle_source: oracle_source,
        },
        margin_ratio_initial: margin_ratio_initial,
        margin_ratio_partial: margin_ratio_partial,
        margin_ratio_maintenance: margin_ratio_maintenance,
        initialized: true,
    }
}

/// Fixed-capacity table of markets, indexed by a caller-supplied id.
pub struct Markets {
    /// The market slots.
    pub markets: Vec<Market>,
}

impl Markets {
    /// Well-formedness: all slots allocated.
    pub open spec fn wf(self) -> bool {
        self.markets@.len() == 64
    }

    /// A fresh registry of uninitialized market slots.
    pub fn new() -> (r: Markets)
        ensures
            r.wf(),
            forall|i: int| 0 <= i < 64 ==> r.markets@[i] == Market::spec_zeroed(),
    {
        let mut markets: Vec<Market> = Vec::new();
        let mut i: usize = 0;
        while i < 64
            invariant
                i <= 64,
                markets@.len() == i,
                forall|k: int| 0 <= k < i ==> markets@[k] == Market::spec_zeroed(),
            decreases 64 - i,
        {
            markets.push(Market::zeroed());
            i = i + 1;
        }
        Markets { markets }
    }

    /// A market id as a slot index.
    pub fn index_from_u64(index: u64) -> (r: usize)
        requires
            index < 64,
        ensures
            r == index,
    {
        index as usize
    }

    /// Looks up a market by id; an out-of-range id fails with
    /// `InvalidMarketIndex` rather than reaching past the table.
    pub fn get_market(&self, index: u64) -> (r: ClearingHouseResult<&Market>)
        requires
            self.wf(),
        ensures
            index < 64 ==> (r matches Ok(m) && m == self.markets@[index as int]),
            index >= 64 ==> r == Err::<&Market, Errors>(Errors::InvalidMarketIndex),
    {
        if index >= 64 {
            return Err(Errors::InvalidMarketIndex);
        }
        Ok(&self.markets[Self::index_from_u64(index)])
    }

    /// Looks up a market by id for mutation; an out-of-range id fails
    /// with `InvalidMarketIndex` rather than reaching past the table.
    pub fn get_market_mut(&mut self, index: u64) -> (r: ClearingHouseResult<&mut Market>)
        requires
            old(self).wf(),
        ensures
            index < 64 ==> (r matches Ok(m) && *m == old(self).markets@[index as int]
                && final(self).markets@ == old(self).markets@.update(index as int, *final(m))),
            index >= 64 ==> (r matches Err(e) && e == Errors::InvalidMarketIndex
                && final(self).markets@ == old(self).markets@),
    {
        if index >= 64 {
            return Err(Errors::InvalidMarketIndex);
        }
        Ok(&mut self.markets[Self::index_from_u64(index)])
    }

    /// Initializes the market slot at the given index.
    ///
    /// All validation precedes any mutation: the slot must be free, the
    /// genesis reserves equal, the initial mark price and the reserve
    /// product representable, and the margin tiers valid; each violation
    /// fails with its own error and leaves the registry unchanged. On
    /// success the slot holds the freshly built market.
    pub fn initialize_market(
        &mut self,
        market_index: u64,
        amm_base_asset_reserve: u128,
        amm_quote_asset_reserve: u128,
        amm_periodicity: i64,
        amm_peg_multiplier: u128,
        oracle_source: OracleSource,
        oracle: AccountKey,
        oracle_price: i128,
        oracle_price_twap: i128,
        now: i64,
        margin_ratio_initial: u32,
        margin_ratio_partial: u32,
        margin_ratio_maintenance: u32,
    ) -> (r: ClearingHouseResult)
        requires
            old(self).wf(),
        ensures
            final(self).wf(),
            r is Err ==> final(self).markets@ == old(self).markets@,
            market_index >= 64 ==> r == Err::<(), Errors>(Errors::InvalidMarketIndex),
            market_index < 64 ==> {
                let slot = old(self).markets@[market_index as int];
                if slot.initialized {
                    r == Err::<(), Errors>(Errors::MarketIndexAlreadyInitialized)
                } else if amm_base_asset_reserve != amm_quote_asset_reserve {
                    r == Err::<(), Errors>(Errors::InvalidInitialPeg)
                } else if amm_base_asset_reserve * amm_peg_multiplier > u128::MAX
                    || amm_base_asset_reserve == 0 {
                    r == Err::<(), Errors>(Errors::MathError)
                } else if price_of(
                    amm_base_asset_reserve as int,
                    amm_base_asset_reserve as int,
                    amm_peg_multiplier as int,
                ) > u128::MAX {
                    r == Err::<(), Errors>(Errors::BnConversionError)
                } else if amm_base_asset_reserve * amm_quote_asset_reserve >= word_base_3() {
                    r == Err::<(), Errors>(Errors::MathError)
                } else if !margin_triple_valid(
                    margin_ratio_initial,
                    margin_ratio_partial,
                    margin_ratio_maintenance,
                ) {
                    r == Err::<(), Errors>(Errors::InvalidMarginRatio)
                } else {
                    r == Ok::<(), Errors>(()) && final(self).markets@ == old(
                        self,
                    ).markets@.update(
                        market_index as int,
                        spec_initialized_market(
                            amm_base_asset_reserve,
                            amm_quote_asset_reserve,
                            amm_periodicity,
                            amm_peg_multiplier,
                            oracle_source,
                            oracle,
                            oracle_price,
                            oracle_price_twap,
                            now,
                            margin_ratio_initial,
                            margin_ratio_partial,
                            margin_ratio_maintenance,
                        ),
                    )
                }
            },
    {
        if market_index >= 64 {
            return Err(Errors::InvalidMarketIndex);
        }
        let idx = Self::index_from_u64(market_index);
        if self.markets[idx].is_initialized() {
            return Err(Errors::MarketIndexAlreadyInitialized);
        }

        if amm_base_asset_reserve != amm_quote_asset_reserve {
            return Err(Errors::InvalidInitialPeg);
        }

        let init_mark_price = match amm::calculate_price(
            amm_base_asset_reserve,
            amm_base_asset_reserve,
            amm_peg_multiplier,
        ) {
            Ok(v) => v,
            Err(e) => {
                return Err(e);
            },
        };

        let product = U192::from_u128(amm_base_asset_reserve).checked_mul(
            U192::from_u128(amm_quote_asset_reserve),
        );
        let product_fits = match product {
            Some(p) => {
                proof {
                    p.lemma_value_bounds();
                }
                true
            },
            None => false,
        };
        if !product_fits {
            return Err(Errors::MathError);
        }

        match margin_validation(margin_ratio_initial, margin_ratio_partial, margin_ratio_maintenance) {
            Ok(_) => (),
            Err(e) => {
                return Err(e);
            },
        }

        let market = Market {
            base_asset_amount_long: 0,
            base_asset_amount_short: 0,
            base_asset_amount: 0,
            open_interest: 0,
            amm: AMM {
                base_asset_reserve: amm_base_asset_reserve,
                quote_asset_reserve: amm_quote_asset_reserve,
                sqrt_k: amm_base_asset_reserve,
                cumulative_repeg_rebate_long: 0,
                cumulative_repeg_rebate_short: 0,
                cumulative_funding_rate_long: 0,
                cumulative_funding_rate_short: 0,
                last_funding_rate: 0,
                last_funding_rate_ts: now,
                funding_period: amm_periodicity,
                peg_multiplier: amm_peg_multiplier,
                total_fee: 0,
                total_fee_minus_distributions: 0,
                total_fee_withdrawn: 0,
                minimum_base_asset_trade_size: 10000000,
                minimum_quote_asset_trade_size: 10000000,
                last_mark_price_twap: init_mark_price,
                last_mark_price_twap_ts: now,
                last_oracle_price_twap_ts: now,
                last_oracle_price_twap: oracle_price_twap,
                oracle: oracle,
                last_oracle_price: oracle_price,
                base_spread: 0,
                oracle_source: oracle_source,
            },
            margin_ratio_initial: margin_ratio_initial,
            margin_ratio_partial: margin_ratio_partial,
            margin_ratio_maintenance: margin_ratio_maintenance,
            initialized: true,
        };
        self.markets[idx] = market;
        Ok(())
    }
}

} // verus!
