//! Direction of an exposure, and funding-payment settlement.
//!
//! A position settles funding lazily: whenever its size is about to
//! change, the payment owed since its last settlement is computed from
//! the market's cumulative funding rate, applied to the user's
//! collateral, recorded in the funding-payment log, and the position's
//! settled rate is advanced to the market's current value. Settling again
//! immediately afterwards pays nothing and changes nothing.

use vstd::arithmetic::div_mod::lemma_div_basics;
use vstd::prelude::*;

use crate::cast::cast_to_i128;
use crate::constants::FUNDING_PRECISION;
use crate::errors::{ClearingHouseResult, Errors};
use crate::funding_payment_history::{FundingPaymentHistory, FundingPaymentRecord};
use crate::history::next_id;
use crate::ids::AccountKey;
use crate::market::{Market, AMM};
use crate::oracle::div_trunc;
use crate::user::{MarketPosition, User};

verus! {

/// Side of a position or order: long positions profit when the price
/// rises, short positions when it falls.
#[derive(Clone, Copy, Debug, PartialEq, Eq, Structural)]
pub enum PositionDirection {
    /// Exposure that gains as the mark price rises.
    Long,
    /// Exposure that gains as the mark price falls.
    Short,
}

/// The cumulative funding rate that applies to a position: the long rate
/// for long exposure, the short rate otherwise.
pub open spec fn side_funding_rate(amm: AMM, base_asset_amount: i128) -> u128 {
    if base_asset_amount > 0 {
        amm.cumulative_funding_rate_long
    } else {
        amm.cumulative_funding_rate_short
    }
}

/// The funding payment owed for a rate delta and a signed position size,
/// at funding precision, with machine (truncating) division.
pub open spec fn funding_payment_of(delta: int, base_asset_amount: int) -> int {
    div_trunc(delta * base_asset_amount, FUNDING_PRECISION as int)
}

/// Collateral after applying a signed funding payment: clamped at zero
/// when the charge exceeds the balance.
pub open spec fn updated_collateral(collateral: int, payment: int) -> int {
    if collateral + payment < 0 {
        0
    } else {
        collateral + payment
    }
}

/// Whether a settlement has anything to do: the position has size and
/// the market's rate moved since the position last settled.
pub open spec fn settlement_due(position: MarketPosition, amm: AMM) -> bool {
    position.base_asset_amount != 0 && side_funding_rate(amm, position.base_asset_amount)
        != position.last_cumulative_funding_rate
}

/// Settles the funding payment pending on one position.
///
/// When nothing is due the call changes nothing. Otherwise the payment
/// `(rate - last settled rate) * size / FUNDING_PRECISION` is applied to
/// the user's collateral (clamped at zero), a record is appended to the
/// funding-payment log, and the position's settled rate advances to the
/// market's current value. All arithmetic is checked and every failure
/// leaves user, position and log untouched.
pub fn settle_funding_payment(
    user: &mut User,
    position: &mut MarketPosition,
    amm: &AMM,
    now: i64,
    funding_payment_history: &mut FundingPaymentHistory,
    user_key: AccountKey,
) -> (r: ClearingHouseResult)
    requires
        old(funding_payment_history).wf(),
        next_id(old(funding_payment_history).ids(), old(funding_payment_history).spec_head())
            <= u128::MAX,
    ensures
        final(funding_payment_history).wf(),
        r is Err ==> *final(user) == *old(user) && *final(position) == *old(position) && final(funding_payment_history).records() == old(funding_payment_history).records() && final(funding_payment_history).spec_head() == old(funding_payment_history).spec_head(),
        !settlement_due(*old(position), *amm) ==> r is Ok && *final(user) == *old(user) && *final(position) == *old(position) && final(funding_payment_history).records() == old(funding_payment_history).records() && final(funding_payment_history).spec_head() == old(funding_payment_history).spec_head(),
        settlement_due(*old(position), *amm) ==> {
            let rate = side_funding_rate(*amm, old(position).base_asset_amount) as int;
            let delta = rate - old(position).last_cumulative_funding_rate;
            let payment = funding_payment_of(delta, old(position).base_asset_amount as int);
            r is Ok <==> {
                &&& rate <= i128::MAX
                &&& i128::MIN <= delta <= i128::MAX
                &&& i128::MIN <= delta * old(position).base_asset_amount <= i128::MAX
                &&& amm.cumulative_funding_rate_long <= i128::MAX
                &&& amm.cumulative_funding_rate_short <= i128::MAX
                &&& updated_collateral(old(user).collateral as int, payment) <= u128::MAX
            }
        },
        settlement_due(*old(position), *amm) && r is Ok ==> {
            let rate = side_funding_rate(*amm, old(position).base_asset_amount) as int;
            let payment = funding_payment_of(
                rate - old(position).last_cumulative_funding_rate,
                old(position).base_asset_amount as int,
            );
            &&& *final(user) == (User {
                collateral: updated_collateral(old(user).collateral as int, payment) as u128,
                ..*old(user)
            })
            &&& *final(position) == (MarketPosition {
                last_cumulative_funding_rate: rate as i128,
                last_funding_rate_ts: amm.last_funding_rate_ts,
                ..*old(position)
            })
            &&& final(funding_payment_history).spec_head() == (old(funding_payment_history).spec_head() + 1) % 1024
            &&& final(funding_payment_history).records() == old(funding_payment_history).records().update(
                old(funding_payment_history).spec_head() as int,
                FundingPaymentRecord {
                    ts: now,
                    market_index: old(position).market_index,
                    record_id: next_id(
                        old(funding_payment_history).ids(),
                        old(funding_payment_history).spec_head(),
                    ) as u128,
                    user_authority: old(user).authority,
                    user: user_key,
                    funding_payment: payment as i128,
                    base_asset_amount: old(position).base_asset_amount,
                    amm_cumulative_funding_long: amm.cumulative_funding_rate_long as i128,
                    amm_cumulative_funding_short: amm.cumulative_funding_rate_short as i128,
                    user_last_cumulative_funding: old(position).last_cumulative_funding_rate,
                    user_last_funding_rate_ts: old(position).last_funding_rate_ts,
                },
            )
        },
{
    if position.base_asset_amount == 0 {
        return Ok(());
    }

    let side_rate = if position.base_asset_amount > 0 {
        amm.cumulative_funding_rate_long
    } else {
        amm.cumulative_funding_rate_short
    };

    if side_rate <= i128::MAX as u128 && side_rate as i128 == position.last_cumulative_funding_rate {
        return Ok(());
    }

    // Everything fallible happens before any state is touched.
    let rate = match cast_to_i128(side_rate) {
        Ok(v) => v,
        Err(e) => {
            return Err(e);
        },
    };
    let delta = match rate.checked_sub(position.last_cumulative_funding_rate) {
        Some(v) => v,
        None => {
            return Err(Errors::MathError);
        },
    };
    let scaled = match delta.checked_mul(position.base_asset_amount) {
        Some(v) => v,
        None => {
            return Err(Errors::MathError);
        },
    };
    proof {
        if scaled >= 0 {
            lemma_div_basics(FUNDING_PRECISION as int);
            vstd::arithmetic::div_mod::lemma_div_nonincreasing(
                scaled as int,
                FUNDING_PRECISION as int,
            );
            vstd::arithmetic::div_mod::lemma_div_pos_is_pos(
                scaled as int,
                FUNDING_PRECISION as int,
            );
        } else {
            vstd::arithmetic::div_mod::lemma_div_nonincreasing(
                (scaled * -1) as int,
                FUNDING_PRECISION as int,
            );
            vstd::arithmetic::div_mod::lemma_div_pos_is_pos(
                (scaled * -1) as int,
                FUNDING_PRECISION as int,
            );
        }
    }
    let payment = match scaled.checked_div(FUNDING_PRECISION as i128) {
        Some(v) => v,
        None => {
            return Err(Errors::MathError);
        },
    };

    let new_collateral: u128 = if payment >= 0 {
        match user.collateral.checked_add(payment as u128) {
            Some(v) => v,
            None => {
                return Err(Errors::MathError);
            },
        }
    } else {
        let charge = if payment == i128::MIN {
            (i128::MAX as u128) + 1
        } else {
            (-payment) as u128
        };
        if charge > user.collateral {
            0
        } else {
            user.collateral - charge
        }
    };

    let cumulative_long = match cast_to_i128(amm.cumulative_funding_rate_long) {
        Ok(v) => v,
        Err(e) => {
            return Err(e);
        },
    };
    let cumulative_short = match cast_to_i128(amm.cumulative_funding_rate_short) {
        Ok(v) => v,
        Err(e) => {
            return Err(e);
        },
    };

    let record_id = funding_payment_history.next_record_id();
    let record = FundingPaymentRecord {
        ts: now,
        market_index: position.market_index,
        record_id,
        user_authority: user.authority,
        user: user_key,
        funding_payment: payment,
        base_asset_amount: position.base_asset_amount,
        amm_cumulative_funding_long: cumulative_long,
        amm_cumulative_funding_short: cumulative_short,
        user_last_cumulative_funding: position.last_cumulative_funding_rate,
        user_last_funding_rate_ts: position.last_funding_rate_ts,
    };
    funding_payment_history.append(record);

    user.collateral = new_collateral;
    position.last_cumulative_funding_rate = rate;
    position.last_funding_rate_ts = amm.last_funding_rate_ts;

    Ok(())
}

/// The part of a signed exposure held on the long side.
pub open spec fn long_side(base_asset_amount: i128) -> int {
    if base_asset_amount > 0 {
        base_asset_amount as int
    } else {
        0
    }
}

/// The part of a signed exposure held on the short side.
pub open spec fn short_side(base_asset_amount: i128) -> int {
    if base_asset_amount < 0 {
        base_asset_amount as int
    } else {
        0
    }
}

/// Whether every intermediate of a position update stays representable:
/// the new position amounts, the re-attributed long and short sides, the
/// net exposure and the open-interest adjustment.
pub open spec fn spec_can_update_position(
    market: Market,
    position: MarketPosition,
    base_asset_delta: i128,
    quote_asset_delta: i128,
) -> bool {
    let new_base = position.base_asset_amount + base_asset_delta;
    let long_removed = market.base_asset_amount_long - long_side(position.base_asset_amount);
    let short_removed = market.base_asset_amount_short - short_side(position.base_asset_amount);
    let new_long = long_removed + long_side((position.base_asset_amount + base_asset_delta) as i128);
    let new_short = short_removed + short_side(
        (position.base_asset_amount + base_asset_delta) as i128,
    );
    &&& i128::MIN <= new_base <= i128::MAX
    &&& i128::MIN <= position.quote_asset_amount + quote_asset_delta <= i128::MAX
    &&& i128::MIN <= long_removed <= i128::MAX
    &&& i128::MIN <= new_long <= i128::MAX
    &&& i128::MIN <= short_removed <= i128::MAX
    &&& i128::MIN <= new_short <= i128::MAX
    &&& i128::MIN <= new_long + new_short <= i128::MAX
    &&& (position.base_asset_amount == 0 && new_base != 0 ==> market.open_interest < u128::MAX)
    &&& (position.base_asset_amount != 0 && new_base == 0 ==> market.open_interest >= 1)
}

/// Applies a signed change of exposure to one position and its market.
///
/// The position's base and quote amounts move by the deltas; the
/// market's long and short sides re-attribute the position's old and new
/// exposure, keeping the net amount the exact sum of the two sides; and
/// the open interest counts the position in while it is nonzero. All
/// arithmetic is checked, and any overflow fails with `MathError`
/// leaving market and position untouched.
pub fn update_position(
    market: &mut Market,
    position: &mut MarketPosition,
    base_asset_delta: i128,
    quote_asset_delta: i128,
) -> (r: ClearingHouseResult)
    requires
        old(market).wf(),
    ensures
        r is Ok <==> spec_can_update_position(
            *old(market),
            *old(position),
            base_asset_delta,
            quote_asset_delta,
        ),
        r is Err ==> r == Err::<(), Errors>(Errors::MathError) && *final(market) == *old(market)
            && *final(position) == *old(position),
        r is Ok ==> {
            let old_base = old(position).base_asset_amount;
            let new_base = (old_base + base_asset_delta) as i128;
            &&& *final(position) == (MarketPosition {
                base_asset_amount: new_base,
                quote_asset_amount: (old(position).quote_asset_amount + quote_asset_delta) as i128,
                ..*old(position)
            })
            &&& *final(market) == (Market {
                base_asset_amount_long: (old(market).base_asset_amount_long - long_side(old_base)
                    + long_side(new_base)) as i128,
                base_asset_amount_short: (old(market).base_asset_amount_short - short_side(
                    old_base,
                ) + short_side(new_base)) as i128,
                base_asset_amount: (old(market).base_asset_amount_long - long_side(old_base)
                    + long_side(new_base) + old(market).base_asset_amount_short - short_side(
                    old_base,
                ) + short_side(new_base)) as i128,
                open_interest: (if old_base == 0 && new_base != 0 {
                    old(market).open_interest + 1
                } else if old_base != 0 && new_base == 0 {
                    old(market).open_interest - 1
                } else {
                    old(market).open_interest as int
                }) as u128,
                ..*old(market)
            })
            &&& final(market).wf()
        },
{
    let old_base = position.base_asset_amount;
    let new_base = match old_base.checked_add(base_asset_delta) {
        Some(v) => v,
        None => {
            return Err(Errors::MathError);
        },
    };
    let new_quote = match position.quote_asset_amount.checked_add(quote_asset_delta) {
        Some(v) => v,
        None => {
            return Err(Errors::MathError);
        },
    };

    let old_long: i128 = if old_base > 0 {
        old_base
    } else {
        0
    };
    let new_long_part: i128 = if new_base > 0 {
        new_base
    } else {
        0
    };
    let old_short: i128 = if old_base < 0 {
        old_base
    } else {
        0
    };
    let new_short_part: i128 = if new_base < 0 {
        new_base
    } else {
        0
    };

    let long_removed = match market.base_asset_amount_long.checked_sub(old_long) {
        Some(v) => v,
        None => {
            return Err(Errors::MathError);
        },
    };
    let new_long = match long_removed.checked_add(new_long_part) {
        Some(v) => v,
        None => {
            return Err(Errors::MathError);
        },
    };
    let short_removed = match market.base_asset_amount_short.checked_sub(old_short) {
        Some(v) => v,
        None => {
            return Err(Errors::MathError);
        },
    };
    let new_short = match short_removed.checked_add(new_short_part) {
        Some(v) => v,
        None => {
            return Err(Errors::MathError);
        },
    };
    let new_net = match new_long.checked_add(new_short) {
        Some(v) => v,
        None => {
            return Err(Errors::MathError);
        },
    };

    let new_open_interest: u128 = if old_base == 0 && new_base != 0 {
        match market.open_interest.checked_add(1) {
            Some(v) => v,
            None => {
                return Err(Errors::MathError);
            },
        }
    } else if old_base != 0 && new_base == 0 {
        match market.open_interest.checked_sub(1) {
            Some(v) => v,
            None => {
                return Err(Errors::MathError);
            },
        }
    } else {
        market.open_interest
    };

    position.base_asset_amount = new_base;
    position.quote_asset_amount = new_quote;
    market.base_asset_amount_long = new_long;
    market.base_asset_amount_short = new_short;
    market.base_asset_amount = new_net;
    market.open_interest = new_open_interest;

    Ok(())
}

/// Settlement is idempotent: once a position's settled rate equals the
/// market's current rate, the pending payment is exactly zero, whatever
/// the position's size.
pub proof fn lemma_settlement_idempotent(position: MarketPosition, amm: AMM)
    requires
        position.last_cumulative_funding_rate == side_funding_rate(
            amm,
            position.base_asset_amount,
        ),
    ensures
        !settlement_due(position, amm),
        funding_payment_of(
            side_funding_rate(amm, position.base_asset_amount)
                - position.last_cumulative_funding_rate,
            position.base_asset_amount as int,
        ) == 0,
{
    lemma_div_basics(FUNDING_PRECISION as int);
    assert(funding_payment_of(0, position.base_asset_amount as int) == div_trunc(
        0 * position.base_asset_amount,
        FUNDING_PRECISION as int,
    ));
}

} // verus!
