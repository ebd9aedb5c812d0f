//! Tests of the position ledger: slot capacity and funding settlement.

use clearing_house::errors::Errors;
use clearing_house::funding_payment_history::FundingPaymentHistory;
use clearing_house::ids::AccountKey;
use clearing_house::market::Market;
use clearing_house::position::{settle_funding_payment, update_position};
use clearing_house::user::{MarketPosition, User, UserPositions};

#[test]
fn sixth_market_hits_the_capacity_error() {
    let mut user_positions = UserPositions::new(AccountKey::new(0, 1));

    // Open a position in five distinct markets; each lands in the first
    // free slot.
    for market_index in 0..5u64 {
        let slot = user_positions.resolve_slot(market_index).unwrap();
        assert_eq!(slot, market_index as usize);
        user_positions.positions[slot].market_index = market_index;
        user_positions.positions[slot].base_asset_amount = 100;
    }

    // A sixth distinct market cannot be opened.
    assert_eq!(
        user_positions.resolve_slot(5),
        Err(Errors::MaxNumberOfPositions)
    );

    // Operations on a market already held keep finding its slot.
    assert_eq!(user_positions.resolve_slot(3).unwrap(), 3);

    // Closing one position frees its slot for the new market.
    user_positions.positions[2].base_asset_amount = 0;
    assert_eq!(user_positions.resolve_slot(5).unwrap(), 2);
}

#[test]
fn open_orders_hold_a_slot_open() {
    let mut user_positions = UserPositions::new(AccountKey::new(0, 2));
    user_positions.positions[0].market_index = 9;
    user_positions.positions[0].open_orders = 1;

    // The slot has no position, but its resting order keeps it bound to
    // market 9.
    assert_eq!(user_positions.resolve_slot(9).unwrap(), 0);
    // Another market skips it and takes the next free slot.
    assert_eq!(user_positions.resolve_slot(4).unwrap(), 1);
}

#[test]
fn available_slot_of_same_market_is_preferred() {
    let mut user_positions = UserPositions::new(AccountKey::new(0, 3));
    // Slot 0 is free; slot 1 is free and last held market 6.
    user_positions.positions[1].market_index = 6;
    assert_eq!(user_positions.resolve_slot(6).unwrap(), 1);
}

#[test]
fn funding_settles_against_the_rate_delta() {
    let authority = AccountKey::new(1, 1);
    let user_key = AccountKey::new(1, 2);
    let mut user = User::new(authority, AccountKey::new(1, 3));
    user.collateral = 1000;

    let mut amm = Market::zeroed().amm;
    amm.cumulative_funding_rate_long = 30_000;
    amm.last_funding_rate_ts = 777;

    let mut position = MarketPosition::zeroed();
    position.market_index = 7;
    position.base_asset_amount = 100;

    let mut history = FundingPaymentHistory::new();

    settle_funding_payment(&mut user, &mut position, &amm, 5, &mut history, user_key).unwrap();

    // payment = (30000 - 0) * 100 / 10000 = 300
    assert_eq!(user.collateral, 1300);
    assert_eq!(position.last_cumulative_funding_rate, 30_000);
    assert_eq!(position.last_funding_rate_ts, 777);

    let record = history.record_at(0);
    assert_eq!(record.record_id, 1);
    assert_eq!(record.funding_payment, 300);
    assert_eq!(record.market_index, 7);
    assert_eq!(record.base_asset_amount, 100);
    assert_eq!(record.user_last_cumulative_funding, 0);
}

#[test]
fn settling_twice_pays_zero_the_second_time() {
    let user_key = AccountKey::new(2, 2);
    let mut user = User::new(AccountKey::new(2, 1), AccountKey::new(2, 3));
    user.collateral = 500;

    let mut amm = Market::zeroed().amm;
    amm.cumulative_funding_rate_short = 20_000;

    let mut position = MarketPosition::zeroed();
    position.base_asset_amount = -50;

    let mut history = FundingPaymentHistory::new();

    settle_funding_payment(&mut user, &mut position, &amm, 1, &mut history, user_key).unwrap();
    // payment = (20000 - 0) * (-50) / 10000 = -100
    assert_eq!(user.collateral, 400);
    assert_eq!(history.next_record_id(), 2);

    let collateral_after_first = user.collateral;
    let position_after_first = position;

    // An immediate second settlement changes nothing and records nothing.
    settle_funding_payment(&mut user, &mut position, &amm, 2, &mut history, user_key).unwrap();
    assert_eq!(user.collateral, collateral_after_first);
    assert_eq!(position, position_after_first);
    assert_eq!(history.next_record_id(), 2);
}

#[test]
fn funding_charge_clamps_collateral_at_zero() {
    let user_key = AccountKey::new(3, 2);
    let mut user = User::new(AccountKey::new(3, 1), AccountKey::new(3, 3));
    user.collateral = 10;

    let mut amm = Market::zeroed().amm;
    amm.cumulative_funding_rate_long = 100_000;

    let mut position = MarketPosition::zeroed();
    position.base_asset_amount = -100;
    // A short position against the long rate: the side rate is the short
    // rate, still zero, so nothing is due.
    let mut history = FundingPaymentHistory::new();
    settle_funding_payment(&mut user, &mut position, &amm, 1, &mut history, user_key).unwrap();
    assert_eq!(user.collateral, 10);

    // A long position owes (100000 * 100 / 10000) = 1000, far more than
    // its collateral: the balance clamps at zero instead of wrapping.
    position.base_asset_amount = 100;
    let mut amm_charged = amm;
    amm_charged.cumulative_funding_rate_long = 0;
    amm_charged.cumulative_funding_rate_short = 0;
    position.last_cumulative_funding_rate = 100_000;
    // rate(0) - last(100000) = -100000; payment = -100000*100/10000 = -1000
    settle_funding_payment(
        &mut user,
        &mut position,
        &amm_charged,
        2,
        &mut history,
        user_key,
    )
    .unwrap();
    assert_eq!(user.collateral, 0);
}

#[test]
fn position_updates_keep_the_market_decomposition() {
    let mut market = Market::zeroed();
    let mut position = MarketPosition::zeroed();

    // Opening a long position counts it into the long side and the open
    // interest.
    update_position(&mut market, &mut position, 100, -4000).unwrap();
    assert_eq!(position.base_asset_amount, 100);
    assert_eq!(position.quote_asset_amount, -4000);
    assert_eq!(market.base_asset_amount_long, 100);
    assert_eq!(market.base_asset_amount_short, 0);
    assert_eq!(market.base_asset_amount, 100);
    assert_eq!(market.open_interest, 1);

    // Flipping through zero to a short position re-attributes the
    // exposure without double counting.
    update_position(&mut market, &mut position, -150, 6000).unwrap();
    assert_eq!(position.base_asset_amount, -50);
    assert_eq!(market.base_asset_amount_long, 0);
    assert_eq!(market.base_asset_amount_short, -50);
    assert_eq!(market.base_asset_amount, -50);
    assert_eq!(market.open_interest, 1);

    // Closing to zero frees the slot and the open-interest count.
    update_position(&mut market, &mut position, 50, -2000).unwrap();
    assert_eq!(position.base_asset_amount, 0);
    assert_eq!(position.quote_asset_amount, 0);
    assert_eq!(market.base_asset_amount, 0);
    assert_eq!(market.open_interest, 0);
    // The net amount always equals long plus short.
    assert_eq!(
        market.base_asset_amount,
        market.base_asset_amount_long + market.base_asset_amount_short
    );

    // Overflow fails loudly and changes nothing.
    position.base_asset_amount = i128::MAX;
    let before = market;
    assert_eq!(
        update_position(&mut market, &mut position, 1, 0),
        Err(Errors::MathError)
    );
    assert_eq!(market, before);
    assert_eq!(position.base_asset_amount, i128::MAX);
}
