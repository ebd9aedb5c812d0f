//! Tests of the market registry, global state, order engine, fees,
//! liquidation parameters, guard rails and oracle normalization.

use clearing_house::collateral::deposit_collateral;
use clearing_house::constants::{DEFAULT_FEE_NUMERATOR, MARK_PRICE_PRECISION};
use clearing_house::deposit_history::DepositHistory;
use clearing_house::errors::Errors;
use clearing_house::fees::{calculate_fee, calculate_filler_reward};
use clearing_house::ids::AccountKey;
use clearing_house::liquidation::{
    calculate_full_liquidation, calculate_partial_liquidation, select_liquidation_tier,
    LiquidationTier,
};
use clearing_house::market::{Market, Markets, OracleSource, PriceUpdate};
use clearing_house::order_history::{OrderAction, OrderHistory};
use clearing_house::order_state::OrderState;
use clearing_house::orders::{
    cancel_order, must_cancel_unfilled_ioc, place_order, trigger_condition_satisfied,
    validate_reduce_only, OrderParams,
};
use clearing_house::position::PositionDirection;
use clearing_house::state::{attach_order_state, initialize_history, initialize_state};
use clearing_house::user::User;
use clearing_house::user_initialization::{get_whitelist_token, initialize, WhitelistToken};
use clearing_house::user_orders::{
    OrderDiscountTier, OrderStatus, OrderTriggerCondition, OrderType,
};

fn key(n: u128) -> AccountKey {
    AccountKey::new(0, n)
}

fn default_state() -> clearing_house::state::State {
    initialize_state(
        key(1),
        key(2),
        key(3),
        key(4),
        250,
        key(5),
        key(6),
        251,
        key(7),
        false,
    )
}

#[test]
fn state_starts_with_documented_defaults() {
    let state = default_state();
    assert_eq!(state.admin, key(1));
    assert_eq!(state.margin_ratio_initial, 2000);
    assert_eq!(state.margin_ratio_partial, 500);
    assert_eq!(state.margin_ratio_maintenance, 625);
    assert_eq!(state.partial_liquidation_close_percentage_numerator, 25);
    assert_eq!(state.partial_liquidation_close_percentage_denominator, 100);
    assert_eq!(state.fee_structure.fee_numerator, DEFAULT_FEE_NUMERATOR);
    assert!(state.oracle_guard_rails.use_for_liquidations);
    assert!(state.order_state.is_zero());
    assert!(state.deposit_history.is_zero());
    assert!(!state.exchange_paused);
}

#[test]
fn histories_attach_exactly_once() {
    let mut state = default_state();
    initialize_history(&mut state, key(10), key(11), key(12), key(13), key(14), key(15)).unwrap();
    assert_eq!(state.trade_history, key(10));
    assert_eq!(state.curve_history, key(15));
    assert_eq!(
        initialize_history(&mut state, key(20), key(21), key(22), key(23), key(24), key(25)),
        Err(Errors::HistoriesAllInitialized)
    );
    // The failed second attachment changed nothing.
    assert_eq!(state.trade_history, key(10));
}

#[test]
fn order_state_attaches_exactly_once() {
    let mut state = default_state();
    attach_order_state(&mut state, key(30)).unwrap();
    assert_eq!(state.order_state, key(30));
    assert_eq!(
        attach_order_state(&mut state, key(31)),
        Err(Errors::OrderStateAlreadyInitialized)
    );
    assert_eq!(state.order_state, key(30));
}

#[test]
fn market_initialization_validates_then_commits() {
    let mut markets = Markets::new();
    markets
        .initialize_market(
            3,
            1000,
            1000,
            3600,
            1000,
            OracleSource::Pyth,
            key(40),
            7 * MARK_PRICE_PRECISION as i128,
            6 * MARK_PRICE_PRECISION as i128,
            12345,
            300,
            250,
            200,
        )
        .unwrap();

    let market = markets.get_market(3).unwrap();
    assert!(market.is_initialized());
    assert_eq!(market.amm.base_asset_reserve, 1000);
    assert_eq!(market.amm.quote_asset_reserve, 1000);
    assert_eq!(market.amm.sqrt_k, 1000);
    assert_eq!(market.amm.peg_multiplier, 1000);
    assert_eq!(market.amm.funding_period, 3600);
    assert_eq!(market.amm.last_mark_price_twap, MARK_PRICE_PRECISION);
    assert_eq!(market.amm.last_mark_price_twap_ts, 12345);
    assert_eq!(
        market.amm.last_oracle_price,
        7 * MARK_PRICE_PRECISION as i128
    );
    assert_eq!(market.margin_ratio_initial, 300);

    // Untouched slots stay uninitialized.
    assert!(!markets.get_market(0).unwrap().is_initialized());

    // Mutable lookup is bounds-checked the same way.
    markets.get_market_mut(3).unwrap().amm.peg_multiplier = 2000;
    assert_eq!(markets.get_market(3).unwrap().amm.peg_multiplier, 2000);
    assert!(markets.get_market_mut(64).is_err());
    assert!(matches!(markets.get_market(64), Err(Errors::InvalidMarketIndex)));
}

#[test]
fn market_initialization_rejects_bad_requests() {
    let mut markets = Markets::new();
    let ok = markets.initialize_market(
        1,
        1000,
        1000,
        60,
        1000,
        OracleSource::Pyth,
        key(41),
        0,
        0,
        0,
        300,
        250,
        200,
    );
    assert!(ok.is_ok());

    // The same index cannot be initialized twice.
    assert_eq!(
        markets.initialize_market(
            1, 1000, 1000, 60, 1000, OracleSource::Pyth, key(41), 0, 0, 0, 300, 250, 200,
        ),
        Err(Errors::MarketIndexAlreadyInitialized)
    );
    // The registry holds sixty-four slots.
    assert_eq!(
        markets.initialize_market(
            64, 1000, 1000, 60, 1000, OracleSource::Pyth, key(41), 0, 0, 0, 300, 250, 200,
        ),
        Err(Errors::InvalidMarketIndex)
    );
    // Genesis reserves must match 1:1.
    assert_eq!(
        markets.initialize_market(
            2, 1000, 999, 60, 1000, OracleSource::Pyth, key(41), 0, 0, 0, 300, 250, 200,
        ),
        Err(Errors::InvalidInitialPeg)
    );
    // Empty reserves cannot be priced.
    assert_eq!(
        markets.initialize_market(
            2, 0, 0, 60, 1000, OracleSource::Pyth, key(41), 0, 0, 0, 300, 250, 200,
        ),
        Err(Errors::MathError)
    );
    // A reserve product of 2^192 overflows the wide kernel.
    let big = 1u128 << 96;
    assert_eq!(
        markets.initialize_market(
            2, big, big, 60, 1000, OracleSource::Pyth, key(41), 0, 0, 0, 300, 250, 200,
        ),
        Err(Errors::MathError)
    );
    // An out-of-order margin triple is rejected.
    assert_eq!(
        markets.initialize_market(
            2, 1000, 1000, 60, 1000, OracleSource::Pyth, key(41), 0, 0, 0, 300, 200, 250,
        ),
        Err(Errors::InvalidMarginRatio)
    );
    // None of the failures touched slot 2.
    assert!(!markets.get_market(2).unwrap().is_initialized());
}

#[test]
fn mark_price_reads_the_live_reserves() {
    let mut market = Market::zeroed();
    market.amm.base_asset_reserve = 1000;
    market.amm.quote_asset_reserve = 3000;
    market.amm.peg_multiplier = 1000;
    assert_eq!(market.amm.mark_price().unwrap(), 3 * MARK_PRICE_PRECISION);
}

#[test]
fn pyth_readings_scale_to_mark_precision() {
    let amm = Market::zeroed().amm;
    // An 8-decimal feed is lifted by 100.
    let update = PriceUpdate {
        price: 2_500_000_000,
        conf: 4_000,
        exponent: -8,
        ema_price: 2_400_000_000,
        posted_slot: 90,
    };
    let data = amm.get_pyth_price(&update, 100).unwrap();
    assert_eq!(data.price, 250_000_000_000);
    assert_eq!(data.confidence, 400_000);
    assert_eq!(data.delay, 10);
    assert!(data.has_sufficient_number_of_data_points);

    // A 12-decimal feed is lowered by 100, truncating toward zero.
    let fine = PriceUpdate {
        price: 123_456,
        conf: 199,
        exponent: -12,
        ema_price: -123_456,
        posted_slot: 5,
    };
    let fine_data = amm.get_pyth_price(&fine, 5).unwrap();
    assert_eq!(fine_data.price, 1234);
    assert_eq!(fine_data.confidence, 1);
    assert_eq!(fine_data.delay, 0);
    // The EMA price scales the same way, keeping its sign.
    assert_eq!(amm.get_pyth_ema_price(&fine).unwrap(), -1234);
}

#[test]
fn placing_orders_assigns_increasing_ids() {
    let order_state = OrderState::new(key(50));
    let mut history = OrderHistory::new();
    let params = OrderParams {
        order_type: OrderType::Limit,
        direction: PositionDirection::Long,
        user_order_id: 9,
        reduce_only: false,
        post_only: false,
        immediate_or_cancel: false,
        trigger_condition: OrderTriggerCondition::Above,
        market_index: 2,
        price: 41 * MARK_PRICE_PRECISION,
        quote_asset_amount: 600_000,
        base_asset_amount: 700,
        trigger_price: 0,
        referrer: key(0),
        oracle_price_offset: 0,
    };

    let order = place_order(
        &order_state,
        &mut history,
        &params,
        OrderDiscountTier::First,
        key(51),
        key(52),
        1000,
    )
    .unwrap();
    assert_eq!(order.order_id, 1);
    assert!(matches!(order.status, OrderStatus::Open));
    assert!(matches!(order.discount_tier, OrderDiscountTier::First));
    assert_eq!(order.quote_asset_amount, 600_000);
    assert_eq!(order.base_asset_amount_filled, 0);

    let second = place_order(
        &order_state,
        &mut history,
        &params,
        OrderDiscountTier::NoDiscount,
        key(51),
        key(52),
        1001,
    )
    .unwrap();
    assert_eq!(second.order_id, 2);
    assert_eq!(history.last_order_id, 2);

    let record = history.record_at(0);
    assert!(matches!(record.action, OrderAction::Place));
    assert_eq!(record.record_id, 1);
    assert_eq!(record.order.order_id, 1);

    // Canceling frees the slot; only the log keeps the order's final form.
    let mut open_order = second;
    cancel_order(
        &mut open_order,
        &mut history,
        OrderAction::Cancel,
        key(51),
        key(52),
        1002,
    );
    assert!(matches!(open_order.status, OrderStatus::Init));
    assert_eq!(open_order.order_id, 0);
    let cancel_record = history.record_at(2);
    assert!(matches!(cancel_record.action, OrderAction::Cancel));
    assert_eq!(cancel_record.record_id, 3);
    assert_eq!(cancel_record.order.order_id, 2);
}

#[test]
fn orders_below_the_minimum_notional_are_rejected() {
    let order_state = OrderState::new(key(50));
    let mut history = OrderHistory::new();
    let params = OrderParams {
        order_type: OrderType::Market,
        direction: PositionDirection::Short,
        user_order_id: 0,
        reduce_only: false,
        post_only: false,
        immediate_or_cancel: false,
        trigger_condition: OrderTriggerCondition::Below,
        market_index: 0,
        price: 0,
        quote_asset_amount: 499_999,
        base_asset_amount: 1,
        trigger_price: 0,
        referrer: key(0),
        oracle_price_offset: 0,
    };
    assert_eq!(
        place_order(
            &order_state,
            &mut history,
            &params,
            OrderDiscountTier::NoDiscount,
            key(51),
            key(52),
            0,
        ),
        Err(Errors::OrderAmountTooSmall)
    );
    assert_eq!(history.last_order_id, 0);
}

#[test]
fn fees_split_into_discounts_and_rewards() {
    let state = default_state();
    // 1_000_000 quote at 10 / 10_000 is a fee of 1000.
    let plain = calculate_fee(
        1_000_000,
        &state.fee_structure,
        OrderDiscountTier::NoDiscount,
        false,
    )
    .unwrap();
    assert_eq!(plain.user_fee, 1000);
    assert_eq!(plain.token_discount, 0);
    assert_eq!(plain.referral_reward, 0);
    assert_eq!(plain.referee_discount, 0);

    // The deepest tier halves the fee.
    let fourth = calculate_fee(
        1_000_000,
        &state.fee_structure,
        OrderDiscountTier::Fourth,
        false,
    )
    .unwrap();
    assert_eq!(fourth.token_discount, 500);
    assert_eq!(fourth.user_fee, 500);

    // A referred trader pays 5% less and the referrer earns 5%.
    let referred = calculate_fee(
        1_000_000,
        &state.fee_structure,
        OrderDiscountTier::NoDiscount,
        true,
    )
    .unwrap();
    assert_eq!(referred.referee_discount, 50);
    assert_eq!(referred.referral_reward, 50);
    assert_eq!(referred.user_fee, 950);
}

#[test]
fn filler_reward_respects_the_time_based_floor() {
    let order_state = OrderState::new(key(50));
    let structure = order_state.order_filler_reward_structure;
    // A tenth of a 1000 fee is below the one-cent floor.
    assert_eq!(calculate_filler_reward(1000, true, &structure).unwrap(), 10_000);
    // Without time-based eligibility the share stands as computed.
    assert_eq!(calculate_filler_reward(1000, false, &structure).unwrap(), 100);
    // A large fee clears the floor on its own.
    assert_eq!(
        calculate_filler_reward(1_000_000, true, &structure).unwrap(),
        100_000
    );
}

#[test]
fn liquidation_tier_follows_the_thresholds() {
    assert!(matches!(
        select_liquidation_tier(625, 500, 625),
        LiquidationTier::Full
    ));
    assert!(matches!(
        select_liquidation_tier(200, 500, 625),
        LiquidationTier::Full
    ));
    assert!(matches!(
        select_liquidation_tier(400, 500, 300),
        LiquidationTier::Partial
    ));
    assert!(matches!(
        select_liquidation_tier(501, 500, 300),
        LiquidationTier::NotEligible
    ));
}

#[test]
fn partial_liquidation_closes_a_quarter() {
    let state = default_state();
    let split = calculate_partial_liquidation(1000, 10_000, &state).unwrap();
    assert_eq!(split.base_asset_amount_closed, 250);
    // penalty = 10_000 * 25 / 1000 = 250, split evenly at denominator 2.
    assert_eq!(split.liquidation_fee, 250);
    assert_eq!(split.fee_to_liquidator, 125);
    assert_eq!(split.fee_to_insurance_fund, 125);

    // A short position closes with its own sign.
    let short = calculate_partial_liquidation(-1000, 10_000, &state).unwrap();
    assert_eq!(short.base_asset_amount_closed, -250);
}

#[test]
fn full_liquidation_closes_everything() {
    let state = default_state();
    let split = calculate_full_liquidation(-800, 10_000, &state).unwrap();
    assert_eq!(split.base_asset_amount_closed, -800);
    // penalty = the whole collateral; the liquidator takes a twentieth.
    assert_eq!(split.liquidation_fee, 10_000);
    assert_eq!(split.fee_to_liquidator, 500);
    assert_eq!(split.fee_to_insurance_fund, 9_500);
}

#[test]
fn guard_rails_gate_oracle_readings() {
    let state = default_state();
    let rails = state.oracle_guard_rails;
    let mark_price = 100 * MARK_PRICE_PRECISION;
    let fresh = clearing_house::market::OraclePriceData {
        price: (100 * MARK_PRICE_PRECISION) as i128,
        confidence: 1,
        delay: 5,
        has_sufficient_number_of_data_points: true,
    };
    assert!(rails.oracle_usable_for_liquidation(&fresh, mark_price));

    // Stale by one slot past the limit.
    let mut stale = fresh;
    stale.delay = 1001;
    assert!(!rails.oracle_usable_for_liquidation(&stale, mark_price));

    // Confidence interval too wide.
    let mut wide = fresh;
    wide.confidence = 5;
    assert!(!rails.oracle_usable_for_liquidation(&wide, mark_price));

    // Mark price diverging more than a tenth from the oracle.
    let mut diverged = fresh;
    diverged.price = ((100 * MARK_PRICE_PRECISION) / 2) as i128;
    assert!(!rails.oracle_usable_for_liquidation(&diverged, mark_price));

    // A non-positive price is never usable while the rails are on.
    let mut negative = fresh;
    negative.price = -1;
    assert!(!rails.oracle_usable_for_liquidation(&negative, mark_price));

    // With the rails off, everything passes.
    let mut off = rails;
    off.use_for_liquidations = false;
    assert!(off.oracle_usable_for_liquidation(&stale, mark_price));
}

#[test]
fn whitelist_gates_user_creation() {
    let authority = key(60);
    let mint = key(61);

    // No whitelist configured: anyone may join.
    let (user, positions) = initialize(key(0), None, authority, key(62), key(63)).unwrap();
    assert_eq!(user.authority, authority);
    assert_eq!(user.positions, key(63));
    assert_eq!(user.collateral, 0);
    assert_eq!(positions.user, key(62));
    assert!(positions.positions.iter().all(|p| p.base_asset_amount == 0));

    // Whitelist configured but no token supplied.
    assert!(matches!(
        initialize(mint, None, authority, key(62), key(63)),
        Err(Errors::FailToFindWhitelistToken)
    ));
    // A token owned by someone else.
    let foreign = WhitelistToken {
        mint,
        owner: key(99),
        amount: 5,
    };
    assert!(matches!(
        initialize(mint, Some(foreign), authority, key(62), key(63)),
        Err(Errors::InvalidWhitelistToken)
    ));
    // A token with no balance.
    let empty = WhitelistToken {
        mint,
        owner: authority,
        amount: 0,
    };
    assert!(matches!(
        initialize(mint, Some(empty), authority, key(62), key(63)),
        Err(Errors::WhitelistTokenNoBalance)
    ));
    // A valid token.
    let good = WhitelistToken {
        mint,
        owner: authority,
        amount: 1,
    };
    assert!(initialize(mint, Some(good), authority, key(62), key(63)).is_ok());
}

#[test]
fn whitelist_token_resolution() {
    let mint = key(70);
    // Not claiming a token resolves to nothing.
    assert_eq!(get_whitelist_token(false, &vec![], &mint).unwrap(), None);
    // Claiming one but supplying none fails.
    assert_eq!(
        get_whitelist_token(true, &vec![], &mint),
        Err(Errors::FailToFindWhitelistToken)
    );
    // A token of another mint fails.
    let wrong = WhitelistToken {
        mint: key(71),
        owner: key(72),
        amount: 3,
    };
    assert_eq!(
        get_whitelist_token(true, &vec![wrong], &mint),
        Err(Errors::InvalidWhitelistToken)
    );
    // The matching token resolves.
    let right = WhitelistToken {
        mint,
        owner: key(72),
        amount: 3,
    };
    assert_eq!(
        get_whitelist_token(true, &vec![right], &mint).unwrap(),
        Some(right)
    );
}

#[test]
fn deposits_credit_and_record() {
    let mut user = User::new(key(80), key(81));
    let mut history = DepositHistory::new();
    deposit_collateral(&mut user, 750, 99, &mut history, key(82)).unwrap();
    assert_eq!(user.collateral, 750);
    assert_eq!(user.cumulative_deposits, 750);

    let record = history.record_at(0);
    assert_eq!(record.record_id, 1);
    assert_eq!(record.amount, 750);
    assert_eq!(record.collateral_before, 0);
    assert_eq!(record.cumulative_deposits_before, 0);

    // A second deposit records the balances before it.
    deposit_collateral(&mut user, 250, 100, &mut history, key(82)).unwrap();
    assert_eq!(user.collateral, 1000);
    assert_eq!(history.record_at(1).collateral_before, 750);

    // Overflow fails loudly and changes nothing.
    let mut rich = User::new(key(83), key(84));
    rich.collateral = u128::MAX;
    assert_eq!(
        deposit_collateral(&mut rich, 1, 101, &mut history, key(85)),
        Err(Errors::MathError)
    );
    assert_eq!(rich.collateral, u128::MAX);
}

#[test]
fn reduce_only_orders_cannot_grow_exposure() {
    // A long position shrinks only through short orders within its size.
    assert!(validate_reduce_only(PositionDirection::Short, 50, 100).is_ok());
    assert!(validate_reduce_only(PositionDirection::Short, 100, 100).is_ok());
    assert_eq!(
        validate_reduce_only(PositionDirection::Short, 101, 100),
        Err(Errors::ReduceOnlyOrderIncreasedRisk)
    );
    assert_eq!(
        validate_reduce_only(PositionDirection::Long, 50, 100),
        Err(Errors::ReduceOnlyOrderIncreasedRisk)
    );
    // A short position shrinks only through long orders within its size.
    assert!(validate_reduce_only(PositionDirection::Long, 70, -70).is_ok());
    assert_eq!(
        validate_reduce_only(PositionDirection::Short, 10, -70),
        Err(Errors::ReduceOnlyOrderIncreasedRisk)
    );
    // A flat position has nothing to reduce.
    assert_eq!(
        validate_reduce_only(PositionDirection::Short, 1, 0),
        Err(Errors::ReduceOnlyOrderIncreasedRisk)
    );
}

#[test]
fn trigger_conditions_compare_strictly() {
    assert!(trigger_condition_satisfied(
        OrderTriggerCondition::Above,
        100,
        101
    ));
    assert!(!trigger_condition_satisfied(
        OrderTriggerCondition::Above,
        100,
        100
    ));
    assert!(trigger_condition_satisfied(
        OrderTriggerCondition::Below,
        100,
        99
    ));
    assert!(!trigger_condition_satisfied(
        OrderTriggerCondition::Below,
        100,
        100
    ));
}

#[test]
fn unfilled_ioc_orders_must_cancel() {
    let mut order = clearing_house::user_orders::Order::zeroed();
    order.immediate_or_cancel = true;
    order.base_asset_amount = 100;
    assert!(must_cancel_unfilled_ioc(&order, 99));
    assert!(!must_cancel_unfilled_ioc(&order, 100));
    order.immediate_or_cancel = false;
    assert!(!must_cancel_unfilled_ioc(&order, 0));
}
