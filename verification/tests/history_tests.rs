//! Tests of the circular history logs and their record-id discipline.

use clearing_house::deposit_history::{DepositDirection, DepositHistory, DepositRecord};
use clearing_house::funding_rate_history::{FundingRateHistory, FundingRateRecord};
use clearing_house::ids::AccountKey;
use clearing_house::order_history::{OrderAction, OrderHistory, OrderRecord};

#[test]
fn record_ids_increase_across_wraparound() {
    let mut history = DepositHistory::new();
    assert_eq!(history.next_record_id(), 1);

    for _ in 0..1025u32 {
        let id = history.next_record_id();
        let mut record = DepositRecord::zeroed();
        record.record_id = id;
        history.append(record);
        // Each append advances the next id by exactly one.
        assert_eq!(history.next_record_id(), id + 1);
    }

    // After 1025 appends the buffer has wrapped: slot 0 was overwritten
    // by the record with id 1025, and ids keep counting.
    assert_eq!(history.record_at(0).record_id, 1025);
    assert_eq!(history.record_at(1).record_id, 2);
    assert_eq!(history.next_record_id(), 1026);
}

#[test]
fn appends_land_at_the_head() {
    let mut history = FundingRateHistory::new();
    let mut record = FundingRateRecord::zeroed();
    record.record_id = history.next_record_id();
    record.market_index = 3;
    record.funding_rate = -42;
    history.append(record);

    assert_eq!(history.record_at(0).record_id, 1);
    assert_eq!(history.record_at(0).market_index, 3);
    assert_eq!(history.record_at(0).funding_rate, -42);
    // The other slots still hold their zeroed records.
    assert_eq!(history.record_at(1).record_id, 0);
}

#[test]
fn order_ids_count_independently_of_record_ids() {
    let mut history = OrderHistory::new();
    assert_eq!(history.last_order_id, 0);
    assert_eq!(history.next_order_id(), 1);
    assert_eq!(history.next_order_id(), 2);
    assert_eq!(history.next_order_id(), 3);
    assert_eq!(history.last_order_id, 3);
    // Assigning order ids leaves record ids untouched.
    assert_eq!(history.next_record_id(), 1);

    let mut record = OrderRecord::zeroed();
    record.record_id = history.next_record_id();
    record.user = AccountKey::new(1, 2);
    history.append(record);
    assert_eq!(history.next_record_id(), 2);
    assert_eq!(history.last_order_id, 3);
}

#[test]
fn deposit_records_keep_their_direction() {
    let record = DepositRecord::zeroed();
    assert!(matches!(record.direction, DepositDirection::Deposit));
}
