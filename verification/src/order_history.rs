//! Append-only history of order lifecycle events.
//!
//! Besides its record ids, this log owns the user-facing order-id counter:
//! order ids form their own strictly increasing sequence, separate from
//! the internal audit record ids.

use vstd::prelude::*;

use crate::history::{next_id, HISTORY_CAPACITY};
use crate::ids::AccountKey;
use crate::user_orders::Order;

verus! {

/// What happened to an order.
#[derive(Clone, Copy, Debug, PartialEq, Eq, Structural)]
pub enum OrderAction {
    /// The order was placed.
    Place,
    /// The order was canceled.
    Cancel,
    /// The order was filled.
    Fill,
    /// The order expired.
    Expire,
}

/// One entry of the log.
#[derive(Clone, Copy, Debug, PartialEq, Eq, Structural)]
pub struct OrderRecord {
    /// Timestamp of the event.
    pub ts: i64,
    /// What happened to the order.
    pub action: OrderAction,
    /// Log-lifetime-monotonic record id.
    pub record_id: u128,
    /// Account that owns the order.
    pub user: AccountKey,
    /// Authority that signed the event.
    pub authority: AccountKey,
    /// The order as it stood at the event.
    pub order: Order,
    /// Account that filled the order, or the zero key.
    pub filler: AccountKey,
    /// Trade record the fill belongs to.
    pub trade_record_id: u128,
    /// Base amount filled by the event.
    pub base_asset_amount_filled: u128,
    /// Quote amount filled by the event.
    pub quote_asset_amount_filled: u128,
    /// Fee charged by the event; negative values are rebates.
    pub fee: i128,
    /// Reward paid to the filler.
    pub filler_reward: u128,
    /// Quote surplus kept by the market.
    pub quote_asset_amount_surplus: u128,
}

impl OrderRecord {
    /// An empty slot, as a fresh log holds in every position.
    pub fn zeroed() -> (r: OrderRecord)
        ensures
            r.record_id == 0,
    {
        OrderRecord {
            ts: 0,
            action: OrderAction::Place,
            record_id: 0,
            user: AccountKey { hi: 0, lo: 0 },
            authority: AccountKey { hi: 0, lo: 0 },
            order: Order::zeroed(),
            filler: AccountKey { hi: 0, lo: 0 },
            trade_record_id: 0,
            base_asset_amount_filled: 0,
            quote_asset_amount_filled: 0,
            fee: 0,
            filler_reward: 0,
            quote_asset_amount_surplus: 0,
        }
    }
}

/// Fixed-capacity circular log of order events. The head is the next slot
/// to be written; record ids increase forever, independent of wraparound.
pub struct OrderHistory {
    /// Next slot to be written.
    pub head: u64,
    /// Most recently assigned user-facing order id.
    pub last_order_id: u128,
    /// The record slots.
    pub order_records: Vec<OrderRecord>,
}

impl OrderHistory {
    /// Well-formedness: all slots allocated and the head in bounds.
    pub open spec fn wf(self) -> bool {
        self.head < 1024 && self.order_records@.len() == 1024
    }

    /// The slot the next record will be written to.
    pub open spec fn spec_head(self) -> u64 {
        self.head
    }

    /// The stored records, by slot.
    pub open spec fn records(self) -> Seq<OrderRecord> {
        self.order_records@
    }

    /// The stored record ids, by slot.
    pub open spec fn ids(self) -> Seq<u128> {
        self.order_records@.map(|i: int, r: OrderRecord| r.record_id)
    }

    /// A fresh log: the head at slot zero, no order id assigned yet, and
    /// every slot zeroed.
    pub fn new() -> (r: OrderHistory)
        ensures
            r.wf(),
            r.spec_head() == 0,
            r.last_order_id == 0,
            forall|i: int| 0 <= i < 1024 ==> r.ids()[i] == 0,
    {
        let mut records: Vec<OrderRecord> = Vec::new();
        let mut i: usize = 0;
        while i < 1024
            invariant
                i <= 1024,
                records@.len() == i,
                forall|k: int| 0 <= k < i ==> records@[k].record_id == 0,
            decreases 1024 - i,
        {
            records.push(OrderRecord::zeroed());
            i = i + 1;
        }
        OrderHistory { head: 0, last_order_id: 0, order_records: records }
    }

    /// Writes a record into the head slot and advances the head one slot,
    /// wrapping at the capacity.
    pub fn append(&mut self, order_record: OrderRecord)
        requires
            old(self).wf(),
        ensures
            final(self).wf(),
            final(self).records() == old(self).records().update(
                old(self).spec_head() as int,
                order_record,
            ),
            final(self).spec_head() == (old(self).spec_head() + 1) % 1024,
            final(self).last_order_id == old(self).last_order_id,
    {
        let idx = Self::index(self.head);
        self.order_records[idx] = order_record;
        self.head = (self.head + 1) % HISTORY_CAPACITY;
    }

    /// A head counter as a slot index.
    pub fn index(counter: u64) -> (r: usize)
        requires
            counter < 1024,
        ensures
            r == counter,
    {
        counter as usize
    }

    /// Reads one slot.
    pub fn record_at(&self, slot: usize) -> (r: &OrderRecord)
        requires
            self.wf(),
            slot < 1024,
        ensures
            r == self.records()[slot as int],
    {
        &self.order_records[slot]
    }

    /// The id the next appended record receives: one more than the id of
    /// the most recently written record, wherever the head stands.
    pub fn next_record_id(&self) -> (r: u128)
        requires
            self.wf(),
            next_id(self.ids(), self.spec_head()) <= u128::MAX,
        ensures
            r == next_id(self.ids(), self.spec_head()),
    {
        let pre_record_id = if self.head == 0 {
            1023
        } else {
            self.head - 1
        };
        let pre_record = &self.order_records[Self::index(pre_record_id)];
        pre_record.record_id + 1
    }

    /// Assigns the next user-facing order id: the counter advances by one
    /// on every call, so order ids strictly increase.
    pub fn next_order_id(&mut self) -> (r: u128)
        requires
            old(self).last_order_id < u128::MAX,
        ensures
            r == old(self).last_order_id + 1,
            final(self).last_order_id == r,
            final(self).records() == old(self).records(),
            final(self).spec_head() == old(self).spec_head(),
    {
        let next_order_id = self.last_order_id + 1;
        self.last_order_id = next_order_id;
        next_order_id
    }
}

} // verus!
