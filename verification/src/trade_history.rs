//! Append-only history of fills against the automated market maker.

use vstd::prelude::*;

use crate::history::{next_id, HISTORY_CAPACITY};
use crate::ids::AccountKey;
use crate::position::PositionDirection;

verus! {

/// One entry of the log.
#[derive(Clone, Copy, Debug, PartialEq, Eq, Structural)]
pub struct TradeRecord {
    /// Timestamp of the trade.
    pub ts: i64,
    /// Market traded.
    pub market_index: u64,
    /// Log-lifetime-monotonic record id.
    pub record_id: u128,
    /// Authority that signed the trade.
    pub user_authority: AccountKey,
    /// Account that traded.
    pub user: AccountKey,
    /// Base amount traded.
    pub base_asset_amount: u128,
    /// Quote amount traded.
    pub quote_asset_amount: u128,
    /// Mark price before the trade.
    pub mark_price_before: u128,
    /// Mark price after the trade.
    pub mark_price_after: u128,
    /// Fee charged; negative values are rebates.
    pub fee: i128,
    /// Quote surplus kept by the market.
    pub quote_asset_amount_surplus: u128,
    /// Discount granted because the trader was referred.
    pub referee_discount: u128,
    /// Discount granted for discount-token holdings.
    pub token_discount: u128,
    /// Oracle price at trade time.
    pub oracle_price: i128,
    /// Whether the trade was a forced liquidation.
    pub liquidation: bool,
    /// Side of the trade.
    pub direction: PositionDirection,
}

impl TradeRecord {
    /// An empty slot, as a fresh log holds in every position.
    pub fn zeroed() -> (r: TradeRecord)
        ensures
            r.record_id == 0,
    {
        TradeRecord {
            ts: 0,
            market_index: 0,
            record_id: 0,
            user_authority: AccountKey { hi: 0, lo: 0 },
            user: AccountKey { hi: 0, lo: 0 },
            base_asset_amount: 0,
            quote_asset_amount: 0,
            mark_price_before: 0,
            mark_price_after: 0,
            fee: 0,
            quote_asset_amount_surplus: 0,
            referee_discount: 0,
            token_discount: 0,
            oracle_price: 0,
            liquidation: false,
            direction: PositionDirection::Long,
        }
    }
}

/// Fixed-capacity circular log of fills against the automated market maker. The head is the next slot to be
/// written; record ids increase forever, independent of wraparound.
pub struct TradeHistory {
    /// Next slot to be written.
    pub head: u64,
    /// The record slots.
    pub trade_record: Vec<TradeRecord>,
}

impl TradeHistory {
    /// Well-formedness: all slots allocated and the head in bounds.
    pub open spec fn wf(self) -> bool {
        self.head < 1024 && self.trade_record@.len() == 1024
    }

    /// The slot the next record will be written to.
    pub open spec fn spec_head(self) -> u64 {
        self.head
    }

    /// The stored records, by slot.
    pub open spec fn records(self) -> Seq<TradeRecord> {
        self.trade_record@
    }

    /// The stored record ids, by slot.
    pub open spec fn ids(self) -> Seq<u128> {
        self.trade_record@.map(|i: int, r: TradeRecord| r.record_id)
    }

    /// A fresh log: the head at slot zero and every slot zeroed.
    pub fn new() -> (r: TradeHistory)
        ensures
            r.wf(),
            r.spec_head() == 0,
            forall|i: int| 0 <= i < 1024 ==> r.ids()[i] == 0,
    {
        let mut records: Vec<TradeRecord> = Vec::new();
        let mut i: usize = 0;
        while i < 1024
            invariant
                i <= 1024,
                records@.len() == i,
                forall|k: int| 0 <= k < i ==> records@[k].record_id == 0,
            decreases 1024 - i,
        {
            records.push(TradeRecord::zeroed());
            i = i + 1;
        }
        TradeHistory { head: 0, trade_record: records }
    }

    /// Writes a record into the head slot and advances the head one slot,
    /// wrapping at the capacity.
    pub fn append(&mut self, trade_record: TradeRecord)
        requires
            old(self).wf(),
        ensures
            final(self).wf(),
            final(self).records() == old(self).records().update(
                old(self).spec_head() as int,
                trade_record,
            ),
            final(self).spec_head() == (old(self).spec_head() + 1) % 1024,
    {
        let idx = Self::index(self.head);
        self.trade_record[idx] = trade_record;
        self.head = (self.head + 1) % HISTORY_CAPACITY;
    }

    /// A head counter as a slot index.
    pub fn index(counter: u64) -> (r: usize)
        requires
            counter < 1024,
        ensures
            r == counter,
    {
        counter as usize
    }

    /// Reads one slot.
    pub fn record_at(&self, slot: usize) -> (r: &TradeRecord)
        requires
            self.wf(),
            slot < 1024,
        ensures
            r == self.records()[slot as int],
    {
        &self.trade_record[slot]
    }

    /// The id the next appended record receives: one more than the id of
    /// the most recently written record, wherever the head stands.
    pub fn next_record_id(&self) -> (r: u128)
        requires
            self.wf(),
            next_id(self.ids(), self.spec_head()) <= u128::MAX,
        ensures
            r == next_id(self.ids(), self.spec_head()),
    {
        let pre_record_id = if self.head == 0 { 1023 } else { self.head - 1 };
        let pre_record = &self.trade_record[Self::index(pre_record_id)];
        pre_record.record_id + 1
    }
}

} // verus!
