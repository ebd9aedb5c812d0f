//! Append-only history of adjustments of a market's pricing curve.

use vstd::prelude::*;

use crate::history::{next_id, HISTORY_CAPACITY};

verus! {

/// One entry of the log.
#[derive(Clone, Copy, Debug, PartialEq, Eq, Structural)]
pub struct CurveRecord {
    /// Timestamp of the adjustment.
    pub ts: i64,
    /// Market adjusted.
    pub market_index: u64,
    /// Log-lifetime-monotonic record id.
    pub record_id: u128,
    /// Peg multiplier before the adjustment.
    pub peg_multiplier_before: u128,
    /// Base reserve before the adjustment.
    pub base_asset_reserve_before: u128,
    /// Quote reserve before the adjustment.
    pub quote_asset_reserve_before: u128,
    /// Square root of the constant product before the adjustment.
    pub sqrt_k_before: u128,
    /// Peg multiplier after the adjustment.
    pub peg_multiplier_after: u128,
    /// Base reserve after the adjustment.
    pub base_asset_reserve_after: u128,
    /// Quote reserve after the adjustment.
    pub quote_asset_reserve_after: u128,
    /// Square root of the constant product after the adjustment.
    pub sqrt_k_after: u128,
    /// Long base exposure at the adjustment.
    pub base_asset_amount_long: u128,
    /// Short base exposure at the adjustment.
    pub base_asset_amount_short: u128,
    /// Net base exposure at the adjustment.
    pub base_asset_amount: i128,
    /// Open interest at the adjustment.
    pub open_interest: u128,
    /// Accumulated fees at the adjustment.
    pub total_fee: u128,
    /// Accumulated fees minus distributions at the adjustment.
    pub total_fee_minus_distributions: u128,
    /// Signed cost of the adjustment to the market.
    pub adjustment_cost: i128,
    /// Oracle price at the adjustment.
    pub oracle_price: i128,
    /// Trade record the adjustment belongs to.
    pub trade_record: u128,
}

impl CurveRecord {
    /// An empty slot, as a fresh log holds in every position.
    pub fn zeroed() -> (r: CurveRecord)
        ensures
            r.record_id == 0,
    {
        CurveRecord {
            ts: 0,
            market_index: 0,
            record_id: 0,
            peg_multiplier_before: 0,
            base_asset_reserve_before: 0,
            quote_asset_reserve_before: 0,
            sqrt_k_before: 0,
            peg_multiplier_after: 0,
            base_asset_reserve_after: 0,
            quote_asset_reserve_after: 0,
            sqrt_k_after: 0,
            base_asset_amount_long: 0,
            base_asset_amount_short: 0,
            base_asset_amount: 0,
            open_interest: 0,
            total_fee: 0,
            total_fee_minus_distributions: 0,
            adjustment_cost: 0,
            oracle_price: 0,
            trade_record: 0,
        }
    }
}

/// Fixed-capacity circular log of adjustments of a market's pricing curve. The head is the next slot to be
/// written; record ids increase forever, independent of wraparound.
pub struct CurveHistory {
    /// Next slot to be written.
    pub head: u64,
    /// The record slots.
    pub curve_records: Vec<CurveRecord>,
}

impl CurveHistory {
    /// Well-formedness: all slots allocated and the head in bounds.
    pub open spec fn wf(self) -> bool {
        self.head < 1024 && self.curve_records@.len() == 1024
    }

    /// The slot the next record will be written to.
    pub open spec fn spec_head(self) -> u64 {
        self.head
    }

    /// The stored records, by slot.
    pub open spec fn records(self) -> Seq<CurveRecord> {
        self.curve_records@
    }

    /// The stored record ids, by slot.
    pub open spec fn ids(self) -> Seq<u128> {
        self.curve_records@.map(|i: int, r: CurveRecord| r.record_id)
    }

    /// A fresh log: the head at slot zero and every slot zeroed.
    pub fn new() -> (r: CurveHistory)
        ensures
            r.wf(),
            r.spec_head() == 0,
            forall|i: int| 0 <= i < 1024 ==> r.ids()[i] == 0,
    {
        let mut records: Vec<CurveRecord> = Vec::new();
        let mut i: usize = 0;
        while i < 1024
            invariant
                i <= 1024,
                records@.len() == i,
                forall|k: int| 0 <= k < i ==> records@[k].record_id == 0,
            decreases 1024 - i,
        {
            records.push(CurveRecord::zeroed());
            i = i + 1;
        }
        CurveHistory { head: 0, curve_records: records }
    }

    /// Writes a record into the head slot and advances the head one slot,
    /// wrapping at the capacity.
    pub fn append(&mut self, curve_record: CurveRecord)
        requires
            old(self).wf(),
        ensures
            final(self).wf(),
            final(self).records() == old(self).records().update(
                old(self).spec_head() as int,
                curve_record,
            ),
            final(self).spec_head() == (old(self).spec_head() + 1) % 1024,
    {
        let idx = Self::index(self.head);
        self.curve_records[idx] = curve_record;
        self.head = (self.head + 1) % HISTORY_CAPACITY;
    }

    /// A head counter as a slot index.
    pub fn index(counter: u64) -> (r: usize)
        requires
            counter < 1024,
        ensures
            r == counter,
    {
        counter as usize
    }

    /// Reads one slot.
    pub fn record_at(&self, slot: usize) -> (r: &CurveRecord)
        requires
            self.wf(),
            slot < 1024,
        ensures
            r == self.records()[slot as int],
    {
        &self.curve_records[slot]
    }

    /// The id the next appended record receives: one more than the id of
    /// the most recently written record, wherever the head stands.
    pub fn next_record_id(&self) -> (r: u128)
        requires
            self.wf(),
            next_id(self.ids(), self.spec_head()) <= u128::MAX,
        ensures
            r == next_id(self.ids(), self.spec_head()),
    {
        let pre_record_id = if self.head == 0 { 1023 } else { self.head - 1 };
        let pre_record = &self.curve_records[Self::index(pre_record_id)];
        pre_record.record_id + 1
    }
}

} // verus!
