//! Append-only history of forced reductions of undercollateralized positions.

use vstd::prelude::*;

use crate::history::{next_id, HISTORY_CAPACITY};
use crate::ids::AccountKey;

verus! {

/// One entry of the log.
#[derive(Clone, Copy, Debug, PartialEq, Eq, Structural)]
pub struct LiquidationRecord {
    /// Log-lifetime-monotonic record id.
    pub record_id: u128,
    /// Authority of the liquidated account.
    pub user_authority: AccountKey,
    /// Account that was liquidated.
    pub user: AccountKey,
    /// Account that performed the liquidation.
    pub liquidator: AccountKey,
    /// Value of the position before liquidation.
    pub base_asset_value: u128,
    /// Value of the position that was closed.
    pub base_asset_value_closed: u128,
    /// Total penalty charged.
    pub liquidation_fee: u128,
    /// Share of the penalty paid to the liquidator.
    pub fee_to_liquidator: u64,
    /// Share of the penalty paid to the insurance fund.
    pub fee_to_insurance_fund: u64,
    /// Total collateral before liquidation.
    pub total_collateral: u128,
    /// Collateral taken by the liquidation.
    pub collateral: u128,
    /// Unrealized profit and loss before liquidation.
    pub unrealized_pnl: i128,
    /// Margin ratio that made the account eligible.
    pub margin_ratio: u128,
    /// Timestamp of the liquidation.
    pub ts: i64,
    /// Whether the liquidation was partial rather than full.
    pub partial: bool,
}

impl LiquidationRecord {
    /// An empty slot, as a fresh log holds in every position.
    pub fn zeroed() -> (r: LiquidationRecord)
        ensures
            r.record_id == 0,
    {
        LiquidationRecord {
            record_id: 0,
            user_authority: AccountKey { hi: 0, lo: 0 },
            user: AccountKey { hi: 0, lo: 0 },
            liquidator: AccountKey { hi: 0, lo: 0 },
            base_asset_value: 0,
            base_asset_value_closed: 0,
            liquidation_fee: 0,
            fee_to_liquidator: 0,
            fee_to_insurance_fund: 0,
            total_collateral: 0,
            collateral: 0,
            unrealized_pnl: 0,
            margin_ratio: 0,
            ts: 0,
            partial: false,
        }
    }
}

/// Fixed-capacity circular log of forced reductions of undercollateralized positions. The head is the next slot to be
/// written; record ids increase forever, independent of wraparound.
pub struct LiquidationHistory {
    /// Next slot to be written.
    pub head: u64,
    /// The record slots.
    pub liquidation_records: Vec<LiquidationRecord>,
}

impl LiquidationHistory {
    /// Well-formedness: all slots allocated and the head in bounds.
    pub open spec fn wf(self) -> bool {
        self.head < 1024 && self.liquidation_records@.len() == 1024
    }

    /// The slot the next record will be written to.
    pub open spec fn spec_head(self) -> u64 {
        self.head
    }

    /// The stored records, by slot.
    pub open spec fn records(self) -> Seq<LiquidationRecord> {
        self.liquidation_records@
    }

    /// The stored record ids, by slot.
    pub open spec fn ids(self) -> Seq<u128> {
        self.liquidation_records@.map(|i: int, r: LiquidationRecord| r.record_id)
    }

    /// A fresh log: the head at slot zero and every slot zeroed.
    pub fn new() -> (r: LiquidationHistory)
        ensures
            r.wf(),
            r.spec_head() == 0,
            forall|i: int| 0 <= i < 1024 ==> r.ids()[i] == 0,
    {
        let mut records: Vec<LiquidationRecord> = Vec::new();
        let mut i: usize = 0;
        while i < 1024
            invariant
                i <= 1024,
                records@.len() == i,
                forall|k: int| 0 <= k < i ==> records@[k].record_id == 0,
            decreases 1024 - i,
        {
            records.push(LiquidationRecord::zeroed());
            i = i + 1;
        }
        LiquidationHistory { head: 0, liquidation_records: records }
    }

    /// Writes a record into the head slot and advances the head one slot,
    /// wrapping at the capacity.
    pub fn append(&mut self, liquidation_record: LiquidationRecord)
        requires
            old(self).wf(),
        ensures
            final(self).wf(),
            final(self).records() == old(self).records().update(
                old(self).spec_head() as int,
                liquidation_record,
            ),
            final(self).spec_head() == (old(self).spec_head() + 1) % 1024,
    {
        let idx = Self::index(self.head);
        self.liquidation_records[idx] = liquidation_record;
        self.head = (self.head + 1) % HISTORY_CAPACITY;
    }

    /// A head counter as a slot index.
    pub fn index(counter: u64) -> (r: usize)
        requires
            counter < 1024,
        ensures
            r == counter,
    {
        counter as usize
    }

    /// Reads one slot.
    pub fn record_at(&self, slot: usize) -> (r: &LiquidationRecord)
        requires
            self.wf(),
            slot < 1024,
        ensures
            r == self.records()[slot as int],
    {
        &self.liquidation_records[slot]
    }

    /// The id the next appended record receives: one more than the id of
    /// the most recently written record, wherever the head stands.
    pub fn next_record_id(&self) -> (r: u128)
        requires
            self.wf(),
            next_id(self.ids(), self.spec_head()) <= u128::MAX,
        ensures
            r == next_id(self.ids(), self.spec_head()),
    {
        let pre_record_id = if self.head == 0 { 1023 } else { self.head - 1 };
        let pre_record = &self.liquidation_records[Self::index(pre_record_id)];
        pre_record.record_id + 1
    }
}

} // verus!
