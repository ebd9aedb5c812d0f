//! Append-only history of per-market funding-rate updates.

use vstd::prelude::*;

use crate::history::{next_id, HISTORY_CAPACITY};

verus! {

/// One entry of the log.
#[derive(Clone, Copy, Debug, PartialEq, Eq, Structural)]
pub struct FundingRateRecord {
    /// Timestamp of the update.
    pub ts: i64,
    /// Market updated.
    pub market_index: u64,
    /// Log-lifetime-monotonic record id.
    pub record_id: u128,
    /// Funding rate set by the update.
    pub funding_rate: i128,
    /// Cumulative long funding rate after the update.
    pub cumulative_funding_rate_long: i128,
    /// Cumulative short funding rate after the update.
    pub cumulative_funding_rate_short: i128,
    /// Oracle price TWAP at the update.
    pub oracle_price_twap: i128,
    /// Mark price TWAP at the update.
    pub mark_price_twap: u128,
}

impl FundingRateRecord {
    /// An empty slot, as a fresh log holds in every position.
    pub fn zeroed() -> (r: FundingRateRecord)
        ensures
            r.record_id == 0,
    {
        FundingRateRecord {
            ts: 0,
            market_index: 0,
            record_id: 0,
            funding_rate: 0,
            cumulative_funding_rate_long: 0,
            cumulative_funding_rate_short: 0,
            oracle_price_twap: 0,
            mark_price_twap: 0,
        }
    }
}

/// Fixed-capacity circular log of per-market funding-rate updates. The head is the next slot to be
/// written; record ids increase forever, independent of wraparound.
pub struct FundingRateHistory {
    /// Next slot to be written.
    pub head: u64,
    /// The record slots.
    pub funding_rate_record: Vec<FundingRateRecord>,
}

impl FundingRateHistory {
    /// Well-formedness: all slots allocated and the head in bounds.
    pub open spec fn wf(self) -> bool {
        self.head < 1024 && self.funding_rate_record@.len() == 1024
    }

    /// The slot the next record will be written to.
    pub open spec fn spec_head(self) -> u64 {
        self.head
    }

    /// The stored records, by slot.
    pub open spec fn records(self) -> Seq<FundingRateRecord> {
        self.funding_rate_record@
    }

    /// The stored record ids, by slot.
    pub open spec fn ids(self) -> Seq<u128> {
        self.funding_rate_record@.map(|i: int, r: FundingRateRecord| r.record_id)
    }

    /// A fresh log: the head at slot zero and every slot zeroed.
    pub fn new() -> (r: FundingRateHistory)
        ensures
            r.wf(),
            r.spec_head() == 0,
            forall|i: int| 0 <= i < 1024 ==> r.ids()[i] == 0,
    {
        let mut records: Vec<FundingRateRecord> = Vec::new();
        let mut i: usize = 0;
        while i < 1024
            invariant
                i <= 1024,
                records@.len() == i,
                forall|k: int| 0 <= k < i ==> records@[k].record_id == 0,
            decreases 1024 - i,
        {
            records.push(FundingRateRecord::zeroed());
            i = i + 1;
        }
        FundingRateHistory { head: 0, funding_rate_record: records }
    }

    /// Writes a record into the head slot and advances the head one slot,
    /// wrapping at the capacity.
    pub fn append(&mut self, funding_rate_record: FundingRateRecord)
        requires
            old(self).wf(),
        ensures
            final(self).wf(),
            final(self).records() == old(self).records().update(
                old(self).spec_head() as int,
                funding_rate_record,
            ),
            final(self).spec_head() == (old(self).spec_head() + 1) % 1024,
    {
        let idx = Self::index(self.head);
        self.funding_rate_record[idx] = funding_rate_record;
        self.head = (self.head + 1) % HISTORY_CAPACITY;
    }

    /// A head counter as a slot index.
    pub fn index(counter: u64) -> (r: usize)
        requires
            counter < 1024,
        ensures
            r == counter,
    {
        counter as usize
    }

    /// Reads one slot.
    pub fn record_at(&self, slot: usize) -> (r: &FundingRateRecord)
        requires
            self.wf(),
            slot < 1024,
        ensures
            r == self.records()[slot as int],
    {
        &self.funding_rate_record[slot]
    }

    /// The id the next appended record receives: one more than the id of
    /// the most recently written record, wherever the head stands.
    pub fn next_record_id(&self) -> (r: u128)
        requires
            self.wf(),
            next_id(self.ids(), self.spec_head()) <= u128::MAX,
        ensures
            r == next_id(self.ids(), self.spec_head()),
    {
        let pre_record_id = if self.head == 0 { 1023 } else { self.head - 1 };
        let pre_record = &self.funding_rate_record[Self::index(pre_record_id)];
        pre_record.record_id + 1
    }
}

} // verus!
