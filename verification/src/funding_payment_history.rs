//! Append-only history of funding payments settled against user positions.

use vstd::prelude::*;

use crate::history::{next_id, HISTORY_CAPACITY};
use crate::ids::AccountKey;

verus! {

/// One entry of the log.
#[derive(Clone, Copy, Debug, PartialEq, Eq, Structural)]
pub struct FundingPaymentRecord {
    /// Timestamp of the settlement.
    pub ts: i64,
    /// Market the position belongs to.
    pub market_index: u64,
    /// Log-lifetime-monotonic record id.
    pub record_id: u128,
    /// Authority of the settled account.
    pub user_authority: AccountKey,
    /// Account whose position was settled.
    pub user: AccountKey,
    /// Signed payment applied to the user's collateral.
    pub funding_payment: i128,
    /// Position size the payment was computed from.
    pub base_asset_amount: i128,
    /// Market's cumulative long funding rate at settlement.
    pub amm_cumulative_funding_long: i128,
    /// Market's cumulative short funding rate at settlement.
    pub amm_cumulative_funding_short: i128,
    /// Cumulative rate the position had last settled against.
    pub user_last_cumulative_funding: i128,
    /// Timestamp of the position's previous settlement.
    pub user_last_funding_rate_ts: i64,
}

impl FundingPaymentRecord {
    /// An empty slot, as a fresh log holds in every position.
    pub fn zeroed() -> (r: FundingPaymentRecord)
        ensures
            r.record_id == 0,
    {
        FundingPaymentRecord {
            ts: 0,
            market_index: 0,
            record_id: 0,
            user_authority: AccountKey { hi: 0, lo: 0 },
            user: AccountKey { hi: 0, lo: 0 },
            funding_payment: 0,
            base_asset_amount: 0,
            amm_cumulative_funding_long: 0,
            amm_cumulative_funding_short: 0,
            user_last_cumulative_funding: 0,
            user_last_funding_rate_ts: 0,
        }
    }
}

/// Fixed-capacity circular log of funding payments settled against user positions. The head is the next slot to be
/// written; record ids increase forever, independent of wraparound.
pub struct FundingPaymentHistory {
    /// Next slot to be written.
    pub head: u64,
    /// The record slots.
    pub funding_payment_records: Vec<FundingPaymentRecord>,
}

impl FundingPaymentHistory {
    /// Well-formedness: all slots allocated and the head in bounds.
    pub open spec fn wf(self) -> bool {
        self.head < 1024 && self.funding_payment_records@.len() == 1024
    }

    /// The slot the next record will be written to.
    pub open spec fn spec_head(self) -> u64 {
        self.head
    }

    /// The stored records, by slot.
    pub open spec fn records(self) -> Seq<FundingPaymentRecord> {
        self.funding_payment_records@
    }

    /// The stored record ids, by slot.
    pub open spec fn ids(self) -> Seq<u128> {
        self.funding_payment_records@.map(|i: int, r: FundingPaymentRecord| r.record_id)
    }

    /// A fresh log: the head at slot zero and every slot zeroed.
    pub fn new() -> (r: FundingPaymentHistory)
        ensures
            r.wf(),
            r.spec_head() == 0,
            forall|i: int| 0 <= i < 1024 ==> r.ids()[i] == 0,
    {
        let mut records: Vec<FundingPaymentRecord> = Vec::new();
        let mut i: usize = 0;
        while i < 1024
            invariant
                i <= 1024,
                records@.len() == i,
                forall|k: int| 0 <= k < i ==> records@[k].record_id == 0,
            decreases 1024 - i,
        {
            records.push(FundingPaymentRecord::zeroed());
            i = i + 1;
        }
        FundingPaymentHistory { head: 0, funding_payment_records: records }
    }

    /// Writes a record into the head slot and advances the head one slot,
    /// wrapping at the capacity.
    pub fn append(&mut self, funding_payment_record: FundingPaymentRecord)
        requires
            old(self).wf(),
        ensures
            final(self).wf(),
            final(self).records() == old(self).records().update(
                old(self).spec_head() as int,
                funding_payment_record,
            ),
            final(self).spec_head() == (old(self).spec_head() + 1) % 1024,
    {
        let idx = Self::index(self.head);
        self.funding_payment_records[idx] = funding_payment_record;
        self.head = (self.head + 1) % HISTORY_CAPACITY;
    }

    /// A head counter as a slot index.
    pub fn index(counter: u64) -> (r: usize)
        requires
            counter < 1024,
        ensures
            r == counter,
    {
        counter as usize
    }

    /// Reads one slot.
    pub fn record_at(&self, slot: usize) -> (r: &FundingPaymentRecord)
        requires
            self.wf(),
            slot < 1024,
        ensures
            r == self.records()[slot as int],
    {
        &self.funding_payment_records[slot]
    }

    /// The id the next appended record receives: one more than the id of
    /// the most recently written record, wherever the head stands.
    pub fn next_record_id(&self) -> (r: u128)
        requires
            self.wf(),
            next_id(self.ids(), self.spec_head()) <= u128::MAX,
        ensures
            r == next_id(self.ids(), self.spec_head()),
    {
        let pre_record_id = if self.head == 0 { 1023 } else { self.head - 1 };
        let pre_record = &self.funding_payment_records[Self::index(pre_record_id)];
        pre_record.record_id + 1
    }
}

} // verus!
