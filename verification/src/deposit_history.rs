//! Append-only history of deposits and withdrawals of collateral.

use vstd::prelude::*;

use crate::history::{next_id, HISTORY_CAPACITY};
use crate::ids::AccountKey;

verus! {

/// Whether a collateral movement added to or removed from the account.
#[derive(Clone, Copy, Debug, PartialEq, Eq, Structural)]
pub enum DepositDirection {
    /// Collateral entered the account.
    Deposit,
    /// Collateral left the account.
    Withdraw,
}

/// One entry of the log.
#[derive(Clone, Copy, Debug, PartialEq, Eq, Structural)]
pub struct DepositRecord {
    /// Timestamp of the movement.
    pub ts: i64,
    /// Amount moved.
    pub amount: u64,
    /// Log-lifetime-monotonic record id.
    pub record_id: u128,
    /// Authority that signed the movement.
    pub user_authority: AccountKey,
    /// Account the collateral belongs to.
    pub user: AccountKey,
    /// Collateral balance before the movement.
    pub collateral_before: u128,
    /// Cumulative net deposits before the movement.
    pub cumulative_deposits_before: i128,
    /// Whether this was a deposit or a withdrawal.
    pub direction: DepositDirection,
}

impl DepositRecord {
    /// An empty slot, as a fresh log holds in every position.
    pub fn zeroed() -> (r: DepositRecord)
        ensures
            r.record_id == 0,
    {
        DepositRecord {
            ts: 0,
            amount: 0,
            record_id: 0,
            user_authority: AccountKey { hi: 0, lo: 0 },
            user: AccountKey { hi: 0, lo: 0 },
            collateral_before: 0,
            cumulative_deposits_before: 0,
            direction: DepositDirection::Deposit,
        }
    }
}

/// Fixed-capacity circular log of deposits and withdrawals of collateral. The head is the next slot to be
/// written; record ids increase forever, independent of wraparound.
pub struct DepositHistory {
    /// Next slot to be written.
    pub head: u64,
    /// The record slots.
    pub deposit_records: Vec<DepositRecord>,
}

impl DepositHistory {
    /// Well-formedness: all slots allocated and the head in bounds.
    pub open spec fn wf(self) -> bool {
        self.head < 1024 && self.deposit_records@.len() == 1024
    }

    /// The slot the next record will be written to.
    pub open spec fn spec_head(self) -> u64 {
        self.head
    }

    /// The stored records, by slot.
    pub open spec fn records(self) -> Seq<DepositRecord> {
        self.deposit_records@
    }

    /// The stored record ids, by slot.
    pub open spec fn ids(self) -> Seq<u128> {
        self.deposit_records@.map(|i: int, r: DepositRecord| r.record_id)
    }

    /// A fresh log: the head at slot zero and every slot zeroed.
    pub fn new() -> (r: DepositHistory)
        ensures
            r.wf(),
            r.spec_head() == 0,
            forall|i: int| 0 <= i < 1024 ==> r.ids()[i] == 0,
    {
        let mut records: Vec<DepositRecord> = Vec::new();
        let mut i: usize = 0;
        while i < 1024
            invariant
                i <= 1024,
                records@.len() == i,
                forall|k: int| 0 <= k < i ==> records@[k].record_id == 0,
            decreases 1024 - i,
        {
            records.push(DepositRecord::zeroed());
            i = i + 1;
        }
        DepositHistory { head: 0, deposit_records: records }
    }

    /// Writes a record into the head slot and advances the head one slot,
    /// wrapping at the capacity.
    pub fn append(&mut self, deposit_record: DepositRecord)
        requires
            old(self).wf(),
        ensures
            final(self).wf(),
            final(self).records() == old(self).records().update(
                old(self).spec_head() as int,
                deposit_record,
            ),
            final(self).spec_head() == (old(self).spec_head() + 1) % 1024,
    {
        let idx = Self::index(self.head);
        self.deposit_records[idx] = deposit_record;
        self.head = (self.head + 1) % HISTORY_CAPACITY;
    }

    /// A head counter as a slot index.
    pub fn index(counter: u64) -> (r: usize)
        requires
            counter < 1024,
        ensures
            r == counter,
    {
        counter as usize
    }

    /// Reads one slot.
    pub fn record_at(&self, slot: usize) -> (r: &DepositRecord)
        requires
            self.wf(),
            slot < 1024,
        ensures
            r == self.records()[slot as int],
    {
        &self.deposit_records[slot]
    }

    /// The id the next appended record receives: one more than the id of
    /// the most recently written record, wherever the head stands.
    pub fn next_record_id(&self) -> (r: u128)
        requires
            self.wf(),
            next_id(self.ids(), self.spec_head()) <= u128::MAX,
        ensures
            r == next_id(self.ids(), self.spec_head()),
    {
        let pre_record_id = if self.head == 0 { 1023 } else { self.head - 1 };
        let pre_record = &self.deposit_records[Self::index(pre_record_id)];
        pre_record.record_id + 1
    }
}

} // verus!
