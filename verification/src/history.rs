//! The record-id discipline shared by all six history logs.
//!
//! Every log is a fixed 1024-slot circular buffer with a `head` write
//! cursor. Record ids are independent of the physical slot: the next id is
//! one more than the id of the most recently written record, so ids keep
//! increasing across wraparound and are never renumbered.

use vstd::prelude::*;

verus! {

/// Number of slots in every history log.
pub const HISTORY_CAPACITY: u64 = 1024;

/// The slot written immediately before the given head position.
pub open spec fn prev_slot(head: u64) -> int {
    if head == 0 {
        1023
    } else {
        head - 1
    }
}

/// The id the next appended record receives: one more than the id of the
/// most recently written record.
pub open spec fn next_id(ids: Seq<u128>, head: u64) -> int {
    ids[prev_slot(head)] + 1
}

/// Appending a record that carries the log's next id advances the next id
/// by exactly one, regardless of where the head stands or whether the
/// buffer has wrapped around. Applied once per append, this makes record
/// ids strictly increase by one over any sequence of appends.
pub proof fn lemma_append_advances_next_id(ids: Seq<u128>, head: u64, id: u128)
    requires
        ids.len() == 1024,
        head < 1024,
        id == next_id(ids, head),
    ensures
        next_id(ids.update(head as int, id), (((head + 1) as u64) % 1024) as u64) == id + 1,
{
    let new_head = (((head + 1) as u64) % 1024) as u64;
    if head == 1023 {
        assert(new_head == 0);
    } else {
        assert(new_head == head + 1);
    }
    assert(prev_slot(new_head) == head);
}

} // verus!
