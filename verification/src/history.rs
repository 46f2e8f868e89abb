//! The history ledger: a durable, append-only, insertion-ordered log of
//! transfer attempts. `append` is the sole mutator; sequence numbers are
//! assigned at append time, strictly increasing and never reused. A record
//! appended as the `k`-th entry carries sequence number `k`, matching a log
//! whose first entry sits at sequence number one.

use vstd::prelude::*;
use crate::requests::{TransferHistory, TransferHistoryV};

verus! {

/// The append-only log of transfer attempts, in insertion order.
pub struct HistoryLog {
    records: Vec<TransferHistory>,
}

impl View for HistoryLog {
    type V = Seq<TransferHistoryV>;

    closed spec fn view(&self) -> Seq<TransferHistoryV> {
        self.records@.map_values(|r: TransferHistory| r@)
    }
}

impl HistoryLog {
    /// An empty log.
    pub fn new() -> (r: HistoryLog)
        ensures
            r@ == Seq::<TransferHistoryV>::empty(),
    {
        let r = HistoryLog { records: Vec::new() };
        proof {
            assert(r@ =~= Seq::<TransferHistoryV>::empty());
        }
        r
    }

    /// How many transfer attempts the log records.
    pub fn len(&self) -> (r: u64)
        ensures
            r == self@.len(),
    {
        self.records.len() as u64
    }

    /// Appends one record and returns its assigned sequence number: one more
    /// than the count before the append, so numbers start at one and are
    /// gap-free.
    pub fn append(&mut self, record: TransferHistory) -> (id: u64)
        requires
            old(self)@.len() < u64::MAX,
        ensures
            final(self)@ == old(self)@.push(record@),
            id == old(self)@.len() + 1,
    {
        let id = self.records.len() as u64 + 1;
        self.records.push(record);
        proof {
            assert(self@ =~= old(self)@.push(record@));
        }
        id
    }

    /// The records in insertion order, as a snapshot borrowed from the log;
    /// reading never mutates, so two reads with no intervening append see
    /// identical sequences.
    pub fn get_transfer_history(&self) -> (r: &Vec<TransferHistory>)
        ensures
            r@.len() == self@.len(),
            forall|i: int| 0 <= i < self@.len() ==> (#[trigger] r@[i])@ == self@[i],
    {
        &self.records
    }
}

} // verus!
