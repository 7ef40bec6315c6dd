//! The escrow record store: one record per commitment.
//!
//! The store is modelled by the sequence of its records, oldest first. No
//! two records share a commitment, so a commitment names at most one place
//! in the sequence. Records are never removed: a settled escrow stays, and
//! its commitment can never be used again.

use vstd::prelude::*;
use crate::commitment::same_digest;
use crate::record::{EscrowRecord, HtlcError, RecordModel};

verus! {

/// Whether some record in `records` has the commitment `commitment`.
pub open spec fn holds(records: Seq<RecordModel>, commitment: Seq<u8>) -> bool {
    exists|i: int| 0 <= i < records.len() && (#[trigger] records[i]).commitment == commitment
}

/// A place in `records` where `commitment` is found, if there is one.
pub open spec fn position(records: Seq<RecordModel>, commitment: Seq<u8>) -> int {
    choose|i: int| 0 <= i < records.len() && (#[trigger] records[i]).commitment == commitment
}

/// The record with the commitment `commitment`, if there is one.
pub open spec fn lookup(records: Seq<RecordModel>, commitment: Seq<u8>) -> Option<RecordModel> {
    if holds(records, commitment) {
        Some(records[position(records, commitment)])
    } else {
        None
    }
}

/// No two records in `records` share a commitment.
pub open spec fn distinct(records: Seq<RecordModel>) -> bool {
    forall|i: int, j: int|
        #![trigger records[i], records[j]]
        0 <= i < records.len() && 0 <= j < records.len() && records[i].commitment
            == records[j].commitment ==> i == j
}

/// Among distinct records, a commitment found at place `i` is found nowhere
/// else.
pub proof fn found_at(records: Seq<RecordModel>, i: int)
    requires
        distinct(records),
        0 <= i < records.len(),
    ensures
        holds(records, records[i].commitment),
        position(records, records[i].commitment) == i,
        lookup(records, records[i].commitment) == Some(records[i]),
{
    let found = position(records, records[i].commitment);
    assert(records[found].commitment == records[i].commitment);
}

/// Appending a record under a new commitment keeps the records distinct,
/// makes the new record the one found under its commitment, and leaves what
/// is found under every other commitment as it was.
pub proof fn lookup_after_push(records: Seq<RecordModel>, record: RecordModel, other: Seq<u8>)
    requires
        distinct(records),
        !holds(records, record.commitment),
    ensures
        distinct(records.push(record)),
        lookup(records.push(record), record.commitment) == Some(record),
        other != record.commitment ==> lookup(records.push(record), other) == lookup(
            records,
            other,
        ),
{
    let grown = records.push(record);
    let last = records.len() as int;
    assert forall|i: int, j: int|
        0 <= i < grown.len() && 0 <= j < grown.len() && grown[i].commitment
            == grown[j].commitment implies i == j by {
        if i < last && j < last {
            assert(records[i].commitment == records[j].commitment);
        } else if i < last {
            assert(records[i].commitment == record.commitment);
        } else if j < last {
            assert(records[j].commitment == record.commitment);
        }
    }
    assert(grown[last] == record);
    found_at(grown, last);
    if other != record.commitment {
        if holds(records, other) {
            let at = position(records, other);
            assert(grown[at] == records[at]);
            found_at(grown, at);
        } else if holds(grown, other) {
            let at = position(grown, other);
            assert(records[at].commitment == other);
        }
    }
}

/// Replacing the record at place `i` by one with the same commitment keeps
/// the records distinct, makes the new record the one found under that
/// commitment, and leaves what is found under every other commitment as it
/// was.
pub proof fn lookup_after_update(
    records: Seq<RecordModel>,
    i: int,
    record: RecordModel,
    other: Seq<u8>,
)
    requires
        distinct(records),
        0 <= i < records.len(),
        records[i].commitment == record.commitment,
    ensures
        distinct(records.update(i, record)),
        lookup(records.update(i, record), record.commitment) == Some(record),
        other != record.commitment ==> lookup(records.update(i, record), other) == lookup(
            records,
            other,
        ),
{
    let changed = records.update(i, record);
    assert forall|a: int, b: int|
        0 <= a < changed.len() && 0 <= b < changed.len() && changed[a].commitment
            == changed[b].commitment implies a == b by {
        assert(changed[a].commitment == records[a].commitment);
        assert(changed[b].commitment == records[b].commitment);
    }
    assert(changed[i] == record);
    found_at(changed, i);
    if other != record.commitment {
        if holds(records, other) {
            let at = position(records, other);
            assert(changed[at] == records[at]);
            found_at(changed, at);
        } else if holds(changed, other) {
            let at = position(changed, other);
            assert(records[at].commitment == other);
        }
    }
}

/// The records of all escrows ever created, each under its commitment.
pub struct RecordStore {
    records: Vec<EscrowRecord>,
}

impl View for RecordStore {
    type V = Seq<RecordModel>;

    closed spec fn view(&self) -> Seq<RecordModel> {
        self.records@.map_values(|record: EscrowRecord| record@)
    }
}

impl RecordStore {
    /// No two records of the store share a commitment.
    pub open spec fn wf(&self) -> bool {
        distinct(self@)
    }

    /// A store without records.
    pub fn new() -> (store: RecordStore)
        ensures
            store.wf(),
            store@ == Seq::<RecordModel>::empty(),
    {
        RecordStore { records: Vec::new() }
    }

    /// How many records the store holds.
    pub fn len(&self) -> (count: usize)
        ensures
            count == self@.len(),
    {
        self.records.len()
    }

    /// The place of the record with the commitment `commitment`.
    fn index_of(&self, commitment: &[u8; 32]) -> (found: Option<usize>)
        requires
            self.wf(),
        ensures
            match found {
                Some(i) => i < self@.len() && holds(self@, commitment@) && position(
                    self@,
                    commitment@,
                ) == i && self.records@[i as int]@ == self@[i as int],
                None => !holds(self@, commitment@),
            },
    {
        let mut i: usize = 0;
        while i < self.records.len()
            invariant
                self.wf(),
                i <= self.records@.len(),
                self@.len() == self.records@.len(),
                forall|j: int| 0 <= j < i ==> (#[trigger] self@[j]).commitment != commitment@,
            decreases self.records@.len() - i,
        {
            if same_digest(&self.records[i].commitment, commitment) {
                proof {
                    found_at(self@, i as int);
                }
                return Some(i);
            }
            i += 1;
        }
        None
    }

    /// Whether the store holds a record with the commitment `commitment`.
    pub fn contains(&self, commitment: &[u8; 32]) -> (found: bool)
        requires
            self.wf(),
        ensures
            found == holds(self@, commitment@),
    {
        self.index_of(commitment).is_some()
    }

    /// What the store holds under `commitment`: the record, or nothing.
    pub fn find(&self, commitment: &[u8; 32]) -> (slot: Option<&EscrowRecord>)
        requires
            self.wf(),
        ensures
            match slot {
                Some(record) => lookup(self@, commitment@) == Some(record@),
                None => lookup(self@, commitment@) is None,
            },
    {
        match self.index_of(commitment) {
            Some(i) => Some(&self.records[i]),
            None => None,
        }
    }

    /// Reads the record with the commitment `commitment`. Fails with
    /// `NotFound` where there is none.
    pub fn get(&self, commitment: &[u8; 32]) -> (result: Result<&EscrowRecord, HtlcError>)
        requires
            self.wf(),
        ensures
            match result {
                Ok(record) => lookup(self@, commitment@) == Some(record@),
                Err(fault) => fault == HtlcError::NotFound && lookup(self@, commitment@) is None,
            },
    {
        match self.find(commitment) {
            Some(record) => Ok(record),
            None => Err(HtlcError::NotFound),
        }
    }

    /// Writes `record` if the store holds none with its commitment. Fails
    /// with `AlreadyExists`, and changes nothing, where it holds one.
    pub fn put_new(&mut self, record: EscrowRecord) -> (result: Result<(), HtlcError>)
        requires
            old(self).wf(),
        ensures
            final(self).wf(),
            holds(old(self)@, record@.commitment) ==> result == Err::<(), HtlcError>(
                HtlcError::AlreadyExists,
            ) && final(self)@ == old(self)@,
            !holds(old(self)@, record@.commitment) ==> result == Ok::<(), HtlcError>(())
                && final(self)@ == old(self)@.push(record@),
    {
        if self.contains(&record.commitment) {
            return Err(HtlcError::AlreadyExists);
        }
        proof {
            lookup_after_push(self@, record@, record@.commitment);
        }
        self.records.push(record);
        assert(self@ =~= old(self)@.push(record@));
        Ok(())
    }

    /// Overwrites the record that has the commitment of `record`. Fails with
    /// `NotFound`, and changes nothing, where the store holds none.
    pub fn update(&mut self, record: EscrowRecord) -> (result: Result<(), HtlcError>)
        requires
            old(self).wf(),
        ensures
            final(self).wf(),
            !holds(old(self)@, record@.commitment) ==> result == Err::<(), HtlcError>(
                HtlcError::NotFound,
            ) && final(self)@ == old(self)@,
            holds(old(self)@, record@.commitment) ==> result == Ok::<(), HtlcError>(())
                && final(self)@ == old(self)@.update(
                position(old(self)@, record@.commitment),
                record@,
            ),
    {
        let i = match self.index_of(&record.commitment) {
            Some(i) => i,
            None => {
                return Err(HtlcError::NotFound);
            },
        };
        proof {
            lookup_after_update(self@, i as int, record@, record@.commitment);
        }
        self.records[i] = record;
        assert(self@ =~= old(self)@.update(i as int, record@));
        Ok(())
    }
}

} // verus!
