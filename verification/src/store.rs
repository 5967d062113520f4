use std::collections::HashMap;
use vstd::prelude::*;

verus! {

broadcast use vstd::std_specs::hash::group_hash_axioms;

/// The number of ledgers that every record lives at least.
pub const MIN_LEDGERS_TO_LIVE: u32 = 16;

/// A stored value with the last ledger at which it can still be read.
#[derive(Copy, Clone, Debug, PartialEq, Eq, Structural)]
pub struct Record {
    pub value: i128,
    pub live_until: u64,
}

/// What a reader finds under `key` at ledger `sequence`: the value of a
/// record that has not expired, or nothing.
pub open spec fn lookup(records: Map<u128, Record>, key: u128, sequence: u32) -> Option<i128> {
    if records.dom().contains(key) && sequence <= records[key].live_until {
        Some(records[key].value)
    } else {
        None
    }
}

/// The records after the time to live of `key` was extended at ledger
/// `sequence`: a record that has not expired and has fewer than `threshold`
/// ledgers left lives until `extend_to` ledgers from now; anything else stays
/// as it is.
pub open spec fn extended(
    records: Map<u128, Record>,
    key: u128,
    threshold: u32,
    extend_to: u32,
    sequence: u32,
) -> Map<u128, Record> {
    if records.dom().contains(key) && sequence <= records[key].live_until
        && records[key].live_until - sequence < threshold && records[key].live_until < sequence
        + extend_to {
        records.insert(
            key,
            Record { value: records[key].value, live_until: (sequence + extend_to) as u64 },
        )
    } else {
        records
    }
}

/// The records after `value` was written under `key` at ledger `sequence`
/// to live for `ledgers` ledgers, and no fewer than the minimum.
pub open spec fn written(
    records: Map<u128, Record>,
    key: u128,
    value: i128,
    ledgers: u32,
    sequence: u32,
) -> Map<u128, Record> {
    records.insert(key, Record { value, live_until: expiry(sequence, ledgers) })
}

/// The last ledger at which a record written at `sequence` for `ledgers`
/// ledgers can be read.
pub open spec fn expiry(sequence: u32, ledgers: u32) -> u64 {
    if ledgers > MIN_LEDGERS_TO_LIVE {
        (sequence + ledgers) as u64
    } else {
        (sequence + MIN_LEDGERS_TO_LIVE) as u64
    }
}

/// A store of 128-bit keyed values that expire: each record can be read up
/// to a given ledger and is treated as absent afterwards.
pub struct RecordStore {
    records: HashMap<u128, Record>,
}

impl View for RecordStore {
    type V = Map<u128, Record>;

    closed spec fn view(&self) -> Map<u128, Record> {
        self.records@
    }
}

impl RecordStore {
    /// A store without records.
    pub fn new() -> (store: RecordStore)
        ensures
            store@ == Map::<u128, Record>::empty(),
    {
        RecordStore { records: HashMap::new() }
    }

    /// Reads the value under `key` at ledger `sequence`.
    pub fn get(&self, key: u128, sequence: u32) -> (value: Option<i128>)
        ensures
            value == lookup(self@, key, sequence),
    {
        match self.records.get(&key) {
            Some(record) => {
                if sequence as u64 <= record.live_until {
                    Some(record.value)
                } else {
                    None
                }
            },
            None => None,
        }
    }

    /// Writes `value` under `key` at ledger `sequence`, replacing what was
    /// there; the record lives for the minimum number of ledgers.
    pub fn set(&mut self, key: u128, value: i128, sequence: u32)
        ensures
            final(self)@ == written(old(self)@, key, value, 0, sequence),
    {
        let live_until: u64 = sequence as u64 + MIN_LEDGERS_TO_LIVE as u64;
        self.records.insert(key, Record { value, live_until });
    }

    /// Extends the life of the record under `key` to `extend_to` ledgers
    /// from `sequence`, if it has fewer than `threshold` ledgers left.
    pub fn extend_ttl(&mut self, key: u128, threshold: u32, extend_to: u32, sequence: u32)
        ensures
            final(self)@ == extended(old(self)@, key, threshold, extend_to, sequence),
    {
        let found: Option<Record> = match self.records.get(&key) {
            Some(record) => Some(*record),
            None => None,
        };
        if let Some(record) = found {
            let now: u64 = sequence as u64;
            let target: u64 = now + extend_to as u64;
            if now <= record.live_until && record.live_until - now < threshold as u64
                && record.live_until < target {
                self.records.insert(key, Record { value: record.value, live_until: target });
            }
        }
    }

    /// Writes `value` under `key` at ledger `sequence` to live for `ledgers`
    /// ledgers, and no fewer than the minimum.
    pub fn put(&mut self, key: u128, value: i128, ledgers: u32, sequence: u32)
        ensures
            final(self)@ == written(old(self)@, key, value, ledgers, sequence),
    {
        self.set(key, value, sequence);
        if ledgers > MIN_LEDGERS_TO_LIVE {
            self.extend_ttl(key, ledgers, ledgers, sequence);
        }
        assert(self@ =~= written(old(self)@, key, value, ledgers, sequence));
    }
}

/// A record that was written is read back until it expires, and not after.
pub proof fn lemma_written_then_read(
    records: Map<u128, Record>,
    key: u128,
    value: i128,
    ledgers: u32,
    sequence: u32,
    later: u32,
)
    requires
        sequence <= later,
    ensures
        later <= expiry(sequence, ledgers) ==> lookup(
            written(records, key, value, ledgers, sequence),
            key,
            later,
        ) == Some(value),
        later > expiry(sequence, ledgers) ==> lookup(
            written(records, key, value, ledgers, sequence),
            key,
            later,
        ) is None,
{
}

/// Writing under one key changes nothing under another.
pub proof fn lemma_written_elsewhere(
    records: Map<u128, Record>,
    key: u128,
    value: i128,
    ledgers: u32,
    sequence: u32,
    other: u128,
    later: u32,
)
    requires
        other != key,
    ensures
        lookup(written(records, key, value, ledgers, sequence), other, later) == lookup(
            records,
            other,
            later,
        ),
{
}

} // verus!
