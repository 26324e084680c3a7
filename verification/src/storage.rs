//! Server-side sensor storage: a ring of 1024 record slots with a
//! write cursor that wraps, overwriting the oldest data. Records carry
//! fixed-point readings — centi-degrees, centi-percent and
//! hectopascals — exactly the units of the record wire form; whatever
//! samples in other units does the conversion before storing.

use vstd::prelude::*;
use crate::protocol::NodeId;
use crate::slots::{count_some, lemma_count_some_pos, lemma_count_some_push_none, lemma_count_some_update};

verus! {

/// Number of slots in the record ring.
pub const RECORD_CAPACITY: usize = 1024;

/// Milliseconds the internal timestamp advances per stored record.
pub const RECORD_TICK_MS: u64 = 1000;

/// One stored sensor reading.
#[derive(Clone, Copy, Debug)]
pub struct SensorRecord {
    /// Node the reading came from.
    pub node_id: NodeId,
    /// Time the reading was stored.
    pub timestamp: u64,
    /// Temperature (centi-degrees Celsius).
    pub temperature: u16,
    /// Relative humidity (centi-percent).
    pub humidity: u16,
    /// Air pressure (hectopascals).
    pub pressure: u16,
}

/// Slot `i` of `s` holds a record from `node_id`.
pub open spec fn record_from(s: Seq<Option<SensorRecord>>, node_id: NodeId, i: int) -> bool {
    &&& 0 <= i < s.len()
    &&& s[i] matches Some(r) && r.node_id == node_id
}

/// The records of `s` from `node_id`, in slot order.
pub open spec fn records_of_node(s: Seq<Option<SensorRecord>>, node_id: NodeId) -> Seq<
    SensorRecord,
>
    decreases s.len(),
{
    if s.len() == 0 {
        Seq::empty()
    } else {
        records_of_node(s.drop_last(), node_id) + (match s.last() {
            Some(r) => if r.node_id == node_id {
                seq![r]
            } else {
                Seq::empty()
            },
            None => Seq::empty(),
        })
    }
}

/// The records of `s` stamped within [`start_time`, `end_time`], in
/// slot order.
pub open spec fn records_in_range(
    s: Seq<Option<SensorRecord>>,
    start_time: u64,
    end_time: u64,
) -> Seq<SensorRecord>
    decreases s.len(),
{
    if s.len() == 0 {
        Seq::empty()
    } else {
        records_in_range(s.drop_last(), start_time, end_time) + (match s.last() {
            Some(r) => if start_time <= r.timestamp <= end_time {
                seq![r]
            } else {
                Seq::empty()
            },
            None => Seq::empty(),
        })
    }
}

/// The 20-byte wire form of one record: node id (6), timestamp (BE64),
/// temperature, humidity and pressure (BE16 each).
pub open spec fn record_bytes(r: SensorRecord) -> Seq<u8> {
    seq![
        r.node_id.0[0],
        r.node_id.0[1],
        r.node_id.0[2],
        r.node_id.0[3],
        r.node_id.0[4],
        r.node_id.0[5],
        ((r.timestamp / 0x100000000000000) % 256) as u8,
        ((r.timestamp / 0x1000000000000) % 256) as u8,
        ((r.timestamp / 0x10000000000) % 256) as u8,
        ((r.timestamp / 0x100000000) % 256) as u8,
        ((r.timestamp / 0x1000000) % 256) as u8,
        ((r.timestamp / 0x10000) % 256) as u8,
        ((r.timestamp / 0x100) % 256) as u8,
        (r.timestamp % 256) as u8,
        (r.temperature / 256) as u8,
        (r.temperature % 256) as u8,
        (r.humidity / 256) as u8,
        (r.humidity % 256) as u8,
        (r.pressure / 256) as u8,
        (r.pressure % 256) as u8,
    ]
}

/// The concatenated wire forms of `records`.
pub open spec fn serialized_records(records: Seq<SensorRecord>) -> Seq<u8>
    decreases records.len(),
{
    if records.len() == 0 {
        Seq::empty()
    } else {
        serialized_records(records.drop_last()) + record_bytes(records.last())
    }
}

/// Ring buffer of sensor records.
pub struct CircularBuffer {
    /// The fixed-capacity slot arena.
    records: Vec<Option<SensorRecord>>,
    /// Slot the next record is written to.
    write_position: usize,
    /// Number of occupied slots.
    record_count: usize,
    /// Timestamp given to the next stored record.
    timestamp: u64,
}

impl CircularBuffer {
    /// The ring's slots.
    pub closed spec fn slots(self) -> Seq<Option<SensorRecord>> {
        self.records@
    }

    /// Slot the next record is written to.
    pub closed spec fn spec_write(self) -> usize {
        self.write_position
    }

    /// The tracked number of occupied slots.
    pub closed spec fn spec_count(self) -> usize {
        self.record_count
    }

    /// Timestamp given to the next stored record.
    pub closed spec fn spec_timestamp(self) -> u64 {
        self.timestamp
    }

    /// Well-formedness: fixed capacity, in-range cursor, accurate
    /// count.
    pub closed spec fn wf(self) -> bool {
        &&& self.records@.len() == RECORD_CAPACITY
        &&& self.write_position < RECORD_CAPACITY
        &&& self.record_count == count_some(self.records@)
    }

    /// Creates an empty ring.
    pub fn new() -> (r: Self)
        ensures
            r.wf(),
            r.spec_write() == 0,
            r.spec_count() == 0,
            r.spec_timestamp() == 0,
            forall|i: int| 0 <= i < RECORD_CAPACITY ==> r.slots()[i] is None,
    {
        let mut records: Vec<Option<SensorRecord>> = Vec::new();
        let mut i: usize = 0;
        while i < RECORD_CAPACITY
            invariant
                i <= RECORD_CAPACITY,
                records@.len() == i,
                count_some(records@) == 0,
                forall|j: int| 0 <= j < i ==> records@[j] is None,
            decreases RECORD_CAPACITY - i,
        {
            proof {
                lemma_count_some_push_none(records@);
            }
            records.push(None);
            i = i + 1;
        }
        Self { records, write_position: 0, record_count: 0, timestamp: 0 }
    }

    /// Adopts the caller's clock for subsequently stored records.
    pub fn update_timestamp(&mut self, timestamp: u64)
        requires
            old(self).wf(),
        ensures
            final(self).wf(),
            final(self).spec_timestamp() == timestamp,
            final(self).slots() == old(self).slots(),
            final(self).spec_write() == old(self).spec_write(),
            final(self).spec_count() == old(self).spec_count(),
    {
        self.timestamp = timestamp;
    }

    /// Stores one record at the cursor, overwriting whatever the ring
    /// last held there, and advances the cursor.
    fn add_record(&mut self, record: SensorRecord)
        requires
            old(self).wf(),
        ensures
            final(self).wf(),
            final(self).slots() == old(self).slots().update(
                old(self).spec_write() as int,
                Some(record),
            ),
            final(self).spec_write() == (old(self).spec_write() + 1) % (RECORD_CAPACITY as int),
            final(self).spec_timestamp() == old(self).spec_timestamp(),
    {
        proof {
            lemma_count_some_update(self.records@, self.write_position as int, Some(record));
            crate::slots::lemma_count_some_le_len(self.records@);
        }
        let was_free = match self.records[self.write_position] {
            Some(_) => false,
            None => true,
        };
        if was_free {
            self.record_count = self.record_count + 1;
        }
        self.records.set(self.write_position, Some(record));
        self.write_position = (self.write_position + 1) % RECORD_CAPACITY;
    }

    /// Stores one reading from `node_id` stamped with the internal
    /// clock, which then advances by one tick.
    pub fn add_data(&mut self, node_id: NodeId, temperature: u16, humidity: u16, pressure: u16)
        requires
            old(self).wf(),
        ensures
            final(self).wf(),
            final(self).slots() == old(self).slots().update(
                old(self).spec_write() as int,
                Some(stored_record(node_id, old(self).spec_timestamp(), temperature, humidity, pressure)),
            ),
            final(self).spec_write() == (old(self).spec_write() + 1) % (RECORD_CAPACITY as int),
            final(self).spec_timestamp() == (old(self).spec_timestamp() + RECORD_TICK_MS)
                % 0x10000000000000000,
    {
        let record = SensorRecord {
            node_id,
            timestamp: self.timestamp,
            temperature,
            humidity,
            pressure,
        };
        self.add_record(record);
        self.timestamp = self.timestamp.wrapping_add(RECORD_TICK_MS);
    }

    /// The records from `node_id`, in slot order.
    fn find_records_for_node(&self, node_id: NodeId) -> (r: Vec<SensorRecord>)
        requires
            self.wf(),
        ensures
            r@ == records_of_node(self.slots(), node_id),
    {
        let mut result: Vec<SensorRecord> = Vec::new();
        let n = self.records.len();
        let mut i: usize = 0;
        while i < n
            invariant
                n == self.records@.len(),
                i <= n,
                result@ == records_of_node(self.slots().take(i as int), node_id),
            decreases n - i,
        {
            proof {
                assert(self.slots().take(i as int + 1).drop_last() =~= self.slots().take(i as int));
                assert(self.slots().take(i as int + 1).last() == self.slots()[i as int]);
            }
            match self.records[i] {
                Some(record) => {
                    if record.node_id == node_id {
                        result.push(record);
                    }
                },
                None => {},
            }
            i = i + 1;
        }
        proof {
            assert(self.slots().take(n as int) =~= self.slots());
        }
        result
    }

    /// The records stamped within [`start_time`, `end_time`], in slot
    /// order.
    fn find_records_in_timerange(&self, start_time: u64, end_time: u64) -> (r: Vec<SensorRecord>)
        requires
            self.wf(),
        ensures
            r@ == records_in_range(self.slots(), start_time, end_time),
    {
        let mut result: Vec<SensorRecord> = Vec::new();
        let n = self.records.len();
        let mut i: usize = 0;
        while i < n
            invariant
                n == self.records@.len(),
                i <= n,
                result@ == records_in_range(self.slots().take(i as int), start_time, end_time),
            decreases n - i,
        {
            proof {
                assert(self.slots().take(i as int + 1).drop_last() =~= self.slots().take(i as int));
                assert(self.slots().take(i as int + 1).last() == self.slots()[i as int]);
            }
            match self.records[i] {
                Some(record) => {
                    if record.timestamp >= start_time && record.timestamp <= end_time {
                        result.push(record);
                    }
                },
                None => {},
            }
            i = i + 1;
        }
        proof {
            assert(self.slots().take(n as int) =~= self.slots());
        }
        result
    }

    /// The concatenated wire forms of `records`.
    pub fn serialize_records(&self, records: &[SensorRecord]) -> (r: Vec<u8>)
        ensures
            r@ == serialized_records(records@),
    {
        let mut result: Vec<u8> = Vec::new();
        let n = records.len();
        let mut i: usize = 0;
        while i < n
            invariant
                n == records@.len(),
                i <= n,
                result@ == serialized_records(records@.take(i as int)),
            decreases n - i,
        {
            proof {
                assert(records@.take(i as int + 1).drop_last() =~= records@.take(i as int));
                assert(records@.take(i as int + 1).last() == records@[i as int]);
            }
            let record = records[i];
            let ghost before = result@;
            result.push(record.node_id.0[0]);
            result.push(record.node_id.0[1]);
            result.push(record.node_id.0[2]);
            result.push(record.node_id.0[3]);
            result.push(record.node_id.0[4]);
            result.push(record.node_id.0[5]);
            result.push(((record.timestamp / 0x100000000000000) % 256) as u8);
            result.push(((record.timestamp / 0x1000000000000) % 256) as u8);
            result.push(((record.timestamp / 0x10000000000) % 256) as u8);
            result.push(((record.timestamp / 0x100000000) % 256) as u8);
            result.push(((record.timestamp / 0x1000000) % 256) as u8);
            result.push(((record.timestamp / 0x10000) % 256) as u8);
            result.push(((record.timestamp / 0x100) % 256) as u8);
            result.push((record.timestamp % 256) as u8);
            result.push((record.temperature / 256) as u8);
            result.push((record.temperature % 256) as u8);
            result.push((record.humidity / 256) as u8);
            result.push((record.humidity % 256) as u8);
            result.push((record.pressure / 256) as u8);
            result.push((record.pressure % 256) as u8);
            proof {
                assert(result@ =~= before + record_bytes(record));
            }
            i = i + 1;
        }
        proof {
            assert(records@.take(n as int) =~= records@);
        }
        result
    }

    /// The serialized records from `node_id`.
    pub fn get_data_for_node(&self, node_id: NodeId) -> (r: Vec<u8>)
        requires
            self.wf(),
        ensures
            r@ == serialized_records(records_of_node(self.slots(), node_id)),
    {
        let records = self.find_records_for_node(node_id);
        self.serialize_records(records.as_slice())
    }

    /// The serialized records stamped within [`start_time`,
    /// `end_time`].
    pub fn get_data_in_timerange(&self, start_time: u64, end_time: u64) -> (r: Vec<u8>)
        requires
            self.wf(),
        ensures
            r@ == serialized_records(records_in_range(self.slots(), start_time, end_time)),
    {
        let records = self.find_records_in_timerange(start_time, end_time);
        self.serialize_records(records.as_slice())
    }

    /// Drops every record from `node_id`; other records are untouched.
    pub fn clear_data_for_node(&mut self, node_id: NodeId)
        requires
            old(self).wf(),
        ensures
            final(self).wf(),
            final(self).spec_write() == old(self).spec_write(),
            final(self).spec_timestamp() == old(self).spec_timestamp(),
            final(self).slots().len() == RECORD_CAPACITY,
            forall|i: int|
                0 <= i < RECORD_CAPACITY ==> final(self).slots()[i] == (if record_from(
                    old(self).slots(),
                    node_id,
                    i,
                ) {
                    None
                } else {
                    old(self).slots()[i]
                }),
    {
        let n = self.records.len();
        let mut i: usize = 0;
        while i < n
            invariant
                n == RECORD_CAPACITY,
                self.records@.len() == RECORD_CAPACITY,
                old(self).records@.len() == RECORD_CAPACITY,
                i <= n,
                forall|j: int|
                    0 <= j < i ==> self.records@[j] == (if record_from(
                        old(self).records@,
                        node_id,
                        j,
                    ) {
                        None
                    } else {
                        old(self).records@[j]
                    }),
                forall|j: int| i <= j < n ==> self.records@[j] == old(self).records@[j],
                self.write_position == old(self).write_position,
                self.timestamp == old(self).timestamp,
                self.record_count == count_some(self.records@),
            decreases n - i,
        {
            match self.records[i] {
                Some(record) => {
                    if record.node_id == node_id {
                        proof {
                            lemma_count_some_update(self.records@, i as int, None::<SensorRecord>);
                            lemma_count_some_pos(self.records@, i as int);
                        }
                        self.records.set(i, None);
                        self.record_count = self.record_count - 1;
                    }
                },
                None => {},
            }
            i = i + 1;
        }
    }

    /// Drops every record and resets the cursor.
    pub fn clear_all_data(&mut self)
        requires
            old(self).wf(),
        ensures
            final(self).wf(),
            final(self).spec_write() == 0,
            final(self).spec_count() == 0,
            final(self).spec_timestamp() == old(self).spec_timestamp(),
            forall|i: int| 0 <= i < RECORD_CAPACITY ==> final(self).slots()[i] is None,
    {
        let n = self.records.len();
        let mut i: usize = 0;
        while i < n
            invariant
                n == self.records@.len(),
                self.records@.len() == RECORD_CAPACITY,
                i <= n,
                forall|j: int| 0 <= j < i ==> self.records@[j] is None,
                self.timestamp == old(self).timestamp,
            decreases n - i,
        {
            self.records.set(i, None);
            i = i + 1;
        }
        self.record_count = 0;
        self.write_position = 0;
        proof {
            lemma_all_free_count_zero(self.records@);
        }
    }
}

/// The record `add_data` stores.
pub open spec fn stored_record(
    node_id: NodeId,
    timestamp: u64,
    temperature: u16,
    humidity: u16,
    pressure: u16,
) -> SensorRecord {
    SensorRecord { node_id, timestamp, temperature, humidity, pressure }
}

/// A ring of only free slots holds no records.
proof fn lemma_all_free_count_zero(s: Seq<Option<SensorRecord>>)
    requires
        forall|i: int| 0 <= i < s.len() ==> s[i] is None,
    ensures
        count_some(s) == 0,
    decreases s.len(),
{
    if s.len() > 0 {
        lemma_all_free_count_zero(s.drop_last());
    }
}

} // verus!
