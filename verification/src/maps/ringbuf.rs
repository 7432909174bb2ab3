//! The consumer of a ring buffer that the kernel fills.
//!
//! The producer and the consumer each have a position, which only grows.
//! The bytes between the two positions hold records, one after the other.
//! A record is a header of eight bytes and a payload, padded to a multiple
//! of eight bytes. The header's first four bytes hold the payload's length
//! and two flags: `BUSY` while the producer has not committed the record,
//! and `DISCARD` where the producer has given it up.
//!
//! The consumer reads the producer's position and the data from memory that
//! it shares with the kernel. That reading is the caller's; it hands in
//! what it read. The data area is mapped twice in a row, so that a record
//! which wraps around the end of the ring is contiguous in what is handed
//! in.

use vstd::prelude::*;
use crate::bytes::{le_u32, read_u32};
use crate::maps::{KernelMap, MapData, MapError, BPF_MAP_TYPE_RINGBUF};

verus! {

/// Size of a record's header in bytes.
pub const BPF_RINGBUF_HDR_SZ: u64 = 8;

/// The header value from which on the `BUSY` flag is set.
pub const BPF_RINGBUF_BUSY_BIT: u32 = 0x8000_0000;

/// The value of the `DISCARD` flag, which is also the bound of a length.
pub const BPF_RINGBUF_DISCARD_BIT: u32 = 0x4000_0000;

/// Whether a header says that its record is not committed yet.
pub open spec fn is_busy(header: int) -> bool {
    header >= BPF_RINGBUF_BUSY_BIT
}

/// Whether a header says that its record was given up.
pub open spec fn is_discarded(header: int) -> bool {
    (header / BPF_RINGBUF_DISCARD_BIT as int) % 2 == 1
}

/// The length of the payload that a header announces.
pub open spec fn payload_len(header: int) -> int {
    header % BPF_RINGBUF_DISCARD_BIT as int
}

/// The room that a record with a payload of `len` bytes takes: header and
/// payload, rounded up to a multiple of eight.
pub open spec fn padded_len(len: int) -> int {
    (len + BPF_RINGBUF_HDR_SZ + 7) / 8 * 8
}

/// The header of the record at position `pos` of a ring of `capacity`
/// bytes.
pub open spec fn header_at(data: Seq<u8>, capacity: int, pos: int) -> int {
    le_u32(data, pos % capacity)
}

/// A record that `next` has handed out: where its payload starts in the
/// data that was handed in, and how long it is.
#[derive(Clone, Copy, Debug, PartialEq, Eq, Structural)]
pub struct RingBufItem {
    pub offset: usize,
    pub len: usize,
}

/// What a scan of the records from the consumer's position finds: the
/// position at which the scan stopped, and the record there, if it is
/// committed and was not given up.
pub struct Scan {
    pub consumer_pos: int,
    pub item: Option<RingBufItem>,
}

/// Scans the records from `consumer_pos` up to `producer_pos`.
///
/// Where the positions are equal there is no record. A record that is not
/// committed yet stops the scan without a result. A record that was given
/// up is passed over, and the scan goes on behind it. Any other record is
/// the result. A header that announces more than the ring can hold, or
/// more than the producer has written, stops the scan like a record that is
/// not committed.
pub open spec fn scan(data: Seq<u8>, capacity: int, consumer_pos: int, producer_pos: int) -> Scan
    decreases producer_pos - consumer_pos,
{
    let header = header_at(data, capacity, consumer_pos);
    let len = payload_len(header);
    if consumer_pos >= producer_pos {
        Scan { consumer_pos, item: None }
    } else if is_busy(header) || padded_len(len) > capacity || padded_len(len) > producer_pos
        - consumer_pos {
        Scan { consumer_pos, item: None }
    } else if is_discarded(header) {
        scan(data, capacity, consumer_pos + padded_len(len), producer_pos)
    } else {
        Scan {
            consumer_pos,
            item: Some(
                RingBufItem {
                    offset: (consumer_pos % capacity + 8) as usize,
                    len: len as usize,
                },
            ),
        }
    }
}

/// The consumer's side of a ring buffer.
#[derive(Debug)]
pub struct RingBuf {
    capacity: usize,
    consumer_pos: u64,
    /// The room of the record that is handed out and not released yet.
    borrowed: Option<u64>,
}

/// Whether `n` is a power of two.
pub open spec fn is_power_of_two(n: int) -> bool
    decreases n,
{
    n == 1 || (n > 1 && n % 2 == 0 && is_power_of_two(n / 2))
}

/// Whether a ring can have this capacity: a power of two that is at least
/// eight, and of which the machine can address twice as much.
pub open spec fn is_capacity(capacity: int) -> bool {
    capacity >= 8 && is_power_of_two(capacity) && 2 * capacity <= usize::MAX
}

/// A power of two that is at least eight is a multiple of eight.
pub proof fn lemma_capacity_is_aligned(capacity: int)
    requires
        capacity >= 8,
        is_power_of_two(capacity),
    ensures
        capacity % 8 == 0,
{
    reveal_with_fuel(is_power_of_two, 4);
}

/// Whether `n` is a power of two.
pub fn power_of_two(n: usize) -> (r: bool)
    ensures
        r == is_power_of_two(n as int),
{
    if n == 0 {
        return false;
    }
    let mut m: usize = n;
    while m % 2 == 0
        invariant
            m >= 1,
            is_power_of_two(m as int) == is_power_of_two(n as int),
        decreases m,
    {
        m = m / 2;
    }
    m == 1
}

impl RingBuf {
    /// The size of the data area in bytes.
    pub closed spec fn spec_capacity(&self) -> int {
        self.capacity as int
    }

    /// The consumer's position.
    pub closed spec fn spec_consumer_pos(&self) -> int {
        self.consumer_pos as int
    }

    /// The room of the record that is handed out and not released yet.
    pub closed spec fn spec_borrowed(&self) -> Option<u64> {
        self.borrowed
    }

    /// The capacity is one that a ring can have, the consumer's position is
    /// a multiple of eight, and the end of a record that is handed out is a
    /// position.
    pub open spec fn wf(&self) -> bool {
        &&& is_capacity(self.spec_capacity())
        &&& self.spec_capacity() % 8 == 0
        &&& self.spec_consumer_pos() % 8 == 0
        &&& self.spec_borrowed() matches Some(room) ==> self.spec_consumer_pos() + room
            <= u64::MAX && room % 8 == 0
    }

    /// The consumer of a ring of `capacity` bytes, at the start of the
    /// ring; `None` where no ring has that capacity.
    pub fn with_capacity(capacity: usize) -> (r: Option<RingBuf>)
        ensures
            r is Some <==> is_capacity(capacity as int),
            r is Some ==> r->Some_0.wf() && r->Some_0.spec_capacity() == capacity
                && r->Some_0.spec_consumer_pos() == 0 && r->Some_0.spec_borrowed() is None,
    {
        if capacity < 8 || !power_of_two(capacity) || capacity > usize::MAX / 2 {
            return None;
        }
        proof {
            lemma_capacity_is_aligned(capacity as int);
        }
        Some(RingBuf { capacity, consumer_pos: 0, borrowed: None })
    }

    /// The consumer of the ring buffer `map`, whose capacity is the map's
    /// number of entries.
    ///
    /// It fails with `InvalidMapType` where the map is no ring buffer, with
    /// `NotCreated` where it has no handle, and with `InvalidCapacity`
    /// where no ring has the map's capacity.
    pub fn new(map: &MapData) -> (r: Result<RingBuf, MapError>)
        ensures
            match r {
                Ok(ring) => ring.wf() && ring.spec_capacity() == map.obj.def.max_entries
                    && ring.spec_consumer_pos() == 0 && ring.spec_borrowed() is None,
                Err(e) => e == if map.obj.def.map_type != BPF_MAP_TYPE_RINGBUF {
                    MapError::InvalidMapType { map_type: map.obj.def.map_type }
                } else if map.fd is None {
                    MapError::NotCreated
                } else {
                    MapError::InvalidCapacity { capacity: map.obj.def.max_entries }
                },
            },
            r is Ok <==> map.obj.def.map_type == BPF_MAP_TYPE_RINGBUF && map.fd is Some
                && is_capacity(map.obj.def.max_entries as int),
    {
        if map.obj.def.map_type != BPF_MAP_TYPE_RINGBUF {
            return Err(MapError::InvalidMapType { map_type: map.obj.def.map_type });
        }
        if map.fd.is_none() {
            return Err(MapError::NotCreated);
        }
        match RingBuf::with_capacity(map.obj.def.max_entries as usize) {
            Some(ring) => Ok(ring),
            None => Err(MapError::InvalidCapacity { capacity: map.obj.def.max_entries }),
        }
    }

    /// The consumer of `map`, which must be a ring buffer.
    pub fn try_from(map: &KernelMap) -> (r: Result<RingBuf, MapError>)
        ensures
            match r {
                Ok(ring) => ring.wf() && ring.spec_capacity() == map.spec_data().obj.def.max_entries
                    && ring.spec_consumer_pos() == 0 && ring.spec_borrowed() is None,
                Err(e) => e == if !(*map is RingBuf) || map.spec_data().obj.def.map_type
                    != BPF_MAP_TYPE_RINGBUF {
                    MapError::InvalidMapType { map_type: map.spec_data().obj.def.map_type }
                } else if map.spec_data().fd is None {
                    MapError::NotCreated
                } else {
                    MapError::InvalidCapacity { capacity: map.spec_data().obj.def.max_entries }
                },
            },
            r is Ok <==> *map is RingBuf && map.spec_data().obj.def.map_type == BPF_MAP_TYPE_RINGBUF
                && map.spec_data().fd is Some && is_capacity(
                map.spec_data().obj.def.max_entries as int,
            ),
    {
        match map {
            KernelMap::RingBuf(data) => RingBuf::new(data),
            _ => Err(MapError::InvalidMapType { map_type: map.data().obj.def.map_type }),
        }
    }

    /// The size of the data area in bytes.
    pub fn capacity(&self) -> (r: usize)
        ensures
            r == self.spec_capacity(),
    {
        self.capacity
    }

    /// The consumer's position, which the caller publishes to the kernel
    /// whenever it has changed.
    pub fn consumer_pos(&self) -> (r: u64)
        ensures
            r == self.spec_consumer_pos(),
    {
        self.consumer_pos
    }

    /// Whether a record is handed out and not released yet.
    pub fn is_borrowed(&self) -> (r: bool)
        ensures
            r == self.spec_borrowed() is Some,
    {
        self.borrowed.is_some()
    }

    /// Try to take a new entry from the ring buffer.
    ///
    /// `producer_pos` is the producer's position and `data` the doubly
    /// mapped data area, both as the caller has just read them. The result
    /// is that of `scan`: the consumer's position moves behind every record
    /// that was given up, and the first record that is committed and was
    /// not given up is handed out. The position does not move behind that
    /// record before `release`. Where `data` is shorter than twice the
    /// capacity nothing is read, and nothing changes.
    ///
    /// No record may be handed out and not released when this is called.
    pub fn next(&mut self, producer_pos: u64, data: &[u8]) -> (r: Option<RingBufItem>)
        requires
            old(self).wf(),
            old(self).spec_borrowed() is None,
        ensures
            final(self).wf(),
            final(self).spec_capacity() == old(self).spec_capacity(),
            data@.len() < 2 * old(self).spec_capacity() ==> r is None && *final(self) == *old(self),
            data@.len() >= 2 * old(self).spec_capacity() ==> {
                let found = scan(
                    data@,
                    old(self).spec_capacity(),
                    old(self).spec_consumer_pos(),
                    producer_pos as int,
                );
                &&& r == found.item
                &&& final(self).spec_consumer_pos() == found.consumer_pos
                &&& final(self).spec_borrowed() == match found.item {
                    Some(item) => Some(padded_len(item.len as int) as u64),
                    None => None,
                }
            },
            r matches Some(item) ==> item.offset + item.len <= data@.len(),
    {
        if data.len() / 2 < self.capacity {
            return None;
        }
        let cap: u64 = self.capacity as u64;
        while self.consumer_pos < producer_pos
            invariant
                self.wf(),
                self.spec_borrowed() is None,
                self.spec_capacity() == old(self).spec_capacity(),
                cap == self.capacity,
                data@.len() >= 2 * self.capacity,
                scan(data@, cap as int, self.consumer_pos as int, producer_pos as int) == scan(
                    data@,
                    cap as int,
                    old(self).spec_consumer_pos(),
                    producer_pos as int,
                ),
            decreases producer_pos - self.consumer_pos,
        {
            let at: usize = (self.consumer_pos % cap) as usize;
            let header: u32 = read_u32(data, at);
            let len: u32 = header % BPF_RINGBUF_DISCARD_BIT;
            let room: u64 = (len as u64 + 8 + 7) / 8 * 8;
            if header >= BPF_RINGBUF_BUSY_BIT || room > cap || room > producer_pos
                - self.consumer_pos {
                return None;
            }
            if (header / BPF_RINGBUF_DISCARD_BIT) % 2 == 1 {
                self.consumer_pos = self.consumer_pos + room;
            } else {
                self.borrowed = Some(room);
                return Some(RingBufItem { offset: at + 8, len: len as usize });
            }
        }
        None
    }

    /// Releases the record that `next` handed out: the consumer's position
    /// moves behind it, by the room that the record takes. Where no record
    /// is handed out, nothing changes.
    pub fn release(&mut self, item: RingBufItem)
        requires
            old(self).wf(),
        ensures
            final(self).wf(),
            final(self).spec_capacity() == old(self).spec_capacity(),
            final(self).spec_borrowed() is None,
            final(self).spec_consumer_pos() == old(self).spec_consumer_pos() + match old(self).spec_borrowed() {
                Some(room) => room as int,
                None => 0,
            },
    {
        match self.borrowed {
            Some(room) => {
                self.consumer_pos = self.consumer_pos + room;
                self.borrowed = None;
            },
            None => {},
        }
    }
}

/// Where the producer and the consumer stand at the same position, a scan
/// finds no record and moves nothing.
pub proof fn law_empty_ring_yields_nothing(data: Seq<u8>, capacity: int, pos: int)
    ensures
        scan(data, capacity, pos, pos) == (Scan { consumer_pos: pos, item: None }),
{
}

/// After one commit a scan finds that record, and does not move the
/// consumer's position. Once the position has moved behind the record, by
/// the room that the record takes, a scan finds nothing more.
pub proof fn law_one_commit_one_item(data: Seq<u8>, capacity: int, consumer_pos: int)
    requires
        consumer_pos >= 0,
        !is_busy(header_at(data, capacity, consumer_pos)),
        !is_discarded(header_at(data, capacity, consumer_pos)),
        padded_len(payload_len(header_at(data, capacity, consumer_pos))) <= capacity,
    ensures
        ({
            let len = payload_len(header_at(data, capacity, consumer_pos));
            let producer_pos = consumer_pos + padded_len(len);
            &&& scan(data, capacity, consumer_pos, producer_pos) == (Scan {
                consumer_pos,
                item: Some(
                    RingBufItem {
                        offset: (consumer_pos % capacity + 8) as usize,
                        len: len as usize,
                    },
                ),
            })
            &&& scan(data, capacity, producer_pos, producer_pos) == (Scan {
                consumer_pos: producer_pos,
                item: None,
            })
        }),
{
}

/// A record that was given up, with a committed record right behind it: a
/// scan moves the consumer's position behind the first and finds the
/// second. The first is never handed out.
pub proof fn law_discarded_record_is_skipped(
    data: Seq<u8>,
    capacity: int,
    consumer_pos: int,
    producer_pos: int,
)
    requires
        consumer_pos >= 0,
        !is_busy(header_at(data, capacity, consumer_pos)),
        is_discarded(header_at(data, capacity, consumer_pos)),
        padded_len(payload_len(header_at(data, capacity, consumer_pos))) <= capacity,
        ({
            let second = consumer_pos + padded_len(
                payload_len(header_at(data, capacity, consumer_pos)),
            );
            &&& !is_busy(header_at(data, capacity, second))
            &&& !is_discarded(header_at(data, capacity, second))
            &&& padded_len(payload_len(header_at(data, capacity, second))) <= capacity
            &&& second + padded_len(payload_len(header_at(data, capacity, second)))
                <= producer_pos
        }),
    ensures
        ({
            let second = consumer_pos + padded_len(
                payload_len(header_at(data, capacity, consumer_pos)),
            );
            scan(data, capacity, consumer_pos, producer_pos) == (Scan {
                consumer_pos: second,
                item: Some(
                    RingBufItem {
                        offset: (second % capacity + 8) as usize,
                        len: payload_len(header_at(data, capacity, second)) as usize,
                    },
                ),
            })
        }),
{
    reveal_with_fuel(scan, 3);
}

} // verus!
