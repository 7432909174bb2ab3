//! A ring buffer whose reader waits for the kernel's readiness
//! notification instead of polling.
//!
//! The waiting itself is the caller's. What is decided here is when to
//! wait: the reader first tries to take a record, and resumes at once
//! where it finds one. Only where it finds none it clears what is known of
//! the descriptor's readiness and waits for the descriptor to become
//! readable, and then tries again.

use vstd::prelude::*;
use crate::maps::{MapData, MapError};
use crate::maps::ringbuf::{is_capacity, padded_len, scan, RingBuf, RingBufItem};
use crate::sys::SysError;

verus! {

/// Async ring buffer error.
#[derive(Clone, Debug, PartialEq, Eq)]
pub enum AsyncRingBufError {
    /// A map error.
    MapError(MapError),
    /// An IO error.
    IOError(SysError),
}

/// What the reader does next.
#[derive(Clone, Copy, Debug, PartialEq, Eq, Structural)]
pub enum AsyncStep {
    /// A record was taken: the caller resumes at once.
    Ready(RingBufItem),
    /// There is nothing to take: the caller clears the readiness of the
    /// descriptor, suspends until the descriptor is readable again, reports
    /// that with `readable`, and tries again.
    Wait,
}

/// A ring buffer together with what is known of its descriptor's
/// readiness.
#[derive(Debug)]
pub struct AsyncRingBuf {
    ring_buf: RingBuf,
    /// Whether the descriptor was reported readable since the reader last
    /// found nothing.
    ready: bool,
}

impl AsyncRingBuf {
    /// The consumer's side of the ring buffer.
    pub closed spec fn spec_ring(&self) -> RingBuf {
        self.ring_buf
    }

    /// Whether the descriptor was reported readable since the reader last
    /// found nothing.
    pub closed spec fn spec_ready(&self) -> bool {
        self.ready
    }

    /// The consumer's side is well formed.
    pub open spec fn wf(&self) -> bool {
        self.spec_ring().wf()
    }

    /// The reader of the ring buffer `map`. Nothing is known of its
    /// descriptor's readiness, and nothing needs to be: the first read
    /// tries the ring buffer at once.
    pub fn new(map: &MapData) -> (r: Result<AsyncRingBuf, MapError>)
        ensures
            match r {
                Ok(a) => a.wf() && !a.spec_ready() && a.spec_ring().spec_capacity()
                    == map.obj.def.max_entries && a.spec_ring().spec_consumer_pos() == 0
                    && a.spec_ring().spec_borrowed() is None,
                Err(e) => e == if map.obj.def.map_type != crate::maps::BPF_MAP_TYPE_RINGBUF {
                    MapError::InvalidMapType { map_type: map.obj.def.map_type }
                } else if map.fd is None {
                    MapError::NotCreated
                } else {
                    MapError::InvalidCapacity { capacity: map.obj.def.max_entries }
                },
            },
            r is Ok <==> map.obj.def.map_type == crate::maps::BPF_MAP_TYPE_RINGBUF && map.fd is Some
                && is_capacity(map.obj.def.max_entries as int),
    {
        match RingBuf::new(map) {
            Ok(ring_buf) => Ok(AsyncRingBuf { ring_buf, ready: false }),
            Err(e) => Err(e),
        }
    }

    /// The size of the data area in bytes.
    pub fn capacity(&self) -> (r: usize)
        ensures
            r == self.spec_ring().spec_capacity(),
    {
        self.ring_buf.capacity()
    }

    /// The consumer's position, which the caller publishes to the kernel
    /// whenever it has changed.
    pub fn consumer_pos(&self) -> (r: u64)
        ensures
            r == self.spec_ring().spec_consumer_pos(),
    {
        self.ring_buf.consumer_pos()
    }

    /// Whether a record is handed out and not released yet.
    pub fn is_borrowed(&self) -> (r: bool)
        ensures
            r == self.spec_ring().spec_borrowed() is Some,
    {
        self.ring_buf.is_borrowed()
    }

    /// Whether the descriptor was reported readable since the reader last
    /// found nothing.
    pub fn is_ready(&self) -> (r: bool)
        ensures
            r == self.spec_ready(),
    {
        self.ready
    }

    /// Takes the outcome of the wait for the descriptor to become
    /// readable. A wait that failed, or was given up, is reported as an IO
    /// error and changes nothing: neither the readiness nor the consumer's
    /// position.
    pub fn readable(&mut self, event: Result<(), SysError>) -> (r: Result<(), AsyncRingBufError>)
        ensures
            final(self).spec_ring() == old(self).spec_ring(),
            match event {
                Ok(()) => r is Ok && final(self).spec_ready(),
                Err(e) => r == Err::<(), AsyncRingBufError>(AsyncRingBufError::IOError(e))
                    && final(self).spec_ready() == old(self).spec_ready(),
            },
    {
        match event {
            Ok(()) => {
                self.ready = true;
                Ok(())
            },
            Err(e) => Err(AsyncRingBufError::IOError(e)),
        }
    }

    /// Try to take a new entry from the ring buffer, or say that the
    /// reader has to wait.
    ///
    /// The ring buffer is tried first, as `RingBuf::next` does, whatever is
    /// known of the descriptor. A record resumes the caller at once and
    /// leaves the readiness as it is. Only where there is no record the
    /// readiness is cleared, and the reader waits.
    ///
    /// No record may be handed out and not released when this is called.
    pub fn next(&mut self, producer_pos: u64, data: &[u8]) -> (r: AsyncStep)
        requires
            old(self).wf(),
            old(self).spec_ring().spec_borrowed() is None,
        ensures
            final(self).wf(),
            final(self).spec_ring().spec_capacity() == old(self).spec_ring().spec_capacity(),
            final(self).spec_ready() == (old(self).spec_ready() && r is Ready),
            data@.len() < 2 * old(self).spec_ring().spec_capacity() ==> r == AsyncStep::Wait
                && final(self).spec_ring() == old(self).spec_ring(),
            data@.len() >= 2 * old(self).spec_ring().spec_capacity() ==> {
                let found = scan(
                    data@,
                    old(self).spec_ring().spec_capacity(),
                    old(self).spec_ring().spec_consumer_pos(),
                    producer_pos as int,
                );
                &&& final(self).spec_ring().spec_consumer_pos() == found.consumer_pos
                &&& match found.item {
                    Some(item) => r == AsyncStep::Ready(item)
                        && final(self).spec_ring().spec_borrowed() == Some(
                        padded_len(item.len as int) as u64,
                    ),
                    None => r == AsyncStep::Wait && final(self).spec_ring().spec_borrowed() is None,
                }
            },
    {
        match self.ring_buf.next(producer_pos, data) {
            Some(item) => AsyncStep::Ready(item),
            None => {
                self.ready = false;
                AsyncStep::Wait
            },
        }
    }

    /// Releases the record that `next` handed out, as `RingBuf::release`
    /// does.
    pub fn release(&mut self, item: RingBufItem)
        requires
            old(self).wf(),
        ensures
            final(self).wf(),
            final(self).spec_ready() == old(self).spec_ready(),
            final(self).spec_ring().spec_capacity() == old(self).spec_ring().spec_capacity(),
            final(self).spec_ring().spec_borrowed() is None,
            final(self).spec_ring().spec_consumer_pos() == old(self).spec_ring().spec_consumer_pos()
                + match old(self).spec_ring().spec_borrowed() {
                Some(room) => room as int,
                None => 0,
            },
    {
        self.ring_buf.release(item);
    }
}

} // verus!
