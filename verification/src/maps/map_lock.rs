//! The borrow state of a map: any number of readers, or one writer, never
//! both. A borrow that cannot be had is refused at once; nothing ever waits.

use vstd::prelude::*;
use crate::maps::{KernelMap, MapError};

use crate::obj::copy_bytes;

verus! {

/// Who holds the map.
#[derive(Clone, Copy, Debug, PartialEq, Eq, Structural)]
pub enum LockState {
    /// Nobody.
    Free,
    /// This many readers; never zero.
    Shared(usize),
    /// One writer.
    Exclusive,
}

impl LockState {
    /// A count of readers is never zero.
    pub open spec fn wf(self) -> bool {
        self matches LockState::Shared(n) ==> n > 0
    }

    /// Whether one more reader can be let in.
    pub open spec fn can_share(self) -> bool {
        match self {
            LockState::Free => true,
            LockState::Shared(n) => n < usize::MAX,
            LockState::Exclusive => false,
        }
    }

    /// The state with one more reader.
    pub open spec fn shared(self) -> LockState {
        match self {
            LockState::Free => LockState::Shared(1),
            LockState::Shared(n) => LockState::Shared((n + 1) as usize),
            LockState::Exclusive => LockState::Exclusive,
        }
    }

    /// The state after the attempt of one more reader.
    pub open spec fn after_read(self) -> LockState {
        if self.can_share() {
            self.shared()
        } else {
            self
        }
    }

    /// The state after the attempt of a writer.
    pub open spec fn after_write(self) -> LockState {
        if self == LockState::Free {
            LockState::Exclusive
        } else {
            self
        }
    }

    /// The state after a reader has left. Where there is no reader, nothing
    /// changes.
    pub open spec fn unshared(self) -> LockState {
        match self {
            LockState::Shared(n) => if n > 1 {
                LockState::Shared((n - 1) as usize)
            } else {
                LockState::Free
            },
            _ => self,
        }
    }

    /// The state after the writer has left. Where there is no writer,
    /// nothing changes.
    pub open spec fn unlocked(self) -> LockState {
        match self {
            LockState::Exclusive => LockState::Free,
            _ => self,
        }
    }
}

/// A map together with its borrow state.
#[derive(Debug)]
pub struct MapLock {
    map: KernelMap,
    state: LockState,
}

/// What a reader holds. It is handed back to `MapLock::release_read`.
#[derive(Debug)]
pub struct MapRef {
    map: KernelMap,
}

/// What the writer holds. It is handed back to `MapLock::release_write`.
#[derive(Debug)]
pub struct MapRefMut {
    map: KernelMap,
}

impl MapRef {
    /// The map that is borrowed.
    pub closed spec fn spec_map(&self) -> KernelMap {
        self.map
    }

    /// The map that is borrowed.
    pub fn map(&self) -> (r: &KernelMap)
        ensures
            *r == self.spec_map(),
    {
        &self.map
    }
}

impl MapRefMut {
    /// The map that is borrowed.
    pub closed spec fn spec_map(&self) -> KernelMap {
        self.map
    }

    /// The map that is borrowed.
    pub fn map(&self) -> (r: &KernelMap)
        ensures
            *r == self.spec_map(),
    {
        &self.map
    }
}

impl MapLock {
    /// The map.
    pub closed spec fn spec_map(&self) -> KernelMap {
        self.map
    }

    /// The borrow state.
    pub closed spec fn spec_state(&self) -> LockState {
        self.state
    }

    /// A count of readers is never zero.
    pub open spec fn wf(&self) -> bool {
        self.spec_state().wf()
    }

    /// A map that nobody holds.
    pub fn new(map: KernelMap) -> (r: MapLock)
        ensures
            r.spec_map() == map,
            r.spec_state() == LockState::Free,
            r.wf(),
    {
        MapLock { map, state: LockState::Free }
    }

    /// The map.
    pub fn map(&self) -> (r: &KernelMap)
        ensures
            *r == self.spec_map(),
    {
        &self.map
    }

    /// Whether the borrow state is well formed. It always is: the state
    /// is changed by the lock's own operations only.
    pub fn check(&self) -> (r: bool)
        ensures
            r == self.wf(),
    {
        match self.state {
            LockState::Shared(n) => n > 0,
            _ => true,
        }
    }

    /// The borrow state.
    pub fn state(&self) -> (r: LockState)
        ensures
            r == self.spec_state(),
    {
        self.state
    }

    /// Lets a reader in, unless a writer holds the map.
    ///
    /// It succeeds from `Free` and from `Shared`, and counts the reader. It
    /// fails from `Exclusive`, and where the count of readers has reached
    /// the largest number that the machine can hold.
    pub fn try_read(&mut self) -> (r: Result<MapRef, MapError>)
        requires
            old(self).wf(),
        ensures
            final(self).wf(),
            final(self).spec_map() == old(self).spec_map(),
            final(self).spec_state() == old(self).spec_state().after_read(),
            r is Ok <==> old(self).spec_state().can_share(),
            r is Ok ==> r->Ok_0.spec_map()@ == old(self).spec_map()@,
            r is Err ==> r->Err_0.is_borrowed(old(self).spec_map().spec_data().obj.name@),
    {
        match self.state {
            LockState::Free => {
                self.state = LockState::Shared(1);
            },
            LockState::Shared(n) => {
                if n == usize::MAX {
                    return Err(MapError::BorrowError { name: copy_bytes(&self.map.data().obj.name) });
                }
                self.state = LockState::Shared(n + 1);
            },
            LockState::Exclusive => {
                return Err(MapError::BorrowError { name: copy_bytes(&self.map.data().obj.name) });
            },
        }
        Ok(MapRef { map: self.map.copy() })
    }

    /// Lets the writer in, if nobody holds the map.
    ///
    /// It succeeds from `Free` only.
    pub fn try_write(&mut self) -> (r: Result<MapRefMut, MapError>)
        requires
            old(self).wf(),
        ensures
            final(self).wf(),
            final(self).spec_map() == old(self).spec_map(),
            final(self).spec_state() == old(self).spec_state().after_write(),
            r is Ok <==> old(self).spec_state() == LockState::Free,
            r is Ok ==> r->Ok_0.spec_map()@ == old(self).spec_map()@,
            r is Err ==> r->Err_0.is_borrowed(old(self).spec_map().spec_data().obj.name@),
    {
        match self.state {
            LockState::Free => {
                self.state = LockState::Exclusive;
                Ok(MapRefMut { map: self.map.copy() })
            },
            _ => Err(MapError::BorrowError { name: copy_bytes(&self.map.data().obj.name) }),
        }
    }

    /// Takes a reader's borrow back.
    pub fn release_read(&mut self, guard: MapRef)
        requires
            old(self).wf(),
        ensures
            final(self).wf(),
            final(self).spec_map() == old(self).spec_map(),
            final(self).spec_state() == old(self).spec_state().unshared(),
    {
        match self.state {
            LockState::Shared(n) => {
                if n > 1 {
                    self.state = LockState::Shared(n - 1);
                } else {
                    self.state = LockState::Free;
                }
            },
            _ => {},
        }
    }

    /// Takes the writer's borrow back.
    pub fn release_write(&mut self, guard: MapRefMut)
        requires
            old(self).wf(),
        ensures
            final(self).wf(),
            final(self).spec_map() == old(self).spec_map(),
            final(self).spec_state() == old(self).spec_state().unlocked(),
    {
        match self.state {
            LockState::Exclusive => {
                self.state = LockState::Free;
            },
            _ => {},
        }
    }
}

/// While a reader holds the map, the writer is refused; once the last
/// reader has left, the writer is let in.
pub proof fn law_readers_exclude_writer(state: LockState)
    requires
        state.wf(),
        state.can_share(),
    ensures
        state.after_read() != LockState::Free,
        state.after_read().after_write() == state.after_read(),
        state == LockState::Free ==> state.after_read().unshared() == LockState::Free
            && state.after_read().unshared().after_write() == LockState::Exclusive,
        state.after_read().unshared() == state,
{
}

/// While the writer holds the map, readers and a second writer are refused;
/// once the writer has left, the map is free.
pub proof fn law_writer_excludes_all(state: LockState)
    requires
        state == LockState::Free,
    ensures
        !state.after_write().can_share(),
        state.after_write().after_read() == LockState::Exclusive,
        state.after_write().after_write() == LockState::Exclusive,
        state.after_write().unlocked() == LockState::Free,
{
}

} // verus!
