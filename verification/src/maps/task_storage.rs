//! A typed view of a map that holds one value for each task.

use vstd::prelude::*;
use vstd::layout::size_of;
use core::marker::PhantomData;
use crate::maps::hash_of_maps::{lookup, lookup_result, syscall_error};
use crate::maps::map_iter::{MapIter, MapKeys};
use crate::maps::{KernelMap, MapData, MapError};
use crate::maps::pod::{check_kv_size, spec_check_kv_size, Pod};
use crate::sys::{SysError, Syscall, SyscallError};

verus! {

/// A storage for tasks, seen with values of type `V`. The kernel keys it by
/// a descriptor of the task, which is four bytes wide.
pub struct TaskStorage<'a, V: Pod> {
    inner: &'a MapData,
    _v: PhantomData<V>,
}

impl<'a, V: Pod> TaskStorage<'a, V> {
    /// The map that is viewed.
    pub closed spec fn inner(&self) -> MapData {
        *self.inner
    }

    /// The map's key size is that of a task descriptor, and its value size
    /// is that of `V`.
    pub open spec fn wf(&self) -> bool {
        &&& size_of::<i32>() == self.inner().obj.def.key_size
        &&& size_of::<V>() == self.inner().obj.def.value_size
    }

    /// Views `map` with values of type `V`.
    ///
    /// It fails with `InvalidKeySize` where the map's keys are not four
    /// bytes wide, and with `InvalidValueSize` where the size of `V` is not
    /// the map's value size.
    pub fn new(map: &'a MapData) -> (r: Result<TaskStorage<'a, V>, MapError>)
        ensures
            match spec_check_kv_size(size_of::<i32>(), size_of::<V>(), map.obj.def) {
                Err(e) => r is Err && r->Err_0 == e,
                Ok(()) => r is Ok && r->Ok_0.inner() == *map && r->Ok_0.wf(),
            },
    {
        match check_kv_size::<i32, V>(map) {
            Err(e) => Err(e),
            Ok(()) => Ok(TaskStorage { inner: map, _v: PhantomData }),
        }
    }

    /// Views `map`, which must be a task storage.
    pub fn try_from(map: &'a KernelMap) -> (r: Result<TaskStorage<'a, V>, MapError>)
        ensures
            match *map {
                KernelMap::TaskStorage(data) => match spec_check_kv_size(
                    size_of::<i32>(),
                    size_of::<V>(),
                    data.obj.def,
                ) {
                    Err(e) => r is Err && r->Err_0 == e,
                    Ok(()) => r is Ok && r->Ok_0.inner() == data && r->Ok_0.wf(),
                },
                _ => r is Err && r->Err_0 == (MapError::InvalidMapType {
                    map_type: map.spec_data().obj.def.map_type,
                }),
            },
    {
        match map {
            KernelMap::TaskStorage(data) => TaskStorage::new(data),
            _ => Err(MapError::InvalidMapType { map_type: map.data().obj.def.map_type }),
        }
    }

    /// What the kernel is asked to look up once the descriptor of the task
    /// was asked for: the map's handle and the key, which is the task's
    /// descriptor and not its pid. Where the descriptor could not be had,
    /// or the map has no handle, nothing is looked up, and the error is the
    /// one that `get` gives.
    pub fn lookup_request(&self, pidfd: Result<i32, SysError>) -> (r: Result<(i32, i32), MapError>)
        ensures
            match pidfd {
                Err(error) => r == Err::<(i32, i32), MapError>(
                    syscall_error(Syscall::PidfdOpen, error),
                ),
                Ok(key) => match self.inner().fd {
                    None => r == Err::<(i32, i32), MapError>(MapError::NotCreated),
                    Some(fd) => r == Ok::<(i32, i32), MapError>((fd, key)),
                },
            },
    {
        match pidfd {
            Err(error) => Err(
                MapError::SyscallError(SyscallError { call: Syscall::PidfdOpen, error }),
            ),
            Ok(key) => match self.inner.fd_or_err() {
                Err(e) => Err(e),
                Ok(fd) => Ok((fd, key)),
            },
        }
    }

    /// Returns the value stored for the given `pid`.
    ///
    /// `pidfd` is the kernel's answer to the opening of a descriptor for
    /// the task `pid`, and `reply` its answer to the lookup of that
    /// descriptor with `flags`, which is only looked at where the
    /// descriptor was had.
    pub fn get(
        &self,
        pid: &u32,
        flags: u64,
        pidfd: Result<i32, SysError>,
        reply: Result<Option<V>, SysError>,
    ) -> (r: Result<V, MapError>)
        ensures
            match pidfd {
                Err(error) => r == Err::<V, MapError>(syscall_error(Syscall::PidfdOpen, error)),
                Ok(_) => match self.inner().fd {
                    None => r == Err::<V, MapError>(MapError::NotCreated),
                    Some(_) => r == lookup_result(reply),
                },
            },
    {
        match pidfd {
            Err(error) => Err(
                MapError::SyscallError(SyscallError { call: Syscall::PidfdOpen, error }),
            ),
            Ok(_) => match self.inner.fd_or_err() {
                Err(e) => Err(e),
                Ok(_) => lookup(reply),
            },
        }
    }

    /// A walk over all pairs of task and value, in the kernel's order.
    pub fn iter(&self) -> (r: MapIter<u32, V>)
        ensures
            r.keys.key == None::<u32>,
            !r.keys.err,
    {
        MapIter::new()
    }

    /// A walk over all tasks that have a value, in the kernel's order.
    pub fn keys(&self) -> (r: MapKeys<u32>)
        ensures
            r.key == None::<u32>,
            !r.err,
    {
        MapKeys::new()
    }

    /// The map that is viewed.
    pub fn map(&self) -> (r: &MapData)
        ensures
            *r == self.inner(),
    {
        self.inner
    }
}

} // verus!
