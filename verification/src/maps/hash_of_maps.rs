//! A typed view of a hash map whose values are other maps.

use vstd::prelude::*;
use vstd::layout::size_of;
use core::marker::PhantomData;
use crate::maps::{KernelMap, MapData, MapError};
use crate::maps::pod::{check_kv_size, spec_check_kv_size, Pod};
use crate::sys::{SysError, Syscall, SyscallError};

verus! {

/// A hash map which stores other maps, seen with keys of type `K` and
/// values of type `V`.
///
/// The sizes of `K` and `V` are held against the map's definition once, when
/// the view is made.
pub struct HashOfMaps<'a, K: Pod, V: Pod> {
    inner: &'a MapData,
    _k: PhantomData<K>,
    _v: PhantomData<V>,
}

/// What a failed call becomes.
pub open spec fn syscall_error(call: Syscall, error: SysError) -> MapError {
    MapError::SyscallError(SyscallError { call, error })
}

/// What a lookup returns: the value that the kernel found; `KeyNotFound`
/// where it found none; the failure where the call failed.
pub open spec fn lookup_result<V>(reply: Result<Option<V>, SysError>) -> Result<V, MapError> {
    match reply {
        Ok(Some(v)) => Ok(v),
        Ok(None) => Err(MapError::KeyNotFound),
        Err(error) => Err(syscall_error(Syscall::BpfMapLookupElem, error)),
    }
}

/// What an update or a removal returns: the failure, where the call failed.
pub open spec fn change_result(call: Syscall, reply: Result<(), SysError>) -> Result<
    (),
    MapError,
> {
    match reply {
        Ok(()) => Ok(()),
        Err(error) => Err(syscall_error(call, error)),
    }
}

/// Interprets the kernel's answer to a lookup.
pub fn lookup<V>(reply: Result<Option<V>, SysError>) -> (r: Result<V, MapError>)
    ensures
        r == lookup_result(reply),
{
    match reply {
        Ok(Some(v)) => Ok(v),
        Ok(None) => Err(MapError::KeyNotFound),
        Err(error) => Err(
            MapError::SyscallError(SyscallError { call: Syscall::BpfMapLookupElem, error }),
        ),
    }
}

/// Interprets the kernel's answer to an update or a removal.
pub fn change(call: Syscall, reply: Result<(), SysError>) -> (r: Result<(), MapError>)
    ensures
        r == change_result(call, reply),
{
    match reply {
        Ok(()) => Ok(()),
        Err(error) => Err(MapError::SyscallError(SyscallError { call, error })),
    }
}

impl<'a, K: Pod, V: Pod> HashOfMaps<'a, K, V> {
    /// The map that is viewed.
    pub closed spec fn inner(&self) -> MapData {
        *self.inner
    }

    /// The sizes of `K` and `V` are those of the map's definition, and the
    /// map had a handle when the view was made.
    pub open spec fn wf(&self) -> bool {
        &&& size_of::<K>() == self.inner().obj.def.key_size
        &&& size_of::<V>() == self.inner().obj.def.value_size
        &&& self.inner().fd is Some
    }

    /// Views `map` with keys of type `K` and values of type `V`.
    ///
    /// It fails with `InvalidKeySize` or `InvalidValueSize` where a size
    /// differs from the definition's, and with `NotCreated` where the map
    /// has no handle.
    pub fn new(map: &'a MapData) -> (r: Result<HashOfMaps<'a, K, V>, MapError>)
        ensures
            match spec_check_kv_size(size_of::<K>(), size_of::<V>(), map.obj.def) {
                Err(e) => r is Err && r->Err_0 == e,
                Ok(()) => match map.fd {
                    None => r is Err && r->Err_0 == MapError::NotCreated,
                    Some(_) => r is Ok && r->Ok_0.inner() == *map && r->Ok_0.wf(),
                },
            },
    {
        match check_kv_size::<K, V>(map) {
            Err(e) => {
                return Err(e);
            },
            Ok(()) => {},
        }
        match map.fd_or_err() {
            Err(e) => {
                return Err(e);
            },
            Ok(_) => {},
        }
        Ok(HashOfMaps { inner: map, _k: PhantomData, _v: PhantomData })
    }

    /// Views `map`, which must be a hash of maps.
    pub fn try_from(map: &'a KernelMap) -> (r: Result<HashOfMaps<'a, K, V>, MapError>)
        ensures
            match *map {
                KernelMap::HashOfMaps(data) => match spec_check_kv_size(
                    size_of::<K>(),
                    size_of::<V>(),
                    data.obj.def,
                ) {
                    Err(e) => r is Err && r->Err_0 == e,
                    Ok(()) => match data.fd {
                        None => r is Err && r->Err_0 == MapError::NotCreated,
                        Some(_) => r is Ok && r->Ok_0.inner() == data && r->Ok_0.wf(),
                    },
                },
                _ => r is Err && r->Err_0 == (MapError::InvalidMapType {
                    map_type: map.spec_data().obj.def.map_type,
                }),
            },
    {
        match map {
            KernelMap::HashOfMaps(data) => HashOfMaps::new(data),
            _ => Err(MapError::InvalidMapType { map_type: map.data().obj.def.map_type }),
        }
    }

    /// The map that is viewed.
    pub fn map(&self) -> (r: &MapData)
        ensures
            *r == self.inner(),
    {
        self.inner
    }

    /// Returns a copy of the map associated with the key.
    ///
    /// `reply` is the kernel's answer to the lookup of `key` with `flags`.
    pub fn get(&self, key: &K, flags: u64, reply: Result<Option<V>, SysError>) -> (r: Result<
        V,
        MapError,
    >)
        ensures
            match self.inner().fd {
                None => r == Err::<V, MapError>(MapError::NotCreated),
                Some(_) => r == lookup_result(reply),
            },
    {
        match self.inner.fd_or_err() {
            Err(e) => Err(e),
            Ok(_) => lookup(reply),
        }
    }

    /// Inserts a map into the hash of maps.
    ///
    /// `reply` is the kernel's answer to the update of `key` to `value`
    /// with `flags`.
    pub fn insert(&mut self, key: &K, value: &V, flags: u64, reply: Result<(), SysError>) -> (r:
        Result<(), MapError>)
        ensures
            final(self).inner() == old(self).inner(),
            match old(self).inner().fd {
                None => r == Err::<(), MapError>(MapError::NotCreated),
                Some(_) => r == change_result(Syscall::BpfMapUpdateElem, reply),
            },
    {
        match self.inner.fd_or_err() {
            Err(e) => Err(e),
            Ok(_) => change(Syscall::BpfMapUpdateElem, reply),
        }
    }

    /// Removes a key from the hash of maps.
    ///
    /// `reply` is the kernel's answer to the removal of `key`.
    pub fn remove(&mut self, key: &K, reply: Result<(), SysError>) -> (r: Result<(), MapError>)
        ensures
            final(self).inner() == old(self).inner(),
            match old(self).inner().fd {
                None => r == Err::<(), MapError>(MapError::NotCreated),
                Some(_) => r == change_result(Syscall::BpfMapDeleteElem, reply),
            },
    {
        match self.inner.fd_or_err() {
            Err(e) => Err(e),
            Ok(_) => change(Syscall::BpfMapDeleteElem, reply),
        }
    }
}

} // verus!
