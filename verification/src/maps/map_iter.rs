//! Walking the keys, and the pairs of key and value, of a map.
//!
//! The kernel hands out the key that follows a given one. The walk asks for
//! the key after the one it got last, until the kernel has none left.

use vstd::prelude::*;
use crate::maps::hash_of_maps::syscall_error;
use crate::maps::MapError;
use crate::maps::pod::Pod;
use crate::sys::{SysError, Syscall, SyscallError};

verus! {

/// A walk over the keys of a map.
pub struct MapKeys<K: Pod> {
    /// The key that the kernel handed out last.
    pub key: Option<K>,
    /// Whether a call has failed. A failed walk has ended.
    pub err: bool,
}

/// One step of a walk over pairs of key and value.
pub enum MapIterStep<K, V> {
    /// The next pair, or the failure that ends the walk.
    Item(Result<(K, V), MapError>),
    /// The key was removed before its value could be read; the walk goes
    /// on with the key after it.
    Skip,
    /// There are no keys left.
    End,
}

/// A walk over the pairs of key and value of a map.
pub struct MapIter<K: Pod, V: Pod> {
    pub keys: MapKeys<K>,
    pub _v: core::marker::PhantomData<V>,
}

impl<K: Pod> MapKeys<K> {
    /// A walk that starts before the first key.
    pub fn new() -> (r: MapKeys<K>)
        ensures
            r.key == None::<K>,
            !r.err,
    {
        MapKeys { key: None, err: false }
    }

    /// Takes the kernel's answer to the question for the key after
    /// `self.key`.
    ///
    /// A walk that has failed yields nothing more, whatever the answer. A
    /// key is yielded and remembered. Where the kernel has no key left, the
    /// walk yields nothing and starts over. A failed call is yielded once
    /// and ends the walk.
    pub fn next(&mut self, reply: Result<Option<K>, SysError>) -> (r: Option<Result<K, MapError>>)
        ensures
            old(self).err ==> r == None::<Result<K, MapError>> && *final(self) == *old(self),
            !old(self).err ==> match reply {
                Ok(Some(key)) => r == Some(Ok::<K, MapError>(key)) && final(self).key == Some(key)
                    && !final(self).err,
                Ok(None) => r == None::<Result<K, MapError>> && final(self).key == None::<K>
                    && !final(self).err,
                Err(error) => r == Some(
                    Err::<K, MapError>(syscall_error(Syscall::BpfMapGetNextKey, error)),
                ) && final(self).key == old(self).key && final(self).err,
            },
    {
        if self.err {
            return None;
        }
        match reply {
            Ok(Some(key)) => {
                self.key = Some(key);
                Some(Ok(key))
            },
            Ok(None) => {
                self.key = None;
                None
            },
            Err(error) => {
                self.err = true;
                Some(
                    Err(
                        MapError::SyscallError(
                            SyscallError { call: Syscall::BpfMapGetNextKey, error },
                        ),
                    ),
                )
            },
        }
    }
}

impl<K: Pod, V: Pod> MapIter<K, V> {
    /// A walk that starts before the first key.
    pub fn new() -> (r: MapIter<K, V>)
        ensures
            r.keys.key == None::<K>,
            !r.keys.err,
    {
        MapIter { keys: MapKeys::new(), _v: core::marker::PhantomData }
    }

    /// What the walk yields for the key `key`, given what the lookup of
    /// that key gave: the pair where the value was found, nothing where the
    /// key is no longer in the map, and any other failure as it is.
    pub fn pair(key: K, value: Result<V, MapError>) -> (r: MapIterStep<K, V>)
        ensures
            match value {
                Ok(v) => r == MapIterStep::Item(Ok::<(K, V), MapError>((key, v))),
                Err(MapError::KeyNotFound) => r == MapIterStep::<K, V>::Skip,
                Err(e) => r == MapIterStep::Item(Err::<(K, V), MapError>(e)),
            },
    {
        match value {
            Ok(v) => MapIterStep::Item(Ok((key, v))),
            Err(MapError::KeyNotFound) => MapIterStep::Skip,
            Err(e) => MapIterStep::Item(Err(e)),
        }
    }

    /// Takes the kernel's answer to the question for the next key, and what
    /// the lookup of that key gave.
    ///
    /// The keys advance as in `MapKeys::next`. A key whose value is found
    /// is yielded with it. A key that is no longer in the map is skipped.
    /// Any other failure is yielded.
    pub fn next(&mut self, key: Result<Option<K>, SysError>, value: Result<V, MapError>) -> (r:
        MapIterStep<K, V>)
        ensures
            old(self).keys.err ==> r == MapIterStep::<K, V>::End && *final(self) == *old(self),
            !old(self).keys.err ==> match key {
                Ok(Some(k)) => final(self).keys.key == Some(k) && !final(self).keys.err && match value {
                    Ok(v) => r == MapIterStep::Item(Ok::<(K, V), MapError>((k, v))),
                    Err(MapError::KeyNotFound) => r == MapIterStep::<K, V>::Skip,
                    Err(e) => r == MapIterStep::Item(Err::<(K, V), MapError>(e)),
                },
                Ok(None) => r == MapIterStep::<K, V>::End && final(self).keys.key == None::<K>
                    && !final(self).keys.err,
                Err(error) => r == MapIterStep::Item(
                    Err::<(K, V), MapError>(syscall_error(Syscall::BpfMapGetNextKey, error)),
                ) && final(self).keys.key == old(self).keys.key && final(self).keys.err,
            },
    {
        match self.keys.next(key) {
            None => MapIterStep::End,
            Some(Err(e)) => MapIterStep::Item(Err(e)),
            Some(Ok(k)) => MapIter::pair(k, value),
        }
    }
}

} // verus!
