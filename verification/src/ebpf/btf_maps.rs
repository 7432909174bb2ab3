//! Maps that are declared through their debug types: the kind, the sizes,
//! the number of entries and the flags are part of the declared type.

use vstd::prelude::*;
use vstd::layout::{align_of, size_of};
use core::marker::PhantomData;
use crate::ebpf::maps::{non_null, spec_non_null, spec_status, status};
use crate::maps::{
    BPF_MAP_TYPE_HASH, BPF_MAP_TYPE_LRU_HASH, BPF_MAP_TYPE_PERCPU_ARRAY,
    BPF_MAP_TYPE_PERCPU_HASH, BPF_MAP_TYPE_PROG_ARRAY, BPF_MAP_TYPE_RINGBUF,
    BPF_MAP_TYPE_TASK_STORAGE,
};

verus! {

/// The flag of a map whose entries are not allocated in advance, which a
/// storage for tasks is declared with.
pub const BPF_F_NO_PREALLOC: usize = 1;

/// What a declaration says of a map.
#[derive(Clone, Copy, Debug, PartialEq, Eq, Structural)]
pub struct BtfMapDecl {
    pub map_type: u32,
    pub key_size: usize,
    pub value_size: usize,
    pub max_entries: usize,
    pub map_flags: usize,
}

/// The declaration of a map of kind `map_type` with keys of type `K`,
/// values of type `V`, `max_entries` entries and the flags `map_flags`.
pub open spec fn declared<K, V>(map_type: u32, max_entries: usize, map_flags: usize) -> BtfMapDecl {
    BtfMapDecl {
        map_type,
        key_size: size_of::<K>() as usize,
        value_size: size_of::<V>() as usize,
        max_entries,
        map_flags,
    }
}

/// Builds the declaration of a map.
pub fn declare<K, V>(map_type: u32, max_entries: usize, map_flags: usize) -> (r: BtfMapDecl)
    ensures
        r == declared::<K, V>(map_type, max_entries, map_flags),
{
    BtfMapDecl {
        map_type,
        key_size: core::mem::size_of::<K>(),
        value_size: core::mem::size_of::<V>(),
        max_entries,
        map_flags,
    }
}

/// A hash map with keys of type `K`, values of type `V`, `M` entries and
/// the flags `F`.
pub struct HashMap<K, V, const M: usize, const F: usize> {
    decl: BtfMapDecl,
    _k: PhantomData<K>,
    _v: PhantomData<V>,
}

impl<K, V, const M: usize, const F: usize> HashMap<K, V, M, F> {
    /// What the declaration says.
    pub closed spec fn spec_decl(&self) -> BtfMapDecl {
        self.decl
    }

    /// Declares the map.
    pub fn new() -> (r: HashMap<K, V, M, F>)
        ensures
            r.spec_decl() == declared::<K, V>(BPF_MAP_TYPE_HASH, M, F),
    {
        HashMap { decl: declare::<K, V>(BPF_MAP_TYPE_HASH, M, F), _k: PhantomData, _v: PhantomData }
    }

    /// What the declaration says.
    pub fn decl(&self) -> (r: BtfMapDecl)
        ensures
            r == self.spec_decl(),
    {
        self.decl
    }

    /// The address of the value associated with `key`, given the address
    /// `found` that the lookup helper answered with; `None` where the map
    /// holds nothing under the key.
    pub fn get_ptr(&self, key: &K, found: usize) -> (r: Option<usize>)
        ensures
            r == spec_non_null(found),
    {
        non_null(found)
    }

    /// The address of the value associated with `key`, to write through.
    pub fn get_ptr_mut(&self, key: &K, found: usize) -> (r: Option<usize>)
        ensures
            r == spec_non_null(found),
    {
        non_null(found)
    }

    /// What the update of `key` to `value` with `flags` gave, given the
    /// status `ret` that the update helper answered with.
    pub fn insert(&self, key: &K, value: &V, flags: u64, ret: i64) -> (r: Result<(), i64>)
        ensures
            r == spec_status(ret),
    {
        status(ret)
    }

    /// What the removal of `key` gave, given the status `ret` that the
    /// helper answered with.
    pub fn remove(&self, key: &K, ret: i64) -> (r: Result<(), i64>)
        ensures
            r == spec_status(ret),
    {
        status(ret)
    }
}

/// A hash map that gives up the entry used least recently when it is full.
pub struct LruHashMap<K, V, const M: usize, const F: usize> {
    decl: BtfMapDecl,
    _k: PhantomData<K>,
    _v: PhantomData<V>,
}

impl<K, V, const M: usize, const F: usize> LruHashMap<K, V, M, F> {
    /// What the declaration says.
    pub closed spec fn spec_decl(&self) -> BtfMapDecl {
        self.decl
    }

    /// Declares the map.
    pub fn new() -> (r: LruHashMap<K, V, M, F>)
        ensures
            r.spec_decl() == declared::<K, V>(BPF_MAP_TYPE_LRU_HASH, M, F),
    {
        LruHashMap {
            decl: declare::<K, V>(BPF_MAP_TYPE_LRU_HASH, M, F),
            _k: PhantomData,
            _v: PhantomData,
        }
    }

    /// What the declaration says.
    pub fn decl(&self) -> (r: BtfMapDecl)
        ensures
            r == self.spec_decl(),
    {
        self.decl
    }

    /// The address of the value associated with `key`, given the address
    /// `found` that the lookup helper answered with; `None` where the map
    /// holds nothing under the key.
    pub fn get_ptr(&self, key: &K, found: usize) -> (r: Option<usize>)
        ensures
            r == spec_non_null(found),
    {
        non_null(found)
    }

    /// The address of the value associated with `key`, to write through.
    pub fn get_ptr_mut(&self, key: &K, found: usize) -> (r: Option<usize>)
        ensures
            r == spec_non_null(found),
    {
        non_null(found)
    }

    /// What the update of `key` to `value` with `flags` gave, given the
    /// status `ret` that the update helper answered with.
    pub fn insert(&self, key: &K, value: &V, flags: u64, ret: i64) -> (r: Result<(), i64>)
        ensures
            r == spec_status(ret),
    {
        status(ret)
    }

    /// What the removal of `key` gave, given the status `ret` that the
    /// helper answered with.
    pub fn remove(&self, key: &K, ret: i64) -> (r: Result<(), i64>)
        ensures
            r == spec_status(ret),
    {
        status(ret)
    }
}

/// A hash map that holds one value for each processor.
pub struct PerCpuHashMap<K, V, const M: usize, const F: usize> {
    decl: BtfMapDecl,
    _k: PhantomData<K>,
    _v: PhantomData<V>,
}

impl<K, V, const M: usize, const F: usize> PerCpuHashMap<K, V, M, F> {
    /// What the declaration says.
    pub closed spec fn spec_decl(&self) -> BtfMapDecl {
        self.decl
    }

    /// Declares the map.
    pub fn new() -> (r: PerCpuHashMap<K, V, M, F>)
        ensures
            r.spec_decl() == declared::<K, V>(BPF_MAP_TYPE_PERCPU_HASH, M, F),
    {
        PerCpuHashMap {
            decl: declare::<K, V>(BPF_MAP_TYPE_PERCPU_HASH, M, F),
            _k: PhantomData,
            _v: PhantomData,
        }
    }

    /// What the declaration says.
    pub fn decl(&self) -> (r: BtfMapDecl)
        ensures
            r == self.spec_decl(),
    {
        self.decl
    }

    /// The address of this processor's value associated with `key`, given
    /// the address `found` that the lookup helper answered with; `None`
    /// where the map holds nothing under the key.
    pub fn get_ptr(&self, key: &K, found: usize) -> (r: Option<usize>)
        ensures
            r == spec_non_null(found),
    {
        non_null(found)
    }

    /// The address of this processor's value associated with `key`, to
    /// write through.
    pub fn get_ptr_mut(&self, key: &K, found: usize) -> (r: Option<usize>)
        ensures
            r == spec_non_null(found),
    {
        non_null(found)
    }

    /// What the update of `key` to `value` with `flags` gave, given the
    /// status `ret` that the update helper answered with.
    pub fn insert(&self, key: &K, value: &V, flags: u64, ret: i64) -> (r: Result<(), i64>)
        ensures
            r == spec_status(ret),
    {
        status(ret)
    }

    /// What the removal of `key` gave, given the status `ret` that the
    /// helper answered with.
    pub fn remove(&self, key: &K, ret: i64) -> (r: Result<(), i64>)
        ensures
            r == spec_status(ret),
    {
        status(ret)
    }
}

/// An array of `M` entries that holds one value of type `T` for each
/// processor. Its keys are indices of four bytes.
pub struct PerCpuArray<T, const M: usize, const F: usize> {
    decl: BtfMapDecl,
    _t: PhantomData<T>,
}

impl<T, const M: usize, const F: usize> PerCpuArray<T, M, F> {
    /// What the declaration says.
    pub closed spec fn spec_decl(&self) -> BtfMapDecl {
        self.decl
    }

    /// Declares the map.
    pub fn new() -> (r: PerCpuArray<T, M, F>)
        ensures
            r.spec_decl() == declared::<u32, T>(BPF_MAP_TYPE_PERCPU_ARRAY, M, F),
    {
        PerCpuArray { decl: declare::<u32, T>(BPF_MAP_TYPE_PERCPU_ARRAY, M, F), _t: PhantomData }
    }

    /// What the declaration says.
    pub fn decl(&self) -> (r: BtfMapDecl)
        ensures
            r == self.spec_decl(),
    {
        self.decl
    }

    /// The address of this processor's value at `index`, given the address
    /// `found` that the lookup helper answered with; `None` where the array
    /// has no such index.
    pub fn get_ptr(&self, index: u32, found: usize) -> (r: Option<usize>)
        ensures
            r == spec_non_null(found),
    {
        non_null(found)
    }

    /// The address of this processor's value at `index`, to write through.
    pub fn get_ptr_mut(&self, index: u32, found: usize) -> (r: Option<usize>)
        ensures
            r == spec_non_null(found),
    {
        non_null(found)
    }
}

/// The declaration of an array of programs.
#[derive(Clone, Copy, Debug)]
pub struct ProgramArrayDef<const M: usize, const F: usize> {
    pub decl: BtfMapDecl,
}

/// An array of `M` programs, to jump into by index.
pub struct ProgramArray<const M: usize, const F: usize> {
    def: ProgramArrayDef<M, F>,
}

impl<const M: usize, const F: usize> ProgramArray<M, F> {
    /// What the declaration says.
    pub closed spec fn spec_decl(&self) -> BtfMapDecl {
        self.def.decl
    }

    /// Declares the map. Its keys and values are four bytes wide.
    pub fn new() -> (r: ProgramArray<M, F>)
        ensures
            r.spec_decl() == declared::<u32, u32>(BPF_MAP_TYPE_PROG_ARRAY, M, F),
    {
        ProgramArray {
            def: ProgramArrayDef { decl: declare::<u32, u32>(BPF_MAP_TYPE_PROG_ARRAY, M, F) },
        }
    }

    /// What the declaration says.
    pub fn decl(&self) -> (r: BtfMapDecl)
        ensures
            r == self.spec_decl(),
    {
        self.def.decl
    }

    /// What a jump into the program at `index` gave, given the status `res`
    /// that the helper answered with.
    ///
    /// A jump that succeeds does not come back, so an answer is a failure:
    /// `res` is not zero, and is the error.
    pub fn tail_call(&self, index: u32, res: i64) -> (r: Result<(), i64>)
        requires
            res != 0,
        ensures
            r == Err::<(), i64>(res),
    {
        Err(res)
    }
}

/// A condition that is known when the program is put together.
pub struct Assert<const COND: bool> {

}

/// Holds of the conditions that are true.
pub trait IsTrue {

}

impl IsTrue for Assert<true> {

}

/// The declaration of a ring buffer.
#[derive(Clone, Copy, Debug)]
pub struct RingBufDef<const S: usize, const F: usize> {
    pub decl: BtfMapDecl,
}

/// A ring buffer of `S` bytes, seen from the producer's side.
pub struct RingBuf<const S: usize, const F: usize> {
    def: RingBufDef<S, F>,
}

/// A ring buffer entry, returned from [`RingBuf::reserve`]: room for one
/// `T` that the producer fills and then submits or discards, by handing
/// the room's address to the kernel.
pub struct RingBufEntry<T> {
    addr: usize,
    _t: PhantomData<T>,
}

impl<T> RingBufEntry<T> {
    /// The address of the room.
    pub closed spec fn spec_addr(&self) -> usize {
        self.addr
    }

    /// The address of the room.
    pub fn addr(&self) -> (r: usize)
        ensures
            r == self.spec_addr(),
    {
        self.addr
    }
}

/// What an output to the ring buffer gave: a negative status is the error.
pub open spec fn spec_output_status(ret: i64) -> Result<(), i64> {
    if ret < 0 {
        Err(ret)
    } else {
        Ok(())
    }
}

impl<const S: usize, const F: usize> RingBuf<S, F> {
    /// What the declaration says.
    pub closed spec fn spec_decl(&self) -> BtfMapDecl {
        self.def.decl
    }

    /// Declare an eBPF ring buffer. It has neither keys nor values; its
    /// number of entries is its size in bytes.
    pub fn new() -> (r: RingBuf<S, F>)
        ensures
            r.spec_decl() == (BtfMapDecl {
                map_type: BPF_MAP_TYPE_RINGBUF,
                key_size: 0,
                value_size: 0,
                max_entries: S,
                map_flags: F,
            }),
    {
        RingBuf {
            def: RingBufDef {
                decl: BtfMapDecl {
                    map_type: BPF_MAP_TYPE_RINGBUF,
                    key_size: 0,
                    value_size: 0,
                    max_entries: S,
                    map_flags: F,
                },
            },
        }
    }

    /// What the declaration says.
    pub fn decl(&self) -> (r: BtfMapDecl)
        ensures
            r == self.spec_decl(),
    {
        self.def.decl
    }

    /// Reserve memory in the ring buffer that can fit `T`.
    ///
    /// `addr` is the address that the helper answered with. Returns `None`
    /// if the ring buffer is full, which the helper says with a null
    /// address.
    ///
    /// The kernel reserves memory at a boundary of eight bytes, so the
    /// alignment of `T` must divide eight.
    pub fn reserve<T>(&self, flags: u64, addr: usize) -> (r: Option<RingBufEntry<T>>)
        requires
            align_of::<T>() > 0,
            8int % (align_of::<T>() as int) == 0,
        ensures
            r is Some <==> addr != 0,
            r is Some ==> r->Some_0.spec_addr() == addr,
    {
        self.reserve_impl(flags, addr)
    }

    fn reserve_impl<T>(&self, flags: u64, addr: usize) -> (r: Option<RingBufEntry<T>>)
        ensures
            r is Some <==> addr != 0,
            r is Some ==> r->Some_0.spec_addr() == addr,
    {
        match non_null(addr) {
            Some(addr) => Some(RingBufEntry { addr, _t: PhantomData }),
            None => None,
        }
    }

    /// What copying `data` to the ring buffer gave, given the status `ret`
    /// that the helper answered with.
    pub fn output<T>(&self, data: &T, flags: u64, ret: i64) -> (r: Result<(), i64>)
        ensures
            r == spec_output_status(ret),
    {
        if ret < 0 {
            Err(ret)
        } else {
            Ok(())
        }
    }
}

/// The declaration of a storage for tasks.
#[derive(Debug)]
pub struct TaskStorageDef<T, const F: usize> {
    pub decl: BtfMapDecl,
    pub _t: PhantomData<T>,
}

/// A storage that holds one value of type `T` for each task. Its keys are
/// task descriptors of four bytes, and it has no fixed number of entries.
pub struct TaskStorage<T, const F: usize> {
    def: TaskStorageDef<T, F>,
}

impl<T, const F: usize> TaskStorage<T, F> {
    /// What the declaration says.
    pub closed spec fn spec_decl(&self) -> BtfMapDecl {
        self.def.decl
    }

    /// Declares the map.
    pub fn new() -> (r: TaskStorage<T, F>)
        ensures
            r.spec_decl() == declared::<i32, T>(BPF_MAP_TYPE_TASK_STORAGE, 0, F),
    {
        TaskStorage {
            def: TaskStorageDef {
                decl: declare::<i32, T>(BPF_MAP_TYPE_TASK_STORAGE, 0, F),
                _t: PhantomData,
            },
        }
    }

    /// What the declaration says.
    pub fn decl(&self) -> (r: BtfMapDecl)
        ensures
            r == self.spec_decl(),
    {
        self.def.decl
    }

    /// The address of the value of the task `task`, which is created from
    /// `initial` where the task has none, given the address `found` that
    /// the helper answered with; `None` where the value could not be
    /// created.
    pub fn get_or_insert_ptr(&self, task: usize, initial: &T, found: usize) -> (r: Option<usize>)
        ensures
            r == spec_non_null(found),
    {
        non_null(found)
    }

    /// The address of the value of the task `task`, given the address
    /// `found` that the helper answered with; `None` where the task has no
    /// value.
    pub fn get_ptr(&self, task: usize, found: usize) -> (r: Option<usize>)
        ensures
            r == spec_non_null(found),
    {
        self.get_ptr_mut(task, found)
    }

    /// The address of the value of the task `task`, to write through.
    pub fn get_ptr_mut(&self, task: usize, found: usize) -> (r: Option<usize>)
        ensures
            r == spec_non_null(found),
    {
        non_null(found)
    }

    /// What the removal of the value of the task `task` gave, given the
    /// status `ret` that the helper answered with.
    pub fn remove(&self, task: usize, ret: i64) -> (r: Result<(), i64>)
        ensures
            r == spec_status(ret),
    {
        status(ret)
    }
}

} // verus!
