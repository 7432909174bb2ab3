//! Maps: their kernel handles, the borrow state of each, and typed views.

use vstd::prelude::*;
use vstd::string::StringSliceAdditionalSpecFns;

use crate::bytes::bytes_eq;
use crate::obj::{MapDef, MapModel, ObjMap, BPF_MAP_TYPE_PERF_EVENT_ARRAY};
use crate::obj::relocation::MapSlot;
use crate::sys::{SysError, Syscall, SyscallError};

pub mod async_ringbuf;
pub mod hash_of_maps;
pub mod map_iter;
pub mod map_lock;
pub mod pod;
pub mod ringbuf;
pub mod task_storage;

verus! {

/// Map type: a hash map.
pub const BPF_MAP_TYPE_HASH: u32 = 1;

/// Map type: an array of programs.
pub const BPF_MAP_TYPE_PROG_ARRAY: u32 = 3;

/// Map type: a hash map with one value for each processor.
pub const BPF_MAP_TYPE_PERCPU_HASH: u32 = 5;

/// Map type: an array with one value for each processor.
pub const BPF_MAP_TYPE_PERCPU_ARRAY: u32 = 6;

/// Map type: a hash map that gives up the entry used least recently.
pub const BPF_MAP_TYPE_LRU_HASH: u32 = 9;

/// Map type: a hash map whose values are maps.
pub const BPF_MAP_TYPE_HASH_OF_MAPS: u32 = 13;

/// Map type: a ring buffer.
pub const BPF_MAP_TYPE_RINGBUF: u32 = 27;

/// Map type: a storage with one value for each task.
pub const BPF_MAP_TYPE_TASK_STORAGE: u32 = 29;

/// Why an operation on a map failed.
#[derive(Clone, Debug, PartialEq, Eq)]
pub enum MapError {
    /// No map of the name `name` was loaded.
    MapNotFound { name: Vec<u8> },
    /// The map `name` is borrowed in a way that excludes the borrow asked
    /// for.
    BorrowError { name: Vec<u8> },
    /// The map holds no value under the key.
    KeyNotFound,
    /// The key type's size is not the map's key size.
    InvalidKeySize { size: usize, expected: usize },
    /// The value type's size is not the map's value size.
    InvalidValueSize { size: usize, expected: usize },
    /// The map is of another kind than the view asked for.
    InvalidMapType { map_type: u32 },
    /// The map has no kernel handle yet.
    NotCreated,
    /// The map has a kernel handle already.
    AlreadyCreated,
    /// The map's number of entries is no capacity that a ring buffer can
    /// have.
    InvalidCapacity { capacity: u32 },
    /// The host has to size the map and has no processor to size it by.
    NoProcessors,
    /// The kernel refused a call.
    SyscallError(SyscallError),
}

impl MapError {
    /// Whether this is the error of a lookup of the name `name`, which no
    /// map has.
    pub open spec fn is_not_found(self, name: Seq<u8>) -> bool {
        self matches MapError::MapNotFound { name: n } && n@ == name
    }

    /// Whether this is the error of a borrow of the map `name` that the
    /// map's state excludes.
    pub open spec fn is_borrowed(self, name: Seq<u8>) -> bool {
        self matches MapError::BorrowError { name: n } && n@ == name
    }
}

/// A map of the object together with its kernel handle, once created.
///
/// The handle is assigned once, by `create`, and stays as it is thereafter.
#[derive(Debug)]
pub struct MapData {
    pub obj: ObjMap,
    pub fd: Option<i32>,
}

/// A map with its handle, as a value of specifications.
pub struct MapDataModel {
    pub obj: MapModel,
    pub fd: Option<i32>,
}

impl View for MapData {
    type V = MapDataModel;

    open spec fn view(&self) -> MapDataModel {
        MapDataModel { obj: self.obj@, fd: self.fd }
    }
}

/// Whether the host decides the number of entries of a map of this
/// definition: a per-processor event array that was defined without a
/// number of entries.
pub open spec fn spec_sized_by_host(def: MapDef) -> bool {
    def.map_type == BPF_MAP_TYPE_PERF_EVENT_ARRAY && def.max_entries == 0
}

/// The definition with which a map is created on a host with
/// `possible_cpus` processors: a map that the host sizes gets one entry for
/// each processor.
pub open spec fn realized_def(def: MapDef, possible_cpus: u32) -> MapDef {
    if spec_sized_by_host(def) {
        MapDef { max_entries: possible_cpus, ..def }
    } else {
        def
    }
}

/// Whether the host decides the number of entries of a map of this
/// definition.
pub fn sized_by_host(def: &MapDef) -> (r: bool)
    ensures
        r == spec_sized_by_host(*def),
{
    def.map_type == BPF_MAP_TYPE_PERF_EVENT_ARRAY && def.max_entries == 0
}

/// Whether a map has to be seeded after its creation: it has initial data
/// and is not the section of zeroed variables, which the kernel has zeroed
/// already.
pub open spec fn spec_needs_seed(m: MapModel) -> bool {
    m.data.len() > 0 && m.name != ".bss".spec_bytes()
}

/// Whether a map has to be seeded after its creation.
pub fn needs_seed(m: &ObjMap) -> (r: bool)
    ensures
        r == spec_needs_seed(m@),
{
    m.data.len() > 0 && !bytes_eq(m.name.as_slice(), ".bss".as_bytes())
}

/// What relocation needs to know of the map.
pub open spec fn slot_of(m: MapDataModel) -> MapSlot {
    MapSlot { section_index: m.obj.section_index, fd: m.fd, globals: m.obj.globals }
}

impl MapData {
    /// The map before its creation on a host with `possible_cpus`
    /// processors.
    pub fn new(obj: ObjMap, possible_cpus: u32) -> (r: MapData)
        ensures
            r@ == (MapDataModel {
                obj: MapModel { def: realized_def(obj.def, possible_cpus), ..obj@ },
                fd: None,
            }),
    {
        let mut obj: ObjMap = obj;
        if sized_by_host(&obj.def) {
            obj.def.max_entries = possible_cpus;
        }
        MapData { obj, fd: None }
    }

    /// A copy of the map and its handle.
    pub fn copy(&self) -> (r: MapData)
        ensures
            r@ == self@,
    {
        MapData { obj: self.obj.copy(), fd: self.fd }
    }

    /// Whether the map is to be seeded once it is created.
    pub fn needs_seed(&self) -> (r: bool)
        ensures
            r == spec_needs_seed(self@.obj),
    {
        needs_seed(&self.obj)
    }

    /// Takes the kernel's answer to the map's creation.
    ///
    /// A map is created once. A refusal leaves it without a handle.
    pub fn create(&mut self, reply: Result<i32, SysError>) -> (r: Result<i32, MapError>)
        ensures
            final(self)@.obj == old(self)@.obj,
            old(self).fd is Some ==> r == Err::<i32, MapError>(MapError::AlreadyCreated)
                && final(self).fd == old(self).fd,
            old(self).fd is None ==> match reply {
                Ok(fd) => r == Ok::<i32, MapError>(fd) && final(self).fd == Some(fd),
                Err(error) => r == Err::<i32, MapError>(
                    MapError::SyscallError(SyscallError { call: Syscall::BpfMapCreate, error }),
                ) && final(self).fd is None,
            },
    {
        if self.fd.is_some() {
            return Err(MapError::AlreadyCreated);
        }
        match reply {
            Ok(fd) => {
                self.fd = Some(fd);
                Ok(fd)
            },
            Err(error) => Err(
                MapError::SyscallError(SyscallError { call: Syscall::BpfMapCreate, error }),
            ),
        }
    }

    /// Takes the kernel's answer to the update that seeds the map.
    pub fn seed(&self, reply: Result<(), SysError>) -> (r: Result<(), MapError>)
        ensures
            match reply {
                Ok(()) => r is Ok,
                Err(error) => r == Err::<(), MapError>(
                    MapError::SyscallError(SyscallError { call: Syscall::BpfMapUpdateElem, error }),
                ),
            },
    {
        match reply {
            Ok(()) => Ok(()),
            Err(error) => Err(
                MapError::SyscallError(SyscallError { call: Syscall::BpfMapUpdateElem, error }),
            ),
        }
    }

    /// The map's handle; an error where it has none.
    pub fn fd_or_err(&self) -> (r: Result<i32, MapError>)
        ensures
            match self.fd {
                Some(fd) => r == Ok::<i32, MapError>(fd),
                None => r == Err::<i32, MapError>(MapError::NotCreated),
            },
    {
        match self.fd {
            Some(fd) => Ok(fd),
            None => Err(MapError::NotCreated),
        }
    }

    /// What relocation needs to know of the map.
    pub fn slot(&self) -> (r: MapSlot)
        ensures
            r == slot_of(self@),
    {
        MapSlot { section_index: self.obj.section_index, fd: self.fd, globals: self.obj.globals }
    }
}

/// A map, tagged by its kind.
#[derive(Debug)]
pub enum KernelMap {
    Array(MapData),
    HashMap(MapData),
    HashOfMaps(MapData),
    LruHashMap(MapData),
    PerCpuArray(MapData),
    PerCpuHashMap(MapData),
    PerfEventArray(MapData),
    ProgramArray(MapData),
    RingBuf(MapData),
    TaskStorage(MapData),
    Unsupported(MapData),
}

/// The kinds of map.
#[derive(Clone, Copy, Debug, PartialEq, Eq, Structural)]
pub enum MapKind {
    Array,
    HashMap,
    HashOfMaps,
    LruHashMap,
    PerCpuArray,
    PerCpuHashMap,
    PerfEventArray,
    ProgramArray,
    RingBuf,
    TaskStorage,
    Unsupported,
}

/// The kind that the kernel's number of a map type stands for.
pub open spec fn kind_of_type(map_type: u32) -> MapKind {
    if map_type == crate::obj::BPF_MAP_TYPE_ARRAY {
        MapKind::Array
    } else if map_type == BPF_MAP_TYPE_HASH {
        MapKind::HashMap
    } else if map_type == BPF_MAP_TYPE_HASH_OF_MAPS {
        MapKind::HashOfMaps
    } else if map_type == BPF_MAP_TYPE_LRU_HASH {
        MapKind::LruHashMap
    } else if map_type == BPF_MAP_TYPE_PERCPU_ARRAY {
        MapKind::PerCpuArray
    } else if map_type == BPF_MAP_TYPE_PERCPU_HASH {
        MapKind::PerCpuHashMap
    } else if map_type == BPF_MAP_TYPE_PERF_EVENT_ARRAY {
        MapKind::PerfEventArray
    } else if map_type == BPF_MAP_TYPE_PROG_ARRAY {
        MapKind::ProgramArray
    } else if map_type == BPF_MAP_TYPE_RINGBUF {
        MapKind::RingBuf
    } else if map_type == BPF_MAP_TYPE_TASK_STORAGE {
        MapKind::TaskStorage
    } else {
        MapKind::Unsupported
    }
}

/// A map tagged by its kind, as a value of specifications.
pub struct TaggedMapModel {
    pub kind: MapKind,
    pub data: MapDataModel,
}

impl KernelMap {
    /// The map's kind.
    pub open spec fn spec_kind(&self) -> MapKind {
        match self {
            KernelMap::Array(_) => MapKind::Array,
            KernelMap::HashMap(_) => MapKind::HashMap,
            KernelMap::HashOfMaps(_) => MapKind::HashOfMaps,
            KernelMap::LruHashMap(_) => MapKind::LruHashMap,
            KernelMap::PerCpuArray(_) => MapKind::PerCpuArray,
            KernelMap::PerCpuHashMap(_) => MapKind::PerCpuHashMap,
            KernelMap::PerfEventArray(_) => MapKind::PerfEventArray,
            KernelMap::ProgramArray(_) => MapKind::ProgramArray,
            KernelMap::RingBuf(_) => MapKind::RingBuf,
            KernelMap::TaskStorage(_) => MapKind::TaskStorage,
            KernelMap::Unsupported(_) => MapKind::Unsupported,
        }
    }

    /// The map and its handle.
    pub open spec fn spec_data(&self) -> MapData {
        match *self {
            KernelMap::Array(d) => d,
            KernelMap::HashMap(d) => d,
            KernelMap::HashOfMaps(d) => d,
            KernelMap::LruHashMap(d) => d,
            KernelMap::PerCpuArray(d) => d,
            KernelMap::PerCpuHashMap(d) => d,
            KernelMap::PerfEventArray(d) => d,
            KernelMap::ProgramArray(d) => d,
            KernelMap::RingBuf(d) => d,
            KernelMap::TaskStorage(d) => d,
            KernelMap::Unsupported(d) => d,
        }
    }

    /// Tags `data` with `kind`.
    pub fn tagged(kind: MapKind, data: MapData) -> (r: KernelMap)
        ensures
            r.spec_kind() == kind,
            r.spec_data() == data,
    {
        match kind {
            MapKind::Array => KernelMap::Array(data),
            MapKind::HashMap => KernelMap::HashMap(data),
            MapKind::HashOfMaps => KernelMap::HashOfMaps(data),
            MapKind::LruHashMap => KernelMap::LruHashMap(data),
            MapKind::PerCpuArray => KernelMap::PerCpuArray(data),
            MapKind::PerCpuHashMap => KernelMap::PerCpuHashMap(data),
            MapKind::PerfEventArray => KernelMap::PerfEventArray(data),
            MapKind::ProgramArray => KernelMap::ProgramArray(data),
            MapKind::RingBuf => KernelMap::RingBuf(data),
            MapKind::TaskStorage => KernelMap::TaskStorage(data),
            MapKind::Unsupported => KernelMap::Unsupported(data),
        }
    }

    /// The kind that the kernel's number of a map type stands for.
    pub fn kind_of(map_type: u32) -> (r: MapKind)
        ensures
            r == kind_of_type(map_type),
    {
        if map_type == crate::obj::BPF_MAP_TYPE_ARRAY {
            MapKind::Array
        } else if map_type == BPF_MAP_TYPE_HASH {
            MapKind::HashMap
        } else if map_type == BPF_MAP_TYPE_HASH_OF_MAPS {
            MapKind::HashOfMaps
        } else if map_type == BPF_MAP_TYPE_LRU_HASH {
            MapKind::LruHashMap
        } else if map_type == BPF_MAP_TYPE_PERCPU_ARRAY {
            MapKind::PerCpuArray
        } else if map_type == BPF_MAP_TYPE_PERCPU_HASH {
            MapKind::PerCpuHashMap
        } else if map_type == BPF_MAP_TYPE_PERF_EVENT_ARRAY {
            MapKind::PerfEventArray
        } else if map_type == BPF_MAP_TYPE_PROG_ARRAY {
            MapKind::ProgramArray
        } else if map_type == BPF_MAP_TYPE_RINGBUF {
            MapKind::RingBuf
        } else if map_type == BPF_MAP_TYPE_TASK_STORAGE {
            MapKind::TaskStorage
        } else {
            MapKind::Unsupported
        }
    }

    /// Tags the map by the kind that its definition names.
    pub fn new(data: MapData) -> (r: KernelMap)
        ensures
            r.spec_kind() == kind_of_type(data.obj.def.map_type),
            r.spec_data() == data,
    {
        let kind: MapKind = KernelMap::kind_of(data.obj.def.map_type);
        KernelMap::tagged(kind, data)
    }

    /// The map's kind.
    #[verifier::when_used_as_spec(spec_kind)]
    pub fn kind(&self) -> (r: MapKind)
        ensures
            r == self.spec_kind(),
    {
        match self {
            KernelMap::Array(_) => MapKind::Array,
            KernelMap::HashMap(_) => MapKind::HashMap,
            KernelMap::HashOfMaps(_) => MapKind::HashOfMaps,
            KernelMap::LruHashMap(_) => MapKind::LruHashMap,
            KernelMap::PerCpuArray(_) => MapKind::PerCpuArray,
            KernelMap::PerCpuHashMap(_) => MapKind::PerCpuHashMap,
            KernelMap::PerfEventArray(_) => MapKind::PerfEventArray,
            KernelMap::ProgramArray(_) => MapKind::ProgramArray,
            KernelMap::RingBuf(_) => MapKind::RingBuf,
            KernelMap::TaskStorage(_) => MapKind::TaskStorage,
            KernelMap::Unsupported(_) => MapKind::Unsupported,
        }
    }

    /// The map and its handle.
    pub fn data(&self) -> (r: &MapData)
        ensures
            *r == self.spec_data(),
    {
        match self {
            KernelMap::Array(d) => d,
            KernelMap::HashMap(d) => d,
            KernelMap::HashOfMaps(d) => d,
            KernelMap::LruHashMap(d) => d,
            KernelMap::PerCpuArray(d) => d,
            KernelMap::PerCpuHashMap(d) => d,
            KernelMap::PerfEventArray(d) => d,
            KernelMap::ProgramArray(d) => d,
            KernelMap::RingBuf(d) => d,
            KernelMap::TaskStorage(d) => d,
            KernelMap::Unsupported(d) => d,
        }
    }

    /// A copy of the map.
    pub fn copy(&self) -> (r: KernelMap)
        ensures
            r@ == self@,
    {
        KernelMap::tagged(self.kind(), self.data().copy())
    }
}

impl View for KernelMap {
    type V = TaggedMapModel;

    open spec fn view(&self) -> TaggedMapModel {
        TaggedMapModel { kind: self.spec_kind(), data: self.spec_data()@ }
    }
}

} // verus!
