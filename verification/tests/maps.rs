use aya::maps::hash_of_maps::HashOfMaps;
use aya::maps::map_iter::{MapIter, MapIterStep, MapKeys};
use aya::maps::map_lock::{LockState, MapLock};
use aya::maps::{
    sized_by_host, KernelMap, MapData, MapError, MapKind, BPF_MAP_TYPE_HASH_OF_MAPS,
    BPF_MAP_TYPE_TASK_STORAGE,
};
use aya::obj::{MapDef, ObjMap};
use aya::maps::pod::check_kv_size;
use aya::sys::{SysError, Syscall, SyscallError};
use aya::maps::task_storage::TaskStorage;

fn obj_map(name: &[u8], map_type: u32, key_size: u32, value_size: u32, data: Vec<u8>) -> ObjMap {
    ObjMap {
        name: name.to_vec(),
        def: MapDef {
            map_type,
            key_size,
            value_size,
            max_entries: 16,
            map_flags: 0,
            id: 0,
            pinning: 0,
        },
        section_index: 3,
        globals: false,
        data,
    }
}

fn hash_of_maps(fd: Option<i32>) -> MapData {
    MapData { obj: obj_map(b"OUTER", BPF_MAP_TYPE_HASH_OF_MAPS, 4, 4, Vec::new()), fd }
}

fn failed(call: Syscall, error: SysError) -> MapError {
    MapError::SyscallError(SyscallError { call, error })
}

const EPERM: SysError = SysError { code: -1, errno: 1 };

#[test]
fn a_map_is_created_once() {
    let mut map = MapData::new(obj_map(b"M", 1, 4, 4, Vec::new()), 8);
    assert_eq!(map.fd, None);
    assert_eq!(map.fd_or_err(), Err(MapError::NotCreated));
    assert_eq!(map.create(Err(EPERM)), Err(failed(Syscall::BpfMapCreate, EPERM)));
    assert_eq!(map.fd, None);
    assert_eq!(map.create(Ok(5)), Ok(5));
    assert_eq!(map.fd, Some(5));
    assert_eq!(map.create(Ok(6)), Err(MapError::AlreadyCreated));
    assert_eq!(map.fd_or_err(), Ok(5));
    assert_eq!(map.obj.def.max_entries, 16);
}

#[test]
fn the_host_sizes_event_arrays_without_entries() {
    let mut events = obj_map(b"E", 4, 4, 4, Vec::new());
    assert!(!sized_by_host(&events.def));
    events.def.max_entries = 0;
    assert!(sized_by_host(&events.def));
    assert_eq!(MapData::new(events, 6).obj.def.max_entries, 6);
    let mut hash = obj_map(b"H", 1, 4, 4, Vec::new());
    hash.def.max_entries = 0;
    assert!(!sized_by_host(&hash.def));
    assert_eq!(MapData::new(hash, 6).obj.def.max_entries, 0);
}

#[test]
fn a_map_is_seeded_where_it_has_data_and_is_not_bss() {
    let with_data = MapData::new(obj_map(b".data", 2, 4, 4, vec![1, 2, 3, 4]), 1);
    assert!(with_data.needs_seed());
    let bss = MapData::new(obj_map(b".bss", 2, 4, 4, vec![0, 0, 0, 0]), 1);
    assert!(!bss.needs_seed());
    let empty = MapData::new(obj_map(b"M", 1, 4, 4, Vec::new()), 1);
    assert!(!empty.needs_seed());
    assert_eq!(with_data.seed(Ok(())), Ok(()));
    assert_eq!(with_data.seed(Err(EPERM)), Err(failed(Syscall::BpfMapUpdateElem, EPERM)));
}

#[test]
fn a_map_is_tagged_by_the_kind_of_its_definition() {
    let kinds = [
        (1, MapKind::HashMap),
        (2, MapKind::Array),
        (3, MapKind::ProgramArray),
        (4, MapKind::PerfEventArray),
        (5, MapKind::PerCpuHashMap),
        (6, MapKind::PerCpuArray),
        (9, MapKind::LruHashMap),
        (13, MapKind::HashOfMaps),
        (27, MapKind::RingBuf),
        (29, MapKind::TaskStorage),
        (0, MapKind::Unsupported),
        (7, MapKind::Unsupported),
    ];
    for (map_type, kind) in kinds {
        let map = KernelMap::new(MapData::new(obj_map(b"M", map_type, 4, 4, Vec::new()), 1));
        assert_eq!(map.kind(), kind);
        assert_eq!(map.data().obj.def.map_type, map_type);
        assert_eq!(map.copy().kind(), kind);
    }
}

#[test]
fn sizes_are_checked_key_first() {
    let map = MapData { obj: obj_map(b"M", 1, 2, 8, Vec::new()), fd: Some(1) };
    assert_eq!(check_kv_size::<u16, u64>(&map), Ok(()));
    assert_eq!(check_kv_size::<i16, i64>(&map), Ok(()));
    assert_eq!(
        check_kv_size::<u32, u32>(&map),
        Err(MapError::InvalidKeySize { size: 4, expected: 2 })
    );
    assert_eq!(
        check_kv_size::<u16, u8>(&map),
        Err(MapError::InvalidValueSize { size: 1, expected: 8 })
    );
}

#[test]
fn readers_share_and_the_writer_excludes() {
    let mut lock = MapLock::new(KernelMap::new(hash_of_maps(Some(3))));
    assert_eq!(lock.state(), LockState::Free);
    let first = lock.try_read().unwrap();
    assert_eq!(lock.state(), LockState::Shared(1));
    let second = lock.try_read().unwrap();
    assert_eq!(lock.state(), LockState::Shared(2));
    assert_eq!(lock.try_write().unwrap_err(), MapError::BorrowError { name: b"OUTER".to_vec() });
    assert_eq!(lock.state(), LockState::Shared(2));
    lock.release_read(first);
    assert_eq!(lock.state(), LockState::Shared(1));
    assert_eq!(lock.try_write().unwrap_err(), MapError::BorrowError { name: b"OUTER".to_vec() });
    lock.release_read(second);
    assert_eq!(lock.state(), LockState::Free);
    let writer = lock.try_write().unwrap();
    assert_eq!(lock.state(), LockState::Exclusive);
    assert_eq!(writer.map().data().fd, Some(3));
    assert_eq!(lock.try_read().unwrap_err(), MapError::BorrowError { name: b"OUTER".to_vec() });
    assert_eq!(lock.try_write().unwrap_err(), MapError::BorrowError { name: b"OUTER".to_vec() });
    assert_eq!(lock.state(), LockState::Exclusive);
    lock.release_write(writer);
    assert_eq!(lock.state(), LockState::Free);
    assert_eq!(lock.map().kind(), MapKind::HashOfMaps);
}

#[test]
fn a_release_without_a_borrow_changes_nothing() {
    let mut lock = MapLock::new(KernelMap::new(hash_of_maps(Some(3))));
    let mut other = MapLock::new(KernelMap::new(hash_of_maps(Some(3))));
    let reader = other.try_read().unwrap();
    lock.release_read(reader);
    assert_eq!(lock.state(), LockState::Free);
    let writer = lock.try_write().unwrap();
    let stray = other.try_read().unwrap();
    lock.release_read(stray);
    assert_eq!(lock.state(), LockState::Exclusive);
    lock.release_write(writer);
    assert_eq!(lock.state(), LockState::Free);
}

#[test]
fn hash_of_maps_is_viewed_only_with_matching_sizes_and_a_handle() {
    let map = hash_of_maps(Some(7));
    assert!(HashOfMaps::<u32, u32>::new(&map).is_ok());
    assert!(matches!(
        HashOfMaps::<u64, u32>::new(&map),
        Err(MapError::InvalidKeySize { size: 8, expected: 4 })
    ));
    assert!(matches!(
        HashOfMaps::<u32, u8>::new(&map),
        Err(MapError::InvalidValueSize { size: 1, expected: 4 })
    ));
    let unmade = hash_of_maps(None);
    assert!(matches!(HashOfMaps::<u32, u32>::new(&unmade), Err(MapError::NotCreated)));
    let tagged = KernelMap::new(hash_of_maps(Some(7)));
    assert!(HashOfMaps::<u32, u32>::try_from(&tagged).is_ok());
    let other = KernelMap::TaskStorage(hash_of_maps(Some(7)));
    assert!(matches!(
        HashOfMaps::<u32, u32>::try_from(&other),
        Err(MapError::InvalidMapType { map_type: BPF_MAP_TYPE_HASH_OF_MAPS })
    ));
}

#[test]
fn hash_of_maps_reports_what_the_kernel_answered() {
    let map = hash_of_maps(Some(7));
    let mut view = HashOfMaps::<u32, u32>::new(&map).unwrap();
    assert_eq!(view.get(&1, 0, Ok(Some(99))), Ok(99));
    assert_eq!(view.get(&1, 0, Ok(None)), Err(MapError::KeyNotFound));
    assert_eq!(view.get(&1, 0, Err(EPERM)), Err(failed(Syscall::BpfMapLookupElem, EPERM)));
    assert_eq!(view.insert(&1, &2, 0, Ok(())), Ok(()));
    assert_eq!(
        view.insert(&1, &2, 0, Err(EPERM)),
        Err(failed(Syscall::BpfMapUpdateElem, EPERM))
    );
    assert_eq!(view.remove(&1, Ok(())), Ok(()));
    assert_eq!(view.remove(&1, Err(EPERM)), Err(failed(Syscall::BpfMapDeleteElem, EPERM)));
    assert_eq!(Syscall::BpfMapUpdateElem.name(), "bpf_map_update_elem");
    assert_eq!(Syscall::BpfMapLookupElem.name(), "bpf_map_lookup_elem");
    assert_eq!(Syscall::BpfMapDeleteElem.name(), "bpf_map_delete_elem");
}

#[test]
fn task_storage_looks_the_task_up_by_its_descriptor() {
    let map = MapData { obj: obj_map(b"T", BPF_MAP_TYPE_TASK_STORAGE, 4, 4, Vec::new()), fd: Some(9) };
    let view = TaskStorage::<u32>::new(&map).unwrap();
    assert_eq!(view.get(&100, 0, Ok(12), Ok(Some(1))), Ok(1));
    assert_eq!(view.get(&100, 0, Ok(12), Ok(None)), Err(MapError::KeyNotFound));
    assert_eq!(
        view.get(&100, 0, Err(EPERM), Ok(Some(1))),
        Err(failed(Syscall::PidfdOpen, EPERM))
    );
    assert_eq!(
        view.get(&100, 0, Ok(12), Err(EPERM)),
        Err(failed(Syscall::BpfMapLookupElem, EPERM))
    );
    assert_eq!(Syscall::PidfdOpen.name(), "pidfd_open");
    assert_eq!(view.map().fd, Some(9));
    let unmade = MapData { obj: obj_map(b"T", BPF_MAP_TYPE_TASK_STORAGE, 4, 4, Vec::new()), fd: None };
    let view = TaskStorage::<u32>::new(&unmade).unwrap();
    assert_eq!(view.get(&100, 0, Ok(12), Ok(Some(1))), Err(MapError::NotCreated));
}

#[test]
fn keys_are_walked_until_the_kernel_has_none_left() {
    let mut keys: MapKeys<u32> = MapKeys::new();
    assert_eq!(keys.key, None);
    assert_eq!(keys.next(Ok(Some(4))), Some(Ok(4)));
    assert_eq!(keys.key, Some(4));
    assert_eq!(keys.next(Ok(Some(9))), Some(Ok(9)));
    assert_eq!(keys.key, Some(9));
    assert_eq!(keys.next(Ok(None)), None);
    assert_eq!(keys.key, None);
    assert_eq!(keys.next(Ok(Some(4))), Some(Ok(4)));
    assert_eq!(keys.next(Err(EPERM)), Some(Err(failed(Syscall::BpfMapGetNextKey, EPERM))));
    assert!(keys.err);
    assert_eq!(keys.key, Some(4));
    assert_eq!(keys.next(Ok(Some(5))), None);
    assert_eq!(keys.key, Some(4));
}

#[test]
fn pairs_skip_keys_that_were_removed_in_between() {
    let map = MapData { obj: obj_map(b"T", BPF_MAP_TYPE_TASK_STORAGE, 4, 4, Vec::new()), fd: Some(9) };
    let view = TaskStorage::<u32>::new(&map).unwrap();
    let mut pairs: MapIter<u32, u32> = view.iter();
    assert!(matches!(pairs.next(Ok(Some(1)), Ok(10)), MapIterStep::Item(Ok((1, 10)))));
    assert!(matches!(pairs.next(Ok(Some(2)), Err(MapError::KeyNotFound)), MapIterStep::Skip));
    assert_eq!(pairs.keys.key, Some(2));
    assert!(matches!(
        pairs.next(Ok(Some(3)), Err(MapError::NotCreated)),
        MapIterStep::Item(Err(MapError::NotCreated))
    ));
    assert!(matches!(pairs.next(Ok(None), Ok(0)), MapIterStep::End));
    assert!(matches!(
        pairs.next(Err(EPERM), Ok(0)),
        MapIterStep::Item(Err(MapError::SyscallError(_)))
    ));
    assert!(matches!(pairs.next(Ok(Some(3)), Ok(0)), MapIterStep::End));
    let keys = view.keys();
    assert_eq!(keys.key, None);
    assert!(!keys.err);
}

#[test]
fn a_key_that_was_removed_is_skipped() {
    assert!(matches!(MapIter::<u32, u32>::pair(1, Ok(10)), MapIterStep::Item(Ok((1, 10)))));
    assert!(matches!(
        MapIter::<u32, u32>::pair(1, Err(MapError::KeyNotFound)),
        MapIterStep::Skip
    ));
    assert!(matches!(
        MapIter::<u32, u32>::pair(1, Err(MapError::NotCreated)),
        MapIterStep::Item(Err(MapError::NotCreated))
    ));
}
