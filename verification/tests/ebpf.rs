use aya::ebpf::btf_maps::{
    BtfMapDecl, HashMap, BPF_F_NO_PREALLOC, LruHashMap, PerCpuArray, PerCpuHashMap, ProgramArray, RingBuf,
    TaskStorage,
};
use aya::ebpf::maps::{non_null, status, HashOfMaps, PinningType};
use aya::ebpf::programs::{
    BpfIterMeta, IterContext, RawTracePointContext, SeqFile, XdpContext, XdpMd,
};
use aya::obj::{MapDef, Object};

#[test]
fn a_declared_hash_of_maps_is_what_the_loader_reads() {
    let map: HashOfMaps<u32, u64> = HashOfMaps::with_max_entries(64, 2);
    let expected = MapDef {
        map_type: 13,
        key_size: 4,
        value_size: 8,
        max_entries: 64,
        map_flags: 2,
        id: 0,
        pinning: 0,
    };
    assert_eq!(map.def(), expected);
    let pinned: HashOfMaps<u32, u64> = HashOfMaps::pinned(64, 2);
    assert_eq!(pinned.def(), MapDef { pinning: 1, ..expected });
    assert_eq!(PinningType::Unpinned.code(), 0);
    assert_eq!(PinningType::ByName.code(), 1);

    let record = pinned.def().to_bytes();
    assert_eq!(record.len(), 28);
    assert_eq!(&record[0..4], &[13, 0, 0, 0]);
    assert_eq!(&record[12..16], &[64, 0, 0, 0]);
    assert_eq!(&record[24..28], &[1, 0, 0, 0]);
    let large = MapDef { max_entries: 0x0102_0304, ..expected }.to_bytes();
    assert_eq!(&large[12..16], &[4, 3, 2, 1]);
}

fn section_header(name: u32, kind: u32, offset: u64, size: u64) -> Vec<u8> {
    let mut out = Vec::new();
    out.extend_from_slice(&name.to_le_bytes());
    out.extend_from_slice(&kind.to_le_bytes());
    out.extend_from_slice(&[0; 16]);
    out.extend_from_slice(&offset.to_le_bytes());
    out.extend_from_slice(&size.to_le_bytes());
    out.extend_from_slice(&[0; 24]);
    out
}

/// An object whose only section, besides the names, is `name` with the
/// contents `data`.
fn object_with(name: &[u8], data: &[u8]) -> Vec<u8> {
    let mut names = vec![0u8];
    names.extend_from_slice(name);
    names.push(0);
    let mut body = vec![0u8; 64];
    let data_at = body.len() as u64;
    body.extend_from_slice(data);
    let names_at = body.len() as u64;
    body.extend_from_slice(&names);
    let shoff = body.len() as u64;
    body.extend_from_slice(&section_header(0, 0, 0, 0));
    body.extend_from_slice(&section_header(1, 1, data_at, data.len() as u64));
    body.extend_from_slice(&section_header(0, 3, names_at, names.len() as u64));
    body[0..6].copy_from_slice(&[0x7f, b'E', b'L', b'F', 2, 1]);
    body[40..48].copy_from_slice(&shoff.to_le_bytes());
    body[58..60].copy_from_slice(&64u16.to_le_bytes());
    body[60..62].copy_from_slice(&3u16.to_le_bytes());
    body[62..64].copy_from_slice(&2u16.to_le_bytes());
    body
}

#[test]
fn a_definition_record_is_read_back_by_the_loader() {
    let declared: HashOfMaps<u16, u32> = HashOfMaps::pinned(1000, 7);
    let object = object_with(b"maps/OUTER", &declared.def().to_bytes());
    let parsed = Object::parse(&object).unwrap();
    assert_eq!(parsed.maps.len(), 1);
    assert_eq!(parsed.maps[0].name, b"OUTER");
    assert_eq!(parsed.maps[0].def, declared.def());
}

#[test]
fn a_null_address_means_that_nothing_was_found() {
    assert_eq!(non_null(0), None);
    assert_eq!(non_null(0x1000), Some(0x1000));
    let legacy: HashOfMaps<u32, u32> = HashOfMaps::with_max_entries(1, 0);
    assert_eq!(legacy.get_ptr(&1, 0), None);
    assert_eq!(legacy.get_ptr(&1, 8), Some(8));
    assert_eq!(legacy.get_ptr_mut(&1, 0), None);
    assert_eq!(legacy.get_ptr_mut(&1, 8), Some(8));
    let hash: HashMap<u32, u64, 16, 0> = HashMap::new();
    assert_eq!(hash.get_ptr(&1, 0), None);
    assert_eq!(hash.get_ptr(&1, 24), Some(24));
    assert_eq!(hash.get_ptr_mut(&1, 0), None);
    assert_eq!(hash.get_ptr_mut(&1, 24), Some(24));
    let lru: LruHashMap<u32, u64, 16, 0> = LruHashMap::new();
    assert_eq!(lru.get_ptr(&1, 0), None);
    assert_eq!(lru.get_ptr_mut(&1, 24), Some(24));
    let per_cpu: PerCpuHashMap<u32, u64, 16, 0> = PerCpuHashMap::new();
    assert_eq!(per_cpu.get_ptr(&1, 0), None);
    assert_eq!(per_cpu.get_ptr_mut(&1, 24), Some(24));
    let array: PerCpuArray<u64, 1, 0> = PerCpuArray::new();
    assert_eq!(array.get_ptr(0, 0), None);
    assert_eq!(array.get_ptr_mut(0, 16), Some(16));
    let storage: TaskStorage<u32, BPF_F_NO_PREALLOC> = TaskStorage::new();
    assert_eq!(storage.get_ptr(0xffff, 0), None);
    assert_eq!(storage.get_ptr_mut(0xffff, 32), Some(32));
    assert_eq!(storage.get_or_insert_ptr(0xffff, &420, 0), None);
    assert_eq!(storage.get_or_insert_ptr(0xffff, &420, 32), Some(32));
}

#[test]
fn a_status_of_zero_is_success_and_anything_else_the_error() {
    assert_eq!(status(0), Ok(()));
    assert_eq!(status(-2), Err(-2));
    assert_eq!(status(1), Err(1));
    let hash: HashMap<u32, u64, 16, 0> = HashMap::new();
    assert_eq!(hash.insert(&1, &2, 0, 0), Ok(()));
    assert_eq!(hash.insert(&1, &2, 0, -7), Err(-7));
    assert_eq!(hash.remove(&1, 0), Ok(()));
    assert_eq!(hash.remove(&1, -2), Err(-2));
    let lru: LruHashMap<u32, u64, 16, 0> = LruHashMap::new();
    assert_eq!(lru.insert(&1, &2, 0, -7), Err(-7));
    assert_eq!(lru.remove(&1, 0), Ok(()));
    let per_cpu: PerCpuHashMap<u32, u64, 16, 0> = PerCpuHashMap::new();
    assert_eq!(per_cpu.insert(&1, &2, 0, 0), Ok(()));
    assert_eq!(per_cpu.remove(&1, -2), Err(-2));
    let storage: TaskStorage<u32, BPF_F_NO_PREALLOC> = TaskStorage::new();
    assert_eq!(storage.remove(1, 0), Ok(()));
    assert_eq!(storage.remove(1, -2), Err(-2));
    let programs: ProgramArray<4, 0> = ProgramArray::new();
    assert_eq!(programs.tail_call(1, -2), Err(-2));
}

#[test]
fn declarations_say_kind_sizes_entries_and_flags() {
    let hash: HashMap<u32, u64, 16, 1> = HashMap::new();
    assert_eq!(
        hash.decl(),
        BtfMapDecl { map_type: 1, key_size: 4, value_size: 8, max_entries: 16, map_flags: 1 }
    );
    let lru: LruHashMap<u16, u8, 3, 0> = LruHashMap::new();
    assert_eq!(
        lru.decl(),
        BtfMapDecl { map_type: 9, key_size: 2, value_size: 1, max_entries: 3, map_flags: 0 }
    );
    let per_cpu: PerCpuHashMap<u64, u64, 5, 0> = PerCpuHashMap::new();
    assert_eq!(
        per_cpu.decl(),
        BtfMapDecl { map_type: 5, key_size: 8, value_size: 8, max_entries: 5, map_flags: 0 }
    );
    let array: PerCpuArray<u64, 1, 0> = PerCpuArray::new();
    assert_eq!(
        array.decl(),
        BtfMapDecl { map_type: 6, key_size: 4, value_size: 8, max_entries: 1, map_flags: 0 }
    );
    let programs: ProgramArray<4, 0> = ProgramArray::new();
    assert_eq!(
        programs.decl(),
        BtfMapDecl { map_type: 3, key_size: 4, value_size: 4, max_entries: 4, map_flags: 0 }
    );
    let ring: RingBuf<4096, 0> = RingBuf::new();
    assert_eq!(
        ring.decl(),
        BtfMapDecl { map_type: 27, key_size: 0, value_size: 0, max_entries: 4096, map_flags: 0 }
    );
    let storage: TaskStorage<u32, BPF_F_NO_PREALLOC> = TaskStorage::new();
    assert_eq!(
        storage.decl(),
        BtfMapDecl { map_type: 29, key_size: 4, value_size: 4, max_entries: 0, map_flags: 1 }
    );
}

#[test]
fn a_reservation_fails_where_the_ring_is_full() {
    let ring: RingBuf<4096, 0> = RingBuf::new();
    assert!(ring.reserve::<u64>(0, 0).is_none());
    let entry = ring.reserve::<u64>(0, 0x2000).unwrap();
    assert_eq!(entry.addr(), 0x2000);
    assert_eq!(ring.output(&7u64, 0, 0), Ok(()));
    assert_eq!(ring.output(&7u64, 0, 5), Ok(()));
    assert_eq!(ring.output(&7u64, 0, -11), Err(-11));
}

#[test]
fn contexts_hand_out_what_the_kernel_told() {
    let ctx = XdpContext::new(XdpMd { data: 100, data_end: 164, data_meta: 92 });
    assert_eq!(ctx.data(), 100);
    assert_eq!(ctx.data_end(), 164);
    assert_eq!(ctx.metadata(), 92);
    assert_eq!(ctx.metadata_end(), 100);

    let probe = RawTracePointContext::new([10, 11, 12, 13, 14, 15]);
    assert_eq!(probe.arg(0), Some(10));
    assert_eq!(probe.arg(5), Some(15));
    assert_eq!(probe.arg(6), None);

    let walk =
        IterContext::new(BpfIterMeta { seq: 0x3000, session_id: 1, seq_num: 2 });
    assert_eq!(walk.seq_file(), SeqFile(0x3000));
    assert_eq!(walk.seq_file().as_ptr(), 0x3000);
}
