//! Maps that are declared by a definition record in a map section.

use vstd::prelude::*;
use vstd::layout::size_of;
use core::marker::PhantomData;
use crate::bytes::le_u32;
use crate::maps::BPF_MAP_TYPE_HASH_OF_MAPS;
use crate::obj::{map_def_at, MapDef, MAP_DEF_SIZE};

verus! {

/// How a map is bound to a path that outlives the process.
#[derive(Clone, Copy, Debug, PartialEq, Eq, Structural)]
pub enum PinningType {
    Unpinned,
    ByName,
}

impl PinningType {
    /// The number that a definition record holds for the pinning.
    pub open spec fn spec_code(self) -> u32 {
        match self {
            PinningType::Unpinned => 0,
            PinningType::ByName => 1,
        }
    }

    /// The number that a definition record holds for the pinning.
    #[verifier::when_used_as_spec(spec_code)]
    pub fn code(self) -> (r: u32)
        ensures
            r == self.spec_code(),
    {
        match self {
            PinningType::Unpinned => 0,
            PinningType::ByName => 1,
        }
    }
}

/// The address that a lookup answered with, unless it is null: a null
/// address says that the map holds nothing under the key.
pub open spec fn spec_non_null(addr: usize) -> Option<usize> {
    if addr == 0 {
        None
    } else {
        Some(addr)
    }
}

/// What a status of a helper means: zero is success, anything else is the
/// error that is handed back.
pub open spec fn spec_status(ret: i64) -> Result<(), i64> {
    if ret == 0 {
        Ok(())
    } else {
        Err(ret)
    }
}

/// The address that a lookup answered with, unless it is null.
pub fn non_null(addr: usize) -> (r: Option<usize>)
    ensures
        r == spec_non_null(addr),
{
    if addr == 0 {
        None
    } else {
        Some(addr)
    }
}

/// What a status of a helper means.
pub fn status(ret: i64) -> (r: Result<(), i64>)
    ensures
        r == spec_status(ret),
{
    if ret == 0 {
        Ok(())
    } else {
        Err(ret)
    }
}

/// The four bytes that hold `x`, lowest first.
pub open spec fn u32_bytes(x: u32) -> Seq<u8> {
    seq![
        (x % 0x100) as u8,
        (x / 0x100 % 0x100) as u8,
        (x / 0x1_0000 % 0x100) as u8,
        (x / 0x100_0000) as u8,
    ]
}

/// The definition record of `def`, as a map section holds it.
pub open spec fn map_def_bytes(def: MapDef) -> Seq<u8> {
    u32_bytes(def.map_type) + u32_bytes(def.key_size) + u32_bytes(def.value_size) + u32_bytes(
        def.max_entries,
    ) + u32_bytes(def.map_flags) + u32_bytes(def.id) + u32_bytes(def.pinning)
}

fn push_u32(out: &mut Vec<u8>, x: u32)
    ensures
        final(out)@ == old(out)@ + u32_bytes(x),
{
    out.push((x % 0x100) as u8);
    out.push((x / 0x100 % 0x100) as u8);
    out.push((x / 0x1_0000 % 0x100) as u8);
    out.push((x / 0x100_0000) as u8);
}

impl MapDef {
    /// Writes the definition record.
    pub fn to_bytes(&self) -> (r: Vec<u8>)
        ensures
            r@ == map_def_bytes(*self),
            r@.len() == MAP_DEF_SIZE,
    {
        let mut out: Vec<u8> = Vec::new();
        assert(out@ =~= Seq::<u8>::empty());
        push_u32(&mut out, self.map_type);
        push_u32(&mut out, self.key_size);
        push_u32(&mut out, self.value_size);
        push_u32(&mut out, self.max_entries);
        push_u32(&mut out, self.map_flags);
        push_u32(&mut out, self.id);
        push_u32(&mut out, self.pinning);
        assert(out@ =~= map_def_bytes(*self));
        out
    }
}

/// A definition that is written as a record and read back, at any place of
/// a buffer, is the definition again.
pub proof fn law_map_def_round_trip(def: MapDef, before: Seq<u8>, after: Seq<u8>)
    ensures
        map_def_at(before + map_def_bytes(def) + after, before.len() as int) == def,
{
    let s = before + map_def_bytes(def) + after;
    let off = before.len() as int;
    let b = map_def_bytes(def);
    assert(b.len() == 28);
    lemma_u32_round_trip(def.map_type, s, off);
    lemma_u32_round_trip(def.key_size, s, off + 4);
    lemma_u32_round_trip(def.value_size, s, off + 8);
    lemma_u32_round_trip(def.max_entries, s, off + 12);
    lemma_u32_round_trip(def.map_flags, s, off + 16);
    lemma_u32_round_trip(def.id, s, off + 20);
    lemma_u32_round_trip(def.pinning, s, off + 24);
}

/// Four bytes that are those of `x` read back as `x`.
proof fn lemma_u32_round_trip(x: u32, s: Seq<u8>, off: int)
    requires
        0 <= off,
        off + 4 <= s.len(),
        s[off] == u32_bytes(x)[0],
        s[off + 1] == u32_bytes(x)[1],
        s[off + 2] == u32_bytes(x)[2],
        s[off + 3] == u32_bytes(x)[3],
    ensures
        le_u32(s, off) == x,
{
}

/// A hash map whose values are other maps, declared with keys of type `K`
/// and values of type `V`.
pub struct HashOfMaps<K, V> {
    def: MapDef,
    _k: PhantomData<K>,
    _v: PhantomData<V>,
}

impl<K, V> HashOfMaps<K, V> {
    /// The definition that the loader finds.
    pub closed spec fn spec_def(&self) -> MapDef {
        self.def
    }

    /// What a declaration of a hash of maps defines: keys and values of the
    /// sizes of `K` and `V`, and the entries, flags and pinning given.
    pub open spec fn declares(
        &self,
        max_entries: u32,
        flags: u32,
        pinning: PinningType,
    ) -> bool {
        self.spec_def() == (MapDef {
            map_type: BPF_MAP_TYPE_HASH_OF_MAPS,
            key_size: size_of::<K>() as u32,
            value_size: size_of::<V>() as u32,
            max_entries,
            map_flags: flags,
            id: 0,
            pinning: pinning.spec_code(),
        })
    }

    fn declare(max_entries: u32, flags: u32, pinning: PinningType) -> (r: HashOfMaps<K, V>)
        requires
            size_of::<K>() <= u32::MAX,
            size_of::<V>() <= u32::MAX,
        ensures
            r.declares(max_entries, flags, pinning),
    {
        HashOfMaps {
            def: MapDef {
                map_type: BPF_MAP_TYPE_HASH_OF_MAPS,
                key_size: core::mem::size_of::<K>() as u32,
                value_size: core::mem::size_of::<V>() as u32,
                max_entries,
                map_flags: flags,
                id: 0,
                pinning: pinning.code(),
            },
            _k: PhantomData,
            _v: PhantomData,
        }
    }

    /// Declares a hash of maps that is not pinned.
    pub fn with_max_entries(max_entries: u32, flags: u32) -> (r: HashOfMaps<K, V>)
        requires
            size_of::<K>() <= u32::MAX,
            size_of::<V>() <= u32::MAX,
        ensures
            r.declares(max_entries, flags, PinningType::Unpinned),
    {
        HashOfMaps::declare(max_entries, flags, PinningType::Unpinned)
    }

    /// Declares a hash of maps that is pinned by its name.
    pub fn pinned(max_entries: u32, flags: u32) -> (r: HashOfMaps<K, V>)
        requires
            size_of::<K>() <= u32::MAX,
            size_of::<V>() <= u32::MAX,
        ensures
            r.declares(max_entries, flags, PinningType::ByName),
    {
        HashOfMaps::declare(max_entries, flags, PinningType::ByName)
    }

    /// The definition that the loader finds.
    pub fn def(&self) -> (r: MapDef)
        ensures
            r == self.spec_def(),
    {
        self.def
    }

    /// The address of the value under `key`, given the address `found` that
    /// the lookup helper answered with; `None` where the map holds nothing
    /// under the key.
    pub fn get_ptr(&self, key: &K, found: usize) -> (r: Option<usize>)
        ensures
            r == spec_non_null(found),
    {
        self.get_ptr_mut(key, found)
    }

    /// The address of the value under `key`, to write through.
    pub fn get_ptr_mut(&self, key: &K, found: usize) -> (r: Option<usize>)
        ensures
            r == spec_non_null(found),
    {
        non_null(found)
    }
}

} // verus!
