//! The entry point: loading an object, and the maps and programs of a
//! loaded object by their names.

use vstd::prelude::*;
use vstd::string::StringSliceAdditionalSpecFns;
use crate::bytes::{bytes_eq, distinct, to_vec, views};
use crate::maps::hash_of_maps::syscall_error;
use crate::maps::map_lock::{LockState, MapLock, MapRef, MapRefMut};
use crate::maps::{
    kind_of_type, realized_def, sized_by_host, slot_of, spec_needs_seed, spec_sized_by_host,
    KernelMap, MapData, MapDataModel, MapError, TaggedMapModel,
};
use crate::obj::btf::{
    lemma_relocate_fields_keeps, spec_relocate_btf, Btf, BtfError, FieldRelocation,
};
use crate::obj::relocation::{
    callee_index, ins_index, is_call_relocation, law_calls_lead_to_callees,
    law_map_references_hold_handles, law_resolvable_references_are_relocated,
    law_undefined_map_symbol_fails, lemma_calls_keep_other_instructions, lemma_maps_keep_calls,
    lemma_calls_keep_lengths, lemma_passes_keep_names, names_alone, names_last,
    references_resolve, spec_find_map, spec_relocate_calls,
    spec_relocate_maps, table_for, MapSlot, RelocationError,
};
use crate::obj::{
    copy_bytes, map_names, names_distinct, program_names, spec_parse, MapModel, ObjMap,
    ObjProgram, Object, ObjectModel, ParseError, ProgramModel, BPF_MAP_TYPE_PERF_EVENT_ARRAY,
};
use crate::programs::links::LinkEntry;
use crate::programs::{Program, ProgramData, ProgramError};
use crate::search::{
    all_distinct, first_where, is_first_where, lemma_first_where, lemma_first_where_is_first,
};
use crate::sys::{SysError, Syscall};

verus! {

/// Why an object could not be loaded. Whatever the reason, nothing of the
/// object is left to the caller.
#[derive(Clone, Debug, PartialEq, Eq)]
pub enum BpfError {
    /// The object is malformed.
    ParseError(ParseError),
    /// A debug type is missing.
    BtfError(BtfError),
    /// A reference to a map, a subroutine or a field could not be resolved.
    RelocationError(RelocationError),
    /// A map could not be created or seeded.
    MapError(MapError),
    /// A program could not be had.
    ProgramError(ProgramError),
}

/// The kernel's answers for one map: to its creation and, where the map has
/// initial data, to the update that seeds it.
#[derive(Clone, Copy, Debug)]
pub struct MapReply {
    pub created: Result<i32, SysError>,
    pub seeded: Result<(), SysError>,
}

/// What the host has to say to a load: its number of possible processors,
/// and the kernel's answers for the maps of the object, in the object's
/// order.
#[derive(Debug)]
pub struct Host {
    pub possible_cpus: u32,
    pub maps: Vec<MapReply>,
}

/// A loaded object, as a value of specifications.
pub struct BpfModel {
    pub maps: Seq<MapDataModel>,
    pub programs: Seq<ProgramModel>,
    pub license: Seq<u8>,
}

/// The map `m` once it is created on a host with `possible_cpus`
/// processors, given the kernel's answers `reply` for it.
///
/// A map that the host sizes cannot be created on a host without
/// processors. The map is created with its realized definition. Where it
/// has initial data to be seeded, it is seeded with one update. A refusal
/// of either call, or a missing answer, is the map's failure.
pub open spec fn create_map(m: MapModel, possible_cpus: u32, reply: Option<MapReply>) -> Result<
    MapDataModel,
    MapError,
> {
    let obj = MapModel { def: realized_def(m.def, possible_cpus), ..m };
    if spec_sized_by_host(m.def) && possible_cpus == 0 {
        Err(MapError::NoProcessors)
    } else {
        match reply {
            None => Err(MapError::NotCreated),
            Some(reply) => match reply.created {
                Err(error) => Err(syscall_error(Syscall::BpfMapCreate, error)),
                Ok(fd) => if spec_needs_seed(obj) && reply.seeded is Err {
                    Err(syscall_error(Syscall::BpfMapUpdateElem, reply.seeded->Err_0))
                } else {
                    Ok(MapDataModel { obj, fd: Some(fd) })
                },
            },
        }
    }
}

/// The answer for map `i`, if the host gave one.
pub open spec fn reply_for(replies: Seq<MapReply>, i: int) -> Option<MapReply> {
    if 0 <= i < replies.len() {
        Some(replies[i])
    } else {
        None
    }
}

/// The first `n` maps, created in order. The first map that fails fails
/// them all.
pub open spec fn create_maps(
    maps: Seq<MapModel>,
    possible_cpus: u32,
    replies: Seq<MapReply>,
    n: int,
) -> Result<Seq<MapDataModel>, MapError>
    decreases n,
{
    if n <= 0 {
        Ok(Seq::empty())
    } else {
        match create_maps(maps, possible_cpus, replies, n - 1) {
            Err(e) => Err(e),
            Ok(created) => match create_map(maps[n - 1], possible_cpus, reply_for(replies, n - 1)) {
                Err(e) => Err(e),
                Ok(m) => Ok(created.push(m)),
            },
        }
    }
}

/// Once a map has failed, further maps do not change the error.
pub proof fn lemma_create_maps_err(
    maps: Seq<MapModel>,
    possible_cpus: u32,
    replies: Seq<MapReply>,
    k: int,
    n: int,
)
    requires
        0 <= k <= n,
        create_maps(maps, possible_cpus, replies, k) is Err,
    ensures
        create_maps(maps, possible_cpus, replies, n) == create_maps(
            maps,
            possible_cpus,
            replies,
            k,
        ),
    decreases n - k,
{
    if k < n {
        lemma_create_maps_err(maps, possible_cpus, replies, k, n - 1);
    }
}

/// What relocation needs to know of each map.
pub open spec fn slots_of(maps: Seq<MapDataModel>) -> Seq<MapSlot> {
    maps.map_values(|m: MapDataModel| slot_of(m))
}

/// The object after the target's field offsets have been applied, where
/// the target's debug types are given.
pub open spec fn relocate_btf_if(obj: ObjectModel, records: Option<Seq<FieldRelocation>>) -> Result<
    ObjectModel,
    RelocationError,
> {
    match records {
        Some(records) => spec_relocate_btf(obj, records),
        None => Ok(obj),
    }
}

/// What becomes of a parsed object on a host that answers as `replies` say.
///
/// An object in which two maps or two programs have one name is refused,
/// as the parser refuses it. The maps are created and seeded, in the
/// object's order. The handles of the maps are patched into the code, and
/// then the calls. The first step that fails fails the load.
pub open spec fn spec_assemble(obj: ObjectModel, possible_cpus: u32, replies: Seq<MapReply>) -> Result<
    BpfModel,
    BpfError,
> {
    if !names_distinct(obj) {
        Err(BpfError::ParseError(ParseError::DuplicateName))
    } else {
        match create_maps(obj.maps, possible_cpus, replies, obj.maps.len() as int) {
            Err(e) => Err(BpfError::MapError(e)),
            Ok(maps) => match spec_relocate_maps(obj, slots_of(maps)) {
                Err(e) => Err(BpfError::RelocationError(e)),
                Ok(with_maps) => match spec_relocate_calls(with_maps) {
                    Err(e) => Err(BpfError::RelocationError(e)),
                    Ok(linked) => Ok(
                        BpfModel { maps, programs: linked.programs, license: linked.license },
                    ),
                },
            },
        }
    }
}

/// What loading `data` gives on a host that answers as `replies` say.
///
/// The object is parsed. The field offsets of the target are applied. Then
/// the object is assembled as `spec_assemble` says. The first step that
/// fails fails the load.
pub open spec fn spec_load(
    data: Seq<u8>,
    records: Option<Seq<FieldRelocation>>,
    possible_cpus: u32,
    replies: Seq<MapReply>,
) -> Result<BpfModel, BpfError> {
    match spec_parse(data) {
        Err(e) => Err(BpfError::ParseError(e)),
        Ok(parsed) => match relocate_btf_if(parsed, records) {
            Err(e) => Err(BpfError::RelocationError(e)),
            Ok(obj) => spec_assemble(obj, possible_cpus, replies),
        },
    }
}

/// The field offsets that the target's debug types give, where they are
/// given.
pub open spec fn records_of(target_btf: Option<Btf>) -> Option<Seq<FieldRelocation>> {
    match target_btf {
        Some(btf) => Some(btf.relocations@),
        None => None,
    }
}

/// The views of the maps.
pub open spec fn maps_view(maps: Seq<MapData>) -> Seq<MapDataModel> {
    maps.map_values(|m: MapData| m@)
}

/// The views of the maps of an object.
pub open spec fn obj_maps_view(maps: Seq<ObjMap>) -> Seq<MapModel> {
    maps.map_values(|m: ObjMap| m@)
}

/// Creates and seeds the maps of an object, given the host's answers, and
/// says what relocation needs to know of each.
#[verifier::rlimit(40)]
pub fn create_all(maps: &Vec<ObjMap>, host: &Host) -> (r: Result<
    (Vec<MapData>, Vec<MapSlot>),
    MapError,
>)
    ensures
        match create_maps(
            obj_maps_view(maps@),
            host.possible_cpus,
            host.maps@,
            maps@.len() as int,
        ) {
            Err(e) => r == Err::<(Vec<MapData>, Vec<MapSlot>), MapError>(e),
            Ok(created) => r is Ok && maps_view(r->Ok_0.0@) == created
                && r->Ok_0.1@ == slots_of(created),
        },
{
    let mut created: Vec<MapData> = Vec::new();
    let mut slots: Vec<MapSlot> = Vec::new();
    let mut i: usize = 0;
    assert(maps_view(created@) =~= Seq::<MapDataModel>::empty());
    while i < maps.len()
        invariant
            i <= maps@.len(),
            create_maps(obj_maps_view(maps@), host.possible_cpus, host.maps@, i as int) == Ok::<
                Seq<MapDataModel>,
                MapError,
            >(maps_view(created@)),
            slots@ == slots_of(maps_view(created@)),
        decreases maps@.len() - i,
    {
        let ghost before = maps_view(created@);
        let mut map: MapData = MapData::new(maps[i].copy(), host.possible_cpus);
        let step: Result<(), MapError> = if sized_by_host(&maps[i].def) && host.possible_cpus == 0 {
            Err(MapError::NoProcessors)
        } else if i >= host.maps.len() {
            Err(MapError::NotCreated)
        } else {
            let reply: MapReply = host.maps[i];
            match map.create(reply.created) {
                Err(e) => Err(e),
                Ok(_) => if map.needs_seed() {
                    map.seed(reply.seeded)
                } else {
                    Ok(())
                },
            }
        };
        match step {
            Err(e) => {
                proof {
                    lemma_create_maps_err(
                        obj_maps_view(maps@),
                        host.possible_cpus,
                        host.maps@,
                        i + 1,
                        maps@.len() as int,
                    );
                }
                return Err(e);
            },
            Ok(()) => {
                slots.push(map.slot());
                created.push(map);
                assert(maps_view(created@) =~= before.push(map@));
            },
        }
        i = i + 1;
    }
    Ok((created, slots))
}

/// The main entry point into the library: the maps and programs of a
/// loaded object, by their names.
#[derive(Debug)]
pub struct Bpf {
    maps: Vec<MapLock>,
    programs: Vec<Program>,
}

/// A walk over the maps of a loaded object, which borrows each map only
/// when it is reached.
#[derive(Debug)]
pub struct MapWalk {
    at: usize,
}

impl MapWalk {
    /// The index of the map that the walk yields next.
    pub closed spec fn spec_at(&self) -> int {
        self.at as int
    }

    /// A walk that starts at the first map.
    pub fn new() -> (r: MapWalk)
        ensures
            r.spec_at() == 0,
    {
        MapWalk { at: 0 }
    }
}

/// Whether `p` is the unloaded program that stands for `m`, with the
/// license `license`.
pub open spec fn is_fresh_program(p: Program, m: ProgramModel, license: Seq<u8>) -> bool {
    let d = p.spec_data();
    &&& p.is_of_kind(m.kind)
    &&& d.obj@ == m
    &&& d.name@ == m.name
    &&& d.license@ == license
    &&& d.fd is None
    &&& d.expected_attach_type is None
    &&& d.attach_btf_id is None
    &&& d.spec_links() == Seq::<LinkEntry>::empty()
    &&& d.next_link_id() == 0
}

/// Whether `l` is the map `m`, tagged by the kind that its definition
/// names, and held by nobody.
pub open spec fn is_fresh_map(l: MapLock, m: MapDataModel) -> bool {
    &&& l.spec_state() == LockState::Free
    &&& l.spec_map()@ == (TaggedMapModel { kind: kind_of_type(m.obj.def.map_type), data: m })
}

impl Bpf {
    /// The maps with their borrow states, in the object's order.
    pub closed spec fn spec_maps(&self) -> Seq<MapLock> {
        self.maps@
    }

    /// The programs, in the object's order.
    pub closed spec fn spec_programs(&self) -> Seq<Program> {
        self.programs@
    }

    /// The names of the maps, in the object's order.
    pub open spec fn map_names(&self) -> Seq<Seq<u8>> {
        self.spec_maps().map_values(|l: MapLock| l.spec_map().spec_data().obj.name@)
    }

    /// The names of the programs, in the object's order.
    pub open spec fn program_names(&self) -> Seq<Seq<u8>> {
        self.spec_programs().map_values(|p: Program| p.spec_data().name@)
    }

    /// Every map's borrow state and every program's state is well formed,
    /// and no two maps and no two programs have one name: a name stands
    /// for one map and for one program at most.
    pub open spec fn wf(&self) -> bool {
        &&& forall|i: int| 0 <= i < self.spec_maps().len() ==> (#[trigger] self.spec_maps()[i]).wf()
        &&& forall|j: int|
            0 <= j < self.spec_programs().len() ==> (#[trigger] self.spec_programs()[j]).wf()
        &&& all_distinct(self.map_names())
        &&& all_distinct(self.program_names())
    }

    /// Whether this is what a load that gave `m` returns: the maps of `m`
    /// with their handles, each held by nobody, and the programs of `m`,
    /// each unloaded.
    pub open spec fn is_load_of(&self, m: BpfModel) -> bool {
        &&& self.spec_maps().len() == m.maps.len()
        &&& forall|i: int|
            0 <= i < m.maps.len() ==> is_fresh_map(#[trigger] self.spec_maps()[i], m.maps[i])
        &&& self.spec_programs().len() == m.programs.len()
        &&& forall|j: int|
            0 <= j < m.programs.len() ==> is_fresh_program(
                #[trigger] self.spec_programs()[j],
                m.programs[j],
                m.license,
            )
    }

    /// Load eBPF bytecode.
    ///
    /// Parses the object code contained in `data`, takes the answers of
    /// `host` for the maps defined in it, and resolves every reference of
    /// the code. If `target_btf` is not `None`, the field offsets that it
    /// gives are applied as well.
    ///
    /// The load succeeds exactly where `spec_load` does, and then returns
    /// the maps and programs that `spec_load` describes. It is all or
    /// nothing: on failure the error is the one of `spec_load`, and nothing
    /// of the object is returned.
    pub fn load(data: &[u8], target_btf: Option<Btf>, host: &Host) -> (r: Result<Bpf, BpfError>)
        ensures
            match spec_load(data@, records_of(target_btf), host.possible_cpus, host.maps@) {
                Err(e) => r == Err::<Bpf, BpfError>(e),
                Ok(m) => r is Ok && r->Ok_0.wf() && r->Ok_0.is_load_of(m),
            },
    {
        let parsed: Object = match Object::parse(data) {
            Ok(obj) => obj,
            Err(e) => {
                return Err(BpfError::ParseError(e));
            },
        };
        let obj: Object = match target_btf {
            None => parsed,
            Some(btf) => match parsed.relocate_btf(&btf) {
                Ok(obj) => obj,
                Err(e) => {
                    return Err(BpfError::RelocationError(e));
                },
            },
        };
        Bpf::assemble(obj, host)
    }

    /// Creates the maps of a parsed object, given the answers of `host`,
    /// resolves every reference of the code, and hands out the maps and
    /// programs.
    ///
    /// The result is the one that `spec_assemble` describes. On failure
    /// nothing of the object is returned.
    #[verifier::rlimit(40)]
    pub fn assemble(obj: Object, host: &Host) -> (r: Result<Bpf, BpfError>)
        ensures
            match spec_assemble(obj@, host.possible_cpus, host.maps@) {
                Err(e) => r == Err::<Bpf, BpfError>(e),
                Ok(m) => r is Ok && r->Ok_0.wf() && r->Ok_0.is_load_of(m),
            },
    {
        if !obj.names_distinct() {
            return Err(BpfError::ParseError(ParseError::DuplicateName));
        }
        let ghost start = obj@;
        let (created, slots) = match create_all(&obj.maps, host) {
            Ok(pair) => pair,
            Err(e) => {
                return Err(BpfError::MapError(e));
            },
        };
        let with_maps: Object = match obj.relocate_maps(&slots) {
            Ok(obj) => obj,
            Err(e) => {
                return Err(BpfError::RelocationError(e));
            },
        };
        let ghost mid = with_maps@;
        let linked: Object = match with_maps.relocate_calls() {
            Ok(obj) => obj,
            Err(e) => {
                return Err(BpfError::RelocationError(e));
            },
        };
        let mut programs: Vec<Program> = Vec::new();
        let mut j: usize = 0;
        while j < linked.programs.len()
            invariant
                j <= linked.programs@.len(),
                programs@.len() == j,
                forall|k: int|
                    0 <= k < j ==> (#[trigger] programs@[k]).wf() && is_fresh_program(
                        programs@[k],
                        linked@.programs[k],
                        linked@.license,
                    ),
            decreases linked.programs@.len() - j,
        {
            let code: ObjProgram = linked.programs[j].copy();
            let program: Program = Program::new(
                ProgramData::new(code, copy_bytes(&linked.license)),
            );
            programs.push(program);
            j = j + 1;
        }
        let mut maps: Vec<MapLock> = Vec::new();
        let ghost all = created@;
        let mut i: usize = 0;
        while i < created.len()
            invariant
                i <= created@.len(),
                created@ == all,
                maps@.len() == i,
                forall|k: int|
                    0 <= k < i ==> (#[trigger] maps@[k]).wf() && is_fresh_map(maps@[k], all[k]@),
            decreases created@.len() - i,
        {
            let lock: MapLock = MapLock::new(KernelMap::new(created[i].copy()));
            maps.push(lock);
            i = i + 1;
        }
        let bpf = Bpf { maps, programs };
        proof {
            lemma_passes_keep_names(start, slots@);
            lemma_passes_keep_names(mid, slots@);
            assert(bpf.program_names() =~= program_names(linked@.programs));
            assert(bpf.map_names() =~= map_names(start.maps)) by {
                lemma_create_maps_len(
                    start.maps,
                    host.possible_cpus,
                    host.maps@,
                    start.maps.len() as int,
                );
                assert forall|k: int| 0 <= k < all.len() implies bpf.map_names()[k] == map_names(
                    start.maps,
                )[k] by {
                    lemma_create_maps_each(
                        start.maps,
                        host.possible_cpus,
                        host.maps@,
                        start.maps.len() as int,
                        k,
                    );
                    assert(maps_view(all)[k] == all[k]@);
                }
            }
        }
        Ok(bpf)
    }
}

/// Holds of the maps named `name`.
pub open spec fn has_map_name(name: Seq<u8>) -> spec_fn(MapLock) -> bool {
    |l: MapLock| l.spec_map().spec_data().obj.name@ == name
}

/// Holds of the programs named `name`.
pub open spec fn has_program_name(name: Seq<u8>) -> spec_fn(Program) -> bool {
    |p: Program| p.spec_data().name@ == name
}

/// Whether `after` is `before` with the borrow state of map `i` set to
/// `state`, and nothing else changed.
pub open spec fn borrow_changed(
    before: Seq<MapLock>,
    after: Seq<MapLock>,
    i: int,
    state: LockState,
) -> bool {
    &&& after.len() == before.len()
    &&& forall|k: int| 0 <= k < before.len() && k != i ==> #[trigger] after[k] == before[k]
    &&& after[i].spec_map() == before[i].spec_map()
    &&& after[i].spec_state() == state
}

/// A change of one map's borrow state leaves every name at its index.
pub proof fn lemma_borrow_keeps_index(
    before: Seq<MapLock>,
    after: Seq<MapLock>,
    i: int,
    state: LockState,
    name: Seq<u8>,
)
    requires
        0 <= i < before.len(),
        borrow_changed(before, after, i, state),
    ensures
        first_where(after, has_map_name(name)) == first_where(before, has_map_name(name)),
{
    let p = has_map_name(name);
    let k = first_where(before, p);
    lemma_first_where_is_first(before, p);
    lemma_first_where(after, p, k);
}

/// A change of one map's borrow state that leaves the state well formed
/// leaves the whole well formed, and every name at its index.
proof fn lemma_borrow_kept(before: Bpf, after: Bpf, i: int)
    requires
        before.wf(),
        after.spec_programs() == before.spec_programs(),
        0 <= i < before.spec_maps().len(),
        after.spec_maps()[i].wf(),
        borrow_changed(
            before.spec_maps(),
            after.spec_maps(),
            i,
            after.spec_maps()[i].spec_state(),
        ),
    ensures
        after.wf(),
        forall|other: Seq<u8>| #[trigger] after.map_index(other) == before.map_index(other),
{
    assert(after.map_names() =~= before.map_names()) by {
        assert forall|k: int| 0 <= k < before.spec_maps().len() implies after.map_names()[k]
            == before.map_names()[k] by {
            if k != i {
                assert(after.spec_maps()[k] == before.spec_maps()[k]);
            }
        }
    }
    assert forall|other: Seq<u8>| #[trigger]
        after.map_index(other) == before.map_index(other) by {
        lemma_borrow_keeps_index(
            before.spec_maps(),
            after.spec_maps(),
            i,
            after.spec_maps()[i].spec_state(),
            other,
        );
    }
}

impl Bpf {
    /// The index of the first map named `name`, or the number of maps.
    pub open spec fn map_index(&self, name: Seq<u8>) -> int {
        first_where(self.spec_maps(), has_map_name(name))
    }

    /// The index of the first program named `name`, or the number of
    /// programs.
    pub open spec fn program_index(&self, name: Seq<u8>) -> int {
        first_where(self.spec_programs(), has_program_name(name))
    }

    fn find_map(&self, name: &[u8]) -> (r: usize)
        ensures
            r == self.map_index(name@),
            is_first_where(self.spec_maps(), has_map_name(name@), r as int),
    {
        let mut i: usize = 0;
        while i < self.maps.len() && !bytes_eq(self.maps[i].map().data().obj.name.as_slice(), name)
            invariant
                i <= self.maps@.len(),
                forall|j: int| 0 <= j < i ==> !has_map_name(name@)(#[trigger] self.maps@[j]),
            decreases self.maps@.len() - i,
        {
            i = i + 1;
        }
        proof {
            lemma_first_where(self.maps@, has_map_name(name@), i as int);
        }
        i
    }

    fn find_program(&self, name: &[u8]) -> (r: usize)
        ensures
            r == self.program_index(name@),
            is_first_where(self.spec_programs(), has_program_name(name@), r as int),
    {
        let mut i: usize = 0;
        while i < self.programs.len() && !bytes_eq(self.programs[i].data().name.as_slice(), name)
            invariant
                i <= self.programs@.len(),
                forall|j: int|
                    0 <= j < i ==> !has_program_name(name@)(#[trigger] self.programs@[j]),
            decreases self.programs@.len() - i,
        {
            i = i + 1;
        }
        proof {
            lemma_first_where(self.programs@, has_program_name(name@), i as int);
        }
        i
    }

    /// Returns a reference to the map with the given name.
    ///
    /// The borrow is shared: other readers are let in beside it, and the
    /// writer is refused until every reader has been released.
    ///
    /// # Errors
    ///
    /// Returns [`MapError::MapNotFound`] if the map does not exist. If the
    /// map is already borrowed mutably with [map_mut](Self::map_mut) then
    /// [`MapError::BorrowError`] is returned. Neither changes anything.
    pub fn map(&mut self, name: &str) -> (r: Result<MapRef, MapError>)
        requires
            old(self).wf(),
        ensures
            final(self).wf(),
            final(self).spec_programs() == old(self).spec_programs(),
            forall|other: Seq<u8>|
                #[trigger] final(self).map_index(other) == old(self).map_index(other),
            ({
                let i = old(self).map_index(name.spec_bytes());
                let maps = old(self).spec_maps();
                &&& is_first_where(maps, has_map_name(name.spec_bytes()), i)
                &&& if i >= maps.len() {
                    r is Err && r->Err_0.is_not_found(name.spec_bytes()) && final(self).spec_maps()
                        == maps
                } else {
                    &&& borrow_changed(
                        maps,
                        final(self).spec_maps(),
                        i,
                        maps[i].spec_state().after_read(),
                    )
                    &&& r is Ok <==> maps[i].spec_state().can_share()
                    &&& r is Ok ==> r->Ok_0.spec_map()@ == maps[i].spec_map()@
                    &&& r is Err ==> r->Err_0.is_borrowed(name.spec_bytes())
                }
            }),
    {
        let i: usize = self.find_map(name.as_bytes());
        if i >= self.maps.len() {
            return Err(MapError::MapNotFound { name: to_vec(name.as_bytes()) });
        }
        let r = self.maps[i].try_read();
        proof {
            lemma_borrow_kept(*old(self), *self, i as int);
        }
        r
    }

    /// Returns a mutable reference to the map with the given name.
    ///
    /// The borrow is exclusive: it is had only while nobody holds the map,
    /// and while it lasts every other borrow is refused.
    ///
    /// # Errors
    ///
    /// Returns [`MapError::MapNotFound`] if the map does not exist. If the
    /// map is already borrowed, by readers or by the writer, then
    /// [`MapError::BorrowError`] is returned. Neither changes anything.
    pub fn map_mut(&mut self, name: &str) -> (r: Result<MapRefMut, MapError>)
        requires
            old(self).wf(),
        ensures
            final(self).wf(),
            final(self).spec_programs() == old(self).spec_programs(),
            forall|other: Seq<u8>|
                #[trigger] final(self).map_index(other) == old(self).map_index(other),
            ({
                let i = old(self).map_index(name.spec_bytes());
                let maps = old(self).spec_maps();
                &&& is_first_where(maps, has_map_name(name.spec_bytes()), i)
                &&& if i >= maps.len() {
                    r is Err && r->Err_0.is_not_found(name.spec_bytes()) && final(self).spec_maps()
                        == maps
                } else {
                    &&& borrow_changed(
                        maps,
                        final(self).spec_maps(),
                        i,
                        maps[i].spec_state().after_write(),
                    )
                    &&& r is Ok <==> maps[i].spec_state() == LockState::Free
                    &&& r is Ok ==> r->Ok_0.spec_map()@ == maps[i].spec_map()@
                    &&& r is Err ==> r->Err_0.is_borrowed(name.spec_bytes())
                }
            }),
    {
        let i: usize = self.find_map(name.as_bytes());
        if i >= self.maps.len() {
            return Err(MapError::MapNotFound { name: to_vec(name.as_bytes()) });
        }
        let r = self.maps[i].try_write();
        proof {
            lemma_borrow_kept(*old(self), *self, i as int);
        }
        r
    }

    /// Takes a reader's borrow back: the map of the guard's name has one
    /// reader less. Where no map has that name, nothing changes.
    pub fn release(&mut self, guard: MapRef)
        requires
            old(self).wf(),
        ensures
            final(self).wf(),
            final(self).spec_programs() == old(self).spec_programs(),
            forall|other: Seq<u8>|
                #[trigger] final(self).map_index(other) == old(self).map_index(other),
            ({
                let i = old(self).map_index(guard.spec_map().spec_data().obj.name@);
                let maps = old(self).spec_maps();
                if i >= maps.len() {
                    final(self).spec_maps() == maps
                } else {
                    borrow_changed(
                        maps,
                        final(self).spec_maps(),
                        i,
                        maps[i].spec_state().unshared(),
                    )
                }
            }),
    {
        let i: usize = self.find_map(guard.map().data().obj.name.as_slice());
        if i < self.maps.len() {
            self.maps[i].release_read(guard);
            proof {
            lemma_borrow_kept(*old(self), *self, i as int);
        }
        }
    }

    /// Takes the writer's borrow back: the map of the guard's name is free
    /// again. Where no map has that name, nothing changes.
    pub fn release_mut(&mut self, guard: MapRefMut)
        requires
            old(self).wf(),
        ensures
            final(self).wf(),
            final(self).spec_programs() == old(self).spec_programs(),
            forall|other: Seq<u8>|
                #[trigger] final(self).map_index(other) == old(self).map_index(other),
            ({
                let i = old(self).map_index(guard.spec_map().spec_data().obj.name@);
                let maps = old(self).spec_maps();
                if i >= maps.len() {
                    final(self).spec_maps() == maps
                } else {
                    borrow_changed(
                        maps,
                        final(self).spec_maps(),
                        i,
                        maps[i].spec_state().unlocked(),
                    )
                }
            }),
    {
        let i: usize = self.find_map(guard.map().data().obj.name.as_slice());
        if i < self.maps.len() {
            self.maps[i].release_write(guard);
            proof {
            lemma_borrow_kept(*old(self), *self, i as int);
        }
        }
    }

    /// Returns a reference to the program with the given name.
    ///
    /// # Errors
    ///
    /// Returns [`ProgramError::NotFound`] if the program does not exist.
    pub fn program(&self, name: &str) -> (r: Result<&Program, ProgramError>)
        ensures
            ({
                let i = self.program_index(name.spec_bytes());
                &&& is_first_where(self.spec_programs(), has_program_name(name.spec_bytes()), i)
                &&& if i >= self.spec_programs().len() {
                    r is Err && r->Err_0.is_not_found(name.spec_bytes())
                } else {
                    r is Ok && *r->Ok_0 == self.spec_programs()[i]
                }
            }),
    {
        let i: usize = self.find_program(name.as_bytes());
        if i >= self.programs.len() {
            return Err(ProgramError::NotFound { name: to_vec(name.as_bytes()) });
        }
        Ok(&self.programs[i])
    }

    /// Returns a mutable reference to the program with the given name.
    ///
    /// Used to get a program before loading and attaching it. What the
    /// caller makes of the program is what the container holds afterwards,
    /// in the program's place; nothing else changes.
    ///
    /// # Errors
    ///
    /// Returns [`ProgramError::NotFound`] if the program does not exist.
    pub fn program_mut(&mut self, name: &str) -> (r: Result<&mut Program, ProgramError>)
        ensures
            final(self).spec_maps() == old(self).spec_maps(),
            ({
                let i = old(self).program_index(name.spec_bytes());
                let programs = old(self).spec_programs();
                &&& is_first_where(programs, has_program_name(name.spec_bytes()), i)
                &&& if i >= programs.len() {
                    r is Err && r->Err_0.is_not_found(name.spec_bytes()) && final(self).spec_programs()
                        == programs
                } else {
                    r is Ok && *r->Ok_0 == programs[i] && final(self).spec_programs()
                        == programs.update(i, *final(r->Ok_0))
                }
            }),
    {
        let i: usize = self.find_program(name.as_bytes());
        if i >= self.programs.len() {
            return Err(ProgramError::NotFound { name: to_vec(name.as_bytes()) });
        }
        Ok(&mut self.programs[i])
    }

    /// All the maps at once: the name of each, in the object's order,
    /// together with a shared borrow of it, or with
    /// [`MapError::BorrowError`] where the writer holds it.
    ///
    /// Every borrow that is handed out counts as a reader of its map, as
    /// with [map](Self::map). To borrow each map only when it is reached,
    /// walk the maps with [next_map](Self::next_map).
    pub fn maps(&mut self) -> (r: Vec<(Vec<u8>, Result<MapRef, MapError>)>)
        requires
            old(self).wf(),
        ensures
            final(self).wf(),
            final(self).spec_programs() == old(self).spec_programs(),
            final(self).spec_maps().len() == old(self).spec_maps().len(),
            r@.len() == old(self).spec_maps().len(),
            forall|i: int|
                0 <= i < r@.len() ==> {
                    let before = #[trigger] old(self).spec_maps()[i];
                    let after = final(self).spec_maps()[i];
                    &&& r@[i].0@ == before.spec_map().spec_data().obj.name@
                    &&& after.spec_map() == before.spec_map()
                    &&& after.spec_state() == before.spec_state().after_read()
                    &&& r@[i].1 is Ok <==> before.spec_state().can_share()
                    &&& r@[i].1 is Ok ==> r@[i].1->Ok_0.spec_map()@ == before.spec_map()@
                    &&& r@[i].1 is Err ==> r@[i].1->Err_0.is_borrowed(r@[i].0@)
                },
    {
        let mut out: Vec<(Vec<u8>, Result<MapRef, MapError>)> = Vec::new();
        let mut i: usize = 0;
        while i < self.maps.len()
            invariant
                i <= self.maps@.len(),
                self.maps@.len() == old(self).maps@.len(),
                self.programs@ == old(self).programs@,
                old(self).wf(),
                out@.len() == i,
                forall|k: int| i <= k < self.maps@.len() ==> #[trigger] self.maps@[k] == old(self).maps@[k],
                forall|k: int| 0 <= k < i ==> (#[trigger] self.maps@[k]).wf(),
                forall|k: int|
                    0 <= k < i ==> {
                        let before = #[trigger] old(self).maps@[k];
                        let after = self.maps@[k];
                        &&& out@[k].0@ == before.spec_map().spec_data().obj.name@
                        &&& after.spec_map() == before.spec_map()
                        &&& after.spec_state() == before.spec_state().after_read()
                        &&& out@[k].1 is Ok <==> before.spec_state().can_share()
                        &&& out@[k].1 is Ok ==> out@[k].1->Ok_0.spec_map()@ == before.spec_map()@
                        &&& out@[k].1 is Err ==> out@[k].1->Err_0.is_borrowed(out@[k].0@)
                    },
            decreases self.maps@.len() - i,
        {
            assert(old(self).spec_maps()[i as int].wf());
            let name: Vec<u8> = copy_bytes(&self.maps[i].map().data().obj.name);
            let guard: Result<MapRef, MapError> = self.maps[i].try_read();
            out.push((name, guard));
            i = i + 1;
        }
        proof {
            assert forall|j: int| 0 <= j < self.spec_programs().len() implies (
            #[trigger] self.spec_programs()[j]).wf() by {
                assert(old(self).spec_programs()[j].wf());
            }
            assert(self.map_names() =~= old(self).map_names());
            assert(self.program_names() =~= old(self).program_names());
        }
        out
    }

    /// Takes the next step of a walk over the maps, in the object's order:
    /// the name of the map that the walk has reached, together with a
    /// shared borrow of it, or with [`MapError::BorrowError`] where the
    /// writer holds it. A map is borrowed only when the walk reaches it.
    /// Behind the last map the walk yields nothing and changes nothing.
    ///
    /// A borrow that is handed out counts as a reader of its map, as with
    /// [map](Self::map). A walk is started over with a new [`MapWalk`].
    pub fn next_map(&mut self, walk: &mut MapWalk) -> (r: Option<
        (Vec<u8>, Result<MapRef, MapError>),
    >)
        requires
            old(self).wf(),
        ensures
            final(self).wf(),
            final(self).spec_programs() == old(self).spec_programs(),
            forall|other: Seq<u8>|
                #[trigger] final(self).map_index(other) == old(self).map_index(other),
            ({
                let i = old(walk).spec_at();
                let maps = old(self).spec_maps();
                if i >= maps.len() {
                    r is None && final(self).spec_maps() == maps && final(walk).spec_at() == i
                } else {
                    &&& final(walk).spec_at() == i + 1
                    &&& borrow_changed(
                        maps,
                        final(self).spec_maps(),
                        i,
                        maps[i].spec_state().after_read(),
                    )
                    &&& r is Some
                    &&& r->Some_0.0@ == maps[i].spec_map().spec_data().obj.name@
                    &&& r->Some_0.1 is Ok <==> maps[i].spec_state().can_share()
                    &&& r->Some_0.1 is Ok ==> r->Some_0.1->Ok_0.spec_map()@ == maps[i].spec_map()@
                    &&& r->Some_0.1 is Err ==> r->Some_0.1->Err_0.is_borrowed(r->Some_0.0@)
                }
            }),
    {
        let i: usize = walk.at;
        if i >= self.maps.len() {
            return None;
        }
        let name: Vec<u8> = copy_bytes(&self.maps[i].map().data().obj.name);
        let guard: Result<MapRef, MapError> = self.maps[i].try_read();
        walk.at = i + 1;
        proof {
            lemma_borrow_kept(*old(self), *self, i as int);
        }
        Some((name, guard))
    }

    /// Whether the container is well formed. A loaded object is; a caller
    /// that has set a program's fields by hand may have made it otherwise.
    pub fn check(&self) -> (r: bool)
        ensures
            r == self.wf(),
    {
        let mut maps: Vec<Vec<u8>> = Vec::new();
        let mut i: usize = 0;
        while i < self.maps.len()
            invariant
                i <= self.maps@.len(),
                maps@.len() == i,
                forall|k: int| 0 <= k < i ==> (#[trigger] self.maps@[k]).wf(),
                forall|k: int|
                    0 <= k < i ==> (#[trigger] maps@[k])@
                        == self.maps@[k].spec_map().spec_data().obj.name@,
            decreases self.maps@.len() - i,
        {
            if !self.maps[i].check() {
                return false;
            }
            maps.push(copy_bytes(&self.maps[i].map().data().obj.name));
            i = i + 1;
        }
        assert(views(maps@) =~= self.map_names());
        let mut programs: Vec<Vec<u8>> = Vec::new();
        let mut j: usize = 0;
        while j < self.programs.len()
            invariant
                j <= self.programs@.len(),
                programs@.len() == j,
                forall|k: int| 0 <= k < j ==> (#[trigger] self.programs@[k]).wf(),
                forall|k: int|
                    0 <= k < j ==> (#[trigger] programs@[k])@
                        == self.programs@[k].spec_data().name@,
            decreases self.programs@.len() - j,
        {
            if !self.programs[j].check() {
                return false;
            }
            programs.push(copy_bytes(&self.programs[j].data().name));
            j = j + 1;
        }
        assert(views(programs@) =~= self.program_names());
        distinct(&maps) && distinct(&programs)
    }

    /// All the programs, in the object's order.
    pub fn programs(&self) -> (r: &Vec<Program>)
        ensures
            r@ == self.spec_programs(),
    {
        &self.programs
    }

    /// The number of maps.
    pub fn map_count(&self) -> (r: usize)
        ensures
            r == self.spec_maps().len(),
    {
        self.maps.len()
    }
}

/// Where the first `n` maps are created, each is created as `create_map`
/// says, with a handle, and stands in its place.
pub proof fn lemma_create_maps_each(
    maps: Seq<MapModel>,
    possible_cpus: u32,
    replies: Seq<MapReply>,
    n: int,
    i: int,
)
    requires
        0 <= i < n <= maps.len(),
        create_maps(maps, possible_cpus, replies, n) is Ok,
    ensures
        create_maps(maps, possible_cpus, replies, n)->Ok_0.len() == n,
        create_map(maps[i], possible_cpus, reply_for(replies, i)) is Ok,
        create_maps(maps, possible_cpus, replies, n)->Ok_0[i] == create_map(
            maps[i],
            possible_cpus,
            reply_for(replies, i),
        )->Ok_0,
    decreases n,
{
    lemma_create_maps_len(maps, possible_cpus, replies, n);
    if i < n - 1 {
        lemma_create_maps_each(maps, possible_cpus, replies, n - 1, i);
    }
}

/// Where the first `n` maps are created, there are `n` of them.
pub proof fn lemma_create_maps_len(
    maps: Seq<MapModel>,
    possible_cpus: u32,
    replies: Seq<MapReply>,
    n: int,
)
    requires
        0 <= n <= maps.len(),
        create_maps(maps, possible_cpus, replies, n) is Ok,
    ensures
        create_maps(maps, possible_cpus, replies, n)->Ok_0.len() == n,
    decreases n,
{
    if n > 0 {
        lemma_create_maps_len(maps, possible_cpus, replies, n - 1);
    }
}

/// The object that enters the creation of the maps: the parsed object with
/// the target's field offsets applied.
pub open spec fn prepared(data: Seq<u8>, records: Option<Seq<FieldRelocation>>) -> ObjectModel {
    relocate_btf_if(spec_parse(data)->Ok_0, records)->Ok_0
}

/// The object that enters the creation of the maps has no name twice: the
/// parser refuses such an object, and the field offsets of the target
/// change no name.
pub proof fn lemma_prepared_names_distinct(data: Seq<u8>, records: Option<Seq<FieldRelocation>>)
    requires
        spec_parse(data) is Ok,
        relocate_btf_if(spec_parse(data)->Ok_0, records) is Ok,
    ensures
        names_distinct(prepared(data, records)),
{
    let parsed = spec_parse(data)->Ok_0;
    let obj = prepared(data, records);
    if records is Some {
        lemma_relocate_fields_keeps(parsed, records->Some_0, records->Some_0.len() as int);
        assert(program_names(obj.programs) =~= program_names(parsed.programs));
    }
}

/// After a successful load, every map of the object stands in the object's
/// order, with its handle and with the definition that it was created
/// with. A per-processor event array that the object defines without a
/// number of entries has as many entries as the host has possible
/// processors, which are more than none; every other map has the entries
/// of its definition.
pub proof fn law_maps_are_realized(
    data: Seq<u8>,
    records: Option<Seq<FieldRelocation>>,
    possible_cpus: u32,
    replies: Seq<MapReply>,
    i: int,
)
    requires
        spec_load(data, records, possible_cpus, replies) is Ok,
        0 <= i < spec_parse(data)->Ok_0.maps.len(),
    ensures
        ({
            let defined = spec_parse(data)->Ok_0.maps[i];
            let loaded = spec_load(data, records, possible_cpus, replies)->Ok_0;
            &&& loaded.maps.len() == spec_parse(data)->Ok_0.maps.len()
            &&& loaded.maps[i].fd is Some
            &&& loaded.maps[i].obj.name == defined.name
            &&& loaded.maps[i].obj.def == realized_def(defined.def, possible_cpus)
            &&& defined.def.map_type == BPF_MAP_TYPE_PERF_EVENT_ARRAY && defined.def.max_entries
                == 0 ==> loaded.maps[i].obj.def.max_entries == possible_cpus && possible_cpus > 0
            &&& !(defined.def.map_type == BPF_MAP_TYPE_PERF_EVENT_ARRAY && defined.def.max_entries
                == 0) ==> loaded.maps[i].obj.def == defined.def
        }),
{
    let parsed = spec_parse(data)->Ok_0;
    if records is Some {
        lemma_relocate_fields_keeps(
            parsed,
            records->Some_0,
            records->Some_0.len() as int,
        );
    }
    let obj = prepared(data, records);
    lemma_create_maps_each(obj.maps, possible_cpus, replies, obj.maps.len() as int, i);
}

/// After a successful load, every instruction of a program that a map
/// relocation names, and that no later relocation names, holds the handle
/// of the map which the relocation's symbol stands for: the map that was
/// created for the symbol's section.
pub proof fn law_load_patches_map_references(
    data: Seq<u8>,
    records: Option<Seq<FieldRelocation>>,
    possible_cpus: u32,
    replies: Seq<MapReply>,
    j: int,
    k: int,
)
    requires
        spec_load(data, records, possible_cpus, replies) is Ok,
        0 <= j < prepared(data, records).programs.len(),
        0 <= k < table_for(
            prepared(data, records).relocations,
            prepared(data, records).programs[j].section_index,
        ).len(),
        names_last(
            table_for(
                prepared(data, records).relocations,
                prepared(data, records).programs[j].section_index,
            ),
            k,
        ),
    ensures
        ({
            let obj = prepared(data, records);
            let loaded = spec_load(data, records, possible_cpus, replies)->Ok_0;
            let r = table_for(obj.relocations, obj.programs[j].section_index)[k];
            let idx = ins_index(r);
            let sym = obj.symbols[r.symbol_index as int];
            let m = spec_find_map(slots_of(loaded.maps), sym.section_index);
            &&& loaded.programs.len() == obj.programs.len()
            &&& 0 <= idx < obj.programs[j].instructions.len()
                <= loaded.programs[j].instructions.len()
            &&& !is_call_relocation(obj.programs[j].instructions[idx], sym, obj.text_section) ==> {
                &&& 0 <= m < loaded.maps.len()
                &&& loaded.maps[m].obj.section_index == sym.section_index
                &&& loaded.maps[m].fd is Some
                &&& loaded.programs[j].instructions[idx].imm == loaded.maps[m].fd->Some_0
            }
        }),
{
    let obj = prepared(data, records);
    let loaded = spec_load(data, records, possible_cpus, replies)->Ok_0;
    let slots = slots_of(loaded.maps);
    let with_maps = spec_relocate_maps(obj, slots)->Ok_0;
    law_map_references_hold_handles(obj, slots, j, k);
    let r = table_for(obj.relocations, obj.programs[j].section_index)[k];
    let idx = ins_index(r);
    let sym = obj.symbols[r.symbol_index as int];
    lemma_maps_keep_calls(obj, slots, j, idx);
    lemma_calls_keep_lengths(with_maps, j);
    if !is_call_relocation(obj.programs[j].instructions[idx], sym, obj.text_section) {
        lemma_calls_keep_other_instructions(with_maps, j, idx);
    }
}

/// After a successful load, every instruction of a program that a call
/// relocation names, and that no other relocation names, is a call that
/// leads to its callee: to the index at which the subroutines stand behind
/// the program's own instructions, plus the callee's index among the
/// subroutines. No call is left unresolved.
pub proof fn law_load_resolves_calls(
    data: Seq<u8>,
    records: Option<Seq<FieldRelocation>>,
    possible_cpus: u32,
    replies: Seq<MapReply>,
    j: int,
    k: int,
)
    requires
        spec_load(data, records, possible_cpus, replies) is Ok,
        0 <= j < prepared(data, records).programs.len(),
        0 <= k < table_for(
            prepared(data, records).relocations,
            prepared(data, records).programs[j].section_index,
        ).len(),
        names_alone(
            table_for(
                prepared(data, records).relocations,
                prepared(data, records).programs[j].section_index,
            ),
            k,
        ),
    ensures
        ({
            let obj = prepared(data, records);
            let loaded = spec_load(data, records, possible_cpus, replies)->Ok_0;
            let before = obj.programs[j].instructions;
            let after = loaded.programs[j].instructions;
            let r = table_for(obj.relocations, obj.programs[j].section_index)[k];
            let idx = ins_index(r);
            let sym = obj.symbols[r.symbol_index as int];
            let callee = callee_index(before[idx], sym);
            &&& loaded.programs.len() == obj.programs.len()
            &&& 0 <= idx < before.len() <= after.len()
            &&& is_call_relocation(before[idx], sym, obj.text_section) ==> {
                &&& before[idx].is_call()
                &&& after[idx].is_call()
                &&& 0 <= callee
                &&& before.len() + callee < after.len()
                &&& idx + 1 + after[idx].imm == before.len() + callee
            }
        }),
{
    let obj = prepared(data, records);
    let loaded = spec_load(data, records, possible_cpus, replies)->Ok_0;
    let slots = slots_of(loaded.maps);
    let with_maps = spec_relocate_maps(obj, slots)->Ok_0;
    law_map_references_hold_handles(obj, slots, j, k);
    let r = table_for(obj.relocations, obj.programs[j].section_index)[k];
    let idx = ins_index(r);
    lemma_maps_keep_calls(obj, slots, j, idx);
    law_calls_lead_to_callees(with_maps, j, k);
}

/// Where the maps of an object were created, and a map relocation of one of
/// its programs names a symbol outside the symbol table or a symbol whose
/// section holds no map, the load fails with the relocation's error. A
/// failed load returns nothing of the object.
pub proof fn law_load_fails_on_undefined_map_symbol(
    data: Seq<u8>,
    records: Option<Seq<FieldRelocation>>,
    possible_cpus: u32,
    replies: Seq<MapReply>,
    j: int,
    k: int,
)
    requires
        spec_parse(data) is Ok,
        relocate_btf_if(spec_parse(data)->Ok_0, records) is Ok,
        create_maps(
            prepared(data, records).maps,
            possible_cpus,
            replies,
            prepared(data, records).maps.len() as int,
        ) is Ok,
        0 <= j < prepared(data, records).programs.len(),
        0 <= k < table_for(
            prepared(data, records).relocations,
            prepared(data, records).programs[j].section_index,
        ).len(),
        ({
            let obj = prepared(data, records);
            let maps = slots_of(
                create_maps(obj.maps, possible_cpus, replies, obj.maps.len() as int)->Ok_0,
            );
            let r = table_for(obj.relocations, obj.programs[j].section_index)[k];
            let idx = ins_index(r);
            ||| r.symbol_index >= obj.symbols.len()
            ||| (0 <= idx < obj.programs[j].instructions.len() && !is_call_relocation(
                obj.programs[j].instructions[idx],
                obj.symbols[r.symbol_index as int],
                obj.text_section,
            ) && spec_find_map(maps, obj.symbols[r.symbol_index as int].section_index)
                >= maps.len())
        }),
    ensures
        spec_load(data, records, possible_cpus, replies) is Err,
        spec_load(data, records, possible_cpus, replies)->Err_0 is RelocationError,
{
    let obj = prepared(data, records);
    let maps = slots_of(create_maps(obj.maps, possible_cpus, replies, obj.maps.len() as int)->Ok_0);
    lemma_prepared_names_distinct(data, records);
    law_undefined_map_symbol_fails(obj, maps, j, k);
}

/// A name that no map bears is the name of no map: its index is the number
/// of maps, so that looking it up gives `MapNotFound`. The same holds of
/// programs and `NotFound`.
pub proof fn law_absent_names_are_not_found(bpf: Bpf, name: Seq<u8>)
    ensures
        (forall|i: int|
            0 <= i < bpf.spec_maps().len() ==> (
            #[trigger] bpf.spec_maps()[i]).spec_map().spec_data().obj.name@ != name)
            ==> bpf.map_index(name) == bpf.spec_maps().len(),
        (forall|j: int|
            0 <= j < bpf.spec_programs().len() ==> (
            #[trigger] bpf.spec_programs()[j]).spec_data().name@ != name) ==> bpf.program_index(
            name,
        ) == bpf.spec_programs().len(),
{
    if forall|i: int|
        0 <= i < bpf.spec_maps().len() ==> (
        #[trigger] bpf.spec_maps()[i]).spec_map().spec_data().obj.name@ != name {
        lemma_first_where(bpf.spec_maps(), has_map_name(name), bpf.spec_maps().len() as int);
    }
    if forall|j: int|
        0 <= j < bpf.spec_programs().len() ==> (
        #[trigger] bpf.spec_programs()[j]).spec_data().name@ != name {
        lemma_first_where(
            bpf.spec_programs(),
            has_program_name(name),
            bpf.spec_programs().len() as int,
        );
    }
}

/// A name stands for one map and for one program: each map is the one
/// that looking its name up finds, and so is each program.
pub proof fn law_each_name_finds_its_own(bpf: Bpf, i: int, j: int)
    requires
        bpf.wf(),
    ensures
        0 <= i < bpf.spec_maps().len() ==> bpf.map_index(bpf.map_names()[i]) == i,
        0 <= j < bpf.spec_programs().len() ==> bpf.program_index(bpf.program_names()[j]) == j,
{
    if 0 <= i < bpf.spec_maps().len() {
        let name = bpf.map_names()[i];
        assert forall|k: int| 0 <= k < i implies !has_map_name(name)(
            #[trigger] bpf.spec_maps()[k],
        ) by {
            assert(bpf.map_names()[k] != bpf.map_names()[i]);
        }
        lemma_first_where(bpf.spec_maps(), has_map_name(name), i);
    }
    if 0 <= j < bpf.spec_programs().len() {
        let name = bpf.program_names()[j];
        assert forall|k: int| 0 <= k < j implies !has_program_name(name)(
            #[trigger] bpf.spec_programs()[k],
        ) by {
            assert(bpf.program_names()[k] != bpf.program_names()[j]);
        }
        lemma_first_where(bpf.spec_programs(), has_program_name(name), j);
    }
}

/// The first `n` maps are created where each of them is.
pub proof fn lemma_create_maps_ok(
    maps: Seq<MapModel>,
    possible_cpus: u32,
    replies: Seq<MapReply>,
    n: int,
)
    requires
        0 <= n <= maps.len(),
        forall|i: int|
            0 <= i < n ==> #[trigger] create_map(maps[i], possible_cpus, reply_for(replies, i))
                is Ok,
    ensures
        create_maps(maps, possible_cpus, replies, n) is Ok,
    decreases n,
{
    if n > 0 {
        lemma_create_maps_ok(maps, possible_cpus, replies, n - 1);
        assert(create_map(maps[n - 1], possible_cpus, reply_for(replies, n - 1)) is Ok);
    }
}

/// Whether the host creates every map of `obj`: it answers for each, with
/// a handle, and with success for the seeding of a map that needs it; and
/// it has a processor where a map is sized by the processors.
pub open spec fn host_creates(obj: ObjectModel, possible_cpus: u32, replies: Seq<MapReply>) -> bool {
    forall|i: int|
        0 <= i < obj.maps.len() ==> #[trigger] create_map(
            obj.maps[i],
            possible_cpus,
            reply_for(replies, i),
        ) is Ok
}

/// When a load succeeds: the bytes are an object, the target's field
/// offsets apply to it, the host creates every map, the object has no
/// subroutines, and every relocation of every program is a reference to
/// one of the created maps that does not stand for global variables. The
/// loaded object then has the maps and the programs of the parsed object,
/// in their number.
pub proof fn law_load_succeeds(
    data: Seq<u8>,
    records: Option<Seq<FieldRelocation>>,
    possible_cpus: u32,
    replies: Seq<MapReply>,
)
    requires
        spec_parse(data) is Ok,
        relocate_btf_if(spec_parse(data)->Ok_0, records) is Ok,
        prepared(data, records).text_section is None,
        host_creates(prepared(data, records), possible_cpus, replies),
        references_resolve(
            prepared(data, records),
            slots_of(
                create_maps(
                    prepared(data, records).maps,
                    possible_cpus,
                    replies,
                    prepared(data, records).maps.len() as int,
                )->Ok_0,
            ),
        ),
    ensures
        spec_load(data, records, possible_cpus, replies) is Ok,
        spec_load(data, records, possible_cpus, replies)->Ok_0.maps.len() == prepared(
            data,
            records,
        ).maps.len(),
        spec_load(data, records, possible_cpus, replies)->Ok_0.programs.len() == prepared(
            data,
            records,
        ).programs.len(),
{
    let obj = prepared(data, records);
    lemma_prepared_names_distinct(data, records);
    lemma_create_maps_ok(obj.maps, possible_cpus, replies, obj.maps.len() as int);
    lemma_create_maps_len(obj.maps, possible_cpus, replies, obj.maps.len() as int);
    let created = create_maps(obj.maps, possible_cpus, replies, obj.maps.len() as int)->Ok_0;
    law_resolvable_references_are_relocated(obj, slots_of(created));
}

} // verus!
