//! Loading an object step by step: the loader says what the kernel has to
//! be asked next, takes the answer, and in the end assembles the loaded
//! object from the answers that it was given.

use vstd::prelude::*;
use crate::bpf::{
    create_map, create_maps, lemma_create_maps_err, lemma_prepared_names_distinct, records_of,
    relocate_btf_if, spec_assemble, Bpf, BpfError, Host, MapReply,
};
use crate::maps::{needs_seed, realized_def, sized_by_host, spec_needs_seed, spec_sized_by_host};
use crate::obj::btf::Btf;
use crate::obj::{names_distinct, spec_parse, MapDef, Object, ObjectModel};
use crate::sys::SysError;

verus! {

/// The key under which a map's initial data is stored.
pub const SEED_KEY: u32 = 0;

/// The flags of the update that seeds a map: the value is created or
/// replaced.
pub const SEED_FLAGS: u64 = 0;

/// What the kernel, or the host, has to be asked next.
#[derive(Clone, Copy, Debug, PartialEq, Eq, Structural)]
pub enum Request {
    /// The number of processors that the host may ever have.
    PossibleCpus,
    /// The creation of the map `index` with the definition `def`.
    CreateMap { index: usize, def: MapDef },
    /// The update that seeds the map `index`, whose handle is `fd`: the
    /// map's initial data is stored under `key` with `flags`.
    SeedMap { index: usize, fd: i32, key: u32, flags: u64 },
    /// Nothing: the object can be assembled.
    Done,
}

/// A load that is under way.
#[derive(Debug)]
pub struct Loader {
    obj: Object,
    possible_cpus: Option<u32>,
    /// The answers for the maps that are done with, in the object's order.
    replies: Vec<MapReply>,
    /// The handle of the map that is created and waits to be seeded.
    pending: Option<i32>,
    /// Whether the kernel has refused a call.
    failed: bool,
}

/// The state of a load that is under way, as a value of specifications.
pub struct LoaderModel {
    pub obj: ObjectModel,
    pub possible_cpus: Option<u32>,
    pub replies: Seq<MapReply>,
    pub pending: Option<i32>,
    pub failed: bool,
}

/// The number of processors that the maps are sized by: the host's answer,
/// or zero while the host was not asked.
pub open spec fn cpus_of(possible_cpus: Option<u32>) -> u32 {
    match possible_cpus {
        Some(n) => n,
        None => 0,
    }
}

impl LoaderModel {
    /// What has to be asked next.
    ///
    /// The maps are taken in the object's order; the next map is the one
    /// behind those that are done with. Once the kernel has refused a call,
    /// and once every map is done with, nothing is left to ask. A map that
    /// is created and has initial data is seeded. The host is asked for its
    /// processors before the first map that it sizes; where it answers that
    /// it has none, that map cannot be created, and nothing is left to ask.
    /// Every other map is created with its realized definition.
    pub open spec fn request(self) -> Request {
        let i = self.replies.len() as int;
        if self.failed || i >= self.obj.maps.len() {
            Request::Done
        } else if self.possible_cpus == Some(0u32) && spec_sized_by_host(self.obj.maps[i].def) {
            Request::Done
        } else if self.pending is Some {
            Request::SeedMap {
                index: i as usize,
                fd: self.pending->Some_0,
                key: SEED_KEY,
                flags: SEED_FLAGS,
            }
        } else if self.possible_cpus is None && spec_sized_by_host(self.obj.maps[i].def) {
            Request::PossibleCpus
        } else {
            Request::CreateMap {
                index: i as usize,
                def: realized_def(self.obj.maps[i].def, cpus_of(self.possible_cpus)),
            }
        }
    }

    /// The state after the host's answer to the question for its
    /// processors. An answer that was not asked for changes nothing.
    pub open spec fn with_cpus(self, n: u32) -> LoaderModel {
        if self.request() is PossibleCpus {
            LoaderModel { possible_cpus: Some(n), ..self }
        } else {
            self
        }
    }

    /// The state after the kernel's answer to the creation of a map. A
    /// refusal fails the load. A map that has initial data waits to be
    /// seeded; any other map is done with. An answer that was not asked for
    /// changes nothing.
    pub open spec fn with_created(self, reply: Result<i32, SysError>) -> LoaderModel {
        let i = self.replies.len() as int;
        if !(self.request() is CreateMap) {
            self
        } else if reply is Err {
            LoaderModel {
                replies: self.replies.push(MapReply { created: reply, seeded: Ok(()) }),
                failed: true,
                ..self
            }
        } else if spec_needs_seed(self.obj.maps[i]) {
            LoaderModel { pending: Some(reply->Ok_0), ..self }
        } else {
            LoaderModel {
                replies: self.replies.push(MapReply { created: reply, seeded: Ok(()) }),
                ..self
            }
        }
    }

    /// The state after the kernel's answer to the update that seeds a map:
    /// the map is done with, and a refusal fails the load. An answer that
    /// was not asked for changes nothing.
    pub open spec fn with_seeded(self, reply: Result<(), SysError>) -> LoaderModel {
        if self.request() is SeedMap {
            LoaderModel {
                replies: self.replies.push(
                    MapReply { created: Ok(self.pending->Some_0), seeded: reply },
                ),
                pending: None,
                failed: reply is Err,
                ..self
            }
        } else {
            self
        }
    }

    /// Whether the answer for map `k` is one with which the map is
    /// created.
    pub open spec fn answered(self, k: int) -> bool {
        create_map(self.obj.maps[k], cpus_of(self.possible_cpus), Some(self.replies[k])) is Ok
    }

    /// No two maps and no two programs of the object have one name. There
    /// are no more answers than maps. A map waits to be seeded only
    /// while the load has not failed, and only if it has initial data. A
    /// map that the host sizes is asked for only after the host was. Every
    /// answer but the last of a failed load is one with which its map is
    /// created.
    pub open spec fn wf(self) -> bool {
        &&& names_distinct(self.obj)
        &&& self.replies.len() <= self.obj.maps.len()
        &&& self.pending is Some ==> !self.failed && self.replies.len() < self.obj.maps.len()
            && spec_needs_seed(self.obj.maps[self.replies.len() as int])
        &&& self.failed ==> self.replies.len() > 0
        &&& forall|k: int|
            0 <= k < self.replies.len() && (self.failed ==> k < self.replies.len() - 1)
                ==> #[trigger] self.answered(k)
        &&& self.possible_cpus is None ==> forall|k: int|
            0 <= k < self.replies.len() ==> !spec_sized_by_host((#[trigger] self.obj.maps[k]).def)
        &&& self.possible_cpus is None && self.pending is Some ==> !spec_sized_by_host(
            self.obj.maps[self.replies.len() as int].def,
        )
        &&& self.possible_cpus == Some(0u32) ==> !self.failed && self.pending is None
            && self.replies.len() < self.obj.maps.len() && spec_sized_by_host(
            self.obj.maps[self.replies.len() as int].def,
        ) && forall|k: int|
            0 <= k < self.replies.len() ==> !spec_sized_by_host((#[trigger] self.obj.maps[k]).def)
    }
}

impl View for Loader {
    type V = LoaderModel;

    closed spec fn view(&self) -> LoaderModel {
        LoaderModel {
            obj: self.obj@,
            possible_cpus: self.possible_cpus,
            replies: self.replies@,
            pending: self.pending,
            failed: self.failed,
        }
    }
}

impl Loader {
    /// Starts a load: parses the object code contained in `data` and, if
    /// `target_btf` is not `None`, applies the field offsets that it gives.
    ///
    /// The load starts without answers. A malformed object and an
    /// unresolved field fail it at once.
    pub fn new(data: &[u8], target_btf: Option<Btf>) -> (r: Result<Loader, BpfError>)
        ensures
            match spec_parse(data@) {
                Err(e) => r is Err && r->Err_0 == BpfError::ParseError(e),
                Ok(parsed) => match relocate_btf_if(parsed, records_of(target_btf)) {
                    Err(e) => r is Err && r->Err_0 == BpfError::RelocationError(e),
                    Ok(obj) => r is Ok && r->Ok_0@.wf() && r->Ok_0@ == (LoaderModel {
                        obj,
                        possible_cpus: None,
                        replies: Seq::empty(),
                        pending: None,
                        failed: false,
                    }),
                },
            },
    {
        let parsed: Object = match Object::parse(data) {
            Ok(obj) => obj,
            Err(e) => {
                return Err(BpfError::ParseError(e));
            },
        };
        let obj: Object = match target_btf {
            None => parsed,
            Some(btf) => match parsed.relocate_btf(&btf) {
                Ok(obj) => obj,
                Err(e) => {
                    return Err(BpfError::RelocationError(e));
                },
            },
        };
        proof {
            lemma_prepared_names_distinct(data@, records_of(target_btf));
        }
        Ok(Loader { obj, possible_cpus: None, replies: Vec::new(), pending: None, failed: false })
    }

    /// What has to be asked next.
    pub fn request(&self) -> (r: Request)
        requires
            self@.wf(),
        ensures
            r == self@.request(),
    {
        let i: usize = self.replies.len();
        if self.failed || i >= self.obj.maps.len() {
            return Request::Done;
        }
        assert(self@.obj.maps[i as int] == self.obj.maps@[i as int]@);
        if sized_by_host(&self.obj.maps[i].def) {
            match self.possible_cpus {
                Some(n) => if n == 0 {
                    return Request::Done;
                },
                None => {},
            }
        }
        match self.pending {
            Some(fd) => Request::SeedMap { index: i, fd, key: SEED_KEY, flags: SEED_FLAGS },
            None => {
                let def: MapDef = self.obj.maps[i].def;
                match self.possible_cpus {
                    None => if sized_by_host(&def) {
                        Request::PossibleCpus
                    } else {
                        Request::CreateMap { index: i, def }
                    },
                    Some(n) => if sized_by_host(&def) {
                        Request::CreateMap { index: i, def: MapDef { max_entries: n, ..def } }
                    } else {
                        Request::CreateMap { index: i, def }
                    },
                }
            },
        }
    }

    /// The initial data of the map that is asked to be seeded; nothing
    /// where no map is.
    pub fn seed_data(&self) -> (r: &[u8])
        requires
            self@.wf(),
        ensures
            self@.request() is SeedMap ==> r@ == self@.obj.maps[self@.replies.len() as int].data,
            !(self@.request() is SeedMap) ==> r@.len() == 0,
    {
        let i: usize = self.replies.len();
        if self.failed || i >= self.obj.maps.len() || self.pending.is_none() {
            let nothing: &[u8] = &[];
            return nothing;
        }
        assert(self@.obj.maps[i as int] == self.obj.maps@[i as int]@);
        self.obj.maps[i].data.as_slice()
    }

    /// Takes the host's answer to the question for its processors.
    pub fn possible_cpus(&mut self, n: u32)
        requires
            old(self)@.wf(),
        ensures
            final(self)@.wf(),
            final(self)@ == old(self)@.with_cpus(n),
    {
        match self.request() {
            Request::PossibleCpus => {
                self.possible_cpus = Some(n);
                proof {
                    let before = old(self)@;
                    let after = self@;
                    assert forall|k: int|
                        0 <= k < after.replies.len() && (after.failed ==> k < after.replies.len()
                            - 1) implies #[trigger] after.answered(k) by {
                        assert(before.answered(k));
                        assert(!spec_sized_by_host(before.obj.maps[k].def));
                    }
                }
            },
            _ => {},
        }
    }

    /// Takes the kernel's answer to the creation of a map.
    pub fn created(&mut self, reply: Result<i32, SysError>)
        requires
            old(self)@.wf(),
        ensures
            final(self)@.wf(),
            final(self)@ == old(self)@.with_created(reply),
    {
        let i: usize = self.replies.len();
        match self.request() {
            Request::CreateMap { .. } => {
                assert(self@.obj.maps[i as int] == self.obj.maps@[i as int]@);
                let seeds: bool = needs_seed(&self.obj.maps[i]);
                match reply {
                    Err(_) => {
                        self.replies.push(MapReply { created: reply, seeded: Ok(()) });
                        self.failed = true;
                    },
                    Ok(fd) => {
                        if seeds {
                            self.pending = Some(fd);
                        } else {
                            self.replies.push(MapReply { created: reply, seeded: Ok(()) });
                        }
                    },
                }
                proof {
                    let before = old(self)@;
                    let after = self@;
                    assert forall|k: int|
                        0 <= k < after.replies.len() && (after.failed ==> k < after.replies.len()
                            - 1) implies #[trigger] after.answered(k) by {
                        if k < before.replies.len() {
                            assert(before.answered(k));
                        }
                    }
                }
            },
            _ => {},
        }
    }

    /// Takes the kernel's answer to the update that seeds a map.
    pub fn seeded(&mut self, reply: Result<(), SysError>)
        requires
            old(self)@.wf(),
        ensures
            final(self)@.wf(),
            final(self)@ == old(self)@.with_seeded(reply),
    {
        match self.request() {
            Request::SeedMap { fd, .. } => {
                self.replies.push(MapReply { created: Ok(fd), seeded: reply });
                self.pending = None;
                self.failed = reply.is_err();
                proof {
                    let before = old(self)@;
                    let after = self@;
                    assert forall|k: int|
                        0 <= k < after.replies.len() && (after.failed ==> k < after.replies.len()
                            - 1) implies #[trigger] after.answered(k) by {
                        if k < before.replies.len() {
                            assert(before.answered(k));
                        }
                    }
                }
            },
            _ => {},
        }
    }

    /// Assembles the loaded object from the answers that were given.
    ///
    /// The result is the one that `spec_assemble` describes for the
    /// object, the host's processors and the answers. On failure nothing of
    /// the object is returned.
    pub fn finish(self) -> (r: Result<Bpf, BpfError>)
        requires
            self@.wf(),
        ensures
            match spec_assemble(self@.obj, cpus_of(self@.possible_cpus), self@.replies) {
                Err(e) => r == Err::<Bpf, BpfError>(e),
                Ok(m) => r is Ok && r->Ok_0.wf() && r->Ok_0.is_load_of(m),
            },
    {
        let possible_cpus: u32 = match self.possible_cpus {
            Some(n) => n,
            None => 0,
        };
        let host = Host { possible_cpus, maps: self.replies };
        Bpf::assemble(self.obj, &host)
    }
}

/// The first `n` maps of a load are created where each has an answer with
/// which it is created.
pub proof fn lemma_answered_maps_are_created(m: LoaderModel, n: int)
    requires
        0 <= n <= m.replies.len() <= m.obj.maps.len(),
        forall|k: int| 0 <= k < n ==> #[trigger] m.answered(k),
    ensures
        create_maps(m.obj.maps, cpus_of(m.possible_cpus), m.replies, n) is Ok,
    decreases n,
{
    if n > 0 {
        lemma_answered_maps_are_created(m, n - 1);
        assert(m.answered(n - 1));
    }
}

/// A load that has nothing left to ask, has not failed, and whose host has
/// processors, has an answer for every map, with which the map is created:
/// the load does not fail for want of a map.
pub proof fn law_done_load_has_its_maps(m: LoaderModel)
    requires
        m.wf(),
        m.request() is Done,
        !m.failed,
        m.possible_cpus != Some(0u32),
    ensures
        m.replies.len() == m.obj.maps.len(),
        create_maps(
            m.obj.maps,
            cpus_of(m.possible_cpus),
            m.replies,
            m.obj.maps.len() as int,
        ) is Ok,
        !(spec_assemble(m.obj, cpus_of(m.possible_cpus), m.replies) matches Err(
            BpfError::MapError(_),
        )),
{
    lemma_answered_maps_are_created(m, m.replies.len() as int);
}

/// A load that a refusal has failed is assembled into that refusal: the
/// map that was refused fails the load, whatever is left in the object.
pub proof fn law_refused_load_fails(m: LoaderModel)
    requires
        m.wf(),
        m.failed,
        !m.answered(m.replies.len() - 1),
    ensures
        spec_assemble(m.obj, cpus_of(m.possible_cpus), m.replies) matches Err(
            BpfError::MapError(_),
        ),
{
    let n = m.replies.len() as int;
    lemma_answered_maps_are_created(m, n - 1);
    lemma_create_maps_err(
        m.obj.maps,
        cpus_of(m.possible_cpus),
        m.replies,
        n,
        m.obj.maps.len() as int,
    );
}

/// A load whose host answered that it has no processor fails for the map
/// that the host was to size.
pub proof fn law_host_without_processors_fails(m: LoaderModel)
    requires
        m.wf(),
        m.possible_cpus == Some(0u32),
    ensures
        spec_assemble(m.obj, 0, m.replies) == Err::<crate::bpf::BpfModel, BpfError>(
            BpfError::MapError(crate::maps::MapError::NoProcessors),
        ),
{
    let n = m.replies.len() as int;
    lemma_answered_maps_are_created(m, n);
    lemma_create_maps_err(m.obj.maps, 0, m.replies, n + 1, m.obj.maps.len() as int);
}

} // verus!
