//! The debug types of the target, as far as loading needs them.
//!
//! The debug-type format itself is not interpreted here. What is used of it
//! is a table from a type's name and kind to its id, and the field offsets
//! that the target's types give to the accesses which the object records.

use vstd::prelude::*;
use crate::bytes::bytes_eq;
use crate::obj::insn::{Instruction, INS_SIZE};
use crate::obj::{ObjProgram, Object, ObjectModel, ProgramModel};
use crate::obj::relocation::{RelocationCause, RelocationError};
use crate::search::{first_where, lemma_first_where};

verus! {

/// The kinds of debug type.
#[derive(Clone, Copy, Debug, PartialEq, Eq, Structural)]
pub enum BtfKind {
    Unknown,
    Int,
    Ptr,
    Array,
    Struct,
    Union,
    Enum,
    Fwd,
    Typedef,
    Volatile,
    Const,
    Restrict,
    Func,
    FuncProto,
    Var,
    DataSec,
}

/// A debug type of the target: its name, kind and id.
#[derive(Debug)]
pub struct BtfType {
    pub name: Vec<u8>,
    pub kind: BtfKind,
    pub id: u32,
}

/// An access to a field that the object records, and the offset that the
/// target's types give to that field; `None` where the target has no type
/// that is compatible with the one accessed.
#[derive(Clone, Copy, Debug)]
pub struct FieldRelocation {
    /// The section that holds the instruction.
    pub section_index: usize,
    /// The byte offset of the instruction in that section.
    pub ins_offset: u64,
    pub target_offset: Option<u32>,
}

/// The debug types of the target.
#[derive(Debug)]
pub struct Btf {
    pub types: Vec<BtfType>,
    pub relocations: Vec<FieldRelocation>,
}

/// Why a debug type could not be had.
#[derive(Clone, Copy, Debug, PartialEq, Eq, Structural)]
pub enum BtfError {
    /// The target has no type of that name and kind.
    UnknownBtfTypeName,
}

/// Holds of the types that have the name `name` and the kind `kind`.
pub open spec fn is_named(name: Seq<u8>, kind: BtfKind) -> spec_fn(BtfType) -> bool {
    |t: BtfType| t.name@ == name && t.kind == kind
}

/// The id of the first type of that name and kind.
pub open spec fn spec_id_by_type_name_kind(types: Seq<BtfType>, name: Seq<u8>, kind: BtfKind) -> Result<
    u32,
    BtfError,
> {
    let i = first_where(types, is_named(name, kind));
    if i < types.len() {
        Ok(types[i].id)
    } else {
        Err(BtfError::UnknownBtfTypeName)
    }
}

impl Btf {
    /// The id of the first type of that name and kind;
    /// `UnknownBtfTypeName` where there is none.
    pub fn id_by_type_name_kind(&self, name: &[u8], kind: BtfKind) -> (r: Result<u32, BtfError>)
        ensures
            r == spec_id_by_type_name_kind(self.types@, name@, kind),
    {
        let mut i: usize = 0;
        while i < self.types.len() && !(self.types[i].kind == kind && bytes_eq(
            self.types[i].name.as_slice(),
            name,
        ))
            invariant
                i <= self.types@.len(),
                forall|j: int| 0 <= j < i ==> !is_named(name@, kind)(#[trigger] self.types@[j]),
            decreases self.types@.len() - i,
        {
            i = i + 1;
        }
        proof {
            lemma_first_where(self.types@, is_named(name@, kind), i as int);
        }
        if i < self.types.len() {
            Ok(self.types[i].id)
        } else {
            Err(BtfError::UnknownBtfTypeName)
        }
    }
}

/// The instructions after the immediate of the one that `fr` names has been
/// overwritten with the field's offset in the target. `k` is the record's
/// index, which the error carries in place of a symbol.
pub open spec fn patch_field(insns: Seq<Instruction>, fr: FieldRelocation, k: int) -> Result<
    Seq<Instruction>,
    RelocationError,
> {
    let idx = fr.ins_offset as int / INS_SIZE as int;
    let fail = |cause: RelocationCause|
        Err::<Seq<Instruction>, RelocationError>(
            RelocationError { section_index: fr.section_index, symbol: k as usize, cause },
        );
    match fr.target_offset {
        None => fail(RelocationCause::NoCompatibleType),
        Some(off) => if idx >= insns.len() || off > i32::MAX {
            fail(RelocationCause::InvalidOffset)
        } else {
            Ok(insns.update(idx, Instruction { imm: off as i32, ..insns[idx] }))
        },
    }
}

/// Holds of the programs that lie in section `section`.
pub open spec fn in_program_section(section: usize) -> spec_fn(ProgramModel) -> bool {
    |p: ProgramModel| p.section_index == section
}

/// `obj` after record `k` has been applied: to the first program of the
/// record's section, or to the subroutines where the record names their
/// section.
pub open spec fn relocate_field(obj: ObjectModel, fr: FieldRelocation, k: int) -> Result<
    ObjectModel,
    RelocationError,
> {
    let j = first_where(obj.programs, in_program_section(fr.section_index));
    if j < obj.programs.len() {
        match patch_field(obj.programs[j].instructions, fr, k) {
            Err(e) => Err(e),
            Ok(instructions) => Ok(
                ObjectModel {
                    programs: obj.programs.update(
                        j,
                        ProgramModel { instructions, ..obj.programs[j] },
                    ),
                    ..obj
                },
            ),
        }
    } else if obj.text_section == Some(fr.section_index) {
        match patch_field(obj.text, fr, k) {
            Err(e) => Err(e),
            Ok(text) => Ok(ObjectModel { text, ..obj }),
        }
    } else {
        Err(
            RelocationError {
                section_index: fr.section_index,
                symbol: k as usize,
                cause: RelocationCause::SectionNotFound,
            },
        )
    }
}

/// `obj` after the first `n` records have been applied, in order. The first
/// record that fails fails them all.
pub open spec fn relocate_fields_upto(obj: ObjectModel, records: Seq<FieldRelocation>, n: int) -> Result<
    ObjectModel,
    RelocationError,
>
    decreases n,
{
    if n <= 0 {
        Ok(obj)
    } else {
        match relocate_fields_upto(obj, records, n - 1) {
            Err(e) => Err(e),
            Ok(cur) => relocate_field(cur, records[n - 1], n - 1),
        }
    }
}

/// `obj` with every recorded field access adjusted to the target.
pub open spec fn spec_relocate_btf(obj: ObjectModel, records: Seq<FieldRelocation>) -> Result<
    ObjectModel,
    RelocationError,
> {
    relocate_fields_upto(obj, records, records.len() as int)
}

/// Once a record has failed, further records do not change the error.
pub proof fn lemma_relocate_fields_err(
    obj: ObjectModel,
    records: Seq<FieldRelocation>,
    k: int,
    n: int,
)
    requires
        0 <= k <= n,
        relocate_fields_upto(obj, records, k) is Err,
    ensures
        relocate_fields_upto(obj, records, n) == relocate_fields_upto(obj, records, k),
    decreases n - k,
{
    if k < n {
        lemma_relocate_fields_err(obj, records, k, n - 1);
    }
}

/// Overwrites the immediate of the instruction that `fr` names.
pub fn patch_field_in(instructions: &mut Vec<Instruction>, fr: &FieldRelocation, k: usize) -> (r:
    Result<(), RelocationError>)
    ensures
        match patch_field(old(instructions)@, *fr, k as int) {
            Ok(s) => r is Ok && final(instructions)@ == s,
            Err(e) => r == Err::<(), RelocationError>(e),
        },
{
    let at: u64 = fr.ins_offset / 8;
    match fr.target_offset {
        None => Err(
            RelocationError {
                section_index: fr.section_index,
                symbol: k,
                cause: RelocationCause::NoCompatibleType,
            },
        ),
        Some(off) => {
            if at >= instructions.len() as u64 || off > 0x7fff_ffff {
                Err(
                    RelocationError {
                        section_index: fr.section_index,
                        symbol: k,
                        cause: RelocationCause::InvalidOffset,
                    },
                )
            } else {
                let idx: usize = at as usize;
                let ins: Instruction = instructions[idx];
                instructions[idx] = Instruction { imm: off as i32, ..ins };
                Ok(())
            }
        },
    }
}

/// The views of the programs.
pub open spec fn programs_view(programs: Seq<ObjProgram>) -> Seq<ProgramModel> {
    programs.map_values(|p: ObjProgram| p@)
}

/// Finds the first program that lies in `section`.
pub fn find_program_in(programs: &Vec<ObjProgram>, section: usize) -> (r: usize)
    ensures
        r == first_where(programs_view(programs@), in_program_section(section)),
        r <= programs@.len(),
{
    let mut i: usize = 0;
    while i < programs.len() && programs[i].section_index != section
        invariant
            i <= programs@.len(),
            forall|j: int|
                0 <= j < i ==> !in_program_section(section)(#[trigger] programs_view(programs@)[j]),
        decreases programs@.len() - i,
    {
        i = i + 1;
    }
    proof {
        lemma_first_where(programs_view(programs@), in_program_section(section), i as int);
    }
    i
}

impl Object {
    /// Adjusts every recorded field access to the target's debug types.
    ///
    /// Either every record is applied, or the object is given up and the
    /// first record that fails is returned.
    #[verifier::rlimit(40)]
    pub fn relocate_btf(self, btf: &Btf) -> (r: Result<Object, RelocationError>)
        ensures
            match spec_relocate_btf(self@, btf.relocations@) {
                Ok(m) => r is Ok && r->Ok_0@ == m,
                Err(e) => r == Err::<Object, RelocationError>(e),
            },
    {
        let mut obj: Object = self;
        let ghost orig = obj@;
        let mut k: usize = 0;
        while k < btf.relocations.len()
            invariant
                orig == self@,
                k <= btf.relocations@.len(),
                relocate_fields_upto(orig, btf.relocations@, k as int) == Ok::<
                    ObjectModel,
                    RelocationError,
                >(obj@),
            decreases btf.relocations@.len() - k,
        {
            let ghost before = obj@;
            let fr: FieldRelocation = btf.relocations[k];
            let j: usize = find_program_in(&obj.programs, fr.section_index);
            let in_text: bool = match obj.text_section {
                Some(t) => t == fr.section_index,
                None => false,
            };
            let step: Result<(), RelocationError> = if j < obj.programs.len() {
                let step = patch_field_in(&mut obj.programs[j].instructions, &fr, k);
                proof {
                    if step is Ok {
                        assert(obj@.programs =~= before.programs.update(
                            j as int,
                            ProgramModel {
                                instructions: patch_field(
                                    before.programs[j as int].instructions,
                                    fr,
                                    k as int,
                                )->Ok_0,
                                ..before.programs[j as int]
                            },
                        ));
                    }
                }
                step
            } else if in_text {
                patch_field_in(&mut obj.text, &fr, k)
            } else {
                Err(
                    RelocationError {
                        section_index: fr.section_index,
                        symbol: k,
                        cause: RelocationCause::SectionNotFound,
                    },
                )
            };
            match step {
                Ok(()) => {},
                Err(e) => {
                    proof {
                        lemma_relocate_fields_err(
                            orig,
                            btf.relocations@,
                            k + 1,
                            btf.relocations@.len() as int,
                        );
                    }
                    return Err(e);
                },
            }
            k = k + 1;
        }
        Ok(obj)
    }
}

/// Applying field offsets changes immediates only: the maps, the symbols,
/// the relocation tables and the number of programs stay as they are.
pub proof fn lemma_relocate_fields_keeps(obj: ObjectModel, records: Seq<FieldRelocation>, n: int)
    requires
        0 <= n <= records.len(),
        relocate_fields_upto(obj, records, n) is Ok,
    ensures
        ({
            let out = relocate_fields_upto(obj, records, n)->Ok_0;
            &&& out.maps == obj.maps
            &&& out.symbols == obj.symbols
            &&& out.relocations == obj.relocations
            &&& out.text_section == obj.text_section
            &&& out.license == obj.license
            &&& out.programs.len() == obj.programs.len()
            &&& out.text.len() == obj.text.len()
            &&& forall|j: int|
                0 <= j < obj.programs.len() ==> (#[trigger] out.programs[j]).section_index
                    == obj.programs[j].section_index && out.programs[j].name
                    == obj.programs[j].name && out.programs[j].kind == obj.programs[j].kind
                    && out.programs[j].instructions.len() == obj.programs[j].instructions.len()
        }),
    decreases n,
{
    if n > 0 {
        lemma_relocate_fields_keeps(obj, records, n - 1);
    }
}

} // verus!
