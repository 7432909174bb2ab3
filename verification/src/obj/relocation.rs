//! Patching of map references and call targets into instruction streams.
//!
//! A relocation names an instruction by its byte offset and a symbol. Where
//! the instruction is a call, or the symbol lies in the section of
//! subroutines, the relocation is a call relocation; every other relocation
//! is a map relocation.
//!
//! The relocations of one section are applied in the order of the table,
//! whatever that order is. An instruction has one immediate: where two
//! relocations name one instruction, the later one is applied to what the
//! earlier one left. So a map's handle is stated of an instruction that no
//! later relocation names, and a call's target of an instruction that its
//! relocation names alone.

use vstd::prelude::*;
use crate::obj::insn::{
    Instruction, BPF_LD_IMM64, BPF_PSEUDO_MAP_FD, BPF_PSEUDO_MAP_VALUE, INS_SIZE,
};
use crate::obj::{
    program_names, Object, ObjectModel, ProgramModel, Relocation, RelocationsModel,
    SectionRelocations, Symbol,
};
use crate::search::{first_where, is_first_where, lemma_first_where, lemma_first_where_is_first};

verus! {

/// Why a relocation could not be applied.
#[derive(Clone, Copy, Debug, PartialEq, Eq, Structural)]
pub enum RelocationCause {
    /// The relocation names an instruction outside the stream, or the
    /// patched operand would not fit in 32 bits.
    InvalidOffset,
    /// The relocation names a symbol outside the symbol table.
    UnknownSymbol,
    /// The symbol lies in a section that holds no map.
    SectionNotFound,
    /// The map that the symbol stands for has no kernel handle.
    MapNotCreated,
    /// The instruction is no 64-bit immediate load followed by its second
    /// half, or no call.
    InvalidInstruction,
    /// The call's target lies outside the section of subroutines.
    UnknownFunction,
    /// The debug types of the target hold no type that is compatible with
    /// the one that the instruction accesses.
    NoCompatibleType,
}

/// An unresolved reference. It is fatal to the whole load.
#[derive(Clone, Copy, Debug, PartialEq, Eq, Structural)]
pub struct RelocationError {
    /// The section whose code was being patched.
    pub section_index: usize,
    /// The symbol that the relocation names.
    pub symbol: usize,
    pub cause: RelocationCause,
}

/// What relocation needs to know of a map: the section that defines it, its
/// kernel handle once it is created, and whether it stands for a section of
/// global variables.
#[derive(Clone, Copy, Debug)]
pub struct MapSlot {
    pub section_index: usize,
    pub fd: Option<i32>,
    pub globals: bool,
}

/// What a pass over a relocation table needs to know of the object.
pub struct Context {
    /// The section whose code is being patched.
    pub section_index: usize,
    pub symbols: Seq<Symbol>,
    /// The section of subroutines.
    pub text_section: Option<usize>,
}

/// The index of the instruction that `r` names.
pub open spec fn ins_index(r: Relocation) -> int {
    r.offset as int / INS_SIZE as int
}

/// Whether relocation `k` is the only relocation of the table that names
/// its instruction.
pub open spec fn names_alone(relocs: Seq<Relocation>, k: int) -> bool {
    forall|j: int|
        0 <= j < relocs.len() && j != k ==> ins_index(#[trigger] relocs[j]) != ins_index(relocs[k])
}

/// Whether no later relocation of the table names the instruction of
/// relocation `k`.
pub open spec fn names_last(relocs: Seq<Relocation>, k: int) -> bool {
    forall|j: int|
        k < j < relocs.len() ==> ins_index(#[trigger] relocs[j]) != ins_index(relocs[k])
}

/// Whether none of the first `n` relocations names instruction `i`.
pub open spec fn unnamed(relocs: Seq<Relocation>, n: int, i: int) -> bool {
    forall|j: int| 0 <= j < n ==> ins_index(#[trigger] relocs[j]) != i
}

/// Whether a relocation of `ins` against `sym` is a call relocation.
pub open spec fn is_call_relocation(
    ins: Instruction,
    sym: Symbol,
    text_section: Option<usize>,
) -> bool {
    ins.is_call() || text_section == Some(sym.section_index)
}

/// Whether relocation `k` can be looked at: it names an instruction of the
/// stream and a symbol of the table.
pub open spec fn check_relocation(
    insns: Seq<Instruction>,
    relocs: Seq<Relocation>,
    k: int,
    ctx: Context,
) -> Result<(), RelocationError> {
    let r = relocs[k];
    if ins_index(r) >= insns.len() {
        Err(
            RelocationError {
                section_index: ctx.section_index,
                symbol: r.symbol_index,
                cause: RelocationCause::InvalidOffset,
            },
        )
    } else if r.symbol_index >= ctx.symbols.len() {
        Err(
            RelocationError {
                section_index: ctx.section_index,
                symbol: r.symbol_index,
                cause: RelocationCause::UnknownSymbol,
            },
        )
    } else {
        Ok(())
    }
}

/// Holds of the maps that lie in section `section`.
pub open spec fn in_section(section: usize) -> spec_fn(MapSlot) -> bool {
    |m: MapSlot| m.section_index == section
}

/// The index of the first map that lies in `section`, or the number of maps.
pub open spec fn spec_find_map(maps: Seq<MapSlot>, section: usize) -> int {
    first_where(maps, in_section(section))
}

/// The instructions after map relocation `k` has been applied to `insns`.
///
/// The instruction must be the first half of a 64-bit immediate load, and
/// its second half must follow. The first half's immediate becomes the
/// map's handle. For a map of global variables the second half's immediate
/// becomes the offset of the variable in the map's value: the symbol's
/// address plus what the first half held.
pub open spec fn relocate_map(
    insns: Seq<Instruction>,
    relocs: Seq<Relocation>,
    k: int,
    ctx: Context,
    maps: Seq<MapSlot>,
) -> Result<Seq<Instruction>, RelocationError> {
    let r = relocs[k];
    let idx = ins_index(r);
    let fail = |cause: RelocationCause|
        Err::<Seq<Instruction>, RelocationError>(
            RelocationError { section_index: ctx.section_index, symbol: r.symbol_index, cause },
        );
    match check_relocation(insns, relocs, k, ctx) {
        Err(e) => Err(e),
        Ok(()) => {
            let sym = ctx.symbols[r.symbol_index as int];
            let m = spec_find_map(maps, sym.section_index);
            if is_call_relocation(insns[idx], sym, ctx.text_section) {
                Ok(insns)
            } else if m >= maps.len() {
                fail(RelocationCause::SectionNotFound)
            } else if maps[m].fd is None {
                fail(RelocationCause::MapNotCreated)
            } else if insns[idx].code != BPF_LD_IMM64 || idx + 1 >= insns.len() || insns[idx
                + 1].code != 0 {
                fail(RelocationCause::InvalidInstruction)
            } else if !maps[m].globals {
                Ok(
                    insns.update(
                        idx,
                        Instruction {
                            src_reg: BPF_PSEUDO_MAP_FD,
                            imm: maps[m].fd->Some_0,
                            ..insns[idx]
                        },
                    ),
                )
            } else if insns[idx].imm + sym.address > i32::MAX || insns[idx].imm + sym.address
                < i32::MIN {
                fail(RelocationCause::InvalidOffset)
            } else {
                Ok(
                    insns.update(
                        idx,
                        Instruction {
                            src_reg: BPF_PSEUDO_MAP_VALUE,
                            imm: maps[m].fd->Some_0,
                            ..insns[idx]
                        },
                    ).update(
                        idx + 1,
                        Instruction {
                            imm: (insns[idx].imm + sym.address) as i32,
                            ..insns[idx + 1]
                        },
                    ),
                )
            }
        },
    }
}

/// The instructions after the first `n` relocations have been applied as map
/// relocations, in order. The first one that fails fails the pass.
pub open spec fn relocate_maps_upto(
    insns: Seq<Instruction>,
    relocs: Seq<Relocation>,
    n: int,
    ctx: Context,
    maps: Seq<MapSlot>,
) -> Result<Seq<Instruction>, RelocationError>
    decreases n,
{
    if n <= 0 {
        Ok(insns)
    } else {
        match relocate_maps_upto(insns, relocs, n - 1, ctx, maps) {
            Err(e) => Err(e),
            Ok(cur) => relocate_map(cur, relocs, n - 1, ctx, maps),
        }
    }
}

/// Once a map relocation has failed, further relocations do not change the
/// error.
pub proof fn lemma_relocate_maps_err(
    insns: Seq<Instruction>,
    relocs: Seq<Relocation>,
    k: int,
    n: int,
    ctx: Context,
    maps: Seq<MapSlot>,
)
    requires
        0 <= k <= n,
        relocate_maps_upto(insns, relocs, k, ctx, maps) is Err,
    ensures
        relocate_maps_upto(insns, relocs, n, ctx, maps) == relocate_maps_upto(
            insns,
            relocs,
            k,
            ctx,
            maps,
        ),
    decreases n - k,
{
    if k < n {
        lemma_relocate_maps_err(insns, relocs, k, n - 1, ctx, maps);
    }
}

/// Finds the first map that lies in `section`.
pub fn find_map(maps: &Vec<MapSlot>, section: usize) -> (r: usize)
    ensures
        r == spec_find_map(maps@, section),
        is_first_where(maps@, in_section(section), r as int),
{
    let mut i: usize = 0;
    while i < maps.len() && maps[i].section_index != section
        invariant
            i <= maps@.len(),
            forall|j: int| 0 <= j < i ==> !in_section(section)(#[trigger] maps@[j]),
        decreases maps@.len() - i,
    {
        i = i + 1;
    }
    proof {
        lemma_first_where(maps@, in_section(section), i as int);
    }
    i
}

/// Looks at relocation `k`: the index of its instruction and its symbol.
pub fn examine(
    instructions: &Vec<Instruction>,
    relocs: &Vec<Relocation>,
    k: usize,
    section_index: usize,
    symbols: &Vec<Symbol>,
    text_section: Option<usize>,
) -> (r: Result<(usize, Symbol), RelocationError>)
    requires
        k < relocs@.len(),
    ensures
        match check_relocation(
            instructions@,
            relocs@,
            k as int,
            Context { section_index, symbols: symbols@, text_section },
        ) {
            Ok(()) => r is Ok && r->Ok_0.0 == ins_index(relocs@[k as int]) && r->Ok_0.1
                == symbols@[relocs@[k as int].symbol_index as int],
            Err(e) => r == Err::<(usize, Symbol), RelocationError>(e),
        },
{
    let rel: Relocation = relocs[k];
    let at: u64 = rel.offset / 8;
    if at >= instructions.len() as u64 {
        return Err(
            RelocationError {
                section_index,
                symbol: rel.symbol_index,
                cause: RelocationCause::InvalidOffset,
            },
        );
    }
    if rel.symbol_index >= symbols.len() {
        return Err(
            RelocationError {
                section_index,
                symbol: rel.symbol_index,
                cause: RelocationCause::UnknownSymbol,
            },
        );
    }
    Ok((at as usize, symbols[rel.symbol_index]))
}

/// Whether a relocation of `ins` against `sym` is a call relocation.
pub fn call_relocation(ins: Instruction, sym: Symbol, text_section: Option<usize>) -> (r: bool)
    ensures
        r == is_call_relocation(ins, sym, text_section),
{
    let in_text: bool = match text_section {
        Some(t) => t == sym.section_index,
        None => false,
    };
    ins.is_call() || in_text
}

/// Applies the relocations of one section, as far as they are map
/// relocations, to the section's instructions.
///
/// On success the instructions are those that `relocate_maps_upto`
/// describes for the whole table; on failure the error is that of the first
/// relocation that fails, and the instructions are of no further use.
#[verifier::rlimit(40)]
pub fn relocate_maps_in(
    instructions: &mut Vec<Instruction>,
    relocs: &Vec<Relocation>,
    section_index: usize,
    symbols: &Vec<Symbol>,
    text_section: Option<usize>,
    maps: &Vec<MapSlot>,
) -> (r: Result<(), RelocationError>)
    ensures
        match relocate_maps_upto(
            old(instructions)@,
            relocs@,
            relocs@.len() as int,
            Context { section_index, symbols: symbols@, text_section },
            maps@,
        ) {
            Ok(s) => r is Ok && final(instructions)@ == s,
            Err(e) => r == Err::<(), RelocationError>(e),
        },
{
    let ghost ctx = Context { section_index, symbols: symbols@, text_section };
    let ghost orig = instructions@;
    let mut k: usize = 0;
    while k < relocs.len()
        invariant
            k <= relocs@.len(),
            orig == old(instructions)@,
            ctx == (Context { section_index, symbols: symbols@, text_section }),
            relocate_maps_upto(orig, relocs@, k as int, ctx, maps@) == Ok::<
                Seq<Instruction>,
                RelocationError,
            >(instructions@),
        decreases relocs@.len() - k,
    {
        let step: Result<(), RelocationError> = match examine(
            instructions,
            relocs,
            k,
            section_index,
            symbols,
            text_section,
        ) {
            Err(e) => Err(e),
            Ok((idx, sym)) => {
                let len: usize = instructions.len();
                let ins: Instruction = instructions[idx];
                let fail = |cause: RelocationCause| -> (e: RelocationError)
                    ensures
                        e == (RelocationError {
                            section_index,
                            symbol: relocs@[k as int].symbol_index,
                            cause,
                        }),
                    { RelocationError { section_index, symbol: relocs[k].symbol_index, cause } };
                if call_relocation(ins, sym, text_section) {
                    Ok(())
                } else {
                    let m: usize = find_map(maps, sym.section_index);
                    if m >= maps.len() {
                        Err(fail(RelocationCause::SectionNotFound))
                    } else {
                        match maps[m].fd {
                            None => Err(fail(RelocationCause::MapNotCreated)),
                            Some(fd) => {
                                if ins.code != BPF_LD_IMM64 || idx + 1 >= len
                                    || instructions[idx + 1].code != 0 {
                                    Err(fail(RelocationCause::InvalidInstruction))
                                } else if !maps[m].globals {
                                    instructions[idx] = Instruction {
                                        src_reg: BPF_PSEUDO_MAP_FD,
                                        imm: fd,
                                        ..ins
                                    };
                                    Ok(())
                                } else if sym.address > 0xffff_ffff || ins.imm as i64
                                    + sym.address as i64 > 0x7fff_ffff {
                                    Err(fail(RelocationCause::InvalidOffset))
                                } else {
                                    let value_off: i64 = ins.imm as i64 + sym.address as i64;
                                    let second: Instruction = instructions[idx + 1];
                                    instructions[idx] = Instruction {
                                        src_reg: BPF_PSEUDO_MAP_VALUE,
                                        imm: fd,
                                        ..ins
                                    };
                                    instructions[idx + 1] = Instruction {
                                        imm: value_off as i32,
                                        ..second
                                    };
                                    Ok(())
                                }
                            },
                        }
                    }
                }
            },
        };
        match step {
            Ok(()) => {},
            Err(e) => {
                proof {
                    lemma_relocate_maps_err(orig, relocs@, k + 1, relocs@.len() as int, ctx, maps@);
                }
                return Err(e);
            },
        }
        k = k + 1;
    }
    Ok(())
}

/// The index, among the subroutines, of the instruction that the call
/// `ins` against `sym` leads to: the symbol's address in instructions, plus
/// what the call's immediate held, plus one.
pub open spec fn callee_index(ins: Instruction, sym: Symbol) -> int {
    sym.address as int / INS_SIZE as int + ins.imm + 1
}

/// The instructions after call relocation `k` has been applied to `insns`.
///
/// The subroutines stand, or will stand, at index `base` of the stream and
/// are `text_len` instructions long. The instruction must be a call and the
/// symbol must lie in the section of subroutines. The call's immediate
/// becomes the displacement from the instruction after the call to the
/// callee, so that the call leads to index `base` plus the callee's index.
pub open spec fn relocate_call(
    insns: Seq<Instruction>,
    relocs: Seq<Relocation>,
    k: int,
    ctx: Context,
    base: int,
    text_len: int,
) -> Result<Seq<Instruction>, RelocationError> {
    let r = relocs[k];
    let idx = ins_index(r);
    let fail = |cause: RelocationCause|
        Err::<Seq<Instruction>, RelocationError>(
            RelocationError { section_index: ctx.section_index, symbol: r.symbol_index, cause },
        );
    match check_relocation(insns, relocs, k, ctx) {
        Err(e) => Err(e),
        Ok(()) => {
            let sym = ctx.symbols[r.symbol_index as int];
            let callee = callee_index(insns[idx], sym);
            let disp = base + callee - (idx + 1);
            if !is_call_relocation(insns[idx], sym, ctx.text_section) {
                Ok(insns)
            } else if !insns[idx].is_call() {
                fail(RelocationCause::InvalidInstruction)
            } else if ctx.text_section != Some(sym.section_index) || callee < 0 || callee
                >= text_len {
                fail(RelocationCause::UnknownFunction)
            } else if disp > i32::MAX || disp < i32::MIN {
                fail(RelocationCause::InvalidOffset)
            } else {
                Ok(insns.update(idx, Instruction { imm: disp as i32, ..insns[idx] }))
            }
        },
    }
}

/// The instructions after the first `n` relocations have been applied as
/// call relocations, in order. The first one that fails fails the pass.
pub open spec fn relocate_calls_upto(
    insns: Seq<Instruction>,
    relocs: Seq<Relocation>,
    n: int,
    ctx: Context,
    base: int,
    text_len: int,
) -> Result<Seq<Instruction>, RelocationError>
    decreases n,
{
    if n <= 0 {
        Ok(insns)
    } else {
        match relocate_calls_upto(insns, relocs, n - 1, ctx, base, text_len) {
            Err(e) => Err(e),
            Ok(cur) => relocate_call(cur, relocs, n - 1, ctx, base, text_len),
        }
    }
}

/// Once a call relocation has failed, further relocations do not change the
/// error.
pub proof fn lemma_relocate_calls_err(
    insns: Seq<Instruction>,
    relocs: Seq<Relocation>,
    k: int,
    n: int,
    ctx: Context,
    base: int,
    text_len: int,
)
    requires
        0 <= k <= n,
        relocate_calls_upto(insns, relocs, k, ctx, base, text_len) is Err,
    ensures
        relocate_calls_upto(insns, relocs, n, ctx, base, text_len) == relocate_calls_upto(
            insns,
            relocs,
            k,
            ctx,
            base,
            text_len,
        ),
    decreases n - k,
{
    if k < n {
        lemma_relocate_calls_err(insns, relocs, k, n - 1, ctx, base, text_len);
    }
}

/// Whether one of the first `n` relocations is a call relocation of `insns`.
pub open spec fn has_calls(
    insns: Seq<Instruction>,
    relocs: Seq<Relocation>,
    n: int,
    ctx: Context,
) -> bool {
    exists|k: int|
        0 <= k < n && 0 <= ins_index(#[trigger] relocs[k]) < insns.len() && relocs[k].symbol_index
            < ctx.symbols.len() && is_call_relocation(
            insns[ins_index(relocs[k])],
            ctx.symbols[relocs[k].symbol_index as int],
            ctx.text_section,
        )
}

/// Applies the relocations of one section, as far as they are call
/// relocations, to the section's instructions, and says whether there was
/// one.
///
/// `base` is the index of the stream at which the subroutines stand or will
/// stand, and `text_len` is their number of instructions.
#[verifier::rlimit(40)]
pub fn relocate_calls_in(
    instructions: &mut Vec<Instruction>,
    relocs: &Vec<Relocation>,
    section_index: usize,
    symbols: &Vec<Symbol>,
    text_section: Option<usize>,
    base: usize,
    text_len: usize,
) -> (r: Result<bool, RelocationError>)
    ensures
        match relocate_calls_upto(
            old(instructions)@,
            relocs@,
            relocs@.len() as int,
            Context { section_index, symbols: symbols@, text_section },
            base as int,
            text_len as int,
        ) {
            Ok(s) => r is Ok && final(instructions)@ == s && r->Ok_0 == has_calls(
                old(instructions)@,
                relocs@,
                relocs@.len() as int,
                Context { section_index, symbols: symbols@, text_section },
            ),
            Err(e) => r == Err::<bool, RelocationError>(e),
        },
{
    let ghost ctx = Context { section_index, symbols: symbols@, text_section };
    let ghost orig = instructions@;
    let mut called: bool = false;
    let mut k: usize = 0;
    while k < relocs.len()
        invariant
            k <= relocs@.len(),
            orig == old(instructions)@,
            ctx == (Context { section_index, symbols: symbols@, text_section }),
            relocate_calls_upto(orig, relocs@, k as int, ctx, base as int, text_len as int) == Ok::<
                Seq<Instruction>,
                RelocationError,
            >(instructions@),
            instructions@.len() == orig.len(),
            forall|i: int|
                0 <= i < orig.len() ==> (#[trigger] instructions@[i]).code == orig[i].code
                    && instructions@[i].src_reg == orig[i].src_reg,
            called == has_calls(orig, relocs@, k as int, ctx),
        decreases relocs@.len() - k,
    {
        let step: Result<(), RelocationError> = match examine(
            instructions,
            relocs,
            k,
            section_index,
            symbols,
            text_section,
        ) {
            Err(e) => Err(e),
            Ok((idx, sym)) => {
                let ins: Instruction = instructions[idx];
                let fail = |cause: RelocationCause| -> (e: RelocationError)
                    ensures
                        e == (RelocationError {
                            section_index,
                            symbol: relocs@[k as int].symbol_index,
                            cause,
                        }),
                    { RelocationError { section_index, symbol: relocs[k].symbol_index, cause } };
                if !call_relocation(ins, sym, text_section) {
                    Ok(())
                } else if !ins.is_call() {
                    Err(fail(RelocationCause::InvalidInstruction))
                } else {
                    let in_text: bool = match text_section {
                        Some(t) => t == sym.section_index,
                        None => false,
                    };
                    // All quantities are far below the range of the type.
                    let callee: i128 = (sym.address / 8) as i128 + ins.imm as i128 + 1;
                    let disp: i128 = base as i128 + callee - (idx as i128 + 1);
                    if !in_text || callee < 0 || callee >= text_len as i128 {
                        Err(fail(RelocationCause::UnknownFunction))
                    } else if disp > 0x7fff_ffff || disp < -0x8000_0000 {
                        Err(fail(RelocationCause::InvalidOffset))
                    } else {
                        instructions[idx] = Instruction { imm: disp as i32, ..ins };
                        called = true;
                        Ok(())
                    }
                }
            },
        };
        match step {
            Ok(()) => {},
            Err(e) => {
                proof {
                    lemma_relocate_calls_err(
                        orig,
                        relocs@,
                        k + 1,
                        relocs@.len() as int,
                        ctx,
                        base as int,
                        text_len as int,
                    );
                }
                return Err(e);
            },
        }
        k = k + 1;
    }
    Ok(called)
}

/// Holds of the relocation tables of section `section`.
pub open spec fn is_table_for(section: usize) -> spec_fn(RelocationsModel) -> bool {
    |t: RelocationsModel| t.section_index == section
}

/// The relocations of section `section`: the entries of the first table
/// that applies to it; none where there is no such table.
pub open spec fn table_for(tables: Seq<RelocationsModel>, section: usize) -> Seq<Relocation> {
    let i = first_where(tables, is_table_for(section));
    if i < tables.len() {
        tables[i].entries
    } else {
        Seq::empty()
    }
}

/// What a pass over the relocations of section `section` needs to know of
/// `obj`.
pub open spec fn context(obj: ObjectModel, section: usize) -> Context {
    Context { section_index: section, symbols: obj.symbols, text_section: obj.text_section }
}

/// Program `j` of `obj` with its map references patched.
pub open spec fn relocate_program_maps(obj: ObjectModel, j: int, maps: Seq<MapSlot>) -> Result<
    ProgramModel,
    RelocationError,
> {
    let p = obj.programs[j];
    let relocs = table_for(obj.relocations, p.section_index);
    match relocate_maps_upto(
        p.instructions,
        relocs,
        relocs.len() as int,
        context(obj, p.section_index),
        maps,
    ) {
        Ok(instructions) => Ok(ProgramModel { instructions, ..p }),
        Err(e) => Err(e),
    }
}

/// The programs of `obj`, the first `n` of them with their map references
/// patched. The first program that fails fails them all.
pub open spec fn relocate_programs_maps(obj: ObjectModel, n: int, maps: Seq<MapSlot>) -> Result<
    Seq<ProgramModel>,
    RelocationError,
>
    decreases n,
{
    if n <= 0 {
        Ok(obj.programs)
    } else {
        match relocate_programs_maps(obj, n - 1, maps) {
            Err(e) => Err(e),
            Ok(programs) => match relocate_program_maps(obj, n - 1, maps) {
                Err(e) => Err(e),
                Ok(p) => Ok(programs.update(n - 1, p)),
            },
        }
    }
}

/// The subroutines of `obj` with their map references patched.
pub open spec fn relocate_text_maps(obj: ObjectModel, maps: Seq<MapSlot>) -> Result<
    Seq<Instruction>,
    RelocationError,
> {
    match obj.text_section {
        None => Ok(obj.text),
        Some(t) => {
            let relocs = table_for(obj.relocations, t);
            relocate_maps_upto(obj.text, relocs, relocs.len() as int, context(obj, t), maps)
        },
    }
}

/// `obj` with the map references of all its programs and subroutines
/// patched; the first failure fails the whole object.
pub open spec fn spec_relocate_maps(obj: ObjectModel, maps: Seq<MapSlot>) -> Result<
    ObjectModel,
    RelocationError,
> {
    match relocate_programs_maps(obj, obj.programs.len() as int, maps) {
        Err(e) => Err(e),
        Ok(programs) => match relocate_text_maps(obj, maps) {
            Err(e) => Err(e),
            Ok(text) => Ok(ObjectModel { programs, text, ..obj }),
        },
    }
}

/// Once a program has failed, further programs do not change the error.
pub proof fn lemma_relocate_programs_maps_err(
    obj: ObjectModel,
    k: int,
    n: int,
    maps: Seq<MapSlot>,
)
    requires
        0 <= k <= n,
        relocate_programs_maps(obj, k, maps) is Err,
    ensures
        relocate_programs_maps(obj, n, maps) == relocate_programs_maps(obj, k, maps),
    decreases n - k,
{
    if k < n {
        lemma_relocate_programs_maps_err(obj, k, n - 1, maps);
    }
}

/// The views of the relocation tables.
pub open spec fn tables_view(tables: Seq<SectionRelocations>) -> Seq<RelocationsModel> {
    tables.map_values(|r: SectionRelocations| r@)
}

/// Finds the first relocation table of section `section`.
pub fn find_table(tables: &Vec<SectionRelocations>, section: usize) -> (r: usize)
    ensures
        r == first_where(tables_view(tables@), is_table_for(section)),
        r <= tables@.len(),
        r < tables@.len() ==> tables@[r as int].entries@ == table_for(tables_view(tables@), section),
        r == tables@.len() ==> table_for(tables_view(tables@), section) == Seq::<
            Relocation,
        >::empty(),
{
    let mut i: usize = 0;
    while i < tables.len() && tables[i].section_index != section
        invariant
            i <= tables@.len(),
            forall|j: int|
                0 <= j < i ==> !is_table_for(section)(#[trigger] tables_view(tables@)[j]),
        decreases tables@.len() - i,
    {
        i = i + 1;
    }
    proof {
        lemma_first_where(tables_view(tables@), is_table_for(section), i as int);
    }
    i
}

impl Object {
    /// Patches the handles of `maps` into every instruction that refers to a
    /// map, in the programs and in the subroutines.
    ///
    /// Either every map reference of the object is patched, or the object is
    /// given up and the first unresolved reference is returned.
    #[verifier::rlimit(40)]
    pub fn relocate_maps(self, maps: &Vec<MapSlot>) -> (r: Result<Object, RelocationError>)
        ensures
            match spec_relocate_maps(self@, maps@) {
                Ok(m) => r is Ok && r->Ok_0@ == m,
                Err(e) => r == Err::<Object, RelocationError>(e),
            },
    {
        let mut obj: Object = self;
        let ghost orig = obj@;
        let empty: Vec<Relocation> = Vec::new();
        let mut j: usize = 0;
        while j < obj.programs.len()
            invariant
                orig == self@,
                j <= obj.programs@.len(),
                obj.programs@.len() == orig.programs.len(),
                empty@ == Seq::<Relocation>::empty(),
                obj@ == (ObjectModel { programs: obj@.programs, ..orig }),
                relocate_programs_maps(orig, j as int, maps@) == Ok::<
                    Seq<ProgramModel>,
                    RelocationError,
                >(obj@.programs),
            decreases obj.programs@.len() - j,
        {
            let ghost before = obj@;
            let section: usize = obj.programs[j].section_index;
            let t: usize = find_table(&obj.relocations, section);
            let relocs: &Vec<Relocation> = if t < obj.relocations.len() {
                &obj.relocations[t].entries
            } else {
                &empty
            };
            assert(before.programs[j as int] == orig.programs[j as int]) by {
                lemma_programs_maps_rest(orig, j as int, maps@, j as int);
            }
            let step = relocate_maps_in(
                &mut obj.programs[j].instructions,
                relocs,
                section,
                &obj.symbols,
                obj.text_section,
                maps,
            );
            match step {
                Ok(()) => {
                    assert(obj@.programs =~= before.programs.update(
                        j as int,
                        relocate_program_maps(orig, j as int, maps@)->Ok_0,
                    ));
                },
                Err(e) => {
                    proof {
                        lemma_relocate_programs_maps_err(
                            orig,
                            j + 1,
                            orig.programs.len() as int,
                            maps@,
                        );
                    }
                    return Err(e);
                },
            }
            j = j + 1;
        }
        match obj.text_section {
            None => {},
            Some(section) => {
                let t: usize = find_table(&obj.relocations, section);
                let relocs: &Vec<Relocation> = if t < obj.relocations.len() {
                    &obj.relocations[t].entries
                } else {
                    &empty
                };
                match relocate_maps_in(
                    &mut obj.text,
                    relocs,
                    section,
                    &obj.symbols,
                    obj.text_section,
                    maps,
                ) {
                    Ok(()) => {},
                    Err(e) => {
                        return Err(e);
                    },
                }
            },
        }
        Ok(obj)
    }
}

/// Patching the first `n` programs leaves the others as they are.
pub proof fn lemma_programs_maps_rest(obj: ObjectModel, n: int, maps: Seq<MapSlot>, i: int)
    requires
        0 <= n <= i < obj.programs.len(),
        relocate_programs_maps(obj, n, maps) is Ok,
    ensures
        relocate_programs_maps(obj, n, maps)->Ok_0.len() == obj.programs.len(),
        relocate_programs_maps(obj, n, maps)->Ok_0[i] == obj.programs[i],
    decreases n,
{
    if n > 0 {
        lemma_programs_maps_rest(obj, n - 1, maps, i);
    }
}

/// The subroutines of `obj` with their calls to one another patched. The
/// subroutines stand at the start of their own stream.
pub open spec fn relocate_text_calls(obj: ObjectModel) -> Result<Seq<Instruction>, RelocationError> {
    match obj.text_section {
        None => Ok(obj.text),
        Some(t) => {
            let relocs = table_for(obj.relocations, t);
            relocate_calls_upto(
                obj.text,
                relocs,
                relocs.len() as int,
                context(obj, t),
                0,
                obj.text.len() as int,
            )
        },
    }
}

/// Program `j` of `obj` with its calls patched and, where it has a call
/// relocation, the subroutines `text` appended to it.
///
/// The subroutines start at the index that is the program's own length, so
/// each program that calls one gets a copy of them all.
pub open spec fn link_program(obj: ObjectModel, j: int, text: Seq<Instruction>) -> Result<
    ProgramModel,
    RelocationError,
> {
    let p = obj.programs[j];
    let relocs = table_for(obj.relocations, p.section_index);
    let ctx = context(obj, p.section_index);
    match relocate_calls_upto(
        p.instructions,
        relocs,
        relocs.len() as int,
        ctx,
        p.instructions.len() as int,
        text.len() as int,
    ) {
        Err(e) => Err(e),
        Ok(own) => Ok(
            ProgramModel {
                instructions: if has_calls(p.instructions, relocs, relocs.len() as int, ctx) {
                    own + text
                } else {
                    own
                },
                ..p
            },
        ),
    }
}

/// The programs of `obj`, the first `n` of them linked with `text`. The
/// first program that fails fails them all.
pub open spec fn link_programs(obj: ObjectModel, n: int, text: Seq<Instruction>) -> Result<
    Seq<ProgramModel>,
    RelocationError,
>
    decreases n,
{
    if n <= 0 {
        Ok(obj.programs)
    } else {
        match link_programs(obj, n - 1, text) {
            Err(e) => Err(e),
            Ok(programs) => match link_program(obj, n - 1, text) {
                Err(e) => Err(e),
                Ok(p) => Ok(programs.update(n - 1, p)),
            },
        }
    }
}

/// `obj` with every call patched: first those among the subroutines, then
/// those of each program; the first failure fails the whole object.
pub open spec fn spec_relocate_calls(obj: ObjectModel) -> Result<ObjectModel, RelocationError> {
    match relocate_text_calls(obj) {
        Err(e) => Err(e),
        Ok(text) => match link_programs(obj, obj.programs.len() as int, text) {
            Err(e) => Err(e),
            Ok(programs) => Ok(ObjectModel { programs, text, ..obj }),
        },
    }
}

/// Once a program has failed, further programs do not change the error.
pub proof fn lemma_link_programs_err(obj: ObjectModel, k: int, n: int, text: Seq<Instruction>)
    requires
        0 <= k <= n,
        link_programs(obj, k, text) is Err,
    ensures
        link_programs(obj, n, text) == link_programs(obj, k, text),
    decreases n - k,
{
    if k < n {
        lemma_link_programs_err(obj, k, n - 1, text);
    }
}

/// Linking the first `n` programs leaves the others as they are.
pub proof fn lemma_link_programs_rest(obj: ObjectModel, n: int, text: Seq<Instruction>, i: int)
    requires
        0 <= n <= i < obj.programs.len(),
        link_programs(obj, n, text) is Ok,
    ensures
        link_programs(obj, n, text)->Ok_0.len() == obj.programs.len(),
        link_programs(obj, n, text)->Ok_0[i] == obj.programs[i],
    decreases n,
{
    if n > 0 {
        lemma_link_programs_rest(obj, n - 1, text, i);
    }
}

/// Appends a copy of `src` to `dst`.
pub fn append_instructions(dst: &mut Vec<Instruction>, src: &Vec<Instruction>)
    ensures
        final(dst)@ == old(dst)@ + src@,
{
    let mut i: usize = 0;
    while i < src.len()
        invariant
            i <= src@.len(),
            dst@ == old(dst)@ + src@.take(i as int),
        decreases src@.len() - i,
    {
        dst.push(src[i]);
        i = i + 1;
    }
}

impl Object {
    /// Patches every call, and appends the subroutines to each program that
    /// calls one.
    ///
    /// Either every call of the object is patched, or the object is given up
    /// and the first unresolved call is returned.
    #[verifier::rlimit(40)]
    pub fn relocate_calls(self) -> (r: Result<Object, RelocationError>)
        ensures
            match spec_relocate_calls(self@) {
                Ok(m) => r is Ok && r->Ok_0@ == m,
                Err(e) => r == Err::<Object, RelocationError>(e),
            },
    {
        let mut obj: Object = self;
        let ghost orig = obj@;
        let empty: Vec<Relocation> = Vec::new();
        match obj.text_section {
            None => {},
            Some(section) => {
                let t: usize = find_table(&obj.relocations, section);
                let relocs: &Vec<Relocation> = if t < obj.relocations.len() {
                    &obj.relocations[t].entries
                } else {
                    &empty
                };
                let text_len: usize = obj.text.len();
                match relocate_calls_in(
                    &mut obj.text,
                    relocs,
                    section,
                    &obj.symbols,
                    obj.text_section,
                    0,
                    text_len,
                ) {
                    Ok(_) => {},
                    Err(e) => {
                        return Err(e);
                    },
                }
            },
        }
        let ghost text = obj@.text;
        let mut j: usize = 0;
        while j < obj.programs.len()
            invariant
                orig == self@,
                relocate_text_calls(orig) == Ok::<Seq<Instruction>, RelocationError>(text),
                j <= obj.programs@.len(),
                obj.programs@.len() == orig.programs.len(),
                empty@ == Seq::<Relocation>::empty(),
                obj@ == (ObjectModel { programs: obj@.programs, text, ..orig }),
                link_programs(orig, j as int, text) == Ok::<Seq<ProgramModel>, RelocationError>(
                    obj@.programs,
                ),
            decreases obj.programs@.len() - j,
        {
            let ghost before = obj@;
            let section: usize = obj.programs[j].section_index;
            let t: usize = find_table(&obj.relocations, section);
            let relocs: &Vec<Relocation> = if t < obj.relocations.len() {
                &obj.relocations[t].entries
            } else {
                &empty
            };
            assert(before.programs[j as int] == orig.programs[j as int]) by {
                lemma_link_programs_rest(orig, j as int, text, j as int);
            }
            let base: usize = obj.programs[j].instructions.len();
            let text_len: usize = obj.text.len();
            let step = relocate_calls_in(
                &mut obj.programs[j].instructions,
                relocs,
                section,
                &obj.symbols,
                obj.text_section,
                base,
                text_len,
            );
            match step {
                Ok(called) => {
                    if called {
                        append_instructions(&mut obj.programs[j].instructions, &obj.text);
                    }
                    assert(obj@.programs =~= before.programs.update(
                        j as int,
                        link_program(orig, j as int, text)->Ok_0,
                    ));
                },
                Err(e) => {
                    proof {
                        lemma_link_programs_err(orig, j + 1, orig.programs.len() as int, text);
                    }
                    return Err(e);
                },
            }
            j = j + 1;
        }
        Ok(obj)
    }
}

/// What a successful pass of `n` map relocations leaves as it was: the
/// length of the stream and every opcode; the source register of every
/// instruction that is no immediate load; every instruction that is neither
/// an immediate load nor a second half; and, of an instruction that no
/// relocation names, the source register, and the whole instruction unless
/// it is a second half.
pub proof fn lemma_relocate_maps_frame(
    insns: Seq<Instruction>,
    relocs: Seq<Relocation>,
    n: int,
    ctx: Context,
    maps: Seq<MapSlot>,
)
    requires
        0 <= n <= relocs.len(),
        relocate_maps_upto(insns, relocs, n, ctx, maps) is Ok,
    ensures
        ({
            let out = relocate_maps_upto(insns, relocs, n, ctx, maps)->Ok_0;
            &&& out.len() == insns.len()
            &&& forall|i: int| 0 <= i < insns.len() ==> (#[trigger] out[i]).code == insns[i].code
            &&& forall|i: int|
                0 <= i < insns.len() && insns[i].code != BPF_LD_IMM64 ==> (#[trigger] out[i]).src_reg
                    == insns[i].src_reg
            &&& forall|i: int|
                0 <= i < insns.len() && insns[i].code != BPF_LD_IMM64 && insns[i].code != 0
                    ==> #[trigger] out[i] == insns[i]
            &&& forall|i: int|
                0 <= i < insns.len() && unnamed(relocs, n, i) ==> (#[trigger] out[i]).src_reg
                    == insns[i].src_reg && (insns[i].code != 0 ==> out[i] == insns[i])
        }),
    decreases n,
{
    if n > 0 {
        lemma_relocate_maps_frame(insns, relocs, n - 1, ctx, maps);
        let cur = relocate_maps_upto(insns, relocs, n - 1, ctx, maps)->Ok_0;
        let out = relocate_maps_upto(insns, relocs, n, ctx, maps)->Ok_0;
        let idx = ins_index(relocs[n - 1]);
        assert forall|i: int| 0 <= i < insns.len() && unnamed(relocs, n, i) implies (
        #[trigger] out[i]).src_reg == insns[i].src_reg && (insns[i].code != 0 ==> out[i]
            == insns[i]) by {
            assert(unnamed(relocs, n - 1, i));
            assert(ins_index(relocs[n - 1]) != i);
            assert(cur[i].src_reg == insns[i].src_reg);
        }
    }
}

/// After a successful pass, every map relocation has been looked at: its
/// symbol stands for a created map, and its instruction is an immediate
/// load. Where no later relocation names the instruction, it holds the
/// handle of that map.
pub proof fn lemma_relocate_maps_applied(
    insns: Seq<Instruction>,
    relocs: Seq<Relocation>,
    n: int,
    ctx: Context,
    maps: Seq<MapSlot>,
    k: int,
)
    requires
        0 <= k < n <= relocs.len(),
        relocate_maps_upto(insns, relocs, n, ctx, maps) is Ok,
    ensures
        ({
            let out = relocate_maps_upto(insns, relocs, n, ctx, maps)->Ok_0;
            let idx = ins_index(relocs[k]);
            let sym = ctx.symbols[relocs[k].symbol_index as int];
            let m = spec_find_map(maps, sym.section_index);
            &&& 0 <= idx < insns.len() == out.len()
            &&& relocs[k].symbol_index < ctx.symbols.len()
            &&& !is_call_relocation(insns[idx], sym, ctx.text_section) ==> {
                &&& 0 <= m < maps.len()
                &&& maps[m].fd is Some
                &&& out[idx].code == BPF_LD_IMM64
                &&& names_last(relocs, k) ==> out[idx].imm == maps[m].fd->Some_0
                    && out[idx].src_reg == if maps[m].globals {
                    BPF_PSEUDO_MAP_VALUE
                } else {
                    BPF_PSEUDO_MAP_FD
                }
            }
        }),
    decreases n,
{
    lemma_relocate_maps_frame(insns, relocs, n - 1, ctx, maps);
    lemma_relocate_maps_frame(insns, relocs, n, ctx, maps);
    let cur = relocate_maps_upto(insns, relocs, n - 1, ctx, maps)->Ok_0;
    let idx = ins_index(relocs[k]);
    if k < n - 1 {
        lemma_relocate_maps_applied(insns, relocs, n - 1, ctx, maps, k);
        if names_last(relocs, k) {
            assert(ins_index(relocs[n - 1]) != idx);
        }
    } else {
        assert(cur[idx].code == insns[idx].code);
        if insns[idx].code != BPF_LD_IMM64 {
            assert(cur[idx].src_reg == insns[idx].src_reg);
        }
    }
}

/// What a successful pass of `n` call relocations leaves as it was: the
/// length of the stream, every opcode, register and offset, every
/// instruction that is no call, and every instruction that no relocation
/// names.
pub proof fn lemma_relocate_calls_frame(
    insns: Seq<Instruction>,
    relocs: Seq<Relocation>,
    n: int,
    ctx: Context,
    base: int,
    text_len: int,
)
    requires
        0 <= n <= relocs.len(),
        relocate_calls_upto(insns, relocs, n, ctx, base, text_len) is Ok,
    ensures
        ({
            let out = relocate_calls_upto(insns, relocs, n, ctx, base, text_len)->Ok_0;
            &&& out.len() == insns.len()
            &&& forall|i: int|
                0 <= i < insns.len() ==> (#[trigger] out[i]).code == insns[i].code
                    && out[i].src_reg == insns[i].src_reg && out[i].dst_reg == insns[i].dst_reg
                    && out[i].off == insns[i].off
            &&& forall|i: int|
                0 <= i < insns.len() && !insns[i].is_call() ==> #[trigger] out[i] == insns[i]
            &&& forall|i: int|
                0 <= i < insns.len() && unnamed(relocs, n, i) ==> #[trigger] out[i] == insns[i]
        }),
    decreases n,
{
    if n > 0 {
        lemma_relocate_calls_frame(insns, relocs, n - 1, ctx, base, text_len);
        let cur = relocate_calls_upto(insns, relocs, n - 1, ctx, base, text_len)->Ok_0;
        let out = relocate_calls_upto(insns, relocs, n, ctx, base, text_len)->Ok_0;
        assert forall|i: int| 0 <= i < insns.len() && unnamed(relocs, n, i) implies #[trigger] out[i]
            == insns[i] by {
            assert(unnamed(relocs, n - 1, i));
            assert(ins_index(relocs[n - 1]) != i);
            assert(cur[i] == insns[i]);
        }
    }
}

/// After a successful pass, the instruction of every call relocation is a
/// call. Where the relocation names its instruction alone, the call leads
/// to index `base` plus the callee's index among the subroutines.
pub proof fn lemma_relocate_calls_applied(
    insns: Seq<Instruction>,
    relocs: Seq<Relocation>,
    n: int,
    ctx: Context,
    base: int,
    text_len: int,
    k: int,
)
    requires
        0 <= k < n <= relocs.len(),
        relocate_calls_upto(insns, relocs, n, ctx, base, text_len) is Ok,
    ensures
        ({
            let out = relocate_calls_upto(insns, relocs, n, ctx, base, text_len)->Ok_0;
            let idx = ins_index(relocs[k]);
            let sym = ctx.symbols[relocs[k].symbol_index as int];
            let callee = callee_index(insns[idx], sym);
            &&& 0 <= idx < insns.len() == out.len()
            &&& relocs[k].symbol_index < ctx.symbols.len()
            &&& is_call_relocation(insns[idx], sym, ctx.text_section) ==> {
                &&& insns[idx].is_call()
                &&& out[idx].is_call()
                &&& names_alone(relocs, k) ==> 0 <= callee < text_len && idx + 1 + out[idx].imm
                    == base + callee
            }
        }),
    decreases n,
{
    lemma_relocate_calls_frame(insns, relocs, n - 1, ctx, base, text_len);
    lemma_relocate_calls_frame(insns, relocs, n, ctx, base, text_len);
    let cur = relocate_calls_upto(insns, relocs, n - 1, ctx, base, text_len)->Ok_0;
    let idx = ins_index(relocs[k]);
    if k < n - 1 {
        lemma_relocate_calls_applied(insns, relocs, n - 1, ctx, base, text_len, k);
        if names_alone(relocs, k) {
            assert(ins_index(relocs[n - 1]) != idx);
        }
    } else {
        if names_alone(relocs, k) {
            assert(unnamed(relocs, n - 1, idx));
            assert(cur[idx] == insns[idx]);
        }
    }
}

/// Where the map pass succeeds on the first `n` programs, it has succeeded
/// on each of them, and each stands patched in its place.
pub proof fn lemma_relocate_programs_maps_each(
    obj: ObjectModel,
    n: int,
    maps: Seq<MapSlot>,
    j: int,
)
    requires
        0 <= j < n <= obj.programs.len(),
        relocate_programs_maps(obj, n, maps) is Ok,
    ensures
        relocate_program_maps(obj, j, maps) is Ok,
        relocate_programs_maps(obj, n, maps)->Ok_0.len() == obj.programs.len(),
        relocate_programs_maps(obj, n, maps)->Ok_0[j] == relocate_program_maps(
            obj,
            j,
            maps,
        )->Ok_0,
    decreases n,
{
    lemma_programs_maps_rest(obj, n - 1, maps, n - 1);
    if j < n - 1 {
        lemma_relocate_programs_maps_each(obj, n - 1, maps, j);
    }
}

/// Where linking succeeds on the first `n` programs, it has succeeded on
/// each of them, and each stands linked in its place.
pub proof fn lemma_link_programs_each(obj: ObjectModel, n: int, text: Seq<Instruction>, j: int)
    requires
        0 <= j < n <= obj.programs.len(),
        link_programs(obj, n, text) is Ok,
    ensures
        link_program(obj, j, text) is Ok,
        link_programs(obj, n, text)->Ok_0.len() == obj.programs.len(),
        link_programs(obj, n, text)->Ok_0[j] == link_program(obj, j, text)->Ok_0,
    decreases n,
{
    lemma_link_programs_rest(obj, n - 1, text, n - 1);
    if j < n - 1 {
        lemma_link_programs_each(obj, n - 1, text, j);
    }
}

/// After the map pass has succeeded on an object, every instruction of a
/// program that a map relocation names, and that no later relocation
/// names, holds the handle of the map that the relocation's symbol stands
/// for.
pub proof fn law_map_references_hold_handles(
    obj: ObjectModel,
    maps: Seq<MapSlot>,
    j: int,
    k: int,
)
    requires
        spec_relocate_maps(obj, maps) is Ok,
        0 <= j < obj.programs.len(),
        0 <= k < table_for(obj.relocations, obj.programs[j].section_index).len(),
        names_last(table_for(obj.relocations, obj.programs[j].section_index), k),
    ensures
        ({
            let out = spec_relocate_maps(obj, maps)->Ok_0;
            let before = obj.programs[j].instructions;
            let after = out.programs[j].instructions;
            let r = table_for(obj.relocations, obj.programs[j].section_index)[k];
            let idx = ins_index(r);
            let sym = obj.symbols[r.symbol_index as int];
            let m = spec_find_map(maps, sym.section_index);
            &&& out.programs.len() == obj.programs.len()
            &&& 0 <= idx < before.len() == after.len()
            &&& r.symbol_index < obj.symbols.len()
            &&& !is_call_relocation(before[idx], sym, obj.text_section) ==> {
                &&& 0 <= m < maps.len()
                &&& maps[m].section_index == sym.section_index
                &&& maps[m].fd is Some
                &&& after[idx].imm == maps[m].fd->Some_0
                &&& after[idx].code == BPF_LD_IMM64
            }
        }),
{
    let p = obj.programs[j];
    let relocs = table_for(obj.relocations, p.section_index);
    let ctx = context(obj, p.section_index);
    lemma_relocate_programs_maps_each(obj, obj.programs.len() as int, maps, j);
    lemma_relocate_maps_applied(p.instructions, relocs, relocs.len() as int, ctx, maps, k);
    let sym = obj.symbols[relocs[k].symbol_index as int];
    lemma_first_where_is_first(maps, in_section(sym.section_index));
}

/// After the call pass has succeeded on an object, every instruction of a
/// program that a call relocation names, and that no other relocation
/// names, is a call that leads to its callee: to the index at which the
/// subroutines were appended, plus the callee's index among them. The
/// subroutines stand behind the program's own instructions, and no call
/// relocation is left unapplied.
pub proof fn law_calls_lead_to_callees(obj: ObjectModel, j: int, k: int)
    requires
        spec_relocate_calls(obj) is Ok,
        0 <= j < obj.programs.len(),
        0 <= k < table_for(obj.relocations, obj.programs[j].section_index).len(),
        names_alone(table_for(obj.relocations, obj.programs[j].section_index), k),
    ensures
        ({
            let out = spec_relocate_calls(obj)->Ok_0;
            let before = obj.programs[j].instructions;
            let after = out.programs[j].instructions;
            let r = table_for(obj.relocations, obj.programs[j].section_index)[k];
            let idx = ins_index(r);
            let sym = obj.symbols[r.symbol_index as int];
            let callee = callee_index(before[idx], sym);
            &&& out.programs.len() == obj.programs.len()
            &&& 0 <= idx < before.len() <= after.len()
            &&& r.symbol_index < obj.symbols.len()
            &&& is_call_relocation(before[idx], sym, obj.text_section) ==> {
                &&& before[idx].is_call()
                &&& after[idx].is_call()
                &&& 0 <= callee < out.text.len()
                &&& idx + 1 + after[idx].imm == before.len() + callee
                &&& after.len() == before.len() + out.text.len()
                &&& after.subrange(before.len() as int, after.len() as int) == out.text
            }
        }),
{
    let p = obj.programs[j];
    let relocs = table_for(obj.relocations, p.section_index);
    let ctx = context(obj, p.section_index);
    let text = relocate_text_calls(obj)->Ok_0;
    lemma_link_programs_each(obj, obj.programs.len() as int, text, j);
    lemma_relocate_calls_applied(
        p.instructions,
        relocs,
        relocs.len() as int,
        ctx,
        p.instructions.len() as int,
        text.len() as int,
        k,
    );
}

/// The call pass keeps the number of programs, and makes no program
/// shorter.
pub proof fn lemma_calls_keep_lengths(obj: ObjectModel, j: int)
    requires
        spec_relocate_calls(obj) is Ok,
        0 <= j < obj.programs.len(),
    ensures
        spec_relocate_calls(obj)->Ok_0.programs.len() == obj.programs.len(),
        obj.programs[j].instructions.len() <= spec_relocate_calls(
            obj,
        )->Ok_0.programs[j].instructions.len(),
{
    let p = obj.programs[j];
    let relocs = table_for(obj.relocations, p.section_index);
    let ctx = context(obj, p.section_index);
    let text = relocate_text_calls(obj)->Ok_0;
    lemma_link_programs_each(obj, obj.programs.len() as int, text, j);
    lemma_relocate_calls_frame(
        p.instructions,
        relocs,
        relocs.len() as int,
        ctx,
        p.instructions.len() as int,
        text.len() as int,
    );
}

/// The call pass leaves every instruction of a program that is no call as
/// it was, and in its place.
pub proof fn lemma_calls_keep_other_instructions(obj: ObjectModel, j: int, i: int)
    requires
        spec_relocate_calls(obj) is Ok,
        0 <= j < obj.programs.len(),
        0 <= i < obj.programs[j].instructions.len(),
        !obj.programs[j].instructions[i].is_call(),
    ensures
        spec_relocate_calls(obj)->Ok_0.programs.len() == obj.programs.len(),
        i < spec_relocate_calls(obj)->Ok_0.programs[j].instructions.len(),
        spec_relocate_calls(obj)->Ok_0.programs[j].instructions[i]
            == obj.programs[j].instructions[i],
{
    let p = obj.programs[j];
    let relocs = table_for(obj.relocations, p.section_index);
    let ctx = context(obj, p.section_index);
    let text = relocate_text_calls(obj)->Ok_0;
    lemma_link_programs_each(obj, obj.programs.len() as int, text, j);
    lemma_relocate_calls_frame(
        p.instructions,
        relocs,
        relocs.len() as int,
        ctx,
        p.instructions.len() as int,
        text.len() as int,
    );
}

/// Where a map relocation of a program names a symbol outside the symbol
/// table, or a symbol whose section holds no map, the map pass fails.
pub proof fn law_undefined_map_symbol_fails(obj: ObjectModel, maps: Seq<MapSlot>, j: int, k: int)
    requires
        0 <= j < obj.programs.len(),
        0 <= k < table_for(obj.relocations, obj.programs[j].section_index).len(),
        ({
            let r = table_for(obj.relocations, obj.programs[j].section_index)[k];
            let idx = ins_index(r);
            ||| r.symbol_index >= obj.symbols.len()
            ||| (0 <= idx < obj.programs[j].instructions.len() && !is_call_relocation(
                obj.programs[j].instructions[idx],
                obj.symbols[r.symbol_index as int],
                obj.text_section,
            ) && spec_find_map(maps, obj.symbols[r.symbol_index as int].section_index)
                >= maps.len())
        }),
    ensures
        spec_relocate_maps(obj, maps) is Err,
{
    let p = obj.programs[j];
    let relocs = table_for(obj.relocations, p.section_index);
    let ctx = context(obj, p.section_index);
    if spec_relocate_maps(obj, maps) is Ok {
        lemma_relocate_programs_maps_each(obj, obj.programs.len() as int, maps, j);
        lemma_relocate_maps_applied(p.instructions, relocs, relocs.len() as int, ctx, maps, k);
    }
}

/// The map pass leaves every call of a program as it was, and in its
/// place.
pub proof fn lemma_maps_keep_calls(obj: ObjectModel, maps: Seq<MapSlot>, j: int, i: int)
    requires
        spec_relocate_maps(obj, maps) is Ok,
        0 <= j < obj.programs.len(),
        0 <= i < obj.programs[j].instructions.len(),
    ensures
        ({
            let out = spec_relocate_maps(obj, maps)->Ok_0;
            let before = obj.programs[j].instructions;
            let after = out.programs[j].instructions;
            &&& out.programs.len() == obj.programs.len()
            &&& out.relocations == obj.relocations
            &&& out.symbols == obj.symbols
            &&& out.text_section == obj.text_section
            &&& out.programs[j].section_index == obj.programs[j].section_index
            &&& after.len() == before.len()
            &&& after[i].code == before[i].code
            &&& before[i].is_call() || after[i].is_call() ==> after[i] == before[i]
        }),
{
    let p = obj.programs[j];
    let relocs = table_for(obj.relocations, p.section_index);
    let ctx = context(obj, p.section_index);
    lemma_relocate_programs_maps_each(obj, obj.programs.len() as int, maps, j);
    lemma_relocate_maps_frame(p.instructions, relocs, relocs.len() as int, ctx, maps);
}

/// Neither pass gives a program another name, and neither touches the
/// maps or the license.
pub proof fn lemma_passes_keep_names(obj: ObjectModel, maps: Seq<MapSlot>)
    ensures
        spec_relocate_maps(obj, maps) matches Ok(out) ==> out.maps == obj.maps && out.license
            == obj.license && program_names(out.programs) == program_names(obj.programs),
        spec_relocate_calls(obj) matches Ok(out) ==> out.maps == obj.maps && out.license
            == obj.license && program_names(out.programs) == program_names(obj.programs),
{
    if spec_relocate_maps(obj, maps) is Ok {
        let out = spec_relocate_maps(obj, maps)->Ok_0;
        assert forall|j: int| 0 <= j < obj.programs.len() implies out.programs.len()
            == obj.programs.len() && (#[trigger] out.programs[j]).name == obj.programs[j].name by {
            lemma_relocate_programs_maps_each(obj, obj.programs.len() as int, maps, j);
        }
        lemma_programs_maps_rest_len(obj, obj.programs.len() as int, maps);
        assert(program_names(out.programs) =~= program_names(obj.programs));
    }
    if spec_relocate_calls(obj) is Ok {
        let out = spec_relocate_calls(obj)->Ok_0;
        let text = relocate_text_calls(obj)->Ok_0;
        assert forall|j: int| 0 <= j < obj.programs.len() implies out.programs.len()
            == obj.programs.len() && (#[trigger] out.programs[j]).name == obj.programs[j].name by {
            lemma_link_programs_each(obj, obj.programs.len() as int, text, j);
        }
        lemma_link_programs_len(obj, obj.programs.len() as int, text);
        assert(program_names(out.programs) =~= program_names(obj.programs));
    }
}

/// Patching the first `n` programs leaves their number as it is.
pub proof fn lemma_programs_maps_rest_len(obj: ObjectModel, n: int, maps: Seq<MapSlot>)
    requires
        0 <= n <= obj.programs.len(),
        relocate_programs_maps(obj, n, maps) is Ok,
    ensures
        relocate_programs_maps(obj, n, maps)->Ok_0.len() == obj.programs.len(),
    decreases n,
{
    if n > 0 {
        lemma_programs_maps_rest_len(obj, n - 1, maps);
    }
}

/// Linking the first `n` programs leaves their number as it is.
pub proof fn lemma_link_programs_len(obj: ObjectModel, n: int, text: Seq<Instruction>)
    requires
        0 <= n <= obj.programs.len(),
        link_programs(obj, n, text) is Ok,
    ensures
        link_programs(obj, n, text)->Ok_0.len() == obj.programs.len(),
    decreases n,
{
    if n > 0 {
        lemma_link_programs_len(obj, n - 1, text);
    }
}

/// Whether relocation `k` is a reference to a map that can be resolved:
/// it names the first half of a 64-bit immediate load of `insns` whose
/// second half follows, and a symbol of a
/// section, not that of the subroutines, for which `maps` holds a created
/// map that does not stand for global variables.
pub open spec fn is_map_reference(
    insns: Seq<Instruction>,
    relocs: Seq<Relocation>,
    k: int,
    ctx: Context,
    maps: Seq<MapSlot>,
) -> bool {
    let r = relocs[k];
    let idx = ins_index(r);
    let sym = ctx.symbols[r.symbol_index as int];
    let m = spec_find_map(maps, sym.section_index);
    &&& idx + 1 < insns.len()
    &&& r.symbol_index < ctx.symbols.len()
    &&& insns[idx].code == BPF_LD_IMM64
    &&& insns[idx + 1].code == 0
    &&& ctx.text_section != Some(sym.section_index)
    &&& m < maps.len()
    &&& maps[m].fd is Some
    &&& !maps[m].globals
}

/// Whether two streams have the same operations at the same places.
pub open spec fn same_codes(a: Seq<Instruction>, b: Seq<Instruction>) -> bool {
    a.len() == b.len() && forall|i: int| 0 <= i < a.len() ==> (#[trigger] a[i]).code == b[i].code
}

/// A reference to a map is one in every stream with the same operations.
pub proof fn lemma_map_reference_by_codes(
    a: Seq<Instruction>,
    b: Seq<Instruction>,
    relocs: Seq<Relocation>,
    k: int,
    ctx: Context,
    maps: Seq<MapSlot>,
)
    requires
        same_codes(a, b),
        is_map_reference(a, relocs, k, ctx, maps),
    ensures
        is_map_reference(b, relocs, k, ctx, maps),
{
    let idx = ins_index(relocs[k]);
    assert(a[idx].code == b[idx].code);
    assert(a[idx + 1].code == b[idx + 1].code);
}

/// The map pass succeeds on relocations that are all references to maps,
/// and changes no operation.
pub proof fn lemma_map_references_are_patched(
    insns: Seq<Instruction>,
    relocs: Seq<Relocation>,
    n: int,
    ctx: Context,
    maps: Seq<MapSlot>,
)
    requires
        0 <= n <= relocs.len(),
        forall|k: int| 0 <= k < relocs.len() ==> is_map_reference(insns, relocs, k, ctx, maps),
    ensures
        relocate_maps_upto(insns, relocs, n, ctx, maps) is Ok,
        same_codes(insns, relocate_maps_upto(insns, relocs, n, ctx, maps)->Ok_0),
    decreases n,
{
    if n > 0 {
        lemma_map_references_are_patched(insns, relocs, n - 1, ctx, maps);
        let cur = relocate_maps_upto(insns, relocs, n - 1, ctx, maps)->Ok_0;
        lemma_map_reference_by_codes(insns, cur, relocs, n - 1, ctx, maps);
        let out = relocate_map(cur, relocs, n - 1, ctx, maps)->Ok_0;
        assert forall|i: int| 0 <= i < insns.len() implies (#[trigger] insns[i]).code
            == out[i].code by {
            assert(insns[i].code == cur[i].code);
        }
    }
}

/// The call pass leaves relocations alone that are all references to maps.
pub proof fn lemma_map_references_are_no_calls(
    insns: Seq<Instruction>,
    relocs: Seq<Relocation>,
    n: int,
    ctx: Context,
    maps: Seq<MapSlot>,
    base: int,
    text_len: int,
)
    requires
        0 <= n <= relocs.len(),
        forall|k: int| 0 <= k < relocs.len() ==> is_map_reference(insns, relocs, k, ctx, maps),
    ensures
        relocate_calls_upto(insns, relocs, n, ctx, base, text_len) == Ok::<
            Seq<Instruction>,
            RelocationError,
        >(insns),
        !has_calls(insns, relocs, n, ctx),
    decreases n,
{
    if n > 0 {
        lemma_map_references_are_no_calls(insns, relocs, n - 1, ctx, maps, base, text_len);
        assert(is_map_reference(insns, relocs, n - 1, ctx, maps));
    }
    assert forall|k: int| 0 <= k < n implies !(0 <= ins_index(#[trigger] relocs[k]) < insns.len()
        && relocs[k].symbol_index < ctx.symbols.len() && is_call_relocation(
        insns[ins_index(relocs[k])],
        ctx.symbols[relocs[k].symbol_index as int],
        ctx.text_section,
    )) by {
        assert(is_map_reference(insns, relocs, k, ctx, maps));
    }
}

/// The map pass succeeds on the first `n` programs where it succeeds on
/// each of them.
pub proof fn lemma_relocate_programs_maps_ok(obj: ObjectModel, n: int, maps: Seq<MapSlot>)
    requires
        0 <= n <= obj.programs.len(),
        forall|j: int| 0 <= j < n ==> relocate_program_maps(obj, j, maps) is Ok,
    ensures
        relocate_programs_maps(obj, n, maps) is Ok,
    decreases n,
{
    if n > 0 {
        lemma_relocate_programs_maps_ok(obj, n - 1, maps);
    }
}

/// Linking succeeds on the first `n` programs where it succeeds on each of
/// them.
pub proof fn lemma_link_programs_ok(obj: ObjectModel, n: int, text: Seq<Instruction>)
    requires
        0 <= n <= obj.programs.len(),
        forall|j: int| 0 <= j < n ==> link_program(obj, j, text) is Ok,
    ensures
        link_programs(obj, n, text) is Ok,
    decreases n,
{
    if n > 0 {
        lemma_link_programs_ok(obj, n - 1, text);
    }
}

/// Whether every relocation of every program of `obj` is a reference to a
/// map that can be resolved with `maps`.
pub open spec fn references_resolve(obj: ObjectModel, maps: Seq<MapSlot>) -> bool {
    forall|j: int, k: int|
        0 <= j < obj.programs.len() && 0 <= k < table_for(
            obj.relocations,
            obj.programs[j].section_index,
        ).len() ==> is_map_reference(
            obj.programs[j].instructions,
            table_for(obj.relocations, obj.programs[j].section_index),
            k,
            context(obj, obj.programs[j].section_index),
            maps,
        )
}

/// An object without subroutines, in which every relocation of every
/// program is a reference to a map that can be resolved, is relocated
/// without an error: the map pass succeeds on it, and then the call pass.
/// Each program keeps its length and its operations.
pub proof fn law_resolvable_references_are_relocated(obj: ObjectModel, maps: Seq<MapSlot>)
    requires
        obj.text_section is None,
        references_resolve(obj, maps),
    ensures
        spec_relocate_maps(obj, maps) is Ok,
        spec_relocate_calls(spec_relocate_maps(obj, maps)->Ok_0) is Ok,
        ({
            let linked = spec_relocate_calls(spec_relocate_maps(obj, maps)->Ok_0)->Ok_0;
            &&& linked.programs.len() == obj.programs.len()
            &&& forall|j: int|
                0 <= j < obj.programs.len() ==> same_codes(
                    obj.programs[j].instructions,
                    (#[trigger] linked.programs[j]).instructions,
                )
        }),
{
    let n = obj.programs.len() as int;
    assert forall|j: int| 0 <= j < n implies relocate_program_maps(obj, j, maps) is Ok by {
        let p = obj.programs[j];
        let relocs = table_for(obj.relocations, p.section_index);
        lemma_map_references_are_patched(
            p.instructions,
            relocs,
            relocs.len() as int,
            context(obj, p.section_index),
            maps,
        );
    }
    lemma_relocate_programs_maps_ok(obj, n, maps);
    let with_maps = spec_relocate_maps(obj, maps)->Ok_0;
    lemma_programs_maps_rest_len(obj, n, maps);
    assert forall|j: int| 0 <= j < n implies link_program(with_maps, j, with_maps.text) is Ok
        && same_codes(
        obj.programs[j].instructions,
        link_program(with_maps, j, with_maps.text)->Ok_0.instructions,
    ) by {
        let p = obj.programs[j];
        let relocs = table_for(obj.relocations, p.section_index);
        let ctx = context(obj, p.section_index);
        lemma_relocate_programs_maps_each(obj, n, maps, j);
        lemma_map_references_are_patched(p.instructions, relocs, relocs.len() as int, ctx, maps);
        let cur = with_maps.programs[j].instructions;
        assert forall|k: int| 0 <= k < relocs.len() implies is_map_reference(
            cur,
            relocs,
            k,
            ctx,
            maps,
        ) by {
            lemma_map_reference_by_codes(p.instructions, cur, relocs, k, ctx, maps);
        }
        lemma_map_references_are_no_calls(
            cur,
            relocs,
            relocs.len() as int,
            ctx,
            maps,
            cur.len() as int,
            with_maps.text.len() as int,
        );
    }
    lemma_link_programs_ok(with_maps, n, with_maps.text);
    lemma_link_programs_len(with_maps, n, with_maps.text);
    let linked = spec_relocate_calls(with_maps)->Ok_0;
    assert forall|j: int| 0 <= j < n implies same_codes(
        obj.programs[j].instructions,
        (#[trigger] linked.programs[j]).instructions,
    ) by {
        lemma_link_programs_each(with_maps, n, with_maps.text, j);
    }
}

} // verus!
