//! Parsing of a compiled object into maps, programs, relocations and symbols.
//!
//! The object is a 64-bit little-endian ELF file. Only the section table, the
//! section names, the symbol table, the relocation tables and the sections
//! that hold maps, programs, global data and debug types are interpreted.

use vstd::prelude::*;
use vstd::string::StringSliceAdditionalSpecFns;
use crate::bytes::{
    bytes_eq, c_str, copy_range, distinct, ends_with, find_byte, has_prefix, has_suffix,
    in_bounds, le_u16, le_u32, le_u64, position, read_c_str, read_u16, read_u32, read_u64,
    starts_with, views,
};
use crate::obj::insn::{copy_instructions, decode_all, Instruction, INS_SIZE};
use crate::search::{all_distinct, first_where, is_first_where, lemma_first_where};

pub mod btf;
pub mod insn;
pub mod relocation;

verus! {

/// Size of the file header in bytes.
pub const ELF_HEADER_SIZE: usize = 64;

/// Size of an entry of the section table in bytes.
pub const SECTION_HEADER_SIZE: usize = 64;

/// Size of an entry of the symbol table in bytes.
pub const SYMBOL_SIZE: usize = 24;

/// Size of an entry of a relocation table in bytes.
pub const RELOCATION_SIZE: usize = 16;

/// Size of a map definition record in bytes.
pub const MAP_DEF_SIZE: usize = 28;

/// Section type: contents that the program defines.
pub const SHT_PROGBITS: u32 = 1;

/// Section type: the symbol table.
pub const SHT_SYMTAB: u32 = 2;

/// Section type: zeroed at run time, without contents in the file.
pub const SHT_NOBITS: u32 = 8;

/// Section type: a relocation table.
pub const SHT_REL: u32 = 9;

/// Map type: an array.
pub const BPF_MAP_TYPE_ARRAY: u32 = 2;

/// Map type: an array of event buffers, one for each processor.
pub const BPF_MAP_TYPE_PERF_EVENT_ARRAY: u32 = 4;

/// Map flag: programs may only read the map.
pub const BPF_F_RDONLY_PROG: u32 = 0x80;

/// Why an object was rejected. A rejected object yields nothing at all.
#[derive(Clone, Copy, Debug, PartialEq, Eq, Structural)]
pub enum ParseError {
    /// The file is shorter than an ELF header, is no 64-bit little-endian
    /// ELF file, or its section table does not fit inside the file.
    InvalidHeader,
    /// A section's contents reach beyond the end of the file.
    InvalidSectionTable,
    /// A section's name is not a NUL-terminated string inside the section
    /// name table.
    InvalidSectionName,
    /// The symbol table's size is no multiple of a symbol's size.
    InvalidSymbolTable,
    /// A relocation table's size is no multiple of a relocation's size.
    InvalidRelocationTable,
    /// A map section is too short for a map definition, or a data section is
    /// too large for one.
    InvalidMapDefinition,
    /// A code section's size is no multiple of an instruction's size.
    InvalidProgramCode,
    /// Two maps, or two programs, have the same name.
    DuplicateName,
}

/// What the object's header says of the section table.
#[derive(Clone, Copy, Debug, PartialEq, Eq, Structural)]
pub struct ElfHeader {
    pub shoff: usize,
    pub shnum: usize,
    pub shstrndx: usize,
}

/// One entry of the section table.
#[derive(Clone, Copy, Debug, PartialEq, Eq, Structural)]
pub struct SectionHeader {
    pub name_off: u32,
    pub kind: u32,
    pub offset: u64,
    pub size: u64,
    pub link: u32,
    pub info: u32,
}

/// One entry of the symbol table: the section that defines the symbol, and
/// the symbol's byte offset in it.
#[derive(Clone, Copy, Debug, PartialEq, Eq, Structural)]
pub struct Symbol {
    pub section_index: usize,
    pub address: u64,
}

/// One relocation: the byte offset of the instruction to patch, and the
/// symbol that it refers to.
#[derive(Clone, Copy, Debug, PartialEq, Eq, Structural)]
pub struct Relocation {
    pub offset: u64,
    pub symbol_index: usize,
}

/// A map definition as it is laid out in a map section.
#[derive(Clone, Copy, Debug, PartialEq, Eq, Structural)]
pub struct MapDef {
    pub map_type: u32,
    pub key_size: u32,
    pub value_size: u32,
    pub max_entries: u32,
    pub map_flags: u32,
    pub id: u32,
    pub pinning: u32,
}

/// The attach kind that a program section's name encodes.
#[derive(Clone, Copy, Debug, PartialEq, Eq, Structural)]
pub enum ProgramKind {
    KProbe,
    KRetProbe,
    UProbe,
    URetProbe,
    TracePoint,
    RawTracePoint,
    SocketFilter,
    Xdp,
    SkMsg,
    SkSkbStreamParser,
    SkSkbStreamVerdict,
    SockOps,
    SchedClassifier,
    Lsm,
    FEntry,
    FExit,
    Iter,
}

/// A map found in the object.
#[derive(Clone, Debug)]
pub struct ObjMap {
    pub name: Vec<u8>,
    pub def: MapDef,
    pub section_index: usize,
    /// Whether the map stands for a section of global variables.
    pub globals: bool,
    /// The bytes that the map's first value starts out with.
    pub data: Vec<u8>,
}

/// A program found in the object.
#[derive(Clone, Debug)]
pub struct ObjProgram {
    pub name: Vec<u8>,
    pub kind: ProgramKind,
    pub sleepable: bool,
    pub section_index: usize,
    pub instructions: Vec<Instruction>,
}

/// The relocations of one section.
#[derive(Clone, Debug)]
pub struct SectionRelocations {
    pub section_index: usize,
    pub entries: Vec<Relocation>,
}

/// A parsed object.
#[derive(Clone, Debug)]
pub struct Object {
    pub maps: Vec<ObjMap>,
    pub programs: Vec<ObjProgram>,
    /// The subroutines that programs call, and the section that holds them.
    pub text: Vec<Instruction>,
    pub text_section: Option<usize>,
    pub relocations: Vec<SectionRelocations>,
    pub symbols: Vec<Symbol>,
    pub license: Vec<u8>,
    /// The debug types and their relocation records, uninterpreted.
    pub btf: Option<Vec<u8>>,
    pub btf_ext: Option<Vec<u8>>,
}

/// A map found in the object, as a value of specifications.
pub struct MapModel {
    pub name: Seq<u8>,
    pub def: MapDef,
    pub section_index: usize,
    pub globals: bool,
    pub data: Seq<u8>,
}

/// A program found in the object, as a value of specifications.
pub struct ProgramModel {
    pub name: Seq<u8>,
    pub kind: ProgramKind,
    pub sleepable: bool,
    pub section_index: usize,
    pub instructions: Seq<Instruction>,
}

/// The relocations of one section, as a value of specifications.
pub struct RelocationsModel {
    pub section_index: usize,
    pub entries: Seq<Relocation>,
}

/// A parsed object, as a value of specifications.
pub struct ObjectModel {
    pub maps: Seq<MapModel>,
    pub programs: Seq<ProgramModel>,
    pub text: Seq<Instruction>,
    pub text_section: Option<usize>,
    pub relocations: Seq<RelocationsModel>,
    pub symbols: Seq<Symbol>,
    pub license: Seq<u8>,
    pub btf: Option<Seq<u8>>,
    pub btf_ext: Option<Seq<u8>>,
}

impl View for ObjMap {
    type V = MapModel;

    open spec fn view(&self) -> MapModel {
        MapModel {
            name: self.name@,
            def: self.def,
            section_index: self.section_index,
            globals: self.globals,
            data: self.data@,
        }
    }
}

impl View for ObjProgram {
    type V = ProgramModel;

    open spec fn view(&self) -> ProgramModel {
        ProgramModel {
            name: self.name@,
            kind: self.kind,
            sleepable: self.sleepable,
            section_index: self.section_index,
            instructions: self.instructions@,
        }
    }
}

impl View for SectionRelocations {
    type V = RelocationsModel;

    open spec fn view(&self) -> RelocationsModel {
        RelocationsModel { section_index: self.section_index, entries: self.entries@ }
    }
}

/// The view of bytes that may be there.
pub open spec fn bytes_view(b: Option<Vec<u8>>) -> Option<Seq<u8>> {
    match b {
        Some(v) => Some(v@),
        None => None,
    }
}

impl View for Object {
    type V = ObjectModel;

    open spec fn view(&self) -> ObjectModel {
        ObjectModel {
            maps: self.maps@.map_values(|m: ObjMap| m@),
            programs: self.programs@.map_values(|p: ObjProgram| p@),
            text: self.text@,
            text_section: self.text_section,
            relocations: self.relocations@.map_values(|r: SectionRelocations| r@),
            symbols: self.symbols@,
            license: self.license@,
            btf: bytes_view(self.btf),
            btf_ext: bytes_view(self.btf_ext),
        }
    }
}

/// What the header of `s` says, if `s` starts with the header of a 64-bit
/// little-endian ELF file whose section table lies inside `s`.
pub open spec fn spec_header(s: Seq<u8>) -> Option<ElfHeader> {
    if s.len() < ELF_HEADER_SIZE || s[0] != 0x7f || s[1] != 0x45 || s[2] != 0x4c || s[3] != 0x46
        || s[4] != 2 || s[5] != 1 || le_u16(s, 58) != SECTION_HEADER_SIZE {
        None
    } else {
        let shoff = le_u64(s, 40);
        let shnum = le_u16(s, 60);
        let shstrndx = le_u16(s, 62);
        if shoff + SECTION_HEADER_SIZE * shnum > s.len() || shstrndx >= shnum {
            None
        } else {
            Some(ElfHeader { shoff: shoff as usize, shnum: shnum as usize, shstrndx: shstrndx as usize })
        }
    }
}

/// Entry `i` of the section table.
pub open spec fn spec_section(s: Seq<u8>, h: ElfHeader, i: int) -> SectionHeader {
    let base = h.shoff + SECTION_HEADER_SIZE * i;
    SectionHeader {
        name_off: le_u32(s, base) as u32,
        kind: le_u32(s, base + 4) as u32,
        offset: le_u64(s, base + 24) as u64,
        size: le_u64(s, base + 32) as u64,
        link: le_u32(s, base + 40) as u32,
        info: le_u32(s, base + 44) as u32,
    }
}

/// The section table.
pub open spec fn spec_sections(s: Seq<u8>, h: ElfHeader) -> Seq<SectionHeader> {
    Seq::new(h.shnum as nat, |i: int| spec_section(s, h, i))
}

impl SectionHeader {
    /// Whether the section's contents lie inside a file of `total` bytes. A
    /// section without contents in the file always does.
    pub open spec fn fits(self, total: int) -> bool {
        self.kind == SHT_NOBITS || self.offset + self.size <= total
    }
}

/// Whether every section's contents lie inside a file of `total` bytes.
pub open spec fn sections_fit(sections: Seq<SectionHeader>, total: int) -> bool {
    forall|i: int| 0 <= i < sections.len() ==> (#[trigger] sections[i]).fits(total)
}

/// Holds of the sections that are symbol tables.
pub open spec fn is_symtab() -> spec_fn(SectionHeader) -> bool {
    |sh: SectionHeader| sh.kind == SHT_SYMTAB
}

/// The index of the first symbol table, or the number of sections.
pub open spec fn symtab_index(sections: Seq<SectionHeader>) -> int {
    first_where(sections, is_symtab())
}

/// The symbol encoded in the 24 bytes at `off`.
pub open spec fn symbol_at(s: Seq<u8>, off: int) -> Symbol {
    Symbol { section_index: le_u16(s, off + 6) as usize, address: le_u64(s, off + 8) as u64 }
}

/// The relocation encoded in the 16 bytes at `off`.
pub open spec fn relocation_at(s: Seq<u8>, off: int) -> Relocation {
    Relocation { offset: le_u64(s, off) as u64, symbol_index: le_u32(s, off + 12) as usize }
}

/// The symbols of the first symbol table; none where the object has no symbol
/// table; an error where the table's size is no multiple of a symbol's.
pub open spec fn spec_symbols(s: Seq<u8>, sections: Seq<SectionHeader>) -> Result<
    Seq<Symbol>,
    ParseError,
> {
    let i = symtab_index(sections);
    if i >= sections.len() {
        Ok(Seq::empty())
    } else if sections[i].size % (SYMBOL_SIZE as u64) != 0 {
        Err(ParseError::InvalidSymbolTable)
    } else {
        Ok(
            Seq::new(
                (sections[i].size / (SYMBOL_SIZE as u64)) as nat,
                |j: int| symbol_at(s, sections[i].offset + SYMBOL_SIZE * j),
            ),
        )
    }
}

/// The entries of the relocation table that section `sh` holds.
pub open spec fn spec_relocations(s: Seq<u8>, sh: SectionHeader) -> Seq<Relocation> {
    Seq::new(
        (sh.size / (RELOCATION_SIZE as u64)) as nat,
        |j: int| relocation_at(s, sh.offset + RELOCATION_SIZE * j),
    )
}

/// The name of section `i`: the NUL-terminated string at its name offset in
/// the section name table.
pub open spec fn spec_section_name(
    s: Seq<u8>,
    sections: Seq<SectionHeader>,
    strndx: int,
    i: int,
) -> Option<Seq<u8>> {
    let names = sections[strndx];
    c_str(s, names.offset + sections[i].name_off, names.offset + names.size)
}

/// The map definition encoded in the 28 bytes at `off`.
pub open spec fn map_def_at(s: Seq<u8>, off: int) -> MapDef {
    MapDef {
        map_type: le_u32(s, off) as u32,
        key_size: le_u32(s, off + 4) as u32,
        value_size: le_u32(s, off + 8) as u32,
        max_entries: le_u32(s, off + 12) as u32,
        map_flags: le_u32(s, off + 16) as u32,
        id: le_u32(s, off + 20) as u32,
        pinning: le_u32(s, off + 24) as u32,
    }
}

/// Whether a section of this name holds global variables.
pub open spec fn is_data_section(name: Seq<u8>) -> bool {
    has_prefix(name, ".bss".spec_bytes()) || has_prefix(name, ".data".spec_bytes()) || has_prefix(
        name,
        ".rodata".spec_bytes(),
    )
}

/// The definition of the one-entry array map that stands for a section of
/// global variables of `size` bytes.
pub open spec fn data_map_def(name: Seq<u8>, size: u32) -> MapDef {
    MapDef {
        map_type: BPF_MAP_TYPE_ARRAY,
        key_size: 4,
        value_size: size,
        max_entries: 1,
        map_flags: if has_prefix(name, ".rodata".spec_bytes()) {
            BPF_F_RDONLY_PROG
        } else {
            0
        },
        id: 0,
        pinning: 0,
    }
}

/// The attach kind that the part of a section name before the slash, without
/// the sleepable suffix, and the part after the slash stand for.
pub open spec fn spec_kind(base: Seq<u8>, target: Seq<u8>) -> Option<ProgramKind> {
    if base == "kprobe".spec_bytes() {
        Some(ProgramKind::KProbe)
    } else if base == "kretprobe".spec_bytes() {
        Some(ProgramKind::KRetProbe)
    } else if base == "uprobe".spec_bytes() {
        Some(ProgramKind::UProbe)
    } else if base == "uretprobe".spec_bytes() {
        Some(ProgramKind::URetProbe)
    } else if base == "tracepoint".spec_bytes() {
        Some(ProgramKind::TracePoint)
    } else if base == "raw_tracepoint".spec_bytes() {
        Some(ProgramKind::RawTracePoint)
    } else if base == "socket_filter".spec_bytes() {
        Some(ProgramKind::SocketFilter)
    } else if base == "xdp".spec_bytes() {
        Some(ProgramKind::Xdp)
    } else if base == "sk_msg".spec_bytes() {
        Some(ProgramKind::SkMsg)
    } else if base == "sk_skb".spec_bytes() {
        if target == "stream_parser".spec_bytes() {
            Some(ProgramKind::SkSkbStreamParser)
        } else if target == "stream_verdict".spec_bytes() {
            Some(ProgramKind::SkSkbStreamVerdict)
        } else {
            None
        }
    } else if base == "sockops".spec_bytes() {
        Some(ProgramKind::SockOps)
    } else if base == "classifier".spec_bytes() {
        Some(ProgramKind::SchedClassifier)
    } else if base == "lsm".spec_bytes() {
        Some(ProgramKind::Lsm)
    } else if base == "fentry".spec_bytes() {
        Some(ProgramKind::FEntry)
    } else if base == "fexit".spec_bytes() {
        Some(ProgramKind::FExit)
    } else if base == "iter".spec_bytes() {
        Some(ProgramKind::Iter)
    } else {
        None
    }
}

/// What a program section's name says.
pub struct SectionName {
    pub kind: ProgramKind,
    pub sleepable: bool,
    pub name: Vec<u8>,
}

/// What a program section's name says, as a value of specifications.
pub struct SectionNameModel {
    pub kind: ProgramKind,
    pub sleepable: bool,
    pub name: Seq<u8>,
}

impl View for SectionName {
    type V = SectionNameModel;

    open spec fn view(&self) -> SectionNameModel {
        SectionNameModel { kind: self.kind, sleepable: self.sleepable, name: self.name@ }
    }
}

/// Reads a section name of the form `<kind>[.s]/<target>` or `<kind>[.s]`.
///
/// The kind is the part before the first slash, without the suffix `.s`
/// that marks a program that may sleep. The program is named by the part
/// after the first slash, and by the whole section name where there is no
/// slash. `None` where the part before the slash is no known kind.
pub open spec fn spec_section_kind(name: Seq<u8>) -> Option<SectionNameModel> {
    let cut = find_byte(name, 0x2f);
    let prefix = name.subrange(0, cut);
    let target = if cut < name.len() {
        name.subrange(cut + 1, name.len() as int)
    } else {
        Seq::empty()
    };
    let sleepable = has_suffix(prefix, ".s".spec_bytes());
    let base = if sleepable {
        prefix.subrange(0, prefix.len() - ".s".spec_bytes().len())
    } else {
        prefix
    };
    match spec_kind(base, target) {
        Some(kind) => Some(
            SectionNameModel {
                kind,
                sleepable,
                name: if cut < name.len() {
                    target
                } else {
                    name
                },
            },
        ),
        None => None,
    }
}

/// An object without maps, programs and relocations.
pub open spec fn empty_object(symbols: Seq<Symbol>) -> ObjectModel {
    ObjectModel {
        maps: Seq::empty(),
        programs: Seq::empty(),
        text: Seq::empty(),
        text_section: None,
        relocations: Seq::empty(),
        symbols,
        license: Seq::empty(),
        btf: None,
        btf_ext: None,
    }
}

/// The object after section `i` has been added to `acc`.
///
/// A relocation table is recorded under the section that it applies to. A
/// section of global variables becomes a one-entry array map that is seeded
/// with the section's contents. A section `maps/<name>` holds the definition
/// of the map `<name>`. A section whose name starts with a known attach kind
/// holds a program. `.text` holds the subroutines. Everything else is
/// ignored.
#[verifier::opaque]
pub open spec fn add_section(
    s: Seq<u8>,
    sections: Seq<SectionHeader>,
    strndx: int,
    i: int,
    acc: ObjectModel,
) -> Result<ObjectModel, ParseError> {
    let sh = sections[i];
    match spec_section_name(s, sections, strndx, i) {
        None => Err(ParseError::InvalidSectionName),
        Some(name) => {
            if sh.kind == SHT_REL {
                if sh.size % (RELOCATION_SIZE as u64) != 0 {
                    Err(ParseError::InvalidRelocationTable)
                } else {
                    Ok(
                        ObjectModel {
                            relocations: acc.relocations.push(
                                RelocationsModel {
                                    section_index: sh.info as usize,
                                    entries: spec_relocations(s, sh),
                                },
                            ),
                            ..acc
                        },
                    )
                }
            } else if sh.kind == SHT_NOBITS {
                if !is_data_section(name) {
                    Ok(acc)
                } else if sh.size > u32::MAX {
                    Err(ParseError::InvalidMapDefinition)
                } else {
                    Ok(
                        ObjectModel {
                            maps: acc.maps.push(
                                MapModel {
                                    name,
                                    def: data_map_def(name, sh.size as u32),
                                    section_index: i as usize,
                                    globals: true,
                                    data: Seq::empty(),
                                },
                            ),
                            ..acc
                        },
                    )
                }
            } else if sh.kind == SHT_PROGBITS {
                let content = s.subrange(sh.offset as int, sh.offset + sh.size);
                if is_data_section(name) {
                    if sh.size > u32::MAX {
                        Err(ParseError::InvalidMapDefinition)
                    } else {
                        Ok(
                            ObjectModel {
                                maps: acc.maps.push(
                                    MapModel {
                                        name,
                                        def: data_map_def(name, sh.size as u32),
                                        section_index: i as usize,
                                        globals: true,
                                        data: content,
                                    },
                                ),
                                ..acc
                            },
                        )
                    }
                } else if has_prefix(name, "maps/".spec_bytes()) {
                    if sh.size < MAP_DEF_SIZE {
                        Err(ParseError::InvalidMapDefinition)
                    } else {
                        Ok(
                            ObjectModel {
                                maps: acc.maps.push(
                                    MapModel {
                                        name: name.subrange(
                                            "maps/".spec_bytes().len() as int,
                                            name.len() as int,
                                        ),
                                        def: map_def_at(s, sh.offset as int),
                                        section_index: i as usize,
                                        globals: false,
                                        data: Seq::empty(),
                                    },
                                ),
                                ..acc
                            },
                        )
                    }
                } else if name == "license".spec_bytes() {
                    Ok(ObjectModel { license: content, ..acc })
                } else if name == ".BTF".spec_bytes() {
                    Ok(ObjectModel { btf: Some(content), ..acc })
                } else if name == ".BTF.ext".spec_bytes() {
                    Ok(ObjectModel { btf_ext: Some(content), ..acc })
                } else if name == ".text".spec_bytes() {
                    if sh.size % (INS_SIZE as u64) != 0 {
                        Err(ParseError::InvalidProgramCode)
                    } else {
                        Ok(
                            ObjectModel {
                                text: decode_all(content),
                                text_section: Some(i as usize),
                                ..acc
                            },
                        )
                    }
                } else {
                    match spec_section_kind(name) {
                        None => Ok(acc),
                        Some(parsed) => {
                            if sh.size % (INS_SIZE as u64) != 0 {
                                Err(ParseError::InvalidProgramCode)
                            } else {
                                Ok(
                                    ObjectModel {
                                        programs: acc.programs.push(
                                            ProgramModel {
                                                name: parsed.name,
                                                kind: parsed.kind,
                                                sleepable: parsed.sleepable,
                                                section_index: i as usize,
                                                instructions: decode_all(content),
                                            },
                                        ),
                                        ..acc
                                    },
                                )
                            }
                        },
                    }
                }
            } else {
                Ok(acc)
            }
        },
    }
}

/// The object after the first `n` sections have been added, in order. The
/// first section that is rejected rejects the object.
pub open spec fn add_sections(
    s: Seq<u8>,
    sections: Seq<SectionHeader>,
    strndx: int,
    n: int,
    symbols: Seq<Symbol>,
) -> Result<ObjectModel, ParseError>
    decreases n,
{
    if n <= 0 {
        Ok(empty_object(symbols))
    } else {
        match add_sections(s, sections, strndx, n - 1, symbols) {
            Err(e) => Err(e),
            Ok(acc) => add_section(s, sections, strndx, n - 1, acc),
        }
    }
}

/// The names of the maps, in their order.
pub open spec fn map_names(maps: Seq<MapModel>) -> Seq<Seq<u8>> {
    maps.map_values(|m: MapModel| m.name)
}

/// The names of the programs, in their order.
pub open spec fn program_names(programs: Seq<ProgramModel>) -> Seq<Seq<u8>> {
    programs.map_values(|p: ProgramModel| p.name)
}

/// Whether no two maps and no two programs of the object have one name, so
/// that a name stands for one map and for one program at most.
pub open spec fn names_distinct(obj: ObjectModel) -> bool {
    all_distinct(map_names(obj.maps)) && all_distinct(program_names(obj.programs))
}

/// The object that `s` encodes, or the reason why it encodes none. An
/// object in which two maps or two programs have the same name encodes
/// none.
pub open spec fn spec_parse(s: Seq<u8>) -> Result<ObjectModel, ParseError> {
    match spec_header(s) {
        None => Err(ParseError::InvalidHeader),
        Some(h) => {
            let sections = spec_sections(s, h);
            if !sections_fit(sections, s.len() as int) {
                Err(ParseError::InvalidSectionTable)
            } else {
                match spec_symbols(s, sections) {
                    Err(e) => Err(e),
                    Ok(symbols) => match add_sections(
                        s,
                        sections,
                        h.shstrndx as int,
                        sections.len() as int,
                        symbols,
                    ) {
                        Err(e) => Err(e),
                        Ok(obj) => if names_distinct(obj) {
                            Ok(obj)
                        } else {
                            Err(ParseError::DuplicateName)
                        },
                    },
                }
            }
        },
    }
}

/// Reads the header.
pub fn read_header(data: &[u8]) -> (r: Option<ElfHeader>)
    ensures
        r == spec_header(data@),
{
    let total: usize = data.len();
    if total < ELF_HEADER_SIZE || data[0] != 0x7f || data[1] != 0x45 || data[2] != 0x4c || data[3]
        != 0x46 || data[4] != 2 || data[5] != 1 {
        return None;
    }
    let shentsize: u16 = read_u16(data, 58);
    if shentsize != 64 {
        return None;
    }
    let shoff: u64 = read_u64(data, 40);
    let shnum: u16 = read_u16(data, 60);
    let shstrndx: u16 = read_u16(data, 62);
    if shstrndx >= shnum {
        return None;
    }
    let table: u64 = 64 * (shnum as u64);
    if shoff > total as u64 || table > total as u64 - shoff {
        return None;
    }
    Some(ElfHeader { shoff: shoff as usize, shnum: shnum as usize, shstrndx: shstrndx as usize })
}

/// Reads entry `i` of the section table.
pub fn read_section(data: &[u8], h: &ElfHeader, i: usize) -> (r: SectionHeader)
    requires
        spec_header(data@) == Some(*h),
        i < h.shnum,
    ensures
        r == spec_section(data@, *h, i as int),
{
    let total: usize = data.len();
    let base: usize = h.shoff + 64 * i;
    SectionHeader {
        name_off: read_u32(data, base),
        kind: read_u32(data, base + 4),
        offset: read_u64(data, base + 24),
        size: read_u64(data, base + 32),
        link: read_u32(data, base + 40),
        info: read_u32(data, base + 44),
    }
}

/// Reads the section table; `None` where a section's contents reach beyond
/// the end of the file.
pub fn read_sections(data: &[u8], h: &ElfHeader) -> (r: Option<Vec<SectionHeader>>)
    requires
        spec_header(data@) == Some(*h),
    ensures
        r is Some <==> sections_fit(spec_sections(data@, *h), data@.len() as int),
        r is Some ==> r->Some_0@ == spec_sections(data@, *h),
{
    let total: usize = data.len();
    let mut out: Vec<SectionHeader> = Vec::new();
    let mut i: usize = 0;
    while i < h.shnum
        invariant
            spec_header(data@) == Some(*h),
            total == data@.len(),
            i <= h.shnum,
            out@.len() == i,
            forall|j: int| 0 <= j < i ==> out@[j] == spec_section(data@, *h, j),
            forall|j: int| 0 <= j < i ==> (#[trigger] spec_sections(data@, *h)[j]).fits(total as int),
        decreases h.shnum - i,
    {
        let sh: SectionHeader = read_section(data, h, i);
        if sh.kind != SHT_NOBITS && (sh.offset > total as u64 || sh.size > total as u64
            - sh.offset) {
            assert(!spec_sections(data@, *h)[i as int].fits(total as int));
            return None;
        }
        out.push(sh);
        i = i + 1;
    }
    Some(out)
}

/// Finds the first symbol table.
pub fn find_symtab(sections: &Vec<SectionHeader>) -> (r: usize)
    ensures
        r == symtab_index(sections@),
        is_first_where(sections@, is_symtab(), r as int),
{
    let mut i: usize = 0;
    while i < sections.len() && sections[i].kind != SHT_SYMTAB
        invariant
            i <= sections@.len(),
            forall|j: int| 0 <= j < i ==> !is_symtab()(#[trigger] sections@[j]),
        decreases sections@.len() - i,
    {
        i = i + 1;
    }
    proof {
        lemma_first_where(sections@, is_symtab(), i as int);
    }
    i
}

/// Reads the symbols of the first symbol table.
pub fn read_symbols(data: &[u8], sections: &Vec<SectionHeader>) -> (r: Result<
    Vec<Symbol>,
    ParseError,
>)
    requires
        sections_fit(sections@, data@.len() as int),
    ensures
        r is Ok <==> spec_symbols(data@, sections@) is Ok,
        r is Ok ==> r->Ok_0@ == spec_symbols(data@, sections@)->Ok_0,
        r is Err ==> r->Err_0 == spec_symbols(data@, sections@)->Err_0,
{
    let total: usize = data.len();
    let at: usize = find_symtab(sections);
    let mut out: Vec<Symbol> = Vec::new();
    if at >= sections.len() {
        return Ok(out);
    }
    let sh: SectionHeader = sections[at];
    if sh.size % 24 != 0 {
        return Err(ParseError::InvalidSymbolTable);
    }
    let base: usize = sh.offset as usize;
    let n: usize = (sh.size / 24) as usize;
    let mut j: usize = 0;
    while j < n
        invariant
            total == data@.len(),
            base == sh.offset,
            n == sh.size / 24,
            sh.size % 24 == 0,
            sh.offset + sh.size <= total,
            j <= n,
            out@.len() == j,
            forall|k: int| 0 <= k < j ==> out@[k] == symbol_at(data@, sh.offset + SYMBOL_SIZE * k),
        decreases n - j,
    {
        let off: usize = base + 24 * j;
        out.push(
            Symbol {
                section_index: read_u16(data, off + 6) as usize,
                address: read_u64(data, off + 8),
            },
        );
        j = j + 1;
    }
    Ok(out)
}

/// Reads the entries of the relocation table that section `sh` holds.
pub fn read_relocations(data: &[u8], sh: &SectionHeader) -> (r: Vec<Relocation>)
    requires
        sh.offset + sh.size <= data@.len(),
        sh.size % (RELOCATION_SIZE as u64) == 0,
    ensures
        r@ == spec_relocations(data@, *sh),
{
    let total: usize = data.len();
    let base: usize = sh.offset as usize;
    let n: usize = (sh.size / 16) as usize;
    let mut out: Vec<Relocation> = Vec::new();
    let mut j: usize = 0;
    while j < n
        invariant
            total == data@.len(),
            base == sh.offset,
            n == sh.size / 16,
            sh.size % 16 == 0,
            sh.offset + sh.size <= total,
            j <= n,
            out@.len() == j,
            forall|k: int|
                0 <= k < j ==> out@[k] == relocation_at(data@, sh.offset + RELOCATION_SIZE * k),
        decreases n - j,
    {
        let off: usize = base + 16 * j;
        out.push(
            Relocation {
                offset: read_u64(data, off),
                symbol_index: read_u32(data, off + 12) as usize,
            },
        );
        j = j + 1;
    }
    out
}

/// Reads the map definition at byte offset `off`.
pub fn read_map_def(data: &[u8], off: usize) -> (r: MapDef)
    requires
        in_bounds(data@.len() as int, off as int, MAP_DEF_SIZE as int),
    ensures
        r == map_def_at(data@, off as int),
{
    let total: usize = data.len();
    MapDef {
        map_type: read_u32(data, off),
        key_size: read_u32(data, off + 4),
        value_size: read_u32(data, off + 8),
        max_entries: read_u32(data, off + 12),
        map_flags: read_u32(data, off + 16),
        id: read_u32(data, off + 20),
        pinning: read_u32(data, off + 24),
    }
}

/// Whether a section of this name holds global variables.
pub fn data_section(name: &[u8]) -> (r: bool)
    ensures
        r == is_data_section(name@),
{
    starts_with(name, ".bss".as_bytes()) || starts_with(name, ".data".as_bytes()) || starts_with(
        name,
        ".rodata".as_bytes(),
    )
}

/// Builds the definition of the map that stands for a section of global
/// variables.
pub fn make_data_map_def(name: &[u8], size: u32) -> (r: MapDef)
    ensures
        r == data_map_def(name@, size),
{
    let flags: u32 = if starts_with(name, ".rodata".as_bytes()) {
        BPF_F_RDONLY_PROG
    } else {
        0
    };
    MapDef {
        map_type: BPF_MAP_TYPE_ARRAY,
        key_size: 4,
        value_size: size,
        max_entries: 1,
        map_flags: flags,
        id: 0,
        pinning: 0,
    }
}

/// The attach kind that the two parts of a section name stand for.
pub fn kind_of(base: &[u8], target: &[u8]) -> (r: Option<ProgramKind>)
    ensures
        r == spec_kind(base@, target@),
{
    if bytes_eq(base, "kprobe".as_bytes()) {
        Some(ProgramKind::KProbe)
    } else if bytes_eq(base, "kretprobe".as_bytes()) {
        Some(ProgramKind::KRetProbe)
    } else if bytes_eq(base, "uprobe".as_bytes()) {
        Some(ProgramKind::UProbe)
    } else if bytes_eq(base, "uretprobe".as_bytes()) {
        Some(ProgramKind::URetProbe)
    } else if bytes_eq(base, "tracepoint".as_bytes()) {
        Some(ProgramKind::TracePoint)
    } else if bytes_eq(base, "raw_tracepoint".as_bytes()) {
        Some(ProgramKind::RawTracePoint)
    } else if bytes_eq(base, "socket_filter".as_bytes()) {
        Some(ProgramKind::SocketFilter)
    } else if bytes_eq(base, "xdp".as_bytes()) {
        Some(ProgramKind::Xdp)
    } else if bytes_eq(base, "sk_msg".as_bytes()) {
        Some(ProgramKind::SkMsg)
    } else if bytes_eq(base, "sk_skb".as_bytes()) {
        if bytes_eq(target, "stream_parser".as_bytes()) {
            Some(ProgramKind::SkSkbStreamParser)
        } else if bytes_eq(target, "stream_verdict".as_bytes()) {
            Some(ProgramKind::SkSkbStreamVerdict)
        } else {
            None
        }
    } else if bytes_eq(base, "sockops".as_bytes()) {
        Some(ProgramKind::SockOps)
    } else if bytes_eq(base, "classifier".as_bytes()) {
        Some(ProgramKind::SchedClassifier)
    } else if bytes_eq(base, "lsm".as_bytes()) {
        Some(ProgramKind::Lsm)
    } else if bytes_eq(base, "fentry".as_bytes()) {
        Some(ProgramKind::FEntry)
    } else if bytes_eq(base, "fexit".as_bytes()) {
        Some(ProgramKind::FExit)
    } else if bytes_eq(base, "iter".as_bytes()) {
        Some(ProgramKind::Iter)
    } else {
        None
    }
}

/// Reads a section name of the form `<kind>[.s]/<target>` or `<kind>[.s]`.
pub fn parse_section_name(name: &[u8]) -> (r: Option<SectionName>)
    ensures
        r is Some <==> spec_section_kind(name@) is Some,
        r is Some ==> r->Some_0@ == spec_section_kind(name@)->Some_0,
{
    let total: usize = name.len();
    let cut: usize = position(name, 0x2f);
    let prefix: Vec<u8> = copy_range(name, 0, cut);
    let target: Vec<u8> = if cut < total {
        copy_range(name, cut + 1, total - cut - 1)
    } else {
        Vec::new()
    };
    let sleepable: bool = ends_with(prefix.as_slice(), ".s".as_bytes());
    let base: Vec<u8> = if sleepable {
        copy_range(prefix.as_slice(), 0, prefix.len() - ".s".as_bytes().len())
    } else {
        prefix
    };
    match kind_of(base.as_slice(), target.as_slice()) {
        Some(kind) => {
            let program: Vec<u8> = if cut < total {
                target
            } else {
                copy_range(name, 0, total)
            };
            assert(name@.subrange(0, name@.len() as int) =~= name@);
            Some(SectionName { kind, sleepable, name: program })
        },
        None => None,
    }
}

/// Copies a byte string.
pub fn copy_bytes(v: &Vec<u8>) -> (r: Vec<u8>)
    ensures
        r@ == v@,
{
    let r = copy_range(v.as_slice(), 0, v.len());
    r
}

impl ObjMap {
    /// A copy of the map.
    pub fn copy(&self) -> (r: ObjMap)
        ensures
            r@ == self@,
    {
        ObjMap {
            name: copy_bytes(&self.name),
            def: self.def,
            section_index: self.section_index,
            globals: self.globals,
            data: copy_bytes(&self.data),
        }
    }
}

impl ObjProgram {
    /// A copy of the program.
    pub fn copy(&self) -> (r: ObjProgram)
        ensures
            r@ == self@,
    {
        let mut instructions: Vec<Instruction> = Vec::new();
        let mut i: usize = 0;
        while i < self.instructions.len()
            invariant
                i <= self.instructions@.len(),
                instructions@ == self.instructions@.take(i as int),
            decreases self.instructions@.len() - i,
        {
            instructions.push(self.instructions[i]);
            i = i + 1;
        }
        assert(self.instructions@.take(self.instructions@.len() as int) =~= self.instructions@);
        ObjProgram {
            name: copy_bytes(&self.name),
            kind: self.kind,
            sleepable: self.sleepable,
            section_index: self.section_index,
            instructions,
        }
    }
}

/// Reads the name of section `i`.
pub fn read_section_name(data: &[u8], sections: &Vec<SectionHeader>, strndx: usize, i: usize) -> (r:
    Option<Vec<u8>>)
    requires
        strndx < sections@.len(),
        i < sections@.len(),
    ensures
        r is Some <==> spec_section_name(data@, sections@, strndx as int, i as int) is Some,
        r is Some ==> r->Some_0@ == spec_section_name(
            data@,
            sections@,
            strndx as int,
            i as int,
        )->Some_0,
{
    let total: usize = data.len();
    let names: SectionHeader = sections[strndx];
    let name_off: u32 = sections[i].name_off;
    if names.offset > total as u64 || names.size > total as u64 - names.offset {
        return None;
    }
    if name_off as u64 >= names.size {
        return None;
    }
    let start: usize = (names.offset + name_off as u64) as usize;
    let end: usize = (names.offset + names.size) as usize;
    read_c_str(data, start, end)
}

impl Object {
    /// An object without maps, programs and relocations.
    pub fn new(symbols: Vec<Symbol>) -> (r: Object)
        ensures
            r@ == empty_object(symbols@),
    {
        let r = Object {
            maps: Vec::new(),
            programs: Vec::new(),
            text: Vec::new(),
            text_section: None,
            relocations: Vec::new(),
            symbols,
            license: Vec::new(),
            btf: None,
            btf_ext: None,
        };
        assert(r@.maps =~= Seq::<MapModel>::empty());
        assert(r@.programs =~= Seq::<ProgramModel>::empty());
        assert(r@.relocations =~= Seq::<RelocationsModel>::empty());
        r
    }

    fn push_map(&mut self, map: ObjMap)
        ensures
            final(self)@ == (ObjectModel { maps: old(self)@.maps.push(map@), ..old(self)@ }),
    {
        self.maps.push(map);
        assert(self@.maps =~= old(self)@.maps.push(map@));
    }

    fn push_program(&mut self, program: ObjProgram)
        ensures
            final(self)@ == (ObjectModel {
                programs: old(self)@.programs.push(program@),
                ..old(self)@
            }),
    {
        self.programs.push(program);
        assert(self@.programs =~= old(self)@.programs.push(program@));
    }

    fn push_relocations(&mut self, table: SectionRelocations)
        ensures
            final(self)@ == (ObjectModel {
                relocations: old(self)@.relocations.push(table@),
                ..old(self)@
            }),
    {
        self.relocations.push(table);
        assert(self@.relocations =~= old(self)@.relocations.push(table@));
    }

    /// Adds section `i` to the object.
    #[verifier::rlimit(40)]
    pub fn add_section(
        &mut self,
        data: &[u8],
        sections: &Vec<SectionHeader>,
        strndx: usize,
        i: usize,
    ) -> (r: Result<(), ParseError>)
        requires
            sections_fit(sections@, data@.len() as int),
            strndx < sections@.len(),
            i < sections@.len(),
        ensures
            r is Ok <==> add_section(data@, sections@, strndx as int, i as int, old(self)@) is Ok,
            r is Ok ==> final(self)@ == add_section(
                data@,
                sections@,
                strndx as int,
                i as int,
                old(self)@,
            )->Ok_0,
            r is Err ==> r->Err_0 == add_section(
                data@,
                sections@,
                strndx as int,
                i as int,
                old(self)@,
            )->Err_0,
    {
        reveal(add_section);
        let total: usize = data.len();
        let sh: SectionHeader = sections[i];
        assert(sections@[i as int].fits(total as int));
        let name: Vec<u8> = match read_section_name(data, sections, strndx, i) {
            Some(name) => name,
            None => {
                return Err(ParseError::InvalidSectionName);
            },
        };
        if sh.kind == SHT_REL {
            if sh.size % 16 != 0 {
                return Err(ParseError::InvalidRelocationTable);
            }
            let entries: Vec<Relocation> = read_relocations(data, &sh);
            self.push_relocations(SectionRelocations { section_index: sh.info as usize, entries });
            Ok(())
        } else if sh.kind == SHT_NOBITS {
            if !data_section(name.as_slice()) {
                return Ok(());
            }
            if sh.size > u32::MAX as u64 {
                return Err(ParseError::InvalidMapDefinition);
            }
            let def: MapDef = make_data_map_def(name.as_slice(), sh.size as u32);
            let empty: Vec<u8> = Vec::new();
            assert(empty@ =~= Seq::<u8>::empty());
            self.push_map(ObjMap { name, def, section_index: i, globals: true, data: empty });
            Ok(())
        } else if sh.kind == SHT_PROGBITS {
            let off: usize = sh.offset as usize;
            let size: usize = sh.size as usize;
            if data_section(name.as_slice()) {
                if sh.size > u32::MAX as u64 {
                    return Err(ParseError::InvalidMapDefinition);
                }
                let def: MapDef = make_data_map_def(name.as_slice(), sh.size as u32);
                let content: Vec<u8> = copy_range(data, off, size);
                self.push_map(
                    ObjMap { name, def, section_index: i, globals: true, data: content },
                );
                Ok(())
            } else if starts_with(name.as_slice(), "maps/".as_bytes()) {
                if size < MAP_DEF_SIZE {
                    return Err(ParseError::InvalidMapDefinition);
                }
                let def: MapDef = read_map_def(data, off);
                let skip: usize = "maps/".as_bytes().len();
                let short: Vec<u8> = copy_range(name.as_slice(), skip, name.len() - skip);
                let empty: Vec<u8> = Vec::new();
                assert(empty@ =~= Seq::<u8>::empty());
                self.push_map(
                    ObjMap { name: short, def, section_index: i, globals: false, data: empty },
                );
                Ok(())
            } else if bytes_eq(name.as_slice(), "license".as_bytes()) {
                self.license = copy_range(data, off, size);
                Ok(())
            } else if bytes_eq(name.as_slice(), ".BTF".as_bytes()) {
                self.btf = Some(copy_range(data, off, size));
                Ok(())
            } else if bytes_eq(name.as_slice(), ".BTF.ext".as_bytes()) {
                self.btf_ext = Some(copy_range(data, off, size));
                Ok(())
            } else if bytes_eq(name.as_slice(), ".text".as_bytes()) {
                let content: Vec<u8> = copy_range(data, off, size);
                match copy_instructions(content.as_slice()) {
                    None => Err(ParseError::InvalidProgramCode),
                    Some(text) => {
                        self.text = text;
                        self.text_section = Some(i);
                        Ok(())
                    },
                }
            } else {
                match parse_section_name(name.as_slice()) {
                    None => Ok(()),
                    Some(parsed) => {
                        let content: Vec<u8> = copy_range(data, off, size);
                        match copy_instructions(content.as_slice()) {
                            None => Err(ParseError::InvalidProgramCode),
                            Some(instructions) => {
                                self.push_program(
                                    ObjProgram {
                                        name: parsed.name,
                                        kind: parsed.kind,
                                        sleepable: parsed.sleepable,
                                        section_index: i,
                                        instructions,
                                    },
                                );
                                Ok(())
                            },
                        }
                    },
                }
            }
        } else {
            Ok(())
        }
    }

    /// Parses an object.
    ///
    /// The result is the object that `spec_parse` describes. An object that
    /// is rejected is rejected as a whole.
    #[verifier::rlimit(40)]
    pub fn parse(data: &[u8]) -> (r: Result<Object, ParseError>)
        ensures
            r is Ok <==> spec_parse(data@) is Ok,
            r is Ok ==> r->Ok_0@ == spec_parse(data@)->Ok_0,
            r is Err ==> r->Err_0 == spec_parse(data@)->Err_0,
    {
        let h: ElfHeader = match read_header(data) {
            Some(h) => h,
            None => {
                return Err(ParseError::InvalidHeader);
            },
        };
        let sections: Vec<SectionHeader> = match read_sections(data, &h) {
            Some(sections) => sections,
            None => {
                return Err(ParseError::InvalidSectionTable);
            },
        };
        let symbols: Vec<Symbol> = match read_symbols(data, &sections) {
            Ok(symbols) => symbols,
            Err(e) => {
                return Err(e);
            },
        };
        let ghost syms = symbols@;
        let mut obj: Object = Object::new(symbols);
        let mut i: usize = 0;
        while i < sections.len()
            invariant
                spec_header(data@) == Some(h),
                sections@ == spec_sections(data@, h),
                spec_symbols(data@, sections@) == Ok::<Seq<Symbol>, ParseError>(syms),
                sections_fit(sections@, data@.len() as int),
                h.shstrndx < sections@.len(),
                i <= sections@.len(),
                add_sections(data@, sections@, h.shstrndx as int, i as int, syms) == Ok::<
                    ObjectModel,
                    ParseError,
                >(obj@),
            decreases sections@.len() - i,
        {
            match obj.add_section(data, &sections, h.shstrndx, i) {
                Ok(()) => {},
                Err(e) => {
                    proof {
                        lemma_add_sections_err(
                            data@,
                            sections@,
                            h.shstrndx as int,
                            i + 1,
                            sections@.len() as int,
                            syms,
                        );
                    }
                    return Err(e);
                },
            }
            i = i + 1;
        }
        if !obj.names_distinct() {
            return Err(ParseError::DuplicateName);
        }
        Ok(obj)
    }

    /// Whether no two maps and no two programs have one name.
    pub fn names_distinct(&self) -> (r: bool)
        ensures
            r == names_distinct(self@),
    {
        let mut maps: Vec<Vec<u8>> = Vec::new();
        let mut i: usize = 0;
        while i < self.maps.len()
            invariant
                i <= self.maps@.len(),
                maps@.len() == i,
                forall|k: int| 0 <= k < i ==> (#[trigger] maps@[k])@ == self.maps@[k].name@,
            decreases self.maps@.len() - i,
        {
            maps.push(copy_bytes(&self.maps[i].name));
            i = i + 1;
        }
        assert(views(maps@) =~= map_names(self@.maps)) by {
            assert forall|k: int| 0 <= k < maps@.len() implies views(maps@)[k] == map_names(
                self@.maps,
            )[k] by {
                assert(self@.maps[k] == self.maps@[k]@);
            }
        }
        let mut programs: Vec<Vec<u8>> = Vec::new();
        let mut j: usize = 0;
        while j < self.programs.len()
            invariant
                j <= self.programs@.len(),
                programs@.len() == j,
                forall|k: int|
                    0 <= k < j ==> (#[trigger] programs@[k])@ == self.programs@[k].name@,
            decreases self.programs@.len() - j,
        {
            programs.push(copy_bytes(&self.programs[j].name));
            j = j + 1;
        }
        assert(views(programs@) =~= program_names(self@.programs)) by {
            assert forall|k: int| 0 <= k < programs@.len() implies views(programs@)[k]
                == program_names(self@.programs)[k] by {
                assert(self@.programs[k] == self.programs@[k]@);
            }
        }
        distinct(&maps) && distinct(&programs)
    }
}

/// Once a section has been rejected, adding further sections does not change
/// the error.
pub proof fn lemma_add_sections_err(
    s: Seq<u8>,
    sections: Seq<SectionHeader>,
    strndx: int,
    k: int,
    n: int,
    symbols: Seq<Symbol>,
)
    requires
        0 <= k <= n,
        add_sections(s, sections, strndx, k, symbols) is Err,
    ensures
        add_sections(s, sections, strndx, n, symbols) == add_sections(
            s,
            sections,
            strndx,
            k,
            symbols,
        ),
    decreases n - k,
{
    if k < n {
        lemma_add_sections_err(s, sections, strndx, k, n - 1, symbols);
    }
}

} // verus!
