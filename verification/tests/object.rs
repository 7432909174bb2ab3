use aya::bpf::{Bpf, BpfError, Host, MapReply, MapWalk};
use aya::loader::{Loader, Request};
use aya::obj::btf::{Btf, BtfError, BtfKind, BtfType, FieldRelocation};
use aya::obj::insn::{
    copy_instructions, encode_instructions, Instruction, BPF_CALL, BPF_LD_IMM64,
};
use aya::programs::links::{Link, LinkId, PerfLink};
use aya::maps::{MapError, MapKind};
use aya::obj::{MapDef, Object, ParseError, ProgramKind};
use aya::programs::{Program, ProgramError, ProgramState};
use aya::obj::relocation::{MapSlot, RelocationCause, RelocationError};
use aya::sys::{SysError, Syscall, SyscallError};

const SHT_PROGBITS: u32 = 1;
const SHT_NOBITS: u32 = 8;
const SHT_REL: u32 = 9;

struct Section {
    name: &'static str,
    kind: u32,
    data: Vec<u8>,
    size: u64,
    info: u32,
}

fn progbits(name: &'static str, data: Vec<u8>) -> Section {
    let size = data.len() as u64;
    Section { name, kind: SHT_PROGBITS, data, size, info: 0 }
}

fn nobits(name: &'static str, size: u64) -> Section {
    Section { name, kind: SHT_NOBITS, data: Vec::new(), size, info: 0 }
}

fn rel(name: &'static str, target: u32, entries: &[(u64, u32)]) -> Section {
    let mut data = Vec::new();
    for (offset, symbol) in entries {
        data.extend_from_slice(&offset.to_le_bytes());
        data.extend_from_slice(&1u32.to_le_bytes());
        data.extend_from_slice(&symbol.to_le_bytes());
    }
    let size = data.len() as u64;
    Section { name, kind: SHT_REL, data, size, info: target }
}

fn ins(code: u8, dst: u8, src: u8, off: i16, imm: i32) -> Vec<u8> {
    let mut out = vec![code, dst | (src << 4)];
    out.extend_from_slice(&off.to_le_bytes());
    out.extend_from_slice(&imm.to_le_bytes());
    out
}

fn code(instructions: &[Vec<u8>]) -> Vec<u8> {
    instructions.iter().flatten().copied().collect()
}

fn map_def(map_type: u32, key_size: u32, value_size: u32, max_entries: u32) -> Vec<u8> {
    let mut out = Vec::new();
    for v in [map_type, key_size, value_size, max_entries, 0, 0, 0] {
        out.extend_from_slice(&v.to_le_bytes());
    }
    out
}

fn section_header(name: u32, kind: u32, offset: u64, size: u64, link: u32, info: u32) -> Vec<u8> {
    let mut out = Vec::new();
    out.extend_from_slice(&name.to_le_bytes());
    out.extend_from_slice(&kind.to_le_bytes());
    out.extend_from_slice(&0u64.to_le_bytes());
    out.extend_from_slice(&0u64.to_le_bytes());
    out.extend_from_slice(&offset.to_le_bytes());
    out.extend_from_slice(&size.to_le_bytes());
    out.extend_from_slice(&link.to_le_bytes());
    out.extend_from_slice(&info.to_le_bytes());
    out.extend_from_slice(&0u64.to_le_bytes());
    out.extend_from_slice(&0u64.to_le_bytes());
    out
}

/// Section 0 is the null section, the given sections follow from index 1,
/// and the symbol table and the section names come last. Symbol 0 is the
/// null symbol; the given symbols follow from index 1.
fn build_elf(sections: &[Section], symbols: &[(u16, u64)]) -> Vec<u8> {
    let mut names = vec![0u8];
    let mut name_offsets = Vec::new();
    for s in sections {
        name_offsets.push(names.len() as u32);
        names.extend_from_slice(s.name.as_bytes());
        names.push(0);
    }
    let symtab_name = names.len() as u32;
    names.extend_from_slice(b".symtab\0");
    let strtab_name = names.len() as u32;
    names.extend_from_slice(b".shstrtab\0");

    let mut symtab = vec![0u8; 24];
    for (shndx, value) in symbols {
        symtab.extend_from_slice(&0u32.to_le_bytes());
        symtab.push(0);
        symtab.push(0);
        symtab.extend_from_slice(&shndx.to_le_bytes());
        symtab.extend_from_slice(&value.to_le_bytes());
        symtab.extend_from_slice(&0u64.to_le_bytes());
    }

    let mut body = vec![0u8; 64];
    let mut headers = vec![section_header(0, 0, 0, 0, 0, 0)];
    for (s, name) in sections.iter().zip(name_offsets) {
        let offset = body.len() as u64;
        body.extend_from_slice(&s.data);
        headers.push(section_header(name, s.kind, offset, s.size, 0, s.info));
    }
    let offset = body.len() as u64;
    body.extend_from_slice(&symtab);
    headers.push(section_header(symtab_name, 2, offset, symtab.len() as u64, 0, 0));
    let offset = body.len() as u64;
    body.extend_from_slice(&names);
    headers.push(section_header(strtab_name, 3, offset, names.len() as u64, 0, 0));

    let shoff = body.len() as u64;
    let shnum = headers.len() as u16;
    for h in headers {
        body.extend_from_slice(&h);
    }
    body[0..4].copy_from_slice(&[0x7f, b'E', b'L', b'F']);
    body[4] = 2;
    body[5] = 1;
    body[6] = 1;
    body[16..18].copy_from_slice(&1u16.to_le_bytes());
    body[18..20].copy_from_slice(&247u16.to_le_bytes());
    body[40..48].copy_from_slice(&shoff.to_le_bytes());
    body[52..54].copy_from_slice(&64u16.to_le_bytes());
    body[58..60].copy_from_slice(&64u16.to_le_bytes());
    body[60..62].copy_from_slice(&shnum.to_le_bytes());
    body[62..64].copy_from_slice(&(shnum - 1).to_le_bytes());
    body
}

fn created(fd: i32) -> MapReply {
    MapReply { created: Ok(fd), seeded: Ok(()) }
}

fn host(possible_cpus: u32, maps: Vec<MapReply>) -> Host {
    Host { possible_cpus, maps }
}

fn exit() -> Vec<u8> {
    ins(0x95, 0, 0, 0, 0)
}

/// Map "COUNTS" in section 1, program "count_opens" in section 2 with a
/// reference to the map at its first instruction pair.
fn counting_object() -> Vec<u8> {
    build_elf(
        &[
            progbits("maps/COUNTS", map_def(1, 4, 8, 1024)),
            progbits(
                "kprobe/count_opens",
                code(&[ins(BPF_LD_IMM64, 1, 0, 0, 0), ins(0, 0, 0, 0, 0), exit()]),
            ),
            rel(".relkprobe/count_opens", 2, &[(0, 1)]),
        ],
        &[(1, 0)],
    )
}

fn borrowed() -> MapError {
    MapError::BorrowError { name: b"COUNTS".to_vec() }
}

fn error_of(r: Result<Bpf, BpfError>) -> BpfError {
    match r {
        Ok(_) => panic!("the load succeeded"),
        Err(e) => e,
    }
}

#[test]
fn parse_rejects_what_is_no_elf_file() {
    assert_eq!(Object::parse(&[]).unwrap_err(), ParseError::InvalidHeader);
    assert_eq!(Object::parse(&[0u8; 64]).unwrap_err(), ParseError::InvalidHeader);
    let mut data = counting_object();
    data[4] = 1;
    assert_eq!(Object::parse(&data).unwrap_err(), ParseError::InvalidHeader);
    let mut data = counting_object();
    data[5] = 2;
    assert_eq!(Object::parse(&data).unwrap_err(), ParseError::InvalidHeader);
}

#[test]
fn parse_rejects_a_section_table_beyond_the_file() {
    let mut data = counting_object();
    let len = data.len();
    data.truncate(len - 1);
    assert_eq!(Object::parse(&data).unwrap_err(), ParseError::InvalidHeader);
}

#[test]
fn parse_rejects_a_section_beyond_the_file() {
    let mut sections = vec![progbits("xdp", code(&[exit()]))];
    sections[0].size = 1 << 40;
    let data = build_elf(&sections, &[]);
    assert_eq!(Object::parse(&data).unwrap_err(), ParseError::InvalidSectionTable);
}

#[test]
fn parse_rejects_a_name_outside_the_name_table() {
    let mut data = build_elf(&[progbits("xdp", code(&[exit()]))], &[]);
    // The name offset of section 1 is the first field of its header.
    let shoff = u64::from_le_bytes(data[40..48].try_into().unwrap()) as usize;
    data[shoff + 64..shoff + 68].copy_from_slice(&0xffffu32.to_le_bytes());
    assert_eq!(Object::parse(&data).unwrap_err(), ParseError::InvalidSectionName);
}

#[test]
fn parse_rejects_a_ragged_symbol_table() {
    let mut data = build_elf(&[progbits("xdp", code(&[exit()]))], &[]);
    let shoff = u64::from_le_bytes(data[40..48].try_into().unwrap()) as usize;
    // Section 2 is the symbol table; its size is at offset 32 of its header.
    data[shoff + 128 + 32..shoff + 128 + 40].copy_from_slice(&23u64.to_le_bytes());
    assert_eq!(Object::parse(&data).unwrap_err(), ParseError::InvalidSymbolTable);
}

#[test]
fn parse_rejects_a_ragged_relocation_table() {
    let mut table = rel(".relxdp", 1, &[(0, 1)]);
    table.data.push(0);
    table.size += 1;
    let data = build_elf(&[progbits("xdp", code(&[exit()])), table], &[(1, 0)]);
    assert_eq!(Object::parse(&data).unwrap_err(), ParseError::InvalidRelocationTable);
}

#[test]
fn parse_rejects_a_short_map_definition() {
    let data = build_elf(&[progbits("maps/SHORT", vec![0u8; 27])], &[]);
    assert_eq!(Object::parse(&data).unwrap_err(), ParseError::InvalidMapDefinition);
}

#[test]
fn parse_rejects_ragged_program_code() {
    let data = build_elf(&[progbits("xdp", vec![0u8; 12])], &[]);
    assert_eq!(Object::parse(&data).unwrap_err(), ParseError::InvalidProgramCode);
    let data = build_elf(&[progbits(".text", vec![0u8; 9])], &[]);
    assert_eq!(Object::parse(&data).unwrap_err(), ParseError::InvalidProgramCode);
}

#[test]
fn parse_rejects_two_maps_or_two_programs_of_one_name() {
    let maps = build_elf(
        &[
            progbits("maps/A", map_def(1, 4, 4, 8)),
            progbits("maps/B", map_def(1, 4, 4, 8)),
            progbits("maps/A", map_def(2, 4, 4, 8)),
        ],
        &[],
    );
    assert_eq!(Object::parse(&maps).unwrap_err(), ParseError::DuplicateName);
    let programs = build_elf(
        &[progbits("kprobe/f", code(&[exit()])), progbits("uprobe/f", code(&[exit()]))],
        &[],
    );
    assert_eq!(Object::parse(&programs).unwrap_err(), ParseError::DuplicateName);
    assert_eq!(
        error_of(Bpf::load(&programs, None, &host(1, vec![]))),
        BpfError::ParseError(ParseError::DuplicateName)
    );
    // A map and a program may share a name.
    let mixed = build_elf(
        &[progbits("maps/f", map_def(1, 4, 4, 8)), progbits("kprobe/f", code(&[exit()]))],
        &[],
    );
    let mut bpf = Bpf::load(&mixed, None, &host(1, vec![created(3)])).unwrap();
    assert!(bpf.map("f").is_ok());
    assert!(bpf.program("f").is_ok());
}

#[test]
fn parse_reads_maps_programs_relocations_and_symbols() {
    let obj = Object::parse(&counting_object()).unwrap();
    assert_eq!(obj.maps.len(), 1);
    assert_eq!(obj.maps[0].name, b"COUNTS");
    assert_eq!(obj.maps[0].section_index, 1);
    assert_eq!(obj.maps[0].def.map_type, 1);
    assert_eq!(obj.maps[0].def.key_size, 4);
    assert_eq!(obj.maps[0].def.value_size, 8);
    assert_eq!(obj.maps[0].def.max_entries, 1024);
    assert!(!obj.maps[0].globals);
    assert!(obj.maps[0].data.is_empty());
    assert_eq!(obj.programs.len(), 1);
    assert_eq!(obj.programs[0].name, b"count_opens");
    assert_eq!(obj.programs[0].kind, ProgramKind::KProbe);
    assert!(!obj.programs[0].sleepable);
    assert_eq!(obj.programs[0].section_index, 2);
    assert_eq!(obj.programs[0].instructions.len(), 3);
    assert_eq!(
        obj.programs[0].instructions[0],
        Instruction { code: BPF_LD_IMM64, dst_reg: 1, src_reg: 0, off: 0, imm: 0 }
    );
    assert_eq!(obj.relocations.len(), 1);
    assert_eq!(obj.relocations[0].section_index, 2);
    assert_eq!(obj.relocations[0].entries.len(), 1);
    assert_eq!(obj.relocations[0].entries[0].offset, 0);
    assert_eq!(obj.relocations[0].entries[0].symbol_index, 1);
    assert_eq!(obj.symbols.len(), 2);
    assert_eq!(obj.symbols[1].section_index, 1);
    assert_eq!(obj.symbols[1].address, 0);
    assert_eq!(obj.text_section, None);
}

#[test]
fn parse_reads_the_kind_of_each_program_section() {
    let names: [(&'static str, ProgramKind, bool, &'static str); 19] = [
        ("kprobe/a", ProgramKind::KProbe, false, "a"),
        ("kretprobe/a", ProgramKind::KRetProbe, false, "a"),
        ("uprobe/a", ProgramKind::UProbe, false, "a"),
        ("uretprobe/a", ProgramKind::URetProbe, false, "a"),
        ("tracepoint/sched/fork", ProgramKind::TracePoint, false, "sched/fork"),
        ("raw_tracepoint/a", ProgramKind::RawTracePoint, false, "a"),
        ("socket_filter/a", ProgramKind::SocketFilter, false, "a"),
        ("xdp", ProgramKind::Xdp, false, "xdp"),
        ("sk_msg/a", ProgramKind::SkMsg, false, "a"),
        ("sk_skb/stream_parser", ProgramKind::SkSkbStreamParser, false, "stream_parser"),
        ("sk_skb/stream_verdict", ProgramKind::SkSkbStreamVerdict, false, "stream_verdict"),
        ("sockops/a", ProgramKind::SockOps, false, "a"),
        ("classifier/a", ProgramKind::SchedClassifier, false, "a"),
        ("lsm/file_open", ProgramKind::Lsm, false, "file_open"),
        ("lsm.s/file_open", ProgramKind::Lsm, true, "file_open"),
        ("fentry/a", ProgramKind::FEntry, false, "a"),
        ("fexit/a", ProgramKind::FExit, false, "a"),
        ("iter/tcp", ProgramKind::Iter, false, "tcp"),
        ("iter.s/task", ProgramKind::Iter, true, "task"),
    ];
    for (section, kind, sleepable, name) in names {
        let obj = Object::parse(&build_elf(&[progbits(section, code(&[exit()]))], &[])).unwrap();
        assert_eq!(obj.programs.len(), 1, "{section}");
        assert_eq!(obj.programs[0].kind, kind, "{section}");
        assert_eq!(obj.programs[0].sleepable, sleepable, "{section}");
        assert_eq!(obj.programs[0].name, name.as_bytes(), "{section}");
    }
}

#[test]
fn parse_ignores_sections_of_unknown_names() {
    let obj = Object::parse(&build_elf(
        &[
            progbits("sk_skb/other", code(&[exit()])),
            progbits(".debug_info", vec![1, 2, 3]),
            progbits("kprobes/a", code(&[exit()])),
            nobits(".other", 16),
        ],
        &[],
    ))
    .unwrap();
    assert!(obj.programs.is_empty());
    assert!(obj.maps.is_empty());
}

#[test]
fn parse_turns_global_data_into_array_maps() {
    let obj = Object::parse(&build_elf(
        &[
            progbits(".data", vec![1, 2, 3, 4, 5]),
            progbits(".rodata", vec![9, 9]),
            nobits(".bss", 48),
            progbits("license", b"GPL\0".to_vec()),
            progbits(".BTF", vec![7]),
            progbits(".BTF.ext", vec![8, 8]),
        ],
        &[],
    ))
    .unwrap();
    assert_eq!(obj.maps.len(), 3);
    assert_eq!(obj.maps[0].name, b".data");
    assert_eq!(obj.maps[0].data, vec![1, 2, 3, 4, 5]);
    assert!(obj.maps[0].globals);
    assert_eq!(obj.maps[0].def.map_type, 2);
    assert_eq!(obj.maps[0].def.key_size, 4);
    assert_eq!(obj.maps[0].def.value_size, 5);
    assert_eq!(obj.maps[0].def.max_entries, 1);
    assert_eq!(obj.maps[0].def.map_flags, 0);
    assert_eq!(obj.maps[1].name, b".rodata");
    assert_eq!(obj.maps[1].def.map_flags, 0x80);
    assert_eq!(obj.maps[1].def.value_size, 2);
    assert_eq!(obj.maps[2].name, b".bss");
    assert_eq!(obj.maps[2].def.value_size, 48);
    assert!(obj.maps[2].data.is_empty());
    assert_eq!(obj.license, b"GPL\0");
    assert_eq!(obj.btf, Some(vec![7]));
    assert_eq!(obj.btf_ext, Some(vec![8, 8]));
}

#[test]
fn instructions_decode_registers_and_signed_operands() {
    let decoded = copy_instructions(&code(&[ins(0x85, 3, 1, -2, -1), ins(0x18, 15, 15, 0x7fff, i32::MIN)]))
        .unwrap();
    assert_eq!(
        decoded[0],
        Instruction { code: 0x85, dst_reg: 3, src_reg: 1, off: -2, imm: -1 }
    );
    assert_eq!(
        decoded[1],
        Instruction { code: 0x18, dst_reg: 15, src_reg: 15, off: 0x7fff, imm: i32::MIN }
    );
    assert!(decoded[0].is_call());
    assert!(!decoded[1].is_map_load());
    assert!(copy_instructions(&[0u8; 7]).is_none());
    assert_eq!(copy_instructions(&[]).unwrap().len(), 0);
}

#[test]
fn instructions_are_decoded_from_their_encoding() {
    let program = vec![
        Instruction { code: 0x18, dst_reg: 1, src_reg: 2, off: 0, imm: 7 },
        Instruction { code: 0, dst_reg: 0, src_reg: 0, off: 0, imm: -1 },
        Instruction { code: 0x85, dst_reg: 15, src_reg: 1, off: -32768, imm: i32::MIN },
        Instruction { code: 0x95, dst_reg: 0, src_reg: 15, off: 32767, imm: i32::MAX },
    ];
    let bytes = encode_instructions(&program);
    assert_eq!(bytes.len(), 32);
    assert_eq!(&bytes[0..8], &[0x18, 0x21, 0, 0, 7, 0, 0, 0]);
    assert_eq!(&bytes[8..16], &[0, 0, 0, 0, 0xff, 0xff, 0xff, 0xff]);
    assert_eq!(&bytes[16..24], &[0x85, 0x1f, 0x00, 0x80, 0, 0, 0, 0x80]);
    assert_eq!(&bytes[24..32], &[0x95, 0xf0, 0xff, 0x7f, 0xff, 0xff, 0xff, 0x7f]);
    assert_eq!(copy_instructions(&bytes).unwrap(), program);
    assert_eq!(bytes, code(&[
        ins(0x18, 1, 2, 0, 7),
        ins(0, 0, 0, 0, -1),
        ins(0x85, 15, 1, -32768, i32::MIN),
        ins(0x95, 0, 15, 32767, i32::MAX),
    ]));
    assert!(encode_instructions(&Vec::new()).is_empty());
}

#[test]
fn relocate_maps_patches_the_handle_into_every_reference() {
    let data = build_elf(
        &[
            progbits("maps/A", map_def(1, 4, 4, 8)),
            progbits("maps/B", map_def(1, 4, 4, 8)),
            progbits(
                "xdp",
                code(&[
                    ins(BPF_LD_IMM64, 1, 0, 0, 0),
                    ins(0, 0, 0, 0, 0),
                    ins(BPF_LD_IMM64, 2, 0, 0, 0),
                    ins(0, 0, 0, 0, 0),
                    ins(BPF_LD_IMM64, 3, 0, 0, 0),
                    ins(0, 0, 0, 0, 0),
                    exit(),
                ]),
            ),
            rel(".relxdp", 3, &[(0, 1), (16, 2), (32, 1)]),
        ],
        &[(1, 0), (2, 0)],
    );
    let obj = Object::parse(&data).unwrap();
    let maps = vec![
        MapSlot { section_index: 1, fd: Some(10), globals: false },
        MapSlot { section_index: 2, fd: Some(20), globals: false },
    ];
    let obj = obj.relocate_maps(&maps).unwrap();
    let patched = &obj.programs[0].instructions;
    assert_eq!(patched[0], Instruction { code: BPF_LD_IMM64, dst_reg: 1, src_reg: 1, off: 0, imm: 10 });
    assert_eq!(patched[2], Instruction { code: BPF_LD_IMM64, dst_reg: 2, src_reg: 1, off: 0, imm: 20 });
    assert_eq!(patched[4], Instruction { code: BPF_LD_IMM64, dst_reg: 3, src_reg: 1, off: 0, imm: 10 });
    assert_eq!(patched[1], Instruction { code: 0, dst_reg: 0, src_reg: 0, off: 0, imm: 0 });
    assert_eq!(patched[6], Instruction { code: 0x95, dst_reg: 0, src_reg: 0, off: 0, imm: 0 });
}

#[test]
fn relocate_maps_patches_the_offset_of_a_global_variable() {
    let data = build_elf(
        &[
            progbits(".data", vec![0u8; 64]),
            progbits("xdp", code(&[ins(BPF_LD_IMM64, 1, 0, 0, 8), ins(0, 0, 0, 0, 0), exit()])),
            rel(".relxdp", 2, &[(0, 1)]),
        ],
        &[(1, 16)],
    );
    let obj = Object::parse(&data).unwrap();
    let maps = vec![MapSlot { section_index: 1, fd: Some(5), globals: true }];
    let obj = obj.relocate_maps(&maps).unwrap();
    let patched = &obj.programs[0].instructions;
    assert_eq!(patched[0], Instruction { code: BPF_LD_IMM64, dst_reg: 1, src_reg: 2, off: 0, imm: 5 });
    assert_eq!(patched[1], Instruction { code: 0, dst_reg: 0, src_reg: 0, off: 0, imm: 24 });
}

fn relocation_error(data: &[u8], maps: &Vec<MapSlot>) -> RelocationError {
    match Object::parse(data).unwrap().relocate_maps(maps) {
        Ok(_) => panic!("the relocation succeeded"),
        Err(e) => e,
    }
}

#[test]
fn relocate_maps_reports_each_cause() {
    let load = code(&[ins(BPF_LD_IMM64, 1, 0, 0, 0), ins(0, 0, 0, 0, 0), exit()]);
    let one_map = vec![MapSlot { section_index: 1, fd: Some(3), globals: false }];

    let beyond = build_elf(
        &[progbits("maps/A", map_def(1, 4, 4, 8)), progbits("xdp", load.clone()), rel(".relxdp", 2, &[(24, 1)])],
        &[(1, 0)],
    );
    assert_eq!(
        relocation_error(&beyond, &one_map),
        RelocationError { section_index: 2, symbol: 1, cause: RelocationCause::InvalidOffset }
    );

    let no_symbol = build_elf(
        &[progbits("maps/A", map_def(1, 4, 4, 8)), progbits("xdp", load.clone()), rel(".relxdp", 2, &[(0, 7)])],
        &[(1, 0)],
    );
    assert_eq!(
        relocation_error(&no_symbol, &one_map),
        RelocationError { section_index: 2, symbol: 7, cause: RelocationCause::UnknownSymbol }
    );

    let undefined = build_elf(
        &[progbits("maps/A", map_def(1, 4, 4, 8)), progbits("xdp", load.clone()), rel(".relxdp", 2, &[(0, 1)])],
        &[(0, 0)],
    );
    assert_eq!(
        relocation_error(&undefined, &one_map),
        RelocationError { section_index: 2, symbol: 1, cause: RelocationCause::SectionNotFound }
    );

    let defined = build_elf(
        &[progbits("maps/A", map_def(1, 4, 4, 8)), progbits("xdp", load.clone()), rel(".relxdp", 2, &[(0, 1)])],
        &[(1, 0)],
    );
    assert_eq!(
        relocation_error(&defined, &vec![MapSlot { section_index: 1, fd: None, globals: false }]),
        RelocationError { section_index: 2, symbol: 1, cause: RelocationCause::MapNotCreated }
    );

    let no_load = build_elf(
        &[
            progbits("maps/A", map_def(1, 4, 4, 8)),
            progbits("xdp", code(&[exit(), exit()])),
            rel(".relxdp", 2, &[(0, 1)]),
        ],
        &[(1, 0)],
    );
    assert_eq!(
        relocation_error(&no_load, &one_map),
        RelocationError { section_index: 2, symbol: 1, cause: RelocationCause::InvalidInstruction }
    );

    let half = build_elf(
        &[
            progbits("maps/A", map_def(1, 4, 4, 8)),
            progbits("xdp", code(&[ins(BPF_LD_IMM64, 1, 0, 0, 0)])),
            rel(".relxdp", 2, &[(0, 1)]),
        ],
        &[(1, 0)],
    );
    assert_eq!(
        relocation_error(&half, &one_map),
        RelocationError { section_index: 2, symbol: 1, cause: RelocationCause::InvalidInstruction }
    );

    let far = build_elf(
        &[
            progbits(".data", vec![0u8; 8]),
            progbits("xdp", code(&[ins(BPF_LD_IMM64, 1, 0, 0, i32::MAX), ins(0, 0, 0, 0, 0)])),
            rel(".relxdp", 2, &[(0, 1)]),
        ],
        &[(1, 1)],
    );
    assert_eq!(
        relocation_error(&far, &vec![MapSlot { section_index: 1, fd: Some(3), globals: true }]),
        RelocationError { section_index: 2, symbol: 1, cause: RelocationCause::InvalidOffset }
    );
}

/// Subroutines in section 1: `f` at instruction 0 and `g` at instruction 2;
/// `f` calls `g`. Programs in sections 2 and 3: the first calls `g`, the
/// second calls nothing.
fn calling_object() -> Vec<u8> {
    build_elf(
        &[
            progbits(
                ".text",
                code(&[ins(BPF_CALL, 0, 1, 0, -1), exit(), ins(0xb7, 0, 0, 0, 7), exit()]),
            ),
            progbits(
                "xdp/first",
                code(&[ins(0xb7, 1, 0, 0, 0), ins(BPF_CALL, 0, 1, 0, -1), exit()]),
            ),
            progbits("xdp/second", code(&[ins(0xb7, 0, 0, 0, 2), exit()])),
            rel(".rel.text", 1, &[(0, 2)]),
            rel(".relxdp/first", 2, &[(8, 2)]),
        ],
        &[(1, 0), (1, 16)],
    )
}

#[test]
fn relocate_calls_links_the_subroutines_behind_the_caller() {
    let obj = Object::parse(&calling_object()).unwrap().relocate_calls().unwrap();
    // Among the subroutines `f` at 0 calls `g` at 2: 2 - (0 + 1) = 1.
    assert_eq!(obj.text[0], Instruction { code: BPF_CALL, dst_reg: 0, src_reg: 1, off: 0, imm: 1 });
    let first = &obj.programs[0].instructions;
    assert_eq!(first.len(), 3 + 4);
    // The subroutines start at 3, `g` stands at 3 + 2 = 5, and the call
    // stands at 1: 5 - (1 + 1) = 3.
    assert_eq!(first[1], Instruction { code: BPF_CALL, dst_reg: 0, src_reg: 1, off: 0, imm: 3 });
    assert_eq!(1 + 1 + first[1].imm as usize, 5);
    assert_eq!(&first[3..], &obj.text[..]);
    assert_eq!(first[0], Instruction { code: 0xb7, dst_reg: 1, src_reg: 0, off: 0, imm: 0 });
    let second = &obj.programs[1].instructions;
    assert_eq!(second.len(), 2);
}

#[test]
fn programs_that_share_a_subroutine_each_get_their_copy() {
    let data = build_elf(
        &[
            progbits(".text", code(&[ins(0xb7, 0, 0, 0, 7), exit()])),
            progbits("xdp/short", code(&[ins(BPF_CALL, 0, 1, 0, -1), exit()])),
            progbits(
                "xdp/long",
                code(&[
                    ins(0xb7, 1, 0, 0, 0),
                    ins(0xb7, 2, 0, 0, 0),
                    ins(BPF_CALL, 0, 1, 0, -1),
                    ins(BPF_CALL, 0, 1, 0, 0),
                    exit(),
                ]),
            ),
            rel(".relxdp/short", 2, &[(0, 1)]),
            rel(".relxdp/long", 3, &[(16, 1), (24, 1)]),
        ],
        &[(1, 0)],
    );
    let obj = Object::parse(&data).unwrap().relocate_calls().unwrap();
    let short = &obj.programs[0].instructions;
    assert_eq!(short.len(), 2 + 2);
    assert_eq!(short[0].imm, 1);
    assert_eq!(&short[2..], &obj.text[..]);
    let long = &obj.programs[1].instructions;
    assert_eq!(long.len(), 5 + 2);
    // The subroutines start at 5. The first call leads to their start:
    // 5 - (2 + 1) = 2. The second held 0, so it leads to their second
    // instruction: 6 - (3 + 1) = 2.
    assert_eq!(long[2].imm, 2);
    assert_eq!(long[3].imm, 2);
    assert_eq!(&long[5..], &obj.text[..]);
}

#[test]
fn relocate_calls_reports_each_cause() {
    let outside = build_elf(
        &[
            progbits(".text", code(&[exit()])),
            progbits("xdp", code(&[ins(BPF_CALL, 0, 1, 0, 5), exit()])),
            rel(".relxdp", 2, &[(0, 1)]),
        ],
        &[(1, 0)],
    );
    assert_eq!(
        Object::parse(&outside).unwrap().relocate_calls().unwrap_err(),
        RelocationError { section_index: 2, symbol: 1, cause: RelocationCause::UnknownFunction }
    );

    let elsewhere = build_elf(
        &[
            progbits(".text", code(&[exit()])),
            progbits("xdp", code(&[ins(BPF_CALL, 0, 1, 0, -1), exit()])),
            rel(".relxdp", 2, &[(0, 1)]),
        ],
        &[(2, 0)],
    );
    assert_eq!(
        Object::parse(&elsewhere).unwrap().relocate_calls().unwrap_err(),
        RelocationError { section_index: 2, symbol: 1, cause: RelocationCause::UnknownFunction }
    );

    let no_call = build_elf(
        &[
            progbits(".text", code(&[exit()])),
            progbits("xdp", code(&[exit(), exit()])),
            rel(".relxdp", 2, &[(0, 1)]),
        ],
        &[(1, 0)],
    );
    assert_eq!(
        Object::parse(&no_call).unwrap().relocate_calls().unwrap_err(),
        RelocationError { section_index: 2, symbol: 1, cause: RelocationCause::InvalidInstruction }
    );
}

#[test]
fn relocate_btf_overwrites_the_immediate_with_the_target_offset() {
    let data = build_elf(
        &[progbits("kprobe/a", code(&[ins(0xb7, 1, 0, 0, 8), exit()]))],
        &[],
    );
    let btf = Btf {
        types: Vec::new(),
        relocations: vec![FieldRelocation { section_index: 1, ins_offset: 0, target_offset: Some(24) }],
    };
    let obj = Object::parse(&data).unwrap().relocate_btf(&btf).unwrap();
    assert_eq!(
        obj.programs[0].instructions[0],
        Instruction { code: 0xb7, dst_reg: 1, src_reg: 0, off: 0, imm: 24 }
    );

    let no_type = Btf {
        types: Vec::new(),
        relocations: vec![FieldRelocation { section_index: 1, ins_offset: 0, target_offset: None }],
    };
    assert_eq!(
        Object::parse(&data).unwrap().relocate_btf(&no_type).unwrap_err(),
        RelocationError { section_index: 1, symbol: 0, cause: RelocationCause::NoCompatibleType }
    );
    let beyond = Btf {
        types: Vec::new(),
        relocations: vec![FieldRelocation { section_index: 1, ins_offset: 16, target_offset: Some(1) }],
    };
    assert_eq!(
        Object::parse(&data).unwrap().relocate_btf(&beyond).unwrap_err(),
        RelocationError { section_index: 1, symbol: 0, cause: RelocationCause::InvalidOffset }
    );
    let nowhere = Btf {
        types: Vec::new(),
        relocations: vec![
            FieldRelocation { section_index: 1, ins_offset: 0, target_offset: Some(1) },
            FieldRelocation { section_index: 9, ins_offset: 0, target_offset: Some(1) },
        ],
    };
    assert_eq!(
        Object::parse(&data).unwrap().relocate_btf(&nowhere).unwrap_err(),
        RelocationError { section_index: 9, symbol: 1, cause: RelocationCause::SectionNotFound }
    );
}

#[test]
fn load_patches_every_reference_to_a_map_with_its_handle() {
    let data = build_elf(
        &[
            progbits("maps/A", map_def(1, 4, 4, 8)),
            progbits(
                "xdp",
                code(&[
                    ins(BPF_LD_IMM64, 1, 0, 0, 0),
                    ins(0, 0, 0, 0, 0),
                    ins(BPF_LD_IMM64, 2, 0, 0, 0),
                    ins(0, 0, 0, 0, 0),
                    exit(),
                ]),
            ),
            rel(".relxdp", 2, &[(0, 1), (16, 1)]),
        ],
        &[(1, 0)],
    );
    let bpf = Bpf::load(&data, None, &host(1, vec![created(33)])).unwrap();
    let instructions = &bpf.program("xdp").unwrap().data().obj.instructions;
    assert_eq!(instructions[0].imm, 33);
    assert_eq!(instructions[2].imm, 33);
}

#[test]
fn load_resolves_calls_after_map_references() {
    let data = build_elf(
        &[
            progbits("maps/A", map_def(1, 4, 4, 8)),
            progbits(
                ".text",
                code(&[ins(BPF_LD_IMM64, 1, 0, 0, 0), ins(0, 0, 0, 0, 0), exit()]),
            ),
            progbits("xdp", code(&[ins(BPF_CALL, 0, 1, 0, -1), exit()])),
            rel(".rel.text", 2, &[(0, 1)]),
            rel(".relxdp", 3, &[(0, 2)]),
        ],
        &[(1, 0), (2, 0)],
    );
    let bpf = Bpf::load(&data, None, &host(1, vec![created(9)])).unwrap();
    let instructions = &bpf.program("xdp").unwrap().data().obj.instructions;
    assert_eq!(instructions.len(), 2 + 3);
    // The subroutine starts at 2 and the call stands at 0: 2 - (0 + 1) = 1.
    assert_eq!(instructions[0].imm, 1);
    // The copy of the subroutine holds the map's handle.
    assert_eq!(instructions[2].imm, 9);
    assert_eq!(instructions[2].src_reg, 1);
}

#[test]
fn load_fails_as_a_whole_on_an_undefined_map_symbol() {
    let data = build_elf(
        &[
            progbits("maps/A", map_def(1, 4, 4, 8)),
            progbits("xdp", code(&[ins(BPF_LD_IMM64, 1, 0, 0, 0), ins(0, 0, 0, 0, 0), exit()])),
            progbits("kprobe/fine", code(&[exit()])),
            rel(".relxdp", 2, &[(0, 1)]),
        ],
        &[(0, 0)],
    );
    assert_eq!(
        error_of(Bpf::load(&data, None, &host(1, vec![created(4)]))),
        BpfError::RelocationError(RelocationError {
            section_index: 2,
            symbol: 1,
            cause: RelocationCause::SectionNotFound,
        })
    );
}

#[test]
fn load_reports_the_step_that_failed() {
    assert_eq!(
        error_of(Bpf::load(&[1, 2, 3], None, &host(1, vec![]))),
        BpfError::ParseError(ParseError::InvalidHeader)
    );
    let refused = SysError { code: -1, errno: 1 };
    assert_eq!(
        error_of(Bpf::load(
            &counting_object(),
            None,
            &host(1, vec![MapReply { created: Err(refused), seeded: Ok(()) }])
        )),
        BpfError::MapError(MapError::SyscallError(SyscallError {
            call: Syscall::BpfMapCreate,
            error: refused,
        }))
    );
    assert_eq!(
        error_of(Bpf::load(&counting_object(), None, &host(1, vec![]))),
        BpfError::MapError(MapError::NotCreated)
    );
    let seeded = build_elf(&[progbits(".data", vec![1, 2, 3, 4])], &[]);
    assert_eq!(
        error_of(Bpf::load(
            &seeded,
            None,
            &host(1, vec![MapReply { created: Ok(3), seeded: Err(refused) }])
        )),
        BpfError::MapError(MapError::SyscallError(SyscallError {
            call: Syscall::BpfMapUpdateElem,
            error: refused,
        }))
    );
    let btf = Btf {
        types: Vec::new(),
        relocations: vec![FieldRelocation { section_index: 2, ins_offset: 0, target_offset: None }],
    };
    assert_eq!(
        error_of(Bpf::load(&counting_object(), Some(btf), &host(1, vec![created(3)]))),
        BpfError::RelocationError(RelocationError {
            section_index: 2,
            symbol: 0,
            cause: RelocationCause::NoCompatibleType,
        })
    );
}

#[test]
fn load_does_not_seed_zeroed_variables_nor_maps_without_data() {
    let refused = SysError { code: -1, errno: 22 };
    let data = build_elf(
        &[progbits(".bss", vec![0u8; 8]), progbits("maps/A", map_def(1, 4, 4, 8))],
        &[],
    );
    let unseeded = MapReply { created: Ok(3), seeded: Err(refused) };
    let mut bpf = Bpf::load(&data, None, &host(1, vec![unseeded, unseeded])).unwrap();
    assert_eq!(bpf.maps().len(), 2);
}

#[test]
fn perf_event_array_without_entries_gets_one_for_each_processor() {
    let data = build_elf(
        &[
            progbits("maps/EVENTS", map_def(4, 4, 4, 0)),
            progbits("maps/SIZED", map_def(4, 4, 4, 2)),
            progbits("maps/HASH", map_def(1, 4, 4, 0)),
        ],
        &[],
    );
    let mut bpf =
        Bpf::load(&data, None, &host(12, vec![created(3), created(4), created(5)])).unwrap();
    let events = bpf.map("EVENTS").unwrap();
    assert_eq!(events.map().kind(), MapKind::PerfEventArray);
    assert_eq!(events.map().data().obj.def.max_entries, 12);
    assert_eq!(bpf.map("SIZED").unwrap().map().data().obj.def.max_entries, 2);
    assert_eq!(bpf.map("HASH").unwrap().map().data().obj.def.max_entries, 0);
}

#[test]
fn a_host_without_processors_cannot_size_an_event_array() {
    let data = build_elf(
        &[
            progbits("maps/HASH", map_def(1, 4, 4, 0)),
            progbits("maps/EVENTS", map_def(4, 4, 4, 0)),
        ],
        &[],
    );
    assert_eq!(
        error_of(Bpf::load(&data, None, &host(0, vec![created(3), created(4)]))),
        BpfError::MapError(MapError::NoProcessors)
    );
    let sized = build_elf(&[progbits("maps/EVENTS", map_def(4, 4, 4, 2))], &[]);
    assert!(Bpf::load(&sized, None, &host(0, vec![created(3)])).is_ok());

    let mut loader = Loader::new(&data, None).unwrap();
    loader.created(Ok(3));
    assert_eq!(loader.request(), Request::PossibleCpus);
    loader.possible_cpus(0);
    assert_eq!(loader.request(), Request::Done);
    loader.created(Ok(4));
    assert_eq!(error_of(loader.finish()), BpfError::MapError(MapError::NoProcessors));
}

#[test]
fn a_loaded_object_counts_opens() {
    let mut bpf = Bpf::load(&counting_object(), None, &host(4, vec![created(7)])).unwrap();

    let maps = bpf.maps();
    assert_eq!(maps.len(), 1);
    assert_eq!(maps[0].0, b"COUNTS");
    let guard = maps.into_iter().next().unwrap().1.unwrap();
    assert_eq!(guard.map().kind(), MapKind::HashMap);
    assert_eq!(guard.map().data().fd, Some(7));
    assert_eq!(guard.map().data().obj.def.key_size, 4);
    assert_eq!(guard.map().data().obj.def.value_size, 8);
    assert_eq!(guard.map().data().obj.def.max_entries, 1024);
    bpf.release(guard);

    assert_eq!(bpf.programs().len(), 1);
    assert_eq!(bpf.programs()[0].name(), b"count_opens");
    assert_eq!(bpf.programs()[0].kind(), ProgramKind::KProbe);
    assert_eq!(bpf.programs()[0].data().obj.instructions[0].imm, 7);
    assert_eq!(bpf.programs()[0].data().obj.instructions[0].src_reg, 1);

    let program = bpf.program_mut("count_opens").unwrap();
    assert!(matches!(program, Program::KProbe(_)));
    assert_eq!(program.data().state(), ProgramState::Unloaded);
    assert_eq!(program.load(Ok(11)), Ok(()));
    assert_eq!(program.data().state(), ProgramState::Loaded);
    assert_eq!(program.attach(Ok(20)), Ok(LinkId(0)));
    assert_eq!(program.data().state(), ProgramState::Attached);
    assert_eq!(program.detach(LinkId(0)), Ok(Link::Perf(PerfLink { perf_fd: 20 })));
    assert_eq!(program.data().state(), ProgramState::Loaded);
    let again = program.detach(LinkId(0)).unwrap_err();
    assert_eq!(again, ProgramError::InvalidLink);
    assert_eq!(again.describe(), "link not found");
}

#[test]
fn names_that_the_object_lacks_are_not_found() {
    let mut bpf = Bpf::load(&counting_object(), None, &host(4, vec![created(7)])).unwrap();
    assert_eq!(bpf.map("COUNT").unwrap_err(), MapError::MapNotFound { name: b"COUNT".to_vec() });
    assert_eq!(bpf.map("").unwrap_err(), MapError::MapNotFound { name: Vec::new() });
    assert_eq!(
        bpf.map_mut("count_opens").unwrap_err(),
        MapError::MapNotFound { name: b"count_opens".to_vec() }
    );
    assert_eq!(
        bpf.program("COUNTS").unwrap_err(),
        ProgramError::NotFound { name: b"COUNTS".to_vec() }
    );
    assert_eq!(
        bpf.program_mut("count_open").unwrap_err(),
        ProgramError::NotFound { name: b"count_open".to_vec() }
    );
    assert_eq!(bpf.program("count_opens").unwrap().name(), b"count_opens");
}

#[test]
fn a_writer_is_refused_while_a_reader_holds_the_map() {
    let mut bpf = Bpf::load(&counting_object(), None, &host(4, vec![created(7)])).unwrap();
    let reader = bpf.map("COUNTS").unwrap();
    assert_eq!(bpf.map_mut("COUNTS").unwrap_err(), borrowed());
    let second = bpf.map("COUNTS").unwrap();
    bpf.release(reader);
    assert_eq!(bpf.map_mut("COUNTS").unwrap_err(), borrowed());
    bpf.release(second);
    let writer = bpf.map_mut("COUNTS").unwrap();
    assert_eq!(bpf.map("COUNTS").unwrap_err(), borrowed());
    assert_eq!(bpf.map_mut("COUNTS").unwrap_err(), borrowed());
    assert_eq!(bpf.maps()[0].1.as_ref().unwrap_err(), &borrowed());
    bpf.release_mut(writer);
    assert!(bpf.map("COUNTS").is_ok());
}

fn kernel_types() -> Btf {
    Btf {
        types: vec![
            BtfType { name: b"bpf_lsm_file_open".to_vec(), kind: BtfKind::Struct, id: 3 },
            BtfType { name: b"bpf_lsm_file_open".to_vec(), kind: BtfKind::Func, id: 41 },
            BtfType { name: b"bpf_iter_task".to_vec(), kind: BtfKind::Func, id: 52 },
        ],
        relocations: Vec::new(),
    }
}

#[test]
fn test_lsm() {
    let data = build_elf(&[progbits("lsm/file_open", code(&[ins(0xb7, 0, 0, 0, 0), exit()]))], &[]);
    let mut ebpf = Bpf::load(&data, None, &host(1, vec![])).unwrap();
    let btf = kernel_types();
    let program = match ebpf.program_mut("file_open").unwrap() {
        Program::Lsm(program) => program,
        _ => panic!("the program is no security hook"),
    };
    program.load("file_open", &btf, Ok(5)).unwrap();
    program.attach(Ok(6)).unwrap();
    assert_eq!(program.data.attach_btf_id, Some(41));
    assert_eq!(program.data.expected_attach_type, Some(27));
    assert_eq!(program.name(), b"file_open");
}

#[test]
fn lsm_load_without_the_hook_type_leaves_the_program_unloaded() {
    let data = build_elf(&[progbits("lsm/file_open", code(&[exit()]))], &[]);
    let mut ebpf = Bpf::load(&data, None, &host(1, vec![])).unwrap();
    let btf = kernel_types();
    let program = match ebpf.program_mut("file_open").unwrap() {
        Program::Lsm(program) => program,
        _ => panic!("the program is no security hook"),
    };
    assert_eq!(
        program.load("file_close", &btf, Ok(5)).unwrap_err(),
        ProgramError::BtfError(BtfError::UnknownBtfTypeName)
    );
    assert_eq!(program.data.state(), ProgramState::Unloaded);
    assert_eq!(program.data.attach_btf_id, None);
    assert_eq!(program.attach(Ok(6)).unwrap_err(), ProgramError::NotLoaded);
    assert!(program.load_request("file_close", &btf).is_err());
    let request = program.load_request("file_open", &btf).unwrap();
    assert_eq!(request.prog_type, 29);
    assert_eq!(request.attach_btf_id, Some(41));
}

fn sized_object() -> Vec<u8> {
    build_elf(
        &[
            progbits("maps/COUNTS", map_def(1, 4, 8, 1024)),
            progbits("maps/EVENTS", map_def(4, 4, 4, 0)),
            progbits(".data", vec![1, 2, 3, 4]),
            progbits(".bss", vec![0; 4]),
            progbits("xdp", code(&[ins(BPF_LD_IMM64, 1, 0, 0, 0), ins(0, 0, 0, 0, 0), exit()])),
            rel(".relxdp", 5, &[(0, 1)]),
        ],
        &[(2, 0)],
    )
}

fn def(map_type: u32, key_size: u32, value_size: u32, max_entries: u32) -> MapDef {
    MapDef { map_type, key_size, value_size, max_entries, map_flags: 0, id: 0, pinning: 0 }
}

#[test]
fn the_loader_asks_for_each_map_in_turn() {
    let mut loader = Loader::new(&sized_object(), None).unwrap();
    assert_eq!(loader.request(), Request::CreateMap { index: 0, def: def(1, 4, 8, 1024) });
    assert!(loader.seed_data().is_empty());
    // Answers that were not asked for change nothing.
    loader.possible_cpus(3);
    loader.seeded(Ok(()));
    assert_eq!(loader.request(), Request::CreateMap { index: 0, def: def(1, 4, 8, 1024) });
    loader.created(Ok(10));

    assert_eq!(loader.request(), Request::PossibleCpus);
    loader.created(Ok(99));
    assert_eq!(loader.request(), Request::PossibleCpus);
    loader.possible_cpus(6);
    assert_eq!(loader.request(), Request::CreateMap { index: 1, def: def(4, 4, 4, 6) });
    loader.possible_cpus(7);
    assert_eq!(loader.request(), Request::CreateMap { index: 1, def: def(4, 4, 4, 6) });
    loader.created(Ok(11));

    assert_eq!(loader.request(), Request::CreateMap { index: 2, def: def(2, 4, 4, 1) });
    loader.created(Ok(12));
    assert_eq!(loader.request(), Request::SeedMap { index: 2, fd: 12, key: 0, flags: 0 });
    assert_eq!(loader.seed_data(), &[1, 2, 3, 4]);
    loader.created(Ok(98));
    assert_eq!(loader.request(), Request::SeedMap { index: 2, fd: 12, key: 0, flags: 0 });
    loader.seeded(Ok(()));

    // Zeroed variables are not seeded.
    assert_eq!(loader.request(), Request::CreateMap { index: 3, def: def(2, 4, 4, 1) });
    loader.created(Ok(13));
    assert_eq!(loader.request(), Request::Done);
    loader.created(Ok(97));
    assert_eq!(loader.request(), Request::Done);

    let mut bpf = loader.finish().unwrap();
    let maps = bpf.maps();
    let found: Vec<(Vec<u8>, Option<i32>, u32)> = maps
        .iter()
        .map(|(name, guard)| {
            let data = guard.as_ref().unwrap().map().data();
            (name.clone(), data.fd, data.obj.def.max_entries)
        })
        .collect();
    assert_eq!(
        found,
        vec![
            (b"COUNTS".to_vec(), Some(10), 1024),
            (b"EVENTS".to_vec(), Some(11), 6),
            (b".data".to_vec(), Some(12), 1),
            (b".bss".to_vec(), Some(13), 1),
        ]
    );
    assert_eq!(bpf.program("xdp").unwrap().data().obj.instructions[0].imm, 11);
}

#[test]
fn the_loader_stops_at_the_first_refusal() {
    let refused = SysError { code: -1, errno: 12 };
    let mut loader = Loader::new(&sized_object(), None).unwrap();
    loader.created(Ok(10));
    loader.possible_cpus(2);
    loader.created(Err(refused));
    assert_eq!(loader.request(), Request::Done);
    assert_eq!(
        error_of(loader.finish()),
        BpfError::MapError(MapError::SyscallError(SyscallError {
            call: Syscall::BpfMapCreate,
            error: refused,
        }))
    );

    let mut loader = Loader::new(&sized_object(), None).unwrap();
    loader.created(Ok(10));
    loader.possible_cpus(2);
    loader.created(Ok(11));
    loader.created(Ok(12));
    loader.seeded(Err(refused));
    assert_eq!(loader.request(), Request::Done);
    assert_eq!(
        error_of(loader.finish()),
        BpfError::MapError(MapError::SyscallError(SyscallError {
            call: Syscall::BpfMapUpdateElem,
            error: refused,
        }))
    );
}

#[test]
fn a_loader_that_is_finished_early_lacks_its_maps() {
    let loader = Loader::new(&counting_object(), None).unwrap();
    assert_eq!(error_of(loader.finish()), BpfError::MapError(MapError::NotCreated));
    // The host was not asked for its processors.
    let mut loader = Loader::new(&sized_object(), None).unwrap();
    loader.created(Ok(10));
    assert_eq!(error_of(loader.finish()), BpfError::MapError(MapError::NoProcessors));
    assert_eq!(
        Loader::new(&[0; 7], None).unwrap_err(),
        BpfError::ParseError(ParseError::InvalidHeader)
    );
    let btf = Btf {
        types: Vec::new(),
        relocations: vec![FieldRelocation { section_index: 5, ins_offset: 0, target_offset: None }],
    };
    assert_eq!(
        Loader::new(&sized_object(), Some(btf)).unwrap_err(),
        BpfError::RelocationError(RelocationError {
            section_index: 5,
            symbol: 0,
            cause: RelocationCause::NoCompatibleType,
        })
    );
}

#[test]
fn the_loader_and_the_load_at_once_agree() {
    let replies = vec![created(10), created(11), created(12), created(13)];
    let at_once = Bpf::load(&sized_object(), None, &host(6, replies)).unwrap();
    let mut loader = Loader::new(&sized_object(), None).unwrap();
    loop {
        match loader.request() {
            Request::PossibleCpus => loader.possible_cpus(6),
            Request::CreateMap { index, .. } => loader.created(Ok(10 + index as i32)),
            Request::SeedMap { .. } => loader.seeded(Ok(())),
            Request::Done => break,
        }
    }
    let stepwise = loader.finish().unwrap();
    assert_eq!(at_once.programs().len(), stepwise.programs().len());
    assert_eq!(
        at_once.programs()[0].data().obj.instructions,
        stepwise.programs()[0].data().obj.instructions
    );
    assert_eq!(at_once.map_count(), stepwise.map_count());
}

#[test]
fn a_loaded_object_is_well_formed_until_a_name_is_set_by_hand() {
    let mut bpf = Bpf::load(&counting_object(), None, &host(4, vec![created(7)])).unwrap();
    assert!(bpf.check());
    let guard = bpf.map("COUNTS").unwrap();
    assert!(bpf.check());
    bpf.release(guard);
    let program = bpf.program_mut("count_opens").unwrap();
    program.load(Ok(11)).unwrap();
    program.attach(Ok(20)).unwrap();
    assert!(bpf.check());
    bpf.program_mut("count_opens").unwrap().data_mut().fd = None;
    assert!(!bpf.check());
}

#[test]
fn relocations_are_applied_in_any_order() {
    let backwards = build_elf(
        &[
            progbits("maps/A", map_def(1, 4, 4, 8)),
            progbits("maps/B", map_def(1, 4, 4, 8)),
            progbits(
                "xdp",
                code(&[
                    ins(BPF_LD_IMM64, 1, 0, 0, 0),
                    ins(0, 0, 0, 0, 0),
                    ins(BPF_LD_IMM64, 1, 0, 0, 0),
                    ins(0, 0, 0, 0, 0),
                ]),
            ),
            rel(".relxdp", 3, &[(16, 2), (0, 1)]),
        ],
        &[(1, 0), (2, 0)],
    );
    let maps = vec![
        MapSlot { section_index: 1, fd: Some(3), globals: false },
        MapSlot { section_index: 2, fd: Some(4), globals: false },
    ];
    let obj = Object::parse(&backwards).unwrap().relocate_maps(&maps).unwrap();
    let patched = &obj.programs[0].instructions;
    assert_eq!(patched[0].imm, 3);
    assert_eq!(patched[2].imm, 4);

    // Two relocations of one instruction: the later one has the last word.
    let repeated = build_elf(
        &[
            progbits("maps/A", map_def(1, 4, 4, 8)),
            progbits("maps/B", map_def(1, 4, 4, 8)),
            progbits("xdp", code(&[ins(BPF_LD_IMM64, 1, 0, 0, 0), ins(0, 0, 0, 0, 0), exit()])),
            rel(".relxdp", 3, &[(0, 1), (0, 2)]),
        ],
        &[(1, 0), (2, 0)],
    );
    let obj = Object::parse(&repeated).unwrap().relocate_maps(&maps).unwrap();
    assert_eq!(obj.programs[0].instructions[0].imm, 4);
    assert_eq!(obj.programs[0].instructions[0].src_reg, 1);
}

#[test]
fn a_walk_borrows_each_map_when_it_reaches_it() {
    let data = build_elf(
        &[progbits("maps/A", map_def(1, 4, 4, 8)), progbits("maps/B", map_def(1, 4, 4, 8))],
        &[],
    );
    let mut bpf = Bpf::load(&data, None, &host(4, vec![created(3), created(4)])).unwrap();
    let mut walk = MapWalk::new();
    let (name, first) = bpf.next_map(&mut walk).unwrap();
    assert_eq!(name, b"A");
    // The second map is not borrowed yet: a writer is let in.
    let writer = bpf.map_mut("B").unwrap();
    assert_eq!(
        bpf.map_mut("A").unwrap_err(),
        MapError::BorrowError { name: b"A".to_vec() }
    );
    let (name, second) = bpf.next_map(&mut walk).unwrap();
    assert_eq!(name, b"B");
    assert_eq!(second.unwrap_err(), MapError::BorrowError { name: b"B".to_vec() });
    assert!(bpf.next_map(&mut walk).is_none());
    assert!(bpf.next_map(&mut walk).is_none());
    bpf.release(first.unwrap());
    bpf.release_mut(writer);
    assert!(bpf.map_mut("A").is_ok());

    // A walk is started over with a new one.
    let mut again = MapWalk::new();
    assert_eq!(bpf.next_map(&mut again).unwrap().0, b"A");
}
