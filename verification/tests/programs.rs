use aya::obj::btf::{Btf, BtfError, BtfKind, BtfType};
use aya::obj::insn::Instruction;
use aya::programs::iter::{IterFd, IterLink};
use aya::programs::links::{
    FdLink, Link, LinkEntry, LinkError, LinkId, Links, PerfLink, ProgAttachLink,
};
use aya::obj::{ObjProgram, ProgramKind};
use aya::programs::{
    attach_call, attach_link, prog_type_of, AttachRequest, Iter, Program, ProgramData,
    ProgramError, ProgramState, RawTracePoint,
};
use aya::sys::{SysError, Syscall, SyscallError};

const EPERM: SysError = SysError { code: -1, errno: 1 };

fn code(name: &[u8], kind: ProgramKind) -> ObjProgram {
    ObjProgram {
        name: name.to_vec(),
        kind,
        sleepable: false,
        section_index: 2,
        instructions: vec![Instruction { code: 0x95, dst_reg: 0, src_reg: 0, off: 0, imm: 0 }],
    }
}

fn data(name: &[u8], kind: ProgramKind) -> ProgramData {
    ProgramData::new(code(name, kind), b"GPL".to_vec())
}

fn failed(call: Syscall) -> ProgramError {
    ProgramError::SyscallError(SyscallError { call, error: EPERM })
}

fn fd_link(fd: i32) -> Link {
    Link::Fd(FdLink { fd })
}

#[test]
fn links_get_ids_in_sequence_and_never_again() {
    let mut links = Links::new();
    assert!(links.is_empty());
    assert_eq!(links.insert(fd_link(10)), Some(LinkId(0)));
    assert_eq!(links.insert(fd_link(11)), Some(LinkId(1)));
    assert_eq!(links.insert(fd_link(12)), Some(LinkId(2)));
    assert_eq!(links.len(), 3);
    assert_eq!(links.find(LinkId(1)), Some(1));
    assert_eq!(links.remove(LinkId(1)), Some(fd_link(11)));
    assert_eq!(links.remove(LinkId(1)), None);
    assert_eq!(links.find(LinkId(1)), None);
    assert_eq!(links.find(LinkId(2)), Some(1));
    assert_eq!(links.len(), 2);
    assert_eq!(links.get(0).id, LinkId(0));
    assert_eq!(links.get(1).link, fd_link(12));
    assert_eq!(links.insert(fd_link(13)), Some(LinkId(3)));
    assert_eq!(links.remove(LinkId(7)), None);
    assert_eq!(links.len(), 3);
}

#[test]
fn a_program_is_loaded_once() {
    let mut program = data(b"p", ProgramKind::Xdp);
    assert_eq!(program.name, b"p");
    assert_eq!(program.state(), ProgramState::Unloaded);
    assert_eq!(program.fd_or_err(), Err(ProgramError::NotLoaded));
    assert_eq!(program.load(Err(EPERM)), Err(failed(Syscall::BpfProgLoad)));
    assert_eq!(program.state(), ProgramState::Unloaded);
    assert_eq!(program.load(Ok(4)), Ok(()));
    assert_eq!(program.state(), ProgramState::Loaded);
    assert_eq!(program.fd(), Some(4));
    assert_eq!(program.load(Ok(5)), Err(ProgramError::AlreadyLoaded));
    assert_eq!(program.fd(), Some(4));
    assert_eq!(program.fd_or_err(), Ok(4));
}

#[test]
fn attachments_accumulate_and_detach_returns_to_loaded() {
    let mut program = data(b"p", ProgramKind::Xdp);
    assert_eq!(
        program.attach(Syscall::BpfLinkCreate, Ok(fd_link(9))),
        Err(ProgramError::NotLoaded)
    );
    program.load(Ok(4)).unwrap();
    assert_eq!(
        program.attach(Syscall::BpfLinkCreate, Err(EPERM)),
        Err(failed(Syscall::BpfLinkCreate))
    );
    assert_eq!(program.state(), ProgramState::Loaded);
    assert_eq!(program.attach(Syscall::BpfLinkCreate, Ok(fd_link(9))), Ok(LinkId(0)));
    assert_eq!(program.attach(Syscall::BpfLinkCreate, Ok(fd_link(10))), Ok(LinkId(1)));
    assert_eq!(program.state(), ProgramState::Attached);
    assert_eq!(program.links().len(), 2);
    assert_eq!(program.detach(LinkId(0)), Ok(fd_link(9)));
    assert_eq!(program.state(), ProgramState::Attached);
    assert_eq!(program.detach(LinkId(1)), Ok(fd_link(10)));
    assert_eq!(program.state(), ProgramState::Loaded);
    assert_eq!(program.detach(LinkId(1)), Err(ProgramError::InvalidLink));
    assert_eq!(program.attach(Syscall::BpfLinkCreate, Ok(fd_link(11))), Ok(LinkId(2)));
}

#[test]
fn a_taken_link_is_no_longer_detached() {
    let mut program = data(b"p", ProgramKind::Xdp);
    program.load(Ok(4)).unwrap();
    let kept = program.attach(Syscall::BpfLinkCreate, Ok(fd_link(9))).unwrap();
    let taken = program.attach(Syscall::BpfLinkCreate, Ok(fd_link(10))).unwrap();
    assert_eq!(program.take_link(taken), Ok(fd_link(10)));
    assert_eq!(program.state(), ProgramState::Attached);
    let error = program.detach(taken).unwrap_err();
    assert_eq!(error, ProgramError::InvalidLink);
    assert_eq!(error.describe(), "link not found");
    assert_eq!(program.take_link(taken), Err(ProgramError::InvalidLink));
    assert_eq!(program.links().len(), 1);
    assert_eq!(program.detach(kept), Ok(fd_link(9)));
    assert_eq!(program.state(), ProgramState::Loaded);
    assert_eq!(program.fd(), Some(4));
}

#[test]
fn unloading_hands_out_the_handle_and_the_attachments() {
    let mut program = data(b"p", ProgramKind::Xdp);
    assert_eq!(program.unload(), (None, Vec::new()));
    program.load(Ok(4)).unwrap();
    program.attach(Syscall::BpfLinkCreate, Ok(fd_link(9))).unwrap();
    program.attach(Syscall::BpfLinkCreate, Ok(fd_link(10))).unwrap();
    program.detach(LinkId(0)).unwrap();
    assert_eq!(
        program.unload(),
        (Some(4), vec![LinkEntry { id: LinkId(1), link: fd_link(10) }])
    );
    assert_eq!(program.state(), ProgramState::Unloaded);
    assert_eq!(program.links().len(), 0);
    program.load(Ok(5)).unwrap();
    assert_eq!(program.attach(Syscall::BpfLinkCreate, Ok(fd_link(11))), Ok(LinkId(2)));
}

#[test]
fn errors_and_calls_have_their_words() {
    let words = [
        (ProgramError::NotFound { name: b"pass".to_vec() }, "program not found"),
        (ProgramError::AlreadyLoaded, "the program is already loaded"),
        (ProgramError::NotLoaded, "the program is not loaded"),
        (ProgramError::InvalidLink, "link not found"),
        (ProgramError::InvalidName, "the name holds a zero byte"),
        (ProgramError::LinkIdsExhausted, "no link id is left"),
        (ProgramError::BtfError(BtfError::UnknownBtfTypeName), "a debug type is missing"),
        (failed(Syscall::BpfProgLoad), "a system call failed"),
    ];
    for (error, text) in words {
        assert_eq!(error.describe(), text);
    }
    let names = [
        (Syscall::BpfMapCreate, "bpf_map_create"),
        (Syscall::BpfMapLookupElem, "bpf_map_lookup_elem"),
        (Syscall::BpfMapUpdateElem, "bpf_map_update_elem"),
        (Syscall::BpfMapDeleteElem, "bpf_map_delete_elem"),
        (Syscall::BpfMapGetNextKey, "bpf_map_get_next_key"),
        (Syscall::BpfProgLoad, "bpf_prog_load"),
        (Syscall::BpfProgAttach, "bpf_prog_attach"),
        (Syscall::BpfLinkCreate, "bpf_link_create"),
        (Syscall::BpfLinkGetInfoByFd, "bpf_link_get_info_by_fd"),
        (Syscall::BpfRawTracepointOpen, "bpf_raw_tracepoint_open"),
        (Syscall::BpfIterCreate, "bpf_iter_create"),
        (Syscall::PerfEventOpen, "perf_event_open"),
        (Syscall::PidfdOpen, "pidfd_open"),
        (Syscall::Mmap, "mmap"),
    ];
    for (call, name) in names {
        assert_eq!(call.name(), name);
    }
}

#[test]
fn each_kind_has_its_variant_its_type_and_its_attach_call() {
    let kinds = [
        (ProgramKind::KProbe, 2, Syscall::PerfEventOpen),
        (ProgramKind::KRetProbe, 2, Syscall::PerfEventOpen),
        (ProgramKind::UProbe, 2, Syscall::PerfEventOpen),
        (ProgramKind::URetProbe, 2, Syscall::PerfEventOpen),
        (ProgramKind::TracePoint, 5, Syscall::PerfEventOpen),
        (ProgramKind::RawTracePoint, 17, Syscall::BpfRawTracepointOpen),
        (ProgramKind::SocketFilter, 1, Syscall::BpfLinkCreate),
        (ProgramKind::Xdp, 6, Syscall::BpfLinkCreate),
        (ProgramKind::SkMsg, 16, Syscall::BpfProgAttach),
        (ProgramKind::SkSkbStreamParser, 14, Syscall::BpfProgAttach),
        (ProgramKind::SkSkbStreamVerdict, 14, Syscall::BpfProgAttach),
        (ProgramKind::SockOps, 13, Syscall::BpfProgAttach),
        (ProgramKind::SchedClassifier, 3, Syscall::BpfLinkCreate),
        (ProgramKind::Lsm, 29, Syscall::BpfRawTracepointOpen),
        (ProgramKind::FEntry, 26, Syscall::BpfRawTracepointOpen),
        (ProgramKind::FExit, 26, Syscall::BpfRawTracepointOpen),
        (ProgramKind::Iter, 26, Syscall::BpfLinkCreate),
    ];
    for (kind, prog_type, call) in kinds {
        let program = Program::new(data(b"p", kind));
        assert_eq!(program.kind(), kind);
        assert_eq!(program.prog_type(), prog_type);
        assert_eq!(prog_type_of(kind), prog_type);
        assert_eq!(attach_call(kind), call);
        assert_eq!(program.name(), b"p");
        let fits = match kind {
            ProgramKind::KProbe | ProgramKind::KRetProbe => matches!(program, Program::KProbe(_)),
            ProgramKind::UProbe | ProgramKind::URetProbe => matches!(program, Program::UProbe(_)),
            ProgramKind::TracePoint => matches!(program, Program::TracePoint(_)),
            ProgramKind::RawTracePoint => matches!(program, Program::RawTracePoint(_)),
            ProgramKind::SocketFilter => matches!(program, Program::SocketFilter(_)),
            ProgramKind::Xdp => matches!(program, Program::Xdp(_)),
            ProgramKind::SkMsg => matches!(program, Program::SkMsg(_)),
            ProgramKind::SkSkbStreamParser | ProgramKind::SkSkbStreamVerdict => {
                matches!(program, Program::SkSkb(_))
            }
            ProgramKind::SockOps => matches!(program, Program::SockOps(_)),
            ProgramKind::SchedClassifier => matches!(program, Program::SchedClassifier(_)),
            ProgramKind::Lsm => matches!(program, Program::Lsm(_)),
            ProgramKind::FEntry => matches!(program, Program::FEntry(_)),
            ProgramKind::FExit => matches!(program, Program::FExit(_)),
            ProgramKind::Iter => matches!(program, Program::Iter(_)),
        };
        assert!(fits);
    }
    assert_eq!(attach_link(Syscall::PerfEventOpen, 1, 2), Link::Perf(PerfLink { perf_fd: 2 }));
    assert_eq!(
        attach_link(Syscall::BpfProgAttach, 1, 2),
        Link::ProgAttach(ProgAttachLink { prog_fd: 1, target_fd: 2 })
    );
    assert_eq!(attach_link(Syscall::BpfLinkCreate, 1, 2), fd_link(2));
    assert_eq!(attach_link(Syscall::BpfRawTracepointOpen, 1, 2), fd_link(2));
}

#[test]
fn a_program_attaches_by_the_call_of_its_kind() {
    let mut program = Program::new(data(b"p", ProgramKind::SkMsg));
    assert_eq!(program.attach(Ok(3)), Err(ProgramError::NotLoaded));
    program.load(Ok(8)).unwrap();
    assert_eq!(program.attach(Err(EPERM)), Err(failed(Syscall::BpfProgAttach)));
    assert_eq!(program.attach(Ok(3)), Ok(LinkId(0)));
    assert_eq!(
        program.take_link(LinkId(0)),
        Ok(Link::ProgAttach(ProgAttachLink { prog_fd: 8, target_fd: 3 }))
    );
    assert_eq!(program.detach(LinkId(0)), Err(ProgramError::InvalidLink));
    assert_eq!(program.data().state(), ProgramState::Loaded);
    program.data_mut().expected_attach_type = Some(1);
    assert_eq!(program.data().expected_attach_type, Some(1));
}

#[test]
fn a_kind_that_attaches_to_a_debug_type_is_loaded_by_its_own_load() {
    for kind in [ProgramKind::Lsm, ProgramKind::FEntry, ProgramKind::FExit, ProgramKind::Iter] {
        let mut program = Program::new(data(b"p", kind));
        assert_eq!(
            program.load(Ok(4)),
            Err(ProgramError::BtfError(BtfError::UnknownBtfTypeName))
        );
        assert_eq!(program.data().state(), ProgramState::Unloaded);
    }
}

#[test]
fn entry_and_exit_probes_resolve_the_function() {
    let btf = Btf {
        types: vec![BtfType { name: b"sched_post_fork".to_vec(), kind: BtfKind::Func, id: 9 }],
        relocations: Vec::new(),
    };
    let mut entry = match Program::new(data(b"entry", ProgramKind::FEntry)) {
        Program::FEntry(p) => p,
        _ => panic!("the program is no entry probe"),
    };
    assert_eq!(entry.load_request("sched_post_fork", &btf).unwrap().expected_attach_type, Some(24));
    assert_eq!(
        entry.load("sched_fork", &btf, Ok(4)),
        Err(ProgramError::BtfError(BtfError::UnknownBtfTypeName))
    );
    entry.load("sched_post_fork", &btf, Ok(4)).unwrap();
    assert_eq!(entry.data.attach_btf_id, Some(9));
    assert_eq!(entry.data.expected_attach_type, Some(24));
    assert_eq!(entry.attach(Ok(5)), Ok(LinkId(0)));

    let mut exit = match Program::new(data(b"exit", ProgramKind::FExit)) {
        Program::FExit(p) => p,
        _ => panic!("the program is no exit probe"),
    };
    assert_eq!(exit.load_request("sched_post_fork", &btf).unwrap().expected_attach_type, Some(25));
    assert_eq!(exit.attach(Ok(5)), Err(ProgramError::NotLoaded));
    exit.load("sched_post_fork", &btf, Ok(4)).unwrap();
    assert_eq!(exit.data.expected_attach_type, Some(25));
    assert_eq!(exit.attach(Err(EPERM)), Err(failed(Syscall::BpfRawTracepointOpen)));
    assert_eq!(exit.attach(Ok(5)), Ok(LinkId(0)));
}

#[test]
fn a_raw_tracepoint_is_opened_by_a_name_without_zero_bytes() {
    let mut program = RawTracePoint { data: data(b"sched_process_fork", ProgramKind::RawTracePoint) };
    assert_eq!(program.name(), b"sched_process_fork");
    assert_eq!(program.attach("sched_process_fork", Ok(3)), Err(ProgramError::NotLoaded));
    assert_eq!(program.load(Err(EPERM)), Err(failed(Syscall::BpfProgLoad)));
    assert_eq!(program.load(Ok(4)), Ok(()));
    assert_eq!(program.load(Ok(4)), Err(ProgramError::AlreadyLoaded));
    assert_eq!(program.attach("sched\0fork", Ok(3)), Err(ProgramError::InvalidName));
    assert_eq!(program.data.links().len(), 0);
    assert_eq!(
        program.attach("sched_process_fork", Err(EPERM)),
        Err(failed(Syscall::BpfRawTracepointOpen))
    );
    assert_eq!(program.attach("sched_process_fork", Ok(3)), Ok(LinkId(0)));
    assert_eq!(program.data.detach(LinkId(0)), Ok(fd_link(3)));
}

fn kernel_types() -> Btf {
    Btf {
        types: vec![
            BtfType { name: b"bpf_iter_task".to_vec(), kind: BtfKind::Func, id: 52 },
            BtfType { name: b"bpf_iter_tcp".to_vec(), kind: BtfKind::Typedef, id: 60 },
            BtfType { name: b"bpf_iter_task".to_vec(), kind: BtfKind::Func, id: 77 },
        ],
        relocations: Vec::new(),
    }
}

#[test]
fn type_ids_are_found_by_name_and_kind() {
    let btf = kernel_types();
    assert_eq!(btf.id_by_type_name_kind(b"bpf_iter_task", BtfKind::Func), Ok(52));
    assert_eq!(btf.id_by_type_name_kind(b"bpf_iter_tcp", BtfKind::Typedef), Ok(60));
    assert_eq!(
        btf.id_by_type_name_kind(b"bpf_iter_tcp", BtfKind::Func),
        Err(BtfError::UnknownBtfTypeName)
    );
    assert_eq!(
        btf.id_by_type_name_kind(b"bpf_iter_tas", BtfKind::Func),
        Err(BtfError::UnknownBtfTypeName)
    );
}

#[test]
fn iter_tcp4() {
    let mut prog = Iter { data: data(b"iter_tcp4", ProgramKind::Iter) };
    let btf = Btf {
        types: vec![BtfType { name: b"bpf_iter_tcp".to_vec(), kind: BtfKind::Func, id: 60 }],
        relocations: Vec::new(),
    };
    prog.load("tcp", &btf, Ok(4)).unwrap();
    assert_eq!(prog.data.attach_btf_id, Some(60));
}

#[test]
fn iter_task() {
    let mut prog = Iter { data: data(b"iter_task", ProgramKind::Iter) };
    let btf = kernel_types();
    let request = prog.load_request("task", &btf).unwrap();
    assert_eq!(request.prog_type, 26);
    assert_eq!(request.expected_attach_type, Some(28));
    assert_eq!(request.attach_btf_id, Some(52));
    prog.load("task", &btf, Ok(4)).unwrap();
    assert_eq!(prog.data.expected_attach_type, Some(28));
    assert_eq!(prog.data.attach_btf_id, Some(52));

    let link_id = prog.attach(Ok(5)).unwrap();
    assert_eq!(link_id, LinkId(0));

    let link = prog.take_link(link_id).unwrap();
    assert_eq!(link, IterLink { inner: fd_link(5) });
    assert_eq!(prog.detach(link_id).unwrap_err(), ProgramError::InvalidLink);

    let fd_iter = link.create_iter(Ok(6)).unwrap();
    assert_eq!(fd_iter, IterFd { fd: 6, ended: false });
    assert_eq!(fd_iter.as_fd(), 6);
}

#[test]
fn iter_load_fails_without_the_type_or_the_kernel() {
    let mut prog = Iter { data: data(b"iter_udp", ProgramKind::Iter) };
    let btf = kernel_types();
    assert_eq!(
        prog.load("udp", &btf, Ok(4)),
        Err(ProgramError::BtfError(BtfError::UnknownBtfTypeName))
    );
    assert_eq!(prog.load("task", &btf, Err(EPERM)), Err(failed(Syscall::BpfProgLoad)));
    assert_eq!(prog.data.state(), ProgramState::Unloaded);
    assert_eq!(prog.data.attach_btf_id, None);
    assert_eq!(prog.attach(Ok(5)), Err(ProgramError::NotLoaded));
    prog.load("task", &btf, Ok(4)).unwrap();
    assert_eq!(prog.load("task", &btf, Ok(9)), Err(ProgramError::AlreadyLoaded));
    assert_eq!(prog.attach(Err(EPERM)), Err(failed(Syscall::BpfLinkCreate)));
    let id = prog.attach(Ok(5)).unwrap();
    assert_eq!(prog.detach(id), Ok(IterLink { inner: fd_link(5) }));
}

#[test]
fn a_session_is_created_only_from_a_descriptor_link() {
    let link = IterLink::new(fd_link(5));
    assert_eq!(
        link.create_iter(Err(EPERM)),
        Err(LinkError::SyscallError(SyscallError { call: Syscall::BpfIterCreate, error: EPERM }))
    );
    assert_eq!(Syscall::BpfIterCreate.name(), "bpf_iter_create");
    let perf = IterLink::new(Link::Perf(PerfLink { perf_fd: 5 }));
    assert_eq!(perf.create_iter(Ok(6)), Err(LinkError::InvalidLink));
    assert_eq!(perf.into_inner(), Link::Perf(PerfLink { perf_fd: 5 }));
}

#[test]
fn links_convert_only_between_matching_kinds() {
    assert_eq!(FdLink::try_from(IterLink::new(fd_link(5))), Ok(FdLink { fd: 5 }));
    assert_eq!(
        FdLink::try_from(IterLink::new(Link::Perf(PerfLink { perf_fd: 5 }))),
        Err(LinkError::InvalidLink)
    );
    assert_eq!(
        IterLink::try_from(FdLink { fd: 5 }, Ok(4)),
        Ok(IterLink { inner: fd_link(5) })
    );
    assert_eq!(IterLink::try_from(FdLink { fd: 5 }, Ok(1)), Err(LinkError::InvalidLink));
    assert_eq!(
        IterLink::try_from(FdLink { fd: 5 }, Err(EPERM)),
        Err(LinkError::SyscallError(SyscallError {
            call: Syscall::BpfLinkGetInfoByFd,
            error: EPERM,
        }))
    );
}

#[test]
fn a_session_is_read_once_to_its_end() {
    let mut session = IterFd::from_fd(6);
    assert_eq!(session.read(Ok(100)), Ok(100));
    assert_eq!(session.read(Err(EPERM)), Err(EPERM));
    assert!(!session.ended);
    assert_eq!(session.read(Ok(0)), Ok(0));
    assert!(session.ended);
    assert_eq!(session.read(Ok(100)), Ok(0));
    assert_eq!(session.read(Err(EPERM)), Ok(0));
}

#[test]
fn the_kernel_is_asked_to_load_only_what_is_not_loaded() {
    let mut program = Program::new(data(b"pass", ProgramKind::Xdp));
    let request = program.load_request().unwrap();
    assert_eq!(request.prog_type, 6);
    assert_eq!(request.expected_attach_type, None);
    assert_eq!(request.attach_btf_id, None);
    assert_eq!(program.attach_request(), Err(ProgramError::NotLoaded));
    program.load(Ok(4)).unwrap();
    assert_eq!(program.load_request().unwrap_err(), ProgramError::AlreadyLoaded);
    assert_eq!(
        program.attach_request(),
        Ok(AttachRequest { call: Syscall::BpfLinkCreate, prog_fd: 4 })
    );

    let hook = Program::new(data(b"file_open", ProgramKind::Lsm));
    assert_eq!(
        hook.load_request().unwrap_err(),
        ProgramError::BtfError(BtfError::UnknownBtfTypeName)
    );
}

#[test]
fn a_typed_program_is_asked_for_as_its_load_decides() {
    let btf = Btf {
        types: vec![BtfType { name: b"sched_post_fork".to_vec(), kind: BtfKind::Func, id: 9 }],
        relocations: Vec::new(),
    };
    let mut entry = match Program::new(data(b"entry", ProgramKind::FEntry)) {
        Program::FEntry(p) => p,
        _ => panic!("the program is no entry probe"),
    };
    assert_eq!(
        entry.load_request("sched_fork", &btf).unwrap_err(),
        ProgramError::BtfError(BtfError::UnknownBtfTypeName)
    );
    let request = entry.load_request("sched_post_fork", &btf).unwrap();
    assert_eq!(request.prog_type, 26);
    assert_eq!(request.attach_btf_id, Some(9));
    assert_eq!(entry.attach_request(), Err(ProgramError::NotLoaded));
    entry.load("sched_post_fork", &btf, Ok(4)).unwrap();
    assert_eq!(
        entry.load_request("sched_post_fork", &btf).unwrap_err(),
        ProgramError::AlreadyLoaded
    );
    assert_eq!(
        entry.load_request("sched_fork", &btf).unwrap_err(),
        ProgramError::AlreadyLoaded
    );
    assert_eq!(
        entry.attach_request(),
        Ok(AttachRequest { call: Syscall::BpfRawTracepointOpen, prog_fd: 4 })
    );

    let mut walk = Iter { data: data(b"dump", ProgramKind::Iter) };
    walk.data.fd = Some(8);
    assert_eq!(
        walk.attach_request(),
        Ok(AttachRequest { call: Syscall::BpfLinkCreate, prog_fd: 8 })
    );
}

#[test]
fn a_raw_tracepoint_is_asked_for_by_a_name_without_zero_bytes() {
    let mut program = RawTracePoint { data: data(b"fork", ProgramKind::RawTracePoint) };
    let request = program.load_request().unwrap();
    assert_eq!(request.prog_type, 17);
    assert_eq!(program.attach_request("sched_process_fork"), Err(ProgramError::NotLoaded));
    assert_eq!(program.attach_request("sched\0fork"), Err(ProgramError::NotLoaded));
    program.load(Ok(4)).unwrap();
    assert_eq!(program.load_request().unwrap_err(), ProgramError::AlreadyLoaded);
    assert_eq!(program.attach_request("sched\0fork"), Err(ProgramError::InvalidName));
    assert_eq!(
        program.attach_request("sched_process_fork"),
        Ok(AttachRequest { call: Syscall::BpfRawTracepointOpen, prog_fd: 4 })
    );
}

#[test]
fn the_license_is_ended_by_one_zero_byte() {
    assert_eq!(data(b"a", ProgramKind::Xdp).license_c_str(), b"GPL\0".to_vec());
    let ended = ProgramData::new(code(b"a", ProgramKind::Xdp), b"GPL\0".to_vec());
    assert_eq!(ended.license_c_str(), b"GPL\0".to_vec());
    let empty = ProgramData::new(code(b"a", ProgramKind::Xdp), Vec::new());
    assert_eq!(empty.license_c_str(), vec![0u8]);
}

#[test]
fn a_state_that_was_set_by_hand_is_found_out() {
    let mut program = Program::new(data(b"pass", ProgramKind::Xdp));
    assert!(program.check());
    program.load(Ok(4)).unwrap();
    program.attach(Ok(5)).unwrap();
    assert!(program.check());
    assert!(program.data().links().check());
    // Attachments without a handle.
    program.data_mut().fd = None;
    assert!(!program.data().check());
    assert!(!program.check());
    // A variant that is not the one of the kind.
    let mut other = Program::new(data(b"pass", ProgramKind::Xdp));
    other.data_mut().obj.kind = ProgramKind::Lsm;
    assert!(other.data().check());
    assert!(!other.check());
}

#[test]
fn a_session_is_asked_for_of_a_descriptor_link_only() {
    assert_eq!(IterLink::new(fd_link(5)).iter_request(), Ok(5));
    assert_eq!(
        IterLink::new(Link::Perf(PerfLink { perf_fd: 5 })).iter_request(),
        Err(LinkError::InvalidLink)
    );
    let mut session = IterFd::from_fd(6);
    assert!(session.wants_read());
    assert_eq!(session.read(Ok(0)), Ok(0));
    assert!(!session.wants_read());
}
