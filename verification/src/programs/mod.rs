//! Programs: their load state, their attachments, and their kinds.
//!
//! A program is unloaded until the kernel has accepted it, loaded while it
//! has a handle and no attachment, and attached while it tracks at least
//! one. It is never loaded a second time.

use vstd::prelude::*;
use crate::obj::btf::BtfError;
use crate::programs::links::{
    position_of, tracks, FdLink, Link, LinkEntry, LinkId, Links, PerfLink, ProgAttachLink,
};
use crate::obj::{copy_bytes, ObjProgram, ProgramKind};
use crate::sys::{SysError, Syscall, SyscallError};

pub mod fentry;
pub mod iter;
pub mod links;
pub mod lsm;
pub mod raw_trace_point;

verus! {

/// Why an operation on a program failed.
#[derive(Clone, Debug, PartialEq, Eq)]
pub enum ProgramError {
    /// No program of the name `name` was loaded.
    NotFound { name: Vec<u8> },
    /// The program has a handle already.
    AlreadyLoaded,
    /// The program has no handle yet.
    NotLoaded,
    /// The program tracks no attachment of that id.
    InvalidLink,
    /// A name that is handed to the kernel holds a zero byte.
    InvalidName,
    /// The program has handed out every id that it can.
    LinkIdsExhausted,
    /// A debug type that the program's kind needs could not be had.
    BtfError(BtfError),
    /// The kernel refused a call.
    SyscallError(SyscallError),
}

impl ProgramError {
    /// Whether this is the error of a lookup of the name `name`, which no
    /// program has.
    pub open spec fn is_not_found(self, name: Seq<u8>) -> bool {
        self matches ProgramError::NotFound { name: n } && n@ == name
    }

    /// What the error says in words.
    pub open spec fn spec_describe(self) -> Seq<char> {
        match self {
            ProgramError::NotFound { .. } => "program not found"@,
            ProgramError::AlreadyLoaded => "the program is already loaded"@,
            ProgramError::NotLoaded => "the program is not loaded"@,
            ProgramError::InvalidLink => "link not found"@,
            ProgramError::InvalidName => "the name holds a zero byte"@,
            ProgramError::LinkIdsExhausted => "no link id is left"@,
            ProgramError::BtfError(_) => "a debug type is missing"@,
            ProgramError::SyscallError(_) => "a system call failed"@,
        }
    }

    /// What the error says in words.
    pub fn describe(&self) -> (r: &'static str)
        ensures
            r@ == self.spec_describe(),
    {
        match self {
            ProgramError::NotFound { .. } => "program not found",
            ProgramError::AlreadyLoaded => "the program is already loaded",
            ProgramError::NotLoaded => "the program is not loaded",
            ProgramError::InvalidLink => "link not found",
            ProgramError::InvalidName => "the name holds a zero byte",
            ProgramError::LinkIdsExhausted => "no link id is left",
            ProgramError::BtfError(_) => "a debug type is missing",
            ProgramError::SyscallError(_) => "a system call failed",
        }
    }
}

/// Where a program stands in its life.
#[derive(Clone, Copy, Debug, PartialEq, Eq, Structural)]
pub enum ProgramState {
    Unloaded,
    Loaded,
    Attached,
}

/// What the kernel is asked to load a program as.
#[derive(Clone, Copy, Debug)]
pub struct LoadRequest {
    pub prog_type: u32,
    pub expected_attach_type: Option<u32>,
    pub attach_btf_id: Option<u32>,
}

/// What the kernel is asked to attach a program by: the call, and the
/// program's handle.
#[derive(Clone, Copy, Debug, PartialEq, Eq, Structural)]
pub struct AttachRequest {
    pub call: Syscall,
    pub prog_fd: i32,
}

/// What every kind of program has: its code, its handle once loaded, what
/// its kind had resolved for the load, and its attachments.
#[derive(Debug)]
pub struct ProgramData {
    pub name: Vec<u8>,
    pub obj: ObjProgram,
    pub license: Vec<u8>,
    pub expected_attach_type: Option<u32>,
    pub attach_btf_id: Option<u32>,
    /// The program's handle; set by `load`.
    pub fd: Option<i32>,
    /// The program's attachments; changed by `attach`, `detach` and
    /// `take_link`.
    pub links: Links,
}

impl ProgramData {
    /// The program's handle.
    pub open spec fn spec_fd(&self) -> Option<i32> {
        self.fd
    }

    /// The tracked attachments, oldest first.
    pub open spec fn spec_links(&self) -> Seq<LinkEntry> {
        self.links.entries()
    }

    /// The id that the next attachment gets.
    pub open spec fn next_link_id(&self) -> u64 {
        self.links.next_id()
    }

    /// The table of attachments is well formed, and only a loaded program
    /// has attachments.
    pub open spec fn wf(&self) -> bool {
        &&& self.links.wf()
        &&& self.fd is None ==> self.links.entries().len() == 0
    }

    /// Where the program stands in its life.
    pub open spec fn spec_state(&self) -> ProgramState {
        if self.spec_fd() is None {
            ProgramState::Unloaded
        } else if self.spec_links().len() == 0 {
            ProgramState::Loaded
        } else {
            ProgramState::Attached
        }
    }

    /// Whether everything but the handle and the attachments is the same.
    pub open spec fn same_code(&self, other: &ProgramData) -> bool {
        &&& self.name == other.name
        &&& self.obj == other.obj
        &&& self.license == other.license
        &&& self.expected_attach_type == other.expected_attach_type
        &&& self.attach_btf_id == other.attach_btf_id
    }

    /// An unloaded program.
    pub fn new(obj: ObjProgram, license: Vec<u8>) -> (r: ProgramData)
        ensures
            r.wf(),
            r.name@ == obj.name@,
            r.obj == obj,
            r.license == license,
            r.expected_attach_type == None::<u32>,
            r.attach_btf_id == None::<u32>,
            r.spec_fd() == None::<i32>,
            r.spec_links() == Seq::<LinkEntry>::empty(),
            r.next_link_id() == 0,
    {
        let name: Vec<u8> = copy_bytes(&obj.name);
        ProgramData {
            name,
            obj,
            license,
            expected_attach_type: None,
            attach_btf_id: None,
            fd: None,
            links: Links::new(),
        }
    }

    /// The program's handle.
    pub fn fd(&self) -> (r: Option<i32>)
        ensures
            r == self.spec_fd(),
    {
        self.fd
    }

    /// The program's handle; `NotLoaded` where it has none.
    pub fn fd_or_err(&self) -> (r: Result<i32, ProgramError>)
        ensures
            match self.spec_fd() {
                Some(fd) => r == Ok::<i32, ProgramError>(fd),
                None => r == Err::<i32, ProgramError>(ProgramError::NotLoaded),
            },
    {
        match self.fd {
            Some(fd) => Ok(fd),
            None => Err(ProgramError::NotLoaded),
        }
    }

    /// What the kernel is asked to load the program as, where its kind
    /// needs no debug type; the error of the load, where it fails before
    /// the kernel is asked.
    pub fn load_request(&self, prog_type: u32) -> (r: Result<LoadRequest, ProgramError>)
        ensures
            match self.fd {
                Some(_) => r is Err && r->Err_0 == ProgramError::AlreadyLoaded,
                None => r is Ok && r->Ok_0.prog_type == prog_type && r->Ok_0.expected_attach_type
                    == self.expected_attach_type && r->Ok_0.attach_btf_id == self.attach_btf_id,
            },
    {
        match self.fd {
            Some(_) => Err(ProgramError::AlreadyLoaded),
            None => Ok(
                LoadRequest {
                    prog_type,
                    expected_attach_type: self.expected_attach_type,
                    attach_btf_id: self.attach_btf_id,
                },
            ),
        }
    }

    /// The license as the kernel takes it: ended by a zero byte, which is
    /// added where the license lacks it.
    pub fn license_c_str(&self) -> (r: Vec<u8>)
        ensures
            r@ == if self.license@.len() > 0 && self.license@.last() == 0 {
                self.license@
            } else {
                self.license@.push(0u8)
            },
    {
        let mut out: Vec<u8> = copy_bytes(&self.license);
        let n: usize = out.len();
        if n == 0 || out[n - 1] != 0 {
            out.push(0);
        }
        out
    }

    /// Whether the program's state is well formed. It is, unless the
    /// fields were set by hand.
    pub fn check(&self) -> (r: bool)
        ensures
            r == self.wf(),
    {
        self.links.check() && (self.fd.is_some() || self.links.is_empty())
    }

    /// The tracked attachments.
    pub fn links(&self) -> (r: &Links)
        ensures
            r.entries() == self.spec_links(),
            r.next_id() == self.next_link_id(),
    {
        &self.links
    }

    /// Where the program stands in its life.
    pub fn state(&self) -> (r: ProgramState)
        ensures
            r == self.spec_state(),
    {
        if self.fd.is_none() {
            ProgramState::Unloaded
        } else if self.links.is_empty() {
            ProgramState::Loaded
        } else {
            ProgramState::Attached
        }
    }

    /// Takes the kernel's answer to the program's load.
    ///
    /// A program that is loaded already is not loaded again. Where the
    /// kernel accepted the program, it is loaded; where it refused, the
    /// program stays unloaded. Nothing else changes.
    pub fn load(&mut self, reply: Result<i32, SysError>) -> (r: Result<(), ProgramError>)
        requires
            old(self).wf(),
        ensures
            final(self).wf(),
            final(self).same_code(old(self)),
            final(self).spec_links() == old(self).spec_links(),
            final(self).next_link_id() == old(self).next_link_id(),
            old(self).spec_fd() is Some ==> r == Err::<(), ProgramError>(
                ProgramError::AlreadyLoaded,
            ) && final(self).spec_fd() == old(self).spec_fd(),
            old(self).spec_fd() is None ==> match reply {
                Ok(fd) => r is Ok && final(self).spec_fd() == Some(fd),
                Err(error) => r == Err::<(), ProgramError>(
                    ProgramError::SyscallError(SyscallError { call: Syscall::BpfProgLoad, error }),
                ) && final(self).spec_fd() is None,
            },
    {
        if self.fd.is_some() {
            return Err(ProgramError::AlreadyLoaded);
        }
        match reply {
            Ok(fd) => {
                self.fd = Some(fd);
                Ok(())
            },
            Err(error) => Err(
                ProgramError::SyscallError(SyscallError { call: Syscall::BpfProgLoad, error }),
            ),
        }
    }

    /// Takes the kernel's answer to the call `call` that attaches the
    /// program: the attachment, or the failure.
    ///
    /// A program that is not loaded cannot be attached. A new attachment is
    /// tracked under the next id, behind the others. A failure changes
    /// nothing.
    pub fn attach(&mut self, call: Syscall, reply: Result<Link, SysError>) -> (r: Result<
        LinkId,
        ProgramError,
    >)
        requires
            old(self).wf(),
        ensures
            final(self).wf(),
            final(self).same_code(old(self)),
            final(self).spec_fd() == old(self).spec_fd(),
            r is Err ==> final(self).spec_links() == old(self).spec_links() && final(self).next_link_id() == old(self).next_link_id(),
            old(self).spec_fd() is None ==> r == Err::<LinkId, ProgramError>(
                ProgramError::NotLoaded,
            ),
            old(self).spec_fd() is Some ==> match reply {
                Err(error) => r == Err::<LinkId, ProgramError>(
                    ProgramError::SyscallError(SyscallError { call, error }),
                ),
                Ok(link) => if old(self).next_link_id() == u64::MAX {
                    r == Err::<LinkId, ProgramError>(ProgramError::LinkIdsExhausted)
                } else {
                    &&& r == Ok::<LinkId, ProgramError>(LinkId(old(self).next_link_id()))
                    &&& final(self).next_link_id() == old(self).next_link_id() + 1
                    &&& final(self).spec_links() == old(self).spec_links().push(
                        LinkEntry { id: LinkId(old(self).next_link_id()), link },
                    )
                },
            },
    {
        if self.fd.is_none() {
            return Err(ProgramError::NotLoaded);
        }
        match reply {
            Err(error) => Err(ProgramError::SyscallError(SyscallError { call, error })),
            Ok(link) => match self.links.insert(link) {
                Some(id) => Ok(id),
                None => Err(ProgramError::LinkIdsExhausted),
            },
        }
    }

    /// Stops tracking the attachment `link_id` and hands it out, for the
    /// caller to undo it.
    ///
    /// It fails with `InvalidLink`, and changes nothing, where the program
    /// tracks no such attachment. The program stays loaded.
    pub fn detach(&mut self, link_id: LinkId) -> (r: Result<Link, ProgramError>)
        requires
            old(self).wf(),
        ensures
            final(self).wf(),
            final(self).same_code(old(self)),
            final(self).spec_fd() == old(self).spec_fd(),
            final(self).next_link_id() == old(self).next_link_id(),
            r is Ok <==> tracks(old(self).spec_links(), link_id),
            r is Err ==> r->Err_0 == ProgramError::InvalidLink && final(self).spec_links() == old(self).spec_links(),
            r is Ok ==> {
                let at = position_of(old(self).spec_links(), link_id);
                &&& r->Ok_0 == old(self).spec_links()[at].link
                &&& final(self).spec_links() == old(self).spec_links().remove(at)
                &&& !tracks(final(self).spec_links(), link_id)
            },
    {
        match self.links.remove(link_id) {
            Some(link) => Ok(link),
            None => Err(ProgramError::InvalidLink),
        }
    }

    /// Hands the attachment `link_id` over to the caller, who from then on
    /// answers for it. The program no longer tracks it.
    ///
    /// It fails with `InvalidLink`, and changes nothing, where the program
    /// tracks no such attachment. The program stays loaded.
    pub fn take_link(&mut self, link_id: LinkId) -> (r: Result<Link, ProgramError>)
        requires
            old(self).wf(),
        ensures
            final(self).wf(),
            final(self).same_code(old(self)),
            final(self).spec_fd() == old(self).spec_fd(),
            final(self).next_link_id() == old(self).next_link_id(),
            r is Ok <==> tracks(old(self).spec_links(), link_id),
            r is Err ==> r->Err_0 == ProgramError::InvalidLink && final(self).spec_links() == old(self).spec_links(),
            r is Ok ==> {
                let at = position_of(old(self).spec_links(), link_id);
                &&& r->Ok_0 == old(self).spec_links()[at].link
                &&& final(self).spec_links() == old(self).spec_links().remove(at)
                &&& !tracks(final(self).spec_links(), link_id)
            },
    {
        match self.links.remove(link_id) {
            Some(link) => Ok(link),
            None => Err(ProgramError::InvalidLink),
        }
    }

    /// Unloads the program: it forgets its handle and its attachments, and
    /// hands them out for the caller to close, the attachments oldest
    /// first. Ids that were handed out are not handed out again.
    pub fn unload(&mut self) -> (r: (Option<i32>, Vec<LinkEntry>))
        requires
            old(self).wf(),
        ensures
            final(self).wf(),
            final(self).same_code(old(self)),
            final(self).fd is None,
            final(self).spec_links() == Seq::<LinkEntry>::empty(),
            final(self).next_link_id() == old(self).next_link_id(),
            r.0 == old(self).fd,
            r.1@ == old(self).spec_links(),
    {
        let fd: Option<i32> = self.fd;
        self.fd = None;
        (fd, self.links.take_all())
    }
}

/// Program type: a filter on a socket.
pub const BPF_PROG_TYPE_SOCKET_FILTER: u32 = 1;

/// Program type: a probe at a function.
pub const BPF_PROG_TYPE_KPROBE: u32 = 2;

/// Program type: a classifier of network traffic.
pub const BPF_PROG_TYPE_SCHED_CLS: u32 = 3;

/// Program type: a program at a tracepoint.
pub const BPF_PROG_TYPE_TRACEPOINT: u32 = 5;

/// Program type: a program on the receive path of a network device.
pub const BPF_PROG_TYPE_XDP: u32 = 6;

/// Program type: a program on the operations of a socket.
pub const BPF_PROG_TYPE_SOCK_OPS: u32 = 13;

/// Program type: a stream parser or verdict on a socket map.
pub const BPF_PROG_TYPE_SK_SKB: u32 = 14;

/// Program type: a program on the messages of a socket map.
pub const BPF_PROG_TYPE_SK_MSG: u32 = 16;

/// Program type: a raw tracepoint probe.
pub const BPF_PROG_TYPE_RAW_TRACEPOINT: u32 = 17;

/// Program type: a program that attaches to a debug type.
pub const BPF_PROG_TYPE_TRACING: u32 = 26;

/// Program type: a program on a security hook.
pub const BPF_PROG_TYPE_LSM: u32 = 29;

/// Attach type: the entry of a kernel function.
pub const BPF_TRACE_FENTRY: u32 = 24;

/// Attach type: the exit of a kernel function.
pub const BPF_TRACE_FEXIT: u32 = 25;

/// Attach type: a security hook.
pub const BPF_LSM_MAC: u32 = 27;

/// Attach type: an iterator.
pub const BPF_TRACE_ITER: u32 = 28;

/// The kernel's number of the program type that programs of kind `kind`
/// are loaded as.
pub open spec fn spec_prog_type(kind: ProgramKind) -> u32 {
    match kind {
        ProgramKind::KProbe | ProgramKind::KRetProbe | ProgramKind::UProbe
        | ProgramKind::URetProbe => BPF_PROG_TYPE_KPROBE,
        ProgramKind::TracePoint => BPF_PROG_TYPE_TRACEPOINT,
        ProgramKind::RawTracePoint => BPF_PROG_TYPE_RAW_TRACEPOINT,
        ProgramKind::SocketFilter => BPF_PROG_TYPE_SOCKET_FILTER,
        ProgramKind::Xdp => BPF_PROG_TYPE_XDP,
        ProgramKind::SkMsg => BPF_PROG_TYPE_SK_MSG,
        ProgramKind::SkSkbStreamParser | ProgramKind::SkSkbStreamVerdict => BPF_PROG_TYPE_SK_SKB,
        ProgramKind::SockOps => BPF_PROG_TYPE_SOCK_OPS,
        ProgramKind::SchedClassifier => BPF_PROG_TYPE_SCHED_CLS,
        ProgramKind::Lsm => BPF_PROG_TYPE_LSM,
        ProgramKind::FEntry | ProgramKind::FExit | ProgramKind::Iter => BPF_PROG_TYPE_TRACING,
    }
}

/// Whether programs of kind `kind` attach to a debug type, whose id their
/// load has to resolve.
pub open spec fn spec_needs_debug_type(kind: ProgramKind) -> bool {
    kind == ProgramKind::Lsm || kind == ProgramKind::FEntry || kind == ProgramKind::FExit || kind
        == ProgramKind::Iter
}

/// The call that attaches a program of kind `kind`: the generic creation of
/// a link, or the older call of the kinds that came before it.
pub open spec fn spec_attach_call(kind: ProgramKind) -> Syscall {
    match kind {
        ProgramKind::KProbe | ProgramKind::KRetProbe | ProgramKind::UProbe
        | ProgramKind::URetProbe | ProgramKind::TracePoint => Syscall::PerfEventOpen,
        ProgramKind::RawTracePoint | ProgramKind::Lsm | ProgramKind::FEntry
        | ProgramKind::FExit => Syscall::BpfRawTracepointOpen,
        ProgramKind::SkMsg | ProgramKind::SkSkbStreamParser | ProgramKind::SkSkbStreamVerdict
        | ProgramKind::SockOps => Syscall::BpfProgAttach,
        ProgramKind::SocketFilter | ProgramKind::Xdp | ProgramKind::SchedClassifier
        | ProgramKind::Iter => Syscall::BpfLinkCreate,
    }
}

/// The attachment that the call `call` made for the program `prog_fd`, given
/// the descriptor `fd` that the call returned or, where the call returns
/// none, was made on.
pub open spec fn spec_attach_link(call: Syscall, prog_fd: i32, fd: i32) -> Link {
    match call {
        Syscall::PerfEventOpen => Link::Perf(PerfLink { perf_fd: fd }),
        Syscall::BpfProgAttach => Link::ProgAttach(ProgAttachLink { prog_fd, target_fd: fd }),
        _ => Link::Fd(FdLink { fd }),
    }
}

/// The kernel's number of the program type of kind `kind`.
pub fn prog_type_of(kind: ProgramKind) -> (r: u32)
    ensures
        r == spec_prog_type(kind),
{
    match kind {
        ProgramKind::KProbe | ProgramKind::KRetProbe | ProgramKind::UProbe
        | ProgramKind::URetProbe => BPF_PROG_TYPE_KPROBE,
        ProgramKind::TracePoint => BPF_PROG_TYPE_TRACEPOINT,
        ProgramKind::RawTracePoint => BPF_PROG_TYPE_RAW_TRACEPOINT,
        ProgramKind::SocketFilter => BPF_PROG_TYPE_SOCKET_FILTER,
        ProgramKind::Xdp => BPF_PROG_TYPE_XDP,
        ProgramKind::SkMsg => BPF_PROG_TYPE_SK_MSG,
        ProgramKind::SkSkbStreamParser | ProgramKind::SkSkbStreamVerdict => BPF_PROG_TYPE_SK_SKB,
        ProgramKind::SockOps => BPF_PROG_TYPE_SOCK_OPS,
        ProgramKind::SchedClassifier => BPF_PROG_TYPE_SCHED_CLS,
        ProgramKind::Lsm => BPF_PROG_TYPE_LSM,
        ProgramKind::FEntry | ProgramKind::FExit | ProgramKind::Iter => BPF_PROG_TYPE_TRACING,
    }
}

/// Whether programs of kind `kind` attach to a debug type.
pub fn needs_debug_type(kind: ProgramKind) -> (r: bool)
    ensures
        r == spec_needs_debug_type(kind),
{
    match kind {
        ProgramKind::Lsm | ProgramKind::FEntry | ProgramKind::FExit | ProgramKind::Iter => true,
        _ => false,
    }
}

/// The call that attaches a program of kind `kind`.
pub fn attach_call(kind: ProgramKind) -> (r: Syscall)
    ensures
        r == spec_attach_call(kind),
{
    match kind {
        ProgramKind::KProbe | ProgramKind::KRetProbe | ProgramKind::UProbe
        | ProgramKind::URetProbe | ProgramKind::TracePoint => Syscall::PerfEventOpen,
        ProgramKind::RawTracePoint | ProgramKind::Lsm | ProgramKind::FEntry
        | ProgramKind::FExit => Syscall::BpfRawTracepointOpen,
        ProgramKind::SkMsg | ProgramKind::SkSkbStreamParser | ProgramKind::SkSkbStreamVerdict
        | ProgramKind::SockOps => Syscall::BpfProgAttach,
        ProgramKind::SocketFilter | ProgramKind::Xdp | ProgramKind::SchedClassifier
        | ProgramKind::Iter => Syscall::BpfLinkCreate,
    }
}

/// The attachment that the call `call` made.
pub fn attach_link(call: Syscall, prog_fd: i32, fd: i32) -> (r: Link)
    ensures
        r == spec_attach_link(call, prog_fd, fd),
{
    match call {
        Syscall::PerfEventOpen => Link::Perf(PerfLink { perf_fd: fd }),
        Syscall::BpfProgAttach => Link::ProgAttach(ProgAttachLink { prog_fd, target_fd: fd }),
        _ => Link::Fd(FdLink { fd }),
    }
}

/// A probe at the entry of a kernel function, or at its return.
#[derive(Debug)]
pub struct KProbe {
    pub data: ProgramData,
}

/// A probe at the entry of a function of a user program, or at its return.
#[derive(Debug)]
pub struct UProbe {
    pub data: ProgramData,
}

/// A program at a tracepoint of the kernel.
#[derive(Debug)]
pub struct TracePoint {
    pub data: ProgramData,
}

/// A filter on a socket.
#[derive(Debug)]
pub struct SocketFilter {
    pub data: ProgramData,
}

/// A program on the receive path of a network device.
#[derive(Debug)]
pub struct Xdp {
    pub data: ProgramData,
}

/// A program on the messages of a socket map.
#[derive(Debug)]
pub struct SkMsg {
    pub data: ProgramData,
}

/// A stream parser or a stream verdict on a socket map.
#[derive(Debug)]
pub struct SkSkb {
    pub data: ProgramData,
}

/// A program on the operations of a socket.
#[derive(Debug)]
pub struct SockOps {
    pub data: ProgramData,
}

/// A classifier of network traffic.
#[derive(Debug)]
pub struct SchedClassifier {
    pub data: ProgramData,
}

/// A raw tracepoint probe.
#[derive(Debug)]
pub struct RawTracePoint {
    pub data: ProgramData,
}

/// A program on a security hook of the kernel.
#[derive(Debug)]
pub struct Lsm {
    pub data: ProgramData,
}

/// A probe at the entry of a kernel function, by its debug type.
#[derive(Debug)]
pub struct FEntry {
    pub data: ProgramData,
}

/// A probe at the exit of a kernel function, by its debug type.
#[derive(Debug)]
pub struct FExit {
    pub data: ProgramData,
}

/// A program that walks a collection of the kernel and writes what it
/// finds to a file-like session.
#[derive(Debug)]
pub struct Iter {
    pub data: ProgramData,
}

/// A program, tagged by its kind.
#[derive(Debug)]
pub enum Program {
    KProbe(KProbe),
    UProbe(UProbe),
    TracePoint(TracePoint),
    SocketFilter(SocketFilter),
    Xdp(Xdp),
    SkMsg(SkMsg),
    SkSkb(SkSkb),
    SockOps(SockOps),
    SchedClassifier(SchedClassifier),
    RawTracePoint(RawTracePoint),
    Lsm(Lsm),
    FEntry(FEntry),
    FExit(FExit),
    Iter(Iter),
}

impl Program {
    /// What the program has in common with every other.
    pub open spec fn spec_data(&self) -> ProgramData {
        match *self {
            Program::KProbe(p) => p.data,
            Program::UProbe(p) => p.data,
            Program::TracePoint(p) => p.data,
            Program::SocketFilter(p) => p.data,
            Program::Xdp(p) => p.data,
            Program::SkMsg(p) => p.data,
            Program::SkSkb(p) => p.data,
            Program::SockOps(p) => p.data,
            Program::SchedClassifier(p) => p.data,
            Program::RawTracePoint(p) => p.data,
            Program::Lsm(p) => p.data,
            Program::FEntry(p) => p.data,
            Program::FExit(p) => p.data,
            Program::Iter(p) => p.data,
        }
    }

    /// Whether the variant is the one for programs of kind `kind`.
    pub open spec fn is_of_kind(&self, kind: ProgramKind) -> bool {
        match kind {
            ProgramKind::KProbe | ProgramKind::KRetProbe => *self is KProbe,
            ProgramKind::UProbe | ProgramKind::URetProbe => *self is UProbe,
            ProgramKind::TracePoint => *self is TracePoint,
            ProgramKind::RawTracePoint => *self is RawTracePoint,
            ProgramKind::SocketFilter => *self is SocketFilter,
            ProgramKind::Xdp => *self is Xdp,
            ProgramKind::SkMsg => *self is SkMsg,
            ProgramKind::SkSkbStreamParser | ProgramKind::SkSkbStreamVerdict => *self is SkSkb,
            ProgramKind::SockOps => *self is SockOps,
            ProgramKind::SchedClassifier => *self is SchedClassifier,
            ProgramKind::Lsm => *self is Lsm,
            ProgramKind::FEntry => *self is FEntry,
            ProgramKind::FExit => *self is FExit,
            ProgramKind::Iter => *self is Iter,
        }
    }

    /// The kind that the program's section named.
    pub open spec fn spec_kind(&self) -> ProgramKind {
        self.spec_data().obj.kind
    }

    /// The variant agrees with the kind that the section named, and the
    /// program's state is well formed.
    pub open spec fn wf(&self) -> bool {
        self.is_of_kind(self.spec_kind()) && self.spec_data().wf()
    }

    /// The unloaded program that stands for `data`, tagged by the kind
    /// that its section named.
    pub fn new(data: ProgramData) -> (r: Program)
        ensures
            r.spec_data() == data,
            r.is_of_kind(data.obj.kind),
    {
        match data.obj.kind {
            ProgramKind::KProbe | ProgramKind::KRetProbe => Program::KProbe(KProbe { data }),
            ProgramKind::UProbe | ProgramKind::URetProbe => Program::UProbe(UProbe { data }),
            ProgramKind::TracePoint => Program::TracePoint(TracePoint { data }),
            ProgramKind::RawTracePoint => Program::RawTracePoint(RawTracePoint { data }),
            ProgramKind::SocketFilter => Program::SocketFilter(SocketFilter { data }),
            ProgramKind::Xdp => Program::Xdp(Xdp { data }),
            ProgramKind::SkMsg => Program::SkMsg(SkMsg { data }),
            ProgramKind::SkSkbStreamParser | ProgramKind::SkSkbStreamVerdict => Program::SkSkb(
                SkSkb { data },
            ),
            ProgramKind::SockOps => Program::SockOps(SockOps { data }),
            ProgramKind::SchedClassifier => Program::SchedClassifier(SchedClassifier { data }),
            ProgramKind::Lsm => Program::Lsm(Lsm { data }),
            ProgramKind::FEntry => Program::FEntry(FEntry { data }),
            ProgramKind::FExit => Program::FExit(FExit { data }),
            ProgramKind::Iter => Program::Iter(Iter { data }),
        }
    }

    /// What the program has in common with every other.
    pub fn data(&self) -> (r: &ProgramData)
        ensures
            *r == self.spec_data(),
    {
        match self {
            Program::KProbe(p) => &p.data,
            Program::UProbe(p) => &p.data,
            Program::TracePoint(p) => &p.data,
            Program::SocketFilter(p) => &p.data,
            Program::Xdp(p) => &p.data,
            Program::SkMsg(p) => &p.data,
            Program::SkSkb(p) => &p.data,
            Program::SockOps(p) => &p.data,
            Program::SchedClassifier(p) => &p.data,
            Program::RawTracePoint(p) => &p.data,
            Program::Lsm(p) => &p.data,
            Program::FEntry(p) => &p.data,
            Program::FExit(p) => &p.data,
            Program::Iter(p) => &p.data,
        }
    }

    /// What the program has in common with every other, to change it.
    pub fn data_mut(&mut self) -> (r: &mut ProgramData)
        ensures
            *r == old(self).spec_data(),
            final(self).spec_data() == *final(r),
            forall|kind: ProgramKind| final(self).is_of_kind(kind) == old(self).is_of_kind(kind),
    {
        match self {
            Program::KProbe(p) => &mut p.data,
            Program::UProbe(p) => &mut p.data,
            Program::TracePoint(p) => &mut p.data,
            Program::SocketFilter(p) => &mut p.data,
            Program::Xdp(p) => &mut p.data,
            Program::SkMsg(p) => &mut p.data,
            Program::SkSkb(p) => &mut p.data,
            Program::SockOps(p) => &mut p.data,
            Program::SchedClassifier(p) => &mut p.data,
            Program::RawTracePoint(p) => &mut p.data,
            Program::Lsm(p) => &mut p.data,
            Program::FEntry(p) => &mut p.data,
            Program::FExit(p) => &mut p.data,
            Program::Iter(p) => &mut p.data,
        }
    }

    /// Whether the variant agrees with the kind and the program's state is
    /// well formed. It is, unless the fields were set by hand.
    pub fn check(&self) -> (r: bool)
        ensures
            r == self.wf(),
    {
        let fits: bool = match self.data().obj.kind {
            ProgramKind::KProbe | ProgramKind::KRetProbe => matches!(self, Program::KProbe(_)),
            ProgramKind::UProbe | ProgramKind::URetProbe => matches!(self, Program::UProbe(_)),
            ProgramKind::TracePoint => matches!(self, Program::TracePoint(_)),
            ProgramKind::RawTracePoint => matches!(self, Program::RawTracePoint(_)),
            ProgramKind::SocketFilter => matches!(self, Program::SocketFilter(_)),
            ProgramKind::Xdp => matches!(self, Program::Xdp(_)),
            ProgramKind::SkMsg => matches!(self, Program::SkMsg(_)),
            ProgramKind::SkSkbStreamParser | ProgramKind::SkSkbStreamVerdict => matches!(
                self,
                Program::SkSkb(_)
            ),
            ProgramKind::SockOps => matches!(self, Program::SockOps(_)),
            ProgramKind::SchedClassifier => matches!(self, Program::SchedClassifier(_)),
            ProgramKind::Lsm => matches!(self, Program::Lsm(_)),
            ProgramKind::FEntry => matches!(self, Program::FEntry(_)),
            ProgramKind::FExit => matches!(self, Program::FExit(_)),
            ProgramKind::Iter => matches!(self, Program::Iter(_)),
        };
        fits && self.data().check()
    }

    /// What the kernel is asked to load the program as; the error of
    /// `load`, where it fails before the kernel is asked.
    pub fn load_request(&self) -> (r: Result<LoadRequest, ProgramError>)
        ensures
            if spec_needs_debug_type(self.spec_kind()) {
                r is Err && r->Err_0 == ProgramError::BtfError(BtfError::UnknownBtfTypeName)
            } else {
                match self.spec_data().fd {
                    Some(_) => r is Err && r->Err_0 == ProgramError::AlreadyLoaded,
                    None => r is Ok && r->Ok_0.prog_type == spec_prog_type(self.spec_kind())
                        && r->Ok_0.expected_attach_type == self.spec_data().expected_attach_type
                        && r->Ok_0.attach_btf_id == self.spec_data().attach_btf_id,
                }
            },
    {
        if needs_debug_type(self.kind()) {
            return Err(ProgramError::BtfError(BtfError::UnknownBtfTypeName));
        }
        self.data().load_request(prog_type_of(self.kind()))
    }

    /// What the kernel is asked to attach the program by: the call of the
    /// program's kind; the error of `attach`, where it fails before the
    /// kernel is asked.
    pub fn attach_request(&self) -> (r: Result<AttachRequest, ProgramError>)
        ensures
            match self.spec_data().fd {
                None => r is Err && r->Err_0 == ProgramError::NotLoaded,
                Some(prog_fd) => r is Ok && r->Ok_0 == (AttachRequest {
                    call: spec_attach_call(self.spec_kind()),
                    prog_fd,
                }),
            },
    {
        match self.data().fd {
            None => Err(ProgramError::NotLoaded),
            Some(prog_fd) => Ok(AttachRequest { call: attach_call(self.kind()), prog_fd }),
        }
    }

    /// The kind that the program's section named.
    pub fn kind(&self) -> (r: ProgramKind)
        ensures
            r == self.spec_kind(),
    {
        self.data().obj.kind
    }

    /// The kernel's number of the program's type.
    pub fn prog_type(&self) -> (r: u32)
        ensures
            r == spec_prog_type(self.spec_kind()),
    {
        prog_type_of(self.data().obj.kind)
    }

    /// A copy of the program's name.
    pub fn name(&self) -> (r: Vec<u8>)
        ensures
            r@ == self.spec_data().name@,
    {
        copy_bytes(&self.data().name)
    }

    /// Takes the kernel's answer to the program's load, as
    /// `ProgramData::load` does.
    ///
    /// A program whose kind attaches to a debug type is not loaded this
    /// way: its own `load` resolves the type. Here it is refused with the
    /// debug-type error, and stays as it was.
    pub fn load(&mut self, reply: Result<i32, SysError>) -> (r: Result<(), ProgramError>)
        requires
            old(self).wf(),
        ensures
            final(self).wf(),
            final(self).spec_data().same_code(&old(self).spec_data()),
            final(self).spec_data().spec_links() == old(self).spec_data().spec_links(),
            final(self).spec_data().next_link_id() == old(self).spec_data().next_link_id(),
            spec_needs_debug_type(old(self).spec_kind()) ==> r == Err::<(), ProgramError>(
                ProgramError::BtfError(BtfError::UnknownBtfTypeName),
            ) && final(self).spec_data().fd == old(self).spec_data().fd,
            !spec_needs_debug_type(old(self).spec_kind()) && old(self).spec_data().fd is Some
                ==> r == Err::<(), ProgramError>(ProgramError::AlreadyLoaded) && final(self).spec_data().fd == old(self).spec_data().fd,
            !spec_needs_debug_type(old(self).spec_kind()) && old(self).spec_data().fd is None
                ==> match reply {
                Ok(fd) => r is Ok && final(self).spec_data().fd == Some(fd),
                Err(error) => r == Err::<(), ProgramError>(
                    ProgramError::SyscallError(SyscallError { call: Syscall::BpfProgLoad, error }),
                ) && final(self).spec_data().fd is None,
            },
    {
        if needs_debug_type(self.kind()) {
            return Err(ProgramError::BtfError(BtfError::UnknownBtfTypeName));
        }
        self.data_mut().load(reply)
    }

    /// Takes the kernel's answer to the call that attaches a program of
    /// this kind: the descriptor that the call returned, or the failure.
    ///
    /// The call is `spec_attach_call` of the kind, and the attachment that
    /// is tracked on success is `spec_attach_link` of the call.
    pub fn attach(&mut self, reply: Result<i32, SysError>) -> (r: Result<LinkId, ProgramError>)
        requires
            old(self).wf(),
        ensures
            final(self).wf(),
            final(self).spec_data().same_code(&old(self).spec_data()),
            final(self).spec_data().fd == old(self).spec_data().fd,
            r is Err ==> final(self).spec_data().spec_links() == old(self).spec_data().spec_links()
                && final(self).spec_data().next_link_id() == old(self).spec_data().next_link_id(),
            old(self).spec_data().fd is None ==> r == Err::<LinkId, ProgramError>(
                ProgramError::NotLoaded,
            ),
            old(self).spec_data().fd is Some ==> match reply {
                Err(error) => r == Err::<LinkId, ProgramError>(
                    ProgramError::SyscallError(
                        SyscallError { call: spec_attach_call(old(self).spec_kind()), error },
                    ),
                ),
                Ok(fd) => if old(self).spec_data().next_link_id() == u64::MAX {
                    r == Err::<LinkId, ProgramError>(ProgramError::LinkIdsExhausted)
                } else {
                    &&& r == Ok::<LinkId, ProgramError>(
                        LinkId(old(self).spec_data().next_link_id()),
                    )
                    &&& final(self).spec_data().next_link_id() == old(self).spec_data().next_link_id() + 1
                    &&& final(self).spec_data().spec_links() == old(self).spec_data().spec_links().push(
                        LinkEntry {
                            id: LinkId(old(self).spec_data().next_link_id()),
                            link: spec_attach_link(
                                spec_attach_call(old(self).spec_kind()),
                                old(self).spec_data().fd->Some_0,
                                fd,
                            ),
                        },
                    )
                },
            },
    {
        let call: Syscall = attach_call(self.kind());
        let prog_fd: i32 = match self.data().fd {
            Some(fd) => fd,
            None => {
                return Err(ProgramError::NotLoaded);
            },
        };
        let reply: Result<Link, SysError> = match reply {
            Ok(fd) => Ok(attach_link(call, prog_fd, fd)),
            Err(e) => Err(e),
        };
        self.data_mut().attach(call, reply)
    }

    /// Stops tracking the attachment `link_id`, as `ProgramData::detach`
    /// does.
    pub fn detach(&mut self, link_id: LinkId) -> (r: Result<Link, ProgramError>)
        requires
            old(self).wf(),
        ensures
            final(self).wf(),
            final(self).spec_data().same_code(&old(self).spec_data()),
            final(self).spec_data().fd == old(self).spec_data().fd,
            final(self).spec_data().next_link_id() == old(self).spec_data().next_link_id(),
            r is Ok <==> tracks(old(self).spec_data().spec_links(), link_id),
            r is Err ==> r->Err_0 == ProgramError::InvalidLink && final(self).spec_data().spec_links() == old(self).spec_data().spec_links(),
            r is Ok ==> {
                let at = position_of(old(self).spec_data().spec_links(), link_id);
                &&& r->Ok_0 == old(self).spec_data().spec_links()[at].link
                &&& final(self).spec_data().spec_links() == old(self).spec_data().spec_links().remove(at)
                &&& !tracks(final(self).spec_data().spec_links(), link_id)
            },
    {
        self.data_mut().detach(link_id)
    }

    /// Hands the attachment `link_id` over to the caller, as
    /// `ProgramData::take_link` does.
    pub fn take_link(&mut self, link_id: LinkId) -> (r: Result<Link, ProgramError>)
        requires
            old(self).wf(),
        ensures
            final(self).wf(),
            final(self).spec_data().same_code(&old(self).spec_data()),
            final(self).spec_data().fd == old(self).spec_data().fd,
            final(self).spec_data().next_link_id() == old(self).spec_data().next_link_id(),
            r is Ok <==> tracks(old(self).spec_data().spec_links(), link_id),
            r is Err ==> r->Err_0 == ProgramError::InvalidLink && final(self).spec_data().spec_links() == old(self).spec_data().spec_links(),
            r is Ok ==> {
                let at = position_of(old(self).spec_data().spec_links(), link_id);
                &&& r->Ok_0 == old(self).spec_data().spec_links()[at].link
                &&& final(self).spec_data().spec_links() == old(self).spec_data().spec_links().remove(at)
                &&& !tracks(final(self).spec_data().spec_links(), link_id)
            },
    {
        self.data_mut().take_link(link_id)
    }
}

} // verus!
