//! Iterators: programs that walk a collection of the kernel and write what
//! they find to a file-like session.

use vstd::prelude::*;
use vstd::string::StringSliceAdditionalSpecFns;
use crate::obj::btf::Btf;
use crate::bytes::concat;
use crate::programs::links::{position_of, tracks, FdLink, Link, LinkError, LinkId};
use crate::programs::lsm::{
    attach_request, attached_by_fd, load_by_type_name, load_request_by_type_name,
    loaded_by_type_name, requested_by_type_name,
};
use crate::programs::{
    AttachRequest, Iter, LoadRequest, ProgramData, ProgramError, BPF_PROG_TYPE_TRACING, BPF_TRACE_ITER,
};
use crate::sys::{SysError, Syscall, SyscallError};

verus! {

/// The kernel's number of the link type of an iterator's attachment.
pub const BPF_LINK_TYPE_ITER: u32 = 4;

/// The name of the debug type that stands for iterators over `iter_type`.
pub open spec fn iter_type_name(iter_type: Seq<u8>) -> Seq<u8> {
    "bpf_iter_".spec_bytes() + iter_type
}

/// The attachment of an iterator program.
#[derive(Clone, Copy, Debug, PartialEq, Eq, Structural)]
pub struct IterLink {
    pub inner: Link,
}

/// The descriptor of a read session of an iterator.
///
/// The session is read once, from its start to its end. When the kernel has
/// nothing more to give, the session has ended, and reading on gives
/// nothing, which is no error.
#[derive(Clone, Copy, Debug, PartialEq, Eq, Structural)]
pub struct IterFd {
    pub fd: i32,
    /// Whether the end of the session has been read.
    pub ended: bool,
}

impl IterFd {
    /// A session that has not been read yet.
    pub fn from_fd(fd: i32) -> (r: IterFd)
        ensures
            r == (IterFd { fd, ended: false }),
    {
        IterFd { fd, ended: false }
    }

    /// The session's descriptor.
    pub fn as_fd(&self) -> (r: i32)
        ensures
            r == self.fd,
    {
        self.fd
    }

    /// Whether the kernel is to be asked at all: a session that has ended
    /// gives nothing more.
    pub fn wants_read(&self) -> (r: bool)
        ensures
            r == !self.ended,
    {
        !self.ended
    }

    /// Takes the kernel's answer to a read of the session: the number of
    /// bytes that it gave, or the failure.
    ///
    /// A session that has ended gives nothing more, whatever the answer. An
    /// answer of no bytes ends the session. A failure is reported and leaves
    /// the session as it was.
    pub fn read(&mut self, reply: Result<usize, SysError>) -> (r: Result<usize, SysError>)
        ensures
            final(self).fd == old(self).fd,
            old(self).ended ==> r == Ok::<usize, SysError>(0) && final(self).ended,
            !old(self).ended ==> r == reply && final(self).ended == (reply == Ok::<
                usize,
                SysError,
            >(0)),
    {
        if self.ended {
            return Ok(0);
        }
        match reply {
            Ok(n) => {
                if n == 0 {
                    self.ended = true;
                }
                Ok(n)
            },
            Err(e) => Err(e),
        }
    }
}

impl FdLink {
    /// The descriptor-based attachment inside an iterator's attachment;
    /// `InvalidLink` where the attachment is of another kind.
    pub fn try_from(value: IterLink) -> (r: Result<FdLink, LinkError>)
        ensures
            match value.inner {
                Link::Fd(fd) => r == Ok::<FdLink, LinkError>(fd),
                _ => r == Err::<FdLink, LinkError>(LinkError::InvalidLink),
            },
    {
        match value.into_inner() {
            Link::Fd(fd) => Ok(fd),
            _ => Err(LinkError::InvalidLink),
        }
    }
}

impl IterLink {
    /// Wraps an attachment.
    pub fn new(inner: Link) -> (r: IterLink)
        ensures
            r.inner == inner,
    {
        IterLink { inner }
    }

    /// The attachment inside.
    pub fn into_inner(self) -> (r: Link)
        ensures
            r == self.inner,
    {
        self.inner
    }

    /// Sees a descriptor-based attachment as an iterator's, given the
    /// kernel's answer `info` to the question for the attachment's link
    /// type.
    ///
    /// It fails with the call's failure, and with `InvalidLink` where the
    /// link type is not that of an iterator.
    pub fn try_from(fd_link: FdLink, info: Result<u32, SysError>) -> (r: Result<
        IterLink,
        LinkError,
    >)
        ensures
            match info {
                Err(error) => r == Err::<IterLink, LinkError>(
                    LinkError::SyscallError(
                        SyscallError { call: Syscall::BpfLinkGetInfoByFd, error },
                    ),
                ),
                Ok(link_type) => if link_type == BPF_LINK_TYPE_ITER {
                    r == Ok::<IterLink, LinkError>(IterLink { inner: Link::Fd(fd_link) })
                } else {
                    r == Err::<IterLink, LinkError>(LinkError::InvalidLink)
                },
            },
    {
        match info {
            Err(error) => Err(
                LinkError::SyscallError(SyscallError { call: Syscall::BpfLinkGetInfoByFd, error }),
            ),
            Ok(link_type) => {
                if link_type == BPF_LINK_TYPE_ITER {
                    Ok(IterLink::new(Link::Fd(fd_link)))
                } else {
                    Err(LinkError::InvalidLink)
                }
            },
        }
    }

    /// The descriptor of which the kernel is asked to create a read
    /// session; `InvalidLink`, as `create_iter` gives it whatever the
    /// kernel answered, where the attachment is not descriptor-based.
    pub fn iter_request(&self) -> (r: Result<i32, LinkError>)
        ensures
            match self.inner {
                Link::Fd(link) => r == Ok::<i32, LinkError>(link.fd),
                _ => r == Err::<i32, LinkError>(LinkError::InvalidLink),
            },
    {
        match self.inner {
            Link::Fd(link) => Ok(link.fd),
            _ => Err(LinkError::InvalidLink),
        }
    }

    /// Creates an iterator: turns the attachment, which the caller has
    /// taken from its program, into a read session.
    ///
    /// `reply` is the kernel's answer to the creation of the session. An
    /// attachment that is not descriptor-based gives `InvalidLink`,
    /// whatever the answer.
    pub fn create_iter(self, reply: Result<i32, SysError>) -> (r: Result<IterFd, LinkError>)
        ensures
            match self.inner {
                Link::Fd(_) => match reply {
                    Ok(fd) => r == Ok::<IterFd, LinkError>(IterFd { fd, ended: false }),
                    Err(error) => r == Err::<IterFd, LinkError>(
                        LinkError::SyscallError(
                            SyscallError { call: Syscall::BpfIterCreate, error },
                        ),
                    ),
                },
                _ => r == Err::<IterFd, LinkError>(LinkError::InvalidLink),
            },
    {
        match self.into_inner() {
            Link::Fd(_) => match reply {
                Ok(fd) => Ok(IterFd::from_fd(fd)),
                Err(error) => Err(
                    LinkError::SyscallError(SyscallError { call: Syscall::BpfIterCreate, error }),
                ),
            },
            _ => Err(LinkError::InvalidLink),
        }
    }
}

impl Iter {
    /// What the kernel is asked to load the program as, for iterators over
    /// `iter_type`; the error of the load, where it fails before the kernel
    /// is asked.
    pub fn load_request(&self, iter_type: &str, btf: &Btf) -> (r: Result<LoadRequest, ProgramError>)
        ensures
            requested_by_type_name(
                self.data,
                BPF_PROG_TYPE_TRACING,
                iter_type_name(iter_type.spec_bytes()),
                BPF_TRACE_ITER,
                btf,
                r,
            ),
    {
        let func_name: Vec<u8> = concat("bpf_iter_".as_bytes(), iter_type.as_bytes());
        load_request_by_type_name(
            &self.data,
            BPF_PROG_TYPE_TRACING,
            func_name.as_slice(),
            BPF_TRACE_ITER,
            btf,
        )
    }

    /// What the kernel is asked to attach the program by: the creation of
    /// a link of the attach type of iterators.
    pub fn attach_request(&self) -> (r: Result<AttachRequest, ProgramError>)
        ensures
            match self.data.fd {
                None => r is Err && r->Err_0 == ProgramError::NotLoaded,
                Some(prog_fd) => r is Ok && r->Ok_0 == (AttachRequest {
                    call: Syscall::BpfLinkCreate,
                    prog_fd,
                }),
            },
    {
        attach_request(&self.data, Syscall::BpfLinkCreate)
    }

    /// Loads the program inside the kernel, for iterators over `iter_type`.
    ///
    /// `reply` is the kernel's answer to the load that `load_request`
    /// describes.
    pub fn load(&mut self, iter_type: &str, btf: &Btf, reply: Result<i32, SysError>) -> (r: Result<
        (),
        ProgramError,
    >)
        requires
            old(self).data.wf(),
        ensures
            final(self).data.wf(),
            loaded_by_type_name(
                old(self).data,
                final(self).data,
                iter_type_name(iter_type.spec_bytes()),
                BPF_TRACE_ITER,
                btf,
                reply,
                r,
            ),
    {
        let func_name: Vec<u8> = concat("bpf_iter_".as_bytes(), iter_type.as_bytes());
        load_by_type_name(&mut self.data, func_name.as_slice(), BPF_TRACE_ITER, btf, reply)
    }

    /// Attaches the program.
    ///
    /// `reply` is the kernel's answer to the creation of the link. The
    /// returned value can be used to detach, see [Iter::detach].
    pub fn attach(&mut self, reply: Result<i32, SysError>) -> (r: Result<LinkId, ProgramError>)
        requires
            old(self).data.wf(),
        ensures
            final(self).data.wf(),
            attached_by_fd(old(self).data, final(self).data, Syscall::BpfLinkCreate, reply, r),
    {
        let reply: Result<Link, SysError> = match reply {
            Ok(fd) => Ok(Link::Fd(FdLink { fd })),
            Err(e) => Err(e),
        };
        self.data.attach(Syscall::BpfLinkCreate, reply)
    }

    /// Detaches the program: stops tracking the attachment and hands it
    /// out, for the caller to undo it.
    ///
    /// See [Iter::attach].
    pub fn detach(&mut self, link_id: LinkId) -> (r: Result<IterLink, ProgramError>)
        requires
            old(self).data.wf(),
        ensures
            final(self).data.wf(),
            removed(old(self).data, final(self).data, link_id, r),
    {
        match self.data.detach(link_id) {
            Ok(link) => Ok(IterLink::new(link)),
            Err(e) => Err(e),
        }
    }

    /// Takes ownership of the link referenced by the provided link_id.
    ///
    /// The program no longer tracks the link: the caller is now responsible
    /// for managing its lifetime.
    pub fn take_link(&mut self, link_id: LinkId) -> (r: Result<IterLink, ProgramError>)
        requires
            old(self).data.wf(),
        ensures
            final(self).data.wf(),
            removed(old(self).data, final(self).data, link_id, r),
    {
        match self.data.take_link(link_id) {
            Ok(link) => Ok(IterLink::new(link)),
            Err(e) => Err(e),
        }
    }
}

/// What the removal of the attachment `link_id` does to a program.
///
/// It fails with `InvalidLink`, and changes nothing, where the program
/// tracks no such attachment. Otherwise that attachment leaves the table
/// and is handed out; the others stay in their order. The program stays
/// loaded.
pub open spec fn removed(
    before: ProgramData,
    after: ProgramData,
    link_id: LinkId,
    r: Result<IterLink, ProgramError>,
) -> bool {
    &&& after.same_code(&before)
    &&& after.fd == before.fd
    &&& after.next_link_id() == before.next_link_id()
    &&& r is Ok <==> tracks(before.spec_links(), link_id)
    &&& r is Err ==> r->Err_0 == ProgramError::InvalidLink && after.spec_links()
        == before.spec_links()
    &&& r is Ok ==> {
        let at = position_of(before.spec_links(), link_id);
        &&& r->Ok_0.inner == before.spec_links()[at].link
        &&& after.spec_links() == before.spec_links().remove(at)
        &&& !tracks(after.spec_links(), link_id)
    }
}

} // verus!
