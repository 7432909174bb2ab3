//! Raw tracepoints.

use vstd::prelude::*;
use vstd::string::StringSliceAdditionalSpecFns;
use crate::bytes::{find_byte, position};
use crate::programs::links::{FdLink, Link, LinkId};
use crate::programs::lsm::{attach_request, attached_by_fd};
use crate::obj::copy_bytes;
use crate::programs::{
    AttachRequest, LoadRequest, ProgramError, RawTracePoint, BPF_PROG_TYPE_RAW_TRACEPOINT,
};
use crate::sys::{SysError, Syscall, SyscallError};

verus! {

/// Whether a name can be handed to the kernel: it holds no zero byte.
pub open spec fn is_c_name(name: Seq<u8>) -> bool {
    find_byte(name, 0) == name.len()
}

impl RawTracePoint {
    /// Loads the program inside the kernel.
    ///
    /// `reply` is the kernel's answer to the load. A program that is
    /// loaded already is not loaded again; a refusal leaves it unloaded.
    pub fn load(&mut self, reply: Result<i32, SysError>) -> (r: Result<(), ProgramError>)
        requires
            old(self).data.wf(),
        ensures
            final(self).data.wf(),
            final(self).data.same_code(&old(self).data),
            final(self).data.spec_links() == old(self).data.spec_links(),
            final(self).data.next_link_id() == old(self).data.next_link_id(),
            old(self).data.fd is Some ==> r == Err::<(), ProgramError>(
                ProgramError::AlreadyLoaded,
            ) && final(self).data.fd == old(self).data.fd,
            old(self).data.fd is None ==> match reply {
                Ok(fd) => r is Ok && final(self).data.fd == Some(fd),
                Err(error) => r == Err::<(), ProgramError>(
                    ProgramError::SyscallError(SyscallError { call: Syscall::BpfProgLoad, error }),
                ) && final(self).data.fd is None,
            },
    {
        self.data.load(reply)
    }

    /// What the kernel is asked to load the program as; the error of the
    /// load, where it fails before the kernel is asked.
    pub fn load_request(&self) -> (r: Result<LoadRequest, ProgramError>)
        ensures
            match self.data.fd {
                Some(_) => r is Err && r->Err_0 == ProgramError::AlreadyLoaded,
                None => r is Ok && r->Ok_0.prog_type == BPF_PROG_TYPE_RAW_TRACEPOINT
                    && r->Ok_0.expected_attach_type == self.data.expected_attach_type
                    && r->Ok_0.attach_btf_id == self.data.attach_btf_id,
            },
    {
        self.data.load_request(BPF_PROG_TYPE_RAW_TRACEPOINT)
    }

    /// What the kernel is asked to attach the program by, for the
    /// tracepoint `tp_name`; the error of the attachment, where it fails
    /// before the kernel is asked.
    pub fn attach_request(&self, tp_name: &str) -> (r: Result<AttachRequest, ProgramError>)
        ensures
            match self.data.fd {
                None => r is Err && r->Err_0 == ProgramError::NotLoaded,
                Some(prog_fd) => if is_c_name(tp_name.spec_bytes()) {
                    r is Ok && r->Ok_0 == (AttachRequest {
                        call: Syscall::BpfRawTracepointOpen,
                        prog_fd,
                    })
                } else {
                    r is Err && r->Err_0 == ProgramError::InvalidName
                },
            },
    {
        let request: AttachRequest = match attach_request(
            &self.data,
            Syscall::BpfRawTracepointOpen,
        ) {
            Ok(request) => request,
            Err(e) => {
                return Err(e);
            },
        };
        let name: &[u8] = tp_name.as_bytes();
        if position(name, 0) < name.len() {
            return Err(ProgramError::InvalidName);
        }
        Ok(request)
    }

    /// Returns the name of the program.
    pub fn name(&self) -> (r: Vec<u8>)
        ensures
            r@ == self.data.name@,
    {
        copy_bytes(&self.data.name)
    }

    /// Attaches the program to the given tracepoint.
    ///
    /// `reply` is the kernel's answer to the opening of the tracepoint
    /// `tp_name`. A name with a zero byte in it is refused with
    /// `InvalidName` and changes nothing.
    pub fn attach(&mut self, tp_name: &str, reply: Result<i32, SysError>) -> (r: Result<
        LinkId,
        ProgramError,
    >)
        requires
            old(self).data.wf(),
        ensures
            final(self).data.wf(),
            old(self).data.fd is Some && !is_c_name(tp_name.spec_bytes()) ==> r == Err::<
                LinkId,
                ProgramError,
            >(ProgramError::InvalidName) && final(self).data == old(self).data,
            old(self).data.fd is None || is_c_name(tp_name.spec_bytes()) ==> attached_by_fd(
                old(self).data,
                final(self).data,
                Syscall::BpfRawTracepointOpen,
                reply,
                r,
            ),
    {
        if self.data.fd.is_none() {
            return Err(ProgramError::NotLoaded);
        }
        let name: &[u8] = tp_name.as_bytes();
        if position(name, 0) < name.len() {
            return Err(ProgramError::InvalidName);
        }
        let reply: Result<Link, SysError> = match reply {
            Ok(fd) => Ok(Link::Fd(FdLink { fd })),
            Err(e) => Err(e),
        };
        self.data.attach(Syscall::BpfRawTracepointOpen, reply)
    }
}

} // verus!
