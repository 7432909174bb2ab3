//! Programs on the kernel's security hooks.

use vstd::prelude::*;
use vstd::string::StringSliceAdditionalSpecFns;
use crate::obj::btf::{spec_id_by_type_name_kind, Btf, BtfKind};
use crate::bytes::concat;
use crate::programs::links::{FdLink, Link, LinkEntry, LinkId};
use crate::obj::copy_bytes;
use crate::programs::{
    AttachRequest, LoadRequest, Lsm, ProgramData, ProgramError, BPF_LSM_MAC, BPF_PROG_TYPE_LSM,
};
use crate::sys::{SysError, Syscall, SyscallError};

verus! {

/// The name of the debug type that stands for the security hook `hook`.
pub open spec fn lsm_type_name(hook: Seq<u8>) -> Seq<u8> {
    "bpf_lsm_".spec_bytes() + hook
}

/// What attaching by a debug type's id does to a program, given the
/// kernel's answer `reply` to the opening of the attachment.
///
/// A program that is not loaded cannot be attached. On success the
/// descriptor is tracked as a descriptor-based attachment under the next
/// id. A failure changes nothing.
pub open spec fn attached_by_fd(
    before: ProgramData,
    after: ProgramData,
    call: Syscall,
    reply: Result<i32, SysError>,
    r: Result<LinkId, ProgramError>,
) -> bool {
    &&& after.same_code(&before)
    &&& after.fd == before.fd
    &&& r is Err ==> after.spec_links() == before.spec_links() && after.next_link_id()
        == before.next_link_id()
    &&& before.fd is None ==> r == Err::<LinkId, ProgramError>(ProgramError::NotLoaded)
    &&& before.fd is Some ==> match reply {
        Err(error) => r == Err::<LinkId, ProgramError>(
            ProgramError::SyscallError(SyscallError { call, error }),
        ),
        Ok(fd) => if before.next_link_id() == u64::MAX {
            r == Err::<LinkId, ProgramError>(ProgramError::LinkIdsExhausted)
        } else {
            &&& r == Ok::<LinkId, ProgramError>(LinkId(before.next_link_id()))
            &&& after.next_link_id() == before.next_link_id() + 1
            &&& after.spec_links() == before.spec_links().push(
                LinkEntry { id: LinkId(before.next_link_id()), link: Link::Fd(FdLink { fd }) },
            )
        },
    }
}

/// Common logic for all program kinds that attach to the id of a debug
/// type: the attachment is opened as a raw tracepoint without a name.
pub fn attach_btf_id(program_data: &mut ProgramData, reply: Result<i32, SysError>) -> (r: Result<
    LinkId,
    ProgramError,
>)
    requires
        old(program_data).wf(),
    ensures
        final(program_data).wf(),
        attached_by_fd(
            *old(program_data),
            *final(program_data),
            Syscall::BpfRawTracepointOpen,
            reply,
            r,
        ),
{
    let reply: Result<Link, SysError> = match reply {
        Ok(fd) => Ok(Link::Fd(FdLink { fd })),
        Err(e) => Err(e),
    };
    program_data.attach(Syscall::BpfRawTracepointOpen, reply)
}

/// What loading by a debug type's name does to a program.
///
/// A program that is loaded already is not loaded again. The id of the
/// function type `func_name` is looked up in `btf`; where there is none the
/// load fails with the debug-type error. Where the kernel accepted the
/// program, it is loaded and remembers the attach type and the id. Every
/// failure leaves the program as it was.
pub open spec fn loaded_by_type_name(
    before: ProgramData,
    after: ProgramData,
    func_name: Seq<u8>,
    attach_type: u32,
    btf: &Btf,
    reply: Result<i32, SysError>,
    r: Result<(), ProgramError>,
) -> bool {
    &&& r is Err ==> after == before
    &&& if before.fd is Some {
        r == Err::<(), ProgramError>(ProgramError::AlreadyLoaded)
    } else {
        match spec_id_by_type_name_kind(btf.types@, func_name, BtfKind::Func) {
            Err(e) => r == Err::<(), ProgramError>(ProgramError::BtfError(e)),
            Ok(id) => match reply {
                Err(error) => r == Err::<(), ProgramError>(
                    ProgramError::SyscallError(SyscallError { call: Syscall::BpfProgLoad, error }),
                ),
                Ok(fd) => {
                    &&& r is Ok
                    &&& after.fd == Some(fd)
                    &&& after.expected_attach_type == Some(attach_type)
                    &&& after.attach_btf_id == Some(id)
                    &&& after.name == before.name
                    &&& after.obj == before.obj
                    &&& after.license == before.license
                    &&& after.links == before.links
                },
            },
        }
    }
}

/// Loads `data` as a program that attaches to the function type
/// `func_name`.
pub fn load_by_type_name(
    data: &mut ProgramData,
    func_name: &[u8],
    attach_type: u32,
    btf: &Btf,
    reply: Result<i32, SysError>,
) -> (r: Result<(), ProgramError>)
    requires
        old(data).wf(),
    ensures
        final(data).wf(),
        loaded_by_type_name(*old(data), *final(data), func_name@, attach_type, btf, reply, r),
{
    if data.fd.is_some() {
        return Err(ProgramError::AlreadyLoaded);
    }
    let id: u32 = match btf.id_by_type_name_kind(func_name, BtfKind::Func) {
        Ok(id) => id,
        Err(e) => {
            return Err(ProgramError::BtfError(e));
        },
    };
    match reply {
        Err(error) => Err(
            ProgramError::SyscallError(SyscallError { call: Syscall::BpfProgLoad, error }),
        ),
        Ok(fd) => {
            data.fd = Some(fd);
            data.expected_attach_type = Some(attach_type);
            data.attach_btf_id = Some(id);
            Ok(())
        },
    }
}

/// What asking for the load of a program by a debug type's name gives.
///
/// The request fails as the load would, whatever the kernel answered: a
/// program that is loaded already is not loaded again, and a function type
/// that `btf` lacks is the debug-type error. Otherwise the program is to be
/// loaded as `prog_type`, with the attach type and the type's id.
pub open spec fn requested_by_type_name(
    data: ProgramData,
    prog_type: u32,
    func_name: Seq<u8>,
    attach_type: u32,
    btf: &Btf,
    r: Result<LoadRequest, ProgramError>,
) -> bool {
    if data.fd is Some {
        r is Err && r->Err_0 == ProgramError::AlreadyLoaded
    } else {
        match spec_id_by_type_name_kind(btf.types@, func_name, BtfKind::Func) {
            Err(e) => r is Err && r->Err_0 == ProgramError::BtfError(e),
            Ok(id) => r is Ok && r->Ok_0.prog_type == prog_type && r->Ok_0.expected_attach_type
                == Some(attach_type) && r->Ok_0.attach_btf_id == Some(id),
        }
    }
}

/// What the kernel is asked to load `data` as, where it attaches to the
/// function type `func_name`; the error of the load, where it fails before
/// the kernel is asked.
pub fn load_request_by_type_name(
    data: &ProgramData,
    prog_type: u32,
    func_name: &[u8],
    attach_type: u32,
    btf: &Btf,
) -> (r: Result<LoadRequest, ProgramError>)
    ensures
        requested_by_type_name(*data, prog_type, func_name@, attach_type, btf, r),
{
    if data.fd.is_some() {
        return Err(ProgramError::AlreadyLoaded);
    }
    match btf.id_by_type_name_kind(func_name, BtfKind::Func) {
        Ok(id) => Ok(
            LoadRequest {
                prog_type,
                expected_attach_type: Some(attach_type),
                attach_btf_id: Some(id),
            },
        ),
        Err(e) => Err(ProgramError::BtfError(e)),
    }
}

/// What the kernel is asked to attach a program by, or the error of the
/// attachment where it fails before the kernel is asked: a program that is
/// not loaded cannot be attached.
pub fn attach_request(data: &ProgramData, call: Syscall) -> (r: Result<AttachRequest, ProgramError>)
    ensures
        match data.fd {
            None => r is Err && r->Err_0 == ProgramError::NotLoaded,
            Some(prog_fd) => r is Ok && r->Ok_0 == (AttachRequest { call, prog_fd }),
        },
{
    match data.fd {
        None => Err(ProgramError::NotLoaded),
        Some(prog_fd) => Ok(AttachRequest { call, prog_fd }),
    }
}

impl Lsm {
    /// What the kernel is asked to load the program as, for the hook
    /// `lsm_hook_name`; the error of the load, where it fails before the
    /// kernel is asked.
    pub fn load_request(&self, lsm_hook_name: &str, btf: &Btf) -> (r: Result<
        LoadRequest,
        ProgramError,
    >)
        ensures
            requested_by_type_name(
                self.data,
                BPF_PROG_TYPE_LSM,
                lsm_type_name(lsm_hook_name.spec_bytes()),
                BPF_LSM_MAC,
                btf,
                r,
            ),
    {
        let func_name: Vec<u8> = concat("bpf_lsm_".as_bytes(), lsm_hook_name.as_bytes());
        load_request_by_type_name(
            &self.data,
            BPF_PROG_TYPE_LSM,
            func_name.as_slice(),
            BPF_LSM_MAC,
            btf,
        )
    }

    /// Loads the program inside the kernel, for the hook `lsm_hook_name`.
    ///
    /// `reply` is the kernel's answer to the load that `load_request`
    /// describes.
    pub fn load(&mut self, lsm_hook_name: &str, btf: &Btf, reply: Result<i32, SysError>) -> (r:
        Result<(), ProgramError>)
        requires
            old(self).data.wf(),
        ensures
            final(self).data.wf(),
            loaded_by_type_name(
                old(self).data,
                final(self).data,
                lsm_type_name(lsm_hook_name.spec_bytes()),
                BPF_LSM_MAC,
                btf,
                reply,
                r,
            ),
    {
        let func_name: Vec<u8> = concat("bpf_lsm_".as_bytes(), lsm_hook_name.as_bytes());
        load_by_type_name(&mut self.data, func_name.as_slice(), BPF_LSM_MAC, btf, reply)
    }

    /// Returns the name of the program.
    pub fn name(&self) -> (r: Vec<u8>)
        ensures
            r@ == self.data.name@,
    {
        copy_bytes(&self.data.name)
    }

    /// What the kernel is asked to attach the program by.
    pub fn attach_request(&self) -> (r: Result<AttachRequest, ProgramError>)
        ensures
            match self.data.fd {
                None => r is Err && r->Err_0 == ProgramError::NotLoaded,
                Some(prog_fd) => r is Ok && r->Ok_0 == (AttachRequest {
                    call: Syscall::BpfRawTracepointOpen,
                    prog_fd,
                }),
            },
    {
        attach_request(&self.data, Syscall::BpfRawTracepointOpen)
    }

    /// Attaches the program.
    ///
    /// `reply` is the kernel's answer to the opening of the attachment.
    pub fn attach(&mut self, reply: Result<i32, SysError>) -> (r: Result<LinkId, ProgramError>)
        requires
            old(self).data.wf(),
        ensures
            final(self).data.wf(),
            attached_by_fd(
                old(self).data,
                final(self).data,
                Syscall::BpfRawTracepointOpen,
                reply,
                r,
            ),
    {
        attach_btf_id(&mut self.data, reply)
    }
}

} // verus!
