//! Probes at the entry and at the exit of a kernel function, found by the
//! function's debug type.

use vstd::prelude::*;
use vstd::string::StringSliceAdditionalSpecFns;
use crate::obj::btf::Btf;
use crate::programs::links::LinkId;
use crate::programs::lsm::{
    attach_btf_id, attach_request, attached_by_fd, load_by_type_name,
    load_request_by_type_name, loaded_by_type_name, requested_by_type_name,
};
use crate::programs::{
    AttachRequest, FEntry, FExit, LoadRequest, ProgramError, BPF_PROG_TYPE_TRACING,
    BPF_TRACE_FENTRY, BPF_TRACE_FEXIT,
};
use crate::sys::{SysError, Syscall};

verus! {

impl FEntry {
    /// What the kernel is asked to load the program as, for the entry of
    /// the function `fn_name`; the error of the load, where it fails before
    /// the kernel is asked.
    pub fn load_request(&self, fn_name: &str, btf: &Btf) -> (r: Result<LoadRequest, ProgramError>)
        ensures
            requested_by_type_name(
                self.data,
                BPF_PROG_TYPE_TRACING,
                fn_name.spec_bytes(),
                BPF_TRACE_FENTRY,
                btf,
                r,
            ),
    {
        load_request_by_type_name(
            &self.data,
            BPF_PROG_TYPE_TRACING,
            fn_name.as_bytes(),
            BPF_TRACE_FENTRY,
            btf,
        )
    }

    /// What the kernel is asked to attach the program by.
    pub fn attach_request(&self) -> (r: Result<AttachRequest, ProgramError>)
        ensures
            match self.data.fd {
                None => r is Err && r->Err_0 == ProgramError::NotLoaded,
                Some(prog_fd) => r is Ok && r->Ok_0 == (AttachRequest {
                    call: Syscall::BpfRawTracepointOpen,
                    prog_fd,
                }),
            },
    {
        attach_request(&self.data, Syscall::BpfRawTracepointOpen)
    }

    /// Loads the program inside the kernel, for the entry of the function
    /// `fn_name`.
    ///
    /// `reply` is the kernel's answer to the load that `load_request`
    /// describes.
    pub fn load(&mut self, fn_name: &str, btf: &Btf, reply: Result<i32, SysError>) -> (r: Result<
        (),
        ProgramError,
    >)
        requires
            old(self).data.wf(),
        ensures
            final(self).data.wf(),
            loaded_by_type_name(
                old(self).data,
                final(self).data,
                fn_name.spec_bytes(),
                BPF_TRACE_FENTRY,
                btf,
                reply,
                r,
            ),
    {
        load_by_type_name(&mut self.data, fn_name.as_bytes(), BPF_TRACE_FENTRY, btf, reply)
    }

    /// Attaches the program.
    ///
    /// `reply` is the kernel's answer to the opening of the attachment.
    pub fn attach(&mut self, reply: Result<i32, SysError>) -> (r: Result<LinkId, ProgramError>)
        requires
            old(self).data.wf(),
        ensures
            final(self).data.wf(),
            attached_by_fd(
                old(self).data,
                final(self).data,
                Syscall::BpfRawTracepointOpen,
                reply,
                r,
            ),
    {
        attach_btf_id(&mut self.data, reply)
    }
}

impl FExit {
    /// What the kernel is asked to load the program as, for the exit of
    /// the function `fn_name`; the error of the load, where it fails before
    /// the kernel is asked.
    pub fn load_request(&self, fn_name: &str, btf: &Btf) -> (r: Result<LoadRequest, ProgramError>)
        ensures
            requested_by_type_name(
                self.data,
                BPF_PROG_TYPE_TRACING,
                fn_name.spec_bytes(),
                BPF_TRACE_FEXIT,
                btf,
                r,
            ),
    {
        load_request_by_type_name(
            &self.data,
            BPF_PROG_TYPE_TRACING,
            fn_name.as_bytes(),
            BPF_TRACE_FEXIT,
            btf,
        )
    }

    /// What the kernel is asked to attach the program by.
    pub fn attach_request(&self) -> (r: Result<AttachRequest, ProgramError>)
        ensures
            match self.data.fd {
                None => r is Err && r->Err_0 == ProgramError::NotLoaded,
                Some(prog_fd) => r is Ok && r->Ok_0 == (AttachRequest {
                    call: Syscall::BpfRawTracepointOpen,
                    prog_fd,
                }),
            },
    {
        attach_request(&self.data, Syscall::BpfRawTracepointOpen)
    }

    /// Loads the program inside the kernel, for the exit of the function
    /// `fn_name`.
    ///
    /// `reply` is the kernel's answer to the load that `load_request`
    /// describes.
    pub fn load(&mut self, fn_name: &str, btf: &Btf, reply: Result<i32, SysError>) -> (r: Result<
        (),
        ProgramError,
    >)
        requires
            old(self).data.wf(),
        ensures
            final(self).data.wf(),
            loaded_by_type_name(
                old(self).data,
                final(self).data,
                fn_name.spec_bytes(),
                BPF_TRACE_FEXIT,
                btf,
                reply,
                r,
            ),
    {
        load_by_type_name(&mut self.data, fn_name.as_bytes(), BPF_TRACE_FEXIT, btf, reply)
    }

    /// Attaches the program.
    ///
    /// `reply` is the kernel's answer to the opening of the attachment.
    pub fn attach(&mut self, reply: Result<i32, SysError>) -> (r: Result<LinkId, ProgramError>)
        requires
            old(self).data.wf(),
        ensures
            final(self).data.wf(),
            attached_by_fd(
                old(self).data,
                final(self).data,
                Syscall::BpfRawTracepointOpen,
                reply,
                r,
            ),
    {
        attach_btf_id(&mut self.data, reply)
    }
}

} // verus!
