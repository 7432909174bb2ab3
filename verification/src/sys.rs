//! What the kernel answers to a call, as plain values.
//!
//! The library makes no system call itself. Where an operation involves the
//! kernel, the caller performs the call and hands the answer in.

use vstd::prelude::*;

verus! {

/// The calls whose answers the library interprets.
#[derive(Clone, Copy, Debug, PartialEq, Eq, Structural)]
pub enum Syscall {
    BpfMapCreate,
    BpfMapLookupElem,
    BpfMapUpdateElem,
    BpfMapDeleteElem,
    BpfMapGetNextKey,
    BpfProgLoad,
    BpfProgAttach,
    BpfLinkCreate,
    BpfLinkGetInfoByFd,
    BpfRawTracepointOpen,
    BpfIterCreate,
    PerfEventOpen,
    PidfdOpen,
    Mmap,
}

impl Syscall {
    /// The name under which a failure of the call is reported.
    pub open spec fn spec_name(self) -> Seq<char> {
        match self {
            Syscall::BpfMapCreate => "bpf_map_create"@,
            Syscall::BpfMapLookupElem => "bpf_map_lookup_elem"@,
            Syscall::BpfMapUpdateElem => "bpf_map_update_elem"@,
            Syscall::BpfMapDeleteElem => "bpf_map_delete_elem"@,
            Syscall::BpfMapGetNextKey => "bpf_map_get_next_key"@,
            Syscall::BpfProgLoad => "bpf_prog_load"@,
            Syscall::BpfProgAttach => "bpf_prog_attach"@,
            Syscall::BpfLinkCreate => "bpf_link_create"@,
            Syscall::BpfLinkGetInfoByFd => "bpf_link_get_info_by_fd"@,
            Syscall::BpfRawTracepointOpen => "bpf_raw_tracepoint_open"@,
            Syscall::BpfIterCreate => "bpf_iter_create"@,
            Syscall::PerfEventOpen => "perf_event_open"@,
            Syscall::PidfdOpen => "pidfd_open"@,
            Syscall::Mmap => "mmap"@,
        }
    }

    /// The name under which a failure of the call is reported.
    pub fn name(self) -> (r: &'static str)
        ensures
            r@ == self.spec_name(),
    {
        match self {
            Syscall::BpfMapCreate => "bpf_map_create",
            Syscall::BpfMapLookupElem => "bpf_map_lookup_elem",
            Syscall::BpfMapUpdateElem => "bpf_map_update_elem",
            Syscall::BpfMapDeleteElem => "bpf_map_delete_elem",
            Syscall::BpfMapGetNextKey => "bpf_map_get_next_key",
            Syscall::BpfProgLoad => "bpf_prog_load",
            Syscall::BpfProgAttach => "bpf_prog_attach",
            Syscall::BpfLinkCreate => "bpf_link_create",
            Syscall::BpfLinkGetInfoByFd => "bpf_link_get_info_by_fd",
            Syscall::BpfRawTracepointOpen => "bpf_raw_tracepoint_open",
            Syscall::BpfIterCreate => "bpf_iter_create",
            Syscall::PerfEventOpen => "perf_event_open",
            Syscall::PidfdOpen => "pidfd_open",
            Syscall::Mmap => "mmap",
        }
    }
}

/// A failed call: what the call returned, and the error code of the
/// operating system.
#[derive(Clone, Copy, Debug, PartialEq, Eq, Structural)]
pub struct SysError {
    pub code: i64,
    pub errno: i32,
}

/// A failed call together with its name.
#[derive(Clone, Copy, Debug, PartialEq, Eq, Structural)]
pub struct SyscallError {
    pub call: Syscall,
    pub error: SysError,
}

} // verus!
