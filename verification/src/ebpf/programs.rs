//! What a program in the kernel is handed when it runs.
//!
//! The kernel hands a program the address of a context. What the program
//! reads from that context is held here as plain values.

use vstd::prelude::*;

verus! {

/// What the kernel tells a program on the receive path of a network device
/// about a packet: where its data starts and ends, and where the metadata
/// in front of the data starts.
#[derive(Clone, Copy, Debug, PartialEq, Eq, Structural)]
pub struct XdpMd {
    pub data: u32,
    pub data_end: u32,
    pub data_meta: u32,
}

/// The context of a program on the receive path of a network device.
#[derive(Clone, Copy, Debug, PartialEq, Eq, Structural)]
pub struct XdpContext {
    pub ctx: XdpMd,
}

impl XdpContext {
    /// The context of what the kernel told.
    pub fn new(ctx: XdpMd) -> (r: XdpContext)
        ensures
            r.ctx == ctx,
    {
        XdpContext { ctx }
    }

    /// The address at which the packet's data starts.
    pub fn data(&self) -> (r: usize)
        ensures
            r == self.ctx.data,
    {
        self.ctx.data as usize
    }

    /// The address at which the packet's data ends.
    pub fn data_end(&self) -> (r: usize)
        ensures
            r == self.ctx.data_end,
    {
        self.ctx.data_end as usize
    }

    /// Return the raw address of the XdpContext metadata.
    pub fn metadata(&self) -> (r: usize)
        ensures
            r == self.ctx.data_meta,
    {
        self.ctx.data_meta as usize
    }

    /// Return the raw address immediately after the XdpContext's metadata:
    /// the metadata ends where the data starts.
    pub fn metadata_end(&self) -> (r: usize)
        ensures
            r == self.ctx.data,
    {
        self.data()
    }
}

/// The number of arguments that reach a probe in registers.
pub const PROBE_ARGS: usize = 6;

/// The context of a raw tracepoint probe: the arguments of the tracepoint.
#[derive(Clone, Copy, Debug)]
pub struct RawTracePointContext {
    pub regs: [u64; 6],
}

impl RawTracePointContext {
    /// The context of the arguments that the kernel handed over.
    pub fn new(regs: [u64; 6]) -> (r: RawTracePointContext)
        ensures
            r.regs == regs,
    {
        RawTracePointContext { regs }
    }

    /// Returns the `n`th argument to passed to the probe function,
    /// starting from 0; `None` where there is no such argument.
    pub fn arg(&self, n: usize) -> (r: Option<u64>)
        ensures
            n < PROBE_ARGS ==> r == Some(self.regs@[n as int]),
            n >= PROBE_ARGS ==> r is None,
    {
        if n < PROBE_ARGS {
            Some(self.regs[n])
        } else {
            None
        }
    }
}

/// The file-like session that an iterator program writes to, by its
/// address.
#[derive(Clone, Copy, Debug, PartialEq, Eq, Structural)]
pub struct SeqFile(pub usize);

impl SeqFile {
    /// The session's address.
    pub fn as_ptr(&self) -> (r: usize)
        ensures
            r == self.0,
    {
        self.0
    }
}

/// What the kernel tells an iterator program about the walk: the session,
/// the session's id, and the number of the element.
#[derive(Clone, Copy, Debug, PartialEq, Eq, Structural)]
pub struct BpfIterMeta {
    pub seq: usize,
    pub session_id: u64,
    pub seq_num: u64,
}

/// The context of an iterator program.
#[derive(Clone, Copy, Debug, PartialEq, Eq, Structural)]
pub struct IterContext {
    pub ctx: BpfIterMeta,
}

impl IterContext {
    /// The context of what the kernel told.
    pub fn new(ctx: BpfIterMeta) -> (r: IterContext)
        ensures
            r.ctx == ctx,
    {
        IterContext { ctx }
    }

    /// The session that the program writes to.
    pub fn seq_file(&self) -> (r: SeqFile)
        ensures
            r == SeqFile(self.ctx.seq),
    {
        SeqFile(self.ctx.seq)
    }
}

} // verus!
