//! The instruction format of the kernel's virtual machine.

use vstd::prelude::*;
use crate::bytes::{
    in_bounds, le_u16, le_u32, read_i16, read_i32, signed16, signed32, unsigned32,
};

verus! {

/// Size of one encoded instruction in bytes.
pub const INS_SIZE: usize = 8;

/// Opcode of the first half of a 64-bit immediate load.
pub const BPF_LD_IMM64: u8 = 0x18;

/// Opcode of a call.
pub const BPF_CALL: u8 = 0x85;

/// Source-register tag of a call whose immediate is a displacement inside
/// the instruction stream.
pub const BPF_PSEUDO_CALL: u8 = 1;

/// Source-register tag of an immediate load that holds a map handle.
pub const BPF_PSEUDO_MAP_FD: u8 = 1;

/// Source-register tag of an immediate load that holds a map handle and, in
/// its second half, an offset into the map's value.
pub const BPF_PSEUDO_MAP_VALUE: u8 = 2;

/// One decoded instruction.
#[derive(Clone, Copy, Debug, PartialEq, Eq, Structural)]
pub struct Instruction {
    pub code: u8,
    pub dst_reg: u8,
    pub src_reg: u8,
    pub off: i16,
    pub imm: i32,
}

/// The instruction encoded in the eight bytes at `off`.
pub open spec fn decode_at(s: Seq<u8>, off: int) -> Instruction {
    Instruction {
        code: s[off],
        dst_reg: (s[off + 1] % 16) as u8,
        src_reg: (s[off + 1] / 16) as u8,
        off: signed16(le_u16(s, off + 2)) as i16,
        imm: signed32(le_u32(s, off + 4)) as i32,
    }
}

/// The instructions encoded in `s`, whose length is a multiple of eight.
pub open spec fn decode_all(s: Seq<u8>) -> Seq<Instruction> {
    Seq::new((s.len() / INS_SIZE as nat) as nat, |i: int| decode_at(s, i * INS_SIZE as int))
}

impl Instruction {
    /// Whether this is the first half of a 64-bit immediate load that no
    /// relocation has touched yet.
    pub open spec fn spec_is_map_load(self) -> bool {
        self.code == BPF_LD_IMM64 && self.src_reg == 0
    }

    /// Whether this is a call into the instruction stream.
    pub open spec fn spec_is_call(self) -> bool {
        self.code == BPF_CALL && self.src_reg == BPF_PSEUDO_CALL
    }

    #[verifier::when_used_as_spec(spec_is_map_load)]
    pub fn is_map_load(self) -> (r: bool)
        ensures
            r == self.spec_is_map_load(),
    {
        self.code == BPF_LD_IMM64 && self.src_reg == 0
    }

    #[verifier::when_used_as_spec(spec_is_call)]
    pub fn is_call(self) -> (r: bool)
        ensures
            r == self.spec_is_call(),
    {
        self.code == BPF_CALL && self.src_reg == BPF_PSEUDO_CALL
    }

    /// Decodes the instruction at byte offset `off`.
    pub fn decode(data: &[u8], off: usize) -> (r: Instruction)
        requires
            in_bounds(data@.len() as int, off as int, INS_SIZE as int),
        ensures
            r == decode_at(data@, off as int),
            r.wf(),
    {
        let total: usize = data.len();
        let regs: u8 = data[off + 1];
        Instruction {
            code: data[off],
            dst_reg: regs % 16,
            src_reg: regs / 16,
            off: read_i16(data, off + 2),
            imm: read_i32(data, off + 4),
        }
    }
}

/// Decodes a code section; `None` when its length is no multiple of the
/// instruction size.
pub fn copy_instructions(data: &[u8]) -> (r: Option<Vec<Instruction>>)
    ensures
        r is Some <==> data@.len() % INS_SIZE as nat == 0,
        r is Some ==> r->Some_0@ == decode_all(data@),
{
    if data.len() % INS_SIZE != 0 {
        return None;
    }
    let total: usize = data.len();
    let n: usize = total / INS_SIZE;
    let mut out: Vec<Instruction> = Vec::new();
    let mut i: usize = 0;
    while i < n
        invariant
            n == data@.len() / INS_SIZE as nat,
            data@.len() % INS_SIZE as nat == 0,
            i <= n,
            total == data@.len(),
            out@.len() == i,
            forall|j: int| 0 <= j < i ==> out@[j] == decode_at(data@, j * INS_SIZE as int),
        decreases n - i,
    {
        out.push(Instruction::decode(data, i * INS_SIZE));
        i = i + 1;
    }
    Some(out)
}

/// The unsigned 16-bit value whose two's-complement reading is `v`.
pub open spec fn unsigned16(v: int) -> int {
    if v < 0 {
        v + 0x1_0000
    } else {
        v
    }
}

/// The eight bytes that encode `ins`.
pub open spec fn encoded(ins: Instruction) -> Seq<u8> {
    let off = unsigned16(ins.off as int);
    let imm = unsigned32(ins.imm as int);
    seq![
        ins.code,
        (ins.dst_reg % 16 + 16 * (ins.src_reg % 16)) as u8,
        (off % 0x100) as u8,
        (off / 0x100) as u8,
        (imm % 0x100) as u8,
        (imm / 0x100 % 0x100) as u8,
        (imm / 0x1_0000 % 0x100) as u8,
        (imm / 0x100_0000) as u8,
    ]
}

/// The bytes that encode the instructions `s`, one after the other.
pub open spec fn encoded_all(s: Seq<Instruction>) -> Seq<u8>
    decreases s.len(),
{
    if s.len() == 0 {
        Seq::empty()
    } else {
        encoded_all(s.drop_last()) + encoded(s.last())
    }
}

impl Instruction {
    /// Both registers are below sixteen, as in every decoded instruction.
    pub open spec fn wf(self) -> bool {
        self.dst_reg < 16 && self.src_reg < 16
    }

    /// Appends the eight bytes that encode the instruction to `out`.
    pub fn encode_into(&self, out: &mut Vec<u8>)
        ensures
            final(out)@ == old(out)@ + encoded(*self),
    {
        let off: u32 = if self.off < 0 {
            (self.off as i32 + 0x1_0000) as u32
        } else {
            self.off as u32
        };
        let imm: u64 = if self.imm < 0 {
            (self.imm as i64 + 0x1_0000_0000) as u64
        } else {
            self.imm as u64
        };
        out.push(self.code);
        out.push(self.dst_reg % 16 + 16 * (self.src_reg % 16));
        out.push((off % 0x100) as u8);
        out.push((off / 0x100) as u8);
        out.push((imm % 0x100) as u8);
        out.push((imm / 0x100 % 0x100) as u8);
        out.push((imm / 0x1_0000 % 0x100) as u8);
        out.push((imm / 0x100_0000) as u8);
    }
}

/// Encodes the instructions of a program, for the kernel to load.
pub fn encode_instructions(instructions: &Vec<Instruction>) -> (r: Vec<u8>)
    ensures
        r@ == encoded_all(instructions@),
{
    let mut out: Vec<u8> = Vec::new();
    let mut i: usize = 0;
    while i < instructions.len()
        invariant
            i <= instructions@.len(),
            out@ == encoded_all(instructions@.take(i as int)),
        decreases instructions@.len() - i,
    {
        instructions[i].encode_into(&mut out);
        proof {
            let next = instructions@.take(i + 1);
            assert(next.drop_last() =~= instructions@.take(i as int));
        }
        i = i + 1;
    }
    assert(instructions@.take(instructions@.len() as int) =~= instructions@);
    out
}

/// Every decoded instruction has registers below sixteen, and an
/// instruction with such registers is decoded from its encoding, wherever
/// the encoding stands in a buffer.
pub proof fn law_encoding_round_trip(ins: Instruction, before: Seq<u8>, after: Seq<u8>)
    ensures
        decode_at(before + encoded(ins) + after, before.len() as int).wf(),
        ins.wf() ==> decode_at(before + encoded(ins) + after, before.len() as int) == ins,
{
}

/// The encoding of `n` instructions is `8 * n` bytes long, and each
/// instruction stands at eight times its index.
pub proof fn lemma_encoded_all(s: Seq<Instruction>, i: int)
    requires
        0 <= i < s.len(),
    ensures
        encoded_all(s).len() == INS_SIZE * s.len(),
        encoded_all(s).subrange(INS_SIZE * i, INS_SIZE * i + INS_SIZE) == encoded(s[i]),
    decreases s.len(),
{
    lemma_encoded_len(s);
    if i < s.len() - 1 {
        lemma_encoded_all(s.drop_last(), i);
    }
}

/// The encoding of `n` instructions is `8 * n` bytes long.
pub proof fn lemma_encoded_len(s: Seq<Instruction>)
    ensures
        encoded_all(s).len() == INS_SIZE * s.len(),
    decreases s.len(),
{
    if s.len() > 0 {
        lemma_encoded_len(s.drop_last());
    }
}

/// Instructions with registers below sixteen are decoded from their
/// encoding: what the loader hands to the kernel is what it read and
/// patched.
pub proof fn law_program_round_trip(s: Seq<Instruction>)
    requires
        forall|i: int| 0 <= i < s.len() ==> (#[trigger] s[i]).wf(),
    ensures
        decode_all(encoded_all(s)) == s,
{
    lemma_encoded_len(s);
    let bytes = encoded_all(s);
    assert forall|i: int| 0 <= i < s.len() implies decode_at(bytes, i * INS_SIZE as int)
        == s[i] by {
        lemma_encoded_all(s, i);
    }
}

} // verus!
