use vstd::prelude::*;
use crate::word::Word;

verus! {

/// The program-counter step of one instruction.
pub const DEFAULT_PC_INC: u32 = 4;

/// The program counter carried by claims that no real instruction makes.
pub const UNUSED_PC: u32 = 1;

/// The instructions that the chips of this crate consume or request.
#[derive(Clone, Copy, Debug, PartialEq, Eq, Structural)]
pub enum Opcode {
    ADD,
    SUB,
    LB,
    LH,
    LW,
    LBU,
    LHU,
    SB,
    SH,
    SW,
}

impl Opcode {
    /// The field encoding of the opcode on the instruction bus.
    pub open spec fn id(self) -> u32 {
        match self {
            Opcode::ADD => 0,
            Opcode::SUB => 1,
            Opcode::LB => 10,
            Opcode::LH => 11,
            Opcode::LW => 12,
            Opcode::LBU => 13,
            Opcode::LHU => 14,
            Opcode::SB => 15,
            Opcode::SH => 16,
            Opcode::SW => 17,
        }
    }

    /// The field encoding of the opcode on the instruction bus.
    pub fn as_field(&self) -> (r: u32)
        ensures
            r == self.id(),
    {
        match self {
            Opcode::ADD => 0,
            Opcode::SUB => 1,
            Opcode::LB => 10,
            Opcode::LH => 11,
            Opcode::LW => 12,
            Opcode::LBU => 13,
            Opcode::LHU => 14,
            Opcode::SB => 15,
            Opcode::SH => 16,
            Opcode::SW => 17,
        }
    }

    pub open spec fn is_load(self) -> bool {
        matches!(self, Opcode::LB | Opcode::LH | Opcode::LW | Opcode::LBU | Opcode::LHU)
    }

    pub open spec fn is_store(self) -> bool {
        matches!(self, Opcode::SB | Opcode::SH | Opcode::SW)
    }

    pub open spec fn is_memory(self) -> bool {
        self.is_load() || self.is_store()
    }
}

/// The position of an access within one instruction: it offsets the access's clock so
/// that the accesses of one instruction are told apart.
#[derive(Clone, Copy, Debug, PartialEq, Eq, Structural)]
pub enum MemoryAccessPosition {
    Memory,
    C,
    B,
    A,
}

impl MemoryAccessPosition {
    pub open spec fn offset_spec(self) -> u32 {
        match self {
            MemoryAccessPosition::C => 1,
            MemoryAccessPosition::B => 2,
            MemoryAccessPosition::A => 3,
            MemoryAccessPosition::Memory => 4,
        }
    }

    /// The clock offset of the position.
    pub fn offset(&self) -> (r: u32)
        ensures
            r == self.offset_spec(),
    {
        match self {
            MemoryAccessPosition::C => 1,
            MemoryAccessPosition::B => 2,
            MemoryAccessPosition::A => 3,
            MemoryAccessPosition::Memory => 4,
        }
    }
}

/// A claim on the instruction bus: "this instruction ran" when received, "please check
/// this operation" when sent.
#[derive(Clone, Copy, Debug, PartialEq, Eq, Structural)]
pub struct InstructionClaim {
    pub is_send: bool,
    pub pc: u32,
    pub next_pc: u32,
    pub opcode: u32,
    pub a: Word,
    pub b: Word,
    pub c: Word,
    pub op_a_0: bool,
    pub nonce: u32,
    pub is_memory_store: bool,
    pub multiplicity: u32,
}

/// A tuple on the memory bus: `(shard, clk, addr, value)`, sent for the value written and
/// received for the value it replaces.
#[derive(Clone, Copy, Debug, PartialEq, Eq, Structural)]
pub struct MemoryClaim {
    pub is_send: bool,
    pub shard: u32,
    pub clk: u32,
    pub addr: u32,
    pub value: Word,
    pub multiplicity: u32,
}

/// The byte operations that the byte table checks.
#[derive(Clone, Copy, Debug, PartialEq, Eq, Structural)]
pub enum ByteOpcode {
    Range,
    And,
    Or,
    Xor,
    U8Range,
    U16Range,
}

/// A claim to the byte table: `op(b, c) == a` (for range checks, the operands are in range).
#[derive(Clone, Copy, Debug, PartialEq, Eq, Structural)]
pub struct ByteLookupEvent {
    pub shard: u32,
    pub channel: u8,
    pub opcode: ByteOpcode,
    pub a: u32,
    pub b: u32,
    pub c: u32,
}

/// A claim on the syscall bus: `(shard, clk, nonce, syscall_id, arg0, arg1)`.
#[derive(Clone, Copy, Debug, PartialEq, Eq, Structural)]
pub struct SyscallClaim {
    pub shard: u32,
    pub channel: u8,
    pub clk: u32,
    pub nonce: u32,
    pub syscall_id: u32,
    pub arg1: u32,
    pub arg2: u32,
    pub multiplicity: u32,
}

} // verus!
