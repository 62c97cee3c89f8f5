//! The value types and the instruction set of the execution engine.

use vstd::prelude::*;

verus! {

/// The type of a WebAssembly value.
#[derive(Debug, Copy, Clone, PartialEq, Eq, Structural)]
pub enum ValueType {
    I32,
    I64,
    F32,
    F64,
}

/// A 32-bit float, held as its bit pattern.
#[derive(Debug, Copy, Clone, PartialEq, Eq, Structural)]
pub struct F32 {
    pub bits: u32,
}

impl F32 {
    /// Creates the float with the given bit pattern.
    pub fn from_bits(bits: u32) -> (r: Self)
        ensures
            r.bits == bits,
    {
        F32 { bits }
    }

    /// Returns the bit pattern of the float.
    pub fn to_bits(self) -> (r: u32)
        ensures
            r == self.bits,
    {
        self.bits
    }
}

/// A 64-bit float, held as its bit pattern.
#[derive(Debug, Copy, Clone, PartialEq, Eq, Structural)]
pub struct F64 {
    pub bits: u64,
}

impl F64 {
    /// Creates the float with the given bit pattern.
    pub fn from_bits(bits: u64) -> (r: Self)
        ensures
            r.bits == bits,
    {
        F64 { bits }
    }

    /// Returns the bit pattern of the float.
    pub fn to_bits(self) -> (r: u64)
        ensures
            r == self.bits,
    {
        self.bits
    }
}

/// The position of an instruction in an instruction stream.
#[derive(Debug, Copy, Clone, PartialEq, Eq, Structural)]
pub struct InstructionIdx(pub u32);

/// The placeholder destination of a branch whose label is not resolved yet.
pub const INVALID_INSTRUCTION_INDEX: u32 = 0xffff_ffff;

impl InstructionIdx {
    /// The placeholder destination of a branch whose label is not resolved yet.
    pub fn invalid() -> (r: Self)
        ensures
            r.0 == INVALID_INSTRUCTION_INDEX,
    {
        InstructionIdx(INVALID_INSTRUCTION_INDEX)
    }

    /// Creates the index of the instruction at position `index`.
    pub fn from_usize(index: usize) -> (r: Self)
        requires
            index <= u32::MAX,
        ensures
            r.0 == index,
    {
        InstructionIdx(index as u32)
    }

    /// Returns the position of the instruction.
    pub fn into_usize(self) -> (r: usize)
        ensures
            r == self.0,
    {
        self.0 as usize
    }
}

/// A label of an instruction stream under construction.
#[derive(Debug, Copy, Clone, PartialEq, Eq, Structural)]
pub struct LabelIdx(pub usize);

/// The depth of a branch target, counted from the innermost enclosing frame.
#[derive(Debug, Copy, Clone, PartialEq, Eq, Structural)]
pub struct RelativeDepth(pub u32);

impl RelativeDepth {
    /// Creates a relative depth.
    pub fn from_u32(depth: u32) -> (r: Self)
        ensures
            r.0 == depth,
    {
        RelativeDepth(depth)
    }

    /// Returns the relative depth as an integer.
    pub fn into_u32(self) -> (r: u32)
        ensures
            r == self.0,
    {
        self.0
    }
}

/// How a branch or return adjusts the value stack: `drop` slots are
/// discarded below the topmost `keep` slots, which are preserved.
#[derive(Debug, Copy, Clone, PartialEq, Eq, Structural)]
pub struct DropKeep {
    pub drop: u32,
    pub keep: u32,
}

impl DropKeep {
    /// Creates a stack adjustment.
    pub fn new(drop: u32, keep: u32) -> (r: Self)
        ensures
            r.drop == drop,
            r.keep == keep,
    {
        DropKeep { drop, keep }
    }

    /// The number of slots that are discarded.
    pub fn drop(self) -> (r: u32)
        ensures
            r == self.drop,
    {
        self.drop
    }

    /// The number of slots that are kept.
    pub fn keep(self) -> (r: u32)
        ensures
            r == self.keep,
    {
        self.keep
    }
}

/// The destination of a branch with its stack adjustment.
#[derive(Debug, Copy, Clone, PartialEq, Eq, Structural)]
pub struct Target {
    pub dst_pc: InstructionIdx,
    pub drop_keep: DropKeep,
}

impl Target {
    /// Creates a branch target.
    pub fn new(dst_pc: InstructionIdx, drop_keep: DropKeep) -> (r: Self)
        ensures
            r.dst_pc == dst_pc,
            r.drop_keep == drop_keep,
    {
        Target { dst_pc, drop_keep }
    }

    /// The position that the branch goes to.
    pub fn destination_pc(self) -> (r: InstructionIdx)
        ensures
            r == self.dst_pc,
    {
        self.dst_pc
    }

    /// The stack adjustment of the branch.
    pub fn drop_keep(self) -> (r: DropKeep)
        ensures
            r == self.drop_keep,
    {
        self.drop_keep
    }
}

/// The offset of a memory access.
#[derive(Debug, Copy, Clone, PartialEq, Eq, Structural)]
pub struct Offset(pub u32);

/// An instruction of the execution engine.
#[derive(Debug, Copy, Clone, PartialEq, Eq, Structural)]
pub enum Instruction {
    GetLocal { local_depth: u32 },
    SetLocal { local_depth: u32 },
    TeeLocal { local_depth: u32 },
    Br(Target),
    BrIfEqz(Target),
    BrIfNez(Target),
    BrTable { len_targets: usize },
    BrTableTarget(Target),
    Unreachable,
    Return(DropKeep),
    Call(u32),
    CallIndirect(u32),
    Drop,
    Select,
    GetGlobal(u32),
    SetGlobal(u32),
    I32Load(Offset),
    I64Load(Offset),
    F32Load(Offset),
    F64Load(Offset),
    I32Load8S(Offset),
    I32Load8U(Offset),
    I32Load16S(Offset),
    I32Load16U(Offset),
    I64Load8S(Offset),
    I64Load8U(Offset),
    I64Load16S(Offset),
    I64Load16U(Offset),
    I64Load32S(Offset),
    I64Load32U(Offset),
    I32Store(Offset),
    I64Store(Offset),
    F32Store(Offset),
    F64Store(Offset),
    I32Store8(Offset),
    I32Store16(Offset),
    I64Store8(Offset),
    I64Store16(Offset),
    I64Store32(Offset),
    CurrentMemory,
    GrowMemory,
    /// Pushes a constant, given as the bit pattern of the value.
    Const(u64),
    I32Eqz,
    I32Eq,
    I32Ne,
    I32LtS,
    I32LtU,
    I32GtS,
    I32GtU,
    I32LeS,
    I32LeU,
    I32GeS,
    I32GeU,
    I64Eqz,
    I64Eq,
    I64Ne,
    I64LtS,
    I64LtU,
    I64GtS,
    I64GtU,
    I64LeS,
    I64LeU,
    I64GeS,
    I64GeU,
    F32Eq,
    F32Ne,
    F32Lt,
    F32Gt,
    F32Le,
    F32Ge,
    F64Eq,
    F64Ne,
    F64Lt,
    F64Gt,
    F64Le,
    F64Ge,
    I32Clz,
    I32Ctz,
    I32Popcnt,
    I32Add,
    I32Sub,
    I32Mul,
    I32DivS,
    I32DivU,
    I32RemS,
    I32RemU,
    I32And,
    I32Or,
    I32Xor,
    I32Shl,
    I32ShrS,
    I32ShrU,
    I32Rotl,
    I32Rotr,
    I64Clz,
    I64Ctz,
    I64Popcnt,
    I64Add,
    I64Sub,
    I64Mul,
    I64DivS,
    I64DivU,
    I64RemS,
    I64RemU,
    I64And,
    I64Or,
    I64Xor,
    I64Shl,
    I64ShrS,
    I64ShrU,
    I64Rotl,
    I64Rotr,
    F32Abs,
    F32Neg,
    F32Ceil,
    F32Floor,
    F32Trunc,
    F32Nearest,
    F32Sqrt,
    F32Add,
    F32Sub,
    F32Mul,
    F32Div,
    F32Min,
    F32Max,
    F32Copysign,
    F64Abs,
    F64Neg,
    F64Ceil,
    F64Floor,
    F64Trunc,
    F64Nearest,
    F64Sqrt,
    F64Add,
    F64Sub,
    F64Mul,
    F64Div,
    F64Min,
    F64Max,
    F64Copysign,
    I32WrapI64,
    I32TruncSF32,
    I32TruncUF32,
    I32TruncSF64,
    I32TruncUF64,
    I64ExtendSI32,
    I64ExtendUI32,
    I64TruncSF32,
    I64TruncUF32,
    I64TruncSF64,
    I64TruncUF64,
    F32ConvertSI32,
    F32ConvertUI32,
    F32ConvertSI64,
    F32ConvertUI64,
    F32DemoteF64,
    F64ConvertSI32,
    F64ConvertUI32,
    F64ConvertSI64,
    F64ConvertUI64,
    F64PromoteF32,
    I32ReinterpretF32,
    I64ReinterpretF64,
    F32ReinterpretI32,
    F64ReinterpretI64,
}

impl Instruction {
    /// Whether the instruction is a branch whose destination a label patches.
    pub open spec fn is_branch(self) -> bool {
        self is Br || self is BrIfEqz || self is BrIfNez
    }

    /// The instruction with the destination of its branch target set to `pc`.
    pub open spec fn with_destination(self, pc: InstructionIdx) -> Instruction {
        match self {
            Instruction::Br(t) => Instruction::Br(Target { dst_pc: pc, ..t }),
            Instruction::BrIfEqz(t) => Instruction::BrIfEqz(Target { dst_pc: pc, ..t }),
            Instruction::BrIfNez(t) => Instruction::BrIfNez(Target { dst_pc: pc, ..t }),
            Instruction::BrTableTarget(t) => Instruction::BrTableTarget(Target { dst_pc: pc, ..t }),
            _ => self,
        }
    }

    /// Sets the destination of a branch target.
    pub fn update_destination_pc(&mut self, pc: InstructionIdx)
        ensures
            *final(self) == old(self).with_destination(pc),
    {
        match self {
            Instruction::Br(t) => t.dst_pc = pc,
            Instruction::BrIfEqz(t) => t.dst_pc = pc,
            Instruction::BrIfNez(t) => t.dst_pc = pc,
            Instruction::BrTableTarget(t) => t.dst_pc = pc,
            _ => {},
        }
    }
}

} // verus!
