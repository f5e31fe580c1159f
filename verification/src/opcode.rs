//! The opcode set of the flat bytecode: a tagged sum over the WebAssembly-
//! derived instruction families. Each variant carries zero or one structured
//! operand. Floating-point variants are present in the model but are not
//! encoded by the codec.

use vstd::prelude::*;

use crate::utils::{BranchParams, DropKeep, Fuel, Index, JumpDest, Offset};
use crate::value::UntypedValue;

verus! {

#[derive(Debug, Copy, Clone, PartialEq, Eq, Structural)]
pub enum OpCode {
    // common opcode family
    Unreachable,
    ConsumeFuel(Fuel),
    Drop,
    Select,
    // local opcode family
    LocalGet(Index),
    LocalSet(Index),
    LocalTee(Index),
    // control flow opcode family
    Br(BranchParams),
    BrIfEqz(BranchParams),
    BrIfNez(BranchParams),
    BrTable(Index),
    Return(DropKeep),
    ReturnIfNez(DropKeep),
    ReturnCall(Index, DropKeep),
    ReturnCallIndirect { table: Index, func_type: Index, drop_keep: DropKeep },
    Call(Index),
    CallIndirect { table: Index, func_type: Index },
    CallHost(Index),
    // global opcode family
    GlobalGet(Index),
    GlobalSet(Index),
    // memory opcode family
    I32Load(Offset),
    I64Load(Offset),
    F32Load(Offset),
    F64Load(Offset),
    I32Load8S(Offset),
    I32Load8U(Offset),
    I32Load16S(Offset),
    I32Load16U(Offset),
    I64Load8S(Offset),
    I64Load8U(Offset),
    I64Load16S(Offset),
    I64Load16U(Offset),
    I64Load32S(Offset),
    I64Load32U(Offset),
    I32Store(Offset),
    I64Store(Offset),
    F32Store(Offset),
    F64Store(Offset),
    I32Store8(Offset),
    I32Store16(Offset),
    I64Store8(Offset),
    I64Store16(Offset),
    I64Store32(Offset),
    // bulk memory and table opcode family
    MemorySize,
    MemoryGrow,
    MemoryFill,
    MemoryCopy,
    MemoryInit(Index),
    DataDrop(Index),
    TableSize(Index),
    TableGrow(Index),
    TableFill(Index),
    TableGet(Index),
    TableSet(Index),
    TableCopy { dst: Index, src: Index },
    TableInit { table: Index, elem: Index },
    ElemDrop(Index),
    RefFunc(Index),
    // i32/i64 opcode family
    I64Const(UntypedValue),
    I32Const(UntypedValue),
    I32Eqz,
    I32Eq,
    I32Ne,
    I32LtS,
    I32LtU,
    I32GtS,
    I32GtU,
    I32LeS,
    I32LeU,
    I32GeS,
    I32GeU,
    I64Eqz,
    I64Eq,
    I64Ne,
    I64LtS,
    I64LtU,
    I64GtS,
    I64GtU,
    I64LeS,
    I64LeU,
    I64GeS,
    I64GeU,
    I32Clz,
    I32Ctz,
    I32Popcnt,
    I32Add,
    I32Sub,
    I32Mul,
    I32DivS,
    I32DivU,
    I32RemS,
    I32RemU,
    I32And,
    I32Or,
    I32Xor,
    I32Shl,
    I32ShrS,
    I32ShrU,
    I32Rotl,
    I32Rotr,
    I64Clz,
    I64Ctz,
    I64Popcnt,
    I64Add,
    I64Sub,
    I64Mul,
    I64DivS,
    I64DivU,
    I64RemS,
    I64RemU,
    I64And,
    I64Or,
    I64Xor,
    I64Shl,
    I64ShrS,
    I64ShrU,
    I64Rotl,
    I64Rotr,
    I32WrapI64,
    I64ExtendI32S,
    I64ExtendI32U,
    I32Extend8S,
    I32Extend16S,
    I64Extend8S,
    I64Extend16S,
    I64Extend32S,
    // f32/f64 opcode family
    F64Const(UntypedValue),
    F32Const(UntypedValue),
    F32Eq,
    F32Ne,
    F32Lt,
    F32Gt,
    F32Le,
    F32Ge,
    F64Eq,
    F64Ne,
    F64Lt,
    F64Gt,
    F64Le,
    F64Ge,
    F32Abs,
    F32Neg,
    F32Ceil,
    F32Floor,
    F32Trunc,
    F32Nearest,
    F32Sqrt,
    F32Add,
    F32Sub,
    F32Mul,
    F32Div,
    F32Min,
    F32Max,
    F32Copysign,
    F64Abs,
    F64Neg,
    F64Ceil,
    F64Floor,
    F64Trunc,
    F64Nearest,
    F64Sqrt,
    F64Add,
    F64Sub,
    F64Mul,
    F64Div,
    F64Min,
    F64Max,
    F64Copysign,
    I32TruncF32S,
    I32TruncF32U,
    I32TruncF64S,
    I32TruncF64U,
    I64TruncF32S,
    I64TruncF32U,
    I64TruncF64S,
    I64TruncF64U,
    F32ConvertI32S,
    F32ConvertI32U,
    F32ConvertI64S,
    F32ConvertI64U,
    F32DemoteF64,
    F64ConvertI32S,
    F64ConvertI32U,
    F64ConvertI64S,
    F64ConvertI64U,
    F64PromoteF32,
    I32TruncSatF32S,
    I32TruncSatF32U,
    I32TruncSatF64S,
    I32TruncSatF64U,
    I64TruncSatF32S,
    I64TruncSatF32U,
    I64TruncSatF64S,
    I64TruncSatF64U,
}

/// Whether `op` is one of the three branch opcodes that embed a rewritable
/// jump offset. `Call` is deliberately not among them: calls are relocated
/// through a separate mapping.
pub open spec fn is_branch(op: OpCode) -> bool {
    match op {
        OpCode::Br(_) => true,
        OpCode::BrIfEqz(_) => true,
        OpCode::BrIfNez(_) => true,
        _ => false,
    }
}

/// The branch parameters of a branch opcode.
pub open spec fn spec_branch_params(op: OpCode) -> BranchParams
    recommends
        is_branch(op),
{
    match op {
        OpCode::Br(bp) => bp,
        OpCode::BrIfEqz(bp) => bp,
        OpCode::BrIfNez(bp) => bp,
        _ => arbitrary(),
    }
}

/// The same branch opcode with its jump offset replaced.
pub open spec fn spec_rewrite_jump_offset(op: OpCode, new_offset: JumpDest) -> OpCode
    recommends
        is_branch(op),
{
    match op {
        OpCode::Br(bp) => OpCode::Br(BranchParams { offset: new_offset, ..bp }),
        OpCode::BrIfEqz(bp) => OpCode::BrIfEqz(BranchParams { offset: new_offset, ..bp }),
        OpCode::BrIfNez(bp) => OpCode::BrIfNez(BranchParams { offset: new_offset, ..bp }),
        _ => arbitrary(),
    }
}

/// Whether `op` is a memory load or store carrying an `Offset` operand.
pub open spec fn is_mem_access(op: OpCode) -> bool {
    match op {
        OpCode::I32Load(_) => true,
        OpCode::I64Load(_) => true,
        OpCode::F32Load(_) => true,
        OpCode::F64Load(_) => true,
        OpCode::I32Load8S(_) => true,
        OpCode::I32Load8U(_) => true,
        OpCode::I32Load16S(_) => true,
        OpCode::I32Load16U(_) => true,
        OpCode::I64Load8S(_) => true,
        OpCode::I64Load8U(_) => true,
        OpCode::I64Load16S(_) => true,
        OpCode::I64Load16U(_) => true,
        OpCode::I64Load32S(_) => true,
        OpCode::I64Load32U(_) => true,
        OpCode::I32Store(_) => true,
        OpCode::I64Store(_) => true,
        OpCode::F32Store(_) => true,
        OpCode::F64Store(_) => true,
        OpCode::I32Store8(_) => true,
        OpCode::I32Store16(_) => true,
        OpCode::I64Store8(_) => true,
        OpCode::I64Store16(_) => true,
        OpCode::I64Store32(_) => true,
        _ => false,
    }
}

/// The memory offset of a load or store opcode.
pub open spec fn spec_mem_offset(op: OpCode) -> u32
    recommends
        is_mem_access(op),
{
    match op {
        OpCode::I32Load(o) => o.0,
        OpCode::I64Load(o) => o.0,
        OpCode::F32Load(o) => o.0,
        OpCode::F64Load(o) => o.0,
        OpCode::I32Load8S(o) => o.0,
        OpCode::I32Load8U(o) => o.0,
        OpCode::I32Load16S(o) => o.0,
        OpCode::I32Load16U(o) => o.0,
        OpCode::I64Load8S(o) => o.0,
        OpCode::I64Load8U(o) => o.0,
        OpCode::I64Load16S(o) => o.0,
        OpCode::I64Load16U(o) => o.0,
        OpCode::I64Load32S(o) => o.0,
        OpCode::I64Load32U(o) => o.0,
        OpCode::I32Store(o) => o.0,
        OpCode::I64Store(o) => o.0,
        OpCode::F32Store(o) => o.0,
        OpCode::F64Store(o) => o.0,
        OpCode::I32Store8(o) => o.0,
        OpCode::I32Store16(o) => o.0,
        OpCode::I64Store8(o) => o.0,
        OpCode::I64Store16(o) => o.0,
        OpCode::I64Store32(o) => o.0,
        _ => arbitrary(),
    }
}

/// The same memory-access opcode with a replaced offset.
pub open spec fn spec_with_mem_offset(op: OpCode, o: u32) -> OpCode
    recommends
        is_mem_access(op),
{
    match op {
        OpCode::I32Load(_) => OpCode::I32Load(Offset(o)),
        OpCode::I64Load(_) => OpCode::I64Load(Offset(o)),
        OpCode::F32Load(_) => OpCode::F32Load(Offset(o)),
        OpCode::F64Load(_) => OpCode::F64Load(Offset(o)),
        OpCode::I32Load8S(_) => OpCode::I32Load8S(Offset(o)),
        OpCode::I32Load8U(_) => OpCode::I32Load8U(Offset(o)),
        OpCode::I32Load16S(_) => OpCode::I32Load16S(Offset(o)),
        OpCode::I32Load16U(_) => OpCode::I32Load16U(Offset(o)),
        OpCode::I64Load8S(_) => OpCode::I64Load8S(Offset(o)),
        OpCode::I64Load8U(_) => OpCode::I64Load8U(Offset(o)),
        OpCode::I64Load16S(_) => OpCode::I64Load16S(Offset(o)),
        OpCode::I64Load16U(_) => OpCode::I64Load16U(Offset(o)),
        OpCode::I64Load32S(_) => OpCode::I64Load32S(Offset(o)),
        OpCode::I64Load32U(_) => OpCode::I64Load32U(Offset(o)),
        OpCode::I32Store(_) => OpCode::I32Store(Offset(o)),
        OpCode::I64Store(_) => OpCode::I64Store(Offset(o)),
        OpCode::F32Store(_) => OpCode::F32Store(Offset(o)),
        OpCode::F64Store(_) => OpCode::F64Store(Offset(o)),
        OpCode::I32Store8(_) => OpCode::I32Store8(Offset(o)),
        OpCode::I32Store16(_) => OpCode::I32Store16(Offset(o)),
        OpCode::I64Store8(_) => OpCode::I64Store8(Offset(o)),
        OpCode::I64Store16(_) => OpCode::I64Store16(Offset(o)),
        OpCode::I64Store32(_) => OpCode::I64Store32(Offset(o)),
        _ => arbitrary(),
    }
}

impl OpCode {
    /// A 32-bit constant-push instruction.
    pub fn const_i32(value: i32) -> (r: Self)
        ensures
            r == OpCode::I32Const(
                UntypedValue { bits: crate::value::spec_i32_bits(value) as u64 },
            ),
    {
        Self::I32Const(UntypedValue::from_i32(value))
    }

    /// A 64-bit constant-push instruction.
    pub fn const_i64(value: i64) -> (r: Self)
        ensures
            r == OpCode::I64Const(UntypedValue { bits: crate::value::spec_i64_bits(value) }),
    {
        Self::I64Const(UntypedValue::from_i64(value))
    }

    /// A `local.get` instruction for the given local depth.
    pub fn local_get(local_depth: usize) -> (r: Self)
        requires
            local_depth <= u32::MAX,
        ensures
            r == OpCode::LocalGet(Index(local_depth as u32)),
    {
        Self::LocalGet(Index(local_depth as u32))
    }

    /// A `local.set` instruction for the given local depth.
    pub fn local_set(local_depth: usize) -> (r: Self)
        requires
            local_depth <= u32::MAX,
        ensures
            r == OpCode::LocalSet(Index(local_depth as u32)),
    {
        Self::LocalSet(Index(local_depth as u32))
    }

    /// A `local.tee` instruction for the given local depth.
    pub fn local_tee(local_depth: usize) -> (r: Self)
        requires
            local_depth <= u32::MAX,
        ensures
            r == OpCode::LocalTee(Index(local_depth as u32)),
    {
        Self::LocalTee(Index(local_depth as u32))
    }

    /// A `ConsumeFuel` instruction for the given amount.
    pub fn consume_fuel(amount: u64) -> (r: Self)
        ensures
            r == OpCode::ConsumeFuel(Fuel(amount)),
    {
        Self::ConsumeFuel(Fuel(amount))
    }

    /// The embedded jump destination of `Br`, `BrIfEqz` and `BrIfNez`;
    /// `None` for every other opcode. `Call` does not expose a jump offset
    /// here: calls are relocated through a separate mapping.
    pub fn get_jump_offset(&self) -> (r: Option<JumpDest>)
        ensures
            is_branch(*self) ==> r == Some(spec_branch_params(*self).offset),
            !is_branch(*self) ==> r is None,
    {
        match self {
            OpCode::Br(bp) => Some(bp.offset),
            OpCode::BrIfEqz(bp) => Some(bp.offset),
            OpCode::BrIfNez(bp) => Some(bp.offset),
            _ => None,
        }
    }

    /// Replaces the jump offset of a branch opcode in place.
    pub fn update_branch_offset(&mut self, offset: JumpDest)
        requires
            is_branch(*old(self)),
        ensures
            *final(self) == spec_rewrite_jump_offset(*old(self), offset),
    {
        *self = self.rewrite_jump_offset(offset);
    }

    /// A copy of a branch opcode with its jump offset replaced. The drop-keep
    /// part of the branch parameters is preserved.
    pub fn rewrite_jump_offset(&self, new_offset: JumpDest) -> (r: OpCode)
        requires
            is_branch(*self),
        ensures
            r == spec_rewrite_jump_offset(*self, new_offset),
    {
        match *self {
            OpCode::Br(mut branch_params) => {
                branch_params.offset = new_offset;
                OpCode::Br(branch_params)
            },
            OpCode::BrIfEqz(mut branch_params) => {
                branch_params.offset = new_offset;
                OpCode::BrIfEqz(branch_params)
            },
            OpCode::BrIfNez(mut branch_params) => {
                branch_params.offset = new_offset;
                OpCode::BrIfNez(branch_params)
            },
            _ => {
                proof {
                    assert(false);
                }
                OpCode::Unreachable
            },
        }
    }

    /// A copy of a memory load or store with its offset increased by
    /// `offset_diff`.
    pub fn add_offset(&self, offset_diff: u32) -> (r: OpCode)
        requires
            is_mem_access(*self),
            spec_mem_offset(*self) + offset_diff <= u32::MAX,
        ensures
            r == spec_with_mem_offset(*self, (spec_mem_offset(*self) + offset_diff) as u32),
    {
        match *self {
            OpCode::I32Load(offset) => OpCode::I32Load(Offset(offset.0 + offset_diff)),
            OpCode::I64Load(offset) => OpCode::I64Load(Offset(offset.0 + offset_diff)),
            OpCode::F32Load(offset) => OpCode::F32Load(Offset(offset.0 + offset_diff)),
            OpCode::F64Load(offset) => OpCode::F64Load(Offset(offset.0 + offset_diff)),
            OpCode::I32Load8S(offset) => OpCode::I32Load8S(Offset(offset.0 + offset_diff)),
            OpCode::I32Load8U(offset) => OpCode::I32Load8U(Offset(offset.0 + offset_diff)),
            OpCode::I32Load16S(offset) => OpCode::I32Load16S(Offset(offset.0 + offset_diff)),
            OpCode::I32Load16U(offset) => OpCode::I32Load16U(Offset(offset.0 + offset_diff)),
            OpCode::I64Load8S(offset) => OpCode::I64Load8S(Offset(offset.0 + offset_diff)),
            OpCode::I64Load8U(offset) => OpCode::I64Load8U(Offset(offset.0 + offset_diff)),
            OpCode::I64Load16S(offset) => OpCode::I64Load16S(Offset(offset.0 + offset_diff)),
            OpCode::I64Load16U(offset) => OpCode::I64Load16U(Offset(offset.0 + offset_diff)),
            OpCode::I64Load32S(offset) => OpCode::I64Load32S(Offset(offset.0 + offset_diff)),
            OpCode::I64Load32U(offset) => OpCode::I64Load32U(Offset(offset.0 + offset_diff)),
            OpCode::I32Store(offset) => OpCode::I32Store(Offset(offset.0 + offset_diff)),
            OpCode::I64Store(offset) => OpCode::I64Store(Offset(offset.0 + offset_diff)),
            OpCode::F32Store(offset) => OpCode::F32Store(Offset(offset.0 + offset_diff)),
            OpCode::F64Store(offset) => OpCode::F64Store(Offset(offset.0 + offset_diff)),
            OpCode::I32Store8(offset) => OpCode::I32Store8(Offset(offset.0 + offset_diff)),
            OpCode::I32Store16(offset) => OpCode::I32Store16(Offset(offset.0 + offset_diff)),
            OpCode::I64Store8(offset) => OpCode::I64Store8(Offset(offset.0 + offset_diff)),
            OpCode::I64Store16(offset) => OpCode::I64Store16(Offset(offset.0 + offset_diff)),
            OpCode::I64Store32(offset) => OpCode::I64Store32(Offset(offset.0 + offset_diff)),
            _ => {
                proof {
                    assert(false);
                }
                OpCode::Unreachable
            },
        }
    }

    /// Increases the fuel amount of a `ConsumeFuel` instruction by `delta`.
    pub fn bump_fuel_consumption(&mut self, delta: u64)
        requires
            *old(self) is ConsumeFuel,
            (*old(self))->ConsumeFuel_0.0 + delta <= u64::MAX,
        ensures
            *final(self) == OpCode::ConsumeFuel(
                Fuel(((*old(self))->ConsumeFuel_0.0 + delta) as u64),
            ),
    {
        match self {
            OpCode::ConsumeFuel(fuel) => {
                let amount = fuel.0;
                fuel.0 = amount + delta;
            },
            _ => {
                proof {
                    assert(false);
                }
            },
        }
    }
}

} // verus!
