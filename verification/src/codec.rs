//! The big-endian, fixed-width codec of the opcode set. One encoded opcode
//! is a tag byte followed by an operand of a tag-specific width; there is no
//! varint, so re-encoding an opcode after an offset rewrite never changes its
//! size. Floating-point opcodes encode as a no-op write; the reader fails
//! with an illegal-opcode error on every unassigned tag.

use vstd::prelude::*;

use crate::binary_format::{BinaryFormatError, BinaryFormatReader, BinaryFormatWriter};
use crate::endian::{
    lemma_u32_be_roundtrip, lemma_u64_be_roundtrip, u32_be_bytes, u32_of_be, u64_be_bytes,
    u64_of_be,
};
use crate::opcode::{is_branch, spec_rewrite_jump_offset, OpCode};
use crate::utils::{BranchParams, DropKeep, Fuel, Index, InstructionSet, JumpDest, Offset};
use crate::value::{lemma_i32_bits_roundtrip, spec_i32_bits, spec_i32_of_bits, UntypedValue};

verus! {

broadcast use crate::binary_format::lemma_writer_invariants, crate::binary_format::lemma_reader_invariants;

/// The operand payload of one encoded opcode.
#[derive(Debug, Copy, Clone, PartialEq, Eq, Structural)]
pub enum Operand {
    Empty,
    Idx(Index),
    Off(Offset),
    Fuel(Fuel),
    Dk(DropKeep),
    Bp(BranchParams),
    Val(UntypedValue),
    IdxPair(Index, Index),
    IdxDk(Index, DropKeep),
    IdxPairDk(Index, Index, DropKeep),
}

/// The shape of the operand a tag byte announces.
#[derive(Debug, Copy, Clone, PartialEq, Eq, Structural)]
pub enum OperandKind {
    Empty,
    Idx,
    Off,
    Fuel,
    Dk,
    Bp,
    Val,
    IdxPair,
    IdxDk,
    IdxPairDk,
}

/// The shape of a concrete operand.
pub open spec fn kind_of_operand(o: Operand) -> OperandKind {
    match o {
        Operand::Empty => OperandKind::Empty,
        Operand::Idx(_) => OperandKind::Idx,
        Operand::Off(_) => OperandKind::Off,
        Operand::Fuel(_) => OperandKind::Fuel,
        Operand::Dk(_) => OperandKind::Dk,
        Operand::Bp(_) => OperandKind::Bp,
        Operand::Val(_) => OperandKind::Val,
        Operand::IdxPair(_, _) => OperandKind::IdxPair,
        Operand::IdxDk(_, _) => OperandKind::IdxDk,
        Operand::IdxPairDk(_, _, _) => OperandKind::IdxPairDk,
    }
}

/// The number of operand bytes each shape occupies.
pub open spec fn kind_len(k: OperandKind) -> int {
    match k {
        OperandKind::Empty => 0,
        OperandKind::Idx => 4,
        OperandKind::Off => 4,
        OperandKind::Fuel => 8,
        OperandKind::Dk => 8,
        OperandKind::Bp => 12,
        OperandKind::Val => 8,
        OperandKind::IdxPair => 8,
        OperandKind::IdxDk => 12,
        OperandKind::IdxPairDk => 16,
    }
}

/// The operand bytes: every integer is big endian, a jump destination is its
/// signed value's two's-complement bits, drop precedes keep.
pub open spec fn enc_operand(o: Operand) -> Seq<u8> {
    match o {
        Operand::Empty => Seq::empty(),
        Operand::Idx(i) => u32_be_bytes(i.0),
        Operand::Off(off) => u32_be_bytes(off.0),
        Operand::Fuel(f) => u64_be_bytes(f.0),
        Operand::Dk(dk) => u32_be_bytes(dk.drop) + u32_be_bytes(dk.keep),
        Operand::Bp(bp) => u32_be_bytes(spec_i32_bits(bp.offset.0)) + u32_be_bytes(
            bp.drop_keep.drop,
        ) + u32_be_bytes(bp.drop_keep.keep),
        Operand::Val(v) => u64_be_bytes(v.bits),
        Operand::IdxPair(a, b) => u32_be_bytes(a.0) + u32_be_bytes(b.0),
        Operand::IdxDk(i, dk) => u32_be_bytes(i.0) + u32_be_bytes(dk.drop) + u32_be_bytes(dk.keep),
        Operand::IdxPairDk(a, b, dk) => u32_be_bytes(a.0) + u32_be_bytes(b.0) + u32_be_bytes(
            dk.drop,
        ) + u32_be_bytes(dk.keep),
    }
}

/// The operand read back from exactly `kind_len(k)` bytes.
pub open spec fn dec_operand(k: OperandKind, s: Seq<u8>) -> Operand
    recommends
        s.len() == kind_len(k),
{
    match k {
        OperandKind::Empty => Operand::Empty,
        OperandKind::Idx => Operand::Idx(Index(u32_of_be(s.subrange(0, 4)))),
        OperandKind::Off => Operand::Off(Offset(u32_of_be(s.subrange(0, 4)))),
        OperandKind::Fuel => Operand::Fuel(Fuel(u64_of_be(s.subrange(0, 8)))),
        OperandKind::Dk => Operand::Dk(
            DropKeep { drop: u32_of_be(s.subrange(0, 4)), keep: u32_of_be(s.subrange(4, 8)) },
        ),
        OperandKind::Bp => Operand::Bp(
            BranchParams {
                offset: JumpDest(spec_i32_of_bits(u32_of_be(s.subrange(0, 4)))),
                drop_keep: DropKeep {
                    drop: u32_of_be(s.subrange(4, 8)),
                    keep: u32_of_be(s.subrange(8, 12)),
                },
            },
        ),
        OperandKind::Val => Operand::Val(UntypedValue { bits: u64_of_be(s.subrange(0, 8)) }),
        OperandKind::IdxPair => Operand::IdxPair(
            Index(u32_of_be(s.subrange(0, 4))),
            Index(u32_of_be(s.subrange(4, 8))),
        ),
        OperandKind::IdxDk => Operand::IdxDk(
            Index(u32_of_be(s.subrange(0, 4))),
            DropKeep { drop: u32_of_be(s.subrange(4, 8)), keep: u32_of_be(s.subrange(8, 12)) },
        ),
        OperandKind::IdxPairDk => Operand::IdxPairDk(
            Index(u32_of_be(s.subrange(0, 4))),
            Index(u32_of_be(s.subrange(4, 8))),
            DropKeep { drop: u32_of_be(s.subrange(8, 12)), keep: u32_of_be(s.subrange(12, 16)) },
        ),
    }
}

/// The tag byte and operand of each encodable opcode; `None` for the
/// floating-point opcodes, `ElemDrop` and `RefFunc`, which the codec leaves
/// out.
pub open spec fn spec_layout(op: OpCode) -> Option<(u8, Operand)> {
    match op {
        OpCode::Unreachable => Some((0x00u8, Operand::Empty)),
        OpCode::ConsumeFuel(f) => Some((0x01u8, Operand::Fuel(f))),
        OpCode::Drop => Some((0x02u8, Operand::Empty)),
        OpCode::Select => Some((0x04u8, Operand::Empty)),
        OpCode::LocalGet(i) => Some((0x10u8, Operand::Idx(i))),
        OpCode::LocalSet(i) => Some((0x11u8, Operand::Idx(i))),
        OpCode::LocalTee(i) => Some((0x12u8, Operand::Idx(i))),
        OpCode::Br(bp) => Some((0x20u8, Operand::Bp(bp))),
        OpCode::BrIfEqz(bp) => Some((0x21u8, Operand::Bp(bp))),
        OpCode::BrIfNez(bp) => Some((0x22u8, Operand::Bp(bp))),
        OpCode::BrTable(i) => Some((0x23u8, Operand::Idx(i))),
        OpCode::Return(dk) => Some((0x24u8, Operand::Dk(dk))),
        OpCode::ReturnIfNez(dk) => Some((0x25u8, Operand::Dk(dk))),
        OpCode::ReturnCall(i, dk) => Some((0x26u8, Operand::IdxDk(i, dk))),
        OpCode::ReturnCallIndirect { table, func_type, drop_keep } => Some(
            (0x27u8, Operand::IdxPairDk(table, func_type, drop_keep)),
        ),
        OpCode::Call(i) => Some((0x28u8, Operand::Idx(i))),
        OpCode::CallHost(i) => Some((0x29u8, Operand::Idx(i))),
        OpCode::CallIndirect { table, func_type } => Some(
            (0x2Au8, Operand::IdxPair(table, func_type)),
        ),
        OpCode::GlobalGet(i) => Some((0x30u8, Operand::Idx(i))),
        OpCode::GlobalSet(i) => Some((0x31u8, Operand::Idx(i))),
        OpCode::I32Load(o) => Some((0x40u8, Operand::Off(o))),
        OpCode::I64Load(o) => Some((0x41u8, Operand::Off(o))),
        OpCode::I32Load8S(o) => Some((0x42u8, Operand::Off(o))),
        OpCode::I32Load8U(o) => Some((0x43u8, Operand::Off(o))),
        OpCode::I32Load16S(o) => Some((0x44u8, Operand::Off(o))),
        OpCode::I32Load16U(o) => Some((0x45u8, Operand::Off(o))),
        OpCode::I64Load8S(o) => Some((0x46u8, Operand::Off(o))),
        OpCode::I64Load8U(o) => Some((0x47u8, Operand::Off(o))),
        OpCode::I64Load16S(o) => Some((0x48u8, Operand::Off(o))),
        OpCode::I64Load16U(o) => Some((0x49u8, Operand::Off(o))),
        OpCode::I64Load32S(o) => Some((0x4Au8, Operand::Off(o))),
        OpCode::I64Load32U(o) => Some((0x4Bu8, Operand::Off(o))),
        OpCode::I32Store(o) => Some((0x4Cu8, Operand::Off(o))),
        OpCode::I64Store(o) => Some((0x4Du8, Operand::Off(o))),
        OpCode::I32Store8(o) => Some((0x4Eu8, Operand::Off(o))),
        OpCode::I32Store16(o) => Some((0x4Fu8, Operand::Off(o))),
        OpCode::I64Store8(o) => Some((0x50u8, Operand::Off(o))),
        OpCode::I64Store16(o) => Some((0x51u8, Operand::Off(o))),
        OpCode::I64Store32(o) => Some((0x52u8, Operand::Off(o))),
        OpCode::MemorySize => Some((0x53u8, Operand::Empty)),
        OpCode::MemoryGrow => Some((0x54u8, Operand::Empty)),
        OpCode::MemoryFill => Some((0x55u8, Operand::Empty)),
        OpCode::MemoryCopy => Some((0x56u8, Operand::Empty)),
        OpCode::MemoryInit(i) => Some((0x57u8, Operand::Idx(i))),
        OpCode::DataDrop(i) => Some((0x58u8, Operand::Idx(i))),
        OpCode::TableSize(i) => Some((0x59u8, Operand::Idx(i))),
        OpCode::TableGrow(i) => Some((0x5Au8, Operand::Idx(i))),
        OpCode::TableFill(i) => Some((0x5Bu8, Operand::Idx(i))),
        OpCode::TableGet(i) => Some((0x5Cu8, Operand::Idx(i))),
        OpCode::TableSet(i) => Some((0x5Du8, Operand::Idx(i))),
        OpCode::TableCopy { dst, src } => Some((0x5Eu8, Operand::IdxPair(dst, src))),
        OpCode::TableInit { table, elem } => Some((0x5Fu8, Operand::IdxPair(table, elem))),
        OpCode::I64Const(v) => Some((0x60u8, Operand::Val(v))),
        OpCode::I32Const(v) => Some((0x61u8, Operand::Val(v))),
        OpCode::I32Eqz => Some((0x62u8, Operand::Empty)),
        OpCode::I32Eq => Some((0x63u8, Operand::Empty)),
        OpCode::I32Ne => Some((0x64u8, Operand::Empty)),
        OpCode::I32LtS => Some((0x65u8, Operand::Empty)),
        OpCode::I32LtU => Some((0x66u8, Operand::Empty)),
        OpCode::I32GtS => Some((0x67u8, Operand::Empty)),
        OpCode::I32GtU => Some((0x68u8, Operand::Empty)),
        OpCode::I32LeS => Some((0x69u8, Operand::Empty)),
        OpCode::I32LeU => Some((0x6Au8, Operand::Empty)),
        OpCode::I32GeS => Some((0x6Bu8, Operand::Empty)),
        OpCode::I32GeU => Some((0x6Cu8, Operand::Empty)),
        OpCode::I64Eqz => Some((0x6Du8, Operand::Empty)),
        OpCode::I64Eq => Some((0x6Eu8, Operand::Empty)),
        OpCode::I64Ne => Some((0x6Fu8, Operand::Empty)),
        OpCode::I64LtS => Some((0x70u8, Operand::Empty)),
        OpCode::I64LtU => Some((0x71u8, Operand::Empty)),
        OpCode::I64GtS => Some((0x72u8, Operand::Empty)),
        OpCode::I64GtU => Some((0x73u8, Operand::Empty)),
        OpCode::I64LeS => Some((0x74u8, Operand::Empty)),
        OpCode::I64LeU => Some((0x75u8, Operand::Empty)),
        OpCode::I64GeS => Some((0x76u8, Operand::Empty)),
        OpCode::I64GeU => Some((0x77u8, Operand::Empty)),
        OpCode::I32Clz => Some((0x78u8, Operand::Empty)),
        OpCode::I32Ctz => Some((0x79u8, Operand::Empty)),
        OpCode::I32Popcnt => Some((0x7Au8, Operand::Empty)),
        OpCode::I32Add => Some((0x7Bu8, Operand::Empty)),
        OpCode::I32Sub => Some((0x7Cu8, Operand::Empty)),
        OpCode::I32Mul => Some((0x7Du8, Operand::Empty)),
        OpCode::I32DivS => Some((0x7Eu8, Operand::Empty)),
        OpCode::I32DivU => Some((0x7Fu8, Operand::Empty)),
        OpCode::I32RemS => Some((0x80u8, Operand::Empty)),
        OpCode::I32RemU => Some((0x81u8, Operand::Empty)),
        OpCode::I32And => Some((0x82u8, Operand::Empty)),
        OpCode::I32Or => Some((0x83u8, Operand::Empty)),
        OpCode::I32Xor => Some((0x84u8, Operand::Empty)),
        OpCode::I32Shl => Some((0x85u8, Operand::Empty)),
        OpCode::I32ShrS => Some((0x86u8, Operand::Empty)),
        OpCode::I32ShrU => Some((0x87u8, Operand::Empty)),
        OpCode::I32Rotl => Some((0x88u8, Operand::Empty)),
        OpCode::I32Rotr => Some((0x89u8, Operand::Empty)),
        OpCode::I64Clz => Some((0x8Au8, Operand::Empty)),
        OpCode::I64Ctz => Some((0x8Bu8, Operand::Empty)),
        OpCode::I64Popcnt => Some((0x8Cu8, Operand::Empty)),
        OpCode::I64Add => Some((0x8Du8, Operand::Empty)),
        OpCode::I64Sub => Some((0x8Eu8, Operand::Empty)),
        OpCode::I64Mul => Some((0x8Fu8, Operand::Empty)),
        OpCode::I64DivS => Some((0x90u8, Operand::Empty)),
        OpCode::I64DivU => Some((0x91u8, Operand::Empty)),
        OpCode::I64RemS => Some((0x92u8, Operand::Empty)),
        OpCode::I64RemU => Some((0x93u8, Operand::Empty)),
        OpCode::I64And => Some((0x94u8, Operand::Empty)),
        OpCode::I64Or => Some((0x95u8, Operand::Empty)),
        OpCode::I64Xor => Some((0x96u8, Operand::Empty)),
        OpCode::I64Shl => Some((0x97u8, Operand::Empty)),
        OpCode::I64ShrS => Some((0x98u8, Operand::Empty)),
        OpCode::I64ShrU => Some((0x99u8, Operand::Empty)),
        OpCode::I64Rotl => Some((0x9Au8, Operand::Empty)),
        OpCode::I64Rotr => Some((0x9Bu8, Operand::Empty)),
        OpCode::I32WrapI64 => Some((0x9Cu8, Operand::Empty)),
        OpCode::I64ExtendI32S => Some((0x9Du8, Operand::Empty)),
        OpCode::I64ExtendI32U => Some((0x9Eu8, Operand::Empty)),
        OpCode::I32Extend8S => Some((0x9Fu8, Operand::Empty)),
        OpCode::I32Extend16S => Some((0xA0u8, Operand::Empty)),
        OpCode::I64Extend8S => Some((0xA1u8, Operand::Empty)),
        OpCode::I64Extend16S => Some((0xA2u8, Operand::Empty)),
        OpCode::I64Extend32S => Some((0xA3u8, Operand::Empty)),
        _ => None,
    }
}

/// Whether the codec assigns `op` an encoding.
pub open spec fn encodable(op: OpCode) -> bool {
    spec_layout(op) is Some
}

/// The full encoding of one opcode: its tag byte, then its operand bytes.
/// An opcode outside the codec encodes as no bytes at all.
pub open spec fn encode_op(op: OpCode) -> Seq<u8> {
    match spec_layout(op) {
        Some((t, o)) => seq![t] + enc_operand(o),
        None => Seq::empty(),
    }
}

/// The operand shape assigned to a tag byte; `None` for unassigned tags.
pub open spec fn tag_kind(b: u8) -> Option<OperandKind> {
    match b {
        0x00 => Some(OperandKind::Empty),
        0x01 => Some(OperandKind::Fuel),
        0x02 => Some(OperandKind::Empty),
        0x04 => Some(OperandKind::Empty),
        0x10 => Some(OperandKind::Idx),
        0x11 => Some(OperandKind::Idx),
        0x12 => Some(OperandKind::Idx),
        0x20 => Some(OperandKind::Bp),
        0x21 => Some(OperandKind::Bp),
        0x22 => Some(OperandKind::Bp),
        0x23 => Some(OperandKind::Idx),
        0x24 => Some(OperandKind::Dk),
        0x25 => Some(OperandKind::Dk),
        0x26 => Some(OperandKind::IdxDk),
        0x27 => Some(OperandKind::IdxPairDk),
        0x28 => Some(OperandKind::Idx),
        0x29 => Some(OperandKind::Idx),
        0x2A => Some(OperandKind::IdxPair),
        0x30 => Some(OperandKind::Idx),
        0x31 => Some(OperandKind::Idx),
        0x40 => Some(OperandKind::Off),
        0x41 => Some(OperandKind::Off),
        0x42 => Some(OperandKind::Off),
        0x43 => Some(OperandKind::Off),
        0x44 => Some(OperandKind::Off),
        0x45 => Some(OperandKind::Off),
        0x46 => Some(OperandKind::Off),
        0x47 => Some(OperandKind::Off),
        0x48 => Some(OperandKind::Off),
        0x49 => Some(OperandKind::Off),
        0x4A => Some(OperandKind::Off),
        0x4B => Some(OperandKind::Off),
        0x4C => Some(OperandKind::Off),
        0x4D => Some(OperandKind::Off),
        0x4E => Some(OperandKind::Off),
        0x4F => Some(OperandKind::Off),
        0x50 => Some(OperandKind::Off),
        0x51 => Some(OperandKind::Off),
        0x52 => Some(OperandKind::Off),
        0x53 => Some(OperandKind::Empty),
        0x54 => Some(OperandKind::Empty),
        0x55 => Some(OperandKind::Empty),
        0x56 => Some(OperandKind::Empty),
        0x57 => Some(OperandKind::Idx),
        0x58 => Some(OperandKind::Idx),
        0x59 => Some(OperandKind::Idx),
        0x5A => Some(OperandKind::Idx),
        0x5B => Some(OperandKind::Idx),
        0x5C => Some(OperandKind::Idx),
        0x5D => Some(OperandKind::Idx),
        0x5E => Some(OperandKind::IdxPair),
        0x5F => Some(OperandKind::IdxPair),
        0x60 => Some(OperandKind::Val),
        0x61 => Some(OperandKind::Val),
        0x62 => Some(OperandKind::Empty),
        0x63 => Some(OperandKind::Empty),
        0x64 => Some(OperandKind::Empty),
        0x65 => Some(OperandKind::Empty),
        0x66 => Some(OperandKind::Empty),
        0x67 => Some(OperandKind::Empty),
        0x68 => Some(OperandKind::Empty),
        0x69 => Some(OperandKind::Empty),
        0x6A => Some(OperandKind::Empty),
        0x6B => Some(OperandKind::Empty),
        0x6C => Some(OperandKind::Empty),
        0x6D => Some(OperandKind::Empty),
        0x6E => Some(OperandKind::Empty),
        0x6F => Some(OperandKind::Empty),
        0x70 => Some(OperandKind::Empty),
        0x71 => Some(OperandKind::Empty),
        0x72 => Some(OperandKind::Empty),
        0x73 => Some(OperandKind::Empty),
        0x74 => Some(OperandKind::Empty),
        0x75 => Some(OperandKind::Empty),
        0x76 => Some(OperandKind::Empty),
        0x77 => Some(OperandKind::Empty),
        0x78 => Some(OperandKind::Empty),
        0x79 => Some(OperandKind::Empty),
        0x7A => Some(OperandKind::Empty),
        0x7B => Some(OperandKind::Empty),
        0x7C => Some(OperandKind::Empty),
        0x7D => Some(OperandKind::Empty),
        0x7E => Some(OperandKind::Empty),
        0x7F => Some(OperandKind::Empty),
        0x80 => Some(OperandKind::Empty),
        0x81 => Some(OperandKind::Empty),
        0x82 => Some(OperandKind::Empty),
        0x83 => Some(OperandKind::Empty),
        0x84 => Some(OperandKind::Empty),
        0x85 => Some(OperandKind::Empty),
        0x86 => Some(OperandKind::Empty),
        0x87 => Some(OperandKind::Empty),
        0x88 => Some(OperandKind::Empty),
        0x89 => Some(OperandKind::Empty),
        0x8A => Some(OperandKind::Empty),
        0x8B => Some(OperandKind::Empty),
        0x8C => Some(OperandKind::Empty),
        0x8D => Some(OperandKind::Empty),
        0x8E => Some(OperandKind::Empty),
        0x8F => Some(OperandKind::Empty),
        0x90 => Some(OperandKind::Empty),
        0x91 => Some(OperandKind::Empty),
        0x92 => Some(OperandKind::Empty),
        0x93 => Some(OperandKind::Empty),
        0x94 => Some(OperandKind::Empty),
        0x95 => Some(OperandKind::Empty),
        0x96 => Some(OperandKind::Empty),
        0x97 => Some(OperandKind::Empty),
        0x98 => Some(OperandKind::Empty),
        0x99 => Some(OperandKind::Empty),
        0x9A => Some(OperandKind::Empty),
        0x9B => Some(OperandKind::Empty),
        0x9C => Some(OperandKind::Empty),
        0x9D => Some(OperandKind::Empty),
        0x9E => Some(OperandKind::Empty),
        0x9F => Some(OperandKind::Empty),
        0xA0 => Some(OperandKind::Empty),
        0xA1 => Some(OperandKind::Empty),
        0xA2 => Some(OperandKind::Empty),
        0xA3 => Some(OperandKind::Empty),
        _ => None,
    }
}

/// The opcode built from an assigned tag byte and an operand of the
/// matching shape.
pub open spec fn make_op(b: u8, o: Operand) -> OpCode
    recommends
        tag_kind(b) == Some(kind_of_operand(o)),
{
    match b {
        0x00 => OpCode::Unreachable,
        0x01 => match o {
            Operand::Fuel(f) => OpCode::ConsumeFuel(f),
            _ => arbitrary(),
        },
        0x02 => OpCode::Drop,
        0x04 => OpCode::Select,
        0x10 => match o {
            Operand::Idx(i) => OpCode::LocalGet(i),
            _ => arbitrary(),
        },
        0x11 => match o {
            Operand::Idx(i) => OpCode::LocalSet(i),
            _ => arbitrary(),
        },
        0x12 => match o {
            Operand::Idx(i) => OpCode::LocalTee(i),
            _ => arbitrary(),
        },
        0x20 => match o {
            Operand::Bp(bp) => OpCode::Br(bp),
            _ => arbitrary(),
        },
        0x21 => match o {
            Operand::Bp(bp) => OpCode::BrIfEqz(bp),
            _ => arbitrary(),
        },
        0x22 => match o {
            Operand::Bp(bp) => OpCode::BrIfNez(bp),
            _ => arbitrary(),
        },
        0x23 => match o {
            Operand::Idx(i) => OpCode::BrTable(i),
            _ => arbitrary(),
        },
        0x24 => match o {
            Operand::Dk(dk) => OpCode::Return(dk),
            _ => arbitrary(),
        },
        0x25 => match o {
            Operand::Dk(dk) => OpCode::ReturnIfNez(dk),
            _ => arbitrary(),
        },
        0x26 => match o {
            Operand::IdxDk(i, dk) => OpCode::ReturnCall(i, dk),
            _ => arbitrary(),
        },
        0x27 => match o {
            Operand::IdxPairDk(a, b, dk) => OpCode::ReturnCallIndirect {
                table: a,
                func_type: b,
                drop_keep: dk,
            },
            _ => arbitrary(),
        },
        0x28 => match o {
            Operand::Idx(i) => OpCode::Call(i),
            _ => arbitrary(),
        },
        0x29 => match o {
            Operand::Idx(i) => OpCode::CallHost(i),
            _ => arbitrary(),
        },
        0x2A => match o {
            Operand::IdxPair(a, b) => OpCode::CallIndirect { table: a, func_type: b },
            _ => arbitrary(),
        },
        0x30 => match o {
            Operand::Idx(i) => OpCode::GlobalGet(i),
            _ => arbitrary(),
        },
        0x31 => match o {
            Operand::Idx(i) => OpCode::GlobalSet(i),
            _ => arbitrary(),
        },
        0x40 => match o {
            Operand::Off(o) => OpCode::I32Load(o),
            _ => arbitrary(),
        },
        0x41 => match o {
            Operand::Off(o) => OpCode::I64Load(o),
            _ => arbitrary(),
        },
        0x42 => match o {
            Operand::Off(o) => OpCode::I32Load8S(o),
            _ => arbitrary(),
        },
        0x43 => match o {
            Operand::Off(o) => OpCode::I32Load8U(o),
            _ => arbitrary(),
        },
        0x44 => match o {
            Operand::Off(o) => OpCode::I32Load16S(o),
            _ => arbitrary(),
        },
        0x45 => match o {
            Operand::Off(o) => OpCode::I32Load16U(o),
            _ => arbitrary(),
        },
        0x46 => match o {
            Operand::Off(o) => OpCode::I64Load8S(o),
            _ => arbitrary(),
        },
        0x47 => match o {
            Operand::Off(o) => OpCode::I64Load8U(o),
            _ => arbitrary(),
        },
        0x48 => match o {
            Operand::Off(o) => OpCode::I64Load16S(o),
            _ => arbitrary(),
        },
        0x49 => match o {
            Operand::Off(o) => OpCode::I64Load16U(o),
            _ => arbitrary(),
        },
        0x4A => match o {
            Operand::Off(o) => OpCode::I64Load32S(o),
            _ => arbitrary(),
        },
        0x4B => match o {
            Operand::Off(o) => OpCode::I64Load32U(o),
            _ => arbitrary(),
        },
        0x4C => match o {
            Operand::Off(o) => OpCode::I32Store(o),
            _ => arbitrary(),
        },
        0x4D => match o {
            Operand::Off(o) => OpCode::I64Store(o),
            _ => arbitrary(),
        },
        0x4E => match o {
            Operand::Off(o) => OpCode::I32Store8(o),
            _ => arbitrary(),
        },
        0x4F => match o {
            Operand::Off(o) => OpCode::I32Store16(o),
            _ => arbitrary(),
        },
        0x50 => match o {
            Operand::Off(o) => OpCode::I64Store8(o),
            _ => arbitrary(),
        },
        0x51 => match o {
            Operand::Off(o) => OpCode::I64Store16(o),
            _ => arbitrary(),
        },
        0x52 => match o {
            Operand::Off(o) => OpCode::I64Store32(o),
            _ => arbitrary(),
        },
        0x53 => OpCode::MemorySize,
        0x54 => OpCode::MemoryGrow,
        0x55 => OpCode::MemoryFill,
        0x56 => OpCode::MemoryCopy,
        0x57 => match o {
            Operand::Idx(i) => OpCode::MemoryInit(i),
            _ => arbitrary(),
        },
        0x58 => match o {
            Operand::Idx(i) => OpCode::DataDrop(i),
            _ => arbitrary(),
        },
        0x59 => match o {
            Operand::Idx(i) => OpCode::TableSize(i),
            _ => arbitrary(),
        },
        0x5A => match o {
            Operand::Idx(i) => OpCode::TableGrow(i),
            _ => arbitrary(),
        },
        0x5B => match o {
            Operand::Idx(i) => OpCode::TableFill(i),
            _ => arbitrary(),
        },
        0x5C => match o {
            Operand::Idx(i) => OpCode::TableGet(i),
            _ => arbitrary(),
        },
        0x5D => match o {
            Operand::Idx(i) => OpCode::TableSet(i),
            _ => arbitrary(),
        },
        0x5E => match o {
            Operand::IdxPair(a, b) => OpCode::TableCopy { dst: a, src: b },
            _ => arbitrary(),
        },
        0x5F => match o {
            Operand::IdxPair(a, b) => OpCode::TableInit { table: a, elem: b },
            _ => arbitrary(),
        },
        0x60 => match o {
            Operand::Val(v) => OpCode::I64Const(v),
            _ => arbitrary(),
        },
        0x61 => match o {
            Operand::Val(v) => OpCode::I32Const(v),
            _ => arbitrary(),
        },
        0x62 => OpCode::I32Eqz,
        0x63 => OpCode::I32Eq,
        0x64 => OpCode::I32Ne,
        0x65 => OpCode::I32LtS,
        0x66 => OpCode::I32LtU,
        0x67 => OpCode::I32GtS,
        0x68 => OpCode::I32GtU,
        0x69 => OpCode::I32LeS,
        0x6A => OpCode::I32LeU,
        0x6B => OpCode::I32GeS,
        0x6C => OpCode::I32GeU,
        0x6D => OpCode::I64Eqz,
        0x6E => OpCode::I64Eq,
        0x6F => OpCode::I64Ne,
        0x70 => OpCode::I64LtS,
        0x71 => OpCode::I64LtU,
        0x72 => OpCode::I64GtS,
        0x73 => OpCode::I64GtU,
        0x74 => OpCode::I64LeS,
        0x75 => OpCode::I64LeU,
        0x76 => OpCode::I64GeS,
        0x77 => OpCode::I64GeU,
        0x78 => OpCode::I32Clz,
        0x79 => OpCode::I32Ctz,
        0x7A => OpCode::I32Popcnt,
        0x7B => OpCode::I32Add,
        0x7C => OpCode::I32Sub,
        0x7D => OpCode::I32Mul,
        0x7E => OpCode::I32DivS,
        0x7F => OpCode::I32DivU,
        0x80 => OpCode::I32RemS,
        0x81 => OpCode::I32RemU,
        0x82 => OpCode::I32And,
        0x83 => OpCode::I32Or,
        0x84 => OpCode::I32Xor,
        0x85 => OpCode::I32Shl,
        0x86 => OpCode::I32ShrS,
        0x87 => OpCode::I32ShrU,
        0x88 => OpCode::I32Rotl,
        0x89 => OpCode::I32Rotr,
        0x8A => OpCode::I64Clz,
        0x8B => OpCode::I64Ctz,
        0x8C => OpCode::I64Popcnt,
        0x8D => OpCode::I64Add,
        0x8E => OpCode::I64Sub,
        0x8F => OpCode::I64Mul,
        0x90 => OpCode::I64DivS,
        0x91 => OpCode::I64DivU,
        0x92 => OpCode::I64RemS,
        0x93 => OpCode::I64RemU,
        0x94 => OpCode::I64And,
        0x95 => OpCode::I64Or,
        0x96 => OpCode::I64Xor,
        0x97 => OpCode::I64Shl,
        0x98 => OpCode::I64ShrS,
        0x99 => OpCode::I64ShrU,
        0x9A => OpCode::I64Rotl,
        0x9B => OpCode::I64Rotr,
        0x9C => OpCode::I32WrapI64,
        0x9D => OpCode::I64ExtendI32S,
        0x9E => OpCode::I64ExtendI32U,
        0x9F => OpCode::I32Extend8S,
        0xA0 => OpCode::I32Extend16S,
        0xA1 => OpCode::I64Extend8S,
        0xA2 => OpCode::I64Extend16S,
        0xA3 => OpCode::I64Extend32S,
        _ => arbitrary(),
    }
}

/// Decoding one opcode at the front of `s`: the opcode and the number of
/// bytes it occupies, or `None` when `s` is empty, truncated, or starts with
/// an unassigned tag.
pub open spec fn decode_op(s: Seq<u8>) -> Option<(OpCode, int)> {
    if s.len() < 1 {
        None
    } else {
        match tag_kind(s[0]) {
            Some(k) => if s.len() >= 1 + kind_len(k) {
                Some(
                    (
                        make_op(s[0], dec_operand(k, s.subrange(1, 1 + kind_len(k)))),
                        1 + kind_len(k),
                    ),
                )
            } else {
                None
            },
            None => None,
        }
    }
}

/// An operand's encoding has exactly the width its shape announces.
pub proof fn lemma_enc_operand_len(o: Operand)
    ensures
        enc_operand(o).len() == kind_len(kind_of_operand(o)),
{
}

/// One encoded opcode is never longer than a tag plus the widest operand.
pub proof fn lemma_encode_op_len(op: OpCode)
    ensures
        encode_op(op).len() <= 17,
        encodable(op) ==> 1 <= encode_op(op).len(),
{
    if encodable(op) {
        let (t, o) = spec_layout(op).unwrap();
        lemma_enc_operand_len(o);
    }
}

/// The tag of every encodable opcode is assigned exactly its operand's
/// shape, and rebuilding the opcode from its tag and operand gives it back.
pub proof fn lemma_layout_consistent(op: OpCode)
    requires
        encodable(op),
    ensures
        ({
            let (t, o) = spec_layout(op).unwrap();
            tag_kind(t) == Some(kind_of_operand(o)) && make_op(t, o) == op
        }),
{
}

/// Reading back an operand's encoding gives the operand.
pub proof fn lemma_operand_roundtrip(o: Operand)
    ensures
        dec_operand(kind_of_operand(o), enc_operand(o)) == o,
{
    let s = enc_operand(o);
    match o {
        Operand::Empty => {},
        Operand::Idx(i) => {
            assert(s.subrange(0, 4) =~= u32_be_bytes(i.0));
            lemma_u32_be_roundtrip(i.0);
        },
        Operand::Off(off) => {
            assert(s.subrange(0, 4) =~= u32_be_bytes(off.0));
            lemma_u32_be_roundtrip(off.0);
        },
        Operand::Fuel(f) => {
            assert(s.subrange(0, 8) =~= u64_be_bytes(f.0));
            lemma_u64_be_roundtrip(f.0);
        },
        Operand::Dk(dk) => {
            assert(s.subrange(0, 4) =~= u32_be_bytes(dk.drop));
            assert(s.subrange(4, 8) =~= u32_be_bytes(dk.keep));
            lemma_u32_be_roundtrip(dk.drop);
            lemma_u32_be_roundtrip(dk.keep);
        },
        Operand::Bp(bp) => {
            assert(s.subrange(0, 4) =~= u32_be_bytes(spec_i32_bits(bp.offset.0)));
            assert(s.subrange(4, 8) =~= u32_be_bytes(bp.drop_keep.drop));
            assert(s.subrange(8, 12) =~= u32_be_bytes(bp.drop_keep.keep));
            lemma_u32_be_roundtrip(spec_i32_bits(bp.offset.0));
            lemma_u32_be_roundtrip(bp.drop_keep.drop);
            lemma_u32_be_roundtrip(bp.drop_keep.keep);
            lemma_i32_bits_roundtrip(bp.offset.0);
        },
        Operand::Val(v) => {
            assert(s.subrange(0, 8) =~= u64_be_bytes(v.bits));
            lemma_u64_be_roundtrip(v.bits);
        },
        Operand::IdxPair(a, b) => {
            assert(s.subrange(0, 4) =~= u32_be_bytes(a.0));
            assert(s.subrange(4, 8) =~= u32_be_bytes(b.0));
            lemma_u32_be_roundtrip(a.0);
            lemma_u32_be_roundtrip(b.0);
        },
        Operand::IdxDk(i, dk) => {
            assert(s.subrange(0, 4) =~= u32_be_bytes(i.0));
            assert(s.subrange(4, 8) =~= u32_be_bytes(dk.drop));
            assert(s.subrange(8, 12) =~= u32_be_bytes(dk.keep));
            lemma_u32_be_roundtrip(i.0);
            lemma_u32_be_roundtrip(dk.drop);
            lemma_u32_be_roundtrip(dk.keep);
        },
        Operand::IdxPairDk(a, b, dk) => {
            assert(s.subrange(0, 4) =~= u32_be_bytes(a.0));
            assert(s.subrange(4, 8) =~= u32_be_bytes(b.0));
            assert(s.subrange(8, 12) =~= u32_be_bytes(dk.drop));
            assert(s.subrange(12, 16) =~= u32_be_bytes(dk.keep));
            lemma_u32_be_roundtrip(a.0);
            lemma_u32_be_roundtrip(b.0);
            lemma_u32_be_roundtrip(dk.drop);
            lemma_u32_be_roundtrip(dk.keep);
        },
    }
}

/// A decoded operand has the shape it was decoded as.
pub proof fn lemma_dec_operand_kind(k: OperandKind, s: Seq<u8>)
    ensures
        kind_of_operand(dec_operand(k, s)) == k,
{
}

/// Codec round-trip: decoding the encoding of an encodable opcode, whatever
/// bytes follow it, yields exactly that opcode and consumes exactly its
/// encoded length.
pub proof fn lemma_codec_round_trip(op: OpCode, rest: Seq<u8>)
    requires
        encodable(op),
    ensures
        decode_op(encode_op(op) + rest) == Some((op, encode_op(op).len() as int)),
{
    let (t, o) = spec_layout(op).unwrap();
    let k = kind_of_operand(o);
    lemma_layout_consistent(op);
    lemma_operand_roundtrip(o);
    lemma_enc_operand_len(o);
    let s = encode_op(op) + rest;
    assert(s[0] == t);
    assert(s.subrange(1, 1 + kind_len(k)) =~= enc_operand(o));
}

/// Size invariance: rewriting a branch opcode's jump offset never changes
/// its encoded length.
pub proof fn lemma_size_invariance(op: OpCode, new_offset: JumpDest)
    requires
        is_branch(op),
    ensures
        encode_op(spec_rewrite_jump_offset(op, new_offset)).len() == encode_op(op).len(),
{
}

/// The tag byte and operand of one opcode, as data.
fn layout(op: &OpCode) -> (r: Option<(u8, Operand)>)
    ensures
        r == spec_layout(*op),
{
    match *op {
            OpCode::Unreachable => Some((0x00u8, Operand::Empty)),
            OpCode::ConsumeFuel(f) => Some((0x01u8, Operand::Fuel(f))),
            OpCode::Drop => Some((0x02u8, Operand::Empty)),
            OpCode::Select => Some((0x04u8, Operand::Empty)),
            OpCode::LocalGet(i) => Some((0x10u8, Operand::Idx(i))),
            OpCode::LocalSet(i) => Some((0x11u8, Operand::Idx(i))),
            OpCode::LocalTee(i) => Some((0x12u8, Operand::Idx(i))),
            OpCode::Br(bp) => Some((0x20u8, Operand::Bp(bp))),
            OpCode::BrIfEqz(bp) => Some((0x21u8, Operand::Bp(bp))),
            OpCode::BrIfNez(bp) => Some((0x22u8, Operand::Bp(bp))),
            OpCode::BrTable(i) => Some((0x23u8, Operand::Idx(i))),
            OpCode::Return(dk) => Some((0x24u8, Operand::Dk(dk))),
            OpCode::ReturnIfNez(dk) => Some((0x25u8, Operand::Dk(dk))),
            OpCode::ReturnCall(i, dk) => Some((0x26u8, Operand::IdxDk(i, dk))),
            OpCode::ReturnCallIndirect { table, func_type, drop_keep } => Some(
            (0x27u8, Operand::IdxPairDk(table, func_type, drop_keep)),
        ),
            OpCode::Call(i) => Some((0x28u8, Operand::Idx(i))),
            OpCode::CallHost(i) => Some((0x29u8, Operand::Idx(i))),
            OpCode::CallIndirect { table, func_type } => Some(
            (0x2Au8, Operand::IdxPair(table, func_type)),
        ),
            OpCode::GlobalGet(i) => Some((0x30u8, Operand::Idx(i))),
            OpCode::GlobalSet(i) => Some((0x31u8, Operand::Idx(i))),
            OpCode::I32Load(o) => Some((0x40u8, Operand::Off(o))),
            OpCode::I64Load(o) => Some((0x41u8, Operand::Off(o))),
            OpCode::I32Load8S(o) => Some((0x42u8, Operand::Off(o))),
            OpCode::I32Load8U(o) => Some((0x43u8, Operand::Off(o))),
            OpCode::I32Load16S(o) => Some((0x44u8, Operand::Off(o))),
            OpCode::I32Load16U(o) => Some((0x45u8, Operand::Off(o))),
            OpCode::I64Load8S(o) => Some((0x46u8, Operand::Off(o))),
            OpCode::I64Load8U(o) => Some((0x47u8, Operand::Off(o))),
            OpCode::I64Load16S(o) => Some((0x48u8, Operand::Off(o))),
            OpCode::I64Load16U(o) => Some((0x49u8, Operand::Off(o))),
            OpCode::I64Load32S(o) => Some((0x4Au8, Operand::Off(o))),
            OpCode::I64Load32U(o) => Some((0x4Bu8, Operand::Off(o))),
            OpCode::I32Store(o) => Some((0x4Cu8, Operand::Off(o))),
            OpCode::I64Store(o) => Some((0x4Du8, Operand::Off(o))),
            OpCode::I32Store8(o) => Some((0x4Eu8, Operand::Off(o))),
            OpCode::I32Store16(o) => Some((0x4Fu8, Operand::Off(o))),
            OpCode::I64Store8(o) => Some((0x50u8, Operand::Off(o))),
            OpCode::I64Store16(o) => Some((0x51u8, Operand::Off(o))),
            OpCode::I64Store32(o) => Some((0x52u8, Operand::Off(o))),
            OpCode::MemorySize => Some((0x53u8, Operand::Empty)),
            OpCode::MemoryGrow => Some((0x54u8, Operand::Empty)),
            OpCode::MemoryFill => Some((0x55u8, Operand::Empty)),
            OpCode::MemoryCopy => Some((0x56u8, Operand::Empty)),
            OpCode::MemoryInit(i) => Some((0x57u8, Operand::Idx(i))),
            OpCode::DataDrop(i) => Some((0x58u8, Operand::Idx(i))),
            OpCode::TableSize(i) => Some((0x59u8, Operand::Idx(i))),
            OpCode::TableGrow(i) => Some((0x5Au8, Operand::Idx(i))),
            OpCode::TableFill(i) => Some((0x5Bu8, Operand::Idx(i))),
            OpCode::TableGet(i) => Some((0x5Cu8, Operand::Idx(i))),
            OpCode::TableSet(i) => Some((0x5Du8, Operand::Idx(i))),
            OpCode::TableCopy { dst, src } => Some((0x5Eu8, Operand::IdxPair(dst, src))),
            OpCode::TableInit { table, elem } => Some((0x5Fu8, Operand::IdxPair(table, elem))),
            OpCode::I64Const(v) => Some((0x60u8, Operand::Val(v))),
            OpCode::I32Const(v) => Some((0x61u8, Operand::Val(v))),
            OpCode::I32Eqz => Some((0x62u8, Operand::Empty)),
            OpCode::I32Eq => Some((0x63u8, Operand::Empty)),
            OpCode::I32Ne => Some((0x64u8, Operand::Empty)),
            OpCode::I32LtS => Some((0x65u8, Operand::Empty)),
            OpCode::I32LtU => Some((0x66u8, Operand::Empty)),
            OpCode::I32GtS => Some((0x67u8, Operand::Empty)),
            OpCode::I32GtU => Some((0x68u8, Operand::Empty)),
            OpCode::I32LeS => Some((0x69u8, Operand::Empty)),
            OpCode::I32LeU => Some((0x6Au8, Operand::Empty)),
            OpCode::I32GeS => Some((0x6Bu8, Operand::Empty)),
            OpCode::I32GeU => Some((0x6Cu8, Operand::Empty)),
            OpCode::I64Eqz => Some((0x6Du8, Operand::Empty)),
            OpCode::I64Eq => Some((0x6Eu8, Operand::Empty)),
            OpCode::I64Ne => Some((0x6Fu8, Operand::Empty)),
            OpCode::I64LtS => Some((0x70u8, Operand::Empty)),
            OpCode::I64LtU => Some((0x71u8, Operand::Empty)),
            OpCode::I64GtS => Some((0x72u8, Operand::Empty)),
            OpCode::I64GtU => Some((0x73u8, Operand::Empty)),
            OpCode::I64LeS => Some((0x74u8, Operand::Empty)),
            OpCode::I64LeU => Some((0x75u8, Operand::Empty)),
            OpCode::I64GeS => Some((0x76u8, Operand::Empty)),
            OpCode::I64GeU => Some((0x77u8, Operand::Empty)),
            OpCode::I32Clz => Some((0x78u8, Operand::Empty)),
            OpCode::I32Ctz => Some((0x79u8, Operand::Empty)),
            OpCode::I32Popcnt => Some((0x7Au8, Operand::Empty)),
            OpCode::I32Add => Some((0x7Bu8, Operand::Empty)),
            OpCode::I32Sub => Some((0x7Cu8, Operand::Empty)),
            OpCode::I32Mul => Some((0x7Du8, Operand::Empty)),
            OpCode::I32DivS => Some((0x7Eu8, Operand::Empty)),
            OpCode::I32DivU => Some((0x7Fu8, Operand::Empty)),
            OpCode::I32RemS => Some((0x80u8, Operand::Empty)),
            OpCode::I32RemU => Some((0x81u8, Operand::Empty)),
            OpCode::I32And => Some((0x82u8, Operand::Empty)),
            OpCode::I32Or => Some((0x83u8, Operand::Empty)),
            OpCode::I32Xor => Some((0x84u8, Operand::Empty)),
            OpCode::I32Shl => Some((0x85u8, Operand::Empty)),
            OpCode::I32ShrS => Some((0x86u8, Operand::Empty)),
            OpCode::I32ShrU => Some((0x87u8, Operand::Empty)),
            OpCode::I32Rotl => Some((0x88u8, Operand::Empty)),
            OpCode::I32Rotr => Some((0x89u8, Operand::Empty)),
            OpCode::I64Clz => Some((0x8Au8, Operand::Empty)),
            OpCode::I64Ctz => Some((0x8Bu8, Operand::Empty)),
            OpCode::I64Popcnt => Some((0x8Cu8, Operand::Empty)),
            OpCode::I64Add => Some((0x8Du8, Operand::Empty)),
            OpCode::I64Sub => Some((0x8Eu8, Operand::Empty)),
            OpCode::I64Mul => Some((0x8Fu8, Operand::Empty)),
            OpCode::I64DivS => Some((0x90u8, Operand::Empty)),
            OpCode::I64DivU => Some((0x91u8, Operand::Empty)),
            OpCode::I64RemS => Some((0x92u8, Operand::Empty)),
            OpCode::I64RemU => Some((0x93u8, Operand::Empty)),
            OpCode::I64And => Some((0x94u8, Operand::Empty)),
            OpCode::I64Or => Some((0x95u8, Operand::Empty)),
            OpCode::I64Xor => Some((0x96u8, Operand::Empty)),
            OpCode::I64Shl => Some((0x97u8, Operand::Empty)),
            OpCode::I64ShrS => Some((0x98u8, Operand::Empty)),
            OpCode::I64ShrU => Some((0x99u8, Operand::Empty)),
            OpCode::I64Rotl => Some((0x9Au8, Operand::Empty)),
            OpCode::I64Rotr => Some((0x9Bu8, Operand::Empty)),
            OpCode::I32WrapI64 => Some((0x9Cu8, Operand::Empty)),
            OpCode::I64ExtendI32S => Some((0x9Du8, Operand::Empty)),
            OpCode::I64ExtendI32U => Some((0x9Eu8, Operand::Empty)),
            OpCode::I32Extend8S => Some((0x9Fu8, Operand::Empty)),
            OpCode::I32Extend16S => Some((0xA0u8, Operand::Empty)),
            OpCode::I64Extend8S => Some((0xA1u8, Operand::Empty)),
            OpCode::I64Extend16S => Some((0xA2u8, Operand::Empty)),
            OpCode::I64Extend32S => Some((0xA3u8, Operand::Empty)),
        _ => None,
    }
}

/// The operand shape a tag byte announces.
fn kind_of_tag(b: u8) -> (r: Option<OperandKind>)
    ensures
        r == tag_kind(b),
{
    match b {
            0x00 => Some(OperandKind::Empty),
            0x01 => Some(OperandKind::Fuel),
            0x02 => Some(OperandKind::Empty),
            0x04 => Some(OperandKind::Empty),
            0x10 => Some(OperandKind::Idx),
            0x11 => Some(OperandKind::Idx),
            0x12 => Some(OperandKind::Idx),
            0x20 => Some(OperandKind::Bp),
            0x21 => Some(OperandKind::Bp),
            0x22 => Some(OperandKind::Bp),
            0x23 => Some(OperandKind::Idx),
            0x24 => Some(OperandKind::Dk),
            0x25 => Some(OperandKind::Dk),
            0x26 => Some(OperandKind::IdxDk),
            0x27 => Some(OperandKind::IdxPairDk),
            0x28 => Some(OperandKind::Idx),
            0x29 => Some(OperandKind::Idx),
            0x2A => Some(OperandKind::IdxPair),
            0x30 => Some(OperandKind::Idx),
            0x31 => Some(OperandKind::Idx),
            0x40 => Some(OperandKind::Off),
            0x41 => Some(OperandKind::Off),
            0x42 => Some(OperandKind::Off),
            0x43 => Some(OperandKind::Off),
            0x44 => Some(OperandKind::Off),
            0x45 => Some(OperandKind::Off),
            0x46 => Some(OperandKind::Off),
            0x47 => Some(OperandKind::Off),
            0x48 => Some(OperandKind::Off),
            0x49 => Some(OperandKind::Off),
            0x4A => Some(OperandKind::Off),
            0x4B => Some(OperandKind::Off),
            0x4C => Some(OperandKind::Off),
            0x4D => Some(OperandKind::Off),
            0x4E => Some(OperandKind::Off),
            0x4F => Some(OperandKind::Off),
            0x50 => Some(OperandKind::Off),
            0x51 => Some(OperandKind::Off),
            0x52 => Some(OperandKind::Off),
            0x53 => Some(OperandKind::Empty),
            0x54 => Some(OperandKind::Empty),
            0x55 => Some(OperandKind::Empty),
            0x56 => Some(OperandKind::Empty),
            0x57 => Some(OperandKind::Idx),
            0x58 => Some(OperandKind::Idx),
            0x59 => Some(OperandKind::Idx),
            0x5A => Some(OperandKind::Idx),
            0x5B => Some(OperandKind::Idx),
            0x5C => Some(OperandKind::Idx),
            0x5D => Some(OperandKind::Idx),
            0x5E => Some(OperandKind::IdxPair),
            0x5F => Some(OperandKind::IdxPair),
            0x60 => Some(OperandKind::Val),
            0x61 => Some(OperandKind::Val),
            0x62 => Some(OperandKind::Empty),
            0x63 => Some(OperandKind::Empty),
            0x64 => Some(OperandKind::Empty),
            0x65 => Some(OperandKind::Empty),
            0x66 => Some(OperandKind::Empty),
            0x67 => Some(OperandKind::Empty),
            0x68 => Some(OperandKind::Empty),
            0x69 => Some(OperandKind::Empty),
            0x6A => Some(OperandKind::Empty),
            0x6B => Some(OperandKind::Empty),
            0x6C => Some(OperandKind::Empty),
            0x6D => Some(OperandKind::Empty),
            0x6E => Some(OperandKind::Empty),
            0x6F => Some(OperandKind::Empty),
            0x70 => Some(OperandKind::Empty),
            0x71 => Some(OperandKind::Empty),
            0x72 => Some(OperandKind::Empty),
            0x73 => Some(OperandKind::Empty),
            0x74 => Some(OperandKind::Empty),
            0x75 => Some(OperandKind::Empty),
            0x76 => Some(OperandKind::Empty),
            0x77 => Some(OperandKind::Empty),
            0x78 => Some(OperandKind::Empty),
            0x79 => Some(OperandKind::Empty),
            0x7A => Some(OperandKind::Empty),
            0x7B => Some(OperandKind::Empty),
            0x7C => Some(OperandKind::Empty),
            0x7D => Some(OperandKind::Empty),
            0x7E => Some(OperandKind::Empty),
            0x7F => Some(OperandKind::Empty),
            0x80 => Some(OperandKind::Empty),
            0x81 => Some(OperandKind::Empty),
            0x82 => Some(OperandKind::Empty),
            0x83 => Some(OperandKind::Empty),
            0x84 => Some(OperandKind::Empty),
            0x85 => Some(OperandKind::Empty),
            0x86 => Some(OperandKind::Empty),
            0x87 => Some(OperandKind::Empty),
            0x88 => Some(OperandKind::Empty),
            0x89 => Some(OperandKind::Empty),
            0x8A => Some(OperandKind::Empty),
            0x8B => Some(OperandKind::Empty),
            0x8C => Some(OperandKind::Empty),
            0x8D => Some(OperandKind::Empty),
            0x8E => Some(OperandKind::Empty),
            0x8F => Some(OperandKind::Empty),
            0x90 => Some(OperandKind::Empty),
            0x91 => Some(OperandKind::Empty),
            0x92 => Some(OperandKind::Empty),
            0x93 => Some(OperandKind::Empty),
            0x94 => Some(OperandKind::Empty),
            0x95 => Some(OperandKind::Empty),
            0x96 => Some(OperandKind::Empty),
            0x97 => Some(OperandKind::Empty),
            0x98 => Some(OperandKind::Empty),
            0x99 => Some(OperandKind::Empty),
            0x9A => Some(OperandKind::Empty),
            0x9B => Some(OperandKind::Empty),
            0x9C => Some(OperandKind::Empty),
            0x9D => Some(OperandKind::Empty),
            0x9E => Some(OperandKind::Empty),
            0x9F => Some(OperandKind::Empty),
            0xA0 => Some(OperandKind::Empty),
            0xA1 => Some(OperandKind::Empty),
            0xA2 => Some(OperandKind::Empty),
            0xA3 => Some(OperandKind::Empty),
        _ => None,
    }
}

/// Writes one operand into the sink.
fn write_operand(sink: &mut BinaryFormatWriter, o: Operand) -> (r: Result<(), BinaryFormatError>)
    requires
        old(sink).wf(),
    ensures
        final(sink).wf(),
        final(sink).capacity() == old(sink).capacity(),
        r is Ok <==> old(sink).space() >= enc_operand(o).len(),
        r is Ok ==> final(sink).written() =~= old(sink).written() + enc_operand(o) && final(sink).space() == old(sink).space() - enc_operand(o).len(),
        r is Err ==> r->Err_0 is NeedMore,
{
    proof {
        lemma_enc_operand_len(o);
    }
    match o {
        Operand::Empty => Ok(()),
        Operand::Idx(i) => sink.write_u32_be(i.0),
        Operand::Off(off) => sink.write_u32_be(off.0),
        Operand::Fuel(f) => sink.write_u64_be(f.0),
        Operand::Dk(dk) => {
            sink.write_u32_be(dk.drop)?;
            sink.write_u32_be(dk.keep)?;
            proof {
                assert(sink.written() =~= old(sink).written() + enc_operand(o));
            }
            Ok(())
        },
        Operand::Bp(bp) => {
            sink.write_i32_be(bp.offset.0)?;
            sink.write_u32_be(bp.drop_keep.drop)?;
            sink.write_u32_be(bp.drop_keep.keep)?;
            proof {
                assert(sink.written() =~= old(sink).written() + enc_operand(o));
            }
            Ok(())
        },
        Operand::Val(v) => sink.write_u64_be(v.bits),
        Operand::IdxPair(a, b) => {
            sink.write_u32_be(a.0)?;
            sink.write_u32_be(b.0)?;
            proof {
                assert(sink.written() =~= old(sink).written() + enc_operand(o));
            }
            Ok(())
        },
        Operand::IdxDk(i, dk) => {
            sink.write_u32_be(i.0)?;
            sink.write_u32_be(dk.drop)?;
            sink.write_u32_be(dk.keep)?;
            proof {
                assert(sink.written() =~= old(sink).written() + enc_operand(o));
            }
            Ok(())
        },
        Operand::IdxPairDk(a, b, dk) => {
            sink.write_u32_be(a.0)?;
            sink.write_u32_be(b.0)?;
            sink.write_u32_be(dk.drop)?;
            sink.write_u32_be(dk.keep)?;
            proof {
                assert(sink.written() =~= old(sink).written() + enc_operand(o));
            }
            Ok(())
        },
    }
}

/// Reads one operand of the given shape. A short buffer fails up front with
/// the full count of missing bytes and consumes nothing.
fn read_operand(sink: &mut BinaryFormatReader, k: OperandKind) -> (r: Result<
    Operand,
    BinaryFormatError,
>)
    requires
        old(sink).wf(),
    ensures
        final(sink).wf(),
        final(sink).buffer() == old(sink).buffer(),
        r is Ok <==> old(sink).remaining().len() >= kind_len(k),
        r is Ok ==> r == Ok::<Operand, BinaryFormatError>(
            dec_operand(k, old(sink).remaining().take(kind_len(k))),
        ) && final(sink).remaining() =~= old(sink).remaining().skip(kind_len(k)),
        r is Err ==> r == Err::<Operand, BinaryFormatError>(
            BinaryFormatError::NeedMore(
                (kind_len(k) - old(sink).remaining().len()) as usize,
            ),
        ) && *final(sink) == *old(sink),
{
    let width: usize = match k {
        OperandKind::Empty => 0,
        OperandKind::Idx => 4,
        OperandKind::Off => 4,
        OperandKind::Fuel => 8,
        OperandKind::Dk => 8,
        OperandKind::Bp => 12,
        OperandKind::Val => 8,
        OperandKind::IdxPair => 8,
        OperandKind::IdxDk => 12,
        OperandKind::IdxPairDk => 16,
    };
    match sink.ensure_remaining(width) {
        Ok(()) => {},
        Err(e) => {
            return Err(e);
        },
    }
    let ghost orig = old(sink).remaining();
    match k {
        OperandKind::Empty => Ok(Operand::Empty),
        OperandKind::Idx => {
            let v = sink.read_u32_be()?;
            proof {
                assert(orig.take(4).subrange(0, 4) =~= orig.take(4));
            }
            Ok(Operand::Idx(Index(v)))
        },
        OperandKind::Off => {
            let v = sink.read_u32_be()?;
            proof {
                assert(orig.take(4).subrange(0, 4) =~= orig.take(4));
            }
            Ok(Operand::Off(Offset(v)))
        },
        OperandKind::Fuel => {
            let v = sink.read_u64_be()?;
            proof {
                assert(orig.take(8).subrange(0, 8) =~= orig.take(8));
            }
            Ok(Operand::Fuel(Fuel(v)))
        },
        OperandKind::Dk => {
            let d = sink.read_u32_be()?;
            let kp = sink.read_u32_be()?;
            proof {
                assert(orig.take(8).subrange(0, 4) =~= orig.take(4));
                assert(orig.take(8).subrange(4, 8) =~= orig.skip(4).take(4));
                assert(sink.remaining() =~= orig.skip(8));
            }
            Ok(Operand::Dk(DropKeep { drop: d, keep: kp }))
        },
        OperandKind::Bp => {
            let off = sink.read_i32_be()?;
            let d = sink.read_u32_be()?;
            let kp = sink.read_u32_be()?;
            proof {
                assert(orig.take(12).subrange(0, 4) =~= orig.take(4));
                assert(orig.take(12).subrange(4, 8) =~= orig.skip(4).take(4));
                assert(orig.take(12).subrange(8, 12) =~= orig.skip(4).skip(4).take(4));
                assert(sink.remaining() =~= orig.skip(12));
            }
            Ok(
                Operand::Bp(
                    BranchParams { offset: JumpDest(off), drop_keep: DropKeep { drop: d, keep: kp } },
                ),
            )
        },
        OperandKind::Val => {
            let v = sink.read_u64_be()?;
            proof {
                assert(orig.take(8).subrange(0, 8) =~= orig.take(8));
            }
            Ok(Operand::Val(UntypedValue { bits: v }))
        },
        OperandKind::IdxPair => {
            let a = sink.read_u32_be()?;
            let b = sink.read_u32_be()?;
            proof {
                assert(orig.take(8).subrange(0, 4) =~= orig.take(4));
                assert(orig.take(8).subrange(4, 8) =~= orig.skip(4).take(4));
                assert(sink.remaining() =~= orig.skip(8));
            }
            Ok(Operand::IdxPair(Index(a), Index(b)))
        },
        OperandKind::IdxDk => {
            let i = sink.read_u32_be()?;
            let d = sink.read_u32_be()?;
            let kp = sink.read_u32_be()?;
            proof {
                assert(orig.take(12).subrange(0, 4) =~= orig.take(4));
                assert(orig.take(12).subrange(4, 8) =~= orig.skip(4).take(4));
                assert(orig.take(12).subrange(8, 12) =~= orig.skip(4).skip(4).take(4));
                assert(sink.remaining() =~= orig.skip(12));
            }
            Ok(Operand::IdxDk(Index(i), DropKeep { drop: d, keep: kp }))
        },
        OperandKind::IdxPairDk => {
            let a = sink.read_u32_be()?;
            let b = sink.read_u32_be()?;
            let d = sink.read_u32_be()?;
            let kp = sink.read_u32_be()?;
            proof {
                assert(orig.take(16).subrange(0, 4) =~= orig.take(4));
                assert(orig.take(16).subrange(4, 8) =~= orig.skip(4).take(4));
                assert(orig.take(16).subrange(8, 12) =~= orig.skip(4).skip(4).take(4));
                assert(orig.take(16).subrange(12, 16) =~= orig.skip(4).skip(4).skip(4).take(4));
                assert(sink.remaining() =~= orig.skip(16));
            }
            Ok(Operand::IdxPairDk(Index(a), Index(b), DropKeep { drop: d, keep: kp }))
        },
    }
}

/// Builds the opcode an assigned tag byte and its operand stand for.
fn make_op_exec(tag: u8, op: Operand) -> (r: OpCode)
    requires
        tag_kind(tag) == Some(kind_of_operand(op)),
    ensures
        r == make_op(tag, op),
{
    match tag {
            0x00 => OpCode::Unreachable,
            0x01 => match op {
                Operand::Fuel(f) => OpCode::ConsumeFuel(f),
                _ => {
                    proof {
                        assert(false);
                    }
                    OpCode::Unreachable
                },
            },
            0x02 => OpCode::Drop,
            0x04 => OpCode::Select,
            0x10 => match op {
                Operand::Idx(i) => OpCode::LocalGet(i),
                _ => {
                    proof {
                        assert(false);
                    }
                    OpCode::Unreachable
                },
            },
            0x11 => match op {
                Operand::Idx(i) => OpCode::LocalSet(i),
                _ => {
                    proof {
                        assert(false);
                    }
                    OpCode::Unreachable
                },
            },
            0x12 => match op {
                Operand::Idx(i) => OpCode::LocalTee(i),
                _ => {
                    proof {
                        assert(false);
                    }
                    OpCode::Unreachable
                },
            },
            0x20 => match op {
                Operand::Bp(bp) => OpCode::Br(bp),
                _ => {
                    proof {
                        assert(false);
                    }
                    OpCode::Unreachable
                },
            },
            0x21 => match op {
                Operand::Bp(bp) => OpCode::BrIfEqz(bp),
                _ => {
                    proof {
                        assert(false);
                    }
                    OpCode::Unreachable
                },
            },
            0x22 => match op {
                Operand::Bp(bp) => OpCode::BrIfNez(bp),
                _ => {
                    proof {
                        assert(false);
                    }
                    OpCode::Unreachable
                },
            },
            0x23 => match op {
                Operand::Idx(i) => OpCode::BrTable(i),
                _ => {
                    proof {
                        assert(false);
                    }
                    OpCode::Unreachable
                },
            },
            0x24 => match op {
                Operand::Dk(dk) => OpCode::Return(dk),
                _ => {
                    proof {
                        assert(false);
                    }
                    OpCode::Unreachable
                },
            },
            0x25 => match op {
                Operand::Dk(dk) => OpCode::ReturnIfNez(dk),
                _ => {
                    proof {
                        assert(false);
                    }
                    OpCode::Unreachable
                },
            },
            0x26 => match op {
                Operand::IdxDk(i, dk) => OpCode::ReturnCall(i, dk),
                _ => {
                    proof {
                        assert(false);
                    }
                    OpCode::Unreachable
                },
            },
            0x27 => match op {
                Operand::IdxPairDk(a, b, dk) => OpCode::ReturnCallIndirect {
                    table: a,
                    func_type: b,
                    drop_keep: dk,
                },
                _ => {
                    proof {
                        assert(false);
                    }
                    OpCode::Unreachable
                },
            },
            0x28 => match op {
                Operand::Idx(i) => OpCode::Call(i),
                _ => {
                    proof {
                        assert(false);
                    }
                    OpCode::Unreachable
                },
            },
            0x29 => match op {
                Operand::Idx(i) => OpCode::CallHost(i),
                _ => {
                    proof {
                        assert(false);
                    }
                    OpCode::Unreachable
                },
            },
            0x2A => match op {
                Operand::IdxPair(a, b) => OpCode::CallIndirect { table: a, func_type: b },
                _ => {
                    proof {
                        assert(false);
                    }
                    OpCode::Unreachable
                },
            },
            0x30 => match op {
                Operand::Idx(i) => OpCode::GlobalGet(i),
                _ => {
                    proof {
                        assert(false);
                    }
                    OpCode::Unreachable
                },
            },
            0x31 => match op {
                Operand::Idx(i) => OpCode::GlobalSet(i),
                _ => {
                    proof {
                        assert(false);
                    }
                    OpCode::Unreachable
                },
            },
            0x40 => match op {
                Operand::Off(o) => OpCode::I32Load(o),
                _ => {
                    proof {
                        assert(false);
                    }
                    OpCode::Unreachable
                },
            },
            0x41 => match op {
                Operand::Off(o) => OpCode::I64Load(o),
                _ => {
                    proof {
                        assert(false);
                    }
                    OpCode::Unreachable
                },
            },
            0x42 => match op {
                Operand::Off(o) => OpCode::I32Load8S(o),
                _ => {
                    proof {
                        assert(false);
                    }
                    OpCode::Unreachable
                },
            },
            0x43 => match op {
                Operand::Off(o) => OpCode::I32Load8U(o),
                _ => {
                    proof {
                        assert(false);
                    }
                    OpCode::Unreachable
                },
            },
            0x44 => match op {
                Operand::Off(o) => OpCode::I32Load16S(o),
                _ => {
                    proof {
                        assert(false);
                    }
                    OpCode::Unreachable
                },
            },
            0x45 => match op {
                Operand::Off(o) => OpCode::I32Load16U(o),
                _ => {
                    proof {
                        assert(false);
                    }
                    OpCode::Unreachable
                },
            },
            0x46 => match op {
                Operand::Off(o) => OpCode::I64Load8S(o),
                _ => {
                    proof {
                        assert(false);
                    }
                    OpCode::Unreachable
                },
            },
            0x47 => match op {
                Operand::Off(o) => OpCode::I64Load8U(o),
                _ => {
                    proof {
                        assert(false);
                    }
                    OpCode::Unreachable
                },
            },
            0x48 => match op {
                Operand::Off(o) => OpCode::I64Load16S(o),
                _ => {
                    proof {
                        assert(false);
                    }
                    OpCode::Unreachable
                },
            },
            0x49 => match op {
                Operand::Off(o) => OpCode::I64Load16U(o),
                _ => {
                    proof {
                        assert(false);
                    }
                    OpCode::Unreachable
                },
            },
            0x4A => match op {
                Operand::Off(o) => OpCode::I64Load32S(o),
                _ => {
                    proof {
                        assert(false);
                    }
                    OpCode::Unreachable
                },
            },
            0x4B => match op {
                Operand::Off(o) => OpCode::I64Load32U(o),
                _ => {
                    proof {
                        assert(false);
                    }
                    OpCode::Unreachable
                },
            },
            0x4C => match op {
                Operand::Off(o) => OpCode::I32Store(o),
                _ => {
                    proof {
                        assert(false);
                    }
                    OpCode::Unreachable
                },
            },
            0x4D => match op {
                Operand::Off(o) => OpCode::I64Store(o),
                _ => {
                    proof {
                        assert(false);
                    }
                    OpCode::Unreachable
                },
            },
            0x4E => match op {
                Operand::Off(o) => OpCode::I32Store8(o),
                _ => {
                    proof {
                        assert(false);
                    }
                    OpCode::Unreachable
                },
            },
            0x4F => match op {
                Operand::Off(o) => OpCode::I32Store16(o),
                _ => {
                    proof {
                        assert(false);
                    }
                    OpCode::Unreachable
                },
            },
            0x50 => match op {
                Operand::Off(o) => OpCode::I64Store8(o),
                _ => {
                    proof {
                        assert(false);
                    }
                    OpCode::Unreachable
                },
            },
            0x51 => match op {
                Operand::Off(o) => OpCode::I64Store16(o),
                _ => {
                    proof {
                        assert(false);
                    }
                    OpCode::Unreachable
                },
            },
            0x52 => match op {
                Operand::Off(o) => OpCode::I64Store32(o),
                _ => {
                    proof {
                        assert(false);
                    }
                    OpCode::Unreachable
                },
            },
            0x53 => OpCode::MemorySize,
            0x54 => OpCode::MemoryGrow,
            0x55 => OpCode::MemoryFill,
            0x56 => OpCode::MemoryCopy,
            0x57 => match op {
                Operand::Idx(i) => OpCode::MemoryInit(i),
                _ => {
                    proof {
                        assert(false);
                    }
                    OpCode::Unreachable
                },
            },
            0x58 => match op {
                Operand::Idx(i) => OpCode::DataDrop(i),
                _ => {
                    proof {
                        assert(false);
                    }
                    OpCode::Unreachable
                },
            },
            0x59 => match op {
                Operand::Idx(i) => OpCode::TableSize(i),
                _ => {
                    proof {
                        assert(false);
                    }
                    OpCode::Unreachable
                },
            },
            0x5A => match op {
                Operand::Idx(i) => OpCode::TableGrow(i),
                _ => {
                    proof {
                        assert(false);
                    }
                    OpCode::Unreachable
                },
            },
            0x5B => match op {
                Operand::Idx(i) => OpCode::TableFill(i),
                _ => {
                    proof {
                        assert(false);
                    }
                    OpCode::Unreachable
                },
            },
            0x5C => match op {
                Operand::Idx(i) => OpCode::TableGet(i),
                _ => {
                    proof {
                        assert(false);
                    }
                    OpCode::Unreachable
                },
            },
            0x5D => match op {
                Operand::Idx(i) => OpCode::TableSet(i),
                _ => {
                    proof {
                        assert(false);
                    }
                    OpCode::Unreachable
                },
            },
            0x5E => match op {
                Operand::IdxPair(a, b) => OpCode::TableCopy { dst: a, src: b },
                _ => {
                    proof {
                        assert(false);
                    }
                    OpCode::Unreachable
                },
            },
            0x5F => match op {
                Operand::IdxPair(a, b) => OpCode::TableInit { table: a, elem: b },
                _ => {
                    proof {
                        assert(false);
                    }
                    OpCode::Unreachable
                },
            },
            0x60 => match op {
                Operand::Val(v) => OpCode::I64Const(v),
                _ => {
                    proof {
                        assert(false);
                    }
                    OpCode::Unreachable
                },
            },
            0x61 => match op {
                Operand::Val(v) => OpCode::I32Const(v),
                _ => {
                    proof {
                        assert(false);
                    }
                    OpCode::Unreachable
                },
            },
            0x62 => OpCode::I32Eqz,
            0x63 => OpCode::I32Eq,
            0x64 => OpCode::I32Ne,
            0x65 => OpCode::I32LtS,
            0x66 => OpCode::I32LtU,
            0x67 => OpCode::I32GtS,
            0x68 => OpCode::I32GtU,
            0x69 => OpCode::I32LeS,
            0x6A => OpCode::I32LeU,
            0x6B => OpCode::I32GeS,
            0x6C => OpCode::I32GeU,
            0x6D => OpCode::I64Eqz,
            0x6E => OpCode::I64Eq,
            0x6F => OpCode::I64Ne,
            0x70 => OpCode::I64LtS,
            0x71 => OpCode::I64LtU,
            0x72 => OpCode::I64GtS,
            0x73 => OpCode::I64GtU,
            0x74 => OpCode::I64LeS,
            0x75 => OpCode::I64LeU,
            0x76 => OpCode::I64GeS,
            0x77 => OpCode::I64GeU,
            0x78 => OpCode::I32Clz,
            0x79 => OpCode::I32Ctz,
            0x7A => OpCode::I32Popcnt,
            0x7B => OpCode::I32Add,
            0x7C => OpCode::I32Sub,
            0x7D => OpCode::I32Mul,
            0x7E => OpCode::I32DivS,
            0x7F => OpCode::I32DivU,
            0x80 => OpCode::I32RemS,
            0x81 => OpCode::I32RemU,
            0x82 => OpCode::I32And,
            0x83 => OpCode::I32Or,
            0x84 => OpCode::I32Xor,
            0x85 => OpCode::I32Shl,
            0x86 => OpCode::I32ShrS,
            0x87 => OpCode::I32ShrU,
            0x88 => OpCode::I32Rotl,
            0x89 => OpCode::I32Rotr,
            0x8A => OpCode::I64Clz,
            0x8B => OpCode::I64Ctz,
            0x8C => OpCode::I64Popcnt,
            0x8D => OpCode::I64Add,
            0x8E => OpCode::I64Sub,
            0x8F => OpCode::I64Mul,
            0x90 => OpCode::I64DivS,
            0x91 => OpCode::I64DivU,
            0x92 => OpCode::I64RemS,
            0x93 => OpCode::I64RemU,
            0x94 => OpCode::I64And,
            0x95 => OpCode::I64Or,
            0x96 => OpCode::I64Xor,
            0x97 => OpCode::I64Shl,
            0x98 => OpCode::I64ShrS,
            0x99 => OpCode::I64ShrU,
            0x9A => OpCode::I64Rotl,
            0x9B => OpCode::I64Rotr,
            0x9C => OpCode::I32WrapI64,
            0x9D => OpCode::I64ExtendI32S,
            0x9E => OpCode::I64ExtendI32U,
            0x9F => OpCode::I32Extend8S,
            0xA0 => OpCode::I32Extend16S,
            0xA1 => OpCode::I64Extend8S,
            0xA2 => OpCode::I64Extend16S,
            0xA3 => OpCode::I64Extend32S,
        _ => {
            proof {
                assert(false);
            }
            OpCode::Unreachable
        },
    }
}

impl OpCode {
    /// Encodes this opcode into the sink: the tag byte, then the operand. An
    /// opcode the codec leaves out writes nothing and succeeds.
    pub fn write_binary(&self, sink: &mut BinaryFormatWriter) -> (r: Result<
        (),
        BinaryFormatError,
    >)
        requires
            old(sink).wf(),
        ensures
            final(sink).wf(),
            final(sink).capacity() == old(sink).capacity(),
            r is Ok <==> old(sink).space() >= encode_op(*self).len(),
            r is Ok ==> final(sink).written() =~= old(sink).written() + encode_op(*self) && final(sink).space() == old(sink).space() - encode_op(*self).len(),
            r is Err ==> r->Err_0 is NeedMore,
    {
        proof {
            lemma_enc_operand_len_all();
        }
        match layout(self) {
            None => Ok(()),
            Some((t, o)) => {
                sink.write_u8(t)?;
                write_operand(sink, o)?;
                proof {
                    assert(sink.written() =~= old(sink).written() + encode_op(*self));
                }
                Ok(())
            },
        }
    }

    /// Decodes one opcode from the reader: consumes exactly its bytes on
    /// success; fails with `NeedMore` when the buffer ends inside the opcode
    /// and with `IllegalOpcode` on an unassigned tag.
    pub fn read_binary(sink: &mut BinaryFormatReader) -> (r: Result<OpCode, BinaryFormatError>)
        requires
            old(sink).wf(),
        ensures
            final(sink).wf(),
            final(sink).buffer() == old(sink).buffer(),
            decode_op(old(sink).remaining()) is Some ==> r == Ok::<OpCode, BinaryFormatError>(
                decode_op(old(sink).remaining()).unwrap().0,
            ) && final(sink).remaining() =~= old(sink).remaining().skip(
                decode_op(old(sink).remaining()).unwrap().1,
            ),
            r is Err <==> decode_op(old(sink).remaining()) is None,
            old(sink).remaining().len() == 0 ==> r == Err::<OpCode, BinaryFormatError>(
                BinaryFormatError::NeedMore(1),
            ),
            old(sink).remaining().len() >= 1 && tag_kind(old(sink).remaining()[0]) is None ==> r
                == Err::<OpCode, BinaryFormatError>(
                BinaryFormatError::IllegalOpcode(old(sink).remaining()[0]),
            ),
            r is Err && old(sink).remaining().len() >= 1 && tag_kind(
                old(sink).remaining()[0],
            ) is Some ==> r == Err::<OpCode, BinaryFormatError>(
                BinaryFormatError::NeedMore(
                    (1 + kind_len(tag_kind(old(sink).remaining()[0]).unwrap()) - old(
                        sink,
                    ).remaining().len()) as usize,
                ),
            ),
    {
        let ghost orig = old(sink).remaining();
        let tag = sink.read_u8()?;
        match kind_of_tag(tag) {
            None => Err(BinaryFormatError::IllegalOpcode(tag)),
            Some(k) => {
                let o = read_operand(sink, k)?;
                proof {
                    assert(orig.skip(1).take(kind_len(k)) =~= orig.subrange(1, 1 + kind_len(k)));
                    assert(orig.skip(1).skip(kind_len(k)) =~= orig.skip(1 + kind_len(k)));
                    lemma_dec_operand_kind(k, orig.subrange(1, 1 + kind_len(k)));
                }
                Ok(make_op_exec(tag, o))
            },
        }
    }
}

/// The width announcement of every operand shape, in one ambient fact.
proof fn lemma_enc_operand_len_all()
    ensures
        forall|o: Operand| #[trigger] enc_operand(o).len() == kind_len(kind_of_operand(o)),
{
    assert forall|o: Operand| #[trigger] enc_operand(o).len() == kind_len(
        kind_of_operand(o),
    ) by {
        lemma_enc_operand_len(o);
    }
}

/// Encodes one opcode into a fresh byte vector.
pub fn encode_opcode_to_vec(op: &OpCode) -> (r: Vec<u8>)
    ensures
        r@ == encode_op(*op),
{
    proof {
        lemma_encode_op_len(*op);
    }
    let buf: Vec<u8> = vec![0u8; 24];
    let mut writer = BinaryFormatWriter::new(buf);
    let res = op.write_binary(&mut writer);
    proof {
        assert(res is Ok);
    }
    writer.to_vec()
}

/// The byte sequence of a whole opcode sequence, each opcode after the last.
pub open spec fn encode_iseq(ops: Seq<OpCode>) -> Seq<u8>
    decreases ops.len(),
{
    if ops.len() == 0 {
        Seq::empty()
    } else {
        encode_op(ops[0]) + encode_iseq(ops.skip(1))
    }
}

/// Appending one opcode appends exactly its encoding.
pub proof fn lemma_encode_iseq_push(ops: Seq<OpCode>, op: OpCode)
    ensures
        encode_iseq(ops.push(op)) =~= encode_iseq(ops) + encode_op(op),
    decreases ops.len(),
{
    if ops.len() == 0 {
        assert(ops.push(op).skip(1) =~= Seq::<OpCode>::empty());
        assert(ops.push(op)[0] == op);
        assert(encode_iseq(ops.push(op)) =~= encode_op(op) + encode_iseq(
            Seq::<OpCode>::empty(),
        ));
        assert(encode_iseq(ops) + encode_op(op) =~= encode_op(op));
    } else {
        assert(ops.push(op).skip(1) =~= ops.skip(1).push(op));
        lemma_encode_iseq_push(ops.skip(1), op);
        assert(ops.push(op)[0] == ops[0]);
    }
}

/// The encoding of a sequence splits at any position: the bytes of the
/// first `j` opcodes, then the bytes of the rest.
pub proof fn lemma_encode_iseq_split(ops: Seq<OpCode>, j: int)
    requires
        0 <= j <= ops.len(),
    ensures
        encode_iseq(ops) =~= encode_iseq(ops.take(j)) + encode_iseq(ops.skip(j)),
    decreases ops.len(),
{
    if j == 0 {
        assert(ops.take(0) =~= Seq::<OpCode>::empty());
        assert(ops.skip(0) =~= ops);
    } else {
        lemma_encode_iseq_split(ops.skip(1), j - 1);
        assert(ops.take(j)[0] == ops[0]);
        assert(ops.take(j).skip(1) =~= ops.skip(1).take(j - 1));
        assert(ops.skip(j) =~= ops.skip(1).skip(j - 1));
        assert((encode_op(ops[0]) + encode_iseq(ops.skip(1).take(j - 1))) + encode_iseq(
            ops.skip(1).skip(j - 1),
        ) =~= encode_op(ops[0]) + (encode_iseq(ops.skip(1).take(j - 1)) + encode_iseq(
            ops.skip(1).skip(j - 1),
        )));
    }
}

/// Decoding a whole byte sequence as consecutive opcodes, until the end of
/// the input; `None` when any opcode fails to decode.
pub open spec fn decode_seq(s: Seq<u8>) -> Option<Seq<OpCode>>
    decreases s.len(),
{
    if s.len() == 0 {
        Some(Seq::empty())
    } else {
        match decode_op(s) {
            Some((op, n)) => if 1 <= n <= s.len() {
                match decode_seq(s.skip(n)) {
                    Some(rest) => Some(seq![op] + rest),
                    None => None,
                }
            } else {
                None
            },
            None => None,
        }
    }
}

impl InstructionSet {
    /// Encodes every opcode in order into the sink. Succeeds exactly when
    /// the sink has room for the whole encoding.
    pub fn write_binary(&self, sink: &mut BinaryFormatWriter) -> (r: Result<
        (),
        BinaryFormatError,
    >)
        requires
            old(sink).wf(),
        ensures
            final(sink).wf(),
            final(sink).capacity() == old(sink).capacity(),
            r is Ok <==> old(sink).space() >= encode_iseq(self.0@).len(),
            r is Ok ==> final(sink).written() =~= old(sink).written() + encode_iseq(self.0@)
                && final(sink).space() == old(sink).space() - encode_iseq(self.0@).len(),
            r is Err ==> r->Err_0 is NeedMore,
    {
        let n = self.0.len();
        let mut i: usize = 0;
        while i < n
            invariant
                sink.wf(),
                sink.capacity() == old(sink).capacity(),
                i <= n,
                n == self.0@.len(),
                sink.written() =~= old(sink).written() + encode_iseq(self.0@.take(i as int)),
                sink.space() == old(sink).space() - encode_iseq(self.0@.take(i as int)).len(),
            decreases n - i,
        {
            let op = self.0[i];
            let ghost done = self.0@.take(i as int);
            proof {
                assert(self.0@.take(i + 1) =~= done.push(self.0@[i as int]));
                lemma_encode_iseq_push(done, self.0@[i as int]);
            }
            match op.write_binary(sink) {
                Ok(()) => {},
                Err(e) => {
                    proof {
                        lemma_encode_iseq_split(self.0@, i + 1);
                        assert(encode_iseq(self.0@).len() >= encode_iseq(
                            self.0@.take(i + 1),
                        ).len());
                    }
                    return Err(e);
                },
            }
            i = i + 1;
        }
        proof {
            assert(self.0@.take(n as int) =~= self.0@);
        }
        Ok(())
    }

    /// Decodes opcodes until the end of the input.
    pub fn read_binary(sink: &mut BinaryFormatReader) -> (r: Result<
        InstructionSet,
        BinaryFormatError,
    >)
        requires
            old(sink).wf(),
        ensures
            final(sink).wf(),
            r is Ok ==> decode_seq(old(sink).remaining()) == Some(r->Ok_0.0@) && final(sink).remaining().len() == 0,
            r is Err ==> decode_seq(old(sink).remaining()) is None,
    {
        let mut result = InstructionSet::new();
        while !sink.is_empty()
            invariant
                sink.wf(),
                decode_seq(old(sink).remaining()) == (match decode_seq(sink.remaining()) {
                    Some(t) => Some(result.0@ + t),
                    None => None::<Seq<OpCode>>,
                }),
            decreases sink.remaining().len(),
        {
            let ghost before = sink.remaining();
            let op = match OpCode::read_binary(sink) {
                Ok(op) => op,
                Err(e) => {
                    return Err(e);
                },
            };
            result.0.push(op);
            proof {
                let (dop, n) = decode_op(before).unwrap();
                assert(decode_seq(before) == (match decode_seq(before.skip(n)) {
                    Some(rest) => Some(seq![dop] + rest),
                    None => None::<Seq<OpCode>>,
                }));
                assert(result.0@ =~= result.0@.subrange(0, result.0@.len() - 1).push(op));
            }
        }
        proof {
            assert(decode_seq(sink.remaining()) == Some(Seq::<OpCode>::empty()));
            assert(result.0@ + Seq::<OpCode>::empty() =~= result.0@);
        }
        Ok(result)
    }
}

/// A decoded opcode occupies at least its tag byte and at most the input.
pub proof fn lemma_decode_op_bounds(s: Seq<u8>)
    ensures
        decode_op(s) is Some ==> 1 <= decode_op(s).unwrap().1 <= s.len(),
{
}

/// Decoding a whole byte sequence as consecutive opcodes, each paired with
/// its byte offset counted from `base`; `None` when any opcode fails to
/// decode.
pub open spec fn decode_entries(s: Seq<u8>, base: int) -> Option<Seq<(OpCode, int)>>
    decreases s.len(),
{
    if s.len() == 0 {
        Some(Seq::empty())
    } else {
        match decode_op(s) {
            Some((op, n)) => if 1 <= n <= s.len() {
                match decode_entries(s.skip(n), base + n) {
                    Some(rest) => Some(seq![(op, base)] + rest),
                    None => None,
                }
            } else {
                None
            },
            None => None,
        }
    }
}

/// Every entry's byte offset lies at or after the base offset.
pub proof fn lemma_decode_entries_offsets(s: Seq<u8>, base: int)
    requires
        decode_entries(s, base) is Some,
    ensures
        forall|i: int|
            0 <= i < decode_entries(s, base).unwrap().len() ==> #[trigger] decode_entries(
                s,
                base,
            ).unwrap()[i].1 >= base,
    decreases s.len(),
{
    if s.len() == 0 {
    } else {
        let (op, n) = decode_op(s).unwrap();
        lemma_decode_entries_offsets(s.skip(n), base + n);
    }
}

/// Decoding the byte sequence of encodable opcodes gives them back: the
/// sequence-level codec round-trip.
pub proof fn lemma_iseq_round_trip(ops: Seq<OpCode>)
    requires
        forall|i: int| 0 <= i < ops.len() ==> encodable(#[trigger] ops[i]),
        forall|i: int| 0 <= i < ops.len() ==> encode_op(#[trigger] ops[i]).len() >= 1,
    ensures
        decode_seq(encode_iseq(ops)) == Some(ops),
    decreases ops.len(),
{
    if ops.len() == 0 {
        assert(decode_seq(encode_iseq(ops)) == Some(Seq::<OpCode>::empty()));
        assert(Seq::<OpCode>::empty() =~= ops);
    } else {
        let s = encode_iseq(ops);
        let head = encode_op(ops[0]);
        let tail = encode_iseq(ops.skip(1));
        lemma_codec_round_trip(ops[0], tail);
        lemma_iseq_round_trip(ops.skip(1));
        assert(s.skip(head.len() as int) =~= tail);
        assert(seq![ops[0]] + ops.skip(1) =~= ops);
    }
}

} // verus!
