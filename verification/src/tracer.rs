//! The tracer: records per-instruction program counter, opcode identity and
//! parameters, stack snapshots, memory deltas, function metadata and global
//! initialization, and serializes them to a stable JSON whose field order
//! never changes.

use vstd::prelude::*;

use crate::json::{
    dec_nat, escape_json, hex_encode, hex_seq, json_string, u32_to_string, u64_to_string,
};
use crate::meta::InstrMeta;
use crate::opcode::OpCode;
use crate::utils::DropKeep;
use crate::value::{i64_bits, spec_i64_bits, UntypedValue};

verus! {

/// The lower-snake-case short name of an opcode, as it appears in the trace.
pub open spec fn spec_opcode_name(op: OpCode) -> Seq<char> {
    match op {
        OpCode::Unreachable => "unreachable"@,
        OpCode::ConsumeFuel(_) => "consume_fuel"@,
        OpCode::Drop => "drop"@,
        OpCode::Select => "select"@,
        OpCode::LocalGet(_) => "local_get"@,
        OpCode::LocalSet(_) => "local_set"@,
        OpCode::LocalTee(_) => "local_tee"@,
        OpCode::Br(_) => "br"@,
        OpCode::BrIfEqz(_) => "br_if_eqz"@,
        OpCode::BrIfNez(_) => "br_if_nez"@,
        OpCode::BrTable(_) => "br_table"@,
        OpCode::Return(_) => "return"@,
        OpCode::ReturnIfNez(_) => "return_if_nez"@,
        OpCode::ReturnCall(_, _) => "return_call"@,
        OpCode::ReturnCallIndirect { .. } => "return_call_indirect"@,
        OpCode::Call(_) => "call"@,
        OpCode::CallIndirect { .. } => "call_indirect"@,
        OpCode::CallHost(_) => "call_host"@,
        OpCode::GlobalGet(_) => "global_get"@,
        OpCode::GlobalSet(_) => "global_set"@,
        OpCode::I32Load(_) => "i32_load"@,
        OpCode::I64Load(_) => "i64_load"@,
        OpCode::F32Load(_) => "f32_load"@,
        OpCode::F64Load(_) => "f64_load"@,
        OpCode::I32Load8S(_) => "i32_load8_s"@,
        OpCode::I32Load8U(_) => "i32_load8_u"@,
        OpCode::I32Load16S(_) => "i32_load16_s"@,
        OpCode::I32Load16U(_) => "i32_load16_u"@,
        OpCode::I64Load8S(_) => "i64_load8_s"@,
        OpCode::I64Load8U(_) => "i64_load8_u"@,
        OpCode::I64Load16S(_) => "i64_load16_s"@,
        OpCode::I64Load16U(_) => "i64_load16_u"@,
        OpCode::I64Load32S(_) => "i64_load32_s"@,
        OpCode::I64Load32U(_) => "i64_load32_u"@,
        OpCode::I32Store(_) => "i32_store"@,
        OpCode::I64Store(_) => "i64_store"@,
        OpCode::F32Store(_) => "f32_store"@,
        OpCode::F64Store(_) => "f64_store"@,
        OpCode::I32Store8(_) => "i32_store8"@,
        OpCode::I32Store16(_) => "i32_store16"@,
        OpCode::I64Store8(_) => "i64_store8"@,
        OpCode::I64Store16(_) => "i64_store16"@,
        OpCode::I64Store32(_) => "i64_store32"@,
        OpCode::MemorySize => "memory_size"@,
        OpCode::MemoryGrow => "memory_grow"@,
        OpCode::MemoryFill => "memory_fill"@,
        OpCode::MemoryCopy => "memory_copy"@,
        OpCode::MemoryInit(_) => "memory_init"@,
        OpCode::DataDrop(_) => "data_drop"@,
        OpCode::TableSize(_) => "table_size"@,
        OpCode::TableGrow(_) => "table_grow"@,
        OpCode::TableFill(_) => "table_fill"@,
        OpCode::TableGet(_) => "table_get"@,
        OpCode::TableSet(_) => "table_set"@,
        OpCode::TableCopy { .. } => "table_copy"@,
        OpCode::TableInit { .. } => "table_init"@,
        OpCode::ElemDrop(_) => "elem_drop"@,
        OpCode::RefFunc(_) => "ref_func"@,
        OpCode::I64Const(_) => "i64_const"@,
        OpCode::I32Const(_) => "i32_const"@,
        OpCode::I32Eqz => "i32_eqz"@,
        OpCode::I32Eq => "i32_eq"@,
        OpCode::I32Ne => "i32_ne"@,
        OpCode::I32LtS => "i32_lt_s"@,
        OpCode::I32LtU => "i32_lt_u"@,
        OpCode::I32GtS => "i32_gt_s"@,
        OpCode::I32GtU => "i32_gt_u"@,
        OpCode::I32LeS => "i32_le_s"@,
        OpCode::I32LeU => "i32_le_u"@,
        OpCode::I32GeS => "i32_ge_s"@,
        OpCode::I32GeU => "i32_ge_u"@,
        OpCode::I64Eqz => "i64_eqz"@,
        OpCode::I64Eq => "i64_eq"@,
        OpCode::I64Ne => "i64_ne"@,
        OpCode::I64LtS => "i64_lt_s"@,
        OpCode::I64LtU => "i64_lt_u"@,
        OpCode::I64GtS => "i64_gt_s"@,
        OpCode::I64GtU => "i64_gt_u"@,
        OpCode::I64LeS => "i64_le_s"@,
        OpCode::I64LeU => "i64_le_u"@,
        OpCode::I64GeS => "i64_ge_s"@,
        OpCode::I64GeU => "i64_ge_u"@,
        OpCode::I32Clz => "i32_clz"@,
        OpCode::I32Ctz => "i32_ctz"@,
        OpCode::I32Popcnt => "i32_popcnt"@,
        OpCode::I32Add => "i32_add"@,
        OpCode::I32Sub => "i32_sub"@,
        OpCode::I32Mul => "i32_mul"@,
        OpCode::I32DivS => "i32_div_s"@,
        OpCode::I32DivU => "i32_div_u"@,
        OpCode::I32RemS => "i32_rem_s"@,
        OpCode::I32RemU => "i32_rem_u"@,
        OpCode::I32And => "i32_and"@,
        OpCode::I32Or => "i32_or"@,
        OpCode::I32Xor => "i32_xor"@,
        OpCode::I32Shl => "i32_shl"@,
        OpCode::I32ShrS => "i32_shr_s"@,
        OpCode::I32ShrU => "i32_shr_u"@,
        OpCode::I32Rotl => "i32_rotl"@,
        OpCode::I32Rotr => "i32_rotr"@,
        OpCode::I64Clz => "i64_clz"@,
        OpCode::I64Ctz => "i64_ctz"@,
        OpCode::I64Popcnt => "i64_popcnt"@,
        OpCode::I64Add => "i64_add"@,
        OpCode::I64Sub => "i64_sub"@,
        OpCode::I64Mul => "i64_mul"@,
        OpCode::I64DivS => "i64_div_s"@,
        OpCode::I64DivU => "i64_div_u"@,
        OpCode::I64RemS => "i64_rem_s"@,
        OpCode::I64RemU => "i64_rem_u"@,
        OpCode::I64And => "i64_and"@,
        OpCode::I64Or => "i64_or"@,
        OpCode::I64Xor => "i64_xor"@,
        OpCode::I64Shl => "i64_shl"@,
        OpCode::I64ShrS => "i64_shr_s"@,
        OpCode::I64ShrU => "i64_shr_u"@,
        OpCode::I64Rotl => "i64_rotl"@,
        OpCode::I64Rotr => "i64_rotr"@,
        OpCode::I32WrapI64 => "i32_wrap_i64"@,
        OpCode::I64ExtendI32S => "i64_extend_i32_s"@,
        OpCode::I64ExtendI32U => "i64_extend_i32_u"@,
        OpCode::I32Extend8S => "i32_extend8_s"@,
        OpCode::I32Extend16S => "i32_extend16_s"@,
        OpCode::I64Extend8S => "i64_extend8_s"@,
        OpCode::I64Extend16S => "i64_extend16_s"@,
        OpCode::I64Extend32S => "i64_extend32_s"@,
        OpCode::F64Const(_) => "f64_const"@,
        OpCode::F32Const(_) => "f32_const"@,
        OpCode::F32Eq => "f32_eq"@,
        OpCode::F32Ne => "f32_ne"@,
        OpCode::F32Lt => "f32_lt"@,
        OpCode::F32Gt => "f32_gt"@,
        OpCode::F32Le => "f32_le"@,
        OpCode::F32Ge => "f32_ge"@,
        OpCode::F64Eq => "f64_eq"@,
        OpCode::F64Ne => "f64_ne"@,
        OpCode::F64Lt => "f64_lt"@,
        OpCode::F64Gt => "f64_gt"@,
        OpCode::F64Le => "f64_le"@,
        OpCode::F64Ge => "f64_ge"@,
        OpCode::F32Abs => "f32_abs"@,
        OpCode::F32Neg => "f32_neg"@,
        OpCode::F32Ceil => "f32_ceil"@,
        OpCode::F32Floor => "f32_floor"@,
        OpCode::F32Trunc => "f32_trunc"@,
        OpCode::F32Nearest => "f32_nearest"@,
        OpCode::F32Sqrt => "f32_sqrt"@,
        OpCode::F32Add => "f32_add"@,
        OpCode::F32Sub => "f32_sub"@,
        OpCode::F32Mul => "f32_mul"@,
        OpCode::F32Div => "f32_div"@,
        OpCode::F32Min => "f32_min"@,
        OpCode::F32Max => "f32_max"@,
        OpCode::F32Copysign => "f32_copysign"@,
        OpCode::F64Abs => "f64_abs"@,
        OpCode::F64Neg => "f64_neg"@,
        OpCode::F64Ceil => "f64_ceil"@,
        OpCode::F64Floor => "f64_floor"@,
        OpCode::F64Trunc => "f64_trunc"@,
        OpCode::F64Nearest => "f64_nearest"@,
        OpCode::F64Sqrt => "f64_sqrt"@,
        OpCode::F64Add => "f64_add"@,
        OpCode::F64Sub => "f64_sub"@,
        OpCode::F64Mul => "f64_mul"@,
        OpCode::F64Div => "f64_div"@,
        OpCode::F64Min => "f64_min"@,
        OpCode::F64Max => "f64_max"@,
        OpCode::F64Copysign => "f64_copysign"@,
        OpCode::I32TruncF32S => "i32_trunc_f32_s"@,
        OpCode::I32TruncF32U => "i32_trunc_f32_u"@,
        OpCode::I32TruncF64S => "i32_trunc_f64_s"@,
        OpCode::I32TruncF64U => "i32_trunc_f64_u"@,
        OpCode::I64TruncF32S => "i64_trunc_f32_s"@,
        OpCode::I64TruncF32U => "i64_trunc_f32_u"@,
        OpCode::I64TruncF64S => "i64_trunc_f64_s"@,
        OpCode::I64TruncF64U => "i64_trunc_f64_u"@,
        OpCode::F32ConvertI32S => "f32_convert_i32_s"@,
        OpCode::F32ConvertI32U => "f32_convert_i32_u"@,
        OpCode::F32ConvertI64S => "f32_convert_i64_s"@,
        OpCode::F32ConvertI64U => "f32_convert_i64_u"@,
        OpCode::F32DemoteF64 => "f32_demote_f64"@,
        OpCode::F64ConvertI32S => "f64_convert_i32_s"@,
        OpCode::F64ConvertI32U => "f64_convert_i32_u"@,
        OpCode::F64ConvertI64S => "f64_convert_i64_s"@,
        OpCode::F64ConvertI64U => "f64_convert_i64_u"@,
        OpCode::F64PromoteF32 => "f64_promote_f32"@,
        OpCode::I32TruncSatF32S => "i32_trunc_sat_f32_s"@,
        OpCode::I32TruncSatF32U => "i32_trunc_sat_f32_u"@,
        OpCode::I32TruncSatF64S => "i32_trunc_sat_f64_s"@,
        OpCode::I32TruncSatF64U => "i32_trunc_sat_f64_u"@,
        OpCode::I64TruncSatF32S => "i64_trunc_sat_f32_s"@,
        OpCode::I64TruncSatF32U => "i64_trunc_sat_f32_u"@,
        OpCode::I64TruncSatF64S => "i64_trunc_sat_f64_s"@,
        OpCode::I64TruncSatF64U => "i64_trunc_sat_f64_u"@,
    }
}

/// The trace parameters of an opcode: its operand rendered as plain 64-bit
/// values. A branch offset is the signed offset's 64-bit two's-complement
/// pattern; indices, memory offsets and fuel amounts are plain; a constant is
/// its raw bits. An opcode without an operand has none.
pub open spec fn spec_params(op: OpCode) -> Seq<u64> {
    match op {
        OpCode::LocalGet(i) => seq![i.0 as u64],
        OpCode::LocalSet(i) => seq![i.0 as u64],
        OpCode::LocalTee(i) => seq![i.0 as u64],
        OpCode::Br(bp) => seq![spec_i64_bits(bp.offset.0 as i64)],
        OpCode::BrIfEqz(bp) => seq![spec_i64_bits(bp.offset.0 as i64)],
        OpCode::BrIfNez(bp) => seq![spec_i64_bits(bp.offset.0 as i64)],
        OpCode::BrTable(i) => seq![i.0 as u64],
        OpCode::ConsumeFuel(f) => seq![f.0],
        OpCode::ReturnCall(i, _) => seq![i.0 as u64],
        OpCode::ReturnCallIndirect { table, func_type, .. } => seq![
            table.0 as u64,
            func_type.0 as u64,
        ],
        OpCode::Call(i) => seq![i.0 as u64],
        OpCode::CallHost(i) => seq![i.0 as u64],
        OpCode::CallIndirect { table, func_type } => seq![table.0 as u64, func_type.0 as u64],
        OpCode::GlobalGet(i) => seq![i.0 as u64],
        OpCode::GlobalSet(i) => seq![i.0 as u64],
        OpCode::I32Load(o) => seq![o.0 as u64],
        OpCode::I64Load(o) => seq![o.0 as u64],
        OpCode::F32Load(o) => seq![o.0 as u64],
        OpCode::F64Load(o) => seq![o.0 as u64],
        OpCode::I32Load8S(o) => seq![o.0 as u64],
        OpCode::I32Load8U(o) => seq![o.0 as u64],
        OpCode::I32Load16S(o) => seq![o.0 as u64],
        OpCode::I32Load16U(o) => seq![o.0 as u64],
        OpCode::I64Load8S(o) => seq![o.0 as u64],
        OpCode::I64Load8U(o) => seq![o.0 as u64],
        OpCode::I64Load16S(o) => seq![o.0 as u64],
        OpCode::I64Load16U(o) => seq![o.0 as u64],
        OpCode::I64Load32S(o) => seq![o.0 as u64],
        OpCode::I64Load32U(o) => seq![o.0 as u64],
        OpCode::I32Store(o) => seq![o.0 as u64],
        OpCode::I64Store(o) => seq![o.0 as u64],
        OpCode::F32Store(o) => seq![o.0 as u64],
        OpCode::F64Store(o) => seq![o.0 as u64],
        OpCode::I32Store8(o) => seq![o.0 as u64],
        OpCode::I32Store16(o) => seq![o.0 as u64],
        OpCode::I64Store8(o) => seq![o.0 as u64],
        OpCode::I64Store16(o) => seq![o.0 as u64],
        OpCode::I64Store32(o) => seq![o.0 as u64],
        OpCode::MemoryInit(i) => seq![i.0 as u64],
        OpCode::DataDrop(i) => seq![i.0 as u64],
        OpCode::TableSize(i) => seq![i.0 as u64],
        OpCode::TableGrow(i) => seq![i.0 as u64],
        OpCode::TableFill(i) => seq![i.0 as u64],
        OpCode::TableGet(i) => seq![i.0 as u64],
        OpCode::TableSet(i) => seq![i.0 as u64],
        OpCode::TableCopy { dst, src } => seq![dst.0 as u64, src.0 as u64],
        OpCode::TableInit { table, elem } => seq![table.0 as u64, elem.0 as u64],
        OpCode::ElemDrop(i) => seq![i.0 as u64],
        OpCode::RefFunc(i) => seq![i.0 as u64],
        OpCode::I64Const(v) => seq![v.bits],
        OpCode::I32Const(v) => seq![v.bits],
        OpCode::F64Const(v) => seq![v.bits],
        OpCode::F32Const(v) => seq![v.bits],
        _ => Seq::empty(),
    }
}

/// The drop-keep directive an opcode carries, empty directives filtered out.
pub open spec fn spec_drop_keep(op: OpCode) -> Option<DropKeep> {
    let raw = match op {
        OpCode::Br(bp) => Some(bp.drop_keep),
        OpCode::BrIfEqz(bp) => Some(bp.drop_keep),
        OpCode::BrIfNez(bp) => Some(bp.drop_keep),
        OpCode::Return(dk) => Some(dk),
        OpCode::ReturnIfNez(dk) => Some(dk),
        OpCode::ReturnCall(_, dk) => Some(dk),
        OpCode::ReturnCallIndirect { drop_keep, .. } => Some(drop_keep),
        _ => None,
    };
    match raw {
        Some(dk) => if dk.drop == 0 && dk.keep == 0 {
            None
        } else {
            Some(dk)
        },
        None => None,
    }
}

impl OpCode {
    /// The opcode's lower-snake-case short name.
    pub fn name(&self) -> (r: &'static str)
        ensures
            r@ == spec_opcode_name(*self),
    {
        match *self {
            OpCode::Unreachable => "unreachable",
            OpCode::ConsumeFuel(_) => "consume_fuel",
            OpCode::Drop => "drop",
            OpCode::Select => "select",
            OpCode::LocalGet(_) => "local_get",
            OpCode::LocalSet(_) => "local_set",
            OpCode::LocalTee(_) => "local_tee",
            OpCode::Br(_) => "br",
            OpCode::BrIfEqz(_) => "br_if_eqz",
            OpCode::BrIfNez(_) => "br_if_nez",
            OpCode::BrTable(_) => "br_table",
            OpCode::Return(_) => "return",
            OpCode::ReturnIfNez(_) => "return_if_nez",
            OpCode::ReturnCall(_, _) => "return_call",
            OpCode::ReturnCallIndirect { .. } => "return_call_indirect",
            OpCode::Call(_) => "call",
            OpCode::CallIndirect { .. } => "call_indirect",
            OpCode::CallHost(_) => "call_host",
            OpCode::GlobalGet(_) => "global_get",
            OpCode::GlobalSet(_) => "global_set",
            OpCode::I32Load(_) => "i32_load",
            OpCode::I64Load(_) => "i64_load",
            OpCode::F32Load(_) => "f32_load",
            OpCode::F64Load(_) => "f64_load",
            OpCode::I32Load8S(_) => "i32_load8_s",
            OpCode::I32Load8U(_) => "i32_load8_u",
            OpCode::I32Load16S(_) => "i32_load16_s",
            OpCode::I32Load16U(_) => "i32_load16_u",
            OpCode::I64Load8S(_) => "i64_load8_s",
            OpCode::I64Load8U(_) => "i64_load8_u",
            OpCode::I64Load16S(_) => "i64_load16_s",
            OpCode::I64Load16U(_) => "i64_load16_u",
            OpCode::I64Load32S(_) => "i64_load32_s",
            OpCode::I64Load32U(_) => "i64_load32_u",
            OpCode::I32Store(_) => "i32_store",
            OpCode::I64Store(_) => "i64_store",
            OpCode::F32Store(_) => "f32_store",
            OpCode::F64Store(_) => "f64_store",
            OpCode::I32Store8(_) => "i32_store8",
            OpCode::I32Store16(_) => "i32_store16",
            OpCode::I64Store8(_) => "i64_store8",
            OpCode::I64Store16(_) => "i64_store16",
            OpCode::I64Store32(_) => "i64_store32",
            OpCode::MemorySize => "memory_size",
            OpCode::MemoryGrow => "memory_grow",
            OpCode::MemoryFill => "memory_fill",
            OpCode::MemoryCopy => "memory_copy",
            OpCode::MemoryInit(_) => "memory_init",
            OpCode::DataDrop(_) => "data_drop",
            OpCode::TableSize(_) => "table_size",
            OpCode::TableGrow(_) => "table_grow",
            OpCode::TableFill(_) => "table_fill",
            OpCode::TableGet(_) => "table_get",
            OpCode::TableSet(_) => "table_set",
            OpCode::TableCopy { .. } => "table_copy",
            OpCode::TableInit { .. } => "table_init",
            OpCode::ElemDrop(_) => "elem_drop",
            OpCode::RefFunc(_) => "ref_func",
            OpCode::I64Const(_) => "i64_const",
            OpCode::I32Const(_) => "i32_const",
            OpCode::I32Eqz => "i32_eqz",
            OpCode::I32Eq => "i32_eq",
            OpCode::I32Ne => "i32_ne",
            OpCode::I32LtS => "i32_lt_s",
            OpCode::I32LtU => "i32_lt_u",
            OpCode::I32GtS => "i32_gt_s",
            OpCode::I32GtU => "i32_gt_u",
            OpCode::I32LeS => "i32_le_s",
            OpCode::I32LeU => "i32_le_u",
            OpCode::I32GeS => "i32_ge_s",
            OpCode::I32GeU => "i32_ge_u",
            OpCode::I64Eqz => "i64_eqz",
            OpCode::I64Eq => "i64_eq",
            OpCode::I64Ne => "i64_ne",
            OpCode::I64LtS => "i64_lt_s",
            OpCode::I64LtU => "i64_lt_u",
            OpCode::I64GtS => "i64_gt_s",
            OpCode::I64GtU => "i64_gt_u",
            OpCode::I64LeS => "i64_le_s",
            OpCode::I64LeU => "i64_le_u",
            OpCode::I64GeS => "i64_ge_s",
            OpCode::I64GeU => "i64_ge_u",
            OpCode::I32Clz => "i32_clz",
            OpCode::I32Ctz => "i32_ctz",
            OpCode::I32Popcnt => "i32_popcnt",
            OpCode::I32Add => "i32_add",
            OpCode::I32Sub => "i32_sub",
            OpCode::I32Mul => "i32_mul",
            OpCode::I32DivS => "i32_div_s",
            OpCode::I32DivU => "i32_div_u",
            OpCode::I32RemS => "i32_rem_s",
            OpCode::I32RemU => "i32_rem_u",
            OpCode::I32And => "i32_and",
            OpCode::I32Or => "i32_or",
            OpCode::I32Xor => "i32_xor",
            OpCode::I32Shl => "i32_shl",
            OpCode::I32ShrS => "i32_shr_s",
            OpCode::I32ShrU => "i32_shr_u",
            OpCode::I32Rotl => "i32_rotl",
            OpCode::I32Rotr => "i32_rotr",
            OpCode::I64Clz => "i64_clz",
            OpCode::I64Ctz => "i64_ctz",
            OpCode::I64Popcnt => "i64_popcnt",
            OpCode::I64Add => "i64_add",
            OpCode::I64Sub => "i64_sub",
            OpCode::I64Mul => "i64_mul",
            OpCode::I64DivS => "i64_div_s",
            OpCode::I64DivU => "i64_div_u",
            OpCode::I64RemS => "i64_rem_s",
            OpCode::I64RemU => "i64_rem_u",
            OpCode::I64And => "i64_and",
            OpCode::I64Or => "i64_or",
            OpCode::I64Xor => "i64_xor",
            OpCode::I64Shl => "i64_shl",
            OpCode::I64ShrS => "i64_shr_s",
            OpCode::I64ShrU => "i64_shr_u",
            OpCode::I64Rotl => "i64_rotl",
            OpCode::I64Rotr => "i64_rotr",
            OpCode::I32WrapI64 => "i32_wrap_i64",
            OpCode::I64ExtendI32S => "i64_extend_i32_s",
            OpCode::I64ExtendI32U => "i64_extend_i32_u",
            OpCode::I32Extend8S => "i32_extend8_s",
            OpCode::I32Extend16S => "i32_extend16_s",
            OpCode::I64Extend8S => "i64_extend8_s",
            OpCode::I64Extend16S => "i64_extend16_s",
            OpCode::I64Extend32S => "i64_extend32_s",
            OpCode::F64Const(_) => "f64_const",
            OpCode::F32Const(_) => "f32_const",
            OpCode::F32Eq => "f32_eq",
            OpCode::F32Ne => "f32_ne",
            OpCode::F32Lt => "f32_lt",
            OpCode::F32Gt => "f32_gt",
            OpCode::F32Le => "f32_le",
            OpCode::F32Ge => "f32_ge",
            OpCode::F64Eq => "f64_eq",
            OpCode::F64Ne => "f64_ne",
            OpCode::F64Lt => "f64_lt",
            OpCode::F64Gt => "f64_gt",
            OpCode::F64Le => "f64_le",
            OpCode::F64Ge => "f64_ge",
            OpCode::F32Abs => "f32_abs",
            OpCode::F32Neg => "f32_neg",
            OpCode::F32Ceil => "f32_ceil",
            OpCode::F32Floor => "f32_floor",
            OpCode::F32Trunc => "f32_trunc",
            OpCode::F32Nearest => "f32_nearest",
            OpCode::F32Sqrt => "f32_sqrt",
            OpCode::F32Add => "f32_add",
            OpCode::F32Sub => "f32_sub",
            OpCode::F32Mul => "f32_mul",
            OpCode::F32Div => "f32_div",
            OpCode::F32Min => "f32_min",
            OpCode::F32Max => "f32_max",
            OpCode::F32Copysign => "f32_copysign",
            OpCode::F64Abs => "f64_abs",
            OpCode::F64Neg => "f64_neg",
            OpCode::F64Ceil => "f64_ceil",
            OpCode::F64Floor => "f64_floor",
            OpCode::F64Trunc => "f64_trunc",
            OpCode::F64Nearest => "f64_nearest",
            OpCode::F64Sqrt => "f64_sqrt",
            OpCode::F64Add => "f64_add",
            OpCode::F64Sub => "f64_sub",
            OpCode::F64Mul => "f64_mul",
            OpCode::F64Div => "f64_div",
            OpCode::F64Min => "f64_min",
            OpCode::F64Max => "f64_max",
            OpCode::F64Copysign => "f64_copysign",
            OpCode::I32TruncF32S => "i32_trunc_f32_s",
            OpCode::I32TruncF32U => "i32_trunc_f32_u",
            OpCode::I32TruncF64S => "i32_trunc_f64_s",
            OpCode::I32TruncF64U => "i32_trunc_f64_u",
            OpCode::I64TruncF32S => "i64_trunc_f32_s",
            OpCode::I64TruncF32U => "i64_trunc_f32_u",
            OpCode::I64TruncF64S => "i64_trunc_f64_s",
            OpCode::I64TruncF64U => "i64_trunc_f64_u",
            OpCode::F32ConvertI32S => "f32_convert_i32_s",
            OpCode::F32ConvertI32U => "f32_convert_i32_u",
            OpCode::F32ConvertI64S => "f32_convert_i64_s",
            OpCode::F32ConvertI64U => "f32_convert_i64_u",
            OpCode::F32DemoteF64 => "f32_demote_f64",
            OpCode::F64ConvertI32S => "f64_convert_i32_s",
            OpCode::F64ConvertI32U => "f64_convert_i32_u",
            OpCode::F64ConvertI64S => "f64_convert_i64_s",
            OpCode::F64ConvertI64U => "f64_convert_i64_u",
            OpCode::F64PromoteF32 => "f64_promote_f32",
            OpCode::I32TruncSatF32S => "i32_trunc_sat_f32_s",
            OpCode::I32TruncSatF32U => "i32_trunc_sat_f32_u",
            OpCode::I32TruncSatF64S => "i32_trunc_sat_f64_s",
            OpCode::I32TruncSatF64U => "i32_trunc_sat_f64_u",
            OpCode::I64TruncSatF32S => "i64_trunc_sat_f32_s",
            OpCode::I64TruncSatF32U => "i64_trunc_sat_f32_u",
            OpCode::I64TruncSatF64S => "i64_trunc_sat_f64_s",
            OpCode::I64TruncSatF64U => "i64_trunc_sat_f64_u",
        }
    }

    /// The opcode's trace parameters, or `None` when it has none.
    pub fn params(&self) -> (r: Option<Vec<u64>>)
        ensures
            r is Some <==> spec_params(*self).len() > 0,
            r is Some ==> r.unwrap()@ =~= spec_params(*self),
    {
        let params: Vec<u64> = match *self {
            OpCode::LocalGet(i) => vec![i.0 as u64],
            OpCode::LocalSet(i) => vec![i.0 as u64],
            OpCode::LocalTee(i) => vec![i.0 as u64],
            OpCode::Br(bp) => vec![i64_bits(bp.offset.0 as i64)],
            OpCode::BrIfEqz(bp) => vec![i64_bits(bp.offset.0 as i64)],
            OpCode::BrIfNez(bp) => vec![i64_bits(bp.offset.0 as i64)],
            OpCode::BrTable(i) => vec![i.0 as u64],
            OpCode::ConsumeFuel(f) => vec![f.0],
            OpCode::ReturnCall(i, _) => vec![i.0 as u64],
            OpCode::ReturnCallIndirect { table, func_type, .. } => vec![
                table.0 as u64,
                func_type.0 as u64,
            ],
            OpCode::Call(i) => vec![i.0 as u64],
            OpCode::CallHost(i) => vec![i.0 as u64],
            OpCode::CallIndirect { table, func_type } => vec![
                table.0 as u64,
                func_type.0 as u64,
            ],
            OpCode::GlobalGet(i) => vec![i.0 as u64],
            OpCode::GlobalSet(i) => vec![i.0 as u64],
            OpCode::I32Load(o) => vec![o.0 as u64],
            OpCode::I64Load(o) => vec![o.0 as u64],
            OpCode::F32Load(o) => vec![o.0 as u64],
            OpCode::F64Load(o) => vec![o.0 as u64],
            OpCode::I32Load8S(o) => vec![o.0 as u64],
            OpCode::I32Load8U(o) => vec![o.0 as u64],
            OpCode::I32Load16S(o) => vec![o.0 as u64],
            OpCode::I32Load16U(o) => vec![o.0 as u64],
            OpCode::I64Load8S(o) => vec![o.0 as u64],
            OpCode::I64Load8U(o) => vec![o.0 as u64],
            OpCode::I64Load16S(o) => vec![o.0 as u64],
            OpCode::I64Load16U(o) => vec![o.0 as u64],
            OpCode::I64Load32S(o) => vec![o.0 as u64],
            OpCode::I64Load32U(o) => vec![o.0 as u64],
            OpCode::I32Store(o) => vec![o.0 as u64],
            OpCode::I64Store(o) => vec![o.0 as u64],
            OpCode::F32Store(o) => vec![o.0 as u64],
            OpCode::F64Store(o) => vec![o.0 as u64],
            OpCode::I32Store8(o) => vec![o.0 as u64],
            OpCode::I32Store16(o) => vec![o.0 as u64],
            OpCode::I64Store8(o) => vec![o.0 as u64],
            OpCode::I64Store16(o) => vec![o.0 as u64],
            OpCode::I64Store32(o) => vec![o.0 as u64],
            OpCode::MemoryInit(i) => vec![i.0 as u64],
            OpCode::DataDrop(i) => vec![i.0 as u64],
            OpCode::TableSize(i) => vec![i.0 as u64],
            OpCode::TableGrow(i) => vec![i.0 as u64],
            OpCode::TableFill(i) => vec![i.0 as u64],
            OpCode::TableGet(i) => vec![i.0 as u64],
            OpCode::TableSet(i) => vec![i.0 as u64],
            OpCode::TableCopy { dst, src } => vec![dst.0 as u64, src.0 as u64],
            OpCode::TableInit { table, elem } => vec![table.0 as u64, elem.0 as u64],
            OpCode::ElemDrop(i) => vec![i.0 as u64],
            OpCode::RefFunc(i) => vec![i.0 as u64],
            OpCode::I64Const(v) => vec![v.bits],
            OpCode::I32Const(v) => vec![v.bits],
            OpCode::F64Const(v) => vec![v.bits],
            OpCode::F32Const(v) => vec![v.bits],
            _ => Vec::new(),
        };
        if params.len() == 0 {
            None
        } else {
            Some(params)
        }
    }

    /// The drop-keep directive the opcode carries, if any and nonempty.
    pub fn drop_keep(&self) -> (r: Option<DropKeep>)
        ensures
            r == spec_drop_keep(*self),
    {
        let raw: Option<DropKeep> = match *self {
            OpCode::Br(bp) => Some(bp.drop_keep),
            OpCode::BrIfEqz(bp) => Some(bp.drop_keep),
            OpCode::BrIfNez(bp) => Some(bp.drop_keep),
            OpCode::Return(dk) => Some(dk),
            OpCode::ReturnIfNez(dk) => Some(dk),
            OpCode::ReturnCall(_, dk) => Some(dk),
            OpCode::ReturnCallIndirect { drop_keep, .. } => Some(drop_keep),
            _ => None,
        };
        match raw {
            Some(dk) => if dk.drop == 0 && dk.keep == 0 {
                None
            } else {
                Some(dk)
            },
            None => None,
        }
    }
}

/// One recorded chunk of linear memory: where it starts, how long it is, and
/// its bytes. `len` always equals the number of bytes.
pub struct MemoryState {
    pub offset: u32,
    pub len: u32,
    pub data: Vec<u8>,
}

impl MemoryState {
    /// The length field matches the payload.
    pub open spec fn wf(&self) -> bool {
        self.len == self.data@.len()
    }
}

/// One recorded instruction: its program counter, the opcode, the memory
/// deltas since the previous record, a bottom-to-top stack snapshot, and the
/// opcode's byte position and tag byte in the flat binary.
pub struct OpCodeState {
    pub program_counter: u32,
    pub opcode: OpCode,
    pub memory_changes: Vec<MemoryState>,
    pub stack: Vec<u64>,
    pub source_pc: u32,
    pub code: u16,
}

/// Metadata of one function entry during execution.
pub struct FunctionMeta {
    pub fn_index: u32,
    pub max_stack_height: u32,
    pub num_locals: u32,
    pub fn_name: String,
}

/// One recorded global variable and its initial value's bits.
pub struct GlobalVariable {
    pub index: u32,
    pub value: u64,
}

/// The name registered for a function index, the last registration winning.
pub open spec fn resolve_extern_name(entries: Seq<(u32, String)>, idx: u32) -> Option<Seq<char>>
    decreases entries.len(),
{
    if entries.len() == 0 {
        None
    } else if entries.last().0 == idx {
        Some(entries.last().1@)
    } else {
        resolve_extern_name(entries.drop_last(), idx)
    }
}

/// The event recorder attached to the interpreter. The interpreter reports
/// global memory and globals at instantiation, function entries, memory
/// writes as they happen, and the machine state right before each opcode;
/// the tracer keeps them in order and serializes them on demand.
pub struct Tracer {
    pub global_memory: Vec<MemoryState>,
    pub logs: Vec<OpCodeState>,
    pub memory_changes: Vec<MemoryState>,
    pub fns_meta: Vec<FunctionMeta>,
    pub global_variables: Vec<GlobalVariable>,
    pub extern_names: Vec<(u32, String)>,
}

/// Copies a byte range out of a vector.
fn copy_range(v: &Vec<u8>, from: usize, to: usize) -> (r: Vec<u8>)
    requires
        from <= to <= v@.len(),
    ensures
        r@ =~= v@.subrange(from as int, to as int),
{
    let mut result: Vec<u8> = Vec::new();
    let mut i: usize = from;
    while i < to
        invariant
            from <= i <= to <= v@.len(),
            result@ =~= v@.subrange(from as int, i as int),
        decreases to - i,
    {
        result.push(v[i]);
        i = i + 1;
        proof {
            assert(v@.subrange(from as int, i as int) =~= v@.subrange(from as int, i as int - 1)
                .push(v@[i as int - 1]));
        }
    }
    result
}

/// Splits linear memory into its maximal runs of consecutive nonzero bytes,
/// in address order: every returned chunk is nonzero throughout, bordered by
/// a zero byte or the memory's edge on both sides, and every nonzero byte of
/// memory lies in exactly one chunk. A zero byte separates chunks even when
/// bracketed by nonzero bytes.
pub fn scan_memory_chunks(mem: &Vec<u8>) -> (r: Vec<MemoryState>)
    requires
        mem@.len() < u32::MAX,
    ensures
        forall|k: int|
            0 <= k < r@.len() ==> {
                let c = #[trigger] r@[k];
                &&& c.wf()
                &&& c.len > 0
                &&& c.offset + c.len <= mem@.len()
                &&& c.data@ == mem@.subrange(c.offset as int, c.offset + c.len)
                &&& (forall|j: int| c.offset <= j < c.offset + c.len ==> mem@[j] != 0)
                &&& (c.offset == 0 || mem@[c.offset - 1] == 0)
                &&& (c.offset + c.len == mem@.len() || mem@[c.offset + c.len] == 0)
            },
        forall|k: int| 0 <= k < r@.len() - 1 ==> r@[k].offset + r@[k].len < #[trigger] r@[k
            + 1].offset,
        forall|j: int|
            0 <= j < mem@.len() && mem@[j] != 0 ==> exists|k: int|
                0 <= k < r@.len() && (#[trigger] r@[k]).offset <= j < r@[k].offset + r@[k].len,
    {
        let n = mem.len();
        let mut out: Vec<MemoryState> = Vec::new();
        let mut i: usize = 0;
        while i < n
            invariant
                i <= n + 1,
                n == mem@.len(),
                n < u32::MAX,
                forall|k: int|
                    0 <= k < out@.len() ==> {
                        let c = #[trigger] out@[k];
                        &&& c.wf()
                        &&& c.len > 0
                        &&& c.offset + c.len <= mem@.len()
                        &&& c.offset + c.len < i
                        &&& c.data@ == mem@.subrange(c.offset as int, c.offset + c.len)
                        &&& (forall|j: int| c.offset <= j < c.offset + c.len ==> mem@[j] != 0)
                        &&& (c.offset == 0 || mem@[c.offset - 1] == 0)
                        &&& (c.offset + c.len == mem@.len() || mem@[c.offset + c.len] == 0)
                    },
                forall|k: int|
                    0 <= k < out@.len() - 1 ==> out@[k].offset + out@[k].len < #[trigger] out@[k
                        + 1].offset,
                forall|j: int|
                    0 <= j < i && j < n && mem@[j] != 0 ==> exists|k: int|
                        0 <= k < out@.len() && (#[trigger] out@[k]).offset <= j < out@[k].offset
                            + out@[k].len,
            decreases n + 1 - i,
        {
            if mem[i] != 0 {
                let start = i;
                let mut end = i;
                while end < n && mem[end] != 0
                    invariant
                        start <= end <= n,
                        n == mem@.len(),
                        forall|t: int| start <= t < end ==> mem@[t] != 0,
                    decreases n - end,
                {
                    end = end + 1;
                }
                let data = copy_range(mem, start, end);
                let chunk = MemoryState {
                    offset: start as u32,
                    len: (end - start) as u32,
                    data,
                };
                let ghost out_before = out@;
                out.push(chunk);
                proof {
                    assert(out@.drop_last() =~= out_before);
                    assert forall|j: int|
                        0 <= j < end + 1 && j < n && mem@[j] != 0 implies exists|k: int|
                        0 <= k < out@.len() && (#[trigger] out@[k]).offset <= j < out@[k].offset
                            + out@[k].len by {
                        if j < start {
                            let k = choose|k: int|
                                0 <= k < out_before.len() && (#[trigger] out_before[k]).offset <= j
                                    < out_before[k].offset + out_before[k].len;
                            assert(out@[k] == out_before[k]);
                        } else {
                            assert(out@[out@.len() - 1].offset <= j < out@[out@.len() - 1].offset
                                + out@[out@.len() - 1].len);
                        }
                    }
                }
                i = end;
                proof {
                    assert(i <= n);
                }
            }
            proof {
                assert(i <= n);
                assert(n < u32::MAX);
            }
            i = i + 1;
        }
        proof {
            assert forall|j: int|
                0 <= j < mem@.len() && mem@[j] != 0 implies exists|k: int|
                0 <= k < out@.len() && (#[trigger] out@[k]).offset <= j < out@[k].offset
                    + out@[k].len by {}
        }
        out
    }

impl Tracer {
    /// A fresh tracer with nothing recorded.
    pub fn new() -> (r: Tracer)
        ensures
            r.global_memory@.len() == 0,
            r.logs@.len() == 0,
            r.memory_changes@.len() == 0,
            r.fns_meta@.len() == 0,
            r.global_variables@.len() == 0,
            r.extern_names@.len() == 0,
    {
        Tracer {
            global_memory: Vec::new(),
            logs: Vec::new(),
            memory_changes: Vec::new(),
            fns_meta: Vec::new(),
            global_variables: Vec::new(),
            extern_names: Vec::new(),
        }
    }

    /// Records one chunk of initial global memory.
    pub fn global_memory(&mut self, offset: u32, len: u32, memory: &Vec<u8>)
        requires
            len == memory@.len(),
        ensures
            final(self).global_memory@.len() == old(self).global_memory@.len() + 1,
            final(self).global_memory@.last().offset == offset,
            final(self).global_memory@.last().len == len,
            final(self).global_memory@.last().data@ == memory@,
            final(self).global_memory@.drop_last() =~= old(self).global_memory@,
            final(self).logs == old(self).logs,
            final(self).memory_changes == old(self).memory_changes,
            final(self).fns_meta == old(self).fns_meta,
            final(self).global_variables == old(self).global_variables,
            final(self).extern_names == old(self).extern_names,
    {
        let data = copy_range(memory, 0, memory.len());
        proof {
            assert(memory@.subrange(0, memory@.len() as int) =~= memory@);
        }
        self.global_memory.push(MemoryState { offset, len, data });
    }

    /// The byte position of the most recently recorded instruction.
    pub fn get_last_pc(&self) -> (r: Option<u32>)
        ensures
            self.logs@.len() == 0 <==> r is None,
            self.logs@.len() > 0 ==> r == Some(self.logs@.last().source_pc),
    {
        let n = self.logs.len();
        if n == 0 {
            None
        } else {
            Some(self.logs[n - 1].source_pc)
        }
    }

    /// Registers an externally visible name for a function index; it is
    /// preferred over the name the interpreter reports on entry.
    pub fn register_extern(&mut self, name: String, entity_index: u32)
        ensures
            final(self).extern_names@ =~= old(self).extern_names@.push((entity_index, name)),
            final(self).global_memory == old(self).global_memory,
            final(self).logs == old(self).logs,
            final(self).memory_changes == old(self).memory_changes,
            final(self).fns_meta == old(self).fns_meta,
            final(self).global_variables == old(self).global_variables,
    {
        self.extern_names.push((entity_index, name));
    }

    /// Records the machine state right before one opcode executes: drains the
    /// pending memory deltas into the record, snapshots the stack bottom to
    /// top as raw bits, and appends the record to the log. Deltas recorded
    /// since the previous instruction belong to exactly this record, and the
    /// pending list is empty afterwards.
    pub fn pre_opcode_state(
        &mut self,
        program_counter: u32,
        opcode: OpCode,
        stack: &Vec<UntypedValue>,
        meta: &InstrMeta,
    )
        requires
            meta.0 <= u32::MAX,
        ensures
            final(self).logs@.len() == old(self).logs@.len() + 1,
            final(self).logs@.drop_last() =~= old(self).logs@,
            ({
                let rec = final(self).logs@.last();
                &&& rec.program_counter == program_counter
                &&& rec.opcode == opcode
                &&& rec.memory_changes@ == old(self).memory_changes@
                &&& rec.stack@ =~= stack@.map_values(|v: UntypedValue| v.bits)
                &&& rec.source_pc == meta.0 as u32
                &&& rec.code == meta.1 as u16
            }),
            final(self).memory_changes@.len() == 0,
            final(self).global_memory == old(self).global_memory,
            final(self).fns_meta == old(self).fns_meta,
            final(self).global_variables == old(self).global_variables,
            final(self).extern_names == old(self).extern_names,
    {
        let mut drained: Vec<MemoryState> = Vec::new();
        core::mem::swap(&mut drained, &mut self.memory_changes);
        let mut bits: Vec<u64> = Vec::new();
        let sn = stack.len();
        let mut i: usize = 0;
        while i < sn
            invariant
                i <= sn,
                sn == stack@.len(),
                bits@ =~= stack@.take(i as int).map_values(|v: UntypedValue| v.bits),
            decreases sn - i,
        {
            bits.push(stack[i].bits);
            i = i + 1;
            proof {
                assert(stack@.take(i as int) =~= stack@.take(i as int - 1).push(
                    stack@[i as int - 1],
                ));
                assert(stack@.take(i as int).map_values(|v: UntypedValue| v.bits) =~= stack@.take(
                    i as int - 1,
                ).map_values(|v: UntypedValue| v.bits).push(stack@[i as int - 1].bits));
            }
        }
        proof {
            assert(stack@.take(sn as int) =~= stack@);
        }
        let record = OpCodeState {
            program_counter,
            opcode,
            memory_changes: drained,
            stack: bits,
            source_pc: meta.source_pc(),
            code: meta.opcode() as u16,
        };
        self.logs.push(record);
    }

    /// Records one function entry. A name registered for the index is
    /// preferred over the reported one.
    pub fn function_call(
        &mut self,
        fn_index: u32,
        max_stack_height: usize,
        num_locals: usize,
        fn_name: String,
    )
        requires
            max_stack_height <= u32::MAX,
            num_locals <= u32::MAX,
        ensures
            final(self).fns_meta@.len() == old(self).fns_meta@.len() + 1,
            final(self).fns_meta@.drop_last() =~= old(self).fns_meta@,
            ({
                let m = final(self).fns_meta@.last();
                &&& m.fn_index == fn_index
                &&& m.max_stack_height == max_stack_height as u32
                &&& m.num_locals == num_locals as u32
                &&& m.fn_name@ == (match resolve_extern_name(old(self).extern_names@, fn_index) {
                    Some(name) => name,
                    None => fn_name@,
                })
            }),
            final(self).global_memory == old(self).global_memory,
            final(self).logs == old(self).logs,
            final(self).memory_changes == old(self).memory_changes,
            final(self).global_variables == old(self).global_variables,
            final(self).extern_names == old(self).extern_names,
    {
        let resolved = self.lookup_extern_name(fn_index);
        let chosen = match resolved {
            Some(name) => name,
            None => fn_name,
        };
        self.fns_meta.push(
            FunctionMeta {
                fn_index,
                max_stack_height: max_stack_height as u32,
                num_locals: num_locals as u32,
                fn_name: chosen,
            },
        );
    }

    /// The name registered for a function index, if any.
    fn lookup_extern_name(&self, fn_index: u32) -> (r: Option<String>)
        ensures
            r is Some <==> resolve_extern_name(self.extern_names@, fn_index) is Some,
            r is Some ==> r.unwrap()@ == resolve_extern_name(self.extern_names@, fn_index).unwrap(),
    {
        let n = self.extern_names.len();
        let mut i: usize = n;
        proof {
            assert(self.extern_names@.take(n as int) =~= self.extern_names@);
        }
        while i > 0
            invariant
                i <= n,
                n == self.extern_names@.len(),
                resolve_extern_name(self.extern_names@, fn_index) == resolve_extern_name(
                    self.extern_names@.take(i as int),
                    fn_index,
                ),
            decreases i,
        {
            i = i - 1;
            if self.extern_names[i].0 == fn_index {
                let name = self.extern_names[i].1.clone();
                proof {
                    assert(self.extern_names@.take(i + 1).last() == self.extern_names@[i as int]);
                }
                return Some(name);
            }
            proof {
                assert(self.extern_names@.take(i + 1).drop_last() =~= self.extern_names@.take(
                    i as int,
                ));
            }
        }
        proof {
            assert(self.extern_names@.take(0) =~= Seq::<(u32, String)>::empty());
        }
        None
    }

    /// Records one initialized global variable.
    pub fn global_variable(&mut self, value: UntypedValue, index: u32)
        ensures
            final(self).global_variables@.len() == old(self).global_variables@.len() + 1,
            final(self).global_variables@.drop_last() =~= old(self).global_variables@,
            final(self).global_variables@.last().index == index,
            final(self).global_variables@.last().value == value.bits,
            final(self).global_memory == old(self).global_memory,
            final(self).logs == old(self).logs,
            final(self).memory_changes == old(self).memory_changes,
            final(self).fns_meta == old(self).fns_meta,
            final(self).extern_names == old(self).extern_names,
    {
        self.global_variables.push(GlobalVariable { index, value: value.to_bits() });
    }

    /// Records one memory delta; it stays pending until the next instruction
    /// record drains it.
    pub fn memory_change(&mut self, offset: u32, len: u32, memory: &Vec<u8>)
        requires
            len == memory@.len(),
        ensures
            final(self).memory_changes@.len() == old(self).memory_changes@.len() + 1,
            final(self).memory_changes@.drop_last() =~= old(self).memory_changes@,
            final(self).memory_changes@.last().offset == offset,
            final(self).memory_changes@.last().len == len,
            final(self).memory_changes@.last().data@ == memory@,
            final(self).global_memory == old(self).global_memory,
            final(self).logs == old(self).logs,
            final(self).fns_meta == old(self).fns_meta,
            final(self).global_variables == old(self).global_variables,
            final(self).extern_names == old(self).extern_names,
    {
        let data = copy_range(memory, 0, memory.len());
        proof {
            assert(memory@.subrange(0, memory@.len() as int) =~= memory@);
        }
        self.memory_changes.push(MemoryState { offset, len, data });
    }
}

/// The JSON object of one memory chunk, fields in order: `offset`, `len`,
/// `data` as a lowercase hex string.
pub open spec fn json_of_memory_state(m: MemoryState) -> Seq<char> {
    "{\"offset\":"@ + dec_nat(m.offset as nat) + ",\"len\":"@ + dec_nat(m.len as nat)
        + ",\"data\":\""@ + hex_seq(m.data@) + "\"}"@
}

/// Comma-joined memory-chunk objects.
pub open spec fn json_memory_list(l: Seq<MemoryState>) -> Seq<char>
    decreases l.len(),
{
    if l.len() == 0 {
        Seq::empty()
    } else if l.len() == 1 {
        json_of_memory_state(l[0])
    } else {
        json_memory_list(l.drop_last()) + seq![','] + json_of_memory_state(l.last())
    }
}

/// Comma-joined decimal numbers.
pub open spec fn json_u64_list(l: Seq<u64>) -> Seq<char>
    decreases l.len(),
{
    if l.len() == 0 {
        Seq::empty()
    } else if l.len() == 1 {
        dec_nat(l[0] as nat)
    } else {
        json_u64_list(l.drop_last()) + seq![','] + dec_nat(l.last() as nat)
    }
}

/// The JSON object of one instruction record, fields in order: always `pc`,
/// `source_pc`, `name` and `opcode`; `stack_drop` and `stack_keep` when the
/// opcode carries a drop-keep directive; `params` when it has parameters;
/// `memory_changes` when deltas occurred since the prior record; `stack`
/// when the stack was nonempty.
pub open spec fn json_of_opcode_state(s: OpCodeState) -> Seq<char> {
    "{\"pc\":"@ + dec_nat(s.program_counter as nat) + ",\"source_pc\":"@ + dec_nat(
        s.source_pc as nat,
    ) + ",\"name\":\""@ + spec_opcode_name(s.opcode) + "\",\"opcode\":"@ + dec_nat(
        s.code as nat,
    ) + (match spec_drop_keep(s.opcode) {
        Some(dk) => ",\"stack_drop\":"@ + dec_nat(dk.drop as nat) + ",\"stack_keep\":"@
            + dec_nat(dk.keep as nat),
        None => Seq::empty(),
    }) + (if spec_params(s.opcode).len() > 0 {
        ",\"params\":["@ + json_u64_list(spec_params(s.opcode)) + seq![']']
    } else {
        Seq::empty()
    }) + (if s.memory_changes@.len() > 0 {
        ",\"memory_changes\":["@ + json_memory_list(s.memory_changes@) + seq![']']
    } else {
        Seq::empty()
    }) + (if s.stack@.len() > 0 {
        ",\"stack\":["@ + json_u64_list(s.stack@) + seq![']']
    } else {
        Seq::empty()
    }) + seq!['}']
}

/// Comma-joined instruction records.
pub open spec fn json_log_list(l: Seq<OpCodeState>) -> Seq<char>
    decreases l.len(),
{
    if l.len() == 0 {
        Seq::empty()
    } else if l.len() == 1 {
        json_of_opcode_state(l[0])
    } else {
        json_log_list(l.drop_last()) + seq![','] + json_of_opcode_state(l.last())
    }
}

/// The JSON object of one global variable, fields in order: `index`, `value`.
pub open spec fn json_of_global(g: GlobalVariable) -> Seq<char> {
    "{\"index\":"@ + dec_nat(g.index as nat) + ",\"value\":"@ + dec_nat(g.value as nat)
        + seq!['}']
}

/// Comma-joined global-variable objects.
pub open spec fn json_global_list(l: Seq<GlobalVariable>) -> Seq<char>
    decreases l.len(),
{
    if l.len() == 0 {
        Seq::empty()
    } else if l.len() == 1 {
        json_of_global(l[0])
    } else {
        json_global_list(l.drop_last()) + seq![','] + json_of_global(l.last())
    }
}

/// The JSON object of one function entry, fields in order: `fn_index`,
/// `max_stack_height`, `num_locals`, `fn_name`.
pub open spec fn json_of_fn_meta(m: FunctionMeta) -> Seq<char> {
    "{\"fn_index\":"@ + dec_nat(m.fn_index as nat) + ",\"max_stack_height\":"@ + dec_nat(
        m.max_stack_height as nat,
    ) + ",\"num_locals\":"@ + dec_nat(m.num_locals as nat) + ",\"fn_name\":"@ + json_string(
        m.fn_name@,
    ) + seq!['}']
}

/// Comma-joined function-entry objects.
pub open spec fn json_meta_list(l: Seq<FunctionMeta>) -> Seq<char>
    decreases l.len(),
{
    if l.len() == 0 {
        Seq::empty()
    } else if l.len() == 1 {
        json_of_fn_meta(l[0])
    } else {
        json_meta_list(l.drop_last()) + seq![','] + json_of_fn_meta(l.last())
    }
}

/// The whole trace as JSON, top-level fields in order: `global_memory`,
/// `logs`, `global_variables`, `fn_metas`.
pub open spec fn json_of_tracer(t: &Tracer) -> Seq<char> {
    "{\"global_memory\":["@ + json_memory_list(t.global_memory@) + "],\"logs\":["@
        + json_log_list(t.logs@) + "],\"global_variables\":["@ + json_global_list(
        t.global_variables@,
    ) + "],\"fn_metas\":["@ + json_meta_list(t.fns_meta@) + "]}"@
}

/// Serializes one memory chunk.
fn memory_state_json(m: &MemoryState) -> (r: String)
    ensures
        r@ =~= json_of_memory_state(*m),
{
    let mut out = String::from_str("{\"offset\":");
    let n1 = u32_to_string(m.offset);
    out.append(n1.as_str());
    out.append(",\"len\":");
    let n2 = u32_to_string(m.len);
    out.append(n2.as_str());
    out.append(",\"data\":\"");
    let h = hex_encode(&m.data);
    out.append(h.as_str());
    out.append("\"}");
    out
}

/// Serializes a list of memory chunks, comma joined.
fn memory_list_json(v: &Vec<MemoryState>) -> (r: String)
    ensures
        r@ =~= json_memory_list(v@),
{
    let mut out = String::new();
    let n = v.len();
    let mut i: usize = 0;
    while i < n
        invariant
            i <= n,
            n == v@.len(),
            out@ =~= json_memory_list(v@.take(i as int)),
        decreases n - i,
    {
        if i > 0 {
            out.append(",");
            proof {
                reveal_strlit(",");
            }
        }
        let item = memory_state_json(&v[i]);
        out.append(item.as_str());
        i = i + 1;
        proof {
            assert(v@.take(i as int).drop_last() =~= v@.take(i as int - 1));
            assert(v@.take(i as int).last() == v@[i as int - 1]);
        }
    }
    proof {
        assert(v@.take(n as int) =~= v@);
    }
    out
}

/// Serializes a list of numbers, comma joined.
fn u64_list_json(v: &Vec<u64>) -> (r: String)
    ensures
        r@ =~= json_u64_list(v@),
{
    let mut out = String::new();
    let n = v.len();
    let mut i: usize = 0;
    while i < n
        invariant
            i <= n,
            n == v@.len(),
            out@ =~= json_u64_list(v@.take(i as int)),
        decreases n - i,
    {
        if i > 0 {
            out.append(",");
            proof {
                reveal_strlit(",");
            }
        }
        let item = u64_to_string(v[i]);
        out.append(item.as_str());
        i = i + 1;
        proof {
            assert(v@.take(i as int).drop_last() =~= v@.take(i as int - 1));
            assert(v@.take(i as int).last() == v@[i as int - 1]);
        }
    }
    proof {
        assert(v@.take(n as int) =~= v@);
    }
    out
}

/// Serializes one instruction record.
#[verifier::rlimit(100)]
fn opcode_state_json(s: &OpCodeState) -> (r: String)
    ensures
        r@ =~= json_of_opcode_state(*s),
{
    let mut out = String::from_str("{\"pc\":");
    let n1 = u32_to_string(s.program_counter);
    out.append(n1.as_str());
    out.append(",\"source_pc\":");
    let n2 = u32_to_string(s.source_pc);
    out.append(n2.as_str());
    out.append(",\"name\":\"");
    out.append(s.opcode.name());
    out.append("\",\"opcode\":");
    let n3 = u64_to_string(s.code as u64);
    out.append(n3.as_str());
    match s.opcode.drop_keep() {
        Some(dk) => {
            out.append(",\"stack_drop\":");
            let d1 = u32_to_string(dk.drop);
            out.append(d1.as_str());
            out.append(",\"stack_keep\":");
            let d2 = u32_to_string(dk.keep);
            out.append(d2.as_str());
        },
        None => {},
    }
    match s.opcode.params() {
        Some(params) => {
            out.append(",\"params\":[");
            let pl = u64_list_json(&params);
            out.append(pl.as_str());
            out.append("]");
            proof {
                reveal_strlit("]");
            }
        },
        None => {},
    }
    if s.memory_changes.len() > 0 {
        out.append(",\"memory_changes\":[");
        let ml = memory_list_json(&s.memory_changes);
        out.append(ml.as_str());
        out.append("]");
        proof {
            reveal_strlit("]");
        }
    }
    if s.stack.len() > 0 {
        out.append(",\"stack\":[");
        let sl = u64_list_json(&s.stack);
        out.append(sl.as_str());
        out.append("]");
        proof {
            reveal_strlit("]");
        }
    }
    out.append("}");
    proof {
        reveal_strlit("}");
    }
    out
}

/// Serializes the instruction log, comma joined.
fn log_list_json(v: &Vec<OpCodeState>) -> (r: String)
    ensures
        r@ =~= json_log_list(v@),
{
    let mut out = String::new();
    let n = v.len();
    let mut i: usize = 0;
    while i < n
        invariant
            i <= n,
            n == v@.len(),
            out@ =~= json_log_list(v@.take(i as int)),
        decreases n - i,
    {
        if i > 0 {
            out.append(",");
            proof {
                reveal_strlit(",");
            }
        }
        let item = opcode_state_json(&v[i]);
        out.append(item.as_str());
        i = i + 1;
        proof {
            assert(v@.take(i as int).drop_last() =~= v@.take(i as int - 1));
            assert(v@.take(i as int).last() == v@[i as int - 1]);
        }
    }
    proof {
        assert(v@.take(n as int) =~= v@);
    }
    out
}

/// Serializes one global variable.
fn global_json(g: &GlobalVariable) -> (r: String)
    ensures
        r@ =~= json_of_global(*g),
{
    let mut out = String::from_str("{\"index\":");
    let n1 = u32_to_string(g.index);
    out.append(n1.as_str());
    out.append(",\"value\":");
    let n2 = u64_to_string(g.value);
    out.append(n2.as_str());
    out.append("}");
    proof {
        reveal_strlit("}");
    }
    out
}

/// Serializes the global variables, comma joined.
fn global_list_json(v: &Vec<GlobalVariable>) -> (r: String)
    ensures
        r@ =~= json_global_list(v@),
{
    let mut out = String::new();
    let n = v.len();
    let mut i: usize = 0;
    while i < n
        invariant
            i <= n,
            n == v@.len(),
            out@ =~= json_global_list(v@.take(i as int)),
        decreases n - i,
    {
        if i > 0 {
            out.append(",");
            proof {
                reveal_strlit(",");
            }
        }
        let item = global_json(&v[i]);
        out.append(item.as_str());
        i = i + 1;
        proof {
            assert(v@.take(i as int).drop_last() =~= v@.take(i as int - 1));
            assert(v@.take(i as int).last() == v@[i as int - 1]);
        }
    }
    proof {
        assert(v@.take(n as int) =~= v@);
    }
    out
}

/// Serializes one function entry.
fn fn_meta_json(m: &FunctionMeta) -> (r: String)
    ensures
        r@ =~= json_of_fn_meta(*m),
{
    let mut out = String::from_str("{\"fn_index\":");
    let n1 = u32_to_string(m.fn_index);
    out.append(n1.as_str());
    out.append(",\"max_stack_height\":");
    let n2 = u32_to_string(m.max_stack_height);
    out.append(n2.as_str());
    out.append(",\"num_locals\":");
    let n3 = u32_to_string(m.num_locals);
    out.append(n3.as_str());
    out.append(",\"fn_name\":");
    out.append("\"");
    let esc = escape_json(m.fn_name.as_str());
    out.append(esc.as_str());
    out.append("\"");
    out.append("}");
    proof {
        reveal_strlit("\"");
        reveal_strlit("}");
    }
    out
}

/// Serializes the function entries, comma joined.
fn meta_list_json(v: &Vec<FunctionMeta>) -> (r: String)
    ensures
        r@ =~= json_meta_list(v@),
{
    let mut out = String::new();
    let n = v.len();
    let mut i: usize = 0;
    while i < n
        invariant
            i <= n,
            n == v@.len(),
            out@ =~= json_meta_list(v@.take(i as int)),
        decreases n - i,
    {
        if i > 0 {
            out.append(",");
            proof {
                reveal_strlit(",");
            }
        }
        let item = fn_meta_json(&v[i]);
        out.append(item.as_str());
        i = i + 1;
        proof {
            assert(v@.take(i as int).drop_last() =~= v@.take(i as int - 1));
            assert(v@.take(i as int).last() == v@[i as int - 1]);
        }
    }
    proof {
        assert(v@.take(n as int) =~= v@);
    }
    out
}

impl Tracer {
    /// Serializes everything recorded so far, with the top-level fields and
    /// every record's fields in their fixed order.
    pub fn to_json(&self) -> (r: String)
        ensures
            r@ =~= json_of_tracer(self),
    {
        let mut out = String::from_str("{\"global_memory\":[");
        let gm = memory_list_json(&self.global_memory);
        out.append(gm.as_str());
        out.append("],\"logs\":[");
        let lg = log_list_json(&self.logs);
        out.append(lg.as_str());
        out.append("],\"global_variables\":[");
        let gv = global_list_json(&self.global_variables);
        out.append(gv.as_str());
        out.append("],\"fn_metas\":[");
        let fm = meta_list_json(&self.fns_meta);
        out.append(fm.as_str());
        out.append("]}");
        out
    }
}

} // verus!
