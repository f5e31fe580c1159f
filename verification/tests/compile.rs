//! Tests of the compiler: global and data-segment initialization code, the
//! drop-keep lowering, host-call resolution, call relocation at finalization,
//! and reloading the finalized binary.

use wazm::compiler::Compiler;
use wazm::module::CompiledModule;
use wazm::opcode::OpCode;
use wazm::parsed::{
    DataSegment, DataSegmentKind, Export, ExternIdx, ImportedFunc, ParsedModule, WasmInstruction,
};
use wazm::utils::{BranchParams, DropKeep, Index, JumpDest, Offset};
use wazm::value::UntypedValue;
use wazm::WazmError;

fn empty_module() -> ParsedModule {
    ParsedModule {
        globals_init: Vec::new(),
        data_segments: Vec::new(),
        exports: Vec::new(),
        imported_funcs: Vec::new(),
        func_bodies: Vec::new(),
    }
}

fn main_export(fn_index: u32) -> Export {
    Export { name: "main".to_string(), idx: ExternIdx::Func(fn_index) }
}

#[test]
fn relocation_of_a_forward_call() {
    // main calls a later-defined function
    let mut module = empty_module();
    module.exports.push(main_export(0));
    module.func_bodies.push(vec![
        WasmInstruction::Call(1),
        WasmInstruction::Return(DropKeep { drop: 0, keep: 0 }),
    ]);
    module.func_bodies.push(vec![
        WasmInstruction::Plain(OpCode::I32Add),
        WasmInstruction::Return(DropKeep { drop: 0, keep: 0 }),
    ]);
    let mut compiler = Compiler::new(module);
    compiler.translate().unwrap();
    let binary = compiler.finalize().unwrap();

    // code layout: Call placeholder (5 bytes), Return (9 bytes), I32Add
    // (1 byte), Return (9 bytes); the callee starts at byte 14
    assert_eq!(binary.len(), 5 + 9 + 1 + 9);
    assert_eq!(binary[0], 0x28);
    assert_eq!(&binary[1..5], &[0, 0, 0, 14]);

    // reloading re-expresses the call as a relative opcode-position delta
    let loaded = CompiledModule::from_vec(&binary).unwrap();
    assert_eq!(loaded.bytecode().len(), 4);
    assert_eq!(loaded.bytecode()[0], OpCode::Call(Index(2)));
    let offsets: Vec<usize> = loaded.metas().iter().map(|m| m.0).collect();
    assert_eq!(offsets, vec![0, 5, 14, 15]);
}

#[test]
fn globals_and_data_segments_become_initialization_code() {
    let mut module = empty_module();
    module.globals_init.push(Some(UntypedValue { bits: 127 }));
    module.data_segments.push(DataSegment {
        kind: DataSegmentKind::Active {
            memory_index: 0,
            offset: Some(UntypedValue { bits: 0 }),
        },
        bytes: vec![0xAA, 0xBB, 0xCC, 0xDD, 0xEE],
    });
    module.exports.push(main_export(0));
    module.func_bodies.push(vec![WasmInstruction::Return(DropKeep { drop: 0, keep: 0 })]);
    let mut compiler = Compiler::new(module);
    compiler.translate().unwrap();
    assert_eq!(
        compiler.code_section.0,
        vec![
            OpCode::I64Const(UntypedValue { bits: 127 }),
            OpCode::GlobalSet(Index(0)),
            OpCode::I32Const(UntypedValue { bits: 0 }),
            OpCode::I64Const(UntypedValue { bits: 0xAABBCCDD }),
            OpCode::I64Store32(Offset(0)),
            OpCode::I32Const(UntypedValue { bits: 4 }),
            OpCode::I64Const(UntypedValue { bits: 0xEE }),
            OpCode::I32Store8(Offset(0)),
            OpCode::Return(DropKeep { drop: 0, keep: 0 }),
        ]
    );
}

#[test]
fn data_chunks_walk_greedily() {
    // nine bytes: one eight-byte store, then a single-byte store
    let mut module = empty_module();
    module.data_segments.push(DataSegment {
        kind: DataSegmentKind::Active {
            memory_index: 0,
            offset: Some(UntypedValue { bits: 16 }),
        },
        bytes: vec![1, 2, 3, 4, 5, 6, 7, 8, 9],
    });
    module.exports.push(main_export(0));
    module.func_bodies.push(vec![WasmInstruction::Return(DropKeep { drop: 0, keep: 0 })]);
    let mut compiler = Compiler::new(module);
    compiler.translate().unwrap();
    assert_eq!(
        compiler.code_section.0,
        vec![
            OpCode::I32Const(UntypedValue { bits: 16 }),
            OpCode::I64Const(UntypedValue { bits: 0x0102030405060708 }),
            OpCode::I64Store(Offset(0)),
            OpCode::I32Const(UntypedValue { bits: 24 }),
            OpCode::I64Const(UntypedValue { bits: 9 }),
            OpCode::I32Store8(Offset(0)),
            OpCode::Return(DropKeep { drop: 0, keep: 0 }),
        ]
    );
}

#[test]
fn return_expands_its_drop_keep() {
    let mut module = empty_module();
    module.exports.push(main_export(0));
    module.func_bodies.push(vec![WasmInstruction::Return(DropKeep { drop: 2, keep: 1 })]);
    let mut compiler = Compiler::new(module);
    compiler.translate().unwrap();
    assert_eq!(
        compiler.code_section.0,
        vec![
            OpCode::LocalGet(Index(1)),
            OpCode::LocalSet(Index(3)),
            OpCode::Drop,
            OpCode::Drop,
            OpCode::Return(DropKeep { drop: 0, keep: 0 }),
        ]
    );
}

#[test]
fn conditional_branch_gets_an_inverse_guard() {
    let mut module = empty_module();
    module.exports.push(main_export(0));
    module.func_bodies.push(vec![
        WasmInstruction::BrIfEqz(BranchParams {
            offset: JumpDest(3),
            drop_keep: DropKeep { drop: 1, keep: 0 },
        }),
        WasmInstruction::Return(DropKeep { drop: 0, keep: 0 }),
    ]);
    let mut compiler = Compiler::new(module);
    compiler.translate().unwrap();
    assert_eq!(
        compiler.code_section.0,
        vec![
            OpCode::BrIfNez(BranchParams {
                offset: JumpDest(2),
                drop_keep: DropKeep { drop: 0, keep: 0 },
            }),
            OpCode::Drop,
            OpCode::Br(BranchParams {
                offset: JumpDest(3),
                drop_keep: DropKeep { drop: 0, keep: 0 },
            }),
            OpCode::Return(DropKeep { drop: 0, keep: 0 }),
        ]
    );
}

#[test]
fn imported_call_resolves_to_a_host_call() {
    let mut module = empty_module();
    module.imported_funcs.push(ImportedFunc {
        module: "env".to_string(),
        field: "_evm_return".to_string(),
    });
    module.exports.push(main_export(1));
    module.func_bodies.push(vec![
        WasmInstruction::Call(0),
        WasmInstruction::Return(DropKeep { drop: 0, keep: 0 }),
    ]);
    let mut compiler = Compiler::new(module);
    compiler.translate().unwrap();
    assert_eq!(
        compiler.code_section.0,
        vec![
            OpCode::CallHost(Index(0xEE02)),
            OpCode::Return(DropKeep { drop: 0, keep: 0 }),
        ]
    );
}

#[test]
fn unknown_import_is_rejected() {
    let mut module = empty_module();
    module.imported_funcs.push(ImportedFunc {
        module: "env".to_string(),
        field: "_evm_unknown".to_string(),
    });
    module.exports.push(main_export(1));
    module.func_bodies.push(vec![WasmInstruction::Call(0)]);
    let mut compiler = Compiler::new(module);
    let res = compiler.translate();
    assert!(matches!(res, Err(WazmError::NotSupportedImport)));
}

#[test]
fn module_without_entrypoint_is_rejected() {
    let mut module = empty_module();
    module.func_bodies.push(vec![WasmInstruction::Return(DropKeep { drop: 0, keep: 0 })]);
    let mut compiler = Compiler::new(module);
    let res = compiler.translate();
    assert!(matches!(res, Err(WazmError::MissingEntrypoint)));
}

#[test]
fn passive_data_segment_is_rejected() {
    let mut module = empty_module();
    module.data_segments.push(DataSegment { kind: DataSegmentKind::Passive, bytes: vec![1] });
    module.exports.push(main_export(0));
    module.func_bodies.push(vec![WasmInstruction::Return(DropKeep { drop: 0, keep: 0 })]);
    let mut compiler = Compiler::new(module);
    let res = compiler.translate();
    assert!(matches!(res, Err(WazmError::NotSupportedMemory(_))));
}

#[test]
fn non_constant_segment_offset_is_rejected() {
    let mut module = empty_module();
    module.data_segments.push(DataSegment {
        kind: DataSegmentKind::Active { memory_index: 0, offset: None },
        bytes: vec![1],
    });
    module.exports.push(main_export(0));
    module.func_bodies.push(vec![WasmInstruction::Return(DropKeep { drop: 0, keep: 0 })]);
    let mut compiler = Compiler::new(module);
    let res = compiler.translate();
    assert!(matches!(res, Err(WazmError::NotSupportedMemory(_))));
}

#[test]
fn branch_round_trips_through_finalize_and_load() {
    // a forward branch over one opcode keeps its relative offset after the
    // binary is written out and loaded back
    let mut module = empty_module();
    module.exports.push(main_export(0));
    module.func_bodies.push(vec![
        WasmInstruction::Br(BranchParams {
            offset: JumpDest(2),
            drop_keep: DropKeep { drop: 0, keep: 0 },
        }),
        WasmInstruction::Plain(OpCode::I32Add),
        WasmInstruction::Return(DropKeep { drop: 0, keep: 0 }),
    ]);
    let mut compiler = Compiler::new(module);
    compiler.translate().unwrap();
    let binary = compiler.finalize().unwrap();
    let loaded = CompiledModule::from_vec(&binary).unwrap();
    assert_eq!(
        loaded.bytecode()[0],
        OpCode::Br(BranchParams { offset: JumpDest(2), drop_keep: DropKeep { drop: 0, keep: 0 } })
    );
}

#[test]
fn loader_counts_globals() {
    let mut module = empty_module();
    module.globals_init.push(Some(UntypedValue { bits: 1 }));
    module.globals_init.push(Some(UntypedValue { bits: 2 }));
    module.exports.push(main_export(0));
    module.func_bodies.push(vec![WasmInstruction::Return(DropKeep { drop: 0, keep: 0 })]);
    let mut compiler = Compiler::new(module);
    compiler.translate().unwrap();
    let binary = compiler.finalize().unwrap();
    let loaded = CompiledModule::from_vec(&binary).unwrap();
    assert_eq!(loaded.num_globals(), 2);
}

#[test]
fn loader_rejects_an_unassigned_tag() {
    let res = CompiledModule::from_vec(&vec![0xF0u8, 0, 0]);
    assert!(matches!(res, Err(WazmError::IllegalOpcode(0xF0))));
}

#[test]
fn loader_rejects_a_truncated_opcode() {
    let res = CompiledModule::from_vec(&vec![0x01u8, 0xAA]);
    assert!(matches!(res, Err(WazmError::OutOfBuffer)));
}

#[test]
fn loader_rejects_a_dangling_jump_target() {
    // a branch whose byte target is inside another opcode
    let mut bytes = vec![0x20u8];
    bytes.extend_from_slice(&[0, 0, 0, 1]); // byte offset 1: not an opcode start
    bytes.extend_from_slice(&[0, 0, 0, 0, 0, 0, 0, 0]);
    let res = CompiledModule::from_vec(&bytes);
    assert!(matches!(res, Err(WazmError::ReachedUnreachable)));
}

#[test]
fn call_to_an_unrecorded_function_fails_at_finalize() {
    let mut module = empty_module();
    module.exports.push(main_export(0));
    module.func_bodies.push(vec![
        WasmInstruction::Call(5),
        WasmInstruction::Return(DropKeep { drop: 0, keep: 0 }),
    ]);
    let mut compiler = Compiler::new(module);
    compiler.translate().unwrap();
    let res = compiler.finalize();
    assert!(matches!(res, Err(WazmError::MissingFunction)));
}

#[test]
fn branch_outside_the_code_section_fails_at_finalize() {
    let mut module = empty_module();
    module.exports.push(main_export(0));
    module.func_bodies.push(vec![
        WasmInstruction::Br(BranchParams {
            offset: JumpDest(99),
            drop_keep: DropKeep { drop: 0, keep: 0 },
        }),
        WasmInstruction::Return(DropKeep { drop: 0, keep: 0 }),
    ]);
    let mut compiler = Compiler::new(module);
    compiler.translate().unwrap();
    let res = compiler.finalize();
    assert!(matches!(res, Err(WazmError::OutOfBuffer)));
}

#[test]
fn empty_binary_is_rejected() {
    let res = CompiledModule::from_vec(&Vec::new());
    assert!(matches!(res, Err(WazmError::EmptyBytecode)));
}

#[test]
fn trace_binary_lists_opcode_names() {
    let mut module = empty_module();
    module.exports.push(main_export(0));
    module.func_bodies.push(vec![
        WasmInstruction::Plain(OpCode::I32Add),
        WasmInstruction::Return(DropKeep { drop: 0, keep: 0 }),
    ]);
    let mut compiler = Compiler::new(module);
    compiler.translate().unwrap();
    let binary = compiler.finalize().unwrap();
    let loaded = CompiledModule::from_vec(&binary).unwrap();
    assert_eq!(loaded.trace_binary(), "i32_add\nreturn\n");
}
