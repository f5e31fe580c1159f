//! Tests of the tracer and its JSON serialization, the host-call registry,
//! and the memory-chunk scan.

use wazm::host_call::resolve_host_call;
use wazm::meta::InstrMeta;
use wazm::opcode::OpCode;
use wazm::tracer::{scan_memory_chunks, Tracer};
use wazm::utils::{BranchParams, DropKeep, Index, JumpDest};
use wazm::value::UntypedValue;
use wazm::WazmError;

#[test]
fn host_calls_resolve_to_reserved_indices() {
    assert_eq!(resolve_host_call("env", "_evm_stop").unwrap(), Index(0xEE01));
    assert_eq!(resolve_host_call("env", "_evm_return").unwrap(), Index(0xEE02));
    assert_eq!(resolve_host_call("env", "_evm_keccak256").unwrap(), Index(0xEE03));
    assert_eq!(resolve_host_call("env", "_evm_sstore").unwrap(), Index(0xEE1D));
    assert_eq!(resolve_host_call("env", "_evm_selfdestruct").unwrap(), Index(0xEE2A));
}

#[test]
fn unknown_host_calls_are_rejected() {
    assert!(matches!(
        resolve_host_call("env", "_evm_bogus"),
        Err(WazmError::NotSupportedImport)
    ));
    assert!(matches!(
        resolve_host_call("sys", "_evm_return"),
        Err(WazmError::NotSupportedImport)
    ));
}

#[test]
fn memory_scan_finds_maximal_nonzero_runs() {
    let mem = vec![0xAA, 0xBB, 0xCC, 0xDD, 0xEE, 0, 0, 0];
    let chunks = scan_memory_chunks(&mem);
    assert_eq!(chunks.len(), 1);
    assert_eq!(chunks[0].offset, 0);
    assert_eq!(chunks[0].len, 5);
    assert_eq!(chunks[0].data, vec![0xAA, 0xBB, 0xCC, 0xDD, 0xEE]);
}

#[test]
fn memory_scan_treats_a_zero_byte_as_a_separator() {
    let mem = vec![0, 1, 2, 0, 3, 0, 0, 4];
    let chunks = scan_memory_chunks(&mem);
    assert_eq!(chunks.len(), 3);
    assert_eq!((chunks[0].offset, chunks[0].len), (1, 2));
    assert_eq!((chunks[1].offset, chunks[1].len), (4, 1));
    assert_eq!((chunks[2].offset, chunks[2].len), (7, 1));
    assert_eq!(chunks[1].data, vec![3]);
}

#[test]
fn empty_tracer_serializes_to_empty_sections() {
    let tracer = Tracer::new();
    assert_eq!(
        tracer.to_json(),
        "{\"global_memory\":[],\"logs\":[],\"global_variables\":[],\"fn_metas\":[]}"
    );
}

#[test]
fn global_memory_serializes_as_hex() {
    let mut tracer = Tracer::new();
    let greeting = vec![
        0x48, 0x65, 0x6C, 0x6C, 0x6F, 0x2C, 0x20, 0x57, 0x6F, 0x72, 0x6C, 0x64,
    ];
    tracer.global_memory(1048576, 12, &greeting);
    assert_eq!(
        tracer.to_json(),
        "{\"global_memory\":[{\"offset\":1048576,\"len\":12,\"data\":\"48656c6c6f2c20576f726c64\"}],\"logs\":[],\"global_variables\":[],\"fn_metas\":[]}"
    );
}

#[test]
fn global_variables_serialize_index_and_value() {
    let mut tracer = Tracer::new();
    tracer.global_variable(UntypedValue::from_i32(127), 0);
    assert_eq!(
        tracer.to_json(),
        "{\"global_memory\":[],\"logs\":[],\"global_variables\":[{\"index\":0,\"value\":127}],\"fn_metas\":[]}"
    );
}

#[test]
fn function_metadata_serializes_in_field_order() {
    let mut tracer = Tracer::new();
    tracer.function_call(0, 3, 0, "main".to_string());
    assert_eq!(
        tracer.to_json(),
        "{\"global_memory\":[],\"logs\":[],\"global_variables\":[],\"fn_metas\":[{\"fn_index\":0,\"max_stack_height\":3,\"num_locals\":0,\"fn_name\":\"main\"}]}"
    );
}

#[test]
fn registered_extern_names_win_over_reported_names() {
    let mut tracer = Tracer::new();
    tracer.register_extern("greet".to_string(), 1);
    tracer.function_call(1, 2, 0, "anonymous".to_string());
    tracer.function_call(2, 1, 1, "helper".to_string());
    let json = tracer.to_json();
    assert!(json.contains("\"fn_name\":\"greet\""));
    assert!(json.contains("\"fn_name\":\"helper\""));
}

#[test]
fn instruction_records_keep_program_order() {
    let mut tracer = Tracer::new();
    let ops = vec![
        OpCode::I32Const(UntypedValue::from_i32(100)),
        OpCode::I32Const(UntypedValue::from_i32(20)),
        OpCode::I32Add,
    ];
    let mut stack: Vec<UntypedValue> = Vec::new();
    for (k, op) in ops.iter().enumerate() {
        tracer.pre_opcode_state(k as u32, *op, &stack, &InstrMeta(10 + k, 0x61));
        stack.push(UntypedValue::from_i32(1));
    }
    assert_eq!(tracer.logs.len(), 3);
    for (k, rec) in tracer.logs.iter().enumerate() {
        assert_eq!(rec.program_counter, k as u32);
        assert_eq!(rec.source_pc, 10 + k as u32);
    }
    // source positions never decrease along a straight-line block
    for k in 1..tracer.logs.len() {
        assert!(tracer.logs[k - 1].source_pc <= tracer.logs[k].source_pc);
    }
}

#[test]
fn memory_deltas_attach_to_the_next_record_only() {
    let mut tracer = Tracer::new();
    let stack: Vec<UntypedValue> = Vec::new();
    tracer.memory_change(8, 2, &vec![5, 6]);
    tracer.memory_change(16, 1, &vec![7]);
    tracer.pre_opcode_state(0, OpCode::I32Add, &stack, &InstrMeta(0, 0x7B));
    tracer.pre_opcode_state(1, OpCode::Drop, &stack, &InstrMeta(1, 0x02));
    assert_eq!(tracer.logs[0].memory_changes.len(), 2);
    assert_eq!(tracer.logs[0].memory_changes[0].offset, 8);
    assert_eq!(tracer.logs[0].memory_changes[1].offset, 16);
    assert_eq!(tracer.logs[1].memory_changes.len(), 0);
    assert_eq!(tracer.memory_changes.len(), 0);
}

#[test]
fn instruction_record_serializes_every_conditional_field() {
    let mut tracer = Tracer::new();
    let stack = vec![UntypedValue::from_i32(100), UntypedValue::from_i32(20)];
    tracer.memory_change(0, 1, &vec![9]);
    tracer.pre_opcode_state(
        2,
        OpCode::Br(BranchParams { offset: JumpDest(-1), drop_keep: DropKeep { drop: 3, keep: 2 } }),
        &stack,
        &InstrMeta(47, 0x20),
    );
    assert_eq!(
        tracer.to_json(),
        "{\"global_memory\":[],\"logs\":[{\"pc\":2,\"source_pc\":47,\"name\":\"br\",\"opcode\":32,\"stack_drop\":3,\"stack_keep\":2,\"params\":[18446744073709551615],\"memory_changes\":[{\"offset\":0,\"len\":1,\"data\":\"09\"}],\"stack\":[100,20]}],\"global_variables\":[],\"fn_metas\":[]}"
    );
}

#[test]
fn plain_records_omit_empty_fields() {
    let mut tracer = Tracer::new();
    let stack: Vec<UntypedValue> = Vec::new();
    tracer.pre_opcode_state(0, OpCode::I32Add, &stack, &InstrMeta(55, 0x7B));
    assert_eq!(
        tracer.to_json(),
        "{\"global_memory\":[],\"logs\":[{\"pc\":0,\"source_pc\":55,\"name\":\"i32_add\",\"opcode\":123}],\"global_variables\":[],\"fn_metas\":[]}"
    );
}

#[test]
fn opcode_names_are_lower_snake_case() {
    assert_eq!(OpCode::I32Add.name(), "i32_add");
    assert_eq!(OpCode::I64ExtendI32U.name(), "i64_extend_i32_u");
    assert_eq!(OpCode::CallHost(Index(0xEE01)).name(), "call_host");
    assert_eq!(OpCode::I32TruncSatF64U.name(), "i32_trunc_sat_f64_u");
    assert_eq!(OpCode::MemoryGrow.name(), "memory_grow");
}

#[test]
fn indirect_calls_carry_table_and_type_parameters() {
    let op = OpCode::CallIndirect { table: Index(2), func_type: Index(5) };
    assert_eq!(op.params().unwrap(), vec![2, 5]);
    let tail = OpCode::ReturnCallIndirect {
        table: Index(1),
        func_type: Index(4),
        drop_keep: DropKeep { drop: 0, keep: 0 },
    };
    assert_eq!(tail.params().unwrap(), vec![1, 4]);
}

#[test]
fn branch_params_reinterpret_the_signed_offset() {
    let op = OpCode::Br(BranchParams {
        offset: JumpDest(-1),
        drop_keep: DropKeep { drop: 0, keep: 0 },
    });
    assert_eq!(op.params().unwrap(), vec![u64::MAX]);
    assert_eq!(OpCode::I32Add.params(), None);
    assert_eq!(OpCode::Call(Index(7)).params().unwrap(), vec![7]);
}

#[test]
fn empty_drop_keep_is_filtered_out() {
    let plain = OpCode::Return(DropKeep { drop: 0, keep: 0 });
    assert_eq!(plain.drop_keep(), None);
    let busy = OpCode::Return(DropKeep { drop: 2, keep: 1 });
    assert_eq!(busy.drop_keep(), Some(DropKeep { drop: 2, keep: 1 }));
}

#[test]
fn fn_names_are_escaped_in_json() {
    let mut tracer = Tracer::new();
    tracer.function_call(0, 0, 0, "a\"b\\c".to_string());
    let json = tracer.to_json();
    assert!(json.contains("\"fn_name\":\"a\\\"b\\\\c\""));
}
