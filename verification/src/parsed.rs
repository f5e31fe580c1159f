//! The compiler's input: a validated, already-parsed WebAssembly module,
//! reduced to the plain data the lowering reads — global initializers, data
//! segments, exports, import names, and function bodies as sequences of
//! parser-level instructions.

use vstd::prelude::*;

use crate::opcode::OpCode;
use crate::utils::{BranchParams, DropKeep};
use crate::value::UntypedValue;

verus! {

/// What an export names: a function, table, memory or global, by index.
#[derive(Debug, Copy, Clone, PartialEq, Eq, Structural)]
pub enum ExternIdx {
    Func(u32),
    Table(u32),
    Memory(u32),
    Global(u32),
}

/// How a data segment is applied: an active segment is copied into memory
/// `memory_index` at a constant offset at instantiation (`None` when its
/// offset expression is not a compile-time constant); a passive segment
/// waits for `memory.init`.
#[derive(Debug, Copy, Clone, PartialEq, Eq, Structural)]
pub enum DataSegmentKind {
    Active { memory_index: u32, offset: Option<UntypedValue> },
    Passive,
}

/// One data segment: its kind and its payload bytes.
pub struct DataSegment {
    pub kind: DataSegmentKind,
    pub bytes: Vec<u8>,
}

/// One parser-level instruction of a function body. Control-flow forms carry
/// the parser's branch parameters and drop-keep annotations; every
/// straight-line instruction arrives as the core opcode it maps to, under
/// `Plain`.
#[derive(Debug, Copy, Clone, PartialEq, Eq, Structural)]
pub enum WasmInstruction {
    Br(BranchParams),
    BrIfEqz(BranchParams),
    BrIfNez(BranchParams),
    BrTable { len_targets: u32 },
    Return(DropKeep),
    ReturnIfNez(DropKeep),
    ReturnCall { func: u32, drop_keep: DropKeep },
    ReturnCallIndirect { table: u32, func_type: u32, drop_keep: DropKeep },
    Call(u32),
    CallIndirect { table: u32, func_type: u32 },
    Plain(OpCode),
}

/// One export: its name and what it names.
pub struct Export {
    pub name: String,
    pub idx: ExternIdx,
}

/// One imported function's fully qualified name: `(module, field)`.
pub struct ImportedFunc {
    pub module: String,
    pub field: String,
}

/// A parsed module. Function indices run over the imported functions first,
/// then the defined ones: function `i` is imported when
/// `i < imported_funcs.len()`, and otherwise has body
/// `func_bodies[i - imported_funcs.len()]`. `globals_init` holds the
/// constant initializer of each declared (non-imported) global, in
/// declaration order, `None` where the initializer is not constant.
pub struct ParsedModule {
    pub globals_init: Vec<Option<UntypedValue>>,
    pub data_segments: Vec<DataSegment>,
    pub exports: Vec<Export>,
    pub imported_funcs: Vec<ImportedFunc>,
    pub func_bodies: Vec<Vec<WasmInstruction>>,
}

/// The index the first export named `name` points at, if any.
pub open spec fn spec_find_export(exports: Seq<Export>, name: Seq<char>) -> Option<ExternIdx>
    decreases exports.len(),
{
    if exports.len() == 0 {
        None
    } else if exports[0].name@ == name {
        Some(exports[0].idx)
    } else {
        spec_find_export(exports.skip(1), name)
    }
}

impl ParsedModule {
    /// The number of functions the module has, imported and defined.
    pub open spec fn spec_num_funcs(&self) -> int {
        self.imported_funcs@.len() + self.func_bodies@.len() as int
    }
}

} // verus!
