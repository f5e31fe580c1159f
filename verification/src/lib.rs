//! A tracing WebAssembly interpreter toolchain: a flat bytecode derived from
//! WebAssembly, a compiler that lowers a parsed module into that bytecode, a
//! big-endian fixed-width codec for it, and a tracer that records execution
//! state and serializes it to JSON.

use vstd::prelude::*;

pub mod binary_format;
pub mod host_call;
pub mod json;
pub mod linker;
pub mod meta;
pub mod module;
pub mod codec;
pub mod compiler;
pub mod parsed;
pub mod tracer;
pub mod endian;
pub mod opcode;
pub mod utils;
pub mod value;

verus! {

/// The single error type of the toolchain: every failure of the codec, the
/// compiler or the loader surfaces as one of these.
#[derive(Debug, Copy, Clone)]
pub enum WazmError {
    TranslationError,
    MissingEntrypoint,
    NotSupportedOpcode,
    MissingFunction,
    NotSupportedImport,
    NotSupportedMemory(&'static str),
    ParseError(&'static str),
    OutOfBuffer,
    ReachedUnreachable,
    IllegalOpcode(u8),
    ImpossibleJump,
    InternalError(&'static str),
    MemoryOverflow,
    EmptyBytecode,
}

pub type WazmResult<T> = Result<T, WazmError>;

/// Maximum number of 64 KiB linear-memory pages a module may use.
pub const MAX_MEMORY_PAGES: u32 = 512;

/// Maximum linear-memory size in bytes.
pub const MAX_MEMORY_SIZE: u32 = 512 * 0x10000;

} // verus!
