//! Metadata the loader records about each decoded opcode: its byte position
//! inside the flat binary and its leading tag byte.

use vstd::prelude::*;

verus! {

/// One decoded opcode's byte offset in the flat binary and its tag byte.
#[derive(Debug, Copy, Clone, PartialEq, Eq, Structural)]
pub struct InstrMeta(pub usize, pub u8);

impl InstrMeta {
    /// The opcode's byte position in the flat binary.
    pub fn source_pc(&self) -> (r: u32)
        requires
            self.0 <= u32::MAX,
        ensures
            r == self.0 as u32,
    {
        self.0 as u32
    }

    /// The opcode's leading tag byte.
    pub fn opcode(&self) -> (r: u8)
        ensures
            r == self.1,
    {
        self.1
    }
}

} // verus!
