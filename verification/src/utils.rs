//! Semantic newtypes around the operand integers of the bytecode: jump
//! destinations, memory and stack offsets, entity indices, fuel amounts, and
//! the `DropKeep` stack-reshaping directive.

use vstd::prelude::*;

use crate::opcode::OpCode;
use crate::value::spec_i32_of_bits;

verus! {

/// A branch destination. Its meaning is context-local: inside the compiler it
/// is a relative opcode-position delta, inside the flat binary an absolute
/// byte offset, and after loading a relative opcode-position delta again.
#[derive(Debug, Copy, Clone, PartialEq, Eq, Structural)]
pub struct JumpDest(pub i32);

impl JumpDest {
    /// The negated destination.
    pub fn neg(&self) -> (r: JumpDest)
        requires
            self.0 != i32::MIN,
        ensures
            r.0 == -self.0,
    {
        Self(-self.0)
    }

    /// Builds a destination from a raw `i32` value.
    pub fn from_i32(value: i32) -> (r: Self)
        ensures
            r.0 == value,
    {
        Self(value)
    }

    /// An uninitialized destination; executing a branch with it is illegal.
    pub fn uninit() -> (r: Self)
        ensures
            r.0 == 0,
    {
        Self(0)
    }

    /// The relative destination from position `src` to position `dst`, both
    /// reinterpreted as signed 32-bit values.
    pub fn init(src: u32, dst: u32) -> (r: Self)
        requires
            -0x8000_0000 <= spec_i32_of_bits(dst) - spec_i32_of_bits(src) <= 0x7FFF_FFFF,
        ensures
            r.0 == spec_i32_of_bits(dst) - spec_i32_of_bits(src),
    {
        let src_s = crate::value::i32_of_bits(src);
        let dst_s = crate::value::i32_of_bits(dst);
        Self((dst_s as i64 - src_s as i64) as i32)
    }

    /// Whether the destination has been initialized.
    pub fn is_init(self) -> (r: bool)
        ensures
            r == (self.0 != 0),
    {
        self.0 != 0
    }

    /// The raw `i32` representation.
    pub fn into_i32(self) -> (r: i32)
        ensures
            r == self.0,
    {
        self.0
    }
}

/// A memory or stack offset.
#[derive(Debug, Copy, Clone, PartialEq, Eq, Structural)]
pub struct Offset(pub u32);

impl Offset {
    /// Builds an offset from a raw `u32`.
    pub fn from_u32(value: u32) -> (r: Self)
        ensures
            r.0 == value,
    {
        Self(value)
    }

    /// The raw `u32` value.
    pub fn into_inner(self) -> (r: u32)
        ensures
            r == self.0,
    {
        self.0
    }
}

/// An identifier of a function, global, table, data segment or type.
#[derive(Debug, Copy, Clone, PartialEq, Eq, Structural)]
pub struct Index(pub u32);

impl Index {
    /// Builds an index from a raw `u32`.
    pub fn from_u32(value: u32) -> (r: Self)
        ensures
            r.0 == value,
    {
        Self(value)
    }

    /// The raw `u32` value.
    pub fn into_inner(self) -> (r: u32)
        ensures
            r == self.0,
    {
        self.0
    }
}

/// A nonnegative fuel consumption amount.
#[derive(Debug, Copy, Clone, PartialEq, Eq, Structural)]
pub struct Fuel(pub u64);

impl Fuel {
    /// Builds a fuel amount from a raw `u64`.
    pub fn from_u64(value: u64) -> (r: Self)
        ensures
            r.0 == value,
    {
        Self(value)
    }
}

/// Stack reshaping: remove `drop` values from below the top `keep` values,
/// preserving the top `keep` in order. `(0, 0)` is a permitted no-op.
#[derive(Debug, Copy, Clone, PartialEq, Eq, Structural)]
pub struct DropKeep {
    pub drop: u32,
    pub keep: u32,
}

impl DropKeep {
    /// Builds a directive from its two counts.
    pub fn new(drop: u32, keep: u32) -> (r: Self)
        ensures
            r.drop == drop,
            r.keep == keep,
    {
        Self { drop, keep }
    }

    /// The no-op directive.
    pub fn none() -> (r: Self)
        ensures
            r.drop == 0,
            r.keep == 0,
    {
        Self { drop: 0, keep: 0 }
    }

    /// Whether the directive reshapes anything at all.
    pub fn non_empty(&self) -> (r: bool)
        ensures
            r == (self.drop + self.keep > 0),
    {
        self.drop > 0 || self.keep > 0
    }

    /// The number of values removed.
    pub fn drop(&self) -> (r: u32)
        ensures
            r == self.drop,
    {
        self.drop
    }

    /// The number of values preserved on top.
    pub fn keep(&self) -> (r: u32)
        ensures
            r == self.keep,
    {
        self.keep
    }
}

/// A branching target: the jump offset taken and the stack reshaping applied
/// along the taken edge. An uninitialized value has offset `0` and is illegal
/// to execute.
#[derive(Debug, Copy, Clone, PartialEq, Eq, Structural)]
pub struct BranchParams {
    pub offset: JumpDest,
    pub drop_keep: DropKeep,
}

impl BranchParams {
    /// Builds branch parameters from their two parts.
    pub fn new(offset: JumpDest, drop_keep: DropKeep) -> (r: Self)
        ensures
            r.offset == offset,
            r.drop_keep == drop_keep,
    {
        Self { offset, drop_keep }
    }

    /// Builds branch parameters from a raw offset, with no stack reshaping.
    pub fn from_i32(value: i32) -> (r: Self)
        ensures
            r.offset.0 == value,
            r.drop_keep == (DropKeep { drop: 0, keep: 0 }),
    {
        BranchParams { offset: JumpDest(value), drop_keep: DropKeep { drop: 0, keep: 0 } }
    }

    /// Whether the branch offset has been initialized.
    pub fn is_init(&self) -> (r: bool)
        ensures
            r == (self.offset.0 != 0),
    {
        self.offset.is_init()
    }

    /// Sets the branch offset, once.
    pub fn init(&mut self, offset: JumpDest)
        requires
            offset.0 != 0,
            old(self).offset.0 == 0,
        ensures
            final(self).offset == offset,
            final(self).drop_keep == old(self).drop_keep,
    {
        self.offset = offset;
    }

    /// The branching offset.
    pub fn offset(self) -> (r: JumpDest)
        ensures
            r == self.offset,
    {
        self.offset
    }

    /// The stack reshaping applied upon taking the branch.
    pub fn drop_keep(self) -> (r: DropKeep)
        ensures
            r == self.drop_keep,
    {
        self.drop_keep
    }
}

/// An ordered, zero-indexed sequence of opcodes under construction. The index
/// of an opcode in the sequence is its opcode position; the byte offset it
/// gets after encoding is distinct and computed at finalization.
pub struct InstructionSet(pub Vec<OpCode>);

impl InstructionSet {
    /// An empty sequence.
    pub fn new() -> (r: Self)
        ensures
            r.0@ =~= Seq::<OpCode>::empty(),
    {
        Self(Vec::new())
    }

    /// Appends an opcode and returns its opcode position.
    pub fn push(&mut self, opcode: OpCode) -> (r: u32)
        requires
            old(self).0@.len() < u32::MAX,
        ensures
            final(self).0@ =~= old(self).0@.push(opcode),
            r == old(self).0@.len(),
    {
        let opcode_pos = self.len();
        self.0.push(opcode);
        opcode_pos
    }

    /// The number of opcodes so far.
    pub fn len(&self) -> (r: u32)
        requires
            self.0@.len() <= u32::MAX,
        ensures
            r == self.0@.len(),
    {
        self.0.len() as u32
    }

    /// Appends every opcode of `with`, in order.
    pub fn extend(&mut self, with: InstructionSet)
        ensures
            final(self).0@ =~= old(self).0@ + with.0@,
    {
        let mut rest = with;
        let n = rest.0.len();
        let mut i: usize = 0;
        while i < n
            invariant
                i <= n,
                n == rest.0@.len(),
                self.0@ =~= old(self).0@ + rest.0@.take(i as int),
            decreases n - i,
        {
            self.0.push(rest.0[i]);
            i = i + 1;
            proof {
                assert(rest.0@.take(i as int) =~= rest.0@.take(i as int - 1).push(
                    rest.0@[i as int - 1],
                ));
            }
        }
        proof {
            assert(rest.0@.take(n as int) =~= rest.0@);
        }
    }

    /// Returns a copy of the finished opcode sequence.
    pub fn finalize(&mut self) -> (r: Vec<OpCode>)
        ensures
            r@ =~= old(self).0@,
            final(self).0@ == old(self).0@,
    {
        let mut result: Vec<OpCode> = Vec::new();
        let n = self.0.len();
        let mut i: usize = 0;
        while i < n
            invariant
                i <= n,
                n == self.0@.len(),
                self.0@ == old(self).0@,
                result@ =~= self.0@.take(i as int),
            decreases n - i,
        {
            result.push(self.0[i]);
            i = i + 1;
            proof {
                assert(self.0@.take(i as int) =~= self.0@.take(i as int - 1).push(
                    self.0@[i as int - 1],
                ));
            }
        }
        proof {
            assert(self.0@.take(n as int) =~= self.0@);
        }
        result
    }
}

} // verus!
