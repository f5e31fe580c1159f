//! The loader: given a flat binary, decodes the opcode sequence, records per-
//! opcode metadata, and re-expresses every embedded jump target — an absolute
//! byte offset inside the binary — as a relative opcode-position delta, the
//! convention the interpreter works in.

use vstd::prelude::*;

use crate::binary_format::{BinaryFormatError, BinaryFormatReader};
use crate::codec::{decode_entries, decode_op, lemma_decode_entries_offsets, lemma_decode_op_bounds};
use crate::linker::Linker;
use crate::meta::InstrMeta;
use crate::opcode::{is_branch, spec_branch_params, spec_rewrite_jump_offset, OpCode};
use crate::tracer::spec_opcode_name;
use crate::utils::{Index, JumpDest};
use crate::value::{fits_i32, i32_bits, i32_of_bits, spec_i32_bits, spec_i32_of_bits};
use crate::WazmError;

verus! {

broadcast use crate::binary_format::lemma_reader_invariants;

/// The position of the first decoded opcode whose byte offset is `byte`.
pub open spec fn find_position(entries: Seq<(OpCode, int)>, byte: int) -> Option<int>
    decreases entries.len(),
{
    if entries.len() == 0 {
        None
    } else if entries[0].1 == byte {
        Some(0)
    } else {
        match find_position(entries.skip(1), byte) {
            Some(j) => Some(j + 1),
            None => None,
        }
    }
}

/// What a `find_position` result means: a hit is the first entry at that
/// byte offset; a miss means no entry has it.
pub proof fn lemma_find_position_props(entries: Seq<(OpCode, int)>, byte: int)
    ensures
        match find_position(entries, byte) {
            Some(j) => 0 <= j < entries.len() && entries[j].1 == byte && forall|k: int|
                0 <= k < j ==> #[trigger] entries[k].1 != byte,
            None => forall|k: int| 0 <= k < entries.len() ==> #[trigger] entries[k].1 != byte,
        },
    decreases entries.len(),
{
    if entries.len() == 0 {
    } else if entries[0].1 == byte {
    } else {
        lemma_find_position_props(entries.skip(1), byte);
        match find_position(entries.skip(1), byte) {
            Some(j) => {
                assert(entries[j + 1] == entries.skip(1)[j]);
                assert forall|k: int| 0 <= k < j + 1 implies #[trigger] entries[k].1 != byte by {
                    if k > 0 {
                        assert(entries[k] == entries.skip(1)[k - 1]);
                    }
                }
            },
            None => {
                assert forall|k: int|
                    0 <= k < entries.len() implies #[trigger] entries[k].1 != byte by {
                    if k > 0 {
                        assert(entries[k] == entries.skip(1)[k - 1]);
                    }
                }
            },
        }
    }
}

/// The opcode at position `i` as the loader leaves it: a branch or call gets
/// its absolute byte target re-expressed as a relative opcode-position
/// delta; everything else is untouched. `None` when the target byte offset
/// is not the start of any decoded opcode, or the delta does not fit.
pub open spec fn loaded_opcode(entries: Seq<(OpCode, int)>, i: int) -> Option<OpCode>
    recommends
        0 <= i < entries.len(),
{
    let op = entries[i].0;
    if is_branch(op) {
        match find_position(entries, spec_branch_params(op).offset.0 as int) {
            Some(j) => if fits_i32(j - i) {
                Some(spec_rewrite_jump_offset(op, JumpDest((j - i) as i32)))
            } else {
                None
            },
            None => None,
        }
    } else {
        match op {
            OpCode::Call(idx) => match find_position(entries, idx.0 as int) {
                Some(j) => if fits_i32(j - i) {
                    Some(OpCode::Call(Index(spec_i32_bits((j - i) as i32))))
                } else {
                    None
                },
                None => None,
            },
            _ => Some(op),
        }
    }
}

/// Whether the opcode at position `i` names a byte offset that is not the
/// start of any decoded opcode — the dangling-target failure, as opposed to a
/// delta that does not fit.
pub open spec fn jump_target_missing(entries: Seq<(OpCode, int)>, i: int) -> bool
    recommends
        0 <= i < entries.len(),
{
    let op = entries[i].0;
    if is_branch(op) {
        find_position(entries, spec_branch_params(op).offset.0 as int) is None
    } else {
        match op {
            OpCode::Call(idx) => find_position(entries, idx.0 as int) is None,
            _ => false,
        }
    }
}

/// The whole loaded opcode sequence, or `None` when any single opcode cannot
/// be loaded.
pub open spec fn loaded_bytecode(entries: Seq<(OpCode, int)>) -> Option<Seq<OpCode>> {
    if forall|i: int| 0 <= i < entries.len() ==> #[trigger] loaded_opcode(entries, i) is Some {
        Some(Seq::new(entries.len(), |i: int| loaded_opcode(entries, i).unwrap()))
    } else {
        None
    }
}

/// How many globals the bytecode touches: one past the highest index any
/// `GlobalGet` or `GlobalSet` names, or zero when none occurs.
pub open spec fn global_contrib(op: OpCode) -> int {
    match op {
        OpCode::GlobalGet(idx) => idx.0 + 1,
        OpCode::GlobalSet(idx) => idx.0 + 1,
        _ => 0,
    }
}

/// The number of globals a whole opcode sequence touches.
pub open spec fn spec_num_globals(ops: Seq<OpCode>) -> int
    decreases ops.len(),
{
    if ops.len() == 0 {
        0
    } else {
        let c = global_contrib(ops.last());
        let r = spec_num_globals(ops.drop_last());
        if c > r {
            c
        } else {
            r
        }
    }
}

/// The loaded bytecode as text: one opcode name per line.
pub open spec fn spec_trace_lines(ops: Seq<OpCode>) -> Seq<char>
    decreases ops.len(),
{
    if ops.len() == 0 {
        Seq::empty()
    } else {
        spec_trace_lines(ops.drop_last()) + spec_opcode_name(ops.last()) + seq!['\n']
    }
}

/// A module loaded from a flat binary: the decoded opcodes with their jump
/// targets re-expressed as relative opcode-position deltas, one metadata
/// record per opcode, the linker of its host functions, and the number of
/// globals it touches. `bytecode` and `metas` always have the same length.
pub struct CompiledModule {
    pub bytecode: Vec<OpCode>,
    pub metas: Vec<InstrMeta>,
    pub linker: Linker,
    pub num_globals: u32,
}

/// Copies a byte vector.
fn copy_bytes(v: &Vec<u8>) -> (r: Vec<u8>)
    ensures
        r@ == v@,
{
    let mut result: Vec<u8> = Vec::new();
    let n = v.len();
    let mut i: usize = 0;
    while i < n
        invariant
            i <= n,
            n == v@.len(),
            result@ =~= v@.take(i as int),
        decreases n - i,
    {
        result.push(v[i]);
        i = i + 1;
        proof {
            assert(v@.take(i as int) =~= v@.take(i as int - 1).push(v@[i as int - 1]));
        }
    }
    proof {
        assert(v@.take(n as int) =~= v@);
    }
    result
}

/// Finds the opcode position whose recorded byte offset is `byte`.
fn find_target(
    metas: &Vec<InstrMeta>,
    byte: usize,
    Ghost(entries): Ghost<Seq<(OpCode, int)>>,
) -> (r: Option<usize>)
    requires
        entries.len() == metas@.len(),
        forall|k: int| 0 <= k < entries.len() ==> #[trigger] entries[k].1 == metas@[k].0 as int,
    ensures
        match r {
            Some(j) => j < metas@.len() && find_position(entries, byte as int) == Some(j as int),
            None => find_position(entries, byte as int) is None,
        },
{
    proof {
        lemma_find_position_props(entries, byte as int);
    }
    let n = metas.len();
    let mut j: usize = 0;
    while j < n
        invariant
            j <= n,
            n == metas@.len(),
            entries.len() == metas@.len(),
            forall|k: int| 0 <= k < entries.len() ==> #[trigger] entries[k].1 == metas@[k].0 as int,
            forall|k: int| 0 <= k < j ==> #[trigger] entries[k].1 != byte as int,
        decreases n - j,
    {
        if metas[j].0 == byte {
            proof {
                lemma_find_position_props(entries, byte as int);
                let fp = find_position(entries, byte as int);
                if fp is None {
                    assert(entries[j as int].1 != byte as int);
                    assert(false);
                }
                let j2 = fp.unwrap();
                if j2 < j {
                    assert(entries[j2].1 != byte as int);
                    assert(false);
                }
                if j2 > j as int {
                    assert(entries[j as int].1 != byte as int);
                    assert(false);
                }
            }
            return Some(j);
        }
        j = j + 1;
    }
    proof {
        lemma_find_position_props(entries, byte as int);
    }
    None
}

/// The relative opcode-position delta from position `i` to position `j`, or
/// `ImpossibleJump` when it does not fit a signed 32-bit offset.
fn position_delta(j: usize, i: usize) -> (r: Result<i32, WazmError>)
    ensures
        r is Ok <==> fits_i32(j - i),
        r is Ok ==> r->Ok_0 == j - i,
        r is Err ==> r->Err_0 is ImpossibleJump,
{
    if j >= i {
        let d = j - i;
        if d <= 0x7FFF_FFFFusize {
            Ok(d as i32)
        } else {
            Err(WazmError::ImpossibleJump)
        }
    } else {
        let d = i - j;
        if d <= 0x8000_0000usize {
            proof {
                assert(1 <= d <= 0x8000_0000);
                assert(0x8000_0000u64 <= 0x1_0000_0000u64 - (d as u64) <= 0xFFFF_FFFFu64);
            }
            let bits = (0x1_0000_0000u64 - d as u64) as u32;
            proof {
                assert(spec_i32_of_bits(bits) == j - i);
            }
            Ok(i32_of_bits(bits))
        } else {
            Err(WazmError::ImpossibleJump)
        }
    }
}

impl CompiledModule {
    /// Loads a module from a flat binary: decodes every opcode, records its
    /// byte offset and tag byte, re-expresses every jump-bearing opcode's
    /// absolute byte target as a relative opcode-position delta, and counts
    /// the globals. After a successful load, every branch's relative offset
    /// lands inside the bytecode. Zero-length input is rejected with
    /// `EmptyBytecode`; a byte target that starts no opcode with
    /// `ReachedUnreachable`; a relative delta too wide for its operand with
    /// `ImpossibleJump`.
    pub fn from_vec(sink: &Vec<u8>) -> (r: Result<CompiledModule, WazmError>)
        ensures
            r is Ok <==> sink@.len() > 0 && decode_entries(sink@, 0) is Some && loaded_bytecode(
                decode_entries(sink@, 0).unwrap(),
            ) is Some && spec_num_globals(
                loaded_bytecode(decode_entries(sink@, 0).unwrap()).unwrap(),
            ) <= u32::MAX,
            sink@.len() == 0 ==> r == Err::<CompiledModule, WazmError>(WazmError::EmptyBytecode),
            r is Ok ==> ({
                let entries = decode_entries(sink@, 0).unwrap();
                let m = r->Ok_0;
                &&& m.bytecode@ == loaded_bytecode(entries).unwrap()
                &&& m.metas@.len() == entries.len()
                &&& (forall|i: int|
                    0 <= i < entries.len() ==> #[trigger] m.metas@[i].0 == entries[i].1
                        && m.metas@[i].1 == sink@[entries[i].1])
                &&& m.num_globals == spec_num_globals(m.bytecode@)
                &&& m.linker.host_functions@.len() == 0
                &&& (forall|i: int|
                    0 <= i < m.bytecode@.len() && is_branch(#[trigger] m.bytecode@[i]) ==> 0 <= i
                        + spec_branch_params(m.bytecode@[i]).offset.0 < m.bytecode@.len())
            }),
            decode_entries(sink@, 0) is None ==> r is Err && (r->Err_0 is OutOfBuffer
                || r->Err_0 is IllegalOpcode),
            r is Err && sink@.len() > 0 && decode_entries(sink@, 0) is Some ==> ({
                let entries = decode_entries(sink@, 0).unwrap();
                if loaded_bytecode(entries) is Some {
                    r->Err_0 is InternalError
                } else {
                    exists|i: int|
                        0 <= i < entries.len() && #[trigger] loaded_opcode(entries, i) is None && (
                        forall|k: int| 0 <= k < i ==> loaded_opcode(entries, k) is Some) && (
                        if jump_target_missing(entries, i) {
                            r == Err::<CompiledModule, WazmError>(WazmError::ReachedUnreachable)
                        } else {
                            r == Err::<CompiledModule, WazmError>(WazmError::ImpossibleJump)
                        })
                }
            }),
    {
        if sink.len() == 0 {
            return Err(WazmError::EmptyBytecode);
        }
        let mut reader = BinaryFormatReader::new(copy_bytes(sink));
        let mut bytecode: Vec<OpCode> = Vec::new();
        let mut metas: Vec<InstrMeta> = Vec::new();
        let ghost mut entries: Seq<(OpCode, int)> = Seq::empty();

        // decode every opcode, recording its byte offset and tag byte
        while !reader.is_empty()
            invariant
                reader.wf(),
                reader.buffer() == sink@,
                entries.len() == bytecode@.len(),
                entries.len() == metas@.len(),
                forall|k: int|
                    0 <= k < entries.len() ==> #[trigger] entries[k] == (
                    bytecode@[k],
                    metas@[k].0 as int,
                ),
                forall|k: int|
                    0 <= k < metas@.len() ==> #[trigger] metas@[k].1 == sink@[metas@[k].0 as int]
                        && metas@[k].0 < sink@.len(),
                decode_entries(sink@, 0) == (match decode_entries(
                    reader.remaining(),
                    reader.spec_pos(),
                ) {
                    Some(t) => Some(entries + t),
                    None => None::<Seq<(OpCode, int)>>,
                }),
            decreases reader.remaining().len(),
        {
            let ghost rem = reader.remaining();
            let ghost pos = reader.spec_pos();
            let offset = reader.pos();
            let code = sink[offset];
            let instr = match OpCode::read_binary(&mut reader) {
                Ok(instr) => instr,
                Err(BinaryFormatError::NeedMore(_)) => {
                    return Err(WazmError::OutOfBuffer);
                },
                Err(BinaryFormatError::IllegalOpcode(b)) => {
                    return Err(WazmError::IllegalOpcode(b));
                },
            };
            proof {
                lemma_decode_op_bounds(rem);
                let (dop, n) = decode_op(rem).unwrap();
                assert(decode_entries(rem, pos) == (match decode_entries(rem.skip(n), pos + n) {
                    Some(rest) => Some(seq![(dop, pos)] + rest),
                    None => None::<Seq<(OpCode, int)>>,
                }));
            }
            bytecode.push(instr);
            metas.push(InstrMeta(offset, code));
            proof {
                let n = decode_op(rem).unwrap().1;
                let prev = entries;
                entries = entries.push((instr, pos));
                if decode_entries(rem.skip(n), pos + n) is Some {
                    let rest = decode_entries(rem.skip(n), pos + n).unwrap();
                    assert(prev + (seq![(instr, pos)] + rest) =~= entries + rest);
                }
            }
        }
        proof {
            assert(decode_entries(reader.remaining(), reader.spec_pos()) == Some(
                Seq::<(OpCode, int)>::empty(),
            ));
            assert(entries + Seq::<(OpCode, int)>::empty() =~= entries);
            lemma_decode_entries_offsets(sink@, 0);
        }

        // re-express every branch and call target as a relative position
        let n_ops = bytecode.len();
        let mut i: usize = 0;
        while i < n_ops
            invariant
                n_ops == bytecode@.len(),
                i <= n_ops,
                decode_entries(sink@, 0) == Some(entries),
                entries.len() == bytecode@.len(),
                entries.len() == metas@.len(),
                forall|k: int|
                    0 <= k < entries.len() ==> #[trigger] entries[k].1 == metas@[k].0 as int,
                forall|k: int|
                    0 <= k < metas@.len() ==> #[trigger] metas@[k].1 == sink@[metas@[k].0 as int],
                forall|k: int|
                    0 <= k < i ==> #[trigger] loaded_opcode(entries, k) == Some(bytecode@[k]),
                forall|k: int| i <= k < entries.len() ==> #[trigger] bytecode@[k] == entries[k].0,
            decreases n_ops - i,
        {
            let op = bytecode[i];
            if let Some(jd) = op.get_jump_offset() {
                if jd.0 < 0 {
                    proof {
                        lemma_decode_entries_offsets(sink@, 0);
                        lemma_find_position_props(entries, jd.0 as int);
                        assert(find_position(entries, jd.0 as int) is None);
                        assert(loaded_opcode(entries, i as int) is None);
                        assert(loaded_bytecode(entries) is None);
                        assert(jump_target_missing(entries, i as int));
                    }
                    return Err(WazmError::ReachedUnreachable);
                }
                let byte = jd.0 as usize;
                match find_target(&metas, byte, Ghost(entries)) {
                    None => {
                        proof {
                            assert(loaded_opcode(entries, i as int) is None);
                            assert(loaded_bytecode(entries) is None);
                            assert(jump_target_missing(entries, i as int));
                        }
                        return Err(WazmError::ReachedUnreachable);
                    },
                    Some(j) => {
                        let delta = match position_delta(j, i) {
                            Ok(d) => d,
                            Err(e) => {
                                proof {
                                    assert(loaded_opcode(entries, i as int) is None);
                                    assert(loaded_bytecode(entries) is None);
                                    assert(!jump_target_missing(entries, i as int));
                                }
                                return Err(e);
                            },
                        };
                        bytecode.set(i, op.rewrite_jump_offset(JumpDest(delta)));
                        proof {
                            assert(loaded_opcode(entries, i as int) == Some(bytecode@[i as int]));
                        }
                    },
                }
            } else if let OpCode::Call(idx) = op {
                let byte = idx.0 as usize;
                match find_target(&metas, byte, Ghost(entries)) {
                    None => {
                        proof {
                            assert(loaded_opcode(entries, i as int) is None);
                            assert(loaded_bytecode(entries) is None);
                            assert(jump_target_missing(entries, i as int));
                        }
                        return Err(WazmError::ReachedUnreachable);
                    },
                    Some(j) => {
                        let delta = match position_delta(j, i) {
                            Ok(d) => d,
                            Err(e) => {
                                proof {
                                    assert(loaded_opcode(entries, i as int) is None);
                                    assert(loaded_bytecode(entries) is None);
                                    assert(!jump_target_missing(entries, i as int));
                                }
                                return Err(e);
                            },
                        };
                        bytecode.set(i, OpCode::Call(Index(i32_bits(delta))));
                        proof {
                            assert(loaded_opcode(entries, i as int) == Some(bytecode@[i as int]));
                        }
                    },
                }
            } else {
                proof {
                    assert(loaded_opcode(entries, i as int) == Some(bytecode@[i as int]));
                }
            }
            i = i + 1;
        }
        proof {
            assert(loaded_bytecode(entries) is Some);
            assert(bytecode@ =~= loaded_bytecode(entries).unwrap());
        }

        // count the globals the loaded bytecode touches
        let mut max_globals: u64 = 0;
        let mut k: usize = 0;
        while k < n_ops
            invariant
                n_ops == bytecode@.len(),
                k <= n_ops,
                max_globals == spec_num_globals(bytecode@.take(k as int)),
                max_globals <= 0x1_0000_0000u64,
            decreases n_ops - k,
        {
            let touched: u64 = match bytecode[k] {
                OpCode::GlobalGet(idx) => idx.0 as u64 + 1,
                OpCode::GlobalSet(idx) => idx.0 as u64 + 1,
                _ => 0,
            };
            if touched > max_globals {
                max_globals = touched;
            }
            proof {
                assert(bytecode@.take(k + 1).drop_last() =~= bytecode@.take(k as int));
                assert(bytecode@.take(k + 1).last() == bytecode@[k as int]);
            }
            k = k + 1;
        }
        proof {
            assert(bytecode@.take(n_ops as int) =~= bytecode@);
        }
        if max_globals > 0xFFFF_FFFFu64 {
            return Err(WazmError::InternalError("global index space overflows"));
        }

        proof {
            lemma_find_position_props(entries, 0);
            assert forall|i2: int|
                0 <= i2 < bytecode@.len() && is_branch(#[trigger] bytecode@[i2]) implies 0 <= i2
                + spec_branch_params(bytecode@[i2]).offset.0 < bytecode@.len() by {
                let raw = entries[i2].0;
                assert(loaded_opcode(entries, i2) == Some(bytecode@[i2]));
                assert(is_branch(raw));
                lemma_find_position_props(entries, spec_branch_params(raw).offset.0 as int);
            }
        }

        Ok(
            CompiledModule {
                bytecode,
                metas,
                linker: Linker::new(),
                num_globals: max_globals as u32,
            },
        )
    }

    /// Registers a host function with the module's linker.
    pub fn define_host_function(
        &mut self,
        module: String,
        name: String,
        host_fn: usize,
        fn_index: Index,
    )
        ensures
            final(self).linker.host_functions@.len() == old(self).linker.host_functions@.len() + 1,
            final(self).linker.host_functions@.last().module == module,
            final(self).linker.host_functions@.last().name == name,
            final(self).linker.host_functions@.last().host_fn == host_fn,
            final(self).linker.host_functions@.last().fn_index == fn_index,
            final(self).linker.host_functions@.drop_last() =~= old(self).linker.host_functions@,
            final(self).bytecode == old(self).bytecode,
            final(self).metas == old(self).metas,
            final(self).num_globals == old(self).num_globals,
    {
        self.linker.define_function(module, name, host_fn, fn_index);
    }

    /// The linker, read-only.
    pub fn linker(&self) -> (r: &Linker)
        ensures
            r == &self.linker,
    {
        &self.linker
    }

    /// The loaded opcode sequence.
    pub fn bytecode(&self) -> (r: &Vec<OpCode>)
        ensures
            r == &self.bytecode,
    {
        &self.bytecode
    }

    /// The per-opcode metadata, parallel to `bytecode`.
    pub fn metas(&self) -> (r: &Vec<InstrMeta>)
        ensures
            r == &self.metas,
    {
        &self.metas
    }

    /// The loaded bytecode as text, one opcode name per line.
    pub fn trace_binary(&self) -> (r: String)
        ensures
            r@ =~= spec_trace_lines(self.bytecode@),
    {
        let mut out = String::new();
        let n = self.bytecode.len();
        let mut i: usize = 0;
        while i < n
            invariant
                i <= n,
                n == self.bytecode@.len(),
                out@ =~= spec_trace_lines(self.bytecode@.take(i as int)),
            decreases n - i,
        {
            out.append(self.bytecode[i].name());
            out.append("\n");
            i = i + 1;
            proof {
                reveal_strlit("\n");
                assert(self.bytecode@.take(i as int).drop_last() =~= self.bytecode@.take(
                    i as int - 1,
                ));
                assert(self.bytecode@.take(i as int).last() == self.bytecode@[i as int - 1]);
            }
        }
        proof {
            assert(self.bytecode@.take(n as int) =~= self.bytecode@);
        }
        out
    }

    /// The number of globals the bytecode touches.
    pub fn num_globals(&self) -> (r: u32)
        ensures
            r == self.num_globals,
    {
        self.num_globals
    }
}

} // verus!
