//! The compiler: lowers a parsed WebAssembly module into the flat bytecode.
//! Globals and active data segments become explicit initialization code,
//! drop-keep annotations become stack-reshaping micro-sequences, calls to
//! internal functions become placeholders remembered in a call mapping, and
//! finalization rewrites every remembered jump to the absolute byte offset
//! of its target opcode in the emitted binary.

use vstd::prelude::*;

use crate::codec::{decode_entries, encodable, encode_op, encode_opcode_to_vec};
use crate::host_call::{resolve_host_call, spec_host_call_index, str_eq};
use crate::linker::Linker;
use crate::opcode::{is_branch, spec_branch_params, spec_rewrite_jump_offset, OpCode};
use crate::parsed::{
    spec_find_export, DataSegment, DataSegmentKind, ExternIdx, ParsedModule, WasmInstruction,
};
use crate::utils::{BranchParams, DropKeep, Index, InstructionSet, JumpDest};
use crate::value::{fits_i32, UntypedValue};
use crate::{WazmError, WazmResult};

verus! {

/// The value of the last pair with the given key, the convention of a map
/// built by repeated insertion.
pub open spec fn assoc_last<K, V>(pairs: Seq<(K, V)>, key: K) -> Option<V>
    decreases pairs.len(),
{
    if pairs.len() == 0 {
        None
    } else if pairs.last().0 == key {
        Some(pairs.last().1)
    } else {
        assoc_last(pairs.drop_last(), key)
    }
}

/// Appending a pair shadows earlier pairs with its key and nothing else.
pub proof fn lemma_assoc_push<K, V>(pairs: Seq<(K, V)>, k: K, v: V, key: K)
    ensures
        assoc_last(pairs.push((k, v)), key) == if key == k {
            Some(v)
        } else {
            assoc_last(pairs, key)
        },
{
    assert(pairs.push((k, v)).drop_last() =~= pairs);
}

/// Looks a placeholder position up in the call mapping.
fn assoc_get_call(pairs: &Vec<(usize, u32)>, key: usize) -> (r: Option<u32>)
    ensures
        r == assoc_last(pairs@, key),
{
    let n = pairs.len();
    let mut i: usize = n;
    proof {
        assert(pairs@.take(n as int) =~= pairs@);
    }
    while i > 0
        invariant
            i <= n,
            n == pairs@.len(),
            assoc_last(pairs@, key) == assoc_last(pairs@.take(i as int), key),
        decreases i,
    {
        i = i - 1;
        let pair = pairs[i];
        if pair.0 == key {
            proof {
                assert(pairs@.take(i + 1).last() == pairs@[i as int]);
            }
            return Some(pair.1);
        }
        proof {
            assert(pairs@.take(i + 1).drop_last() =~= pairs@.take(i as int));
        }
    }
    proof {
        assert(pairs@.take(0) =~= Seq::<(usize, u32)>::empty());
    }
    None
}

/// Looks a function index up in the function mapping.
fn assoc_get_fn(pairs: &Vec<(u32, usize)>, key: u32) -> (r: Option<usize>)
    ensures
        r == assoc_last(pairs@, key),
{
    let n = pairs.len();
    let mut i: usize = n;
    proof {
        assert(pairs@.take(n as int) =~= pairs@);
    }
    while i > 0
        invariant
            i <= n,
            n == pairs@.len(),
            assoc_last(pairs@, key) == assoc_last(pairs@.take(i as int), key),
        decreases i,
    {
        i = i - 1;
        let pair = pairs[i];
        if pair.0 == key {
            proof {
                assert(pairs@.take(i + 1).last() == pairs@[i as int]);
            }
            return Some(pair.1);
        }
        proof {
            assert(pairs@.take(i + 1).drop_last() =~= pairs@.take(i as int));
        }
    }
    proof {
        assert(pairs@.take(0) =~= Seq::<(u32, usize)>::empty());
    }
    None
}

/// Whether a drop-keep directive can be lowered: the `local.set` depth it
/// needs, `drop + keep`, must be an index.
pub open spec fn dk_ok(dk: DropKeep) -> bool {
    dk.drop == 0 || dk.keep == 0 || dk.drop + dk.keep <= u32::MAX
}

/// The stack-reshaping micro-sequence of a drop-keep directive: copy each of
/// the `keep` kept values on top, write the copies down over the region
/// being vacated, then drop the leftovers. An empty directive lowers to
/// nothing; without kept values it is plain drops.
pub open spec fn drop_keep_lowering(dk: DropKeep) -> Seq<OpCode>
    recommends
        dk_ok(dk),
{
    if dk.drop == 0 {
        Seq::empty()
    } else if dk.keep == 0 {
        Seq::new(dk.drop as nat, |i: int| OpCode::Drop)
    } else {
        Seq::new(dk.keep as nat, |i: int| OpCode::LocalGet(Index(dk.keep))) + Seq::new(
            dk.keep as nat,
            |i: int| OpCode::LocalSet(Index((dk.drop + dk.keep) as u32)),
        ) + Seq::new(dk.drop as nat, |i: int| OpCode::Drop)
    }
}

/// The length of a lowered drop-keep micro-sequence.
pub proof fn lemma_drop_keep_lowering_len(dk: DropKeep)
    ensures
        drop_keep_lowering(dk).len() == if dk.drop == 0 {
            0int
        } else if dk.keep == 0 {
            dk.drop as int
        } else {
            2 * dk.keep + dk.drop
        },
{
}

/// Appends the micro-sequence of a drop-keep directive.
fn translate_drop_keep(result: &mut InstructionSet, dk: DropKeep) -> (r: WazmResult<()>)
    ensures
        r is Ok <==> dk_ok(dk),
        r is Ok ==> final(result).0@ =~= old(result).0@ + drop_keep_lowering(dk),
        r is Err ==> *final(result) == *old(result) && r->Err_0 is TranslationError,
{
    if dk.drop == 0 {
        proof {
            assert(old(result).0@ + drop_keep_lowering(dk) =~= old(result).0@);
        }
        return Ok(());
    }
    if dk.keep == 0 {
        let mut i: u32 = 0;
        while i < dk.drop
            invariant
                i <= dk.drop,
                result.0@ =~= old(result).0@ + Seq::new(i as nat, |k: int| OpCode::Drop),
            decreases dk.drop - i,
        {
            result.0.push(OpCode::Drop);
            i = i + 1;
            proof {
                assert(Seq::new(i as nat, |k: int| OpCode::Drop) =~= Seq::new(
                    (i - 1) as nat,
                    |k: int| OpCode::Drop,
                ).push(OpCode::Drop));
            }
        }
        return Ok(());
    }
    if dk.drop > u32::MAX - dk.keep {
        return Err(WazmError::TranslationError);
    }
    let depth = dk.drop + dk.keep;
    let mut i: u32 = 0;
    while i < dk.keep
        invariant
            i <= dk.keep,
            result.0@ =~= old(result).0@ + Seq::new(
                i as nat,
                |k: int| OpCode::LocalGet(Index(dk.keep)),
            ),
        decreases dk.keep - i,
    {
        result.0.push(OpCode::LocalGet(Index(dk.keep)));
        i = i + 1;
        proof {
            assert(Seq::new(i as nat, |k: int| OpCode::LocalGet(Index(dk.keep))) =~= Seq::new(
                (i - 1) as nat,
                |k: int| OpCode::LocalGet(Index(dk.keep)),
            ).push(OpCode::LocalGet(Index(dk.keep))));
        }
    }
    let mut j: u32 = 0;
    while j < dk.keep
        invariant
            j <= dk.keep,
            depth == dk.drop + dk.keep,
            result.0@ =~= old(result).0@ + Seq::new(
                dk.keep as nat,
                |k: int| OpCode::LocalGet(Index(dk.keep)),
            ) + Seq::new(j as nat, |k: int| OpCode::LocalSet(Index(depth))),
        decreases dk.keep - j,
    {
        result.0.push(OpCode::LocalSet(Index(depth)));
        j = j + 1;
        proof {
            assert(Seq::new(j as nat, |k: int| OpCode::LocalSet(Index(depth))) =~= Seq::new(
                (j - 1) as nat,
                |k: int| OpCode::LocalSet(Index(depth)),
            ).push(OpCode::LocalSet(Index(depth))));
        }
    }
    let mut d: u32 = 0;
    while d < dk.drop
        invariant
            d <= dk.drop,
            depth == dk.drop + dk.keep,
            result.0@ =~= old(result).0@ + Seq::new(
                dk.keep as nat,
                |k: int| OpCode::LocalGet(Index(dk.keep)),
            ) + Seq::new(dk.keep as nat, |k: int| OpCode::LocalSet(Index(depth))) + Seq::new(
                d as nat,
                |k: int| OpCode::Drop,
            ),
        decreases dk.drop - d,
    {
        result.0.push(OpCode::Drop);
        d = d + 1;
        proof {
            assert(Seq::new(d as nat, |k: int| OpCode::Drop) =~= Seq::new(
                (d - 1) as nat,
                |k: int| OpCode::Drop,
            ).push(OpCode::Drop));
        }
    }
    proof {
        assert(result.0@ =~= old(result).0@ + drop_keep_lowering(dk));
    }
    Ok(())
}

/// The lowering of one call: a call to an imported function resolves its
/// name to a host-call opcode; a call to an internal function emits a
/// placeholder — `Call(0)`, or `Br(0)` for a tail call — to be relocated at
/// finalization.
pub open spec fn lower_call(m: &ParsedModule, func: u32, tail: bool) -> Option<Seq<OpCode>> {
    if func < m.imported_funcs@.len() {
        match spec_host_call_index(
            m.imported_funcs@[func as int].module@,
            m.imported_funcs@[func as int].field@,
        ) {
            Some(idx) => Some(seq![OpCode::CallHost(Index(idx))]),
            None => None,
        }
    } else if tail {
        Some(seq![OpCode::Br(BranchParams { offset: JumpDest(0), drop_keep: DropKeep { drop: 0, keep: 0 } })])
    } else {
        Some(seq![OpCode::Call(Index(0))])
    }
}

/// The lowering of one parser-level instruction, independent of where it
/// stands in the code section. Conditional branches get an inverse guard
/// jumped over the drop-keep micro-sequence, so the reshaping runs only on
/// the taken path; returns and tail calls run their reshaping first.
pub open spec fn lower_instr(m: &ParsedModule, instr: WasmInstruction) -> Option<Seq<OpCode>> {
    match instr {
        WasmInstruction::Br(bp) => if dk_ok(bp.drop_keep) {
            Some(
                drop_keep_lowering(bp.drop_keep) + seq![
                    OpCode::Br(
                        BranchParams { offset: bp.offset, drop_keep: DropKeep { drop: 0, keep: 0 } },
                    ),
                ],
            )
        } else {
            None
        },
        WasmInstruction::BrIfEqz(bp) => if dk_ok(bp.drop_keep) && fits_i32(
            1 + drop_keep_lowering(bp.drop_keep).len() as int,
        ) {
            Some(
                seq![
                    OpCode::BrIfNez(
                        BranchParams {
                            offset: JumpDest((1 + drop_keep_lowering(bp.drop_keep).len() as int) as i32),
                            drop_keep: DropKeep { drop: 0, keep: 0 },
                        },
                    ),
                ] + drop_keep_lowering(bp.drop_keep) + seq![
                    OpCode::Br(
                        BranchParams { offset: bp.offset, drop_keep: DropKeep { drop: 0, keep: 0 } },
                    ),
                ],
            )
        } else {
            None
        },
        WasmInstruction::BrIfNez(bp) => if dk_ok(bp.drop_keep) && fits_i32(
            1 + drop_keep_lowering(bp.drop_keep).len() as int,
        ) {
            Some(
                seq![
                    OpCode::BrIfEqz(
                        BranchParams {
                            offset: JumpDest((1 + drop_keep_lowering(bp.drop_keep).len() as int) as i32),
                            drop_keep: DropKeep { drop: 0, keep: 0 },
                        },
                    ),
                ] + drop_keep_lowering(bp.drop_keep) + seq![
                    OpCode::Br(
                        BranchParams { offset: bp.offset, drop_keep: DropKeep { drop: 0, keep: 0 } },
                    ),
                ],
            )
        } else {
            None
        },
        WasmInstruction::BrTable { len_targets } => Some(
            seq![OpCode::BrTable(Index(len_targets))],
        ),
        WasmInstruction::Return(dk) => if dk_ok(dk) {
            Some(
                drop_keep_lowering(dk) + seq![
                    OpCode::Return(DropKeep { drop: 0, keep: 0 }),
                ],
            )
        } else {
            None
        },
        WasmInstruction::ReturnIfNez(dk) => if dk_ok(dk) && fits_i32(
            1 + drop_keep_lowering(dk).len() as int,
        ) {
            Some(
                seq![
                    OpCode::BrIfEqz(
                        BranchParams {
                            offset: JumpDest((1 + drop_keep_lowering(dk).len() as int) as i32),
                            drop_keep: DropKeep { drop: 0, keep: 0 },
                        },
                    ),
                ] + drop_keep_lowering(dk) + seq![OpCode::Return(DropKeep { drop: 0, keep: 0 })],
            )
        } else {
            None
        },
        WasmInstruction::ReturnCall { func, drop_keep } => if dk_ok(drop_keep) {
            match lower_call(m, func, true) {
                Some(c) => Some(drop_keep_lowering(drop_keep) + c),
                None => None,
            }
        } else {
            None
        },
        WasmInstruction::ReturnCallIndirect { table, func_type, drop_keep } => if drop_keep.keep
            < u32::MAX && dk_ok(
            DropKeep { drop: drop_keep.drop, keep: (drop_keep.keep + 1) as u32 },
        ) {
            Some(
                drop_keep_lowering(
                    DropKeep { drop: drop_keep.drop, keep: (drop_keep.keep + 1) as u32 },
                ) + seq![
                    OpCode::ReturnCallIndirect {
                        table: Index(table),
                        func_type: Index(func_type),
                        drop_keep: DropKeep { drop: 0, keep: 0 },
                    },
                ],
            )
        } else {
            None
        },
        WasmInstruction::Call(func) => lower_call(m, func, false),
        WasmInstruction::CallIndirect { table, func_type } => Some(
            seq![OpCode::CallIndirect { table: Index(table), func_type: Index(func_type) }],
        ),
        WasmInstruction::Plain(op) => Some(seq![op]),
    }
}

/// The lowering of a whole function body, instruction after instruction.
pub open spec fn lower_body(m: &ParsedModule, instrs: Seq<WasmInstruction>) -> Option<Seq<OpCode>>
    decreases instrs.len(),
{
    if instrs.len() == 0 {
        Some(Seq::empty())
    } else {
        match (lower_body(m, instrs.drop_last()), lower_instr(m, instrs.last())) {
            (Some(a), Some(b)) => Some(a + b),
            _ => None,
        }
    }
}

/// The lowering of function `f`: an imported function lowers to nothing (it
/// cannot be translated), a defined one to its lowered body, and an index
/// past the table to a missing-function failure.
pub open spec fn lower_function(m: &ParsedModule, f: int) -> Option<Seq<OpCode>> {
    if f < m.imported_funcs@.len() {
        Some(Seq::empty())
    } else if f - m.imported_funcs@.len() < m.func_bodies@.len() {
        lower_body(m, m.func_bodies@[f - m.imported_funcs@.len()]@)
    } else {
        None
    }
}

/// The initialization code of the declared globals: for each, push its
/// constant initializer and set the global. A non-constant initializer or a
/// global index past `u32` cannot be lowered.
pub open spec fn lower_globals(gs: Seq<Option<UntypedValue>>) -> Option<Seq<OpCode>>
    decreases gs.len(),
{
    if gs.len() > u32::MAX {
        None
    } else if gs.len() == 0 {
        Some(Seq::empty())
    } else {
        match (lower_globals(gs.drop_last()), gs.last()) {
            (Some(a), Some(v)) => Some(
                a + seq![OpCode::I64Const(v), OpCode::GlobalSet(Index((gs.len() - 1) as u32))],
            ),
            _ => None,
        }
    }
}

/// The initialization code of one active data segment's payload, walked
/// greedily in chunks of eight, four, two and one bytes, each parsed big
/// endian: push the address, push the chunk's value, store with the
/// matching width.
pub open spec fn data_chunks(addr: int, bytes: Seq<u8>) -> Seq<OpCode>
    decreases bytes.len(),
{
    if bytes.len() == 0 {
        Seq::empty()
    } else if bytes.len() >= 8 {
        seq![
            OpCode::I32Const(UntypedValue { bits: addr as u64 }),
            OpCode::I64Const(UntypedValue { bits: crate::endian::u64_of_be(bytes.take(8)) }),
            OpCode::I64Store(crate::utils::Offset(0)),
        ] + data_chunks(addr + 8, bytes.skip(8))
    } else if bytes.len() >= 4 {
        seq![
            OpCode::I32Const(UntypedValue { bits: addr as u64 }),
            OpCode::I64Const(
                UntypedValue { bits: crate::endian::u32_of_be(bytes.take(4)) as u64 },
            ),
            OpCode::I64Store32(crate::utils::Offset(0)),
        ] + data_chunks(addr + 4, bytes.skip(4))
    } else if bytes.len() >= 2 {
        seq![
            OpCode::I32Const(UntypedValue { bits: addr as u64 }),
            OpCode::I64Const(
                UntypedValue { bits: crate::endian::u16_of_be(bytes.take(2)) as u64 },
            ),
            OpCode::I32Store16(crate::utils::Offset(0)),
        ] + data_chunks(addr + 2, bytes.skip(2))
    } else {
        seq![
            OpCode::I32Const(UntypedValue { bits: addr as u64 }),
            OpCode::I64Const(UntypedValue { bits: bytes[0] as u64 }),
            OpCode::I32Store8(crate::utils::Offset(0)),
        ]
    }
}

/// The initialization code of one data segment. Only an active segment on
/// memory zero with a constant offset can be lowered, and its payload must
/// lie inside the 32-bit address space.
pub open spec fn lower_segment(seg: &DataSegment) -> Option<Seq<OpCode>> {
    match seg.kind {
        DataSegmentKind::Passive => None,
        DataSegmentKind::Active { memory_index, offset } => match offset {
            None => None,
            Some(v) => if memory_index != 0 {
                None
            } else {
                let addr = v.bits % 0x1_0000_0000;
                if addr + seg.bytes@.len() <= 0x1_0000_0000 {
                    Some(data_chunks(addr as int, seg.bytes@))
                } else {
                    None
                }
            },
        },
    }
}

/// The reason the data-segment rules reject a segment outright, in the words
/// the failure carries: a passive segment, a non-constant offset, or a
/// nonzero memory index, checked in that order. `None` when the segment
/// lowers, or when only its payload overflows the 32-bit address space.
pub open spec fn segment_reject_reason(seg: &DataSegment) -> Option<Seq<char>> {
    match seg.kind {
        DataSegmentKind::Passive => Some("passive mode"@),
        DataSegmentKind::Active { memory_index, offset } => match offset {
            None => Some("can't eval offset"@),
            Some(v) => if memory_index != 0 {
                Some("not zero index"@)
            } else {
                None
            },
        },
    }
}

/// The initialization code of all data segments, in order.
pub open spec fn lower_segments(segs: Seq<DataSegment>) -> Option<Seq<OpCode>>
    decreases segs.len(),
{
    if segs.len() == 0 {
        Some(Seq::empty())
    } else {
        match (lower_segments(segs.drop_last()), lower_segment(&segs.last())) {
            (Some(a), Some(b)) => Some(a + b),
            _ => None,
        }
    }
}

/// The lowering of every function but `mainf` whose index is below `upto`,
/// in index order.
pub open spec fn lower_rest(m: &ParsedModule, mainf: int, upto: int) -> Option<Seq<OpCode>>
    decreases upto,
{
    if upto <= 0 {
        Some(Seq::empty())
    } else {
        let f = upto - 1;
        match (
            lower_rest(m, mainf, f),
            if f == mainf {
                Some(Seq::<OpCode>::empty())
            } else {
                lower_function(m, f)
            },
        ) {
            (Some(a), Some(b)) => Some(a + b),
            _ => None,
        }
    }
}

/// The whole translation: global initializers, then data-segment
/// initializers, then the function exported as `main`, then every other
/// function in index order. A module without a `main` function export, or
/// any part that cannot be lowered, fails.
pub open spec fn spec_translate(m: &ParsedModule) -> Option<Seq<OpCode>> {
    if m.spec_num_funcs() > u32::MAX {
        None
    } else {
        match (lower_globals(m.globals_init@), lower_segments(m.data_segments@)) {
            (Some(g), Some(d)) => match spec_find_export(m.exports@, "main"@) {
                Some(ExternIdx::Func(mainf)) => match lower_function(m, mainf as int) {
                    Some(fmain) => match lower_rest(m, mainf as int, m.spec_num_funcs()) {
                        Some(rest) => Some(g + d + fmain + rest),
                        None => None,
                    },
                    None => None,
                },
                _ => None,
            },
            _ => None,
        }
    }
}

/// The opcode position at which function `f` starts inside the translation:
/// `main` right after the initialization prelude, every other function after
/// `main` and all lower-indexed functions but `main`.
pub open spec fn spec_function_start(m: &ParsedModule, mainf: int, f: int) -> int
    recommends
        spec_translate(m) is Some,
{
    let prelude = lower_globals(m.globals_init@).unwrap().len() + lower_segments(
        m.data_segments@,
    ).unwrap().len();
    if f == mainf {
        prelude as int
    } else {
        prelude + lower_function(m, mainf).unwrap().len() + lower_rest(
            m,
            mainf,
            f,
        ).unwrap().len() as int
    }
}

/// Translates a parsed module into the flat bytecode and remembers, for
/// every call placeholder, which function it must be relocated to.
pub struct Compiler {
    pub module: ParsedModule,
    pub linker: Linker,
    pub code_section: InstructionSet,
    pub function_mapping: Vec<(u32, usize)>,
    pub call_mapping: Vec<(usize, u32)>,
}

/// The structural facts finalization relies on: every call-mapped position
/// holds one of the two placeholders and targets a non-imported function,
/// and every recorded function start lies inside the code section.
pub open spec fn mappings_wf(c: &Compiler) -> bool {
    &&& (forall|k: int|
        0 <= k < c.call_mapping@.len() ==> (#[trigger] c.call_mapping@[k]).0
            < c.code_section.0@.len() && (c.code_section.0@[c.call_mapping@[k].0 as int]
            == OpCode::Call(Index(0)) || c.code_section.0@[c.call_mapping@[k].0 as int]
            == OpCode::Br(
            BranchParams { offset: JumpDest(0), drop_keep: DropKeep { drop: 0, keep: 0 } },
        )) && c.call_mapping@[k].1 >= c.module.imported_funcs@.len())
    &&& (forall|k: int|
        0 <= k < c.function_mapping@.len() ==> (#[trigger] c.function_mapping@[k]).1
            <= c.code_section.0@.len())
}

impl Compiler {
    /// A fresh compiler over an already-parsed module.
    pub fn new(module: ParsedModule) -> (r: Self)
        ensures
            r.module == module,
            r.code_section.0@.len() == 0,
            r.function_mapping@.len() == 0,
            r.call_mapping@.len() == 0,
            r.linker.host_functions@.len() == 0,
    {
        Compiler {
            module,
            linker: Linker::new(),
            code_section: InstructionSet::new(),
            function_mapping: Vec::new(),
            call_mapping: Vec::new(),
        }
    }

    /// The linker, for registering host functions.
    pub fn linker(&self) -> (r: &Linker)
        ensures
            r == &self.linker,
    {
        &self.linker
    }

    /// Emits the initialization code of every declared global.
    fn translate_globals(&mut self) -> (r: WazmResult<()>)
        ensures
            final(self).module == old(self).module,
            final(self).linker == old(self).linker,
            final(self).function_mapping == old(self).function_mapping,
            final(self).call_mapping == old(self).call_mapping,
            r is Ok <==> lower_globals(old(self).module.globals_init@) is Some,
            r is Ok ==> final(self).code_section.0@ =~= old(self).code_section.0@ + lower_globals(
                old(self).module.globals_init@,
            ).unwrap(),
            r is Err ==> r->Err_0 is InternalError,
    {
        let total = self.module.globals_init.len();
        if total > u32::MAX as usize {
            return Err(WazmError::InternalError("too many globals"));
        }
        let mut i: usize = 0;
        proof {
            assert(self.module.globals_init@.take(0) =~= Seq::<Option<UntypedValue>>::empty());
        }
        while i < total
            invariant
                i <= total,
                total == self.module.globals_init@.len(),
                total <= u32::MAX,
                self.module == old(self).module,
                self.linker == old(self).linker,
                self.function_mapping == old(self).function_mapping,
                self.call_mapping == old(self).call_mapping,
                lower_globals(self.module.globals_init@.take(i as int)) is Some,
                self.code_section.0@ =~= old(self).code_section.0@ + lower_globals(
                    self.module.globals_init@.take(i as int),
                ).unwrap(),
            decreases total - i,
        {
            let init = self.module.globals_init[i];
            let v = match init {
                Some(v) => v,
                None => {
                    proof {
                        assert(self.module.globals_init@.take(total as int)
                            =~= self.module.globals_init@);
                        lemma_lower_globals_prefix_none(self.module.globals_init@, i as int);
                    }
                    return Err(WazmError::InternalError("only static global variables supported"));
                },
            };
            self.code_section.0.push(OpCode::I64Const(v));
            self.code_section.0.push(OpCode::GlobalSet(Index(i as u32)));
            proof {
                assert(self.module.globals_init@.take(i + 1).drop_last()
                    =~= self.module.globals_init@.take(i as int));
                assert(self.module.globals_init@.take(i + 1).last()
                    == self.module.globals_init@[i as int]);
            }
            i = i + 1;
        }
        proof {
            assert(self.module.globals_init@.take(total as int) =~= self.module.globals_init@);
        }
        Ok(())
    }

    /// Emits the initialization code of every active data segment.
    fn translate_memory(&mut self) -> (r: WazmResult<()>)
        ensures
            final(self).module == old(self).module,
            final(self).linker == old(self).linker,
            final(self).function_mapping == old(self).function_mapping,
            final(self).call_mapping == old(self).call_mapping,
            r is Ok <==> lower_segments(old(self).module.data_segments@) is Some,
            r is Ok ==> final(self).code_section.0@ =~= old(self).code_section.0@ + lower_segments(
                old(self).module.data_segments@,
            ).unwrap(),
            r is Err ==> ({
                let segs = old(self).module.data_segments@;
                exists|i: int|
                    0 <= i < segs.len() && #[trigger] lower_segment(&segs[i]) is None && (forall|
                        j: int,
                    |
                        0 <= j < i ==> lower_segment(&segs[j]) is Some) && (
                    match segment_reject_reason(&segs[i]) {
                        Some(reason) => r->Err_0 matches WazmError::NotSupportedMemory(msg)
                            && msg@ == reason,
                        None => r->Err_0 is MemoryOverflow,
                    })
            }),
    {
        let total = self.module.data_segments.len();
        let mut s: usize = 0;
        proof {
            assert(self.module.data_segments@.take(0) =~= Seq::<DataSegment>::empty());
        }
        while s < total
            invariant
                s <= total,
                total == self.module.data_segments@.len(),
                self.module == old(self).module,
                self.linker == old(self).linker,
                self.function_mapping == old(self).function_mapping,
                self.call_mapping == old(self).call_mapping,
                lower_segments(self.module.data_segments@.take(s as int)) is Some,
                self.code_section.0@ =~= old(self).code_section.0@ + lower_segments(
                    self.module.data_segments@.take(s as int),
                ).unwrap(),
            decreases total - s,
        {
            let ghost segs = self.module.data_segments@;
            let (offset_value, seg_len) = match self.module.data_segments[s].kind {
                DataSegmentKind::Passive => {
                    proof {
                        lemma_lower_segments_bad(segs, s as int);
                        lemma_lower_segments_all(segs.take(s as int));
                        assert forall|j: int|
                            0 <= j < s implies lower_segment(&segs[j]) is Some by {
                            assert(segs.take(s as int)[j] == segs[j]);
                        }
                        assert(segment_reject_reason(&segs[s as int]) == Some("passive mode"@));
                    }
                    return Err(WazmError::NotSupportedMemory("passive mode"));
                },
                DataSegmentKind::Active { memory_index, offset } => {
                    let v = match offset {
                        Some(v) => v,
                        None => {
                            proof {
                                lemma_lower_segments_bad(segs, s as int);
                                lemma_lower_segments_all(segs.take(s as int));
                                assert forall|j: int|
                                    0 <= j < s implies lower_segment(&segs[j]) is Some by {
                                    assert(segs.take(s as int)[j] == segs[j]);
                                }
                                assert(segment_reject_reason(&segs[s as int]) == Some(
                                    "can't eval offset"@,
                                ));
                            }
                            return Err(WazmError::NotSupportedMemory("can't eval offset"));
                        },
                    };
                    if memory_index != 0 {
                        proof {
                            lemma_lower_segments_bad(segs, s as int);
                            lemma_lower_segments_all(segs.take(s as int));
                            assert forall|j: int|
                                0 <= j < s implies lower_segment(&segs[j]) is Some by {
                                assert(segs.take(s as int)[j] == segs[j]);
                            }
                            assert(segment_reject_reason(&segs[s as int]) == Some(
                                "not zero index"@,
                            ));
                        }
                        return Err(WazmError::NotSupportedMemory("not zero index"));
                    }
                    (v, self.module.data_segments[s].bytes.len())
                },
            };
            let addr0 = offset_value.to_bits() % 0x1_0000_0000u64;
            if seg_len as u64 > 0x1_0000_0000u64 - addr0 {
                proof {
                    lemma_lower_segments_bad(segs, s as int);
                    lemma_lower_segments_all(segs.take(s as int));
                    assert forall|j: int| 0 <= j < s implies lower_segment(&segs[j]) is Some by {
                        assert(segs.take(s as int)[j] == segs[j]);
                    }
                    assert(segment_reject_reason(&segs[s as int]) is None);
                }
                return Err(WazmError::MemoryOverflow);
            }
            let ghost seg_bytes = self.module.data_segments@[s as int].bytes@;
            let ghost emitted = self.code_section.0@;
            let mut pos: usize = 0;
            let mut addr: u64 = addr0;
            proof {
                assert(seg_bytes.skip(0) =~= seg_bytes);
                assert(self.code_section.0@.skip(emitted.len() as int) =~= Seq::<OpCode>::empty());
                assert(self.code_section.0@.take(emitted.len() as int) =~= emitted);
            }
            while pos < seg_len
                invariant
                    pos <= seg_len,
                    addr == addr0 + pos,
                    addr0 + seg_len <= 0x1_0000_0000u64,
                    0 <= s < self.module.data_segments@.len(),
                    seg_len == self.module.data_segments@[s as int].bytes@.len(),
                    seg_bytes == self.module.data_segments@[s as int].bytes@,
                    self.module == old(self).module,
                    self.linker == old(self).linker,
                    self.function_mapping == old(self).function_mapping,
                    self.call_mapping == old(self).call_mapping,
                    self.code_section.0@.len() >= emitted.len(),
                    self.code_section.0@.take(emitted.len() as int) =~= emitted,
                    data_chunks(addr0 as int, seg_bytes) =~= self.code_section.0@.skip(
                        emitted.len() as int,
                    ) + data_chunks(addr as int, seg_bytes.skip(pos as int)),
                decreases seg_len - pos,
            {
                let ghost rest = seg_bytes.skip(pos as int);
                let ghost code_before = self.code_section.0@;
                let remaining = seg_len - pos;
                let bytes_ref = &self.module.data_segments[s].bytes;
                let (value, width): (u64, usize) = if remaining >= 8 {
                    let v = crate::endian::read_u64_be_at(bytes_ref, pos);
                    proof {
                        assert(bytes_ref@.subrange(pos as int, pos + 8) =~= rest.take(8));
                    }
                    (v, 8)
                } else if remaining >= 4 {
                    let v = crate::endian::read_u32_be_at(bytes_ref, pos);
                    proof {
                        assert(bytes_ref@.subrange(pos as int, pos + 4) =~= rest.take(4));
                    }
                    (v as u64, 4)
                } else if remaining >= 2 {
                    let v = crate::endian::read_u16_be_at(bytes_ref, pos);
                    proof {
                        assert(bytes_ref@.subrange(pos as int, pos + 2) =~= rest.take(2));
                    }
                    (v as u64, 2)
                } else {
                    let v = bytes_ref[pos];
                    proof {
                        assert(rest[0] == bytes_ref@[pos as int]);
                    }
                    (v as u64, 1)
                };
                let store_op = if width == 8 {
                    OpCode::I64Store(crate::utils::Offset(0))
                } else if width == 4 {
                    OpCode::I64Store32(crate::utils::Offset(0))
                } else if width == 2 {
                    OpCode::I32Store16(crate::utils::Offset(0))
                } else {
                    OpCode::I32Store8(crate::utils::Offset(0))
                };
                self.code_section.0.push(OpCode::I32Const(UntypedValue { bits: addr }));
                self.code_section.0.push(OpCode::I64Const(UntypedValue { bits: value }));
                self.code_section.0.push(store_op);
                proof {
                    assert(rest.skip(width as int) =~= seg_bytes.skip(pos + width));
                    assert(data_chunks(addr as int, rest) =~= seq![
                        OpCode::I32Const(UntypedValue { bits: addr }),
                        OpCode::I64Const(UntypedValue { bits: value }),
                        store_op,
                    ] + data_chunks(addr + width, rest.skip(width as int)));
                    assert(self.code_section.0@.skip(emitted.len() as int) =~= code_before.skip(
                        emitted.len() as int,
                    ) + seq![
                        OpCode::I32Const(UntypedValue { bits: addr }),
                        OpCode::I64Const(UntypedValue { bits: value }),
                        store_op,
                    ]);
                    assert(self.code_section.0@.take(emitted.len() as int) =~= emitted);
                }
                pos = pos + width;
                addr = addr + width as u64;
            }
            proof {
                assert(seg_bytes.skip(seg_len as int) =~= Seq::<u8>::empty());
                assert(data_chunks(addr as int, seg_bytes.skip(pos as int)) =~= Seq::<
                    OpCode,
                >::empty());
                assert(lower_segment(&self.module.data_segments@[s as int]) == Some(
                    data_chunks(addr0 as int, seg_bytes),
                ));
                assert(self.module.data_segments@.take(s + 1).drop_last()
                    =~= self.module.data_segments@.take(s as int));
                assert(self.module.data_segments@.take(s + 1).last()
                    == self.module.data_segments@[s as int]);
                assert(self.code_section.0@ =~= self.code_section.0@.take(emitted.len() as int)
                    + self.code_section.0@.skip(emitted.len() as int));
                assert(self.code_section.0@ =~= old(self).code_section.0@ + lower_segments(
                    self.module.data_segments@.take(s + 1),
                ).unwrap());
            }
            s = s + 1;
        }
        proof {
            assert(self.module.data_segments@.take(total as int) =~= self.module.data_segments@);
        }
        Ok(())
    }

    /// Lowers one call site: host calls resolve to `CallHost`, internal
    /// calls emit a placeholder remembered in the call mapping.
    fn translate_call(&mut self, tail: bool, fn_index: u32) -> (r: WazmResult<()>)
        ensures
            final(self).module == old(self).module,
            final(self).linker == old(self).linker,
            final(self).function_mapping == old(self).function_mapping,
            r is Ok <==> lower_call(&old(self).module, fn_index, tail) is Some,
            r is Ok ==> final(self).code_section.0@ =~= old(self).code_section.0@ + lower_call(
                &old(self).module,
                fn_index,
                tail,
            ).unwrap(),
            r is Ok ==> (fn_index < old(self).module.imported_funcs@.len() ==> final(self).call_mapping == old(self).call_mapping),
            r is Ok ==> (fn_index >= old(self).module.imported_funcs@.len() ==> final(self).call_mapping@ =~= old(self).call_mapping@.push(
                (old(self).code_section.0@.len() as usize, fn_index),
            )),
            r is Err ==> *final(self) == *old(self) && r->Err_0 is NotSupportedImport,
            mappings_wf(old(self)) ==> mappings_wf(final(self)),
            old(self).call_mapping@.is_prefix_of(final(self).call_mapping@),
    {
        let import_len = self.module.imported_funcs.len();
        if (fn_index as usize) < import_len {
            let idx = {
                let entry = &self.module.imported_funcs[fn_index as usize];
                match resolve_host_call(entry.module.as_str(), entry.field.as_str()) {
                    Ok(idx) => idx,
                    Err(e) => {
                        return Err(e);
                    },
                }
            };
            self.code_section.0.push(OpCode::CallHost(idx));
            Ok(())
        } else {
            let pos = self.code_section.0.len();
            if tail {
                self.code_section.0.push(
                    OpCode::Br(
                        BranchParams {
                            offset: JumpDest(0),
                            drop_keep: DropKeep { drop: 0, keep: 0 },
                        },
                    ),
                );
            } else {
                self.code_section.0.push(OpCode::Call(Index(0)));
            }
            self.call_mapping.push((pos, fn_index));
            Ok(())
        }
    }

    /// Lowers one control-flow instruction, inverse guards and drop-keep
    /// micro-sequences included.
    fn translate_control_flow(&mut self, instr: &WasmInstruction) -> (r: WazmResult<()>)
        requires
            !(instr is Plain),
        ensures
            final(self).module == old(self).module,
            final(self).linker == old(self).linker,
            final(self).function_mapping == old(self).function_mapping,
            r is Ok <==> lower_instr(&old(self).module, *instr) is Some,
            r is Ok ==> final(self).code_section.0@ =~= old(self).code_section.0@ + lower_instr(
                &old(self).module,
                *instr,
            ).unwrap(),
            r is Err ==> (r->Err_0 is TranslationError || r->Err_0 is NotSupportedImport),
            mappings_wf(old(self)) ==> mappings_wf(final(self)),
            old(self).call_mapping@.is_prefix_of(final(self).call_mapping@),
    {
        match *instr {
            WasmInstruction::Br(bp) => {
                translate_drop_keep(&mut self.code_section, bp.drop_keep)?;
                self.code_section.0.push(
                    OpCode::Br(
                        BranchParams {
                            offset: bp.offset,
                            drop_keep: DropKeep { drop: 0, keep: 0 },
                        },
                    ),
                );
                Ok(())
            },
            WasmInstruction::BrIfEqz(bp) => {
                let guard = self.guard_offset(bp.drop_keep)?;
                self.code_section.0.push(
                    OpCode::BrIfNez(
                        BranchParams {
                            offset: JumpDest(guard),
                            drop_keep: DropKeep { drop: 0, keep: 0 },
                        },
                    ),
                );
                translate_drop_keep(&mut self.code_section, bp.drop_keep)?;
                self.code_section.0.push(
                    OpCode::Br(
                        BranchParams {
                            offset: bp.offset,
                            drop_keep: DropKeep { drop: 0, keep: 0 },
                        },
                    ),
                );
                Ok(())
            },
            WasmInstruction::BrIfNez(bp) => {
                let guard = self.guard_offset(bp.drop_keep)?;
                self.code_section.0.push(
                    OpCode::BrIfEqz(
                        BranchParams {
                            offset: JumpDest(guard),
                            drop_keep: DropKeep { drop: 0, keep: 0 },
                        },
                    ),
                );
                translate_drop_keep(&mut self.code_section, bp.drop_keep)?;
                self.code_section.0.push(
                    OpCode::Br(
                        BranchParams {
                            offset: bp.offset,
                            drop_keep: DropKeep { drop: 0, keep: 0 },
                        },
                    ),
                );
                Ok(())
            },
            WasmInstruction::BrTable { len_targets } => {
                self.code_section.0.push(OpCode::BrTable(Index(len_targets)));
                Ok(())
            },
            WasmInstruction::Return(dk) => {
                translate_drop_keep(&mut self.code_section, dk)?;
                self.code_section.0.push(OpCode::Return(DropKeep { drop: 0, keep: 0 }));
                Ok(())
            },
            WasmInstruction::ReturnIfNez(dk) => {
                let guard = self.guard_offset(dk)?;
                self.code_section.0.push(
                    OpCode::BrIfEqz(
                        BranchParams {
                            offset: JumpDest(guard),
                            drop_keep: DropKeep { drop: 0, keep: 0 },
                        },
                    ),
                );
                translate_drop_keep(&mut self.code_section, dk)?;
                self.code_section.0.push(OpCode::Return(DropKeep { drop: 0, keep: 0 }));
                Ok(())
            },
            WasmInstruction::ReturnCall { func, drop_keep } => {
                translate_drop_keep(&mut self.code_section, drop_keep)?;
                self.translate_call(true, func)
            },
            WasmInstruction::ReturnCallIndirect { table, func_type, drop_keep } => {
                if drop_keep.keep >= u32::MAX {
                    return Err(WazmError::TranslationError);
                }
                let widened = DropKeep { drop: drop_keep.drop, keep: drop_keep.keep + 1 };
                translate_drop_keep(&mut self.code_section, widened)?;
                self.code_section.0.push(
                    OpCode::ReturnCallIndirect {
                        table: Index(table),
                        func_type: Index(func_type),
                        drop_keep: DropKeep { drop: 0, keep: 0 },
                    },
                );
                Ok(())
            },
            WasmInstruction::Call(func) => self.translate_call(false, func),
            WasmInstruction::CallIndirect { table, func_type } => {
                self.code_section.0.push(
                    OpCode::CallIndirect { table: Index(table), func_type: Index(func_type) },
                );
                Ok(())
            },
            WasmInstruction::Plain(op) => {
                proof {
                    assert(false);
                }
                Ok(())
            },
        }
    }

    /// The inverse-guard offset that jumps over a drop-keep micro-sequence
    /// and the branch that follows it.
    fn guard_offset(&mut self, dk: DropKeep) -> (r: Result<i32, WazmError>)
        ensures
            *final(self) == *old(self),
            r is Ok <==> dk_ok(dk) && fits_i32(1 + drop_keep_lowering(dk).len() as int),
            r is Ok ==> r->Ok_0 == 1 + drop_keep_lowering(dk).len() as int,
            r is Err ==> r->Err_0 is TranslationError,
    {
        proof {
            lemma_drop_keep_lowering_len(dk);
        }
        let dk_len: u64 = if dk.drop == 0 {
            0
        } else if dk.keep == 0 {
            dk.drop as u64
        } else {
            if dk.drop > u32::MAX - dk.keep {
                return Err(WazmError::TranslationError);
            }
            2 * (dk.keep as u64) + dk.drop as u64
        };
        if 1 + dk_len > 0x7FFF_FFFFu64 {
            return Err(WazmError::TranslationError);
        }
        Ok((1 + dk_len) as i32)
    }

    /// Lowers one parser-level instruction: control flow through the
    /// control-flow path, everything else re-emitted as its core opcode.
    fn translate_opcode(&mut self, instr: &WasmInstruction) -> (r: WazmResult<()>)
        ensures
            final(self).module == old(self).module,
            final(self).linker == old(self).linker,
            final(self).function_mapping == old(self).function_mapping,
            r is Ok <==> lower_instr(&old(self).module, *instr) is Some,
            r is Ok ==> final(self).code_section.0@ =~= old(self).code_section.0@ + lower_instr(
                &old(self).module,
                *instr,
            ).unwrap(),
            r is Err ==> (r->Err_0 is TranslationError || r->Err_0 is NotSupportedImport),
            mappings_wf(old(self)) ==> mappings_wf(final(self)),
            old(self).call_mapping@.is_prefix_of(final(self).call_mapping@),
    {
        match *instr {
            WasmInstruction::Plain(op) => {
                self.code_section.0.push(op);
                Ok(())
            },
            _ => self.translate_control_flow(instr),
        }
    }

    /// Translates one function: records where it starts and lowers its body
    /// instruction by instruction. An imported function is skipped; it
    /// cannot be translated.
    fn translate_function(&mut self, fn_index: u32) -> (r: WazmResult<()>)
        ensures
            final(self).module == old(self).module,
            final(self).linker == old(self).linker,
            r is Ok <==> lower_function(&old(self).module, fn_index as int) is Some,
            r is Ok ==> final(self).code_section.0@ =~= old(self).code_section.0@ + lower_function(
                &old(self).module,
                fn_index as int,
            ).unwrap(),
            r is Ok ==> (fn_index < old(self).module.imported_funcs@.len() ==> final(self).function_mapping == old(self).function_mapping),
            r is Ok ==> (fn_index >= old(self).module.imported_funcs@.len() ==> final(self).function_mapping@ =~= old(self).function_mapping@.push(
                (fn_index, old(self).code_section.0@.len() as usize),
            )),
            r is Err ==> final(self).function_mapping == old(self).function_mapping,
            r is Err ==> (r->Err_0 is TranslationError || r->Err_0 is NotSupportedImport
                || r->Err_0 is MissingFunction),
            mappings_wf(old(self)) ==> mappings_wf(final(self)),
            old(self).call_mapping@.is_prefix_of(final(self).call_mapping@),
    {
        let import_len = self.module.imported_funcs.len();
        if (fn_index as usize) < import_len {
            proof {
                assert(old(self).code_section.0@ + Seq::<OpCode>::empty()
                    =~= old(self).code_section.0@);
            }
            return Ok(());
        }
        let bi = fn_index as usize - import_len;
        if bi >= self.module.func_bodies.len() {
            return Err(WazmError::MissingFunction);
        }
        let beginning_offset = self.code_section.0.len();
        let n = self.module.func_bodies[bi].len();
        let ghost body = self.module.func_bodies@[bi as int]@;
        let mut k: usize = 0;
        proof {
            assert(body.take(0) =~= Seq::<WasmInstruction>::empty());
        }
        while k < n
            invariant
                k <= n,
                self.module == old(self).module,
                self.linker == old(self).linker,
                self.function_mapping == old(self).function_mapping,
                0 <= bi < self.module.func_bodies@.len(),
                fn_index as int >= self.module.imported_funcs@.len(),
                bi == fn_index as int - self.module.imported_funcs@.len(),
                body == self.module.func_bodies@[bi as int]@,
                n == body.len(),
                lower_body(&self.module, body.take(k as int)) is Some,
                self.code_section.0@ =~= old(self).code_section.0@ + lower_body(
                    &self.module,
                    body.take(k as int),
                ).unwrap(),
                mappings_wf(old(self)) ==> mappings_wf(self),
                old(self).call_mapping@.is_prefix_of(self.call_mapping@),
            decreases n - k,
        {
            let instr = self.module.func_bodies[bi][k];
            match self.translate_opcode(&instr) {
                Ok(()) => {},
                Err(e) => {
                    proof {
                        lemma_lower_body_bad(&self.module, body, k as int);
                        assert(lower_body(&self.module, body) is None);
                        assert(fn_index as int >= old(self).module.imported_funcs@.len());
                        assert(fn_index as int - old(self).module.imported_funcs@.len()
                            < old(self).module.func_bodies@.len());
                        assert(old(self).module.func_bodies@[fn_index as int - old(
                            self,
                        ).module.imported_funcs@.len()]@ == body);
                        assert(lower_function(&old(self).module, fn_index as int) is None);
                    }
                    return Err(e);
                },
            }
            proof {
                assert(body.take(k + 1).drop_last() =~= body.take(k as int));
                assert(body.take(k + 1).last() == body[k as int]);
            }
            k = k + 1;
        }
        proof {
            assert(body.take(n as int) =~= body);
        }
        self.function_mapping.push((fn_index, beginning_offset));
        Ok(())
    }

    /// Translates the whole module: global initializers, data-segment
    /// initializers, the `main` entrypoint, then every other function in
    /// index order. A module without a `main` function export fails.
    pub fn translate(&mut self) -> (r: WazmResult<()>)
        requires
            old(self).code_section.0@.len() == 0,
            old(self).function_mapping@.len() == 0,
            old(self).call_mapping@.len() == 0,
        ensures
            final(self).module == old(self).module,
            final(self).linker == old(self).linker,
            r is Ok <==> spec_translate(&old(self).module) is Some,
            r is Ok ==> final(self).code_section.0@ =~= spec_translate(&old(self).module).unwrap(),
            r is Ok ==> mappings_wf(final(self)),
            r is Ok ==> ({
                let mainf = spec_find_export(old(self).module.exports@, "main"@).unwrap()->Func_0;
                forall|f: u32|
                    old(self).module.imported_funcs@.len() <= f < old(self).module.spec_num_funcs()
                        ==> (#[trigger] assoc_last(final(self).function_mapping@, f) matches Some(
                        p,
                    ) && p == spec_function_start(&old(self).module, mainf as int, f as int))
            }),
            lower_globals(old(self).module.globals_init@) is None ==> r is Err
                && r->Err_0 is InternalError,
            lower_globals(old(self).module.globals_init@) is Some && lower_segments(
                old(self).module.data_segments@,
            ) is None ==> r is Err && (r->Err_0 is NotSupportedMemory
                || r->Err_0 is MemoryOverflow),
            lower_globals(old(self).module.globals_init@) is Some && lower_segments(
                old(self).module.data_segments@,
            ) is Some && spec_find_export(old(self).module.exports@, "main"@) is None ==> r
                == Err::<(), WazmError>(WazmError::MissingEntrypoint),
            lower_globals(old(self).module.globals_init@) is Some && lower_segments(
                old(self).module.data_segments@,
            ) is Some && (spec_find_export(old(self).module.exports@, "main"@) matches Some(idx)
                && !(idx is Func)) ==> r is Err && r->Err_0 is InternalError,
    {
        self.translate_globals()?;
        self.translate_memory()?;
        let ghost m = self.module;
        let main_idx = match find_export_index(&self.module.exports, "main") {
            None => {
                return Err(WazmError::MissingEntrypoint);
            },
            Some(ExternIdx::Func(i)) => i,
            Some(_) => {
                return Err(WazmError::InternalError("unresolved function index"));
            },
        };
        let import_len = self.module.imported_funcs.len();
        if import_len > u32::MAX as usize || self.module.func_bodies.len() > (
        u32::MAX as usize) - import_len {
            return Err(WazmError::InternalError("too many functions"));
        }
        let total = import_len + self.module.func_bodies.len();
        let prelude_len = self.code_section.0.len();
        let ghost prelude = self.code_section.0@;
        self.translate_function(main_idx)?;
        let ghost fmain = lower_function(&m, main_idx as int).unwrap();
        let mut i: usize = 0;
        proof {
            assert(lower_rest(&m, main_idx as int, 0) == Some(Seq::<OpCode>::empty()));
            assert(self.code_section.0@ =~= prelude + fmain + lower_rest(
                &m,
                main_idx as int,
                0,
            ).unwrap());
            if main_idx >= import_len as u32 {
                assert(prelude.len() == prelude_len);
                assert(self.function_mapping@ =~= Seq::<(u32, usize)>::empty().push(
                    (main_idx, prelude_len),
                ));
                lemma_assoc_push(
                    Seq::<(u32, usize)>::empty(),
                    main_idx,
                    prelude_len,
                    main_idx,
                );
                assert forall|f: u32| f != main_idx implies assoc_last(
                    self.function_mapping@,
                    f,
                ) is None by {
                    lemma_assoc_push(Seq::<(u32, usize)>::empty(), main_idx, prelude_len, f);
                }
            }
        }
        while i < total
            invariant
                i <= total,
                self.module == old(self).module,
                m == old(self).module,
                self.linker == old(self).linker,
                import_len == m.imported_funcs@.len(),
                total == m.spec_num_funcs(),
                total <= u32::MAX,
                prelude.len() == lower_globals(m.globals_init@).unwrap().len() + lower_segments(
                    m.data_segments@,
                ).unwrap().len(),
                lower_globals(m.globals_init@) is Some,
                lower_segments(m.data_segments@) is Some,
                main_idx < total || lower_function(&m, main_idx as int) is Some,
                fmain == lower_function(&m, main_idx as int).unwrap(),
                lower_function(&m, main_idx as int) is Some,
                lower_rest(&m, main_idx as int, i as int) is Some,
                forall|f: int|
                    0 <= f <= i ==> #[trigger] lower_rest(&m, main_idx as int, f) is Some,
                self.code_section.0@ =~= prelude + fmain + lower_rest(
                    &m,
                    main_idx as int,
                    i as int,
                ).unwrap(),
                mappings_wf(self),
                prelude_len == prelude.len(),
                main_idx >= import_len ==> assoc_last(self.function_mapping@, main_idx) == Some(
                    prelude_len,
                ),
                spec_find_export(m.exports@, "main"@) == Some(ExternIdx::Func(main_idx)),
                main_idx < import_len ==> assoc_last(self.function_mapping@, main_idx) is None,
                forall|f: u32|
                    f != main_idx && import_len <= f < i ==> (#[trigger] assoc_last(
                        self.function_mapping@,
                        f,
                    ) matches Some(p) && p == prelude.len() + fmain.len() + lower_rest(
                        &m,
                        main_idx as int,
                        f as int,
                    ).unwrap().len()),
                forall|f: u32|
                    #![auto]
                    f != main_idx && i <= f ==> assoc_last(self.function_mapping@, f) is None,
                forall|f: u32|
                    #![auto]
                    f != main_idx && f < import_len ==> assoc_last(
                        self.function_mapping@,
                        f,
                    ) is None,
            decreases total - i,
        {
            let ghost fm_before = self.function_mapping@;
            let ghost rest_before = lower_rest(&m, main_idx as int, i as int).unwrap();
            if (i as u32) != main_idx {
                let start = self.code_section.0.len();
                match self.translate_function(i as u32) {
                    Ok(()) => {},
                    Err(e) => {
                        proof {
                            lemma_lower_rest_bad(&m, main_idx as int, i as int, total as int);
                        }
                        return Err(e);
                    },
                }
                proof {
                    if i >= import_len {
                        assert(self.function_mapping@ =~= fm_before.push((i as u32, start)));
                        assert forall|f: u32| true implies assoc_last(self.function_mapping@, f)
                            == (if f == i as u32 {
                            Some(start)
                        } else {
                            assoc_last(fm_before, f)
                        }) by {
                            lemma_assoc_push(fm_before, i as u32, start, f);
                        }
                    }
                }
            }
            proof {
                assert(lower_rest(&m, main_idx as int, i + 1) is Some);
                assert(lower_rest(&m, main_idx as int, i + 1).unwrap() =~= rest_before + (
                if i as int == main_idx as int {
                    Seq::<OpCode>::empty()
                } else {
                    lower_function(&m, i as int).unwrap()
                }));
                if i as u32 == main_idx {
                    assert(self.code_section.0@ =~= prelude + fmain + lower_rest(
                        &m,
                        main_idx as int,
                        i + 1,
                    ).unwrap());
                }
            }
            i = i + 1;
        }
        proof {
            assert(self.code_section.0@ =~= spec_translate(&m).unwrap());
            assert forall|f: u32|
                m.imported_funcs@.len() <= f < m.spec_num_funcs() implies (#[trigger] assoc_last(
                self.function_mapping@,
                f,
            ) matches Some(p) && p == spec_function_start(&m, main_idx as int, f as int)) by {
                if f == main_idx {
                    assert(spec_function_start(&m, main_idx as int, f as int) == prelude.len());
                }
            }
        }
        Ok(())
    }

    /// Encodes the code section and relocates every remembered jump: the
    /// target opcode position of each call placeholder and each branch is
    /// resolved, its byte offset in the emitted binary computed, and the
    /// opcode re-encoded with that byte offset — fixed-width operands
    /// guarantee the re-encoding never changes any size. The result is the
    /// flat binary.
    pub fn finalize(&mut self) -> (r: WazmResult<Vec<u8>>)
        ensures
            *final(self) == *old(self),
            r is Ok <==> finalized_code(
                old(self).code_section.0@,
                old(self).call_mapping@,
                old(self).function_mapping@,
            ) is Some,
            r is Ok ==> r->Ok_0@ =~= crate::codec::encode_iseq(
                finalized_code(
                    old(self).code_section.0@,
                    old(self).call_mapping@,
                    old(self).function_mapping@,
                ).unwrap(),
            ),
            r is Err ==> ({
                let code = old(self).code_section.0@;
                let cm = old(self).call_mapping@;
                let fm = old(self).function_mapping@;
                exists|i: int|
                    0 <= i < code.len() && #[trigger] finalized_opcode(code, cm, fm, i) is None
                        && (forall|k: int|
                        0 <= k < i ==> finalized_opcode(code, cm, fm, k) is Some)
                        && finalize_error_at(code, cm, fm, i, r->Err_0)
            }),
    {
        let ghost code = self.code_section.0@;
        let ghost cm = self.call_mapping@;
        let ghost fm = self.function_mapping@;
        let n = self.code_section.0.len();

        // first pass: encode every opcode once to learn its byte offset
        let mut offsets: Vec<usize> = Vec::new();
        let mut all0: Vec<u8> = Vec::new();
        let mut k: usize = 0;
        while k < n
            invariant
                k <= n,
                n == code.len(),
                self.code_section.0@ == code,
                offsets@.len() == k,
                forall|j: int| 0 <= j < k ==> #[trigger] offsets@[j] == byte_offset_of(code, j),
                all0@.len() == byte_offset_of(code, k as int),
            decreases n - k,
        {
            offsets.push(all0.len());
            let part = encode_opcode_to_vec(&self.code_section.0[k]);
            append_bytes(&mut all0, &part);
            k = k + 1;
        }

        // second pass: emit each opcode, rewriting every remembered jump to
        // the byte offset of its target
        let mut out: Vec<u8> = Vec::new();
        let ghost mut fin: Seq<OpCode> = Seq::empty();
        let mut i: usize = 0;
        proof {
            assert(crate::codec::encode_iseq(fin) =~= Seq::<u8>::empty());
        }
        while i < n
            invariant
                i <= n,
                n == code.len(),
                self.code_section.0@ == code,
                self.call_mapping@ == cm,
                self.function_mapping@ == fm,
                offsets@.len() == n,
                forall|j: int| 0 <= j < n ==> #[trigger] offsets@[j] == byte_offset_of(code, j),
                fin.len() == i,
                forall|j: int|
                    0 <= j < i ==> #[trigger] finalized_opcode(code, cm, fm, j) == Some(fin[j]),
                out@ =~= crate::codec::encode_iseq(fin),
            decreases n - i,
        {
            let op = self.code_section.0[i];
            let target: Option<usize> = match assoc_get_call(&self.call_mapping, i) {
                Some(f) => match assoc_get_fn(&self.function_mapping, f) {
                    Some(t) => Some(t),
                    None => {
                        proof {
                            assert(finalized_opcode(code, cm, fm, i as int) is None);
                            assert(finalize_error_at(
                                code,
                                cm,
                                fm,
                                i as int,
                                WazmError::MissingFunction,
                            ));
                        }
                        return Err(WazmError::MissingFunction);
                    },
                },
                None => match op.get_jump_offset() {
                    Some(jd) => {
                        if jd.0 >= 0 {
                            let d = jd.0 as usize;
                            if d >= n - i {
                                proof {
                                    assert(finalized_opcode(code, cm, fm, i as int) is None);
                                    assert(finalize_error_at(
                                        code,
                                        cm,
                                        fm,
                                        i as int,
                                        WazmError::OutOfBuffer,
                                    ));
                                }
                                return Err(WazmError::OutOfBuffer);
                            }
                            Some(i + d)
                        } else {
                            let mag = (-(jd.0 + 1)) as usize + 1;
                            if mag > i {
                                proof {
                                    assert(finalized_opcode(code, cm, fm, i as int) is None);
                                    assert(finalize_error_at(
                                        code,
                                        cm,
                                        fm,
                                        i as int,
                                        WazmError::OutOfBuffer,
                                    ));
                                }
                                return Err(WazmError::OutOfBuffer);
                            }
                            Some(i - mag)
                        }
                    },
                    None => None,
                },
            };
            let new_op = match target {
                None => op,
                Some(t) => {
                    if t >= n {
                        proof {
                            assert(finalized_opcode(code, cm, fm, i as int) is None);
                            assert(finalize_error_at(
                                code,
                                cm,
                                fm,
                                i as int,
                                WazmError::OutOfBuffer,
                            ));
                        }
                        return Err(WazmError::OutOfBuffer);
                    }
                    let b = offsets[t];
                    match op {
                        OpCode::Br(_) | OpCode::BrIfEqz(_) | OpCode::BrIfNez(_) => {
                            if b > 0x7FFF_FFFFusize {
                                proof {
                                    assert(finalized_opcode(code, cm, fm, i as int) is None);
                                    assert(finalize_error_at(
                                        code,
                                        cm,
                                        fm,
                                        i as int,
                                        WazmError::ImpossibleJump,
                                    ));
                                }
                                return Err(WazmError::ImpossibleJump);
                            }
                            op.rewrite_jump_offset(JumpDest(b as i32))
                        },
                        OpCode::Call(_) => {
                            if b > 0xFFFF_FFFFusize {
                                proof {
                                    assert(finalized_opcode(code, cm, fm, i as int) is None);
                                    assert(finalize_error_at(
                                        code,
                                        cm,
                                        fm,
                                        i as int,
                                        WazmError::ImpossibleJump,
                                    ));
                                }
                                return Err(WazmError::ImpossibleJump);
                            }
                            OpCode::Call(Index(b as u32))
                        },
                        _ => {
                            proof {
                                assert(finalized_opcode(code, cm, fm, i as int) is None);
                                assert(finalize_error_at(
                                    code,
                                    cm,
                                    fm,
                                    i as int,
                                    WazmError::InternalError("relocation of a non-jump opcode"),
                                ));
                            }
                            return Err(
                                WazmError::InternalError("relocation of a non-jump opcode"),
                            );
                        },
                    }
                },
            };
            proof {
                assert(finalized_opcode(code, cm, fm, i as int) == Some(new_op));
            }
            let part = encode_opcode_to_vec(&new_op);
            append_bytes(&mut out, &part);
            proof {
                crate::codec::lemma_encode_iseq_push(fin, new_op);
                fin = fin.push(new_op);
            }
            i = i + 1;
        }
        proof {
            assert(finalized_code(code, cm, fm) is Some);
            assert(fin =~= finalized_code(code, cm, fm).unwrap());
        }
        Ok(out)
    }

    /// Translates the whole module without looking for an entrypoint: global
    /// and data-segment initializers, then every function in index order.
    pub fn translate_wo_entrypoint(&mut self) -> (r: WazmResult<()>)
        requires
            old(self).code_section.0@.len() == 0,
            old(self).function_mapping@.len() == 0,
            old(self).call_mapping@.len() == 0,
        ensures
            final(self).module == old(self).module,
            final(self).linker == old(self).linker,
            r is Ok <==> spec_translate_wo_entrypoint(&old(self).module) is Some,
            r is Ok ==> final(self).code_section.0@ =~= spec_translate_wo_entrypoint(
                &old(self).module,
            ).unwrap(),
            r is Ok ==> mappings_wf(final(self)),
    {
        self.translate_globals()?;
        self.translate_memory()?;
        let ghost m = self.module;
        let import_len = self.module.imported_funcs.len();
        if import_len > u32::MAX as usize || self.module.func_bodies.len() > (
        u32::MAX as usize) - import_len {
            return Err(WazmError::InternalError("too many functions"));
        }
        let total = import_len + self.module.func_bodies.len();
        let ghost prelude = self.code_section.0@;
        let mut i: usize = 0;
        proof {
            assert(lower_rest(&m, -1, 0) == Some(Seq::<OpCode>::empty()));
            assert(self.code_section.0@ =~= prelude + lower_rest(&m, -1, 0).unwrap());
        }
        while i < total
            invariant
                i <= total,
                self.module == old(self).module,
                m == old(self).module,
                self.linker == old(self).linker,
                import_len == m.imported_funcs@.len(),
                total == m.spec_num_funcs(),
                total <= u32::MAX,
                lower_globals(m.globals_init@) is Some,
                lower_segments(m.data_segments@) is Some,
                lower_rest(&m, -1, i as int) is Some,
                self.code_section.0@ =~= prelude + lower_rest(&m, -1, i as int).unwrap(),
                mappings_wf(self),
            decreases total - i,
        {
            let ghost rest_before = lower_rest(&m, -1, i as int).unwrap();
            match self.translate_function(i as u32) {
                Ok(()) => {},
                Err(e) => {
                    proof {
                        lemma_lower_rest_bad(&m, -1, i as int, total as int);
                    }
                    return Err(e);
                },
            }
            proof {
                assert(lower_rest(&m, -1, i + 1) is Some);
                assert(lower_rest(&m, -1, i + 1).unwrap() =~= rest_before + lower_function(
                    &m,
                    i as int,
                ).unwrap());
            }
            i = i + 1;
        }
        Ok(())
    }

}

/// The whole translation without an entrypoint: global and data-segment
/// initializers, then every function in index order.
pub open spec fn spec_translate_wo_entrypoint(m: &ParsedModule) -> Option<Seq<OpCode>> {
    if m.spec_num_funcs() > u32::MAX {
        None
    } else {
        match (lower_globals(m.globals_init@), lower_segments(m.data_segments@)) {
            (Some(g), Some(d)) => match lower_rest(m, -1, m.spec_num_funcs()) {
                Some(rest) => Some(g + d + rest),
                None => None,
            },
            _ => None,
        }
    }
}

/// Finds the first export with the given name.
fn find_export_index(exports: &Vec<crate::parsed::Export>, name: &str) -> (r: Option<ExternIdx>)
    ensures
        r == spec_find_export(exports@, name@),
{
    let n = exports.len();
    let mut i: usize = 0;
    proof {
        assert(exports@.skip(0) =~= exports@);
    }
    while i < n
        invariant
            i <= n,
            n == exports@.len(),
            spec_find_export(exports@, name@) == spec_find_export(exports@.skip(i as int), name@),
        decreases n - i,
    {
        if str_eq(exports[i].name.as_str(), name) {
            proof {
                assert(exports@.skip(i as int)[0] == exports@[i as int]);
            }
            return Some(exports[i].idx);
        }
        proof {
            assert(exports@.skip(i as int)[0] == exports@[i as int]);
            assert(exports@.skip(i as int).skip(1) =~= exports@.skip(i + 1));
        }
        i = i + 1;
    }
    None
}

/// A function list with a function that cannot be lowered cannot be lowered.
proof fn lemma_lower_rest_bad(m: &ParsedModule, mainf: int, bad: int, upto: int)
    requires
        0 <= bad < upto,
        bad != mainf,
        lower_function(m, bad) is None,
    ensures
        lower_rest(m, mainf, upto) is None,
    decreases upto,
{
    if upto <= 0 {
    } else if bad == upto - 1 {
    } else {
        lemma_lower_rest_bad(m, mainf, bad, upto - 1);
    }
}

/// The byte offset at which opcode `j` begins inside the encoded code
/// section: the total encoded size of the opcodes before it.
pub open spec fn byte_offset_of(ops: Seq<OpCode>, j: int) -> int
    decreases j,
{
    if j <= 0 {
        0
    } else {
        byte_offset_of(ops, j - 1) + encode_op(ops[j - 1]).len()
    }
}

/// The relocation of one opcode at finalization. A position in the call
/// mapping targets its function's recorded start; any other branch targets
/// its own position plus its relative offset. The target's byte offset is
/// written into the opcode: into the offset of a branch, into the index of a
/// call placeholder. `None` when the target is unknown, outside the code
/// section, or too wide for the operand.
pub open spec fn finalized_opcode(
    code: Seq<OpCode>,
    cm: Seq<(usize, u32)>,
    fm: Seq<(u32, usize)>,
    i: int,
) -> Option<OpCode>
    recommends
        0 <= i < code.len(),
{
    let op = code[i];
    match assoc_last(cm, i as usize) {
        Some(f) => match assoc_last(fm, f) {
            Some(t) => finalize_rewrite(code, op, t as int),
            None => None,
        },
        None => if is_branch(op) {
            finalize_rewrite(code, op, i + spec_branch_params(op).offset.0 as int)
        } else {
            Some(op)
        },
    }
}

/// Which failure the relocation of position `i` reports: a remembered call
/// to an unrecorded function is missing-function; a target position outside
/// the code section out-of-buffer; a target byte offset too wide for the
/// opcode's operand impossible-jump; and a remembered call site that holds
/// neither a branch nor a call an internal error.
pub open spec fn finalize_error_at(
    code: Seq<OpCode>,
    cm: Seq<(usize, u32)>,
    fm: Seq<(u32, usize)>,
    i: int,
    e: WazmError,
) -> bool
    recommends
        0 <= i < code.len(),
{
    let op = code[i];
    match assoc_last(cm, i as usize) {
        Some(f) => match assoc_last(fm, f) {
            None => e is MissingFunction,
            Some(t) => if t >= code.len() {
                e is OutOfBuffer
            } else if is_branch(op) || op is Call {
                e is ImpossibleJump
            } else {
                e is InternalError
            },
        },
        None => if 0 <= i + spec_branch_params(op).offset.0 < code.len() {
            e is ImpossibleJump
        } else {
            e is OutOfBuffer
        },
    }
}

/// Writes the byte offset of target position `t` into `op`.
pub open spec fn finalize_rewrite(code: Seq<OpCode>, op: OpCode, t: int) -> Option<OpCode> {
    if !(0 <= t < code.len()) {
        None
    } else {
        let b = byte_offset_of(code, t);
        if is_branch(op) {
            if fits_i32(b) {
                Some(spec_rewrite_jump_offset(op, JumpDest(b as i32)))
            } else {
                None
            }
        } else {
            match op {
                OpCode::Call(_) => if b <= u32::MAX {
                    Some(OpCode::Call(Index(b as u32)))
                } else {
                    None
                },
                _ => None,
            }
        }
    }
}

/// The whole relocated code section, or `None` when any opcode cannot be
/// relocated.
pub open spec fn finalized_code(
    code: Seq<OpCode>,
    cm: Seq<(usize, u32)>,
    fm: Seq<(u32, usize)>,
) -> Option<Seq<OpCode>> {
    if forall|i: int| 0 <= i < code.len() ==> #[trigger] finalized_opcode(code, cm, fm, i) is Some {
        Some(Seq::new(code.len(), |i: int| finalized_opcode(code, cm, fm, i).unwrap()))
    } else {
        None
    }
}

/// Appends every byte of `src` to `dst`.
fn append_bytes(dst: &mut Vec<u8>, src: &Vec<u8>)
    ensures
        final(dst)@ =~= old(dst)@ + src@,
{
    let n = src.len();
    let mut i: usize = 0;
    while i < n
        invariant
            i <= n,
            n == src@.len(),
            dst@ =~= old(dst)@ + src@.take(i as int),
        decreases n - i,
    {
        dst.push(src[i]);
        i = i + 1;
        proof {
            assert(src@.take(i as int) =~= src@.take(i as int - 1).push(src@[i as int - 1]));
        }
    }
    proof {
        assert(src@.take(n as int) =~= src@);
    }
}

/// A body with an instruction that cannot be lowered cannot be lowered.
proof fn lemma_lower_body_bad(m: &ParsedModule, body: Seq<WasmInstruction>, bad: int)
    requires
        0 <= bad < body.len(),
        lower_instr(m, body[bad]) is None,
    ensures
        lower_body(m, body) is None,
    decreases body.len(),
{
    if body.len() == 0 {
    } else if bad == body.len() - 1 {
    } else {
        lemma_lower_body_bad(m, body.drop_last(), bad);
    }
}

/// Every segment of a lowerable list lowers.
proof fn lemma_lower_segments_all(segs: Seq<DataSegment>)
    requires
        lower_segments(segs) is Some,
    ensures
        forall|i: int| 0 <= i < segs.len() ==> #[trigger] lower_segment(&segs[i]) is Some,
    decreases segs.len(),
{
    if segs.len() > 0 {
        lemma_lower_segments_all(segs.drop_last());
        assert forall|i: int|
            0 <= i < segs.len() implies #[trigger] lower_segment(&segs[i]) is Some by {
            if i < segs.len() - 1 {
                assert(segs.drop_last()[i] == segs[i]);
            }
        }
    }
}

/// A segment list with a segment that cannot be lowered cannot be lowered.
proof fn lemma_lower_segments_bad(segs: Seq<DataSegment>, bad: int)
    requires
        0 <= bad < segs.len(),
        lower_segment(&segs[bad]) is None,
    ensures
        lower_segments(segs) is None,
    decreases segs.len(),
{
    if segs.len() == 0 {
    } else if bad == segs.len() - 1 {
    } else {
        lemma_lower_segments_bad(segs.drop_last(), bad);
    }
}

/// A global sequence with a non-constant initializer cannot be lowered.
proof fn lemma_lower_globals_prefix_none(gs: Seq<Option<UntypedValue>>, bad: int)
    requires
        0 <= bad < gs.len(),
        gs[bad] is None,
        gs.len() <= u32::MAX,
    ensures
        lower_globals(gs) is None,
    decreases gs.len(),
{
    if gs.len() == 0 {
    } else if bad == gs.len() - 1 {
    } else {
        lemma_lower_globals_prefix_none(gs.drop_last(), bad);
    }
}

/// The byte offset of a later opcode is the first opcode's size plus its
/// offset among the remaining opcodes.
proof fn lemma_byte_offset_skip(ops: Seq<OpCode>, i: int)
    requires
        1 <= i <= ops.len(),
    ensures
        byte_offset_of(ops, i) == encode_op(ops[0]).len() + byte_offset_of(ops.skip(1), i - 1),
    decreases i,
{
    if i == 1 {
        assert(byte_offset_of(ops, 1) == byte_offset_of(ops, 0) + encode_op(ops[0]).len());
        assert(byte_offset_of(ops.skip(1), 0) == 0);
    } else {
        lemma_byte_offset_skip(ops, i - 1);
        assert(ops.skip(1)[i - 2] == ops[i - 1]);
        assert(byte_offset_of(ops, i) == byte_offset_of(ops, i - 1) + encode_op(
            ops[i - 1],
        ).len());
        assert(byte_offset_of(ops.skip(1), i - 1) == byte_offset_of(ops.skip(1), i - 2)
            + encode_op(ops.skip(1)[i - 2]).len());
    }
}

/// Byte offsets of encodable opcodes are strictly increasing.
proof fn lemma_byte_offset_mono(ops: Seq<OpCode>, i: int, j: int)
    requires
        0 <= i < j <= ops.len(),
        forall|k: int| 0 <= k < ops.len() ==> encodable(#[trigger] ops[k]),
    ensures
        byte_offset_of(ops, i) < byte_offset_of(ops, j),
    decreases j - i,
{
    crate::codec::lemma_encode_op_len(ops[j - 1]);
    if i < j - 1 {
        lemma_byte_offset_mono(ops, i, j - 1);
    }
}

/// Two opcode sequences whose encodings agree in size pointwise have the
/// same byte offsets.
proof fn lemma_byte_offset_congruent(a: Seq<OpCode>, b: Seq<OpCode>, j: int)
    requires
        a.len() == b.len(),
        forall|k: int|
            0 <= k < a.len() ==> encode_op(#[trigger] a[k]).len() == encode_op(b[k]).len(),
        0 <= j <= a.len(),
    ensures
        byte_offset_of(a, j) == byte_offset_of(b, j),
    decreases j,
{
    if j > 0 {
        lemma_byte_offset_congruent(a, b, j - 1);
    }
}

/// Decoding the encoding of a sequence of encodable opcodes yields exactly
/// those opcodes, each at its computed byte offset.
#[verifier::rlimit(100)]
pub proof fn lemma_decode_entries_of_encode(ops: Seq<OpCode>, base: int)
    requires
        forall|k: int| 0 <= k < ops.len() ==> encodable(#[trigger] ops[k]),
    ensures
        decode_entries(crate::codec::encode_iseq(ops), base) matches Some(es) && es.len()
            == ops.len() && (forall|k: int|
            0 <= k < ops.len() ==> #[trigger] es[k] == (ops[k], base + byte_offset_of(ops, k))),
    decreases ops.len(),
{
    let s = crate::codec::encode_iseq(ops);
    if ops.len() == 0 {
        assert(decode_entries(s, base) == Some(Seq::<(OpCode, int)>::empty()));
    } else {
        let head = encode_op(ops[0]);
        let tail = crate::codec::encode_iseq(ops.skip(1));
        crate::codec::lemma_encode_op_len(ops[0]);
        crate::codec::lemma_codec_round_trip(ops[0], tail);
        lemma_decode_entries_of_encode(ops.skip(1), base + head.len());
        assert(s.skip(head.len() as int) =~= tail);
        let rest = decode_entries(tail, base + head.len()).unwrap();
        let es = decode_entries(s, base).unwrap();
        assert(es =~= seq![(ops[0], base)] + rest);
        assert forall|k: int| 0 <= k < ops.len() implies #[trigger] es[k] == (
            ops[k],
            base + byte_offset_of(ops, k),
        ) by {
            if k == 0 {
            } else {
                assert(rest[k - 1] == (ops.skip(1)[k - 1], base + head.len() + byte_offset_of(
                    ops.skip(1),
                    k - 1,
                )));
                assert(ops.skip(1)[k - 1] == ops[k]);
                lemma_byte_offset_skip(ops, k);
            }
        }
    }
}

/// Among entries with strictly increasing byte offsets, looking an entry's
/// own byte offset up finds exactly that entry.
proof fn lemma_find_entry_offset(es: Seq<(OpCode, int)>, t: int)
    requires
        0 <= t < es.len(),
        forall|i: int, j: int| 0 <= i < j < es.len() ==> es[i].1 < es[j].1,
    ensures
        crate::module::find_position(es, es[t].1) == Some(t),
{
    crate::module::lemma_find_position_props(es, es[t].1);
    let fp = crate::module::find_position(es, es[t].1);
    if fp is None {
        assert(es[t].1 != es[t].1);
    }
    let j = fp.unwrap();
    if j < t {
        assert(es[j].1 < es[t].1);
    }
    if j > t {
        assert(es[t].1 != es[t].1);
    }
}

/// What the loader makes of position `i` of a finalized binary, stated over
/// the compiler's own data: a branch keeps its original relative offset — a
/// call-mapped one gets its function's start relative to the call site — and
/// a call placeholder becomes a `Call` of the relative delta's bit pattern.
pub open spec fn reloaded_opcode(
    code: Seq<OpCode>,
    cm: Seq<(usize, u32)>,
    fm: Seq<(u32, usize)>,
    i: int,
) -> OpCode
    recommends
        0 <= i < code.len(),
{
    let op = code[i];
    match assoc_last(cm, i as usize) {
        Some(f) => {
            let t = assoc_last(fm, f).unwrap() as int;
            if is_branch(op) {
                spec_rewrite_jump_offset(op, JumpDest((t - i) as i32))
            } else {
                OpCode::Call(Index(crate::value::spec_i32_bits((t - i) as i32)))
            }
        },
        None => op,
    }
}

/// Relocation consistency, end to end: decoding a finalized binary succeeds,
/// finds every opcode at the byte offset the compiler gave it, and re-
/// expressing every jump as a relative opcode position restores each
/// branch's original offset and points each call placeholder at its
/// function's start. Every encoded jump target is the first byte of an
/// opcode of the binary.
#[verifier::rlimit(100)]
pub proof fn lemma_compile_load_round_trip(
    code: Seq<OpCode>,
    cm: Seq<(usize, u32)>,
    fm: Seq<(u32, usize)>,
)
    requires
        finalized_code(code, cm, fm) is Some,
        forall|k: int| 0 <= k < code.len() ==> encodable(#[trigger] code[k]),
        forall|k: int|
            0 <= k < code.len() ==> (#[trigger] code[k] is Call ==> assoc_last(
                cm,
                k as usize,
            ) is Some),
        code.len() <= 0x7FFF_FFFF,
    ensures
        ({
            let fc = finalized_code(code, cm, fm).unwrap();
            let bin = crate::codec::encode_iseq(fc);
            &&& decode_entries(bin, 0) matches Some(es) && es.len() == code.len() && (forall|
                i: int,
            |
                0 <= i < code.len() ==> #[trigger] es[i] == (fc[i], byte_offset_of(fc, i))) && (
            forall|i: int|
                0 <= i < code.len() ==> #[trigger] crate::module::loaded_opcode(es, i) == Some(
                    reloaded_opcode(code, cm, fm, i),
                ))
        }),
{
    let fc = finalized_code(code, cm, fm).unwrap();
    assert(fc.len() == code.len());

    // the finalized opcodes stay encodable and keep their original sizes
    assert forall|k: int| 0 <= k < fc.len() implies encodable(#[trigger] fc[k]) && encode_op(
        fc[k],
    ).len() == encode_op(code[k]).len() by {
        assert(finalized_opcode(code, cm, fm, k) == Some(fc[k]));
    }
    lemma_byte_offset_congruent(fc, code, code.len() as int);
    assert forall|j: int| 0 <= j <= code.len() implies #[trigger] byte_offset_of(fc, j)
        == byte_offset_of(code, j) by {
        lemma_byte_offset_congruent(fc, code, j);
    }

    lemma_decode_entries_of_encode(fc, 0);
    let es = decode_entries(crate::codec::encode_iseq(fc), 0).unwrap();
    assert forall|i: int, j: int| 0 <= i < j < es.len() implies es[i].1 < es[j].1 by {
        lemma_byte_offset_mono(fc, i, j);
    }

    assert forall|i: int| 0 <= i < code.len() implies #[trigger] crate::module::loaded_opcode(
        es,
        i,
    ) == Some(reloaded_opcode(code, cm, fm, i)) by {
        assert(finalized_opcode(code, cm, fm, i) == Some(fc[i]));
        match assoc_last(cm, i as usize) {
            Some(f) => {
                let t = assoc_last(fm, f).unwrap() as int;
                assert(0 <= t < code.len());
                let b = byte_offset_of(code, t);
                assert(es[t].1 == b);
                if is_branch(code[i]) {
                    assert(fc[i] == spec_rewrite_jump_offset(code[i], JumpDest(b as i32)));
                    assert(is_branch(fc[i]));
                    assert(spec_branch_params(fc[i]).offset.0 == b as i32);
                    lemma_find_entry_offset(es, t);
                    assert(crate::module::find_position(es, b) == Some(t));
                    assert(fits_i32(t - i));
                    assert(spec_rewrite_jump_offset(fc[i], JumpDest((t - i) as i32))
                        == spec_rewrite_jump_offset(code[i], JumpDest((t - i) as i32)));
                } else {
                    assert(code[i] is Call);
                    assert(fc[i] == OpCode::Call(Index(b as u32)));
                    assert((Index(b as u32)).0 as int == b);
                    lemma_find_entry_offset(es, t);
                    assert(crate::module::find_position(es, b) == Some(t));
                    assert(fits_i32(t - i));
                }
            },
            None => {
                if is_branch(code[i]) {
                    let d = spec_branch_params(code[i]).offset.0 as int;
                    let t = i + d;
                    assert(0 <= t < code.len());
                    let b = byte_offset_of(code, t);
                    assert(fc[i] == spec_rewrite_jump_offset(code[i], JumpDest(b as i32)));
                    assert(es[t].1 == b);
                    lemma_find_entry_offset(es, t);
                    assert(fits_i32(t - i));
                    assert(spec_rewrite_jump_offset(fc[i], JumpDest((t - i) as i32)) == code[i]);
                } else {
                    assert(fc[i] == code[i]);
                    assert(!(code[i] is Call));
                    assert(crate::module::loaded_opcode(es, i) == Some(code[i]));
                }
            },
        }
    }
}

} // verus!
