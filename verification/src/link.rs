//! The linking of compiled functions into one text section.
use crate::compile::{
    CompileKey, CompileOutput, CompiledFunctionInfo, FunctionLoc, Relocation, RelocationTarget,
    TrapInfo,
};
use crate::indices::DefinedFuncIndex;
use crate::ir::TrapCode;
use crate::text_section::{Fixup, TextSection, TextTarget, MAX_TEXT_SIZE};
use crate::translate::TranslatedModule;
use std::collections::BTreeMap;
use vstd::prelude::*;

verus! {

broadcast use vstd::std_specs::btree::group_btree_axioms;

/// The positions of outputs by the number of their key; the last output with a key counts.
pub open spec fn indexed(outputs: Seq<CompileOutput>) -> Map<u64, usize>
    decreases outputs.len(),
{
    if outputs.len() == 0 {
        Map::empty()
    } else {
        indexed(outputs.drop_last()).insert(
            outputs.last().key.spec_number(),
            (outputs.len() - 1) as usize,
        )
    }
}

/// Positions are those of outputs with the key.
proof fn lemma_indexed(outputs: Seq<CompileOutput>)
    requires
        outputs.len() <= usize::MAX,
    ensures
        forall|n: u64| #[trigger]
            indexed(outputs).dom().contains(n) ==> {
                &&& indexed(outputs)[n] < outputs.len()
                &&& outputs[indexed(outputs)[n] as int].key.spec_number() == n
            },
    decreases outputs.len(),
{
    if outputs.len() > 0 {
        lemma_indexed(outputs.drop_last());
    }
}

/// Where functions are placed: one behind the other, each at the next multiple of its alignment.
pub open spec fn placed(outputs: Seq<CompileOutput>) -> Seq<(int, Seq<u8>)>
    decreases outputs.len(),
{
    if outputs.len() == 0 {
        Seq::empty()
    } else {
        let before = placed(outputs.drop_last());
        before.push(
            (
                crate::text_section::aligned_up(
                    crate::text_section::section_end(before),
                    outputs.last().function.alignment as int,
                ),
                outputs.last().function.body@,
            ),
        )
    }
}

/// A bound on the size of the text: bodies, padding, and room for references.
pub open spec fn worst_size(outputs: Seq<CompileOutput>) -> int
    decreases outputs.len(),
{
    if outputs.len() == 0 {
        0
    } else {
        worst_size(outputs.drop_last()) + outputs.last().function.alignment
            + outputs.last().function.body@.len() + 8
            * outputs.last().function.relocations@.len()
    }
}

/// Where the output lies that a reference is to.
pub open spec fn target_number(target: RelocationTarget, num_imported: u32) -> u64 {
    match target {
        RelocationTarget::Wasm(f) => CompileKey::WasmFunction(
            DefinedFuncIndex((f.0 - num_imported) as u32),
        ).spec_number(),
        RelocationTarget::Builtin(b) => CompileKey::WasmToBuiltinTrampoline(b).spec_number(),
    }
}

/// The references of a function that is placed at an offset.
pub open spec fn fixups_at(
    start: int,
    relocs: Seq<Relocation>,
    indices: Map<u64, usize>,
    num_imported: u32,
) -> Seq<Fixup> {
    relocs.map_values(
        |r: Relocation|
            Fixup {
                offset: (start + r.offset) as u64,
                kind: r.kind,
                function: indices[target_number(r.target, num_imported)],
            },
    )
}

/// The references of all functions, in order.
pub open spec fn fixups_of(
    outputs: Seq<CompileOutput>,
    indices: Map<u64, usize>,
    num_imported: u32,
) -> Seq<Fixup>
    decreases outputs.len(),
{
    if outputs.len() == 0 {
        Seq::empty()
    } else {
        fixups_of(outputs.drop_last(), indices, num_imported) + fixups_at(
            placed(outputs).last().0,
            outputs.last().function.relocations@,
            indices,
            num_imported,
        )
    }
}

/// Where an output is located.
pub open spec fn loc_of(outputs: Seq<CompileOutput>, i: int) -> FunctionLoc {
    FunctionLoc {
        start: placed(outputs)[i].0 as u32,
        length: outputs[i].function.body@.len() as u32,
    }
}

/// Where a function and its trampoline are located.
pub open spec fn info_of(outputs: Seq<CompileOutput>, i: u32) -> CompiledFunctionInfo {
    let indices = indexed(outputs);
    let function = CompileKey::WasmFunction(DefinedFuncIndex(i)).spec_number();
    let trampoline = CompileKey::ArrayToWasmTrampoline(DefinedFuncIndex(i)).spec_number();
    CompiledFunctionInfo {
        wasm_func_loc: loc_of(outputs, indices[function] as int),
        host_to_wasm_trampoline: if indices.dom().contains(trampoline) {
            Some(loc_of(outputs, indices[trampoline] as int))
        } else {
            None
        },
        start_srcloc: outputs[indices[function] as int].function.start_srcloc,
    }
}

/// The offsets in the text of a function's traps.
pub open spec fn trap_offsets_at(start: int, traps: Seq<TrapInfo>) -> Seq<u32> {
    traps.map_values(|t: TrapInfo| (start + t.offset) as u32)
}

/// The codes of a function's traps.
pub open spec fn trap_codes_of(traps: Seq<TrapInfo>) -> Seq<TrapCode> {
    traps.map_values(|t: TrapInfo| t.trap)
}

/// The offsets in the text of all traps, in order.
pub open spec fn all_trap_offsets(outputs: Seq<CompileOutput>) -> Seq<u32>
    decreases outputs.len(),
{
    if outputs.len() == 0 {
        Seq::empty()
    } else {
        all_trap_offsets(outputs.drop_last()) + trap_offsets_at(
            placed(outputs).last().0,
            outputs.last().function.traps@,
        )
    }
}

/// The codes of all traps, in order.
pub open spec fn all_trap_codes(outputs: Seq<CompileOutput>) -> Seq<TrapCode>
    decreases outputs.len(),
{
    if outputs.len() == 0 {
        Seq::empty()
    } else {
        all_trap_codes(outputs.drop_last()) + trap_codes_of(outputs.last().function.traps@)
    }
}

/// Collects the traps of functions, in the order of their offsets.
pub struct TrapsBuilder {
    pub offsets: Vec<u32>,
    pub traps: Vec<TrapCode>,
    pub last_offset: u32,
}

/// Whether the traps of a function lie in it, and are in order.
pub open spec fn traps_in_order(traps: Seq<TrapInfo>, length: int) -> bool {
    &&& forall|i: int| 0 <= i < traps.len() ==> (#[trigger] traps[i]).offset <= length
    &&& forall|i: int, j: int|
        0 <= i <= j < traps.len() ==> (#[trigger] traps[i]).offset <= (#[trigger] traps[j]).offset
}

impl TrapsBuilder {
    /// There is a trap for every offset.
    pub open spec fn wf(self) -> bool {
        self.offsets@.len() == self.traps@.len()
    }

    /// The offsets are in order, and none lies behind the functions.
    pub open spec fn ordered(self) -> bool {
        &&& crate::link::in_order(self.offsets@)
        &&& self.offsets@.len() > 0 ==> self.offsets@.last() <= self.last_offset
    }

    /// Whether the traps of a function at an offset come behind those before: no trap lies before the
    /// end of the last function, or before another one of its function.
    pub open spec fn come_next(self, start: u32, traps: Seq<TrapInfo>) -> bool {
        &&& forall|i: int|
            0 <= i < traps.len() ==> self.last_offset <= start + (#[trigger] traps[i]).offset
                <= u32::MAX
        &&& forall|i: int, j: int|
            0 <= i <= j < traps.len() ==> (#[trigger] traps[i]).offset
                <= (#[trigger] traps[j]).offset
    }

    /// No traps.
    pub fn new() -> (r: Self)
        ensures
            r.wf(),
            r.ordered(),
            r.offsets@ == Seq::<u32>::empty(),
            r.traps@ == Seq::<TrapCode>::empty(),
            r.last_offset == 0,
    {
        TrapsBuilder { offsets: Vec::new(), traps: Vec::new(), last_offset: 0 }
    }

    /// Adds the traps of a function, which come behind those before. The offsets stay in order; and if
    /// no trap lies behind its function, and the function not before the last one, none of them lies
    /// behind the functions.
    pub fn push_traps(&mut self, func: FunctionLoc, traps: &Vec<TrapInfo>)
        requires
            old(self).wf(),
            func.start + func.length <= u32::MAX,
            old(self).come_next(func.start, traps@),
        ensures
            final(self).wf(),
            final(self).offsets@ == old(self).offsets@ + trap_offsets_at(
                func.start as int,
                traps@,
            ),
            final(self).traps@ == old(self).traps@ + trap_codes_of(traps@),
            final(self).last_offset == func.start + func.length,
            old(self).ordered() ==> in_order(final(self).offsets@),
            old(self).ordered() && old(self).last_offset <= func.start && traps_in_order(
                traps@,
                func.length as int,
            ) ==> final(self).ordered(),
    {
        for i in 0..traps.len()
            invariant
                old(self).wf(),
                func.start + func.length <= u32::MAX,
                old(self).come_next(func.start, traps@),
                self.offsets@.len() == self.traps@.len(),
                old(self).ordered() ==> in_order(self.offsets@) && (self.offsets@.len() > 0
                    ==> self.offsets@.last() <= if i == 0 {
                    old(self).last_offset as int
                } else {
                    func.start + traps@[i - 1].offset
                }),
                self.offsets@ == old(self).offsets@ + trap_offsets_at(
                    func.start as int,
                    traps@.take(i as int),
                ),
                self.traps@ == old(self).traps@ + trap_codes_of(traps@.take(i as int)),
        {
            assert(func.start + traps@[i as int].offset <= u32::MAX);
            if i > 0 {
                assert(traps@[i - 1].offset <= traps@[i as int].offset);
            }
            let pos: u32 = func.start + traps[i].offset;
            self.offsets.push(pos);
            self.traps.push(traps[i].trap);
            assert(self.offsets@ =~= old(self).offsets@ + trap_offsets_at(
                func.start as int,
                traps@.take(i + 1),
            ));
            assert(self.traps@ =~= old(self).traps@ + trap_codes_of(traps@.take(i + 1)));
        }
        assert(traps@.take(traps@.len() as int) =~= traps@);
        proof {
            if traps@.len() > 0 && traps_in_order(traps@, func.length as int) {
                assert(traps@[traps@.len() - 1].offset <= func.length);
            }
        }
        self.last_offset = func.start + func.length;
    }

    /// The offsets and the traps.
    pub fn finish(self) -> (r: (Vec<u32>, Vec<TrapCode>))
        ensures
            r.0 == self.offsets,
            r.1 == self.traps,
    {
        (self.offsets, self.traps)
    }
}

/// Whether offsets are in order.
pub open spec fn in_order(offsets: Seq<u32>) -> bool {
    forall|i: int, j: int|
        0 <= i <= j < offsets.len() ==> #[trigger] offsets[i] <= #[trigger] offsets[j]
}

/// The outputs of all jobs of a module, not linked yet.
pub struct UnlinkedCompileOutputs {
    indices: BTreeMap<u64, usize>,
    outputs: Vec<CompileOutput>,
}

impl View for UnlinkedCompileOutputs {
    type V = Seq<CompileOutput>;

    closed spec fn view(&self) -> Seq<CompileOutput> {
        self.outputs@
    }
}

/// Whether a function can be placed and its references resolved.
pub open spec fn linkable(
    output: CompileOutput,
    indices: Map<u64, usize>,
    num_imported: u32,
    target: TextTarget,
) -> bool {
    let f = output.function;
    &&& crate::text_section::is_alignment(f.alignment)
    &&& target is Riscv64 ==> f.alignment % 2 == 0
    &&& traps_in_order(f.traps@, f.body@.len() as int)
    &&& forall|k: int|
        0 <= k < f.relocations@.len() ==> {
            let r = #[trigger] f.relocations@[k];
            &&& crate::text_section::resolvable(target, r.kind, r.addend)
            &&& r.offset + r.kind.spec_size() <= f.body@.len()
            &&& r.kind is RiscvCallPlt ==> r.offset % 2 == 0
            &&& r.target matches RelocationTarget::Wasm(callee) ==> num_imported <= callee.0
            &&& indices.dom().contains(target_number(r.target, num_imported))
        }
}

/// Aligning keeps a position or moves it up by less than the alignment, and makes it even if the
/// alignment is.
proof fn lemma_aligned_up(pos: int, align: u32)
    requires
        0 <= pos,
        crate::text_section::is_alignment(align),
    ensures
        pos <= crate::text_section::aligned_up(pos, align as int) < pos + align,
        align % 2 == 0 ==> crate::text_section::aligned_up(pos, align as int) % 2 == 0,
        align > 0,
{
    let n = choose|n: nat| n < 32 && align == #[trigger] vstd::arithmetic::power2::pow2(n);
    vstd::arithmetic::power2::lemma_pow2_pos(n);
    let a = align as int;
    let q = (pos + a - 1) / a;
    vstd::arithmetic::div_mod::lemma_fundamental_div_mod(pos + a - 1, a);
    vstd::arithmetic::div_mod::lemma_mod_bound(pos + a - 1, a);
    assert(a * q == q * a) by (nonlinear_arith);
    if align % 2 == 0 {
        let half = a / 2;
        assert(q * a == 2 * (q * half)) by (nonlinear_arith)
            requires
                a == 2 * half,
        ;
        assert((2 * (q * half)) % 2 == 0);
    }
}

/// Functions are placed in order, within the bound.
proof fn lemma_placed(outputs: Seq<CompileOutput>)
    requires
        forall|i: int|
            0 <= i < outputs.len() ==> crate::text_section::is_alignment(
                (#[trigger] outputs[i]).function.alignment,
            ),
    ensures
        placed(outputs).len() == outputs.len(),
        0 <= crate::text_section::section_end(placed(outputs)) <= worst_size(outputs),
        forall|i: int|
            0 <= i < outputs.len() ==> {
                &&& outputs[i].function.alignment % 2 == 0 ==> (#[trigger] placed(outputs)[i]).0 % 2
                    == 0
                &&& placed(outputs)[i].1 == outputs[i].function.body@
                &&& 0 <= placed(outputs)[i].0
                &&& placed(outputs)[i].0 + outputs[i].function.body@.len()
                    <= crate::text_section::section_end(placed(outputs))
            },
    decreases outputs.len(),
{
    if outputs.len() > 0 {
        let rest = outputs.drop_last();
        assert forall|i: int|
            0 <= i < rest.len() implies crate::text_section::is_alignment(
            (#[trigger] rest[i]).function.alignment,
        ) by {
            assert(rest[i] == outputs[i]);
        }
        lemma_placed(rest);
        assert(outputs[outputs.len() - 1] == outputs.last());
        lemma_aligned_up(
            crate::text_section::section_end(placed(rest)),
            outputs.last().function.alignment,
        );
        assert forall|i: int| 0 <= i < outputs.len() implies {
            &&& outputs[i].function.alignment % 2 == 0 ==> (#[trigger] placed(outputs)[i]).0 % 2
                == 0
            &&& placed(outputs)[i].1 == outputs[i].function.body@
            &&& 0 <= placed(outputs)[i].0
            &&& placed(outputs)[i].0 + outputs[i].function.body@.len()
                <= crate::text_section::section_end(placed(outputs))
        } by {
            if i < rest.len() {
                assert(placed(outputs)[i] == placed(rest)[i]);
                assert(rest[i] == outputs[i]);
            }
        }
    }
}

/// The first functions are placed alike with and without the others.
proof fn lemma_placed_prefix(outputs: Seq<CompileOutput>, n: int)
    requires
        0 <= n <= outputs.len(),
    ensures
        placed(outputs).len() == outputs.len(),
        placed(outputs.take(n)) == placed(outputs).take(n),
        worst_size(outputs.take(n)) <= worst_size(outputs),
    decreases outputs.len() - n,
{
    lemma_placed_len(outputs);
    lemma_placed_len(outputs.take(n));
    if n == outputs.len() {
        assert(outputs.take(n) =~= outputs);
        assert(placed(outputs).take(n) =~= placed(outputs));
    } else {
        lemma_placed_prefix(outputs, n + 1);
        assert(outputs.take(n + 1).drop_last() =~= outputs.take(n));
        lemma_placed_len(outputs.take(n + 1));
        assert(placed(outputs.take(n)) =~= placed(outputs.take(n + 1)).drop_last());
        assert(placed(outputs).take(n + 1).drop_last() =~= placed(outputs).take(n));
    }
}

/// Every function is placed.
proof fn lemma_placed_len(outputs: Seq<CompileOutput>)
    ensures
        placed(outputs).len() == outputs.len(),
    decreases outputs.len(),
{
    if outputs.len() > 0 {
        lemma_placed_len(outputs.drop_last());
    }
}

/// Functions lie one behind the other: none reaches into the next, and all begin at a multiple of
/// their alignment.
pub proof fn functions_do_not_overlap(outputs: Seq<CompileOutput>)
    requires
        forall|i: int|
            0 <= i < outputs.len() ==> crate::text_section::is_alignment(
                (#[trigger] outputs[i]).function.alignment,
            ),
    ensures
        placed(outputs).len() == outputs.len(),
        forall|i: int, j: int|
            0 <= i < j < outputs.len() ==> (#[trigger] placed(outputs)[i]).0
                + outputs[i].function.body@.len() <= (#[trigger] placed(outputs)[j]).0,
        forall|i: int|
            0 <= i < outputs.len() ==> (#[trigger] placed(outputs)[i]).0
                % outputs[i].function.alignment as int == 0,
    decreases outputs.len(),
{
    lemma_placed(outputs);
    if outputs.len() > 0 {
        let rest = outputs.drop_last();
        assert forall|i: int|
            0 <= i < rest.len() implies crate::text_section::is_alignment(
            (#[trigger] rest[i]).function.alignment,
        ) by {
            assert(rest[i] == outputs[i]);
        }
        functions_do_not_overlap(rest);
        lemma_placed(rest);
        assert(outputs[outputs.len() - 1] == outputs.last());
        let end = crate::text_section::section_end(placed(rest));
        let align = outputs.last().function.alignment;
        lemma_aligned_up(end, align);
        vstd::arithmetic::div_mod::lemma_mod_multiples_basic(
            (end + align - 1) / align as int,
            align as int,
        );
        assert forall|i: int, j: int| 0 <= i < j < outputs.len() implies (#[trigger] placed(
            outputs,
        )[i]).0 + outputs[i].function.body@.len() <= (#[trigger] placed(outputs)[j]).0 by {
            assert(placed(outputs)[i] == placed(rest)[i]);
            assert(rest[i] == outputs[i]);
            if j < rest.len() {
                assert(placed(outputs)[j] == placed(rest)[j]);
            }
        }
        assert forall|i: int| 0 <= i < outputs.len() implies (#[trigger] placed(outputs)[i]).0
            % outputs[i].function.alignment as int == 0 by {
            if i < rest.len() {
                assert(placed(outputs)[i] == placed(rest)[i]);
                assert(rest[i] == outputs[i]);
            }
        }
    }
}

/// There are no more references than the bound has room for.
proof fn lemma_fixups_bounded(outputs: Seq<CompileOutput>, indices: Map<u64, usize>, n: u32)
    requires
        forall|i: int|
            0 <= i < outputs.len() ==> crate::text_section::is_alignment(
                (#[trigger] outputs[i]).function.alignment,
            ),
    ensures
        crate::text_section::section_end(placed(outputs)) + 8 * fixups_of(
            outputs,
            indices,
            n,
        ).len() <= worst_size(outputs),
    decreases outputs.len(),
{
    if outputs.len() > 0 {
        let rest = outputs.drop_last();
        assert forall|i: int|
            0 <= i < rest.len() implies crate::text_section::is_alignment(
            (#[trigger] rest[i]).function.alignment,
        ) by {
            assert(rest[i] == outputs[i]);
        }
        lemma_fixups_bounded(rest, indices, n);
        lemma_placed(rest);
        assert(outputs[outputs.len() - 1] == outputs.last());
        lemma_aligned_up(
            crate::text_section::section_end(placed(rest)),
            outputs.last().function.alignment,
        );
    }
}

impl UnlinkedCompileOutputs {
    /// The positions are those of the outputs.
    pub closed spec fn wf(self) -> bool {
        self.indices@ == indexed(self.outputs@)
    }

    /// The outputs, ready to be linked.
    pub fn new(outputs: Vec<CompileOutput>) -> (r: Self)
        ensures
            r.wf(),
            r@ == outputs@,
    {
        let mut indices: BTreeMap<u64, usize> = BTreeMap::new();
        assert(outputs@.take(0) =~= Seq::empty());
        for i in 0..outputs.len()
            invariant
                indices@ == indexed(outputs@.take(i as int)),
        {
            indices.insert(outputs[i].key.number(), i);
            assert(outputs@.take(i + 1).drop_last() =~= outputs@.take(i as int));
            assert(outputs@.take(i + 1).last() == outputs@[i as int]);
        }
        assert(outputs@.take(outputs@.len() as int) =~= outputs@);
        UnlinkedCompileOutputs { indices, outputs }
    }

    /// The outputs in order.
    pub fn outputs(&self) -> (r: &Vec<CompileOutput>)
        ensures
            r@ == self@,
    {
        &self.outputs
    }

    /// The position of the output with a key.
    pub(crate) fn position(&self, key: CompileKey) -> (r: Option<usize>)
        requires
            self.wf(),
        ensures
            r == (if indexed(self@).dom().contains(key.spec_number()) {
                Some(indexed(self@)[key.spec_number()])
            } else {
                None
            }),
            r matches Some(i) ==> i < self@.len(),
    {
        proof {
            assert(self.outputs.len() <= usize::MAX);
            lemma_indexed(self.outputs@);
        }
        match self.indices.get(&key.number()) {
            Some(i) => Some(*i),
            None => None,
        }
    }

    /// The position of the output that a reference is to.
    fn target_position(&self, target: RelocationTarget, module: &TranslatedModule) -> (r: usize)
        requires
            self.wf(),
            target matches RelocationTarget::Wasm(callee) ==> module.num_imported_functions
                <= callee.0,
            indexed(self@).dom().contains(target_number(target, module.num_imported_functions)),
        ensures
            r == indexed(self@)[target_number(target, module.num_imported_functions)],
            r < self@.len(),
    {
        let key = match target {
            RelocationTarget::Wasm(callee) => {
                match module.defined_func_index(callee) {
                    Some(def_func_index) => CompileKey::WasmFunction(def_func_index),
                    None => {
                        assert(false);
                        CompileKey::WasmFunction(DefinedFuncIndex(0))
                    },
                }
            },
            RelocationTarget::Builtin(b) => CompileKey::WasmToBuiltinTrampoline(b),
        };
        match self.position(key) {
            Some(i) => i,
            None => {
                assert(false);
                0
            },
        }
    }

    /// Places all functions in a text section, resolves their references, and tells where the
    /// functions that the module defines and their traps are located.
    pub fn link_and_finish(self, target: TextTarget, module: &TranslatedModule) -> (r: (
        Vec<u8>,
        Vec<CompiledFunctionInfo>,
        (Vec<u32>, Vec<TrapCode>),
    ))
        requires
            self.wf(),
            module.wf(),
            self.can_link(target, *module),
        ensures
            crate::text_section::is_text(
                r.0@,
                placed(self@),
                fixups_of(self@, indexed(self@), module.num_imported_functions),
            ),
            r.1@.len() == module.functions@.len() - module.num_imported_functions,
            forall|i: u32| i < r.1@.len() ==> #[trigger] r.1@[i as int] == info_of(self@, i),
            (r.2).0@ == all_trap_offsets(self@),
            (r.2).1@ == all_trap_codes(self@),
            in_order((r.2).0@),
    {
        let ghost all = self.outputs@;
        let ghost indices = indexed(all);
        let ghost n = module.num_imported_functions;
        let mut section = TextSection::new(target, self.outputs.len());
        let mut locs: Vec<FunctionLoc> = Vec::new();
        let mut traps = TrapsBuilder::new();
        assert(all.take(0) =~= Seq::empty());
        proof {
            lemma_placed(all);
        }
        for i in 0..self.outputs.len()
            invariant
                all == self.outputs@,
                all == self@,
                all.len() <= u32::MAX,
                indices == indexed(all),
                n == module.num_imported_functions,
                self.wf(),
                worst_size(all) <= MAX_TEXT_SIZE,
                forall|k: int|
                    0 <= k < all.len() ==> linkable(#[trigger] all[k], indices, n, target),
                placed(all).len() == all.len(),
                crate::text_section::text_section_target(section) == target,
                crate::text_section::text_section_capacity(section) == all.len(),
                crate::text_section::text_section_functions(section) == placed(
                    all.take(i as int),
                ),
                crate::text_section::text_section_fixups(section) == fixups_of(
                    all.take(i as int),
                    indices,
                    n,
                ),
                locs@.len() == i,
                forall|k: int| 0 <= k < i ==> #[trigger] locs@[k] == loc_of(all, k),
                traps.wf(),
                traps.ordered(),
                traps.last_offset == crate::text_section::section_end(placed(all.take(i as int))),
                traps.offsets@ == all_trap_offsets(all.take(i as int)),
                traps.traps@ == all_trap_codes(all.take(i as int)),
        {
            let ghost before = all.take(i as int);
            let ghost next = all.take(i + 1);
            assert(next.drop_last() =~= before);
            assert(next.last() == all[i as int]);
            let output = &self.outputs[i];
            assert(linkable(all[i as int], indices, n, target));
            proof {
                lemma_placed_prefix(all, i as int);
                lemma_placed_prefix(all, i + 1);
                lemma_placed_prefix(next, i as int);
                assert(next.take(i as int) =~= before);
                lemma_fixups_bounded(before, indices, n);
                lemma_placed(next);
                lemma_placed(before);
                lemma_aligned_up(
                    crate::text_section::section_end(placed(before)),
                    output.function.alignment,
                );
                assert(placed(all).take(i + 1)[i as int] == placed(all)[i as int]);
            }
            let start: u64 = section.append(&output.function.body, output.function.alignment);
            assert(placed(next).last().0 == start);
            assert(target is Riscv64 ==> placed(next)[i as int].0 % 2 == 0);
            let relocs = &output.function.relocations;
            assert(fixups_at(start as int, relocs@.take(0), indices, n) =~= Seq::empty());
            let ghost earlier = fixups_of(before, indices, n);
            assert(earlier + Seq::<Fixup>::empty() =~= earlier);
            for k in 0..relocs.len()
                invariant
                    all == self@,
                    self.wf(),
                    indices == indexed(all),
                    n == module.num_imported_functions,
                    relocs@ == all[i as int].function.relocations@,
                    linkable(all[i as int], indices, n, target),
                    target is Riscv64 ==> start % 2 == 0,
                    start + all[i as int].function.body@.len()
                        == crate::text_section::section_end(placed(next)) <= MAX_TEXT_SIZE,
                    crate::text_section::text_section_target(section) == target,
                    crate::text_section::text_section_capacity(section) == all.len(),
                    crate::text_section::text_section_functions(section) == placed(next),
                    crate::text_section::text_section_fixups(section) == earlier + fixups_at(
                        start as int,
                        relocs@.take(k as int),
                        indices,
                        n,
                    ),
            {
                let r = relocs[k];
                assert(r == all[i as int].function.relocations@[k as int]);
                let function: usize = self.target_position(r.target, module);
                section.resolve_reloc(start + r.offset as u64, r.kind, r.addend, function);
                assert(earlier + fixups_at(start as int, relocs@.take(k + 1), indices, n) =~= (
                earlier + fixups_at(start as int, relocs@.take(k as int), indices, n)).push(
                    Fixup { offset: (start + r.offset) as u64, kind: r.kind, function },
                ));
            }
            assert(relocs@.take(relocs@.len() as int) =~= relocs@);
            let loc = FunctionLoc {
                start: start as u32,
                length: output.function.body.len() as u32,
            };
            traps.push_traps(loc, &output.function.traps);
            locs.push(loc);
            assert(locs@[i as int] == loc_of(all, i as int));
        }
        assert(all.take(all.len() as int) =~= all);
        let count: u32 = module.num_defined_functions();
        let mut funcs: Vec<CompiledFunctionInfo> = Vec::new();
        for i in 0..count
            invariant
                all == self@,
                all == self.outputs@,
                self.wf(),
                locs@.len() == all.len(),
                forall|k: int| 0 <= k < all.len() ==> #[trigger] locs@[k] == loc_of(all, k),
                forall|k: u32|
                    k < count ==> indexed(all).dom().contains(
                        #[trigger] CompileKey::WasmFunction(DefinedFuncIndex(k)).spec_number(),
                    ),
                funcs@.len() == i,
                forall|k: u32| k < i ==> #[trigger] funcs@[k as int] == info_of(all, k),
        {
            let function = CompileKey::WasmFunction(DefinedFuncIndex(i));
            assert(indexed(all).dom().contains(function.spec_number()));
            let at: usize = match self.position(function) {
                Some(at) => at,
                None => {
                    assert(false);
                    0
                },
            };
            let host_to_wasm_trampoline = match self.position(
                CompileKey::ArrayToWasmTrampoline(DefinedFuncIndex(i)),
            ) {
                Some(k) => Some(locs[k]),
                None => None,
            };
            funcs.push(
                CompiledFunctionInfo {
                    wasm_func_loc: locs[at],
                    host_to_wasm_trampoline,
                    start_srcloc: self.outputs[at].function.start_srcloc,
                },
            );
        }
        proof {
            lemma_placed(all);
            assert forall|k: int|
                target is Riscv64 && 0 <= k < all.len() implies (#[trigger] placed(all)[k]).0 % 2
                == 0 by {
                assert(linkable(all[k], indices, n, target));
            }
        }
        (section.finish(), funcs, traps.finish())
    }
}

} // verus!
