//! Whether compiled functions can be linked.
use crate::compile::{CompileKey, CompileOutput, CompiledFunction, Relocation, RelocationTarget, TrapInfo};
use crate::indices::DefinedFuncIndex;
use crate::link::UnlinkedCompileOutputs;
use crate::text_section::{RelocKind, TextTarget, MAX_TEXT_SIZE};
use crate::translate::TranslatedModule;
use vstd::prelude::*;

verus! {

/// Whether a number is a power of two.
fn is_power_of_two(align: u32) -> (r: bool)
    ensures
        r == crate::text_section::is_alignment(align),
{
    let mut power: u64 = 1;
    let mut n: u32 = 0;
    proof {
        vstd::arithmetic::power2::lemma2_to64();
    }
    while n < 32
        invariant
            n <= 32,
            power == vstd::arithmetic::power2::pow2(n as nat),
            power <= 0x1_0000_0000,
            forall|k: nat| k < n ==> align != #[trigger] vstd::arithmetic::power2::pow2(k),
        decreases 32 - n,
    {
        if align as u64 == power {
            return true;
        }
        proof {
            vstd::arithmetic::power2::lemma_pow2_unfold((n + 1) as nat);
            vstd::arithmetic::power2::lemma2_to64();
            if n + 1 < 32 {
                vstd::arithmetic::power2::lemma_pow2_strictly_increases((n + 1) as nat, 32);
            }
        }
        power = power * 2;
        n = n + 1;
    }
    false
}

/// Whether traps lie in a function and are in order.
fn are_in_order(traps: &Vec<TrapInfo>, length: usize) -> (r: bool)
    ensures
        r == crate::link::traps_in_order(traps@, length as int),
{
    for i in 0..traps.len()
        invariant
            forall|k: int| 0 <= k < i ==> (#[trigger] traps@[k]).offset <= length,
            forall|j: int, k: int|
                0 <= j <= k < i ==> (#[trigger] traps@[j]).offset <= (#[trigger] traps@[k]).offset,
    {
        if traps[i].offset as usize > length {
            assert(!(traps@[i as int].offset <= length));
            return false;
        }
        if i > 0 && traps[i - 1].offset > traps[i].offset {
            assert(!(traps@[i - 1].offset <= traps@[i as int].offset));
            return false;
        }
    }
    true
}

/// Whether a machine knows how to resolve a reference.
fn is_resolvable(target: TextTarget, kind: RelocKind, addend: i64) -> (r: bool)
    ensures
        r == crate::text_section::resolvable(target, kind, addend),
{
    match (target, kind) {
        (TextTarget::X86_64, RelocKind::X86CallPcRel4) => addend == -4,
        (TextTarget::Riscv64, RelocKind::RiscvCallPlt) => true,
        _ => false,
    }
}

impl UnlinkedCompileOutputs {
    /// Whether all functions fit in a text section, their references can be resolved, and every
    /// function that the module defines is there.
    pub open spec fn can_link(self, target: TextTarget, module: TranslatedModule) -> bool {
        &&& crate::link::worst_size(self@) <= MAX_TEXT_SIZE
        &&& self@.len() <= u32::MAX
        &&& forall|i: int|
            0 <= i < self@.len() ==> crate::link::linkable(
                #[trigger] self@[i],
                crate::link::indexed(self@),
                module.num_imported_functions,
                target,
            )
        &&& forall|i: u32|
            i < module.functions@.len() - module.num_imported_functions ==> crate::link::indexed(
                self@,
            ).dom().contains(
                #[trigger] CompileKey::WasmFunction(DefinedFuncIndex(i)).spec_number(),
            )
    }

    /// Whether a reference of a function can be resolved.
    fn is_reference_ok(
        &self,
        r: &Relocation,
        length: usize,
        target: TextTarget,
        module: &TranslatedModule,
    ) -> (ok: bool)
        requires
            self.wf(),
        ensures
            ok == {
                &&& crate::text_section::resolvable(target, r.kind, r.addend)
                &&& r.offset + r.kind.spec_size() <= length
                &&& r.kind is RiscvCallPlt ==> r.offset % 2 == 0
                &&& r.target matches RelocationTarget::Wasm(callee)
                    ==> module.num_imported_functions <= callee.0
                &&& crate::link::indexed(self@).dom().contains(
                    crate::link::target_number(r.target, module.num_imported_functions),
                )
            },
    {
        if !is_resolvable(target, r.kind, r.addend) {
            return false;
        }
        let size: u64 = match r.kind {
            RelocKind::X86CallPcRel4 => 4,
            RelocKind::RiscvCallPlt => 8,
        };
        if r.offset as u64 + size > length as u64 {
            return false;
        }
        match r.kind {
            RelocKind::RiscvCallPlt => {
                if r.offset % 2 != 0 {
                    return false;
                }
            },
            RelocKind::X86CallPcRel4 => {},
        }
        let key = match r.target {
            RelocationTarget::Wasm(callee) => {
                if callee.0 < module.num_imported_functions {
                    return false;
                }
                CompileKey::WasmFunction(
                    DefinedFuncIndex(callee.0 - module.num_imported_functions),
                )
            },
            RelocationTarget::Builtin(b) => CompileKey::WasmToBuiltinTrampoline(b),
        };
        self.position(key).is_some()
    }

    /// Whether a function can be placed and its references resolved.
    fn is_output_ok(
        &self,
        output: &CompileOutput,
        target: TextTarget,
        module: &TranslatedModule,
    ) -> (ok: bool)
        requires
            self.wf(),
        ensures
            ok == crate::link::linkable(
                *output,
                crate::link::indexed(self@),
                module.num_imported_functions,
                target,
            ),
    {
        let f: &CompiledFunction = &output.function;
        if !is_power_of_two(f.alignment) {
            return false;
        }
        match target {
            TextTarget::Riscv64 => {
                if f.alignment % 2 != 0 {
                    return false;
                }
            },
            TextTarget::X86_64 => {},
        }
        if !are_in_order(&f.traps, f.body.len()) {
            return false;
        }
        for k in 0..f.relocations.len()
            invariant
                self.wf(),
                *f == output.function,
                forall|j: int|
                    0 <= j < k ==> {
                        let r = #[trigger] f.relocations@[j];
                        &&& crate::text_section::resolvable(target, r.kind, r.addend)
                        &&& r.offset + r.kind.spec_size() <= f.body@.len()
                        &&& r.kind is RiscvCallPlt ==> r.offset % 2 == 0
                        &&& r.target matches RelocationTarget::Wasm(callee)
                            ==> module.num_imported_functions <= callee.0
                        &&& crate::link::indexed(self@).dom().contains(
                            crate::link::target_number(r.target, module.num_imported_functions),
                        )
                    },
        {
            if !self.is_reference_ok(&f.relocations[k], f.body.len(), target, module) {
                return false;
            }
        }
        true
    }

    /// Whether the functions can be linked.
    pub fn is_linkable(&self, target: TextTarget, module: &TranslatedModule) -> (r: bool)
        requires
            self.wf(),
            module.wf(),
        ensures
            r == self.can_link(target, *module),
    {
        let outputs = self.outputs();
        let ghost all = self@;
        if outputs.len() as u64 > u32::MAX as u64 {
            return false;
        }
        let mut size: u64 = 0;
        assert(all.take(0) =~= Seq::empty());
        for i in 0..outputs.len()
            invariant
                self.wf(),
                all == self@,
                outputs@ == all,
                size == crate::link::worst_size(all.take(i as int)),
                size <= MAX_TEXT_SIZE,
                forall|k: int|
                    0 <= k < i ==> crate::link::linkable(
                        #[trigger] all[k],
                        crate::link::indexed(all),
                        module.num_imported_functions,
                        target,
                    ),
        {
            let f = &outputs[i].function;
            assert(all.take(i + 1).drop_last() =~= all.take(i as int));
            proof {
                lemma_worst_size(all, i + 1);
            }
            let body: u64 = f.body.len() as u64;
            let references: u64 = f.relocations.len() as u64;
            if body > MAX_TEXT_SIZE || references > MAX_TEXT_SIZE {
                return false;
            }
            size = size + f.alignment as u64 + body + 8 * references;
            if size > MAX_TEXT_SIZE {
                return false;
            }
            if !self.is_output_ok(&outputs[i], target, module) {
                assert(!crate::link::linkable(
                    all[i as int],
                    crate::link::indexed(all),
                    module.num_imported_functions,
                    target,
                ));
                return false;
            }
        }
        assert(all.take(all.len() as int) =~= all);
        let defined: u32 = module.num_defined_functions();
        for i in 0..defined
            invariant
                self.wf(),
                all == self@,
                defined == module.functions@.len() - module.num_imported_functions,
                forall|k: u32|
                    k < i ==> crate::link::indexed(all).dom().contains(
                        #[trigger] CompileKey::WasmFunction(DefinedFuncIndex(k)).spec_number(),
                    ),
        {
            let key = CompileKey::WasmFunction(DefinedFuncIndex(i));
            if self.position(key).is_none() {
                assert(!crate::link::indexed(all).dom().contains(
                    CompileKey::WasmFunction(DefinedFuncIndex(i)).spec_number(),
                ));
                return false;
            }
        }
        true
    }
}

/// The bound on the size of some outputs is at most that of all.
proof fn lemma_worst_size(outputs: Seq<CompileOutput>, n: int)
    requires
        0 <= n <= outputs.len(),
    ensures
        crate::link::worst_size(outputs.take(n)) <= crate::link::worst_size(outputs),
    decreases outputs.len(),
{
    if n == outputs.len() {
        assert(outputs.take(n) =~= outputs);
    } else {
        assert(outputs.drop_last().take(n) =~= outputs.take(n));
        lemma_worst_size(outputs.drop_last(), n);
    }
}

} // verus!
