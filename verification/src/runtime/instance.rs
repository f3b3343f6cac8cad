//! Instances of modules.
use crate::compile::CompiledFunctionInfo;
use crate::indices::{
    DefinedGlobalIndex, DefinedMemoryIndex, DefinedTableIndex, EntityIndex, FuncIndex,
    GlobalIndex, MemoryIndex, TableIndex,
};
use crate::runtime::const_eval::{ConstExprEvaluator, ConstOp};
use crate::runtime::memory::Memory;
use crate::runtime::table::Table;
use crate::runtime::vmcontext::{
    OwnedVMContext, VMDefinition, VMFuncRef, VMFunctionImport, VMImport,
};
use crate::translate::TranslatedModule;
use crate::types::{GlobalDesc, MemoryDesc, TableDesc};
use crate::vmoffsets::{Slot, VMOffsets};
use vstd::prelude::*;

verus! {

/// The value at the start of every context of a module: the letters `core`.
pub const VMCONTEXT_MAGIC: u32 = 0x6572_6f63;

/// What a module imports, resolved.
pub struct Imports {
    pub functions: Vec<VMFunctionImport>,
    pub tables: Vec<VMImport>,
    pub memories: Vec<VMImport>,
    pub globals: Vec<VMImport>,
}

/// What compiled code sees of the tables and memories of an instance.
#[verifier::ext_equal]
pub struct Definitions {
    pub tables: Seq<VMDefinition>,
    pub memories: Seq<VMDefinition>,
}

/// What compiled code sees of tables and memories.
pub open spec fn definitions(tables: Seq<Table>, memories: Seq<Memory>) -> Definitions {
    Definitions {
        tables: tables.map_values(|t: Table| t.definition()),
        memories: memories.map_values(|m: Memory| m.definition()),
    }
}

/// What a context is initialised from, besides the tables and memories of its instance.
pub struct Linkage<'a> {
    pub module: &'a TranslatedModule,
    pub offsets: VMOffsets,
    /// The address of the array of builtin functions.
    pub builtin_functions: u64,
    /// The address of the array of shared type indices.
    pub type_ids_ptr: u64,
    /// The shared type indices of the module's types.
    pub type_ids: &'a Vec<u32>,
    /// The address of the text.
    pub text: u64,
    pub function_info: &'a Vec<CompiledFunctionInfo>,
    pub imports: &'a Imports,
    pub global_initializers: &'a Vec<Vec<ConstOp>>,
}

impl<'a> Linkage<'a> {
    /// Everything that the module declares is there: the layout is that of the module, on a machine
    /// with 64-bit pointers; no memory that the module defines is shared; escaping functions have a
    /// reference of their own, a shared type, and a trampoline; and every initialiser yields one value.
    pub open spec fn wf(self) -> bool {
        &&& self.module.wf()
        &&& self.offsets.wf()
        &&& self.offsets.describes(*self.module)
        &&& self.offsets.static_.ptr_size == 8
        &&& self.imports.functions@.len() == self.module.num_imported_functions
        &&& self.imports.tables@.len() == self.module.num_imported_tables
        &&& self.imports.memories@.len() == self.module.num_imported_memories
        &&& self.imports.globals@.len() == self.module.num_imported_globals
        &&& forall|i: int|
            self.module.num_imported_memories <= i < self.module.memories@.len()
                ==> !(#[trigger] self.module.memories@[i]).shared
        &&& self.global_initializers@.len() == self.offsets.num_defined_globals
        &&& self.function_info@.len() == self.module.functions@.len()
            - self.module.num_imported_functions
        &&& forall|i: int|
            0 <= i < self.module.functions@.len()
                && self.module.functions@[i].spec_is_escaping() ==> #[trigger] self.func_ok(i)
        &&& forall|i: int, j: int|
            0 <= i < j < self.module.functions@.len()
                && self.module.functions@[i].spec_is_escaping()
                && self.module.functions@[j].spec_is_escaping() ==> (
            #[trigger] self.module.functions@[i]).func_ref != (
            #[trigger] self.module.functions@[j]).func_ref
        &&& forall|i: int|
            0 <= i < self.global_initializers@.len() ==> crate::runtime::const_eval::yields_one(
                (#[trigger] self.global_initializers@[i])@,
            )
    }

    /// Whether an escaping function has a slot, a type and a trampoline.
    pub open spec fn func_ok(self, i: int) -> bool {
        let f = self.module.functions@[i];
        &&& f.func_ref.0 < self.offsets.num_escaped_funcs
        &&& f.signature < self.module.types@.len()
        &&& self.module.types@[f.signature as int].0 < self.type_ids@.len()
        &&& i >= self.module.num_imported_functions ==> {
            let info = self.function_info@[i - self.module.num_imported_functions];
            &&& info.host_to_wasm_trampoline is Some
            &&& self.text + (info.host_to_wasm_trampoline->0).start <= u64::MAX
            &&& self.text + info.wasm_func_loc.start <= u64::MAX
        }
    }

    /// The reference of an escaping function: its code and the context, or what was imported.
    pub open spec fn func_ref(self, i: int, vmctx: u64) -> VMFuncRef {
        let f = self.module.functions@[i];
        let type_index = self.type_ids@[self.module.types@[f.signature as int].0 as int];
        if i < self.module.num_imported_functions {
            let import = self.imports.functions@[i];
            VMFuncRef {
                array_call: import.array_call,
                wasm_call: import.wasm_call,
                vmctx: import.vmctx,
                type_index,
            }
        } else {
            let info = self.function_info@[i - self.module.num_imported_functions];
            VMFuncRef {
                array_call: (self.text + (info.host_to_wasm_trampoline->0).start) as u64,
                wasm_call: (self.text + info.wasm_func_loc.start) as u64,
                vmctx,
                type_index,
            }
        }
    }

    /// The value of a global.
    pub open spec fn global_value(self, i: int) -> u128 {
        crate::runtime::const_eval::value_of(self.global_initializers@[i]@).0
    }

    /// The words of an array entry, but for function references.
    pub open spec fn slot_words(self, given: Definitions, slot: Slot) -> Seq<u64> {
        match slot {
            Slot::FuncRef(_) => Seq::empty(),
            Slot::ImportedFunction(i) => function_import_words(self.imports.functions@[i as int]),
            Slot::ImportedTable(i) => import_words(self.imports.tables@[i as int]),
            Slot::ImportedMemory(i) => import_words(self.imports.memories@[i as int]),
            Slot::ImportedGlobal(i) => import_words(self.imports.globals@[i as int]),
            Slot::Table(i) => definition_words(given.tables[i as int]),
            Slot::Memory(i) => definition_words(given.memories[i as int]),
            Slot::Global(i) => global_words(self.global_value(i as int)),
        }
    }

    /// Whether an array entry holds what it should.
    pub open spec fn slot_holds(self, given: Definitions, mem: Seq<u8>, slot: Slot) -> bool {
        crate::runtime::vmcontext::words_at(
            mem,
            self.offsets.slot_offset(slot),
            self.slot_words(given, slot),
        )
    }

    /// Whether the reference of an escaping function holds what it should.
    pub open spec fn func_ref_holds(self, mem: Seq<u8>, i: int, vmctx: u64) -> bool {
        crate::runtime::vmcontext::words_at(
            mem,
            self.offsets.slot_offset(Slot::FuncRef(self.module.functions@[i].func_ref.0)),
            func_ref_words(self.func_ref(i, vmctx)),
        )
    }

    /// Whether the static fields hold what they should.
    pub open spec fn header_holds(self, mem: Seq<u8>) -> bool {
        &&& crate::host_funcs::mem_access::u32_at(mem, 0) == Some(VMCONTEXT_MAGIC)
        &&& crate::runtime::vmcontext::word_at(mem, 8) == self.builtin_functions
        &&& crate::runtime::vmcontext::word_at(mem, 16) == self.type_ids_ptr
    }
}

/// The words of a function reference.
pub open spec fn func_ref_words(f: VMFuncRef) -> Seq<u64> {
    seq![f.array_call, f.wasm_call, f.vmctx, f.type_index as u64]
}

/// The words of an imported function.
pub open spec fn function_import_words(f: VMFunctionImport) -> Seq<u64> {
    seq![f.wasm_call, f.array_call, f.vmctx]
}

/// The words of an import.
pub open spec fn import_words(import: VMImport) -> Seq<u64> {
    seq![import.from, import.vmctx]
}

/// The words of a table or a memory.
pub open spec fn definition_words(definition: VMDefinition) -> Seq<u64> {
    seq![definition.base, definition.current_length]
}

/// The words of a global, the lower one first.
pub open spec fn global_words(value: u128) -> Seq<u64> {
    seq![
        (value % 0x1_0000_0000_0000_0000) as u64,
        (value / 0x1_0000_0000_0000_0000) as u64,
    ]
}

/// Whether a byte of a context belongs to neither a static field that is written nor an array entry.
pub open spec fn is_spare(l: Linkage, p: int) -> bool {
    &&& 4 <= p < 8 || 24 <= p
    &&& forall|s: Slot| #[trigger]
        l.offsets.has_slot(s) ==> !(l.offsets.slot_offset(s) <= p < l.offsets.slot_offset(s)
            + l.offsets.slot_size(s))
}

/// Whether the bytes of a context that belong to nothing that is written are what they were.
pub open spec fn keeps_spare(l: Linkage, before: Seq<u8>, after: Seq<u8>) -> bool {
    &&& before.len() == after.len()
    &&& forall|p: int| 0 <= p < after.len() && is_spare(l, p) ==> #[trigger] after[p] == before[p]
}

/// What was written to a context so far, what the context held before, and the tables and memories
/// that it is for.
pub struct Progress {
    pub given: Definitions,
    pub start: Seq<u8>,
    pub slots: Set<Slot>,
    pub func_refs: Set<int>,
    pub header: bool,
}

/// Whether what was written so far is there.
pub open spec fn progress_ok(l: Linkage, mem: Seq<u8>, vmctx: u64, done: Progress) -> bool {
    &&& mem.len() == l.offsets.size
    &&& forall|s: Slot| #[trigger]
        done.slots.contains(s) ==> l.offsets.has_slot(s) && !(s is FuncRef) && l.slot_holds(
            done.given,
            mem,
            s,
        )
    &&& forall|i: int| #[trigger]
        done.func_refs.contains(i) ==> 0 <= i < l.module.functions@.len()
            && l.module.functions@[i].spec_is_escaping() && l.func_ref_holds(mem, i, vmctx)
    &&& done.header ==> l.header_holds(mem)
    &&& keeps_spare(l, done.start, mem)
}

/// A write to one slot leaves everything else in place.
proof fn lemma_slot_written(
    l: Linkage,
    before: Seq<u8>,
    after: Seq<u8>,
    vmctx: u64,
    done: Progress,
    slot: Slot,
)
    requires
        l.wf(),
        progress_ok(l, before, vmctx, done),
        l.offsets.has_slot(slot),
        !done.slots.contains(slot),
        slot matches Slot::FuncRef(r) ==> forall|i: int| #[trigger]
            done.func_refs.contains(i) ==> l.module.functions@[i].func_ref.0 != r,
        crate::runtime::vmcontext::same_outside(
            before,
            after,
            l.offsets.slot_offset(slot),
            l.offsets.slot_size(slot),
        ),
    ensures
        progress_ok(l, after, vmctx, done),
{
    crate::vmoffsets::slots_lie_in_context(l.offsets, slot);
    let offset = l.offsets.slot_offset(slot);
    let size = l.offsets.slot_size(slot);
    assert forall|s: Slot| #[trigger] done.slots.contains(s) implies l.slot_holds(
        done.given,
        after,
        s,
    ) by {
        crate::vmoffsets::slots_are_disjoint(l.offsets, s, slot);
        crate::vmoffsets::slots_lie_in_context(l.offsets, s);
        assert(8 * l.slot_words(done.given, s).len() <= l.offsets.slot_size(s));
        crate::runtime::vmcontext::lemma_words_kept(
            before,
            after,
            offset,
            size,
            l.offsets.slot_offset(s),
            l.slot_words(done.given, s),
        );
    }
    assert forall|i: int| #[trigger] done.func_refs.contains(i) implies l.func_ref_holds(
        after,
        i,
        vmctx,
    ) by {
        assert(l.func_ok(i));
        let s = Slot::FuncRef(l.module.functions@[i].func_ref.0);
        crate::vmoffsets::slots_are_disjoint(l.offsets, s, slot);
        crate::vmoffsets::slots_lie_in_context(l.offsets, s);
        crate::runtime::vmcontext::lemma_words_kept(
            before,
            after,
            offset,
            size,
            l.offsets.slot_offset(s),
            func_ref_words(l.func_ref(i, vmctx)),
        );
    }
    assert forall|p: int| 0 <= p < after.len() && is_spare(l, p) implies #[trigger] after[p]
        == done.start[p] by {
        assert(after[p] == before[p]);
        assert(before[p] == done.start[p]);
    }
    if done.header {
        assert(before.subrange(0, 4) =~= after.subrange(0, 4));
        assert(before.subrange(8, 16) =~= after.subrange(8, 16));
        assert(before.subrange(16, 24) =~= after.subrange(16, 24));
    }
}

/// Writes an array entry.
fn write_slot(
    vmctx: &mut OwnedVMContext,
    l: &Linkage,
    offset: u32,
    words: Vec<u64>,
    Ghost(slot): Ghost<Slot>,
    Ghost(done): Ghost<Progress>,
)
    requires
        l.wf(),
        progress_ok(*l, old(vmctx)@, old(vmctx).spec_base() as u64, done),
        l.offsets.has_slot(slot),
        !(slot is FuncRef),
        !done.slots.contains(slot),
        offset == l.offsets.slot_offset(slot),
        words@ == l.slot_words(done.given, slot),
    ensures
        progress_ok(
            *l,
            final(vmctx)@,
            final(vmctx).spec_base() as u64,
            Progress { slots: done.slots.insert(slot), ..done },
        ),
        final(vmctx).spec_base() == old(vmctx).spec_base(),
{
    proof {
        crate::vmoffsets::slots_lie_in_context(l.offsets, slot);
    }
    let ghost before = vmctx@;
    vmctx.set_words(offset, &words);
    proof {
        lemma_slot_written(*l, before, vmctx@, vmctx.spec_base() as u64, done, slot);
    }
}

/// Writes the references of all functions that escape.
fn initialize_vmfunc_refs(vmctx: &mut OwnedVMContext, l: &Linkage, Ghost(done): Ghost<Progress>)
    requires
        l.wf(),
        progress_ok(*l, old(vmctx)@, old(vmctx).spec_base() as u64, done),
        done.func_refs == Set::<int>::empty(),
        done.slots == Set::<Slot>::empty(),
    ensures
        final(vmctx).spec_base() == old(vmctx).spec_base(),
        progress_ok(
            *l,
            final(vmctx)@,
            final(vmctx).spec_base() as u64,
            Progress { func_refs: escaping(*l), ..done },
        ),
{
    let context: u64 = vmctx.as_ptr() as u64;
    let ghost mut refs: Set<int> = Set::empty();
    for i in 0..l.module.functions.len()
        invariant
            l.wf(),
            done.slots == Set::<Slot>::empty(),
            vmctx.spec_base() == old(vmctx).spec_base(),
            context == vmctx.spec_base() as u64,
            progress_ok(*l, vmctx@, context, Progress { func_refs: refs, ..done }),
            forall|k: int| #[trigger]
                refs.contains(k) <==> 0 <= k < i && l.module.functions@[k].spec_is_escaping(),
    {
        let func = l.module.functions[i];
        if func.is_escaping() {
            assert(l.func_ok(i as int));
            let interned = l.module.types[func.signature as usize];
            let type_index: u32 = l.type_ids[interned.index()];
            let func_ref = match l.module.defined_func_index(FuncIndex(i as u32)) {
                Some(def_index) => {
                    let info = l.function_info[def_index.index()];
                    let array_call: u64 = match info.host_to_wasm_trampoline {
                        Some(loc) => l.text + loc.start as u64,
                        None => {
                            assert(false);
                            0
                        },
                    };
                    let wasm_call: u64 = l.text + info.wasm_func_loc.start as u64;
                    VMFuncRef { array_call, wasm_call, vmctx: context, type_index }
                },
                None => {
                    let import = l.imports.functions[i];
                    VMFuncRef {
                        array_call: import.array_call,
                        wasm_call: import.wasm_call,
                        vmctx: import.vmctx,
                        type_index,
                    }
                },
            };
            assert(func_ref == l.func_ref(i as int, context));
            let words: Vec<u64> = vec![
                func_ref.array_call,
                func_ref.wasm_call,
                func_ref.vmctx,
                func_ref.type_index as u64,
            ];
            assert(words@ =~= func_ref_words(func_ref));
            let offset: u32 = l.offsets.vmctx_vmfunc_ref(func.func_ref);
            let ghost before = vmctx@;
            let ghost slot = Slot::FuncRef(func.func_ref.0);
            vmctx.set_words(offset, &words);
            proof {
                assert forall|k: int| #[trigger] refs.contains(k) implies l.module.functions@[k].func_ref.0
                    != func.func_ref.0 by {
                    assert(l.module.functions@[k].func_ref != l.module.functions@[i as int].func_ref);
                }
                lemma_slot_written(
                    *l,
                    before,
                    vmctx@,
                    context,
                    Progress { func_refs: refs, ..done },
                    slot,
                );
                assert(l.func_ref_holds(vmctx@, i as int, context));
                let next = Progress { func_refs: refs.insert(i as int), ..done };
                assert forall|k: int| #[trigger] next.func_refs.contains(k) implies 0 <= k
                    < l.module.functions@.len() && l.module.functions@[k].spec_is_escaping()
                    && l.func_ref_holds(vmctx@, k, context) by {
                    let now = Progress { func_refs: refs, ..done };
                    assert(k != i ==> now.func_refs.contains(k));
                }
                refs = refs.insert(i as int);
            }
        }
    }
    assert(refs =~= escaping(*l));
}

/// The functions that escape.
pub open spec fn escaping(l: Linkage) -> Set<int> {
    Set::new(
        |i: int| 0 <= i < l.module.functions@.len() && l.module.functions@[i].spec_is_escaping(),
    )
}

/// Whether a context is initialised: its static fields, the references of escaping functions, and
/// all entries of its arrays hold what they should.
pub open spec fn initialized(l: Linkage, given: Definitions, mem: Seq<u8>, vmctx: u64) -> bool {
    &&& mem.len() == l.offsets.size
    &&& l.header_holds(mem)
    &&& forall|i: int|
        0 <= i < l.module.functions@.len() && (
        #[trigger] l.module.functions@[i]).spec_is_escaping() ==> l.func_ref_holds(mem, i, vmctx)
    &&& forall|s: Slot| #[trigger]
        l.offsets.has_slot(s) && !(s is FuncRef) ==> l.slot_holds(given, mem, s)
}

/// Writes all imports.
fn initialize_imports(vmctx: &mut OwnedVMContext, l: &Linkage, Ghost(done): Ghost<Progress>)
    requires
        l.wf(),
        progress_ok(*l, old(vmctx)@, old(vmctx).spec_base() as u64, done),
        done.slots == Set::<Slot>::empty(),
    ensures
        final(vmctx).spec_base() == old(vmctx).spec_base(),
        progress_ok(
            *l,
            final(vmctx)@,
            final(vmctx).spec_base() as u64,
            Progress { slots: import_slots(*l), ..done },
        ),
{
    let ghost mut slots: Set<Slot> = Set::empty();
    for i in 0..l.imports.functions.len()
        invariant
            l.wf(),
            vmctx.spec_base() == old(vmctx).spec_base(),
            progress_ok(*l, vmctx@, vmctx.spec_base() as u64, Progress { slots, ..done }),
            forall|s: Slot| #[trigger]
                slots.contains(s) <==> (s matches Slot::ImportedFunction(k) && k < i),
    {
        let import = l.imports.functions[i];
        let words: Vec<u64> = vec![import.wasm_call, import.array_call, import.vmctx];
        let ghost slot = Slot::ImportedFunction(i as u32);
        assert(words@ =~= l.slot_words(done.given, slot));
        let offset: u32 = l.offsets.vmctx_vmfunction_import(FuncIndex(i as u32));
        write_slot(vmctx, l, offset, words, Ghost(slot), Ghost(Progress { slots, ..done }));
        proof {
            slots = slots.insert(slot);
        }
    }
    for i in 0..l.imports.tables.len()
        invariant
            l.wf(),
            vmctx.spec_base() == old(vmctx).spec_base(),
            progress_ok(*l, vmctx@, vmctx.spec_base() as u64, Progress { slots, ..done }),
            forall|s: Slot| #[trigger]
                slots.contains(s) <==> l.offsets.has_slot(s) && s is ImportedFunction || (
                s matches Slot::ImportedTable(k) && k < i),
    {
        let import = l.imports.tables[i];
        let words: Vec<u64> = vec![import.from, import.vmctx];
        let ghost slot = Slot::ImportedTable(i as u32);
        assert(words@ =~= l.slot_words(done.given, slot));
        let offset: u32 = l.offsets.vmctx_vmtable_import(TableIndex(i as u32));
        write_slot(vmctx, l, offset, words, Ghost(slot), Ghost(Progress { slots, ..done }));
        proof {
            slots = slots.insert(slot);
        }
    }
    for i in 0..l.imports.memories.len()
        invariant
            l.wf(),
            vmctx.spec_base() == old(vmctx).spec_base(),
            progress_ok(*l, vmctx@, vmctx.spec_base() as u64, Progress { slots, ..done }),
            forall|s: Slot| #[trigger]
                slots.contains(s) <==> l.offsets.has_slot(s) && (s is ImportedFunction
                    || s is ImportedTable) || (s matches Slot::ImportedMemory(k) && k < i),
    {
        let import = l.imports.memories[i];
        let words: Vec<u64> = vec![import.from, import.vmctx];
        let ghost slot = Slot::ImportedMemory(i as u32);
        assert(words@ =~= l.slot_words(done.given, slot));
        let offset: u32 = l.offsets.vmctx_vmmemory_import(MemoryIndex(i as u32));
        write_slot(vmctx, l, offset, words, Ghost(slot), Ghost(Progress { slots, ..done }));
        proof {
            slots = slots.insert(slot);
        }
    }
    for i in 0..l.imports.globals.len()
        invariant
            l.wf(),
            vmctx.spec_base() == old(vmctx).spec_base(),
            progress_ok(*l, vmctx@, vmctx.spec_base() as u64, Progress { slots, ..done }),
            forall|s: Slot| #[trigger]
                slots.contains(s) <==> l.offsets.has_slot(s) && (s is ImportedFunction
                    || s is ImportedTable || s is ImportedMemory) || (
                s matches Slot::ImportedGlobal(k) && k < i),
    {
        let import = l.imports.globals[i];
        let words: Vec<u64> = vec![import.from, import.vmctx];
        let ghost slot = Slot::ImportedGlobal(i as u32);
        assert(words@ =~= l.slot_words(done.given, slot));
        let offset: u32 = l.offsets.vmctx_vmglobal_import(GlobalIndex(i as u32));
        write_slot(vmctx, l, offset, words, Ghost(slot), Ghost(Progress { slots, ..done }));
        proof {
            slots = slots.insert(slot);
        }
    }
    assert(slots =~= import_slots(*l));
}

/// The entries for imports.
pub open spec fn import_slots(l: Linkage) -> Set<Slot> {
    Set::new(
        |s: Slot|
            l.offsets.has_slot(s) && (s is ImportedFunction || s is ImportedTable
                || s is ImportedMemory || s is ImportedGlobal),
    )
}

/// The entries that are not function references.
pub open spec fn all_slots(l: Linkage) -> Set<Slot> {
    Set::new(|s: Slot| l.offsets.has_slot(s) && !(s is FuncRef))
}

/// Writes all tables, memories and globals that the module defines.
fn initialize_definitions(
    vmctx: &mut OwnedVMContext,
    const_eval: &mut ConstExprEvaluator,
    l: &Linkage,
    tables: &Vec<Table>,
    memories: &Vec<Memory>,
    Ghost(done): Ghost<Progress>,
)
    requires
        l.wf(),
        tables@.len() == l.offsets.num_defined_tables,
        memories@.len() == l.offsets.num_defined_memories,
        done.given == definitions(tables@, memories@),
        progress_ok(*l, old(vmctx)@, old(vmctx).spec_base() as u64, done),
        done.slots == import_slots(*l),
        old(const_eval)@ == Seq::<u128>::empty(),
    ensures
        final(vmctx).spec_base() == old(vmctx).spec_base(),
        final(const_eval)@ == Seq::<u128>::empty(),
        progress_ok(
            *l,
            final(vmctx)@,
            final(vmctx).spec_base() as u64,
            Progress { slots: all_slots(*l), ..done },
        ),
{
    let ghost mut slots: Set<Slot> = done.slots;
    for i in 0..tables.len()
        invariant
            l.wf(),
            tables@.len() == l.offsets.num_defined_tables,
            done.given == definitions(tables@, memories@),
            vmctx.spec_base() == old(vmctx).spec_base(),
            progress_ok(*l, vmctx@, vmctx.spec_base() as u64, Progress { slots, ..done }),
            forall|s: Slot| #[trigger]
                slots.contains(s) <==> import_slots(*l).contains(s) || (s matches Slot::Table(k)
                    && k < i),
    {
        let definition = tables[i].as_vmtable_definition();
        assert(done.given.tables[i as int] == tables@[i as int].definition());
        let words: Vec<u64> = vec![definition.base, definition.current_length];
        let ghost slot = Slot::Table(i as u32);
        assert(words@ =~= l.slot_words(done.given, slot));
        let offset: u32 = l.offsets.vmctx_vmtable_definition(DefinedTableIndex(i as u32));
        write_slot(vmctx, l, offset, words, Ghost(slot), Ghost(Progress { slots, ..done }));
        proof {
            slots = slots.insert(slot);
        }
    }
    for i in 0..memories.len()
        invariant
            l.wf(),
            tables@.len() == l.offsets.num_defined_tables,
            memories@.len() == l.offsets.num_defined_memories,
            done.given == definitions(tables@, memories@),
            vmctx.spec_base() == old(vmctx).spec_base(),
            progress_ok(*l, vmctx@, vmctx.spec_base() as u64, Progress { slots, ..done }),
            forall|s: Slot| #[trigger]
                slots.contains(s) <==> import_slots(*l).contains(s) || l.offsets.has_slot(s)
                    && s is Table || (s matches Slot::Memory(k) && k < i),
    {
        let definition = memories[i].as_vmmemory_definition();
        assert(done.given.memories[i as int] == memories@[i as int].definition());
        let words: Vec<u64> = vec![definition.base, definition.current_length];
        let ghost slot = Slot::Memory(i as u32);
        assert(words@ =~= l.slot_words(done.given, slot));
        let offset: u32 = l.offsets.vmctx_vmmemory_definition(DefinedMemoryIndex(i as u32));
        write_slot(vmctx, l, offset, words, Ghost(slot), Ghost(Progress { slots, ..done }));
        proof {
            slots = slots.insert(slot);
        }
    }
    for i in 0..l.global_initializers.len()
        invariant
            l.wf(),
            const_eval@ == Seq::<u128>::empty(),
            vmctx.spec_base() == old(vmctx).spec_base(),
            progress_ok(*l, vmctx@, vmctx.spec_base() as u64, Progress { slots, ..done }),
            forall|s: Slot| #[trigger]
                slots.contains(s) <==> import_slots(*l).contains(s) || l.offsets.has_slot(s) && (
                s is Table || s is Memory) || (s matches Slot::Global(k) && k < i),
    {
        let value = const_eval.eval(&l.global_initializers[i]);
        let words: Vec<u64> = vec![
            (value.0 % 0x1_0000_0000_0000_0000) as u64,
            (value.0 / 0x1_0000_0000_0000_0000) as u64,
        ];
        let ghost slot = Slot::Global(i as u32);
        assert(words@ =~= l.slot_words(done.given, slot));
        let offset: u32 = l.offsets.vmctx_vmglobal_definition(DefinedGlobalIndex(i as u32));
        write_slot(vmctx, l, offset, words, Ghost(slot), Ghost(Progress { slots, ..done }));
        proof {
            slots = slots.insert(slot);
        }
    }
    assert(slots =~= all_slots(*l));
}

/// Initialises the context of an instance with tables and memories.
pub fn initialize_vmctx(
    vmctx: &mut OwnedVMContext,
    const_eval: &mut ConstExprEvaluator,
    l: &Linkage,
    tables: &Vec<Table>,
    memories: &Vec<Memory>,
)
    requires
        l.wf(),
        tables@.len() == l.offsets.num_defined_tables,
        memories@.len() == l.offsets.num_defined_memories,
        old(vmctx)@.len() == l.offsets.size,
        old(const_eval)@ == Seq::<u128>::empty(),
    ensures
        initialized(
            *l,
            definitions(tables@, memories@),
            final(vmctx)@,
            final(vmctx).spec_base() as u64,
        ),
        keeps_spare(*l, old(vmctx)@, final(vmctx)@),
        final(vmctx).spec_base() == old(vmctx).spec_base(),
        final(const_eval)@ == Seq::<u128>::empty(),
{
    vmctx.set_u32(l.offsets.static_.vmctx_magic() as u32, VMCONTEXT_MAGIC);
    let ghost m1 = vmctx@;
    vmctx.set_word(l.offsets.static_.vmctx_builtin_functions() as u32, l.builtin_functions);
    let ghost m2 = vmctx@;
    vmctx.set_word(l.offsets.static_.vmctx_type_ids() as u32, l.type_ids_ptr);
    proof {
        assert(m1.subrange(0, 4) =~= vmctx@.subrange(0, 4));
        assert(m2.subrange(8, 16) =~= vmctx@.subrange(8, 16));
    }
    let ghost start = old(vmctx)@;
    let ghost given = definitions(tables@, memories@);
    let ghost done = Progress {
        given,
        start,
        slots: Set::empty(),
        func_refs: Set::empty(),
        header: true,
    };
    initialize_vmfunc_refs(vmctx, l, Ghost(done));
    let ghost done = Progress { func_refs: escaping(*l), ..done };
    initialize_imports(vmctx, l, Ghost(done));
    let ghost done = Progress { slots: import_slots(*l), ..done };
    initialize_definitions(vmctx, const_eval, l, tables, memories, Ghost(done));
    proof {
        let vm = vmctx.spec_base() as u64;
        let done = Progress { slots: all_slots(*l), ..done };
        assert forall|i: int|
            0 <= i < l.module.functions@.len() && (
            #[trigger] l.module.functions@[i]).spec_is_escaping() implies l.func_ref_holds(
            vmctx@,
            i,
            vm,
        ) by {
            assert(done.func_refs.contains(i));
        }
        assert forall|s: Slot| #[trigger]
            l.offsets.has_slot(s) && !(s is FuncRef) implies l.slot_holds(given, vmctx@, s) by {
            assert(done.slots.contains(s));
        }
    }
}

/// The stack limit and the frames that compiled code was left from and entered from are not touched
/// when a context is initialised.
pub proof fn frames_are_kept(l: Linkage, before: Seq<u8>, after: Seq<u8>, offset: int)
    requires
        l.wf(),
        before.len() == l.offsets.size,
        keeps_spare(l, before, after),
        offset == 24 || offset == 32 || offset == 40 || offset == 48,
    ensures
        crate::runtime::vmcontext::word_at(after, offset)
            == crate::runtime::vmcontext::word_at(before, offset),
{
    assert forall|p: int| 24 <= p < 56 implies #[trigger] is_spare(l, p) by {
        assert forall|s: Slot| #[trigger] l.offsets.has_slot(s) implies !(
        l.offsets.slot_offset(s) <= p < l.offsets.slot_offset(s) + l.offsets.slot_size(s)) by {
            crate::vmoffsets::slots_lie_in_context(l.offsets, s);
        }
    }
    assert forall|p: int| 24 <= p < 56 implies #[trigger] after[p] == before[p] by {
        assert(is_spare(l, p));
    }
    assert(after.subrange(offset, offset + 8) =~= before.subrange(offset, offset + 8));
}

/// A context that is initialised tells compiled code where a table lies and how many elements it has.
pub proof fn contexts_describe_tables(
    l: Linkage,
    tables: Seq<Table>,
    memories: Seq<Memory>,
    mem: Seq<u8>,
    vmctx: u64,
    i: u32,
)
    requires
        l.wf(),
        tables.len() == l.offsets.num_defined_tables,
        initialized(l, definitions(tables, memories), mem, vmctx),
        i < tables.len(),
    ensures
        crate::runtime::vmcontext::word_at(mem, l.offsets.slot_offset(Slot::Table(i)))
            == tables[i as int].elements@.base,
        crate::runtime::vmcontext::word_at(mem, l.offsets.slot_offset(Slot::Table(i)) + 8)
            == tables[i as int].elements@.len,
{
    let given = definitions(tables, memories);
    assert(l.offsets.has_slot(Slot::Table(i)));
    assert(l.slot_holds(given, mem, Slot::Table(i)));
    let words = l.slot_words(given, Slot::Table(i));
    assert(words[0] == tables[i as int].definition().base);
    assert(words[1] == tables[i as int].definition().current_length);
}

/// A context that is initialised tells compiled code where a memory begins and its current size.
pub proof fn contexts_describe_memories(
    l: Linkage,
    tables: Seq<Table>,
    memories: Seq<Memory>,
    mem: Seq<u8>,
    vmctx: u64,
    i: u32,
)
    requires
        l.wf(),
        memories.len() == l.offsets.num_defined_memories,
        initialized(l, definitions(tables, memories), mem, vmctx),
        i < memories.len(),
    ensures
        crate::runtime::vmcontext::word_at(mem, l.offsets.slot_offset(Slot::Memory(i)))
            == memories[i as int].base,
        crate::runtime::vmcontext::word_at(mem, l.offsets.slot_offset(Slot::Memory(i)) + 8)
            == memories[i as int].len,
{
    let given = definitions(tables, memories);
    assert(l.offsets.has_slot(Slot::Memory(i)));
    assert(l.slot_holds(given, mem, Slot::Memory(i)));
    let words = l.slot_words(given, Slot::Memory(i));
    assert(words[0] == memories[i as int].definition().base);
    assert(words[1] == memories[i as int].definition().current_length);
}

/// What the elements of a table start with.
pub enum TableInitialValue {
    RefNull,
    /// The address of a function reference.
    ConstExpr(Vec<ConstOp>),
}

/// Elements that a table is given when its module is instantiated.
pub struct TableSegment {
    pub table_index: TableIndex,
    pub offset: Vec<ConstOp>,
    /// The addresses of function references.
    pub elements: Vec<Vec<ConstOp>>,
}

/// Bytes that a memory is given when its module is instantiated.
pub struct MemoryInitializer {
    pub memory_index: MemoryIndex,
    pub offset: Vec<ConstOp>,
    pub data: Vec<u8>,
}

/// The contents of a table.
pub type Elements = crate::runtime::mmap_vec::MmapVecModel<Option<usize>>;

/// The contents of all tables.
pub open spec fn contents(tables: Seq<Table>) -> Seq<Elements> {
    tables.map_values(|t: Table| t.elements@)
}

/// Whether an expression yields the address of a function reference.
pub open spec fn yields_address(ops: Seq<ConstOp>) -> bool {
    &&& crate::runtime::const_eval::yields_one(ops)
    &&& 0 < crate::runtime::const_eval::value_of(ops).low64() <= usize::MAX
}

/// The address that an expression yields.
pub open spec fn address_of(ops: Seq<ConstOp>) -> usize {
    crate::runtime::const_eval::value_of(ops).low64() as usize
}

/// The value of all elements at the start.
pub open spec fn start_value(init: TableInitialValue) -> Option<usize> {
    match init {
        TableInitialValue::RefNull => None,
        TableInitialValue::ConstExpr(ops) => Some(address_of(ops@)),
    }
}

/// The tables with their elements set to their values at the start.
pub open spec fn started(tables: Seq<Elements>, inits: Seq<TableInitialValue>) -> Seq<Elements> {
    Seq::new(
        tables.len(),
        |i: int|
            if i < inits.len() {
                tables[i].written(
                    0,
                    Seq::new(tables[i].len as nat, |k: int| start_value(inits[i])),
                )
            } else {
                tables[i]
            },
    )
}

/// The elements of a segment.
pub open spec fn segment_elements(segment: TableSegment) -> Seq<Option<usize>> {
    segment.elements@.map_values(|ops: Vec<ConstOp>| Some(address_of(ops@)))
}

/// The tables with all segments copied, in order.
pub open spec fn segments_copied(
    tables: Seq<Elements>,
    segments: Seq<TableSegment>,
    num_imported: u32,
) -> Seq<Elements>
    decreases segments.len(),
{
    if segments.len() == 0 {
        tables
    } else {
        let before = segments_copied(tables, segments.drop_last(), num_imported);
        let segment = segments.last();
        let i = segment.table_index.0 - num_imported;
        before.update(
            i,
            before[i].written(
                address_of(segment.offset@) as int,
                segment_elements(segment),
            ),
        )
    }
}

/// Whether a segment can be copied: its table is defined by the module and has the elements.
pub open spec fn segment_ok(
    tables: Seq<Elements>,
    segment: TableSegment,
    num_imported: u32,
) -> bool {
    let i = segment.table_index.0 - num_imported;
    &&& 0 <= i < tables.len()
    &&& crate::runtime::const_eval::yields_one(segment.offset@)
    &&& crate::runtime::const_eval::value_of(segment.offset@).low64() + segment.elements@.len()
        <= tables[i].len
    &&& forall|k: int|
        0 <= k < segment.elements@.len() ==> yields_address((#[trigger] segment.elements@[k])@)
}

/// Whether two tables lie at one place and have one size; their elements may differ.
pub open spec fn same_table(before: Table, after: Table) -> bool {
    &&& after.elements@.base == before.elements@.base
    &&& after.elements@.len == before.elements@.len
    &&& after.elements@.mapped.len() == before.elements@.mapped.len()
    &&& after.maximum == before.maximum
}

/// Sets the elements of all tables at the start, and copies the segments. The tables stay where they
/// are, and keep their sizes.
pub fn initialize_tables(
    tables: &mut Vec<Table>,
    const_eval: &mut ConstExprEvaluator,
    initial_values: &Vec<TableInitialValue>,
    segments: &Vec<TableSegment>,
    module: &TranslatedModule,
)
    requires
        old(const_eval)@ == Seq::<u128>::empty(),
        initial_values@.len() <= old(tables)@.len(),
        forall|i: int| 0 <= i < old(tables)@.len() ==> (#[trigger] old(tables)@[i]).elements@.wf(),
        forall|i: int|
            0 <= i < initial_values@.len() ==> (
            #[trigger] initial_values@[i] matches TableInitialValue::ConstExpr(ops)
                ==> yields_address(ops@)),
        forall|i: int|
            0 <= i < segments@.len() ==> segment_ok(
                contents(old(tables)@),
                #[trigger] segments@[i],
                module.num_imported_tables,
            ),
    ensures
        final(const_eval)@ == Seq::<u128>::empty(),
        contents(final(tables)@) == segments_copied(
            started(contents(old(tables)@), initial_values@),
            segments@,
            module.num_imported_tables,
        ),
        final(tables)@.len() == old(tables)@.len(),
        forall|i: int|
            0 <= i < final(tables)@.len() ==> (#[trigger] final(tables)@[i]).elements@.wf(),
        forall|i: int|
            0 <= i < final(tables)@.len() ==> same_table(
                old(tables)@[i],
                #[trigger] final(tables)@[i],
            ),
{
    let ghost all = contents(tables@);
    assert(started(all, initial_values@.take(0)) =~= all);
    for i in 0..initial_values.len()
        invariant
            all == contents(old(tables)@),
            const_eval@ == Seq::<u128>::empty(),
            initial_values@.len() <= tables@.len(),
            tables@.len() == all.len(),
            forall|k: int| 0 <= k < tables@.len() ==> (#[trigger] tables@[k]).elements@.wf(),
            forall|k: int|
                0 <= k < tables@.len() ==> same_table(old(tables)@[k], #[trigger] tables@[k]),
            forall|k: int|
                0 <= k < initial_values@.len() ==> (
                #[trigger] initial_values@[k] matches TableInitialValue::ConstExpr(ops)
                    ==> yields_address(ops@)),
            contents(tables@) == started(all, initial_values@.take(i as int)),
    {
        let ghost before = tables@;
        let value: Option<usize> = match &initial_values[i] {
            TableInitialValue::RefNull => None,
            TableInitialValue::ConstExpr(ops) => {
                assert(initial_values@[i as int] is ConstExpr);
                let funcref = const_eval.eval(ops);
                Some(funcref.get_u64() as usize)
            },
        };
        assert(value == start_value(initial_values@[i as int]));
        assert(contents(before)[i as int] == all[i as int]);
        tables[i].fill_elements(value);
        assert(contents(tables@) =~= started(all, initial_values@.take(i + 1))) by {
            assert forall|k: int| 0 <= k < tables@.len() implies #[trigger] contents(tables@)[k]
                == started(all, initial_values@.take(i + 1))[k] by {
                if k != i {
                    assert(contents(tables@)[k] == contents(before)[k]);
                }
            }
        }
    }
    assert(initial_values@.take(initial_values@.len() as int) =~= initial_values@);
    let ghost begun = started(all, initial_values@);
    let ghost n = module.num_imported_tables;
    assert(segments@.take(0) =~= Seq::empty());
    for i in 0..segments.len()
        invariant
            all == contents(old(tables)@),
            n == module.num_imported_tables,
            begun.len() == all.len(),
            tables@.len() == all.len(),
            const_eval@ == Seq::<u128>::empty(),
            forall|k: int| 0 <= k < tables@.len() ==> (#[trigger] tables@[k]).elements@.wf(),
            forall|k: int|
                0 <= k < tables@.len() ==> same_table(old(tables)@[k], #[trigger] tables@[k]),
            forall|k: int|
                0 <= k < tables@.len() ==> (#[trigger] contents(tables@)[k]).len == all[k].len,
            forall|k: int|
                0 <= k < segments@.len() ==> segment_ok(all, #[trigger] segments@[k], n),
            contents(tables@) == segments_copied(begun, segments@.take(i as int), n),
    {
        let segment = &segments[i];
        assert(segment_ok(all, segments@[i as int], n));
        let mut elements: Vec<Option<usize>> = Vec::new();
        for k in 0..segment.elements.len()
            invariant
                const_eval@ == Seq::<u128>::empty(),
                segment_ok(all, *segment, n),
                elements@ == segment_elements(*segment).take(k as int),
        {
            let funcref = const_eval.eval(&segment.elements[k]);
            elements.push(Some(funcref.get_u64() as usize));
            assert(elements@ =~= segment_elements(*segment).take(k + 1));
        }
        assert(elements@ =~= segment_elements(*segment));
        let offset: usize = const_eval.eval(&segment.offset).get_u64() as usize;
        let at: usize = (segment.table_index.as_u32() - module.num_imported_tables) as usize;
        let ghost before = tables@;
        assert(contents(before)[at as int].len == all[at as int].len);
        tables[at].copy_elements(offset, &elements);
        proof {
            assert(segments@.take(i + 1).drop_last() =~= segments@.take(i as int));
            assert(segments@.take(i + 1).last() == segments@[i as int]);
            assert(contents(tables@) =~= contents(before).update(
                at as int,
                contents(before)[at as int].written(offset as int, elements@),
            ));
            assert forall|k: int| 0 <= k < tables@.len() implies (#[trigger] contents(
                tables@,
            )[k]).len == all[k].len by {
                assert(contents(before)[k].len == all[k].len);
            }
        }
    }
    assert(segments@.take(segments@.len() as int) =~= segments@);
}

/// What is mapped of all memories.
pub open spec fn mapped(memories: Seq<Memory>) -> Seq<Seq<u8>> {
    memories.map_values(|m: Memory| m.mapped@)
}

/// The memories with all initialisers copied, in order.
pub open spec fn memories_written(
    memories: Seq<Seq<u8>>,
    inits: Seq<MemoryInitializer>,
    num_imported: u32,
) -> Seq<Seq<u8>>
    decreases inits.len(),
{
    if inits.len() == 0 {
        memories
    } else {
        let before = memories_written(memories, inits.drop_last(), num_imported);
        let init = inits.last();
        let i = init.memory_index.0 - num_imported;
        before.update(
            i,
            crate::host_funcs::mem_access::bytes_written(
                before[i],
                address_of(init.offset@) as int,
                init.data@,
            ),
        )
    }
}

/// Whether bytes can be copied: their memory is defined by the module and has them mapped.
pub open spec fn memory_init_ok(
    memories: Seq<Seq<u8>>,
    init: MemoryInitializer,
    num_imported: u32,
) -> bool {
    let i = init.memory_index.0 - num_imported;
    &&& 0 <= i < memories.len()
    &&& crate::runtime::const_eval::yields_one(init.offset@)
    &&& crate::runtime::const_eval::value_of(init.offset@).low64() + init.data@.len()
        <= memories[i].len()
}

/// Whether two memories differ at most in what is mapped of them.
pub open spec fn same_memory(before: Memory, after: Memory) -> bool {
    &&& after == (Memory { mapped: after.mapped, ..before })
    &&& after.mapped@.len() == before.mapped@.len()
}

/// Copies the initialisers of all memories. The memories stay where they are, and keep their sizes.
pub fn initialize_memories(
    memories: &mut Vec<Memory>,
    const_eval: &mut ConstExprEvaluator,
    initializers: &Vec<MemoryInitializer>,
    module: &TranslatedModule,
)
    requires
        old(const_eval)@ == Seq::<u128>::empty(),
        forall|i: int|
            0 <= i < initializers@.len() ==> memory_init_ok(
                mapped(old(memories)@),
                #[trigger] initializers@[i],
                module.num_imported_memories,
            ),
    ensures
        final(const_eval)@ == Seq::<u128>::empty(),
        mapped(final(memories)@) == memories_written(
            mapped(old(memories)@),
            initializers@,
            module.num_imported_memories,
        ),
        final(memories)@.len() == old(memories)@.len(),
        forall|i: int|
            0 <= i < final(memories)@.len() ==> same_memory(
                old(memories)@[i],
                #[trigger] final(memories)@[i],
            ),
{
    let ghost all = mapped(memories@);
    let ghost n = module.num_imported_memories;
    assert(initializers@.take(0) =~= Seq::empty());
    for i in 0..initializers.len()
        invariant
            all == mapped(old(memories)@),
            n == module.num_imported_memories,
            memories@.len() == all.len(),
            const_eval@ == Seq::<u128>::empty(),
            forall|k: int|
                0 <= k < memories@.len() ==> same_memory(
                    old(memories)@[k],
                    #[trigger] memories@[k],
                ),
            forall|k: int|
                0 <= k < memories@.len() ==> (#[trigger] mapped(memories@)[k]).len()
                    == all[k].len(),
            forall|k: int|
                0 <= k < initializers@.len() ==> memory_init_ok(
                    all,
                    #[trigger] initializers@[k],
                    n,
                ),
            mapped(memories@) == memories_written(all, initializers@.take(i as int), n),
    {
        let init = &initializers[i];
        assert(memory_init_ok(all, initializers@[i as int], n));
        let at: usize = (init.memory_index.as_u32() - module.num_imported_memories) as usize;
        let ghost before = memories@;
        assert(mapped(before)[at as int].len() == all[at as int].len());
        assert(memories@[at as int].mapped.len() <= usize::MAX);
        let offset: usize = const_eval.eval(&init.offset).get_u64() as usize;
        memories[at].with_user_slice_mut(offset, &init.data);
        proof {
            assert(initializers@.take(i + 1).drop_last() =~= initializers@.take(i as int));
            assert(initializers@.take(i + 1).last() == initializers@[i as int]);
            assert(mapped(memories@) =~= mapped(before).update(
                at as int,
                crate::host_funcs::mem_access::bytes_written(
                    mapped(before)[at as int],
                    offset as int,
                    init.data@,
                ),
            ));
            assert forall|k: int| 0 <= k < memories@.len() implies (#[trigger] mapped(
                memories@,
            )[k]).len() == all[k].len() by {
                assert(mapped(before)[k].len() == all[k].len());
                crate::host_funcs::mem_access::reads_give_back_writes(
                    mapped(before)[at as int],
                    offset as int,
                    init.data@,
                );
            }
        }
    }
    assert(initializers@.take(initializers@.len() as int) =~= initializers@);
}

/// An exported function, by the address of its reference.
#[derive(Debug, Clone, Copy, PartialEq, Eq, Structural)]
pub struct ExportedFunction {
    pub func_ref: usize,
}

/// An exported table.
#[derive(Debug, Clone, Copy, PartialEq, Eq, Structural)]
pub struct ExportedTable {
    pub definition: u64,
    pub vmctx: u64,
    pub table: TableDesc,
}

/// An exported memory.
#[derive(Debug, Clone, Copy, PartialEq, Eq, Structural)]
pub struct ExportedMemory {
    pub definition: u64,
    pub vmctx: u64,
    pub memory: MemoryDesc,
}

/// An exported global.
#[derive(Debug, Clone, Copy, PartialEq, Eq, Structural)]
pub struct ExportedGlobal {
    pub definition: u64,
    pub vmctx: u64,
    pub ty: GlobalDesc,
}

/// What an instance exports.
#[derive(Debug, Clone, Copy, PartialEq, Eq, Structural)]
pub enum Export {
    Function(ExportedFunction),
    Table(ExportedTable),
    Memory(ExportedMemory),
    Global(ExportedGlobal),
}

/// An instance of a module.
pub struct Instance<'a> {
    pub module: &'a TranslatedModule,
    pub offsets: VMOffsets,
    pub vmctx: OwnedVMContext,
    pub tables: Vec<Table>,
    pub memories: Vec<Memory>,
    /// The element segments that were dropped: at the start, those that were copied into tables.
    pub dropped_elems: Vec<u32>,
    /// The data segments that were dropped: at the start, those that were copied into memories.
    pub dropped_data: Vec<u32>,
    /// The exports that were asked for so far.
    pub exports: Vec<Option<Export>>,
}

impl<'a> Instance<'a> {
    /// The context is laid out for the module, on a machine with 64-bit pointers.
    pub open spec fn wf(self) -> bool {
        &&& self.module.wf()
        &&& self.offsets.wf()
        &&& self.offsets.describes(*self.module)
        &&& self.offsets.static_.ptr_size == 8
        &&& self.vmctx.wf()
        &&& self.vmctx@.len() == self.offsets.size
    }

    /// An instance whose parts are initialised.
    pub fn new_unchecked(
        l: &Linkage<'a>,
        vmctx: OwnedVMContext,
        const_eval: &mut ConstExprEvaluator,
        tables: Vec<Table>,
        memories: Vec<Memory>,
        initial_values: &Vec<TableInitialValue>,
        segments: &Vec<TableSegment>,
        initializers: &Vec<MemoryInitializer>,
        active_elems: Vec<u32>,
        active_data: Vec<u32>,
    ) -> (r: Self)
        requires
            l.wf(),
            vmctx.wf(),
            l.fits(vmctx, tables@, memories@, initial_values@, segments@, initializers@),
            old(const_eval)@ == Seq::<u128>::empty(),
            forall|i: int| 0 <= i < tables@.len() ==> (#[trigger] tables@[i]).elements@.wf(),
        ensures
            r.wf(),
            r.module == l.module,
            r.offsets == l.offsets,
            r.vmctx.spec_base() == vmctx.spec_base(),
            initialized(
                *l,
                definitions(r.tables@, r.memories@),
                r.vmctx@,
                vmctx.spec_base() as u64,
            ),
            keeps_spare(*l, vmctx@, r.vmctx@),
            contents(r.tables@) == segments_copied(
                started(contents(tables@), initial_values@),
                segments@,
                l.module.num_imported_tables,
            ),
            mapped(r.memories@) == memories_written(
                mapped(memories@),
                initializers@,
                l.module.num_imported_memories,
            ),
            r.tables@.len() == tables@.len(),
            forall|i: int|
                0 <= i < tables@.len() ==> (#[trigger] r.tables@[i]).elements@.wf() && same_table(
                    tables@[i],
                    r.tables@[i],
                ),
            r.memories@.len() == memories@.len(),
            forall|i: int|
                0 <= i < memories@.len() ==> same_memory(memories@[i], #[trigger] r.memories@[i]),
            r.dropped_elems == active_elems,
            r.dropped_data == active_data,
            r.exports@ == Seq::new(l.module.exports@.len(), |i: int| None::<Export>),
            final(const_eval)@ == Seq::<u128>::empty(),
    {
        let mut vmctx = vmctx;
        let mut tables = tables;
        let mut memories = memories;
        let ghost given = definitions(tables@, memories@);
        initialize_vmctx(&mut vmctx, const_eval, l, &tables, &memories);
        initialize_tables(&mut tables, const_eval, initial_values, segments, l.module);
        initialize_memories(&mut memories, const_eval, initializers, l.module);
        assert(definitions(tables@, memories@) =~= given);
        let mut exports: Vec<Option<Export>> = Vec::new();
        for i in 0..l.module.exports.len()
            invariant
                exports@ == Seq::new(i as nat, |k: int| None::<Export>),
        {
            exports.push(None);
            assert(exports@ =~= Seq::new((i + 1) as nat, |k: int| None::<Export>));
        }
        Instance {
            module: l.module,
            offsets: l.offsets,
            vmctx,
            tables,
            memories,
            dropped_elems: active_elems,
            dropped_data: active_data,
            exports,
        }
    }

    /// The value at the start of the context.
    pub fn vmctx_magic(&self) -> (r: u64)
        requires
            self.wf(),
        ensures
            r == crate::runtime::vmcontext::word_at(self.vmctx@, 0) % 0x1_0000_0000,
    {
        self.vmctx.word(self.offsets.static_.vmctx_magic() as u32) % 0x1_0000_0000
    }

    /// The lowest address that the stack can grow to.
    pub fn vmctx_stack_limit(&self) -> (r: u64)
        requires
            self.wf(),
        ensures
            r == crate::runtime::vmcontext::word_at(self.vmctx@, 24),
    {
        self.vmctx.word(self.offsets.static_.vmctx_stack_limit() as u32)
    }

    /// The frame that compiled code was last left from.
    pub fn vmctx_last_wasm_exit_fp(&self) -> (r: u64)
        requires
            self.wf(),
        ensures
            r == crate::runtime::vmcontext::word_at(self.vmctx@, 32),
    {
        self.vmctx.word(self.offsets.static_.vmctx_last_wasm_exit_fp() as u32)
    }

    /// The address that compiled code was last left at.
    pub fn vmctx_last_wasm_exit_pc(&self) -> (r: u64)
        requires
            self.wf(),
        ensures
            r == crate::runtime::vmcontext::word_at(self.vmctx@, 40),
    {
        self.vmctx.word(self.offsets.static_.vmctx_last_wasm_exit_pc() as u32)
    }

    /// The frame that compiled code was last entered from.
    pub fn vmctx_last_wasm_entry_fp(&self) -> (r: u64)
        requires
            self.wf(),
        ensures
            r == crate::runtime::vmcontext::word_at(self.vmctx@, 48),
    {
        self.vmctx.word(self.offsets.static_.vmctx_last_wasm_entry_fp() as u32)
    }

    /// The address of the reference of a function, unless the index is reserved.
    pub fn get_func_ref(&self, index: FuncIndex) -> (r: Option<usize>)
        requires
            self.wf(),
            !index.spec_is_reserved() ==> index.0 < self.module.functions@.len()
                && self.module.functions@[index.0 as int].func_ref.0
                < self.offsets.num_escaped_funcs,
        ensures
            r == (if index.spec_is_reserved() {
                None
            } else {
                Some(self.func_ref_address(index))
            }),
    {
        if index.is_reserved_value() {
            return None;
        }
        let func = self.module.functions[index.index()];
        Some(self.vmctx.plus_offset(self.offsets.vmctx_vmfunc_ref(func.func_ref)))
    }

    /// The address of the reference of a function.
    pub open spec fn func_ref_address(self, index: FuncIndex) -> usize {
        (self.vmctx.spec_base() + self.offsets.slot_offset(
            Slot::FuncRef(self.module.functions@[index.0 as int].func_ref.0),
        )) as usize
    }

    /// The export of a function that escapes.
    pub fn get_exported_func(&self, index: FuncIndex) -> (r: ExportedFunction)
        requires
            self.wf(),
            !index.spec_is_reserved(),
            index.0 < self.module.functions@.len(),
            self.module.functions@[index.0 as int].func_ref.0 < self.offsets.num_escaped_funcs,
        ensures
            r.func_ref == self.func_ref_address(index),
    {
        match self.get_func_ref(index) {
            Some(func_ref) => ExportedFunction { func_ref },
            None => {
                assert(false);
                ExportedFunction { func_ref: 0 }
            },
        }
    }

    /// Where an entry of the context is found, and the context that it belongs to: for an import,
    /// what was imported.
    pub open spec fn located(self, slot: Slot) -> (u64, u64) {
        match slot {
            Slot::ImportedTable(_) | Slot::ImportedMemory(_) | Slot::ImportedGlobal(_) => (
                crate::runtime::vmcontext::word_at(self.vmctx@, self.offsets.slot_offset(slot)),
                crate::runtime::vmcontext::word_at(
                    self.vmctx@,
                    self.offsets.slot_offset(slot) + 8,
                ),
            ),
            _ => (
                (self.vmctx.spec_base() + self.offsets.slot_offset(slot)) as u64,
                self.vmctx.spec_base() as u64,
            ),
        }
    }

    /// What was imported at an offset.
    fn imported(&self, offset: u32) -> (r: VMImport)
        requires
            offset + 16 <= self.vmctx@.len() <= u32::MAX,
        ensures
            r.from == crate::runtime::vmcontext::word_at(self.vmctx@, offset as int),
            r.vmctx == crate::runtime::vmcontext::word_at(self.vmctx@, offset + 8),
    {
        VMImport { from: self.vmctx.word(offset), vmctx: self.vmctx.word(offset + 8) }
    }

    /// An imported function.
    pub fn imported_function(&self, index: FuncIndex) -> (r: VMFunctionImport)
        requires
            self.wf(),
            index.0 < self.module.num_imported_functions,
        ensures
            crate::runtime::vmcontext::words_at(
                self.vmctx@,
                self.offsets.slot_offset(Slot::ImportedFunction(index.0)),
                function_import_words(r),
            ),
    {
        let offset: u32 = self.offsets.vmctx_vmfunction_import(index);
        VMFunctionImport {
            wasm_call: self.vmctx.word(offset),
            array_call: self.vmctx.word(offset + 8),
            vmctx: self.vmctx.word(offset + 16),
        }
    }

    /// An imported table.
    pub fn imported_table(&self, index: TableIndex) -> (r: VMImport)
        requires
            self.wf(),
            index.0 < self.module.num_imported_tables,
        ensures
            (r.from, r.vmctx) == self.located(Slot::ImportedTable(index.0)),
    {
        self.imported(self.offsets.vmctx_vmtable_import(index))
    }

    /// The address of a table that the module defines.
    pub fn table_ptr(&self, index: DefinedTableIndex) -> (r: u64)
        requires
            self.wf(),
            index.0 < self.offsets.num_defined_tables,
        ensures
            r == self.located(Slot::Table(index.0)).0,
    {
        self.vmctx.plus_offset(self.offsets.vmctx_vmtable_definition(index)) as u64
    }

    /// An imported memory.
    pub fn imported_memory(&self, index: MemoryIndex) -> (r: VMImport)
        requires
            self.wf(),
            index.0 < self.module.num_imported_memories,
        ensures
            (r.from, r.vmctx) == self.located(Slot::ImportedMemory(index.0)),
    {
        self.imported(self.offsets.vmctx_vmmemory_import(index))
    }

    /// The address of a memory that the module defines.
    pub fn memory_ptr(&self, index: DefinedMemoryIndex) -> (r: u64)
        requires
            self.wf(),
            index.0 < self.offsets.num_defined_memories,
        ensures
            r == self.located(Slot::Memory(index.0)).0,
    {
        self.vmctx.plus_offset(self.offsets.vmctx_vmmemory_definition(index)) as u64
    }

    /// An imported global.
    pub fn imported_global(&self, index: GlobalIndex) -> (r: VMImport)
        requires
            self.wf(),
            index.0 < self.module.num_imported_globals,
        ensures
            (r.from, r.vmctx) == self.located(Slot::ImportedGlobal(index.0)),
    {
        self.imported(self.offsets.vmctx_vmglobal_import(index))
    }

    /// The address of a global that the module defines.
    pub fn global_ptr(&self, index: DefinedGlobalIndex) -> (r: u64)
        requires
            self.wf(),
            index.0 < self.offsets.num_defined_globals,
        ensures
            r == self.located(Slot::Global(index.0)).0,
    {
        self.vmctx.plus_offset(self.offsets.vmctx_vmglobal_definition(index)) as u64
    }

    /// The entry of a table.
    pub open spec fn table_slot(self, index: TableIndex) -> Slot {
        if index.0 < self.module.num_imported_tables {
            Slot::ImportedTable(index.0)
        } else {
            Slot::Table((index.0 - self.module.num_imported_tables) as u32)
        }
    }

    /// The export of a table.
    pub fn get_exported_table(&self, index: TableIndex) -> (r: ExportedTable)
        requires
            self.wf(),
            index.0 < self.module.tables@.len(),
        ensures
            (r.definition, r.vmctx) == self.located(self.table_slot(index)),
            r.table == self.module.tables@[index.0 as int],
    {
        let (definition, vmctx) = match self.module.defined_table_index(index) {
            Some(def_index) => (self.table_ptr(def_index), self.vmctx.as_ptr() as u64),
            None => {
                let import = self.imported_table(index);
                (import.from, import.vmctx)
            },
        };
        ExportedTable { definition, vmctx, table: self.module.tables[index.index()] }
    }

    /// The entry of a memory.
    pub open spec fn memory_slot(self, index: MemoryIndex) -> Slot {
        if index.0 < self.module.num_imported_memories {
            Slot::ImportedMemory(index.0)
        } else {
            Slot::Memory((index.0 - self.module.num_imported_memories) as u32)
        }
    }

    /// The export of a memory.
    pub fn get_exported_memory(&self, index: MemoryIndex) -> (r: ExportedMemory)
        requires
            self.wf(),
            index.0 < self.module.memories@.len(),
        ensures
            (r.definition, r.vmctx) == self.located(self.memory_slot(index)),
            r.memory == self.module.memories@[index.0 as int],
    {
        let (definition, vmctx) = match self.module.defined_memory_index(index) {
            Some(def_index) => (self.memory_ptr(def_index), self.vmctx.as_ptr() as u64),
            None => {
                let import = self.imported_memory(index);
                (import.from, import.vmctx)
            },
        };
        ExportedMemory { definition, vmctx, memory: self.module.memories[index.index()] }
    }

    /// The entry of a global.
    pub open spec fn global_slot(self, index: GlobalIndex) -> Slot {
        if index.0 < self.module.num_imported_globals {
            Slot::ImportedGlobal(index.0)
        } else {
            Slot::Global((index.0 - self.module.num_imported_globals) as u32)
        }
    }

    /// The export of a global.
    pub fn get_exported_global(&self, index: GlobalIndex) -> (r: ExportedGlobal)
        requires
            self.wf(),
            index.0 < self.module.globals@.len(),
        ensures
            (r.definition, r.vmctx) == self.located(self.global_slot(index)),
            r.ty == self.module.globals@[index.0 as int],
    {
        let (definition, vmctx) = match self.module.defined_global_index(index) {
            Some(def_index) => (self.global_ptr(def_index), self.vmctx.as_ptr() as u64),
            None => {
                let import = self.imported_global(index);
                (import.from, import.vmctx)
            },
        };
        ExportedGlobal { definition, vmctx, ty: self.module.globals[index.index()] }
    }

    /// Whether an entity can be exported.
    pub open spec fn exportable(self, index: EntityIndex) -> bool {
        match index {
            EntityIndex::Function(i) => {
                &&& !i.spec_is_reserved()
                &&& i.0 < self.module.functions@.len()
                &&& self.module.functions@[i.0 as int].func_ref.0 < self.offsets.num_escaped_funcs
            },
            EntityIndex::Table(i) => i.0 < self.module.tables@.len(),
            EntityIndex::Memory(i) => i.0 < self.module.memories@.len(),
            EntityIndex::Global(i) => i.0 < self.module.globals@.len(),
            EntityIndex::Tag(_) => false,
        }
    }

    /// The export of an entity.
    pub open spec fn export_of(self, index: EntityIndex) -> Export {
        match index {
            EntityIndex::Function(i) => Export::Function(
                ExportedFunction { func_ref: self.func_ref_address(i) },
            ),
            EntityIndex::Table(i) => Export::Table(
                ExportedTable {
                    definition: self.located(self.table_slot(i)).0,
                    vmctx: self.located(self.table_slot(i)).1,
                    table: self.module.tables@[i.0 as int],
                },
            ),
            EntityIndex::Memory(i) => Export::Memory(
                ExportedMemory {
                    definition: self.located(self.memory_slot(i)).0,
                    vmctx: self.located(self.memory_slot(i)).1,
                    memory: self.module.memories@[i.0 as int],
                },
            ),
            EntityIndex::Global(i) => Export::Global(
                ExportedGlobal {
                    definition: self.located(self.global_slot(i)).0,
                    vmctx: self.located(self.global_slot(i)).1,
                    ty: self.module.globals@[i.0 as int],
                },
            ),
            EntityIndex::Tag(_) => Export::Function(ExportedFunction { func_ref: 0 }),
        }
    }

    /// The export of an entity.
    pub fn get_export_by_index(&self, index: EntityIndex) -> (r: Export)
        requires
            self.wf(),
            self.exportable(index),
        ensures
            r == self.export_of(index),
    {
        match index {
            EntityIndex::Function(i) => Export::Function(self.get_exported_func(i)),
            EntityIndex::Table(i) => Export::Table(self.get_exported_table(i)),
            EntityIndex::Memory(i) => Export::Memory(self.get_exported_memory(i)),
            EntityIndex::Global(i) => Export::Global(self.get_exported_global(i)),
            EntityIndex::Tag(_) => {
                assert(false);
                Export::Function(ExportedFunction { func_ref: 0 })
            },
        }
    }
}

/// What was imported is exported again as it was imported.
pub proof fn imports_are_passed_on(l: Linkage, instance: Instance, i: u32)
    requires
        l.wf(),
        instance.wf(),
        instance.module == l.module,
        instance.offsets == l.offsets,
        initialized(
            l,
            definitions(instance.tables@, instance.memories@),
            instance.vmctx@,
            instance.vmctx.spec_base() as u64,
        ),
    ensures
        i < l.module.num_imported_tables ==> instance.located(instance.table_slot(TableIndex(i)))
            == (l.imports.tables@[i as int].from, l.imports.tables@[i as int].vmctx),
        i < l.module.num_imported_memories ==> instance.located(
            instance.memory_slot(MemoryIndex(i)),
        ) == (l.imports.memories@[i as int].from, l.imports.memories@[i as int].vmctx),
        i < l.module.num_imported_globals ==> instance.located(
            instance.global_slot(GlobalIndex(i)),
        ) == (l.imports.globals@[i as int].from, l.imports.globals@[i as int].vmctx),
        i < l.module.num_imported_functions ==> crate::runtime::vmcontext::words_at(
            instance.vmctx@,
            instance.offsets.slot_offset(Slot::ImportedFunction(i)),
            function_import_words(l.imports.functions@[i as int]),
        ),
{
    if i < l.module.num_imported_functions {
        assert(l.offsets.has_slot(Slot::ImportedFunction(i)));
        assert(l.slot_holds(
            definitions(instance.tables@, instance.memories@),
            instance.vmctx@,
            Slot::ImportedFunction(i),
        ));
    }
    if i < l.module.num_imported_tables {
        lemma_import_located(l, instance, Slot::ImportedTable(i));
    }
    if i < l.module.num_imported_memories {
        lemma_import_located(l, instance, Slot::ImportedMemory(i));
    }
    if i < l.module.num_imported_globals {
        lemma_import_located(l, instance, Slot::ImportedGlobal(i));
    }
}

/// An import is located at what was imported.
proof fn lemma_import_located(l: Linkage, instance: Instance, slot: Slot)
    requires
        l.wf(),
        instance.wf(),
        instance.offsets == l.offsets,
        initialized(
            l,
            definitions(instance.tables@, instance.memories@),
            instance.vmctx@,
            instance.vmctx.spec_base() as u64,
        ),
        l.offsets.has_slot(slot),
        slot is ImportedTable || slot is ImportedMemory || slot is ImportedGlobal,
    ensures
        ({
            let given = definitions(instance.tables@, instance.memories@);
            instance.located(slot) == (l.slot_words(given, slot)[0], l.slot_words(given, slot)[1])
        }),
{
    let given = definitions(instance.tables@, instance.memories@);
    assert(l.slot_holds(given, instance.vmctx@, slot));
    let words = l.slot_words(given, slot);
    assert(words[0] == crate::runtime::vmcontext::word_at(
        instance.vmctx@,
        l.offsets.slot_offset(slot) + 8 * 0,
    ));
    assert(words[1] == crate::runtime::vmcontext::word_at(
        instance.vmctx@,
        l.offsets.slot_offset(slot) + 8 * 1,
    ));
}

} // verus!
