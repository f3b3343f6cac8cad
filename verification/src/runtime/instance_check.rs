//! Whether a module can be instantiated.
use crate::runtime::const_eval::{ConstExprEvaluator, ConstOp};
use crate::runtime::instance::{
    contents, mapped, memory_init_ok, segment_ok, yields_address, Linkage, MemoryInitializer,
    TableInitialValue, TableSegment,
};
use crate::runtime::memory::Memory;
use crate::runtime::table::Table;
use crate::runtime::vmcontext::OwnedVMContext;
use vstd::prelude::*;

verus! {

/// Whether an expression yields exactly one value.
pub fn is_one_value(ops: &Vec<ConstOp>) -> (r: bool)
    ensures
        r == crate::runtime::const_eval::yields_one(ops@),
{
    let ghost empty = Seq::<u128>::empty();
    let mut depth: usize = 0;
    assert(ops@.take(0) =~= Seq::empty());
    for i in 0..ops.len()
        invariant
            empty == Seq::<u128>::empty(),
            crate::runtime::const_eval::run(empty, ops@.take(i as int)) matches Some(stack)
                && stack.len() == depth,
            depth <= i,
    {
        assert(ops@.take(i + 1).drop_last() =~= ops@.take(i as int));
        assert(ops@.take(i + 1).last() == ops@[i as int]);
        match ops[i] {
            ConstOp::I32Const(_) | ConstOp::I64Const(_) | ConstOp::F32Const(_) | ConstOp::F64Const(
                _,
            ) | ConstOp::V128Const(_) => {
                depth = depth + 1;
            },
            ConstOp::GlobalGet(_) | ConstOp::RefI31 | ConstOp::RefNull | ConstOp::RefFunc(_) => {
                proof {
                    if crate::runtime::const_eval::yields_one(ops@) {
                        crate::runtime::const_eval::lemma_run_prefix(empty, ops@, i + 1);
                    }
                }
                return false;
            },
            _ => {
                if depth < 2 {
                    proof {
                        if crate::runtime::const_eval::yields_one(ops@) {
                            crate::runtime::const_eval::lemma_run_prefix(empty, ops@, i + 1);
                        }
                    }
                    return false;
                }
                depth = depth - 1;
            },
        }
    }
    assert(ops@.take(ops@.len() as int) =~= ops@);
    depth == 1
}

/// Whether an expression yields an address.
fn is_address(ops: &Vec<ConstOp>) -> (r: bool)
    ensures
        r == yields_address(ops@),
{
    if !is_one_value(ops) {
        return false;
    }
    let mut eval = ConstExprEvaluator::new();
    let value: u64 = eval.eval(ops).get_u64();
    0 < value && value <= usize::MAX as u64
}

/// Whether an expression yields an offset at which a number of things fits in a length.
fn is_offset(ops: &Vec<ConstOp>, count: usize, length: usize) -> (r: bool)
    ensures
        r == (crate::runtime::const_eval::yields_one(ops@)
            && crate::runtime::const_eval::value_of(ops@).low64() + count <= length),
{
    if !is_one_value(ops) {
        return false;
    }
    let mut eval = ConstExprEvaluator::new();
    let value: u64 = eval.eval(ops).get_u64();
    value <= length as u64 && count <= length - value as usize
}

/// Whether a segment fits in its table.
fn is_segment_ok(tables: &Vec<Table>, segment: &TableSegment, num_imported: u32) -> (r: bool)
    ensures
        r == segment_ok(contents(tables@), *segment, num_imported),
{
    if segment.table_index.0 < num_imported {
        return false;
    }
    let i: usize = (segment.table_index.0 - num_imported) as usize;
    if i >= tables.len() {
        return false;
    }
    assert(contents(tables@)[i as int] == tables@[i as int].elements@);
    if !is_offset(&segment.offset, segment.elements.len(), tables[i].elements.len()) {
        return false;
    }
    for k in 0..segment.elements.len()
        invariant
            forall|j: int|
                0 <= j < k ==> yields_address((#[trigger] segment.elements@[j])@),
    {
        if !is_address(&segment.elements[k]) {
            assert(!yields_address(segment.elements@[k as int]@));
            return false;
        }
    }
    true
}

/// Whether an initialiser fits in its memory.
fn is_memory_init_ok(memories: &Vec<Memory>, init: &MemoryInitializer, num_imported: u32) -> (r:
    bool)
    ensures
        r == memory_init_ok(mapped(memories@), *init, num_imported),
{
    if init.memory_index.0 < num_imported {
        return false;
    }
    let i: usize = (init.memory_index.0 - num_imported) as usize;
    if i >= memories.len() {
        return false;
    }
    assert(mapped(memories@)[i as int] == memories@[i as int].mapped@);
    is_offset(&init.offset, init.data.len(), memories[i].mapped.len())
}

impl<'a> Linkage<'a> {
    /// Whether an escaping function has a slot, a type and a trampoline.
    fn is_func_ok(&self, i: usize) -> (r: bool)
        requires
            i < self.module.functions@.len(),
            self.module.num_imported_functions <= self.module.functions@.len() < u32::MAX,
            self.function_info@.len() == self.module.functions@.len()
                - self.module.num_imported_functions,
        ensures
            r == self.func_ok(i as int),
    {
        let f = &self.module.functions[i];
        if f.func_ref.0 >= self.offsets.num_escaped_funcs {
            return false;
        }
        let signature: usize = f.signature as usize;
        if signature >= self.module.types.len() || self.module.types[signature].0 as usize
            >= self.type_ids.len() {
            return false;
        }
        let imported: usize = self.module.num_imported_functions as usize;
        if i >= imported {
            let info = &self.function_info[i - imported];
            match info.host_to_wasm_trampoline {
                Some(loc) => self.text <= u64::MAX - loc.start as u64 && self.text <= u64::MAX
                    - info.wasm_func_loc.start as u64,
                None => false,
            }
        } else {
            true
        }
    }

    /// Whether every escaping function has a slot of its own, a type and a trampoline.
    pub open spec fn funcs_ok(self) -> bool {
        &&& forall|i: int|
            0 <= i < self.module.functions@.len()
                && self.module.functions@[i].spec_is_escaping() ==> #[trigger] self.func_ok(i)
        &&& forall|i: int, j: int|
            0 <= i < j < self.module.functions@.len()
                && self.module.functions@[i].spec_is_escaping()
                && self.module.functions@[j].spec_is_escaping() ==> (
            #[trigger] self.module.functions@[i]).func_ref != (
            #[trigger] self.module.functions@[j]).func_ref
    }

    /// Whether every escaping function has a slot of its own, a type and a trampoline.
    fn are_funcs_ok(&self) -> (r: bool)
        requires
            self.module.num_imported_functions <= self.module.functions@.len() < u32::MAX,
            self.function_info@.len() == self.module.functions@.len()
                - self.module.num_imported_functions,
        ensures
            r == self.funcs_ok(),
    {
        let functions = &self.module.functions;
        for j in 0..functions.len()
            invariant
                functions@ == self.module.functions@,
                self.module.num_imported_functions <= self.module.functions@.len() < u32::MAX,
                self.function_info@.len() == self.module.functions@.len()
                    - self.module.num_imported_functions,
                forall|k: int|
                    0 <= k < j && functions@[k].spec_is_escaping() ==> #[trigger] self.func_ok(k),
                forall|i: int, k: int|
                    0 <= i < k < j && functions@[i].spec_is_escaping()
                        && functions@[k].spec_is_escaping() ==> (#[trigger] functions@[i]).func_ref
                        != (#[trigger] functions@[k]).func_ref,
        {
            if functions[j].is_escaping() {
                if !self.is_func_ok(j) {
                    assert(!self.func_ok(j as int));
                    return false;
                }
                for i in 0..j
                    invariant
                        j < functions@.len(),
                        functions@ == self.module.functions@,
                        functions@[j as int].spec_is_escaping(),
                        forall|k: int|
                            0 <= k < i && functions@[k].spec_is_escaping() ==> (
                            #[trigger] functions@[k]).func_ref != functions@[j as int].func_ref,
                {
                    if functions[i].is_escaping() && functions[i].func_ref.0
                        == functions[j].func_ref.0 {
                        assert(functions@[i as int].func_ref == functions@[j as int].func_ref);
                        return false;
                    }
                }
            }
        }
        true
    }

    /// Whether everything is there that the module declares, given the layout of its context.
    pub fn is_complete(&self) -> (r: bool)
        requires
            self.module.wf(),
            self.offsets.wf(),
            self.offsets.describes(*self.module),
            self.offsets.static_.ptr_size == 8,
        ensures
            r == self.wf(),
    {
        let module = self.module;
        if self.imports.functions.len() != module.num_imported_functions as usize
            || self.imports.tables.len() != module.num_imported_tables as usize
            || self.imports.memories.len() != module.num_imported_memories as usize
            || self.imports.globals.len() != module.num_imported_globals as usize
            || self.global_initializers.len() != self.offsets.num_defined_globals as usize
            || self.function_info.len() != module.functions.len()
            - module.num_imported_functions as usize {
            return false;
        }
        for i in module.num_imported_memories as usize..module.memories.len()
            invariant
                module == self.module,
                forall|k: int|
                    module.num_imported_memories <= k < i ==> !(
                    #[trigger] module.memories@[k]).shared,
        {
            if module.memories[i].shared {
                return false;
            }
        }
        if !self.are_funcs_ok() {
            return false;
        }
        for i in 0..self.global_initializers.len()
            invariant
                forall|k: int|
                    0 <= k < i ==> crate::runtime::const_eval::yields_one(
                        (#[trigger] self.global_initializers@[k])@,
                    ),
        {
            if !is_one_value(&self.global_initializers[i]) {
                assert(!crate::runtime::const_eval::yields_one(
                    self.global_initializers@[i as int]@,
                ));
                return false;
            }
        }
        true
    }

    /// Whether the parts of an instance fit together: the context has its size, there are the tables
    /// and memories that the module defines, and its values and segments fit in them.
    pub open spec fn fits(
        self,
        vmctx: OwnedVMContext,
        tables: Seq<Table>,
        memories: Seq<Memory>,
        initial_values: Seq<TableInitialValue>,
        segments: Seq<TableSegment>,
        initializers: Seq<MemoryInitializer>,
    ) -> bool {
        &&& vmctx@.len() == self.offsets.size
        &&& tables.len() == self.offsets.num_defined_tables
        &&& memories.len() == self.offsets.num_defined_memories
        &&& initial_values.len() <= tables.len()
        &&& forall|i: int|
            0 <= i < initial_values.len() ==> (
            #[trigger] initial_values[i] matches TableInitialValue::ConstExpr(ops)
                ==> yields_address(ops@))
        &&& forall|i: int|
            0 <= i < segments.len() ==> segment_ok(
                contents(tables),
                #[trigger] segments[i],
                self.module.num_imported_tables,
            )
        &&& forall|i: int|
            0 <= i < initializers.len() ==> memory_init_ok(
                mapped(memories),
                #[trigger] initializers[i],
                self.module.num_imported_memories,
            )
    }

    /// Whether the parts of an instance fit together.
    pub fn is_fitting(
        &self,
        vmctx: &OwnedVMContext,
        tables: &Vec<Table>,
        memories: &Vec<Memory>,
        initial_values: &Vec<TableInitialValue>,
        segments: &Vec<TableSegment>,
        initializers: &Vec<MemoryInitializer>,
    ) -> (r: bool)
        ensures
            r == self.fits(
                *vmctx,
                tables@,
                memories@,
                initial_values@,
                segments@,
                initializers@,
            ),
    {
        if vmctx.size() != self.offsets.size as usize || tables.len()
            != self.offsets.num_defined_tables as usize || memories.len()
            != self.offsets.num_defined_memories as usize || initial_values.len() > tables.len() {
            return false;
        }
        for i in 0..initial_values.len()
            invariant
                forall|k: int|
                    0 <= k < i ==> (
                    #[trigger] initial_values@[k] matches TableInitialValue::ConstExpr(ops)
                        ==> yields_address(ops@)),
        {
            match &initial_values[i] {
                TableInitialValue::RefNull => {},
                TableInitialValue::ConstExpr(ops) => {
                    if !is_address(ops) {
                        assert(initial_values@[i as int] is ConstExpr);
                        return false;
                    }
                },
            }
        }
        for i in 0..segments.len()
            invariant
                forall|k: int|
                    0 <= k < i ==> segment_ok(
                        contents(tables@),
                        #[trigger] segments@[k],
                        self.module.num_imported_tables,
                    ),
        {
            if !is_segment_ok(tables, &segments[i], self.module.num_imported_tables) {
                assert(!segment_ok(
                    contents(tables@),
                    segments@[i as int],
                    self.module.num_imported_tables,
                ));
                return false;
            }
        }
        for i in 0..initializers.len()
            invariant
                forall|k: int|
                    0 <= k < i ==> memory_init_ok(
                        mapped(memories@),
                        #[trigger] initializers@[k],
                        self.module.num_imported_memories,
                    ),
        {
            if !is_memory_init_ok(memories, &initializers[i], self.module.num_imported_memories) {
                assert(!memory_init_ok(
                    mapped(memories@),
                    initializers@[i as int],
                    self.module.num_imported_memories,
                ));
                return false;
            }
        }
        true
    }
}

} // verus!
