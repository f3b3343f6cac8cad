//! Tests whether an operator can come next.
use crate::builder::{Code, FunctionBuilder};
use crate::cranelift::access::mem_op_size;
use crate::cranelift::branch_table::min_depth;
use crate::cranelift::env::{value_type, wasm_call_signature, TranslationEnvironment};
use crate::cranelift::invoke::{collect_param_types, collect_return_types};
use crate::cranelift::memory::{CraneliftMemory, MemArg};
use crate::cranelift::operator::{
    AccessRecipe, LaneAccessRecipe, LaneRecipe, NumericRecipe, Operator, VectorRecipe,
};
use crate::cranelift::state::{
    BlockType, ControlStackFrame, ElseData, FuncTranslationState, StateModel,
};
use crate::cranelift::table::CraneliftGlobal;
use crate::cranelift::world::World;
use crate::indices::{CanonicalizedTypeIndex, MemoryIndex};
use crate::ir::{GlobalValue, MemoryType, Opcode, Type, Value};
use crate::types::{WasmHeapTopType, WasmHeapType, WasmHeapTypeInner, WasmValType};
use vstd::prelude::*;

verus! {

/// Whether references of a heap type can be compiled.
fn is_supported_heap_type(hty: &WasmHeapType) -> (r: bool)
    ensures
        r == crate::cranelift::env::supported_heap_type(*hty),
{
    match hty.top() {
        WasmHeapTopType::Func | WasmHeapTopType::Any | WasmHeapTopType::Extern => true,
        _ => false,
    }
}

/// Whether values of a type can be compiled.
fn is_supported(ty: &WasmValType) -> (r: bool)
    ensures
        r == crate::cranelift::env::supported_val_type(*ty),
{
    match ty {
        WasmValType::Ref(r) => is_supported_heap_type(&r.heap_type),
        _ => true,
    }
}

/// Whether values of all types of a list can be compiled.
fn are_supported(list: &Vec<WasmValType>) -> (r: bool)
    ensures
        r == (forall|i: int|
            0 <= i < list@.len() ==> crate::cranelift::env::supported_val_type(
                #[trigger] list@[i],
            )),
{
    for i in 0..list.len()
        invariant
            forall|k: int|
                0 <= k < i ==> crate::cranelift::env::supported_val_type(#[trigger] list@[k]),
    {
        if !is_supported(&list[i]) {
            return false;
        }
    }
    true
}

impl<'a> TranslationEnvironment<'a> {
    /// Whether a position of the module's list of types names a function type that can be compiled.
    pub fn is_func_type(&self, index: u32) -> (r: bool)
        ensures
            r == self.has_func_type(index),
    {
        if index as usize >= self.module.types.len() {
            return false;
        }
        let interned = self.module.types[index as usize];
        if interned.index() >= self.types.types.len() {
            return false;
        }
        let ty = &self.types.types[interned.index()];
        assert(self.func_type(index).params == ty.params@);
        assert(self.func_type(index).results == ty.results@);
        are_supported(&ty.params) && are_supported(&ty.results)
    }

    /// Whether a block of a type can be entered with a number of values on the stack.
    fn is_enterable(&self, blockty: BlockType, height: usize) -> (r: bool)
        ensures
            r == (crate::cranelift::control::has_block_type(*self, blockty)
                && crate::cranelift::control::block_signature(*self, blockty).params.len()
                <= height),
            crate::cranelift::control::has_block_type(*self, blockty)
                ==> crate::cranelift::control::block_signature(*self, blockty).results.len()
                <= usize::MAX,
    {
        match blockty {
            BlockType::Empty => true,
            BlockType::Type(ty) => is_supported(&ty),
            BlockType::FuncType(index) => {
                if !self.is_func_type(index) {
                    return false;
                }
                let interned = self.module.types[index as usize];
                let ty = &self.types.types[interned.index()];
                assert(ty.results.len() <= usize::MAX);
                ty.params.len() <= height
            },
        }
    }

    /// Whether an `else` can follow in an `if` of a type; the number of parameters is that of the
    /// results where the `if` was entered without a block for the `else`.
    fn has_else(&self, blockty: BlockType, results: usize, without: bool) -> (r: bool)
        ensures
            r == (crate::cranelift::control::has_block_type(*self, blockty) && (without
                ==> crate::cranelift::control::block_signature(*self, blockty).params.len()
                == results)),
    {
        match blockty {
            BlockType::Empty => !without || results == 0,
            BlockType::Type(ty) => is_supported(&ty) && (!without || results == 0),
            BlockType::FuncType(index) => {
                if !self.is_func_type(index) {
                    return false;
                }
                let interned = self.module.types[index as usize];
                !without || self.types.types[interned.index()].params.len() == results
            },
        }
    }

    /// Whether a memory can be compiled.
    fn is_memory(&self, index: u32) -> (r: bool)
        requires
            self.wf(),
        ensures
            r == self.has_memory(MemoryIndex(index)),
    {
        if index as usize >= self.module.memories.len() {
            return false;
        }
        let plan = self.module.memories[index as usize];
        if plan.shared && index >= self.module.num_imported_memories {
            return false;
        }
        match plan.minimum_byte_size() {
            Ok(_) => true,
            Err(_) => plan.minimum == crate::types::WASM64_MAX_PAGES && plan.page_size_log2 == 16,
        }
    }

    /// Whether a table can be compiled, and functions of a type be called through it.
    fn is_callable_table(&self, table_index: u32, type_index: u32) -> (r: bool)
        ensures
            r == (self.has_table(crate::indices::TableIndex(table_index))
                && crate::cranelift::call::CallBuilder::callable(
                *self,
                crate::indices::TableIndex(table_index),
                crate::indices::TypeIndex(type_index),
            )),
    {
        if table_index as usize >= self.module.tables.len() {
            return false;
        }
        let table = self.module.tables[table_index as usize];
        let fixed = match table.maximum {
            Some(maximum) => maximum == table.minimum,
            None => false,
        };
        let element = table.element_type;
        fixed && table.minimum <= i64::MAX as u64 && is_supported_heap_type(&element.heap_type) && (
        type_index as usize) < self.module.types.len() && !element.heap_type.shared
            && match element.heap_type.ty {
            WasmHeapTypeInner::Func => type_index as u64 * 4 <= i32::MAX as u64,
            WasmHeapTypeInner::ConcreteFunc(CanonicalizedTypeIndex::Module(_)) => true,
            WasmHeapTypeInner::NoFunc => element.nullable,
            _ => false,
        }
    }

    /// Whether a global can be compiled.
    fn is_global(&self, index: u32) -> (r: bool)
        ensures
            r == self.has_global(crate::indices::GlobalIndex(index)),
    {
        (index as usize) < self.module.globals.len() && !self.module.globals[index as usize].shared
            && is_supported(&self.module.globals[index as usize].content_type)
    }
}

/// Whether the values on top of a stack can be passed as values of the given types, below a number of
/// others.
fn are_passable(
    builder: &FunctionBuilder,
    stack: &Vec<Value>,
    above: usize,
    n: usize,
    types: &Vec<Type>,
) -> (r: bool)
    requires
        builder@.has_all(stack@),
        above + n <= stack@.len(),
    ensures
        r == crate::cranelift::invoke::passable(
            builder@,
            crate::cranelift::state::top(stack@.take(stack@.len() - above), n as int),
            types@,
        ),
{
    let ghost args = crate::cranelift::state::top(stack@.take(stack@.len() - above), n as int);
    assert(args.len() == n);
    if types.len() != n {
        return false;
    }
    let base: usize = stack.len() - above - n;
    for i in 0..n
        invariant
            builder@.has_all(stack@),
            above + n <= stack@.len(),
            base == stack@.len() - above - n,
            types@.len() == n,
            args == crate::cranelift::state::top(stack@.take(stack@.len() - above), n as int),
            args.len() == n,
            forall|k: int|
                0 <= k < i && (#[trigger] types@[k]).spec_is_vector() ==> builder@.ty(
                    args[k],
                ).spec_is_vector(),
    {
        assert(args[i as int] == stack@[base + i]);
        assert(stack.len() <= usize::MAX);
        if types[i].is_vector() && !builder.value_type(stack[base + i]).is_vector() {
            return false;
        }
    }
    true
}

/// Whether two memories are checked and addressed alike.
pub open spec fn same_shape(a: CraneliftMemory, b: CraneliftMemory) -> bool {
    &&& a.index_type == b.index_type
    &&& a.memory_type is Some == b.memory_type is Some
    &&& a.bound == b.bound
    &&& a.offset_guard_size == b.offset_guard_size
    &&& a.page_size_log2 == b.page_size_log2
}

/// Memories are looked up alike whatever code there is.
proof fn lemma_same_shape(
    c: Code,
    d: Code,
    st: StateModel,
    env: TranslationEnvironment,
    index: MemoryIndex,
)
    ensures
        ({
            let (_, _, env1, a) = crate::cranelift::state::memory_found(c, st, env, index);
            let (_, _, env2, b) = crate::cranelift::state::memory_found(d, st, env, index);
            &&& same_shape(a, b)
            &&& env1.isa == env.isa && env2.isa == env.isa
            &&& env1.proof_carrying_code == env.proof_carrying_code
            &&& env2.proof_carrying_code == env.proof_carrying_code
        }),
{
    reveal(TranslationEnvironment::memory_made);
}

/// A memory that is checked and addressed as the one that is looked up.
fn find_memory(state: &FuncTranslationState, env: &TranslationEnvironment, index: u32) -> (r:
    CraneliftMemory)
    requires
        state.wf(),
        env.wf(),
        env.has_memory(MemoryIndex(index)),
    ensures
        forall|code: Code|
            same_shape(
                r,
                (#[trigger] crate::cranelift::state::memory_found(
                    code,
                    state@,
                    *env,
                    MemoryIndex(index),
                )).3,
            ),
{
    proof {
        reveal(TranslationEnvironment::memory_made);
    }
    match state.memories.get(index) {
        Some(memory) => memory,
        None => {
            let plan = env.module.memories[index as usize];
            let with_facts = match env.vmctx {
                Some(_) => env.pcc_vmctx_memtype.is_some(),
                None => env.isa.enable_pcc || env.pcc_vmctx_memtype.is_some(),
            };
            CraneliftMemory {
                base_gv: GlobalValue(0),
                index_type: if plan.memory64 {
                    Type::I64
                } else {
                    Type::I32
                },
                memory_type: if with_facts {
                    Some(MemoryType(0))
                } else {
                    None
                },
                bound: plan.max_size_based_on_index_type(),
                min_size: 0,
                max_size: None,
                offset_guard_size: plan.offset_guard_size,
                page_size_log2: plan.page_size_log2,
            }
        },
    }
}

impl CraneliftMemory {
    /// Whether an access at a constant offset can be compiled for a target.
    fn is_compilable(&self, env: &TranslationEnvironment, offset: u32, size: u8) -> (r: bool)
        requires
            env.isa.wf(),
        ensures
            r == self.compilable(*env, offset, size),
    {
        let indexed = match self.index_type {
            Type::I32 => true,
            Type::I64 => self.index_type == env.isa.pointer_type,
            _ => false,
        };
        if !indexed || self.page_size_log2 < env.isa.page_size_align_log2 {
            return false;
        }
        let offset_and_size: u64 = offset as u64 + size as u64;
        if offset_and_size > self.bound {
            true
        } else if self.index_type == Type::I32 && u32::MAX as u64 + offset_and_size
            <= self.bound.saturating_add(self.offset_guard_size) {
            self.memory_type.is_none() || self.bound.checked_add(self.offset_guard_size).is_some()
        } else {
            let limit: u64 = self.bound - offset_and_size;
            limit <= i64::MAX as u64 && (!env.proof_carrying_code || limit
                <= env.isa.pointer_type.max_unsigned())
        }
    }

    /// Whether an access can be compiled for a target.
    fn is_preparable(&self, env: &TranslationEnvironment, memarg: &MemArg, size: u8) -> (r: bool)
        requires
            env.isa.wf(),
        ensures
            r == self.preparable(*env, *memarg, size),
    {
        if memarg.offset <= u32::MAX as u64 {
            self.is_compilable(env, memarg.offset as u32, size)
        } else {
            memarg.offset <= i64::MAX as u64 && self.is_compilable(env, 0, size)
        }
    }
}

/// Whether an access of a number of bytes at an index of a type can be compiled.
fn is_accessible(
    state: &FuncTranslationState,
    env: &TranslationEnvironment,
    memarg: &MemArg,
    index_type: Type,
    size: u8,
) -> (r: bool)
    requires
        state.wf(),
        env.wf(),
    ensures
        forall|w: World, index: Value|
            #![trigger w.accessible(*memarg, index, size)]
            w.st.memories == state@.memories && w.env == *env && w.code.ty(index) == index_type
                ==> r == w.accessible(*memarg, index, size),
{
    let r = if memarg.memory == u32::MAX || !env.is_memory(memarg.memory) {
        false
    } else {
        let memory = find_memory(state, env, memarg.memory);
        let r = index_type == memory.index_type && memory.is_preparable(env, memarg, size);
        proof {
            assert forall|w: World, index: Value|
                #![trigger w.accessible(*memarg, index, size)]
                w.st.memories == state@.memories && w.env == *env && w.code.ty(index)
                    == index_type implies r == w.accessible(*memarg, index, size) by {
                let m = MemoryIndex(memarg.memory);
                let found = crate::cranelift::state::memory_found(w.code, state@, *env, m);
                let looked = crate::cranelift::state::memory_found(w.code, w.st, w.env, m);
                assert(found.3 == looked.3 && found.2 == looked.2);
                assert(same_shape(memory, found.3));
                lemma_same_shape(w.code, w.code, w.st, w.env, m);
            }
        }
        r
    };
    r
}

/// Whether a load or store can be translated.
fn is_translatable_access(
    recipe: AccessRecipe,
    memarg: &MemArg,
    builder: &FunctionBuilder,
    state: &FuncTranslationState,
    env: &TranslationEnvironment,
) -> (r: bool)
    requires
        state.wf(),
        World::of(builder@, state@, *env).valid(),
    ensures
        r == recipe.translatable(World::of(builder@, state@, *env), *memarg),
{
    proof {
        reveal(AccessRecipe::translatable);
    }
    let ghost w = World::of(builder@, state@, *env);
    let height: usize = state.stack.len();
    match recipe {
        AccessRecipe::Store(opcode) => {
            if height < 2 || !is_sized(opcode) {
                return false;
            }
            let size: u8 = mem_op_size(opcode, builder.value_type(state.stack[height - 1]));
            let index_type = builder.value_type(state.stack[height - 2]);
            let r = is_accessible(state, env, memarg, index_type, size);
            assert(r == w.popped(2).accessible(*memarg, w.st.peek(1), size));
            r
        },
        _ => {
            let size: u8 = match recipe {
                AccessRecipe::Load(opcode, ty) => {
                    if !is_sized(opcode) {
                        return false;
                    }
                    mem_op_size(opcode, ty)
                },
                AccessRecipe::LoadExtend(_, _) => 8,
                AccessRecipe::LoadSplat(ty) => ty.lane_type().bytes(),
                AccessRecipe::LoadZero(ty) => ty.lane_type().bytes(),
                AccessRecipe::Store(_) => 0,
            };
            if height < 1 {
                return false;
            }
            let index_type = builder.value_type(state.stack[height - 1]);
            let r = is_accessible(state, env, memarg, index_type, size);
            assert(r == w.popped(1).accessible(*memarg, w.st.peek(0), size));
            r
        },
    }
}

/// Whether the number of bytes that an instruction accesses is known from its type.
fn is_sized(opcode: Opcode) -> (r: bool)
    ensures
        r == crate::cranelift::access::is_sized(opcode),
{
    match opcode {
        Opcode::Uload8x8
        | Opcode::Sload8x8
        | Opcode::Uload16x4
        | Opcode::Sload16x4
        | Opcode::Uload32x2
        | Opcode::Sload32x2 => false,
        _ => true,
    }
}

/// Whether a load or store of one lane can be translated.
fn is_translatable_lane_access(
    recipe: LaneAccessRecipe,
    memarg: &MemArg,
    lane: u8,
    builder: &FunctionBuilder,
    state: &FuncTranslationState,
    env: &TranslationEnvironment,
) -> (r: bool)
    requires
        state.wf(),
        World::of(builder@, state@, *env).valid(),
    ensures
        r == recipe.translatable(World::of(builder@, state@, *env), *memarg, lane),
{
    proof {
        reveal(AccessRecipe::translatable);
        reveal(LaneAccessRecipe::translatable);
    }
    let ghost w = World::of(builder@, state@, *env);
    let height: usize = state.stack.len();
    if height < 2 || builder.values().len() == usize::MAX {
        return false;
    }
    let ty = match recipe {
        LaneAccessRecipe::LoadLane(ty) => ty,
        LaneAccessRecipe::StoreLane(ty) => ty,
    };
    let index_type = builder.value_type(state.stack[height - 2]);
    let r = is_accessible(state, env, memarg, index_type, ty.lane_type().bytes());
    proof {
        let (w1, vector) = recipe.vector_popped(w, ty);
        let index = w.st.peek(1);
        assert(w.code.has(w.st.stack[height - 2]));
        assert(w1.code.ty(vector) == ty) by {
            assert(w.code.has(w.st.stack[height - 1]));
        }
        assert(w1.code.ty(index) == index_type);
        match recipe {
            LaneAccessRecipe::LoadLane(_) => {
                assert(w1.st.peek(0) == index);
                assert(r == w1.popped(1).accessible(*memarg, index, ty.spec_lane_type().spec_bytes()));
            },
            LaneAccessRecipe::StoreLane(_) => {
                let w2 = recipe.lane_pushed(w, ty, lane);
                assert(w2.st.peek(1) == index);
                assert(w2.st.peek(0) == w1.code.next_value());
                assert(w2.code.ty(w2.st.peek(0)) == ty.spec_lane_type());
                assert(w2.code.ty(index) == index_type);
                assert(r == w2.popped(2).accessible(*memarg, index, ty.spec_lane_type().spec_bytes()));
            },
        }
    }
    r
}

/// Whether a function of the module can be called.
fn is_func_callable(
    function_index: u32,
    builder: &FunctionBuilder,
    state: &FuncTranslationState,
    env: &TranslationEnvironment,
) -> (r: bool)
    requires
        state.wf(),
        World::of(builder@, state@, *env).valid(),
    ensures
        r == World::of(builder@, state@, *env).func_callable(function_index),
{
    proof {
        reveal(TranslationEnvironment::direct_func_made);
        crate::builder::lemma_counts(builder);
    }
    if function_index == u32::MAX || function_index as usize >= env.module.functions.len() {
        return false;
    }
    let signature: u32 = env.module.functions[function_index as usize].signature;
    if !env.is_func_type(signature) || builder.special_param().is_none() {
        return false;
    }
    let (types, n): (Vec<Type>, usize) = match state.functions.get(function_index) {
        Some((fref, n)) => {
            assert(state@.functions.dom().contains(function_index));
            let sig = builder.callee_signature(fref);
            (collect_param_types(builder.signature_of(sig), env), n)
        },
        None => {
            let interned = env.module.types[signature as usize];
            let ty = &env.types.types[interned.index()];
            let sig = wasm_call_signature(ty, env.isa.pointer_type);
            let types = collect_param_types(&sig, env);
            let n: usize = types.len();
            (types, n)
        },
    };
    assert(state.stack@.take(state.stack@.len() - 0) =~= state.stack@);
    n <= state.stack.len() && are_passable(builder, &state.stack, 0, n, &types)
}

/// Whether functions of a type can be called through a table.
fn is_indirectly_callable(
    type_index: u32,
    table_index: u32,
    builder: &FunctionBuilder,
    state: &FuncTranslationState,
    env: &TranslationEnvironment,
) -> (r: bool)
    requires
        state.wf(),
        World::of(builder@, state@, *env).valid(),
    ensures
        r == World::of(builder@, state@, *env).indirectly_callable(type_index, table_index),
{
    proof {
        reveal(TranslationEnvironment::indirect_sig_made);
        crate::builder::lemma_counts(builder);
    }
    if type_index == u32::MAX || table_index == u32::MAX || !env.is_func_type(type_index)
        || !env.is_callable_table(table_index, type_index) || builder.special_param().is_none() {
        return false;
    }
    let (types, n): (Vec<Type>, usize) = match state.signatures.get(type_index) {
        Some((sig, n)) => {
            assert(state@.signatures.dom().contains(type_index));
            (collect_param_types(builder.signature_of(sig), env), n)
        },
        None => {
            let interned = env.module.types[type_index as usize];
            let ty = &env.types.types[interned.index()];
            let sig = wasm_call_signature(ty, env.isa.pointer_type);
            let types = collect_param_types(&sig, env);
            let n: usize = types.len();
            (types, n)
        },
    };
    if state.stack.len() < 1 || n > state.stack.len() - 1 {
        return false;
    }
    assert(state@.pop(1).stack =~= state.stack@.take(state.stack@.len() - 1));
    are_passable(builder, &state.stack, 1, n, &types)
}

/// Whether a global can be read.
fn is_global_readable(
    global_index: u32,
    builder: &FunctionBuilder,
    state: &FuncTranslationState,
    env: &TranslationEnvironment,
) -> (r: bool)
    requires
        state.wf(),
    ensures
        r == World::of(builder@, state@, *env).global_readable(global_index),
{
    proof {
        reveal(TranslationEnvironment::global_made);
    }
    if global_index == u32::MAX || !env.is_global(global_index) {
        return false;
    }
    match state.globals.get(global_index) {
        Some(CraneliftGlobal::Const(v)) => v.0 < builder.values().len(),
        Some(CraneliftGlobal::Custom) => false,
        _ => true,
    }
}

/// Whether a global can be written.
fn is_global_writable(
    global_index: u32,
    builder: &FunctionBuilder,
    state: &FuncTranslationState,
    env: &TranslationEnvironment,
) -> (r: bool)
    requires
        state.wf(),
        World::of(builder@, state@, *env).valid(),
    ensures
        r == World::of(builder@, state@, *env).global_writable(global_index),
{
    proof {
        reveal(TranslationEnvironment::global_made);
    }
    if global_index == u32::MAX || !env.is_global(global_index) || state.stack.len() < 1 {
        return false;
    }
    let ty = match state.globals.get(global_index) {
        Some(CraneliftGlobal::Memory { ty, .. }) => ty,
        Some(_) => return false,
        None => value_type(
            &env.module.globals[global_index as usize].content_type,
            env.isa.pointer_type,
        ),
    };
    if ty.is_vector() {
        ty == Type::I8X16
    } else {
        builder.value_type(state.stack[state.stack.len() - 1]) == ty
    }
}

/// The frame at a depth, if there is one.
fn frame_at(state: &FuncTranslationState, depth: u32) -> (r: Option<&ControlStackFrame>)
    ensures
        r is Some <==> depth < state@.control.len(),
        r matches Some(frame) ==> *frame == state@.frame(depth as int),
{
    let n: usize = state.control_stack.len();
    if (depth as usize) < n {
        Some(&state.control_stack[n - 1 - depth as usize])
    } else {
        None
    }
}

/// Whether a construct can be branched to with a number of other values on top of the stack.
fn is_branchable(
    depth: u32,
    above: usize,
    builder: &FunctionBuilder,
    state: &FuncTranslationState,
    env: &TranslationEnvironment,
) -> (r: bool)
    ensures
        r == World::of(builder@, state@, *env).branchable(depth, above as int),
{
    match frame_at(state, depth) {
        Some(frame) => above <= state.stack.len() && frame.num_branch_values()
            <= state.stack.len() - above,
        None => false,
    }
}

/// Whether constructs can be branched to by way of a table.
fn is_table_branchable(
    targets: &Vec<u32>,
    default: u32,
    builder: &FunctionBuilder,
    state: &FuncTranslationState,
    env: &TranslationEnvironment,
) -> (r: bool)
    ensures
        r == World::of(builder@, state@, *env).table_branchable(targets@, default),
{
    for i in 0..targets.len()
        invariant
            forall|k: int| 0 <= k < i ==> #[trigger] targets@[k] < state@.control.len(),
    {
        if frame_at(state, targets[i]).is_none() {
            return false;
        }
    }
    frame_at(state, default).is_some() && is_branchable(
        min_depth(targets, default),
        1,
        builder,
        state,
        env,
    )
}

/// Whether the function can return what is on the stack.
fn is_returnable(
    builder: &FunctionBuilder,
    state: &FuncTranslationState,
    env: &TranslationEnvironment,
) -> (r: bool)
    requires
        World::of(builder@, state@, *env).valid(),
    ensures
        r == World::of(builder@, state@, *env).returnable(),
{
    if state.control_stack.len() == 0 {
        return false;
    }
    let n: usize = state.control_stack[0].num_return_values();
    let types = collect_return_types(builder.signature(), env);
    assert(state.stack@.take(state.stack@.len() - 0) =~= state.stack@);
    n <= state.stack.len() && are_passable(builder, &state.stack, 0, n, &types)
}

/// Whether all that is on the stack can be returned.
pub fn is_all_returnable(
    builder: &FunctionBuilder,
    state: &FuncTranslationState,
    env: &TranslationEnvironment,
) -> (r: bool)
    requires
        World::of(builder@, state@, *env).valid(),
    ensures
        r == crate::cranelift::invoke::passable(
            builder@,
            state@.stack,
            crate::cranelift::invoke::wasm_return_types(builder@.signature.returns),
        ),
{
    let types = collect_return_types(builder.signature(), env);
    let n: usize = state.stack.len();
    assert(crate::cranelift::state::top(state.stack@.take(n - 0), n as int) =~= state.stack@);
    are_passable(builder, &state.stack, 0, n, &types)
}

/// Whether an `else` can come next.
fn is_if(
    reachable: bool,
    builder: &FunctionBuilder,
    state: &FuncTranslationState,
    env: &TranslationEnvironment,
) -> (r: bool)
    ensures
        reachable ==> r == World::of(builder@, state@, *env).has_if(),
        !reachable ==> r == crate::cranelift::code_translator::admissible_unreachable(
            Operator::Else,
            World::of(builder@, state@, *env),
        ),
{
    match frame_at(state, 0) {
        Some(ControlStackFrame::If {
            else_data,
            num_return_values,
            consequent_ends_reachable,
            blocktype,
            ..
        }) => {
            let without = reachable && match else_data {
                ElseData::NoElse { .. } => true,
                _ => false,
            };
            consequent_ends_reachable.is_none() && env.has_else(
                *blocktype,
                *num_return_values,
                without,
            ) && (!reachable || *num_return_values <= state.stack.len())
        },
        _ => false,
    }
}

/// The number of operands of an operator on numbers.
fn numeric_arity(recipe: NumericRecipe) -> (r: usize)
    ensures
        r == recipe.arity(),
{
    match recipe {
        NumericRecipe::Binary(_) => 2,
        NumericRecipe::Compare(_) => 2,
        NumericRecipe::FloatCompare(_) => 2,
        _ => 1,
    }
}

/// The number of operands of an operator on vectors.
fn vector_arity(recipe: VectorRecipe) -> (r: usize)
    ensures
        r == recipe.arity(),
{
    match recipe {
        VectorRecipe::Binary(_, _)
        | VectorRecipe::Shift(_, _)
        | VectorRecipe::Compare(_, _)
        | VectorRecipe::FloatCompare(_, _)
        | VectorRecipe::PseudoMax(_)
        | VectorRecipe::PseudoMin(_)
        | VectorRecipe::ExtMul(_, _)
        | VectorRecipe::Dot(_)
        | VectorRecipe::RelaxedMax(_)
        | VectorRecipe::RelaxedMin(_)
        | VectorRecipe::RelaxedSwizzle
        | VectorRecipe::RelaxedQ15mulr
        | VectorRecipe::RelaxedDot => 2,
        VectorRecipe::Bitselect
        | VectorRecipe::RelaxedMadd(_)
        | VectorRecipe::RelaxedNmadd(_)
        | VectorRecipe::RelaxedLaneselect(_)
        | VectorRecipe::RelaxedDotAdd => 3,
        _ => 1,
    }
}

/// Whether an operator can come next.
pub fn is_admissible(
    op: &Operator,
    builder: &FunctionBuilder,
    state: &FuncTranslationState,
    env: &TranslationEnvironment,
) -> (r: bool)
    requires
        state.wf(),
        World::of(builder@, state@, *env).valid(),
    ensures
        r == crate::cranelift::code_translator::admissible(
            op@,
            World::of(builder@, state@, *env),
        ),
{
    let height: usize = state.stack.len();
    if !state.reachable {
        return match op {
            Operator::Else => is_if(false, builder, state, env),
            Operator::End => state.control_stack.len() > 0,
            _ => true,
        };
    }
    match op {
        Operator::Unreachable | Operator::Nop | Operator::AtomicFence => true,
        Operator::I32Const { .. } | Operator::I64Const { .. } | Operator::F32Const { .. } => true,
        Operator::F64Const { .. } | Operator::V128Const { .. } => true,
        Operator::Proposed(_) | Operator::MemoryDiscard { .. } => true,
        Operator::Untranslated(_) => false,
        Operator::Drop | Operator::RefIsNull | Operator::RefAsNonNull => height >= 1,
        Operator::Select | Operator::TypedSelect => height >= 3,
        Operator::Block { blockty } => env.is_enterable(*blockty, height),
        Operator::Loop { blockty } => env.is_enterable(*blockty, height),
        Operator::If { blockty } => height >= 1 && env.is_enterable(*blockty, height - 1),
        Operator::Else => is_if(true, builder, state, env),
        Operator::End => match frame_at(state, 0) {
            Some(frame) => frame.num_return_values() <= height,
            None => false,
        },
        Operator::Br { relative_depth } => is_branchable(*relative_depth, 0, builder, state, env),
        Operator::BrIf { relative_depth } => is_branchable(*relative_depth, 1, builder, state, env),
        Operator::BrTable { targets, default } => is_table_branchable(
            targets,
            *default,
            builder,
            state,
            env,
        ),
        Operator::BrOnNull { relative_depth } => is_branchable(
            *relative_depth,
            1,
            builder,
            state,
            env,
        ),
        Operator::BrOnNonNull { relative_depth } => height >= 1 && is_branchable(
            *relative_depth,
            0,
            builder,
            state,
            env,
        ),
        Operator::Return => is_returnable(builder, state, env),
        Operator::Call { function_index } => is_func_callable(*function_index, builder, state, env),
        Operator::CallIndirect { type_index, table_index } => is_indirectly_callable(
            *type_index,
            *table_index,
            builder,
            state,
            env,
        ),
        Operator::LocalGet { local_index } => (*local_index as usize) < builder.variables().len(),
        Operator::LocalSet { .. } | Operator::LocalTee { .. } => height >= 1,
        Operator::GlobalGet { global_index } => is_global_readable(
            *global_index,
            builder,
            state,
            env,
        ),
        Operator::GlobalSet { global_index } => is_global_writable(
            *global_index,
            builder,
            state,
            env,
        ),
        Operator::I8x16Shuffle { .. } => height >= 2,
        Operator::RefNull { hty } => !hty.shared && is_supported_heap_type(hty),
        Operator::Numeric(op) => height >= numeric_arity(op.get_recipe()),
        Operator::Vector(op) => height >= vector_arity(op.get_recipe()),
        Operator::Lane { op, .. } => match op.get_recipe() {
            LaneRecipe::ReplaceReduced(_) => height >= 2,
            LaneRecipe::Replace(_) => height >= 2,
            _ => height >= 1,
        },
        Operator::Access { op, memarg } => match op.get_recipe() {
            Some(recipe) => is_translatable_access(recipe, memarg, builder, state, env),
            None => false,
        },
        Operator::LaneAccess { op, memarg, lane } => is_translatable_lane_access(
            op.get_recipe(),
            memarg,
            *lane,
            builder,
            state,
            env,
        ),
    }
}

} // verus!
