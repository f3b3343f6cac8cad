//! Translation of loads and stores.
use crate::builder::{Code, FunctionBuilder};
use crate::cranelift::code_translator::Reachability;
use crate::cranelift::env::TranslationEnvironment;
use crate::cranelift::memory::{CraneliftMemory, MemArg};
use crate::cranelift::operator::{AccessRecipe, LaneAccessRecipe};
use crate::cranelift::recipes::pop1_with_bitcast;
use crate::cranelift::state::FuncTranslationState;
use crate::cranelift::world::World;
use crate::indices::MemoryIndex;
use crate::ir::{ConvertOp, Op, Opcode, Type, Value};
use vstd::prelude::*;

verus! {

/// Whether an instruction accesses memory with a size that its name or its type gives.
pub open spec fn is_sized(opcode: Opcode) -> bool {
    match opcode {
        Opcode::Uload8x8
        | Opcode::Sload8x8
        | Opcode::Uload16x4
        | Opcode::Sload16x4
        | Opcode::Uload32x2
        | Opcode::Sload32x2 => false,
        _ => true,
    }
}

/// The number of bytes that an instruction accesses.
pub open spec fn size_of_access(opcode: Opcode, ty: Type) -> u8 {
    match opcode {
        Opcode::Istore8 | Opcode::Sload8 | Opcode::Uload8 => 1,
        Opcode::Istore16 | Opcode::Sload16 | Opcode::Uload16 => 2,
        Opcode::Istore32 | Opcode::Sload32 | Opcode::Uload32 => 4,
        _ => ty.spec_bytes(),
    }
}

/// The number of bytes that an instruction accesses.
pub fn mem_op_size(opcode: Opcode, ty: Type) -> (r: u8)
    requires
        is_sized(opcode),
    ensures
        r == size_of_access(opcode, ty),
{
    match opcode {
        Opcode::Istore8 | Opcode::Sload8 | Opcode::Uload8 => 1,
        Opcode::Istore16 | Opcode::Sload16 | Opcode::Uload16 => 2,
        Opcode::Istore32 | Opcode::Sload32 | Opcode::Uload32 => 4,
        _ => ty.bytes(),
    }
}

impl<'a> World<'a> {
    /// The memory of an access, looked up.
    pub open spec fn memory(self, memarg: MemArg) -> (World<'a>, CraneliftMemory) {
        let (code, st, env, memory) = crate::cranelift::state::memory_found(
            self.code,
            self.st,
            self.env,
            MemoryIndex(memarg.memory),
        );
        (World { code, st, env }, memory)
    }

    /// Whether an access of a number of bytes at an index can be compiled.
    pub open spec fn accessible(self, memarg: MemArg, index: Value, size: u8) -> bool {
        let (w1, memory) = self.memory(memarg);
        &&& memarg.memory < u32::MAX
        &&& self.env.has_memory(MemoryIndex(memarg.memory))
        &&& self.code.ty(index) == memory.index_type
        &&& memory.preparable(w1.env, memarg, size)
    }

    /// The address of an access, if it does not always trap.
    pub open spec fn addressed(self, memarg: MemArg, index: Value, size: u8) -> (
        World<'a>,
        Reachability<Value>,
    ) {
        let (w1, memory) = self.memory(memarg);
        let (code, addr) = memory.prepared(w1.code, w1.env, index, size, memarg);
        (World { code, ..w1 }, addr)
    }

    /// A value loaded from the index on top of the stack; nothing where the load always traps.
    pub open spec fn loaded(self, memarg: MemArg, opcode: Opcode, ty: Type, size: u8) -> (
        World<'a>,
        bool,
    ) {
        let index = self.st.peek(0);
        let flags = self.popped(1).memory(memarg).1.access_flags();
        let (w1, addr) = self.popped(1).addressed(memarg, index, size);
        match addr {
            Reachability::Reachable(addr) => (
                World {
                    code: w1.code.load(opcode, ty, flags, addr, 0),
                    st: w1.st.push(w1.code.next_value()),
                    ..w1
                },
                true,
            ),
            Reachability::Unreachable => (w1, false),
        }
    }

    /// The value on top of the stack stored at the index below it; where the store always traps,
    /// the code behind is unreachable.
    pub open spec fn stored(self, memarg: MemArg, opcode: Opcode) -> World<'a> {
        let val = self.st.peek(0);
        let index = self.st.peek(1);
        let flags = self.popped(2).memory(memarg).1.access_flags();
        let (w1, addr) = self.popped(2).addressed(
            memarg,
            index,
            size_of_access(opcode, self.code.ty(val)),
        );
        match addr {
            Reachability::Reachable(addr) => World {
                code: w1.code.emitted(Op::Store { op: opcode, flags, val, addr, offset: 0 }),
                ..w1
            },
            Reachability::Unreachable => w1.cut_off(),
        }
    }
}

/// Loads a value; returns nothing where the load always traps.
fn translate_load(
    memarg: &MemArg,
    opcode: Opcode,
    result_ty: Type,
    size: u8,
    builder: &mut FunctionBuilder,
    state: &mut FuncTranslationState,
    env: &mut TranslationEnvironment,
) -> (r: Reachability<()>)
    requires
        old(state).wf(),
        (World { code: old(builder)@, st: old(state)@, env: *old(env) }).valid(),
        old(state)@.stack.len() >= 1,
        (World { code: old(builder)@, st: old(state)@, env: *old(env) }).popped(1).accessible(
            *memarg,
            old(state)@.peek(0),
            size,
        ),
    ensures
        final(state).wf(),
        (World { code: final(builder)@, st: final(state)@, env: *final(env) }, r is Reachable) == (
        World { code: old(builder)@, st: old(state)@, env: *old(env) }).loaded(
            *memarg,
            opcode,
            result_ty,
            size,
        ),
        (World { code: final(builder)@, st: final(state)@, env: *final(env) }).valid(),
        r is Reachable ==> final(state)@.stack.len() == old(state)@.stack.len(),
        final(builder)@.extends(old(builder)@),
{
    let memory_index = MemoryIndex::from_u32(memarg.memory);
    let ghost w0 = World { code: builder@, st: state@, env: *env };
    let index = state.pop1();
    let mem = state.get_memory(builder, memory_index, env);
    let ghost c1 = builder@;
    match mem.prepare_addr(builder, index, size, memarg, env) {
        Reachability::Unreachable => {
            proof {
                lemma_after_access(w0, c1, World { code: builder@, st: state@, env: *env });
            }
            Reachability::Unreachable
        },
        Reachability::Reachable((flags, _, base)) => {
            let loaded = builder.load(opcode, result_ty, flags, base, 0);
            state.push1(loaded);
            proof {
                lemma_after_access(w0, c1, World { code: builder@, st: state@, env: *env });
            }
            Reachability::Reachable(())
        },
    }
}

/// Everything exists after an access that declared a memory and added code.
proof fn lemma_after_access(w0: World, c1: Code, w1: World)
    requires
        w0.valid(),
        c1.declared(w0.code),
        w1.code.grew(c1),
        w1.env.ready(c1),
        w1.code.has_all(w1.st.stack),
        w1.st.control == w0.st.control,
        w1.st.reachable ==> w0.st.reachable,
        w1.st.functions == w0.st.functions,
        w1.st.signatures == w0.st.signatures,
        w1.st.tables == w0.st.tables,
    ensures
        w1.valid(),
{
    crate::builder::lemma_declared_extends(w0.code, c1);
    crate::builder::lemma_grew_extends(c1, w1.code);
    crate::builder::lemma_extends_trans(w0.code, c1, w1.code);
    crate::cranelift::world::lemma_still_valid(w0, w1);
}

/// Stores a value.
fn translate_store(
    memarg: &MemArg,
    opcode: Opcode,
    builder: &mut FunctionBuilder,
    state: &mut FuncTranslationState,
    env: &mut TranslationEnvironment,
)
    requires
        old(state).wf(),
        is_sized(opcode),
        (World { code: old(builder)@, st: old(state)@, env: *old(env) }).valid(),
        old(state)@.stack.len() >= 2,
        (World { code: old(builder)@, st: old(state)@, env: *old(env) }).popped(2).accessible(
            *memarg,
            old(state)@.peek(1),
            size_of_access(opcode, old(builder)@.ty(old(state)@.peek(0))),
        ),
    ensures
        final(state).wf(),
        (World { code: final(builder)@, st: final(state)@, env: *final(env) }) == (World {
            code: old(builder)@,
            st: old(state)@,
            env: *old(env),
        }).stored(*memarg, opcode),
        (World { code: final(builder)@, st: final(state)@, env: *final(env) }).valid(),
{
    let memory_index = MemoryIndex::from_u32(memarg.memory);
    let ghost w0 = World { code: builder@, st: state@, env: *env };
    let (index, val) = state.pop2();
    let val_ty = builder.value_type(val);
    let size: u8 = mem_op_size(opcode, val_ty);
    let mem = state.get_memory(builder, memory_index, env);
    let ghost c1 = builder@;
    match mem.prepare_addr(builder, index, size, memarg, env) {
        Reachability::Unreachable => {
            state.reachable = false;
        },
        Reachability::Reachable((flags, _, base)) => {
            builder.emit(Op::Store { op: opcode, flags, val, addr: base, offset: 0 });
        },
    }
    proof {
        lemma_after_access(w0, c1, World { code: builder@, st: state@, env: *env });
    }
}

impl AccessRecipe {
    /// The number of operands.
    pub open spec fn arity(self) -> int {
        if self is Store {
            2
        } else {
            1
        }
    }

    /// What is loaded: the instruction, its result type, and the number of bytes.
    pub open spec fn load(self) -> (Opcode, Type, u8) {
        match self {
            AccessRecipe::Load(opcode, ty) => (opcode, ty, size_of_access(opcode, ty)),
            AccessRecipe::LoadExtend(opcode, ty) => (opcode, ty, 8),
            AccessRecipe::LoadSplat(ty) => (
                Opcode::Load,
                ty.spec_lane_type(),
                ty.spec_lane_type().spec_bytes(),
            ),
            AccessRecipe::LoadZero(ty) => (
                Opcode::Load,
                ty.spec_lane_type(),
                ty.spec_lane_type().spec_bytes(),
            ),
            AccessRecipe::Store(opcode) => (opcode, Type::I8, 0),
        }
    }

    /// Whether the access can be translated.
    #[verifier::opaque]
    pub open spec fn translatable(self, w: World, memarg: MemArg) -> bool {
        &&& w.st.stack.len() >= self.arity()
        &&& match self {
            AccessRecipe::Store(opcode) => is_sized(opcode) && w.popped(2).accessible(
                memarg,
                w.st.peek(1),
                size_of_access(opcode, w.code.ty(w.st.peek(0))),
            ),
            AccessRecipe::Load(opcode, _) => is_sized(opcode) && w.popped(1).accessible(
                memarg,
                w.st.peek(0),
                self.load().2,
            ),
            _ => w.popped(1).accessible(memarg, w.st.peek(0), self.load().2),
        }
    }

    /// The access translated; where it always traps, the code behind is unreachable.
    #[verifier::opaque]
    pub open spec fn translated<'a>(self, w: World<'a>, memarg: MemArg) -> World<'a> {
        match self {
            AccessRecipe::Store(opcode) => w.stored(memarg, opcode),
            _ => {
                let (opcode, ty, size) = self.load();
                let (w1, reachable) = w.loaded(memarg, opcode, ty, size);
                if !reachable {
                    w1.cut_off()
                } else {
                    match self {
                        AccessRecipe::LoadSplat(vector) => World {
                            code: w1.code.convert(ConvertOp::Splat, vector, w1.st.peek(0)),
                            st: w1.st.pop(1).push(w1.code.next_value()),
                            ..w1
                        },
                        AccessRecipe::LoadZero(vector) => World {
                            code: w1.code.convert(
                                ConvertOp::ScalarToVector,
                                vector,
                                w1.st.peek(0),
                            ),
                            st: w1.st.pop(1).push(w1.code.next_value()),
                            ..w1
                        },
                        _ => w1,
                    }
                }
            },
        }
    }
}

/// Translates a load or store.
pub fn translate_access(
    recipe: AccessRecipe,
    memarg: &MemArg,
    builder: &mut FunctionBuilder,
    state: &mut FuncTranslationState,
    env: &mut TranslationEnvironment,
)
    requires
        old(state).wf(),
        (World { code: old(builder)@, st: old(state)@, env: *old(env) }).valid(),
        recipe.translatable(
            World { code: old(builder)@, st: old(state)@, env: *old(env) },
            *memarg,
        ),
    ensures
        final(state).wf(),
        (World { code: final(builder)@, st: final(state)@, env: *final(env) })
            == recipe.translated(
            World { code: old(builder)@, st: old(state)@, env: *old(env) },
            *memarg,
        ),
        (World { code: final(builder)@, st: final(state)@, env: *final(env) }).valid(),
{
    proof {
        reveal(AccessRecipe::translated);
        reveal(AccessRecipe::translatable);
    }
    let (opcode, ty, size): (Opcode, Type, u8) = match recipe {
        AccessRecipe::Store(opcode) => {
            translate_store(memarg, opcode, builder, state, env);
            return;
        },
        AccessRecipe::Load(opcode, ty) => (opcode, ty, mem_op_size(opcode, ty)),
        AccessRecipe::LoadExtend(opcode, ty) => (opcode, ty, 8),
        AccessRecipe::LoadSplat(ty) => (Opcode::Load, ty.lane_type(), ty.lane_type().bytes()),
        AccessRecipe::LoadZero(ty) => (Opcode::Load, ty.lane_type(), ty.lane_type().bytes()),
    };
    match translate_load(memarg, opcode, ty, size, builder, state, env) {
        Reachability::Unreachable => {
            let ghost w1 = World { code: builder@, st: state@, env: *env };
            state.reachable = false;
            proof {
                crate::cranelift::world::lemma_still_valid(
                    w1,
                    World { code: builder@, st: state@, env: *env },
                );
            }
        },
        Reachability::Reachable(_) => {
            let ghost w1 = World { code: builder@, st: state@, env: *env };
            match recipe {
                AccessRecipe::LoadSplat(vector) => {
                    let v = state.pop1();
                    let splatted = builder.convert(ConvertOp::Splat, vector, v);
                    state.push1(splatted);
                },
                AccessRecipe::LoadZero(vector) => {
                    let v = state.pop1();
                    let as_vector = builder.convert(ConvertOp::ScalarToVector, vector, v);
                    state.push1(as_vector);
                },
                _ => {},
            }
            proof {
                let w2 = World { code: builder@, st: state@, env: *env };
                crate::builder::lemma_grew_extends(w1.code, w2.code);
                crate::cranelift::world::lemma_still_valid(w1, w2);
            }
        },
    }
}

impl LaneAccessRecipe {
    /// Whether the access can be translated: a vector lies on top of the index, and there is a number
    /// left for one more value.
    #[verifier::opaque]
    pub open spec fn translatable(self, w: World, memarg: MemArg, lane: u8) -> bool {
        &&& w.st.stack.len() >= 2
        &&& w.code.values.len() < usize::MAX
        &&& match self {
            LaneAccessRecipe::LoadLane(ty) => AccessRecipe::Load(
                Opcode::Load,
                ty.spec_lane_type(),
            ).translatable(self.vector_popped(w, ty).0, memarg),
            LaneAccessRecipe::StoreLane(ty) => AccessRecipe::Store(Opcode::Store).translatable(
                self.lane_pushed(w, ty, lane),
                memarg,
            ),
        }
    }

    /// One lane of the vector on top of the stack in its place.
    pub open spec fn lane_pushed<'a>(self, w: World<'a>, ty: Type, lane: u8) -> World<'a> {
        let (w1, vector) = self.vector_popped(w, ty);
        World {
            code: w1.code.extract_lane(vector, lane),
            st: w1.st.push(w1.code.next_value()),
            ..w1
        }
    }

    /// The vector on top of the stack popped and brought to a type.
    pub open spec fn vector_popped<'a>(self, w: World<'a>, ty: Type) -> (World<'a>, Value) {
        let (code, vector) = crate::cranelift::recipes::brought(w.code, w.st.peek(0), ty);
        (World { code, ..w.popped(1) }, vector)
    }

    /// The access translated; where it always traps, the code behind is unreachable.
    #[verifier::opaque]
    pub open spec fn translated<'a>(self, w: World<'a>, memarg: MemArg, lane: u8) -> World<'a> {
        match self {
            LaneAccessRecipe::LoadLane(ty) => {
                let (w1, vector) = self.vector_popped(w, ty);
                let (w2, reachable) = w1.loaded(
                    memarg,
                    Opcode::Load,
                    ty.spec_lane_type(),
                    ty.spec_lane_type().spec_bytes(),
                );
                if reachable {
                    World {
                        code: w2.code.insert_lane(vector, w2.st.peek(0), lane),
                        st: w2.st.pop(1).push(w2.code.next_value()),
                        ..w2
                    }
                } else {
                    w2.cut_off()
                }
            },
            LaneAccessRecipe::StoreLane(ty) => {
                self.lane_pushed(w, ty, lane).stored(memarg, Opcode::Store)
            },
        }
    }
}

/// Translates a load or store of one lane.
pub fn translate_lane_access(
    recipe: LaneAccessRecipe,
    memarg: &MemArg,
    lane: u8,
    builder: &mut FunctionBuilder,
    state: &mut FuncTranslationState,
    env: &mut TranslationEnvironment,
)
    requires
        old(state).wf(),
        (World { code: old(builder)@, st: old(state)@, env: *old(env) }).valid(),
        recipe.translatable(
            World { code: old(builder)@, st: old(state)@, env: *old(env) },
            *memarg,
            lane,
        ),
    ensures
        final(state).wf(),
        (World { code: final(builder)@, st: final(state)@, env: *final(env) })
            == recipe.translated(
            World { code: old(builder)@, st: old(state)@, env: *old(env) },
            *memarg,
            lane,
        ),
        (World { code: final(builder)@, st: final(state)@, env: *final(env) }).valid(),
{
    proof {
        reveal(LaneAccessRecipe::translated);
        reveal(LaneAccessRecipe::translatable);
        reveal(AccessRecipe::translatable);
    }
    let ghost w0 = World { code: builder@, st: state@, env: *env };
    match recipe {
        LaneAccessRecipe::LoadLane(ty) => {
            let vector = pop1_with_bitcast(state, ty, builder);
            let ghost w1 = World { code: builder@, st: state@, env: *env };
            proof {
                crate::builder::lemma_grew_extends(w0.code, w1.code);
                crate::cranelift::world::lemma_still_valid(w0, w1);
                assert(w1.st.peek(0) == w0.st.peek(1));
            }
            match translate_load(
                memarg,
                Opcode::Load,
                ty.lane_type(),
                ty.lane_type().bytes(),
                builder,
                state,
                env,
            ) {
                Reachability::Unreachable => {
                    let ghost w2 = World { code: builder@, st: state@, env: *env };
                    state.reachable = false;
                    proof {
                        crate::cranelift::world::lemma_still_valid(
                            w2,
                            World { code: builder@, st: state@, env: *env },
                        );
                    }
                },
                Reachability::Reachable(_) => {
                    let ghost w2 = World { code: builder@, st: state@, env: *env };
                    let replacement = state.pop1();
                    let replaced = builder.insert_lane(vector, replacement, lane);
                    state.push1(replaced);
                    proof {
                        let w3 = World { code: builder@, st: state@, env: *env };
                        crate::builder::lemma_grew_extends(w2.code, w3.code);
                        crate::cranelift::world::lemma_still_valid(w2, w3);
                    }
                },
            }
        },
        LaneAccessRecipe::StoreLane(ty) => {
            let vector = pop1_with_bitcast(state, ty, builder);
            let extracted = builder.extract_lane(vector, lane);
            state.push1(extracted);
            proof {
                let w1 = World { code: builder@, st: state@, env: *env };
                crate::builder::lemma_grew_extends(w0.code, w1.code);
                crate::cranelift::world::lemma_still_valid(w0, w1);
            }
            translate_store(memarg, Opcode::Store, builder, state, env);
        },
    }
}

} // verus!
