//! Translation of operators on locals, globals, constants and references, and of selections.
use crate::builder::{Code, FunctionBuilder};
use crate::cranelift::control::translate_ref_is_null;
use crate::cranelift::env::TranslationEnvironment;
use crate::cranelift::recipes::{canonicalise, optionally_bitcast_vector};
use crate::cranelift::state::{FuncTranslationState, StateModel};
use crate::cranelift::table::CraneliftGlobal;
use crate::cranelift::world::World;
use crate::indices::GlobalIndex;
use crate::ir::{AliasRegion, MemFlags, Op, Opcode, TernaryOp, TrapCode, Type, Value};
use crate::types::WasmHeapType;
use vstd::prelude::*;

verus! {

/// The flags of accesses to globals, which share a region with tables.
pub open spec fn global_flags() -> MemFlags {
    MemFlags::spec_trusted().spec_with_alias_region(Some(AliasRegion::Table))
}

impl<'a> World<'a> {
    /// A selection between two values by the value on top of the stack.
    #[verifier::opaque]
    pub open spec fn selected(self) -> World<'a> {
        let (c1, a) = crate::cranelift::recipes::canonical(self.code, self.st.peek(2));
        let (c2, b) = crate::cranelift::recipes::canonical(c1, self.st.peek(1));
        World {
            code: c2.ternary(TernaryOp::Select, self.st.peek(0), a, b),
            st: self.st.pop(3).push(c2.next_value()),
            ..self
        }
    }

    /// The value of a local pushed, and labelled with the local.
    #[verifier::opaque]
    pub open spec fn local_got(self, local_index: u32) -> World<'a> {
        let v = self.code.next_value();
        World {
            code: self.code.defined(
                Op::UseVar { var: local_index },
                self.code.vars[local_index as int],
            ).emitted(Op::SetValLabel { val: v, label: local_index }),
            st: self.st.push(v),
            ..self
        }
    }

    /// The value on top of the stack given to a local; it stays on the stack if `keep`.
    #[verifier::opaque]
    pub open spec fn local_set(self, local_index: u32, keep: bool) -> World<'a> {
        let (c1, v) = crate::cranelift::recipes::canonical(self.code, self.st.peek(0));
        World {
            code: c1.emitted(Op::DefVar { var: local_index, val: v }).emitted(
                Op::SetValLabel { val: v, label: local_index },
            ),
            st: if keep {
                self.st
            } else {
                self.st.pop(1)
            },
            ..self
        }
    }

    /// A global, looked up.
    pub open spec fn global(self, global_index: u32) -> (World<'a>, CraneliftGlobal) {
        let (code, st, env, global) = crate::cranelift::state::global_found(
            self.code,
            self.st,
            self.env,
            GlobalIndex(global_index),
        );
        (World { code, st, env }, global)
    }

    /// Whether a global can be read.
    pub open spec fn global_readable(self, global_index: u32) -> bool {
        &&& global_index < u32::MAX
        &&& self.env.has_global(GlobalIndex(global_index))
        &&& match self.global(global_index).1 {
            CraneliftGlobal::Const(v) => self.code.has(v),
            CraneliftGlobal::Memory { .. } => true,
            CraneliftGlobal::Custom => false,
        }
    }

    /// The value of a global pushed.
    #[verifier::opaque]
    pub open spec fn global_got(self, global_index: u32) -> World<'a> {
        let (w1, global) = self.global(global_index);
        match global {
            CraneliftGlobal::Memory { gv, offset, ty } => {
                let addr = w1.code.next_value();
                let c1 = w1.code.global_value(w1.env.isa.pointer_type, gv);
                World {
                    code: c1.load(Opcode::Load, ty, global_flags(), addr, offset),
                    st: w1.st.push(c1.next_value()),
                    ..w1
                }
            },
            CraneliftGlobal::Const(v) => World { st: w1.st.push(v), ..w1 },
            CraneliftGlobal::Custom => w1,
        }
    }

    /// Whether a global can be written: it lies in memory, and a value of its type is on the stack,
    /// or any vector for a vector.
    pub open spec fn global_writable(self, global_index: u32) -> bool {
        &&& global_index < u32::MAX
        &&& self.env.has_global(GlobalIndex(global_index))
        &&& self.st.stack.len() >= 1
        &&& match self.global(global_index).1 {
            CraneliftGlobal::Memory { ty, .. } => if ty.spec_is_vector() {
                ty is I8X16
            } else {
                self.code.ty(self.st.peek(0)) == ty
            },
            _ => false,
        }
    }

    /// The value on top of the stack given to a global.
    #[verifier::opaque]
    pub open spec fn global_set(self, global_index: u32) -> World<'a> {
        let (w1, global) = self.global(global_index);
        match global {
            CraneliftGlobal::Memory { gv, offset, ty } => {
                let addr = w1.code.next_value();
                let c1 = w1.code.global_value(w1.env.isa.pointer_type, gv);
                let (c2, val) = if ty.spec_is_vector() {
                    crate::cranelift::recipes::brought(c1, w1.st.peek(0), Type::I8X16)
                } else {
                    (c1, w1.st.peek(0))
                };
                World {
                    code: c2.emitted(
                        Op::Store { op: Opcode::Store, flags: global_flags(), val, addr, offset },
                    ),
                    st: w1.st.pop(1),
                    ..w1
                }
            },
            _ => w1,
        }
    }

    /// A new value pushed.
    pub open spec fn constant(self, op: Op, ty: Type) -> World<'a> {
        World { code: self.code.defined(op, ty), st: self.st.push(self.code.next_value()), ..self }
    }

    /// Two vectors shuffled by a mask.
    #[verifier::opaque]
    pub open spec fn shuffled(self, lanes: u128) -> World<'a> {
        let (c1, a, b) = crate::cranelift::recipes::brought2(
            self.code,
            self.st.peek(1),
            self.st.peek(0),
            Type::I8X16,
        );
        World {
            code: c1.defined(Op::Shuffle { a, b, mask: lanes }, Type::I8X16),
            st: self.st.pop(2).push(c1.next_value()),
            ..self
        }
    }

    /// Whether the reference on top of the stack is null, in its place.
    #[verifier::opaque]
    pub open spec fn ref_tested(self) -> World<'a> {
        let (c1, v) = Self::null_tested(self.code, self.st.peek(0));
        World { code: c1, st: self.st.pop(1).push(v), ..self }
    }

    /// A trap where the reference on top of the stack is null; it stays on the stack.
    #[verifier::opaque]
    pub open spec fn ref_asserted(self) -> World<'a> {
        let r = self.st.peek(0);
        let (c1, v) = Self::null_tested(self.code, r);
        World {
            code: c1.emitted(Op::Trapnz { arg: v, code: TrapCode::NullReference }),
            st: self.st.pop(1).push(r),
            ..self
        }
    }
}

/// Everything exists after code that added values.
proof fn lemma_after_growth(w0: World, w1: World)
    requires
        w0.valid(),
        w1.code.grew(w0.code),
        w1.env == w0.env,
        w1.code.has_all(w1.st.stack),
        w1.st == (StateModel { stack: w1.st.stack, ..w0.st }),
    ensures
        w1.valid(),
{
    crate::builder::lemma_grew_extends(w0.code, w1.code);
    crate::cranelift::world::lemma_still_valid(w0, w1);
}

/// Selects between two values.
pub fn translate_select(
    builder: &mut FunctionBuilder,
    state: &mut FuncTranslationState,
    env: &TranslationEnvironment,
)
    requires
        old(state).wf(),
        World::of(old(builder)@, old(state)@, *env).valid(),
        old(state)@.stack.len() >= 3,
    ensures
        final(state).wf(),
        World::of(final(builder)@, final(state)@, *env) == World::of(
            old(builder)@,
            old(state)@,
            *env,
        ).selected(),
        World::of(final(builder)@, final(state)@, *env).valid(),
{
    proof {
        reveal(World::selected);
    }
    let ghost w0 = World::of(builder@, state@, *env);
    let (arg1, arg2, cond) = state.pop3();
    let arg1 = canonicalise(arg1, builder);
    let arg2 = canonicalise(arg2, builder);
    let selected = builder.ternary(TernaryOp::Select, cond, arg1, arg2);
    state.push1(selected);
    proof {
        lemma_after_growth(w0, World::of(builder@, state@, *env));
    }
}

/// Pushes the value of a local.
pub fn translate_local_get(
    local_index: u32,
    builder: &mut FunctionBuilder,
    state: &mut FuncTranslationState,
    env: &TranslationEnvironment,
)
    requires
        old(state).wf(),
        World::of(old(builder)@, old(state)@, *env).valid(),
        local_index < old(builder)@.vars.len(),
    ensures
        final(state).wf(),
        World::of(final(builder)@, final(state)@, *env) == World::of(
            old(builder)@,
            old(state)@,
            *env,
        ).local_got(local_index),
        World::of(final(builder)@, final(state)@, *env).valid(),
{
    proof {
        reveal(World::local_got);
    }
    let ghost w0 = World::of(builder@, state@, *env);
    let val = builder.use_var(local_index);
    state.push1(val);
    builder.set_val_label(val, local_index);
    proof {
        lemma_after_growth(w0, World::of(builder@, state@, *env));
    }
}

/// Gives a local the value on top of the stack, which stays there if `keep`.
pub fn translate_local_set(
    local_index: u32,
    keep: bool,
    builder: &mut FunctionBuilder,
    state: &mut FuncTranslationState,
    env: &TranslationEnvironment,
)
    requires
        old(state).wf(),
        World::of(old(builder)@, old(state)@, *env).valid(),
        old(state)@.stack.len() >= 1,
    ensures
        final(state).wf(),
        World::of(final(builder)@, final(state)@, *env) == World::of(
            old(builder)@,
            old(state)@,
            *env,
        ).local_set(local_index, keep),
        World::of(final(builder)@, final(state)@, *env).valid(),
{
    proof {
        reveal(World::local_set);
    }
    let ghost w0 = World::of(builder@, state@, *env);
    let val = if keep {
        state.peek1()
    } else {
        state.pop1()
    };
    let val = canonicalise(val, builder);
    builder.def_var(local_index, val);
    builder.set_val_label(val, local_index);
    proof {
        lemma_after_growth(w0, World::of(builder@, state@, *env));
    }
}

/// Everything exists after a lookup of a global and code that added values.
proof fn lemma_after_global(w0: World, c1: Code, w1: World)
    requires
        w0.valid(),
        c1.declared(w0.code),
        w1.code.grew(c1),
        w1.env.ready(c1),
        w1.code.has_all(w1.st.stack),
        w1.st.control == w0.st.control,
        w1.st.reachable == w0.st.reachable,
        w1.st.functions == w0.st.functions,
        w1.st.signatures == w0.st.signatures,
        w1.st.tables == w0.st.tables,
    ensures
        w1.valid(),
{
    crate::builder::lemma_declared_extends(w0.code, c1);
    crate::builder::lemma_grew_extends(c1, w1.code);
    crate::builder::lemma_extends_trans(w0.code, c1, w1.code);
    crate::cranelift::world::lemma_still_valid(w0, w1);
}

/// Pushes the value of a global.
pub fn translate_global_get(
    global_index: u32,
    builder: &mut FunctionBuilder,
    state: &mut FuncTranslationState,
    env: &mut TranslationEnvironment,
)
    requires
        old(state).wf(),
        World::of(old(builder)@, old(state)@, *old(env)).valid(),
        World::of(old(builder)@, old(state)@, *old(env)).global_readable(global_index),
    ensures
        final(state).wf(),
        World::of(final(builder)@, final(state)@, *final(env)) == World::of(
            old(builder)@,
            old(state)@,
            *old(env),
        ).global_got(global_index),
        World::of(final(builder)@, final(state)@, *final(env)).valid(),
{
    proof {
        reveal(World::global_got);
    }
    let ghost w0 = World::of(builder@, state@, *env);
    let global = state.get_global(builder, GlobalIndex::from_u32(global_index), env);
    let ghost c1 = builder@;
    let val = match global {
        CraneliftGlobal::Const(val) => val,
        CraneliftGlobal::Memory { gv, offset, ty } => {
            let addr = builder.global_value(env.pointer_type(), gv);
            let flags = MemFlags::trusted().with_alias_region(Some(AliasRegion::Table));
            builder.load(Opcode::Load, ty, flags, addr, offset)
        },
        CraneliftGlobal::Custom => {
            assert(false);
            Value(0)
        },
    };
    state.push1(val);
    proof {
        lemma_after_global(w0, c1, World::of(builder@, state@, *env));
    }
}

/// Gives a global the value on top of the stack.
pub fn translate_global_set(
    global_index: u32,
    builder: &mut FunctionBuilder,
    state: &mut FuncTranslationState,
    env: &mut TranslationEnvironment,
)
    requires
        old(state).wf(),
        World::of(old(builder)@, old(state)@, *old(env)).valid(),
        World::of(old(builder)@, old(state)@, *old(env)).global_writable(global_index),
    ensures
        final(state).wf(),
        World::of(final(builder)@, final(state)@, *final(env)) == World::of(
            old(builder)@,
            old(state)@,
            *old(env),
        ).global_set(global_index),
        World::of(final(builder)@, final(state)@, *final(env)).valid(),
{
    proof {
        reveal(World::global_set);
    }
    let ghost w0 = World::of(builder@, state@, *env);
    let global = state.get_global(builder, GlobalIndex::from_u32(global_index), env);
    let ghost c1 = builder@;
    match global {
        CraneliftGlobal::Memory { gv, offset, ty } => {
            let addr = builder.global_value(env.pointer_type(), gv);
            let flags = MemFlags::trusted().with_alias_region(Some(AliasRegion::Table));
            let mut val = state.pop1();
            if ty.is_vector() {
                val = optionally_bitcast_vector(val, Type::I8X16, builder);
            }
            builder.emit(Op::Store { op: Opcode::Store, flags, val, addr, offset });
        },
        _ => {
            assert(false);
        },
    }
    proof {
        lemma_after_global(w0, c1, World::of(builder@, state@, *env));
    }
}

/// Pushes a new value.
pub fn translate_constant(
    op: Op,
    ty: Type,
    builder: &mut FunctionBuilder,
    state: &mut FuncTranslationState,
    env: &TranslationEnvironment,
)
    requires
        old(state).wf(),
        World::of(old(builder)@, old(state)@, *env).valid(),
    ensures
        final(state).wf(),
        World::of(final(builder)@, final(state)@, *env) == World::of(
            old(builder)@,
            old(state)@,
            *env,
        ).constant(op, ty),
        World::of(final(builder)@, final(state)@, *env).valid(),
{
    let ghost w0 = World::of(builder@, state@, *env);
    let v = builder.emit_value(op, ty);
    state.push1(v);
    proof {
        lemma_after_growth(w0, World::of(builder@, state@, *env));
    }
}

/// Shuffles two vectors.
pub fn translate_shuffle(
    lanes: u128,
    builder: &mut FunctionBuilder,
    state: &mut FuncTranslationState,
    env: &TranslationEnvironment,
)
    requires
        old(state).wf(),
        World::of(old(builder)@, old(state)@, *env).valid(),
        old(state)@.stack.len() >= 2,
    ensures
        final(state).wf(),
        World::of(final(builder)@, final(state)@, *env) == World::of(
            old(builder)@,
            old(state)@,
            *env,
        ).shuffled(lanes),
        World::of(final(builder)@, final(state)@, *env).valid(),
{
    proof {
        reveal(World::shuffled);
    }
    let ghost w0 = World::of(builder@, state@, *env);
    let (a, b) = crate::cranelift::recipes::pop2_with_bitcast(state, Type::I8X16, builder);
    let shuffled = builder.emit_value(Op::Shuffle { a, b, mask: lanes }, Type::I8X16);
    state.push1(shuffled);
    proof {
        lemma_after_growth(w0, World::of(builder@, state@, *env));
    }
}

/// Tests whether the reference on top of the stack is null.
pub fn translate_is_null(
    builder: &mut FunctionBuilder,
    state: &mut FuncTranslationState,
    env: &TranslationEnvironment,
)
    requires
        old(state).wf(),
        World::of(old(builder)@, old(state)@, *env).valid(),
        old(state)@.stack.len() >= 1,
    ensures
        final(state).wf(),
        World::of(final(builder)@, final(state)@, *env) == World::of(
            old(builder)@,
            old(state)@,
            *env,
        ).ref_tested(),
        World::of(final(builder)@, final(state)@, *env).valid(),
{
    proof {
        reveal(World::ref_tested);
    }
    let ghost w0 = World::of(builder@, state@, *env);
    let value = state.pop1();
    let is_null = translate_ref_is_null(builder, value);
    state.push1(is_null);
    proof {
        lemma_after_growth(w0, World::of(builder@, state@, *env));
    }
}

/// Traps where the reference on top of the stack is null.
pub fn translate_as_non_null(
    builder: &mut FunctionBuilder,
    state: &mut FuncTranslationState,
    env: &TranslationEnvironment,
)
    requires
        old(state).wf(),
        World::of(old(builder)@, old(state)@, *env).valid(),
        old(state)@.stack.len() >= 1,
    ensures
        final(state).wf(),
        World::of(final(builder)@, final(state)@, *env) == World::of(
            old(builder)@,
            old(state)@,
            *env,
        ).ref_asserted(),
        World::of(final(builder)@, final(state)@, *env).valid(),
{
    proof {
        reveal(World::ref_asserted);
    }
    let ghost w0 = World::of(builder@, state@, *env);
    let r = state.pop1();
    let is_null = translate_ref_is_null(builder, r);
    builder.emit(Op::Trapnz { arg: is_null, code: TrapCode::NullReference });
    state.push1(r);
    proof {
        lemma_after_growth(w0, World::of(builder@, state@, *env));
    }
}

/// Pushes a null reference.
pub fn translate_ref_null(
    hty: &WasmHeapType,
    builder: &mut FunctionBuilder,
    state: &mut FuncTranslationState,
    env: &TranslationEnvironment,
)
    requires
        old(state).wf(),
        World::of(old(builder)@, old(state)@, *env).valid(),
        !hty.shared,
        crate::cranelift::env::supported_heap_type(*hty),
    ensures
        final(state).wf(),
        World::of(final(builder)@, final(state)@, *env) == World::of(
            old(builder)@,
            old(state)@,
            *env,
        ).constant(
            Op::Iconst {
                ty: crate::cranelift::env::reference_type_of(*hty, env.isa.pointer_type),
                imm: 0,
            },
            crate::cranelift::env::reference_type_of(*hty, env.isa.pointer_type),
        ),
        World::of(final(builder)@, final(state)@, *env).valid(),
{
    let (ty, _) = env.reference_type(hty);
    translate_constant(Op::Iconst { ty, imm: 0 }, ty, builder, state, env);
}

} // verus!
