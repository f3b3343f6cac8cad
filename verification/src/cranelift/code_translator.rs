//! Translation of operators, one by one.
use crate::builder::FunctionBuilder;
use crate::cranelift::access::{translate_access, translate_lane_access};
use crate::cranelift::branch_table::translate_br_table;
use crate::cranelift::control::{
    translate_block, translate_br, translate_br_if, translate_br_on_non_null, translate_br_on_null,
    translate_else, translate_end, translate_if, translate_loop, translate_unreachable_else,
    translate_unreachable_end,
};
use crate::cranelift::env::TranslationEnvironment;
use crate::cranelift::invoke::{translate_call, translate_call_indirect, translate_return};
use crate::cranelift::operator::Operator;
use crate::cranelift::recipes::{translate_lane, translate_numeric, translate_vector};
use crate::cranelift::state::{ElseData, FuncTranslationState, StateModel};
use crate::cranelift::variables::{
    translate_as_non_null, translate_constant, translate_global_get, translate_global_set,
    translate_is_null, translate_local_get, translate_local_set, translate_ref_null,
    translate_select, translate_shuffle,
};
use crate::cranelift::world::World;
use crate::errors::Error;
use crate::ir::{Block, Inst, Op, TrapCode, Type};
use crate::text::push_decimal;
use vstd::prelude::*;

verus! {

/// A result, or the knowledge that the code behind it is never reached.
#[derive(Debug, Clone, Copy, PartialEq, Eq)]
#[must_use]
pub enum Reachability<T> {
    /// The code behind is reachable; here is the result.
    Reachable(T),
    /// The code behind is never reached.
    Unreachable,
}

/// The feature that an operator needs and that is not supported.
pub open spec fn unsupported_feature(op: Operator<Seq<u32>>) -> Option<Seq<char>> {
    match op {
        Operator::Proposed(op) => Some(op.feature()),
        Operator::MemoryDiscard { mem } => Some(
            "proposed memory-control operator MemoryDiscard { mem: "@ + crate::text::decimal(
                mem as nat,
            ) + " }"@,
        ),
        _ => None,
    }
}

/// Whether an operator can come next in unreachable code: `else` and `end` close a construct.
pub open spec fn admissible_unreachable(op: Operator<Seq<u32>>, w: World) -> bool {
    match op {
        Operator::Else => {
            &&& w.st.control.len() > 0
            &&& w.st.frame(0) is If
            &&& w.st.frame(0)->consequent_ends_reachable is None
            &&& crate::cranelift::control::has_block_type(w.env, w.st.frame(0)->blocktype)
        },
        Operator::End => w.st.control.len() > 0,
        _ => true,
    }
}

/// Whether an operator can come next in reachable code: its operands are on the stack, and what it
/// names exists.
pub open spec fn admissible_reachable(op: Operator<Seq<u32>>, w: World) -> bool {
    let height = w.st.stack.len();
    match op {
        Operator::Unreachable | Operator::Nop | Operator::AtomicFence => true,
        Operator::I32Const { .. } | Operator::I64Const { .. } | Operator::F32Const { .. } => true,
        Operator::F64Const { .. } | Operator::V128Const { .. } => true,
        Operator::Proposed(_) | Operator::MemoryDiscard { .. } => true,
        Operator::Untranslated(_) => false,
        Operator::Drop | Operator::RefIsNull | Operator::RefAsNonNull => height >= 1,
        Operator::Select | Operator::TypedSelect => height >= 3,
        Operator::Block { blockty } => w.enterable(blockty),
        Operator::Loop { blockty } => w.enterable(blockty),
        Operator::If { blockty } => height >= 1 && w.popped(1).enterable(blockty),
        Operator::Else => w.has_if(),
        Operator::End => w.st.control.len() > 0 && w.st.frame(0).returned() <= height,
        Operator::Br { relative_depth } => w.branchable(relative_depth, 0),
        Operator::BrIf { relative_depth } => w.branchable(relative_depth, 1),
        Operator::BrTable { targets, default } => w.table_branchable(targets, default),
        Operator::BrOnNull { relative_depth } => w.branchable(relative_depth, 1),
        Operator::BrOnNonNull { relative_depth } => height >= 1 && w.branchable(relative_depth, 0),
        Operator::Return => w.returnable(),
        Operator::Call { function_index } => w.func_callable(function_index),
        Operator::CallIndirect { type_index, table_index } => w.indirectly_callable(
            type_index,
            table_index,
        ),
        Operator::LocalGet { local_index } => local_index < w.code.vars.len(),
        Operator::LocalSet { .. } | Operator::LocalTee { .. } => height >= 1,
        Operator::GlobalGet { global_index } => w.global_readable(global_index),
        Operator::GlobalSet { global_index } => w.global_writable(global_index),
        Operator::I8x16Shuffle { .. } => height >= 2,
        Operator::RefNull { hty } => !hty.shared && crate::cranelift::env::supported_heap_type(hty),
        Operator::Numeric(op) => height >= op.recipe().arity(),
        Operator::Vector(op) => height >= op.recipe().arity(),
        Operator::Lane { op, .. } => height >= op.recipe().arity(),
        Operator::Access { op, memarg } => op.recipe() is Some && op.recipe()->0.translatable(
            w,
            memarg,
        ),
        Operator::LaneAccess { op, memarg, lane } => op.recipe().translatable(w, memarg, lane),
    }
}

/// Whether an operator can come next.
pub open spec fn admissible(op: Operator<Seq<u32>>, w: World) -> bool {
    if w.st.reachable {
        admissible_reachable(op, w)
    } else {
        admissible_unreachable(op, w)
    }
}

/// An operator in unreachable code: only the nesting of constructs is followed.
pub open spec fn translated_unreachable<'a>(op: Operator<Seq<u32>>, w: World<'a>) -> World<'a> {
    match op {
        Operator::If { blockty } => World {
            st: w.st.if_entered(
                Block::spec_reserved_value(),
                ElseData::NoElse {
                    branch_inst: Inst::spec_reserved_value(),
                    placeholder: Block::spec_reserved_value(),
                },
                0,
                0,
                blockty,
            ),
            ..w
        },
        Operator::Loop { .. } => World {
            st: w.st.enter(w.st.block_frame(Block::spec_reserved_value(), 0, 0)),
            ..w
        },
        Operator::Block { .. } => World {
            st: w.st.enter(w.st.block_frame(Block::spec_reserved_value(), 0, 0)),
            ..w
        },
        Operator::Else => w.else_after_unreachable(),
        Operator::End => w.ended_unreachable(),
        _ => w,
    }
}

/// An operator in reachable code.
pub open spec fn translated_reachable<'a>(op: Operator<Seq<u32>>, w: World<'a>) -> World<'a> {
    match op {
        Operator::Unreachable => World {
            code: w.code.emitted(Op::Trap { code: TrapCode::Unreachable }),
            ..w
        }.cut_off(),
        Operator::Nop => w,
        Operator::Drop => w.popped(1),
        Operator::Select | Operator::TypedSelect => w.selected(),
        Operator::Block { blockty } => w.block_entered(blockty),
        Operator::Loop { blockty } => w.loop_entered(blockty),
        Operator::If { blockty } => w.if_entered(blockty),
        Operator::Else => w.else_reached(),
        Operator::End => w.ended(),
        Operator::Br { relative_depth } => w.br(relative_depth),
        Operator::BrIf { relative_depth } => w.br_if(relative_depth),
        Operator::BrTable { targets, default } => w.br_table(targets, default),
        Operator::BrOnNull { relative_depth } => w.br_on_null(relative_depth),
        Operator::BrOnNonNull { relative_depth } => w.br_on_non_null(relative_depth),
        Operator::Return => w.returned(),
        Operator::Call { function_index } => w.called(function_index),
        Operator::CallIndirect { type_index, table_index } => w.called_indirectly(
            type_index,
            table_index,
        ),
        Operator::LocalGet { local_index } => w.local_got(local_index),
        Operator::LocalSet { local_index } => w.local_set(local_index, false),
        Operator::LocalTee { local_index } => w.local_set(local_index, true),
        Operator::GlobalGet { global_index } => w.global_got(global_index),
        Operator::GlobalSet { global_index } => w.global_set(global_index),
        Operator::I32Const { value } => w.constant(
            Op::Iconst { ty: Type::I32, imm: value as i64 },
            Type::I32,
        ),
        Operator::I64Const { value } => w.constant(
            Op::Iconst { ty: Type::I64, imm: value },
            Type::I64,
        ),
        Operator::F32Const { bits } => w.constant(Op::F32const { bits }, Type::F32),
        Operator::F64Const { bits } => w.constant(Op::F64const { bits }, Type::F64),
        Operator::V128Const { bytes } => w.constant(
            Op::Vconst { ty: Type::I8X16, bytes },
            Type::I8X16,
        ),
        Operator::I8x16Shuffle { lanes } => w.shuffled(lanes),
        Operator::RefNull { hty } => {
            let ty = crate::cranelift::env::reference_type_of(hty, w.env.isa.pointer_type);
            w.constant(Op::Iconst { ty, imm: 0 }, ty)
        },
        Operator::RefIsNull => w.ref_tested(),
        Operator::RefAsNonNull => w.ref_asserted(),
        Operator::AtomicFence => World { code: w.code.emitted(Op::Fence), ..w },
        Operator::Numeric(op) => {
            let (code, v) = op.recipe().result(w.code, w.st.peek(1), w.st.peek(0));
            World { code, st: w.st.pop(op.recipe().arity()).push(v), ..w }
        },
        Operator::Vector(op) => {
            let (code, v) = op.recipe().result(
                w.code,
                w.env,
                w.st.peek(2),
                w.st.peek(1),
                w.st.peek(0),
            );
            World { code, st: w.st.pop(op.recipe().arity()).push(v), ..w }
        },
        Operator::Lane { op, lane } => {
            let (code, v) = op.recipe().result(w.code, w.st.peek(1), w.st.peek(0), lane);
            World { code, st: w.st.pop(op.recipe().arity()).push(v), ..w }
        },
        Operator::Access { op, memarg } => op.recipe()->0.translated(w, memarg),
        Operator::LaneAccess { op, memarg, lane } => op.recipe().translated(w, memarg, lane),
        Operator::Untranslated(_) => w,
        Operator::Proposed(_) | Operator::MemoryDiscard { .. } => w,
    }
}

/// An operator translated. Operators in unreachable code yield no code of their own.
pub open spec fn translated<'a>(op: Operator<Seq<u32>>, w: World<'a>) -> World<'a> {
    if w.st.reachable {
        translated_reachable(op, w)
    } else {
        translated_unreachable(op, w)
    }
}

/// Operators in unreachable code that neither open nor close a construct have no effect.
pub proof fn dead_operators_have_no_effect(op: Operator<Seq<u32>>, w: World)
    requires
        !w.st.reachable,
        !(op is If || op is Loop || op is Block || op is Else || op is End),
    ensures
        translated(op, w) == w,
{
}

/// A construct that is opened and closed in unreachable code has no effect.
pub proof fn dead_constructs_have_no_effect(op: Operator<Seq<u32>>, w: World)
    requires
        !w.st.reachable,
        w.st.stack.len() <= usize::MAX,
        op is If || op is Loop || op is Block,
    ensures
        translated(Operator::End, translated(op, w)) == w,
{
    reveal(World::ended_unreachable);
    let opened = translated(op, w);
    assert(opened.st.control.drop_last() =~= w.st.control);
    assert(opened.st.stack =~= w.st.stack);
    let closed = translated(Operator::End, opened);
    assert(closed.st.stack =~= w.st.stack);
    assert(closed.st =~= w.st);
}

/// Everything exists after an operator that popped its operands and pushed one result.
proof fn lemma_after_recipe(w0: World, w1: World)
    requires
        w0.valid(),
        w1.code.grew(w0.code),
        w1.code.has_all(w1.st.stack),
        w1.env == w0.env,
        w1.st == (StateModel { stack: w1.st.stack, ..w0.st }),
    ensures
        w1.valid(),
{
    crate::builder::lemma_grew_extends(w0.code, w1.code);
    crate::cranelift::world::lemma_still_valid(w0, w1);
}

/// Translates an operator.
pub fn translate_operator(
    op: &Operator,
    builder: &mut FunctionBuilder,
    state: &mut FuncTranslationState,
    env: &mut TranslationEnvironment,
) -> (r: Result<(), Error>)
    requires
        old(state).wf(),
        World::of(old(builder)@, old(state)@, *old(env)).valid(),
        admissible(op@, World::of(old(builder)@, old(state)@, *old(env))),
    ensures
        final(state).wf(),
        World::of(final(builder)@, final(state)@, *final(env)).valid(),
        World::of(final(builder)@, final(state)@, *final(env)) == translated(
            op@,
            World::of(old(builder)@, old(state)@, *old(env)),
        ),
        r is Err <==> old(state)@.reachable && unsupported_feature(op@) is Some,
        r matches Err(e) ==> (e matches Error::Unsupported(feature) && Some(feature@)
            == unsupported_feature(op@)),
{
    if !state.reachable {
        translate_unreachable_operator(op, builder, state, env);
        return Ok(());
    }
    let ghost w0 = World::of(builder@, state@, *env);
    match op {
        Operator::Unreachable => {
            builder.emit(Op::Trap { code: TrapCode::Unreachable });
            state.reachable = false;
            proof {
                let w1 = World::of(builder@, state@, *env);
                crate::builder::lemma_grew_extends(w0.code, w1.code);
                crate::cranelift::world::lemma_still_valid(w0, w1);
            }
        },
        Operator::Nop => {},
        Operator::Drop => {
            state.pop1();
            proof {
                lemma_after_recipe(w0, World::of(builder@, state@, *env));
            }
        },
        Operator::Select => translate_select(builder, state, env),
        Operator::TypedSelect => translate_select(builder, state, env),
        Operator::Block { blockty } => translate_block(*blockty, builder, state, env),
        Operator::Loop { blockty } => translate_loop(*blockty, builder, state, env),
        Operator::If { blockty } => translate_if(*blockty, builder, state, env),
        Operator::Else => translate_else(builder, state, env),
        Operator::End => translate_end(builder, state, env),
        Operator::Br { relative_depth } => translate_br(*relative_depth, builder, state, env),
        Operator::BrIf { relative_depth } => translate_br_if(*relative_depth, builder, state, env),
        Operator::BrTable { targets, default } => {
            translate_br_table(targets, *default, builder, state, env)
        },
        Operator::BrOnNull { relative_depth } => {
            translate_br_on_null(*relative_depth, builder, state, env)
        },
        Operator::BrOnNonNull { relative_depth } => {
            translate_br_on_non_null(*relative_depth, builder, state, env)
        },
        Operator::Return => translate_return(builder, state, env),
        Operator::Call { function_index } => translate_call(*function_index, builder, state, env),
        Operator::CallIndirect { type_index, table_index } => {
            translate_call_indirect(*type_index, *table_index, builder, state, env)
        },
        Operator::LocalGet { local_index } => {
            translate_local_get(*local_index, builder, state, env)
        },
        Operator::LocalSet { local_index } => {
            translate_local_set(*local_index, false, builder, state, env)
        },
        Operator::LocalTee { local_index } => {
            translate_local_set(*local_index, true, builder, state, env)
        },
        Operator::GlobalGet { global_index } => {
            translate_global_get(*global_index, builder, state, env)
        },
        Operator::GlobalSet { global_index } => {
            translate_global_set(*global_index, builder, state, env)
        },
        Operator::I32Const { value } => {
            let imm: i64 = *value as i64;
            translate_constant(Op::Iconst { ty: Type::I32, imm }, Type::I32, builder, state, env)
        },
        Operator::I64Const { value } => {
            let imm: i64 = *value;
            translate_constant(Op::Iconst { ty: Type::I64, imm }, Type::I64, builder, state, env)
        },
        Operator::F32Const { bits } => {
            translate_constant(Op::F32const { bits: *bits }, Type::F32, builder, state, env)
        },
        Operator::F64Const { bits } => {
            translate_constant(Op::F64const { bits: *bits }, Type::F64, builder, state, env)
        },
        Operator::V128Const { bytes } => {
            let op = Op::Vconst { ty: Type::I8X16, bytes: *bytes };
            translate_constant(op, Type::I8X16, builder, state, env)
        },
        Operator::I8x16Shuffle { lanes } => translate_shuffle(*lanes, builder, state, env),
        Operator::RefNull { hty } => translate_ref_null(hty, builder, state, env),
        Operator::RefIsNull => translate_is_null(builder, state, env),
        Operator::RefAsNonNull => translate_as_non_null(builder, state, env),
        Operator::AtomicFence => {
            builder.emit(Op::Fence);
            proof {
                lemma_after_recipe(w0, World::of(builder@, state@, *env));
            }
        },
        Operator::Numeric(op) => {
            translate_numeric(op.get_recipe(), builder, state);
            proof {
                lemma_after_recipe(w0, World::of(builder@, state@, *env));
            }
        },
        Operator::Vector(op) => {
            translate_vector(op.get_recipe(), builder, state, env);
            proof {
                lemma_after_recipe(w0, World::of(builder@, state@, *env));
            }
        },
        Operator::Lane { op, lane } => {
            translate_lane(op.get_recipe(), *lane, builder, state);
            proof {
                lemma_after_recipe(w0, World::of(builder@, state@, *env));
            }
        },
        Operator::Access { op, memarg } => {
            let recipe = op.get_recipe().unwrap();
            translate_access(recipe, memarg, builder, state, env)
        },
        Operator::LaneAccess { op, memarg, lane } => {
            translate_lane_access(op.get_recipe(), memarg, *lane, builder, state, env)
        },
        Operator::Untranslated(_) => {
            assert(false);
        },
        Operator::Proposed(op) => {
            return Err(Error::unsupported(op.feature_name()));
        },
        Operator::MemoryDiscard { mem } => {
            let mut feature = String::from_str(
                "proposed memory-control operator MemoryDiscard { mem: ",
            );
            push_decimal(&mut feature, *mem as u64);
            feature.append(" }");
            return Err(Error::Unsupported(feature));
        },
    }
    Ok(())
}

/// Follows an operator through unreachable code.
fn translate_unreachable_operator(
    op: &Operator,
    builder: &mut FunctionBuilder,
    state: &mut FuncTranslationState,
    env: &TranslationEnvironment,
)
    requires
        old(state).wf(),
        World::of(old(builder)@, old(state)@, *env).valid(),
        !old(state)@.reachable,
        admissible_unreachable(op@, World::of(old(builder)@, old(state)@, *env)),
    ensures
        final(state).wf(),
        World::of(final(builder)@, final(state)@, *env).valid(),
        World::of(final(builder)@, final(state)@, *env) == translated_unreachable(
            op@,
            World::of(old(builder)@, old(state)@, *env),
        ),
{
    let ghost w0 = World::of(builder@, state@, *env);
    match op {
        Operator::If { blockty } => {
            state.push_if(
                Block::reserved_value(),
                ElseData::NoElse {
                    branch_inst: Inst::reserved_value(),
                    placeholder: Block::reserved_value(),
                },
                0,
                0,
                *blockty,
            );
            proof {
                let w1 = World::of(builder@, state@, *env);
                crate::builder::lemma_grew_extends(w0.code, w1.code);
                crate::cranelift::world::lemma_entered_dead(
                    w0.code,
                    w0.st,
                    w1.st,
                    w1.st.control.last(),
                );
                crate::cranelift::world::lemma_valid_with_frames(w0, w1);
            }
        },
        Operator::Loop { .. } | Operator::Block { .. } => {
            state.push_block(Block::reserved_value(), 0, 0);
            proof {
                let w1 = World::of(builder@, state@, *env);
                crate::builder::lemma_grew_extends(w0.code, w1.code);
                crate::cranelift::world::lemma_entered_dead(
                    w0.code,
                    w0.st,
                    w1.st,
                    w1.st.control.last(),
                );
                crate::cranelift::world::lemma_valid_with_frames(w0, w1);
            }
        },
        Operator::Else => translate_unreachable_else(builder, state, env),
        Operator::End => translate_unreachable_end(builder, state, env),
        _ => {},
    }
}

} // verus!
