//! Translation of blocks, loops, conditionals and branches.
use crate::builder::{Code, FunctionBuilder};
use crate::cranelift::env::{value_type, TranslationEnvironment};
use crate::cranelift::recipes::canonicalise;
use crate::cranelift::state::{
    BlockType, ControlStackFrame, ElseData, FuncTranslationState, StateModel,
};
use crate::cranelift::world::World;

use crate::ir::{
    Block, ConvertOp, Inst, IntCC, Op, StepModel, Type, Value,
};
use crate::types::{FuncTypeModel, WasmValType};
use vstd::prelude::*;

verus! {

/// The parameters and results of a block.
pub open spec fn block_signature(env: TranslationEnvironment, blockty: BlockType) -> FuncTypeModel {
    match blockty {
        BlockType::Empty => FuncTypeModel { params: Seq::empty(), results: Seq::empty() },
        BlockType::Type(ty) => FuncTypeModel { params: Seq::empty(), results: seq![ty] },
        BlockType::FuncType(index) => env.func_type(index),
    }
}

/// Whether blocks of a type can be compiled.
pub open spec fn has_block_type(env: TranslationEnvironment, blockty: BlockType) -> bool {
    match blockty {
        BlockType::Empty => true,
        BlockType::Type(ty) => crate::cranelift::env::supported_val_type(ty),
        BlockType::FuncType(index) => env.has_func_type(index),
    }
}

/// The types in compiled code of the parameters of a block.
pub open spec fn param_types(env: TranslationEnvironment, blockty: BlockType) -> Seq<Type> {
    crate::cranelift::env::value_types_of(
        block_signature(env, blockty).params,
        env.isa.pointer_type,
    )
}

/// The types in compiled code of the results of a block.
pub open spec fn result_types(env: TranslationEnvironment, blockty: BlockType) -> Seq<Type> {
    crate::cranelift::env::value_types_of(
        block_signature(env, blockty).results,
        env.isa.pointer_type,
    )
}

/// A copy of a list of types.
fn copy_types(tys: &Vec<WasmValType>) -> (r: Vec<WasmValType>)
    ensures
        r@ == tys@,
{
    let mut copied: Vec<WasmValType> = Vec::new();
    for i in 0..tys.len()
        invariant
            copied@ == tys@.take(i as int),
    {
        copied.push(tys[i]);
        assert(copied@ =~= tys@.take(i + 1));
    }
    assert(tys@.take(tys@.len() as int) =~= tys@);
    copied
}

/// The parameters and results of a block.
pub fn blocktype_params_results(blockty: BlockType, env: &TranslationEnvironment) -> (r: (
    Vec<WasmValType>,
    Vec<WasmValType>,
))
    requires
        has_block_type(*env, blockty),
    ensures
        r.0@ == block_signature(*env, blockty).params,
        r.1@ == block_signature(*env, blockty).results,
{
    match blockty {
        BlockType::Empty => (Vec::new(), Vec::new()),
        BlockType::Type(ty) => {
            let mut results: Vec<WasmValType> = Vec::new();
            results.push(ty);
            assert(results@ =~= seq![ty]);
            (Vec::new(), results)
        },
        BlockType::FuncType(index) => {
            let interned = env.module.types[index as usize];
            let ty = &env.types.types[interned.index()];
            (copy_types(&ty.params), copy_types(&ty.results))
        },
    }
}

/// The types in compiled code of a list of values.
fn value_types(tys: &Vec<WasmValType>, pointer_type: Type) -> (r: Vec<Type>)
    ensures
        r@ == crate::cranelift::env::value_types_of(tys@, pointer_type),
{
    let mut out: Vec<Type> = Vec::new();
    for i in 0..tys.len()
        invariant
            out@ == crate::cranelift::env::value_types_of(tys@.take(i as int), pointer_type),
    {
        out.push(value_type(&tys[i], pointer_type));
        assert(out@ =~= crate::cranelift::env::value_types_of(tys@.take(i + 1), pointer_type));
    }
    assert(tys@.take(tys@.len() as int) =~= tys@);
    out
}

/// Whether two lists of types are the same.
fn same_types(a: &Vec<WasmValType>, b: &Vec<WasmValType>) -> (r: bool)
    ensures
        r == (a@ == b@),
{
    if a.len() != b.len() {
        return false;
    }
    for i in 0..a.len()
        invariant
            a@.len() == b@.len(),
            forall|k: int| 0 <= k < i ==> a@[k] == b@[k],
    {
        if a[i] != b[i] {
            assert(a@[i as int] != b@[i as int]);
            return false;
        }
    }
    assert(a@ =~= b@);
    true
}

/// Creates a block with parameters of WebAssembly types.
fn block_with_params(
    builder: &mut FunctionBuilder,
    tys: &Vec<WasmValType>,
    env: &TranslationEnvironment,
) -> (r: Block)
    ensures
        r == old(builder)@.next_block(),
        r.0 == old(builder)@.blocks.len(),
        final(builder)@ == old(builder)@.block_with_params(
            crate::cranelift::env::value_types_of(tys@, env.isa.pointer_type),
        ),
        final(builder)@.blocks.len() == old(builder)@.blocks.len() + 1 <= usize::MAX,
        final(builder)@.extends(old(builder)@),
        final(builder)@.blocks[r.0 as int].len() == tys@.len(),
        old(builder)@.blocks_ok() ==> final(builder)@.has_all(final(builder)@.blocks[r.0 as int]),
{
    let types = value_types(tys, env.pointer_type());
    builder.block_with_params(&types)
}

/// Values brought to the type of plain vectors, where they are vectors: the code and the values.
pub open spec fn canonical_values(code: Code, values: Seq<Value>) -> (Code, Seq<Value>)
    decreases values.len(),
{
    if values.len() == 0 {
        (code, Seq::empty())
    } else {
        let (c1, vs) = canonical_values(code, values.drop_last());
        let (c2, v) = crate::cranelift::recipes::canonical(c1, values.last());
        (c2, vs.push(v))
    }
}

/// Brings values to the type of plain vectors, where they are vectors.
fn canonicalise_v128_values(builder: &mut FunctionBuilder, values: &Vec<Value>) -> (r: Vec<Value>)
    requires
        old(builder)@.has_all(values@),
    ensures
        (final(builder)@, r@) == canonical_values(old(builder)@, values@),
        final(builder)@.grew(old(builder)@),
{
    let mut out: Vec<Value> = Vec::new();
    assert(values@.take(0) =~= Seq::empty());
    for i in 0..values.len()
        invariant
            old(builder)@.has_all(values@),
            builder@.grew(old(builder)@),
            (builder@, out@) == canonical_values(old(builder)@, values@.take(i as int)),
    {
        assert(values@.take(i + 1).drop_last() =~= values@.take(i as int));
        assert(old(builder)@.has(values@[i as int]));
        out.push(canonicalise(values[i], builder));
    }
    assert(values@.take(values@.len() as int) =~= values@);
    out
}

/// A jump with canonical arguments.
pub open spec fn jumped(code: Code, destination: Block, params: Seq<Value>) -> Code {
    let (c1, args) = canonical_values(code, params);
    c1.step(StepModel::Jump { destination, args })
}

/// Jumps with canonical arguments.
pub fn canonicalise_then_jump(builder: &mut FunctionBuilder, destination: Block, params: &Vec<Value>)
    requires
        old(builder)@.has_all(params@),
    ensures
        final(builder)@ == jumped(old(builder)@, destination, params@),
        final(builder)@.grew(old(builder)@),
{
    let args = canonicalise_v128_values(builder, params);
    builder.jump(destination, args);
}

/// A conditional branch with canonical arguments: the code and the branch.
pub open spec fn branched_if(
    code: Code,
    condition: Value,
    then_block: Block,
    then_params: Seq<Value>,
    else_block: Block,
    else_params: Seq<Value>,
) -> (Code, Inst) {
    let (c1, then_args) = canonical_values(code, then_params);
    let (c2, else_args) = canonical_values(c1, else_params);
    (
        c2.step(StepModel::Brif { condition, then_block, then_args, else_block, else_args }),
        c2.next_inst(),
    )
}

/// Branches conditionally with canonical arguments.
fn canonicalise_brif(
    builder: &mut FunctionBuilder,
    cond: Value,
    block_then: Block,
    params_then: &Vec<Value>,
    block_else: Block,
    params_else: &Vec<Value>,
) -> (r: Inst)
    requires
        old(builder)@.has_all(params_then@),
        old(builder)@.has_all(params_else@),
    ensures
        (final(builder)@, r) == branched_if(
            old(builder)@,
            cond,
            block_then,
            params_then@,
            block_else,
            params_else@,
        ),
        final(builder)@.grew(old(builder)@),
{
    let then_args = canonicalise_v128_values(builder, params_then);
    let else_args = canonicalise_v128_values(builder, params_else);
    builder.brif(cond, block_then, then_args, block_else, else_args)
}

impl<'a> World<'a> {
    /// Whether a block can be entered: its parameters are on the stack.
    pub open spec fn enterable(self, blockty: BlockType) -> bool {
        &&& has_block_type(self.env, blockty)
        &&& block_signature(self.env, blockty).params.len() <= self.st.stack.len()
        &&& block_signature(self.env, blockty).results.len() <= usize::MAX
    }

    /// A block entered: a block of code behind it is created.
    #[verifier::opaque]
    pub open spec fn block_entered(self, blockty: BlockType) -> World<'a> {
        let sig = block_signature(self.env, blockty);
        World {
            code: self.code.block_with_params(result_types(self.env, blockty)),
            st: self.st.enter(
                self.st.block_frame(
                    self.code.next_block(),
                    sig.params.len() as usize,
                    sig.results.len() as usize,
                ),
            ),
            ..self
        }
    }

    /// A loop entered: a header, which takes the parameters, and a block behind are created, and
    /// the code continues in the header.
    #[verifier::opaque]
    pub open spec fn loop_entered(self, blockty: BlockType) -> World<'a> {
        let sig = block_signature(self.env, blockty);
        let n = sig.params.len() as int;
        let header = self.code.next_block();
        let c1 = self.code.block_with_params(param_types(self.env, blockty));
        let next = c1.next_block();
        let c2 = c1.block_with_params(result_types(self.env, blockty));
        let c3 = jumped(c2, header, crate::cranelift::state::top(self.st.stack, n));
        let entered = self.st.enter(
            self.st.loop_frame(header, next, n as usize, sig.results.len() as usize),
        );
        World {
            code: c3.emitted(Op::SwitchToBlock { block: header }),
            st: StateModel {
                stack: entered.pop(n).stack + c2.blocks[header.0 as int],
                ..entered
            },
            ..self
        }
    }

    /// An `if` entered, by the condition on top of the stack.
    ///
    /// Where parameters and results have the same types there may be no `else`: a false condition
    /// branches behind the construct until one is found. Otherwise the block of the `else` is
    /// created at once.
    #[verifier::opaque]
    pub open spec fn if_entered(self, blockty: BlockType) -> World<'a> {
        let sig = block_signature(self.env, blockty);
        let n = sig.params.len() as int;
        let val = self.st.peek(0);
        let st = self.st.pop(1);
        let args = crate::cranelift::state::top(st.stack, n);
        let next = self.code.next_block();
        let c1 = self.code.block_created();
        let destination = c1.next_block();
        let c2 = c1.block_with_params(result_types(self.env, blockty));
        let (c3, else_data) = if sig.params == sig.results {
            let (c3, branch_inst) = branched_if(c2, val, next, Seq::empty(), destination, args);
            (c3, ElseData::NoElse { branch_inst, placeholder: destination })
        } else {
            let else_block = c2.next_block();
            let c3 = c2.block_with_params(param_types(self.env, blockty));
            let (c4, _) = branched_if(c3, val, next, Seq::empty(), else_block, args);
            (
                c4.emitted(Op::SealBlock { block: else_block }),
                ElseData::WithElse { else_block },
            )
        };
        World {
            code: c3.emitted(Op::SealBlock { block: next }).emitted(
                Op::SwitchToBlock { block: next },
            ),
            st: st.if_entered(
                destination,
                else_data,
                n as usize,
                sig.results.len() as usize,
                blockty,
            ),
            ..self
        }
    }

    /// Whether an `else` can follow: the innermost construct is an `if` without one, and its results
    /// are on the stack.
    pub open spec fn has_if(self) -> bool {
        &&& self.st.control.len() > 0
        &&& self.st.frame(0) is If
        &&& self.st.frame(0)->consequent_ends_reachable is None
        &&& has_block_type(self.env, self.st.frame(0)->blocktype)
        &&& self.st.frame(0)->else_data is NoElse ==> block_signature(
            self.env,
            self.st.frame(0)->blocktype,
        ).params.len() == self.st.frame(0).returned()
        &&& self.st.frame(0).returned() <= self.st.stack.len()
    }

    /// The consequent of the innermost `if` finished.
    pub open spec fn consequent_finished(self) -> StateModel {
        StateModel {
            control: self.st.control.update(
                self.st.control.len() - 1,
                self.st.frame(0).consequent_finished(self.st.reachable),
            ),
            ..self.st
        }
    }

    /// An `else` in reachable code: the consequent jumps behind the construct, and the code
    /// continues in the block of the `else`, which is created now if it was not before.
    #[verifier::opaque]
    pub open spec fn else_reached(self) -> World<'a> {
        let st = self.consequent_finished();
        match self.st.frame(0) {
            ControlStackFrame::If {
                destination,
                else_data,
                head_is_reachable: true,
                blocktype,
                num_return_values,
                ..
            } => {
                let results = crate::cranelift::state::top(st.stack, num_return_values as int);
                let (c1, else_block) = match else_data {
                    ElseData::NoElse { branch_inst, placeholder } => {
                        let else_block = self.code.next_block();
                        let c1 = self.code.block_with_params(param_types(self.env, blocktype));
                        (
                            jumped(c1, destination, results).emitted(
                                Op::ChangeJumpDestination {
                                    inst: branch_inst,
                                    from: placeholder,
                                    to: else_block,
                                },
                            ).emitted(Op::SealBlock { block: else_block }),
                            else_block,
                        )
                    },
                    ElseData::WithElse { else_block } => (
                        jumped(self.code, destination, results),
                        else_block,
                    ),
                };
                World {
                    code: c1.emitted(Op::SwitchToBlock { block: else_block }),
                    st: st.pop(num_return_values as int),
                    ..self
                }
            },
            _ => World { st, ..self },
        }
    }

    /// An `else` in unreachable code: where its head is reachable, so is the `else`.
    #[verifier::opaque]
    pub open spec fn else_after_unreachable(self) -> World<'a> {
        let st = self.consequent_finished();
        match self.st.frame(0) {
            ControlStackFrame::If {
                else_data,
                head_is_reachable: true,
                blocktype,
                original_stack_size,
                ..
            } => {
                let (c1, else_block) = match else_data {
                    ElseData::NoElse { branch_inst, placeholder } => {
                        let else_block = self.code.next_block();
                        (
                            self.code.block_with_params(
                                param_types(self.env, blocktype),
                            ).emitted(
                                Op::ChangeJumpDestination {
                                    inst: branch_inst,
                                    from: placeholder,
                                    to: else_block,
                                },
                            ).emitted(Op::SealBlock { block: else_block }),
                            else_block,
                        )
                    },
                    ElseData::WithElse { else_block } => (self.code, else_block),
                };
                World {
                    code: c1.emitted(Op::SwitchToBlock { block: else_block }),
                    st: StateModel {
                        stack: crate::cranelift::state::cut(
                            st.stack,
                            original_stack_size as int,
                        ),
                        reachable: true,
                        ..st
                    },
                    ..self
                }
            },
            _ => World { st, ..self },
        }
    }

    /// The end of a construct in reachable code: its results go to the block behind it, where the
    /// code continues. All blocks of the construct are sealed.
    #[verifier::opaque]
    pub open spec fn ended(self) -> World<'a> {
        let frame = self.st.frame(0);
        let next = frame.following();
        let c1 = jumped(
            self.code,
            next,
            crate::cranelift::state::top(self.st.stack, frame.returned() as int),
        );
        let c2 = c1.emitted(Op::SwitchToBlock { block: next }).emitted(
            Op::SealBlock { block: next },
        );
        World {
            code: match frame {
                ControlStackFrame::Loop { header, .. } => c2.emitted(
                    Op::SealBlock { block: header },
                ),
                _ => c2,
            },
            st: StateModel {
                stack: crate::cranelift::state::cut(self.st.stack, frame.floor())
                    + self.code.blocks[next.0 as int],
                control: self.st.control.drop_last(),
                ..self.st
            },
            ..self
        }
    }

    /// Whether the code behind a construct is reachable though its end is not: a branch leads
    /// there, or for an `if` the consequent or the missing `else` does.
    pub open spec fn reachable_behind(frame: ControlStackFrame) -> bool {
        frame.exits() || match frame {
            ControlStackFrame::If {
                head_is_reachable,
                consequent_ends_reachable: Some(consequent),
                ..
            } => head_is_reachable && consequent,
            ControlStackFrame::If { head_is_reachable, consequent_ends_reachable: None, .. } => {
                head_is_reachable
            },
            _ => false,
        }
    }

    /// The end of a construct in unreachable code.
    #[verifier::opaque]
    pub open spec fn ended_unreachable(self) -> World<'a> {
        let frame = self.st.frame(0);
        let next = frame.following();
        let c1 = match frame {
            ControlStackFrame::Loop { header, .. } => self.code.emitted(
                Op::SealBlock { block: header },
            ),
            _ => self.code,
        };
        let stack = crate::cranelift::state::cut(self.st.stack, frame.floor());
        let control = self.st.control.drop_last();
        if Self::reachable_behind(frame) {
            World {
                code: c1.emitted(Op::SwitchToBlock { block: next }).emitted(
                    Op::SealBlock { block: next },
                ),
                st: StateModel {
                    stack: stack + self.code.blocks[next.0 as int],
                    control,
                    reachable: true,
                    ..self.st
                },
                ..self
            }
        } else {
            World { code: c1, st: StateModel { stack, control, ..self.st }, ..self }
        }
    }

    /// Whether a branch to a depth is possible: there is a construct, and its values are on the
    /// stack below `above` other values.
    pub open spec fn branchable(self, depth: u32, above: int) -> bool {
        &&& depth < self.st.control.len()
        &&& above + self.st.frame(depth as int).branch_arity() <= self.st.stack.len()
    }

    /// A branch to a depth; the code behind it is unreachable.
    #[verifier::opaque]
    pub open spec fn br(self, depth: u32) -> World<'a> {
        let frame = self.st.frame(depth as int);
        let n = frame.branch_arity() as int;
        World {
            code: jumped(
                self.code,
                frame.target(),
                crate::cranelift::state::top(self.st.stack, n),
            ),
            st: StateModel { reachable: false, ..self.st.branched_at(depth as int).pop(n) },
            ..self
        }
    }

    /// A branch to a depth where the value on top of the stack is not zero.
    #[verifier::opaque]
    pub open spec fn br_if(self, depth: u32) -> World<'a> {
        let st = self.st.pop(1).branched_at(depth as int);
        let frame = self.st.frame(depth as int);
        let next = self.code.next_block();
        let (c1, _) = branched_if(
            self.code.block_created(),
            self.st.peek(0),
            frame.target(),
            crate::cranelift::state::top(st.stack, frame.branch_arity() as int),
            next,
            Seq::empty(),
        );
        World {
            code: c1.emitted(Op::SealBlock { block: next }).emitted(
                Op::SwitchToBlock { block: next },
            ),
            st,
            ..self
        }
    }

    /// Whether a reference is null, as a 32-bit value.
    pub open spec fn null_tested(code: Code, value: Value) -> (Code, Value) {
        crate::cranelift::recipes::widened(
            code.int_compare_imm(IntCC::Equal, value, 0),
            code.next_value(),
        )
    }

    /// A branch to a depth where the reference on top of the stack is null; otherwise it stays.
    #[verifier::opaque]
    pub open spec fn br_on_null(self, depth: u32) -> World<'a> {
        let r = self.st.peek(0);
        let st = self.st.pop(1).branched_at(depth as int);
        let frame = self.st.frame(depth as int);
        let (c1, is_null) = Self::null_tested(self.code, r);
        let else_block = c1.next_block();
        let (c2, _) = branched_if(
            c1.block_created(),
            is_null,
            frame.target(),
            crate::cranelift::state::top(st.stack, frame.branch_arity() as int),
            else_block,
            Seq::empty(),
        );
        World {
            code: c2.emitted(Op::SealBlock { block: else_block }).emitted(
                Op::SwitchToBlock { block: else_block },
            ),
            st: st.push(r),
            ..self
        }
    }

    /// A branch to a depth where the reference on top of the stack, which the branch carries, is
    /// not null; otherwise it is dropped.
    #[verifier::opaque]
    pub open spec fn br_on_non_null(self, depth: u32) -> World<'a> {
        let st = self.st.branched_at(depth as int);
        let frame = self.st.frame(depth as int);
        let (c1, is_null) = Self::null_tested(self.code, self.st.peek(0));
        let else_block = c1.next_block();
        let (c2, _) = branched_if(
            c1.block_created(),
            is_null,
            else_block,
            Seq::empty(),
            frame.target(),
            crate::cranelift::state::top(st.stack, frame.branch_arity() as int),
        );
        World {
            code: c2.emitted(Op::SealBlock { block: else_block }).emitted(
                Op::SwitchToBlock { block: else_block },
            ),
            st: st.pop(1),
            ..self
        }
    }
}

/// Enters a block.
pub fn translate_block(
    blockty: BlockType,
    builder: &mut FunctionBuilder,
    state: &mut FuncTranslationState,
    env: &TranslationEnvironment,
)
    requires
        old(state).wf(),
        World::of(old(builder)@, old(state)@, *env).valid(),
        World::of(old(builder)@, old(state)@, *env).enterable(blockty),
        old(state)@.reachable,
    ensures
        final(state).wf(),
        World::of(final(builder)@, final(state)@, *env) == World::of(
            old(builder)@,
            old(state)@,
            *env,
        ).block_entered(blockty),
        World::of(final(builder)@, final(state)@, *env).valid(),
{
    proof {
        reveal(World::block_entered);
    }
    let ghost w0 = World::of(builder@, state@, *env);
    let (params, results) = blocktype_params_results(blockty, env);
    let next = block_with_params(builder, &results, env);
    state.push_block(next, params.len(), results.len());
    proof {
        let w1 = World::of(builder@, state@, *env);
        crate::cranelift::world::lemma_entered_live(
            w0.code,
            w0.st,
            w1.code,
            w1.st,
            w1.st.control.last(),
        );
        crate::cranelift::world::lemma_valid_with_frames(w0, w1);
    }
}

/// Enters a loop.
pub fn translate_loop(
    blockty: BlockType,
    builder: &mut FunctionBuilder,
    state: &mut FuncTranslationState,
    env: &TranslationEnvironment,
)
    requires
        old(state).wf(),
        World::of(old(builder)@, old(state)@, *env).valid(),
        World::of(old(builder)@, old(state)@, *env).enterable(blockty),
        old(state)@.reachable,
    ensures
        final(state).wf(),
        World::of(final(builder)@, final(state)@, *env) == World::of(
            old(builder)@,
            old(state)@,
            *env,
        ).loop_entered(blockty),
        World::of(final(builder)@, final(state)@, *env).valid(),
{
    proof {
        reveal(World::loop_entered);
    }
    let ghost w0 = World::of(builder@, state@, *env);
    let (params, results) = blocktype_params_results(blockty, env);
    let loop_body = block_with_params(builder, &params, env);
    let ghost c1 = builder@;
    let next = block_with_params(builder, &results, env);
    let ghost c2 = builder@;
    proof {
        crate::builder::lemma_extends_trans(w0.code, c1, c2);
        lemma_blocks_kept(
            c1,
            crate::cranelift::env::value_types_of(results@, env.isa.pointer_type),
            loop_body,
        );
    }
    let args = state.peekn(params.len());
    canonicalise_then_jump(builder, loop_body, &args);
    state.push_loop(loop_body, next, params.len(), results.len());
    state.popn(params.len());
    let body_params = copy_values(builder.block_params(loop_body));
    state.pushn(&body_params);
    builder.switch_to_block(loop_body);
    proof {
        let w1 = World::of(builder@, state@, *env);
        crate::builder::lemma_grew_extends(c2, w1.code);
        crate::builder::lemma_extends_trans(w0.code, c2, w1.code);
        crate::cranelift::world::lemma_entered_live(
            w0.code,
            w0.st,
            w1.code,
            w1.st,
            w1.st.control.last(),
        );
        assert(w1.code.blocks[loop_body.0 as int] == c2.blocks[loop_body.0 as int]);
        crate::cranelift::world::lemma_valid_with_frames(w0, w1);
    }
}

/// A copy of a list of values.
fn copy_values(values: &Vec<Value>) -> (r: Vec<Value>)
    ensures
        r@ == values@,
{
    let mut copied: Vec<Value> = Vec::new();
    for i in 0..values.len()
        invariant
            copied@ == values@.take(i as int),
    {
        copied.push(values[i]);
        assert(copied@ =~= values@.take(i + 1));
    }
    assert(values@.take(values@.len() as int) =~= values@);
    copied
}

/// A new block leaves the parameters of the others alone.
proof fn lemma_blocks_kept(code: Code, tys: Seq<Type>, block: Block)
    requires
        block.0 < code.blocks.len() <= usize::MAX,
    ensures
        code.block_with_params(tys).blocks[block.0 as int] == code.blocks[block.0 as int],
{
    lemma_params_kept(code.block_created(), code.next_block(), tys, block);
}

/// New parameters of one block leave those of another alone.
proof fn lemma_params_kept(code: Code, block: Block, tys: Seq<Type>, other: Block)
    requires
        other.0 < code.blocks.len(),
        block.0 < code.blocks.len(),
        other != block,
    ensures
        code.block_params_added(block, tys).blocks[other.0 as int] == code.blocks[other.0 as int],
        code.block_params_added(block, tys).blocks.len() == code.blocks.len(),
    decreases tys.len(),
{
    if tys.len() > 0 {
        lemma_params_kept(code, block, tys.drop_last(), other);
    }
}

/// Enters an `if`.
pub fn translate_if(
    blockty: BlockType,
    builder: &mut FunctionBuilder,
    state: &mut FuncTranslationState,
    env: &TranslationEnvironment,
)
    requires
        old(state).wf(),
        World::of(old(builder)@, old(state)@, *env).valid(),
        old(state)@.stack.len() >= 1,
        World::of(old(builder)@, old(state)@, *env).popped(1).enterable(blockty),
        old(state)@.reachable,
    ensures
        final(state).wf(),
        World::of(final(builder)@, final(state)@, *env) == World::of(
            old(builder)@,
            old(state)@,
            *env,
        ).if_entered(blockty),
        World::of(final(builder)@, final(state)@, *env).valid(),
{
    proof {
        reveal(World::if_entered);
    }
    let ghost w0 = World::of(builder@, state@, *env);
    let val = state.pop1();
    let next_block = builder.create_block();
    let ghost c1 = builder@;
    let (params, results) = blocktype_params_results(blockty, env);
    let none: Vec<Value> = Vec::new();
    let args = state.peekn(params.len());
    let destination = block_with_params(builder, &results, env);
    let ghost c2 = builder@;
    proof {
        assert(c1.extends(w0.code));
        crate::builder::lemma_extends_trans(w0.code, c1, c2);
    }
    let else_data = if same_types(&params, &results) {
        let branch_inst = canonicalise_brif(builder, val, next_block, &none, destination, &args);
        proof {
            crate::builder::lemma_grew_extends(c2, builder@);
            crate::builder::lemma_extends_trans(w0.code, c2, builder@);
        }
        ElseData::NoElse { branch_inst, placeholder: destination }
    } else {
        let else_block = block_with_params(builder, &params, env);
        let ghost c3 = builder@;
        canonicalise_brif(builder, val, next_block, &none, else_block, &args);
        builder.seal_block(else_block);
        proof {
            crate::builder::lemma_extends_trans(w0.code, c2, c3);
            crate::builder::lemma_grew_extends(c3, builder@);
            crate::builder::lemma_extends_trans(w0.code, c3, builder@);
        }
        ElseData::WithElse { else_block }
    };
    let ghost c4 = builder@;
    builder.seal_block(next_block);
    builder.switch_to_block(next_block);
    state.push_if(destination, else_data, params.len(), results.len(), blockty);
    proof {
        let w1 = World::of(builder@, state@, *env);
        crate::builder::lemma_grew_extends(c4, w1.code);
        crate::builder::lemma_extends_trans(w0.code, c4, w1.code);
        crate::cranelift::world::lemma_entered_live(
            w0.code,
            w0.st,
            w1.code,
            w1.st,
            w1.st.control.last(),
        );
        crate::cranelift::world::lemma_valid_with_frames(w0, w1);
    }
}

/// Begins an `else` in reachable code.
pub fn translate_else(
    builder: &mut FunctionBuilder,
    state: &mut FuncTranslationState,
    env: &TranslationEnvironment,
)
    requires
        old(state).wf(),
        World::of(old(builder)@, old(state)@, *env).valid(),
        World::of(old(builder)@, old(state)@, *env).has_if(),
        old(state)@.reachable,
    ensures
        final(state).wf(),
        World::of(final(builder)@, final(state)@, *env) == World::of(
            old(builder)@,
            old(state)@,
            *env,
        ).else_reached(),
        World::of(final(builder)@, final(state)@, *env).valid(),
{
    proof {
        reveal(World::else_reached);
    }
    let ghost w0 = World::of(builder@, state@, *env);
    let i: usize = state.control_stack.len() - 1;
    let mut frame = state.control_stack[i];
    frame.finish_consequent(state.reachable);
    state.control_stack.set(i, frame);
    proof {
        assert(state@.control =~= w0.consequent_finished().control);
    }
    match frame {
        ControlStackFrame::If {
            destination,
            else_data,
            head_is_reachable,
            num_return_values,
            blocktype,
            ..
        } => {
            if head_is_reachable {
                state.reachable = true;
                let else_block = match else_data {
                    ElseData::NoElse { branch_inst, placeholder } => {
                        let (params, _) = blocktype_params_results(blocktype, env);
                        let else_block = block_with_params(builder, &params, env);
                        let ghost c1 = builder@;
                        let args = state.peekn(params.len());
                        canonicalise_then_jump(builder, destination, &args);
                        state.popn(params.len());
                        builder.change_jump_destination(branch_inst, placeholder, else_block);
                        builder.seal_block(else_block);
                        proof {
                            crate::builder::lemma_grew_extends(c1, builder@);
                            crate::builder::lemma_extends_trans(w0.code, c1, builder@);
                        }
                        else_block
                    },
                    ElseData::WithElse { else_block } => {
                        let args = state.peekn(num_return_values);
                        canonicalise_then_jump(builder, destination, &args);
                        state.popn(num_return_values);
                        proof {
                            crate::builder::lemma_grew_extends(w0.code, builder@);
                        }
                        else_block
                    },
                };
                let ghost c2 = builder@;
                builder.switch_to_block(else_block);
                proof {
                    crate::builder::lemma_grew_extends(c2, builder@);
                    crate::builder::lemma_extends_trans(w0.code, c2, builder@);
                }
            }
        },
        _ => {},
    }
    proof {
        let w1 = World::of(builder@, state@, *env);
        crate::cranelift::world::lemma_finished(w0.code, w0.st, w1.code, w1.st, true);
        crate::cranelift::world::lemma_valid_with_frames(w0, w1);
    }
}

/// Begins an `else` in unreachable code.
pub fn translate_unreachable_else(
    builder: &mut FunctionBuilder,
    state: &mut FuncTranslationState,
    env: &TranslationEnvironment,
)
    requires
        old(state).wf(),
        World::of(old(builder)@, old(state)@, *env).valid(),
        old(state)@.control.len() > 0,
        old(state)@.frame(0) is If,
        old(state)@.frame(0)->consequent_ends_reachable is None,
        has_block_type(*env, old(state)@.frame(0)->blocktype),
        !old(state)@.reachable,
    ensures
        final(state).wf(),
        World::of(final(builder)@, final(state)@, *env) == World::of(
            old(builder)@,
            old(state)@,
            *env,
        ).else_after_unreachable(),
        World::of(final(builder)@, final(state)@, *env).valid(),
{
    proof {
        reveal(World::else_after_unreachable);
    }
    let ghost w0 = World::of(builder@, state@, *env);
    let i: usize = state.control_stack.len() - 1;
    let mut frame = state.control_stack[i];
    assert(frame.wf() && (crate::cranelift::world::live(w0.code, frame)
        || crate::cranelift::world::dead(frame)));
    frame.finish_consequent(state.reachable);
    state.control_stack.set(i, frame);
    proof {
        assert(state@.control =~= w0.consequent_finished().control);
    }
    match frame {
        ControlStackFrame::If { else_data, head_is_reachable, blocktype, .. } => {
            if head_is_reachable {
                state.reachable = true;
                let else_block = match else_data {
                    ElseData::NoElse { branch_inst, placeholder } => {
                        let (params, _) = blocktype_params_results(blocktype, env);
                        let else_block = block_with_params(builder, &params, env);
                        let ghost c1 = builder@;
                        frame.truncate_value_stack_to_else_params(&mut state.stack);
                        builder.change_jump_destination(branch_inst, placeholder, else_block);
                        builder.seal_block(else_block);
                        proof {
                            crate::builder::lemma_grew_extends(c1, builder@);
                            crate::builder::lemma_extends_trans(w0.code, c1, builder@);
                        }
                        else_block
                    },
                    ElseData::WithElse { else_block } => {
                        frame.truncate_value_stack_to_else_params(&mut state.stack);
                        proof {
                            crate::builder::lemma_grew_extends(w0.code, builder@);
                        }
                        else_block
                    },
                };
                let ghost c2 = builder@;
                builder.switch_to_block(else_block);
                proof {
                    crate::builder::lemma_grew_extends(c2, builder@);
                    crate::builder::lemma_extends_trans(w0.code, c2, builder@);
                }
            }
        },
        _ => {},
    }
    proof {
        let w1 = World::of(builder@, state@, *env);
        crate::cranelift::world::lemma_finished(w0.code, w0.st, w1.code, w1.st, false);
        crate::cranelift::world::lemma_valid_with_frames(w0, w1);
    }
}

/// Ends a construct in reachable code.
pub fn translate_end(
    builder: &mut FunctionBuilder,
    state: &mut FuncTranslationState,
    env: &TranslationEnvironment,
)
    requires
        old(state).wf(),
        World::of(old(builder)@, old(state)@, *env).valid(),
        old(state)@.control.len() > 0,
        old(state)@.frame(0).returned() <= old(state)@.stack.len(),
        old(state)@.reachable,
    ensures
        final(state).wf(),
        World::of(final(builder)@, final(state)@, *env) == World::of(
            old(builder)@,
            old(state)@,
            *env,
        ).ended(),
        World::of(final(builder)@, final(state)@, *env).valid(),
{
    proof {
        reveal(World::ended);
    }
    let ghost w0 = World::of(builder@, state@, *env);
    let i: usize = state.control_stack.len() - 1;
    let frame = state.control_stack[i];
    state.control_stack.pop();
    assert(state@.control =~= w0.st.control.drop_last());
    assert(frame.wf() && crate::cranelift::world::live(w0.code, w0.st.control.last()));
    let next_block = frame.following_code();
    let return_count: usize = frame.num_return_values();
    let return_args = state.peekn(return_count);
    canonicalise_then_jump(builder, next_block, &return_args);
    builder.switch_to_block(next_block);
    builder.seal_block(next_block);
    if let ControlStackFrame::Loop { header, .. } = frame {
        builder.seal_block(header);
    }
    frame.truncate_value_stack_to_original_size(&mut state.stack);
    let params = copy_values(builder.block_params(next_block));
    state.pushn(&params);
    proof {
        let w1 = World::of(builder@, state@, *env);
        crate::builder::lemma_grew_extends(w0.code, w1.code);
        assert(w1.code.blocks_ok());
        assert(w1.code.has_all(params@)) by {
            assert forall|k: int| 0 <= k < params@.len() implies w1.code.has(
                #[trigger] params@[k],
            ) by {
                assert(w1.code.has(w1.code.blocks[next_block.0 as int][k]));
            }
        }
        crate::cranelift::world::lemma_left(w0.code, w0.st, w1.code, w1.st);
        crate::cranelift::world::lemma_valid_with_frames(w0, w1);
    }
}

/// Ends a construct in unreachable code.
pub fn translate_unreachable_end(
    builder: &mut FunctionBuilder,
    state: &mut FuncTranslationState,
    env: &TranslationEnvironment,
)
    requires
        old(state).wf(),
        World::of(old(builder)@, old(state)@, *env).valid(),
        old(state)@.control.len() > 0,
        !old(state)@.reachable,
    ensures
        final(state).wf(),
        World::of(final(builder)@, final(state)@, *env) == World::of(
            old(builder)@,
            old(state)@,
            *env,
        ).ended_unreachable(),
        World::of(final(builder)@, final(state)@, *env).valid(),
{
    proof {
        reveal(World::ended_unreachable);
    }
    let ghost w0 = World::of(builder@, state@, *env);
    let i: usize = state.control_stack.len() - 1;
    let frame = state.control_stack[i];
    state.control_stack.pop();
    assert(state@.control =~= w0.st.control.drop_last());
    assert(frame.wf() && (crate::cranelift::world::live(w0.code, frame)
        || crate::cranelift::world::dead(frame)));
    frame.truncate_value_stack_to_original_size(&mut state.stack);
    let reachable_anyway = match frame {
        ControlStackFrame::Loop { header, .. } => {
            builder.seal_block(header);
            false
        },
        ControlStackFrame::If { head_is_reachable, consequent_ends_reachable, .. } => {
            match consequent_ends_reachable {
                Some(consequent) => head_is_reachable && consequent,
                None => head_is_reachable,
            }
        },
        _ => false,
    };
    if frame.exit_is_branched_to() || reachable_anyway {
        let next_block = frame.following_code();
        builder.switch_to_block(next_block);
        builder.seal_block(next_block);
        let params = copy_values(builder.block_params(next_block));
        state.pushn(&params);
        state.reachable = true;
        proof {
            assert forall|k: int| 0 <= k < params@.len() implies builder@.has(
                #[trigger] params@[k],
            ) by {
                assert(w0.code.has(w0.code.blocks[next_block.0 as int][k]));
            }
        }
    }
    proof {
        let w1 = World::of(builder@, state@, *env);
        crate::builder::lemma_grew_extends(w0.code, w1.code);
        crate::cranelift::world::lemma_left(w0.code, w0.st, w1.code, w1.st);
        crate::cranelift::world::lemma_valid_with_frames(w0, w1);
    }
}

/// Branches to a depth.
pub fn translate_br(
    relative_depth: u32,
    builder: &mut FunctionBuilder,
    state: &mut FuncTranslationState,
    env: &TranslationEnvironment,
)
    requires
        old(state).wf(),
        World::of(old(builder)@, old(state)@, *env).valid(),
        World::of(old(builder)@, old(state)@, *env).branchable(relative_depth, 0),
        old(state)@.reachable,
    ensures
        final(state).wf(),
        World::of(final(builder)@, final(state)@, *env) == World::of(
            old(builder)@,
            old(state)@,
            *env,
        ).br(relative_depth),
        World::of(final(builder)@, final(state)@, *env).valid(),
{
    proof {
        reveal(World::br);
    }
    let ghost w0 = World::of(builder@, state@, *env);
    let (br_destination, return_count) = translate_br_if_args(relative_depth, state);
    let destination_args = state.peekn(return_count);
    canonicalise_then_jump(builder, br_destination, &destination_args);
    state.popn(return_count);
    state.reachable = false;
    proof {
        let w1 = World::of(builder@, state@, *env);
        crate::builder::lemma_grew_extends(w0.code, w1.code);
        crate::cranelift::world::lemma_branched_frames(w0.code, w0.st, w1.code, w1.st);
        crate::cranelift::world::lemma_valid_with_frames(w0, w1);
    }
}

/// Notes a branch to a depth; returns its target and the number of values it carries.
fn translate_br_if_args(relative_depth: u32, state: &mut FuncTranslationState) -> (r: (
    Block,
    usize,
))
    requires
        relative_depth < old(state)@.control.len(),
    ensures
        final(state)@ == old(state)@.branched_at(relative_depth as int),
        r.0 == old(state)@.frame(relative_depth as int).target(),
        r.1 == old(state)@.frame(relative_depth as int).branch_arity(),
        old(state).wf() ==> final(state).wf(),
{
    let i: usize = state.control_stack.len() - 1 - relative_depth as usize;
    let mut frame = state.control_stack[i];
    frame.set_branched_to_exit();
    state.control_stack.set(i, frame);
    assert(state@.control =~= old(state)@.branched_at(relative_depth as int).control);
    (frame.br_destination(), frame.num_branch_values())
}

/// Branches to a depth on a condition.
pub fn translate_br_if(
    relative_depth: u32,
    builder: &mut FunctionBuilder,
    state: &mut FuncTranslationState,
    env: &TranslationEnvironment,
)
    requires
        old(state).wf(),
        World::of(old(builder)@, old(state)@, *env).valid(),
        World::of(old(builder)@, old(state)@, *env).branchable(relative_depth, 1),
        old(state)@.reachable,
    ensures
        final(state).wf(),
        World::of(final(builder)@, final(state)@, *env) == World::of(
            old(builder)@,
            old(state)@,
            *env,
        ).br_if(relative_depth),
        World::of(final(builder)@, final(state)@, *env).valid(),
{
    proof {
        reveal(World::br_if);
    }
    let ghost w0 = World::of(builder@, state@, *env);
    let val = state.pop1();
    let (br_destination, return_count) = translate_br_if_args(relative_depth, state);
    let inputs = state.peekn(return_count);
    let next_block = builder.create_block();
    let ghost c1 = builder@;
    let none: Vec<Value> = Vec::new();
    canonicalise_brif(builder, val, br_destination, &inputs, next_block, &none);
    builder.seal_block(next_block);
    builder.switch_to_block(next_block);
    proof {
        let w1 = World::of(builder@, state@, *env);
        assert(c1.extends(w0.code));
        crate::builder::lemma_grew_extends(c1, w1.code);
        crate::builder::lemma_extends_trans(w0.code, c1, w1.code);
        crate::cranelift::world::lemma_branched_frames(w0.code, w0.st, w1.code, w1.st);
        crate::cranelift::world::lemma_valid_with_frames(w0, w1);
    }
}

/// Tests whether a reference is null.
pub fn translate_ref_is_null(builder: &mut FunctionBuilder, value: Value) -> (r: Value)
    requires
        old(builder)@.has(value),
    ensures
        (final(builder)@, r) == World::null_tested(old(builder)@, value),
        final(builder)@.has(r),
        final(builder)@.grew(old(builder)@),
{
    let byte_is_null = builder.int_compare_imm(IntCC::Equal, value, 0);
    builder.convert(ConvertOp::Uextend, Type::I32, byte_is_null)
}

/// Branches to a depth where a reference is null.
pub fn translate_br_on_null(
    relative_depth: u32,
    builder: &mut FunctionBuilder,
    state: &mut FuncTranslationState,
    env: &TranslationEnvironment,
)
    requires
        old(state).wf(),
        World::of(old(builder)@, old(state)@, *env).valid(),
        World::of(old(builder)@, old(state)@, *env).branchable(relative_depth, 1),
        old(state)@.reachable,
    ensures
        final(state).wf(),
        World::of(final(builder)@, final(state)@, *env) == World::of(
            old(builder)@,
            old(state)@,
            *env,
        ).br_on_null(relative_depth),
        World::of(final(builder)@, final(state)@, *env).valid(),
{
    proof {
        reveal(World::br_on_null);
    }
    let ghost w0 = World::of(builder@, state@, *env);
    let r = state.pop1();
    let (br_destination, return_count) = translate_br_if_args(relative_depth, state);
    let inputs = state.peekn(return_count);
    let is_null = translate_ref_is_null(builder, r);
    let ghost c0 = builder@;
    let else_block = builder.create_block();
    let ghost c1 = builder@;
    let none: Vec<Value> = Vec::new();
    canonicalise_brif(builder, is_null, br_destination, &inputs, else_block, &none);
    builder.seal_block(else_block);
    builder.switch_to_block(else_block);
    state.push1(r);
    proof {
        let w1 = World::of(builder@, state@, *env);
        crate::builder::lemma_grew_extends(w0.code, c0);
        assert(c1.extends(c0));
        crate::builder::lemma_extends_trans(w0.code, c0, c1);
        crate::builder::lemma_grew_extends(c1, w1.code);
        crate::builder::lemma_extends_trans(w0.code, c1, w1.code);
        crate::cranelift::world::lemma_branched_frames(w0.code, w0.st, w1.code, w1.st);
        crate::cranelift::world::lemma_valid_with_frames(w0, w1);
    }
}

/// Branches to a depth where a reference is not null.
pub fn translate_br_on_non_null(
    relative_depth: u32,
    builder: &mut FunctionBuilder,
    state: &mut FuncTranslationState,
    env: &TranslationEnvironment,
)
    requires
        old(state).wf(),
        World::of(old(builder)@, old(state)@, *env).valid(),
        World::of(old(builder)@, old(state)@, *env).branchable(relative_depth, 0),
        old(state)@.stack.len() >= 1,
        old(state)@.reachable,
    ensures
        final(state).wf(),
        World::of(final(builder)@, final(state)@, *env) == World::of(
            old(builder)@,
            old(state)@,
            *env,
        ).br_on_non_null(relative_depth),
        World::of(final(builder)@, final(state)@, *env).valid(),
{
    proof {
        reveal(World::br_on_non_null);
    }
    let ghost w0 = World::of(builder@, state@, *env);
    let r = state.peek1();
    let is_null = translate_ref_is_null(builder, r);
    let ghost c0 = builder@;
    let (br_destination, return_count) = translate_br_if_args(relative_depth, state);
    let inputs = state.peekn(return_count);
    let else_block = builder.create_block();
    let ghost c1 = builder@;
    let none: Vec<Value> = Vec::new();
    canonicalise_brif(builder, is_null, else_block, &none, br_destination, &inputs);
    state.pop1();
    builder.seal_block(else_block);
    builder.switch_to_block(else_block);
    proof {
        let w1 = World::of(builder@, state@, *env);
        crate::builder::lemma_grew_extends(w0.code, c0);
        assert(c1.extends(c0));
        crate::builder::lemma_extends_trans(w0.code, c0, c1);
        crate::builder::lemma_grew_extends(c1, w1.code);
        crate::builder::lemma_extends_trans(w0.code, c1, w1.code);
        crate::cranelift::world::lemma_branched_frames(w0.code, w0.st, w1.code, w1.st);
        crate::cranelift::world::lemma_valid_with_frames(w0, w1);
    }
}

} // verus!
