//! Where blocks, loops and conditionals lead.
use crate::builder::Code;
use crate::cranelift::branching::{
    carried, landing, lemma_block_created, lemma_branched, lemma_has_all, lemma_jumped, lemma_top,
};
use crate::cranelift::code_translator::translated;
use crate::cranelift::control::{
    block_signature, branched_if, canonical_values, jumped, param_types, result_types,
};
use crate::cranelift::meaning::{
    lemma_run_nothing, lemma_run_step, performed, run, runs, went_on, Flow, Machine, Moment,
};
use crate::cranelift::operator::Operator;
use crate::cranelift::simulation::{
    flow, goes_on, leaves_for, lemma_all_kept, lemma_arrived, lemma_canonical_values_passed,
    lemma_left, operand, operands, operands_below, ready,
};
use crate::cranelift::state::{below, cut, top, BlockType, ControlStackFrame, ElseData};
use crate::cranelift::world::World;
use crate::ir::{Block, Op, StepModel, Type, Value};
use vstd::prelude::*;

verus! {

/// Whether a block has been created with `n` parameters, which are new.
pub open spec fn created(before: Code, after: Code, block: Block, n: nat) -> bool {
    let params = after.blocks[block.0 as int];
    &&& before.blocks.len() <= block.0 < after.blocks.len()
    &&& params.len() == n
    &&& forall|i: int|
        0 <= i < n ==> before.values.len() <= (#[trigger] params[i]).0 < after.values.len()
    &&& forall|i: int, j: int|
        0 <= i < j < n ==> (#[trigger] params[i]) != (#[trigger] params[j])
}

/// Parameters are appended to a block.
proof fn lemma_params_added(
    m: Machine,
    code: Code,
    block: Block,
    tys: Seq<Type>,
    from: nat,
    at: Flow,
    s: Moment,
) -> (t: Moment)
    requires
        from <= code.steps.len(),
        run(m, code.steps, from, at) == Flow::On(s),
        runs(s, code),
        block.0 < code.blocks.len(),
        code.blocks[block.0 as int].len() == 0,
        code.values.len() + tys.len() <= usize::MAX,
    ensures
        ({
            let after = code.block_params_added(block, tys);
            &&& run(m, after.steps, from, at) == Flow::On(t)
            &&& runs(t, after)
            &&& went_on(t, s)
            &&& after.values.len() == code.values.len() + tys.len()
            &&& after.blocks.len() == code.blocks.len()
            &&& after.steps.len() == code.steps.len() + tys.len()
            &&& after.blocks[block.0 as int].len() == tys.len()
            &&& forall|i: int|
                0 <= i < tys.len() ==> (#[trigger] after.blocks[block.0 as int][i]).0
                    == code.values.len() + i
            &&& forall|b: int|
                0 <= b < code.blocks.len() && b != block.0 ==> #[trigger] after.blocks[b]
                    == code.blocks[b]
        }),
    decreases tys.len(),
{
    if tys.len() == 0 {
        s
    } else {
        reveal(performed);
        let rest = tys.drop_last();
        let s1 = lemma_params_added(m, code, block, rest, from, at, s);
        let c1 = code.block_params_added(block, rest);
        let op = Op::AppendBlockParam { block, ty: tys.last() };
        lemma_run_step(m, c1.steps, StepModel::Op(op), from, at);
        let after = code.block_params_added(block, tys);
        assert forall|i: int| 0 <= i < tys.len() implies (
        #[trigger] after.blocks[block.0 as int][i]).0 == code.values.len() + i by {
            if i < rest.len() {
                assert(after.blocks[block.0 as int][i] == c1.blocks[block.0 as int][i]);
            }
        }
        s1.param_appended(block, tys.last())
    }
}

/// A block with parameters is created.
pub proof fn lemma_block_with_params(
    m: Machine,
    code: Code,
    tys: Seq<Type>,
    from: nat,
    at: Flow,
    s: Moment,
) -> (t: Moment)
    requires
        from <= code.steps.len(),
        run(m, code.steps, from, at) == Flow::On(s),
        runs(s, code),
        code.blocks.len() < usize::MAX,
        code.values.len() + tys.len() <= usize::MAX,
    ensures
        ({
            let after = code.block_with_params(tys);
            &&& run(m, after.steps, from, at) == Flow::On(t)
            &&& runs(t, after)
            &&& went_on(t, s)
            &&& created(code, after, code.next_block(), tys.len())
            &&& after.values.len() == code.values.len() + tys.len()
            &&& after.blocks.len() == code.blocks.len() + 1
            &&& after.steps.len() == code.steps.len() + 1 + tys.len()
            &&& forall|b: int|
                0 <= b < code.blocks.len() ==> #[trigger] after.blocks[b] == code.blocks[b]
        }),
{
    lemma_block_created(m, code, from, at, s);
    let c1 = code.block_created();
    let t = lemma_params_added(m, c1, code.next_block(), tys, from, at, s.block_created());
    let after = code.block_with_params(tys);
    assert forall|b: int| 0 <= b < code.blocks.len() implies #[trigger] after.blocks[b]
        == code.blocks[b] by {
        assert(after.blocks[b] == c1.blocks[b]);
    }
    t
}

/// Control arrives in a block with arguments for all of its parameters.
pub proof fn lemma_entered(
    m: Machine,
    code: Code,
    from: nat,
    at: Flow,
    block: Block,
    args: Seq<int>,
    s: Moment,
) -> (t: Moment)
    requires
        from <= code.steps.len(),
        run(m, code.steps, from, at) == (Flow::Left { block, args, moment: s }),
        runs(s, code),
        code.blocks[block.0 as int].len() == args.len(),
        code.blocks[block.0 as int].no_duplicates(),
        code.has_all(code.blocks[block.0 as int]),
    ensures
        run(m, code.emitted(Op::SwitchToBlock { block }).steps, from, at) == Flow::On(t),
        runs(t, code),
        t.vars == s.vars,
        t.memory == s.memory,
        t.all(code.blocks[block.0 as int]) == args,
        forall|v: Value|
            !code.blocks[block.0 as int].contains(v) && code.has(v) ==> #[trigger] t.bits(v)
                == s.bits(v),
        forall|i: int|
            0 <= i < s.values.len() && !code.blocks[block.0 as int].contains(Value(i as usize))
                ==> #[trigger] t.values[i] == s.values[i],
{
    let params = code.blocks[block.0 as int];
    lemma_run_step(m, code.steps, StepModel::Op(Op::SwitchToBlock { block }), from, at);
    let t = s.entered(block, args);
    assert(s.blocks[block.0 as int] == params);
    assert forall|i: int| 0 <= i < params.len() implies t.bits(params[i]) == #[trigger] args[i] by {
        let v = params[i];
        assert(code.has(v));
        assert(params.contains(v));
        assert(Value(v.0 as int as usize) == v);
        let j = params.index_of(v);
        assert(params[j] == v);
        assert(i == j);
    }
    assert(t.all(params) =~= args);
    assert forall|v: Value| !params.contains(v) && code.has(v) implies #[trigger] t.bits(v)
        == s.bits(v) by {
        assert(Value(v.0 as int as usize) == v);
    }
    t
}

/// A block goes on with the operands that are there. What a branch to it leads to is a new block
/// with a parameter for each result.
pub proof fn blocks_go_on(blockty: BlockType, m: Machine, w: World, s: Moment)
    requires
        ready(w, s, block_signature(w.env, blockty).results.len()),
        w.code.blocks.len() < usize::MAX,
        w.st.stack.len() <= usize::MAX,
        w.enterable(blockty),
    ensures
        ({
            let after = translated(Operator::Block { blockty }, w);
            let frame = after.st.control.last();
            let sig = block_signature(w.env, blockty);
            &&& goes_on(m, w, after, s, operands(w, s))
            &&& after.st.control == w.st.control.push(frame)
            &&& frame is Block
            &&& created(w.code, after.code, landing(frame), sig.results.len())
            &&& carried(frame) == sig.results.len()
            &&& frame->Block_original_stack_size == (w.st.stack.len() - sig.params.len()) as usize
            &&& !frame->Block_exit_is_branched_to
        }),
{
    reveal(World::block_entered);
    let from = w.code.steps.len();
    let at = Flow::On(s);
    let after = translated(Operator::Block { blockty }, w);
    lemma_run_nothing(m, w.code.steps, from, at);
    let t = lemma_block_with_params(m, w.code, result_types(w.env, blockty), from, at, s);
    lemma_all_kept(s, t, w.code, w.st.stack);
    lemma_has_all(w.code, after.code, w.st.stack);
}

/// A loop goes on with the operands that are there. What a branch to it leads to is a new block with
/// a parameter for each parameter, in which the code goes on, and behind it there is another new
/// block with a parameter for each result.
#[verifier::spinoff_prover]
#[verifier::rlimit(60)]
pub proof fn loops_go_on(blockty: BlockType, m: Machine, w: World, s: Moment)
    requires
        ready(
            w,
            s,
            block_signature(w.env, blockty).results.len() + 2 * block_signature(
                w.env,
                blockty,
            ).params.len(),
        ),
        w.code.blocks.len() + 1 < usize::MAX,
        w.enterable(blockty),
    ensures
        ({
            let after = translated(Operator::Loop { blockty }, w);
            let frame = after.st.control.last();
            let sig = block_signature(w.env, blockty);
            &&& goes_on(m, w, after, s, operands(w, s))
            &&& after.st.control == w.st.control.push(frame)
            &&& frame matches ControlStackFrame::Loop { header, destination, .. } && {
                &&& created(w.code, after.code, header, sig.params.len())
                &&& created(w.code, after.code, destination, sig.results.len())
                &&& header != destination
                &&& landing(frame) == header
            }
            &&& carried(frame) == sig.params.len()
            &&& frame->Loop_num_return_values == sig.results.len()
            &&& frame->Loop_original_stack_size == (w.st.stack.len() - sig.params.len()) as usize
        }),
{
    reveal(World::loop_entered);
    let from = w.code.steps.len();
    let at = Flow::On(s);
    let after = translated(Operator::Loop { blockty }, w);
    let sig = block_signature(w.env, blockty);
    let n = sig.params.len() as int;
    lemma_run_nothing(m, w.code.steps, from, at);
    let header = w.code.next_block();
    let s1 = lemma_block_with_params(m, w.code, param_types(w.env, blockty), from, at, s);
    let c1 = w.code.block_with_params(param_types(w.env, blockty));
    let s2 = lemma_block_with_params(m, c1, result_types(w.env, blockty), from, at, s1);
    let c2 = c1.block_with_params(result_types(w.env, blockty));
    assert(c2.blocks[header.0 as int] == c1.blocks[header.0 as int]);
    assert(below(w.st.stack, 0) =~= w.st.stack);
    lemma_top(w, s, 0, n);
    let args = top(w.st.stack, n);
    lemma_has_all(w.code, c2, args);
    lemma_all_kept(s, s2, w.code, args);
    lemma_all_kept(s, s2, w.code, w.st.stack);
    let s3 = lemma_jumped(m, c2, header, args, from, at, s2);
    let c3 = jumped(c2, header, args);
    let params = c3.blocks[header.0 as int];
    assert(params == c1.blocks[header.0 as int]);
    assert forall|i: int| 0 <= i < params.len() implies c3.has(#[trigger] params[i]) by {
        assert(c1.blocks[header.0 as int][i].0 < c1.values.len());
    }
    let t = lemma_entered(m, c3, from, at, header, s2.all(args), s3);
    assert(went_on(t, s)) by {
        assert forall|i: int| 0 <= i < s.values.len() implies #[trigger] t.values[i]
            == s.values[i] by {
            if params.contains(Value(i as usize)) {
                let j = params.index_of(Value(i as usize));
                assert(c1.blocks[header.0 as int][j].0 >= w.code.values.len());
            }
            assert(s3.values[i] == s2.values[i]);
        }
    }
    let k = w.st.stack.len() - n;
    assert(operands(after, t) =~= operands(w, s)) by {
        assert forall|i: int| 0 <= i < w.st.stack.len() implies t.bits(after.st.stack[i])
            == #[trigger] operands(w, s)[i] by {
            if i < k {
                let v = w.st.stack[i];
                assert(after.st.stack[i] == v);
                assert(w.code.has(v));
                assert(t.values[v.0 as int] == s.values[v.0 as int]);
            } else {
                assert(after.st.stack[i] == params[i - k]);
                assert(t.all(params)[i - k] == s2.all(args)[i - k]);
                assert(s2.all(args)[i - k] == s.all(args)[i - k]);
                assert(args[i - k] == w.st.stack[i]);
            }
        }
    }
    assert forall|i: int| 0 <= i < after.st.stack.len() implies after.code.has(
        #[trigger] after.st.stack[i],
    ) by {
        if i < k {
            assert(w.code.has(w.st.stack[i]));
        } else {
            assert(params[i - k] == after.st.stack[i]);
        }
    }
    let next = c1.next_block();
    assert(after.code.blocks[next.0 as int] == c2.blocks[next.0 as int]);
    assert forall|i: int| 0 <= i < sig.results.len() implies w.code.values.len() <= (
    #[trigger] after.code.blocks[next.0 as int][i]).0 < after.code.values.len() by {
        assert(c1.values.len() <= c2.blocks[next.0 as int][i].0 < c2.values.len());
    }
    assert(created(w.code, after.code, next, sig.results.len()));
}

/// The block where the alternative of an `if` begins, as far as it is known: behind the construct
/// while no `else` has been found.
pub open spec fn alternative(else_data: ElseData) -> Block {
    match else_data {
        ElseData::NoElse { placeholder, .. } => placeholder,
        ElseData::WithElse { else_block } => else_block,
    }
}

/// An `if` goes on with its consequent where the value on top of the stack is not zero, with its
/// parameters on the stack twice. Where it is zero, control leaves for the alternative, with the
/// parameters.
#[verifier::spinoff_prover]
#[verifier::rlimit(100)]
pub proof fn conditionals_branch(blockty: BlockType, m: Machine, w: World, s: Moment)
    requires
        ready(
            w,
            s,
            block_signature(w.env, blockty).results.len() + 2 * block_signature(
                w.env,
                blockty,
            ).params.len(),
        ),
        w.code.blocks.len() + 2 < usize::MAX,
        w.code.steps.len() + w.st.stack.len() + block_signature(w.env, blockty).results.len() + 2
            <= usize::MAX,
        w.st.stack.len() >= 1,
        w.popped(1).enterable(blockty),
    ensures
        ({
            let after = translated(Operator::If { blockty }, w);
            let frame = after.st.control.last();
            let sig = block_signature(w.env, blockty);
            let n = sig.params.len() as int;
            let k = w.st.stack.len() - 1;
            let params = operands(w, s).subrange(k - n, k);
            &&& after.st.control == w.st.control.push(frame)
            &&& frame matches ControlStackFrame::If {
                destination,
                else_data,
                num_param_values,
                num_return_values,
                original_stack_size,
                exit_is_branched_to,
                blocktype,
                head_is_reachable,
                consequent_ends_reachable,
            } && {
                &&& created(w.code, after.code, destination, sig.results.len())
                &&& num_param_values == n
                &&& num_return_values == sig.results.len()
                &&& original_stack_size == k
                &&& !exit_is_branched_to
                &&& blocktype == blockty
                &&& head_is_reachable
                &&& consequent_ends_reachable is None
                &&& operand(w, s, 0) == 0 ==> leaves_for(
                    m,
                    w,
                    after,
                    s,
                    alternative(else_data),
                    params,
                )
                &&& match else_data {
                    ElseData::NoElse { branch_inst, placeholder } => {
                        &&& placeholder == destination
                        &&& sig.params == sig.results
                        &&& after.code.steps[branch_inst.0 as int] matches StepModel::Brif {
                            else_block,
                            ..
                        } && else_block == placeholder
                    },
                    ElseData::WithElse { else_block } => {
                        &&& created(w.code, after.code, else_block, sig.params.len())
                        &&& else_block != destination
                    },
                }
            }
            &&& operand(w, s, 0) != 0 ==> goes_on(
                m,
                w,
                after,
                s,
                operands_below(w, s, 1) + params,
            )
        }),
{
    reveal(World::if_entered);
    let from = w.code.steps.len();
    let at = Flow::On(s);
    let after = translated(Operator::If { blockty }, w);
    let sig = block_signature(w.env, blockty);
    let n = sig.params.len() as int;
    let val = w.st.peek(0);
    let rest = below(w.st.stack, 1);
    let args = top(rest, n);
    let none: Seq<Value> = Seq::empty();
    lemma_run_nothing(m, w.code.steps, from, at);
    lemma_top(w, s, 1, n);
    assert(w.code.has(val));
    let next = w.code.next_block();
    lemma_block_created(m, w.code, from, at, s);
    let c1 = w.code.block_created();
    let s1 = s.block_created();
    let destination = c1.next_block();
    let s2 = lemma_block_with_params(m, c1, result_types(w.env, blockty), from, at, s1);
    let c2 = c1.block_with_params(result_types(w.env, blockty));
    assert(c2.blocks[next.0 as int] == c1.blocks[next.0 as int]);
    let plain = sig.params == sig.results;
    let (c3, s3, target) = if plain {
        (c2, s2, destination)
    } else {
        let s3 = lemma_block_with_params(m, c2, param_types(w.env, blockty), from, at, s2);
        (c2.block_with_params(param_types(w.env, blockty)), s3, c2.next_block())
    };
    if !plain {
        assert(c3.blocks[next.0 as int] == c2.blocks[next.0 as int]);
        assert(c3.blocks[destination.0 as int] == c2.blocks[destination.0 as int]);
    }
    lemma_has_all(w.code, c3, args);
    lemma_all_kept(s, s3, w.code, args);
    assert(s3.values[val.0 as int] == s.values[val.0 as int]) by {
        assert(s2.values[val.0 as int] == s.values[val.0 as int]);
    }
    let t = lemma_branched(m, c3, val, next, none, target, args, from, at, s3);
    let (c4, inst) = branched_if(c3, val, next, none, target, args);
    let c5 = if plain {
        c4
    } else {
        c4.emitted(Op::SealBlock { block: target })
    };
    let c6 = c5.emitted(Op::SealBlock { block: next });
    let seal_target = Op::SealBlock { block: target };
    let seal_next = Op::SealBlock { block: next };
    let frame = after.st.control.last();
    assert(after.code == c6.emitted(Op::SwitchToBlock { block: next }));
    assert(created(w.code, after.code, destination, sig.results.len())) by {
        assert(created(c1, c2, destination, sig.results.len()));
        assert(after.code.blocks[destination.0 as int] == c2.blocks[destination.0 as int]);
        assert forall|i: int| 0 <= i < sig.results.len() implies w.code.values.len() <= (
        #[trigger] after.code.blocks[destination.0 as int][i]).0 < after.code.values.len() by {
            assert(c1.values.len() <= c2.blocks[destination.0 as int][i].0 < c2.values.len());
        }
    }
    if !plain {
        assert(created(w.code, after.code, target, sig.params.len())) by {
            assert(created(c2, c3, target, sig.params.len()));
            assert forall|i: int| 0 <= i < sig.params.len() implies w.code.values.len() <= (
            #[trigger] after.code.blocks[target.0 as int][i]).0 < after.code.values.len() by {
                assert(c2.values.len() <= c3.blocks[target.0 as int][i].0 < c3.values.len());
            }
        }
    } else {
        lemma_branch_position(c3, val, next, none, target, args);
    }
    if operand(w, s, 0) == 0 {
        let bits = s3.all(args);
        if !plain {
            lemma_left(m, c4, seal_target, from, at, target, bits, t);
        }
        lemma_left(m, c5, seal_next, from, at, target, bits, t);
        lemma_left(m, c6, Op::SwitchToBlock { block: next }, from, at, target, bits, t);
    } else {
        let bits = s3.all(none);
        if !plain {
            lemma_left(m, c4, seal_target, from, at, next, bits, t);
        }
        lemma_left(m, c5, seal_next, from, at, next, bits, t);
        lemma_arrived(m, c6, from, at, next, bits, t);
        let k = w.st.stack.len() - 1;
        lemma_all_kept(s, t, w.code, w.st.stack);
        let expected = operands_below(w, s, 1) + operands(w, s).subrange(k - n, k);
        assert(operands(after, t) =~= expected) by {
            assert forall|i: int| 0 <= i < k + n implies t.bits(after.st.stack[i])
                == #[trigger] expected[i] by {
                let j = if i < k {
                    i
                } else {
                    i - n
                };
                assert(after.st.stack[i] == w.st.stack[j]);
                assert(t.all(w.st.stack)[j] == s.all(w.st.stack)[j]);
            }
        }
        assert forall|i: int| 0 <= i < after.st.stack.len() implies after.code.has(
            #[trigger] after.st.stack[i],
        ) by {
            let j = if i < k {
                i
            } else {
                i - n
            };
            assert(after.st.stack[i] == w.st.stack[j]);
            assert(w.code.has(w.st.stack[j]));
        }
    }
}

/// Where a conditional branch is found among the steps.
proof fn lemma_branch_position(
    code: Code,
    condition: Value,
    then_block: Block,
    then_params: Seq<Value>,
    else_block: Block,
    else_params: Seq<Value>,
)
    requires
        code.steps.len() + then_params.len() + else_params.len() <= usize::MAX,
    ensures
        ({
            let (after, inst) = branched_if(
                code,
                condition,
                then_block,
                then_params,
                else_block,
                else_params,
            );
            &&& inst.0 == after.steps.len() - 1
            &&& after.steps[inst.0 as int] matches StepModel::Brif { else_block: b, .. } && b
                == else_block
        }),
{
    lemma_canonical_length(code, then_params);
    let c1 = canonical_values(code, then_params).0;
    lemma_canonical_length(c1, else_params);
}

/// Values that are brought to the type of plain vectors take a step each at most.
proof fn lemma_canonical_length(code: Code, values: Seq<Value>)
    ensures
        canonical_values(code, values).0.steps.len() <= code.steps.len() + values.len(),
    decreases values.len(),
{
    if values.len() > 0 {
        lemma_canonical_length(code, values.drop_last());
    }
}

/// Whether the innermost construct can be ended: behind it there is a block with a parameter for
/// each result, and none of these parameters is on the stack below the results.
pub open spec fn endable(w: World) -> bool {
    let frame = w.st.control.last();
    let params = w.code.blocks[frame.following().0 as int];
    &&& w.st.control.len() > 0
    &&& frame.following().0 < w.code.blocks.len()
    &&& 0 <= floor_of(frame) <= w.st.stack.len()
    &&& params.len() == results_of(frame)
    &&& params.no_duplicates()
    &&& w.code.has_all(params)
    &&& forall|i: int| 0 <= i < floor_of(frame) ==> !params.contains(#[trigger] w.st.stack[i])
}

/// The number of results of a construct.
pub open spec fn results_of(frame: ControlStackFrame) -> int {
    match frame {
        ControlStackFrame::If { num_return_values, .. } => num_return_values as int,
        ControlStackFrame::Block { num_return_values, .. } => num_return_values as int,
        ControlStackFrame::Loop { num_return_values, .. } => num_return_values as int,
    }
}

/// The block behind a construct.
pub open spec fn behind(frame: ControlStackFrame) -> Block {
    match frame {
        ControlStackFrame::If { destination, .. } => destination,
        ControlStackFrame::Block { destination, .. } => destination,
        ControlStackFrame::Loop { destination, .. } => destination,
    }
}

/// The height of the stack that a construct leaves below its results. The parameters of an `if`
/// are on the stack twice.
pub open spec fn floor_of(frame: ControlStackFrame) -> int {
    match frame {
        ControlStackFrame::If { original_stack_size, num_param_values, .. } => original_stack_size
            - num_param_values,
        ControlStackFrame::Block { original_stack_size, .. } => original_stack_size as int,
        ControlStackFrame::Loop { original_stack_size, .. } => original_stack_size as int,
    }
}

/// At the end of a construct control goes on behind it, with the results in place of everything that
/// the construct left on the stack.
#[verifier::spinoff_prover]
#[verifier::rlimit(60)]
pub proof fn constructs_end(m: Machine, w: World, s: Moment)
    requires
        ready(w, s, w.st.stack.len()),
        endable(w),
        results_of(w.st.control.last()) <= w.st.stack.len(),
    ensures
        ({
            let after = translated(Operator::End, w);
            let frame = w.st.control.last();
            let n = results_of(frame);
            let k = w.st.stack.len() as int;
            &&& flow(m, w, after, s) matches Flow::On(t) && {
                &&& operands(after, t) == operands(w, s).take(floor_of(frame)) + operands(
                    w,
                    s,
                ).subrange(k - n, k)
                &&& runs(t, after.code)
                &&& t.vars == s.vars
                &&& t.memory == s.memory
            }
            &&& after.st.control == w.st.control.drop_last()
            &&& after.st.reachable
        }),
{
    reveal(World::ended);
    let from = w.code.steps.len();
    let at = Flow::On(s);
    let after = translated(Operator::End, w);
    let frame = w.st.control.last();
    assert(frame == w.st.frame(0));
    let n = results_of(frame);
    let next = behind(frame);
    let args = top(w.st.stack, n);
    assert(below(w.st.stack, 0) =~= w.st.stack);
    lemma_run_nothing(m, w.code.steps, from, at);
    lemma_top(w, s, 0, n);
    let s1 = lemma_jumped(m, w.code, next, args, from, at, s);
    let c1 = jumped(w.code, next, args);
    lemma_has_all(w.code, c1, c1.blocks[next.0 as int]);
    let t = lemma_entered(m, c1, from, at, next, s.all(args), s1);
    let c2 = c1.emitted(Op::SwitchToBlock { block: next });
    lemma_sealed(m, w, frame, c2, from, at, t);
    lemma_stack_behind(w, after, frame, s1, t, s.all(args));
    assert(s1.all(w.st.stack.take(floor_of(frame))) =~= operands(w, s).take(floor_of(frame))) by {
        lemma_all_kept(s, s1, w.code, w.st.stack);
        assert forall|i: int| 0 <= i < floor_of(frame) implies s1.bits(w.st.stack[i])
            == #[trigger] operands(w, s).take(floor_of(frame))[i] by {
            assert(s1.all(w.st.stack)[i] == s.all(w.st.stack)[i]);
        }
    }
}

/// The blocks of a construct are sealed at its end.
proof fn lemma_sealed(
    m: Machine,
    w: World,
    frame: ControlStackFrame,
    code: Code,
    from: nat,
    at: Flow,
    t: Moment,
)
    requires
        from <= code.steps.len(),
        run(m, code.steps, from, at) == Flow::On(t),
    ensures
        ({
            let c1 = code.emitted(Op::SealBlock { block: frame.following() });
            let c2 = match frame {
                ControlStackFrame::Loop { header, .. } => c1.emitted(
                    Op::SealBlock { block: header },
                ),
                _ => c1,
            };
            run(m, c2.steps, from, at) == Flow::On(t)
        }),
{
    reveal(performed);
    let seal = Op::SealBlock { block: frame.following() };
    lemma_run_step(m, code.steps, StepModel::Op(seal), from, at);
    if let ControlStackFrame::Loop { header, .. } = frame {
        lemma_run_step(
            m,
            code.emitted(seal).steps,
            StepModel::Op(Op::SealBlock { block: header }),
            from,
            at,
        );
    }
}

/// The stack behind a construct.
proof fn lemma_stack_behind(
    w: World,
    after: World,
    frame: ControlStackFrame,
    s: Moment,
    t: Moment,
    args: Seq<int>,
)
    requires
        endable(w),
        frame == w.st.control.last(),
        w.code.has_all(w.st.stack),
        after.st.stack == cut(w.st.stack, frame.floor()) + w.code.blocks[frame.following().0 as int],
        t.all(w.code.blocks[frame.following().0 as int]) == args,
        forall|v: Value|
            !w.code.blocks[frame.following().0 as int].contains(v) && w.code.has(v)
                ==> #[trigger] t.bits(v) == s.bits(v),
    ensures
        operands(after, t) == s.all(w.st.stack.take(floor_of(frame))) + args,
{
    let f = floor_of(frame);
    let params = w.code.blocks[frame.following().0 as int];
    assert(cut(w.st.stack, frame.floor()) =~= w.st.stack.take(f));
    assert(operands(after, t) =~= s.all(w.st.stack.take(f)) + args) by {
        assert forall|i: int| 0 <= i < f + args.len() implies t.bits(after.st.stack[i]) == (
        #[trigger] (s.all(w.st.stack.take(f)) + args)[i]) by {
            if i < f {
                assert(after.st.stack[i] == w.st.stack[i]);
                assert(w.code.has(w.st.stack[i]));
                assert(!params.contains(w.st.stack[i]));
            } else {
                assert(after.st.stack[i] == params[i - f]);
                assert(t.all(params)[i - f] == args[i - f]);
            }
        }
    }
}

/// A branch that left for the block behind a construct arrives there at the end of the construct,
/// with what it carried in place of everything that the construct left on the stack, whether or not
/// the end is reachable otherwise.
#[verifier::spinoff_prover]
#[verifier::rlimit(60)]
pub proof fn branches_arrive_behind(m: Machine, w: World, s: Moment, args: Seq<int>)
    requires
        runs(s, w.code),
        w.code.has_all(w.st.stack),
        w.code.values.len() + w.st.stack.len() <= usize::MAX,
        endable(w),
        w.st.reachable ==> results_of(w.st.control.last()) <= w.st.stack.len(),
        !w.st.reachable ==> World::reachable_behind(w.st.control.last()),
        args.len() == results_of(w.st.control.last()),
    ensures
        ({
            let after = translated(Operator::End, w);
            let frame = w.st.control.last();
            let left = Flow::Left { block: behind(frame), args, moment: s };
            &&& run(m, after.code.steps, w.code.steps.len(), left) matches Flow::On(t) && {
                &&& operands(after, t) == operands(w, s).take(floor_of(frame)) + args
                &&& runs(t, after.code)
                &&& t.vars == s.vars
                &&& t.memory == s.memory
            }
            &&& after.st.control == w.st.control.drop_last()
            &&& after.st.reachable
        }),
{
    reveal(World::ended);
    reveal(World::ended_unreachable);
    let from = w.code.steps.len();
    let after = translated(Operator::End, w);
    let frame = w.st.control.last();
    assert(frame == w.st.frame(0));
    let n = results_of(frame);
    let next = behind(frame);
    let at = Flow::Left { block: next, args, moment: s };
    lemma_run_nothing(m, w.code.steps, from, at);
    assert(s.all(w.st.stack.take(floor_of(frame))) =~= operands(w, s).take(floor_of(frame)));
    if w.st.reachable {
        let results = top(w.st.stack, n);
        assert forall|i: int| 0 <= i < n implies w.code.has(#[trigger] results[i]) by {
            assert(w.code.has(w.st.stack[w.st.stack.len() - n + i]));
        }
        let s1 = lemma_canonical_values_passed(m, w.code, results, from, at, next, args, s);
        let (c0, vs) = canonical_values(w.code, results);
        lemma_run_step(
            m,
            c0.steps,
            StepModel::Jump { destination: next, args: vs },
            from,
            at,
        );
        let c1 = jumped(w.code, next, results);
        lemma_has_all(w.code, c1, c1.blocks[next.0 as int]);
        let t = lemma_entered(m, c1, from, at, next, args, s1);
        lemma_sealed(
            m,
            w,
            frame,
            c1.emitted(Op::SwitchToBlock { block: next }),
            from,
            at,
            t,
        );
        lemma_stack_behind(w, after, frame, s1, t, args);
        assert(s1.all(w.st.stack.take(floor_of(frame))) =~= s.all(
            w.st.stack.take(floor_of(frame)),
        )) by {
            assert forall|i: int| 0 <= i < floor_of(frame) implies s1.bits(w.st.stack[i])
                == #[trigger] s.bits(w.st.stack[i]) by {
                assert(w.code.has(w.st.stack[i]));
                assert(s1.values[w.st.stack[i].0 as int] == s.values[w.st.stack[i].0 as int]);
            }
        }
    } else {
        let c1 = match frame {
            ControlStackFrame::Loop { header, .. } => w.code.emitted(
                Op::SealBlock { block: header },
            ),
            _ => w.code,
        };
        if let ControlStackFrame::Loop { header, .. } = frame {
            lemma_left(m, w.code, Op::SealBlock { block: header }, from, at, next, args, s);
        }
        let t = lemma_entered(m, c1, from, at, next, args, s);
        reveal(performed);
        lemma_run_step(
            m,
            c1.emitted(Op::SwitchToBlock { block: next }).steps,
            StepModel::Op(Op::SealBlock { block: next }),
            from,
            at,
        );
        lemma_stack_behind(w, after, frame, s, t, args);
    }
}

/// Control that is on its way to a block passes the creation of another one, or of its own.
pub proof fn lemma_block_with_params_passed(
    m: Machine,
    code: Code,
    tys: Seq<Type>,
    from: nat,
    at: Flow,
    block: Block,
    args: Seq<int>,
    s: Moment,
) -> (t: Moment)
    requires
        from <= code.steps.len(),
        run(m, code.steps, from, at) == (Flow::Left { block, args, moment: s }),
        runs(s, code),
        code.blocks.len() < usize::MAX,
        code.values.len() + tys.len() <= usize::MAX,
    ensures
        ({
            let after = code.block_with_params(tys);
            &&& run(m, after.steps, from, at) == (Flow::Left { block, args, moment: t })
            &&& runs(t, after)
            &&& went_on(t, s)
            &&& created(code, after, code.next_block(), tys.len())
            &&& after.values.len() == code.values.len() + tys.len()
            &&& after.blocks.len() == code.blocks.len() + 1
            &&& code.steps.len() <= after.steps.len()
        }),
{
    let create = Op::CreateBlock { block: code.next_block() };
    lemma_run_step(m, code.steps, StepModel::Op(create), from, at);
    let c1 = code.block_created();
    lemma_params_passed(m, c1, code.next_block(), tys, from, at, block, args, s.block_created())
}

/// Control that is on its way to a block passes new parameters of a block.
proof fn lemma_params_passed(
    m: Machine,
    code: Code,
    own: Block,
    tys: Seq<Type>,
    from: nat,
    at: Flow,
    block: Block,
    args: Seq<int>,
    s: Moment,
) -> (t: Moment)
    requires
        from <= code.steps.len(),
        run(m, code.steps, from, at) == (Flow::Left { block, args, moment: s }),
        runs(s, code),
        own.0 < code.blocks.len(),
        code.blocks[own.0 as int].len() == 0,
        code.values.len() + tys.len() <= usize::MAX,
    ensures
        ({
            let after = code.block_params_added(own, tys);
            &&& run(m, after.steps, from, at) == (Flow::Left { block, args, moment: t })
            &&& runs(t, after)
            &&& went_on(t, s)
            &&& after.values.len() == code.values.len() + tys.len()
            &&& after.blocks.len() == code.blocks.len()
            &&& code.steps.len() <= after.steps.len()
            &&& after.blocks[own.0 as int].len() == tys.len()
            &&& forall|i: int|
                0 <= i < tys.len() ==> (#[trigger] after.blocks[own.0 as int][i]).0
                    == code.values.len() + i
        }),
    decreases tys.len(),
{
    if tys.len() == 0 {
        s
    } else {
        let rest = tys.drop_last();
        let s1 = lemma_params_passed(m, code, own, rest, from, at, block, args, s);
        let c1 = code.block_params_added(own, rest);
        let op = Op::AppendBlockParam { block: own, ty: tys.last() };
        lemma_run_step(m, c1.steps, StepModel::Op(op), from, at);
        let after = code.block_params_added(own, tys);
        assert forall|i: int| 0 <= i < tys.len() implies (
        #[trigger] after.blocks[own.0 as int][i]).0 == code.values.len() + i by {
            if i < rest.len() {
                assert(after.blocks[own.0 as int][i] == c1.blocks[own.0 as int][i]);
            }
        }
        s1.param_appended(own, tys.last())
    }
}

/// Steps with the destinations of branches changed where a later step says so.
pub open spec fn patched(steps: Seq<StepModel>) -> Seq<StepModel>
    decreases steps.len(),
{
    if steps.len() == 0 {
        steps
    } else {
        let before = patched(steps.drop_last()).push(steps.last());
        match steps.last() {
            StepModel::Op(Op::ChangeJumpDestination { inst, from, to }) => if inst.0
                < before.len() {
                before.update(inst.0 as int, redirected(before[inst.0 as int], from, to))
            } else {
                before
            },
            _ => before,
        }
    }
}

/// A branch that leads to another block in place of one.
pub open spec fn redirected(step: StepModel, from: Block, to: Block) -> StepModel {
    match step {
        StepModel::Jump { destination, args } => StepModel::Jump {
            destination: if destination == from {
                to
            } else {
                destination
            },
            args,
        },
        StepModel::Brif { condition, then_block, then_args, else_block, else_args } => {
            StepModel::Brif {
                condition,
                then_block: if then_block == from {
                    to
                } else {
                    then_block
                },
                then_args,
                else_block: if else_block == from {
                    to
                } else {
                    else_block
                },
                else_args,
            }
        },
        other => other,
    }
}

/// Steps that change no branch leave the branches before them alone.
proof fn lemma_patched_step(steps: Seq<StepModel>, step: StepModel)
    requires
        !(step matches StepModel::Op(Op::ChangeJumpDestination { .. })),
    ensures
        patched(steps.push(step)) == patched(steps).push(step),
{
    assert(steps.push(step).drop_last() =~= steps);
}

/// There are as many steps as before.
proof fn lemma_patched_len(steps: Seq<StepModel>)
    ensures
        patched(steps).len() == steps.len(),
    decreases steps.len(),
{
    if steps.len() > 0 {
        lemma_patched_len(steps.drop_last());
    }
}

/// A new block leaves the branches before it alone.
proof fn lemma_patched_block(code: Code, tys: Seq<Type>, i: int)
    requires
        0 <= i < code.steps.len(),
    ensures
        patched(code.block_with_params(tys).steps)[i] == patched(code.steps)[i],
        code.steps.len() <= code.block_with_params(tys).steps.len(),
{
    lemma_patched_len(code.steps);
    lemma_patched_step(
        code.steps,
        StepModel::Op(Op::CreateBlock { block: code.next_block() }),
    );
    lemma_patched_params(code.block_created(), code.next_block(), tys, i);
}

/// New parameters leave the branches before them alone.
proof fn lemma_patched_params(code: Code, block: Block, tys: Seq<Type>, i: int)
    requires
        0 <= i < code.steps.len(),
    ensures
        patched(code.block_params_added(block, tys).steps)[i] == patched(code.steps)[i],
        code.steps.len() <= code.block_params_added(block, tys).steps.len(),
    decreases tys.len(),
{
    if tys.len() > 0 {
        lemma_patched_params(code, block, tys.drop_last(), i);
        let c1 = code.block_params_added(block, tys.drop_last());
        lemma_patched_len(c1.steps);
        lemma_patched_step(
            c1.steps,
            StepModel::Op(Op::AppendBlockParam { block, ty: tys.last() }),
        );
    }
}

/// A jump leaves the branches before it alone.
proof fn lemma_patched_jump(code: Code, destination: Block, params: Seq<Value>, i: int)
    requires
        0 <= i < code.steps.len(),
    ensures
        patched(jumped(code, destination, params).steps)[i] == patched(code.steps)[i],
        code.steps.len() <= jumped(code, destination, params).steps.len(),
{
    lemma_patched_values(code, params, i);
    let (c1, args) = canonical_values(code, params);
    lemma_patched_len(c1.steps);
    lemma_patched_step(c1.steps, StepModel::Jump { destination, args });
}

/// Values that are brought to the type of plain vectors leave the branches before them alone.
proof fn lemma_patched_values(code: Code, values: Seq<Value>, i: int)
    requires
        0 <= i < code.steps.len(),
    ensures
        patched(canonical_values(code, values).0.steps)[i] == patched(code.steps)[i],
        code.steps.len() <= canonical_values(code, values).0.steps.len(),
    decreases values.len(),
{
    if values.len() > 0 {
        lemma_patched_values(code, values.drop_last(), i);
        let c1 = canonical_values(code, values.drop_last()).0;
        lemma_patched_len(c1.steps);
        lemma_patched_step(
            c1.steps,
            StepModel::Op(
                Op::Bitcast {
                    ty: Type::I8X16,
                    flags: crate::cranelift::recipes::little_flags(),
                    arg: values.last(),
                },
            ),
        );
    }
}

/// Whether the alternative of the innermost `if`, whose head is reachable, can begin.
pub open spec fn alternative_ready(w: World) -> bool {
    &&& w.st.control.len() > 0
    &&& w.st.control.last() matches ControlStackFrame::If {
        destination,
        else_data,
        num_return_values,
        original_stack_size,
        head_is_reachable,
        blocktype,
        ..
    } && {
        &&& head_is_reachable
        &&& destination.0 < w.code.blocks.len() < usize::MAX
        &&& if w.st.reachable {
            w.st.stack.len() == original_stack_size + num_return_values
        } else {
            original_stack_size <= w.st.stack.len()
        }
        &&& match else_data {
            ElseData::NoElse { branch_inst, placeholder } => branch_inst.0 < w.code.steps.len(),
            ElseData::WithElse { else_block } => {
                let params = w.code.blocks[else_block.0 as int];
                &&& else_block.0 < w.code.blocks.len()
                &&& else_block != destination
                &&& params.len() == param_types(w.env, blocktype).len()
                &&& params.no_duplicates()
                &&& w.code.has_all(params)
                &&& forall|i: int|
                    0 <= i < original_stack_size ==> !params.contains(#[trigger] w.st.stack[i])
            },
        }
    }
}

/// The block in which the alternative of the innermost `if` begins.
pub open spec fn entry(w: World) -> Block {
    match w.st.control.last()->else_data {
        ElseData::NoElse { .. } => Block(w.code.blocks.len() as usize),
        ElseData::WithElse { else_block } => else_block,
    }
}

/// At an `else` the consequent leaves for the block behind the construct, with its results.
#[verifier::spinoff_prover]
#[verifier::rlimit(60)]
pub proof fn consequents_leave(m: Machine, w: World, s: Moment)
    requires
        ready(
            w,
            s,
            w.st.stack.len() + param_types(w.env, w.st.control.last()->blocktype).len(),
        ),
        alternative_ready(w),
    ensures
        ({
            let after = translated(Operator::Else, w);
            let frame = w.st.control.last();
            let k = w.st.stack.len() as int;
            leaves_for(
                m,
                w,
                after,
                s,
                behind(frame),
                operands(w, s).subrange(k - results_of(frame), k),
            )
        }),
{
    reveal(World::else_reached);
    let from = w.code.steps.len();
    let at = Flow::On(s);
    let after = translated(Operator::Else, w);
    let frame = w.st.control.last();
    assert(frame == w.st.frame(0));
    let n = results_of(frame);
    let next = behind(frame);
    assert(below(w.st.stack, 0) =~= w.st.stack);
    lemma_top(w, s, 0, n);
    let results = top(w.st.stack, n);
    lemma_run_nothing(m, w.code.steps, from, at);
    match frame->else_data {
        ElseData::NoElse { branch_inst, placeholder } => {
            let tys = param_types(w.env, frame->blocktype);
            let own = w.code.next_block();
            let s1 = lemma_block_with_params(m, w.code, tys, from, at, s);
            let c1 = w.code.block_with_params(tys);
            lemma_has_all(w.code, c1, results);
            lemma_all_kept(s, s1, w.code, results);
            let t = lemma_jumped(m, c1, next, results, from, at, s1);
            let c2 = jumped(c1, next, results);
            let change = Op::ChangeJumpDestination {
                inst: branch_inst,
                from: placeholder,
                to: own,
            };
            let bits = s1.all(results);
            lemma_left(m, c2, change, from, at, next, bits, t);
            let c3 = c2.emitted(change);
            lemma_left(m, c3, Op::SealBlock { block: own }, from, at, next, bits, t);
            let c4 = c3.emitted(Op::SealBlock { block: own });
            lemma_left(m, c4, Op::SwitchToBlock { block: own }, from, at, next, bits, t);
        },
        ElseData::WithElse { else_block } => {
            let t = lemma_jumped(m, w.code, next, results, from, at, s);
            let c2 = jumped(w.code, next, results);
            let switch = Op::SwitchToBlock { block: else_block };
            lemma_left(m, c2, switch, from, at, next, s.all(results), t);
        },
    }
}

/// The alternative of an `if` begins at its `else`, with the operands from before the consequent. A
/// branch that led behind the construct for want of an `else` leads to it from there on.
#[verifier::spinoff_prover]
#[verifier::rlimit(100)]
pub proof fn alternatives_begin(m: Machine, w: World, s: Moment, args: Seq<int>)
    requires
        runs(s, w.code),
        w.code.has_all(w.st.stack),
        w.code.values.len() + w.st.stack.len() + param_types(
            w.env,
            w.st.control.last()->blocktype,
        ).len() <= usize::MAX,
        alternative_ready(w),
        args.len() == param_types(w.env, w.st.control.last()->blocktype).len(),
    ensures
        ({
            let after = translated(Operator::Else, w);
            let frame = w.st.control.last();
            let left = Flow::Left { block: entry(w), args, moment: s };
            &&& run(m, after.code.steps, w.code.steps.len(), left) matches Flow::On(t) && {
                &&& operands(after, t) == operands(w, s).take(
                    frame->If_original_stack_size as int,
                )
                &&& runs(t, after.code)
                &&& t.vars == s.vars
                &&& t.memory == s.memory
            }
            &&& after.st.reachable
            &&& after.st.control == w.st.control.drop_last().push(after.st.control.last())
            &&& after.st.control.last() == frame.consequent_finished(w.st.reachable)
            &&& frame->else_data matches ElseData::NoElse { branch_inst, placeholder } ==> patched(
                after.code.steps,
            )[branch_inst.0 as int] == redirected(
                patched(w.code.steps)[branch_inst.0 as int],
                placeholder,
                entry(w),
            )
        }),
{
    reveal(World::else_reached);
    reveal(World::else_after_unreachable);
    let from = w.code.steps.len();
    let after = translated(Operator::Else, w);
    let frame = w.st.control.last();
    assert(frame == w.st.frame(0));
    let n = results_of(frame);
    let own = entry(w);
    let at = Flow::Left { block: own, args, moment: s };
    let results = top(w.st.stack, n);
    let tys = param_types(w.env, frame->blocktype);
    let height = frame->If_original_stack_size as int;
    lemma_run_nothing(m, w.code.steps, from, at);
    if w.st.reachable {
        assert forall|i: int| 0 <= i < n implies w.code.has(#[trigger] results[i]) by {
            assert(w.code.has(w.st.stack[w.st.stack.len() - n + i]));
        }
    }
    assert(after.st.stack =~= w.st.stack.take(height));
    assert(after.st.control =~= w.st.control.drop_last().push(after.st.control.last()));
    let (c1, s1) = if frame->else_data is NoElse {
        let t = lemma_block_with_params_passed(m, w.code, tys, from, at, own, args, s);
        lemma_patched_block(
            w.code,
            tys,
            frame->else_data->branch_inst.0 as int,
        );
        (w.code.block_with_params(tys), t)
    } else {
        (w.code, s)
    };
    let params = c1.blocks[own.0 as int];
    let (c2, s2) = if w.st.reachable {
        lemma_has_all(w.code, c1, results);
        let t = lemma_canonical_values_passed(m, c1, results, from, at, own, args, s1);
        let (c, vs) = canonical_values(c1, results);
        let jump = StepModel::Jump { destination: behind(frame), args: vs };
        lemma_run_step(m, c.steps, jump, from, at);
        if frame->else_data is NoElse {
            lemma_patched_jump(
                c1,
                behind(frame),
                results,
                frame->else_data->branch_inst.0 as int,
            );
        }
        (jumped(c1, behind(frame), results), t)
    } else {
        (c1, s1)
    };
    let c3 = match frame->else_data {
        ElseData::NoElse { branch_inst, placeholder } => {
            let change = Op::ChangeJumpDestination {
                inst: branch_inst,
                from: placeholder,
                to: own,
            };
            let seal = Op::SealBlock { block: own };
            lemma_left(m, c2, change, from, at, own, args, s2);
            lemma_left(m, c2.emitted(change), seal, from, at, own, args, s2);
            let i = branch_inst.0 as int;
            lemma_patched_len(c2.steps);
            let changed = c2.emitted(change);
            assert(changed.steps.drop_last() =~= c2.steps);
            assert(patched(changed.steps)[i] == redirected(
                patched(c2.steps)[i],
                placeholder,
                own,
            ));
            lemma_patched_len(changed.steps);
            lemma_patched_step(changed.steps, StepModel::Op(seal));
            let sealed = changed.emitted(seal);
            lemma_patched_len(sealed.steps);
            lemma_patched_step(
                sealed.steps,
                StepModel::Op(Op::SwitchToBlock { block: own }),
            );
            sealed
        },
        ElseData::WithElse { else_block } => c2,
    };
    assert(c3.blocks == c1.blocks);
    assert forall|i: int| 0 <= i < params.len() implies c3.has(#[trigger] params[i]) by {}
    assert(params.no_duplicates());
    let t = lemma_entered(m, c3, from, at, own, args, s2);
    assert(after.code == c3.emitted(Op::SwitchToBlock { block: own }));
    assert(operands(after, t) =~= operands(w, s).take(height)) by {
        assert forall|i: int| 0 <= i < height implies t.bits(after.st.stack[i])
            == #[trigger] operands(w, s).take(height)[i] by {
            let v = w.st.stack[i];
            assert(after.st.stack[i] == v);
            assert(w.code.has(v));
            if params.contains(v) {
                let j = params.index_of(v);
                assert(params[j] == v);
            }
            assert(s1.values[v.0 as int] == s.values[v.0 as int]);
            assert(s2.values[v.0 as int] == s1.values[v.0 as int]);
            assert(t.bits(v) == s2.bits(v));
        }
    }
}

} // verus!
