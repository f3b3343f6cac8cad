//! Where branches lead.
use crate::builder::Code;
use crate::cranelift::branch_table::{
    all_branched, block_of, blocks_assigned, edges_emitted, min_depth_of,
};
use crate::cranelift::code_translator::translated;
use crate::cranelift::control::{branched_if, canonical_values, jumped};
use crate::cranelift::meaning::{
    lemma_run_nothing, lemma_run_step, performed, run, runs, went_on, Flow, Machine, Moment,
};
use crate::cranelift::operator::Operator;
use crate::cranelift::simulation::{
    goes_on, leaves_for, lemma_all_kept, lemma_arrived, lemma_canonical_values,
    lemma_canonical_values_passed, lemma_left, lemma_null_tested, operand, operands,
    operands_below, ready,
};
use crate::cranelift::state::{top, ControlStackFrame, StateModel};
use crate::cranelift::world::World;
use crate::ir::{Block, Op, StepModel, Value};
use vstd::prelude::*;

verus! {

/// The construct at a depth; the innermost has depth 0.
pub open spec fn construct(w: World, depth: u32) -> ControlStackFrame {
    w.st.control[w.st.control.len() - 1 - depth]
}

/// The block that a branch to a construct leads to: a loop begins anew, others are left.
pub open spec fn landing(frame: ControlStackFrame) -> Block {
    match frame {
        ControlStackFrame::Loop { header, .. } => header,
        ControlStackFrame::Block { destination, .. } => destination,
        ControlStackFrame::If { destination, .. } => destination,
    }
}

/// The number of values that a branch to a construct carries: the parameters of a loop, the
/// results of others.
pub open spec fn carried(frame: ControlStackFrame) -> int {
    match frame {
        ControlStackFrame::Loop { num_param_values, .. } => num_param_values as int,
        ControlStackFrame::Block { num_return_values, .. } => num_return_values as int,
        ControlStackFrame::If { num_return_values, .. } => num_return_values as int,
    }
}

/// The patterns that a branch to a construct carries, from below `above` others.
pub open spec fn carried_operands(w: World, s: Moment, depth: u32, above: int) -> Seq<int> {
    let n = w.st.stack.len() - above;
    operands(w, s).subrange(n - carried(construct(w, depth)), n)
}

/// Whether a branch to a depth can be followed: there is a construct, where a branch leads exists,
/// and the values are on the stack below `above` others.
pub open spec fn followable(w: World, depth: u32, above: int) -> bool {
    &&& depth < w.st.control.len()
    &&& landing(construct(w, depth)).0 < w.code.blocks.len() < usize::MAX
    &&& above + carried(construct(w, depth)) <= w.st.stack.len()
}

/// Whether the constructs are the same, but that branches lead out of the one at a depth.
pub open spec fn marked(w: World, after: World, depth: u32) -> bool {
    let i = w.st.control.len() - 1 - depth;
    &&& after.st.control.len() == w.st.control.len()
    &&& forall|j: int|
        0 <= j < w.st.control.len() && j != i ==> after.st.control[j] == #[trigger] w.st.control[j]
    &&& landing(after.st.control[i]) == landing(w.st.control[i])
    &&& carried(after.st.control[i]) == carried(w.st.control[i])
    &&& match after.st.control[i] {
        ControlStackFrame::Loop { .. } => true,
        ControlStackFrame::Block { exit_is_branched_to, .. } => exit_is_branched_to,
        ControlStackFrame::If { exit_is_branched_to, .. } => exit_is_branched_to,
    }
}

/// The values on top of the stack and what they are.
pub proof fn lemma_top(w: World, s: Moment, above: int, n: int)
    requires
        ready(w, s, 0),
        0 <= above,
        0 <= n,
        above + n <= w.st.stack.len(),
    ensures
        ({
            let rest = crate::cranelift::state::below(w.st.stack, above);
            let k = w.st.stack.len() - above;
            &&& s.all(top(rest, n)) == operands(w, s).subrange(k - n, k)
            &&& w.code.has_all(top(rest, n))
            &&& top(rest, n).len() == n
        }),
{
    let rest = crate::cranelift::state::below(w.st.stack, above);
    let k = w.st.stack.len() - above;
    assert(s.all(top(rest, n)) =~= operands(w, s).subrange(k - n, k));
    assert forall|i: int| 0 <= i < n implies w.code.has(#[trigger] top(rest, n)[i]) by {
        assert(w.code.has(w.st.stack[k - n + i]));
    }
}

/// A jump leaves with its arguments.
pub proof fn lemma_jumped(
    m: Machine,
    code: Code,
    destination: Block,
    params: Seq<Value>,
    from: nat,
    at: Flow,
    s: Moment,
) -> (t: Moment)
    requires
        from <= code.steps.len(),
        run(m, code.steps, from, at) == Flow::On(s),
        runs(s, code),
        code.has_all(params),
        code.values.len() + params.len() <= usize::MAX,
    ensures
        run(m, jumped(code, destination, params).steps, from, at) == (Flow::Left {
            block: destination,
            args: s.all(params),
            moment: t,
        }),
        runs(t, jumped(code, destination, params)),
        went_on(t, s),
        jumped(code, destination, params).blocks == code.blocks,
        code.steps.len() <= jumped(code, destination, params).steps.len(),
        code.values.len() <= jumped(code, destination, params).values.len()
            <= code.values.len() + params.len(),
{
    let t = lemma_canonical_values(m, code, params, from, at, s);
    let (c1, args) = canonical_values(code, params);
    lemma_run_step(m, c1.steps, StepModel::Jump { destination, args }, from, at);
    t
}

/// A branch leaves for the construct at its depth, with the values that it carries.
pub proof fn br_leads_to_its_target(depth: u32, m: Machine, w: World, s: Moment)
    requires
        ready(w, s, w.st.stack.len()),
        followable(w, depth, 0),
    ensures
        ({
            let after = translated(Operator::Br { relative_depth: depth }, w);
            &&& leaves_for(
                m,
                w,
                after,
                s,
                landing(construct(w, depth)),
                carried_operands(w, s, depth, 0),
            )
            &&& marked(w, after, depth)
            &&& !after.st.reachable
        }),
{
    reveal(World::br);
    let n = carried(construct(w, depth));
    lemma_top(w, s, 0, n);
    assert(crate::cranelift::state::below(w.st.stack, 0) =~= w.st.stack);
    lemma_run_nothing(m, w.code.steps, w.code.steps.len(), Flow::On(s));
    lemma_jumped(
        m,
        w.code,
        landing(construct(w, depth)),
        top(w.st.stack, n),
        w.code.steps.len(),
        Flow::On(s),
        s,
    );
}

/// A conditional branch by a value, whose arguments are on the stack.
pub proof fn lemma_branched(
    m: Machine,
    code: Code,
    condition: Value,
    then_block: Block,
    then_params: Seq<Value>,
    else_block: Block,
    else_params: Seq<Value>,
    from: nat,
    at: Flow,
    s: Moment,
) -> (t: Moment)
    requires
        from <= code.steps.len(),
        run(m, code.steps, from, at) == Flow::On(s),
        runs(s, code),
        code.has(condition),
        code.has_all(then_params),
        code.has_all(else_params),
        code.values.len() + then_params.len() + else_params.len() <= usize::MAX,
    ensures
        ({
            let after = branched_if(
                code,
                condition,
                then_block,
                then_params,
                else_block,
                else_params,
            ).0;
            &&& run(m, after.steps, from, at) == if s.bits(condition) != 0 {
                Flow::Left { block: then_block, args: s.all(then_params), moment: t }
            } else {
                Flow::Left { block: else_block, args: s.all(else_params), moment: t }
            }
            &&& runs(t, after)
            &&& went_on(t, s)
            &&& after.blocks == code.blocks
            &&& code.steps.len() <= after.steps.len()
            &&& code.values.len() <= after.values.len() <= code.values.len() + then_params.len()
                + else_params.len()
        }),
{
    let s1 = lemma_canonical_values(m, code, then_params, from, at, s);
    let (c1, then_args) = canonical_values(code, then_params);
    assert forall|i: int| 0 <= i < else_params.len() implies c1.has(#[trigger] else_params[i]) by {
        assert(code.has(else_params[i]));
    }
    lemma_all_kept(s, s1, code, else_params);
    let t = lemma_canonical_values(m, c1, else_params, from, at, s1);
    let (c2, else_args) = canonical_values(c1, else_params);
    lemma_all_kept(s1, t, c1, then_args);
    assert(s1.values[condition.0 as int] == s.values[condition.0 as int]);
    assert(t.values[condition.0 as int] == s1.values[condition.0 as int]);
    lemma_run_step(
        m,
        c2.steps,
        StepModel::Brif { condition, then_block, then_args, else_block, else_args },
        from,
        at,
    );
    t
}

/// A block that is created.
pub proof fn lemma_block_created(m: Machine, code: Code, from: nat, at: Flow, s: Moment)
    requires
        from <= code.steps.len(),
        run(m, code.steps, from, at) == Flow::On(s),
        runs(s, code),
    ensures
        run(m, code.block_created().steps, from, at) == Flow::On(s.block_created()),
        runs(s.block_created(), code.block_created()),
        went_on(s.block_created(), s),
{
    reveal(performed);
    lemma_run_step(
        m,
        code.steps,
        StepModel::Op(Op::CreateBlock { block: code.next_block() }),
        from,
        at,
    );
}

/// A conditional branch leads to the construct at its depth, with the values that it carries, where
/// the value on top of the stack is not zero. Where it is zero, control goes on behind the branch,
/// with the rest of the stack.
pub proof fn br_if_leads_to_its_target_if_not_zero(depth: u32, m: Machine, w: World, s: Moment)
    requires
        ready(w, s, w.st.stack.len()),
        followable(w, depth, 1),
    ensures
        ({
            let after = translated(Operator::BrIf { relative_depth: depth }, w);
            &&& operand(w, s, 0) != 0 ==> leaves_for(
                m,
                w,
                after,
                s,
                landing(construct(w, depth)),
                carried_operands(w, s, depth, 1),
            )
            &&& operand(w, s, 0) == 0 ==> goes_on(m, w, after, s, operands_below(w, s, 1))
            &&& marked(w, after, depth)
            &&& after.st.reachable
        }),
{
    reveal(World::br_if);
    let from = w.code.steps.len();
    let at = Flow::On(s);
    let after = translated(Operator::BrIf { relative_depth: depth }, w);
    let frame = construct(w, depth);
    let n = carried(frame);
    let args = top(crate::cranelift::state::below(w.st.stack, 1), n);
    let next = w.code.next_block();
    let c1 = w.code.block_created();
    let s1 = s.block_created();
    let none: Seq<Value> = Seq::empty();
    lemma_top(w, s, 1, n);
    lemma_run_nothing(m, w.code.steps, from, at);
    lemma_block_created(m, w.code, from, at, s);
    lemma_all_kept(s, s1, w.code, args);
    assert(w.code.has(w.st.peek(0)));
    let t = lemma_branched(
        m,
        c1,
        w.st.peek(0),
        landing(frame),
        args,
        next,
        none,
        from,
        at,
        s1,
    );
    let c2 = branched_if(c1, w.st.peek(0), landing(frame), args, next, none).0;
    let c3 = c2.emitted(Op::SealBlock { block: next });
    if operand(w, s, 0) != 0 {
        lemma_left(
            m,
            c2,
            Op::SealBlock { block: next },
            from,
            at,
            landing(frame),
            s1.all(args),
            t,
        );
        lemma_left(
            m,
            c3,
            Op::SwitchToBlock { block: next },
            from,
            at,
            landing(frame),
            s1.all(args),
            t,
        );
    } else {
        lemma_left(m, c2, Op::SealBlock { block: next }, from, at, next, s1.all(none), t);
        lemma_arrived(m, c3, from, at, next, s1.all(none), t);
        lemma_kept(w, after, s, t, 1);
    }
}

/// A branch on null leads to the construct at its depth, with the values below the reference, where
/// the reference on top of the stack is null. Where it is not, control goes on behind the branch,
/// with the reference still on the stack.
pub proof fn br_on_null_leads_to_its_target_if_null(depth: u32, m: Machine, w: World, s: Moment)
    requires
        ready(w, s, w.st.stack.len() + 2),
        followable(w, depth, 1),
        !w.code.ty(w.st.peek(0)).has_lanes(),
    ensures
        ({
            let after = translated(Operator::BrOnNull { relative_depth: depth }, w);
            &&& operand(w, s, 0) == 0 ==> leaves_for(
                m,
                w,
                after,
                s,
                landing(construct(w, depth)),
                carried_operands(w, s, depth, 1),
            )
            &&& operand(w, s, 0) != 0 ==> goes_on(m, w, after, s, operands(w, s))
            &&& marked(w, after, depth)
            &&& after.st.reachable
        }),
{
    reveal(World::br_on_null);
    let from = w.code.steps.len();
    let at = Flow::On(s);
    let after = translated(Operator::BrOnNull { relative_depth: depth }, w);
    let frame = construct(w, depth);
    let n = carried(frame);
    let args = top(crate::cranelift::state::below(w.st.stack, 1), n);
    let none: Seq<Value> = Seq::empty();
    let r = w.st.peek(0);
    lemma_top(w, s, 1, n);
    lemma_run_nothing(m, w.code.steps, from, at);
    assert(w.code.has(r));
    let s1 = lemma_null_tested(m, w.code, r, from, at, s);
    let (c1, is_null) = World::null_tested(w.code, r);
    let next = c1.next_block();
    let c2 = c1.block_created();
    let s2 = s1.block_created();
    lemma_block_created(m, c1, from, at, s1);
    lemma_all_kept(s, s2, w.code, args);
    lemma_has_all(w.code, c2, args);
    let t = lemma_branched(m, c2, is_null, landing(frame), args, next, none, from, at, s2);
    let c3 = branched_if(c2, is_null, landing(frame), args, next, none).0;
    let c4 = c3.emitted(Op::SealBlock { block: next });
    let seal = Op::SealBlock { block: next };
    if operand(w, s, 0) == 0 {
        lemma_left(m, c3, seal, from, at, landing(frame), s2.all(args), t);
        lemma_left(
            m,
            c4,
            Op::SwitchToBlock { block: next },
            from,
            at,
            landing(frame),
            s2.all(args),
            t,
        );
    } else {
        lemma_left(m, c3, seal, from, at, next, s2.all(none), t);
        lemma_arrived(m, c4, from, at, next, s2.all(none), t);
        assert(after.st.stack =~= crate::cranelift::state::below(w.st.stack, 0));
        lemma_kept(w, after, s, t, 0);
        assert(operands_below(w, s, 0) =~= operands(w, s));
    }
}

/// A branch on a reference that is not null leads to the construct at its depth, with values of
/// which the reference is the last, where the reference on top of the stack is not null. Where it
/// is, control goes on behind the branch, with the rest of the stack.
pub proof fn br_on_non_null_leads_to_its_target_if_not_null(
    depth: u32,
    m: Machine,
    w: World,
    s: Moment,
)
    requires
        ready(w, s, w.st.stack.len() + 2),
        followable(w, depth, 0),
        w.st.stack.len() >= 1,
        !w.code.ty(w.st.peek(0)).has_lanes(),
    ensures
        ({
            let after = translated(Operator::BrOnNonNull { relative_depth: depth }, w);
            &&& operand(w, s, 0) != 0 ==> leaves_for(
                m,
                w,
                after,
                s,
                landing(construct(w, depth)),
                carried_operands(w, s, depth, 0),
            )
            &&& operand(w, s, 0) == 0 ==> goes_on(m, w, after, s, operands_below(w, s, 1))
            &&& marked(w, after, depth)
            &&& after.st.reachable
        }),
{
    reveal(World::br_on_non_null);
    let from = w.code.steps.len();
    let at = Flow::On(s);
    let after = translated(Operator::BrOnNonNull { relative_depth: depth }, w);
    let frame = construct(w, depth);
    let n = carried(frame);
    assert(crate::cranelift::state::below(w.st.stack, 0) =~= w.st.stack);
    let args = top(w.st.stack, n);
    let none: Seq<Value> = Seq::empty();
    let r = w.st.peek(0);
    lemma_top(w, s, 0, n);
    lemma_run_nothing(m, w.code.steps, from, at);
    assert(w.code.has(r));
    let s1 = lemma_null_tested(m, w.code, r, from, at, s);
    let (c1, is_null) = World::null_tested(w.code, r);
    let next = c1.next_block();
    let c2 = c1.block_created();
    let s2 = s1.block_created();
    lemma_block_created(m, c1, from, at, s1);
    lemma_all_kept(s, s2, w.code, args);
    lemma_has_all(w.code, c2, args);
    let t = lemma_branched(m, c2, is_null, next, none, landing(frame), args, from, at, s2);
    let c3 = branched_if(c2, is_null, next, none, landing(frame), args).0;
    let c4 = c3.emitted(Op::SealBlock { block: next });
    let seal = Op::SealBlock { block: next };
    if operand(w, s, 0) != 0 {
        lemma_left(m, c3, seal, from, at, landing(frame), s2.all(args), t);
        lemma_left(
            m,
            c4,
            Op::SwitchToBlock { block: next },
            from,
            at,
            landing(frame),
            s2.all(args),
            t,
        );
    } else {
        lemma_left(m, c3, seal, from, at, next, s2.all(none), t);
        lemma_arrived(m, c4, from, at, next, s2.all(none), t);
        lemma_kept(w, after, s, t, 1);
    }
}

/// The construct that a table leads to for an index.
pub open spec fn chosen(targets: Seq<u32>, default: u32, index: int) -> u32 {
    if index < targets.len() {
        targets[index]
    } else {
        default
    }
}

/// Whether branches lead out of a construct; those to a loop do not.
pub open spec fn left_by_branches(frame: ControlStackFrame) -> bool {
    match frame {
        ControlStackFrame::Loop { .. } => true,
        ControlStackFrame::Block { exit_is_branched_to, .. } => exit_is_branched_to,
        ControlStackFrame::If { exit_is_branched_to, .. } => exit_is_branched_to,
    }
}

/// Constructs that branches lead to are marked.
proof fn lemma_all_marked(control: Seq<ControlStackFrame>, depths: Seq<u32>)
    requires
        forall|i: int| 0 <= i < depths.len() ==> #[trigger] depths[i] < control.len(),
    ensures
        all_branched(control, depths).len() == control.len(),
        forall|i: int|
            0 <= i < depths.len() ==> left_by_branches(
                all_branched(control, depths)[control.len() - 1 - #[trigger] depths[i]],
            ),
        forall|i: int|
            0 <= i < control.len() && left_by_branches(#[trigger] control[i]) ==> left_by_branches(
                all_branched(control, depths)[i],
            ),
        forall|i: int|
            0 <= i < control.len() ==> landing(all_branched(control, depths)[i]) == landing(
                #[trigger] control[i],
            ),
    decreases depths.len(),
{
    if depths.len() > 0 {
        let rest = depths.drop_last();
        assert forall|i: int| 0 <= i < rest.len() implies #[trigger] rest[i] < control.len() by {
            assert(depths[i] < control.len());
        }
        lemma_all_marked(control, rest);
        let before = all_branched(control, rest);
        let after = all_branched(control, depths);
        assert(depths[depths.len() - 1] < control.len());
        assert forall|i: int| 0 <= i < depths.len() implies left_by_branches(
            after[control.len() - 1 - #[trigger] depths[i]],
        ) by {
            if i < rest.len() {
                assert(rest[i] == depths[i]);
                assert(left_by_branches(before[control.len() - 1 - rest[i]]));
            }
        }
        assert forall|i: int|
            0 <= i < control.len() && left_by_branches(#[trigger] control[i]) implies
            left_by_branches(after[i]) by {
            assert(left_by_branches(before[i]));
        }
        assert forall|i: int| 0 <= i < control.len() implies landing(after[i]) == landing(
            #[trigger] control[i],
        ) by {
            assert(landing(before[i]) == landing(control[i]));
        }
    }
}

/// The blocks that are created for depths.
proof fn lemma_assigned(m: Machine, code: Code, depths: Seq<u32>, from: nat, at: Flow, s: Moment)
    -> (t: Moment)
    requires
        from <= code.steps.len(),
        run(m, code.steps, from, at) == Flow::On(s),
        runs(s, code),
        code.blocks.len() + depths.len() <= usize::MAX,
    ensures
        ({
            let (after, sequence, data) = blocks_assigned(code, depths);
            let first = code.blocks.len() as int;
            &&& run(m, after.steps, from, at) == Flow::On(t)
            &&& runs(t, after)
            &&& went_on(t, s)
            &&& after.values == code.values
            &&& code.steps.len() <= after.steps.len()
            &&& sequence.len() <= depths.len()
            &&& data.len() == depths.len()
            &&& after.blocks.len() == first + sequence.len()
            &&& forall|k: int|
                0 <= k < sequence.len() ==> (#[trigger] sequence[k]).1.0 == first + k
                    && after.blocks[first + k].len() == 0 && depths.contains(sequence[k].0)
            &&& forall|i: int|
                0 <= i < depths.len() ==> sequence.contains((depths[i], #[trigger] data[i]))
        }),
    decreases depths.len(),
{
    if depths.len() == 0 {
        assert(blocks_assigned(code, depths).0 == code);
        assert(blocks_assigned(code, depths).1.len() == 0);
        assert(blocks_assigned(code, depths).2.len() == 0);
        assert(went_on(s, s));
        s
    } else {
        let rest = depths.drop_last();
        let d = depths.last();
        let s1 = lemma_assigned(m, code, rest, from, at, s);
        let (c1, sequence, data) = blocks_assigned(code, rest);
        let (after, longer, more) = blocks_assigned(code, depths);
        let first = code.blocks.len() as int;
        lemma_block_of(sequence, d);
        let t = match block_of(sequence, d) {
            Some(block) => s1,
            None => {
                lemma_block_created(m, c1, from, at, s1);
                s1.block_created()
            },
        };
        assert(run(m, after.steps, from, at) == Flow::On(t));
        assert(runs(t, after));
        assert(went_on(t, s));
        assert(after.blocks.len() == first + longer.len());
        assert(after.values == code.values);
        assert(code.steps.len() <= after.steps.len());
        assert(longer.len() <= depths.len());
        assert(more.len() == depths.len());
        assert forall|k: int| 0 <= k < longer.len() implies (#[trigger] longer[k]).1.0 == first + k
            && after.blocks[first + k].len() == 0 && depths.contains(longer[k].0) by {
            if k < sequence.len() {
                assert(longer[k] == sequence[k]);
                assert(rest.contains(sequence[k].0));
                let i = rest.index_of(sequence[k].0);
                assert(depths[i] == rest[i]);
            } else {
                assert(depths[depths.len() - 1] == d);
            }
        }
        assert forall|i: int| 0 <= i < depths.len() implies longer.contains(
            (depths[i], #[trigger] more[i]),
        ) by {
            if i < rest.len() {
                assert(more[i] == data[i]);
                assert(sequence.contains((rest[i], data[i])));
                let k = sequence.index_of((rest[i], data[i]));
                assert(longer[k] == sequence[k]);
            } else if block_of(sequence, d) is None {
                assert(longer[sequence.len() as int] == (d, more[i]));
            }
        }
        assert(forall|k: int|
            0 <= k < longer.len() ==> (#[trigger] longer[k]).1.0 == first + k
                && after.blocks[first + k].len() == 0 && depths.contains(longer[k].0));
        assert(forall|i: int|
            0 <= i < depths.len() ==> longer.contains((depths[i], #[trigger] more[i])));
        t
    }
}

/// The block that was created for a depth is listed with it.
proof fn lemma_block_of(sequence: Seq<(u32, Block)>, depth: u32)
    ensures
        block_of(sequence, depth) matches Some(block) ==> sequence.contains((depth, block)),
    decreases sequence.len(),
{
    if sequence.len() > 0 {
        lemma_block_of(sequence.drop_last(), depth);
        if sequence.last().0 == depth {
            assert(sequence[sequence.len() - 1] == sequence.last());
        } else if let Some(block) = block_of(sequence.drop_last(), depth) {
            let k = sequence.drop_last().index_of((depth, block));
            assert(sequence[k] == (depth, block));
        }
    }
}

/// Control that is on its way to a block of a table passes the blocks before, goes through its
/// own, and passes those behind.
#[verifier::rlimit(60)]
proof fn lemma_edges(
    m: Machine,
    code: Code,
    st: StateModel,
    sequence: Seq<(u32, Block)>,
    args: Seq<Value>,
    chosen: int,
    first: int,
    from: nat,
    at: Flow,
    s: Moment,
    block: Block,
) -> (t: Moment)
    requires
        from <= code.steps.len(),
        run(m, code.steps, from, at) == (Flow::Left { block, args: Seq::empty(), moment: s }),
        runs(s, code),
        code.has_all(args),
        code.values.len() + sequence.len() * args.len() <= usize::MAX,
        0 <= chosen,
        block.0 == first + chosen,
        code.blocks[block.0 as int].len() == 0,
        forall|k: int| 0 <= k < sequence.len() ==> (#[trigger] sequence[k]).1.0 == first + k,
        forall|k: int|
            0 <= k < sequence.len() ==> landing(
                st.frame((#[trigger] sequence[k]).0 as int),
            ).0 < first,
    ensures
        ({
            let after = edges_emitted(code, st, sequence, args);
            &&& run(m, after.steps, from, at) == if chosen < sequence.len() {
                Flow::Left {
                    block: landing(st.frame(sequence[chosen].0 as int)),
                    args: s.all(args),
                    moment: t,
                }
            } else {
                Flow::Left { block, args: Seq::empty(), moment: t }
            }
            &&& runs(t, after)
            &&& went_on(t, s)
            &&& after.blocks == code.blocks
            &&& code.steps.len() <= after.steps.len()
            &&& code.values.len() <= after.values.len() <= code.values.len() + sequence.len()
                * args.len()
        }),
    decreases sequence.len(),
{
    reveal(performed);
    if sequence.len() == 0 {
        s
    } else {
        let rest = sequence.drop_last();
        let k = rest.len() as int;
        assert forall|i: int| 0 <= i < rest.len() implies (#[trigger] rest[i]).1.0 == first + i
            && landing(st.frame(rest[i].0 as int)).0 < first by {
            assert(rest[i] == sequence[i]);
        }
        assert(sequence.len() * args.len() == rest.len() * args.len() + args.len())
            by (nonlinear_arith)
            requires
                sequence.len() == rest.len() + 1,
        ;
        let s1 = lemma_edges(m, code, st, rest, args, chosen, first, from, at, s, block);
        let c1 = edges_emitted(code, st, rest, args);
        let (depth, own) = sequence.last();
        assert(sequence[k] == (depth, own));
        let target = landing(st.frame(depth as int));
        let c2 = c1.emitted(Op::SwitchToBlock { block: own });
        let c3 = c2.emitted(Op::SealBlock { block: own });
        lemma_has_all(code, c3, args);
        lemma_all_kept(s, s1, code, args);
        if chosen == k {
            lemma_arrived(m, c1, from, at, block, Seq::empty(), s1);
            assert(own == block);
            lemma_run_step(
                m,
                c2.steps,
                StepModel::Op(Op::SealBlock { block: own }),
                from,
                at,
            );
            lemma_jumped(m, c3, target, args, from, at, s1)
        } else {
            let (b, a) = if chosen < k {
                (landing(st.frame(sequence[chosen].0 as int)), s.all(args))
            } else {
                (block, Seq::<int>::empty())
            };
            if chosen < k {
                assert(rest[chosen] == sequence[chosen]);
            }
            lemma_left(m, c1, Op::SwitchToBlock { block: own }, from, at, b, a, s1);
            lemma_left(m, c2, Op::SealBlock { block: own }, from, at, b, a, s1);
            let t = lemma_canonical_values_passed(m, c3, args, from, at, b, a, s1);
            let (c4, vs) = canonical_values(c3, args);
            lemma_run_step(
                m,
                c4.steps,
                StepModel::Jump { destination: target, args: vs },
                from,
                at,
            );
            t
        }
    }
}

/// Whether a branch through a table can be followed: all its constructs exist, and take the same
/// number of values.
pub open spec fn table_followable(w: World, targets: Seq<u32>, default: u32) -> bool {
    &&& followable(w, default, 1)
    &&& forall|i: int|
        0 <= i < targets.len() ==> followable(w, #[trigger] targets[i], 1) && carried(
            construct(w, targets[i]),
        ) == carried(construct(w, default))
    &&& w.code.blocks.len() + targets.len() + 1 <= usize::MAX
}

/// A branch through a table leads to the construct that the table has for the index on top of the
/// stack, and to the default one for an index beyond the table, with the values that it carries.
#[verifier::rlimit(60)]
pub proof fn br_table_leads_to_the_chosen_target(
    targets: Seq<u32>,
    default: u32,
    m: Machine,
    w: World,
    s: Moment,
)
    requires
        ready(w, s, (targets.len() + 1) * w.st.stack.len()),
        table_followable(w, targets, default),
        operand(w, s, 0) >= 0,
    ensures
        ({
            let after = translated(Operator::BrTable { targets, default }, w);
            let depth = chosen(targets, default, operand(w, s, 0));
            &&& leaves_for(
                m,
                w,
                after,
                s,
                landing(construct(w, depth)),
                carried_operands(w, s, depth, 1),
            )
            &&& after.st.control.len() == w.st.control.len()
            &&& left_by_branches(construct(after, depth))
            &&& !after.st.reachable
        }),
{
    reveal(World::br_table);
    let from = w.code.steps.len();
    let at = Flow::On(s);
    let after = translated(Operator::BrTable { targets, default }, w);
    let index = operand(w, s, 0);
    let depth = chosen(targets, default, index);
    let depths = targets.push(default);
    let n = carried(construct(w, default));
    let val = w.st.peek(0);
    let st = w.st.pop(1);
    assert(forall|d: u32| #[trigger] st.frame(d as int) == construct(w, d));
    assert(w.code.has(val));
    assert forall|i: int| 0 <= i < depths.len() implies followable(w, #[trigger] depths[i], 1)
        && carried(construct(w, depths[i])) == n by {
        if i < targets.len() {
            assert(depths[i] == targets[i]);
        }
    }
    lemma_min_depth(targets, default);
    let least = min_depth_of(targets, default);
    assert(carried(construct(w, least)) == n) by {
        let i = depths.index_of(least);
        assert(depths[i] == least);
    }
    lemma_run_nothing(m, w.code.steps, from, at);
    let chosen_index = if index < targets.len() {
        index
    } else {
        targets.len() as int
    };
    assert(depths[chosen_index] == depth);
    if n == 0 {
        lemma_run_step(
            m,
            w.code.steps,
            StepModel::BrTable {
                index: val,
                default: st.frame(default as int).target(),
                targets: targets.map_values(|d: u32| st.frame(d as int).target()),
            },
            from,
            at,
        );
        lemma_all_marked(st.control, depths);
        assert(carried_operands(w, s, depth, 1) =~= Seq::empty());
    } else {
        let args = top(st.stack, n);
        lemma_top(w, s, 1, n);
        let s1 = lemma_assigned(m, w.code, depths, from, at, s);
        let (c1, sequence, data) = blocks_assigned(w.code, depths);
        let step = StepModel::BrTable {
            index: val,
            default: data.last(),
            targets: data.drop_last(),
        };
        let c2 = c1.step(step);
        lemma_run_step(m, c1.steps, step, from, at);
        assert(s1.values[val.0 as int] == s.values[val.0 as int]);
        assert(sequence.contains((depths[chosen_index], data[chosen_index])));
        let k = sequence.index_of((depths[chosen_index], data[chosen_index]));
        assert(sequence[k] == (depth, data[chosen_index]));
        assert forall|i: int| 0 <= i < sequence.len() implies landing(
            st.frame((#[trigger] sequence[i]).0 as int),
        ).0 < w.code.blocks.len() && sequence[i].0 < st.control.len() by {
            let j = depths.index_of(sequence[i].0);
            assert(followable(w, depths[j], 1));
        }
        assert(sequence.len() * args.len() <= (targets.len() + 1) * w.st.stack.len())
            by (nonlinear_arith)
            requires
                sequence.len() <= targets.len() + 1,
                args.len() <= w.st.stack.len(),
        ;
        lemma_has_all(w.code, c2, args);
        lemma_all_kept(s, s1, w.code, args);
        let t = lemma_edges(
            m,
            c2,
            st,
            sequence,
            args,
            k,
            w.code.blocks.len() as int,
            from,
            at,
            s1,
            data[chosen_index],
        );
        let reached = sequence.map_values(|p: (u32, Block)| p.0);
        assert forall|i: int| 0 <= i < reached.len() implies #[trigger] reached[i]
            < st.control.len() by {
            assert(sequence[i].0 < st.control.len());
        }
        lemma_all_marked(st.control, reached);
        assert(reached[k] == depth);
    }
}

/// The innermost of the constructs that a table branches to is one of them.
proof fn lemma_min_depth(targets: Seq<u32>, default: u32)
    ensures
        targets.push(default).contains(min_depth_of(targets, default)),
    decreases targets.len(),
{
    let all = targets.push(default);
    if targets.len() == 0 {
        assert(all[0] == default);
    } else {
        let rest = targets.drop_last();
        lemma_min_depth(rest, default);
        let d = min_depth_of(rest, default);
        let i = rest.push(default).index_of(d);
        if i < rest.len() {
            assert(all[i] == d);
        } else {
            assert(all[targets.len() as int] == d);
        }
        assert(all[targets.len() - 1] == targets.last());
    }
}

/// Values that existed exist after more code.
pub proof fn lemma_has_all(before: Code, after: Code, vs: Seq<Value>)
    requires
        before.has_all(vs),
        before.values.len() <= after.values.len(),
    ensures
        after.has_all(vs),
{
    assert forall|i: int| 0 <= i < vs.len() implies after.has(#[trigger] vs[i]) by {
        assert(before.has(vs[i]));
    }
}

/// The stack without its top values, after code that left them alone.
pub proof fn lemma_kept(w: World, after: World, s: Moment, t: Moment, n: int)
    requires
        ready(w, s, 0),
        0 <= n <= w.st.stack.len(),
        went_on(t, s),
        runs(t, after.code),
        after.st.stack == crate::cranelift::state::below(w.st.stack, n),
    ensures
        operands(after, t) == operands_below(w, s, n),
        after.code.has_all(after.st.stack),
{
    lemma_all_kept(s, t, w.code, w.st.stack);
    assert(operands(after, t) =~= operands_below(w, s, n)) by {
        assert forall|i: int| 0 <= i < w.st.stack.len() - n implies t.bits(after.st.stack[i])
            == #[trigger] operands_below(w, s, n)[i] by {
            assert(t.all(w.st.stack)[i] == s.all(w.st.stack)[i]);
        }
    }
    assert forall|i: int| 0 <= i < after.st.stack.len() implies after.code.has(
        #[trigger] after.st.stack[i],
    ) by {
        assert(w.code.has(w.st.stack[i]));
    }
}

} // verus!
