//! How a run of recorded code follows the operand stack of WebAssembly.
use crate::builder::Code;
use crate::cranelift::bits::{lemma_wrap, truth, wrap};
use crate::cranelift::control::canonical_values;
use crate::cranelift::meaning::{
    lemma_run_step, performed, run, runs, stepped, went_on, Flow, Machine, Moment,
};
use crate::cranelift::recipes::{brought, canonical};
use crate::cranelift::world::World;
use crate::ir::{Block, ConvertOp, Fact, IntCC, Op, StepModel, TrapCode, Type, Value};
use vstd::arithmetic::power2::lemma_pow2_pos;
use vstd::prelude::*;

verus! {

/// The patterns on the operand stack, lowest first.
pub open spec fn operands(w: World, s: Moment) -> Seq<int> {
    s.all(w.st.stack)
}

/// The pattern at a depth of the operand stack; the top has depth 0.
pub open spec fn operand(w: World, s: Moment, depth: int) -> int {
    s.bits(w.st.stack[w.st.stack.len() - 1 - depth])
}

/// The operand stack without its top `n` patterns.
pub open spec fn operands_below(w: World, s: Moment, n: int) -> Seq<int> {
    operands(w, s).take(w.st.stack.len() - n)
}

/// Whether a run can be about to perform what comes next, which defines at most `more` values.
pub open spec fn ready(w: World, s: Moment, more: nat) -> bool {
    &&& w.st.reachable
    &&& runs(s, w.code)
    &&& w.code.has_all(w.st.stack)
    &&& w.code.values.len() + more <= usize::MAX
}

/// Where control is after the code that leads from one world to another.
pub open spec fn flow(m: Machine, w: World, after: World, s: Moment) -> Flow {
    run(m, after.code.steps, w.code.steps.len(), Flow::On(s))
}

/// Whether control goes on behind the code that leads from one world to another, with a stack of
/// operands, and nothing else has changed.
pub open spec fn goes_on(m: Machine, w: World, after: World, s: Moment, stack: Seq<int>) -> bool {
    &&& flow(m, w, after, s) matches Flow::On(t) && {
        &&& went_on(t, s)
        &&& runs(t, after.code)
        &&& operands(after, t) == stack
    }
    &&& after.code.has_all(after.st.stack)
    &&& after.st.reachable
}

/// Whether control leaves for a block from the code that leads from one world to another, with
/// arguments, and nothing else has changed.
pub open spec fn leaves_for(
    m: Machine,
    w: World,
    after: World,
    s: Moment,
    destination: Block,
    arguments: Seq<int>,
) -> bool {
    flow(m, w, after, s) matches Flow::Left { block, args, moment } && {
        &&& block == destination
        &&& args == arguments
        &&& went_on(moment, s)
        &&& runs(moment, after.code)
    }
}

/// Whether values are the same at two times.
pub proof fn lemma_all_kept(s: Moment, t: Moment, code: Code, vs: Seq<Value>)
    requires
        went_on(t, s),
        runs(s, code),
        code.has_all(vs),
    ensures
        t.all(vs) == s.all(vs),
{
    assert forall|i: int| 0 <= i < vs.len() implies t.bits(vs[i]) == #[trigger] s.bits(vs[i]) by {
        assert(code.has(vs[i]));
        assert(t.values[vs[i].0 as int] == s.values[vs[i].0 as int]);
    }
    assert(t.all(vs) =~= s.all(vs));
}

/// An operation that defines a value leads to a state of the code.
pub proof fn lemma_defined(
    m: Machine,
    code: Code,
    op: Op,
    ty: Type,
    from: nat,
    at: Flow,
    s: Moment,
    bits: int,
)
    requires
        from <= code.steps.len(),
        run(m, code.steps, from, at) == Flow::On(s),
        stepped(m, StepModel::Op(op), Flow::On(s)) == Flow::On(s.with(ty, bits)),
        runs(s, code),
        code.values.len() < usize::MAX,
    ensures
        run(m, code.defined(op, ty).steps, from, at) == Flow::On(s.with(ty, bits)),
        runs(s.with(ty, bits), code.defined(op, ty)),
        went_on(s.with(ty, bits), s),
        s.with(ty, bits).bits(code.next_value()) == bits,
        s.with(ty, bits).at(code.next_value()).ty == ty,
{
    lemma_run_step(m, code.steps, StepModel::Op(op), from, at);
}

/// A constant.
pub proof fn lemma_iconst(
    m: Machine,
    code: Code,
    ty: Type,
    imm: i64,
    from: nat,
    at: Flow,
    s: Moment,
) -> (t: Moment)
    requires
        from <= code.steps.len(),
        run(m, code.steps, from, at) == Flow::On(s),
        runs(s, code),
        code.values.len() < usize::MAX,
    ensures
        t == s.with(ty, wrap(ty.width(), imm as int)),
        run(m, code.iconst(ty, imm).steps, from, at) == Flow::On(t),
        runs(t, code.iconst(ty, imm)),
        went_on(t, s),
        t.bits(code.next_value()) == wrap(ty.width(), imm as int),
        t.at(code.next_value()).ty == ty,
{
    reveal(performed);
    let bits = wrap(ty.width(), imm as int);
    lemma_defined(m, code, Op::Iconst { ty, imm }, ty, from, at, s, bits);
    s.with(ty, bits)
}

/// A trap.
pub proof fn lemma_trap(m: Machine, code: Code, trap: TrapCode, from: nat, at: Flow, s: Moment)
    requires
        from <= code.steps.len(),
        run(m, code.steps, from, at) == Flow::On(s),
    ensures
        run(m, code.emitted(Op::Trap { code: trap }).steps, from, at) == Flow::Trapped(trap),
{
    reveal(performed);
    lemma_run_step(m, code.steps, StepModel::Op(Op::Trap { code: trap }), from, at);
}

/// After a trap nothing more happens.
pub proof fn lemma_after_trap(
    m: Machine,
    steps: Seq<StepModel>,
    more: Seq<StepModel>,
    from: nat,
    at: Flow,
)
    requires
        from <= steps.len(),
        run(m, steps, from, at) is Trapped,
        steps.is_prefix_of(more),
    ensures
        run(m, more, from, at) == run(m, steps, from, at),
    decreases more.len(),
{
    if more.len() == steps.len() {
        assert(more =~= steps);
    } else {
        let rest = more.drop_last();
        assert(steps =~= rest.take(steps.len() as int)) by {
            assert(steps =~= more.take(steps.len() as int));
        }
        lemma_after_trap(m, steps, rest, from, at);
        lemma_run_step(m, rest, more.last(), from, at);
        assert(rest.push(more.last()) =~= more);
    }
}

/// Whether two stages of code differ in nothing that a run sees.
pub open spec fn same_run(code: Code, after: Code) -> bool {
    &&& after.steps == code.steps
    &&& after.values.len() == code.values.len()
    &&& forall|i: int|
        0 <= i < code.values.len() ==> #[trigger] after.values[i].ty == code.values[i].ty
    &&& after.blocks == code.blocks
}

/// Facts about values change nothing in a run.
pub proof fn lemma_with_fact(code: Code, wanted: bool, v: Value, fact: Fact)
    requires
        wanted ==> code.has(v),
    ensures
        same_run(code, code.with_fact_if(wanted, v, fact)),
{
}

/// A state of a run stays one where nothing changes that a run sees.
pub proof fn lemma_same_run(s: Moment, code: Code, after: Code)
    requires
        runs(s, code),
        same_run(code, after),
    ensures
        runs(s, after),
{
}

/// A vector that is brought to a type keeps its bits.
pub proof fn lemma_brought(
    m: Machine,
    code: Code,
    v: Value,
    ty: Type,
    from: nat,
    at: Flow,
    s: Moment,
) -> (t: Moment)
    requires
        from <= code.steps.len(),
        run(m, code.steps, from, at) == Flow::On(s),
        runs(s, code),
        code.has(v),
        code.values.len() < usize::MAX,
    ensures
        run(m, brought(code, v, ty).0.steps, from, at) == Flow::On(t),
        runs(t, brought(code, v, ty).0),
        went_on(t, s),
        brought(code, v, ty).0.has(brought(code, v, ty).1),
        brought(code, v, ty).0.ty(brought(code, v, ty).1) == ty,
        brought(code, v, ty).0.values.len() <= code.values.len() + 1,
        code.steps.len() <= brought(code, v, ty).0.steps.len(),
        t.bits(brought(code, v, ty).1) == s.bits(v),
        t.at(brought(code, v, ty).1).ty == ty,
{
    reveal(performed);
    if code.ty(v) != ty {
        let flags = crate::cranelift::recipes::little_flags();
        lemma_defined(
            m,
            code,
            Op::Bitcast { ty, flags, arg: v },
            ty,
            from,
            at,
            s,
            s.bits(v),
        );
        s.with(ty, s.bits(v))
    } else {
        s
    }
}

/// A value that is brought to the type of plain vectors keeps its bits.
pub proof fn lemma_canonical(m: Machine, code: Code, v: Value, from: nat, at: Flow, s: Moment) -> (t:
    Moment)
    requires
        from <= code.steps.len(),
        run(m, code.steps, from, at) == Flow::On(s),
        runs(s, code),
        code.has(v),
        code.values.len() < usize::MAX,
    ensures
        run(m, canonical(code, v).0.steps, from, at) == Flow::On(t),
        runs(t, canonical(code, v).0),
        went_on(t, s),
        canonical(code, v).0.has(canonical(code, v).1),
        canonical(code, v).0.values.len() <= code.values.len() + 1,
        code.steps.len() <= canonical(code, v).0.steps.len(),
        t.bits(canonical(code, v).1) == s.bits(v),
        canonical(code, v).0.blocks == code.blocks,
{
    if code.ty(v).spec_is_vector() {
        lemma_brought(m, code, v, Type::I8X16, from, at, s)
    } else {
        s
    }
}

/// Values that are brought to the type of plain vectors keep their bits.
pub proof fn lemma_canonical_values(
    m: Machine,
    code: Code,
    values: Seq<Value>,
    from: nat,
    at: Flow,
    s: Moment,
) -> (t: Moment)
    requires
        from <= code.steps.len(),
        run(m, code.steps, from, at) == Flow::On(s),
        runs(s, code),
        code.has_all(values),
        code.values.len() + values.len() <= usize::MAX,
    ensures
        ({
            let (after, vs) = canonical_values(code, values);
            &&& run(m, after.steps, from, at) == Flow::On(t)
            &&& runs(t, after)
            &&& went_on(t, s)
            &&& t.all(vs) == s.all(values)
            &&& after.has_all(vs)
            &&& vs.len() == values.len()
            &&& after.blocks == code.blocks
            &&& code.steps.len() <= after.steps.len()
            &&& code.values.len() <= after.values.len() <= code.values.len() + values.len()
        }),
    decreases values.len(),
{
    if values.len() == 0 {
        assert(s.all(Seq::empty()) =~= s.all(values));
        s
    } else {
        let rest = values.drop_last();
        assert forall|i: int| 0 <= i < rest.len() implies code.has(#[trigger] rest[i]) by {
            assert(code.has(values[i]));
        }
        let v = values.last();
        assert(code.has(values[values.len() - 1]));
        let s1 = lemma_canonical_values(m, code, rest, from, at, s);
        let (c1, vs) = canonical_values(code, rest);
        let t = lemma_canonical(m, c1, v, from, at, s1);
        let (c2, v1) = canonical(c1, v);
        lemma_all_kept(s1, t, c1, vs);
        assert(s1.values[v.0 as int] == s.values[v.0 as int]);
        assert(t.all(vs.push(v1)) =~= s.all(values)) by {
            assert forall|i: int| 0 <= i < rest.len() implies t.bits(vs[i]) == s.bits(
                #[trigger] values[i],
            ) by {
                assert(t.all(vs)[i] == s.all(rest)[i]);
                assert(rest[i] == values[i]);
            }
        }
        assert forall|i: int| 0 <= i < vs.push(v1).len() implies c2.has(
            #[trigger] vs.push(v1)[i],
        ) by {
            if i < vs.len() {
                assert(c1.has(vs[i]));
            }
        }
        t
    }
}

/// Control that is on its way to a block passes code that brings values to the type of plain
/// vectors.
pub proof fn lemma_canonical_values_passed(
    m: Machine,
    code: Code,
    values: Seq<Value>,
    from: nat,
    at: Flow,
    block: Block,
    args: Seq<int>,
    s: Moment,
) -> (t: Moment)
    requires
        from <= code.steps.len(),
        run(m, code.steps, from, at) == (Flow::Left { block, args, moment: s }),
        runs(s, code),
        code.has_all(values),
        code.values.len() + values.len() <= usize::MAX,
    ensures
        ({
            let after = canonical_values(code, values).0;
            &&& run(m, after.steps, from, at) == (Flow::Left { block, args, moment: t })
            &&& runs(t, after)
            &&& went_on(t, s)
            &&& after.blocks == code.blocks
            &&& code.steps.len() <= after.steps.len()
            &&& code.values.len() <= after.values.len() <= code.values.len() + values.len()
        }),
    decreases values.len(),
{
    if values.len() == 0 {
        s
    } else {
        let rest = values.drop_last();
        assert forall|i: int| 0 <= i < rest.len() implies code.has(#[trigger] rest[i]) by {
            assert(code.has(values[i]));
        }
        let v = values.last();
        let s1 = lemma_canonical_values_passed(m, code, rest, from, at, block, args, s);
        let c1 = canonical_values(code, rest).0;
        if c1.ty(v).spec_is_vector() && c1.ty(v) != Type::I8X16 {
            let flags = crate::cranelift::recipes::little_flags();
            let op = Op::Bitcast { ty: Type::I8X16, flags, arg: v };
            lemma_run_step(m, c1.steps, StepModel::Op(op), from, at);
            s1.with(Type::I8X16, 0)
        } else {
            s1
        }
    }
}

/// A test whether a value is null, as a 32-bit value.
pub proof fn lemma_null_tested(m: Machine, code: Code, v: Value, from: nat, at: Flow, s: Moment) -> (
    t: Moment)
    requires
        from <= code.steps.len(),
        run(m, code.steps, from, at) == Flow::On(s),
        runs(s, code),
        code.has(v),
        !code.ty(v).has_lanes(),
        code.values.len() + 2 <= usize::MAX,
    ensures
        ({
            let (after, r) = World::null_tested(code, v);
            &&& run(m, after.steps, from, at) == Flow::On(t)
            &&& runs(t, after)
            &&& went_on(t, s)
            &&& after.has(r)
            &&& after.ty(r) == Type::I32
            &&& t.bits(r) == truth(s.bits(v) == 0)
            &&& after.blocks == code.blocks
            &&& code.steps.len() <= after.steps.len()
            &&& after.values.len() == code.values.len() + 2
        }),
{
    reveal(performed);
    lemma_wrap(code.ty(v).lane_bits(), 0);
    lemma_pow2_pos(code.ty(v).lane_bits());
    let bits = truth(s.bits(v) == 0);
    let test = Op::IntCompareImm { cc: IntCC::Equal, arg: v, imm: 0 };
    lemma_defined(m, code, test, Type::I8, from, at, s, bits);
    let c1 = code.int_compare_imm(IntCC::Equal, v, 0);
    let s1 = s.with(Type::I8, bits);
    let widen = Op::Convert { op: ConvertOp::Uextend, ty: Type::I32, arg: code.next_value() };
    lemma_defined(m, c1, widen, Type::I32, from, at, s1, bits);
    s1.with(Type::I32, bits)
}

/// A step that leads to a block.
pub proof fn lemma_left(
    m: Machine,
    code: Code,
    op: Op,
    from: nat,
    at: Flow,
    block: Block,
    args: Seq<int>,
    moment: Moment,
)
    requires
        from <= code.steps.len(),
        run(m, code.steps, from, at) == (Flow::Left { block, args, moment }),
        op is SealBlock || op is ChangeJumpDestination || (op matches Op::SwitchToBlock {
            block: other,
        } && other != block),
    ensures
        run(m, code.emitted(op).steps, from, at) == (Flow::Left { block, args, moment }),
{
    lemma_run_step(m, code.steps, StepModel::Op(op), from, at);
}

/// A block without parameters that control arrives in.
pub proof fn lemma_arrived(
    m: Machine,
    code: Code,
    from: nat,
    at: Flow,
    block: Block,
    args: Seq<int>,
    moment: Moment,
)
    requires
        from <= code.steps.len(),
        run(m, code.steps, from, at) == (Flow::Left { block, args, moment }),
        runs(moment, code),
        code.blocks[block.0 as int].len() == 0,
    ensures
        run(m, code.emitted(Op::SwitchToBlock { block }).steps, from, at) == Flow::On(moment),
{
    lemma_run_step(m, code.steps, StepModel::Op(Op::SwitchToBlock { block }), from, at);
    assert(moment.entered(block, args).values =~= moment.values);
}

} // verus!
