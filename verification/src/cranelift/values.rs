//! What operators on locals, constants, references and the operand stack itself do.
use crate::builder::Code;
use crate::cranelift::bits::{joined, lane, truth, wrap};
use crate::cranelift::calls::lemma_load;
use crate::cranelift::code_translator::translated;
use crate::cranelift::env::TranslationEnvironment;
use crate::cranelift::meaning::{
    accessible, fetched, lane_of_both, lemma_run_nothing, lemma_run_step, performed, run, runs,
    written, Flow, Machine, Moment,
};
use crate::cranelift::numbers::lemma_replaced;
use crate::cranelift::operator::Operator;
use crate::cranelift::recipes::{brought, canonical};
use crate::cranelift::simulation::{
    flow, goes_on, lemma_all_kept, lemma_brought, lemma_canonical, lemma_defined,
    lemma_null_tested, lemma_trap, operand, operands, operands_below, ready,
};
use crate::cranelift::table::CraneliftGlobal;
use crate::cranelift::world::World;
use crate::ir::{Op, Opcode, StepModel, TernaryOp, TrapCode, Type};
use vstd::prelude::*;

verus! {

/// The pattern that a constant is.
pub open spec fn constant_bits(op: Operator<Seq<u32>>) -> Option<int> {
    match op {
        Operator::I32Const { value } => Some(wrap(32, value as int)),
        Operator::I64Const { value } => Some(wrap(64, value as int)),
        Operator::F32Const { bits } => Some(bits as int),
        Operator::F64Const { bits } => Some(bits as int),
        Operator::V128Const { bytes } => Some(bytes as int),
        Operator::RefNull { .. } => Some(0),
        _ => None,
    }
}

/// The type that a constant has.
pub open spec fn constant_type(op: Operator<Seq<u32>>, pointer_type: Type) -> Type {
    match op {
        Operator::I32Const { .. } => Type::I32,
        Operator::I64Const { .. } => Type::I64,
        Operator::F32Const { .. } => Type::F32,
        Operator::F64Const { .. } => Type::F64,
        Operator::V128Const { .. } => Type::I8X16,
        Operator::RefNull { hty } => crate::cranelift::env::reference_type_of(hty, pointer_type),
        _ => Type::I32,
    }
}

/// A constant is pushed as the pattern that it is.
pub proof fn constants_are_pushed(op: Operator<Seq<u32>>, m: Machine, w: World, s: Moment)
    requires
        ready(w, s, 1),
        constant_bits(op) is Some,
    ensures
        ({
            let after = translated(op, w);
            &&& goes_on(m, w, after, s, operands(w, s).push(constant_bits(op)->0))
            &&& after.code.ty(after.st.peek(0)) == constant_type(op, w.env.isa.pointer_type)
        }),
{
    reveal(performed);
    let from = w.code.steps.len();
    let at = Flow::On(s);
    let after = translated(op, w);
    let ty = constant_type(op, w.env.isa.pointer_type);
    let bits = constant_bits(op)->0;
    let step = match op {
        Operator::I32Const { value } => Op::Iconst { ty, imm: value as i64 },
        Operator::I64Const { value } => Op::Iconst { ty, imm: value },
        Operator::F32Const { bits } => Op::F32const { bits },
        Operator::F64Const { bits } => Op::F64const { bits },
        Operator::V128Const { bytes } => Op::Vconst { ty, bytes },
        _ => Op::Iconst { ty, imm: 0 },
    };
    lemma_run_nothing(m, w.code.steps, from, at);
    crate::cranelift::bits::lemma_wrap(ty.width(), 0);
    vstd::arithmetic::power2::lemma_pow2_pos(ty.width());
    lemma_defined(m, w.code, step, ty, from, at, s, bits);
    assert(w.st.pop(0).push(w.code.next_value()).stack =~= after.st.stack);
    lemma_replaced(m, w, after, s, s.with(ty, bits), 0, w.code.next_value());
    assert(operands_below(w, s, 0) =~= operands(w, s));
}

/// An operator that pops its top operand, or does nothing, does nothing else.
pub proof fn drops_drop(m: Machine, w: World, s: Moment)
    requires
        ready(w, s, 0),
    ensures
        goes_on(m, w, translated(Operator::Nop, w), s, operands(w, s)),
        w.st.stack.len() >= 1 ==> goes_on(
            m,
            w,
            translated(Operator::Drop, w),
            s,
            operands_below(w, s, 1),
        ),
{
    lemma_run_nothing(m, w.code.steps, w.code.steps.len(), Flow::On(s));
    if w.st.stack.len() >= 1 {
        let after = translated(Operator::Drop, w);
        assert(operands(after, s) =~= operands_below(w, s, 1));
        assert forall|i: int| 0 <= i < after.st.stack.len() implies after.code.has(
            #[trigger] after.st.stack[i],
        ) by {
            assert(w.code.has(w.st.stack[i]));
        }
    }
}

/// Control does not go on behind `unreachable`.
pub proof fn unreachable_traps(m: Machine, w: World, s: Moment)
    requires
        ready(w, s, 0),
    ensures
        flow(m, w, translated(Operator::Unreachable, w), s) == Flow::Trapped(
            TrapCode::Unreachable,
        ),
        !translated(Operator::Unreachable, w).st.reachable,
{
    lemma_run_nothing(m, w.code.steps, w.code.steps.len(), Flow::On(s));
    lemma_trap(m, w.code, TrapCode::Unreachable, w.code.steps.len(), Flow::On(s), s);
}

/// A selection keeps the lower of two operands where the value on top is not zero, and the upper
/// one where it is.
pub proof fn selections_select(m: Machine, w: World, s: Moment)
    requires
        ready(w, s, 3),
        w.st.stack.len() >= 3,
    ensures
        ({
            let bits = if operand(w, s, 0) != 0 {
                operand(w, s, 2)
            } else {
                operand(w, s, 1)
            };
            let stack = operands_below(w, s, 3).push(bits);
            &&& goes_on(m, w, translated(Operator::Select, w), s, stack)
            &&& goes_on(m, w, translated(Operator::TypedSelect, w), s, stack)
        }),
{
    reveal(World::selected);
    let from = w.code.steps.len();
    let at = Flow::On(s);
    let after = w.selected();
    lemma_run_nothing(m, w.code.steps, from, at);
    let x = w.st.peek(2);
    let y = w.st.peek(1);
    let condition = w.st.peek(0);
    assert(w.code.has(x) && w.code.has(y) && w.code.has(condition));
    let s1 = lemma_canonical(m, w.code, x, from, at, s);
    let (c1, a) = canonical(w.code, x);
    let s2 = lemma_canonical(m, c1, y, from, at, s1);
    let (c2, b) = canonical(c1, y);
    assert(s1.values[y.0 as int] == s.values[y.0 as int]);
    assert(s2.values[a.0 as int] == s1.values[a.0 as int]);
    assert(s2.values[condition.0 as int] == s.values[condition.0 as int]) by {
        assert(s1.values[condition.0 as int] == s.values[condition.0 as int]);
    }
    let bits = if operand(w, s, 0) != 0 {
        operand(w, s, 2)
    } else {
        operand(w, s, 1)
    };
    let ty = c2.ty(a);
    let op = Op::Ternary { op: TernaryOp::Select, a: condition, b: a, c: b };
    reveal(performed);
    lemma_defined(m, c2, op, ty, from, at, s2, bits);
    lemma_replaced(m, w, after, s, s2.with(ty, bits), 3, c2.next_value());
}

/// What locals hold, as a run sees it.
pub open spec fn locals_hold(s: Moment, code: Code) -> bool {
    forall|i: u32|
        i < code.vars.len() ==> #[trigger] s.vars.dom().contains(i) && s.vars[i].ty
            == code.vars[i as int]
}

/// The value of a local is pushed.
pub proof fn locals_are_read(local_index: u32, m: Machine, w: World, s: Moment)
    requires
        ready(w, s, 1),
        local_index < w.code.vars.len(),
        locals_hold(s, w.code),
    ensures
        goes_on(
            m,
            w,
            translated(Operator::LocalGet { local_index }, w),
            s,
            operands(w, s).push(s.vars[local_index].bits),
        ),
{
    reveal(World::local_got);
    reveal(performed);
    let from = w.code.steps.len();
    let at = Flow::On(s);
    let after = translated(Operator::LocalGet { local_index }, w);
    lemma_run_nothing(m, w.code.steps, from, at);
    let ty = w.code.vars[local_index as int];
    let v = w.code.next_value();
    let op = Op::UseVar { var: local_index };
    let bits = s.vars[local_index].bits;
    assert(s.vars.dom().contains(local_index));
    lemma_defined(m, w.code, op, ty, from, at, s, bits);
    lemma_run_step(
        m,
        w.code.defined(op, ty).steps,
        StepModel::Op(Op::SetValLabel { val: v, label: local_index }),
        from,
        at,
    );
    assert(w.st.pop(0).push(v).stack =~= after.st.stack);
    lemma_replaced(m, w, after, s, s.with(ty, bits), 0, v);
    assert(operands_below(w, s, 0) =~= operands(w, s));
}

/// The value on top of the stack is given to a local, and to no other. It stays on the stack only
/// for `local.tee`.
pub proof fn locals_are_written(local_index: u32, keep: bool, m: Machine, w: World, s: Moment)
    requires
        ready(w, s, 1),
        w.st.stack.len() >= 1,
    ensures
        ({
            let after = translated(
                if keep {
                    Operator::LocalTee { local_index }
                } else {
                    Operator::LocalSet { local_index }
                },
                w,
            );
            &&& flow(m, w, after, s) matches Flow::On(t) && {
                &&& t.vars.dom() == s.vars.dom().insert(local_index)
                &&& t.vars[local_index].bits == operand(w, s, 0)
                &&& forall|i: u32| i != local_index ==> #[trigger] t.vars[i] == s.vars[i]
                &&& t.memory == s.memory
                &&& runs(t, after.code)
                &&& operands(after, t) == if keep {
                    operands(w, s)
                } else {
                    operands_below(w, s, 1)
                }
            }
            &&& after.st.reachable
            &&& after.code.has_all(after.st.stack)
        }),
{
    reveal(World::local_set);
    let from = w.code.steps.len();
    let at = Flow::On(s);
    let after = w.local_set(local_index, keep);
    lemma_run_nothing(m, w.code.steps, from, at);
    let top = w.st.peek(0);
    assert(w.code.has(top));
    let s1 = lemma_canonical(m, w.code, top, from, at, s);
    let (c1, v) = canonical(w.code, top);
    let define = Op::DefVar { var: local_index, val: v };
    lemma_run_step(m, c1.steps, StepModel::Op(define), from, at);
    lemma_run_step(
        m,
        c1.emitted(define).steps,
        StepModel::Op(Op::SetValLabel { val: v, label: local_index }),
        from,
        at,
    );
    reveal(performed);
    let t = Moment { vars: s1.vars.insert(local_index, s1.at(v)), ..s1 };
    lemma_all_kept(s, s1, w.code, w.st.stack);
    assert(forall|i: int|
        0 <= i < w.st.stack.len() ==> #[trigger] t.bits(w.st.stack[i]) == s1.all(w.st.stack)[i]);
    assert(t.all(w.st.stack) =~= s.all(w.st.stack));
    if !keep {
        assert(operands(after, t) =~= operands_below(w, s, 1)) by {
            assert forall|i: int| 0 <= i < w.st.stack.len() - 1 implies t.bits(after.st.stack[i])
                == #[trigger] operands_below(w, s, 1)[i] by {
                assert(t.all(w.st.stack)[i] == s.all(w.st.stack)[i]);
            }
        }
    }
    assert forall|i: int| 0 <= i < after.st.stack.len() implies after.code.has(
        #[trigger] after.st.stack[i],
    ) by {
        assert(w.code.has(w.st.stack[i]));
    }
    assert(t.vars.dom() =~= s.vars.dom().insert(local_index));
}

/// A reference is replaced by whether it is null.
pub proof fn references_are_tested(m: Machine, w: World, s: Moment)
    requires
        ready(w, s, 2),
        w.st.stack.len() >= 1,
        !w.code.ty(w.st.peek(0)).has_lanes(),
    ensures
        goes_on(
            m,
            w,
            translated(Operator::RefIsNull, w),
            s,
            operands_below(w, s, 1).push(truth(operand(w, s, 0) == 0)),
        ),
{
    reveal(World::ref_tested);
    let from = w.code.steps.len();
    let at = Flow::On(s);
    let after = translated(Operator::RefIsNull, w);
    lemma_run_nothing(m, w.code.steps, from, at);
    assert(w.code.has(w.st.peek(0)));
    let t = lemma_null_tested(m, w.code, w.st.peek(0), from, at, s);
    let v = World::null_tested(w.code, w.st.peek(0)).1;
    lemma_replaced(m, w, after, s, t, 1, v);
}

/// A reference that must not be null stays on the stack, and a null one traps.
pub proof fn null_references_trap(m: Machine, w: World, s: Moment)
    requires
        ready(w, s, 2),
        w.st.stack.len() >= 1,
        !w.code.ty(w.st.peek(0)).has_lanes(),
    ensures
        ({
            let after = translated(Operator::RefAsNonNull, w);
            if operand(w, s, 0) == 0 {
                flow(m, w, after, s) == Flow::Trapped(TrapCode::NullReference)
            } else {
                goes_on(m, w, after, s, operands(w, s))
            }
        }),
{
    reveal(World::ref_asserted);
    let from = w.code.steps.len();
    let at = Flow::On(s);
    let after = translated(Operator::RefAsNonNull, w);
    lemma_run_nothing(m, w.code.steps, from, at);
    let r = w.st.peek(0);
    assert(w.code.has(r));
    let t = lemma_null_tested(m, w.code, r, from, at, s);
    let (c1, v) = World::null_tested(w.code, r);
    let trap = Op::Trapnz { arg: v, code: TrapCode::NullReference };
    lemma_run_step(m, c1.steps, StepModel::Op(trap), from, at);
    reveal(performed);
    if operand(w, s, 0) != 0 {
        lemma_replaced(m, w, after, s, t, 1, r);
        assert(t.values[r.0 as int] == s.values[r.0 as int]);
        assert(operands_below(w, s, 1).push(t.bits(r)) =~= operands(w, s));
    }
}

/// A shuffle takes each byte from the byte of the two operands that its mask names; the bytes of
/// the lower operand come first.
pub proof fn shuffles_pick_bytes(mask: u128, m: Machine, w: World, s: Moment)
    requires
        ready(w, s, 3),
        w.st.stack.len() >= 2,
    ensures
        ({
            let picked = Seq::new(
                16,
                |i: int|
                    {
                        let k = lane(8, mask as int, i);
                        if k < 16 {
                            lane(8, operand(w, s, 1), k)
                        } else if k < 32 {
                            lane(8, operand(w, s, 0), k - 16)
                        } else {
                            0
                        }
                    },
            );
            goes_on(
                m,
                w,
                translated(Operator::I8x16Shuffle { lanes: mask }, w),
                s,
                operands_below(w, s, 2).push(joined(8, picked)),
            )
        }),
{
    reveal(World::shuffled);
    reveal(performed);
    let from = w.code.steps.len();
    let at = Flow::On(s);
    let after = translated(Operator::I8x16Shuffle { lanes: mask }, w);
    lemma_run_nothing(m, w.code.steps, from, at);
    let x = w.st.peek(1);
    let y = w.st.peek(0);
    assert(w.code.has(x) && w.code.has(y));
    let s1 = lemma_brought(m, w.code, x, Type::I8X16, from, at, s);
    let (c1, a) = brought(w.code, x, Type::I8X16);
    let s2 = lemma_brought(m, c1, y, Type::I8X16, from, at, s1);
    let (c2, b) = brought(c1, y, Type::I8X16);
    assert(s1.values[y.0 as int] == s.values[y.0 as int]);
    assert(s2.values[a.0 as int] == s1.values[a.0 as int]);
    let found = Seq::new(
        16,
        |i: int|
            {
                let k = lane(8, mask as int, i);
                if k < 32 {
                    lane_of_both(8, s2.bits(a), s2.bits(b), k)
                } else {
                    0
                }
            },
    );
    let picked = Seq::new(
        16,
        |i: int|
            {
                let k = lane(8, mask as int, i);
                if k < 16 {
                    lane(8, operand(w, s, 1), k)
                } else if k < 32 {
                    lane(8, operand(w, s, 0), k - 16)
                } else {
                    0
                }
            },
    );
    assert(found =~= picked);
    let op = Op::Shuffle { a, b, mask };
    lemma_defined(m, c2, op, Type::I8X16, from, at, s2, joined(8, found));
    lemma_replaced(
        m,
        w,
        after,
        s,
        s2.with(Type::I8X16, joined(8, found)),
        2,
        c2.next_value(),
    );
}

/// A global of the module, looked up.
pub open spec fn global_at(w: World, global_index: u32) -> CraneliftGlobal {
    w.global(global_index).1
}

/// The address of a global in memory.
pub open spec fn global_address(w: World, m: Machine, s: Moment, global_index: u32) -> int {
    match global_at(w, global_index) {
        CraneliftGlobal::Memory { gv, offset, .. } => wrap(
            m.pointer,
            m.global(s.memory, gv) + offset,
        ),
        _ => 0,
    }
}

/// The number of bytes of a global in memory.
pub open spec fn global_size(w: World, global_index: u32) -> nat {
    global_at(w, global_index)->Memory_ty.width() / 8
}

/// A global that is looked up changes nothing in a run.
proof fn lemma_global_found(w: World, global_index: u32)
    ensures
        ({
            let w1 = w.global(global_index).0;
            &&& w1.code.steps == w.code.steps
            &&& w1.code.values == w.code.values
            &&& w1.code.blocks == w.code.blocks
            &&& w1.st.stack == w.st.stack
            &&& w1.st.control == w.st.control
            &&& w1.st.reachable == w.st.reachable
            &&& w1.env.isa == w.env.isa
        }),
{
    reveal(TranslationEnvironment::global_made);
}

/// The value of a global is pushed: the bytes at its address.
pub proof fn globals_are_read(global_index: u32, m: Machine, w: World, s: Moment)
    requires
        ready(w, s, 2),
        global_at(w, global_index) is Memory,
        accessible(
            s.memory,
            global_address(w, m, s, global_index),
            global_size(w, global_index),
        ),
    ensures
        goes_on(
            m,
            w,
            translated(Operator::GlobalGet { global_index }, w),
            s,
            operands(w, s).push(
                fetched(
                    s.memory,
                    global_address(w, m, s, global_index),
                    global_size(w, global_index),
                ),
            ),
        ),
{
    reveal(World::global_got);
    let from = w.code.steps.len();
    let at = Flow::On(s);
    let after = translated(Operator::GlobalGet { global_index }, w);
    lemma_global_found(w, global_index);
    let w1 = w.global(global_index).0;
    lemma_run_nothing(m, w1.code.steps, from, at);
    if let CraneliftGlobal::Memory { gv, offset, ty } = global_at(w, global_index) {
        let pointer_type = w1.env.isa.pointer_type;
        let start = m.global(s.memory, gv);
        let s1 = s.with(pointer_type, start);
        let c1 = w1.code.global_value(pointer_type, gv);
        assert(run(m, c1.steps, from, at) == Flow::On(s1) && runs(s1, c1)) by {
            reveal(performed);
            let op = Op::GlobalAddress { ty: pointer_type, gv };
            lemma_defined(m, w1.code, op, pointer_type, from, at, s, start);
        }
        let flags = crate::cranelift::variables::global_flags();
        let addr = w1.code.next_value();
        let t = lemma_load(m, c1, ty, flags, addr, offset, from, at, s1);
        let same = World { st: w.st.pop(0).push(c1.next_value()), ..after };
        assert(same.st.stack =~= after.st.stack);
        lemma_replaced(m, w, same, s, t, 0, c1.next_value());
        assert(operands_below(w, s, 0) =~= operands(w, s));
        assert(operands(same, t) == operands(after, t));
    }
}

/// The value on top of the stack is written at the address of a global, and popped.
pub proof fn globals_are_written(global_index: u32, m: Machine, w: World, s: Moment)
    requires
        ready(w, s, 2),
        w.global_writable(global_index),
        accessible(
            s.memory,
            global_address(w, m, s, global_index),
            global_size(w, global_index),
        ),
    ensures
        ({
            let after = translated(Operator::GlobalSet { global_index }, w);
            &&& flow(m, w, after, s) matches Flow::On(t) && {
                &&& t.memory == written(
                    s.memory,
                    global_address(w, m, s, global_index),
                    global_size(w, global_index),
                    operand(w, s, 0),
                )
                &&& t.vars == s.vars
                &&& runs(t, after.code)
                &&& operands(after, t) == operands_below(w, s, 1)
            }
            &&& after.st.reachable
        }),
{
    reveal(World::global_set);
    let from = w.code.steps.len();
    let at = Flow::On(s);
    let after = translated(Operator::GlobalSet { global_index }, w);
    lemma_global_found(w, global_index);
    let w1 = w.global(global_index).0;
    lemma_run_nothing(m, w1.code.steps, from, at);
    let top = w.st.peek(0);
    assert(w.code.has(top));
    if let CraneliftGlobal::Memory { gv, offset, ty } = global_at(w, global_index) {
        let pointer_type = w1.env.isa.pointer_type;
        let start = m.global(s.memory, gv);
        let s1 = s.with(pointer_type, start);
        let c1 = w1.code.global_value(pointer_type, gv);
        let addr = w1.code.next_value();
        assert(run(m, c1.steps, from, at) == Flow::On(s1) && runs(s1, c1)) by {
            reveal(performed);
            let op = Op::GlobalAddress { ty: pointer_type, gv };
            lemma_defined(m, w1.code, op, pointer_type, from, at, s, start);
        }
        assert(s1.values[top.0 as int] == s.values[top.0 as int]);
        let (c2, val) = if ty.spec_is_vector() {
            brought(c1, top, Type::I8X16)
        } else {
            (c1, top)
        };
        let s2 = if ty.spec_is_vector() {
            lemma_brought(m, c1, top, Type::I8X16, from, at, s1)
        } else {
            s1
        };
        assert(s2.bits(val) == operand(w, s, 0) && s2.at(val).ty == ty);
        assert(s2.values[addr.0 as int] == s1.values[addr.0 as int]);
        let flags = crate::cranelift::variables::global_flags();
        let op = Op::Store { op: Opcode::Store, flags, val, addr, offset };
        lemma_run_step(m, c2.steps, StepModel::Op(op), from, at);
        reveal(performed);
        let t = Moment {
            memory: written(
                s.memory,
                global_address(w, m, s, global_index),
                global_size(w, global_index),
                operand(w, s, 0),
            ),
            ..s2
        };
        assert(flow(m, w, after, s) == Flow::On(t));
        lemma_all_kept(s, s2, w.code, w.st.stack);
        assert(operands(after, t) =~= operands_below(w, s, 1)) by {
            assert forall|i: int| 0 <= i < w.st.stack.len() - 1 implies t.bits(after.st.stack[i])
                == #[trigger] operands_below(w, s, 1)[i] by {
                assert(s2.all(w.st.stack)[i] == s.all(w.st.stack)[i]);
            }
        }
    }
}

} // verus!
