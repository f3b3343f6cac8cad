//! What operators on scalars compute.
use crate::builder::Code;
use crate::cranelift::bits::{
    both, differing, either, greatest, leading_zeros, least, lemma_wrap, ones, quotient, remainder,
    rotated_down, rotated_up, shifted_down, shifted_down_signed, shifted_up, signed,
    trailing_zeros, truth, wrap,
};
use crate::cranelift::code_translator::translated;
use crate::cranelift::meaning::{
    compared_floats, compared_integers, lemma_run_nothing, lemma_run_step, performed, negated,
    run, runs, saturated, unsigned, with_sign_of, went_on, within, Flow, Floats, Machine, Moment,
};
use crate::cranelift::operator::{NumericOp, NumericRecipe, Operator};
use crate::cranelift::simulation::{
    flow, goes_on, lemma_all_kept, lemma_defined, operand, operands, operands_below, ready,
};
use crate::cranelift::world::World;
use crate::ir::{ConvertOp, IntCC, MemFlags, Op, StepModel, TrapCode, Type, Value};
use vstd::arithmetic::power2::{lemma_pow2_pos, pow2};
use vstd::prelude::*;

verus! {

/// A quotient of numbers without a sign.
pub open spec fn divided(a: int, b: int) -> Result<int, TrapCode> {
    if b == 0 {
        Err(TrapCode::IntegerDivisionByZero)
    } else {
        Ok(a / b)
    }
}

/// What a quotient of numbers without a sign leaves.
pub open spec fn left(a: int, b: int) -> Result<int, TrapCode> {
    if b == 0 {
        Err(TrapCode::IntegerDivisionByZero)
    } else {
        Ok(a % b)
    }
}

/// A quotient of numbers in two's complement, rounded towards zero.
pub open spec fn divided_signed(n: nat, a: int, b: int) -> Result<int, TrapCode> {
    if b == 0 {
        Err(TrapCode::IntegerDivisionByZero)
    } else if signed(n, a) == least(n) && signed(n, b) == -1 {
        Err(TrapCode::IntegerOverflow)
    } else {
        Ok(wrap(n, quotient(signed(n, a), signed(n, b))))
    }
}

/// What a quotient of numbers in two's complement leaves.
pub open spec fn left_signed(n: nat, a: int, b: int) -> Result<int, TrapCode> {
    if b == 0 {
        Err(TrapCode::IntegerDivisionByZero)
    } else {
        Ok(wrap(n, remainder(signed(n, a), signed(n, b))))
    }
}

impl NumericOp {
    /// The number of operands.
    pub open spec fn operand_count(self) -> int {
        match self {
            NumericOp::I32Add | NumericOp::I32Sub | NumericOp::I32Mul | NumericOp::I32And |
            NumericOp::I32Or | NumericOp::I32Xor | NumericOp::I32Shl | NumericOp::I32ShrS |
            NumericOp::I32ShrU | NumericOp::I32Rotl | NumericOp::I32Rotr | NumericOp::I32DivS |
            NumericOp::I32DivU | NumericOp::I32RemS | NumericOp::I32RemU | NumericOp::I32LtS |
            NumericOp::I32LeS | NumericOp::I32GtS | NumericOp::I32GeS | NumericOp::I32LtU |
            NumericOp::I32LeU | NumericOp::I32GtU | NumericOp::I32GeU | NumericOp::I32Eq |
            NumericOp::I32Ne | NumericOp::I64Add | NumericOp::I64Sub | NumericOp::I64Mul |
            NumericOp::I64And | NumericOp::I64Or | NumericOp::I64Xor | NumericOp::I64Shl |
            NumericOp::I64ShrS | NumericOp::I64ShrU | NumericOp::I64Rotl | NumericOp::I64Rotr |
            NumericOp::I64DivS | NumericOp::I64DivU | NumericOp::I64RemS | NumericOp::I64RemU |
            NumericOp::I64LtS | NumericOp::I64LeS | NumericOp::I64GtS | NumericOp::I64GeS |
            NumericOp::I64LtU | NumericOp::I64LeU | NumericOp::I64GtU | NumericOp::I64GeU |
            NumericOp::I64Eq | NumericOp::I64Ne | NumericOp::F32Add | NumericOp::F32Sub |
            NumericOp::F32Mul | NumericOp::F32Div | NumericOp::F32Min | NumericOp::F32Max |
            NumericOp::F32Copysign | NumericOp::F32Eq | NumericOp::F32Ne | NumericOp::F32Lt |
            NumericOp::F32Gt | NumericOp::F32Le | NumericOp::F32Ge | NumericOp::F64Add |
            NumericOp::F64Sub | NumericOp::F64Mul | NumericOp::F64Div | NumericOp::F64Min |
            NumericOp::F64Max | NumericOp::F64Copysign | NumericOp::F64Eq | NumericOp::F64Ne |
            NumericOp::F64Lt | NumericOp::F64Gt | NumericOp::F64Le | NumericOp::F64Ge => 2,
            _ => 1,
        }
    }

    /// The value for operands `a` and `b`, of which a single operand is `b`, or the trap.
    pub open spec fn value(self, f: Floats, a: int, b: int) -> Result<int, TrapCode> {
        match self {
            NumericOp::I32Add => Ok(wrap(32, a + b)),
            NumericOp::I32Sub => Ok(wrap(32, a - b)),
            NumericOp::I32Mul => Ok(wrap(32, a * b)),
            NumericOp::I32And => Ok(both(a, b)),
            NumericOp::I32Or => Ok(either(a, b)),
            NumericOp::I32Xor => Ok(differing(a, b)),
            NumericOp::I32Shl => Ok(shifted_up(32, a, b)),
            NumericOp::I32ShrS => Ok(shifted_down_signed(32, a, b)),
            NumericOp::I32ShrU => Ok(shifted_down(32, a, b)),
            NumericOp::I32Rotl => Ok(rotated_up(32, a, b)),
            NumericOp::I32Rotr => Ok(rotated_down(32, a, b)),
            NumericOp::I32Clz => Ok(leading_zeros(32, b)),
            NumericOp::I32Ctz => Ok(trailing_zeros(32, b)),
            NumericOp::I32Popcnt => Ok(ones(32, b)),
            NumericOp::I32DivS => divided_signed(32, a, b),
            NumericOp::I32DivU => divided(a, b),
            NumericOp::I32RemS => left_signed(32, a, b),
            NumericOp::I32RemU => left(a, b),
            NumericOp::I32LtS => Ok(truth(signed(32, a) < signed(32, b))),
            NumericOp::I32LeS => Ok(truth(signed(32, a) <= signed(32, b))),
            NumericOp::I32GtS => Ok(truth(signed(32, a) > signed(32, b))),
            NumericOp::I32GeS => Ok(truth(signed(32, a) >= signed(32, b))),
            NumericOp::I32LtU => Ok(truth(a < b)),
            NumericOp::I32LeU => Ok(truth(a <= b)),
            NumericOp::I32GtU => Ok(truth(a > b)),
            NumericOp::I32GeU => Ok(truth(a >= b)),
            NumericOp::I32Eq => Ok(truth(a == b)),
            NumericOp::I32Ne => Ok(truth(a != b)),
            NumericOp::I32Eqz => Ok(truth(b == 0)),
            NumericOp::I32Extend8S => Ok(wrap(32, signed(8, wrap(8, b)))),
            NumericOp::I32Extend16S => Ok(wrap(32, signed(16, wrap(16, b)))),
            NumericOp::I64Add => Ok(wrap(64, a + b)),
            NumericOp::I64Sub => Ok(wrap(64, a - b)),
            NumericOp::I64Mul => Ok(wrap(64, a * b)),
            NumericOp::I64And => Ok(both(a, b)),
            NumericOp::I64Or => Ok(either(a, b)),
            NumericOp::I64Xor => Ok(differing(a, b)),
            NumericOp::I64Shl => Ok(shifted_up(64, a, b)),
            NumericOp::I64ShrS => Ok(shifted_down_signed(64, a, b)),
            NumericOp::I64ShrU => Ok(shifted_down(64, a, b)),
            NumericOp::I64Rotl => Ok(rotated_up(64, a, b)),
            NumericOp::I64Rotr => Ok(rotated_down(64, a, b)),
            NumericOp::I64Clz => Ok(leading_zeros(64, b)),
            NumericOp::I64Ctz => Ok(trailing_zeros(64, b)),
            NumericOp::I64Popcnt => Ok(ones(64, b)),
            NumericOp::I64DivS => divided_signed(64, a, b),
            NumericOp::I64DivU => divided(a, b),
            NumericOp::I64RemS => left_signed(64, a, b),
            NumericOp::I64RemU => left(a, b),
            NumericOp::I64LtS => Ok(truth(signed(64, a) < signed(64, b))),
            NumericOp::I64LeS => Ok(truth(signed(64, a) <= signed(64, b))),
            NumericOp::I64GtS => Ok(truth(signed(64, a) > signed(64, b))),
            NumericOp::I64GeS => Ok(truth(signed(64, a) >= signed(64, b))),
            NumericOp::I64LtU => Ok(truth(a < b)),
            NumericOp::I64LeU => Ok(truth(a <= b)),
            NumericOp::I64GtU => Ok(truth(a > b)),
            NumericOp::I64GeU => Ok(truth(a >= b)),
            NumericOp::I64Eq => Ok(truth(a == b)),
            NumericOp::I64Ne => Ok(truth(a != b)),
            NumericOp::I64Eqz => Ok(truth(b == 0)),
            NumericOp::I64Extend8S => Ok(wrap(64, signed(8, wrap(8, b)))),
            NumericOp::I64Extend16S => Ok(wrap(64, signed(16, wrap(16, b)))),
            NumericOp::I64Extend32S => Ok(wrap(64, signed(32, wrap(32, b)))),
            NumericOp::I32WrapI64 => Ok(wrap(32, b)),
            NumericOp::I64ExtendI32S => Ok(wrap(64, signed(32, b))),
            NumericOp::I64ExtendI32U => Ok(b),
            NumericOp::F32Add => Ok((f.sum)(32, a, b)),
            NumericOp::F32Sub => Ok((f.difference)(32, a, b)),
            NumericOp::F32Mul => Ok((f.product)(32, a, b)),
            NumericOp::F32Div => Ok((f.quotient)(32, a, b)),
            NumericOp::F32Min => Ok((f.minimum)(32, a, b)),
            NumericOp::F32Max => Ok((f.maximum)(32, a, b)),
            NumericOp::F32Copysign => Ok(with_sign_of(32, a, b)),
            NumericOp::F32Sqrt => Ok((f.root)(32, b)),
            NumericOp::F32Ceil => Ok((f.ceiling)(32, b)),
            NumericOp::F32Floor => Ok((f.floor)(32, b)),
            NumericOp::F32Trunc => Ok((f.truncated)(32, b)),
            NumericOp::F32Nearest => Ok((f.nearest)(32, b)),
            NumericOp::F32Abs => Ok(unsigned(32, b)),
            NumericOp::F32Neg => Ok(negated(32, b)),
            NumericOp::F32Eq => Ok(truth((f.equal)(32, a, b))),
            NumericOp::F32Ne => Ok(truth(!(f.equal)(32, a, b))),
            NumericOp::F32Lt => Ok(truth((f.less)(32, a, b))),
            NumericOp::F32Gt => Ok(truth((f.less)(32, b, a))),
            NumericOp::F32Le => Ok(truth((f.less)(32, a, b) || (f.equal)(32, a, b))),
            NumericOp::F32Ge => Ok(truth((f.less)(32, b, a) || (f.equal)(32, a, b))),
            NumericOp::I32TruncF32S => within(32, least(32), greatest(32), (f.integral)(32, b)),
            NumericOp::I32TruncF32U => within(32, 0, pow2(32) - 1, (f.integral)(32, b)),
            NumericOp::I32TruncSatF32S => Ok(saturated(32, least(32), greatest(32), (f.integral)(32, b))),
            NumericOp::I32TruncSatF32U => Ok(saturated(32, 0, pow2(32) - 1, (f.integral)(32, b))),
            NumericOp::F32ConvertI32S => Ok((f.of_integer)(32, signed(32, b))),
            NumericOp::F32ConvertI32U => Ok((f.of_integer)(32, b)),
            NumericOp::I64TruncF32S => within(64, least(64), greatest(64), (f.integral)(32, b)),
            NumericOp::I64TruncF32U => within(64, 0, pow2(64) - 1, (f.integral)(32, b)),
            NumericOp::I64TruncSatF32S => Ok(saturated(64, least(64), greatest(64), (f.integral)(32, b))),
            NumericOp::I64TruncSatF32U => Ok(saturated(64, 0, pow2(64) - 1, (f.integral)(32, b))),
            NumericOp::F32ConvertI64S => Ok((f.of_integer)(32, signed(64, b))),
            NumericOp::F32ConvertI64U => Ok((f.of_integer)(32, b)),
            NumericOp::F32ReinterpretI32 => Ok(b),
            NumericOp::I32ReinterpretF32 => Ok(b),
            NumericOp::F64Add => Ok((f.sum)(64, a, b)),
            NumericOp::F64Sub => Ok((f.difference)(64, a, b)),
            NumericOp::F64Mul => Ok((f.product)(64, a, b)),
            NumericOp::F64Div => Ok((f.quotient)(64, a, b)),
            NumericOp::F64Min => Ok((f.minimum)(64, a, b)),
            NumericOp::F64Max => Ok((f.maximum)(64, a, b)),
            NumericOp::F64Copysign => Ok(with_sign_of(64, a, b)),
            NumericOp::F64Sqrt => Ok((f.root)(64, b)),
            NumericOp::F64Ceil => Ok((f.ceiling)(64, b)),
            NumericOp::F64Floor => Ok((f.floor)(64, b)),
            NumericOp::F64Trunc => Ok((f.truncated)(64, b)),
            NumericOp::F64Nearest => Ok((f.nearest)(64, b)),
            NumericOp::F64Abs => Ok(unsigned(64, b)),
            NumericOp::F64Neg => Ok(negated(64, b)),
            NumericOp::F64Eq => Ok(truth((f.equal)(64, a, b))),
            NumericOp::F64Ne => Ok(truth(!(f.equal)(64, a, b))),
            NumericOp::F64Lt => Ok(truth((f.less)(64, a, b))),
            NumericOp::F64Gt => Ok(truth((f.less)(64, b, a))),
            NumericOp::F64Le => Ok(truth((f.less)(64, a, b) || (f.equal)(64, a, b))),
            NumericOp::F64Ge => Ok(truth((f.less)(64, b, a) || (f.equal)(64, a, b))),
            NumericOp::I32TruncF64S => within(32, least(32), greatest(32), (f.integral)(64, b)),
            NumericOp::I32TruncF64U => within(32, 0, pow2(32) - 1, (f.integral)(64, b)),
            NumericOp::I32TruncSatF64S => Ok(saturated(32, least(32), greatest(32), (f.integral)(64, b))),
            NumericOp::I32TruncSatF64U => Ok(saturated(32, 0, pow2(32) - 1, (f.integral)(64, b))),
            NumericOp::F64ConvertI32S => Ok((f.of_integer)(64, signed(32, b))),
            NumericOp::F64ConvertI32U => Ok((f.of_integer)(64, b)),
            NumericOp::I64TruncF64S => within(64, least(64), greatest(64), (f.integral)(64, b)),
            NumericOp::I64TruncF64U => within(64, 0, pow2(64) - 1, (f.integral)(64, b)),
            NumericOp::I64TruncSatF64S => Ok(saturated(64, least(64), greatest(64), (f.integral)(64, b))),
            NumericOp::I64TruncSatF64U => Ok(saturated(64, 0, pow2(64) - 1, (f.integral)(64, b))),
            NumericOp::F64ConvertI64S => Ok((f.of_integer)(64, signed(64, b))),
            NumericOp::F64ConvertI64U => Ok((f.of_integer)(64, b)),
            NumericOp::F64ReinterpretI64 => Ok(b),
            NumericOp::I64ReinterpretF64 => Ok(b),
            NumericOp::F32DemoteF64 => Ok((f.demoted)(b)),
            NumericOp::F64PromoteF32 => Ok((f.promoted)(b)),
        }
    }
}

/// The instructions of each recipe yield the value of the operator.
#[verifier::spinoff_prover]
#[verifier::rlimit(100)]
proof fn lemma_recipe_value(op: NumericOp, f: Floats, a: int, b: int)
    ensures
        ({
            let ty = op.operand_type();
            match op.recipe() {
                NumericRecipe::Unary(u) => {
                    &&& op.value(f, a, b) == Ok::<int, TrapCode>(u.meaning(f, ty, b))
                    &&& op.operand_count() == 1
                    &&& u.spec_result_type(ty) == op.result_type()
                },
                NumericRecipe::Binary(u) => {
                    &&& op.value(f, a, b) == u.meaning(f, ty, a, b)
                    &&& op.operand_count() == 2
                    &&& u.spec_result_type(ty) == op.result_type()
                },
                NumericRecipe::Convert(u, to) => {
                    &&& op.value(f, a, b) == u.meaning(f, ty, to, b)
                    &&& op.operand_count() == 1
                    &&& to == op.result_type()
                },
                NumericRecipe::Reinterpret(to) => {
                    &&& op.value(f, a, b) == Ok::<int, TrapCode>(b)
                    &&& op.operand_count() == 1
                    &&& to == op.result_type()
                },
                NumericRecipe::Compare(cc) => {
                    &&& op.value(f, a, b) == Ok::<int, TrapCode>(
                        compared_integers(cc, ty, a, b),
                    )
                    &&& op.operand_count() == 2
                    &&& ty.spec_as_truthy() == Type::I8
                    &&& op.result_type() == Type::I32
                },
                NumericRecipe::FloatCompare(cc) => {
                    &&& op.value(f, a, b) == Ok::<int, TrapCode>(
                        compared_floats(f, cc, ty, a, b),
                    )
                    &&& op.operand_count() == 2
                    &&& ty.spec_as_truthy() == Type::I8
                    &&& op.result_type() == Type::I32
                },
                NumericRecipe::EqualsZero => {
                    &&& op.value(f, a, b) == Ok::<int, TrapCode>(
                        compared_integers(IntCC::Equal, ty, b, wrap(ty.lane_bits(), 0)),
                    )
                    &&& op.operand_count() == 1
                    &&& ty.spec_as_truthy() == Type::I8
                    &&& op.result_type() == Type::I32
                },
                NumericRecipe::SignExtend(narrow, wide) => {
                    &&& ConvertOp::Ireduce.meaning(f, ty, narrow, b) matches Ok(reduced)
                        && op.value(f, a, b) == ConvertOp::Sextend.meaning(
                        f,
                        narrow,
                        wide,
                        reduced,
                    )
                    &&& op.operand_count() == 1
                    &&& wide == op.result_type()
                },
            }
        }),
{
    lemma_wrap(32, 0);
    lemma_wrap(64, 0);
    lemma_pow2_pos(32);
    lemma_pow2_pos(64);
}

/// The stack after a result has taken the place of operands.
pub proof fn lemma_replaced(
    m: Machine,
    w: World,
    after: World,
    s: Moment,
    t: Moment,
    n: int,
    v: Value,
)
    requires
        ready(w, s, 0),
        0 <= n <= w.st.stack.len(),
        flow(m, w, after, s) == Flow::On(t),
        went_on(t, s),
        runs(t, after.code),
        after.code.has(v),
        after.st == w.st.pop(n).push(v),
    ensures
        goes_on(m, w, after, s, operands_below(w, s, n).push(t.bits(v))),
{
    lemma_all_kept(s, t, w.code, w.st.stack);
    assert(operands(after, t) =~= operands_below(w, s, n).push(t.bits(v))) by {
        assert forall|i: int| 0 <= i < w.st.stack.len() - n implies t.bits(after.st.stack[i])
            == #[trigger] operands_below(w, s, n)[i] by {
            assert(after.st.stack[i] == w.st.stack[i]);
            assert(t.all(w.st.stack)[i] == s.all(w.st.stack)[i]);
        }
    }
    assert forall|i: int| 0 <= i < after.st.stack.len() implies after.code.has(
        #[trigger] after.st.stack[i],
    ) by {
        if i < w.st.stack.len() - n {
            assert(w.code.has(w.st.stack[i]));
        }
    }
}

/// An operator on scalars replaces its operands by the value that WebAssembly gives it, or traps as
/// WebAssembly says, whatever the arithmetic of floats.
#[verifier::rlimit(60)]
pub proof fn numeric_operators_compute(op: NumericOp, m: Machine, w: World, s: Moment)
    requires
        ready(w, s, 2),
        w.st.stack.len() >= op.operand_count(),
        w.code.ty(w.st.peek(0)) == op.operand_type(),
        op.operand_count() == 2 ==> w.code.ty(w.st.peek(1)) == op.operand_type(),
    ensures
        ({
            let after = translated(Operator::Numeric(op), w);
            match op.value(m.floats, operand(w, s, 1), operand(w, s, 0)) {
                Ok(bits) => goes_on(
                    m,
                    w,
                    after,
                    s,
                    operands_below(w, s, op.operand_count()).push(bits),
                ) && after.code.ty(after.st.peek(0)) == op.result_type(),
                Err(code) => flow(m, w, after, s) == Flow::Trapped(code),
            }
        }),
{
    reveal(performed);
    reveal(NumericRecipe::result);
    let f = m.floats;
    let c = w.code;
    let from = c.steps.len();
    let at = Flow::On(s);
    let a = w.st.peek(1);
    let b = w.st.peek(0);
    let x = operand(w, s, 1);
    let y = operand(w, s, 0);
    let after = translated(Operator::Numeric(op), w);
    lemma_recipe_value(op, f, x, y);
    lemma_run_nothing(m, c.steps, from, at);
    assert(c.has(b));
    if op.operand_count() == 2 {
        assert(c.has(a));
    }
    let ty = op.operand_type();
    match op.recipe() {
        NumericRecipe::Unary(u) => {
            let bits = u.meaning(f, ty, y);
            lemma_defined(m, c, Op::Unary { op: u, arg: b }, op.result_type(), from, at, s, bits);
            lemma_replaced(m, w, after, s, s.with(op.result_type(), bits), 1, c.next_value());
        },
        NumericRecipe::Binary(u) => {
            lemma_run_step(m, c.steps, StepModel::Op(Op::Binary { op: u, a, b }), from, at);
            if let Ok(bits) = u.meaning(f, ty, x, y) {
                lemma_defined(
                    m,
                    c,
                    Op::Binary { op: u, a, b },
                    op.result_type(),
                    from,
                    at,
                    s,
                    bits,
                );
                lemma_replaced(m, w, after, s, s.with(op.result_type(), bits), 2, c.next_value());
            }
        },
        NumericRecipe::Convert(u, to) => {
            lemma_run_step(
                m,
                c.steps,
                StepModel::Op(Op::Convert { op: u, ty: to, arg: b }),
                from,
                at,
            );
            if let Ok(bits) = u.meaning(f, ty, to, y) {
                lemma_defined(m, c, Op::Convert { op: u, ty: to, arg: b }, to, from, at, s, bits);
                lemma_replaced(m, w, after, s, s.with(to, bits), 1, c.next_value());
            }
        },
        NumericRecipe::Reinterpret(to) => {
            let flags = MemFlags::spec_new();
            lemma_defined(m, c, Op::Bitcast { ty: to, flags, arg: b }, to, from, at, s, y);
            lemma_replaced(m, w, after, s, s.with(to, y), 1, c.next_value());
        },
        NumericRecipe::Compare(cc) => {
            let bits = compared_integers(cc, ty, x, y);
            lemma_defined(m, c, Op::IntCompare { cc, a, b }, Type::I8, from, at, s, bits);
            lemma_widened(m, c, w, after, s, Op::IntCompare { cc, a, b }, bits, 2);
        },
        NumericRecipe::FloatCompare(cc) => {
            let bits = compared_floats(f, cc, ty, x, y);
            lemma_defined(m, c, Op::FloatCompare { cc, a, b }, Type::I8, from, at, s, bits);
            lemma_widened(m, c, w, after, s, Op::FloatCompare { cc, a, b }, bits, 2);
        },
        NumericRecipe::EqualsZero => {
            let bits = compared_integers(IntCC::Equal, ty, y, wrap(ty.lane_bits(), 0));
            let test = Op::IntCompareImm { cc: IntCC::Equal, arg: b, imm: 0 };
            lemma_defined(m, c, test, Type::I8, from, at, s, bits);
            lemma_widened(m, c, w, after, s, test, bits, 1);
        },
        NumericRecipe::SignExtend(narrow, wide) => {
            let reduced = ConvertOp::Ireduce.meaning(f, ty, narrow, y)->Ok_0;
            let bits = ConvertOp::Sextend.meaning(f, narrow, wide, reduced)->Ok_0;
            let first = Op::Convert { op: ConvertOp::Ireduce, ty: narrow, arg: b };
            let c1 = c.convert(ConvertOp::Ireduce, narrow, b);
            let s1 = s.with(narrow, reduced);
            lemma_defined(m, c, first, narrow, from, at, s, reduced);
            let second = Op::Convert { op: ConvertOp::Sextend, ty: wide, arg: c.next_value() };
            lemma_defined(m, c1, second, wide, from, at, s1, bits);
            lemma_replaced(m, w, after, s, s1.with(wide, bits), 1, c1.next_value());
        },
    }
}

/// A truth value that is widened to 32 bits.
proof fn lemma_widened(
    m: Machine,
    c: Code,
    w: World,
    after: World,
    s: Moment,
    test: Op,
    bits: int,
    n: int,
)
    requires
        ready(w, s, 2),
        0 <= n <= w.st.stack.len(),
        c == w.code,
        run(m, c.defined(test, Type::I8).steps, c.steps.len(), Flow::On(s)) == Flow::On(
            s.with(Type::I8, bits),
        ),
        runs(s.with(Type::I8, bits), c.defined(test, Type::I8)),
        after.code == c.defined(test, Type::I8).convert(
            ConvertOp::Uextend,
            Type::I32,
            c.next_value(),
        ),
        after.st == w.st.pop(n).push(c.defined(test, Type::I8).next_value()),
    ensures
        goes_on(m, w, after, s, operands_below(w, s, n).push(bits)),
        after.code.ty(after.st.peek(0)) == Type::I32,
{
    reveal(performed);
    let c1 = c.defined(test, Type::I8);
    let s1 = s.with(Type::I8, bits);
    let widen = Op::Convert { op: ConvertOp::Uextend, ty: Type::I32, arg: c.next_value() };
    lemma_defined(m, c1, widen, Type::I32, c.steps.len(), Flow::On(s), s1, bits);
    lemma_replaced(m, w, after, s, s1.with(Type::I32, bits), n, c1.next_value());
}

} // verus!
