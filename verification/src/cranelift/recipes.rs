//! Translation of the operators that pop operands and push one result.
use crate::builder::{Code, FunctionBuilder};
use crate::cranelift::env::TranslationEnvironment;
use crate::cranelift::operator::{LaneRecipe, NumericRecipe, VectorRecipe};
use crate::cranelift::state::FuncTranslationState;
use crate::ir::{
    BinaryOp, ConvertOp, FloatCC, IntCC, MemFlags, TernaryOp, Type, UnaryOp, Value,
};
use vstd::prelude::*;

verus! {

/// The flags of bit casts between vectors.
pub open spec fn little_flags() -> MemFlags {
    MemFlags::spec_new().spec_with_little_endian()
}

/// A vector brought to a type: the code and the value.
pub open spec fn brought(code: Code, value: Value, needed_type: Type) -> (Code, Value) {
    if code.ty(value) != needed_type {
        (code.bitcast(needed_type, little_flags(), value), code.next_value())
    } else {
        (code, value)
    }
}

/// Brings a vector to a type, with a bit cast if it has another.
pub fn optionally_bitcast_vector(
    value: Value,
    needed_type: Type,
    builder: &mut FunctionBuilder,
) -> (r: Value)
    requires
        old(builder)@.has(value),
    ensures
        (final(builder)@, r) == brought(old(builder)@, value, needed_type),
        final(builder)@.has(r),
        final(builder)@.ty(r) == needed_type,
        final(builder)@.grew(old(builder)@),
{
    if builder.value_type(value) != needed_type {
        builder.bitcast(needed_type, MemFlags::new().with_little_endian(), value)
    } else {
        value
    }
}

/// The code that brings a value to the type of plain vectors, if it is a vector.
pub open spec fn canonical(code: Code, value: Value) -> (Code, Value) {
    if code.ty(value).spec_is_vector() {
        brought(code, value, Type::I8X16)
    } else {
        (code, value)
    }
}

/// Brings a value to the type of plain vectors, if it is a vector.
pub fn canonicalise(value: Value, builder: &mut FunctionBuilder) -> (r: Value)
    requires
        old(builder)@.has(value),
    ensures
        (final(builder)@, r) == canonical(old(builder)@, value),
        final(builder)@.has(r),
        final(builder)@.grew(old(builder)@),
{
    if builder.value_type(value).is_vector() {
        optionally_bitcast_vector(value, Type::I8X16, builder)
    } else {
        value
    }
}

/// Two vectors brought to a type.
pub open spec fn brought2(code: Code, a: Value, b: Value, ty: Type) -> (Code, Value, Value) {
    let (c1, a1) = brought(code, a, ty);
    let (c2, b1) = brought(c1, b, ty);
    (c2, a1, b1)
}

/// Three vectors brought to a type.
pub open spec fn brought3(code: Code, a: Value, b: Value, c: Value, ty: Type) -> (
    Code,
    Value,
    Value,
    Value,
) {
    let (c1, a1, b1) = brought2(code, a, b, ty);
    let (c2, v1) = brought(c1, c, ty);
    (c2, a1, b1, v1)
}

/// Pops a vector and brings it to a type.
pub fn pop1_with_bitcast(
    state: &mut FuncTranslationState,
    needed_type: Type,
    builder: &mut FunctionBuilder,
) -> (r: Value)
    requires
        old(state)@.stack.len() >= 1,
        old(builder)@.has_all(old(state)@.stack),
    ensures
        final(state)@ == old(state)@.pop(1),
        (final(builder)@, r) == brought(old(builder)@, old(state)@.peek(0), needed_type),
        final(builder)@.has(r),
        final(builder)@.grew(old(builder)@),
        old(state).wf() ==> final(state).wf(),
{
    let v = state.pop1();
    optionally_bitcast_vector(v, needed_type, builder)
}

/// Pops two vectors and brings them to a type.
pub fn pop2_with_bitcast(
    state: &mut FuncTranslationState,
    needed_type: Type,
    builder: &mut FunctionBuilder,
) -> (r: (Value, Value))
    requires
        old(state)@.stack.len() >= 2,
        old(builder)@.has_all(old(state)@.stack),
    ensures
        final(state)@ == old(state)@.pop(2),
        (final(builder)@, r.0, r.1) == brought2(
            old(builder)@,
            old(state)@.peek(1),
            old(state)@.peek(0),
            needed_type,
        ),
        final(builder)@.has(r.0),
        final(builder)@.has(r.1),
        final(builder)@.grew(old(builder)@),
        old(state).wf() ==> final(state).wf(),
{
    let (a, b) = state.pop2();
    let bitcast_a = optionally_bitcast_vector(a, needed_type, builder);
    let bitcast_b = optionally_bitcast_vector(b, needed_type, builder);
    (bitcast_a, bitcast_b)
}

/// Pops three vectors and brings them to a type.
pub fn pop3_with_bitcast(
    state: &mut FuncTranslationState,
    needed_type: Type,
    builder: &mut FunctionBuilder,
) -> (r: (Value, Value, Value))
    requires
        old(state)@.stack.len() >= 3,
        old(builder)@.has_all(old(state)@.stack),
    ensures
        final(state)@ == old(state)@.pop(3),
        (final(builder)@, r.0, r.1, r.2) == brought3(
            old(builder)@,
            old(state)@.peek(2),
            old(state)@.peek(1),
            old(state)@.peek(0),
            needed_type,
        ),
        final(builder)@.has(r.0),
        final(builder)@.has(r.1),
        final(builder)@.has(r.2),
        final(builder)@.grew(old(builder)@),
        old(state).wf() ==> final(state).wf(),
{
    let (a, b, c) = state.pop3();
    let bitcast_a = optionally_bitcast_vector(a, needed_type, builder);
    let bitcast_b = optionally_bitcast_vector(b, needed_type, builder);
    let bitcast_c = optionally_bitcast_vector(c, needed_type, builder);
    (bitcast_a, bitcast_b, bitcast_c)
}

/// A truth value, widened to 32 bits: the code of the last value's widening.
pub open spec fn widened(code: Code, truth: Value) -> (Code, Value) {
    (code.convert(ConvertOp::Uextend, Type::I32, truth), code.next_value())
}

impl NumericRecipe {
    /// The number of operands.
    pub open spec fn arity(self) -> int {
        match self {
            NumericRecipe::Binary(_) | NumericRecipe::Compare(_) | NumericRecipe::FloatCompare(
                _,
            ) => 2,
            _ => 1,
        }
    }

    /// The code for operands `a` and `b`, of which a single operand is `b`, and the result.
    #[verifier::opaque]
    pub open spec fn result(self, code: Code, a: Value, b: Value) -> (Code, Value) {
        match self {
            NumericRecipe::Unary(op) => (code.unary(op, b), code.next_value()),
            NumericRecipe::Binary(op) => (code.binary(op, a, b), code.next_value()),
            NumericRecipe::Convert(op, ty) => (code.convert(op, ty, b), code.next_value()),
            NumericRecipe::Reinterpret(ty) => (
                code.bitcast(ty, MemFlags::spec_new(), b),
                code.next_value(),
            ),
            NumericRecipe::Compare(cc) => widened(code.int_compare(cc, a, b), code.next_value()),
            NumericRecipe::FloatCompare(cc) => widened(
                code.float_compare(cc, a, b),
                code.next_value(),
            ),
            NumericRecipe::EqualsZero => widened(
                code.int_compare_imm(IntCC::Equal, b, 0),
                code.next_value(),
            ),
            NumericRecipe::SignExtend(narrow, wide) => {
                let c1 = code.convert(ConvertOp::Ireduce, narrow, b);
                (c1.convert(ConvertOp::Sextend, wide, code.next_value()), c1.next_value())
            },
        }
    }
}

/// Translates an operator on scalars.
pub fn translate_numeric(
    recipe: NumericRecipe,
    builder: &mut FunctionBuilder,
    state: &mut FuncTranslationState,
)
    requires
        old(state).wf(),
        old(state)@.stack.len() >= recipe.arity(),
        old(builder)@.has_all(old(state)@.stack),
    ensures
        final(state).wf(),
        ({
            let (code, v) = recipe.result(old(builder)@, old(state)@.peek(1), old(state)@.peek(0));
            &&& final(builder)@ == code
            &&& final(state)@ == old(state)@.pop(recipe.arity()).push(v)
        }),
        final(builder)@.grew(old(builder)@),
        final(builder)@.has_all(final(state)@.stack),
{
    proof {
        reveal(NumericRecipe::result);
    }
    let result = match recipe {
        NumericRecipe::Unary(op) => {
            let arg = state.pop1();
            builder.unary(op, arg)
        },
        NumericRecipe::Binary(op) => {
            let (arg1, arg2) = state.pop2();
            builder.binary(op, arg1, arg2)
        },
        NumericRecipe::Convert(op, ty) => {
            let val = state.pop1();
            builder.convert(op, ty, val)
        },
        NumericRecipe::Reinterpret(ty) => {
            let val = state.pop1();
            builder.bitcast(ty, MemFlags::new(), val)
        },
        NumericRecipe::Compare(cc) => {
            let (arg0, arg1) = state.pop2();
            let val = builder.int_compare(cc, arg0, arg1);
            builder.convert(ConvertOp::Uextend, Type::I32, val)
        },
        NumericRecipe::FloatCompare(cc) => {
            let (arg0, arg1) = state.pop2();
            let val = builder.float_compare(cc, arg0, arg1);
            builder.convert(ConvertOp::Uextend, Type::I32, val)
        },
        NumericRecipe::EqualsZero => {
            let arg = state.pop1();
            let val = builder.int_compare_imm(IntCC::Equal, arg, 0);
            builder.convert(ConvertOp::Uextend, Type::I32, val)
        },
        NumericRecipe::SignExtend(narrow, wide) => {
            let val = state.pop1();
            let reduced = builder.convert(ConvertOp::Ireduce, narrow, val);
            builder.convert(ConvertOp::Sextend, wide, reduced)
        },
    };
    state.push1(result);
}

/// Products of all widened lanes, neighbours added: the code and the result.
pub open spec fn dot(code: Code, a: Value, b: Value) -> (Code, Value) {
    let c1 = code.unary(UnaryOp::SwidenLow, a);
    let c2 = c1.unary(UnaryOp::SwidenLow, b);
    let c3 = c2.binary(BinaryOp::Imul, code.next_value(), c1.next_value());
    let c4 = c3.unary(UnaryOp::SwidenHigh, a);
    let c5 = c4.unary(UnaryOp::SwidenHigh, b);
    let c6 = c5.binary(BinaryOp::Imul, c3.next_value(), c4.next_value());
    (
        c6.binary(BinaryOp::IaddPairwise, c2.next_value(), c5.next_value()),
        c6.next_value(),
    )
}

fn emit_dot(a: Value, b: Value, builder: &mut FunctionBuilder) -> (r: Value)
    requires
        old(builder)@.has(a),
        old(builder)@.has(b),
    ensures
        (final(builder)@, r) == dot(old(builder)@, a, b),
        final(builder)@.has(r),
        final(builder)@.grew(old(builder)@),
{
    let alo = builder.unary(UnaryOp::SwidenLow, a);
    let blo = builder.unary(UnaryOp::SwidenLow, b);
    let lo = builder.binary(BinaryOp::Imul, alo, blo);
    let ahi = builder.unary(UnaryOp::SwidenHigh, a);
    let bhi = builder.unary(UnaryOp::SwidenHigh, b);
    let hi = builder.binary(BinaryOp::Imul, ahi, bhi);
    builder.binary(BinaryOp::IaddPairwise, lo, hi)
}

/// The second of two values where a comparison of `x` and `y` holds, else the first.
pub open spec fn pseudo(code: Code, x: Value, y: Value, a: Value, b: Value, ty: Type) -> (
    Code,
    Value,
) {
    let c1 = code.float_compare(FloatCC::LessThan, x, y);
    let (c2, mask) = brought(c1, code.next_value(), ty);
    (c2.ternary(TernaryOp::Bitselect, mask, b, a), c2.next_value())
}

fn emit_pseudo(
    x: Value,
    y: Value,
    a: Value,
    b: Value,
    ty: Type,
    builder: &mut FunctionBuilder,
) -> (r: Value)
    requires
        old(builder)@.has(x),
        old(builder)@.has(y),
        old(builder)@.has(a),
        old(builder)@.has(b),
    ensures
        (final(builder)@, r) == pseudo(old(builder)@, x, y, a, b, ty),
        final(builder)@.has(r),
        final(builder)@.grew(old(builder)@),
{
    let less = builder.float_compare(FloatCC::LessThan, x, y);
    let mask = optionally_bitcast_vector(less, ty, builder);
    builder.ternary(TernaryOp::Bitselect, mask, b, a)
}

/// A converted vector narrowed, with zeros in the upper half.
pub open spec fn narrowed_with_zero(code: Code, converted: Value, narrow: BinaryOp) -> (
    Code,
    Value,
) {
    let c1 = code.vconst(Type::I64X2, 0);
    (c1.binary(narrow, converted, code.next_value()), c1.next_value())
}

fn emit_narrowed_with_zero(converted: Value, narrow: BinaryOp, builder: &mut FunctionBuilder) -> (r:
    Value)
    requires
        old(builder)@.has(converted),
    ensures
        (final(builder)@, r) == narrowed_with_zero(old(builder)@, converted, narrow),
        final(builder)@.has(r),
        final(builder)@.grew(old(builder)@),
{
    let zero = builder.vconst(Type::I64X2, 0);
    builder.binary(narrow, converted, zero)
}

/// A product plus a third value, in one step or in two.
pub open spec fn multiplied_added(code: Code, a: Value, b: Value, c: Value, fused: bool) -> (
    Code,
    Value,
) {
    if fused {
        (code.ternary(TernaryOp::Fma, a, b, c), code.next_value())
    } else {
        let c1 = code.binary(BinaryOp::Fmul, a, b);
        (c1.binary(BinaryOp::Fadd, code.next_value(), c), c1.next_value())
    }
}

fn emit_multiplied_added(a: Value, b: Value, c: Value, fused: bool, builder: &mut FunctionBuilder)
    -> (r: Value)
    requires
        old(builder)@.has(a),
        old(builder)@.has(b),
        old(builder)@.has(c),
    ensures
        (final(builder)@, r) == multiplied_added(old(builder)@, a, b, c, fused),
        final(builder)@.has(r),
        final(builder)@.grew(old(builder)@),
{
    if fused {
        builder.ternary(TernaryOp::Fma, a, b, c)
    } else {
        let product = builder.binary(BinaryOp::Fmul, a, b);
        builder.binary(BinaryOp::Fadd, product, c)
    }
}

/// A dot product of bytes, by one instruction where that is wanted.
pub open spec fn byte_dot(code: Code, a: Value, b: Value, one_instruction: bool) -> (Code, Value) {
    if one_instruction {
        (code.binary(BinaryOp::X86Pmaddubsw, a, b), code.next_value())
    } else {
        dot(code, a, b)
    }
}

fn emit_byte_dot(a: Value, b: Value, one_instruction: bool, builder: &mut FunctionBuilder) -> (r:
    Value)
    requires
        old(builder)@.has(a),
        old(builder)@.has(b),
    ensures
        (final(builder)@, r) == byte_dot(old(builder)@, a, b, one_instruction),
        final(builder)@.has(r),
        final(builder)@.grew(old(builder)@),
{
    if one_instruction {
        builder.binary(BinaryOp::X86Pmaddubsw, a, b)
    } else {
        emit_dot(a, b, builder)
    }
}

impl VectorRecipe {
    /// The number of operands.
    pub open spec fn arity(self) -> int {
        match self {
            VectorRecipe::Binary(_, _)
            | VectorRecipe::Shift(_, _)
            | VectorRecipe::Compare(_, _)
            | VectorRecipe::FloatCompare(_, _)
            | VectorRecipe::PseudoMax(_)
            | VectorRecipe::PseudoMin(_)
            | VectorRecipe::ExtMul(_, _)
            | VectorRecipe::Dot(_)
            | VectorRecipe::RelaxedMax(_)
            | VectorRecipe::RelaxedMin(_)
            | VectorRecipe::RelaxedSwizzle
            | VectorRecipe::RelaxedQ15mulr
            | VectorRecipe::RelaxedDot => 2,
            VectorRecipe::Bitselect
            | VectorRecipe::RelaxedMadd(_)
            | VectorRecipe::RelaxedNmadd(_)
            | VectorRecipe::RelaxedLaneselect(_)
            | VectorRecipe::RelaxedDotAdd => 3,
            _ => 1,
        }
    }

    /// Whether the recipe takes several instructions that depend on each other.
    pub open spec fn is_composite(self) -> bool {
        match self {
            VectorRecipe::PseudoMax(_)
            | VectorRecipe::PseudoMin(_)
            | VectorRecipe::Bitselect
            | VectorRecipe::TruncZero(_, _)
            | VectorRecipe::ExtAddPairwise(_, _, _)
            | VectorRecipe::ExtMul(_, _)
            | VectorRecipe::Dot(_) => true,
            _ => false,
        }
    }

    /// Whether the recipe depends on the target.
    pub open spec fn is_relaxed(self) -> bool {
        match self {
            VectorRecipe::RelaxedMax(_)
            | VectorRecipe::RelaxedMin(_)
            | VectorRecipe::RelaxedSwizzle
            | VectorRecipe::RelaxedMadd(_)
            | VectorRecipe::RelaxedNmadd(_)
            | VectorRecipe::RelaxedLaneselect(_)
            | VectorRecipe::RelaxedTrunc
            | VectorRecipe::RelaxedTruncZero
            | VectorRecipe::RelaxedQ15mulr
            | VectorRecipe::RelaxedDot
            | VectorRecipe::RelaxedDotAdd => true,
            _ => false,
        }
    }

    /// The code for operands `x`, `y` and `z`, of which fewer operands are the last ones, and the
    /// result, for recipes that do not depend on the target.
    #[verifier::opaque]
    pub open spec fn strict_result(self, code: Code, x: Value, y: Value, z: Value) -> (
        Code,
        Value,
    ) {
        match self {
            VectorRecipe::Unary(ty, op) => {
                let (c1, a) = brought(code, z, ty);
                (c1.unary(op, a), c1.next_value())
            },
            VectorRecipe::Binary(ty, op) => {
                let (c1, a, b) = brought2(code, y, z, ty);
                (c1.binary(op, a, b), c1.next_value())
            },
            VectorRecipe::Shift(ty, op) => {
                let (c1, a) = brought(code, y, ty);
                (c1.binary(op, a, z), c1.next_value())
            },
            VectorRecipe::Invert => (code.unary(UnaryOp::Bnot, z), code.next_value()),
            VectorRecipe::SplatReduced(ty) => {
                let c1 = code.convert(ConvertOp::Ireduce, ty.spec_lane_type(), z);
                (c1.convert(ConvertOp::Splat, ty, code.next_value()), c1.next_value())
            },
            VectorRecipe::Splat(ty) => (code.convert(ConvertOp::Splat, ty, z), code.next_value()),
            VectorRecipe::Compare(ty, cc) => {
                let (c1, a, b) = brought2(code, y, z, ty);
                (c1.int_compare(cc, a, b), c1.next_value())
            },
            VectorRecipe::FloatCompare(ty, cc) => {
                let (c1, a, b) = brought2(code, y, z, ty);
                (c1.float_compare(cc, a, b), c1.next_value())
            },
            VectorRecipe::Test(ty, op) => {
                let (c1, a) = brought(code, z, ty);
                widened(c1.unary(op, a), c1.next_value())
            },
            VectorRecipe::Convert(ty, op, to) => {
                let (c1, a) = brought(code, z, ty);
                (c1.convert(op, to, a), c1.next_value())
            },
            VectorRecipe::ConvertLow(widen, op) => {
                let (c1, a) = brought(code, z, Type::I32X4);
                let c2 = c1.unary(widen, a);
                (c2.convert(op, Type::F64X2, c1.next_value()), c2.next_value())
            },
            VectorRecipe::PseudoMax(ty) => {
                let (c1, a, b) = brought2(code, y, z, ty);
                pseudo(c1, a, b, a, b, ty)
            },
            VectorRecipe::PseudoMin(ty) => {
                let (c1, a, b) = brought2(code, y, z, ty);
                pseudo(c1, b, a, a, b, ty)
            },
            VectorRecipe::Bitselect => {
                let (c1, a, b, c) = brought3(code, x, y, z, Type::I8X16);
                (c1.ternary(TernaryOp::Bitselect, c, a, b), c1.next_value())
            },
            VectorRecipe::TruncZero(op, narrow) => {
                let (c1, a) = brought(code, z, Type::F64X2);
                narrowed_with_zero(c1.convert(op, Type::I64X2, a), c1.next_value(), narrow)
            },
            VectorRecipe::ExtAddPairwise(ty, low, high) => {
                let (c1, a) = brought(code, z, ty);
                let c2 = c1.unary(low, a);
                let c3 = c2.unary(high, a);
                (
                    c3.binary(BinaryOp::IaddPairwise, c1.next_value(), c2.next_value()),
                    c3.next_value(),
                )
            },
            VectorRecipe::ExtMul(ty, widen) => {
                let (c1, a, b) = brought2(code, y, z, ty);
                let c2 = c1.unary(widen, a);
                let c3 = c2.unary(widen, b);
                (c3.binary(BinaryOp::Imul, c1.next_value(), c2.next_value()), c3.next_value())
            },
            VectorRecipe::Dot(ty) => {
                let (c1, a, b) = brought2(code, y, z, ty);
                dot(c1, a, b)
            },
            _ => (code, z),
        }
    }

    /// The code for operands `x`, `y` and `z`, of which fewer operands are the last ones, and the
    /// result, for recipes that depend on the target.
    ///
    /// Where the target has an instruction of its own and results may differ between machines,
    /// that is used; otherwise the result is that of the strict operator.
    #[verifier::opaque]
    pub open spec fn relaxed_result(
        self,
        code: Code,
        env: TranslationEnvironment,
        x: Value,
        y: Value,
        z: Value,
    ) -> (Code, Value) {
        let free = !env.relaxed_simd_deterministic;
        match self {
            VectorRecipe::RelaxedMax(ty) => if free && env.isa.is_x86 {
                VectorRecipe::PseudoMax(ty).strict_result(code, x, y, z)
            } else {
                VectorRecipe::Binary(ty, BinaryOp::Fmax).strict_result(code, x, y, z)
            },
            VectorRecipe::RelaxedMin(ty) => if free && env.isa.is_x86 {
                VectorRecipe::PseudoMin(ty).strict_result(code, x, y, z)
            } else {
                VectorRecipe::Binary(ty, BinaryOp::Fmin).strict_result(code, x, y, z)
            },
            VectorRecipe::RelaxedSwizzle => VectorRecipe::Binary(
                Type::I8X16,
                if free && env.isa.has_x86_pshufb {
                    BinaryOp::X86Pshufb
                } else {
                    BinaryOp::Swizzle
                },
            ).strict_result(code, x, y, z),
            VectorRecipe::RelaxedMadd(ty) => {
                let (c1, a, b, c) = brought3(code, x, y, z, ty);
                multiplied_added(c1, a, b, c, !free || env.isa.has_native_fma)
            },
            VectorRecipe::RelaxedNmadd(ty) => {
                let (c1, a, b, c) = brought3(code, x, y, z, ty);
                multiplied_added(
                    c1.unary(UnaryOp::Fneg, a),
                    c1.next_value(),
                    b,
                    c,
                    !free || env.isa.has_native_fma,
                )
            },
            VectorRecipe::RelaxedLaneselect(ty) => {
                let (c1, a, b, c) = brought3(code, x, y, z, ty);
                let op = if free && env.isa.spec_has_x86_blendv_lowering(ty) {
                    TernaryOp::X86Blendv
                } else {
                    TernaryOp::Bitselect
                };
                (c1.ternary(op, c, a, b), c1.next_value())
            },
            VectorRecipe::RelaxedTrunc => VectorRecipe::Convert(
                Type::F32X4,
                if free && env.isa.is_x86 {
                    ConvertOp::X86Cvtt2dq
                } else {
                    ConvertOp::FcvtToSintSat
                },
                Type::I32X4,
            ).strict_result(code, x, y, z),
            VectorRecipe::RelaxedTruncZero => VectorRecipe::TruncZero(
                if free && env.isa.is_x86 {
                    ConvertOp::X86Cvtt2dq
                } else {
                    ConvertOp::FcvtToSintSat
                },
                BinaryOp::Snarrow,
            ).strict_result(code, x, y, z),
            VectorRecipe::RelaxedQ15mulr => VectorRecipe::Binary(
                Type::I16X8,
                if free && env.isa.has_x86_pmulhrsw {
                    BinaryOp::X86Pmulhrsw
                } else {
                    BinaryOp::SqmulRoundSat
                },
            ).strict_result(code, x, y, z),
            VectorRecipe::RelaxedDot => {
                let (c1, a, b) = brought2(code, y, z, Type::I8X16);
                byte_dot(c1, a, b, free && env.isa.has_x86_pmaddubsw)
            },
            VectorRecipe::RelaxedDotAdd => {
                let (c1, c) = brought(code, z, Type::I32X4);
                let (c2, a, b) = brought2(c1, x, y, Type::I8X16);
                let (c3, product) = byte_dot(c2, a, b, free && env.isa.has_x86_pmaddubsw);
                let c4 = c3.unary(UnaryOp::SwidenLow, product);
                let c5 = c4.unary(UnaryOp::SwidenHigh, product);
                let c6 = c5.binary(BinaryOp::IaddPairwise, c3.next_value(), c4.next_value());
                (c6.binary(BinaryOp::Iadd, c5.next_value(), c), c6.next_value())
            },
            _ => (code, z),
        }
    }

    /// The code for operands `x`, `y` and `z`, of which fewer operands are the last ones, and the
    /// result.
    pub open spec fn result(
        self,
        code: Code,
        env: TranslationEnvironment,
        x: Value,
        y: Value,
        z: Value,
    ) -> (Code, Value) {
        if self.is_relaxed() {
            self.relaxed_result(code, env, x, y, z)
        } else {
            self.strict_result(code, x, y, z)
        }
    }
}

/// Pops the operands of a recipe of several instructions, and computes its result.
#[verifier::rlimit(60)]
fn compute_composite(
    recipe: VectorRecipe,
    builder: &mut FunctionBuilder,
    state: &mut FuncTranslationState,
) -> (r: Value)
    requires
        old(state).wf(),
        recipe.is_composite(),
        old(state)@.stack.len() >= recipe.arity(),
        old(builder)@.has_all(old(state)@.stack),
    ensures
        final(state).wf(),
        (final(builder)@, r) == recipe.strict_result(
            old(builder)@,
            old(state)@.peek(2),
            old(state)@.peek(1),
            old(state)@.peek(0),
        ),
        final(state)@ == old(state)@.pop(recipe.arity()),
        final(builder)@.grew(old(builder)@),
        final(builder)@.has(r),
{
    proof {
        reveal(VectorRecipe::strict_result);
    }
    match recipe {
        VectorRecipe::PseudoMax(ty) => {
            let (a, b) = pop2_with_bitcast(state, ty, builder);
            emit_pseudo(a, b, a, b, ty, builder)
        },
        VectorRecipe::PseudoMin(ty) => {
            let (a, b) = pop2_with_bitcast(state, ty, builder);
            emit_pseudo(b, a, a, b, ty, builder)
        },
        VectorRecipe::Bitselect => {
            let (a, b, c) = pop3_with_bitcast(state, Type::I8X16, builder);
            builder.ternary(TernaryOp::Bitselect, c, a, b)
        },
        VectorRecipe::TruncZero(op, narrow) => {
            let a = pop1_with_bitcast(state, Type::F64X2, builder);
            let converted = builder.convert(op, Type::I64X2, a);
            emit_narrowed_with_zero(converted, narrow, builder)
        },
        VectorRecipe::ExtAddPairwise(ty, low, high) => {
            let a = pop1_with_bitcast(state, ty, builder);
            let widen_low = builder.unary(low, a);
            let widen_high = builder.unary(high, a);
            builder.binary(BinaryOp::IaddPairwise, widen_low, widen_high)
        },
        VectorRecipe::ExtMul(ty, widen) => {
            let (a, b) = pop2_with_bitcast(state, ty, builder);
            let wide_a = builder.unary(widen, a);
            let wide_b = builder.unary(widen, b);
            builder.binary(BinaryOp::Imul, wide_a, wide_b)
        },
        VectorRecipe::Dot(ty) => {
            let (a, b) = pop2_with_bitcast(state, ty, builder);
            emit_dot(a, b, builder)
        },
        _ => {
            assert(false);
            Value(0)
        },
    }
}

/// Pops the operands of a recipe that does not depend on the target, and computes its result.
#[verifier::rlimit(60)]
fn compute_strict(
    recipe: VectorRecipe,
    builder: &mut FunctionBuilder,
    state: &mut FuncTranslationState,
) -> (r: Value)
    requires
        old(state).wf(),
        !recipe.is_relaxed(),
        old(state)@.stack.len() >= recipe.arity(),
        old(builder)@.has_all(old(state)@.stack),
    ensures
        final(state).wf(),
        (final(builder)@, r) == recipe.strict_result(
            old(builder)@,
            old(state)@.peek(2),
            old(state)@.peek(1),
            old(state)@.peek(0),
        ),
        final(state)@ == old(state)@.pop(recipe.arity()),
        final(builder)@.grew(old(builder)@),
        final(builder)@.has(r),
{
    proof {
        reveal(VectorRecipe::strict_result);
    }
    match recipe {
        VectorRecipe::Unary(ty, op) => {
            let a = pop1_with_bitcast(state, ty, builder);
            builder.unary(op, a)
        },
        VectorRecipe::Binary(ty, op) => {
            let (a, b) = pop2_with_bitcast(state, ty, builder);
            builder.binary(op, a, b)
        },
        VectorRecipe::Shift(ty, op) => {
            let (a, b) = state.pop2();
            let bitcast_a = optionally_bitcast_vector(a, ty, builder);
            builder.binary(op, bitcast_a, b)
        },
        VectorRecipe::Invert => {
            let a = state.pop1();
            builder.unary(UnaryOp::Bnot, a)
        },
        VectorRecipe::SplatReduced(ty) => {
            let a = state.pop1();
            let reduced = builder.convert(ConvertOp::Ireduce, ty.lane_type(), a);
            builder.convert(ConvertOp::Splat, ty, reduced)
        },
        VectorRecipe::Splat(ty) => {
            let a = state.pop1();
            builder.convert(ConvertOp::Splat, ty, a)
        },
        VectorRecipe::Compare(ty, cc) => {
            let (a, b) = pop2_with_bitcast(state, ty, builder);
            builder.int_compare(cc, a, b)
        },
        VectorRecipe::FloatCompare(ty, cc) => {
            let (a, b) = pop2_with_bitcast(state, ty, builder);
            builder.float_compare(cc, a, b)
        },
        VectorRecipe::Test(ty, op) => {
            let a = pop1_with_bitcast(state, ty, builder);
            let truth = builder.unary(op, a);
            builder.convert(ConvertOp::Uextend, Type::I32, truth)
        },
        VectorRecipe::Convert(ty, op, to) => {
            let a = pop1_with_bitcast(state, ty, builder);
            builder.convert(op, to, a)
        },
        VectorRecipe::ConvertLow(widen, op) => {
            let a = pop1_with_bitcast(state, Type::I32X4, builder);
            let widened_a = builder.unary(widen, a);
            builder.convert(op, Type::F64X2, widened_a)
        },
        other => compute_composite(other, builder, state),
    }
}

/// Pops the operands of a recipe that depends on the target, and computes its result.
#[verifier::rlimit(60)]
fn compute_relaxed(
    recipe: VectorRecipe,
    builder: &mut FunctionBuilder,
    state: &mut FuncTranslationState,
    env: &TranslationEnvironment,
) -> (r: Value)
    requires
        old(state).wf(),
        recipe.is_relaxed(),
        old(state)@.stack.len() >= recipe.arity(),
        old(builder)@.has_all(old(state)@.stack),
    ensures
        final(state).wf(),
        (final(builder)@, r) == recipe.relaxed_result(
            old(builder)@,
            *env,
            old(state)@.peek(2),
            old(state)@.peek(1),
            old(state)@.peek(0),
        ),
        final(state)@ == old(state)@.pop(recipe.arity()),
        final(builder)@.grew(old(builder)@),
        final(builder)@.has(r),
{
    proof {
        reveal(VectorRecipe::relaxed_result);
    }
    let free = !env.relaxed_simd_deterministic();
    match recipe {
        VectorRecipe::RelaxedMax(ty) => {
            if free && env.is_x86() {
                compute_strict(VectorRecipe::PseudoMax(ty), builder, state)
            } else {
                compute_strict(VectorRecipe::Binary(ty, BinaryOp::Fmax), builder, state)
            }
        },
        VectorRecipe::RelaxedMin(ty) => {
            if free && env.is_x86() {
                compute_strict(VectorRecipe::PseudoMin(ty), builder, state)
            } else {
                compute_strict(VectorRecipe::Binary(ty, BinaryOp::Fmin), builder, state)
            }
        },
        VectorRecipe::RelaxedSwizzle => {
            let op = if free && env.use_x86_pshufb_for_relaxed_swizzle() {
                BinaryOp::X86Pshufb
            } else {
                BinaryOp::Swizzle
            };
            compute_strict(VectorRecipe::Binary(Type::I8X16, op), builder, state)
        },
        VectorRecipe::RelaxedMadd(ty) => {
            let (a, b, c) = pop3_with_bitcast(state, ty, builder);
            emit_multiplied_added(a, b, c, !free || env.has_native_fma(), builder)
        },
        VectorRecipe::RelaxedNmadd(ty) => {
            let (a, b, c) = pop3_with_bitcast(state, ty, builder);
            let negated = builder.unary(UnaryOp::Fneg, a);
            emit_multiplied_added(negated, b, c, !free || env.has_native_fma(), builder)
        },
        VectorRecipe::RelaxedLaneselect(ty) => {
            let (a, b, c) = pop3_with_bitcast(state, ty, builder);
            let op = if free && env.use_x86_blendv_for_relaxed_laneselect(ty) {
                TernaryOp::X86Blendv
            } else {
                TernaryOp::Bitselect
            };
            builder.ternary(op, c, a, b)
        },
        VectorRecipe::RelaxedTrunc => {
            let op = if free && env.is_x86() {
                ConvertOp::X86Cvtt2dq
            } else {
                ConvertOp::FcvtToSintSat
            };
            compute_strict(VectorRecipe::Convert(Type::F32X4, op, Type::I32X4), builder, state)
        },
        VectorRecipe::RelaxedTruncZero => {
            let op = if free && env.is_x86() {
                ConvertOp::X86Cvtt2dq
            } else {
                ConvertOp::FcvtToSintSat
            };
            compute_strict(VectorRecipe::TruncZero(op, BinaryOp::Snarrow), builder, state)
        },
        VectorRecipe::RelaxedQ15mulr => {
            let op = if free && env.use_x86_pmulhrsw_for_relaxed_q15mul() {
                BinaryOp::X86Pmulhrsw
            } else {
                BinaryOp::SqmulRoundSat
            };
            compute_strict(VectorRecipe::Binary(Type::I16X8, op), builder, state)
        },
        VectorRecipe::RelaxedDot => {
            let (a, b) = pop2_with_bitcast(state, Type::I8X16, builder);
            emit_byte_dot(a, b, free && env.use_x86_pmaddubsw_for_dot(), builder)
        },
        VectorRecipe::RelaxedDotAdd => {
            let c = pop1_with_bitcast(state, Type::I32X4, builder);
            let ghost middle = state@;
            assert(middle.peek(1) == old(state)@.peek(2));
            assert(middle.peek(0) == old(state)@.peek(1));
            let (a, b) = pop2_with_bitcast(state, Type::I8X16, builder);
            assert(state@.stack =~= old(state)@.pop(3).stack);
            let product = emit_byte_dot(
                a,
                b,
                free && env.use_x86_pmaddubsw_for_dot(),
                builder,
            );
            let dotlo = builder.unary(UnaryOp::SwidenLow, product);
            let dothi = builder.unary(UnaryOp::SwidenHigh, product);
            let dot32 = builder.binary(BinaryOp::IaddPairwise, dotlo, dothi);
            builder.binary(BinaryOp::Iadd, dot32, c)
        },
        _ => {
            assert(false);
            Value(0)
        },
    }
}

/// Whether a recipe depends on the target.
fn is_relaxed(recipe: VectorRecipe) -> (r: bool)
    ensures
        r == recipe.is_relaxed(),
{
    match recipe {
        VectorRecipe::RelaxedMax(_)
        | VectorRecipe::RelaxedMin(_)
        | VectorRecipe::RelaxedSwizzle
        | VectorRecipe::RelaxedMadd(_)
        | VectorRecipe::RelaxedNmadd(_)
        | VectorRecipe::RelaxedLaneselect(_)
        | VectorRecipe::RelaxedTrunc
        | VectorRecipe::RelaxedTruncZero
        | VectorRecipe::RelaxedQ15mulr
        | VectorRecipe::RelaxedDot
        | VectorRecipe::RelaxedDotAdd => true,
        _ => false,
    }
}

/// Translates an operator on vectors.
pub fn translate_vector(
    recipe: VectorRecipe,
    builder: &mut FunctionBuilder,
    state: &mut FuncTranslationState,
    env: &TranslationEnvironment,
)
    requires
        old(state).wf(),
        old(state)@.stack.len() >= recipe.arity(),
        old(builder)@.has_all(old(state)@.stack),
    ensures
        final(state).wf(),
        ({
            let (code, v) = recipe.result(
                old(builder)@,
                *env,
                old(state)@.peek(2),
                old(state)@.peek(1),
                old(state)@.peek(0),
            );
            &&& final(builder)@ == code
            &&& final(state)@ == old(state)@.pop(recipe.arity()).push(v)
        }),
        final(builder)@.grew(old(builder)@),
        final(builder)@.has_all(final(state)@.stack),
{
    let result = if is_relaxed(recipe) {
        compute_relaxed(recipe, builder, state, env)
    } else {
        compute_strict(recipe, builder, state)
    };
    state.push1(result);
}

impl LaneRecipe {
    /// The number of operands.
    pub open spec fn arity(self) -> int {
        match self {
            LaneRecipe::ReplaceReduced(_) | LaneRecipe::Replace(_) => 2,
            _ => 1,
        }
    }

    /// The code for operands `a` and `b`, of which a single operand is `b`, and the result.
    #[verifier::opaque]
    pub open spec fn result(self, code: Code, a: Value, b: Value, lane: u8) -> (Code, Value) {
        match self {
            LaneRecipe::ExtractExtend(ty, op) => {
                let (c1, v) = brought(code, b, ty);
                let c2 = c1.extract_lane(v, lane);
                (c2.convert(op, Type::I32, c1.next_value()), c2.next_value())
            },
            LaneRecipe::Extract(ty) => {
                let (c1, v) = brought(code, b, ty);
                (c1.extract_lane(v, lane), c1.next_value())
            },
            LaneRecipe::ReplaceReduced(ty) => {
                let c1 = code.convert(ConvertOp::Ireduce, ty.spec_lane_type(), b);
                let (c2, v) = brought(c1, a, ty);
                (c2.insert_lane(v, code.next_value(), lane), c2.next_value())
            },
            LaneRecipe::Replace(ty) => {
                let (c1, v) = brought(code, a, ty);
                (c1.insert_lane(v, b, lane), c1.next_value())
            },
        }
    }
}

/// Translates an operator on one lane.
pub fn translate_lane(
    recipe: LaneRecipe,
    lane: u8,
    builder: &mut FunctionBuilder,
    state: &mut FuncTranslationState,
)
    requires
        old(state).wf(),
        old(state)@.stack.len() >= recipe.arity(),
        old(builder)@.has_all(old(state)@.stack),
    ensures
        final(state).wf(),
        ({
            let (code, v) = recipe.result(
                old(builder)@,
                old(state)@.peek(1),
                old(state)@.peek(0),
                lane,
            );
            &&& final(builder)@ == code
            &&& final(state)@ == old(state)@.pop(recipe.arity()).push(v)
        }),
        final(builder)@.grew(old(builder)@),
        final(builder)@.has_all(final(state)@.stack),
{
    proof {
        reveal(LaneRecipe::result);
    }
    let result = match recipe {
        LaneRecipe::ExtractExtend(ty, op) => {
            let vector = pop1_with_bitcast(state, ty, builder);
            let extracted = builder.extract_lane(vector, lane);
            builder.convert(op, Type::I32, extracted)
        },
        LaneRecipe::Extract(ty) => {
            let vector = pop1_with_bitcast(state, ty, builder);
            builder.extract_lane(vector, lane)
        },
        LaneRecipe::ReplaceReduced(ty) => {
            let (vector, replacement) = state.pop2();
            let reduced = builder.convert(ConvertOp::Ireduce, ty.lane_type(), replacement);
            let vector = optionally_bitcast_vector(vector, ty, builder);
            builder.insert_lane(vector, reduced, lane)
        },
        LaneRecipe::Replace(ty) => {
            let (vector, replacement) = state.pop2();
            let vector = optionally_bitcast_vector(vector, ty, builder);
            builder.insert_lane(vector, replacement, lane)
        },
    };
    state.push1(result);
}

} // verus!
