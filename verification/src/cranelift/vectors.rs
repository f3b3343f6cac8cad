//! What operators on vectors compute.
use crate::builder::Code;
use crate::cranelift::addresses::lemma_wrapped_sum;
use crate::cranelift::bits::{
    both, clamped, count, differing, either, greatest, inverted, is_pattern, joined, lane, lanes,
    least, lemma_lane_of_joined, lemma_wrap, magnitude, ones, shifted_down, shifted_down_signed,
    shifted_up, signed, truth, wrap,
};
use crate::cranelift::code_translator::translated;
use crate::cranelift::meaning::{
    compared_floats, compared_integers, lemma_run_nothing, mask, negated, performed, run, runs,
    saturated, unsigned, went_on, Floats, Flow, Integral, Machine, Moment,
};
use crate::cranelift::numbers::lemma_replaced;
use crate::cranelift::operator::{LaneOp, LaneRecipe, Operator, VectorOp, VectorRecipe};
use crate::cranelift::recipes::{brought, brought2, brought3, dot, pseudo};
use crate::cranelift::simulation::{
    goes_on, lemma_brought, lemma_defined, operand, operands_below, ready,
};
use crate::cranelift::world::World;
use crate::ir::{BinaryOp, ConvertOp, FloatCC, IntCC, Op, TernaryOp, Type, UnaryOp, Value};
use vstd::arithmetic::power2::pow2;
use vstd::prelude::*;

verus! {

/// One of two values, the first where a condition holds.
pub open spec fn lesser(holds: bool, a: int, b: int) -> int {
    if holds {
        a
    } else {
        b
    }
}

/// A lane of two vectors, of which the second one's lanes are numbered behind the first one's.
pub open spec fn lane_of_two(n: nat, a: int, b: int, i: int) -> int {
    if i < count(n) {
        lane(n, a, i)
    } else {
        lane(n, b, i - count(n))
    }
}

/// The sum of two neighbouring products of bytes.
pub open spec fn dotted(a: int, b: int, i: int) -> int {
    wrap(
        16,
        signed(8, lane(8, a, 2 * i)) * signed(8, lane(8, b, 2 * i)) + signed(
            8,
            lane(8, a, 2 * i + 1),
        ) * signed(8, lane(8, b, 2 * i + 1)),
    )
}

impl VectorOp {
    /// The width of the lanes of the result.
    pub open spec fn lane_width(self) -> nat {
        match self {
            VectorOp::I8x16Add | VectorOp::I8x16Sub | VectorOp::I8x16Neg | VectorOp::I8x16Abs |
            VectorOp::I8x16Shl | VectorOp::I8x16ShrU | VectorOp::I8x16ShrS |
            VectorOp::I8x16AddSatS | VectorOp::I8x16AddSatU | VectorOp::I8x16SubSatS |
            VectorOp::I8x16SubSatU | VectorOp::I8x16AvgrU | VectorOp::I8x16MinS |
            VectorOp::I8x16MinU | VectorOp::I8x16MaxS | VectorOp::I8x16MaxU | VectorOp::I8x16Eq
            | VectorOp::I8x16Ne | VectorOp::I8x16GtS | VectorOp::I8x16LtS | VectorOp::I8x16GeS |
            VectorOp::I8x16LeS | VectorOp::I8x16GtU | VectorOp::I8x16LtU | VectorOp::I8x16GeU |
            VectorOp::I8x16LeU | VectorOp::V128Or | VectorOp::V128Xor | VectorOp::V128And |
            VectorOp::V128AndNot | VectorOp::V128Bitselect | VectorOp::I8x16Swizzle |
            VectorOp::I8x16Popcnt | VectorOp::I8x16Splat | VectorOp::I8x16NarrowI16x8S |
            VectorOp::I8x16NarrowI16x8U | VectorOp::I8x16RelaxedLaneselect |
            VectorOp::I8x16RelaxedSwizzle => 8,
            VectorOp::I16x8Add | VectorOp::I16x8Sub | VectorOp::I16x8Mul | VectorOp::I16x8Neg |
            VectorOp::I16x8Abs | VectorOp::I16x8Shl | VectorOp::I16x8ShrU | VectorOp::I16x8ShrS
            | VectorOp::I16x8AddSatS | VectorOp::I16x8AddSatU | VectorOp::I16x8SubSatS |
            VectorOp::I16x8SubSatU | VectorOp::I16x8AvgrU | VectorOp::I16x8MinS |
            VectorOp::I16x8MinU | VectorOp::I16x8MaxS | VectorOp::I16x8MaxU | VectorOp::I16x8Eq
            | VectorOp::I16x8Ne | VectorOp::I16x8GtS | VectorOp::I16x8LtS | VectorOp::I16x8GeS |
            VectorOp::I16x8LeS | VectorOp::I16x8GtU | VectorOp::I16x8LtU | VectorOp::I16x8GeU |
            VectorOp::I16x8LeU | VectorOp::I16x8Splat | VectorOp::I16x8NarrowI32x4S |
            VectorOp::I16x8NarrowI32x4U | VectorOp::I16x8ExtendLowI8x16S |
            VectorOp::I16x8ExtendHighI8x16S | VectorOp::I16x8ExtendLowI8x16U |
            VectorOp::I16x8ExtendHighI8x16U | VectorOp::I16x8ExtMulLowI8x16S |
            VectorOp::I16x8ExtMulHighI8x16S | VectorOp::I16x8ExtMulLowI8x16U |
            VectorOp::I16x8ExtMulHighI8x16U | VectorOp::I16x8ExtAddPairwiseI8x16S |
            VectorOp::I16x8ExtAddPairwiseI8x16U | VectorOp::I16x8Q15MulrSatS |
            VectorOp::I16x8RelaxedLaneselect | VectorOp::I16x8RelaxedQ15mulrS |
            VectorOp::I16x8RelaxedDotI8x16I7x16S => 16,
            VectorOp::I32x4Add | VectorOp::I32x4Sub | VectorOp::I32x4Mul | VectorOp::I32x4Neg |
            VectorOp::I32x4Abs | VectorOp::I32x4Shl | VectorOp::I32x4ShrU | VectorOp::I32x4ShrS
            | VectorOp::I32x4MinS | VectorOp::I32x4MinU | VectorOp::I32x4MaxS |
            VectorOp::I32x4MaxU | VectorOp::I32x4Eq | VectorOp::I32x4Ne | VectorOp::I32x4GtS |
            VectorOp::I32x4LtS | VectorOp::I32x4GeS | VectorOp::I32x4LeS | VectorOp::I32x4GtU |
            VectorOp::I32x4LtU | VectorOp::I32x4GeU | VectorOp::I32x4LeU | VectorOp::F32x4Eq |
            VectorOp::F32x4Ne | VectorOp::F32x4Lt | VectorOp::F32x4Gt | VectorOp::F32x4Le |
            VectorOp::F32x4Ge | VectorOp::F32x4Add | VectorOp::F32x4Sub | VectorOp::F32x4Mul |
            VectorOp::F32x4Div | VectorOp::F32x4Max | VectorOp::F32x4Min | VectorOp::F32x4PMax |
            VectorOp::F32x4PMin | VectorOp::F32x4Sqrt | VectorOp::F32x4Ceil |
            VectorOp::F32x4Floor | VectorOp::F32x4Trunc | VectorOp::F32x4Nearest |
            VectorOp::F32x4Neg | VectorOp::F32x4Abs | VectorOp::I32x4Splat |
            VectorOp::F32x4Splat | VectorOp::F32x4ConvertI32x4S | VectorOp::F32x4ConvertI32x4U |
            VectorOp::F32x4DemoteF64x2Zero | VectorOp::I32x4TruncSatF32x4S |
            VectorOp::I32x4TruncSatF32x4U | VectorOp::I32x4TruncSatF64x2SZero |
            VectorOp::I32x4TruncSatF64x2UZero | VectorOp::I32x4ExtendLowI16x8S |
            VectorOp::I32x4ExtendHighI16x8S | VectorOp::I32x4ExtendLowI16x8U |
            VectorOp::I32x4ExtendHighI16x8U | VectorOp::I32x4ExtMulLowI16x8S |
            VectorOp::I32x4ExtMulHighI16x8S | VectorOp::I32x4ExtMulLowI16x8U |
            VectorOp::I32x4ExtMulHighI16x8U | VectorOp::I32x4ExtAddPairwiseI16x8S |
            VectorOp::I32x4ExtAddPairwiseI16x8U | VectorOp::I32x4DotI16x8S |
            VectorOp::F32x4RelaxedMax | VectorOp::F32x4RelaxedMin | VectorOp::F32x4RelaxedMadd |
            VectorOp::F32x4RelaxedNmadd | VectorOp::I32x4RelaxedLaneselect |
            VectorOp::I32x4RelaxedTruncF32x4S | VectorOp::I32x4RelaxedTruncF32x4U |
            VectorOp::I32x4RelaxedTruncF64x2SZero | VectorOp::I32x4RelaxedTruncF64x2UZero |
            VectorOp::I32x4RelaxedDotI8x16I7x16AddS => 32,
            _ => 64,
        }
    }

    /// A lane of the result for operands `x`, `y` and `z`, of which fewer operands are the last
    /// ones, where the result is made of lanes.
    pub open spec fn lane_value(self, f: Floats, x: int, y: int, z: int, i: int) -> int {
        match self {
            VectorOp::I8x16Add => wrap(8, lane(8, y, i) + lane(8, z, i)),
            VectorOp::I8x16Sub => wrap(8, lane(8, y, i) - lane(8, z, i)),
            VectorOp::I8x16Neg => wrap(8, -lane(8, z, i)),
            VectorOp::I8x16Abs => wrap(8, magnitude(signed(8, lane(8, z, i)))),
            VectorOp::I8x16Shl => shifted_up(8, lane(8, y, i), z),
            VectorOp::I8x16ShrU => shifted_down(8, lane(8, y, i), z),
            VectorOp::I8x16ShrS => shifted_down_signed(8, lane(8, y, i), z),
            VectorOp::I8x16AddSatS => wrap(8, clamped(least(8), greatest(8), signed(8, lane(8, y, i)) + signed(8, lane(8, z, i)))),
            VectorOp::I8x16AddSatU => clamped(0, pow2(8) - 1, lane(8, y, i) + lane(8, z, i)),
            VectorOp::I8x16SubSatS => wrap(8, clamped(least(8), greatest(8), signed(8, lane(8, y, i)) - signed(8, lane(8, z, i)))),
            VectorOp::I8x16SubSatU => clamped(0, pow2(8) - 1, lane(8, y, i) - lane(8, z, i)),
            VectorOp::I8x16AvgrU => (lane(8, y, i) + lane(8, z, i) + 1) / 2,
            VectorOp::I8x16MinS => lesser(signed(8, lane(8, y, i)) < signed(8, lane(8, z, i)), lane(8, y, i), lane(8, z, i)),
            VectorOp::I8x16MinU => lesser(lane(8, y, i) < lane(8, z, i), lane(8, y, i), lane(8, z, i)),
            VectorOp::I8x16MaxS => lesser(signed(8, lane(8, y, i)) > signed(8, lane(8, z, i)), lane(8, y, i), lane(8, z, i)),
            VectorOp::I8x16MaxU => lesser(lane(8, y, i) > lane(8, z, i), lane(8, y, i), lane(8, z, i)),
            VectorOp::I8x16Eq => mask(8, lane(8, y, i) == lane(8, z, i)),
            VectorOp::I8x16Ne => mask(8, lane(8, y, i) != lane(8, z, i)),
            VectorOp::I8x16GtS => mask(8, signed(8, lane(8, y, i)) > signed(8, lane(8, z, i))),
            VectorOp::I8x16LtS => mask(8, signed(8, lane(8, y, i)) < signed(8, lane(8, z, i))),
            VectorOp::I8x16GeS => mask(8, signed(8, lane(8, y, i)) >= signed(8, lane(8, z, i))),
            VectorOp::I8x16LeS => mask(8, signed(8, lane(8, y, i)) <= signed(8, lane(8, z, i))),
            VectorOp::I8x16GtU => mask(8, lane(8, y, i) > lane(8, z, i)),
            VectorOp::I8x16LtU => mask(8, lane(8, y, i) < lane(8, z, i)),
            VectorOp::I8x16GeU => mask(8, lane(8, y, i) >= lane(8, z, i)),
            VectorOp::I8x16LeU => mask(8, lane(8, y, i) <= lane(8, z, i)),
            VectorOp::I16x8Add => wrap(16, lane(16, y, i) + lane(16, z, i)),
            VectorOp::I16x8Sub => wrap(16, lane(16, y, i) - lane(16, z, i)),
            VectorOp::I16x8Mul => wrap(16, lane(16, y, i) * lane(16, z, i)),
            VectorOp::I16x8Neg => wrap(16, -lane(16, z, i)),
            VectorOp::I16x8Abs => wrap(16, magnitude(signed(16, lane(16, z, i)))),
            VectorOp::I16x8Shl => shifted_up(16, lane(16, y, i), z),
            VectorOp::I16x8ShrU => shifted_down(16, lane(16, y, i), z),
            VectorOp::I16x8ShrS => shifted_down_signed(16, lane(16, y, i), z),
            VectorOp::I16x8AddSatS => wrap(16, clamped(least(16), greatest(16), signed(16, lane(16, y, i)) + signed(16, lane(16, z, i)))),
            VectorOp::I16x8AddSatU => clamped(0, pow2(16) - 1, lane(16, y, i) + lane(16, z, i)),
            VectorOp::I16x8SubSatS => wrap(16, clamped(least(16), greatest(16), signed(16, lane(16, y, i)) - signed(16, lane(16, z, i)))),
            VectorOp::I16x8SubSatU => clamped(0, pow2(16) - 1, lane(16, y, i) - lane(16, z, i)),
            VectorOp::I16x8AvgrU => (lane(16, y, i) + lane(16, z, i) + 1) / 2,
            VectorOp::I16x8MinS => lesser(signed(16, lane(16, y, i)) < signed(16, lane(16, z, i)), lane(16, y, i), lane(16, z, i)),
            VectorOp::I16x8MinU => lesser(lane(16, y, i) < lane(16, z, i), lane(16, y, i), lane(16, z, i)),
            VectorOp::I16x8MaxS => lesser(signed(16, lane(16, y, i)) > signed(16, lane(16, z, i)), lane(16, y, i), lane(16, z, i)),
            VectorOp::I16x8MaxU => lesser(lane(16, y, i) > lane(16, z, i), lane(16, y, i), lane(16, z, i)),
            VectorOp::I16x8Eq => mask(16, lane(16, y, i) == lane(16, z, i)),
            VectorOp::I16x8Ne => mask(16, lane(16, y, i) != lane(16, z, i)),
            VectorOp::I16x8GtS => mask(16, signed(16, lane(16, y, i)) > signed(16, lane(16, z, i))),
            VectorOp::I16x8LtS => mask(16, signed(16, lane(16, y, i)) < signed(16, lane(16, z, i))),
            VectorOp::I16x8GeS => mask(16, signed(16, lane(16, y, i)) >= signed(16, lane(16, z, i))),
            VectorOp::I16x8LeS => mask(16, signed(16, lane(16, y, i)) <= signed(16, lane(16, z, i))),
            VectorOp::I16x8GtU => mask(16, lane(16, y, i) > lane(16, z, i)),
            VectorOp::I16x8LtU => mask(16, lane(16, y, i) < lane(16, z, i)),
            VectorOp::I16x8GeU => mask(16, lane(16, y, i) >= lane(16, z, i)),
            VectorOp::I16x8LeU => mask(16, lane(16, y, i) <= lane(16, z, i)),
            VectorOp::I32x4Add => wrap(32, lane(32, y, i) + lane(32, z, i)),
            VectorOp::I32x4Sub => wrap(32, lane(32, y, i) - lane(32, z, i)),
            VectorOp::I32x4Mul => wrap(32, lane(32, y, i) * lane(32, z, i)),
            VectorOp::I32x4Neg => wrap(32, -lane(32, z, i)),
            VectorOp::I32x4Abs => wrap(32, magnitude(signed(32, lane(32, z, i)))),
            VectorOp::I32x4Shl => shifted_up(32, lane(32, y, i), z),
            VectorOp::I32x4ShrU => shifted_down(32, lane(32, y, i), z),
            VectorOp::I32x4ShrS => shifted_down_signed(32, lane(32, y, i), z),
            VectorOp::I32x4MinS => lesser(signed(32, lane(32, y, i)) < signed(32, lane(32, z, i)), lane(32, y, i), lane(32, z, i)),
            VectorOp::I32x4MinU => lesser(lane(32, y, i) < lane(32, z, i), lane(32, y, i), lane(32, z, i)),
            VectorOp::I32x4MaxS => lesser(signed(32, lane(32, y, i)) > signed(32, lane(32, z, i)), lane(32, y, i), lane(32, z, i)),
            VectorOp::I32x4MaxU => lesser(lane(32, y, i) > lane(32, z, i), lane(32, y, i), lane(32, z, i)),
            VectorOp::I32x4Eq => mask(32, lane(32, y, i) == lane(32, z, i)),
            VectorOp::I32x4Ne => mask(32, lane(32, y, i) != lane(32, z, i)),
            VectorOp::I32x4GtS => mask(32, signed(32, lane(32, y, i)) > signed(32, lane(32, z, i))),
            VectorOp::I32x4LtS => mask(32, signed(32, lane(32, y, i)) < signed(32, lane(32, z, i))),
            VectorOp::I32x4GeS => mask(32, signed(32, lane(32, y, i)) >= signed(32, lane(32, z, i))),
            VectorOp::I32x4LeS => mask(32, signed(32, lane(32, y, i)) <= signed(32, lane(32, z, i))),
            VectorOp::I32x4GtU => mask(32, lane(32, y, i) > lane(32, z, i)),
            VectorOp::I32x4LtU => mask(32, lane(32, y, i) < lane(32, z, i)),
            VectorOp::I32x4GeU => mask(32, lane(32, y, i) >= lane(32, z, i)),
            VectorOp::I32x4LeU => mask(32, lane(32, y, i) <= lane(32, z, i)),
            VectorOp::I64x2Add => wrap(64, lane(64, y, i) + lane(64, z, i)),
            VectorOp::I64x2Sub => wrap(64, lane(64, y, i) - lane(64, z, i)),
            VectorOp::I64x2Mul => wrap(64, lane(64, y, i) * lane(64, z, i)),
            VectorOp::I64x2Neg => wrap(64, -lane(64, z, i)),
            VectorOp::I64x2Abs => wrap(64, magnitude(signed(64, lane(64, z, i)))),
            VectorOp::I64x2Shl => shifted_up(64, lane(64, y, i), z),
            VectorOp::I64x2ShrU => shifted_down(64, lane(64, y, i), z),
            VectorOp::I64x2ShrS => shifted_down_signed(64, lane(64, y, i), z),
            VectorOp::I64x2Eq => mask(64, lane(64, y, i) == lane(64, z, i)),
            VectorOp::I64x2Ne => mask(64, lane(64, y, i) != lane(64, z, i)),
            VectorOp::I64x2GtS => mask(64, signed(64, lane(64, y, i)) > signed(64, lane(64, z, i))),
            VectorOp::I64x2LtS => mask(64, signed(64, lane(64, y, i)) < signed(64, lane(64, z, i))),
            VectorOp::I64x2GeS => mask(64, signed(64, lane(64, y, i)) >= signed(64, lane(64, z, i))),
            VectorOp::I64x2LeS => mask(64, signed(64, lane(64, y, i)) <= signed(64, lane(64, z, i))),
            VectorOp::F32x4Eq => mask(32, (f.equal)(32, lane(32, y, i), lane(32, z, i))),
            VectorOp::F32x4Ne => mask(32, !(f.equal)(32, lane(32, y, i), lane(32, z, i))),
            VectorOp::F32x4Lt => mask(32, (f.less)(32, lane(32, y, i), lane(32, z, i))),
            VectorOp::F32x4Gt => mask(32, (f.less)(32, lane(32, z, i), lane(32, y, i))),
            VectorOp::F32x4Le => mask(32, (f.less)(32, lane(32, y, i), lane(32, z, i)) || (f.equal)(32, lane(32, y, i), lane(32, z, i))),
            VectorOp::F32x4Ge => mask(32, (f.less)(32, lane(32, z, i), lane(32, y, i)) || (f.equal)(32, lane(32, y, i), lane(32, z, i))),
            VectorOp::F32x4Add => (f.sum)(32, lane(32, y, i), lane(32, z, i)),
            VectorOp::F32x4Sub => (f.difference)(32, lane(32, y, i), lane(32, z, i)),
            VectorOp::F32x4Mul => (f.product)(32, lane(32, y, i), lane(32, z, i)),
            VectorOp::F32x4Div => (f.quotient)(32, lane(32, y, i), lane(32, z, i)),
            VectorOp::F32x4Max => (f.maximum)(32, lane(32, y, i), lane(32, z, i)),
            VectorOp::F32x4Min => (f.minimum)(32, lane(32, y, i), lane(32, z, i)),
            VectorOp::F32x4PMax => lesser((f.less)(32, lane(32, y, i), lane(32, z, i)), lane(32, z, i), lane(32, y, i)),
            VectorOp::F32x4PMin => lesser((f.less)(32, lane(32, z, i), lane(32, y, i)), lane(32, z, i), lane(32, y, i)),
            VectorOp::F32x4Sqrt => (f.root)(32, lane(32, z, i)),
            VectorOp::F32x4Ceil => (f.ceiling)(32, lane(32, z, i)),
            VectorOp::F32x4Floor => (f.floor)(32, lane(32, z, i)),
            VectorOp::F32x4Trunc => (f.truncated)(32, lane(32, z, i)),
            VectorOp::F32x4Nearest => (f.nearest)(32, lane(32, z, i)),
            VectorOp::F32x4Neg => negated(32, lane(32, z, i)),
            VectorOp::F32x4Abs => unsigned(32, lane(32, z, i)),
            VectorOp::F64x2Eq => mask(64, (f.equal)(64, lane(64, y, i), lane(64, z, i))),
            VectorOp::F64x2Ne => mask(64, !(f.equal)(64, lane(64, y, i), lane(64, z, i))),
            VectorOp::F64x2Lt => mask(64, (f.less)(64, lane(64, y, i), lane(64, z, i))),
            VectorOp::F64x2Gt => mask(64, (f.less)(64, lane(64, z, i), lane(64, y, i))),
            VectorOp::F64x2Le => mask(64, (f.less)(64, lane(64, y, i), lane(64, z, i)) || (f.equal)(64, lane(64, y, i), lane(64, z, i))),
            VectorOp::F64x2Ge => mask(64, (f.less)(64, lane(64, z, i), lane(64, y, i)) || (f.equal)(64, lane(64, y, i), lane(64, z, i))),
            VectorOp::F64x2Add => (f.sum)(64, lane(64, y, i), lane(64, z, i)),
            VectorOp::F64x2Sub => (f.difference)(64, lane(64, y, i), lane(64, z, i)),
            VectorOp::F64x2Mul => (f.product)(64, lane(64, y, i), lane(64, z, i)),
            VectorOp::F64x2Div => (f.quotient)(64, lane(64, y, i), lane(64, z, i)),
            VectorOp::F64x2Max => (f.maximum)(64, lane(64, y, i), lane(64, z, i)),
            VectorOp::F64x2Min => (f.minimum)(64, lane(64, y, i), lane(64, z, i)),
            VectorOp::F64x2PMax => lesser((f.less)(64, lane(64, y, i), lane(64, z, i)), lane(64, z, i), lane(64, y, i)),
            VectorOp::F64x2PMin => lesser((f.less)(64, lane(64, z, i), lane(64, y, i)), lane(64, z, i), lane(64, y, i)),
            VectorOp::F64x2Sqrt => (f.root)(64, lane(64, z, i)),
            VectorOp::F64x2Ceil => (f.ceiling)(64, lane(64, z, i)),
            VectorOp::F64x2Floor => (f.floor)(64, lane(64, z, i)),
            VectorOp::F64x2Trunc => (f.truncated)(64, lane(64, z, i)),
            VectorOp::F64x2Nearest => (f.nearest)(64, lane(64, z, i)),
            VectorOp::F64x2Neg => negated(64, lane(64, z, i)),
            VectorOp::F64x2Abs => unsigned(64, lane(64, z, i)),
            VectorOp::V128Or => either(lane(8, y, i), lane(8, z, i)),
            VectorOp::V128Xor => differing(lane(8, y, i), lane(8, z, i)),
            VectorOp::V128And => both(lane(8, y, i), lane(8, z, i)),
            VectorOp::V128AndNot => both(lane(8, y, i), inverted(8, lane(8, z, i))),
            VectorOp::V128Bitselect => either(both(lane(8, x, i), lane(8, z, i)), both(lane(8, y, i), inverted(8, lane(8, z, i)))),
            VectorOp::I8x16Swizzle => if lane(8, z, i) < 16 { lane(8, y, lane(8, z, i)) } else { 0 },
            VectorOp::I8x16Popcnt => ones(8, lane(8, z, i)),
            VectorOp::I8x16Splat => wrap(8, z),
            VectorOp::I16x8Splat => wrap(16, z),
            VectorOp::I32x4Splat => z,
            VectorOp::I64x2Splat => z,
            VectorOp::F32x4Splat => z,
            VectorOp::F64x2Splat => z,
            VectorOp::F32x4ConvertI32x4S => (f.of_integer)(32, signed(32, lane(32, z, i))),
            VectorOp::F32x4ConvertI32x4U => (f.of_integer)(32, lane(32, z, i)),
            VectorOp::F64x2ConvertLowI32x4S => (f.of_integer)(64, signed(32, lane(32, z, i))),
            VectorOp::F64x2ConvertLowI32x4U => (f.of_integer)(64, lane(32, z, i)),
            VectorOp::F64x2PromoteLowF32x4 => (f.promoted)(lane(32, z, i)),
            VectorOp::F32x4DemoteF64x2Zero => if i < 2 { (f.demoted)(lane(64, z, i)) } else { 0 },
            VectorOp::I32x4TruncSatF32x4S => saturated(32, least(32), greatest(32), (f.integral)(32, lane(32, z, i))),
            VectorOp::I32x4TruncSatF32x4U => saturated(32, 0, pow2(32) - 1, (f.integral)(32, lane(32, z, i))),
            VectorOp::I32x4TruncSatF64x2SZero => if i < 2 { saturated(32, least(32), greatest(32), (f.integral)(64, lane(64, z, i))) } else { 0 },
            VectorOp::I32x4TruncSatF64x2UZero => if i < 2 { saturated(32, 0, pow2(32) - 1, (f.integral)(64, lane(64, z, i))) } else { 0 },
            VectorOp::I8x16NarrowI16x8S => wrap(8, clamped(least(8), greatest(8), signed(16, lane_of_two(16, y, z, i)))),
            VectorOp::I8x16NarrowI16x8U => clamped(0, pow2(8) - 1, signed(16, lane_of_two(16, y, z, i))),
            VectorOp::I16x8NarrowI32x4S => wrap(16, clamped(least(16), greatest(16), signed(32, lane_of_two(32, y, z, i)))),
            VectorOp::I16x8NarrowI32x4U => clamped(0, pow2(16) - 1, signed(32, lane_of_two(32, y, z, i))),
            VectorOp::I16x8ExtendLowI8x16S => wrap(16, signed(8, lane(8, z, i))),
            VectorOp::I16x8ExtendHighI8x16S => wrap(16, signed(8, lane(8, z, 8 + i))),
            VectorOp::I16x8ExtendLowI8x16U => lane(8, z, i),
            VectorOp::I16x8ExtendHighI8x16U => lane(8, z, 8 + i),
            VectorOp::I16x8ExtMulLowI8x16S => wrap(16, signed(8, lane(8, y, i)) * signed(8, lane(8, z, i))),
            VectorOp::I16x8ExtMulHighI8x16S => wrap(16, signed(8, lane(8, y, 8 + i)) * signed(8, lane(8, z, 8 + i))),
            VectorOp::I16x8ExtMulLowI8x16U => wrap(16, lane(8, y, i) * lane(8, z, i)),
            VectorOp::I16x8ExtMulHighI8x16U => wrap(16, lane(8, y, 8 + i) * lane(8, z, 8 + i)),
            VectorOp::I16x8ExtAddPairwiseI8x16S => wrap(16, signed(8, lane(8, z, 2 * i)) + signed(8, lane(8, z, 2 * i + 1))),
            VectorOp::I16x8ExtAddPairwiseI8x16U => wrap(16, lane(8, z, 2 * i) + lane(8, z, 2 * i + 1)),
            VectorOp::I32x4ExtendLowI16x8S => wrap(32, signed(16, lane(16, z, i))),
            VectorOp::I32x4ExtendHighI16x8S => wrap(32, signed(16, lane(16, z, 4 + i))),
            VectorOp::I32x4ExtendLowI16x8U => lane(16, z, i),
            VectorOp::I32x4ExtendHighI16x8U => lane(16, z, 4 + i),
            VectorOp::I32x4ExtMulLowI16x8S => wrap(32, signed(16, lane(16, y, i)) * signed(16, lane(16, z, i))),
            VectorOp::I32x4ExtMulHighI16x8S => wrap(32, signed(16, lane(16, y, 4 + i)) * signed(16, lane(16, z, 4 + i))),
            VectorOp::I32x4ExtMulLowI16x8U => wrap(32, lane(16, y, i) * lane(16, z, i)),
            VectorOp::I32x4ExtMulHighI16x8U => wrap(32, lane(16, y, 4 + i) * lane(16, z, 4 + i)),
            VectorOp::I32x4ExtAddPairwiseI16x8S => wrap(32, signed(16, lane(16, z, 2 * i)) + signed(16, lane(16, z, 2 * i + 1))),
            VectorOp::I32x4ExtAddPairwiseI16x8U => wrap(32, lane(16, z, 2 * i) + lane(16, z, 2 * i + 1)),
            VectorOp::I64x2ExtendLowI32x4S => wrap(64, signed(32, lane(32, z, i))),
            VectorOp::I64x2ExtendHighI32x4S => wrap(64, signed(32, lane(32, z, 2 + i))),
            VectorOp::I64x2ExtendLowI32x4U => lane(32, z, i),
            VectorOp::I64x2ExtendHighI32x4U => lane(32, z, 2 + i),
            VectorOp::I64x2ExtMulLowI32x4S => wrap(64, signed(32, lane(32, y, i)) * signed(32, lane(32, z, i))),
            VectorOp::I64x2ExtMulHighI32x4S => wrap(64, signed(32, lane(32, y, 2 + i)) * signed(32, lane(32, z, 2 + i))),
            VectorOp::I64x2ExtMulLowI32x4U => wrap(64, lane(32, y, i) * lane(32, z, i)),
            VectorOp::I64x2ExtMulHighI32x4U => wrap(64, lane(32, y, 2 + i) * lane(32, z, 2 + i)),
            VectorOp::I32x4DotI16x8S => wrap(32, signed(16, lane(16, y, 2 * i)) * signed(16, lane(16, z, 2 * i)) + signed(16, lane(16, y, 2 * i + 1)) * signed(16, lane(16, z, 2 * i + 1))),
            VectorOp::I16x8Q15MulrSatS => wrap(16, clamped(least(16), greatest(16), (signed(16, lane(16, y, i)) * signed(16, lane(16, z, i)) + pow2(14)) / (pow2(15) as int))),
            VectorOp::F32x4RelaxedMax => (f.maximum)(32, lane(32, y, i), lane(32, z, i)),
            VectorOp::F32x4RelaxedMin => (f.minimum)(32, lane(32, y, i), lane(32, z, i)),
            VectorOp::F32x4RelaxedMadd => (f.fused)(32, lane(32, x, i), lane(32, y, i), lane(32, z, i)),
            VectorOp::F32x4RelaxedNmadd => (f.fused)(32, negated(32, lane(32, x, i)), lane(32, y, i), lane(32, z, i)),
            VectorOp::F64x2RelaxedMax => (f.maximum)(64, lane(64, y, i), lane(64, z, i)),
            VectorOp::F64x2RelaxedMin => (f.minimum)(64, lane(64, y, i), lane(64, z, i)),
            VectorOp::F64x2RelaxedMadd => (f.fused)(64, lane(64, x, i), lane(64, y, i), lane(64, z, i)),
            VectorOp::F64x2RelaxedNmadd => (f.fused)(64, negated(64, lane(64, x, i)), lane(64, y, i), lane(64, z, i)),
            VectorOp::I8x16RelaxedLaneselect => either(both(lane(8, x, i), lane(8, z, i)), both(lane(8, y, i), inverted(8, lane(8, z, i)))),
            VectorOp::I16x8RelaxedLaneselect => either(both(lane(16, x, i), lane(16, z, i)), both(lane(16, y, i), inverted(16, lane(16, z, i)))),
            VectorOp::I32x4RelaxedLaneselect => either(both(lane(32, x, i), lane(32, z, i)), both(lane(32, y, i), inverted(32, lane(32, z, i)))),
            VectorOp::I64x2RelaxedLaneselect => either(both(lane(64, x, i), lane(64, z, i)), both(lane(64, y, i), inverted(64, lane(64, z, i)))),
            VectorOp::I8x16RelaxedSwizzle => if lane(8, z, i) < 16 { lane(8, y, lane(8, z, i)) } else { 0 },
            VectorOp::I32x4RelaxedTruncF32x4S => saturated(32, least(32), greatest(32), (f.integral)(32, lane(32, z, i))),
            VectorOp::I32x4RelaxedTruncF32x4U => saturated(32, 0, pow2(32) - 1, (f.integral)(32, lane(32, z, i))),
            VectorOp::I32x4RelaxedTruncF64x2SZero => if i < 2 { saturated(32, least(32), greatest(32), (f.integral)(64, lane(64, z, i))) } else { 0 },
            VectorOp::I32x4RelaxedTruncF64x2UZero => if i < 2 { saturated(32, 0, pow2(32) - 1, (f.integral)(64, lane(64, z, i))) } else { 0 },
            VectorOp::I16x8RelaxedQ15mulrS => wrap(16, clamped(least(16), greatest(16), (signed(16, lane(16, y, i)) * signed(16, lane(16, z, i)) + pow2(14)) / (pow2(15) as int))),
            VectorOp::I16x8RelaxedDotI8x16I7x16S => wrap(16, signed(8, lane(8, y, 2 * i)) * signed(8, lane(8, z, 2 * i)) + signed(8, lane(8, y, 2 * i + 1)) * signed(8, lane(8, z, 2 * i + 1))),
            VectorOp::I32x4RelaxedDotI8x16I7x16AddS => wrap(32, signed(16, dotted(x, y, 2 * i)) + signed(16, dotted(x, y, 2 * i + 1)) + lane(32, z, i)),
            _ => 0,
        }
    }

    /// The result for operands `x`, `y` and `z`, of which fewer operands are the last ones.
    pub open spec fn value(self, f: Floats, x: int, y: int, z: int) -> int {
        match self {
            VectorOp::V128Not => inverted(128, z),
            VectorOp::V128AnyTrue => truth(z != 0),
            VectorOp::I8x16AllTrue => truth(forall|i: int| 0 <= i < 16 ==> lane(8, z, i) != 0),
            VectorOp::I16x8AllTrue => truth(forall|i: int| 0 <= i < 8 ==> lane(16, z, i) != 0),
            VectorOp::I32x4AllTrue => truth(forall|i: int| 0 <= i < 4 ==> lane(32, z, i) != 0),
            VectorOp::I64x2AllTrue => truth(forall|i: int| 0 <= i < 2 ==> lane(64, z, i) != 0),
            VectorOp::I8x16Bitmask => joined(
                1,
                Seq::new(16, |i: int| truth(lane(8, z, i) >= pow2(7))),
            ),
            VectorOp::I16x8Bitmask => joined(
                1,
                Seq::new(8, |i: int| truth(lane(16, z, i) >= pow2(15))),
            ),
            VectorOp::I32x4Bitmask => joined(
                1,
                Seq::new(4, |i: int| truth(lane(32, z, i) >= pow2(31))),
            ),
            VectorOp::I64x2Bitmask => joined(
                1,
                Seq::new(2, |i: int| truth(lane(64, z, i) >= pow2(63))),
            ),
            _ => joined(
                self.lane_width(),
                Seq::new(
                    count(self.lane_width()),
                    |i: int| self.lane_value(f, x, y, z, i),
                ),
            ),
        }
    }
}

/// An instruction of one operand.
pub proof fn lemma_unary(
    m: Machine,
    code: Code,
    op: UnaryOp,
    arg: Value,
    from: nat,
    at: Flow,
    s: Moment,
) -> (t: Moment)
    requires
        from <= code.steps.len(),
        run(m, code.steps, from, at) == Flow::On(s),
        runs(s, code),
        code.values.len() < usize::MAX,
        code.has(arg),
    ensures
        run(m, code.unary(op, arg).steps, from, at) == Flow::On(t),
        runs(t, code.unary(op, arg)),
        went_on(t, s),
        t.bits(code.next_value()) == of_unary(m.floats, op, code.ty(arg), s.bits(arg)),
        code.unary(op, arg).ty(code.next_value()) == op.spec_result_type(code.ty(arg)),
{
    reveal(of_unary);
    reveal(performed);
    lemma_defined(m, code, Op::Unary { op, arg }, op.spec_result_type(code.ty(arg)), from, at, s, op.meaning(m.floats, code.ty(arg), s.bits(arg)));
    s.with(op.spec_result_type(code.ty(arg)), op.meaning(m.floats, code.ty(arg), s.bits(arg)))
}

/// An instruction of two operands that does not trap.
pub proof fn lemma_binary(
    m: Machine,
    code: Code,
    op: BinaryOp,
    a: Value,
    b: Value,
    from: nat,
    at: Flow,
    s: Moment,
) -> (t: Moment)
    requires
        from <= code.steps.len(),
        run(m, code.steps, from, at) == Flow::On(s),
        runs(s, code),
        code.values.len() < usize::MAX,
        code.has(a),
        code.has(b),
        plain(op),
    ensures
        run(m, code.binary(op, a, b).steps, from, at) == Flow::On(t),
        runs(t, code.binary(op, a, b)),
        went_on(t, s),
        t.bits(code.next_value()) == of_two(m.floats, op, code.ty(a), s.bits(a), s.bits(b)),
        code.binary(op, a, b).ty(code.next_value()) == op.spec_result_type(code.ty(a)),
{
    reveal(of_two);
    reveal(performed);
    lemma_defined(m, code, Op::Binary { op, a, b }, op.spec_result_type(code.ty(a)), from, at, s, op.meaning(m.floats, code.ty(a), s.bits(a), s.bits(b))->Ok_0);
    s.with(op.spec_result_type(code.ty(a)), op.meaning(m.floats, code.ty(a), s.bits(a), s.bits(b))->Ok_0)
}

/// A conversion that does not trap.
pub proof fn lemma_convert(
    m: Machine,
    code: Code,
    op: ConvertOp,
    ty: Type,
    arg: Value,
    from: nat,
    at: Flow,
    s: Moment,
) -> (t: Moment)
    requires
        from <= code.steps.len(),
        run(m, code.steps, from, at) == Flow::On(s),
        runs(s, code),
        code.values.len() < usize::MAX,
        code.has(arg),
        total(op),
    ensures
        run(m, code.convert(op, ty, arg).steps, from, at) == Flow::On(t),
        runs(t, code.convert(op, ty, arg)),
        went_on(t, s),
        t.bits(code.next_value()) == of_one(m.floats, op, code.ty(arg), ty, s.bits(arg)),
        code.convert(op, ty, arg).ty(code.next_value()) == ty,
{
    reveal(of_one);
    reveal(performed);
    lemma_defined(m, code, Op::Convert { op, ty, arg }, ty, from, at, s, op.meaning(m.floats, code.ty(arg), ty, s.bits(arg))->Ok_0);
    s.with(ty, op.meaning(m.floats, code.ty(arg), ty, s.bits(arg))->Ok_0)
}

/// An instruction of three operands.
proof fn lemma_ternary(
    m: Machine,
    code: Code,
    op: TernaryOp,
    a: Value,
    b: Value,
    c: Value,
    from: nat,
    at: Flow,
    s: Moment,
) -> (t: Moment)
    requires
        from <= code.steps.len(),
        run(m, code.steps, from, at) == Flow::On(s),
        runs(s, code),
        code.values.len() < usize::MAX,
        code.has(a),
        code.has(b),
        code.has(c),
    ensures
        run(m, code.ternary(op, a, b, c).steps, from, at) == Flow::On(t),
        runs(t, code.ternary(op, a, b, c)),
        went_on(t, s),
        t.bits(code.next_value()) == of_three(
            m.floats,
            op,
            code.ty(b),
            s.bits(a),
            s.bits(b),
            s.bits(c),
        ),
        code.ternary(op, a, b, c).ty(code.next_value()) == code.ty(b),
{
    reveal(of_three);
    reveal(performed);
    lemma_defined(m, code, Op::Ternary { op, a, b, c }, code.ty(b), from, at, s, op.meaning(m.floats, code.ty(b), s.bits(a), s.bits(b), s.bits(c)));
    s.with(code.ty(b), op.meaning(m.floats, code.ty(b), s.bits(a), s.bits(b), s.bits(c)))
}

/// A comparison of integers.
proof fn lemma_int_compare(
    m: Machine,
    code: Code,
    cc: IntCC,
    a: Value,
    b: Value,
    from: nat,
    at: Flow,
    s: Moment,
) -> (t: Moment)
    requires
        from <= code.steps.len(),
        run(m, code.steps, from, at) == Flow::On(s),
        runs(s, code),
        code.values.len() < usize::MAX,
        code.has(a),
        code.has(b),
    ensures
        run(m, code.int_compare(cc, a, b).steps, from, at) == Flow::On(t),
        runs(t, code.int_compare(cc, a, b)),
        went_on(t, s),
        t.bits(code.next_value()) == compared_integers(cc, code.ty(a), s.bits(a), s.bits(b)),
        code.int_compare(cc, a, b).ty(code.next_value()) == code.ty(a).spec_as_truthy(),
{
    reveal(performed);
    lemma_defined(m, code, Op::IntCompare { cc, a, b }, code.ty(a).spec_as_truthy(), from, at, s, compared_integers(cc, code.ty(a), s.bits(a), s.bits(b)));
    s.with(code.ty(a).spec_as_truthy(), compared_integers(cc, code.ty(a), s.bits(a), s.bits(b)))
}

/// A comparison of floats.
proof fn lemma_float_compare(
    m: Machine,
    code: Code,
    cc: FloatCC,
    a: Value,
    b: Value,
    from: nat,
    at: Flow,
    s: Moment,
) -> (t: Moment)
    requires
        from <= code.steps.len(),
        run(m, code.steps, from, at) == Flow::On(s),
        runs(s, code),
        code.values.len() < usize::MAX,
        code.has(a),
        code.has(b),
    ensures
        run(m, code.float_compare(cc, a, b).steps, from, at) == Flow::On(t),
        runs(t, code.float_compare(cc, a, b)),
        went_on(t, s),
        t.bits(code.next_value()) == compared_floats(m.floats, cc, code.ty(a), s.bits(a), s.bits(b)),
        code.float_compare(cc, a, b).ty(code.next_value()) == code.ty(a).spec_as_truthy(),
{
    reveal(performed);
    lemma_defined(m, code, Op::FloatCompare { cc, a, b }, code.ty(a).spec_as_truthy(), from, at, s, compared_floats(m.floats, cc, code.ty(a), s.bits(a), s.bits(b)));
    s.with(code.ty(a).spec_as_truthy(), compared_floats(m.floats, cc, code.ty(a), s.bits(a), s.bits(b)))
}

/// A vector constant.
proof fn lemma_vconst(
    m: Machine,
    code: Code,
    ty: Type,
    bytes: u128,
    from: nat,
    at: Flow,
    s: Moment,
) -> (t: Moment)
    requires
        from <= code.steps.len(),
        run(m, code.steps, from, at) == Flow::On(s),
        runs(s, code),
        code.values.len() < usize::MAX,
    ensures
        run(m, code.vconst(ty, bytes).steps, from, at) == Flow::On(t),
        runs(t, code.vconst(ty, bytes)),
        went_on(t, s),
        t.bits(code.next_value()) == bytes as int,
        code.vconst(ty, bytes).ty(code.next_value()) == ty,
{
    reveal(performed);
    lemma_defined(m, code, Op::Vconst { ty, bytes }, ty, from, at, s, bytes as int);
    s.with(ty, bytes as int)
}

/// Two vectors that are brought to a type keep their bits.
proof fn lemma_brought2(
    m: Machine,
    code: Code,
    a: Value,
    b: Value,
    ty: Type,
    from: nat,
    at: Flow,
    s: Moment,
) -> (t: Moment)
    requires
        from <= code.steps.len(),
        run(m, code.steps, from, at) == Flow::On(s),
        runs(s, code),
        code.has(a),
        code.has(b),
        code.values.len() + 2 <= usize::MAX,
    ensures
        ({
            let (after, a1, b1) = brought2(code, a, b, ty);
            &&& run(m, after.steps, from, at) == Flow::On(t)
            &&& runs(t, after)
            &&& went_on(t, s)
            &&& after.has(a1)
            &&& after.has(b1)
            &&& after.ty(a1) == ty
            &&& after.ty(b1) == ty
            &&& t.bits(a1) == s.bits(a)
            &&& t.bits(b1) == s.bits(b)
            &&& code.steps.len() <= after.steps.len()
            &&& after.values.len() <= code.values.len() + 2
        }),
{
    let s1 = lemma_brought(m, code, a, ty, from, at, s);
    let (c1, a1) = brought(code, a, ty);
    assert(s1.values[b.0 as int] == s.values[b.0 as int]);
    let t = lemma_brought(m, c1, b, ty, from, at, s1);
    let (c2, b1) = brought(c1, b, ty);
    assert(t.values[a1.0 as int] == s1.values[a1.0 as int]);
    assert(c2.ty(a1) == t.values[a1.0 as int].ty);
    t
}

/// Three vectors that are brought to a type keep their bits.
proof fn lemma_brought3(
    m: Machine,
    code: Code,
    a: Value,
    b: Value,
    c: Value,
    ty: Type,
    from: nat,
    at: Flow,
    s: Moment,
) -> (t: Moment)
    requires
        from <= code.steps.len(),
        run(m, code.steps, from, at) == Flow::On(s),
        runs(s, code),
        code.has(a),
        code.has(b),
        code.has(c),
        code.values.len() + 3 <= usize::MAX,
    ensures
        ({
            let (after, a1, b1, v1) = brought3(code, a, b, c, ty);
            &&& run(m, after.steps, from, at) == Flow::On(t)
            &&& runs(t, after)
            &&& went_on(t, s)
            &&& after.has(a1)
            &&& after.has(b1)
            &&& after.has(v1)
            &&& after.ty(a1) == ty
            &&& after.ty(b1) == ty
            &&& after.ty(v1) == ty
            &&& t.bits(a1) == s.bits(a)
            &&& t.bits(b1) == s.bits(b)
            &&& t.bits(v1) == s.bits(c)
            &&& code.steps.len() <= after.steps.len()
            &&& after.values.len() <= code.values.len() + 3
        }),
{
    let s1 = lemma_brought2(m, code, a, b, ty, from, at, s);
    let (c1, a1, b1) = brought2(code, a, b, ty);
    assert(s1.values[c.0 as int] == s.values[c.0 as int]);
    let t = lemma_brought(m, c1, c, ty, from, at, s1);
    let (c2, v1) = brought(c1, c, ty);
    assert(t.values[a1.0 as int] == s1.values[a1.0 as int]);
    assert(t.values[b1.0 as int] == s1.values[b1.0 as int]);
    assert(c2.ty(a1) == t.values[a1.0 as int].ty);
    assert(c2.ty(b1) == t.values[b1.0 as int].ty);
    t
}

/// An instruction of two operands that cannot trap.
pub open spec fn plain(op: BinaryOp) -> bool {
    !(op is Sdiv || op is Udiv || op is Srem || op is Urem)
}

/// An instruction of one operand and a chosen result type that cannot trap.
pub open spec fn total(op: ConvertOp) -> bool {
    !(op is FcvtToSint || op is FcvtToUint)
}

/// The result of an instruction of one operand.
#[verifier::opaque]
pub open spec fn of_unary(f: Floats, op: UnaryOp, ty: Type, a: int) -> int {
    op.meaning(f, ty, a)
}

/// The result of an instruction of three operands.
#[verifier::opaque]
pub open spec fn of_three(f: Floats, op: TernaryOp, ty: Type, a: int, b: int, c: int) -> int {
    op.meaning(f, ty, a, b, c)
}

/// The result of an instruction of two operands that cannot trap.
#[verifier::opaque]
pub open spec fn of_two(f: Floats, op: BinaryOp, ty: Type, a: int, b: int) -> int {
    op.meaning(f, ty, a, b)->Ok_0
}

/// The result of a conversion that cannot trap.
#[verifier::opaque]
pub open spec fn of_one(f: Floats, op: ConvertOp, from: Type, to: Type, a: int) -> int {
    op.meaning(f, from, to, a)->Ok_0
}

/// Whether the instructions of a recipe cannot trap.
pub open spec fn cannot_trap(recipe: VectorRecipe) -> bool {
    match recipe {
        VectorRecipe::Binary(_, op) => plain(op),
        VectorRecipe::Shift(_, op) => plain(op),
        VectorRecipe::Convert(_, op, _) => total(op),
        VectorRecipe::ConvertLow(_, op) => total(op),
        VectorRecipe::TruncZero(op, narrow) => total(op) && plain(narrow),
        _ => true,
    }
}

/// The products of widened lanes, neighbours added.
pub open spec fn dot_value(f: Floats, ty: Type, a: int, b: int) -> int {
    let wide = ty.spec_widened();
    of_two(
        f,
        BinaryOp::IaddPairwise,
        wide,
        of_two(
            f,
            BinaryOp::Imul,
            wide,
            of_unary(f, UnaryOp::SwidenLow, ty, a),
            of_unary(f, UnaryOp::SwidenLow, ty, b),
        ),
        of_two(
            f,
            BinaryOp::Imul,
            wide,
            of_unary(f, UnaryOp::SwidenHigh, ty, a),
            of_unary(f, UnaryOp::SwidenHigh, ty, b),
        ),
    )
}

/// What the instructions of a recipe compute of operands, of which the last has a type.
pub open spec fn recipe_value(
    recipe: VectorRecipe,
    f: Floats,
    last: Type,
    x: int,
    y: int,
    z: int,
) -> int {
    match recipe {
        VectorRecipe::Unary(ty, op) => of_unary(f, op, ty, z),
        VectorRecipe::Binary(ty, op) => of_two(f, op, ty, y, z),
        VectorRecipe::Shift(ty, op) => of_two(f, op, ty, y, z),
        VectorRecipe::Invert => of_unary(f, UnaryOp::Bnot, last, z),
        VectorRecipe::SplatReduced(ty) => of_one(
            f,
            ConvertOp::Splat,
            ty.spec_lane_type(),
            ty,
            of_one(f, ConvertOp::Ireduce, last, ty.spec_lane_type(), z),
        ),
        VectorRecipe::Splat(ty) => of_one(f, ConvertOp::Splat, last, ty, z),
        VectorRecipe::Compare(ty, cc) => compared_integers(cc, ty, y, z),
        VectorRecipe::FloatCompare(ty, cc) => compared_floats(f, cc, ty, y, z),
        VectorRecipe::Test(ty, op) => of_unary(f, op, ty, z),
        VectorRecipe::Convert(ty, op, to) => of_one(f, op, ty, to, z),
        VectorRecipe::ConvertLow(widen, op) => of_one(
            f,
            op,
            widen.spec_result_type(Type::I32X4),
            Type::F64X2,
            of_unary(f, widen, Type::I32X4, z),
        ),
        VectorRecipe::PseudoMax(ty) => of_three(
            f,
            TernaryOp::Bitselect,
            ty,
            compared_floats(f, FloatCC::LessThan, ty, y, z),
            z,
            y,
        ),
        VectorRecipe::PseudoMin(ty) => of_three(
            f,
            TernaryOp::Bitselect,
            ty,
            compared_floats(f, FloatCC::LessThan, ty, z, y),
            z,
            y,
        ),
        VectorRecipe::Bitselect => of_three(f, TernaryOp::Bitselect, Type::I8X16, z, x, y),
        VectorRecipe::TruncZero(op, narrow) => of_two(
            f,
            narrow,
            Type::I64X2,
            of_one(f, op, Type::F64X2, Type::I64X2, z),
            0,
        ),
        VectorRecipe::ExtAddPairwise(ty, low, high) => of_two(
            f,
            BinaryOp::IaddPairwise,
            low.spec_result_type(ty),
            of_unary(f, low, ty, z),
            of_unary(f, high, ty, z),
        ),
        VectorRecipe::ExtMul(ty, widen) => of_two(
            f,
            BinaryOp::Imul,
            widen.spec_result_type(ty),
            of_unary(f, widen, ty, y),
            of_unary(f, widen, ty, z),
        ),
        VectorRecipe::Dot(ty) => dot_value(f, ty, y, z),
        _ => z,
    }
}

/// The products of widened lanes, neighbours added.
proof fn lemma_dot(m: Machine, code: Code, a: Value, b: Value, from: nat, at: Flow, s: Moment) -> (t:
    Moment)
    requires
        from <= code.steps.len(),
        run(m, code.steps, from, at) == Flow::On(s),
        runs(s, code),
        code.has(a),
        code.has(b),
        code.ty(a) == code.ty(b),
        code.values.len() + 7 <= usize::MAX,
    ensures
        ({
            let (after, v) = dot(code, a, b);
            &&& run(m, after.steps, from, at) == Flow::On(t)
            &&& runs(t, after)
            &&& went_on(t, s)
            &&& after.has(v)
            &&& after.ty(v) == code.ty(a).spec_widened()
            &&& t.bits(v) == dot_value(m.floats, code.ty(a), s.bits(a), s.bits(b))
            &&& code.steps.len() <= after.steps.len()
            &&& after.values.len() == code.values.len() + 7
        }),
{
    let low = UnaryOp::SwidenLow;
    let high = UnaryOp::SwidenHigh;
    let s1 = lemma_unary(m, code, low, a, from, at, s);
    let c1 = code.unary(low, a);
    assert(s1.values[b.0 as int] == s.values[b.0 as int]);
    let s2 = lemma_unary(m, c1, low, b, from, at, s1);
    let c2 = c1.unary(low, b);
    let v1 = code.next_value();
    let v2 = c1.next_value();
    assert(s2.values[v1.0 as int] == s1.values[v1.0 as int]);
    let s3 = lemma_binary(m, c2, BinaryOp::Imul, v1, v2, from, at, s2);
    let c3 = c2.binary(BinaryOp::Imul, v1, v2);
    let v3 = c2.next_value();
    assert(s3.values[a.0 as int] == s.values[a.0 as int]) by {
        assert(s1.values[a.0 as int] == s.values[a.0 as int]);
        assert(s2.values[a.0 as int] == s1.values[a.0 as int]);
    }
    assert(s3.values[b.0 as int] == s.values[b.0 as int]) by {
        assert(s2.values[b.0 as int] == s1.values[b.0 as int]);
    }
    let s4 = lemma_unary(m, c3, high, a, from, at, s3);
    let c4 = c3.unary(high, a);
    let v4 = c3.next_value();
    assert(s4.values[b.0 as int] == s3.values[b.0 as int]);
    let s5 = lemma_unary(m, c4, high, b, from, at, s4);
    let c5 = c4.unary(high, b);
    let v5 = c4.next_value();
    assert(s5.values[v4.0 as int] == s4.values[v4.0 as int]);
    let s6 = lemma_binary(m, c5, BinaryOp::Imul, v4, v5, from, at, s5);
    let c6 = c5.binary(BinaryOp::Imul, v4, v5);
    let v6 = c5.next_value();
    assert(s6.values[v3.0 as int] == s3.values[v3.0 as int]) by {
        assert(s4.values[v3.0 as int] == s3.values[v3.0 as int]);
        assert(s5.values[v3.0 as int] == s4.values[v3.0 as int]);
    }
    lemma_binary(m, c6, BinaryOp::IaddPairwise, v3, v6, from, at, s6)
}

/// The second of two values where a comparison holds, else the first.
proof fn lemma_pseudo(
    m: Machine,
    code: Code,
    p: Value,
    q: Value,
    a: Value,
    b: Value,
    ty: Type,
    from: nat,
    at: Flow,
    s: Moment,
) -> (t: Moment)
    requires
        from <= code.steps.len(),
        run(m, code.steps, from, at) == Flow::On(s),
        runs(s, code),
        code.has(p),
        code.has(q),
        code.has(a),
        code.has(b),
        code.ty(p) == ty,
        code.ty(b) == ty,
        code.values.len() + 3 <= usize::MAX,
    ensures
        ({
            let (after, v) = pseudo(code, p, q, a, b, ty);
            &&& run(m, after.steps, from, at) == Flow::On(t)
            &&& runs(t, after)
            &&& went_on(t, s)
            &&& after.has(v)
            &&& t.bits(v) == of_three(
                m.floats,
                TernaryOp::Bitselect,
                ty,
                compared_floats(m.floats, FloatCC::LessThan, ty, s.bits(p), s.bits(q)),
                s.bits(b),
                s.bits(a),
            )
        }),
{
    let s1 = lemma_float_compare(m, code, FloatCC::LessThan, p, q, from, at, s);
    let c1 = code.float_compare(FloatCC::LessThan, p, q);
    let s2 = lemma_brought(m, c1, code.next_value(), ty, from, at, s1);
    let (c2, chosen) = brought(c1, code.next_value(), ty);
    assert(s2.values[a.0 as int] == s.values[a.0 as int]) by {
        assert(s1.values[a.0 as int] == s.values[a.0 as int]);
    }
    assert(s2.values[b.0 as int] == s.values[b.0 as int]) by {
        assert(s1.values[b.0 as int] == s.values[b.0 as int]);
    }
    assert(c2.ty(b) == s2.values[b.0 as int].ty);
    lemma_ternary(m, c2, TernaryOp::Bitselect, chosen, b, a, from, at, s2)
}

/// Whether code computes what a recipe does of operands.
#[verifier::opaque]
pub open spec fn computed(
    recipe: VectorRecipe,
    m: Machine,
    code: Code,
    x: Value,
    y: Value,
    z: Value,
    from: nat,
    at: Flow,
    s: Moment,
    t: Moment,
) -> bool {
    let (after, v) = recipe.strict_result(code, x, y, z);
    &&& run(m, after.steps, from, at) == Flow::On(t)
    &&& runs(t, after)
    &&& went_on(t, s)
    &&& after.has(v)
    &&& t.bits(v) == recipe_value(
        recipe,
        m.floats,
        code.ty(z),
        s.bits(x),
        s.bits(y),
        s.bits(z),
    )
}

/// Whether the instructions of a recipe can run on operands.
#[verifier::opaque]
pub open spec fn computable(
    recipe: VectorRecipe,
    m: Machine,
    code: Code,
    x: Value,
    y: Value,
    z: Value,
    from: nat,
    at: Flow,
    s: Moment,
) -> bool {
    &&& from <= code.steps.len()
    &&& run(m, code.steps, from, at) == Flow::On(s)
    &&& runs(s, code)
    &&& !recipe.is_relaxed()
    &&& cannot_trap(recipe)
    &&& code.has(z)
    &&& recipe.arity() >= 2 ==> code.has(y)
    &&& recipe.arity() == 3 ==> code.has(x)
    &&& code.values.len() + 9 <= usize::MAX
}

/// The recipe `Unary`.
proof fn lemma_unary_recipe(
    ty: Type,
    op: UnaryOp,
    m: Machine,
    code: Code,
    x: Value,
    y: Value,
    z: Value,
    from: nat,
    at: Flow,
    s: Moment,
) -> (t: Moment)
    requires
        computable(VectorRecipe::Unary(ty, op), m, code, x, y, z, from, at, s),
    ensures
        computed(VectorRecipe::Unary(ty, op), m, code, x, y, z, from, at, s, t),
{
    reveal(VectorRecipe::strict_result);
    reveal(computed);
    reveal(computable);

    let s1 = lemma_brought(m, code, z, ty, from, at, s);
    let (c1, a) = brought(code, z, ty);
    lemma_unary(m, c1, op, a, from, at, s1)
}

/// The recipe `Binary`.
proof fn lemma_binary_recipe(
    ty: Type,
    op: BinaryOp,
    m: Machine,
    code: Code,
    x: Value,
    y: Value,
    z: Value,
    from: nat,
    at: Flow,
    s: Moment,
) -> (t: Moment)
    requires
        computable(VectorRecipe::Binary(ty, op), m, code, x, y, z, from, at, s),
    ensures
        computed(VectorRecipe::Binary(ty, op), m, code, x, y, z, from, at, s, t),
{
    reveal(VectorRecipe::strict_result);
    reveal(computed);
    reveal(computable);

    let s1 = lemma_brought2(m, code, y, z, ty, from, at, s);
    let (c1, a, b) = brought2(code, y, z, ty);
    lemma_binary(m, c1, op, a, b, from, at, s1)
}

/// The recipe `Shift`.
proof fn lemma_shift_recipe(
    ty: Type,
    op: BinaryOp,
    m: Machine,
    code: Code,
    x: Value,
    y: Value,
    z: Value,
    from: nat,
    at: Flow,
    s: Moment,
) -> (t: Moment)
    requires
        computable(VectorRecipe::Shift(ty, op), m, code, x, y, z, from, at, s),
    ensures
        computed(VectorRecipe::Shift(ty, op), m, code, x, y, z, from, at, s, t),
{
    reveal(VectorRecipe::strict_result);
    reveal(computed);
    reveal(computable);

    let s1 = lemma_brought(m, code, y, ty, from, at, s);
    let (c1, a) = brought(code, y, ty);
    assert(s1.values[z.0 as int] == s.values[z.0 as int]);
    lemma_binary(m, c1, op, a, z, from, at, s1)
}

/// The recipe `Invert`.
proof fn lemma_invert_recipe(
    m: Machine,
    code: Code,
    x: Value,
    y: Value,
    z: Value,
    from: nat,
    at: Flow,
    s: Moment,
) -> (t: Moment)
    requires
        computable(VectorRecipe::Invert, m, code, x, y, z, from, at, s),
    ensures
        computed(VectorRecipe::Invert, m, code, x, y, z, from, at, s, t),
{
    reveal(VectorRecipe::strict_result);
    reveal(computed);
    reveal(computable);

    lemma_unary(m, code, UnaryOp::Bnot, z, from, at, s)
}

/// The recipe `SplatReduced`.
proof fn lemma_splat_reduced_recipe(
    ty: Type,
    m: Machine,
    code: Code,
    x: Value,
    y: Value,
    z: Value,
    from: nat,
    at: Flow,
    s: Moment,
) -> (t: Moment)
    requires
        computable(VectorRecipe::SplatReduced(ty), m, code, x, y, z, from, at, s),
    ensures
        computed(VectorRecipe::SplatReduced(ty), m, code, x, y, z, from, at, s, t),
{
    reveal(VectorRecipe::strict_result);
    reveal(computed);
    reveal(computable);

    let narrow = ty.spec_lane_type();
    let s1 = lemma_convert(m, code, ConvertOp::Ireduce, narrow, z, from, at, s);
    let c1 = code.convert(ConvertOp::Ireduce, narrow, z);
    lemma_convert(m, c1, ConvertOp::Splat, ty, code.next_value(), from, at, s1)
}

/// The recipe `Splat`.
proof fn lemma_splat_recipe(
    ty: Type,
    m: Machine,
    code: Code,
    x: Value,
    y: Value,
    z: Value,
    from: nat,
    at: Flow,
    s: Moment,
) -> (t: Moment)
    requires
        computable(VectorRecipe::Splat(ty), m, code, x, y, z, from, at, s),
    ensures
        computed(VectorRecipe::Splat(ty), m, code, x, y, z, from, at, s, t),
{
    reveal(VectorRecipe::strict_result);
    reveal(computed);
    reveal(computable);

    lemma_convert(
    m,
    code,
    ConvertOp::Splat,
    ty,
    z,
    from,
    at,
    s,
    )
}

/// The recipe `Compare`.
proof fn lemma_compare_recipe(
    ty: Type,
    cc: IntCC,
    m: Machine,
    code: Code,
    x: Value,
    y: Value,
    z: Value,
    from: nat,
    at: Flow,
    s: Moment,
) -> (t: Moment)
    requires
        computable(VectorRecipe::Compare(ty, cc), m, code, x, y, z, from, at, s),
    ensures
        computed(VectorRecipe::Compare(ty, cc), m, code, x, y, z, from, at, s, t),
{
    reveal(VectorRecipe::strict_result);
    reveal(computed);
    reveal(computable);

    let s1 = lemma_brought2(m, code, y, z, ty, from, at, s);
    let (c1, a, b) = brought2(code, y, z, ty);
    lemma_int_compare(m, c1, cc, a, b, from, at, s1)
}

/// The recipe `FloatCompare`.
proof fn lemma_float_compare_recipe(
    ty: Type,
    cc: FloatCC,
    m: Machine,
    code: Code,
    x: Value,
    y: Value,
    z: Value,
    from: nat,
    at: Flow,
    s: Moment,
) -> (t: Moment)
    requires
        computable(VectorRecipe::FloatCompare(ty, cc), m, code, x, y, z, from, at, s),
    ensures
        computed(VectorRecipe::FloatCompare(ty, cc), m, code, x, y, z, from, at, s, t),
{
    reveal(VectorRecipe::strict_result);
    reveal(computed);
    reveal(computable);

    let s1 = lemma_brought2(m, code, y, z, ty, from, at, s);
    let (c1, a, b) = brought2(code, y, z, ty);
    lemma_float_compare(m, c1, cc, a, b, from, at, s1)
}

/// The recipe `Test`.
proof fn lemma_test_recipe(
    ty: Type,
    op: UnaryOp,
    m: Machine,
    code: Code,
    x: Value,
    y: Value,
    z: Value,
    from: nat,
    at: Flow,
    s: Moment,
) -> (t: Moment)
    requires
        computable(VectorRecipe::Test(ty, op), m, code, x, y, z, from, at, s),
    ensures
        computed(VectorRecipe::Test(ty, op), m, code, x, y, z, from, at, s, t),
{
    reveal(VectorRecipe::strict_result);
    reveal(computed);
    reveal(computable);
    reveal(of_one);

    let s1 = lemma_brought(m, code, z, ty, from, at, s);
    let (c1, a) = brought(code, z, ty);
    let s2 = lemma_unary(m, c1, op, a, from, at, s1);
    let c2 = c1.unary(op, a);
    lemma_convert(
        m,
        c2,
        ConvertOp::Uextend,
        Type::I32,
        c1.next_value(),
        from,
        at,
        s2,
    )
}

/// The recipe `Convert`.
proof fn lemma_convert_recipe(
    ty: Type,
    op: ConvertOp,
    to: Type,
    m: Machine,
    code: Code,
    x: Value,
    y: Value,
    z: Value,
    from: nat,
    at: Flow,
    s: Moment,
) -> (t: Moment)
    requires
        computable(VectorRecipe::Convert(ty, op, to), m, code, x, y, z, from, at, s),
    ensures
        computed(VectorRecipe::Convert(ty, op, to), m, code, x, y, z, from, at, s, t),
{
    reveal(VectorRecipe::strict_result);
    reveal(computed);
    reveal(computable);

    let s1 = lemma_brought(m, code, z, ty, from, at, s);
    let (c1, a) = brought(code, z, ty);
    lemma_convert(m, c1, op, to, a, from, at, s1)
}

/// The recipe `ConvertLow`.
proof fn lemma_convert_low_recipe(
    widen: UnaryOp,
    op: ConvertOp,
    m: Machine,
    code: Code,
    x: Value,
    y: Value,
    z: Value,
    from: nat,
    at: Flow,
    s: Moment,
) -> (t: Moment)
    requires
        computable(VectorRecipe::ConvertLow(widen, op), m, code, x, y, z, from, at, s),
    ensures
        computed(VectorRecipe::ConvertLow(widen, op), m, code, x, y, z, from, at, s, t),
{
    reveal(VectorRecipe::strict_result);
    reveal(computed);
    reveal(computable);

    let s1 = lemma_brought(m, code, z, Type::I32X4, from, at, s);
    let (c1, a) = brought(code, z, Type::I32X4);
    let s2 = lemma_unary(m, c1, widen, a, from, at, s1);
    let c2 = c1.unary(widen, a);
    lemma_convert(m, c2, op, Type::F64X2, c1.next_value(), from, at, s2)
}

/// The recipe `PseudoMax`.
proof fn lemma_pseudo_max_recipe(
    ty: Type,
    m: Machine,
    code: Code,
    x: Value,
    y: Value,
    z: Value,
    from: nat,
    at: Flow,
    s: Moment,
) -> (t: Moment)
    requires
        computable(VectorRecipe::PseudoMax(ty), m, code, x, y, z, from, at, s),
    ensures
        computed(VectorRecipe::PseudoMax(ty), m, code, x, y, z, from, at, s, t),
{
    reveal(VectorRecipe::strict_result);
    reveal(computed);
    reveal(computable);

    let s1 = lemma_brought2(m, code, y, z, ty, from, at, s);
    let (c1, a, b) = brought2(code, y, z, ty);
    lemma_pseudo(m, c1, a, b, a, b, ty, from, at, s1)
}

/// The recipe `PseudoMin`.
proof fn lemma_pseudo_min_recipe(
    ty: Type,
    m: Machine,
    code: Code,
    x: Value,
    y: Value,
    z: Value,
    from: nat,
    at: Flow,
    s: Moment,
) -> (t: Moment)
    requires
        computable(VectorRecipe::PseudoMin(ty), m, code, x, y, z, from, at, s),
    ensures
        computed(VectorRecipe::PseudoMin(ty), m, code, x, y, z, from, at, s, t),
{
    reveal(VectorRecipe::strict_result);
    reveal(computed);
    reveal(computable);

    let s1 = lemma_brought2(m, code, y, z, ty, from, at, s);
    let (c1, a, b) = brought2(code, y, z, ty);
    lemma_pseudo(m, c1, b, a, a, b, ty, from, at, s1)
}

/// The recipe `Bitselect`.
proof fn lemma_bitselect_recipe(
    m: Machine,
    code: Code,
    x: Value,
    y: Value,
    z: Value,
    from: nat,
    at: Flow,
    s: Moment,
) -> (t: Moment)
    requires
        computable(VectorRecipe::Bitselect, m, code, x, y, z, from, at, s),
    ensures
        computed(VectorRecipe::Bitselect, m, code, x, y, z, from, at, s, t),
{
    reveal(VectorRecipe::strict_result);
    reveal(computed);
    reveal(computable);

    let s1 = lemma_brought3(m, code, x, y, z, Type::I8X16, from, at, s);
    let (c1, a, b, c) = brought3(code, x, y, z, Type::I8X16);
    lemma_ternary(m, c1, TernaryOp::Bitselect, c, a, b, from, at, s1)
}

/// The recipe `TruncZero`.
proof fn lemma_trunc_zero_recipe(
    op: ConvertOp,
    narrow: BinaryOp,
    m: Machine,
    code: Code,
    x: Value,
    y: Value,
    z: Value,
    from: nat,
    at: Flow,
    s: Moment,
) -> (t: Moment)
    requires
        computable(VectorRecipe::TruncZero(op, narrow), m, code, x, y, z, from, at, s),
    ensures
        computed(VectorRecipe::TruncZero(op, narrow), m, code, x, y, z, from, at, s, t),
{
    reveal(VectorRecipe::strict_result);
    reveal(computed);
    reveal(computable);

    let s1 = lemma_brought(m, code, z, Type::F64X2, from, at, s);
    let (c1, a) = brought(code, z, Type::F64X2);
    let s2 = lemma_convert(m, c1, op, Type::I64X2, a, from, at, s1);
    let c2 = c1.convert(op, Type::I64X2, a);
    let converted = c1.next_value();
    let s3 = lemma_vconst(m, c2, Type::I64X2, 0, from, at, s2);
    let c3 = c2.vconst(Type::I64X2, 0);
    assert(s3.values[converted.0 as int] == s2.values[converted.0 as int]);
    lemma_binary(m, c3, narrow, converted, c2.next_value(), from, at, s3)
}

/// The recipe `ExtAddPairwise`.
proof fn lemma_ext_add_pairwise_recipe(
    ty: Type,
    low: UnaryOp,
    high: UnaryOp,
    m: Machine,
    code: Code,
    x: Value,
    y: Value,
    z: Value,
    from: nat,
    at: Flow,
    s: Moment,
) -> (t: Moment)
    requires
        computable(VectorRecipe::ExtAddPairwise(ty, low, high), m, code, x, y, z, from, at, s),
    ensures
        computed(VectorRecipe::ExtAddPairwise(ty, low, high), m, code, x, y, z, from, at, s, t),
{
    reveal(VectorRecipe::strict_result);
    reveal(computed);
    reveal(computable);

    let s1 = lemma_brought(m, code, z, ty, from, at, s);
    let (c1, a) = brought(code, z, ty);
    let s2 = lemma_unary(m, c1, low, a, from, at, s1);
    let c2 = c1.unary(low, a);
    assert(s2.values[a.0 as int] == s1.values[a.0 as int]);
    let s3 = lemma_unary(m, c2, high, a, from, at, s2);
    let c3 = c2.unary(high, a);
    let v1 = c1.next_value();
    assert(s3.values[v1.0 as int] == s2.values[v1.0 as int]);
    lemma_binary(
        m,
        c3,
        BinaryOp::IaddPairwise,
        v1,
        c2.next_value(),
        from,
        at,
        s3,
    )
}

/// The recipe `ExtMul`.
proof fn lemma_ext_mul_recipe(
    ty: Type,
    widen: UnaryOp,
    m: Machine,
    code: Code,
    x: Value,
    y: Value,
    z: Value,
    from: nat,
    at: Flow,
    s: Moment,
) -> (t: Moment)
    requires
        computable(VectorRecipe::ExtMul(ty, widen), m, code, x, y, z, from, at, s),
    ensures
        computed(VectorRecipe::ExtMul(ty, widen), m, code, x, y, z, from, at, s, t),
{
    reveal(VectorRecipe::strict_result);
    reveal(computed);
    reveal(computable);

    let s1 = lemma_brought2(m, code, y, z, ty, from, at, s);
    let (c1, a, b) = brought2(code, y, z, ty);
    let s2 = lemma_unary(m, c1, widen, a, from, at, s1);
    let c2 = c1.unary(widen, a);
    assert(s2.values[b.0 as int] == s1.values[b.0 as int]);
    let s3 = lemma_unary(m, c2, widen, b, from, at, s2);
    let c3 = c2.unary(widen, b);
    let v1 = c1.next_value();
    assert(s3.values[v1.0 as int] == s2.values[v1.0 as int]);
    lemma_binary(m, c3, BinaryOp::Imul, v1, c2.next_value(), from, at, s3)
}

/// The recipe `Dot`.
proof fn lemma_dot_recipe(
    ty: Type,
    m: Machine,
    code: Code,
    x: Value,
    y: Value,
    z: Value,
    from: nat,
    at: Flow,
    s: Moment,
) -> (t: Moment)
    requires
        computable(VectorRecipe::Dot(ty), m, code, x, y, z, from, at, s),
    ensures
        computed(VectorRecipe::Dot(ty), m, code, x, y, z, from, at, s, t),
{
    reveal(VectorRecipe::strict_result);
    reveal(computed);
    reveal(computable);

    let s1 = lemma_brought2(m, code, y, z, ty, from, at, s);
    let (c1, a, b) = brought2(code, y, z, ty);
    lemma_dot(m, c1, a, b, from, at, s1)
}

/// Whether code computes what a recipe does of operands, and reaches some state.
pub open spec fn computes(
    recipe: VectorRecipe,
    m: Machine,
    code: Code,
    x: Value,
    y: Value,
    z: Value,
    from: nat,
    at: Flow,
    s: Moment,
) -> bool {
    exists|t: Moment| computed(recipe, m, code, x, y, z, from, at, s, t)
}

/// The instructions of a recipe that does not depend on the target compute its value.
#[verifier::spinoff_prover]
proof fn lemma_strict(
    recipe: VectorRecipe,
    m: Machine,
    code: Code,
    x: Value,
    y: Value,
    z: Value,
    from: nat,
    at: Flow,
    s: Moment,
)
    requires
        !recipe.is_relaxed(),
        computable(recipe, m, code, x, y, z, from, at, s),
    ensures
        computes(recipe, m, code, x, y, z, from, at, s),
{
    match recipe {
        VectorRecipe::Unary(ty, op) => {
            let t = lemma_unary_recipe(ty, op, m, code, x, y, z, from, at, s);
            assert(computed(recipe, m, code, x, y, z, from, at, s, t));
        },
        VectorRecipe::Binary(ty, op) => {
            let t = lemma_binary_recipe(ty, op, m, code, x, y, z, from, at, s);
            assert(computed(recipe, m, code, x, y, z, from, at, s, t));
        },
        VectorRecipe::Shift(ty, op) => {
            let t = lemma_shift_recipe(ty, op, m, code, x, y, z, from, at, s);
            assert(computed(recipe, m, code, x, y, z, from, at, s, t));
        },
        VectorRecipe::Invert => {
            let t = lemma_invert_recipe(m, code, x, y, z, from, at, s);
            assert(computed(recipe, m, code, x, y, z, from, at, s, t));
        },
        VectorRecipe::SplatReduced(ty) => {
            let t = lemma_splat_reduced_recipe(ty, m, code, x, y, z, from, at, s);
            assert(computed(recipe, m, code, x, y, z, from, at, s, t));
        },
        VectorRecipe::Splat(ty) => {
            let t = lemma_splat_recipe(ty, m, code, x, y, z, from, at, s);
            assert(computed(recipe, m, code, x, y, z, from, at, s, t));
        },
        VectorRecipe::Compare(ty, cc) => {
            let t = lemma_compare_recipe(ty, cc, m, code, x, y, z, from, at, s);
            assert(computed(recipe, m, code, x, y, z, from, at, s, t));
        },
        VectorRecipe::FloatCompare(ty, cc) => {
            let t = lemma_float_compare_recipe(ty, cc, m, code, x, y, z, from, at, s);
            assert(computed(recipe, m, code, x, y, z, from, at, s, t));
        },
        VectorRecipe::Test(ty, op) => {
            let t = lemma_test_recipe(ty, op, m, code, x, y, z, from, at, s);
            assert(computed(recipe, m, code, x, y, z, from, at, s, t));
        },
        VectorRecipe::Convert(ty, op, to) => {
            let t = lemma_convert_recipe(ty, op, to, m, code, x, y, z, from, at, s);
            assert(computed(recipe, m, code, x, y, z, from, at, s, t));
        },
        VectorRecipe::ConvertLow(widen, op) => {
            let t = lemma_convert_low_recipe(widen, op, m, code, x, y, z, from, at, s);
            assert(computed(recipe, m, code, x, y, z, from, at, s, t));
        },
        VectorRecipe::PseudoMax(ty) => {
            let t = lemma_pseudo_max_recipe(ty, m, code, x, y, z, from, at, s);
            assert(computed(recipe, m, code, x, y, z, from, at, s, t));
        },
        VectorRecipe::PseudoMin(ty) => {
            let t = lemma_pseudo_min_recipe(ty, m, code, x, y, z, from, at, s);
            assert(computed(recipe, m, code, x, y, z, from, at, s, t));
        },
        VectorRecipe::Bitselect => {
            let t = lemma_bitselect_recipe(m, code, x, y, z, from, at, s);
            assert(computed(recipe, m, code, x, y, z, from, at, s, t));
        },
        VectorRecipe::TruncZero(op, narrow) => {
            let t = lemma_trunc_zero_recipe(op, narrow, m, code, x, y, z, from, at, s);
            assert(computed(recipe, m, code, x, y, z, from, at, s, t));
        },
        VectorRecipe::ExtAddPairwise(ty, low, high) => {
            let t = lemma_ext_add_pairwise_recipe(ty, low, high, m, code, x, y, z, from, at, s);
            assert(computed(recipe, m, code, x, y, z, from, at, s, t));
        },
        VectorRecipe::ExtMul(ty, widen) => {
            let t = lemma_ext_mul_recipe(ty, widen, m, code, x, y, z, from, at, s);
            assert(computed(recipe, m, code, x, y, z, from, at, s, t));
        },
        VectorRecipe::Dot(ty) => {
            let t = lemma_dot_recipe(ty, m, code, x, y, z, from, at, s);
            assert(computed(recipe, m, code, x, y, z, from, at, s, t));
        },
        _ => {},
    }
}

/// The widened number of a lane.
pub open spec fn widened_lane(widen: UnaryOp, n: nat, v: int, i: int) -> int {
    let half = (count(n) / 2) as int;
    match widen {
        UnaryOp::SwidenLow => signed(n, lane(n, v, i)),
        UnaryOp::SwidenHigh => signed(n, lane(n, v, half + i)),
        UnaryOp::UwidenLow => lane(n, v, i),
        _ => lane(n, v, half + i),
    }
}

/// Whether an instruction widens lanes.
pub open spec fn widens(op: UnaryOp) -> bool {
    op is SwidenLow || op is SwidenHigh || op is UwidenLow || op is UwidenHigh
}

/// The width of the lanes that a recipe yields.
pub open spec fn recipe_width(recipe: VectorRecipe) -> nat {
    match recipe {
        VectorRecipe::Unary(ty, op) => match op {
            UnaryOp::SwidenLow | UnaryOp::SwidenHigh | UnaryOp::UwidenLow
            | UnaryOp::UwidenHigh => 2 * ty.lane_bits(),
            UnaryOp::FvpromoteLow => 64,
            UnaryOp::Fvdemote => 32,
            _ => ty.lane_bits(),
        },
        VectorRecipe::Binary(ty, op) => match op {
            BinaryOp::Swizzle => 8,
            BinaryOp::Snarrow | BinaryOp::Unarrow => ty.lane_bits() / 2,
            _ => ty.lane_bits(),
        },
        VectorRecipe::Convert(_, _, to) => to.lane_bits(),
        VectorRecipe::ConvertLow(_, _) => 64,
        VectorRecipe::Bitselect => 8,
        VectorRecipe::TruncZero(_, _) => 32,
        VectorRecipe::ExtAddPairwise(ty, _, _) => 2 * ty.lane_bits(),
        VectorRecipe::ExtMul(ty, _) => 2 * ty.lane_bits(),
        VectorRecipe::Dot(ty) => 2 * ty.lane_bits(),
        VectorRecipe::Shift(ty, _) => ty.lane_bits(),
        VectorRecipe::SplatReduced(ty) => ty.lane_bits(),
        VectorRecipe::Splat(ty) => ty.lane_bits(),
        VectorRecipe::Compare(ty, _) => ty.lane_bits(),
        VectorRecipe::FloatCompare(ty, _) => ty.lane_bits(),
        VectorRecipe::PseudoMax(ty) => ty.lane_bits(),
        VectorRecipe::PseudoMin(ty) => ty.lane_bits(),
        _ => 8,
    }
}

/// A lane that a recipe yields.
pub open spec fn recipe_lane(
    recipe: VectorRecipe,
    f: Floats,
    x: int,
    y: int,
    z: int,
    i: int,
) -> int {
    match recipe {
        VectorRecipe::Unary(ty, op) => {
            let n = ty.lane_bits();
            match op {
                UnaryOp::SwidenLow | UnaryOp::SwidenHigh => wrap(
                    2 * n,
                    widened_lane(op, n, z, i),
                ),
                UnaryOp::UwidenLow | UnaryOp::UwidenHigh => widened_lane(op, n, z, i),
                UnaryOp::FvpromoteLow => (f.promoted)(lane(32, z, i)),
                UnaryOp::Fvdemote => if i < 2 {
                    (f.demoted)(lane(64, z, i))
                } else {
                    0
                },
                _ => op.on_lane(f, n, lane(n, z, i)),
            }
        },
        VectorRecipe::Binary(ty, op) => {
            let n = ty.lane_bits();
            let half = n / 2;
            match op {
                BinaryOp::Swizzle => if lane(8, z, i) < 16 {
                    lane(8, y, lane(8, z, i))
                } else {
                    0
                },
                BinaryOp::Snarrow => wrap(
                    half,
                    clamped(least(half), greatest(half), signed(n, lane_of_two(n, y, z, i))),
                ),
                BinaryOp::Unarrow => clamped(
                    0,
                    pow2(half) - 1,
                    signed(n, lane_of_two(n, y, z, i)),
                ),
                _ => op.on_lanes(f, n, lane(n, y, i), lane(n, z, i)),
            }
        },
        VectorRecipe::Shift(ty, op) => op.on_lanes(
            f,
            ty.lane_bits(),
            lane(ty.lane_bits(), y, i),
            z,
        ),
        VectorRecipe::SplatReduced(ty) => wrap(ty.lane_bits(), z),
        VectorRecipe::Splat(ty) => z,
        VectorRecipe::Compare(ty, cc) => {
            let n = ty.lane_bits();
            mask(n, cc.holds(n, lane(n, y, i), lane(n, z, i)))
        },
        VectorRecipe::FloatCompare(ty, cc) => {
            let n = ty.lane_bits();
            mask(n, cc.holds(f, n, lane(n, y, i), lane(n, z, i)))
        },
        VectorRecipe::Convert(ty, op, to) => {
            op.on_lane(f, ty.lane_bits(), to.lane_bits(), lane(ty.lane_bits(), z, i))
        },
        VectorRecipe::ConvertLow(widen, op) => (f.of_integer)(64, widened_lane(widen, 32, z, i)),
        VectorRecipe::PseudoMax(ty) => {
            let n = ty.lane_bits();
            lesser((f.less)(n, lane(n, y, i), lane(n, z, i)), lane(n, z, i), lane(n, y, i))
        },
        VectorRecipe::PseudoMin(ty) => {
            let n = ty.lane_bits();
            lesser((f.less)(n, lane(n, z, i), lane(n, y, i)), lane(n, z, i), lane(n, y, i))
        },
        VectorRecipe::Bitselect => either(
            both(lane(8, x, i), lane(8, z, i)),
            both(lane(8, y, i), inverted(8, lane(8, z, i))),
        ),
        VectorRecipe::TruncZero(op, _) => if i < 2 {
            if op is FcvtToSintSat {
                saturated(32, least(32), greatest(32), (f.integral)(64, lane(64, z, i)))
            } else {
                saturated(32, 0, pow2(32) - 1, (f.integral)(64, lane(64, z, i)))
            }
        } else {
            0
        },
        VectorRecipe::ExtAddPairwise(ty, low, _) => {
            let n = ty.lane_bits();
            if low is SwidenLow {
                wrap(2 * n, signed(n, lane(n, z, 2 * i)) + signed(n, lane(n, z, 2 * i + 1)))
            } else {
                wrap(2 * n, lane(n, z, 2 * i) + lane(n, z, 2 * i + 1))
            }
        },
        VectorRecipe::ExtMul(ty, widen) => {
            let n = ty.lane_bits();
            wrap(2 * n, widened_lane(widen, n, y, i) * widened_lane(widen, n, z, i))
        },
        VectorRecipe::Dot(ty) => {
            let n = ty.lane_bits();
            wrap(
                2 * n,
                signed(n, lane(n, y, 2 * i)) * signed(n, lane(n, z, 2 * i)) + signed(
                    n,
                    lane(n, y, 2 * i + 1),
                ) * signed(n, lane(n, z, 2 * i + 1)),
            )
        },
        _ => 0,
    }
}

/// Whether a recipe is one that operators use.
pub open spec fn regular(recipe: VectorRecipe) -> bool {
    match recipe {
        VectorRecipe::Unary(ty, op) => ty.has_lanes() && (widens(op) ==> ty.lane_bits() <= 32)
            && !(op is VanyTrue || op is VallTrue || op is IsNull),
        VectorRecipe::Binary(ty, op) => ty.has_lanes() && plain(op) && !(op is Uunarrow
            || op is IaddPairwise || op is X86Pshufb || op is X86Pmaddubsw || op is Ishl
            || op is Sshr || op is Ushr) && (op is Swizzle ==> ty is I8X16) && (op is Snarrow
            || op is Unarrow ==> ty.lane_bits() == 16 || ty.lane_bits() == 32),
        VectorRecipe::Shift(ty, op) => ty.has_lanes() && (op is Ishl || op is Sshr || op is Ushr),
        VectorRecipe::SplatReduced(ty) => ty is I8X16 || ty is I16X8,
        VectorRecipe::Splat(ty) => ty.has_lanes(),
        VectorRecipe::Compare(ty, _) => ty.has_lanes(),
        VectorRecipe::FloatCompare(ty, _) => ty.has_lanes(),
        VectorRecipe::Convert(ty, op, to) => ty.has_lanes() && to.has_lanes() && (op
            is FcvtToSintSat || op is FcvtToUintSat || op is FcvtFromSint || op is FcvtFromUint),
        VectorRecipe::ConvertLow(widen, op) => widen is SwidenLow && op is FcvtFromSint || widen
            is UwidenLow && op is FcvtFromUint,
        VectorRecipe::PseudoMax(ty) => ty is F32X4 || ty is F64X2,
        VectorRecipe::PseudoMin(ty) => ty is F32X4 || ty is F64X2,
        VectorRecipe::Bitselect => true,
        VectorRecipe::TruncZero(op, narrow) => op is FcvtToSintSat && narrow is Snarrow || op
            is FcvtToUintSat && narrow is Uunarrow,
        VectorRecipe::ExtAddPairwise(ty, low, high) => (ty is I8X16 || ty is I16X8) && (low
            is SwidenLow && high is SwidenHigh || low is UwidenLow && high is UwidenHigh),
        VectorRecipe::ExtMul(ty, widen) => (ty is I8X16 || ty is I16X8 || ty is I32X4) && widens(
            widen,
        ),
        VectorRecipe::Dot(ty) => ty is I8X16 || ty is I16X8,
        _ => false,
    }
}

/// Whether the result of an operator is made of lanes, by instructions that do not depend on the
/// target.
pub open spec fn is_lanewise(op: VectorOp) -> bool {
    !op.recipe().is_relaxed() && !(op.recipe() is Invert || op.recipe() is Test || op.recipe()
        matches VectorRecipe::Convert(_, ConvertOp::VhighBits, _))
}

/// Whether an operator has the lanes of its recipe.
#[verifier::opaque]
pub open spec fn has_recipe_lane(op: VectorOp, f: Floats, x: int, y: int, z: int, i: int) -> bool {
    &&& regular(op.recipe())
    &&& op.lane_width() == recipe_width(op.recipe())
    &&& op.lane_value(f, x, y, z, i) == recipe_lane(op.recipe(), f, x, y, z, i)
}

/// Each operator has the lanes of its recipe.
#[verifier::spinoff_prover]
#[verifier::rlimit(100)]
proof fn lemma_operator_lane(op: VectorOp, f: Floats, x: int, y: int, z: int, i: int)
    requires
        is_lanewise(op),
    ensures
        has_recipe_lane(op, f, x, y, z, i),
{
    match op {
        VectorOp::I8x16Add => {
            assert(has_recipe_lane(op, f, x, y, z, i)) by {
                reveal(has_recipe_lane);
            }
        },
        VectorOp::I8x16Sub => {
            assert(has_recipe_lane(op, f, x, y, z, i)) by {
                reveal(has_recipe_lane);
            }
        },
        VectorOp::I8x16Neg => {
            assert(has_recipe_lane(op, f, x, y, z, i)) by {
                reveal(has_recipe_lane);
            }
        },
        VectorOp::I8x16Abs => {
            assert(has_recipe_lane(op, f, x, y, z, i)) by {
                reveal(has_recipe_lane);
            }
        },
        VectorOp::I8x16Shl => {
            assert(has_recipe_lane(op, f, x, y, z, i)) by {
                reveal(has_recipe_lane);
            }
        },
        VectorOp::I8x16ShrU => {
            assert(has_recipe_lane(op, f, x, y, z, i)) by {
                reveal(has_recipe_lane);
            }
        },
        VectorOp::I8x16ShrS => {
            assert(has_recipe_lane(op, f, x, y, z, i)) by {
                reveal(has_recipe_lane);
            }
        },
        VectorOp::I8x16AddSatS => {
            assert(has_recipe_lane(op, f, x, y, z, i)) by {
                reveal(has_recipe_lane);
            }
        },
        VectorOp::I8x16AddSatU => {
            assert(has_recipe_lane(op, f, x, y, z, i)) by {
                reveal(has_recipe_lane);
            }
        },
        VectorOp::I8x16SubSatS => {
            assert(has_recipe_lane(op, f, x, y, z, i)) by {
                reveal(has_recipe_lane);
            }
        },
        VectorOp::I8x16SubSatU => {
            assert(has_recipe_lane(op, f, x, y, z, i)) by {
                reveal(has_recipe_lane);
            }
        },
        VectorOp::I8x16AvgrU => {
            assert(has_recipe_lane(op, f, x, y, z, i)) by {
                reveal(has_recipe_lane);
            }
        },
        VectorOp::I8x16MinS => {
            assert(has_recipe_lane(op, f, x, y, z, i)) by {
                reveal(has_recipe_lane);
            }
        },
        VectorOp::I8x16MinU => {
            assert(has_recipe_lane(op, f, x, y, z, i)) by {
                reveal(has_recipe_lane);
            }
        },
        VectorOp::I8x16MaxS => {
            assert(has_recipe_lane(op, f, x, y, z, i)) by {
                reveal(has_recipe_lane);
            }
        },
        VectorOp::I8x16MaxU => {
            assert(has_recipe_lane(op, f, x, y, z, i)) by {
                reveal(has_recipe_lane);
            }
        },
        VectorOp::I8x16Eq => {
            assert(has_recipe_lane(op, f, x, y, z, i)) by {
                reveal(has_recipe_lane);
            }
        },
        VectorOp::I8x16Ne => {
            assert(has_recipe_lane(op, f, x, y, z, i)) by {
                reveal(has_recipe_lane);
            }
        },
        VectorOp::I8x16GtS => {
            assert(has_recipe_lane(op, f, x, y, z, i)) by {
                reveal(has_recipe_lane);
            }
        },
        VectorOp::I8x16LtS => {
            assert(has_recipe_lane(op, f, x, y, z, i)) by {
                reveal(has_recipe_lane);
            }
        },
        VectorOp::I8x16GeS => {
            assert(has_recipe_lane(op, f, x, y, z, i)) by {
                reveal(has_recipe_lane);
            }
        },
        VectorOp::I8x16LeS => {
            assert(has_recipe_lane(op, f, x, y, z, i)) by {
                reveal(has_recipe_lane);
            }
        },
        VectorOp::I8x16GtU => {
            assert(has_recipe_lane(op, f, x, y, z, i)) by {
                reveal(has_recipe_lane);
            }
        },
        VectorOp::I8x16LtU => {
            assert(has_recipe_lane(op, f, x, y, z, i)) by {
                reveal(has_recipe_lane);
            }
        },
        VectorOp::I8x16GeU => {
            assert(has_recipe_lane(op, f, x, y, z, i)) by {
                reveal(has_recipe_lane);
            }
        },
        VectorOp::I8x16LeU => {
            assert(has_recipe_lane(op, f, x, y, z, i)) by {
                reveal(has_recipe_lane);
            }
        },
        VectorOp::I16x8Add => {
            assert(has_recipe_lane(op, f, x, y, z, i)) by {
                reveal(has_recipe_lane);
            }
        },
        VectorOp::I16x8Sub => {
            assert(has_recipe_lane(op, f, x, y, z, i)) by {
                reveal(has_recipe_lane);
            }
        },
        VectorOp::I16x8Mul => {
            assert(has_recipe_lane(op, f, x, y, z, i)) by {
                reveal(has_recipe_lane);
            }
        },
        VectorOp::I16x8Neg => {
            assert(has_recipe_lane(op, f, x, y, z, i)) by {
                reveal(has_recipe_lane);
            }
        },
        VectorOp::I16x8Abs => {
            assert(has_recipe_lane(op, f, x, y, z, i)) by {
                reveal(has_recipe_lane);
            }
        },
        VectorOp::I16x8Shl => {
            assert(has_recipe_lane(op, f, x, y, z, i)) by {
                reveal(has_recipe_lane);
            }
        },
        VectorOp::I16x8ShrU => {
            assert(has_recipe_lane(op, f, x, y, z, i)) by {
                reveal(has_recipe_lane);
            }
        },
        VectorOp::I16x8ShrS => {
            assert(has_recipe_lane(op, f, x, y, z, i)) by {
                reveal(has_recipe_lane);
            }
        },
        VectorOp::I16x8AddSatS => {
            assert(has_recipe_lane(op, f, x, y, z, i)) by {
                reveal(has_recipe_lane);
            }
        },
        VectorOp::I16x8AddSatU => {
            assert(has_recipe_lane(op, f, x, y, z, i)) by {
                reveal(has_recipe_lane);
            }
        },
        VectorOp::I16x8SubSatS => {
            assert(has_recipe_lane(op, f, x, y, z, i)) by {
                reveal(has_recipe_lane);
            }
        },
        VectorOp::I16x8SubSatU => {
            assert(has_recipe_lane(op, f, x, y, z, i)) by {
                reveal(has_recipe_lane);
            }
        },
        VectorOp::I16x8AvgrU => {
            assert(has_recipe_lane(op, f, x, y, z, i)) by {
                reveal(has_recipe_lane);
            }
        },
        VectorOp::I16x8MinS => {
            assert(has_recipe_lane(op, f, x, y, z, i)) by {
                reveal(has_recipe_lane);
            }
        },
        VectorOp::I16x8MinU => {
            assert(has_recipe_lane(op, f, x, y, z, i)) by {
                reveal(has_recipe_lane);
            }
        },
        VectorOp::I16x8MaxS => {
            assert(has_recipe_lane(op, f, x, y, z, i)) by {
                reveal(has_recipe_lane);
            }
        },
        VectorOp::I16x8MaxU => {
            assert(has_recipe_lane(op, f, x, y, z, i)) by {
                reveal(has_recipe_lane);
            }
        },
        VectorOp::I16x8Eq => {
            assert(has_recipe_lane(op, f, x, y, z, i)) by {
                reveal(has_recipe_lane);
            }
        },
        VectorOp::I16x8Ne => {
            assert(has_recipe_lane(op, f, x, y, z, i)) by {
                reveal(has_recipe_lane);
            }
        },
        VectorOp::I16x8GtS => {
            assert(has_recipe_lane(op, f, x, y, z, i)) by {
                reveal(has_recipe_lane);
            }
        },
        VectorOp::I16x8LtS => {
            assert(has_recipe_lane(op, f, x, y, z, i)) by {
                reveal(has_recipe_lane);
            }
        },
        VectorOp::I16x8GeS => {
            assert(has_recipe_lane(op, f, x, y, z, i)) by {
                reveal(has_recipe_lane);
            }
        },
        VectorOp::I16x8LeS => {
            assert(has_recipe_lane(op, f, x, y, z, i)) by {
                reveal(has_recipe_lane);
            }
        },
        VectorOp::I16x8GtU => {
            assert(has_recipe_lane(op, f, x, y, z, i)) by {
                reveal(has_recipe_lane);
            }
        },
        VectorOp::I16x8LtU => {
            assert(has_recipe_lane(op, f, x, y, z, i)) by {
                reveal(has_recipe_lane);
            }
        },
        VectorOp::I16x8GeU => {
            assert(has_recipe_lane(op, f, x, y, z, i)) by {
                reveal(has_recipe_lane);
            }
        },
        VectorOp::I16x8LeU => {
            assert(has_recipe_lane(op, f, x, y, z, i)) by {
                reveal(has_recipe_lane);
            }
        },
        VectorOp::I32x4Add => {
            assert(has_recipe_lane(op, f, x, y, z, i)) by {
                reveal(has_recipe_lane);
            }
        },
        VectorOp::I32x4Sub => {
            assert(has_recipe_lane(op, f, x, y, z, i)) by {
                reveal(has_recipe_lane);
            }
        },
        VectorOp::I32x4Mul => {
            assert(has_recipe_lane(op, f, x, y, z, i)) by {
                reveal(has_recipe_lane);
            }
        },
        VectorOp::I32x4Neg => {
            assert(has_recipe_lane(op, f, x, y, z, i)) by {
                reveal(has_recipe_lane);
            }
        },
        VectorOp::I32x4Abs => {
            assert(has_recipe_lane(op, f, x, y, z, i)) by {
                reveal(has_recipe_lane);
            }
        },
        VectorOp::I32x4Shl => {
            assert(has_recipe_lane(op, f, x, y, z, i)) by {
                reveal(has_recipe_lane);
            }
        },
        VectorOp::I32x4ShrU => {
            assert(has_recipe_lane(op, f, x, y, z, i)) by {
                reveal(has_recipe_lane);
            }
        },
        VectorOp::I32x4ShrS => {
            assert(has_recipe_lane(op, f, x, y, z, i)) by {
                reveal(has_recipe_lane);
            }
        },
        VectorOp::I32x4MinS => {
            assert(has_recipe_lane(op, f, x, y, z, i)) by {
                reveal(has_recipe_lane);
            }
        },
        VectorOp::I32x4MinU => {
            assert(has_recipe_lane(op, f, x, y, z, i)) by {
                reveal(has_recipe_lane);
            }
        },
        VectorOp::I32x4MaxS => {
            assert(has_recipe_lane(op, f, x, y, z, i)) by {
                reveal(has_recipe_lane);
            }
        },
        VectorOp::I32x4MaxU => {
            assert(has_recipe_lane(op, f, x, y, z, i)) by {
                reveal(has_recipe_lane);
            }
        },
        VectorOp::I32x4Eq => {
            assert(has_recipe_lane(op, f, x, y, z, i)) by {
                reveal(has_recipe_lane);
            }
        },
        VectorOp::I32x4Ne => {
            assert(has_recipe_lane(op, f, x, y, z, i)) by {
                reveal(has_recipe_lane);
            }
        },
        VectorOp::I32x4GtS => {
            assert(has_recipe_lane(op, f, x, y, z, i)) by {
                reveal(has_recipe_lane);
            }
        },
        VectorOp::I32x4LtS => {
            assert(has_recipe_lane(op, f, x, y, z, i)) by {
                reveal(has_recipe_lane);
            }
        },
        VectorOp::I32x4GeS => {
            assert(has_recipe_lane(op, f, x, y, z, i)) by {
                reveal(has_recipe_lane);
            }
        },
        VectorOp::I32x4LeS => {
            assert(has_recipe_lane(op, f, x, y, z, i)) by {
                reveal(has_recipe_lane);
            }
        },
        VectorOp::I32x4GtU => {
            assert(has_recipe_lane(op, f, x, y, z, i)) by {
                reveal(has_recipe_lane);
            }
        },
        VectorOp::I32x4LtU => {
            assert(has_recipe_lane(op, f, x, y, z, i)) by {
                reveal(has_recipe_lane);
            }
        },
        VectorOp::I32x4GeU => {
            assert(has_recipe_lane(op, f, x, y, z, i)) by {
                reveal(has_recipe_lane);
            }
        },
        VectorOp::I32x4LeU => {
            assert(has_recipe_lane(op, f, x, y, z, i)) by {
                reveal(has_recipe_lane);
            }
        },
        VectorOp::I64x2Add => {
            assert(has_recipe_lane(op, f, x, y, z, i)) by {
                reveal(has_recipe_lane);
            }
        },
        VectorOp::I64x2Sub => {
            assert(has_recipe_lane(op, f, x, y, z, i)) by {
                reveal(has_recipe_lane);
            }
        },
        VectorOp::I64x2Mul => {
            assert(has_recipe_lane(op, f, x, y, z, i)) by {
                reveal(has_recipe_lane);
            }
        },
        VectorOp::I64x2Neg => {
            assert(has_recipe_lane(op, f, x, y, z, i)) by {
                reveal(has_recipe_lane);
            }
        },
        VectorOp::I64x2Abs => {
            assert(has_recipe_lane(op, f, x, y, z, i)) by {
                reveal(has_recipe_lane);
            }
        },
        VectorOp::I64x2Shl => {
            assert(has_recipe_lane(op, f, x, y, z, i)) by {
                reveal(has_recipe_lane);
            }
        },
        VectorOp::I64x2ShrU => {
            assert(has_recipe_lane(op, f, x, y, z, i)) by {
                reveal(has_recipe_lane);
            }
        },
        VectorOp::I64x2ShrS => {
            assert(has_recipe_lane(op, f, x, y, z, i)) by {
                reveal(has_recipe_lane);
            }
        },
        VectorOp::I64x2Eq => {
            assert(has_recipe_lane(op, f, x, y, z, i)) by {
                reveal(has_recipe_lane);
            }
        },
        VectorOp::I64x2Ne => {
            assert(has_recipe_lane(op, f, x, y, z, i)) by {
                reveal(has_recipe_lane);
            }
        },
        VectorOp::I64x2GtS => {
            assert(has_recipe_lane(op, f, x, y, z, i)) by {
                reveal(has_recipe_lane);
            }
        },
        VectorOp::I64x2LtS => {
            assert(has_recipe_lane(op, f, x, y, z, i)) by {
                reveal(has_recipe_lane);
            }
        },
        VectorOp::I64x2GeS => {
            assert(has_recipe_lane(op, f, x, y, z, i)) by {
                reveal(has_recipe_lane);
            }
        },
        VectorOp::I64x2LeS => {
            assert(has_recipe_lane(op, f, x, y, z, i)) by {
                reveal(has_recipe_lane);
            }
        },
        VectorOp::F32x4Eq => {
            assert(has_recipe_lane(op, f, x, y, z, i)) by {
                reveal(has_recipe_lane);
            }
        },
        VectorOp::F32x4Ne => {
            assert(has_recipe_lane(op, f, x, y, z, i)) by {
                reveal(has_recipe_lane);
            }
        },
        VectorOp::F32x4Lt => {
            assert(has_recipe_lane(op, f, x, y, z, i)) by {
                reveal(has_recipe_lane);
            }
        },
        VectorOp::F32x4Gt => {
            assert(has_recipe_lane(op, f, x, y, z, i)) by {
                reveal(has_recipe_lane);
            }
        },
        VectorOp::F32x4Le => {
            assert(has_recipe_lane(op, f, x, y, z, i)) by {
                reveal(has_recipe_lane);
            }
        },
        VectorOp::F32x4Ge => {
            assert(has_recipe_lane(op, f, x, y, z, i)) by {
                reveal(has_recipe_lane);
            }
        },
        VectorOp::F32x4Add => {
            assert(has_recipe_lane(op, f, x, y, z, i)) by {
                reveal(has_recipe_lane);
            }
        },
        VectorOp::F32x4Sub => {
            assert(has_recipe_lane(op, f, x, y, z, i)) by {
                reveal(has_recipe_lane);
            }
        },
        VectorOp::F32x4Mul => {
            assert(has_recipe_lane(op, f, x, y, z, i)) by {
                reveal(has_recipe_lane);
            }
        },
        VectorOp::F32x4Div => {
            assert(has_recipe_lane(op, f, x, y, z, i)) by {
                reveal(has_recipe_lane);
            }
        },
        VectorOp::F32x4Max => {
            assert(has_recipe_lane(op, f, x, y, z, i)) by {
                reveal(has_recipe_lane);
            }
        },
        VectorOp::F32x4Min => {
            assert(has_recipe_lane(op, f, x, y, z, i)) by {
                reveal(has_recipe_lane);
            }
        },
        VectorOp::F32x4PMax => {
            assert(has_recipe_lane(op, f, x, y, z, i)) by {
                reveal(has_recipe_lane);
            }
        },
        VectorOp::F32x4PMin => {
            assert(has_recipe_lane(op, f, x, y, z, i)) by {
                reveal(has_recipe_lane);
            }
        },
        VectorOp::F32x4Sqrt => {
            assert(has_recipe_lane(op, f, x, y, z, i)) by {
                reveal(has_recipe_lane);
            }
        },
        VectorOp::F32x4Ceil => {
            assert(has_recipe_lane(op, f, x, y, z, i)) by {
                reveal(has_recipe_lane);
            }
        },
        VectorOp::F32x4Floor => {
            assert(has_recipe_lane(op, f, x, y, z, i)) by {
                reveal(has_recipe_lane);
            }
        },
        VectorOp::F32x4Trunc => {
            assert(has_recipe_lane(op, f, x, y, z, i)) by {
                reveal(has_recipe_lane);
            }
        },
        VectorOp::F32x4Nearest => {
            assert(has_recipe_lane(op, f, x, y, z, i)) by {
                reveal(has_recipe_lane);
            }
        },
        VectorOp::F32x4Neg => {
            assert(has_recipe_lane(op, f, x, y, z, i)) by {
                reveal(has_recipe_lane);
            }
        },
        VectorOp::F32x4Abs => {
            assert(has_recipe_lane(op, f, x, y, z, i)) by {
                reveal(has_recipe_lane);
            }
        },
        VectorOp::F64x2Eq => {
            assert(has_recipe_lane(op, f, x, y, z, i)) by {
                reveal(has_recipe_lane);
            }
        },
        VectorOp::F64x2Ne => {
            assert(has_recipe_lane(op, f, x, y, z, i)) by {
                reveal(has_recipe_lane);
            }
        },
        VectorOp::F64x2Lt => {
            assert(has_recipe_lane(op, f, x, y, z, i)) by {
                reveal(has_recipe_lane);
            }
        },
        VectorOp::F64x2Gt => {
            assert(has_recipe_lane(op, f, x, y, z, i)) by {
                reveal(has_recipe_lane);
            }
        },
        VectorOp::F64x2Le => {
            assert(has_recipe_lane(op, f, x, y, z, i)) by {
                reveal(has_recipe_lane);
            }
        },
        VectorOp::F64x2Ge => {
            assert(has_recipe_lane(op, f, x, y, z, i)) by {
                reveal(has_recipe_lane);
            }
        },
        VectorOp::F64x2Add => {
            assert(has_recipe_lane(op, f, x, y, z, i)) by {
                reveal(has_recipe_lane);
            }
        },
        VectorOp::F64x2Sub => {
            assert(has_recipe_lane(op, f, x, y, z, i)) by {
                reveal(has_recipe_lane);
            }
        },
        VectorOp::F64x2Mul => {
            assert(has_recipe_lane(op, f, x, y, z, i)) by {
                reveal(has_recipe_lane);
            }
        },
        VectorOp::F64x2Div => {
            assert(has_recipe_lane(op, f, x, y, z, i)) by {
                reveal(has_recipe_lane);
            }
        },
        VectorOp::F64x2Max => {
            assert(has_recipe_lane(op, f, x, y, z, i)) by {
                reveal(has_recipe_lane);
            }
        },
        VectorOp::F64x2Min => {
            assert(has_recipe_lane(op, f, x, y, z, i)) by {
                reveal(has_recipe_lane);
            }
        },
        VectorOp::F64x2PMax => {
            assert(has_recipe_lane(op, f, x, y, z, i)) by {
                reveal(has_recipe_lane);
            }
        },
        VectorOp::F64x2PMin => {
            assert(has_recipe_lane(op, f, x, y, z, i)) by {
                reveal(has_recipe_lane);
            }
        },
        VectorOp::F64x2Sqrt => {
            assert(has_recipe_lane(op, f, x, y, z, i)) by {
                reveal(has_recipe_lane);
            }
        },
        VectorOp::F64x2Ceil => {
            assert(has_recipe_lane(op, f, x, y, z, i)) by {
                reveal(has_recipe_lane);
            }
        },
        VectorOp::F64x2Floor => {
            assert(has_recipe_lane(op, f, x, y, z, i)) by {
                reveal(has_recipe_lane);
            }
        },
        VectorOp::F64x2Trunc => {
            assert(has_recipe_lane(op, f, x, y, z, i)) by {
                reveal(has_recipe_lane);
            }
        },
        VectorOp::F64x2Nearest => {
            assert(has_recipe_lane(op, f, x, y, z, i)) by {
                reveal(has_recipe_lane);
            }
        },
        VectorOp::F64x2Neg => {
            assert(has_recipe_lane(op, f, x, y, z, i)) by {
                reveal(has_recipe_lane);
            }
        },
        VectorOp::F64x2Abs => {
            assert(has_recipe_lane(op, f, x, y, z, i)) by {
                reveal(has_recipe_lane);
            }
        },
        VectorOp::V128Or => {
            assert(has_recipe_lane(op, f, x, y, z, i)) by {
                reveal(has_recipe_lane);
            }
        },
        VectorOp::V128Xor => {
            assert(has_recipe_lane(op, f, x, y, z, i)) by {
                reveal(has_recipe_lane);
            }
        },
        VectorOp::V128And => {
            assert(has_recipe_lane(op, f, x, y, z, i)) by {
                reveal(has_recipe_lane);
            }
        },
        VectorOp::V128AndNot => {
            assert(has_recipe_lane(op, f, x, y, z, i)) by {
                reveal(has_recipe_lane);
            }
        },
        VectorOp::V128Bitselect => {
            assert(has_recipe_lane(op, f, x, y, z, i)) by {
                reveal(has_recipe_lane);
            }
        },
        VectorOp::I8x16Swizzle => {
            assert(has_recipe_lane(op, f, x, y, z, i)) by {
                reveal(has_recipe_lane);
            }
        },
        VectorOp::I8x16Popcnt => {
            assert(has_recipe_lane(op, f, x, y, z, i)) by {
                reveal(has_recipe_lane);
            }
        },
        VectorOp::I8x16Splat => {
            assert(has_recipe_lane(op, f, x, y, z, i)) by {
                reveal(has_recipe_lane);
            }
        },
        VectorOp::I16x8Splat => {
            assert(has_recipe_lane(op, f, x, y, z, i)) by {
                reveal(has_recipe_lane);
            }
        },
        VectorOp::I32x4Splat => {
            assert(has_recipe_lane(op, f, x, y, z, i)) by {
                reveal(has_recipe_lane);
            }
        },
        VectorOp::I64x2Splat => {
            assert(has_recipe_lane(op, f, x, y, z, i)) by {
                reveal(has_recipe_lane);
            }
        },
        VectorOp::F32x4Splat => {
            assert(has_recipe_lane(op, f, x, y, z, i)) by {
                reveal(has_recipe_lane);
            }
        },
        VectorOp::F64x2Splat => {
            assert(has_recipe_lane(op, f, x, y, z, i)) by {
                reveal(has_recipe_lane);
            }
        },
        VectorOp::F32x4ConvertI32x4S => {
            assert(has_recipe_lane(op, f, x, y, z, i)) by {
                reveal(has_recipe_lane);
            }
        },
        VectorOp::F32x4ConvertI32x4U => {
            assert(has_recipe_lane(op, f, x, y, z, i)) by {
                reveal(has_recipe_lane);
            }
        },
        VectorOp::F64x2ConvertLowI32x4S => {
            assert(has_recipe_lane(op, f, x, y, z, i)) by {
                reveal(has_recipe_lane);
            }
        },
        VectorOp::F64x2ConvertLowI32x4U => {
            assert(has_recipe_lane(op, f, x, y, z, i)) by {
                reveal(has_recipe_lane);
            }
        },
        VectorOp::F64x2PromoteLowF32x4 => {
            assert(has_recipe_lane(op, f, x, y, z, i)) by {
                reveal(has_recipe_lane);
            }
        },
        VectorOp::F32x4DemoteF64x2Zero => {
            assert(has_recipe_lane(op, f, x, y, z, i)) by {
                reveal(has_recipe_lane);
            }
        },
        VectorOp::I32x4TruncSatF32x4S => {
            assert(has_recipe_lane(op, f, x, y, z, i)) by {
                reveal(has_recipe_lane);
            }
        },
        VectorOp::I32x4TruncSatF32x4U => {
            assert(has_recipe_lane(op, f, x, y, z, i)) by {
                reveal(has_recipe_lane);
            }
        },
        VectorOp::I32x4TruncSatF64x2SZero => {
            assert(has_recipe_lane(op, f, x, y, z, i)) by {
                reveal(has_recipe_lane);
            }
        },
        VectorOp::I32x4TruncSatF64x2UZero => {
            assert(has_recipe_lane(op, f, x, y, z, i)) by {
                reveal(has_recipe_lane);
            }
        },
        VectorOp::I8x16NarrowI16x8S => {
            assert(has_recipe_lane(op, f, x, y, z, i)) by {
                reveal(has_recipe_lane);
            }
        },
        VectorOp::I8x16NarrowI16x8U => {
            assert(has_recipe_lane(op, f, x, y, z, i)) by {
                reveal(has_recipe_lane);
            }
        },
        VectorOp::I16x8NarrowI32x4S => {
            assert(has_recipe_lane(op, f, x, y, z, i)) by {
                reveal(has_recipe_lane);
            }
        },
        VectorOp::I16x8NarrowI32x4U => {
            assert(has_recipe_lane(op, f, x, y, z, i)) by {
                reveal(has_recipe_lane);
            }
        },
        VectorOp::I16x8ExtendLowI8x16S => {
            assert(has_recipe_lane(op, f, x, y, z, i)) by {
                reveal(has_recipe_lane);
            }
        },
        VectorOp::I16x8ExtendHighI8x16S => {
            assert(has_recipe_lane(op, f, x, y, z, i)) by {
                reveal(has_recipe_lane);
            }
        },
        VectorOp::I16x8ExtendLowI8x16U => {
            assert(has_recipe_lane(op, f, x, y, z, i)) by {
                reveal(has_recipe_lane);
            }
        },
        VectorOp::I16x8ExtendHighI8x16U => {
            assert(has_recipe_lane(op, f, x, y, z, i)) by {
                reveal(has_recipe_lane);
            }
        },
        VectorOp::I16x8ExtMulLowI8x16S => {
            assert(has_recipe_lane(op, f, x, y, z, i)) by {
                reveal(has_recipe_lane);
            }
        },
        VectorOp::I16x8ExtMulHighI8x16S => {
            assert(has_recipe_lane(op, f, x, y, z, i)) by {
                reveal(has_recipe_lane);
            }
        },
        VectorOp::I16x8ExtMulLowI8x16U => {
            assert(has_recipe_lane(op, f, x, y, z, i)) by {
                reveal(has_recipe_lane);
            }
        },
        VectorOp::I16x8ExtMulHighI8x16U => {
            assert(has_recipe_lane(op, f, x, y, z, i)) by {
                reveal(has_recipe_lane);
            }
        },
        VectorOp::I16x8ExtAddPairwiseI8x16S => {
            assert(has_recipe_lane(op, f, x, y, z, i)) by {
                reveal(has_recipe_lane);
            }
        },
        VectorOp::I16x8ExtAddPairwiseI8x16U => {
            assert(has_recipe_lane(op, f, x, y, z, i)) by {
                reveal(has_recipe_lane);
            }
        },
        VectorOp::I32x4ExtendLowI16x8S => {
            assert(has_recipe_lane(op, f, x, y, z, i)) by {
                reveal(has_recipe_lane);
            }
        },
        VectorOp::I32x4ExtendHighI16x8S => {
            assert(has_recipe_lane(op, f, x, y, z, i)) by {
                reveal(has_recipe_lane);
            }
        },
        VectorOp::I32x4ExtendLowI16x8U => {
            assert(has_recipe_lane(op, f, x, y, z, i)) by {
                reveal(has_recipe_lane);
            }
        },
        VectorOp::I32x4ExtendHighI16x8U => {
            assert(has_recipe_lane(op, f, x, y, z, i)) by {
                reveal(has_recipe_lane);
            }
        },
        VectorOp::I32x4ExtMulLowI16x8S => {
            assert(has_recipe_lane(op, f, x, y, z, i)) by {
                reveal(has_recipe_lane);
            }
        },
        VectorOp::I32x4ExtMulHighI16x8S => {
            assert(has_recipe_lane(op, f, x, y, z, i)) by {
                reveal(has_recipe_lane);
            }
        },
        VectorOp::I32x4ExtMulLowI16x8U => {
            assert(has_recipe_lane(op, f, x, y, z, i)) by {
                reveal(has_recipe_lane);
            }
        },
        VectorOp::I32x4ExtMulHighI16x8U => {
            assert(has_recipe_lane(op, f, x, y, z, i)) by {
                reveal(has_recipe_lane);
            }
        },
        VectorOp::I32x4ExtAddPairwiseI16x8S => {
            assert(has_recipe_lane(op, f, x, y, z, i)) by {
                reveal(has_recipe_lane);
            }
        },
        VectorOp::I32x4ExtAddPairwiseI16x8U => {
            assert(has_recipe_lane(op, f, x, y, z, i)) by {
                reveal(has_recipe_lane);
            }
        },
        VectorOp::I64x2ExtendLowI32x4S => {
            assert(has_recipe_lane(op, f, x, y, z, i)) by {
                reveal(has_recipe_lane);
            }
        },
        VectorOp::I64x2ExtendHighI32x4S => {
            assert(has_recipe_lane(op, f, x, y, z, i)) by {
                reveal(has_recipe_lane);
            }
        },
        VectorOp::I64x2ExtendLowI32x4U => {
            assert(has_recipe_lane(op, f, x, y, z, i)) by {
                reveal(has_recipe_lane);
            }
        },
        VectorOp::I64x2ExtendHighI32x4U => {
            assert(has_recipe_lane(op, f, x, y, z, i)) by {
                reveal(has_recipe_lane);
            }
        },
        VectorOp::I64x2ExtMulLowI32x4S => {
            assert(has_recipe_lane(op, f, x, y, z, i)) by {
                reveal(has_recipe_lane);
            }
        },
        VectorOp::I64x2ExtMulHighI32x4S => {
            assert(has_recipe_lane(op, f, x, y, z, i)) by {
                reveal(has_recipe_lane);
            }
        },
        VectorOp::I64x2ExtMulLowI32x4U => {
            assert(has_recipe_lane(op, f, x, y, z, i)) by {
                reveal(has_recipe_lane);
            }
        },
        VectorOp::I64x2ExtMulHighI32x4U => {
            assert(has_recipe_lane(op, f, x, y, z, i)) by {
                reveal(has_recipe_lane);
            }
        },
        VectorOp::I32x4DotI16x8S => {
            assert(has_recipe_lane(op, f, x, y, z, i)) by {
                reveal(has_recipe_lane);
            }
        },
        VectorOp::I16x8Q15MulrSatS => {
            assert(has_recipe_lane(op, f, x, y, z, i)) by {
                reveal(has_recipe_lane);
            }
        },
        VectorOp::I32x4RelaxedTruncF32x4U => {
            assert(has_recipe_lane(op, f, x, y, z, i)) by {
                reveal(has_recipe_lane);
            }
        },
        VectorOp::I32x4RelaxedTruncF64x2UZero => {
            assert(has_recipe_lane(op, f, x, y, z, i)) by {
                reveal(has_recipe_lane);
            }
        },
        _ => {},
    }
}

/// The lanes that a recipe yields.
pub open spec fn recipe_lanes(recipe: VectorRecipe, f: Floats, x: int, y: int, z: int) -> Seq<int> {
    Seq::new(
        count(recipe_width(recipe)),
        |i: int| recipe_lane(recipe, f, x, y, z, i),
    )
}

/// The powers of two that widths give.
proof fn lemma_powers()
    ensures
        pow2(7) == 0x80,
        pow2(8) == 0x100,
        pow2(15) == 0x8000,
        pow2(16) == 0x1_0000,
        pow2(31) == 0x8000_0000,
        pow2(32) == 0x1_0000_0000,
        pow2(63) == 0x8000_0000_0000_0000,
        pow2(64) == 0x1_0000_0000_0000_0000,
{
    vstd::arithmetic::power2::lemma2_to64();
    vstd::arithmetic::power2::lemma2_to64_rest();
}

/// The numbers of lanes that widths give, and those of lanes twice and half as wide.
proof fn lemma_counts(ty: Type)
    ensures
        count(8) == 16,
        count(16) == 8,
        count(32) == 4,
        count(64) == 2,
        ({
            let n = ty.lane_bits();
            &&& n == 8 || n == 16 || n == 32 || n == 64
            &&& n <= 32 ==> count(2 * n) == count(n) / 2 && count(2 * n) * 2 == count(n)
            &&& n >= 16 ==> count(n / 2) == 2 * count(n)
        }),
{
    assert(128nat / 8 == 16 && 128nat / 16 == 8 && 128nat / 32 == 4 && 128nat / 64 == 2);
    let n = ty.lane_bits();
    if n == 8 {
        assert(2 * n == 16);
    } else if n == 16 {
        assert(2 * n == 32 && n / 2 == 8);
    } else if n == 32 {
        assert(2 * n == 64 && n / 2 == 16);
    } else {
        assert(n / 2 == 32);
    }
}

/// A lane is a pattern.
proof fn lemma_lane_pattern(n: nat, v: int, i: int)
    ensures
        is_pattern(n, lane(n, v, i)),
{
    reveal(lane);
    lemma_wrap(n, v / (pow2((n * i) as nat) as int));
}

/// A lane of widened lanes.
proof fn lemma_widened_lane(f: Floats, widen: UnaryOp, ty: Type, v: int, i: int)
    requires
        ty is I8X16 || ty is I16X8 || ty is I32X4,
        widens(widen),
        0 <= i < count(2 * ty.lane_bits()),
    ensures
        lane(2 * ty.lane_bits(), of_unary(f, widen, ty, v), i) == wrap(
            2 * ty.lane_bits(),
            widened_lane(widen, ty.lane_bits(), v, i),
        ),
{
    lemma_counts(ty);
    reveal(of_unary);
    lemma_powers();
    let n = ty.lane_bits();
    let half = count(n) / 2;
    let list = match widen {
        UnaryOp::SwidenLow => Seq::new(
            half,
            |i: int| wrap(2 * n, signed(n, lane(n, v, i))),
        ),
        UnaryOp::SwidenHigh => Seq::new(
            half,
            |i: int| wrap(2 * n, signed(n, lane(n, v, half + i))),
        ),
        UnaryOp::UwidenLow => Seq::new(half, |i: int| lane(n, v, i)),
        _ => Seq::new(half, |i: int| lane(n, v, half + i)),
    };
    assert(of_unary(f, widen, ty, v) == joined(2 * n, list));
    assert forall|j: int| 0 <= j < list.len() implies is_pattern(2 * n, #[trigger] list[j])
        && list[j] == wrap(2 * n, widened_lane(widen, n, v, j)) by {
        lemma_lane_pattern(n, v, j);
        lemma_lane_pattern(n, v, half + j);
        lemma_wrap(2 * n, widened_lane(widen, n, v, j));
    }
    lemma_lane_of_joined(2 * n, list, i);
}

/// Low bits can be taken of factors first.
proof fn lemma_wrapped_product(n: nat, a: int, b: int)
    ensures
        wrap(n, wrap(n, a) * wrap(n, b)) == wrap(n, a * b),
{
    vstd::arithmetic::power2::lemma_pow2_pos(n);
    vstd::arithmetic::div_mod::lemma_mul_mod_noop(a, b, pow2(n) as int);
}

/// A lane of products of widened lanes.
proof fn lemma_product_lane(f: Floats, widen: UnaryOp, ty: Type, a: int, b: int, i: int)
    requires
        ty is I8X16 || ty is I16X8 || ty is I32X4,
        widens(widen),
        0 <= i < count(2 * ty.lane_bits()),
    ensures
        ({
            let n = ty.lane_bits();
            let p = of_two(
                f,
                BinaryOp::Imul,
                ty.spec_widened(),
                of_unary(f, widen, ty, a),
                of_unary(f, widen, ty, b),
            );
            let list = Seq::new(
                count(2 * n),
                |i: int| wrap(2 * n, widened_lane(widen, n, a, i) * widened_lane(widen, n, b, i)),
            );
            &&& p == joined(2 * n, list)
            &&& lane(2 * n, p, i) == list[i]
        }),
{
    lemma_counts(ty);
    reveal(of_two);
    let n = ty.lane_bits();
    let u = of_unary(f, widen, ty, a);
    let v = of_unary(f, widen, ty, b);
    let list = Seq::new(
        count(2 * n),
        |i: int| wrap(2 * n, widened_lane(widen, n, a, i) * widened_lane(widen, n, b, i)),
    );
    let k = 2 * n;
    let op = BinaryOp::Imul;
    let found = Seq::new(count(k), |i: int| op.on_lanes(f, k, lane(k, u, i), lane(k, v, i)));
    assert(ty.spec_widened().lane_bits() == k);
    assert forall|j: int| 0 <= j < count(k) implies #[trigger] found[j] == list[j] && is_pattern(
        k,
        list[j],
    ) by {
        lemma_widened_lane(f, widen, ty, a, j);
        lemma_widened_lane(f, widen, ty, b, j);
        lemma_wrapped_product(k, widened_lane(widen, n, a, j), widened_lane(widen, n, b, j));
        lemma_wrap(k, widened_lane(widen, n, a, j) * widened_lane(widen, n, b, j));
    }
    assert(found =~= list);
    assert forall|j: int| 0 <= j < list.len() implies is_pattern(k, #[trigger] list[j]) by {
        assert(found[j] == list[j]);
    }
    lemma_lane_of_joined(k, list, i);
}

/// Neighbours of two vectors are added.
proof fn lemma_pairwise(f: Floats, ty: Type, a: int, b: int, list: Seq<int>, sums: Seq<int>)
    requires
        ty is I16X8 || ty is I32X4,
        list.len() == 2 * count(ty.lane_bits()),
        forall|j: int|
            0 <= j < list.len() ==> lane_of_two(ty.lane_bits(), a, b, j) == wrap(
                ty.lane_bits(),
                #[trigger] list[j],
            ),
        sums.len() == count(ty.lane_bits()),
        forall|i: int|
            0 <= i < sums.len() ==> #[trigger] sums[i] == wrap(
                ty.lane_bits(),
                list[2 * i] + list[2 * i + 1],
            ),
    ensures
        of_two(f, BinaryOp::IaddPairwise, ty, a, b) == joined(ty.lane_bits(), sums),
{
    lemma_counts(ty);
    reveal(of_two);
    let n = ty.lane_bits();
    let found = Seq::new(
        count(n),
        |i: int|
            wrap(
                n,
                crate::cranelift::meaning::lane_of_both(n, a, b, 2 * i)
                    + crate::cranelift::meaning::lane_of_both(n, a, b, 2 * i + 1),
            ),
    );
    assert forall|i: int| 0 <= i < count(n) implies #[trigger] found[i] == sums[i] by {
        let p = list[2 * i];
        let q = list[2 * i + 1];
        assert(lane_of_two(n, a, b, 2 * i) == wrap(n, p));
        assert(lane_of_two(n, a, b, 2 * i + 1) == wrap(n, q));
        lemma_wrapped_sum(n, p, q);
    }
    assert(found =~= sums);
}

/// The lanes of both halves, widened and added.
proof fn lemma_ext_add_value(ty: Type, low: UnaryOp, high: UnaryOp, f: Floats, z: int)
    requires
        regular(VectorRecipe::ExtAddPairwise(ty, low, high)),
    ensures
        ({
            let recipe = VectorRecipe::ExtAddPairwise(ty, low, high);
            recipe_value(recipe, f, ty, 0, 0, z) == joined(
                recipe_width(recipe),
                recipe_lanes(recipe, f, 0, 0, z),
            )
        }),
{
    lemma_counts(ty);
    let recipe = VectorRecipe::ExtAddPairwise(ty, low, high);
    let n = ty.lane_bits();
    let k = 2 * n;
    let wide = low.spec_result_type(ty);
    let a = of_unary(f, low, ty, z);
    let b = of_unary(f, high, ty, z);
    let list = Seq::new(
        2 * count(k),
        |j: int|
            if low is SwidenLow {
                signed(n, lane(n, z, j))
            } else {
                lane(n, z, j)
            },
    );
    assert forall|j: int| 0 <= j < list.len() implies lane_of_two(k, a, b, j) == wrap(
        k,
        #[trigger] list[j],
    ) by {
        if j < count(k) {
            lemma_widened_lane(f, low, ty, z, j);
        } else {
            lemma_widened_lane(f, high, ty, z, j - count(k));
        }
    }
    let sums = recipe_lanes(recipe, f, 0, 0, z);
    lemma_pairwise(f, wide, a, b, list, sums);
}

/// The lanes of a dot product.
proof fn lemma_dot_value(ty: Type, f: Floats, y: int, z: int)
    requires
        ty is I8X16 || ty is I16X8,
    ensures
        ({
            let recipe = VectorRecipe::Dot(ty);
            dot_value(f, ty, y, z) == joined(
                recipe_width(recipe),
                recipe_lanes(recipe, f, 0, y, z),
            )
        }),
{
    lemma_counts(ty);
    let recipe = VectorRecipe::Dot(ty);
    let n = ty.lane_bits();
    let k = 2 * n;
    let wide = ty.spec_widened();
    let low = UnaryOp::SwidenLow;
    let high = UnaryOp::SwidenHigh;
    let a = of_two(
        f,
        BinaryOp::Imul,
        wide,
        of_unary(f, low, ty, y),
        of_unary(f, low, ty, z),
    );
    let b = of_two(
        f,
        BinaryOp::Imul,
        wide,
        of_unary(f, high, ty, y),
        of_unary(f, high, ty, z),
    );
    let list = Seq::new(
        2 * count(k),
        |j: int| signed(n, lane(n, y, j)) * signed(n, lane(n, z, j)),
    );
    assert forall|j: int| 0 <= j < list.len() implies lane_of_two(k, a, b, j) == wrap(
        k,
        #[trigger] list[j],
    ) by {
        if j < count(k) {
            lemma_product_lane(f, low, ty, y, z, j);
        } else {
            lemma_product_lane(f, high, ty, y, z, j - count(k));
        }
    }
    let sums = recipe_lanes(recipe, f, 0, y, z);
    lemma_pairwise(f, wide, a, b, list, sums);
}

/// A number in range is found again in its pattern.
proof fn lemma_signed_of_wrap(v: int)
    requires
        -0x8000_0000_0000_0000 <= v < 0x8000_0000_0000_0000,
    ensures
        signed(64, wrap(64, v)) == v,
{
    lemma_powers();
    if v < 0 {
        lemma_wrap(64, v + pow2(64));
        lemma_wrapped_sum(64, v, pow2(64) as int);
        vstd::arithmetic::div_mod::lemma_mod_add_multiples_vanish(v, pow2(64) as int);
    } else {
        lemma_wrap(64, v);
    }
}

/// The lanes of a conversion of the low half.
proof fn lemma_convert_low_value(widen: UnaryOp, op: ConvertOp, f: Floats, z: int)
    requires
        regular(VectorRecipe::ConvertLow(widen, op)),
    ensures
        ({
            let recipe = VectorRecipe::ConvertLow(widen, op);
            recipe_value(recipe, f, Type::I32X4, 0, 0, z) == joined(
                64,
                recipe_lanes(recipe, f, 0, 0, z),
            )
        }),
{
    lemma_counts(Type::I32X4);
    reveal(of_one);
    lemma_powers();
    let recipe = VectorRecipe::ConvertLow(widen, op);
    let a = of_unary(f, widen, Type::I32X4, z);
    let k: nat = 64;
    let n: nat = 64;
    let found = Seq::new(count(k), |i: int| op.on_lane(f, n, k, lane(n, a, i)));
    let lanes = recipe_lanes(recipe, f, 0, 0, z);
    assert forall|i: int| 0 <= i < 2 implies #[trigger] found[i] == lanes[i] by {
        lemma_widened_lane(f, widen, Type::I32X4, z, i);
        lemma_lane_pattern(32, z, i);
        let v = widened_lane(widen, 32, z, i);
        lemma_signed_of_wrap(v);
        lemma_wrap(64, v);
    }
    assert(found =~= lanes);
}

/// Masks of all ones and of none.
proof fn lemma_masked(n: nat, v: int)
    requires
        n == 32 || n == 64,
        is_pattern(n, v),
    ensures
        both(v, pow2(n) - 1) == v,
        both(v, 0) == 0,
        either(v, 0) == v,
        either(0, v) == v,
{
    reveal(both);
    reveal(either);
    lemma_powers();
    let x = v as u128;
    assert(x & 0 == 0 && x | 0 == x && 0 | x == x) by (bit_vector);
    if n == 32 {
        assert(x & 0xffff_ffff == x) by (bit_vector)
            requires
                x < 0x1_0000_0000,
        ;
    } else {
        assert(x & 0xffff_ffff_ffff_ffff == x) by (bit_vector)
            requires
                x < 0x1_0000_0000_0000_0000,
        ;
    }
}

/// The lanes of a selection by a comparison.
proof fn lemma_pseudo_value(ty: Type, f: Floats, p: int, q: int, a: int, b: int)
    requires
        ty is F32X4 || ty is F64X2,
    ensures
        ({
            let n = ty.lane_bits();
            of_three(
                f,
                TernaryOp::Bitselect,
                ty,
                compared_floats(f, FloatCC::LessThan, ty, p, q),
                b,
                a,
            ) == joined(
                n,
                Seq::new(
                    count(n),
                    |i: int|
                        lesser(
                            (f.less)(n, lane(n, p, i), lane(n, q, i)),
                            lane(n, b, i),
                            lane(n, a, i),
                        ),
                ),
            )
        }),
{
    lemma_counts(ty);
    reveal(of_three);
    let n = ty.lane_bits();
    lemma_powers();
    let cc = FloatCC::LessThan;
    let chosen = compared_floats(f, cc, ty, p, q);
    let masks = Seq::new(
        count(n),
        |i: int| mask(n, cc.holds(f, n, lane(n, p, i), lane(n, q, i))),
    );
    assert(chosen == joined(n, masks));
    assert forall|i: int| 0 <= i < masks.len() implies is_pattern(n, #[trigger] masks[i]) by {}
    let found = Seq::new(
        count(n),
        |i: int|
            either(
                both(lane(n, b, i), lane(n, chosen, i)),
                both(lane(n, a, i), inverted(n, lane(n, chosen, i))),
            ),
    );
    let expected = Seq::new(
        count(n),
        |i: int|
            lesser((f.less)(n, lane(n, p, i), lane(n, q, i)), lane(n, b, i), lane(n, a, i)),
    );
    assert forall|i: int| 0 <= i < count(n) implies #[trigger] found[i] == expected[i] by {
        lemma_lane_of_joined(n, masks, i);
        assert(lane(n, chosen, i) == masks[i]);
        lemma_lane_pattern(n, a, i);
        lemma_lane_pattern(n, b, i);
        lemma_masked(n, lane(n, a, i));
        lemma_masked(n, lane(n, b, i));
        assert(either(0, 0) == 0) by {
            lemma_masked(n, 0);
        }
    }
    assert(found =~= expected);
}

/// The lanes of a conversion to integers that is narrowed.
proof fn lemma_trunc_zero_value(op: ConvertOp, narrow: BinaryOp, f: Floats, z: int)
    requires
        regular(VectorRecipe::TruncZero(op, narrow)),
    ensures
        ({
            let recipe = VectorRecipe::TruncZero(op, narrow);
            recipe_value(recipe, f, Type::F64X2, 0, 0, z) == joined(
                32,
                recipe_lanes(recipe, f, 0, 0, z),
            )
        }),
{
    lemma_counts(Type::I32X4);
    reveal(of_one);
    reveal(of_two);
    reveal(saturated);
    lemma_powers();
    let recipe = VectorRecipe::TruncZero(op, narrow);
    let c = of_one(f, op, Type::F64X2, Type::I64X2, z);
    let k: nat = 64;
    let n: nat = 64;
    let converted = Seq::new(count(k), |i: int| op.on_lane(f, n, k, lane(n, z, i)));
    assert(c == joined(64, converted));
    assert forall|i: int| 0 <= i < converted.len() implies is_pattern(
        64,
        #[trigger] converted[i],
    ) by {
        let x = (f.integral)(64, lane(64, z, i));
        lemma_wrap(64, least(64));
        lemma_wrap(64, greatest(64));
        lemma_wrap(64, 0);
        lemma_wrap(64, pow2(64) - 1);
        if let Integral::Number(v) = x {
            lemma_wrap(64, clamped(least(64), greatest(64), v));
            lemma_wrap(64, clamped(0, pow2(64) - 1, v));
        }
    }
    let half: nat = 32;
    let found = if narrow is Snarrow {
        Seq::new(
            2 * count(n),
            |i: int|
                wrap(
                    half,
                    clamped(
                        least(half),
                        greatest(half),
                        signed(n, crate::cranelift::meaning::lane_of_both(n, c, 0, i)),
                    ),
                ),
        )
    } else {
        Seq::new(
            2 * count(n),
            |i: int|
                clamped(
                    0,
                    pow2(half) - 1,
                    crate::cranelift::meaning::lane_of_both(n, c, 0, i),
                ),
        )
    };
    assert(n / 2 == half);
    assert(recipe_value(recipe, f, Type::F64X2, 0, 0, z) == joined(32, found));
    let lanes = recipe_lanes(recipe, f, 0, 0, z);
    assert forall|i: int| 0 <= i < 4 implies #[trigger] found[i] == lanes[i] by {
        lemma_wrap(32, 0);
        lemma_wrap(64, 0);
        if i < 2 {
            lemma_lane_of_joined(64, converted, i);
            let x = (f.integral)(64, lane(64, z, i));
            lemma_signed_of_wrap(least(64));
            lemma_signed_of_wrap(greatest(64));
            lemma_signed_of_wrap(0);
            lemma_wrap(64, pow2(64) - 1);
            lemma_wrap(32, pow2(32) - 1);
            if let Integral::Number(v) = x {
                lemma_signed_of_wrap(clamped(least(64), greatest(64), v));
                lemma_wrap(64, clamped(0, pow2(64) - 1, v));
                lemma_wrap(32, clamped(0, pow2(32) - 1, v));
            }
        } else {
            assert(lane(64, 0, i - 2) == 0) by {
                reveal(lane);
                vstd::arithmetic::power2::lemma_pow2_pos((64 * (i - 2)) as nat);
                vstd::arithmetic::div_mod::lemma_div_of0(pow2((64 * (i - 2)) as nat) as int);
            }
        }
    }
    assert(found =~= lanes);
}

/// The lanes that the instructions of a recipe yield.
#[verifier::spinoff_prover]
#[verifier::rlimit(100)]
proof fn lemma_recipe_lanes(recipe: VectorRecipe, f: Floats, last: Type, x: int, y: int, z: int)
    requires
        regular(recipe),
    ensures
        recipe_value(recipe, f, last, x, y, z) == joined(
            recipe_width(recipe),
            recipe_lanes(recipe, f, x, y, z),
        ),
{
    let lanes = recipe_lanes(recipe, f, x, y, z);
    lemma_counts(Type::I8X16);
    match recipe {
        VectorRecipe::Unary(ty, op) => {
            lemma_unary_lanes(ty, op, f, x, y, z);
        },
        VectorRecipe::Binary(ty, op) => {
            lemma_binary_lanes(ty, op, f, x, y, z);
        },
        VectorRecipe::Shift(ty, op) => {
            reveal(of_two);
            let n = ty.lane_bits();
            let found = Seq::new(count(n), |i: int| op.on_lanes(f, n, lane(n, y, i), z));
            assert(found =~= lanes);
        },
        VectorRecipe::SplatReduced(ty) => {
            reveal(of_one);
            let a = wrap(ty.lane_bits(), z);
            let k = ty.lane_bits();
            assert(ty.spec_lane_type().lane_bits() == k);
            assert(Seq::new(count(k), |i: int| a) =~= lanes);
        },
        VectorRecipe::Splat(ty) => {
            reveal(of_one);
            let k = ty.lane_bits();
            assert(Seq::new(count(k), |i: int| z) =~= lanes);
        },
        VectorRecipe::Compare(ty, cc) => {
            let n = ty.lane_bits();
            let found = Seq::new(
                count(n),
                |i: int| mask(n, cc.holds(n, lane(n, y, i), lane(n, z, i))),
            );
            assert(found =~= lanes);
        },
        VectorRecipe::FloatCompare(ty, cc) => {
            let n = ty.lane_bits();
            let found = Seq::new(
                count(n),
                |i: int| mask(n, cc.holds(f, n, lane(n, y, i), lane(n, z, i))),
            );
            assert(found =~= lanes);
        },
        VectorRecipe::Convert(ty, op, to) => {
            reveal(of_one);
            let n = ty.lane_bits();
            let k = to.lane_bits();
            let found = Seq::new(count(k), |i: int| op.on_lane(f, n, k, lane(n, z, i)));
            assert(found =~= lanes);
        },
        VectorRecipe::ConvertLow(widen, op) => {
            lemma_convert_low_value(widen, op, f, z);
            assert(lanes =~= recipe_lanes(recipe, f, 0, 0, z));
        },
        VectorRecipe::PseudoMax(ty) => {
            lemma_pseudo_value(ty, f, y, z, y, z);
            let n = ty.lane_bits();
            assert(lanes =~= Seq::new(
                count(n),
                |i: int|
                    lesser(
                        (f.less)(n, lane(n, y, i), lane(n, z, i)),
                        lane(n, z, i),
                        lane(n, y, i),
                    ),
            ));
        },
        VectorRecipe::PseudoMin(ty) => {
            lemma_pseudo_value(ty, f, z, y, y, z);
            let n = ty.lane_bits();
            assert(lanes =~= Seq::new(
                count(n),
                |i: int|
                    lesser(
                        (f.less)(n, lane(n, z, i), lane(n, y, i)),
                        lane(n, z, i),
                        lane(n, y, i),
                    ),
            ));
        },
        VectorRecipe::Bitselect => {
            reveal(of_three);
            let n: nat = 8;
            let found = Seq::new(
                count(n),
                |i: int|
                    either(
                        both(lane(n, x, i), lane(n, z, i)),
                        both(lane(n, y, i), inverted(n, lane(n, z, i))),
                    ),
            );
            assert(found =~= lanes);
        },
        VectorRecipe::TruncZero(op, narrow) => {
            lemma_trunc_zero_value(op, narrow, f, z);
            assert(lanes =~= recipe_lanes(recipe, f, 0, 0, z));
        },
        VectorRecipe::ExtAddPairwise(ty, low, high) => {
            lemma_ext_add_value(ty, low, high, f, z);
            assert(lanes =~= recipe_lanes(recipe, f, 0, 0, z));
        },
        VectorRecipe::ExtMul(ty, widen) => {
            let n = ty.lane_bits();
            lemma_counts(ty);
            lemma_product_lane(f, widen, ty, y, z, 0);
            assert(lanes =~= Seq::new(
                count(2 * n),
                |i: int| wrap(2 * n, widened_lane(widen, n, y, i) * widened_lane(widen, n, z, i)),
            ));
        },
        VectorRecipe::Dot(ty) => {
            lemma_dot_value(ty, f, y, z);
            assert(lanes =~= recipe_lanes(recipe, f, 0, y, z));
        },
        _ => {},
    }
}

/// The lanes of an instruction of one operand.
proof fn lemma_unary_lanes(ty: Type, op: UnaryOp, f: Floats, x: int, y: int, z: int)
    requires
        regular(VectorRecipe::Unary(ty, op)),
    ensures
        of_unary(f, op, ty, z) == joined(
            recipe_width(VectorRecipe::Unary(ty, op)),
            recipe_lanes(VectorRecipe::Unary(ty, op), f, x, y, z),
        ),
{
    lemma_counts(ty);
    reveal(of_unary);
    let lanes = recipe_lanes(VectorRecipe::Unary(ty, op), f, x, y, z);
    let n = ty.lane_bits();
    let half = count(n) / 2;
    match op {
        UnaryOp::SwidenLow => {
            assert(Seq::new(half, |i: int| wrap(2 * n, signed(n, lane(n, z, i)))) =~= lanes);
        },
        UnaryOp::SwidenHigh => {
            assert(Seq::new(half, |i: int| wrap(2 * n, signed(n, lane(n, z, half + i))))
                =~= lanes);
        },
        UnaryOp::UwidenLow => {
            assert(Seq::new(half, |i: int| lane(n, z, i)) =~= lanes);
        },
        UnaryOp::UwidenHigh => {
            assert(Seq::new(half, |i: int| lane(n, z, half + i)) =~= lanes);
        },
        UnaryOp::FvpromoteLow => {
            assert(Seq::new(2, |i: int| (f.promoted)(lane(32, z, i))) =~= lanes);
        },
        UnaryOp::Fvdemote => {
            assert(Seq::new(
                4,
                |i: int|
                    if i < 2 {
                        (f.demoted)(lane(64, z, i))
                    } else {
                        0
                    },
            ) =~= lanes);
        },
        _ => {
            assert(Seq::new(count(n), |i: int| op.on_lane(f, n, lane(n, z, i))) =~= lanes);
        },
    }
}

/// The lanes of an instruction of two operands.
proof fn lemma_binary_lanes(ty: Type, op: BinaryOp, f: Floats, x: int, y: int, z: int)
    requires
        regular(VectorRecipe::Binary(ty, op)),
    ensures
        of_two(f, op, ty, y, z) == joined(
            recipe_width(VectorRecipe::Binary(ty, op)),
            recipe_lanes(VectorRecipe::Binary(ty, op), f, x, y, z),
        ),
{
    lemma_counts(ty);
    reveal(of_two);
    let lanes = recipe_lanes(VectorRecipe::Binary(ty, op), f, x, y, z);
    let n = ty.lane_bits();
    let half = n / 2;
    match op {
        BinaryOp::Swizzle => {
            assert(Seq::new(
                16,
                |i: int|
                    if lane(8, z, i) < 16 {
                        lane(8, y, lane(8, z, i))
                    } else {
                        0
                    },
            ) =~= lanes);
        },
        BinaryOp::Snarrow => {
            assert(Seq::new(
                2 * count(n),
                |i: int|
                    wrap(
                        half,
                        clamped(
                            least(half),
                            greatest(half),
                            signed(n, crate::cranelift::meaning::lane_of_both(n, y, z, i)),
                        ),
                    ),
            ) =~= lanes);
        },
        BinaryOp::Unarrow => {
            assert(Seq::new(
                2 * count(n),
                |i: int|
                    clamped(
                        0,
                        pow2(half) - 1,
                        signed(n, crate::cranelift::meaning::lane_of_both(n, y, z, i)),
                    ),
            ) =~= lanes);
        },
        _ => {
            assert(Seq::new(
                count(n),
                |i: int| op.on_lanes(f, n, lane(n, y, i), lane(n, z, i)),
            ) =~= lanes);
        },
    }
}

impl VectorOp {
    /// The number of operands.
    pub open spec fn operand_count(self) -> int {
        match self {
            VectorOp::V128Bitselect | VectorOp::F32x4RelaxedMadd | VectorOp::F32x4RelaxedNmadd |
            VectorOp::F64x2RelaxedMadd | VectorOp::F64x2RelaxedNmadd |
            VectorOp::I8x16RelaxedLaneselect | VectorOp::I16x8RelaxedLaneselect |
            VectorOp::I32x4RelaxedLaneselect | VectorOp::I64x2RelaxedLaneselect |
            VectorOp::I32x4RelaxedDotI8x16I7x16AddS => 3,
            VectorOp::I8x16Add | VectorOp::I8x16Sub | VectorOp::I8x16Shl | VectorOp::I8x16ShrU |
            VectorOp::I8x16ShrS | VectorOp::I8x16AddSatS | VectorOp::I8x16AddSatU |
            VectorOp::I8x16SubSatS | VectorOp::I8x16SubSatU | VectorOp::I8x16AvgrU |
            VectorOp::I8x16MinS | VectorOp::I8x16MinU | VectorOp::I8x16MaxS |
            VectorOp::I8x16MaxU | VectorOp::I8x16Eq | VectorOp::I8x16Ne | VectorOp::I8x16GtS |
            VectorOp::I8x16LtS | VectorOp::I8x16GeS | VectorOp::I8x16LeS | VectorOp::I8x16GtU |
            VectorOp::I8x16LtU | VectorOp::I8x16GeU | VectorOp::I8x16LeU | VectorOp::I16x8Add |
            VectorOp::I16x8Sub | VectorOp::I16x8Mul | VectorOp::I16x8Shl | VectorOp::I16x8ShrU |
            VectorOp::I16x8ShrS | VectorOp::I16x8AddSatS | VectorOp::I16x8AddSatU |
            VectorOp::I16x8SubSatS | VectorOp::I16x8SubSatU | VectorOp::I16x8AvgrU |
            VectorOp::I16x8MinS | VectorOp::I16x8MinU | VectorOp::I16x8MaxS |
            VectorOp::I16x8MaxU | VectorOp::I16x8Eq | VectorOp::I16x8Ne | VectorOp::I16x8GtS |
            VectorOp::I16x8LtS | VectorOp::I16x8GeS | VectorOp::I16x8LeS | VectorOp::I16x8GtU |
            VectorOp::I16x8LtU | VectorOp::I16x8GeU | VectorOp::I16x8LeU | VectorOp::I32x4Add |
            VectorOp::I32x4Sub | VectorOp::I32x4Mul | VectorOp::I32x4Shl | VectorOp::I32x4ShrU |
            VectorOp::I32x4ShrS | VectorOp::I32x4MinS | VectorOp::I32x4MinU |
            VectorOp::I32x4MaxS | VectorOp::I32x4MaxU | VectorOp::I32x4Eq | VectorOp::I32x4Ne |
            VectorOp::I32x4GtS | VectorOp::I32x4LtS | VectorOp::I32x4GeS | VectorOp::I32x4LeS |
            VectorOp::I32x4GtU | VectorOp::I32x4LtU | VectorOp::I32x4GeU | VectorOp::I32x4LeU |
            VectorOp::I64x2Add | VectorOp::I64x2Sub | VectorOp::I64x2Mul | VectorOp::I64x2Shl |
            VectorOp::I64x2ShrU | VectorOp::I64x2ShrS | VectorOp::I64x2Eq | VectorOp::I64x2Ne |
            VectorOp::I64x2GtS | VectorOp::I64x2LtS | VectorOp::I64x2GeS | VectorOp::I64x2LeS |
            VectorOp::F32x4Eq | VectorOp::F32x4Ne | VectorOp::F32x4Lt | VectorOp::F32x4Gt |
            VectorOp::F32x4Le | VectorOp::F32x4Ge | VectorOp::F32x4Add | VectorOp::F32x4Sub |
            VectorOp::F32x4Mul | VectorOp::F32x4Div | VectorOp::F32x4Max | VectorOp::F32x4Min |
            VectorOp::F32x4PMax | VectorOp::F32x4PMin | VectorOp::F64x2Eq | VectorOp::F64x2Ne |
            VectorOp::F64x2Lt | VectorOp::F64x2Gt | VectorOp::F64x2Le | VectorOp::F64x2Ge |
            VectorOp::F64x2Add | VectorOp::F64x2Sub | VectorOp::F64x2Mul | VectorOp::F64x2Div |
            VectorOp::F64x2Max | VectorOp::F64x2Min | VectorOp::F64x2PMax | VectorOp::F64x2PMin
            | VectorOp::V128Or | VectorOp::V128Xor | VectorOp::V128And | VectorOp::V128AndNot |
            VectorOp::I8x16Swizzle | VectorOp::I8x16NarrowI16x8S | VectorOp::I8x16NarrowI16x8U |
            VectorOp::I16x8NarrowI32x4S | VectorOp::I16x8NarrowI32x4U |
            VectorOp::I16x8ExtMulLowI8x16S | VectorOp::I16x8ExtMulHighI8x16S |
            VectorOp::I16x8ExtMulLowI8x16U | VectorOp::I16x8ExtMulHighI8x16U |
            VectorOp::I32x4ExtMulLowI16x8S | VectorOp::I32x4ExtMulHighI16x8S |
            VectorOp::I32x4ExtMulLowI16x8U | VectorOp::I32x4ExtMulHighI16x8U |
            VectorOp::I64x2ExtMulLowI32x4S | VectorOp::I64x2ExtMulHighI32x4S |
            VectorOp::I64x2ExtMulLowI32x4U | VectorOp::I64x2ExtMulHighI32x4U |
            VectorOp::I32x4DotI16x8S | VectorOp::I16x8Q15MulrSatS | VectorOp::F32x4RelaxedMax |
            VectorOp::F32x4RelaxedMin | VectorOp::F64x2RelaxedMax | VectorOp::F64x2RelaxedMin |
            VectorOp::I8x16RelaxedSwizzle | VectorOp::I16x8RelaxedQ15mulrS |
            VectorOp::I16x8RelaxedDotI8x16I7x16S => 2,
            _ => 1,
        }
    }

    /// Whether the result may differ between machines.
    pub open spec fn may_differ(self) -> bool {
        match self {
            VectorOp::F32x4RelaxedMax | VectorOp::F32x4RelaxedMin | VectorOp::F32x4RelaxedMadd |
            VectorOp::F32x4RelaxedNmadd | VectorOp::F64x2RelaxedMax | VectorOp::F64x2RelaxedMin
            | VectorOp::F64x2RelaxedMadd | VectorOp::F64x2RelaxedNmadd |
            VectorOp::I8x16RelaxedLaneselect | VectorOp::I16x8RelaxedLaneselect |
            VectorOp::I32x4RelaxedLaneselect | VectorOp::I64x2RelaxedLaneselect |
            VectorOp::I8x16RelaxedSwizzle | VectorOp::I32x4RelaxedTruncF32x4S |
            VectorOp::I32x4RelaxedTruncF64x2SZero | VectorOp::I16x8RelaxedQ15mulrS |
            VectorOp::I16x8RelaxedDotI8x16I7x16S | VectorOp::I32x4RelaxedDotI8x16I7x16AddS => true,
            _ => false,
        }
    }
}

/// The lanes of a vector, joined again.
proof fn lemma_joined_lanes(n: nat, k: nat, v: int)
    requires
        v >= 0,
    ensures
        joined(n, Seq::new(k, |i: int| lane(n, v, i))) == wrap((n * k) as nat, v),
    decreases k,
{
    reveal(joined);
    reveal(lane);
    let list = Seq::new(k, |i: int| lane(n, v, i));
    if k == 0 {
        assert(n * k == 0) by (nonlinear_arith)
            requires
                k == 0,
        ;
        vstd::arithmetic::power2::lemma2_to64();
    } else {
        let j = (k - 1) as nat;
        lemma_joined_lanes(n, j, v);
        assert(list.drop_last() =~= Seq::new(j, |i: int| lane(n, v, i)));
        let b = pow2((n * j) as nat) as int;
        let c = pow2(n) as int;
        vstd::arithmetic::power2::lemma_pow2_pos((n * j) as nat);
        vstd::arithmetic::power2::lemma_pow2_pos(n);
        vstd::arithmetic::power2::lemma_pow2_adds((n * j) as nat, n);
        assert(n * j + n == n * k) by (nonlinear_arith)
            requires
                j == k - 1,
        ;
        vstd::arithmetic::div_mod::lemma_mod_breakdown(v, b, c);
        assert(b * ((v / b) % c) == ((v / b) % c) * b) by (nonlinear_arith);
    }
}

/// Lanes and their inverses add up to all ones.
proof fn lemma_inverted_sum(n: nat, list: Seq<int>, other: Seq<int>)
    requires
        list.len() == other.len(),
        forall|i: int| 0 <= i < list.len() ==> #[trigger] other[i] == inverted(n, list[i]),
    ensures
        joined(n, list) + joined(n, other) == pow2((n * list.len()) as nat) - 1,
    decreases list.len(),
{
    reveal(joined);
    if list.len() == 0 {
        assert(n * list.len() == 0) by (nonlinear_arith)
            requires
                list.len() == 0,
        ;
        vstd::arithmetic::power2::lemma2_to64();
    } else {
        let k = (list.len() - 1) as nat;
        let rest = list.drop_last();
        let others = other.drop_last();
        assert forall|i: int| 0 <= i < rest.len() implies #[trigger] others[i] == inverted(
            n,
            rest[i],
        ) by {
            assert(others[i] == other[i]);
        }
        lemma_inverted_sum(n, rest, others);
        let b = pow2((n * k) as nat) as int;
        let c = pow2(n) as int;
        vstd::arithmetic::power2::lemma_pow2_adds((n * k) as nat, n);
        assert(n * k + n == n * list.len()) by (nonlinear_arith)
            requires
                k == list.len() - 1,
        ;
        let l = list.last();
        assert(other[k as int] == inverted(n, list[k as int]));
        assert(l * b + (c - 1 - l) * b == b * c - b) by (nonlinear_arith);
    }
}

/// All bits flipped, whatever the lanes.
proof fn lemma_invert_value(f: Floats, ty: Type, z: int)
    requires
        ty.has_lanes(),
        is_pattern(128, z),
    ensures
        of_unary(f, UnaryOp::Bnot, ty, z) == inverted(128, z),
{
    reveal(of_unary);
    lemma_counts(ty);
    let n = ty.lane_bits();
    let k = count(n);
    let list = Seq::new(k, |i: int| lane(n, z, i));
    let op = UnaryOp::Bnot;
    let other = Seq::new(k, |i: int| op.on_lane(f, n, lane(n, z, i)));
    lemma_joined_lanes(n, k, z);
    lemma_inverted_sum(n, list, other);
    assert(n * k == 128) by {
        assert(8 * 16 == 128 && 16 * 8 == 128 && 32 * 4 == 128 && 64 * 2 == 128);
    }
    lemma_wrap(128, z);
}

/// The high bits of all lanes.
proof fn lemma_bitmask(ty: Type, f: Floats, z: int)
    ensures
        of_one(f, ConvertOp::VhighBits, ty, Type::I32, z) == joined(
            1,
            Seq::new(
                count(ty.lane_bits()),
                |i: int|
                    truth(lane(ty.lane_bits(), z, i) >= pow2((ty.lane_bits() - 1) as nat)),
            ),
        ),
{
    reveal(of_one);
    let n = ty.lane_bits();
    let found = Seq::new(count(n), |i: int| truth(lane(n, z, i) >= pow2((n - 1) as nat)));
    assert(found =~= Seq::new(
        count(ty.lane_bits()),
        |i: int| truth(lane(ty.lane_bits(), z, i) >= pow2((ty.lane_bits() - 1) as nat)),
    ));
}

/// Whether an operator computes what its recipe does.
#[verifier::opaque]
pub open spec fn has_recipe_value(
    op: VectorOp,
    f: Floats,
    last: Type,
    x: int,
    y: int,
    z: int,
) -> bool {
    recipe_value(op.recipe(), f, last, x, y, z) == op.value(f, x, y, z)
}

/// What the operators compute whose result is not made of lanes.
#[verifier::spinoff_prover]
#[verifier::rlimit(60)]
proof fn lemma_whole_value(op: VectorOp, f: Floats, last: Type, x: int, y: int, z: int)
    requires
        !op.may_differ(),
        !is_lanewise(op),
        op is V128Not ==> last.has_lanes() && is_pattern(128, z),
    ensures
        has_recipe_value(op, f, last, x, y, z),
{
    lemma_counts(Type::I8X16);
    match op {
        VectorOp::V128Not => {
            assert(has_recipe_value(op, f, last, x, y, z)) by {
                reveal(has_recipe_value);
                lemma_invert_value(f, last, z);
            }
        },
        VectorOp::V128AnyTrue => {
            assert(has_recipe_value(op, f, last, x, y, z)) by {
                reveal(has_recipe_value);
                reveal(of_unary);
            }
        },
        VectorOp::I8x16AllTrue => {
            assert(has_recipe_value(op, f, last, x, y, z)) by {
                reveal(has_recipe_value);
                reveal(of_unary);
                assert((forall|i: int| 0 <= i < count(8) ==> lane(8, z, i) != 0) <==> (
                forall|i: int| 0 <= i < 16 ==> lane(8, z, i) != 0));
            }
        },
        VectorOp::I16x8AllTrue => {
            assert(has_recipe_value(op, f, last, x, y, z)) by {
                reveal(has_recipe_value);
                reveal(of_unary);
                assert((forall|i: int| 0 <= i < count(16) ==> lane(16, z, i) != 0) <==> (
                forall|i: int| 0 <= i < 8 ==> lane(16, z, i) != 0));
            }
        },
        VectorOp::I32x4AllTrue => {
            assert(has_recipe_value(op, f, last, x, y, z)) by {
                reveal(has_recipe_value);
                reveal(of_unary);
                assert((forall|i: int| 0 <= i < count(32) ==> lane(32, z, i) != 0) <==> (
                forall|i: int| 0 <= i < 4 ==> lane(32, z, i) != 0));
            }
        },
        VectorOp::I64x2AllTrue => {
            assert(has_recipe_value(op, f, last, x, y, z)) by {
                reveal(has_recipe_value);
                reveal(of_unary);
                assert((forall|i: int| 0 <= i < count(64) ==> lane(64, z, i) != 0) <==> (
                forall|i: int| 0 <= i < 2 ==> lane(64, z, i) != 0));
            }
        },
        VectorOp::I8x16Bitmask => {
            assert(has_recipe_value(op, f, last, x, y, z)) by {
                reveal(has_recipe_value);
                lemma_bitmask(Type::I8X16, f, z);
                assert(Seq::new(
                    count(8),
                    |i: int| truth(lane(8, z, i) >= pow2((8nat - 1) as nat)),
                ) =~= Seq::new(16, |i: int| truth(lane(8, z, i) >= pow2(7))));
            }
        },
        VectorOp::I16x8Bitmask => {
            assert(has_recipe_value(op, f, last, x, y, z)) by {
                reveal(has_recipe_value);
                lemma_bitmask(Type::I16X8, f, z);
                assert(Seq::new(
                    count(16),
                    |i: int| truth(lane(16, z, i) >= pow2((16nat - 1) as nat)),
                ) =~= Seq::new(8, |i: int| truth(lane(16, z, i) >= pow2(15))));
            }
        },
        VectorOp::I32x4Bitmask => {
            assert(has_recipe_value(op, f, last, x, y, z)) by {
                reveal(has_recipe_value);
                lemma_bitmask(Type::I32X4, f, z);
                assert(Seq::new(
                    count(32),
                    |i: int| truth(lane(32, z, i) >= pow2((32nat - 1) as nat)),
                ) =~= Seq::new(4, |i: int| truth(lane(32, z, i) >= pow2(31))));
            }
        },
        VectorOp::I64x2Bitmask => {
            assert(has_recipe_value(op, f, last, x, y, z)) by {
                reveal(has_recipe_value);
                lemma_bitmask(Type::I64X2, f, z);
                assert(Seq::new(
                    count(64),
                    |i: int| truth(lane(64, z, i) >= pow2((64nat - 1) as nat)),
                ) =~= Seq::new(2, |i: int| truth(lane(64, z, i) >= pow2(63))));
            }
        },
        _ => {},
    }
}

/// What an operator computes is what its recipe does.
proof fn lemma_operator_value(op: VectorOp, f: Floats, last: Type, x: int, y: int, z: int)
    requires
        !op.may_differ(),
        op is V128Not ==> last.has_lanes() && is_pattern(128, z),
    ensures
        recipe_value(op.recipe(), f, last, x, y, z) == op.value(f, x, y, z),
        cannot_trap(op.recipe()),
{
    lemma_recipe_kind(op);
    if is_lanewise(op) {
        lemma_operator_lane(op, f, x, y, z, 0);
        assert(regular(op.recipe()) && op.lane_width() == recipe_width(op.recipe())) by {
            reveal(has_recipe_lane);
        }
        lemma_recipe_lanes(op.recipe(), f, last, x, y, z);
        let mine = Seq::new(
            count(op.lane_width()),
            |i: int| op.lane_value(f, x, y, z, i),
        );
        let lanes = recipe_lanes(op.recipe(), f, x, y, z);
        assert forall|i: int| 0 <= i < mine.len() implies #[trigger] mine[i] == lanes[i] by {
            lemma_operator_lane(op, f, x, y, z, i);
            reveal(has_recipe_lane);
        }
        assert(mine =~= lanes);
        assert(op.value(f, x, y, z) == joined(op.lane_width(), mine)) by {
            lemma_value_of_lanes(op, f, x, y, z);
        }
    } else {
        lemma_whole_value(op, f, last, x, y, z);
        reveal(has_recipe_value);
    }
}

/// What a lanewise operator computes.
proof fn lemma_value_of_lanes(op: VectorOp, f: Floats, x: int, y: int, z: int)
    requires
        is_lanewise(op),
    ensures
        op.value(f, x, y, z) == joined(
            op.lane_width(),
            Seq::new(count(op.lane_width()), |i: int| op.lane_value(f, x, y, z, i)),
        ),
{
}

/// How the recipe of an operator is used.
#[verifier::spinoff_prover]
#[verifier::rlimit(60)]
proof fn lemma_recipe_kind(op: VectorOp)
    requires
        !op.may_differ(),
    ensures
        !op.recipe().is_relaxed(),
        cannot_trap(op.recipe()),
        op.recipe().arity() == op.operand_count(),
{
}

/// An operator on vectors replaces its operands by the value that WebAssembly gives it, whatever the
/// arithmetic of floats.
#[verifier::spinoff_prover]
#[verifier::rlimit(60)]
pub proof fn vector_operators_compute(op: VectorOp, m: Machine, w: World, s: Moment)
    requires
        ready(w, s, 9),
        !op.may_differ(),
        w.st.stack.len() >= op.operand_count(),
        op is V128Not ==> w.code.ty(w.st.peek(0)).has_lanes() && is_pattern(128, operand(w, s, 0)),
    ensures
        goes_on(
            m,
            w,
            translated(Operator::Vector(op), w),
            s,
            operands_below(w, s, op.operand_count()).push(
                op.value(m.floats, operand(w, s, 2), operand(w, s, 1), operand(w, s, 0)),
            ),
        ),
{
    let from = w.code.steps.len();
    let at = Flow::On(s);
    let after = translated(Operator::Vector(op), w);
    let recipe = op.recipe();
    let x = w.st.peek(2);
    let y = w.st.peek(1);
    let z = w.st.peek(0);
    lemma_recipe_kind(op);
    lemma_operator_value(op, m.floats, w.code.ty(z), s.bits(x), s.bits(y), s.bits(z));
    lemma_run_nothing(m, w.code.steps, from, at);
    assert(w.code.has(z));
    if op.operand_count() >= 2 {
        assert(w.code.has(y));
    }
    if op.operand_count() == 3 {
        assert(w.code.has(x));
    }
    assert(computable(recipe, m, w.code, x, y, z, from, at, s)) by {
        reveal(computable);
    }
    lemma_strict(recipe, m, w.code, x, y, z, from, at, s);
    let t = choose|t: Moment| computed(recipe, m, w.code, x, y, z, from, at, s, t);
    let (c, v) = recipe.strict_result(w.code, x, y, z);
    reveal(computed);
    lemma_replaced(m, w, after, s, t, op.operand_count(), v);
}

/// The recipe that gives a relaxed operator its deterministic value, where one recipe does.
pub open spec fn settled(op: VectorOp) -> Option<VectorRecipe> {
    match op {
        VectorOp::F32x4RelaxedMax => Some(VectorRecipe::Binary(Type::F32X4, BinaryOp::Fmax)),
        VectorOp::F64x2RelaxedMax => Some(VectorRecipe::Binary(Type::F64X2, BinaryOp::Fmax)),
        VectorOp::F32x4RelaxedMin => Some(VectorRecipe::Binary(Type::F32X4, BinaryOp::Fmin)),
        VectorOp::F64x2RelaxedMin => Some(VectorRecipe::Binary(Type::F64X2, BinaryOp::Fmin)),
        VectorOp::I8x16RelaxedSwizzle => Some(
            VectorRecipe::Binary(Type::I8X16, BinaryOp::Swizzle),
        ),
        VectorOp::I32x4RelaxedTruncF32x4S => Some(
            VectorRecipe::Convert(Type::F32X4, ConvertOp::FcvtToSintSat, Type::I32X4),
        ),
        VectorOp::I32x4RelaxedTruncF64x2SZero => Some(
            VectorRecipe::TruncZero(ConvertOp::FcvtToSintSat, BinaryOp::Snarrow),
        ),
        VectorOp::I16x8RelaxedQ15mulrS => Some(
            VectorRecipe::Binary(Type::I16X8, BinaryOp::SqmulRoundSat),
        ),
        VectorOp::I16x8RelaxedDotI8x16I7x16S => Some(VectorRecipe::Dot(Type::I8X16)),
        _ => None,
    }
}

/// A product of three operands in every lane.
proof fn lemma_fused_value(f: Floats, ty: Type, a: int, b: int, c: int)
    requires
        ty.has_lanes(),
    ensures
        of_three(f, TernaryOp::Fma, ty, a, b, c) == joined(
            ty.lane_bits(),
            Seq::new(
                count(ty.lane_bits()),
                |i: int|
                    (f.fused)(
                        ty.lane_bits(),
                        lane(ty.lane_bits(), a, i),
                        lane(ty.lane_bits(), b, i),
                        lane(ty.lane_bits(), c, i),
                    ),
            ),
        ),
{
    reveal(of_three);
    let n = ty.lane_bits();
    assert(Seq::new(
        count(n),
        |i: int| (f.fused)(n, lane(n, a, i), lane(n, b, i), lane(n, c, i)),
    ) =~= Seq::new(
        count(ty.lane_bits()),
        |i: int|
            (f.fused)(
                ty.lane_bits(),
                lane(ty.lane_bits(), a, i),
                lane(ty.lane_bits(), b, i),
                lane(ty.lane_bits(), c, i),
            ),
    ));
}

/// Where results must not differ between machines, a relaxed operator that has one recipe replaces
/// its operands by its deterministic value.
#[verifier::spinoff_prover]
#[verifier::rlimit(60)]
pub proof fn settled_operators_compute(op: VectorOp, m: Machine, w: World, s: Moment)
    requires
        ready(w, s, 9),
        settled(op) is Some,
        w.env.relaxed_simd_deterministic,
        w.st.stack.len() >= op.operand_count(),
    ensures
        goes_on(
            m,
            w,
            translated(Operator::Vector(op), w),
            s,
            operands_below(w, s, op.operand_count()).push(
                op.value(m.floats, operand(w, s, 2), operand(w, s, 1), operand(w, s, 0)),
            ),
        ),
{
    reveal(VectorRecipe::relaxed_result);
    let f = m.floats;
    let from = w.code.steps.len();
    let at = Flow::On(s);
    let after = translated(Operator::Vector(op), w);
    let recipe = settled(op)->0;
    let x = w.st.peek(2);
    let y = w.st.peek(1);
    let z = w.st.peek(0);
    assert(w.code.has(z));
    if op.operand_count() >= 2 {
        assert(w.code.has(y));
    }
    assert(recipe.arity() == op.operand_count() && op.recipe().arity() == op.operand_count());
    lemma_run_nothing(m, w.code.steps, from, at);
    assert(computable(recipe, m, w.code, x, y, z, from, at, s)) by {
        reveal(computable);
    }
    lemma_strict(recipe, m, w.code, x, y, z, from, at, s);
    let t = choose|t: Moment| computed(recipe, m, w.code, x, y, z, from, at, s, t);
    let (a, b, c) = (s.bits(x), s.bits(y), s.bits(z));
    lemma_recipe_lanes(recipe, f, w.code.ty(z), a, b, c);
    lemma_settled_value(op, f, a, b, c);
    let v = recipe.strict_result(w.code, x, y, z).1;
    if recipe matches VectorRecipe::Dot(_) {
        reveal(VectorRecipe::strict_result);
    }
    assert((after.code, v) == (recipe.strict_result(w.code, x, y, z).0, v));
    assert(after.st == w.st.pop(op.operand_count()).push(v));
    reveal(computed);
    lemma_replaced(m, w, after, s, t, op.operand_count(), v);
}

/// The lanes of a relaxed operator that has one recipe.
#[verifier::spinoff_prover]
#[verifier::rlimit(60)]
proof fn lemma_settled_value(op: VectorOp, f: Floats, x: int, y: int, z: int)
    requires
        settled(op) is Some,
    ensures
        regular(settled(op)->0),
        op.value(f, x, y, z) == joined(
            recipe_width(settled(op)->0),
            recipe_lanes(settled(op)->0, f, x, y, z),
        ),
{
    let mine = Seq::new(count(op.lane_width()), |i: int| op.lane_value(f, x, y, z, i));
    assert(mine =~= recipe_lanes(settled(op)->0, f, x, y, z));
}

/// Where results must not differ between machines, a relaxed multiplication and addition rounds
/// once.
#[verifier::spinoff_prover]
#[verifier::rlimit(60)]
pub proof fn relaxed_additions_round_once(op: VectorOp, m: Machine, w: World, s: Moment)
    requires
        ready(w, s, 9),
        op is F32x4RelaxedMadd || op is F64x2RelaxedMadd,
        w.env.relaxed_simd_deterministic,
        w.st.stack.len() >= 3,
    ensures
        goes_on(
            m,
            w,
            translated(Operator::Vector(op), w),
            s,
            operands_below(w, s, 3).push(
                op.value(m.floats, operand(w, s, 2), operand(w, s, 1), operand(w, s, 0)),
            ),
        ),
{
    reveal(VectorRecipe::relaxed_result);
    let f = m.floats;
    let from = w.code.steps.len();
    let at = Flow::On(s);
    let after = translated(Operator::Vector(op), w);
    let x = w.st.peek(2);
    let y = w.st.peek(1);
    let z = w.st.peek(0);
    assert(w.code.has(x) && w.code.has(y) && w.code.has(z));
    lemma_run_nothing(m, w.code.steps, from, at);
    let (p, q, r) = (s.bits(x), s.bits(y), s.bits(z));
    let mine = Seq::new(count(op.lane_width()), |i: int| op.lane_value(f, p, q, r, i));
    let ty = op.recipe()->RelaxedMadd_0;
    assert(op.recipe() == VectorRecipe::RelaxedMadd(ty) && ty.has_lanes() && ty.lane_bits()
        == op.lane_width());
    assert(op.value(f, p, q, r) == joined(op.lane_width(), mine));
    let s1 = lemma_brought3(m, w.code, x, y, z, ty, from, at, s);
    let (c1, a, b, c) = brought3(w.code, x, y, z, ty);
    let t = lemma_ternary(m, c1, TernaryOp::Fma, a, b, c, from, at, s1);
    lemma_fused_value(f, ty, p, q, r);
    let n = ty.lane_bits();
    assert(mine =~= Seq::new(
        count(ty.lane_bits()),
        |i: int|
            (f.fused)(
                ty.lane_bits(),
                lane(ty.lane_bits(), p, i),
                lane(ty.lane_bits(), q, i),
                lane(ty.lane_bits(), r, i),
            ),
    ));
    lemma_replaced(m, w, after, s, t, 3, c1.next_value());
}

/// Where results must not differ between machines, a relaxed multiplication of the negated first
/// operand and addition rounds once.
#[verifier::spinoff_prover]
#[verifier::rlimit(60)]
pub proof fn relaxed_subtractions_round_once(op: VectorOp, m: Machine, w: World, s: Moment)
    requires
        ready(w, s, 9),
        op is F32x4RelaxedNmadd || op is F64x2RelaxedNmadd,
        w.env.relaxed_simd_deterministic,
        w.st.stack.len() >= 3,
    ensures
        goes_on(
            m,
            w,
            translated(Operator::Vector(op), w),
            s,
            operands_below(w, s, 3).push(
                op.value(m.floats, operand(w, s, 2), operand(w, s, 1), operand(w, s, 0)),
            ),
        ),
{
    reveal(VectorRecipe::relaxed_result);
    let f = m.floats;
    let from = w.code.steps.len();
    let at = Flow::On(s);
    let after = translated(Operator::Vector(op), w);
    let x = w.st.peek(2);
    let y = w.st.peek(1);
    let z = w.st.peek(0);
    assert(w.code.has(x) && w.code.has(y) && w.code.has(z));
    lemma_run_nothing(m, w.code.steps, from, at);
    let (p, q, r) = (s.bits(x), s.bits(y), s.bits(z));
    let mine = Seq::new(count(op.lane_width()), |i: int| op.lane_value(f, p, q, r, i));
    let ty = op.recipe()->RelaxedNmadd_0;
    assert(op.recipe() == VectorRecipe::RelaxedNmadd(ty) && ty.has_lanes() && ty.lane_bits()
        == op.lane_width());
    assert(op.value(f, p, q, r) == joined(op.lane_width(), mine));
    let s1 = lemma_brought3(m, w.code, x, y, z, ty, from, at, s);
    let (c1, a, b, c) = brought3(w.code, x, y, z, ty);
    let s2 = lemma_unary(m, c1, UnaryOp::Fneg, a, from, at, s1);
    let c2 = c1.unary(UnaryOp::Fneg, a);
    let negative = c1.next_value();
    assert(s2.values[b.0 as int] == s1.values[b.0 as int]);
    assert(s2.values[c.0 as int] == s1.values[c.0 as int]);
    assert(c2.ty(b) == ty);
    let t = lemma_ternary(m, c2, TernaryOp::Fma, negative, b, c, from, at, s2);
    let g = of_unary(f, UnaryOp::Fneg, ty, p);
    lemma_fused_value(f, ty, g, q, r);
    lemma_negated_lanes(f, ty, p);
    assert(mine =~= Seq::new(
        count(ty.lane_bits()),
        |i: int|
            (f.fused)(
                ty.lane_bits(),
                lane(ty.lane_bits(), g, i),
                lane(ty.lane_bits(), q, i),
                lane(ty.lane_bits(), r, i),
            ),
    ));
    lemma_replaced(m, w, after, s, t, 3, c2.next_value());
}

/// Where results must not differ between machines, a relaxed choice of lanes is one of bits.
#[verifier::spinoff_prover]
#[verifier::rlimit(60)]
pub proof fn relaxed_choices_are_of_bits(op: VectorOp, m: Machine, w: World, s: Moment)
    requires
        ready(w, s, 9),
        op is I8x16RelaxedLaneselect || op is I16x8RelaxedLaneselect || op is I32x4RelaxedLaneselect
            || op is I64x2RelaxedLaneselect,
        w.env.relaxed_simd_deterministic,
        w.st.stack.len() >= 3,
    ensures
        goes_on(
            m,
            w,
            translated(Operator::Vector(op), w),
            s,
            operands_below(w, s, 3).push(
                op.value(m.floats, operand(w, s, 2), operand(w, s, 1), operand(w, s, 0)),
            ),
        ),
{
    reveal(VectorRecipe::relaxed_result);
    let f = m.floats;
    let from = w.code.steps.len();
    let at = Flow::On(s);
    let after = translated(Operator::Vector(op), w);
    let x = w.st.peek(2);
    let y = w.st.peek(1);
    let z = w.st.peek(0);
    assert(w.code.has(x) && w.code.has(y) && w.code.has(z));
    lemma_run_nothing(m, w.code.steps, from, at);
    let (p, q, r) = (s.bits(x), s.bits(y), s.bits(z));
    let ty = op.recipe()->RelaxedLaneselect_0;
    assert(op.recipe() == VectorRecipe::RelaxedLaneselect(ty));
    let s1 = lemma_brought3(m, w.code, x, y, z, ty, from, at, s);
    let (c1, a, b, c) = brought3(w.code, x, y, z, ty);
    let t = lemma_ternary(m, c1, TernaryOp::Bitselect, c, a, b, from, at, s1);
    lemma_choice_value(op, f, p, q, r);
    lemma_replaced(m, w, after, s, t, 3, c1.next_value());
}

/// The lanes of a choice of bits.
#[verifier::spinoff_prover]
proof fn lemma_choice_value(op: VectorOp, f: Floats, p: int, q: int, r: int)
    requires
        op is I8x16RelaxedLaneselect || op is I16x8RelaxedLaneselect || op is I32x4RelaxedLaneselect
            || op is I64x2RelaxedLaneselect,
    ensures
        op.recipe() matches VectorRecipe::RelaxedLaneselect(ty) && of_three(
            f,
            TernaryOp::Bitselect,
            ty,
            r,
            p,
            q,
        ) == op.value(f, p, q, r),
{
    reveal(of_three);
    let ty = op.recipe()->RelaxedLaneselect_0;
    let n = op.lane_width();
    assert(ty.has_lanes() && ty.lane_bits() == n);
    let mine = Seq::new(count(op.lane_width()), |i: int| op.lane_value(f, p, q, r, i));
    let found = Seq::new(
        count(n),
        |i: int|
            either(
                both(lane(n, p, i), lane(n, r, i)),
                both(lane(n, q, i), inverted(n, lane(n, r, i))),
            ),
    );
    assert forall|i: int| 0 <= i < count(n) implies #[trigger] mine[i] == found[i] by {}
    assert(mine =~= found);
}

/// The lanes of a vector of floats with all signs flipped.
proof fn lemma_negated_lanes(f: Floats, ty: Type, v: int)
    requires
        ty is F32X4 || ty is F64X2,
    ensures
        forall|i: int|
            0 <= i < count(ty.lane_bits()) ==> #[trigger] lane(
                ty.lane_bits(),
                of_unary(f, UnaryOp::Fneg, ty, v),
                i,
            ) == negated(ty.lane_bits(), lane(ty.lane_bits(), v, i)),
{
    reveal(of_unary);
    reveal(negated);
    let n = ty.lane_bits();
    let op = UnaryOp::Fneg;
    let list = Seq::new(count(n), |i: int| op.on_lane(f, n, lane(n, v, i)));
    assert forall|i: int| 0 <= i < list.len() implies is_pattern(n, #[trigger] list[i]) by {
        lemma_wrap(n, lane(n, v, i) + pow2((n - 1) as nat));
    }
    assert forall|i: int| 0 <= i < count(n) implies #[trigger] lane(
        n,
        of_unary(f, op, ty, v),
        i,
    ) == negated(n, lane(n, v, i)) by {
        lemma_lane_of_joined(n, list, i);
    }
}

impl LaneOp {
    /// The number of operands.
    pub open spec fn operand_count(self) -> int {
        match self {
            LaneOp::I8x16ReplaceLane | LaneOp::I16x8ReplaceLane | LaneOp::I32x4ReplaceLane
            | LaneOp::I64x2ReplaceLane | LaneOp::F32x4ReplaceLane
            | LaneOp::F64x2ReplaceLane => 2,
            _ => 1,
        }
    }

    /// The width of the lanes.
    pub open spec fn lane_width(self) -> nat {
        match self {
            LaneOp::I8x16ExtractLaneS | LaneOp::I8x16ExtractLaneU | LaneOp::I8x16ReplaceLane => 8,
            LaneOp::I16x8ExtractLaneS | LaneOp::I16x8ExtractLaneU
            | LaneOp::I16x8ReplaceLane => 16,
            LaneOp::I32x4ExtractLane | LaneOp::F32x4ExtractLane | LaneOp::I32x4ReplaceLane
            | LaneOp::F32x4ReplaceLane => 32,
            _ => 64,
        }
    }

    /// The result for a vector and a scalar, of which a single operand is `z`, and a lane.
    pub open spec fn value(self, y: int, z: int, i: int) -> int {
        match self {
            LaneOp::I8x16ExtractLaneS => wrap(32, signed(8, lane(8, z, i))),
            LaneOp::I16x8ExtractLaneS => wrap(32, signed(16, lane(16, z, i))),
            LaneOp::I8x16ExtractLaneU => lane(8, z, i),
            LaneOp::I16x8ExtractLaneU => lane(16, z, i),
            LaneOp::I32x4ExtractLane | LaneOp::F32x4ExtractLane => lane(32, z, i),
            LaneOp::I64x2ExtractLane | LaneOp::F64x2ExtractLane => lane(64, z, i),
            LaneOp::I8x16ReplaceLane => joined(8, lanes(8, y).update(i, wrap(8, z))),
            LaneOp::I16x8ReplaceLane => joined(16, lanes(16, y).update(i, wrap(16, z))),
            LaneOp::I32x4ReplaceLane | LaneOp::F32x4ReplaceLane => joined(
                32,
                lanes(32, y).update(i, z),
            ),
            LaneOp::I64x2ReplaceLane | LaneOp::F64x2ReplaceLane => joined(
                64,
                lanes(64, y).update(i, z),
            ),
        }
    }
}

/// An operator on one lane replaces its operands by the lane, extended as WebAssembly says, or by
/// the vector with the lane replaced.
#[verifier::spinoff_prover]
#[verifier::rlimit(60)]
pub proof fn lane_operators_compute(op: LaneOp, i: u8, m: Machine, w: World, s: Moment)
    requires
        ready(w, s, 3),
        w.st.stack.len() >= op.operand_count(),
        i < count(op.lane_width()),
    ensures
        goes_on(
            m,
            w,
            translated(Operator::Lane { op, lane: i }, w),
            s,
            operands_below(w, s, op.operand_count()).push(
                op.value(operand(w, s, 1), operand(w, s, 0), i as int),
            ),
        ),
{
    reveal(LaneRecipe::result);
    let from = w.code.steps.len();
    let at = Flow::On(s);
    let after = translated(Operator::Lane { op, lane: i }, w);
    let y = w.st.peek(1);
    let z = w.st.peek(0);
    lemma_run_nothing(m, w.code.steps, from, at);
    assert(w.code.has(z));
    if op.operand_count() == 2 {
        assert(w.code.has(y));
    }
    match op.recipe() {
        LaneRecipe::ExtractExtend(ty, extend) => {
            let s1 = lemma_brought(m, w.code, z, ty, from, at, s);
            let (c1, v) = brought(w.code, z, ty);
            let s2 = lemma_extract(m, c1, v, i, from, at, s1);
            let c2 = c1.extract_lane(v, i);
            let t = lemma_convert(m, c2, extend, Type::I32, c1.next_value(), from, at, s2);
            reveal(of_one);
            lemma_replaced(m, w, after, s, t, 1, c2.next_value());
        },
        LaneRecipe::Extract(ty) => {
            let s1 = lemma_brought(m, w.code, z, ty, from, at, s);
            let (c1, v) = brought(w.code, z, ty);
            let t = lemma_extract(m, c1, v, i, from, at, s1);
            lemma_replaced(m, w, after, s, t, 1, c1.next_value());
        },
        LaneRecipe::ReplaceReduced(ty) => {
            let narrow = ty.spec_lane_type();
            let s1 = lemma_convert(m, w.code, ConvertOp::Ireduce, narrow, z, from, at, s);
            let c1 = w.code.convert(ConvertOp::Ireduce, narrow, z);
            reveal(of_one);
            assert(s1.values[y.0 as int] == s.values[y.0 as int]);
            let s2 = lemma_brought(m, c1, y, ty, from, at, s1);
            let (c2, v) = brought(c1, y, ty);
            let reduced = w.code.next_value();
            assert(s2.values[reduced.0 as int] == s1.values[reduced.0 as int]);
            let t = lemma_insert(m, c2, v, reduced, i, from, at, s2);
            lemma_replaced(m, w, after, s, t, 2, c2.next_value());
        },
        LaneRecipe::Replace(ty) => {
            let s1 = lemma_brought(m, w.code, y, ty, from, at, s);
            let (c1, v) = brought(w.code, y, ty);
            assert(s1.values[z.0 as int] == s.values[z.0 as int]);
            let t = lemma_insert(m, c1, v, z, i, from, at, s1);
            lemma_replaced(m, w, after, s, t, 2, c1.next_value());
        },
    }
}

/// One lane of a vector.
pub proof fn lemma_extract(
    m: Machine,
    code: Code,
    arg: Value,
    i: u8,
    from: nat,
    at: Flow,
    s: Moment,
) -> (t: Moment)
    requires
        from <= code.steps.len(),
        run(m, code.steps, from, at) == Flow::On(s),
        runs(s, code),
        code.has(arg),
        code.values.len() < usize::MAX,
    ensures
        run(m, code.extract_lane(arg, i).steps, from, at) == Flow::On(t),
        runs(t, code.extract_lane(arg, i)),
        went_on(t, s),
        t.bits(code.next_value()) == lane(code.ty(arg).lane_bits(), s.bits(arg), i as int),
        code.extract_lane(arg, i).ty(code.next_value()) == code.ty(arg).spec_lane_type(),
{
    reveal(performed);
    let ty = code.ty(arg).spec_lane_type();
    let bits = lane(code.ty(arg).lane_bits(), s.bits(arg), i as int);
    lemma_defined(m, code, Op::ExtractLane { arg, lane: i }, ty, from, at, s, bits);
    s.with(ty, bits)
}

/// A vector with one lane replaced.
pub proof fn lemma_insert(
    m: Machine,
    code: Code,
    a: Value,
    b: Value,
    i: u8,
    from: nat,
    at: Flow,
    s: Moment,
) -> (t: Moment)
    requires
        from <= code.steps.len(),
        run(m, code.steps, from, at) == Flow::On(s),
        runs(s, code),
        code.has(a),
        code.has(b),
        code.values.len() < usize::MAX,
    ensures
        run(m, code.insert_lane(a, b, i).steps, from, at) == Flow::On(t),
        runs(t, code.insert_lane(a, b, i)),
        went_on(t, s),
        t.bits(code.next_value()) == joined(
            code.ty(a).lane_bits(),
            lanes(code.ty(a).lane_bits(), s.bits(a)).update(i as int, s.bits(b)),
        ),
{
    reveal(performed);
    let ty = code.ty(a);
    let n = ty.lane_bits();
    let bits = joined(n, lanes(n, s.bits(a)).update(i as int, s.bits(b)));
    lemma_defined(m, code, Op::InsertLane { a, b, lane: i }, ty, from, at, s, bits);
    s.with(ty, bits)
}

} // verus!
