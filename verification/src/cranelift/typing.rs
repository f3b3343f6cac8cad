//! The types that operators on scalars have.
use crate::builder::Code;
use crate::cranelift::operator::NumericOp;
use crate::ir::{Type, Value};
use vstd::prelude::*;

verus! {

impl NumericOp {
    /// The type of the operands.
    pub open spec fn operand_type(self) -> Type {
        match self {
            NumericOp::I32Add
            | NumericOp::I32Sub
            | NumericOp::I32Mul
            | NumericOp::I32DivS
            | NumericOp::I32DivU
            | NumericOp::I32RemS
            | NumericOp::I32RemU
            | NumericOp::I32And
            | NumericOp::I32Or
            | NumericOp::I32Xor
            | NumericOp::I32Shl
            | NumericOp::I32ShrS
            | NumericOp::I32ShrU
            | NumericOp::I32Rotl
            | NumericOp::I32Rotr
            | NumericOp::I32Clz
            | NumericOp::I32Ctz
            | NumericOp::I32Popcnt
            | NumericOp::I64ExtendI32S
            | NumericOp::I64ExtendI32U
            | NumericOp::F32ConvertI32S
            | NumericOp::F32ConvertI32U
            | NumericOp::F64ConvertI32S
            | NumericOp::F64ConvertI32U
            | NumericOp::F32ReinterpretI32
            | NumericOp::I32LtS
            | NumericOp::I32LtU
            | NumericOp::I32LeS
            | NumericOp::I32LeU
            | NumericOp::I32GtS
            | NumericOp::I32GtU
            | NumericOp::I32GeS
            | NumericOp::I32GeU
            | NumericOp::I32Eq
            | NumericOp::I32Ne
            | NumericOp::I32Eqz
            | NumericOp::I32Extend8S
            | NumericOp::I32Extend16S => Type::I32,
            NumericOp::I64Add
            | NumericOp::I64Sub
            | NumericOp::I64Mul
            | NumericOp::I64DivS
            | NumericOp::I64DivU
            | NumericOp::I64RemS
            | NumericOp::I64RemU
            | NumericOp::I64And
            | NumericOp::I64Or
            | NumericOp::I64Xor
            | NumericOp::I64Shl
            | NumericOp::I64ShrS
            | NumericOp::I64ShrU
            | NumericOp::I64Rotl
            | NumericOp::I64Rotr
            | NumericOp::I64Clz
            | NumericOp::I64Ctz
            | NumericOp::I64Popcnt
            | NumericOp::I32WrapI64
            | NumericOp::F32ConvertI64S
            | NumericOp::F32ConvertI64U
            | NumericOp::F64ConvertI64S
            | NumericOp::F64ConvertI64U
            | NumericOp::F64ReinterpretI64
            | NumericOp::I64LtS
            | NumericOp::I64LtU
            | NumericOp::I64LeS
            | NumericOp::I64LeU
            | NumericOp::I64GtS
            | NumericOp::I64GtU
            | NumericOp::I64GeS
            | NumericOp::I64GeU
            | NumericOp::I64Eq
            | NumericOp::I64Ne
            | NumericOp::I64Eqz
            | NumericOp::I64Extend8S
            | NumericOp::I64Extend16S
            | NumericOp::I64Extend32S => Type::I64,
            NumericOp::F32Add
            | NumericOp::F32Sub
            | NumericOp::F32Mul
            | NumericOp::F32Div
            | NumericOp::F32Min
            | NumericOp::F32Max
            | NumericOp::F32Copysign
            | NumericOp::F32Sqrt
            | NumericOp::F32Ceil
            | NumericOp::F32Floor
            | NumericOp::F32Trunc
            | NumericOp::F32Nearest
            | NumericOp::F32Abs
            | NumericOp::F32Neg
            | NumericOp::I32TruncF32S
            | NumericOp::I32TruncF32U
            | NumericOp::I64TruncF32S
            | NumericOp::I64TruncF32U
            | NumericOp::F64PromoteF32
            | NumericOp::I32ReinterpretF32
            | NumericOp::F32Eq
            | NumericOp::F32Ne
            | NumericOp::F32Gt
            | NumericOp::F32Ge
            | NumericOp::F32Lt
            | NumericOp::F32Le
            | NumericOp::I32TruncSatF32S
            | NumericOp::I32TruncSatF32U
            | NumericOp::I64TruncSatF32S
            | NumericOp::I64TruncSatF32U => Type::F32,
            NumericOp::F64Add
            | NumericOp::F64Sub
            | NumericOp::F64Mul
            | NumericOp::F64Div
            | NumericOp::F64Min
            | NumericOp::F64Max
            | NumericOp::F64Copysign
            | NumericOp::F64Sqrt
            | NumericOp::F64Ceil
            | NumericOp::F64Floor
            | NumericOp::F64Trunc
            | NumericOp::F64Nearest
            | NumericOp::F64Abs
            | NumericOp::F64Neg
            | NumericOp::I32TruncF64S
            | NumericOp::I32TruncF64U
            | NumericOp::I64TruncF64S
            | NumericOp::I64TruncF64U
            | NumericOp::F32DemoteF64
            | NumericOp::I64ReinterpretF64
            | NumericOp::F64Eq
            | NumericOp::F64Ne
            | NumericOp::F64Gt
            | NumericOp::F64Ge
            | NumericOp::F64Lt
            | NumericOp::F64Le
            | NumericOp::I32TruncSatF64S
            | NumericOp::I32TruncSatF64U
            | NumericOp::I64TruncSatF64S
            | NumericOp::I64TruncSatF64U => Type::F64,
        }
    }

    /// The type of the result.
    pub open spec fn result_type(self) -> Type {
        match self {
            NumericOp::I32Add
            | NumericOp::I32Sub
            | NumericOp::I32Mul
            | NumericOp::I32DivS
            | NumericOp::I32DivU
            | NumericOp::I32RemS
            | NumericOp::I32RemU
            | NumericOp::I32And
            | NumericOp::I32Or
            | NumericOp::I32Xor
            | NumericOp::I32Shl
            | NumericOp::I32ShrS
            | NumericOp::I32ShrU
            | NumericOp::I32Rotl
            | NumericOp::I32Rotr
            | NumericOp::I32Clz
            | NumericOp::I32Ctz
            | NumericOp::I32Popcnt
            | NumericOp::I32WrapI64
            | NumericOp::I32TruncF64S
            | NumericOp::I32TruncF32S
            | NumericOp::I32TruncF64U
            | NumericOp::I32TruncF32U
            | NumericOp::I32ReinterpretF32
            | NumericOp::I32LtS
            | NumericOp::I64LtS
            | NumericOp::I32LtU
            | NumericOp::I64LtU
            | NumericOp::I32LeS
            | NumericOp::I64LeS
            | NumericOp::I32LeU
            | NumericOp::I64LeU
            | NumericOp::I32GtS
            | NumericOp::I64GtS
            | NumericOp::I32GtU
            | NumericOp::I64GtU
            | NumericOp::I32GeS
            | NumericOp::I64GeS
            | NumericOp::I32GeU
            | NumericOp::I64GeU
            | NumericOp::I32Eq
            | NumericOp::I64Eq
            | NumericOp::I32Ne
            | NumericOp::I64Ne
            | NumericOp::I32Eqz
            | NumericOp::I64Eqz
            | NumericOp::F32Eq
            | NumericOp::F64Eq
            | NumericOp::F32Ne
            | NumericOp::F64Ne
            | NumericOp::F32Gt
            | NumericOp::F64Gt
            | NumericOp::F32Ge
            | NumericOp::F64Ge
            | NumericOp::F32Lt
            | NumericOp::F64Lt
            | NumericOp::F32Le
            | NumericOp::F64Le
            | NumericOp::I32Extend8S
            | NumericOp::I32Extend16S
            | NumericOp::I32TruncSatF64S
            | NumericOp::I32TruncSatF32S
            | NumericOp::I32TruncSatF64U
            | NumericOp::I32TruncSatF32U => Type::I32,
            NumericOp::I64Add
            | NumericOp::I64Sub
            | NumericOp::I64Mul
            | NumericOp::I64DivS
            | NumericOp::I64DivU
            | NumericOp::I64RemS
            | NumericOp::I64RemU
            | NumericOp::I64And
            | NumericOp::I64Or
            | NumericOp::I64Xor
            | NumericOp::I64Shl
            | NumericOp::I64ShrS
            | NumericOp::I64ShrU
            | NumericOp::I64Rotl
            | NumericOp::I64Rotr
            | NumericOp::I64Clz
            | NumericOp::I64Ctz
            | NumericOp::I64Popcnt
            | NumericOp::I64ExtendI32S
            | NumericOp::I64ExtendI32U
            | NumericOp::I64TruncF64S
            | NumericOp::I64TruncF32S
            | NumericOp::I64TruncF64U
            | NumericOp::I64TruncF32U
            | NumericOp::I64ReinterpretF64
            | NumericOp::I64Extend8S
            | NumericOp::I64Extend16S
            | NumericOp::I64Extend32S
            | NumericOp::I64TruncSatF64S
            | NumericOp::I64TruncSatF32S
            | NumericOp::I64TruncSatF64U
            | NumericOp::I64TruncSatF32U => Type::I64,
            NumericOp::F32Add
            | NumericOp::F32Sub
            | NumericOp::F32Mul
            | NumericOp::F32Div
            | NumericOp::F32Min
            | NumericOp::F32Max
            | NumericOp::F32Copysign
            | NumericOp::F32Sqrt
            | NumericOp::F32Ceil
            | NumericOp::F32Floor
            | NumericOp::F32Trunc
            | NumericOp::F32Nearest
            | NumericOp::F32Abs
            | NumericOp::F32Neg
            | NumericOp::F32DemoteF64
            | NumericOp::F32ConvertI64S
            | NumericOp::F32ConvertI32S
            | NumericOp::F32ConvertI64U
            | NumericOp::F32ConvertI32U
            | NumericOp::F32ReinterpretI32 => Type::F32,
            NumericOp::F64Add
            | NumericOp::F64Sub
            | NumericOp::F64Mul
            | NumericOp::F64Div
            | NumericOp::F64Min
            | NumericOp::F64Max
            | NumericOp::F64Copysign
            | NumericOp::F64Sqrt
            | NumericOp::F64Ceil
            | NumericOp::F64Floor
            | NumericOp::F64Trunc
            | NumericOp::F64Nearest
            | NumericOp::F64Abs
            | NumericOp::F64Neg
            | NumericOp::F64ConvertI64S
            | NumericOp::F64ConvertI32S
            | NumericOp::F64ConvertI64U
            | NumericOp::F64ConvertI32U
            | NumericOp::F64PromoteF32
            | NumericOp::F64ReinterpretI64 => Type::F64,
        }
    }
}

/// An operator on scalars whose operands have the right type yields a value of the right type.
pub proof fn numeric_operators_are_typed(op: NumericOp, code: Code, a: Value, b: Value)
    requires
        code.values.len() + 2 <= usize::MAX,
        op.recipe().arity() == 2 ==> code.has(a) && code.ty(a) == op.operand_type(),
        code.has(b),
        code.ty(b) == op.operand_type(),
    ensures
        ({
            let (after, v) = op.recipe().result(code, a, b);
            after.has(v) && after.ty(v) == op.result_type()
        }),
{
    reveal(crate::cranelift::operator::NumericRecipe::result);
}

} // verus!
