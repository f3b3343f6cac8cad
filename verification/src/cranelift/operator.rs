//! WebAssembly operators, and the recipes by which the regular ones are translated.
use crate::cranelift::memory::MemArg;
use crate::cranelift::state::BlockType;
use crate::ir::{BinaryOp, ConvertOp, FloatCC, IntCC, Opcode, Type, UnaryOp};
use crate::types::WasmHeapType;
use vstd::prelude::*;

verus! {

/// How an operator on scalars is translated.
#[derive(Debug, Clone, Copy, PartialEq, Eq, Structural)]
pub enum NumericRecipe {
    /// One operand, one instruction.
    Unary(UnaryOp),
    /// Two operands, one instruction.
    Binary(BinaryOp),
    /// One operand, one instruction with a chosen result type.
    Convert(ConvertOp, Type),
    /// The same bits as another type.
    Reinterpret(Type),
    /// A comparison of integers, widened to 32 bits.
    Compare(IntCC),
    /// A comparison of floats, widened to 32 bits.
    FloatCompare(FloatCC),
    /// A comparison with zero, widened to 32 bits.
    EqualsZero,
    /// The low bits, extended with their sign.
    SignExtend(Type, Type),
}

/// Operators on scalars without immediates.
#[derive(Debug, Clone, Copy, PartialEq, Eq, Structural)]
pub enum NumericOp {
    I32Add,
    I64Add,
    I32Sub,
    I64Sub,
    I32Mul,
    I64Mul,
    I32DivS,
    I64DivS,
    I32DivU,
    I64DivU,
    I32RemS,
    I64RemS,
    I32RemU,
    I64RemU,
    I32And,
    I64And,
    I32Or,
    I64Or,
    I32Xor,
    I64Xor,
    I32Shl,
    I64Shl,
    I32ShrS,
    I64ShrS,
    I32ShrU,
    I64ShrU,
    I32Rotl,
    I64Rotl,
    I32Rotr,
    I64Rotr,
    I32Clz,
    I64Clz,
    I32Ctz,
    I64Ctz,
    I32Popcnt,
    I64Popcnt,
    I32WrapI64,
    I64ExtendI32S,
    I64ExtendI32U,
    F32Add,
    F64Add,
    F32Sub,
    F64Sub,
    F32Mul,
    F64Mul,
    F32Div,
    F64Div,
    F32Min,
    F64Min,
    F32Max,
    F64Max,
    F32Copysign,
    F64Copysign,
    F32Sqrt,
    F64Sqrt,
    F32Ceil,
    F64Ceil,
    F32Floor,
    F64Floor,
    F32Trunc,
    F64Trunc,
    F32Nearest,
    F64Nearest,
    F32Abs,
    F64Abs,
    F32Neg,
    F64Neg,
    I32TruncF64S,
    I32TruncF32S,
    I32TruncF64U,
    I32TruncF32U,
    I64TruncF64S,
    I64TruncF32S,
    I64TruncF64U,
    I64TruncF32U,
    F32DemoteF64,
    F32ConvertI64S,
    F32ConvertI32S,
    F32ConvertI64U,
    F32ConvertI32U,
    F64ConvertI64S,
    F64ConvertI32S,
    F64ConvertI64U,
    F64ConvertI32U,
    F64PromoteF32,
    F32ReinterpretI32,
    F64ReinterpretI64,
    I32ReinterpretF32,
    I64ReinterpretF64,
    I32LtS,
    I64LtS,
    I32LtU,
    I64LtU,
    I32LeS,
    I64LeS,
    I32LeU,
    I64LeU,
    I32GtS,
    I64GtS,
    I32GtU,
    I64GtU,
    I32GeS,
    I64GeS,
    I32GeU,
    I64GeU,
    I32Eq,
    I64Eq,
    I32Ne,
    I64Ne,
    I32Eqz,
    I64Eqz,
    F32Eq,
    F64Eq,
    F32Ne,
    F64Ne,
    F32Gt,
    F64Gt,
    F32Ge,
    F64Ge,
    F32Lt,
    F64Lt,
    F32Le,
    F64Le,
    I32Extend8S,
    I32Extend16S,
    I64Extend8S,
    I64Extend16S,
    I64Extend32S,
    I32TruncSatF64S,
    I32TruncSatF32S,
    I32TruncSatF64U,
    I32TruncSatF32U,
    I64TruncSatF64S,
    I64TruncSatF32S,
    I64TruncSatF64U,
    I64TruncSatF32U,
}

impl NumericOp {
    /// How the operator is translated.
    pub open spec fn recipe(self) -> NumericRecipe {
        match self {
            NumericOp::I32Add | NumericOp::I64Add => NumericRecipe::Binary(BinaryOp::Iadd),
            NumericOp::I32Sub | NumericOp::I64Sub => NumericRecipe::Binary(BinaryOp::Isub),
            NumericOp::I32Mul | NumericOp::I64Mul => NumericRecipe::Binary(BinaryOp::Imul),
            NumericOp::I32DivS | NumericOp::I64DivS => NumericRecipe::Binary(BinaryOp::Sdiv),
            NumericOp::I32DivU | NumericOp::I64DivU => NumericRecipe::Binary(BinaryOp::Udiv),
            NumericOp::I32RemS | NumericOp::I64RemS => NumericRecipe::Binary(BinaryOp::Srem),
            NumericOp::I32RemU | NumericOp::I64RemU => NumericRecipe::Binary(BinaryOp::Urem),
            NumericOp::I32And | NumericOp::I64And => NumericRecipe::Binary(BinaryOp::Band),
            NumericOp::I32Or | NumericOp::I64Or => NumericRecipe::Binary(BinaryOp::Bor),
            NumericOp::I32Xor | NumericOp::I64Xor => NumericRecipe::Binary(BinaryOp::Bxor),
            NumericOp::I32Shl | NumericOp::I64Shl => NumericRecipe::Binary(BinaryOp::Ishl),
            NumericOp::I32ShrS | NumericOp::I64ShrS => NumericRecipe::Binary(BinaryOp::Sshr),
            NumericOp::I32ShrU | NumericOp::I64ShrU => NumericRecipe::Binary(BinaryOp::Ushr),
            NumericOp::I32Rotl | NumericOp::I64Rotl => NumericRecipe::Binary(BinaryOp::Rotl),
            NumericOp::I32Rotr | NumericOp::I64Rotr => NumericRecipe::Binary(BinaryOp::Rotr),
            NumericOp::I32Clz | NumericOp::I64Clz => NumericRecipe::Unary(UnaryOp::Clz),
            NumericOp::I32Ctz | NumericOp::I64Ctz => NumericRecipe::Unary(UnaryOp::Ctz),
            NumericOp::I32Popcnt | NumericOp::I64Popcnt => NumericRecipe::Unary(UnaryOp::Popcnt),
            NumericOp::I32WrapI64 => NumericRecipe::Convert(ConvertOp::Ireduce, Type::I32),
            NumericOp::I64ExtendI32S => NumericRecipe::Convert(ConvertOp::Sextend, Type::I64),
            NumericOp::I64ExtendI32U => NumericRecipe::Convert(ConvertOp::Uextend, Type::I64),
            NumericOp::F32Add | NumericOp::F64Add => NumericRecipe::Binary(BinaryOp::Fadd),
            NumericOp::F32Sub | NumericOp::F64Sub => NumericRecipe::Binary(BinaryOp::Fsub),
            NumericOp::F32Mul | NumericOp::F64Mul => NumericRecipe::Binary(BinaryOp::Fmul),
            NumericOp::F32Div | NumericOp::F64Div => NumericRecipe::Binary(BinaryOp::Fdiv),
            NumericOp::F32Min | NumericOp::F64Min => NumericRecipe::Binary(BinaryOp::Fmin),
            NumericOp::F32Max | NumericOp::F64Max => NumericRecipe::Binary(BinaryOp::Fmax),
            NumericOp::F32Copysign | NumericOp::F64Copysign => NumericRecipe::Binary(BinaryOp::Fcopysign),
            NumericOp::F32Sqrt | NumericOp::F64Sqrt => NumericRecipe::Unary(UnaryOp::Sqrt),
            NumericOp::F32Ceil | NumericOp::F64Ceil => NumericRecipe::Unary(UnaryOp::Ceil),
            NumericOp::F32Floor | NumericOp::F64Floor => NumericRecipe::Unary(UnaryOp::Floor),
            NumericOp::F32Trunc | NumericOp::F64Trunc => NumericRecipe::Unary(UnaryOp::Trunc),
            NumericOp::F32Nearest | NumericOp::F64Nearest => NumericRecipe::Unary(UnaryOp::Nearest),
            NumericOp::F32Abs | NumericOp::F64Abs => NumericRecipe::Unary(UnaryOp::Fabs),
            NumericOp::F32Neg | NumericOp::F64Neg => NumericRecipe::Unary(UnaryOp::Fneg),
            NumericOp::I32TruncF64S | NumericOp::I32TruncF32S => NumericRecipe::Convert(ConvertOp::FcvtToSint, Type::I32),
            NumericOp::I32TruncF64U | NumericOp::I32TruncF32U => NumericRecipe::Convert(ConvertOp::FcvtToUint, Type::I32),
            NumericOp::I64TruncF64S | NumericOp::I64TruncF32S => NumericRecipe::Convert(ConvertOp::FcvtToSint, Type::I64),
            NumericOp::I64TruncF64U | NumericOp::I64TruncF32U => NumericRecipe::Convert(ConvertOp::FcvtToUint, Type::I64),
            NumericOp::F32DemoteF64 => NumericRecipe::Convert(ConvertOp::Fdemote, Type::F32),
            NumericOp::F32ConvertI64S | NumericOp::F32ConvertI32S => NumericRecipe::Convert(ConvertOp::FcvtFromSint, Type::F32),
            NumericOp::F32ConvertI64U | NumericOp::F32ConvertI32U => NumericRecipe::Convert(ConvertOp::FcvtFromUint, Type::F32),
            NumericOp::F64ConvertI64S | NumericOp::F64ConvertI32S => NumericRecipe::Convert(ConvertOp::FcvtFromSint, Type::F64),
            NumericOp::F64ConvertI64U | NumericOp::F64ConvertI32U => NumericRecipe::Convert(ConvertOp::FcvtFromUint, Type::F64),
            NumericOp::F64PromoteF32 => NumericRecipe::Convert(ConvertOp::Fpromote, Type::F64),
            NumericOp::F32ReinterpretI32 => NumericRecipe::Reinterpret(Type::F32),
            NumericOp::F64ReinterpretI64 => NumericRecipe::Reinterpret(Type::F64),
            NumericOp::I32ReinterpretF32 => NumericRecipe::Reinterpret(Type::I32),
            NumericOp::I64ReinterpretF64 => NumericRecipe::Reinterpret(Type::I64),
            NumericOp::I32LtS | NumericOp::I64LtS => NumericRecipe::Compare(IntCC::SignedLessThan),
            NumericOp::I32LtU | NumericOp::I64LtU => NumericRecipe::Compare(IntCC::UnsignedLessThan),
            NumericOp::I32LeS | NumericOp::I64LeS => NumericRecipe::Compare(IntCC::SignedLessThanOrEqual),
            NumericOp::I32LeU | NumericOp::I64LeU => NumericRecipe::Compare(IntCC::UnsignedLessThanOrEqual),
            NumericOp::I32GtS | NumericOp::I64GtS => NumericRecipe::Compare(IntCC::SignedGreaterThan),
            NumericOp::I32GtU | NumericOp::I64GtU => NumericRecipe::Compare(IntCC::UnsignedGreaterThan),
            NumericOp::I32GeS | NumericOp::I64GeS => NumericRecipe::Compare(IntCC::SignedGreaterThanOrEqual),
            NumericOp::I32GeU | NumericOp::I64GeU => NumericRecipe::Compare(IntCC::UnsignedGreaterThanOrEqual),
            NumericOp::I32Eq | NumericOp::I64Eq => NumericRecipe::Compare(IntCC::Equal),
            NumericOp::I32Ne | NumericOp::I64Ne => NumericRecipe::Compare(IntCC::NotEqual),
            NumericOp::I32Eqz | NumericOp::I64Eqz => NumericRecipe::EqualsZero,
            NumericOp::F32Eq | NumericOp::F64Eq => NumericRecipe::FloatCompare(FloatCC::Equal),
            NumericOp::F32Ne | NumericOp::F64Ne => NumericRecipe::FloatCompare(FloatCC::NotEqual),
            NumericOp::F32Gt | NumericOp::F64Gt => NumericRecipe::FloatCompare(FloatCC::GreaterThan),
            NumericOp::F32Ge | NumericOp::F64Ge => NumericRecipe::FloatCompare(FloatCC::GreaterThanOrEqual),
            NumericOp::F32Lt | NumericOp::F64Lt => NumericRecipe::FloatCompare(FloatCC::LessThan),
            NumericOp::F32Le | NumericOp::F64Le => NumericRecipe::FloatCompare(FloatCC::LessThanOrEqual),
            NumericOp::I32Extend8S => NumericRecipe::SignExtend(Type::I8, Type::I32),
            NumericOp::I32Extend16S => NumericRecipe::SignExtend(Type::I16, Type::I32),
            NumericOp::I64Extend8S => NumericRecipe::SignExtend(Type::I8, Type::I64),
            NumericOp::I64Extend16S => NumericRecipe::SignExtend(Type::I16, Type::I64),
            NumericOp::I64Extend32S => NumericRecipe::SignExtend(Type::I32, Type::I64),
            NumericOp::I32TruncSatF64S | NumericOp::I32TruncSatF32S => NumericRecipe::Convert(ConvertOp::FcvtToSintSat, Type::I32),
            NumericOp::I32TruncSatF64U | NumericOp::I32TruncSatF32U => NumericRecipe::Convert(ConvertOp::FcvtToUintSat, Type::I32),
            NumericOp::I64TruncSatF64S | NumericOp::I64TruncSatF32S => NumericRecipe::Convert(ConvertOp::FcvtToSintSat, Type::I64),
            NumericOp::I64TruncSatF64U | NumericOp::I64TruncSatF32U => NumericRecipe::Convert(ConvertOp::FcvtToUintSat, Type::I64),
        }
    }

    /// How the operator is translated.
    pub fn get_recipe(self) -> (r: NumericRecipe)
        ensures
            r == self.recipe(),
    {
        match self {
            NumericOp::I32Add | NumericOp::I64Add => NumericRecipe::Binary(BinaryOp::Iadd),
            NumericOp::I32Sub | NumericOp::I64Sub => NumericRecipe::Binary(BinaryOp::Isub),
            NumericOp::I32Mul | NumericOp::I64Mul => NumericRecipe::Binary(BinaryOp::Imul),
            NumericOp::I32DivS | NumericOp::I64DivS => NumericRecipe::Binary(BinaryOp::Sdiv),
            NumericOp::I32DivU | NumericOp::I64DivU => NumericRecipe::Binary(BinaryOp::Udiv),
            NumericOp::I32RemS | NumericOp::I64RemS => NumericRecipe::Binary(BinaryOp::Srem),
            NumericOp::I32RemU | NumericOp::I64RemU => NumericRecipe::Binary(BinaryOp::Urem),
            NumericOp::I32And | NumericOp::I64And => NumericRecipe::Binary(BinaryOp::Band),
            NumericOp::I32Or | NumericOp::I64Or => NumericRecipe::Binary(BinaryOp::Bor),
            NumericOp::I32Xor | NumericOp::I64Xor => NumericRecipe::Binary(BinaryOp::Bxor),
            NumericOp::I32Shl | NumericOp::I64Shl => NumericRecipe::Binary(BinaryOp::Ishl),
            NumericOp::I32ShrS | NumericOp::I64ShrS => NumericRecipe::Binary(BinaryOp::Sshr),
            NumericOp::I32ShrU | NumericOp::I64ShrU => NumericRecipe::Binary(BinaryOp::Ushr),
            NumericOp::I32Rotl | NumericOp::I64Rotl => NumericRecipe::Binary(BinaryOp::Rotl),
            NumericOp::I32Rotr | NumericOp::I64Rotr => NumericRecipe::Binary(BinaryOp::Rotr),
            NumericOp::I32Clz | NumericOp::I64Clz => NumericRecipe::Unary(UnaryOp::Clz),
            NumericOp::I32Ctz | NumericOp::I64Ctz => NumericRecipe::Unary(UnaryOp::Ctz),
            NumericOp::I32Popcnt | NumericOp::I64Popcnt => NumericRecipe::Unary(UnaryOp::Popcnt),
            NumericOp::I32WrapI64 => NumericRecipe::Convert(ConvertOp::Ireduce, Type::I32),
            NumericOp::I64ExtendI32S => NumericRecipe::Convert(ConvertOp::Sextend, Type::I64),
            NumericOp::I64ExtendI32U => NumericRecipe::Convert(ConvertOp::Uextend, Type::I64),
            NumericOp::F32Add | NumericOp::F64Add => NumericRecipe::Binary(BinaryOp::Fadd),
            NumericOp::F32Sub | NumericOp::F64Sub => NumericRecipe::Binary(BinaryOp::Fsub),
            NumericOp::F32Mul | NumericOp::F64Mul => NumericRecipe::Binary(BinaryOp::Fmul),
            NumericOp::F32Div | NumericOp::F64Div => NumericRecipe::Binary(BinaryOp::Fdiv),
            NumericOp::F32Min | NumericOp::F64Min => NumericRecipe::Binary(BinaryOp::Fmin),
            NumericOp::F32Max | NumericOp::F64Max => NumericRecipe::Binary(BinaryOp::Fmax),
            NumericOp::F32Copysign | NumericOp::F64Copysign => NumericRecipe::Binary(BinaryOp::Fcopysign),
            NumericOp::F32Sqrt | NumericOp::F64Sqrt => NumericRecipe::Unary(UnaryOp::Sqrt),
            NumericOp::F32Ceil | NumericOp::F64Ceil => NumericRecipe::Unary(UnaryOp::Ceil),
            NumericOp::F32Floor | NumericOp::F64Floor => NumericRecipe::Unary(UnaryOp::Floor),
            NumericOp::F32Trunc | NumericOp::F64Trunc => NumericRecipe::Unary(UnaryOp::Trunc),
            NumericOp::F32Nearest | NumericOp::F64Nearest => NumericRecipe::Unary(UnaryOp::Nearest),
            NumericOp::F32Abs | NumericOp::F64Abs => NumericRecipe::Unary(UnaryOp::Fabs),
            NumericOp::F32Neg | NumericOp::F64Neg => NumericRecipe::Unary(UnaryOp::Fneg),
            NumericOp::I32TruncF64S | NumericOp::I32TruncF32S => NumericRecipe::Convert(ConvertOp::FcvtToSint, Type::I32),
            NumericOp::I32TruncF64U | NumericOp::I32TruncF32U => NumericRecipe::Convert(ConvertOp::FcvtToUint, Type::I32),
            NumericOp::I64TruncF64S | NumericOp::I64TruncF32S => NumericRecipe::Convert(ConvertOp::FcvtToSint, Type::I64),
            NumericOp::I64TruncF64U | NumericOp::I64TruncF32U => NumericRecipe::Convert(ConvertOp::FcvtToUint, Type::I64),
            NumericOp::F32DemoteF64 => NumericRecipe::Convert(ConvertOp::Fdemote, Type::F32),
            NumericOp::F32ConvertI64S | NumericOp::F32ConvertI32S => NumericRecipe::Convert(ConvertOp::FcvtFromSint, Type::F32),
            NumericOp::F32ConvertI64U | NumericOp::F32ConvertI32U => NumericRecipe::Convert(ConvertOp::FcvtFromUint, Type::F32),
            NumericOp::F64ConvertI64S | NumericOp::F64ConvertI32S => NumericRecipe::Convert(ConvertOp::FcvtFromSint, Type::F64),
            NumericOp::F64ConvertI64U | NumericOp::F64ConvertI32U => NumericRecipe::Convert(ConvertOp::FcvtFromUint, Type::F64),
            NumericOp::F64PromoteF32 => NumericRecipe::Convert(ConvertOp::Fpromote, Type::F64),
            NumericOp::F32ReinterpretI32 => NumericRecipe::Reinterpret(Type::F32),
            NumericOp::F64ReinterpretI64 => NumericRecipe::Reinterpret(Type::F64),
            NumericOp::I32ReinterpretF32 => NumericRecipe::Reinterpret(Type::I32),
            NumericOp::I64ReinterpretF64 => NumericRecipe::Reinterpret(Type::I64),
            NumericOp::I32LtS | NumericOp::I64LtS => NumericRecipe::Compare(IntCC::SignedLessThan),
            NumericOp::I32LtU | NumericOp::I64LtU => NumericRecipe::Compare(IntCC::UnsignedLessThan),
            NumericOp::I32LeS | NumericOp::I64LeS => NumericRecipe::Compare(IntCC::SignedLessThanOrEqual),
            NumericOp::I32LeU | NumericOp::I64LeU => NumericRecipe::Compare(IntCC::UnsignedLessThanOrEqual),
            NumericOp::I32GtS | NumericOp::I64GtS => NumericRecipe::Compare(IntCC::SignedGreaterThan),
            NumericOp::I32GtU | NumericOp::I64GtU => NumericRecipe::Compare(IntCC::UnsignedGreaterThan),
            NumericOp::I32GeS | NumericOp::I64GeS => NumericRecipe::Compare(IntCC::SignedGreaterThanOrEqual),
            NumericOp::I32GeU | NumericOp::I64GeU => NumericRecipe::Compare(IntCC::UnsignedGreaterThanOrEqual),
            NumericOp::I32Eq | NumericOp::I64Eq => NumericRecipe::Compare(IntCC::Equal),
            NumericOp::I32Ne | NumericOp::I64Ne => NumericRecipe::Compare(IntCC::NotEqual),
            NumericOp::I32Eqz | NumericOp::I64Eqz => NumericRecipe::EqualsZero,
            NumericOp::F32Eq | NumericOp::F64Eq => NumericRecipe::FloatCompare(FloatCC::Equal),
            NumericOp::F32Ne | NumericOp::F64Ne => NumericRecipe::FloatCompare(FloatCC::NotEqual),
            NumericOp::F32Gt | NumericOp::F64Gt => NumericRecipe::FloatCompare(FloatCC::GreaterThan),
            NumericOp::F32Ge | NumericOp::F64Ge => NumericRecipe::FloatCompare(FloatCC::GreaterThanOrEqual),
            NumericOp::F32Lt | NumericOp::F64Lt => NumericRecipe::FloatCompare(FloatCC::LessThan),
            NumericOp::F32Le | NumericOp::F64Le => NumericRecipe::FloatCompare(FloatCC::LessThanOrEqual),
            NumericOp::I32Extend8S => NumericRecipe::SignExtend(Type::I8, Type::I32),
            NumericOp::I32Extend16S => NumericRecipe::SignExtend(Type::I16, Type::I32),
            NumericOp::I64Extend8S => NumericRecipe::SignExtend(Type::I8, Type::I64),
            NumericOp::I64Extend16S => NumericRecipe::SignExtend(Type::I16, Type::I64),
            NumericOp::I64Extend32S => NumericRecipe::SignExtend(Type::I32, Type::I64),
            NumericOp::I32TruncSatF64S | NumericOp::I32TruncSatF32S => NumericRecipe::Convert(ConvertOp::FcvtToSintSat, Type::I32),
            NumericOp::I32TruncSatF64U | NumericOp::I32TruncSatF32U => NumericRecipe::Convert(ConvertOp::FcvtToUintSat, Type::I32),
            NumericOp::I64TruncSatF64S | NumericOp::I64TruncSatF32S => NumericRecipe::Convert(ConvertOp::FcvtToSintSat, Type::I64),
            NumericOp::I64TruncSatF64U | NumericOp::I64TruncSatF32U => NumericRecipe::Convert(ConvertOp::FcvtToUintSat, Type::I64),
        }
    }
}

/// How an operator on vectors is translated. A type that comes first is that which the operands
/// are brought to.
#[derive(Debug, Clone, Copy, PartialEq, Eq, Structural)]
pub enum VectorRecipe {
    /// One operand, one instruction.
    Unary(Type, UnaryOp),
    /// Two operands, one instruction.
    Binary(Type, BinaryOp),
    /// A vector and a shift count.
    Shift(Type, BinaryOp),
    /// All bits flipped, whatever the type.
    Invert,
    /// A scalar in every lane, narrowed to the lane first.
    SplatReduced(Type),
    /// A scalar in every lane.
    Splat(Type),
    /// A comparison of integers in every lane.
    Compare(Type, IntCC),
    /// A comparison of floats in every lane.
    FloatCompare(Type, FloatCC),
    /// A truth value, widened to 32 bits.
    Test(Type, UnaryOp),
    /// One operand, one instruction with a chosen result type.
    Convert(Type, ConvertOp, Type),
    /// The low half, widened and then converted to `F64X2`.
    ConvertLow(UnaryOp, ConvertOp),
    /// The second operand where the first is less, else the first.
    PseudoMax(Type),
    /// The second operand where it is less than the first, else the first.
    PseudoMin(Type),
    /// Bits of the first or second operand, as the third says.
    Bitselect,
    /// `F64X2` converted to integers and narrowed, with zeros in the upper half.
    TruncZero(ConvertOp, BinaryOp),
    /// Both halves widened, and neighbours added.
    ExtAddPairwise(Type, UnaryOp, UnaryOp),
    /// One half of each operand widened, and multiplied.
    ExtMul(Type, UnaryOp),
    /// Products of widened lanes, neighbours added.
    Dot(Type),
    RelaxedMax(Type),
    RelaxedMin(Type),
    RelaxedSwizzle,
    RelaxedMadd(Type),
    RelaxedNmadd(Type),
    RelaxedLaneselect(Type),
    RelaxedTrunc,
    RelaxedTruncZero,
    RelaxedQ15mulr,
    RelaxedDot,
    RelaxedDotAdd,
}

/// Operators on vectors without immediates.
#[derive(Debug, Clone, Copy, PartialEq, Eq, Structural)]
pub enum VectorOp {
    I8x16Splat,
    I16x8Splat,
    I32x4Splat,
    I64x2Splat,
    F32x4Splat,
    F64x2Splat,
    I8x16Swizzle,
    I8x16Add,
    I16x8Add,
    I32x4Add,
    I64x2Add,
    I8x16AddSatS,
    I16x8AddSatS,
    I8x16AddSatU,
    I16x8AddSatU,
    I8x16Sub,
    I16x8Sub,
    I32x4Sub,
    I64x2Sub,
    I8x16SubSatS,
    I16x8SubSatS,
    I8x16SubSatU,
    I16x8SubSatU,
    I8x16MinS,
    I16x8MinS,
    I32x4MinS,
    I8x16MinU,
    I16x8MinU,
    I32x4MinU,
    I8x16MaxS,
    I16x8MaxS,
    I32x4MaxS,
    I8x16MaxU,
    I16x8MaxU,
    I32x4MaxU,
    I8x16AvgrU,
    I16x8AvgrU,
    I8x16Neg,
    I16x8Neg,
    I32x4Neg,
    I64x2Neg,
    I8x16Abs,
    I16x8Abs,
    I32x4Abs,
    I64x2Abs,
    I16x8Mul,
    I32x4Mul,
    I64x2Mul,
    V128Or,
    V128Xor,
    V128And,
    V128AndNot,
    V128Not,
    I8x16Shl,
    I16x8Shl,
    I32x4Shl,
    I64x2Shl,
    I8x16ShrU,
    I16x8ShrU,
    I32x4ShrU,
    I64x2ShrU,
    I8x16ShrS,
    I16x8ShrS,
    I32x4ShrS,
    I64x2ShrS,
    V128Bitselect,
    V128AnyTrue,
    I8x16AllTrue,
    I16x8AllTrue,
    I32x4AllTrue,
    I64x2AllTrue,
    I8x16Bitmask,
    I16x8Bitmask,
    I32x4Bitmask,
    I64x2Bitmask,
    I8x16Eq,
    I16x8Eq,
    I32x4Eq,
    I64x2Eq,
    I8x16Ne,
    I16x8Ne,
    I32x4Ne,
    I64x2Ne,
    I8x16GtS,
    I16x8GtS,
    I32x4GtS,
    I64x2GtS,
    I8x16LtS,
    I16x8LtS,
    I32x4LtS,
    I64x2LtS,
    I8x16GtU,
    I16x8GtU,
    I32x4GtU,
    I8x16LtU,
    I16x8LtU,
    I32x4LtU,
    I8x16GeS,
    I16x8GeS,
    I32x4GeS,
    I64x2GeS,
    I8x16LeS,
    I16x8LeS,
    I32x4LeS,
    I64x2LeS,
    I8x16GeU,
    I16x8GeU,
    I32x4GeU,
    I8x16LeU,
    I16x8LeU,
    I32x4LeU,
    F32x4Eq,
    F64x2Eq,
    F32x4Ne,
    F64x2Ne,
    F32x4Lt,
    F64x2Lt,
    F32x4Gt,
    F64x2Gt,
    F32x4Le,
    F64x2Le,
    F32x4Ge,
    F64x2Ge,
    F32x4Add,
    F64x2Add,
    F32x4Sub,
    F64x2Sub,
    F32x4Mul,
    F64x2Mul,
    F32x4Div,
    F64x2Div,
    F32x4Max,
    F64x2Max,
    F32x4Min,
    F64x2Min,
    F32x4PMax,
    F64x2PMax,
    F32x4PMin,
    F64x2PMin,
    F32x4Sqrt,
    F64x2Sqrt,
    F32x4Neg,
    F64x2Neg,
    F32x4Abs,
    F64x2Abs,
    F32x4ConvertI32x4S,
    F32x4ConvertI32x4U,
    F64x2ConvertLowI32x4S,
    F64x2ConvertLowI32x4U,
    F64x2PromoteLowF32x4,
    F32x4DemoteF64x2Zero,
    I32x4TruncSatF32x4S,
    I32x4TruncSatF64x2SZero,
    I32x4RelaxedTruncF32x4U,
    I32x4TruncSatF32x4U,
    I32x4RelaxedTruncF64x2UZero,
    I32x4TruncSatF64x2UZero,
    I8x16NarrowI16x8S,
    I16x8NarrowI32x4S,
    I8x16NarrowI16x8U,
    I16x8NarrowI32x4U,
    I16x8ExtendLowI8x16S,
    I16x8ExtendHighI8x16S,
    I16x8ExtendLowI8x16U,
    I16x8ExtendHighI8x16U,
    I32x4ExtendLowI16x8S,
    I32x4ExtendHighI16x8S,
    I32x4ExtendLowI16x8U,
    I32x4ExtendHighI16x8U,
    I64x2ExtendLowI32x4S,
    I64x2ExtendHighI32x4S,
    I64x2ExtendLowI32x4U,
    I64x2ExtendHighI32x4U,
    I16x8ExtAddPairwiseI8x16S,
    I16x8ExtAddPairwiseI8x16U,
    I32x4ExtAddPairwiseI16x8S,
    I32x4ExtAddPairwiseI16x8U,
    F32x4Ceil,
    F64x2Ceil,
    F32x4Floor,
    F64x2Floor,
    F32x4Trunc,
    F64x2Trunc,
    F32x4Nearest,
    F64x2Nearest,
    I32x4DotI16x8S,
    I8x16Popcnt,
    I16x8Q15MulrSatS,
    I16x8ExtMulLowI8x16S,
    I16x8ExtMulHighI8x16S,
    I16x8ExtMulLowI8x16U,
    I16x8ExtMulHighI8x16U,
    I32x4ExtMulLowI16x8S,
    I32x4ExtMulHighI16x8S,
    I32x4ExtMulLowI16x8U,
    I32x4ExtMulHighI16x8U,
    I64x2ExtMulLowI32x4S,
    I64x2ExtMulHighI32x4S,
    I64x2ExtMulLowI32x4U,
    I64x2ExtMulHighI32x4U,
    F32x4RelaxedMax,
    F64x2RelaxedMax,
    F32x4RelaxedMin,
    F64x2RelaxedMin,
    I8x16RelaxedSwizzle,
    F32x4RelaxedMadd,
    F64x2RelaxedMadd,
    F32x4RelaxedNmadd,
    F64x2RelaxedNmadd,
    I8x16RelaxedLaneselect,
    I16x8RelaxedLaneselect,
    I32x4RelaxedLaneselect,
    I64x2RelaxedLaneselect,
    I32x4RelaxedTruncF32x4S,
    I32x4RelaxedTruncF64x2SZero,
    I16x8RelaxedQ15mulrS,
    I16x8RelaxedDotI8x16I7x16S,
    I32x4RelaxedDotI8x16I7x16AddS,
}

impl VectorOp {
    /// The vector type that the operator works on, where it names one.
    pub open spec fn ty(self) -> Option<Type> {
        match self {
            VectorOp::I8x16Splat | VectorOp::I8x16Add | VectorOp::I8x16AddSatS
            | VectorOp::I8x16AddSatU | VectorOp::I8x16Sub | VectorOp::I8x16SubSatS
            | VectorOp::I8x16SubSatU | VectorOp::I8x16MinS | VectorOp::I8x16MinU
            | VectorOp::I8x16MaxS | VectorOp::I8x16MaxU | VectorOp::I8x16AvgrU
            | VectorOp::I8x16Neg | VectorOp::I8x16Abs | VectorOp::V128Or | VectorOp::V128Xor
            | VectorOp::V128And | VectorOp::V128AndNot | VectorOp::V128Not | VectorOp::I8x16Shl
            | VectorOp::I8x16ShrU | VectorOp::I8x16ShrS | VectorOp::V128Bitselect
            | VectorOp::V128AnyTrue | VectorOp::I8x16AllTrue | VectorOp::I8x16Bitmask
            | VectorOp::I8x16Eq | VectorOp::I8x16Ne | VectorOp::I8x16GtS | VectorOp::I8x16LtS
            | VectorOp::I8x16GtU | VectorOp::I8x16LtU | VectorOp::I8x16GeS | VectorOp::I8x16LeS
            | VectorOp::I8x16GeU | VectorOp::I8x16LeU | VectorOp::I8x16Popcnt
            | VectorOp::I8x16RelaxedLaneselect => Some(Type::I8X16),
            VectorOp::I16x8Splat | VectorOp::I16x8Add | VectorOp::I16x8AddSatS
            | VectorOp::I16x8AddSatU | VectorOp::I16x8Sub | VectorOp::I16x8SubSatS
            | VectorOp::I16x8SubSatU | VectorOp::I16x8MinS | VectorOp::I16x8MinU
            | VectorOp::I16x8MaxS | VectorOp::I16x8MaxU | VectorOp::I16x8AvgrU
            | VectorOp::I16x8Neg | VectorOp::I16x8Abs | VectorOp::I16x8Mul | VectorOp::I16x8Shl
            | VectorOp::I16x8ShrU | VectorOp::I16x8ShrS | VectorOp::I16x8AllTrue
            | VectorOp::I16x8Bitmask | VectorOp::I16x8Eq | VectorOp::I16x8Ne | VectorOp::I16x8GtS
            | VectorOp::I16x8LtS | VectorOp::I16x8GtU | VectorOp::I16x8LtU | VectorOp::I16x8GeS
            | VectorOp::I16x8LeS | VectorOp::I16x8GeU | VectorOp::I16x8LeU
            | VectorOp::I16x8RelaxedLaneselect => Some(Type::I16X8),
            VectorOp::I32x4Splat | VectorOp::I32x4Add | VectorOp::I32x4Sub | VectorOp::I32x4MinS
            | VectorOp::I32x4MinU | VectorOp::I32x4MaxS | VectorOp::I32x4MaxU | VectorOp::I32x4Neg
            | VectorOp::I32x4Abs | VectorOp::I32x4Mul | VectorOp::I32x4Shl | VectorOp::I32x4ShrU
            | VectorOp::I32x4ShrS | VectorOp::I32x4AllTrue | VectorOp::I32x4Bitmask
            | VectorOp::I32x4Eq | VectorOp::I32x4Ne | VectorOp::I32x4GtS | VectorOp::I32x4LtS
            | VectorOp::I32x4GtU | VectorOp::I32x4LtU | VectorOp::I32x4GeS | VectorOp::I32x4LeS
            | VectorOp::I32x4GeU | VectorOp::I32x4LeU | VectorOp::I32x4TruncSatF32x4S
            | VectorOp::I32x4TruncSatF32x4U | VectorOp::I32x4RelaxedLaneselect => Some(Type::I32X4),
            VectorOp::I64x2Splat | VectorOp::I64x2Add | VectorOp::I64x2Sub | VectorOp::I64x2Neg
            | VectorOp::I64x2Abs | VectorOp::I64x2Mul | VectorOp::I64x2Shl | VectorOp::I64x2ShrU
            | VectorOp::I64x2ShrS | VectorOp::I64x2AllTrue | VectorOp::I64x2Bitmask
            | VectorOp::I64x2Eq | VectorOp::I64x2Ne | VectorOp::I64x2GtS | VectorOp::I64x2LtS
            | VectorOp::I64x2GeS | VectorOp::I64x2LeS | VectorOp::I64x2RelaxedLaneselect => Some(Type::I64X2),
            VectorOp::F32x4Splat | VectorOp::F32x4Eq | VectorOp::F32x4Ne | VectorOp::F32x4Lt
            | VectorOp::F32x4Gt | VectorOp::F32x4Le | VectorOp::F32x4Ge | VectorOp::F32x4Add
            | VectorOp::F32x4Sub | VectorOp::F32x4Mul | VectorOp::F32x4Div | VectorOp::F32x4Max
            | VectorOp::F32x4Min | VectorOp::F32x4PMax | VectorOp::F32x4PMin | VectorOp::F32x4Sqrt
            | VectorOp::F32x4Neg | VectorOp::F32x4Abs | VectorOp::F32x4ConvertI32x4S
            | VectorOp::F32x4ConvertI32x4U | VectorOp::F32x4Ceil | VectorOp::F32x4Floor
            | VectorOp::F32x4Trunc | VectorOp::F32x4Nearest | VectorOp::F32x4RelaxedMax
            | VectorOp::F32x4RelaxedMin | VectorOp::F32x4RelaxedMadd | VectorOp::F32x4RelaxedNmadd => Some(Type::F32X4),
            VectorOp::F64x2Splat | VectorOp::F64x2Eq | VectorOp::F64x2Ne | VectorOp::F64x2Lt
            | VectorOp::F64x2Gt | VectorOp::F64x2Le | VectorOp::F64x2Ge | VectorOp::F64x2Add
            | VectorOp::F64x2Sub | VectorOp::F64x2Mul | VectorOp::F64x2Div | VectorOp::F64x2Max
            | VectorOp::F64x2Min | VectorOp::F64x2PMax | VectorOp::F64x2PMin | VectorOp::F64x2Sqrt
            | VectorOp::F64x2Neg | VectorOp::F64x2Abs | VectorOp::F64x2Ceil | VectorOp::F64x2Floor
            | VectorOp::F64x2Trunc | VectorOp::F64x2Nearest | VectorOp::F64x2RelaxedMax
            | VectorOp::F64x2RelaxedMin | VectorOp::F64x2RelaxedMadd | VectorOp::F64x2RelaxedNmadd => Some(Type::F64X2),
            _ => None,
        }
    }

    /// The vector type that the operator works on.
    fn type_of(self) -> (r: Type)
        requires
            self.ty() is Some,
        ensures
            self.ty() == Some(r),
    {
        let ty = match self {
            VectorOp::I8x16Splat | VectorOp::I8x16Add | VectorOp::I8x16AddSatS
            | VectorOp::I8x16AddSatU | VectorOp::I8x16Sub | VectorOp::I8x16SubSatS
            | VectorOp::I8x16SubSatU | VectorOp::I8x16MinS | VectorOp::I8x16MinU
            | VectorOp::I8x16MaxS | VectorOp::I8x16MaxU | VectorOp::I8x16AvgrU
            | VectorOp::I8x16Neg | VectorOp::I8x16Abs | VectorOp::V128Or | VectorOp::V128Xor
            | VectorOp::V128And | VectorOp::V128AndNot | VectorOp::V128Not | VectorOp::I8x16Shl
            | VectorOp::I8x16ShrU | VectorOp::I8x16ShrS | VectorOp::V128Bitselect
            | VectorOp::V128AnyTrue | VectorOp::I8x16AllTrue | VectorOp::I8x16Bitmask
            | VectorOp::I8x16Eq | VectorOp::I8x16Ne | VectorOp::I8x16GtS | VectorOp::I8x16LtS
            | VectorOp::I8x16GtU | VectorOp::I8x16LtU | VectorOp::I8x16GeS | VectorOp::I8x16LeS
            | VectorOp::I8x16GeU | VectorOp::I8x16LeU | VectorOp::I8x16Popcnt
            | VectorOp::I8x16RelaxedLaneselect => Some(Type::I8X16),
            VectorOp::I16x8Splat | VectorOp::I16x8Add | VectorOp::I16x8AddSatS
            | VectorOp::I16x8AddSatU | VectorOp::I16x8Sub | VectorOp::I16x8SubSatS
            | VectorOp::I16x8SubSatU | VectorOp::I16x8MinS | VectorOp::I16x8MinU
            | VectorOp::I16x8MaxS | VectorOp::I16x8MaxU | VectorOp::I16x8AvgrU
            | VectorOp::I16x8Neg | VectorOp::I16x8Abs | VectorOp::I16x8Mul | VectorOp::I16x8Shl
            | VectorOp::I16x8ShrU | VectorOp::I16x8ShrS | VectorOp::I16x8AllTrue
            | VectorOp::I16x8Bitmask | VectorOp::I16x8Eq | VectorOp::I16x8Ne | VectorOp::I16x8GtS
            | VectorOp::I16x8LtS | VectorOp::I16x8GtU | VectorOp::I16x8LtU | VectorOp::I16x8GeS
            | VectorOp::I16x8LeS | VectorOp::I16x8GeU | VectorOp::I16x8LeU
            | VectorOp::I16x8RelaxedLaneselect => Some(Type::I16X8),
            VectorOp::I32x4Splat | VectorOp::I32x4Add | VectorOp::I32x4Sub | VectorOp::I32x4MinS
            | VectorOp::I32x4MinU | VectorOp::I32x4MaxS | VectorOp::I32x4MaxU | VectorOp::I32x4Neg
            | VectorOp::I32x4Abs | VectorOp::I32x4Mul | VectorOp::I32x4Shl | VectorOp::I32x4ShrU
            | VectorOp::I32x4ShrS | VectorOp::I32x4AllTrue | VectorOp::I32x4Bitmask
            | VectorOp::I32x4Eq | VectorOp::I32x4Ne | VectorOp::I32x4GtS | VectorOp::I32x4LtS
            | VectorOp::I32x4GtU | VectorOp::I32x4LtU | VectorOp::I32x4GeS | VectorOp::I32x4LeS
            | VectorOp::I32x4GeU | VectorOp::I32x4LeU | VectorOp::I32x4TruncSatF32x4S
            | VectorOp::I32x4TruncSatF32x4U | VectorOp::I32x4RelaxedLaneselect => Some(Type::I32X4),
            VectorOp::I64x2Splat | VectorOp::I64x2Add | VectorOp::I64x2Sub | VectorOp::I64x2Neg
            | VectorOp::I64x2Abs | VectorOp::I64x2Mul | VectorOp::I64x2Shl | VectorOp::I64x2ShrU
            | VectorOp::I64x2ShrS | VectorOp::I64x2AllTrue | VectorOp::I64x2Bitmask
            | VectorOp::I64x2Eq | VectorOp::I64x2Ne | VectorOp::I64x2GtS | VectorOp::I64x2LtS
            | VectorOp::I64x2GeS | VectorOp::I64x2LeS | VectorOp::I64x2RelaxedLaneselect => Some(Type::I64X2),
            VectorOp::F32x4Splat | VectorOp::F32x4Eq | VectorOp::F32x4Ne | VectorOp::F32x4Lt
            | VectorOp::F32x4Gt | VectorOp::F32x4Le | VectorOp::F32x4Ge | VectorOp::F32x4Add
            | VectorOp::F32x4Sub | VectorOp::F32x4Mul | VectorOp::F32x4Div | VectorOp::F32x4Max
            | VectorOp::F32x4Min | VectorOp::F32x4PMax | VectorOp::F32x4PMin | VectorOp::F32x4Sqrt
            | VectorOp::F32x4Neg | VectorOp::F32x4Abs | VectorOp::F32x4ConvertI32x4S
            | VectorOp::F32x4ConvertI32x4U | VectorOp::F32x4Ceil | VectorOp::F32x4Floor
            | VectorOp::F32x4Trunc | VectorOp::F32x4Nearest | VectorOp::F32x4RelaxedMax
            | VectorOp::F32x4RelaxedMin | VectorOp::F32x4RelaxedMadd | VectorOp::F32x4RelaxedNmadd => Some(Type::F32X4),
            VectorOp::F64x2Splat | VectorOp::F64x2Eq | VectorOp::F64x2Ne | VectorOp::F64x2Lt
            | VectorOp::F64x2Gt | VectorOp::F64x2Le | VectorOp::F64x2Ge | VectorOp::F64x2Add
            | VectorOp::F64x2Sub | VectorOp::F64x2Mul | VectorOp::F64x2Div | VectorOp::F64x2Max
            | VectorOp::F64x2Min | VectorOp::F64x2PMax | VectorOp::F64x2PMin | VectorOp::F64x2Sqrt
            | VectorOp::F64x2Neg | VectorOp::F64x2Abs | VectorOp::F64x2Ceil | VectorOp::F64x2Floor
            | VectorOp::F64x2Trunc | VectorOp::F64x2Nearest | VectorOp::F64x2RelaxedMax
            | VectorOp::F64x2RelaxedMin | VectorOp::F64x2RelaxedMadd | VectorOp::F64x2RelaxedNmadd => Some(Type::F64X2),
            _ => None,
        };
        match ty {
            Some(ty) => ty,
            None => {
                assert(false);
                Type::I8X16
            },
        }
    }

    /// How the operator is translated.
    pub open spec fn recipe(self) -> VectorRecipe {
        match self {
            VectorOp::I8x16Splat | VectorOp::I16x8Splat => VectorRecipe::SplatReduced(self.ty()->0),
            VectorOp::I32x4Splat | VectorOp::I64x2Splat | VectorOp::F32x4Splat
            | VectorOp::F64x2Splat => VectorRecipe::Splat(self.ty()->0),
            VectorOp::I8x16Swizzle => VectorRecipe::Binary(Type::I8X16, BinaryOp::Swizzle),
            VectorOp::I8x16Add | VectorOp::I16x8Add | VectorOp::I32x4Add | VectorOp::I64x2Add => VectorRecipe::Binary(self.ty()->0, BinaryOp::Iadd),
            VectorOp::I8x16AddSatS | VectorOp::I16x8AddSatS => VectorRecipe::Binary(self.ty()->0, BinaryOp::SaddSat),
            VectorOp::I8x16AddSatU | VectorOp::I16x8AddSatU => VectorRecipe::Binary(self.ty()->0, BinaryOp::UaddSat),
            VectorOp::I8x16Sub | VectorOp::I16x8Sub | VectorOp::I32x4Sub | VectorOp::I64x2Sub => VectorRecipe::Binary(self.ty()->0, BinaryOp::Isub),
            VectorOp::I8x16SubSatS | VectorOp::I16x8SubSatS => VectorRecipe::Binary(self.ty()->0, BinaryOp::SsubSat),
            VectorOp::I8x16SubSatU | VectorOp::I16x8SubSatU => VectorRecipe::Binary(self.ty()->0, BinaryOp::UsubSat),
            VectorOp::I8x16MinS | VectorOp::I16x8MinS | VectorOp::I32x4MinS => VectorRecipe::Binary(self.ty()->0, BinaryOp::Smin),
            VectorOp::I8x16MinU | VectorOp::I16x8MinU | VectorOp::I32x4MinU => VectorRecipe::Binary(self.ty()->0, BinaryOp::Umin),
            VectorOp::I8x16MaxS | VectorOp::I16x8MaxS | VectorOp::I32x4MaxS => VectorRecipe::Binary(self.ty()->0, BinaryOp::Smax),
            VectorOp::I8x16MaxU | VectorOp::I16x8MaxU | VectorOp::I32x4MaxU => VectorRecipe::Binary(self.ty()->0, BinaryOp::Umax),
            VectorOp::I8x16AvgrU | VectorOp::I16x8AvgrU => VectorRecipe::Binary(self.ty()->0, BinaryOp::AvgRound),
            VectorOp::I8x16Neg | VectorOp::I16x8Neg | VectorOp::I32x4Neg | VectorOp::I64x2Neg => VectorRecipe::Unary(self.ty()->0, UnaryOp::Ineg),
            VectorOp::I8x16Abs | VectorOp::I16x8Abs | VectorOp::I32x4Abs | VectorOp::I64x2Abs => VectorRecipe::Unary(self.ty()->0, UnaryOp::Iabs),
            VectorOp::I16x8Mul | VectorOp::I32x4Mul | VectorOp::I64x2Mul => VectorRecipe::Binary(self.ty()->0, BinaryOp::Imul),
            VectorOp::V128Or => VectorRecipe::Binary(self.ty()->0, BinaryOp::Bor),
            VectorOp::V128Xor => VectorRecipe::Binary(self.ty()->0, BinaryOp::Bxor),
            VectorOp::V128And => VectorRecipe::Binary(self.ty()->0, BinaryOp::Band),
            VectorOp::V128AndNot => VectorRecipe::Binary(self.ty()->0, BinaryOp::BandNot),
            VectorOp::V128Not => VectorRecipe::Invert,
            VectorOp::I8x16Shl | VectorOp::I16x8Shl | VectorOp::I32x4Shl | VectorOp::I64x2Shl => VectorRecipe::Shift(self.ty()->0, BinaryOp::Ishl),
            VectorOp::I8x16ShrU | VectorOp::I16x8ShrU | VectorOp::I32x4ShrU | VectorOp::I64x2ShrU => VectorRecipe::Shift(self.ty()->0, BinaryOp::Ushr),
            VectorOp::I8x16ShrS | VectorOp::I16x8ShrS | VectorOp::I32x4ShrS | VectorOp::I64x2ShrS => VectorRecipe::Shift(self.ty()->0, BinaryOp::Sshr),
            VectorOp::V128Bitselect => VectorRecipe::Bitselect,
            VectorOp::V128AnyTrue => VectorRecipe::Test(self.ty()->0, UnaryOp::VanyTrue),
            VectorOp::I8x16AllTrue | VectorOp::I16x8AllTrue | VectorOp::I32x4AllTrue
            | VectorOp::I64x2AllTrue => VectorRecipe::Test(self.ty()->0, UnaryOp::VallTrue),
            VectorOp::I8x16Bitmask | VectorOp::I16x8Bitmask | VectorOp::I32x4Bitmask
            | VectorOp::I64x2Bitmask => VectorRecipe::Convert(self.ty()->0, ConvertOp::VhighBits, Type::I32),
            VectorOp::I8x16Eq | VectorOp::I16x8Eq | VectorOp::I32x4Eq | VectorOp::I64x2Eq => VectorRecipe::Compare(self.ty()->0, IntCC::Equal),
            VectorOp::I8x16Ne | VectorOp::I16x8Ne | VectorOp::I32x4Ne | VectorOp::I64x2Ne => VectorRecipe::Compare(self.ty()->0, IntCC::NotEqual),
            VectorOp::I8x16GtS | VectorOp::I16x8GtS | VectorOp::I32x4GtS | VectorOp::I64x2GtS => VectorRecipe::Compare(self.ty()->0, IntCC::SignedGreaterThan),
            VectorOp::I8x16LtS | VectorOp::I16x8LtS | VectorOp::I32x4LtS | VectorOp::I64x2LtS => VectorRecipe::Compare(self.ty()->0, IntCC::SignedLessThan),
            VectorOp::I8x16GtU | VectorOp::I16x8GtU | VectorOp::I32x4GtU => VectorRecipe::Compare(self.ty()->0, IntCC::UnsignedGreaterThan),
            VectorOp::I8x16LtU | VectorOp::I16x8LtU | VectorOp::I32x4LtU => VectorRecipe::Compare(self.ty()->0, IntCC::UnsignedLessThan),
            VectorOp::I8x16GeS | VectorOp::I16x8GeS | VectorOp::I32x4GeS | VectorOp::I64x2GeS => VectorRecipe::Compare(self.ty()->0, IntCC::SignedGreaterThanOrEqual),
            VectorOp::I8x16LeS | VectorOp::I16x8LeS | VectorOp::I32x4LeS | VectorOp::I64x2LeS => VectorRecipe::Compare(self.ty()->0, IntCC::SignedLessThanOrEqual),
            VectorOp::I8x16GeU | VectorOp::I16x8GeU | VectorOp::I32x4GeU => VectorRecipe::Compare(self.ty()->0, IntCC::UnsignedGreaterThanOrEqual),
            VectorOp::I8x16LeU | VectorOp::I16x8LeU | VectorOp::I32x4LeU => VectorRecipe::Compare(self.ty()->0, IntCC::UnsignedLessThanOrEqual),
            VectorOp::F32x4Eq | VectorOp::F64x2Eq => VectorRecipe::FloatCompare(self.ty()->0, FloatCC::Equal),
            VectorOp::F32x4Ne | VectorOp::F64x2Ne => VectorRecipe::FloatCompare(self.ty()->0, FloatCC::NotEqual),
            VectorOp::F32x4Lt | VectorOp::F64x2Lt => VectorRecipe::FloatCompare(self.ty()->0, FloatCC::LessThan),
            VectorOp::F32x4Gt | VectorOp::F64x2Gt => VectorRecipe::FloatCompare(self.ty()->0, FloatCC::GreaterThan),
            VectorOp::F32x4Le | VectorOp::F64x2Le => VectorRecipe::FloatCompare(self.ty()->0, FloatCC::LessThanOrEqual),
            VectorOp::F32x4Ge | VectorOp::F64x2Ge => VectorRecipe::FloatCompare(self.ty()->0, FloatCC::GreaterThanOrEqual),
            VectorOp::F32x4Add | VectorOp::F64x2Add => VectorRecipe::Binary(self.ty()->0, BinaryOp::Fadd),
            VectorOp::F32x4Sub | VectorOp::F64x2Sub => VectorRecipe::Binary(self.ty()->0, BinaryOp::Fsub),
            VectorOp::F32x4Mul | VectorOp::F64x2Mul => VectorRecipe::Binary(self.ty()->0, BinaryOp::Fmul),
            VectorOp::F32x4Div | VectorOp::F64x2Div => VectorRecipe::Binary(self.ty()->0, BinaryOp::Fdiv),
            VectorOp::F32x4Max | VectorOp::F64x2Max => VectorRecipe::Binary(self.ty()->0, BinaryOp::Fmax),
            VectorOp::F32x4Min | VectorOp::F64x2Min => VectorRecipe::Binary(self.ty()->0, BinaryOp::Fmin),
            VectorOp::F32x4PMax | VectorOp::F64x2PMax => VectorRecipe::PseudoMax(self.ty()->0),
            VectorOp::F32x4PMin | VectorOp::F64x2PMin => VectorRecipe::PseudoMin(self.ty()->0),
            VectorOp::F32x4Sqrt | VectorOp::F64x2Sqrt => VectorRecipe::Unary(self.ty()->0, UnaryOp::Sqrt),
            VectorOp::F32x4Neg | VectorOp::F64x2Neg => VectorRecipe::Unary(self.ty()->0, UnaryOp::Fneg),
            VectorOp::F32x4Abs | VectorOp::F64x2Abs => VectorRecipe::Unary(self.ty()->0, UnaryOp::Fabs),
            VectorOp::F32x4ConvertI32x4S => VectorRecipe::Convert(Type::I32X4, ConvertOp::FcvtFromSint, Type::F32X4),
            VectorOp::F32x4ConvertI32x4U => VectorRecipe::Convert(Type::I32X4, ConvertOp::FcvtFromUint, Type::F32X4),
            VectorOp::F64x2ConvertLowI32x4S => VectorRecipe::ConvertLow(UnaryOp::SwidenLow, ConvertOp::FcvtFromSint),
            VectorOp::F64x2ConvertLowI32x4U => VectorRecipe::ConvertLow(UnaryOp::UwidenLow, ConvertOp::FcvtFromUint),
            VectorOp::F64x2PromoteLowF32x4 => VectorRecipe::Unary(Type::F32X4, UnaryOp::FvpromoteLow),
            VectorOp::F32x4DemoteF64x2Zero => VectorRecipe::Unary(Type::F64X2, UnaryOp::Fvdemote),
            VectorOp::I32x4TruncSatF32x4S => VectorRecipe::Convert(Type::F32X4, ConvertOp::FcvtToSintSat, Type::I32X4),
            VectorOp::I32x4TruncSatF64x2SZero => VectorRecipe::TruncZero(ConvertOp::FcvtToSintSat, BinaryOp::Snarrow),
            VectorOp::I32x4RelaxedTruncF32x4U | VectorOp::I32x4TruncSatF32x4U => VectorRecipe::Convert(Type::F32X4, ConvertOp::FcvtToUintSat, Type::I32X4),
            VectorOp::I32x4RelaxedTruncF64x2UZero | VectorOp::I32x4TruncSatF64x2UZero => VectorRecipe::TruncZero(ConvertOp::FcvtToUintSat, BinaryOp::Uunarrow),
            VectorOp::I8x16NarrowI16x8S => VectorRecipe::Binary(Type::I16X8, BinaryOp::Snarrow),
            VectorOp::I16x8NarrowI32x4S => VectorRecipe::Binary(Type::I32X4, BinaryOp::Snarrow),
            VectorOp::I8x16NarrowI16x8U => VectorRecipe::Binary(Type::I16X8, BinaryOp::Unarrow),
            VectorOp::I16x8NarrowI32x4U => VectorRecipe::Binary(Type::I32X4, BinaryOp::Unarrow),
            VectorOp::I16x8ExtendLowI8x16S => VectorRecipe::Unary(Type::I8X16, UnaryOp::SwidenLow),
            VectorOp::I16x8ExtendHighI8x16S => VectorRecipe::Unary(Type::I8X16, UnaryOp::SwidenHigh),
            VectorOp::I16x8ExtendLowI8x16U => VectorRecipe::Unary(Type::I8X16, UnaryOp::UwidenLow),
            VectorOp::I16x8ExtendHighI8x16U => VectorRecipe::Unary(Type::I8X16, UnaryOp::UwidenHigh),
            VectorOp::I32x4ExtendLowI16x8S => VectorRecipe::Unary(Type::I16X8, UnaryOp::SwidenLow),
            VectorOp::I32x4ExtendHighI16x8S => VectorRecipe::Unary(Type::I16X8, UnaryOp::SwidenHigh),
            VectorOp::I32x4ExtendLowI16x8U => VectorRecipe::Unary(Type::I16X8, UnaryOp::UwidenLow),
            VectorOp::I32x4ExtendHighI16x8U => VectorRecipe::Unary(Type::I16X8, UnaryOp::UwidenHigh),
            VectorOp::I64x2ExtendLowI32x4S => VectorRecipe::Unary(Type::I32X4, UnaryOp::SwidenLow),
            VectorOp::I64x2ExtendHighI32x4S => VectorRecipe::Unary(Type::I32X4, UnaryOp::SwidenHigh),
            VectorOp::I64x2ExtendLowI32x4U => VectorRecipe::Unary(Type::I32X4, UnaryOp::UwidenLow),
            VectorOp::I64x2ExtendHighI32x4U => VectorRecipe::Unary(Type::I32X4, UnaryOp::UwidenHigh),
            VectorOp::I16x8ExtAddPairwiseI8x16S => VectorRecipe::ExtAddPairwise(Type::I8X16, UnaryOp::SwidenLow, UnaryOp::SwidenHigh),
            VectorOp::I16x8ExtAddPairwiseI8x16U => VectorRecipe::ExtAddPairwise(Type::I8X16, UnaryOp::UwidenLow, UnaryOp::UwidenHigh),
            VectorOp::I32x4ExtAddPairwiseI16x8S => VectorRecipe::ExtAddPairwise(Type::I16X8, UnaryOp::SwidenLow, UnaryOp::SwidenHigh),
            VectorOp::I32x4ExtAddPairwiseI16x8U => VectorRecipe::ExtAddPairwise(Type::I16X8, UnaryOp::UwidenLow, UnaryOp::UwidenHigh),
            VectorOp::F32x4Ceil | VectorOp::F64x2Ceil => VectorRecipe::Unary(self.ty()->0, UnaryOp::Ceil),
            VectorOp::F32x4Floor | VectorOp::F64x2Floor => VectorRecipe::Unary(self.ty()->0, UnaryOp::Floor),
            VectorOp::F32x4Trunc | VectorOp::F64x2Trunc => VectorRecipe::Unary(self.ty()->0, UnaryOp::Trunc),
            VectorOp::F32x4Nearest | VectorOp::F64x2Nearest => VectorRecipe::Unary(self.ty()->0, UnaryOp::Nearest),
            VectorOp::I32x4DotI16x8S => VectorRecipe::Dot(Type::I16X8),
            VectorOp::I8x16Popcnt => VectorRecipe::Unary(self.ty()->0, UnaryOp::Popcnt),
            VectorOp::I16x8Q15MulrSatS => VectorRecipe::Binary(Type::I16X8, BinaryOp::SqmulRoundSat),
            VectorOp::I16x8ExtMulLowI8x16S => VectorRecipe::ExtMul(Type::I8X16, UnaryOp::SwidenLow),
            VectorOp::I16x8ExtMulHighI8x16S => VectorRecipe::ExtMul(Type::I8X16, UnaryOp::SwidenHigh),
            VectorOp::I16x8ExtMulLowI8x16U => VectorRecipe::ExtMul(Type::I8X16, UnaryOp::UwidenLow),
            VectorOp::I16x8ExtMulHighI8x16U => VectorRecipe::ExtMul(Type::I8X16, UnaryOp::UwidenHigh),
            VectorOp::I32x4ExtMulLowI16x8S => VectorRecipe::ExtMul(Type::I16X8, UnaryOp::SwidenLow),
            VectorOp::I32x4ExtMulHighI16x8S => VectorRecipe::ExtMul(Type::I16X8, UnaryOp::SwidenHigh),
            VectorOp::I32x4ExtMulLowI16x8U => VectorRecipe::ExtMul(Type::I16X8, UnaryOp::UwidenLow),
            VectorOp::I32x4ExtMulHighI16x8U => VectorRecipe::ExtMul(Type::I16X8, UnaryOp::UwidenHigh),
            VectorOp::I64x2ExtMulLowI32x4S => VectorRecipe::ExtMul(Type::I32X4, UnaryOp::SwidenLow),
            VectorOp::I64x2ExtMulHighI32x4S => VectorRecipe::ExtMul(Type::I32X4, UnaryOp::SwidenHigh),
            VectorOp::I64x2ExtMulLowI32x4U => VectorRecipe::ExtMul(Type::I32X4, UnaryOp::UwidenLow),
            VectorOp::I64x2ExtMulHighI32x4U => VectorRecipe::ExtMul(Type::I32X4, UnaryOp::UwidenHigh),
            VectorOp::F32x4RelaxedMax | VectorOp::F64x2RelaxedMax => VectorRecipe::RelaxedMax(self.ty()->0),
            VectorOp::F32x4RelaxedMin | VectorOp::F64x2RelaxedMin => VectorRecipe::RelaxedMin(self.ty()->0),
            VectorOp::I8x16RelaxedSwizzle => VectorRecipe::RelaxedSwizzle,
            VectorOp::F32x4RelaxedMadd | VectorOp::F64x2RelaxedMadd => VectorRecipe::RelaxedMadd(self.ty()->0),
            VectorOp::F32x4RelaxedNmadd | VectorOp::F64x2RelaxedNmadd => VectorRecipe::RelaxedNmadd(self.ty()->0),
            VectorOp::I8x16RelaxedLaneselect | VectorOp::I16x8RelaxedLaneselect
            | VectorOp::I32x4RelaxedLaneselect | VectorOp::I64x2RelaxedLaneselect => VectorRecipe::RelaxedLaneselect(self.ty()->0),
            VectorOp::I32x4RelaxedTruncF32x4S => VectorRecipe::RelaxedTrunc,
            VectorOp::I32x4RelaxedTruncF64x2SZero => VectorRecipe::RelaxedTruncZero,
            VectorOp::I16x8RelaxedQ15mulrS => VectorRecipe::RelaxedQ15mulr,
            VectorOp::I16x8RelaxedDotI8x16I7x16S => VectorRecipe::RelaxedDot,
            VectorOp::I32x4RelaxedDotI8x16I7x16AddS => VectorRecipe::RelaxedDotAdd,
        }
    }

    /// How the operator is translated.
    pub fn get_recipe(self) -> (r: VectorRecipe)
        ensures
            r == self.recipe(),
    {
        match self {
            VectorOp::I8x16Splat | VectorOp::I16x8Splat => VectorRecipe::SplatReduced(self.type_of()),
            VectorOp::I32x4Splat | VectorOp::I64x2Splat | VectorOp::F32x4Splat
            | VectorOp::F64x2Splat => VectorRecipe::Splat(self.type_of()),
            VectorOp::I8x16Swizzle => VectorRecipe::Binary(Type::I8X16, BinaryOp::Swizzle),
            VectorOp::I8x16Add | VectorOp::I16x8Add | VectorOp::I32x4Add | VectorOp::I64x2Add => VectorRecipe::Binary(self.type_of(), BinaryOp::Iadd),
            VectorOp::I8x16AddSatS | VectorOp::I16x8AddSatS => VectorRecipe::Binary(self.type_of(), BinaryOp::SaddSat),
            VectorOp::I8x16AddSatU | VectorOp::I16x8AddSatU => VectorRecipe::Binary(self.type_of(), BinaryOp::UaddSat),
            VectorOp::I8x16Sub | VectorOp::I16x8Sub | VectorOp::I32x4Sub | VectorOp::I64x2Sub => VectorRecipe::Binary(self.type_of(), BinaryOp::Isub),
            VectorOp::I8x16SubSatS | VectorOp::I16x8SubSatS => VectorRecipe::Binary(self.type_of(), BinaryOp::SsubSat),
            VectorOp::I8x16SubSatU | VectorOp::I16x8SubSatU => VectorRecipe::Binary(self.type_of(), BinaryOp::UsubSat),
            VectorOp::I8x16MinS | VectorOp::I16x8MinS | VectorOp::I32x4MinS => VectorRecipe::Binary(self.type_of(), BinaryOp::Smin),
            VectorOp::I8x16MinU | VectorOp::I16x8MinU | VectorOp::I32x4MinU => VectorRecipe::Binary(self.type_of(), BinaryOp::Umin),
            VectorOp::I8x16MaxS | VectorOp::I16x8MaxS | VectorOp::I32x4MaxS => VectorRecipe::Binary(self.type_of(), BinaryOp::Smax),
            VectorOp::I8x16MaxU | VectorOp::I16x8MaxU | VectorOp::I32x4MaxU => VectorRecipe::Binary(self.type_of(), BinaryOp::Umax),
            VectorOp::I8x16AvgrU | VectorOp::I16x8AvgrU => VectorRecipe::Binary(self.type_of(), BinaryOp::AvgRound),
            VectorOp::I8x16Neg | VectorOp::I16x8Neg | VectorOp::I32x4Neg | VectorOp::I64x2Neg => VectorRecipe::Unary(self.type_of(), UnaryOp::Ineg),
            VectorOp::I8x16Abs | VectorOp::I16x8Abs | VectorOp::I32x4Abs | VectorOp::I64x2Abs => VectorRecipe::Unary(self.type_of(), UnaryOp::Iabs),
            VectorOp::I16x8Mul | VectorOp::I32x4Mul | VectorOp::I64x2Mul => VectorRecipe::Binary(self.type_of(), BinaryOp::Imul),
            VectorOp::V128Or => VectorRecipe::Binary(self.type_of(), BinaryOp::Bor),
            VectorOp::V128Xor => VectorRecipe::Binary(self.type_of(), BinaryOp::Bxor),
            VectorOp::V128And => VectorRecipe::Binary(self.type_of(), BinaryOp::Band),
            VectorOp::V128AndNot => VectorRecipe::Binary(self.type_of(), BinaryOp::BandNot),
            VectorOp::V128Not => VectorRecipe::Invert,
            VectorOp::I8x16Shl | VectorOp::I16x8Shl | VectorOp::I32x4Shl | VectorOp::I64x2Shl => VectorRecipe::Shift(self.type_of(), BinaryOp::Ishl),
            VectorOp::I8x16ShrU | VectorOp::I16x8ShrU | VectorOp::I32x4ShrU | VectorOp::I64x2ShrU => VectorRecipe::Shift(self.type_of(), BinaryOp::Ushr),
            VectorOp::I8x16ShrS | VectorOp::I16x8ShrS | VectorOp::I32x4ShrS | VectorOp::I64x2ShrS => VectorRecipe::Shift(self.type_of(), BinaryOp::Sshr),
            VectorOp::V128Bitselect => VectorRecipe::Bitselect,
            VectorOp::V128AnyTrue => VectorRecipe::Test(self.type_of(), UnaryOp::VanyTrue),
            VectorOp::I8x16AllTrue | VectorOp::I16x8AllTrue | VectorOp::I32x4AllTrue
            | VectorOp::I64x2AllTrue => VectorRecipe::Test(self.type_of(), UnaryOp::VallTrue),
            VectorOp::I8x16Bitmask | VectorOp::I16x8Bitmask | VectorOp::I32x4Bitmask
            | VectorOp::I64x2Bitmask => VectorRecipe::Convert(self.type_of(), ConvertOp::VhighBits, Type::I32),
            VectorOp::I8x16Eq | VectorOp::I16x8Eq | VectorOp::I32x4Eq | VectorOp::I64x2Eq => VectorRecipe::Compare(self.type_of(), IntCC::Equal),
            VectorOp::I8x16Ne | VectorOp::I16x8Ne | VectorOp::I32x4Ne | VectorOp::I64x2Ne => VectorRecipe::Compare(self.type_of(), IntCC::NotEqual),
            VectorOp::I8x16GtS | VectorOp::I16x8GtS | VectorOp::I32x4GtS | VectorOp::I64x2GtS => VectorRecipe::Compare(self.type_of(), IntCC::SignedGreaterThan),
            VectorOp::I8x16LtS | VectorOp::I16x8LtS | VectorOp::I32x4LtS | VectorOp::I64x2LtS => VectorRecipe::Compare(self.type_of(), IntCC::SignedLessThan),
            VectorOp::I8x16GtU | VectorOp::I16x8GtU | VectorOp::I32x4GtU => VectorRecipe::Compare(self.type_of(), IntCC::UnsignedGreaterThan),
            VectorOp::I8x16LtU | VectorOp::I16x8LtU | VectorOp::I32x4LtU => VectorRecipe::Compare(self.type_of(), IntCC::UnsignedLessThan),
            VectorOp::I8x16GeS | VectorOp::I16x8GeS | VectorOp::I32x4GeS | VectorOp::I64x2GeS => VectorRecipe::Compare(self.type_of(), IntCC::SignedGreaterThanOrEqual),
            VectorOp::I8x16LeS | VectorOp::I16x8LeS | VectorOp::I32x4LeS | VectorOp::I64x2LeS => VectorRecipe::Compare(self.type_of(), IntCC::SignedLessThanOrEqual),
            VectorOp::I8x16GeU | VectorOp::I16x8GeU | VectorOp::I32x4GeU => VectorRecipe::Compare(self.type_of(), IntCC::UnsignedGreaterThanOrEqual),
            VectorOp::I8x16LeU | VectorOp::I16x8LeU | VectorOp::I32x4LeU => VectorRecipe::Compare(self.type_of(), IntCC::UnsignedLessThanOrEqual),
            VectorOp::F32x4Eq | VectorOp::F64x2Eq => VectorRecipe::FloatCompare(self.type_of(), FloatCC::Equal),
            VectorOp::F32x4Ne | VectorOp::F64x2Ne => VectorRecipe::FloatCompare(self.type_of(), FloatCC::NotEqual),
            VectorOp::F32x4Lt | VectorOp::F64x2Lt => VectorRecipe::FloatCompare(self.type_of(), FloatCC::LessThan),
            VectorOp::F32x4Gt | VectorOp::F64x2Gt => VectorRecipe::FloatCompare(self.type_of(), FloatCC::GreaterThan),
            VectorOp::F32x4Le | VectorOp::F64x2Le => VectorRecipe::FloatCompare(self.type_of(), FloatCC::LessThanOrEqual),
            VectorOp::F32x4Ge | VectorOp::F64x2Ge => VectorRecipe::FloatCompare(self.type_of(), FloatCC::GreaterThanOrEqual),
            VectorOp::F32x4Add | VectorOp::F64x2Add => VectorRecipe::Binary(self.type_of(), BinaryOp::Fadd),
            VectorOp::F32x4Sub | VectorOp::F64x2Sub => VectorRecipe::Binary(self.type_of(), BinaryOp::Fsub),
            VectorOp::F32x4Mul | VectorOp::F64x2Mul => VectorRecipe::Binary(self.type_of(), BinaryOp::Fmul),
            VectorOp::F32x4Div | VectorOp::F64x2Div => VectorRecipe::Binary(self.type_of(), BinaryOp::Fdiv),
            VectorOp::F32x4Max | VectorOp::F64x2Max => VectorRecipe::Binary(self.type_of(), BinaryOp::Fmax),
            VectorOp::F32x4Min | VectorOp::F64x2Min => VectorRecipe::Binary(self.type_of(), BinaryOp::Fmin),
            VectorOp::F32x4PMax | VectorOp::F64x2PMax => VectorRecipe::PseudoMax(self.type_of()),
            VectorOp::F32x4PMin | VectorOp::F64x2PMin => VectorRecipe::PseudoMin(self.type_of()),
            VectorOp::F32x4Sqrt | VectorOp::F64x2Sqrt => VectorRecipe::Unary(self.type_of(), UnaryOp::Sqrt),
            VectorOp::F32x4Neg | VectorOp::F64x2Neg => VectorRecipe::Unary(self.type_of(), UnaryOp::Fneg),
            VectorOp::F32x4Abs | VectorOp::F64x2Abs => VectorRecipe::Unary(self.type_of(), UnaryOp::Fabs),
            VectorOp::F32x4ConvertI32x4S => VectorRecipe::Convert(Type::I32X4, ConvertOp::FcvtFromSint, Type::F32X4),
            VectorOp::F32x4ConvertI32x4U => VectorRecipe::Convert(Type::I32X4, ConvertOp::FcvtFromUint, Type::F32X4),
            VectorOp::F64x2ConvertLowI32x4S => VectorRecipe::ConvertLow(UnaryOp::SwidenLow, ConvertOp::FcvtFromSint),
            VectorOp::F64x2ConvertLowI32x4U => VectorRecipe::ConvertLow(UnaryOp::UwidenLow, ConvertOp::FcvtFromUint),
            VectorOp::F64x2PromoteLowF32x4 => VectorRecipe::Unary(Type::F32X4, UnaryOp::FvpromoteLow),
            VectorOp::F32x4DemoteF64x2Zero => VectorRecipe::Unary(Type::F64X2, UnaryOp::Fvdemote),
            VectorOp::I32x4TruncSatF32x4S => VectorRecipe::Convert(Type::F32X4, ConvertOp::FcvtToSintSat, Type::I32X4),
            VectorOp::I32x4TruncSatF64x2SZero => VectorRecipe::TruncZero(ConvertOp::FcvtToSintSat, BinaryOp::Snarrow),
            VectorOp::I32x4RelaxedTruncF32x4U | VectorOp::I32x4TruncSatF32x4U => VectorRecipe::Convert(Type::F32X4, ConvertOp::FcvtToUintSat, Type::I32X4),
            VectorOp::I32x4RelaxedTruncF64x2UZero | VectorOp::I32x4TruncSatF64x2UZero => VectorRecipe::TruncZero(ConvertOp::FcvtToUintSat, BinaryOp::Uunarrow),
            VectorOp::I8x16NarrowI16x8S => VectorRecipe::Binary(Type::I16X8, BinaryOp::Snarrow),
            VectorOp::I16x8NarrowI32x4S => VectorRecipe::Binary(Type::I32X4, BinaryOp::Snarrow),
            VectorOp::I8x16NarrowI16x8U => VectorRecipe::Binary(Type::I16X8, BinaryOp::Unarrow),
            VectorOp::I16x8NarrowI32x4U => VectorRecipe::Binary(Type::I32X4, BinaryOp::Unarrow),
            VectorOp::I16x8ExtendLowI8x16S => VectorRecipe::Unary(Type::I8X16, UnaryOp::SwidenLow),
            VectorOp::I16x8ExtendHighI8x16S => VectorRecipe::Unary(Type::I8X16, UnaryOp::SwidenHigh),
            VectorOp::I16x8ExtendLowI8x16U => VectorRecipe::Unary(Type::I8X16, UnaryOp::UwidenLow),
            VectorOp::I16x8ExtendHighI8x16U => VectorRecipe::Unary(Type::I8X16, UnaryOp::UwidenHigh),
            VectorOp::I32x4ExtendLowI16x8S => VectorRecipe::Unary(Type::I16X8, UnaryOp::SwidenLow),
            VectorOp::I32x4ExtendHighI16x8S => VectorRecipe::Unary(Type::I16X8, UnaryOp::SwidenHigh),
            VectorOp::I32x4ExtendLowI16x8U => VectorRecipe::Unary(Type::I16X8, UnaryOp::UwidenLow),
            VectorOp::I32x4ExtendHighI16x8U => VectorRecipe::Unary(Type::I16X8, UnaryOp::UwidenHigh),
            VectorOp::I64x2ExtendLowI32x4S => VectorRecipe::Unary(Type::I32X4, UnaryOp::SwidenLow),
            VectorOp::I64x2ExtendHighI32x4S => VectorRecipe::Unary(Type::I32X4, UnaryOp::SwidenHigh),
            VectorOp::I64x2ExtendLowI32x4U => VectorRecipe::Unary(Type::I32X4, UnaryOp::UwidenLow),
            VectorOp::I64x2ExtendHighI32x4U => VectorRecipe::Unary(Type::I32X4, UnaryOp::UwidenHigh),
            VectorOp::I16x8ExtAddPairwiseI8x16S => VectorRecipe::ExtAddPairwise(Type::I8X16, UnaryOp::SwidenLow, UnaryOp::SwidenHigh),
            VectorOp::I16x8ExtAddPairwiseI8x16U => VectorRecipe::ExtAddPairwise(Type::I8X16, UnaryOp::UwidenLow, UnaryOp::UwidenHigh),
            VectorOp::I32x4ExtAddPairwiseI16x8S => VectorRecipe::ExtAddPairwise(Type::I16X8, UnaryOp::SwidenLow, UnaryOp::SwidenHigh),
            VectorOp::I32x4ExtAddPairwiseI16x8U => VectorRecipe::ExtAddPairwise(Type::I16X8, UnaryOp::UwidenLow, UnaryOp::UwidenHigh),
            VectorOp::F32x4Ceil | VectorOp::F64x2Ceil => VectorRecipe::Unary(self.type_of(), UnaryOp::Ceil),
            VectorOp::F32x4Floor | VectorOp::F64x2Floor => VectorRecipe::Unary(self.type_of(), UnaryOp::Floor),
            VectorOp::F32x4Trunc | VectorOp::F64x2Trunc => VectorRecipe::Unary(self.type_of(), UnaryOp::Trunc),
            VectorOp::F32x4Nearest | VectorOp::F64x2Nearest => VectorRecipe::Unary(self.type_of(), UnaryOp::Nearest),
            VectorOp::I32x4DotI16x8S => VectorRecipe::Dot(Type::I16X8),
            VectorOp::I8x16Popcnt => VectorRecipe::Unary(self.type_of(), UnaryOp::Popcnt),
            VectorOp::I16x8Q15MulrSatS => VectorRecipe::Binary(Type::I16X8, BinaryOp::SqmulRoundSat),
            VectorOp::I16x8ExtMulLowI8x16S => VectorRecipe::ExtMul(Type::I8X16, UnaryOp::SwidenLow),
            VectorOp::I16x8ExtMulHighI8x16S => VectorRecipe::ExtMul(Type::I8X16, UnaryOp::SwidenHigh),
            VectorOp::I16x8ExtMulLowI8x16U => VectorRecipe::ExtMul(Type::I8X16, UnaryOp::UwidenLow),
            VectorOp::I16x8ExtMulHighI8x16U => VectorRecipe::ExtMul(Type::I8X16, UnaryOp::UwidenHigh),
            VectorOp::I32x4ExtMulLowI16x8S => VectorRecipe::ExtMul(Type::I16X8, UnaryOp::SwidenLow),
            VectorOp::I32x4ExtMulHighI16x8S => VectorRecipe::ExtMul(Type::I16X8, UnaryOp::SwidenHigh),
            VectorOp::I32x4ExtMulLowI16x8U => VectorRecipe::ExtMul(Type::I16X8, UnaryOp::UwidenLow),
            VectorOp::I32x4ExtMulHighI16x8U => VectorRecipe::ExtMul(Type::I16X8, UnaryOp::UwidenHigh),
            VectorOp::I64x2ExtMulLowI32x4S => VectorRecipe::ExtMul(Type::I32X4, UnaryOp::SwidenLow),
            VectorOp::I64x2ExtMulHighI32x4S => VectorRecipe::ExtMul(Type::I32X4, UnaryOp::SwidenHigh),
            VectorOp::I64x2ExtMulLowI32x4U => VectorRecipe::ExtMul(Type::I32X4, UnaryOp::UwidenLow),
            VectorOp::I64x2ExtMulHighI32x4U => VectorRecipe::ExtMul(Type::I32X4, UnaryOp::UwidenHigh),
            VectorOp::F32x4RelaxedMax | VectorOp::F64x2RelaxedMax => VectorRecipe::RelaxedMax(self.type_of()),
            VectorOp::F32x4RelaxedMin | VectorOp::F64x2RelaxedMin => VectorRecipe::RelaxedMin(self.type_of()),
            VectorOp::I8x16RelaxedSwizzle => VectorRecipe::RelaxedSwizzle,
            VectorOp::F32x4RelaxedMadd | VectorOp::F64x2RelaxedMadd => VectorRecipe::RelaxedMadd(self.type_of()),
            VectorOp::F32x4RelaxedNmadd | VectorOp::F64x2RelaxedNmadd => VectorRecipe::RelaxedNmadd(self.type_of()),
            VectorOp::I8x16RelaxedLaneselect | VectorOp::I16x8RelaxedLaneselect
            | VectorOp::I32x4RelaxedLaneselect | VectorOp::I64x2RelaxedLaneselect => VectorRecipe::RelaxedLaneselect(self.type_of()),
            VectorOp::I32x4RelaxedTruncF32x4S => VectorRecipe::RelaxedTrunc,
            VectorOp::I32x4RelaxedTruncF64x2SZero => VectorRecipe::RelaxedTruncZero,
            VectorOp::I16x8RelaxedQ15mulrS => VectorRecipe::RelaxedQ15mulr,
            VectorOp::I16x8RelaxedDotI8x16I7x16S => VectorRecipe::RelaxedDot,
            VectorOp::I32x4RelaxedDotI8x16I7x16AddS => VectorRecipe::RelaxedDotAdd,
        }
    }
}

/// How a memory access is translated.
#[derive(Debug, Clone, Copy, PartialEq, Eq, Structural)]
pub enum AccessRecipe {
    /// A load of a value.
    Load(Opcode, Type),
    /// A load of eight bytes whose lanes are widened to the given type.
    LoadExtend(Opcode, Type),
    /// A load of one lane into all lanes of the given type.
    LoadSplat(Type),
    /// A load of one lane into the lowest lane of the given type, with zeros above.
    LoadZero(Type),
    /// A store of a value.
    Store(Opcode),
}

/// Operators that access memory.
#[derive(Debug, Clone, Copy, PartialEq, Eq, Structural)]
pub enum AccessOp {
    I32Load8U,
    I32Load16U,
    I32Load8S,
    I32Load16S,
    I64Load8U,
    I64Load16U,
    I64Load8S,
    I64Load16S,
    I64Load32S,
    I64Load32U,
    I32Load,
    F32Load,
    I64Load,
    F64Load,
    V128Load,
    V128Load8x8S,
    V128Load8x8U,
    V128Load16x4S,
    V128Load16x4U,
    V128Load32x2S,
    V128Load32x2U,
    V128Load8Splat,
    V128Load16Splat,
    V128Load32Splat,
    V128Load64Splat,
    V128Load32Zero,
    V128Load64Zero,
    I32Store,
    I64Store,
    F32Store,
    F64Store,
    I32Store8,
    I64Store8,
    I32Store16,
    I64Store16,
    I64Store32,
    V128Store,
}

impl AccessOp {
    /// The vector type that the operator works on, where it names one.
    pub open spec fn ty(self) -> Option<Type> {
        match self {
            AccessOp::V128Load | AccessOp::V128Load8Splat | AccessOp::V128Store => Some(Type::I8X16),
            AccessOp::V128Load16Splat => Some(Type::I16X8),
            AccessOp::V128Load32Splat | AccessOp::V128Load32Zero => Some(Type::I32X4),
            AccessOp::V128Load64Splat | AccessOp::V128Load64Zero => Some(Type::I64X2),
            _ => None,
        }
    }

    /// The vector type that the operator works on.
    fn type_of(self) -> (r: Type)
        requires
            self.ty() is Some,
        ensures
            self.ty() == Some(r),
    {
        let ty = match self {
            AccessOp::V128Load | AccessOp::V128Load8Splat | AccessOp::V128Store => Some(Type::I8X16),
            AccessOp::V128Load16Splat => Some(Type::I16X8),
            AccessOp::V128Load32Splat | AccessOp::V128Load32Zero => Some(Type::I32X4),
            AccessOp::V128Load64Splat | AccessOp::V128Load64Zero => Some(Type::I64X2),
            _ => None,
        };
        match ty {
            Some(ty) => ty,
            None => {
                assert(false);
                Type::I8X16
            },
        }
    }

    /// How the access is translated, if it is supported.
    pub open spec fn recipe(self) -> Option<AccessRecipe> {
        match self {
            AccessOp::I32Load8U => Some(AccessRecipe::Load(Opcode::Uload8, Type::I32)),
            AccessOp::I32Load16U => Some(AccessRecipe::Load(Opcode::Uload16, Type::I32)),
            AccessOp::I32Load8S => Some(AccessRecipe::Load(Opcode::Sload8, Type::I32)),
            AccessOp::I32Load16S => Some(AccessRecipe::Load(Opcode::Sload16, Type::I32)),
            AccessOp::I64Load8U => Some(AccessRecipe::Load(Opcode::Uload8, Type::I64)),
            AccessOp::I64Load16U => Some(AccessRecipe::Load(Opcode::Uload16, Type::I64)),
            AccessOp::I64Load8S => Some(AccessRecipe::Load(Opcode::Sload8, Type::I64)),
            AccessOp::I64Load16S => Some(AccessRecipe::Load(Opcode::Sload16, Type::I64)),
            AccessOp::I64Load32S => Some(AccessRecipe::Load(Opcode::Sload32, Type::I64)),
            AccessOp::I64Load32U => Some(AccessRecipe::Load(Opcode::Uload32, Type::I64)),
            AccessOp::I32Load => Some(AccessRecipe::Load(Opcode::Load, Type::I32)),
            AccessOp::F32Load => Some(AccessRecipe::Load(Opcode::Load, Type::F32)),
            AccessOp::I64Load => Some(AccessRecipe::Load(Opcode::Load, Type::I64)),
            AccessOp::F64Load => Some(AccessRecipe::Load(Opcode::Load, Type::F64)),
            AccessOp::V128Load => Some(AccessRecipe::Load(Opcode::Load, Type::I8X16)),
            AccessOp::V128Load8x8S => Some(AccessRecipe::LoadExtend(Opcode::Sload8x8, Type::I16X8)),
            AccessOp::V128Load8x8U => Some(AccessRecipe::LoadExtend(Opcode::Uload8x8, Type::I16X8)),
            AccessOp::V128Load16x4S => Some(AccessRecipe::LoadExtend(Opcode::Sload16x4, Type::I32X4)),
            AccessOp::V128Load16x4U => Some(AccessRecipe::LoadExtend(Opcode::Uload16x4, Type::I32X4)),
            AccessOp::V128Load32x2S => Some(AccessRecipe::LoadExtend(Opcode::Sload32x2, Type::I64X2)),
            AccessOp::V128Load32x2U => Some(AccessRecipe::LoadExtend(Opcode::Uload32x2, Type::I64X2)),
            AccessOp::V128Load8Splat | AccessOp::V128Load16Splat | AccessOp::V128Load32Splat
            | AccessOp::V128Load64Splat => Some(AccessRecipe::LoadSplat(self.ty()->0)),
            AccessOp::V128Load32Zero | AccessOp::V128Load64Zero => Some(AccessRecipe::LoadZero(self.ty()->0)),
            AccessOp::I32Store | AccessOp::I64Store | AccessOp::F32Store | AccessOp::F64Store => Some(AccessRecipe::Store(Opcode::Store)),
            AccessOp::I32Store8 | AccessOp::I64Store8 => Some(AccessRecipe::Store(Opcode::Istore8)),
            AccessOp::I32Store16 | AccessOp::I64Store16 => Some(AccessRecipe::Store(Opcode::Istore16)),
            AccessOp::I64Store32 => Some(AccessRecipe::Store(Opcode::Istore32)),
            AccessOp::V128Store => None,
        }
    }

    /// How the access is translated, if it is supported.
    pub fn get_recipe(self) -> (r: Option<AccessRecipe>)
        ensures
            r == self.recipe(),
    {
        match self {
            AccessOp::I32Load8U => Some(AccessRecipe::Load(Opcode::Uload8, Type::I32)),
            AccessOp::I32Load16U => Some(AccessRecipe::Load(Opcode::Uload16, Type::I32)),
            AccessOp::I32Load8S => Some(AccessRecipe::Load(Opcode::Sload8, Type::I32)),
            AccessOp::I32Load16S => Some(AccessRecipe::Load(Opcode::Sload16, Type::I32)),
            AccessOp::I64Load8U => Some(AccessRecipe::Load(Opcode::Uload8, Type::I64)),
            AccessOp::I64Load16U => Some(AccessRecipe::Load(Opcode::Uload16, Type::I64)),
            AccessOp::I64Load8S => Some(AccessRecipe::Load(Opcode::Sload8, Type::I64)),
            AccessOp::I64Load16S => Some(AccessRecipe::Load(Opcode::Sload16, Type::I64)),
            AccessOp::I64Load32S => Some(AccessRecipe::Load(Opcode::Sload32, Type::I64)),
            AccessOp::I64Load32U => Some(AccessRecipe::Load(Opcode::Uload32, Type::I64)),
            AccessOp::I32Load => Some(AccessRecipe::Load(Opcode::Load, Type::I32)),
            AccessOp::F32Load => Some(AccessRecipe::Load(Opcode::Load, Type::F32)),
            AccessOp::I64Load => Some(AccessRecipe::Load(Opcode::Load, Type::I64)),
            AccessOp::F64Load => Some(AccessRecipe::Load(Opcode::Load, Type::F64)),
            AccessOp::V128Load => Some(AccessRecipe::Load(Opcode::Load, Type::I8X16)),
            AccessOp::V128Load8x8S => Some(AccessRecipe::LoadExtend(Opcode::Sload8x8, Type::I16X8)),
            AccessOp::V128Load8x8U => Some(AccessRecipe::LoadExtend(Opcode::Uload8x8, Type::I16X8)),
            AccessOp::V128Load16x4S => Some(AccessRecipe::LoadExtend(Opcode::Sload16x4, Type::I32X4)),
            AccessOp::V128Load16x4U => Some(AccessRecipe::LoadExtend(Opcode::Uload16x4, Type::I32X4)),
            AccessOp::V128Load32x2S => Some(AccessRecipe::LoadExtend(Opcode::Sload32x2, Type::I64X2)),
            AccessOp::V128Load32x2U => Some(AccessRecipe::LoadExtend(Opcode::Uload32x2, Type::I64X2)),
            AccessOp::V128Load8Splat | AccessOp::V128Load16Splat | AccessOp::V128Load32Splat
            | AccessOp::V128Load64Splat => Some(AccessRecipe::LoadSplat(self.type_of())),
            AccessOp::V128Load32Zero | AccessOp::V128Load64Zero => Some(AccessRecipe::LoadZero(self.type_of())),
            AccessOp::I32Store | AccessOp::I64Store | AccessOp::F32Store | AccessOp::F64Store => Some(AccessRecipe::Store(Opcode::Store)),
            AccessOp::I32Store8 | AccessOp::I64Store8 => Some(AccessRecipe::Store(Opcode::Istore8)),
            AccessOp::I32Store16 | AccessOp::I64Store16 => Some(AccessRecipe::Store(Opcode::Istore16)),
            AccessOp::I64Store32 => Some(AccessRecipe::Store(Opcode::Istore32)),
            AccessOp::V128Store => None,
        }
    }
}

/// How an access to one lane is translated.
#[derive(Debug, Clone, Copy, PartialEq, Eq, Structural)]
pub enum LaneAccessRecipe {
    /// A load into one lane of a vector of the given type.
    LoadLane(Type),
    /// A store of one lane of a vector of the given type.
    StoreLane(Type),
}

/// Operators that access memory with one lane of a vector.
#[derive(Debug, Clone, Copy, PartialEq, Eq, Structural)]
pub enum LaneAccessOp {
    V128Load8Lane,
    V128Load16Lane,
    V128Load32Lane,
    V128Load64Lane,
    V128Store8Lane,
    V128Store16Lane,
    V128Store32Lane,
    V128Store64Lane,
}

impl LaneAccessOp {
    /// The vector type that the operator works on, where it names one.
    pub open spec fn ty(self) -> Option<Type> {
        match self {
            LaneAccessOp::V128Load8Lane | LaneAccessOp::V128Store8Lane => Some(Type::I8X16),
            LaneAccessOp::V128Load16Lane | LaneAccessOp::V128Store16Lane => Some(Type::I16X8),
            LaneAccessOp::V128Load32Lane | LaneAccessOp::V128Store32Lane => Some(Type::I32X4),
            LaneAccessOp::V128Load64Lane | LaneAccessOp::V128Store64Lane => Some(Type::I64X2),
        }
    }

    /// The vector type that the operator works on.
    fn type_of(self) -> (r: Type)
        requires
            self.ty() is Some,
        ensures
            self.ty() == Some(r),
    {
        let ty = match self {
            LaneAccessOp::V128Load8Lane | LaneAccessOp::V128Store8Lane => Some(Type::I8X16),
            LaneAccessOp::V128Load16Lane | LaneAccessOp::V128Store16Lane => Some(Type::I16X8),
            LaneAccessOp::V128Load32Lane | LaneAccessOp::V128Store32Lane => Some(Type::I32X4),
            LaneAccessOp::V128Load64Lane | LaneAccessOp::V128Store64Lane => Some(Type::I64X2),
        };
        match ty {
            Some(ty) => ty,
            None => {
                assert(false);
                Type::I8X16
            },
        }
    }

    /// How the access is translated.
    pub open spec fn recipe(self) -> LaneAccessRecipe {
        match self {
            LaneAccessOp::V128Load8Lane | LaneAccessOp::V128Load16Lane
            | LaneAccessOp::V128Load32Lane | LaneAccessOp::V128Load64Lane => LaneAccessRecipe::LoadLane(self.ty()->0),
            LaneAccessOp::V128Store8Lane | LaneAccessOp::V128Store16Lane
            | LaneAccessOp::V128Store32Lane | LaneAccessOp::V128Store64Lane => LaneAccessRecipe::StoreLane(self.ty()->0),
        }
    }

    /// How the access is translated.
    pub fn get_recipe(self) -> (r: LaneAccessRecipe)
        ensures
            r == self.recipe(),
    {
        match self {
            LaneAccessOp::V128Load8Lane | LaneAccessOp::V128Load16Lane
            | LaneAccessOp::V128Load32Lane | LaneAccessOp::V128Load64Lane => LaneAccessRecipe::LoadLane(self.type_of()),
            LaneAccessOp::V128Store8Lane | LaneAccessOp::V128Store16Lane
            | LaneAccessOp::V128Store32Lane | LaneAccessOp::V128Store64Lane => LaneAccessRecipe::StoreLane(self.type_of()),
        }
    }
}

/// How an operator on one lane is translated.
#[derive(Debug, Clone, Copy, PartialEq, Eq, Structural)]
pub enum LaneRecipe {
    /// One lane, extended to 32 bits.
    ExtractExtend(Type, ConvertOp),
    /// One lane.
    Extract(Type),
    /// One lane replaced by a scalar, narrowed to the lane first.
    ReplaceReduced(Type),
    /// One lane replaced by a scalar.
    Replace(Type),
}

/// Operators on one lane of a vector.
#[derive(Debug, Clone, Copy, PartialEq, Eq, Structural)]
pub enum LaneOp {
    I8x16ExtractLaneS,
    I16x8ExtractLaneS,
    I8x16ExtractLaneU,
    I16x8ExtractLaneU,
    I32x4ExtractLane,
    I64x2ExtractLane,
    F32x4ExtractLane,
    F64x2ExtractLane,
    I8x16ReplaceLane,
    I16x8ReplaceLane,
    I32x4ReplaceLane,
    I64x2ReplaceLane,
    F32x4ReplaceLane,
    F64x2ReplaceLane,
}

impl LaneOp {
    /// The vector type that the operator works on, where it names one.
    pub open spec fn ty(self) -> Option<Type> {
        match self {
            LaneOp::I8x16ExtractLaneS | LaneOp::I8x16ExtractLaneU | LaneOp::I8x16ReplaceLane => Some(Type::I8X16),
            LaneOp::I16x8ExtractLaneS | LaneOp::I16x8ExtractLaneU | LaneOp::I16x8ReplaceLane => Some(Type::I16X8),
            LaneOp::I32x4ExtractLane | LaneOp::I32x4ReplaceLane => Some(Type::I32X4),
            LaneOp::I64x2ExtractLane | LaneOp::I64x2ReplaceLane => Some(Type::I64X2),
            LaneOp::F32x4ExtractLane | LaneOp::F32x4ReplaceLane => Some(Type::F32X4),
            LaneOp::F64x2ExtractLane | LaneOp::F64x2ReplaceLane => Some(Type::F64X2),
        }
    }

    /// The vector type that the operator works on.
    fn type_of(self) -> (r: Type)
        requires
            self.ty() is Some,
        ensures
            self.ty() == Some(r),
    {
        let ty = match self {
            LaneOp::I8x16ExtractLaneS | LaneOp::I8x16ExtractLaneU | LaneOp::I8x16ReplaceLane => Some(Type::I8X16),
            LaneOp::I16x8ExtractLaneS | LaneOp::I16x8ExtractLaneU | LaneOp::I16x8ReplaceLane => Some(Type::I16X8),
            LaneOp::I32x4ExtractLane | LaneOp::I32x4ReplaceLane => Some(Type::I32X4),
            LaneOp::I64x2ExtractLane | LaneOp::I64x2ReplaceLane => Some(Type::I64X2),
            LaneOp::F32x4ExtractLane | LaneOp::F32x4ReplaceLane => Some(Type::F32X4),
            LaneOp::F64x2ExtractLane | LaneOp::F64x2ReplaceLane => Some(Type::F64X2),
        };
        match ty {
            Some(ty) => ty,
            None => {
                assert(false);
                Type::I8X16
            },
        }
    }

    /// How the operator is translated.
    pub open spec fn recipe(self) -> LaneRecipe {
        match self {
            LaneOp::I8x16ExtractLaneS | LaneOp::I16x8ExtractLaneS => LaneRecipe::ExtractExtend(self.ty()->0, ConvertOp::Sextend),
            LaneOp::I8x16ExtractLaneU | LaneOp::I16x8ExtractLaneU => LaneRecipe::ExtractExtend(self.ty()->0, ConvertOp::Uextend),
            LaneOp::I32x4ExtractLane | LaneOp::I64x2ExtractLane | LaneOp::F32x4ExtractLane
            | LaneOp::F64x2ExtractLane => LaneRecipe::Extract(self.ty()->0),
            LaneOp::I8x16ReplaceLane | LaneOp::I16x8ReplaceLane => LaneRecipe::ReplaceReduced(self.ty()->0),
            LaneOp::I32x4ReplaceLane | LaneOp::I64x2ReplaceLane | LaneOp::F32x4ReplaceLane
            | LaneOp::F64x2ReplaceLane => LaneRecipe::Replace(self.ty()->0),
        }
    }

    /// How the operator is translated.
    pub fn get_recipe(self) -> (r: LaneRecipe)
        ensures
            r == self.recipe(),
    {
        match self {
            LaneOp::I8x16ExtractLaneS | LaneOp::I16x8ExtractLaneS => LaneRecipe::ExtractExtend(self.type_of(), ConvertOp::Sextend),
            LaneOp::I8x16ExtractLaneU | LaneOp::I16x8ExtractLaneU => LaneRecipe::ExtractExtend(self.type_of(), ConvertOp::Uextend),
            LaneOp::I32x4ExtractLane | LaneOp::I64x2ExtractLane | LaneOp::F32x4ExtractLane
            | LaneOp::F64x2ExtractLane => LaneRecipe::Extract(self.type_of()),
            LaneOp::I8x16ReplaceLane | LaneOp::I16x8ReplaceLane => LaneRecipe::ReplaceReduced(self.type_of()),
            LaneOp::I32x4ReplaceLane | LaneOp::I64x2ReplaceLane | LaneOp::F32x4ReplaceLane
            | LaneOp::F64x2ReplaceLane => LaneRecipe::Replace(self.type_of()),
        }
    }
}

/// Operators that are recognized but have no translation in reachable code.
#[derive(Debug, Clone, Copy, PartialEq, Eq, Structural)]
pub enum UntranslatedOp {
    MemoryGrow,
    MemorySize,
    MemoryInit,
    MemoryCopy,
    MemoryFill,
    DataDrop,
    TableFill,
    TableGet,
    TableSet,
    TableGrow,
    TableSize,
    TableInit,
    TableCopy,
    ElemDrop,
    RefFunc,
    MemoryAtomicWait32,
    MemoryAtomicWait64,
    MemoryAtomicNotify,
    CallRef,
    ReturnCall,
    ReturnCallIndirect,
    ReturnCallRef,
    RefI31,
    I31GetS,
    I31GetU,
    I32AtomicLoad,
    I64AtomicLoad,
    I32AtomicLoad8U,
    I32AtomicLoad16U,
    I64AtomicLoad8U,
    I64AtomicLoad16U,
    I64AtomicLoad32U,
    I32AtomicStore,
    I64AtomicStore,
    I32AtomicStore8,
    I32AtomicStore16,
    I64AtomicStore8,
    I64AtomicStore16,
    I64AtomicStore32,
    I32AtomicRmwAdd,
    I64AtomicRmwAdd,
    I32AtomicRmw8AddU,
    I32AtomicRmw16AddU,
    I64AtomicRmw8AddU,
    I64AtomicRmw16AddU,
    I64AtomicRmw32AddU,
    I32AtomicRmwSub,
    I64AtomicRmwSub,
    I32AtomicRmw8SubU,
    I32AtomicRmw16SubU,
    I64AtomicRmw8SubU,
    I64AtomicRmw16SubU,
    I64AtomicRmw32SubU,
    I32AtomicRmwAnd,
    I64AtomicRmwAnd,
    I32AtomicRmw8AndU,
    I32AtomicRmw16AndU,
    I64AtomicRmw8AndU,
    I64AtomicRmw16AndU,
    I64AtomicRmw32AndU,
    I32AtomicRmwOr,
    I64AtomicRmwOr,
    I32AtomicRmw8OrU,
    I32AtomicRmw16OrU,
    I64AtomicRmw8OrU,
    I64AtomicRmw16OrU,
    I64AtomicRmw32OrU,
    I32AtomicRmwXor,
    I64AtomicRmwXor,
    I32AtomicRmw8XorU,
    I32AtomicRmw16XorU,
    I64AtomicRmw8XorU,
    I64AtomicRmw16XorU,
    I64AtomicRmw32XorU,
    I32AtomicRmwXchg,
    I64AtomicRmwXchg,
    I32AtomicRmw8XchgU,
    I32AtomicRmw16XchgU,
    I64AtomicRmw8XchgU,
    I64AtomicRmw16XchgU,
    I64AtomicRmw32XchgU,
    I32AtomicRmwCmpxchg,
    I64AtomicRmwCmpxchg,
    I32AtomicRmw8CmpxchgU,
    I32AtomicRmw16CmpxchgU,
    I64AtomicRmw8CmpxchgU,
    I64AtomicRmw16CmpxchgU,
    I64AtomicRmw32CmpxchgU,
}

/// Operators of proposals that are not supported.
#[derive(Debug, Clone, Copy, PartialEq, Eq, Structural)]
pub enum ProposedOp {
    StructNew,
    StructNewDefault,
    StructGet,
    StructGetS,
    StructGetU,
    StructSet,
    ArrayNew,
    ArrayNewDefault,
    ArrayNewFixed,
    ArrayNewData,
    ArrayNewElem,
    ArrayGet,
    ArrayGetS,
    ArrayGetU,
    ArraySet,
    ArrayLen,
    ArrayFill,
    ArrayCopy,
    ArrayInitData,
    ArrayInitElem,
    RefTestNonNull,
    RefTestNullable,
    RefCastNonNull,
    RefCastNullable,
    BrOnCast,
    BrOnCastFail,
    AnyConvertExtern,
    ExternConvertAny,
    RefEq,
    GlobalAtomicGet,
    GlobalAtomicSet,
    GlobalAtomicRmwAdd,
    GlobalAtomicRmwSub,
    GlobalAtomicRmwAnd,
    GlobalAtomicRmwOr,
    GlobalAtomicRmwXor,
    GlobalAtomicRmwXchg,
    GlobalAtomicRmwCmpxchg,
    TableAtomicGet,
    TableAtomicSet,
    TableAtomicRmwXchg,
    TableAtomicRmwCmpxchg,
    StructAtomicGet,
    StructAtomicGetS,
    StructAtomicGetU,
    StructAtomicSet,
    StructAtomicRmwAdd,
    StructAtomicRmwSub,
    StructAtomicRmwAnd,
    StructAtomicRmwOr,
    StructAtomicRmwXor,
    StructAtomicRmwXchg,
    StructAtomicRmwCmpxchg,
    ArrayAtomicGet,
    ArrayAtomicGetS,
    ArrayAtomicGetU,
    ArrayAtomicSet,
    ArrayAtomicRmwAdd,
    ArrayAtomicRmwSub,
    ArrayAtomicRmwAnd,
    ArrayAtomicRmwOr,
    ArrayAtomicRmwXor,
    ArrayAtomicRmwXchg,
    ArrayAtomicRmwCmpxchg,
    RefI31Shared,
    TryTable,
    Throw,
    ThrowRef,
    Try,
    Catch,
    Rethrow,
    Delegate,
    CatchAll,
    ContNew,
    ContBind,
    Suspend,
    Resume,
    ResumeThrow,
    Switch,
    I64Add128,
    I64Sub128,
    I64MulWideS,
    I64MulWideU,
}

impl ProposedOp {
    /// The name of the proposal.
    pub open spec fn feature(self) -> Seq<char> {
        match self {
            ProposedOp::StructNew | ProposedOp::StructNewDefault | ProposedOp::StructGet
            | ProposedOp::StructGetS | ProposedOp::StructGetU | ProposedOp::StructSet
            | ProposedOp::ArrayNew | ProposedOp::ArrayNewDefault | ProposedOp::ArrayNewFixed
            | ProposedOp::ArrayNewData | ProposedOp::ArrayNewElem | ProposedOp::ArrayGet
            | ProposedOp::ArrayGetS | ProposedOp::ArrayGetU | ProposedOp::ArraySet
            | ProposedOp::ArrayLen | ProposedOp::ArrayFill | ProposedOp::ArrayCopy
            | ProposedOp::ArrayInitData | ProposedOp::ArrayInitElem | ProposedOp::RefTestNonNull
            | ProposedOp::RefTestNullable | ProposedOp::RefCastNonNull
            | ProposedOp::RefCastNullable | ProposedOp::BrOnCast | ProposedOp::BrOnCastFail
            | ProposedOp::AnyConvertExtern | ProposedOp::ExternConvertAny | ProposedOp::RefEq => "Garbage Collection Proposal"@,
            ProposedOp::GlobalAtomicGet | ProposedOp::GlobalAtomicSet
            | ProposedOp::GlobalAtomicRmwAdd | ProposedOp::GlobalAtomicRmwSub
            | ProposedOp::GlobalAtomicRmwAnd | ProposedOp::GlobalAtomicRmwOr
            | ProposedOp::GlobalAtomicRmwXor | ProposedOp::GlobalAtomicRmwXchg
            | ProposedOp::GlobalAtomicRmwCmpxchg | ProposedOp::TableAtomicGet
            | ProposedOp::TableAtomicSet | ProposedOp::TableAtomicRmwXchg
            | ProposedOp::TableAtomicRmwCmpxchg | ProposedOp::StructAtomicGet
            | ProposedOp::StructAtomicGetS | ProposedOp::StructAtomicGetU
            | ProposedOp::StructAtomicSet | ProposedOp::StructAtomicRmwAdd
            | ProposedOp::StructAtomicRmwSub | ProposedOp::StructAtomicRmwAnd
            | ProposedOp::StructAtomicRmwOr | ProposedOp::StructAtomicRmwXor
            | ProposedOp::StructAtomicRmwXchg | ProposedOp::StructAtomicRmwCmpxchg
            | ProposedOp::ArrayAtomicGet | ProposedOp::ArrayAtomicGetS
            | ProposedOp::ArrayAtomicGetU | ProposedOp::ArrayAtomicSet
            | ProposedOp::ArrayAtomicRmwAdd | ProposedOp::ArrayAtomicRmwSub
            | ProposedOp::ArrayAtomicRmwAnd | ProposedOp::ArrayAtomicRmwOr
            | ProposedOp::ArrayAtomicRmwXor | ProposedOp::ArrayAtomicRmwXchg
            | ProposedOp::ArrayAtomicRmwCmpxchg | ProposedOp::RefI31Shared => "Shared-Everything Threads Proposal"@,
            ProposedOp::TryTable | ProposedOp::Throw | ProposedOp::ThrowRef => "Exception Handling Proposal"@,
            ProposedOp::Try | ProposedOp::Catch | ProposedOp::Rethrow | ProposedOp::Delegate
            | ProposedOp::CatchAll => "Legacy Exception Handling Proposal"@,
            ProposedOp::ContNew | ProposedOp::ContBind | ProposedOp::Suspend | ProposedOp::Resume
            | ProposedOp::ResumeThrow | ProposedOp::Switch => "Stack Switching Proposal"@,
            ProposedOp::I64Add128 | ProposedOp::I64Sub128 | ProposedOp::I64MulWideS
            | ProposedOp::I64MulWideU => "Wide Arithmetic Proposal"@,
        }
    }

    /// The name of the proposal.
    pub fn feature_name(self) -> (r: &'static str)
        ensures
            r@ == self.feature(),
    {
        match self {
            ProposedOp::StructNew | ProposedOp::StructNewDefault | ProposedOp::StructGet
            | ProposedOp::StructGetS | ProposedOp::StructGetU | ProposedOp::StructSet
            | ProposedOp::ArrayNew | ProposedOp::ArrayNewDefault | ProposedOp::ArrayNewFixed
            | ProposedOp::ArrayNewData | ProposedOp::ArrayNewElem | ProposedOp::ArrayGet
            | ProposedOp::ArrayGetS | ProposedOp::ArrayGetU | ProposedOp::ArraySet
            | ProposedOp::ArrayLen | ProposedOp::ArrayFill | ProposedOp::ArrayCopy
            | ProposedOp::ArrayInitData | ProposedOp::ArrayInitElem | ProposedOp::RefTestNonNull
            | ProposedOp::RefTestNullable | ProposedOp::RefCastNonNull
            | ProposedOp::RefCastNullable | ProposedOp::BrOnCast | ProposedOp::BrOnCastFail
            | ProposedOp::AnyConvertExtern | ProposedOp::ExternConvertAny | ProposedOp::RefEq => "Garbage Collection Proposal",
            ProposedOp::GlobalAtomicGet | ProposedOp::GlobalAtomicSet
            | ProposedOp::GlobalAtomicRmwAdd | ProposedOp::GlobalAtomicRmwSub
            | ProposedOp::GlobalAtomicRmwAnd | ProposedOp::GlobalAtomicRmwOr
            | ProposedOp::GlobalAtomicRmwXor | ProposedOp::GlobalAtomicRmwXchg
            | ProposedOp::GlobalAtomicRmwCmpxchg | ProposedOp::TableAtomicGet
            | ProposedOp::TableAtomicSet | ProposedOp::TableAtomicRmwXchg
            | ProposedOp::TableAtomicRmwCmpxchg | ProposedOp::StructAtomicGet
            | ProposedOp::StructAtomicGetS | ProposedOp::StructAtomicGetU
            | ProposedOp::StructAtomicSet | ProposedOp::StructAtomicRmwAdd
            | ProposedOp::StructAtomicRmwSub | ProposedOp::StructAtomicRmwAnd
            | ProposedOp::StructAtomicRmwOr | ProposedOp::StructAtomicRmwXor
            | ProposedOp::StructAtomicRmwXchg | ProposedOp::StructAtomicRmwCmpxchg
            | ProposedOp::ArrayAtomicGet | ProposedOp::ArrayAtomicGetS
            | ProposedOp::ArrayAtomicGetU | ProposedOp::ArrayAtomicSet
            | ProposedOp::ArrayAtomicRmwAdd | ProposedOp::ArrayAtomicRmwSub
            | ProposedOp::ArrayAtomicRmwAnd | ProposedOp::ArrayAtomicRmwOr
            | ProposedOp::ArrayAtomicRmwXor | ProposedOp::ArrayAtomicRmwXchg
            | ProposedOp::ArrayAtomicRmwCmpxchg | ProposedOp::RefI31Shared => "Shared-Everything Threads Proposal",
            ProposedOp::TryTable | ProposedOp::Throw | ProposedOp::ThrowRef => "Exception Handling Proposal",
            ProposedOp::Try | ProposedOp::Catch | ProposedOp::Rethrow | ProposedOp::Delegate
            | ProposedOp::CatchAll => "Legacy Exception Handling Proposal",
            ProposedOp::ContNew | ProposedOp::ContBind | ProposedOp::Suspend | ProposedOp::Resume
            | ProposedOp::ResumeThrow | ProposedOp::Switch => "Stack Switching Proposal",
            ProposedOp::I64Add128 | ProposedOp::I64Sub128 | ProposedOp::I64MulWideS
            | ProposedOp::I64MulWideU => "Wide Arithmetic Proposal",
        }
    }
}

/// A WebAssembly operator.
#[derive(Debug)]
pub enum Operator<T = Vec<u32>> {
    Unreachable,
    Nop,
    Drop,
    Select,
    TypedSelect,
    Block { blockty: BlockType },
    Loop { blockty: BlockType },
    If { blockty: BlockType },
    Else,
    End,
    Br { relative_depth: u32 },
    BrIf { relative_depth: u32 },
    BrTable { targets: T, default: u32 },
    Return,
    Call { function_index: u32 },
    CallIndirect { type_index: u32, table_index: u32 },
    LocalGet { local_index: u32 },
    LocalSet { local_index: u32 },
    LocalTee { local_index: u32 },
    GlobalGet { global_index: u32 },
    GlobalSet { global_index: u32 },
    I32Const { value: i32 },
    I64Const { value: i64 },
    F32Const { bits: u32 },
    F64Const { bits: u64 },
    V128Const { bytes: u128 },
    I8x16Shuffle { lanes: u128 },
    RefNull { hty: WasmHeapType },
    RefIsNull,
    RefAsNonNull,
    BrOnNull { relative_depth: u32 },
    BrOnNonNull { relative_depth: u32 },
    AtomicFence,
    Numeric(NumericOp),
    Vector(VectorOp),
    Access { op: AccessOp, memarg: MemArg },
    LaneAccess { op: LaneAccessOp, memarg: MemArg, lane: u8 },
    Lane { op: LaneOp, lane: u8 },
    Untranslated(UntranslatedOp),
    Proposed(ProposedOp),
    MemoryDiscard { mem: u32 },
}

impl View for Operator {
    type V = Operator<Seq<u32>>;

    open spec fn view(&self) -> Operator<Seq<u32>> {
        match *self {
            Operator::Unreachable => Operator::Unreachable,
            Operator::Nop => Operator::Nop,
            Operator::Drop => Operator::Drop,
            Operator::Select => Operator::Select,
            Operator::TypedSelect => Operator::TypedSelect,
            Operator::Block { blockty } => Operator::Block { blockty },
            Operator::Loop { blockty } => Operator::Loop { blockty },
            Operator::If { blockty } => Operator::If { blockty },
            Operator::Else => Operator::Else,
            Operator::End => Operator::End,
            Operator::Br { relative_depth } => Operator::Br { relative_depth },
            Operator::BrIf { relative_depth } => Operator::BrIf { relative_depth },
            Operator::BrTable { targets, default } => Operator::BrTable {
                targets: targets@,
                default,
            },
            Operator::Return => Operator::Return,
            Operator::Call { function_index } => Operator::Call { function_index },
            Operator::CallIndirect { type_index, table_index } => Operator::CallIndirect { type_index, table_index },
            Operator::LocalGet { local_index } => Operator::LocalGet { local_index },
            Operator::LocalSet { local_index } => Operator::LocalSet { local_index },
            Operator::LocalTee { local_index } => Operator::LocalTee { local_index },
            Operator::GlobalGet { global_index } => Operator::GlobalGet { global_index },
            Operator::GlobalSet { global_index } => Operator::GlobalSet { global_index },
            Operator::I32Const { value } => Operator::I32Const { value },
            Operator::I64Const { value } => Operator::I64Const { value },
            Operator::F32Const { bits } => Operator::F32Const { bits },
            Operator::F64Const { bits } => Operator::F64Const { bits },
            Operator::V128Const { bytes } => Operator::V128Const { bytes },
            Operator::I8x16Shuffle { lanes } => Operator::I8x16Shuffle { lanes },
            Operator::RefNull { hty } => Operator::RefNull { hty },
            Operator::RefIsNull => Operator::RefIsNull,
            Operator::RefAsNonNull => Operator::RefAsNonNull,
            Operator::BrOnNull { relative_depth } => Operator::BrOnNull { relative_depth },
            Operator::BrOnNonNull { relative_depth } => Operator::BrOnNonNull { relative_depth },
            Operator::AtomicFence => Operator::AtomicFence,
            Operator::Numeric(op) => Operator::Numeric(op),
            Operator::Vector(op) => Operator::Vector(op),
            Operator::Access { op, memarg } => Operator::Access { op, memarg },
            Operator::LaneAccess { op, memarg, lane } => Operator::LaneAccess { op, memarg, lane },
            Operator::Lane { op, lane } => Operator::Lane { op, lane },
            Operator::Untranslated(op) => Operator::Untranslated(op),
            Operator::Proposed(op) => Operator::Proposed(op),
            Operator::MemoryDiscard { mem } => Operator::MemoryDiscard { mem },
        }
    }
}

/// The vector type that an operator works on, where it names one.
pub open spec fn operator_type(operator: Operator<Seq<u32>>) -> Option<Type> {
    match operator {
        Operator::V128Const { .. } | Operator::I8x16Shuffle { .. } => Some(Type::I8X16),
        Operator::Vector(op) => op.ty(),
        Operator::Access { op, .. } => op.ty(),
        Operator::LaneAccess { op, .. } => op.ty(),
        Operator::Lane { op, .. } => op.ty(),
        _ => None,
    }
}

/// The vector type that an operator works on.
pub fn type_of(operator: &Operator) -> (r: Type)
    requires
        operator_type(operator@) is Some,
    ensures
        operator_type(operator@) == Some(r),
{
    match operator {
        Operator::Vector(op) => op.type_of(),
        Operator::Access { op, .. } => op.type_of(),
        Operator::LaneAccess { op, .. } => op.type_of(),
        Operator::Lane { op, .. } => op.type_of(),
        _ => Type::I8X16,
    }
}

} // verus!
