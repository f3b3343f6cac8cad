//! The bytes that operators are written as.
use crate::cranelift::decode::{operator_at, var_u32};
use crate::cranelift::opcodes::{
    access_of, lane_access_of, lane_of, numeric_of, saturating_of, vector_access_of, vector_of,
};
use crate::cranelift::operator::{AccessOp, LaneAccessOp, LaneOp, NumericOp, Operator, VectorOp};
use vstd::prelude::*;

verus! {

impl NumericOp {
    /// Whether the operator is a number behind 0xfc.
    pub open spec fn is_prefixed(self) -> bool {
        match self {
            NumericOp::I32TruncSatF64S | NumericOp::I32TruncSatF32S | NumericOp::I32TruncSatF64U
            | NumericOp::I32TruncSatF32U | NumericOp::I64TruncSatF64S |
            NumericOp::I64TruncSatF32S | NumericOp::I64TruncSatF64U | NumericOp::I64TruncSatF32U => true,
            _ => false,
        }
    }

    /// The number of the operator.
    pub open spec fn number(self) -> u32 {
        match self {
            NumericOp::I32Add => 0x6a,
            NumericOp::I64Add => 0x7c,
            NumericOp::I32Sub => 0x6b,
            NumericOp::I64Sub => 0x7d,
            NumericOp::I32Mul => 0x6c,
            NumericOp::I64Mul => 0x7e,
            NumericOp::I32DivS => 0x6d,
            NumericOp::I64DivS => 0x7f,
            NumericOp::I32DivU => 0x6e,
            NumericOp::I64DivU => 0x80,
            NumericOp::I32RemS => 0x6f,
            NumericOp::I64RemS => 0x81,
            NumericOp::I32RemU => 0x70,
            NumericOp::I64RemU => 0x82,
            NumericOp::I32And => 0x71,
            NumericOp::I64And => 0x83,
            NumericOp::I32Or => 0x72,
            NumericOp::I64Or => 0x84,
            NumericOp::I32Xor => 0x73,
            NumericOp::I64Xor => 0x85,
            NumericOp::I32Shl => 0x74,
            NumericOp::I64Shl => 0x86,
            NumericOp::I32ShrS => 0x75,
            NumericOp::I64ShrS => 0x87,
            NumericOp::I32ShrU => 0x76,
            NumericOp::I64ShrU => 0x88,
            NumericOp::I32Rotl => 0x77,
            NumericOp::I64Rotl => 0x89,
            NumericOp::I32Rotr => 0x78,
            NumericOp::I64Rotr => 0x8a,
            NumericOp::I32Clz => 0x67,
            NumericOp::I64Clz => 0x79,
            NumericOp::I32Ctz => 0x68,
            NumericOp::I64Ctz => 0x7a,
            NumericOp::I32Popcnt => 0x69,
            NumericOp::I64Popcnt => 0x7b,
            NumericOp::I32WrapI64 => 0xa7,
            NumericOp::I64ExtendI32S => 0xac,
            NumericOp::I64ExtendI32U => 0xad,
            NumericOp::F32Add => 0x92,
            NumericOp::F64Add => 0xa0,
            NumericOp::F32Sub => 0x93,
            NumericOp::F64Sub => 0xa1,
            NumericOp::F32Mul => 0x94,
            NumericOp::F64Mul => 0xa2,
            NumericOp::F32Div => 0x95,
            NumericOp::F64Div => 0xa3,
            NumericOp::F32Min => 0x96,
            NumericOp::F64Min => 0xa4,
            NumericOp::F32Max => 0x97,
            NumericOp::F64Max => 0xa5,
            NumericOp::F32Copysign => 0x98,
            NumericOp::F64Copysign => 0xa6,
            NumericOp::F32Sqrt => 0x91,
            NumericOp::F64Sqrt => 0x9f,
            NumericOp::F32Ceil => 0x8d,
            NumericOp::F64Ceil => 0x9b,
            NumericOp::F32Floor => 0x8e,
            NumericOp::F64Floor => 0x9c,
            NumericOp::F32Trunc => 0x8f,
            NumericOp::F64Trunc => 0x9d,
            NumericOp::F32Nearest => 0x90,
            NumericOp::F64Nearest => 0x9e,
            NumericOp::F32Abs => 0x8b,
            NumericOp::F64Abs => 0x99,
            NumericOp::F32Neg => 0x8c,
            NumericOp::F64Neg => 0x9a,
            NumericOp::I32TruncF64S => 0xaa,
            NumericOp::I32TruncF32S => 0xa8,
            NumericOp::I32TruncF64U => 0xab,
            NumericOp::I32TruncF32U => 0xa9,
            NumericOp::I64TruncF64S => 0xb0,
            NumericOp::I64TruncF32S => 0xae,
            NumericOp::I64TruncF64U => 0xb1,
            NumericOp::I64TruncF32U => 0xaf,
            NumericOp::F32DemoteF64 => 0xb6,
            NumericOp::F32ConvertI64S => 0xb4,
            NumericOp::F32ConvertI32S => 0xb2,
            NumericOp::F32ConvertI64U => 0xb5,
            NumericOp::F32ConvertI32U => 0xb3,
            NumericOp::F64ConvertI64S => 0xb9,
            NumericOp::F64ConvertI32S => 0xb7,
            NumericOp::F64ConvertI64U => 0xba,
            NumericOp::F64ConvertI32U => 0xb8,
            NumericOp::F64PromoteF32 => 0xbb,
            NumericOp::F32ReinterpretI32 => 0xbe,
            NumericOp::F64ReinterpretI64 => 0xbf,
            NumericOp::I32ReinterpretF32 => 0xbc,
            NumericOp::I64ReinterpretF64 => 0xbd,
            NumericOp::I32LtS => 0x48,
            NumericOp::I64LtS => 0x53,
            NumericOp::I32LtU => 0x49,
            NumericOp::I64LtU => 0x54,
            NumericOp::I32LeS => 0x4c,
            NumericOp::I64LeS => 0x57,
            NumericOp::I32LeU => 0x4d,
            NumericOp::I64LeU => 0x58,
            NumericOp::I32GtS => 0x4a,
            NumericOp::I64GtS => 0x55,
            NumericOp::I32GtU => 0x4b,
            NumericOp::I64GtU => 0x56,
            NumericOp::I32GeS => 0x4e,
            NumericOp::I64GeS => 0x59,
            NumericOp::I32GeU => 0x4f,
            NumericOp::I64GeU => 0x5a,
            NumericOp::I32Eq => 0x46,
            NumericOp::I64Eq => 0x51,
            NumericOp::I32Ne => 0x47,
            NumericOp::I64Ne => 0x52,
            NumericOp::I32Eqz => 0x45,
            NumericOp::I64Eqz => 0x50,
            NumericOp::F32Eq => 0x5b,
            NumericOp::F64Eq => 0x61,
            NumericOp::F32Ne => 0x5c,
            NumericOp::F64Ne => 0x62,
            NumericOp::F32Gt => 0x5e,
            NumericOp::F64Gt => 0x64,
            NumericOp::F32Ge => 0x60,
            NumericOp::F64Ge => 0x66,
            NumericOp::F32Lt => 0x5d,
            NumericOp::F64Lt => 0x63,
            NumericOp::F32Le => 0x5f,
            NumericOp::F64Le => 0x65,
            NumericOp::I32Extend8S => 0xc0,
            NumericOp::I32Extend16S => 0xc1,
            NumericOp::I64Extend8S => 0xc2,
            NumericOp::I64Extend16S => 0xc3,
            NumericOp::I64Extend32S => 0xc4,
            NumericOp::I32TruncSatF64S => 0x02,
            NumericOp::I32TruncSatF32S => 0x00,
            NumericOp::I32TruncSatF64U => 0x03,
            NumericOp::I32TruncSatF32U => 0x01,
            NumericOp::I64TruncSatF64S => 0x06,
            NumericOp::I64TruncSatF32S => 0x04,
            NumericOp::I64TruncSatF64U => 0x07,
            NumericOp::I64TruncSatF32U => 0x05,
        }
    }
}

impl AccessOp {
    /// Whether the operator is a number behind 0xfd.
    pub open spec fn is_prefixed(self) -> bool {
        match self {
            AccessOp::V128Load | AccessOp::V128Load8x8S | AccessOp::V128Load8x8U |
            AccessOp::V128Load16x4S | AccessOp::V128Load16x4U | AccessOp::V128Load32x2S |
            AccessOp::V128Load32x2U | AccessOp::V128Load8Splat | AccessOp::V128Load16Splat |
            AccessOp::V128Load32Splat | AccessOp::V128Load64Splat | AccessOp::V128Load32Zero |
            AccessOp::V128Load64Zero | AccessOp::V128Store => true,
            _ => false,
        }
    }

    /// The number of the operator.
    pub open spec fn number(self) -> u32 {
        match self {
            AccessOp::I32Load8U => 0x2d,
            AccessOp::I32Load16U => 0x2f,
            AccessOp::I32Load8S => 0x2c,
            AccessOp::I32Load16S => 0x2e,
            AccessOp::I64Load8U => 0x31,
            AccessOp::I64Load16U => 0x33,
            AccessOp::I64Load8S => 0x30,
            AccessOp::I64Load16S => 0x32,
            AccessOp::I64Load32S => 0x34,
            AccessOp::I64Load32U => 0x35,
            AccessOp::I32Load => 0x28,
            AccessOp::F32Load => 0x2a,
            AccessOp::I64Load => 0x29,
            AccessOp::F64Load => 0x2b,
            AccessOp::V128Load => 0x00,
            AccessOp::V128Load8x8S => 0x01,
            AccessOp::V128Load8x8U => 0x02,
            AccessOp::V128Load16x4S => 0x03,
            AccessOp::V128Load16x4U => 0x04,
            AccessOp::V128Load32x2S => 0x05,
            AccessOp::V128Load32x2U => 0x06,
            AccessOp::V128Load8Splat => 0x07,
            AccessOp::V128Load16Splat => 0x08,
            AccessOp::V128Load32Splat => 0x09,
            AccessOp::V128Load64Splat => 0x0a,
            AccessOp::V128Load32Zero => 0x5c,
            AccessOp::V128Load64Zero => 0x5d,
            AccessOp::I32Store => 0x36,
            AccessOp::I64Store => 0x37,
            AccessOp::F32Store => 0x38,
            AccessOp::F64Store => 0x39,
            AccessOp::I32Store8 => 0x3a,
            AccessOp::I64Store8 => 0x3c,
            AccessOp::I32Store16 => 0x3b,
            AccessOp::I64Store16 => 0x3d,
            AccessOp::I64Store32 => 0x3e,
            AccessOp::V128Store => 0x0b,
        }
    }
}

impl VectorOp {
    /// The number of the operator behind 0xfd.
    pub open spec fn number(self) -> u32 {
        match self {
            VectorOp::I8x16Splat => 0x0f,
            VectorOp::I16x8Splat => 0x10,
            VectorOp::I32x4Splat => 0x11,
            VectorOp::I64x2Splat => 0x12,
            VectorOp::F32x4Splat => 0x13,
            VectorOp::F64x2Splat => 0x14,
            VectorOp::I8x16Swizzle => 0x0e,
            VectorOp::I8x16Add => 0x6e,
            VectorOp::I16x8Add => 0x8e,
            VectorOp::I32x4Add => 0xae,
            VectorOp::I64x2Add => 0xce,
            VectorOp::I8x16AddSatS => 0x6f,
            VectorOp::I16x8AddSatS => 0x8f,
            VectorOp::I8x16AddSatU => 0x70,
            VectorOp::I16x8AddSatU => 0x90,
            VectorOp::I8x16Sub => 0x71,
            VectorOp::I16x8Sub => 0x91,
            VectorOp::I32x4Sub => 0xb1,
            VectorOp::I64x2Sub => 0xd1,
            VectorOp::I8x16SubSatS => 0x72,
            VectorOp::I16x8SubSatS => 0x92,
            VectorOp::I8x16SubSatU => 0x73,
            VectorOp::I16x8SubSatU => 0x93,
            VectorOp::I8x16MinS => 0x76,
            VectorOp::I16x8MinS => 0x96,
            VectorOp::I32x4MinS => 0xb6,
            VectorOp::I8x16MinU => 0x77,
            VectorOp::I16x8MinU => 0x97,
            VectorOp::I32x4MinU => 0xb7,
            VectorOp::I8x16MaxS => 0x78,
            VectorOp::I16x8MaxS => 0x98,
            VectorOp::I32x4MaxS => 0xb8,
            VectorOp::I8x16MaxU => 0x79,
            VectorOp::I16x8MaxU => 0x99,
            VectorOp::I32x4MaxU => 0xb9,
            VectorOp::I8x16AvgrU => 0x7b,
            VectorOp::I16x8AvgrU => 0x9b,
            VectorOp::I8x16Neg => 0x61,
            VectorOp::I16x8Neg => 0x81,
            VectorOp::I32x4Neg => 0xa1,
            VectorOp::I64x2Neg => 0xc1,
            VectorOp::I8x16Abs => 0x60,
            VectorOp::I16x8Abs => 0x80,
            VectorOp::I32x4Abs => 0xa0,
            VectorOp::I64x2Abs => 0xc0,
            VectorOp::I16x8Mul => 0x95,
            VectorOp::I32x4Mul => 0xb5,
            VectorOp::I64x2Mul => 0xd5,
            VectorOp::V128Or => 0x50,
            VectorOp::V128Xor => 0x51,
            VectorOp::V128And => 0x4e,
            VectorOp::V128AndNot => 0x4f,
            VectorOp::V128Not => 0x4d,
            VectorOp::I8x16Shl => 0x6b,
            VectorOp::I16x8Shl => 0x8b,
            VectorOp::I32x4Shl => 0xab,
            VectorOp::I64x2Shl => 0xcb,
            VectorOp::I8x16ShrU => 0x6d,
            VectorOp::I16x8ShrU => 0x8d,
            VectorOp::I32x4ShrU => 0xad,
            VectorOp::I64x2ShrU => 0xcd,
            VectorOp::I8x16ShrS => 0x6c,
            VectorOp::I16x8ShrS => 0x8c,
            VectorOp::I32x4ShrS => 0xac,
            VectorOp::I64x2ShrS => 0xcc,
            VectorOp::V128Bitselect => 0x52,
            VectorOp::V128AnyTrue => 0x53,
            VectorOp::I8x16AllTrue => 0x63,
            VectorOp::I16x8AllTrue => 0x83,
            VectorOp::I32x4AllTrue => 0xa3,
            VectorOp::I64x2AllTrue => 0xc3,
            VectorOp::I8x16Bitmask => 0x64,
            VectorOp::I16x8Bitmask => 0x84,
            VectorOp::I32x4Bitmask => 0xa4,
            VectorOp::I64x2Bitmask => 0xc4,
            VectorOp::I8x16Eq => 0x23,
            VectorOp::I16x8Eq => 0x2d,
            VectorOp::I32x4Eq => 0x37,
            VectorOp::I64x2Eq => 0xd6,
            VectorOp::I8x16Ne => 0x24,
            VectorOp::I16x8Ne => 0x2e,
            VectorOp::I32x4Ne => 0x38,
            VectorOp::I64x2Ne => 0xd7,
            VectorOp::I8x16GtS => 0x27,
            VectorOp::I16x8GtS => 0x31,
            VectorOp::I32x4GtS => 0x3b,
            VectorOp::I64x2GtS => 0xd9,
            VectorOp::I8x16LtS => 0x25,
            VectorOp::I16x8LtS => 0x2f,
            VectorOp::I32x4LtS => 0x39,
            VectorOp::I64x2LtS => 0xd8,
            VectorOp::I8x16GtU => 0x28,
            VectorOp::I16x8GtU => 0x32,
            VectorOp::I32x4GtU => 0x3c,
            VectorOp::I8x16LtU => 0x26,
            VectorOp::I16x8LtU => 0x30,
            VectorOp::I32x4LtU => 0x3a,
            VectorOp::I8x16GeS => 0x2b,
            VectorOp::I16x8GeS => 0x35,
            VectorOp::I32x4GeS => 0x3f,
            VectorOp::I64x2GeS => 0xdb,
            VectorOp::I8x16LeS => 0x29,
            VectorOp::I16x8LeS => 0x33,
            VectorOp::I32x4LeS => 0x3d,
            VectorOp::I64x2LeS => 0xda,
            VectorOp::I8x16GeU => 0x2c,
            VectorOp::I16x8GeU => 0x36,
            VectorOp::I32x4GeU => 0x40,
            VectorOp::I8x16LeU => 0x2a,
            VectorOp::I16x8LeU => 0x34,
            VectorOp::I32x4LeU => 0x3e,
            VectorOp::F32x4Eq => 0x41,
            VectorOp::F64x2Eq => 0x47,
            VectorOp::F32x4Ne => 0x42,
            VectorOp::F64x2Ne => 0x48,
            VectorOp::F32x4Lt => 0x43,
            VectorOp::F64x2Lt => 0x49,
            VectorOp::F32x4Gt => 0x44,
            VectorOp::F64x2Gt => 0x4a,
            VectorOp::F32x4Le => 0x45,
            VectorOp::F64x2Le => 0x4b,
            VectorOp::F32x4Ge => 0x46,
            VectorOp::F64x2Ge => 0x4c,
            VectorOp::F32x4Add => 0xe4,
            VectorOp::F64x2Add => 0xf0,
            VectorOp::F32x4Sub => 0xe5,
            VectorOp::F64x2Sub => 0xf1,
            VectorOp::F32x4Mul => 0xe6,
            VectorOp::F64x2Mul => 0xf2,
            VectorOp::F32x4Div => 0xe7,
            VectorOp::F64x2Div => 0xf3,
            VectorOp::F32x4Max => 0xe9,
            VectorOp::F64x2Max => 0xf5,
            VectorOp::F32x4Min => 0xe8,
            VectorOp::F64x2Min => 0xf4,
            VectorOp::F32x4PMax => 0xeb,
            VectorOp::F64x2PMax => 0xf7,
            VectorOp::F32x4PMin => 0xea,
            VectorOp::F64x2PMin => 0xf6,
            VectorOp::F32x4Sqrt => 0xe3,
            VectorOp::F64x2Sqrt => 0xef,
            VectorOp::F32x4Neg => 0xe1,
            VectorOp::F64x2Neg => 0xed,
            VectorOp::F32x4Abs => 0xe0,
            VectorOp::F64x2Abs => 0xec,
            VectorOp::F32x4ConvertI32x4S => 0xfa,
            VectorOp::F32x4ConvertI32x4U => 0xfb,
            VectorOp::F64x2ConvertLowI32x4S => 0xfe,
            VectorOp::F64x2ConvertLowI32x4U => 0xff,
            VectorOp::F64x2PromoteLowF32x4 => 0x5f,
            VectorOp::F32x4DemoteF64x2Zero => 0x5e,
            VectorOp::I32x4TruncSatF32x4S => 0xf8,
            VectorOp::I32x4TruncSatF64x2SZero => 0xfc,
            VectorOp::I32x4RelaxedTruncF32x4U => 0x102,
            VectorOp::I32x4TruncSatF32x4U => 0xf9,
            VectorOp::I32x4RelaxedTruncF64x2UZero => 0x104,
            VectorOp::I32x4TruncSatF64x2UZero => 0xfd,
            VectorOp::I8x16NarrowI16x8S => 0x65,
            VectorOp::I16x8NarrowI32x4S => 0x85,
            VectorOp::I8x16NarrowI16x8U => 0x66,
            VectorOp::I16x8NarrowI32x4U => 0x86,
            VectorOp::I16x8ExtendLowI8x16S => 0x87,
            VectorOp::I16x8ExtendHighI8x16S => 0x88,
            VectorOp::I16x8ExtendLowI8x16U => 0x89,
            VectorOp::I16x8ExtendHighI8x16U => 0x8a,
            VectorOp::I32x4ExtendLowI16x8S => 0xa7,
            VectorOp::I32x4ExtendHighI16x8S => 0xa8,
            VectorOp::I32x4ExtendLowI16x8U => 0xa9,
            VectorOp::I32x4ExtendHighI16x8U => 0xaa,
            VectorOp::I64x2ExtendLowI32x4S => 0xc7,
            VectorOp::I64x2ExtendHighI32x4S => 0xc8,
            VectorOp::I64x2ExtendLowI32x4U => 0xc9,
            VectorOp::I64x2ExtendHighI32x4U => 0xca,
            VectorOp::I16x8ExtAddPairwiseI8x16S => 0x7c,
            VectorOp::I16x8ExtAddPairwiseI8x16U => 0x7d,
            VectorOp::I32x4ExtAddPairwiseI16x8S => 0x7e,
            VectorOp::I32x4ExtAddPairwiseI16x8U => 0x7f,
            VectorOp::F32x4Ceil => 0x67,
            VectorOp::F64x2Ceil => 0x74,
            VectorOp::F32x4Floor => 0x68,
            VectorOp::F64x2Floor => 0x75,
            VectorOp::F32x4Trunc => 0x69,
            VectorOp::F64x2Trunc => 0x7a,
            VectorOp::F32x4Nearest => 0x6a,
            VectorOp::F64x2Nearest => 0x94,
            VectorOp::I32x4DotI16x8S => 0xba,
            VectorOp::I8x16Popcnt => 0x62,
            VectorOp::I16x8Q15MulrSatS => 0x82,
            VectorOp::I16x8ExtMulLowI8x16S => 0x9c,
            VectorOp::I16x8ExtMulHighI8x16S => 0x9d,
            VectorOp::I16x8ExtMulLowI8x16U => 0x9e,
            VectorOp::I16x8ExtMulHighI8x16U => 0x9f,
            VectorOp::I32x4ExtMulLowI16x8S => 0xbc,
            VectorOp::I32x4ExtMulHighI16x8S => 0xbd,
            VectorOp::I32x4ExtMulLowI16x8U => 0xbe,
            VectorOp::I32x4ExtMulHighI16x8U => 0xbf,
            VectorOp::I64x2ExtMulLowI32x4S => 0xdc,
            VectorOp::I64x2ExtMulHighI32x4S => 0xdd,
            VectorOp::I64x2ExtMulLowI32x4U => 0xde,
            VectorOp::I64x2ExtMulHighI32x4U => 0xdf,
            VectorOp::F32x4RelaxedMax => 0x10e,
            VectorOp::F64x2RelaxedMax => 0x110,
            VectorOp::F32x4RelaxedMin => 0x10d,
            VectorOp::F64x2RelaxedMin => 0x10f,
            VectorOp::I8x16RelaxedSwizzle => 0x100,
            VectorOp::F32x4RelaxedMadd => 0x105,
            VectorOp::F64x2RelaxedMadd => 0x107,
            VectorOp::F32x4RelaxedNmadd => 0x106,
            VectorOp::F64x2RelaxedNmadd => 0x108,
            VectorOp::I8x16RelaxedLaneselect => 0x109,
            VectorOp::I16x8RelaxedLaneselect => 0x10a,
            VectorOp::I32x4RelaxedLaneselect => 0x10b,
            VectorOp::I64x2RelaxedLaneselect => 0x10c,
            VectorOp::I32x4RelaxedTruncF32x4S => 0x101,
            VectorOp::I32x4RelaxedTruncF64x2SZero => 0x103,
            VectorOp::I16x8RelaxedQ15mulrS => 0x111,
            VectorOp::I16x8RelaxedDotI8x16I7x16S => 0x112,
            VectorOp::I32x4RelaxedDotI8x16I7x16AddS => 0x113,
        }
    }
}

impl LaneOp {
    /// The number of the operator behind 0xfd.
    pub open spec fn number(self) -> u32 {
        match self {
            LaneOp::I8x16ExtractLaneS => 0x15,
            LaneOp::I16x8ExtractLaneS => 0x18,
            LaneOp::I8x16ExtractLaneU => 0x16,
            LaneOp::I16x8ExtractLaneU => 0x19,
            LaneOp::I32x4ExtractLane => 0x1b,
            LaneOp::I64x2ExtractLane => 0x1d,
            LaneOp::F32x4ExtractLane => 0x1f,
            LaneOp::F64x2ExtractLane => 0x21,
            LaneOp::I8x16ReplaceLane => 0x17,
            LaneOp::I16x8ReplaceLane => 0x1a,
            LaneOp::I32x4ReplaceLane => 0x1c,
            LaneOp::I64x2ReplaceLane => 0x1e,
            LaneOp::F32x4ReplaceLane => 0x20,
            LaneOp::F64x2ReplaceLane => 0x22,
        }
    }
}

impl LaneAccessOp {
    /// The number of the operator behind 0xfd.
    pub open spec fn number(self) -> u32 {
        match self {
            LaneAccessOp::V128Load8Lane => 0x54,
            LaneAccessOp::V128Load16Lane => 0x55,
            LaneAccessOp::V128Load32Lane => 0x56,
            LaneAccessOp::V128Load64Lane => 0x57,
            LaneAccessOp::V128Store8Lane => 0x58,
            LaneAccessOp::V128Store16Lane => 0x59,
            LaneAccessOp::V128Store32Lane => 0x5a,
            LaneAccessOp::V128Store64Lane => 0x5b,
        }
    }
}

/// An operator on scalars is decoded from its number and from no other.
#[verifier::spinoff_prover]
#[verifier::rlimit(60)]
pub proof fn numeric_operators_have_their_numbers(op: NumericOp, single: u8, second: u32)
    ensures
        numeric_of(single) == Some(op) <==> !op.is_prefixed() && op.number() == single,
        saturating_of(second) == Some(op) <==> op.is_prefixed() && op.number() == second,
{
}

/// A load or store is decoded from its number and from no other.
#[verifier::spinoff_prover]
#[verifier::rlimit(60)]
pub proof fn accesses_have_their_numbers(op: AccessOp, single: u8, second: u32)
    ensures
        access_of(single) == Some(op) <==> !op.is_prefixed() && op.number() == single,
        vector_access_of(second) == Some(op) <==> op.is_prefixed() && op.number() == second,
{
}

/// An operator on vectors is decoded from its number and from no other.
#[verifier::spinoff_prover]
#[verifier::rlimit(100)]
pub proof fn vector_operators_have_their_numbers(op: VectorOp, second: u32)
    ensures
        vector_of(second) == Some(op) <==> op.number() == second,
{
}

/// An operator on one lane is decoded from its number and from no other.
pub proof fn lane_operators_have_their_numbers(op: LaneOp, other: LaneAccessOp, second: u32)
    ensures
        lane_of(second) == Some(op) <==> op.number() == second,
        lane_access_of(second) == Some(other) <==> other.number() == second,
{
}

/// The first byte of an operator, where it has one that is known.
pub open spec fn first_byte(op: Operator<Seq<u32>>) -> Option<u8> {
    match op {
        Operator::Unreachable => Some(0x00),
        Operator::Nop => Some(0x01),
        Operator::Block { .. } => Some(0x02),
        Operator::Loop { .. } => Some(0x03),
        Operator::If { .. } => Some(0x04),
        Operator::Else => Some(0x05),
        Operator::End => Some(0x0b),
        Operator::Br { .. } => Some(0x0c),
        Operator::BrIf { .. } => Some(0x0d),
        Operator::BrTable { .. } => Some(0x0e),
        Operator::Return => Some(0x0f),
        Operator::Call { .. } => Some(0x10),
        Operator::CallIndirect { .. } => Some(0x11),
        Operator::Drop => Some(0x1a),
        Operator::Select => Some(0x1b),
        Operator::TypedSelect => Some(0x1c),
        Operator::LocalGet { .. } => Some(0x20),
        Operator::LocalSet { .. } => Some(0x21),
        Operator::LocalTee { .. } => Some(0x22),
        Operator::GlobalGet { .. } => Some(0x23),
        Operator::GlobalSet { .. } => Some(0x24),
        Operator::RefNull { .. } => Some(0xd0),
        Operator::RefIsNull => Some(0xd1),
        Operator::RefAsNonNull => Some(0xd4),
        Operator::BrOnNull { .. } => Some(0xd5),
        Operator::BrOnNonNull { .. } => Some(0xd6),
        Operator::Numeric(op) => if op.is_prefixed() {
            Some(0xfc)
        } else {
            Some(op.number() as u8)
        },
        Operator::Access { op, .. } => if op.is_prefixed() {
            Some(0xfd)
        } else {
            Some(op.number() as u8)
        },
        Operator::MemoryDiscard { .. } => Some(0xfc),
        Operator::Vector(_) | Operator::Lane { .. } | Operator::LaneAccess { .. }
        | Operator::I8x16Shuffle { .. } => Some(0xfd),
        Operator::AtomicFence => Some(0xfe),
        _ => None,
    }
}

/// The number behind the first byte of an operator, where it has one that is known.
pub open spec fn second_number(op: Operator<Seq<u32>>) -> Option<u32> {
    match op {
        Operator::Numeric(op) => if op.is_prefixed() {
            Some(op.number())
        } else {
            None
        },
        Operator::Access { op, .. } => if op.is_prefixed() {
            Some(op.number())
        } else {
            None
        },
        Operator::MemoryDiscard { .. } => Some(0x12),
        Operator::Vector(op) => Some(op.number()),
        Operator::Lane { op, .. } => Some(op.number()),
        Operator::LaneAccess { op, .. } => Some(op.number()),
        Operator::I8x16Shuffle { .. } => Some(0x0d),
        Operator::AtomicFence => Some(0x03),
        _ => None,
    }
}

/// An operator that is decoded begins with its first byte, and its number follows that byte.
#[verifier::spinoff_prover]
#[verifier::rlimit(100)]
pub proof fn decoded_operators_are_written_so(body: Seq<u8>, at: usize)
    ensures
        operator_at(body, at) matches Some(op) ==> {
            &&& first_byte(op) matches Some(byte) ==> body[at as int] == byte
            &&& second_number(op) matches Some(number) ==> var_u32(body, at + 1, 0) == Some(number)
        },
{
    if let Some(op) = operator_at(body, at) {
        let code = var_u32(body, at + 1, 0)->0;
        match op {
            Operator::Numeric(op) => {
                numeric_operators_have_their_numbers(op, body[at as int], code);
            },
            Operator::Access { op, .. } => {
                accesses_have_their_numbers(op, body[at as int], code);
            },
            Operator::Vector(op) => {
                vector_operators_have_their_numbers(op, code);
            },
            Operator::Lane { op, .. } => {
                lane_operators_have_their_numbers(op, LaneAccessOp::V128Load8Lane, code);
            },
            Operator::LaneAccess { op, .. } => {
                lane_operators_have_their_numbers(LaneOp::I8x16ReplaceLane, op, code);
            },
            _ => {},
        }
    }
}

} // verus!
