//! The numbers of operators.
//!
//! Most operators are one byte. The bytes 0xfb, 0xfc, 0xfd and 0xfe are followed by a second number:
//! those of garbage collection, of conversions and bulk operations, of vectors, and of atomic accesses.
use crate::cranelift::operator::{
    AccessOp, LaneAccessOp, LaneOp, NumericOp, ProposedOp, UntranslatedOp, VectorOp,
};
use vstd::prelude::*;

verus! {

/// The operator on numbers of a byte.
pub open spec fn numeric_of(code: u8) -> Option<NumericOp> {
    match code {
        0x45 => Some(NumericOp::I32Eqz),
        0x46 => Some(NumericOp::I32Eq),
        0x47 => Some(NumericOp::I32Ne),
        0x48 => Some(NumericOp::I32LtS),
        0x49 => Some(NumericOp::I32LtU),
        0x4a => Some(NumericOp::I32GtS),
        0x4b => Some(NumericOp::I32GtU),
        0x4c => Some(NumericOp::I32LeS),
        0x4d => Some(NumericOp::I32LeU),
        0x4e => Some(NumericOp::I32GeS),
        0x4f => Some(NumericOp::I32GeU),
        0x50 => Some(NumericOp::I64Eqz),
        0x51 => Some(NumericOp::I64Eq),
        0x52 => Some(NumericOp::I64Ne),
        0x53 => Some(NumericOp::I64LtS),
        0x54 => Some(NumericOp::I64LtU),
        0x55 => Some(NumericOp::I64GtS),
        0x56 => Some(NumericOp::I64GtU),
        0x57 => Some(NumericOp::I64LeS),
        0x58 => Some(NumericOp::I64LeU),
        0x59 => Some(NumericOp::I64GeS),
        0x5a => Some(NumericOp::I64GeU),
        0x5b => Some(NumericOp::F32Eq),
        0x5c => Some(NumericOp::F32Ne),
        0x5d => Some(NumericOp::F32Lt),
        0x5e => Some(NumericOp::F32Gt),
        0x5f => Some(NumericOp::F32Le),
        0x60 => Some(NumericOp::F32Ge),
        0x61 => Some(NumericOp::F64Eq),
        0x62 => Some(NumericOp::F64Ne),
        0x63 => Some(NumericOp::F64Lt),
        0x64 => Some(NumericOp::F64Gt),
        0x65 => Some(NumericOp::F64Le),
        0x66 => Some(NumericOp::F64Ge),
        0x67 => Some(NumericOp::I32Clz),
        0x68 => Some(NumericOp::I32Ctz),
        0x69 => Some(NumericOp::I32Popcnt),
        0x6a => Some(NumericOp::I32Add),
        0x6b => Some(NumericOp::I32Sub),
        0x6c => Some(NumericOp::I32Mul),
        0x6d => Some(NumericOp::I32DivS),
        0x6e => Some(NumericOp::I32DivU),
        0x6f => Some(NumericOp::I32RemS),
        0x70 => Some(NumericOp::I32RemU),
        0x71 => Some(NumericOp::I32And),
        0x72 => Some(NumericOp::I32Or),
        0x73 => Some(NumericOp::I32Xor),
        0x74 => Some(NumericOp::I32Shl),
        0x75 => Some(NumericOp::I32ShrS),
        0x76 => Some(NumericOp::I32ShrU),
        0x77 => Some(NumericOp::I32Rotl),
        0x78 => Some(NumericOp::I32Rotr),
        0x79 => Some(NumericOp::I64Clz),
        0x7a => Some(NumericOp::I64Ctz),
        0x7b => Some(NumericOp::I64Popcnt),
        0x7c => Some(NumericOp::I64Add),
        0x7d => Some(NumericOp::I64Sub),
        0x7e => Some(NumericOp::I64Mul),
        0x7f => Some(NumericOp::I64DivS),
        0x80 => Some(NumericOp::I64DivU),
        0x81 => Some(NumericOp::I64RemS),
        0x82 => Some(NumericOp::I64RemU),
        0x83 => Some(NumericOp::I64And),
        0x84 => Some(NumericOp::I64Or),
        0x85 => Some(NumericOp::I64Xor),
        0x86 => Some(NumericOp::I64Shl),
        0x87 => Some(NumericOp::I64ShrS),
        0x88 => Some(NumericOp::I64ShrU),
        0x89 => Some(NumericOp::I64Rotl),
        0x8a => Some(NumericOp::I64Rotr),
        0x8b => Some(NumericOp::F32Abs),
        0x8c => Some(NumericOp::F32Neg),
        0x8d => Some(NumericOp::F32Ceil),
        0x8e => Some(NumericOp::F32Floor),
        0x8f => Some(NumericOp::F32Trunc),
        0x90 => Some(NumericOp::F32Nearest),
        0x91 => Some(NumericOp::F32Sqrt),
        0x92 => Some(NumericOp::F32Add),
        0x93 => Some(NumericOp::F32Sub),
        0x94 => Some(NumericOp::F32Mul),
        0x95 => Some(NumericOp::F32Div),
        0x96 => Some(NumericOp::F32Min),
        0x97 => Some(NumericOp::F32Max),
        0x98 => Some(NumericOp::F32Copysign),
        0x99 => Some(NumericOp::F64Abs),
        0x9a => Some(NumericOp::F64Neg),
        0x9b => Some(NumericOp::F64Ceil),
        0x9c => Some(NumericOp::F64Floor),
        0x9d => Some(NumericOp::F64Trunc),
        0x9e => Some(NumericOp::F64Nearest),
        0x9f => Some(NumericOp::F64Sqrt),
        0xa0 => Some(NumericOp::F64Add),
        0xa1 => Some(NumericOp::F64Sub),
        0xa2 => Some(NumericOp::F64Mul),
        0xa3 => Some(NumericOp::F64Div),
        0xa4 => Some(NumericOp::F64Min),
        0xa5 => Some(NumericOp::F64Max),
        0xa6 => Some(NumericOp::F64Copysign),
        0xa7 => Some(NumericOp::I32WrapI64),
        0xa8 => Some(NumericOp::I32TruncF32S),
        0xa9 => Some(NumericOp::I32TruncF32U),
        0xaa => Some(NumericOp::I32TruncF64S),
        0xab => Some(NumericOp::I32TruncF64U),
        0xac => Some(NumericOp::I64ExtendI32S),
        0xad => Some(NumericOp::I64ExtendI32U),
        0xae => Some(NumericOp::I64TruncF32S),
        0xaf => Some(NumericOp::I64TruncF32U),
        0xb0 => Some(NumericOp::I64TruncF64S),
        0xb1 => Some(NumericOp::I64TruncF64U),
        0xb2 => Some(NumericOp::F32ConvertI32S),
        0xb3 => Some(NumericOp::F32ConvertI32U),
        0xb4 => Some(NumericOp::F32ConvertI64S),
        0xb5 => Some(NumericOp::F32ConvertI64U),
        0xb6 => Some(NumericOp::F32DemoteF64),
        0xb7 => Some(NumericOp::F64ConvertI32S),
        0xb8 => Some(NumericOp::F64ConvertI32U),
        0xb9 => Some(NumericOp::F64ConvertI64S),
        0xba => Some(NumericOp::F64ConvertI64U),
        0xbb => Some(NumericOp::F64PromoteF32),
        0xbc => Some(NumericOp::I32ReinterpretF32),
        0xbd => Some(NumericOp::I64ReinterpretF64),
        0xbe => Some(NumericOp::F32ReinterpretI32),
        0xbf => Some(NumericOp::F64ReinterpretI64),
        0xc0 => Some(NumericOp::I32Extend8S),
        0xc1 => Some(NumericOp::I32Extend16S),
        0xc2 => Some(NumericOp::I64Extend8S),
        0xc3 => Some(NumericOp::I64Extend16S),
        0xc4 => Some(NumericOp::I64Extend32S),
        _ => None,
    }
}

/// The operator on numbers of a byte.
pub fn numeric(code: u8) -> (r: Option<NumericOp>)
    ensures
        r == numeric_of(code),
{
    match code {
        0x45 => Some(NumericOp::I32Eqz),
        0x46 => Some(NumericOp::I32Eq),
        0x47 => Some(NumericOp::I32Ne),
        0x48 => Some(NumericOp::I32LtS),
        0x49 => Some(NumericOp::I32LtU),
        0x4a => Some(NumericOp::I32GtS),
        0x4b => Some(NumericOp::I32GtU),
        0x4c => Some(NumericOp::I32LeS),
        0x4d => Some(NumericOp::I32LeU),
        0x4e => Some(NumericOp::I32GeS),
        0x4f => Some(NumericOp::I32GeU),
        0x50 => Some(NumericOp::I64Eqz),
        0x51 => Some(NumericOp::I64Eq),
        0x52 => Some(NumericOp::I64Ne),
        0x53 => Some(NumericOp::I64LtS),
        0x54 => Some(NumericOp::I64LtU),
        0x55 => Some(NumericOp::I64GtS),
        0x56 => Some(NumericOp::I64GtU),
        0x57 => Some(NumericOp::I64LeS),
        0x58 => Some(NumericOp::I64LeU),
        0x59 => Some(NumericOp::I64GeS),
        0x5a => Some(NumericOp::I64GeU),
        0x5b => Some(NumericOp::F32Eq),
        0x5c => Some(NumericOp::F32Ne),
        0x5d => Some(NumericOp::F32Lt),
        0x5e => Some(NumericOp::F32Gt),
        0x5f => Some(NumericOp::F32Le),
        0x60 => Some(NumericOp::F32Ge),
        0x61 => Some(NumericOp::F64Eq),
        0x62 => Some(NumericOp::F64Ne),
        0x63 => Some(NumericOp::F64Lt),
        0x64 => Some(NumericOp::F64Gt),
        0x65 => Some(NumericOp::F64Le),
        0x66 => Some(NumericOp::F64Ge),
        0x67 => Some(NumericOp::I32Clz),
        0x68 => Some(NumericOp::I32Ctz),
        0x69 => Some(NumericOp::I32Popcnt),
        0x6a => Some(NumericOp::I32Add),
        0x6b => Some(NumericOp::I32Sub),
        0x6c => Some(NumericOp::I32Mul),
        0x6d => Some(NumericOp::I32DivS),
        0x6e => Some(NumericOp::I32DivU),
        0x6f => Some(NumericOp::I32RemS),
        0x70 => Some(NumericOp::I32RemU),
        0x71 => Some(NumericOp::I32And),
        0x72 => Some(NumericOp::I32Or),
        0x73 => Some(NumericOp::I32Xor),
        0x74 => Some(NumericOp::I32Shl),
        0x75 => Some(NumericOp::I32ShrS),
        0x76 => Some(NumericOp::I32ShrU),
        0x77 => Some(NumericOp::I32Rotl),
        0x78 => Some(NumericOp::I32Rotr),
        0x79 => Some(NumericOp::I64Clz),
        0x7a => Some(NumericOp::I64Ctz),
        0x7b => Some(NumericOp::I64Popcnt),
        0x7c => Some(NumericOp::I64Add),
        0x7d => Some(NumericOp::I64Sub),
        0x7e => Some(NumericOp::I64Mul),
        0x7f => Some(NumericOp::I64DivS),
        0x80 => Some(NumericOp::I64DivU),
        0x81 => Some(NumericOp::I64RemS),
        0x82 => Some(NumericOp::I64RemU),
        0x83 => Some(NumericOp::I64And),
        0x84 => Some(NumericOp::I64Or),
        0x85 => Some(NumericOp::I64Xor),
        0x86 => Some(NumericOp::I64Shl),
        0x87 => Some(NumericOp::I64ShrS),
        0x88 => Some(NumericOp::I64ShrU),
        0x89 => Some(NumericOp::I64Rotl),
        0x8a => Some(NumericOp::I64Rotr),
        0x8b => Some(NumericOp::F32Abs),
        0x8c => Some(NumericOp::F32Neg),
        0x8d => Some(NumericOp::F32Ceil),
        0x8e => Some(NumericOp::F32Floor),
        0x8f => Some(NumericOp::F32Trunc),
        0x90 => Some(NumericOp::F32Nearest),
        0x91 => Some(NumericOp::F32Sqrt),
        0x92 => Some(NumericOp::F32Add),
        0x93 => Some(NumericOp::F32Sub),
        0x94 => Some(NumericOp::F32Mul),
        0x95 => Some(NumericOp::F32Div),
        0x96 => Some(NumericOp::F32Min),
        0x97 => Some(NumericOp::F32Max),
        0x98 => Some(NumericOp::F32Copysign),
        0x99 => Some(NumericOp::F64Abs),
        0x9a => Some(NumericOp::F64Neg),
        0x9b => Some(NumericOp::F64Ceil),
        0x9c => Some(NumericOp::F64Floor),
        0x9d => Some(NumericOp::F64Trunc),
        0x9e => Some(NumericOp::F64Nearest),
        0x9f => Some(NumericOp::F64Sqrt),
        0xa0 => Some(NumericOp::F64Add),
        0xa1 => Some(NumericOp::F64Sub),
        0xa2 => Some(NumericOp::F64Mul),
        0xa3 => Some(NumericOp::F64Div),
        0xa4 => Some(NumericOp::F64Min),
        0xa5 => Some(NumericOp::F64Max),
        0xa6 => Some(NumericOp::F64Copysign),
        0xa7 => Some(NumericOp::I32WrapI64),
        0xa8 => Some(NumericOp::I32TruncF32S),
        0xa9 => Some(NumericOp::I32TruncF32U),
        0xaa => Some(NumericOp::I32TruncF64S),
        0xab => Some(NumericOp::I32TruncF64U),
        0xac => Some(NumericOp::I64ExtendI32S),
        0xad => Some(NumericOp::I64ExtendI32U),
        0xae => Some(NumericOp::I64TruncF32S),
        0xaf => Some(NumericOp::I64TruncF32U),
        0xb0 => Some(NumericOp::I64TruncF64S),
        0xb1 => Some(NumericOp::I64TruncF64U),
        0xb2 => Some(NumericOp::F32ConvertI32S),
        0xb3 => Some(NumericOp::F32ConvertI32U),
        0xb4 => Some(NumericOp::F32ConvertI64S),
        0xb5 => Some(NumericOp::F32ConvertI64U),
        0xb6 => Some(NumericOp::F32DemoteF64),
        0xb7 => Some(NumericOp::F64ConvertI32S),
        0xb8 => Some(NumericOp::F64ConvertI32U),
        0xb9 => Some(NumericOp::F64ConvertI64S),
        0xba => Some(NumericOp::F64ConvertI64U),
        0xbb => Some(NumericOp::F64PromoteF32),
        0xbc => Some(NumericOp::I32ReinterpretF32),
        0xbd => Some(NumericOp::I64ReinterpretF64),
        0xbe => Some(NumericOp::F32ReinterpretI32),
        0xbf => Some(NumericOp::F64ReinterpretI64),
        0xc0 => Some(NumericOp::I32Extend8S),
        0xc1 => Some(NumericOp::I32Extend16S),
        0xc2 => Some(NumericOp::I64Extend8S),
        0xc3 => Some(NumericOp::I64Extend16S),
        0xc4 => Some(NumericOp::I64Extend32S),
        _ => None,
    }
}

/// The conversion of a number behind 0xfc.
pub open spec fn saturating_of(code: u32) -> Option<NumericOp> {
    match code {
        0x00 => Some(NumericOp::I32TruncSatF32S),
        0x01 => Some(NumericOp::I32TruncSatF32U),
        0x02 => Some(NumericOp::I32TruncSatF64S),
        0x03 => Some(NumericOp::I32TruncSatF64U),
        0x04 => Some(NumericOp::I64TruncSatF32S),
        0x05 => Some(NumericOp::I64TruncSatF32U),
        0x06 => Some(NumericOp::I64TruncSatF64S),
        0x07 => Some(NumericOp::I64TruncSatF64U),
        _ => None,
    }
}

/// The conversion of a number behind 0xfc.
pub fn saturating(code: u32) -> (r: Option<NumericOp>)
    ensures
        r == saturating_of(code),
{
    match code {
        0x00 => Some(NumericOp::I32TruncSatF32S),
        0x01 => Some(NumericOp::I32TruncSatF32U),
        0x02 => Some(NumericOp::I32TruncSatF64S),
        0x03 => Some(NumericOp::I32TruncSatF64U),
        0x04 => Some(NumericOp::I64TruncSatF32S),
        0x05 => Some(NumericOp::I64TruncSatF32U),
        0x06 => Some(NumericOp::I64TruncSatF64S),
        0x07 => Some(NumericOp::I64TruncSatF64U),
        _ => None,
    }
}

/// The load or store of a byte.
pub open spec fn access_of(code: u8) -> Option<AccessOp> {
    match code {
        0x28 => Some(AccessOp::I32Load),
        0x29 => Some(AccessOp::I64Load),
        0x2a => Some(AccessOp::F32Load),
        0x2b => Some(AccessOp::F64Load),
        0x2c => Some(AccessOp::I32Load8S),
        0x2d => Some(AccessOp::I32Load8U),
        0x2e => Some(AccessOp::I32Load16S),
        0x2f => Some(AccessOp::I32Load16U),
        0x30 => Some(AccessOp::I64Load8S),
        0x31 => Some(AccessOp::I64Load8U),
        0x32 => Some(AccessOp::I64Load16S),
        0x33 => Some(AccessOp::I64Load16U),
        0x34 => Some(AccessOp::I64Load32S),
        0x35 => Some(AccessOp::I64Load32U),
        0x36 => Some(AccessOp::I32Store),
        0x37 => Some(AccessOp::I64Store),
        0x38 => Some(AccessOp::F32Store),
        0x39 => Some(AccessOp::F64Store),
        0x3a => Some(AccessOp::I32Store8),
        0x3b => Some(AccessOp::I32Store16),
        0x3c => Some(AccessOp::I64Store8),
        0x3d => Some(AccessOp::I64Store16),
        0x3e => Some(AccessOp::I64Store32),
        _ => None,
    }
}

/// The load or store of a byte.
pub fn access(code: u8) -> (r: Option<AccessOp>)
    ensures
        r == access_of(code),
{
    match code {
        0x28 => Some(AccessOp::I32Load),
        0x29 => Some(AccessOp::I64Load),
        0x2a => Some(AccessOp::F32Load),
        0x2b => Some(AccessOp::F64Load),
        0x2c => Some(AccessOp::I32Load8S),
        0x2d => Some(AccessOp::I32Load8U),
        0x2e => Some(AccessOp::I32Load16S),
        0x2f => Some(AccessOp::I32Load16U),
        0x30 => Some(AccessOp::I64Load8S),
        0x31 => Some(AccessOp::I64Load8U),
        0x32 => Some(AccessOp::I64Load16S),
        0x33 => Some(AccessOp::I64Load16U),
        0x34 => Some(AccessOp::I64Load32S),
        0x35 => Some(AccessOp::I64Load32U),
        0x36 => Some(AccessOp::I32Store),
        0x37 => Some(AccessOp::I64Store),
        0x38 => Some(AccessOp::F32Store),
        0x39 => Some(AccessOp::F64Store),
        0x3a => Some(AccessOp::I32Store8),
        0x3b => Some(AccessOp::I32Store16),
        0x3c => Some(AccessOp::I64Store8),
        0x3d => Some(AccessOp::I64Store16),
        0x3e => Some(AccessOp::I64Store32),
        _ => None,
    }
}

/// The load or store of a number behind 0xfd.
pub open spec fn vector_access_of(code: u32) -> Option<AccessOp> {
    match code {
        0x00 => Some(AccessOp::V128Load),
        0x01 => Some(AccessOp::V128Load8x8S),
        0x02 => Some(AccessOp::V128Load8x8U),
        0x03 => Some(AccessOp::V128Load16x4S),
        0x04 => Some(AccessOp::V128Load16x4U),
        0x05 => Some(AccessOp::V128Load32x2S),
        0x06 => Some(AccessOp::V128Load32x2U),
        0x07 => Some(AccessOp::V128Load8Splat),
        0x08 => Some(AccessOp::V128Load16Splat),
        0x09 => Some(AccessOp::V128Load32Splat),
        0x0a => Some(AccessOp::V128Load64Splat),
        0x0b => Some(AccessOp::V128Store),
        0x5c => Some(AccessOp::V128Load32Zero),
        0x5d => Some(AccessOp::V128Load64Zero),
        _ => None,
    }
}

/// The load or store of a number behind 0xfd.
pub fn vector_access(code: u32) -> (r: Option<AccessOp>)
    ensures
        r == vector_access_of(code),
{
    match code {
        0x00 => Some(AccessOp::V128Load),
        0x01 => Some(AccessOp::V128Load8x8S),
        0x02 => Some(AccessOp::V128Load8x8U),
        0x03 => Some(AccessOp::V128Load16x4S),
        0x04 => Some(AccessOp::V128Load16x4U),
        0x05 => Some(AccessOp::V128Load32x2S),
        0x06 => Some(AccessOp::V128Load32x2U),
        0x07 => Some(AccessOp::V128Load8Splat),
        0x08 => Some(AccessOp::V128Load16Splat),
        0x09 => Some(AccessOp::V128Load32Splat),
        0x0a => Some(AccessOp::V128Load64Splat),
        0x0b => Some(AccessOp::V128Store),
        0x5c => Some(AccessOp::V128Load32Zero),
        0x5d => Some(AccessOp::V128Load64Zero),
        _ => None,
    }
}

/// The operator on vectors of a number behind 0xfd.
pub open spec fn vector_of(code: u32) -> Option<VectorOp> {
    match code {
        0x0e => Some(VectorOp::I8x16Swizzle),
        0x0f => Some(VectorOp::I8x16Splat),
        0x10 => Some(VectorOp::I16x8Splat),
        0x11 => Some(VectorOp::I32x4Splat),
        0x12 => Some(VectorOp::I64x2Splat),
        0x13 => Some(VectorOp::F32x4Splat),
        0x14 => Some(VectorOp::F64x2Splat),
        0x23 => Some(VectorOp::I8x16Eq),
        0x24 => Some(VectorOp::I8x16Ne),
        0x25 => Some(VectorOp::I8x16LtS),
        0x26 => Some(VectorOp::I8x16LtU),
        0x27 => Some(VectorOp::I8x16GtS),
        0x28 => Some(VectorOp::I8x16GtU),
        0x29 => Some(VectorOp::I8x16LeS),
        0x2a => Some(VectorOp::I8x16LeU),
        0x2b => Some(VectorOp::I8x16GeS),
        0x2c => Some(VectorOp::I8x16GeU),
        0x2d => Some(VectorOp::I16x8Eq),
        0x2e => Some(VectorOp::I16x8Ne),
        0x2f => Some(VectorOp::I16x8LtS),
        0x30 => Some(VectorOp::I16x8LtU),
        0x31 => Some(VectorOp::I16x8GtS),
        0x32 => Some(VectorOp::I16x8GtU),
        0x33 => Some(VectorOp::I16x8LeS),
        0x34 => Some(VectorOp::I16x8LeU),
        0x35 => Some(VectorOp::I16x8GeS),
        0x36 => Some(VectorOp::I16x8GeU),
        0x37 => Some(VectorOp::I32x4Eq),
        0x38 => Some(VectorOp::I32x4Ne),
        0x39 => Some(VectorOp::I32x4LtS),
        0x3a => Some(VectorOp::I32x4LtU),
        0x3b => Some(VectorOp::I32x4GtS),
        0x3c => Some(VectorOp::I32x4GtU),
        0x3d => Some(VectorOp::I32x4LeS),
        0x3e => Some(VectorOp::I32x4LeU),
        0x3f => Some(VectorOp::I32x4GeS),
        0x40 => Some(VectorOp::I32x4GeU),
        0x41 => Some(VectorOp::F32x4Eq),
        0x42 => Some(VectorOp::F32x4Ne),
        0x43 => Some(VectorOp::F32x4Lt),
        0x44 => Some(VectorOp::F32x4Gt),
        0x45 => Some(VectorOp::F32x4Le),
        0x46 => Some(VectorOp::F32x4Ge),
        0x47 => Some(VectorOp::F64x2Eq),
        0x48 => Some(VectorOp::F64x2Ne),
        0x49 => Some(VectorOp::F64x2Lt),
        0x4a => Some(VectorOp::F64x2Gt),
        0x4b => Some(VectorOp::F64x2Le),
        0x4c => Some(VectorOp::F64x2Ge),
        0x4d => Some(VectorOp::V128Not),
        0x4e => Some(VectorOp::V128And),
        0x4f => Some(VectorOp::V128AndNot),
        0x50 => Some(VectorOp::V128Or),
        0x51 => Some(VectorOp::V128Xor),
        0x52 => Some(VectorOp::V128Bitselect),
        0x53 => Some(VectorOp::V128AnyTrue),
        0x5e => Some(VectorOp::F32x4DemoteF64x2Zero),
        0x5f => Some(VectorOp::F64x2PromoteLowF32x4),
        0x60 => Some(VectorOp::I8x16Abs),
        0x61 => Some(VectorOp::I8x16Neg),
        0x62 => Some(VectorOp::I8x16Popcnt),
        0x63 => Some(VectorOp::I8x16AllTrue),
        0x64 => Some(VectorOp::I8x16Bitmask),
        0x65 => Some(VectorOp::I8x16NarrowI16x8S),
        0x66 => Some(VectorOp::I8x16NarrowI16x8U),
        0x67 => Some(VectorOp::F32x4Ceil),
        0x68 => Some(VectorOp::F32x4Floor),
        0x69 => Some(VectorOp::F32x4Trunc),
        0x6a => Some(VectorOp::F32x4Nearest),
        0x6b => Some(VectorOp::I8x16Shl),
        0x6c => Some(VectorOp::I8x16ShrS),
        0x6d => Some(VectorOp::I8x16ShrU),
        0x6e => Some(VectorOp::I8x16Add),
        0x6f => Some(VectorOp::I8x16AddSatS),
        0x70 => Some(VectorOp::I8x16AddSatU),
        0x71 => Some(VectorOp::I8x16Sub),
        0x72 => Some(VectorOp::I8x16SubSatS),
        0x73 => Some(VectorOp::I8x16SubSatU),
        0x74 => Some(VectorOp::F64x2Ceil),
        0x75 => Some(VectorOp::F64x2Floor),
        0x76 => Some(VectorOp::I8x16MinS),
        0x77 => Some(VectorOp::I8x16MinU),
        0x78 => Some(VectorOp::I8x16MaxS),
        0x79 => Some(VectorOp::I8x16MaxU),
        0x7a => Some(VectorOp::F64x2Trunc),
        0x7b => Some(VectorOp::I8x16AvgrU),
        0x7c => Some(VectorOp::I16x8ExtAddPairwiseI8x16S),
        0x7d => Some(VectorOp::I16x8ExtAddPairwiseI8x16U),
        0x7e => Some(VectorOp::I32x4ExtAddPairwiseI16x8S),
        0x7f => Some(VectorOp::I32x4ExtAddPairwiseI16x8U),
        0x80 => Some(VectorOp::I16x8Abs),
        0x81 => Some(VectorOp::I16x8Neg),
        0x82 => Some(VectorOp::I16x8Q15MulrSatS),
        0x83 => Some(VectorOp::I16x8AllTrue),
        0x84 => Some(VectorOp::I16x8Bitmask),
        0x85 => Some(VectorOp::I16x8NarrowI32x4S),
        0x86 => Some(VectorOp::I16x8NarrowI32x4U),
        0x87 => Some(VectorOp::I16x8ExtendLowI8x16S),
        0x88 => Some(VectorOp::I16x8ExtendHighI8x16S),
        0x89 => Some(VectorOp::I16x8ExtendLowI8x16U),
        0x8a => Some(VectorOp::I16x8ExtendHighI8x16U),
        0x8b => Some(VectorOp::I16x8Shl),
        0x8c => Some(VectorOp::I16x8ShrS),
        0x8d => Some(VectorOp::I16x8ShrU),
        0x8e => Some(VectorOp::I16x8Add),
        0x8f => Some(VectorOp::I16x8AddSatS),
        0x90 => Some(VectorOp::I16x8AddSatU),
        0x91 => Some(VectorOp::I16x8Sub),
        0x92 => Some(VectorOp::I16x8SubSatS),
        0x93 => Some(VectorOp::I16x8SubSatU),
        0x94 => Some(VectorOp::F64x2Nearest),
        0x95 => Some(VectorOp::I16x8Mul),
        0x96 => Some(VectorOp::I16x8MinS),
        0x97 => Some(VectorOp::I16x8MinU),
        0x98 => Some(VectorOp::I16x8MaxS),
        0x99 => Some(VectorOp::I16x8MaxU),
        0x9b => Some(VectorOp::I16x8AvgrU),
        0x9c => Some(VectorOp::I16x8ExtMulLowI8x16S),
        0x9d => Some(VectorOp::I16x8ExtMulHighI8x16S),
        0x9e => Some(VectorOp::I16x8ExtMulLowI8x16U),
        0x9f => Some(VectorOp::I16x8ExtMulHighI8x16U),
        0xa0 => Some(VectorOp::I32x4Abs),
        0xa1 => Some(VectorOp::I32x4Neg),
        0xa3 => Some(VectorOp::I32x4AllTrue),
        0xa4 => Some(VectorOp::I32x4Bitmask),
        0xa7 => Some(VectorOp::I32x4ExtendLowI16x8S),
        0xa8 => Some(VectorOp::I32x4ExtendHighI16x8S),
        0xa9 => Some(VectorOp::I32x4ExtendLowI16x8U),
        0xaa => Some(VectorOp::I32x4ExtendHighI16x8U),
        0xab => Some(VectorOp::I32x4Shl),
        0xac => Some(VectorOp::I32x4ShrS),
        0xad => Some(VectorOp::I32x4ShrU),
        0xae => Some(VectorOp::I32x4Add),
        0xb1 => Some(VectorOp::I32x4Sub),
        0xb5 => Some(VectorOp::I32x4Mul),
        0xb6 => Some(VectorOp::I32x4MinS),
        0xb7 => Some(VectorOp::I32x4MinU),
        0xb8 => Some(VectorOp::I32x4MaxS),
        0xb9 => Some(VectorOp::I32x4MaxU),
        0xba => Some(VectorOp::I32x4DotI16x8S),
        0xbc => Some(VectorOp::I32x4ExtMulLowI16x8S),
        0xbd => Some(VectorOp::I32x4ExtMulHighI16x8S),
        0xbe => Some(VectorOp::I32x4ExtMulLowI16x8U),
        0xbf => Some(VectorOp::I32x4ExtMulHighI16x8U),
        0xc0 => Some(VectorOp::I64x2Abs),
        0xc1 => Some(VectorOp::I64x2Neg),
        0xc3 => Some(VectorOp::I64x2AllTrue),
        0xc4 => Some(VectorOp::I64x2Bitmask),
        0xc7 => Some(VectorOp::I64x2ExtendLowI32x4S),
        0xc8 => Some(VectorOp::I64x2ExtendHighI32x4S),
        0xc9 => Some(VectorOp::I64x2ExtendLowI32x4U),
        0xca => Some(VectorOp::I64x2ExtendHighI32x4U),
        0xcb => Some(VectorOp::I64x2Shl),
        0xcc => Some(VectorOp::I64x2ShrS),
        0xcd => Some(VectorOp::I64x2ShrU),
        0xce => Some(VectorOp::I64x2Add),
        0xd1 => Some(VectorOp::I64x2Sub),
        0xd5 => Some(VectorOp::I64x2Mul),
        0xd6 => Some(VectorOp::I64x2Eq),
        0xd7 => Some(VectorOp::I64x2Ne),
        0xd8 => Some(VectorOp::I64x2LtS),
        0xd9 => Some(VectorOp::I64x2GtS),
        0xda => Some(VectorOp::I64x2LeS),
        0xdb => Some(VectorOp::I64x2GeS),
        0xdc => Some(VectorOp::I64x2ExtMulLowI32x4S),
        0xdd => Some(VectorOp::I64x2ExtMulHighI32x4S),
        0xde => Some(VectorOp::I64x2ExtMulLowI32x4U),
        0xdf => Some(VectorOp::I64x2ExtMulHighI32x4U),
        0xe0 => Some(VectorOp::F32x4Abs),
        0xe1 => Some(VectorOp::F32x4Neg),
        0xe3 => Some(VectorOp::F32x4Sqrt),
        0xe4 => Some(VectorOp::F32x4Add),
        0xe5 => Some(VectorOp::F32x4Sub),
        0xe6 => Some(VectorOp::F32x4Mul),
        0xe7 => Some(VectorOp::F32x4Div),
        0xe8 => Some(VectorOp::F32x4Min),
        0xe9 => Some(VectorOp::F32x4Max),
        0xea => Some(VectorOp::F32x4PMin),
        0xeb => Some(VectorOp::F32x4PMax),
        0xec => Some(VectorOp::F64x2Abs),
        0xed => Some(VectorOp::F64x2Neg),
        0xef => Some(VectorOp::F64x2Sqrt),
        0xf0 => Some(VectorOp::F64x2Add),
        0xf1 => Some(VectorOp::F64x2Sub),
        0xf2 => Some(VectorOp::F64x2Mul),
        0xf3 => Some(VectorOp::F64x2Div),
        0xf4 => Some(VectorOp::F64x2Min),
        0xf5 => Some(VectorOp::F64x2Max),
        0xf6 => Some(VectorOp::F64x2PMin),
        0xf7 => Some(VectorOp::F64x2PMax),
        0xf8 => Some(VectorOp::I32x4TruncSatF32x4S),
        0xf9 => Some(VectorOp::I32x4TruncSatF32x4U),
        0xfa => Some(VectorOp::F32x4ConvertI32x4S),
        0xfb => Some(VectorOp::F32x4ConvertI32x4U),
        0xfc => Some(VectorOp::I32x4TruncSatF64x2SZero),
        0xfd => Some(VectorOp::I32x4TruncSatF64x2UZero),
        0xfe => Some(VectorOp::F64x2ConvertLowI32x4S),
        0xff => Some(VectorOp::F64x2ConvertLowI32x4U),
        0x100 => Some(VectorOp::I8x16RelaxedSwizzle),
        0x101 => Some(VectorOp::I32x4RelaxedTruncF32x4S),
        0x102 => Some(VectorOp::I32x4RelaxedTruncF32x4U),
        0x103 => Some(VectorOp::I32x4RelaxedTruncF64x2SZero),
        0x104 => Some(VectorOp::I32x4RelaxedTruncF64x2UZero),
        0x105 => Some(VectorOp::F32x4RelaxedMadd),
        0x106 => Some(VectorOp::F32x4RelaxedNmadd),
        0x107 => Some(VectorOp::F64x2RelaxedMadd),
        0x108 => Some(VectorOp::F64x2RelaxedNmadd),
        0x109 => Some(VectorOp::I8x16RelaxedLaneselect),
        0x10a => Some(VectorOp::I16x8RelaxedLaneselect),
        0x10b => Some(VectorOp::I32x4RelaxedLaneselect),
        0x10c => Some(VectorOp::I64x2RelaxedLaneselect),
        0x10d => Some(VectorOp::F32x4RelaxedMin),
        0x10e => Some(VectorOp::F32x4RelaxedMax),
        0x10f => Some(VectorOp::F64x2RelaxedMin),
        0x110 => Some(VectorOp::F64x2RelaxedMax),
        0x111 => Some(VectorOp::I16x8RelaxedQ15mulrS),
        0x112 => Some(VectorOp::I16x8RelaxedDotI8x16I7x16S),
        0x113 => Some(VectorOp::I32x4RelaxedDotI8x16I7x16AddS),
        _ => None,
    }
}

/// The operator on vectors of a number behind 0xfd.
pub fn vector(code: u32) -> (r: Option<VectorOp>)
    ensures
        r == vector_of(code),
{
    match code {
        0x0e => Some(VectorOp::I8x16Swizzle),
        0x0f => Some(VectorOp::I8x16Splat),
        0x10 => Some(VectorOp::I16x8Splat),
        0x11 => Some(VectorOp::I32x4Splat),
        0x12 => Some(VectorOp::I64x2Splat),
        0x13 => Some(VectorOp::F32x4Splat),
        0x14 => Some(VectorOp::F64x2Splat),
        0x23 => Some(VectorOp::I8x16Eq),
        0x24 => Some(VectorOp::I8x16Ne),
        0x25 => Some(VectorOp::I8x16LtS),
        0x26 => Some(VectorOp::I8x16LtU),
        0x27 => Some(VectorOp::I8x16GtS),
        0x28 => Some(VectorOp::I8x16GtU),
        0x29 => Some(VectorOp::I8x16LeS),
        0x2a => Some(VectorOp::I8x16LeU),
        0x2b => Some(VectorOp::I8x16GeS),
        0x2c => Some(VectorOp::I8x16GeU),
        0x2d => Some(VectorOp::I16x8Eq),
        0x2e => Some(VectorOp::I16x8Ne),
        0x2f => Some(VectorOp::I16x8LtS),
        0x30 => Some(VectorOp::I16x8LtU),
        0x31 => Some(VectorOp::I16x8GtS),
        0x32 => Some(VectorOp::I16x8GtU),
        0x33 => Some(VectorOp::I16x8LeS),
        0x34 => Some(VectorOp::I16x8LeU),
        0x35 => Some(VectorOp::I16x8GeS),
        0x36 => Some(VectorOp::I16x8GeU),
        0x37 => Some(VectorOp::I32x4Eq),
        0x38 => Some(VectorOp::I32x4Ne),
        0x39 => Some(VectorOp::I32x4LtS),
        0x3a => Some(VectorOp::I32x4LtU),
        0x3b => Some(VectorOp::I32x4GtS),
        0x3c => Some(VectorOp::I32x4GtU),
        0x3d => Some(VectorOp::I32x4LeS),
        0x3e => Some(VectorOp::I32x4LeU),
        0x3f => Some(VectorOp::I32x4GeS),
        0x40 => Some(VectorOp::I32x4GeU),
        0x41 => Some(VectorOp::F32x4Eq),
        0x42 => Some(VectorOp::F32x4Ne),
        0x43 => Some(VectorOp::F32x4Lt),
        0x44 => Some(VectorOp::F32x4Gt),
        0x45 => Some(VectorOp::F32x4Le),
        0x46 => Some(VectorOp::F32x4Ge),
        0x47 => Some(VectorOp::F64x2Eq),
        0x48 => Some(VectorOp::F64x2Ne),
        0x49 => Some(VectorOp::F64x2Lt),
        0x4a => Some(VectorOp::F64x2Gt),
        0x4b => Some(VectorOp::F64x2Le),
        0x4c => Some(VectorOp::F64x2Ge),
        0x4d => Some(VectorOp::V128Not),
        0x4e => Some(VectorOp::V128And),
        0x4f => Some(VectorOp::V128AndNot),
        0x50 => Some(VectorOp::V128Or),
        0x51 => Some(VectorOp::V128Xor),
        0x52 => Some(VectorOp::V128Bitselect),
        0x53 => Some(VectorOp::V128AnyTrue),
        0x5e => Some(VectorOp::F32x4DemoteF64x2Zero),
        0x5f => Some(VectorOp::F64x2PromoteLowF32x4),
        0x60 => Some(VectorOp::I8x16Abs),
        0x61 => Some(VectorOp::I8x16Neg),
        0x62 => Some(VectorOp::I8x16Popcnt),
        0x63 => Some(VectorOp::I8x16AllTrue),
        0x64 => Some(VectorOp::I8x16Bitmask),
        0x65 => Some(VectorOp::I8x16NarrowI16x8S),
        0x66 => Some(VectorOp::I8x16NarrowI16x8U),
        0x67 => Some(VectorOp::F32x4Ceil),
        0x68 => Some(VectorOp::F32x4Floor),
        0x69 => Some(VectorOp::F32x4Trunc),
        0x6a => Some(VectorOp::F32x4Nearest),
        0x6b => Some(VectorOp::I8x16Shl),
        0x6c => Some(VectorOp::I8x16ShrS),
        0x6d => Some(VectorOp::I8x16ShrU),
        0x6e => Some(VectorOp::I8x16Add),
        0x6f => Some(VectorOp::I8x16AddSatS),
        0x70 => Some(VectorOp::I8x16AddSatU),
        0x71 => Some(VectorOp::I8x16Sub),
        0x72 => Some(VectorOp::I8x16SubSatS),
        0x73 => Some(VectorOp::I8x16SubSatU),
        0x74 => Some(VectorOp::F64x2Ceil),
        0x75 => Some(VectorOp::F64x2Floor),
        0x76 => Some(VectorOp::I8x16MinS),
        0x77 => Some(VectorOp::I8x16MinU),
        0x78 => Some(VectorOp::I8x16MaxS),
        0x79 => Some(VectorOp::I8x16MaxU),
        0x7a => Some(VectorOp::F64x2Trunc),
        0x7b => Some(VectorOp::I8x16AvgrU),
        0x7c => Some(VectorOp::I16x8ExtAddPairwiseI8x16S),
        0x7d => Some(VectorOp::I16x8ExtAddPairwiseI8x16U),
        0x7e => Some(VectorOp::I32x4ExtAddPairwiseI16x8S),
        0x7f => Some(VectorOp::I32x4ExtAddPairwiseI16x8U),
        0x80 => Some(VectorOp::I16x8Abs),
        0x81 => Some(VectorOp::I16x8Neg),
        0x82 => Some(VectorOp::I16x8Q15MulrSatS),
        0x83 => Some(VectorOp::I16x8AllTrue),
        0x84 => Some(VectorOp::I16x8Bitmask),
        0x85 => Some(VectorOp::I16x8NarrowI32x4S),
        0x86 => Some(VectorOp::I16x8NarrowI32x4U),
        0x87 => Some(VectorOp::I16x8ExtendLowI8x16S),
        0x88 => Some(VectorOp::I16x8ExtendHighI8x16S),
        0x89 => Some(VectorOp::I16x8ExtendLowI8x16U),
        0x8a => Some(VectorOp::I16x8ExtendHighI8x16U),
        0x8b => Some(VectorOp::I16x8Shl),
        0x8c => Some(VectorOp::I16x8ShrS),
        0x8d => Some(VectorOp::I16x8ShrU),
        0x8e => Some(VectorOp::I16x8Add),
        0x8f => Some(VectorOp::I16x8AddSatS),
        0x90 => Some(VectorOp::I16x8AddSatU),
        0x91 => Some(VectorOp::I16x8Sub),
        0x92 => Some(VectorOp::I16x8SubSatS),
        0x93 => Some(VectorOp::I16x8SubSatU),
        0x94 => Some(VectorOp::F64x2Nearest),
        0x95 => Some(VectorOp::I16x8Mul),
        0x96 => Some(VectorOp::I16x8MinS),
        0x97 => Some(VectorOp::I16x8MinU),
        0x98 => Some(VectorOp::I16x8MaxS),
        0x99 => Some(VectorOp::I16x8MaxU),
        0x9b => Some(VectorOp::I16x8AvgrU),
        0x9c => Some(VectorOp::I16x8ExtMulLowI8x16S),
        0x9d => Some(VectorOp::I16x8ExtMulHighI8x16S),
        0x9e => Some(VectorOp::I16x8ExtMulLowI8x16U),
        0x9f => Some(VectorOp::I16x8ExtMulHighI8x16U),
        0xa0 => Some(VectorOp::I32x4Abs),
        0xa1 => Some(VectorOp::I32x4Neg),
        0xa3 => Some(VectorOp::I32x4AllTrue),
        0xa4 => Some(VectorOp::I32x4Bitmask),
        0xa7 => Some(VectorOp::I32x4ExtendLowI16x8S),
        0xa8 => Some(VectorOp::I32x4ExtendHighI16x8S),
        0xa9 => Some(VectorOp::I32x4ExtendLowI16x8U),
        0xaa => Some(VectorOp::I32x4ExtendHighI16x8U),
        0xab => Some(VectorOp::I32x4Shl),
        0xac => Some(VectorOp::I32x4ShrS),
        0xad => Some(VectorOp::I32x4ShrU),
        0xae => Some(VectorOp::I32x4Add),
        0xb1 => Some(VectorOp::I32x4Sub),
        0xb5 => Some(VectorOp::I32x4Mul),
        0xb6 => Some(VectorOp::I32x4MinS),
        0xb7 => Some(VectorOp::I32x4MinU),
        0xb8 => Some(VectorOp::I32x4MaxS),
        0xb9 => Some(VectorOp::I32x4MaxU),
        0xba => Some(VectorOp::I32x4DotI16x8S),
        0xbc => Some(VectorOp::I32x4ExtMulLowI16x8S),
        0xbd => Some(VectorOp::I32x4ExtMulHighI16x8S),
        0xbe => Some(VectorOp::I32x4ExtMulLowI16x8U),
        0xbf => Some(VectorOp::I32x4ExtMulHighI16x8U),
        0xc0 => Some(VectorOp::I64x2Abs),
        0xc1 => Some(VectorOp::I64x2Neg),
        0xc3 => Some(VectorOp::I64x2AllTrue),
        0xc4 => Some(VectorOp::I64x2Bitmask),
        0xc7 => Some(VectorOp::I64x2ExtendLowI32x4S),
        0xc8 => Some(VectorOp::I64x2ExtendHighI32x4S),
        0xc9 => Some(VectorOp::I64x2ExtendLowI32x4U),
        0xca => Some(VectorOp::I64x2ExtendHighI32x4U),
        0xcb => Some(VectorOp::I64x2Shl),
        0xcc => Some(VectorOp::I64x2ShrS),
        0xcd => Some(VectorOp::I64x2ShrU),
        0xce => Some(VectorOp::I64x2Add),
        0xd1 => Some(VectorOp::I64x2Sub),
        0xd5 => Some(VectorOp::I64x2Mul),
        0xd6 => Some(VectorOp::I64x2Eq),
        0xd7 => Some(VectorOp::I64x2Ne),
        0xd8 => Some(VectorOp::I64x2LtS),
        0xd9 => Some(VectorOp::I64x2GtS),
        0xda => Some(VectorOp::I64x2LeS),
        0xdb => Some(VectorOp::I64x2GeS),
        0xdc => Some(VectorOp::I64x2ExtMulLowI32x4S),
        0xdd => Some(VectorOp::I64x2ExtMulHighI32x4S),
        0xde => Some(VectorOp::I64x2ExtMulLowI32x4U),
        0xdf => Some(VectorOp::I64x2ExtMulHighI32x4U),
        0xe0 => Some(VectorOp::F32x4Abs),
        0xe1 => Some(VectorOp::F32x4Neg),
        0xe3 => Some(VectorOp::F32x4Sqrt),
        0xe4 => Some(VectorOp::F32x4Add),
        0xe5 => Some(VectorOp::F32x4Sub),
        0xe6 => Some(VectorOp::F32x4Mul),
        0xe7 => Some(VectorOp::F32x4Div),
        0xe8 => Some(VectorOp::F32x4Min),
        0xe9 => Some(VectorOp::F32x4Max),
        0xea => Some(VectorOp::F32x4PMin),
        0xeb => Some(VectorOp::F32x4PMax),
        0xec => Some(VectorOp::F64x2Abs),
        0xed => Some(VectorOp::F64x2Neg),
        0xef => Some(VectorOp::F64x2Sqrt),
        0xf0 => Some(VectorOp::F64x2Add),
        0xf1 => Some(VectorOp::F64x2Sub),
        0xf2 => Some(VectorOp::F64x2Mul),
        0xf3 => Some(VectorOp::F64x2Div),
        0xf4 => Some(VectorOp::F64x2Min),
        0xf5 => Some(VectorOp::F64x2Max),
        0xf6 => Some(VectorOp::F64x2PMin),
        0xf7 => Some(VectorOp::F64x2PMax),
        0xf8 => Some(VectorOp::I32x4TruncSatF32x4S),
        0xf9 => Some(VectorOp::I32x4TruncSatF32x4U),
        0xfa => Some(VectorOp::F32x4ConvertI32x4S),
        0xfb => Some(VectorOp::F32x4ConvertI32x4U),
        0xfc => Some(VectorOp::I32x4TruncSatF64x2SZero),
        0xfd => Some(VectorOp::I32x4TruncSatF64x2UZero),
        0xfe => Some(VectorOp::F64x2ConvertLowI32x4S),
        0xff => Some(VectorOp::F64x2ConvertLowI32x4U),
        0x100 => Some(VectorOp::I8x16RelaxedSwizzle),
        0x101 => Some(VectorOp::I32x4RelaxedTruncF32x4S),
        0x102 => Some(VectorOp::I32x4RelaxedTruncF32x4U),
        0x103 => Some(VectorOp::I32x4RelaxedTruncF64x2SZero),
        0x104 => Some(VectorOp::I32x4RelaxedTruncF64x2UZero),
        0x105 => Some(VectorOp::F32x4RelaxedMadd),
        0x106 => Some(VectorOp::F32x4RelaxedNmadd),
        0x107 => Some(VectorOp::F64x2RelaxedMadd),
        0x108 => Some(VectorOp::F64x2RelaxedNmadd),
        0x109 => Some(VectorOp::I8x16RelaxedLaneselect),
        0x10a => Some(VectorOp::I16x8RelaxedLaneselect),
        0x10b => Some(VectorOp::I32x4RelaxedLaneselect),
        0x10c => Some(VectorOp::I64x2RelaxedLaneselect),
        0x10d => Some(VectorOp::F32x4RelaxedMin),
        0x10e => Some(VectorOp::F32x4RelaxedMax),
        0x10f => Some(VectorOp::F64x2RelaxedMin),
        0x110 => Some(VectorOp::F64x2RelaxedMax),
        0x111 => Some(VectorOp::I16x8RelaxedQ15mulrS),
        0x112 => Some(VectorOp::I16x8RelaxedDotI8x16I7x16S),
        0x113 => Some(VectorOp::I32x4RelaxedDotI8x16I7x16AddS),
        _ => None,
    }
}

/// The operator on one lane of a number behind 0xfd.
pub open spec fn lane_of(code: u32) -> Option<LaneOp> {
    match code {
        0x15 => Some(LaneOp::I8x16ExtractLaneS),
        0x16 => Some(LaneOp::I8x16ExtractLaneU),
        0x17 => Some(LaneOp::I8x16ReplaceLane),
        0x18 => Some(LaneOp::I16x8ExtractLaneS),
        0x19 => Some(LaneOp::I16x8ExtractLaneU),
        0x1a => Some(LaneOp::I16x8ReplaceLane),
        0x1b => Some(LaneOp::I32x4ExtractLane),
        0x1c => Some(LaneOp::I32x4ReplaceLane),
        0x1d => Some(LaneOp::I64x2ExtractLane),
        0x1e => Some(LaneOp::I64x2ReplaceLane),
        0x1f => Some(LaneOp::F32x4ExtractLane),
        0x20 => Some(LaneOp::F32x4ReplaceLane),
        0x21 => Some(LaneOp::F64x2ExtractLane),
        0x22 => Some(LaneOp::F64x2ReplaceLane),
        _ => None,
    }
}

/// The operator on one lane of a number behind 0xfd.
pub fn lane(code: u32) -> (r: Option<LaneOp>)
    ensures
        r == lane_of(code),
{
    match code {
        0x15 => Some(LaneOp::I8x16ExtractLaneS),
        0x16 => Some(LaneOp::I8x16ExtractLaneU),
        0x17 => Some(LaneOp::I8x16ReplaceLane),
        0x18 => Some(LaneOp::I16x8ExtractLaneS),
        0x19 => Some(LaneOp::I16x8ExtractLaneU),
        0x1a => Some(LaneOp::I16x8ReplaceLane),
        0x1b => Some(LaneOp::I32x4ExtractLane),
        0x1c => Some(LaneOp::I32x4ReplaceLane),
        0x1d => Some(LaneOp::I64x2ExtractLane),
        0x1e => Some(LaneOp::I64x2ReplaceLane),
        0x1f => Some(LaneOp::F32x4ExtractLane),
        0x20 => Some(LaneOp::F32x4ReplaceLane),
        0x21 => Some(LaneOp::F64x2ExtractLane),
        0x22 => Some(LaneOp::F64x2ReplaceLane),
        _ => None,
    }
}

/// The load or store of one lane of a number behind 0xfd.
pub open spec fn lane_access_of(code: u32) -> Option<LaneAccessOp> {
    match code {
        0x54 => Some(LaneAccessOp::V128Load8Lane),
        0x55 => Some(LaneAccessOp::V128Load16Lane),
        0x56 => Some(LaneAccessOp::V128Load32Lane),
        0x57 => Some(LaneAccessOp::V128Load64Lane),
        0x58 => Some(LaneAccessOp::V128Store8Lane),
        0x59 => Some(LaneAccessOp::V128Store16Lane),
        0x5a => Some(LaneAccessOp::V128Store32Lane),
        0x5b => Some(LaneAccessOp::V128Store64Lane),
        _ => None,
    }
}

/// The load or store of one lane of a number behind 0xfd.
pub fn lane_access(code: u32) -> (r: Option<LaneAccessOp>)
    ensures
        r == lane_access_of(code),
{
    match code {
        0x54 => Some(LaneAccessOp::V128Load8Lane),
        0x55 => Some(LaneAccessOp::V128Load16Lane),
        0x56 => Some(LaneAccessOp::V128Load32Lane),
        0x57 => Some(LaneAccessOp::V128Load64Lane),
        0x58 => Some(LaneAccessOp::V128Store8Lane),
        0x59 => Some(LaneAccessOp::V128Store16Lane),
        0x5a => Some(LaneAccessOp::V128Store32Lane),
        0x5b => Some(LaneAccessOp::V128Store64Lane),
        _ => None,
    }
}

/// The operator without a translation of a byte.
pub open spec fn single_untranslated_of(code: u8) -> Option<UntranslatedOp> {
    match code {
        0x12 => Some(UntranslatedOp::ReturnCall),
        0x13 => Some(UntranslatedOp::ReturnCallIndirect),
        0x14 => Some(UntranslatedOp::CallRef),
        0x15 => Some(UntranslatedOp::ReturnCallRef),
        0x25 => Some(UntranslatedOp::TableGet),
        0x26 => Some(UntranslatedOp::TableSet),
        0x3f => Some(UntranslatedOp::MemorySize),
        0x40 => Some(UntranslatedOp::MemoryGrow),
        0xd2 => Some(UntranslatedOp::RefFunc),
        _ => None,
    }
}

/// The operator without a translation of a byte.
pub fn single_untranslated(code: u8) -> (r: Option<UntranslatedOp>)
    ensures
        r == single_untranslated_of(code),
{
    match code {
        0x12 => Some(UntranslatedOp::ReturnCall),
        0x13 => Some(UntranslatedOp::ReturnCallIndirect),
        0x14 => Some(UntranslatedOp::CallRef),
        0x15 => Some(UntranslatedOp::ReturnCallRef),
        0x25 => Some(UntranslatedOp::TableGet),
        0x26 => Some(UntranslatedOp::TableSet),
        0x3f => Some(UntranslatedOp::MemorySize),
        0x40 => Some(UntranslatedOp::MemoryGrow),
        0xd2 => Some(UntranslatedOp::RefFunc),
        _ => None,
    }
}

/// The operator of a proposal of a byte.
pub open spec fn single_proposed_of(code: u8) -> Option<ProposedOp> {
    match code {
        0x06 => Some(ProposedOp::Try),
        0x07 => Some(ProposedOp::Catch),
        0x08 => Some(ProposedOp::Throw),
        0x09 => Some(ProposedOp::Rethrow),
        0x0a => Some(ProposedOp::ThrowRef),
        0x18 => Some(ProposedOp::Delegate),
        0x19 => Some(ProposedOp::CatchAll),
        0x1f => Some(ProposedOp::TryTable),
        0xd3 => Some(ProposedOp::RefEq),
        0xe0 => Some(ProposedOp::ContNew),
        0xe1 => Some(ProposedOp::ContBind),
        0xe2 => Some(ProposedOp::Suspend),
        0xe3 => Some(ProposedOp::Resume),
        0xe4 => Some(ProposedOp::ResumeThrow),
        0xe5 => Some(ProposedOp::Switch),
        _ => None,
    }
}

/// The operator of a proposal of a byte.
pub fn single_proposed(code: u8) -> (r: Option<ProposedOp>)
    ensures
        r == single_proposed_of(code),
{
    match code {
        0x06 => Some(ProposedOp::Try),
        0x07 => Some(ProposedOp::Catch),
        0x08 => Some(ProposedOp::Throw),
        0x09 => Some(ProposedOp::Rethrow),
        0x0a => Some(ProposedOp::ThrowRef),
        0x18 => Some(ProposedOp::Delegate),
        0x19 => Some(ProposedOp::CatchAll),
        0x1f => Some(ProposedOp::TryTable),
        0xd3 => Some(ProposedOp::RefEq),
        0xe0 => Some(ProposedOp::ContNew),
        0xe1 => Some(ProposedOp::ContBind),
        0xe2 => Some(ProposedOp::Suspend),
        0xe3 => Some(ProposedOp::Resume),
        0xe4 => Some(ProposedOp::ResumeThrow),
        0xe5 => Some(ProposedOp::Switch),
        _ => None,
    }
}

/// The operator without a translation of a number behind 0xfb.
pub open spec fn collected_untranslated_of(code: u32) -> Option<UntranslatedOp> {
    match code {
        0x1c => Some(UntranslatedOp::RefI31),
        0x1d => Some(UntranslatedOp::I31GetS),
        0x1e => Some(UntranslatedOp::I31GetU),
        _ => None,
    }
}

/// The operator without a translation of a number behind 0xfb.
pub fn collected_untranslated(code: u32) -> (r: Option<UntranslatedOp>)
    ensures
        r == collected_untranslated_of(code),
{
    match code {
        0x1c => Some(UntranslatedOp::RefI31),
        0x1d => Some(UntranslatedOp::I31GetS),
        0x1e => Some(UntranslatedOp::I31GetU),
        _ => None,
    }
}

/// The operator of a proposal of a number behind 0xfb.
pub open spec fn collected_proposed_of(code: u32) -> Option<ProposedOp> {
    match code {
        0x00 => Some(ProposedOp::StructNew),
        0x01 => Some(ProposedOp::StructNewDefault),
        0x02 => Some(ProposedOp::StructGet),
        0x03 => Some(ProposedOp::StructGetS),
        0x04 => Some(ProposedOp::StructGetU),
        0x05 => Some(ProposedOp::StructSet),
        0x06 => Some(ProposedOp::ArrayNew),
        0x07 => Some(ProposedOp::ArrayNewDefault),
        0x08 => Some(ProposedOp::ArrayNewFixed),
        0x09 => Some(ProposedOp::ArrayNewData),
        0x0a => Some(ProposedOp::ArrayNewElem),
        0x0b => Some(ProposedOp::ArrayGet),
        0x0c => Some(ProposedOp::ArrayGetS),
        0x0d => Some(ProposedOp::ArrayGetU),
        0x0e => Some(ProposedOp::ArraySet),
        0x0f => Some(ProposedOp::ArrayLen),
        0x10 => Some(ProposedOp::ArrayFill),
        0x11 => Some(ProposedOp::ArrayCopy),
        0x12 => Some(ProposedOp::ArrayInitData),
        0x13 => Some(ProposedOp::ArrayInitElem),
        0x14 => Some(ProposedOp::RefTestNonNull),
        0x15 => Some(ProposedOp::RefTestNullable),
        0x16 => Some(ProposedOp::RefCastNonNull),
        0x17 => Some(ProposedOp::RefCastNullable),
        0x18 => Some(ProposedOp::BrOnCast),
        0x19 => Some(ProposedOp::BrOnCastFail),
        0x1a => Some(ProposedOp::AnyConvertExtern),
        0x1b => Some(ProposedOp::ExternConvertAny),
        _ => None,
    }
}

/// The operator of a proposal of a number behind 0xfb.
pub fn collected_proposed(code: u32) -> (r: Option<ProposedOp>)
    ensures
        r == collected_proposed_of(code),
{
    match code {
        0x00 => Some(ProposedOp::StructNew),
        0x01 => Some(ProposedOp::StructNewDefault),
        0x02 => Some(ProposedOp::StructGet),
        0x03 => Some(ProposedOp::StructGetS),
        0x04 => Some(ProposedOp::StructGetU),
        0x05 => Some(ProposedOp::StructSet),
        0x06 => Some(ProposedOp::ArrayNew),
        0x07 => Some(ProposedOp::ArrayNewDefault),
        0x08 => Some(ProposedOp::ArrayNewFixed),
        0x09 => Some(ProposedOp::ArrayNewData),
        0x0a => Some(ProposedOp::ArrayNewElem),
        0x0b => Some(ProposedOp::ArrayGet),
        0x0c => Some(ProposedOp::ArrayGetS),
        0x0d => Some(ProposedOp::ArrayGetU),
        0x0e => Some(ProposedOp::ArraySet),
        0x0f => Some(ProposedOp::ArrayLen),
        0x10 => Some(ProposedOp::ArrayFill),
        0x11 => Some(ProposedOp::ArrayCopy),
        0x12 => Some(ProposedOp::ArrayInitData),
        0x13 => Some(ProposedOp::ArrayInitElem),
        0x14 => Some(ProposedOp::RefTestNonNull),
        0x15 => Some(ProposedOp::RefTestNullable),
        0x16 => Some(ProposedOp::RefCastNonNull),
        0x17 => Some(ProposedOp::RefCastNullable),
        0x18 => Some(ProposedOp::BrOnCast),
        0x19 => Some(ProposedOp::BrOnCastFail),
        0x1a => Some(ProposedOp::AnyConvertExtern),
        0x1b => Some(ProposedOp::ExternConvertAny),
        _ => None,
    }
}

/// The operator without a translation of a number behind 0xfc.
pub open spec fn bulk_untranslated_of(code: u32) -> Option<UntranslatedOp> {
    match code {
        0x08 => Some(UntranslatedOp::MemoryInit),
        0x09 => Some(UntranslatedOp::DataDrop),
        0x0a => Some(UntranslatedOp::MemoryCopy),
        0x0b => Some(UntranslatedOp::MemoryFill),
        0x0c => Some(UntranslatedOp::TableInit),
        0x0d => Some(UntranslatedOp::ElemDrop),
        0x0e => Some(UntranslatedOp::TableCopy),
        0x0f => Some(UntranslatedOp::TableGrow),
        0x10 => Some(UntranslatedOp::TableSize),
        0x11 => Some(UntranslatedOp::TableFill),
        _ => None,
    }
}

/// The operator without a translation of a number behind 0xfc.
pub fn bulk_untranslated(code: u32) -> (r: Option<UntranslatedOp>)
    ensures
        r == bulk_untranslated_of(code),
{
    match code {
        0x08 => Some(UntranslatedOp::MemoryInit),
        0x09 => Some(UntranslatedOp::DataDrop),
        0x0a => Some(UntranslatedOp::MemoryCopy),
        0x0b => Some(UntranslatedOp::MemoryFill),
        0x0c => Some(UntranslatedOp::TableInit),
        0x0d => Some(UntranslatedOp::ElemDrop),
        0x0e => Some(UntranslatedOp::TableCopy),
        0x0f => Some(UntranslatedOp::TableGrow),
        0x10 => Some(UntranslatedOp::TableSize),
        0x11 => Some(UntranslatedOp::TableFill),
        _ => None,
    }
}

/// The operator of a proposal of a number behind 0xfc.
pub open spec fn bulk_proposed_of(code: u32) -> Option<ProposedOp> {
    match code {
        0x13 => Some(ProposedOp::I64Add128),
        0x14 => Some(ProposedOp::I64Sub128),
        0x15 => Some(ProposedOp::I64MulWideS),
        0x16 => Some(ProposedOp::I64MulWideU),
        _ => None,
    }
}

/// The operator of a proposal of a number behind 0xfc.
pub fn bulk_proposed(code: u32) -> (r: Option<ProposedOp>)
    ensures
        r == bulk_proposed_of(code),
{
    match code {
        0x13 => Some(ProposedOp::I64Add128),
        0x14 => Some(ProposedOp::I64Sub128),
        0x15 => Some(ProposedOp::I64MulWideS),
        0x16 => Some(ProposedOp::I64MulWideU),
        _ => None,
    }
}

/// The operator without a translation of a number behind 0xfe.
pub open spec fn atomic_untranslated_of(code: u32) -> Option<UntranslatedOp> {
    match code {
        0x00 => Some(UntranslatedOp::MemoryAtomicNotify),
        0x01 => Some(UntranslatedOp::MemoryAtomicWait32),
        0x02 => Some(UntranslatedOp::MemoryAtomicWait64),
        0x10 => Some(UntranslatedOp::I32AtomicLoad),
        0x11 => Some(UntranslatedOp::I64AtomicLoad),
        0x12 => Some(UntranslatedOp::I32AtomicLoad8U),
        0x13 => Some(UntranslatedOp::I32AtomicLoad16U),
        0x14 => Some(UntranslatedOp::I64AtomicLoad8U),
        0x15 => Some(UntranslatedOp::I64AtomicLoad16U),
        0x16 => Some(UntranslatedOp::I64AtomicLoad32U),
        0x17 => Some(UntranslatedOp::I32AtomicStore),
        0x18 => Some(UntranslatedOp::I64AtomicStore),
        0x19 => Some(UntranslatedOp::I32AtomicStore8),
        0x1a => Some(UntranslatedOp::I32AtomicStore16),
        0x1b => Some(UntranslatedOp::I64AtomicStore8),
        0x1c => Some(UntranslatedOp::I64AtomicStore16),
        0x1d => Some(UntranslatedOp::I64AtomicStore32),
        0x1e => Some(UntranslatedOp::I32AtomicRmwAdd),
        0x1f => Some(UntranslatedOp::I64AtomicRmwAdd),
        0x20 => Some(UntranslatedOp::I32AtomicRmw8AddU),
        0x21 => Some(UntranslatedOp::I32AtomicRmw16AddU),
        0x22 => Some(UntranslatedOp::I64AtomicRmw8AddU),
        0x23 => Some(UntranslatedOp::I64AtomicRmw16AddU),
        0x24 => Some(UntranslatedOp::I64AtomicRmw32AddU),
        0x25 => Some(UntranslatedOp::I32AtomicRmwSub),
        0x26 => Some(UntranslatedOp::I64AtomicRmwSub),
        0x27 => Some(UntranslatedOp::I32AtomicRmw8SubU),
        0x28 => Some(UntranslatedOp::I32AtomicRmw16SubU),
        0x29 => Some(UntranslatedOp::I64AtomicRmw8SubU),
        0x2a => Some(UntranslatedOp::I64AtomicRmw16SubU),
        0x2b => Some(UntranslatedOp::I64AtomicRmw32SubU),
        0x2c => Some(UntranslatedOp::I32AtomicRmwAnd),
        0x2d => Some(UntranslatedOp::I64AtomicRmwAnd),
        0x2e => Some(UntranslatedOp::I32AtomicRmw8AndU),
        0x2f => Some(UntranslatedOp::I32AtomicRmw16AndU),
        0x30 => Some(UntranslatedOp::I64AtomicRmw8AndU),
        0x31 => Some(UntranslatedOp::I64AtomicRmw16AndU),
        0x32 => Some(UntranslatedOp::I64AtomicRmw32AndU),
        0x33 => Some(UntranslatedOp::I32AtomicRmwOr),
        0x34 => Some(UntranslatedOp::I64AtomicRmwOr),
        0x35 => Some(UntranslatedOp::I32AtomicRmw8OrU),
        0x36 => Some(UntranslatedOp::I32AtomicRmw16OrU),
        0x37 => Some(UntranslatedOp::I64AtomicRmw8OrU),
        0x38 => Some(UntranslatedOp::I64AtomicRmw16OrU),
        0x39 => Some(UntranslatedOp::I64AtomicRmw32OrU),
        0x3a => Some(UntranslatedOp::I32AtomicRmwXor),
        0x3b => Some(UntranslatedOp::I64AtomicRmwXor),
        0x3c => Some(UntranslatedOp::I32AtomicRmw8XorU),
        0x3d => Some(UntranslatedOp::I32AtomicRmw16XorU),
        0x3e => Some(UntranslatedOp::I64AtomicRmw8XorU),
        0x3f => Some(UntranslatedOp::I64AtomicRmw16XorU),
        0x40 => Some(UntranslatedOp::I64AtomicRmw32XorU),
        0x41 => Some(UntranslatedOp::I32AtomicRmwXchg),
        0x42 => Some(UntranslatedOp::I64AtomicRmwXchg),
        0x43 => Some(UntranslatedOp::I32AtomicRmw8XchgU),
        0x44 => Some(UntranslatedOp::I32AtomicRmw16XchgU),
        0x45 => Some(UntranslatedOp::I64AtomicRmw8XchgU),
        0x46 => Some(UntranslatedOp::I64AtomicRmw16XchgU),
        0x47 => Some(UntranslatedOp::I64AtomicRmw32XchgU),
        0x48 => Some(UntranslatedOp::I32AtomicRmwCmpxchg),
        0x49 => Some(UntranslatedOp::I64AtomicRmwCmpxchg),
        0x4a => Some(UntranslatedOp::I32AtomicRmw8CmpxchgU),
        0x4b => Some(UntranslatedOp::I32AtomicRmw16CmpxchgU),
        0x4c => Some(UntranslatedOp::I64AtomicRmw8CmpxchgU),
        0x4d => Some(UntranslatedOp::I64AtomicRmw16CmpxchgU),
        0x4e => Some(UntranslatedOp::I64AtomicRmw32CmpxchgU),
        _ => None,
    }
}

/// The operator without a translation of a number behind 0xfe.
pub fn atomic_untranslated(code: u32) -> (r: Option<UntranslatedOp>)
    ensures
        r == atomic_untranslated_of(code),
{
    match code {
        0x00 => Some(UntranslatedOp::MemoryAtomicNotify),
        0x01 => Some(UntranslatedOp::MemoryAtomicWait32),
        0x02 => Some(UntranslatedOp::MemoryAtomicWait64),
        0x10 => Some(UntranslatedOp::I32AtomicLoad),
        0x11 => Some(UntranslatedOp::I64AtomicLoad),
        0x12 => Some(UntranslatedOp::I32AtomicLoad8U),
        0x13 => Some(UntranslatedOp::I32AtomicLoad16U),
        0x14 => Some(UntranslatedOp::I64AtomicLoad8U),
        0x15 => Some(UntranslatedOp::I64AtomicLoad16U),
        0x16 => Some(UntranslatedOp::I64AtomicLoad32U),
        0x17 => Some(UntranslatedOp::I32AtomicStore),
        0x18 => Some(UntranslatedOp::I64AtomicStore),
        0x19 => Some(UntranslatedOp::I32AtomicStore8),
        0x1a => Some(UntranslatedOp::I32AtomicStore16),
        0x1b => Some(UntranslatedOp::I64AtomicStore8),
        0x1c => Some(UntranslatedOp::I64AtomicStore16),
        0x1d => Some(UntranslatedOp::I64AtomicStore32),
        0x1e => Some(UntranslatedOp::I32AtomicRmwAdd),
        0x1f => Some(UntranslatedOp::I64AtomicRmwAdd),
        0x20 => Some(UntranslatedOp::I32AtomicRmw8AddU),
        0x21 => Some(UntranslatedOp::I32AtomicRmw16AddU),
        0x22 => Some(UntranslatedOp::I64AtomicRmw8AddU),
        0x23 => Some(UntranslatedOp::I64AtomicRmw16AddU),
        0x24 => Some(UntranslatedOp::I64AtomicRmw32AddU),
        0x25 => Some(UntranslatedOp::I32AtomicRmwSub),
        0x26 => Some(UntranslatedOp::I64AtomicRmwSub),
        0x27 => Some(UntranslatedOp::I32AtomicRmw8SubU),
        0x28 => Some(UntranslatedOp::I32AtomicRmw16SubU),
        0x29 => Some(UntranslatedOp::I64AtomicRmw8SubU),
        0x2a => Some(UntranslatedOp::I64AtomicRmw16SubU),
        0x2b => Some(UntranslatedOp::I64AtomicRmw32SubU),
        0x2c => Some(UntranslatedOp::I32AtomicRmwAnd),
        0x2d => Some(UntranslatedOp::I64AtomicRmwAnd),
        0x2e => Some(UntranslatedOp::I32AtomicRmw8AndU),
        0x2f => Some(UntranslatedOp::I32AtomicRmw16AndU),
        0x30 => Some(UntranslatedOp::I64AtomicRmw8AndU),
        0x31 => Some(UntranslatedOp::I64AtomicRmw16AndU),
        0x32 => Some(UntranslatedOp::I64AtomicRmw32AndU),
        0x33 => Some(UntranslatedOp::I32AtomicRmwOr),
        0x34 => Some(UntranslatedOp::I64AtomicRmwOr),
        0x35 => Some(UntranslatedOp::I32AtomicRmw8OrU),
        0x36 => Some(UntranslatedOp::I32AtomicRmw16OrU),
        0x37 => Some(UntranslatedOp::I64AtomicRmw8OrU),
        0x38 => Some(UntranslatedOp::I64AtomicRmw16OrU),
        0x39 => Some(UntranslatedOp::I64AtomicRmw32OrU),
        0x3a => Some(UntranslatedOp::I32AtomicRmwXor),
        0x3b => Some(UntranslatedOp::I64AtomicRmwXor),
        0x3c => Some(UntranslatedOp::I32AtomicRmw8XorU),
        0x3d => Some(UntranslatedOp::I32AtomicRmw16XorU),
        0x3e => Some(UntranslatedOp::I64AtomicRmw8XorU),
        0x3f => Some(UntranslatedOp::I64AtomicRmw16XorU),
        0x40 => Some(UntranslatedOp::I64AtomicRmw32XorU),
        0x41 => Some(UntranslatedOp::I32AtomicRmwXchg),
        0x42 => Some(UntranslatedOp::I64AtomicRmwXchg),
        0x43 => Some(UntranslatedOp::I32AtomicRmw8XchgU),
        0x44 => Some(UntranslatedOp::I32AtomicRmw16XchgU),
        0x45 => Some(UntranslatedOp::I64AtomicRmw8XchgU),
        0x46 => Some(UntranslatedOp::I64AtomicRmw16XchgU),
        0x47 => Some(UntranslatedOp::I64AtomicRmw32XchgU),
        0x48 => Some(UntranslatedOp::I32AtomicRmwCmpxchg),
        0x49 => Some(UntranslatedOp::I64AtomicRmwCmpxchg),
        0x4a => Some(UntranslatedOp::I32AtomicRmw8CmpxchgU),
        0x4b => Some(UntranslatedOp::I32AtomicRmw16CmpxchgU),
        0x4c => Some(UntranslatedOp::I64AtomicRmw8CmpxchgU),
        0x4d => Some(UntranslatedOp::I64AtomicRmw16CmpxchgU),
        0x4e => Some(UntranslatedOp::I64AtomicRmw32CmpxchgU),
        _ => None,
    }
}

/// The operator of a proposal of a number behind 0xfe.
pub open spec fn atomic_proposed_of(code: u32) -> Option<ProposedOp> {
    match code {
        0x4f => Some(ProposedOp::GlobalAtomicGet),
        0x50 => Some(ProposedOp::GlobalAtomicSet),
        0x51 => Some(ProposedOp::GlobalAtomicRmwAdd),
        0x52 => Some(ProposedOp::GlobalAtomicRmwSub),
        0x53 => Some(ProposedOp::GlobalAtomicRmwAnd),
        0x54 => Some(ProposedOp::GlobalAtomicRmwOr),
        0x55 => Some(ProposedOp::GlobalAtomicRmwXor),
        0x56 => Some(ProposedOp::GlobalAtomicRmwXchg),
        0x57 => Some(ProposedOp::GlobalAtomicRmwCmpxchg),
        0x58 => Some(ProposedOp::TableAtomicGet),
        0x59 => Some(ProposedOp::TableAtomicSet),
        0x5a => Some(ProposedOp::TableAtomicRmwXchg),
        0x5b => Some(ProposedOp::TableAtomicRmwCmpxchg),
        0x5c => Some(ProposedOp::StructAtomicGet),
        0x5d => Some(ProposedOp::StructAtomicGetS),
        0x5e => Some(ProposedOp::StructAtomicGetU),
        0x5f => Some(ProposedOp::StructAtomicSet),
        0x60 => Some(ProposedOp::StructAtomicRmwAdd),
        0x61 => Some(ProposedOp::StructAtomicRmwSub),
        0x62 => Some(ProposedOp::StructAtomicRmwAnd),
        0x63 => Some(ProposedOp::StructAtomicRmwOr),
        0x64 => Some(ProposedOp::StructAtomicRmwXor),
        0x65 => Some(ProposedOp::StructAtomicRmwXchg),
        0x66 => Some(ProposedOp::StructAtomicRmwCmpxchg),
        0x67 => Some(ProposedOp::ArrayAtomicGet),
        0x68 => Some(ProposedOp::ArrayAtomicGetS),
        0x69 => Some(ProposedOp::ArrayAtomicGetU),
        0x6a => Some(ProposedOp::ArrayAtomicSet),
        0x6b => Some(ProposedOp::ArrayAtomicRmwAdd),
        0x6c => Some(ProposedOp::ArrayAtomicRmwSub),
        0x6d => Some(ProposedOp::ArrayAtomicRmwAnd),
        0x6e => Some(ProposedOp::ArrayAtomicRmwOr),
        0x6f => Some(ProposedOp::ArrayAtomicRmwXor),
        0x70 => Some(ProposedOp::ArrayAtomicRmwXchg),
        0x71 => Some(ProposedOp::ArrayAtomicRmwCmpxchg),
        0x72 => Some(ProposedOp::RefI31Shared),
        _ => None,
    }
}

/// The operator of a proposal of a number behind 0xfe.
pub fn atomic_proposed(code: u32) -> (r: Option<ProposedOp>)
    ensures
        r == atomic_proposed_of(code),
{
    match code {
        0x4f => Some(ProposedOp::GlobalAtomicGet),
        0x50 => Some(ProposedOp::GlobalAtomicSet),
        0x51 => Some(ProposedOp::GlobalAtomicRmwAdd),
        0x52 => Some(ProposedOp::GlobalAtomicRmwSub),
        0x53 => Some(ProposedOp::GlobalAtomicRmwAnd),
        0x54 => Some(ProposedOp::GlobalAtomicRmwOr),
        0x55 => Some(ProposedOp::GlobalAtomicRmwXor),
        0x56 => Some(ProposedOp::GlobalAtomicRmwXchg),
        0x57 => Some(ProposedOp::GlobalAtomicRmwCmpxchg),
        0x58 => Some(ProposedOp::TableAtomicGet),
        0x59 => Some(ProposedOp::TableAtomicSet),
        0x5a => Some(ProposedOp::TableAtomicRmwXchg),
        0x5b => Some(ProposedOp::TableAtomicRmwCmpxchg),
        0x5c => Some(ProposedOp::StructAtomicGet),
        0x5d => Some(ProposedOp::StructAtomicGetS),
        0x5e => Some(ProposedOp::StructAtomicGetU),
        0x5f => Some(ProposedOp::StructAtomicSet),
        0x60 => Some(ProposedOp::StructAtomicRmwAdd),
        0x61 => Some(ProposedOp::StructAtomicRmwSub),
        0x62 => Some(ProposedOp::StructAtomicRmwAnd),
        0x63 => Some(ProposedOp::StructAtomicRmwOr),
        0x64 => Some(ProposedOp::StructAtomicRmwXor),
        0x65 => Some(ProposedOp::StructAtomicRmwXchg),
        0x66 => Some(ProposedOp::StructAtomicRmwCmpxchg),
        0x67 => Some(ProposedOp::ArrayAtomicGet),
        0x68 => Some(ProposedOp::ArrayAtomicGetS),
        0x69 => Some(ProposedOp::ArrayAtomicGetU),
        0x6a => Some(ProposedOp::ArrayAtomicSet),
        0x6b => Some(ProposedOp::ArrayAtomicRmwAdd),
        0x6c => Some(ProposedOp::ArrayAtomicRmwSub),
        0x6d => Some(ProposedOp::ArrayAtomicRmwAnd),
        0x6e => Some(ProposedOp::ArrayAtomicRmwOr),
        0x6f => Some(ProposedOp::ArrayAtomicRmwXor),
        0x70 => Some(ProposedOp::ArrayAtomicRmwXchg),
        0x71 => Some(ProposedOp::ArrayAtomicRmwCmpxchg),
        0x72 => Some(ProposedOp::RefI31Shared),
        _ => None,
    }
}

/// Numbers tell operators apart: no two numbers are those of one operator on scalars.
pub proof fn numbers_of_numeric_operators_differ(a: u8, b: u8)
    requires
        numeric_of(a) is Some,
        numeric_of(a) == numeric_of(b),
    ensures
        a == b,
{
}

/// No two numbers are those of one vector operator.
pub proof fn numbers_of_vector_operators_differ(a: u32, b: u32)
    requires
        vector_of(a) is Some,
        vector_of(a) == vector_of(b),
    ensures
        a == b,
{
}

/// No two numbers are those of one access to memory.
pub proof fn numbers_of_accesses_differ(a: u8, b: u8)
    requires
        access_of(a) is Some,
        access_of(a) == access_of(b),
    ensures
        a == b,
{
}

} // verus!
