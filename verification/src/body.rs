//! The bodies of functions, as the parser reads them.
//!
//! A body is read in parts: its locals, where its operators begin, and what follows the number of an
//! operator. Everything is read as plain values, and depends on the bytes of the body alone.
use crate::parse::{RawHeap, RawVal};
use crate::runtime::const_eval::ConstOp;
use vstd::prelude::*;
use wasmparser::HeapType::{Abstract, Concrete};
use wasmparser::Operator::{
    Block, Br, BrIf, BrOnNonNull, BrOnNull, BrTable, Call, CallIndirect, F32Const, F32Load, F32Store,
    F32x4ExtractLane, F32x4ReplaceLane, F64Const, F64Load, F64Store, F64x2ExtractLane,
    F64x2ReplaceLane, GlobalGet, GlobalSet, I16x8ExtractLaneS, I16x8ExtractLaneU, I16x8ReplaceLane,
    I32Const, I32Load, I32Load16S, I32Load16U, I32Load8S, I32Load8U, I32Store, I32Store16, I32Store8,
    I32x4ExtractLane, I32x4ReplaceLane, I64Const, I64Load, I64Load16S, I64Load16U, I64Load32S,
    I64Load32U, I64Load8S, I64Load8U, I64Store, I64Store16, I64Store32, I64Store8, I64x2ExtractLane,
    I64x2ReplaceLane, I8x16ExtractLaneS, I8x16ExtractLaneU, I8x16ReplaceLane, I8x16Shuffle, If,
    LocalGet, LocalSet, LocalTee, Loop, MemoryDiscard, RefFunc, RefNull, V128Const, V128Load, V128Load16Lane,
    V128Load16Splat, V128Load16x4S, V128Load16x4U, V128Load32Lane, V128Load32Splat, V128Load32Zero,
    V128Load32x2S, V128Load32x2U, V128Load64Lane, V128Load64Splat, V128Load64Zero, V128Load8Lane,
    V128Load8Splat, V128Load8x8S, V128Load8x8U, V128Store, V128Store16Lane, V128Store32Lane,
    V128Store64Lane, V128Store8Lane,
};
use wasmparser::Payload::CodeSectionEntry;
use wasmparser::ValType::{F32, F64, I32, I64, Ref, V128};
use wasmparser::{BinaryReader, BinaryReaderError, BlockType, ConstExpr, FunctionBody, Parser};

verus! {

/// The body of a function: where it begins in the module, and its bytes.
pub struct FunctionBodyInput {
    pub start: usize,
    pub body: Vec<u8>,
}

impl View for FunctionBodyInput {
    type V = (usize, Seq<u8>);

    open spec fn view(&self) -> (usize, Seq<u8>) {
        (self.start, self.body@)
    }
}

/// The type of a block.
#[derive(Debug, Clone, Copy, PartialEq, Eq, Structural)]
pub enum RawBlock {
    Empty,
    Type(RawVal),
    Func(u32),
}

/// The bodies of a module, unless they cannot be read.
pub uninterp spec fn code_section(bytes: Seq<u8>) -> Option<Seq<(usize, Seq<u8>)>>;

/// The locals of a body in groups of one type, unless they cannot be read.
pub uninterp spec fn body_locals(body: Seq<u8>) -> Option<Seq<(u32, RawVal)>>;

/// Where the operators of a body begin, unless one of them cannot be read.
pub uninterp spec fn operator_offsets(body: Seq<u8>) -> Option<Seq<usize>>;

/// Where the operators of a constant expression begin, unless one of them cannot be read.
pub uninterp spec fn const_offsets(expr: Seq<u8>) -> Option<Seq<usize>>;

/// The type of the block that begins at a place.
pub uninterp spec fn block_operand(body: Seq<u8>, at: usize) -> Option<RawBlock>;

/// The number that the operator at a place refers to: a depth, a function, a local, a global or a
/// memory.
pub uninterp spec fn index_operand(body: Seq<u8>, at: usize) -> Option<u32>;

/// The type and the table of the indirect call at a place.
pub uninterp spec fn call_indirect_operands(body: Seq<u8>, at: usize) -> Option<(u32, u32)>;

/// The depths and the default depth of the branch by way of a table at a place.
pub uninterp spec fn br_table_operands(body: Seq<u8>, at: usize) -> Option<(Seq<u32>, u32)>;

/// The constant at a place.
pub uninterp spec fn const_operand(body: Seq<u8>, at: usize) -> Option<ConstOp>;

/// The lanes of the shuffle at a place, the first in the lowest byte.
pub uninterp spec fn shuffle_operand(body: Seq<u8>, at: usize) -> Option<u128>;

/// What the null at a place is a reference to.
pub uninterp spec fn null_operand(body: Seq<u8>, at: usize) -> Option<RawHeap>;

/// The memory and the offset of the load of a number at a place.
pub uninterp spec fn load_operand(body: Seq<u8>, at: usize) -> Option<(u32, u64)>;

/// The memory and the offset of the store of a number at a place.
pub uninterp spec fn store_operand(body: Seq<u8>, at: usize) -> Option<(u32, u64)>;

/// The memory and the offset of the access to a vector at a place.
pub uninterp spec fn vector_access_operand(body: Seq<u8>, at: usize) -> Option<(u32, u64)>;

/// The memory, the offset and the lane of the access to a lane at a place.
pub uninterp spec fn lane_access_operand(body: Seq<u8>, at: usize) -> Option<(u32, u64, u8)>;

/// The lane that the operator at a place works on.
pub uninterp spec fn lane_operand(body: Seq<u8>, at: usize) -> Option<u8>;

/// Calls `wasmparser::FunctionBody::as_bytes` and `range` on the bodies that
/// `wasmparser::Parser::parse_all` gives; what they give depends on the bytes alone, and is named.
#[verifier::external_body]
pub(crate) fn read_bodies(bytes: &[u8]) -> (r: Result<Vec<FunctionBodyInput>, BinaryReaderError>)
    ensures
        (match r {
            Ok(list) => Some(crate::parse::items(list@)),
            Err(_) => None,
        }) == code_section(bytes@),
{
    let mut list = vec![];
    for payload in Parser::new(0).parse_all(bytes) {
        let CodeSectionEntry(body) = payload? else { continue };
        list.push(FunctionBodyInput { start: body.range().start, body: body.as_bytes().to_vec() });
    }
    Ok(list)
}

/// Calls `wasmparser::FunctionBody::get_locals_reader`; what it gives depends on the bytes alone, and
/// is named.
#[verifier::external_body]
pub(crate) fn read_locals(body: &[u8]) -> (r: Option<Vec<(u32, RawVal)>>)
    ensures
        (match r {
            Some(list) => Some(list@),
            None => None,
        }) == body_locals(body@),
{
    let mut list = vec![];
    for group in FunctionBody::new(BinaryReader::new(body, 0)).get_locals_reader().ok()? {
        let (count, ty) = group.ok()?;
        list.push((count, match ty {
            I32 => RawVal::I32, I64 => RawVal::I64, F32 => RawVal::F32, F64 => RawVal::F64,
            V128 => RawVal::V128, Ref(r) => RawVal::Ref(r.is_nullable(), match r.heap_type() {
                Abstract { shared, ty } => RawHeap::Abstract(shared, ty as u8),
                Concrete(i) => RawHeap::Concrete(i.as_module_index()),
            }),
        }));
    }
    Some(list)
}

/// Calls `wasmparser::OperatorsReader::into_iter_with_offsets`; what it gives depends on the bytes
/// alone, and is named.
#[verifier::external_body]
pub(crate) fn read_operator_offsets(body: &[u8]) -> (r: Option<Vec<usize>>)
    ensures
        (match r {
            Some(list) => Some(list@),
            None => None,
        }) == operator_offsets(body@),
{
    let mut list = vec![];
    let reader = FunctionBody::new(BinaryReader::new(body, 0)).get_operators_reader().ok()?;
    for op in reader.into_iter_with_offsets() {
        list.push(op.ok()?.1);
    }
    Some(list)
}

/// Calls `wasmparser::ConstExpr::get_operators_reader`, and `into_iter_with_offsets` on what it gives;
/// the places depend on the bytes alone, and are named.
#[verifier::external_body]
pub(crate) fn read_const_offsets(expr: &[u8]) -> (r: Option<Vec<usize>>)
    ensures
        (match r {
            Some(list) => Some(list@),
            None => None,
        }) == const_offsets(expr@),
{
    let mut list = vec![];
    let reader = ConstExpr::new(BinaryReader::new(expr, 0)).get_operators_reader();
    for op in reader.into_iter_with_offsets() {
        list.push(op.ok()?.1);
    }
    Some(list)
}

/// Calls `wasmparser::BinaryReader::read_operator` at a place of a body; the type of the block depends on the
/// bytes alone, and is named.
#[verifier::external_body]
pub(crate) fn read_block(body: &[u8], at: usize) -> (r: Option<RawBlock>)
    requires
        at <= body@.len(),
    ensures
        r == block_operand(body@, at),
{
    let r = match BinaryReader::new(&body[at..], at).read_operator().ok()? {
        Block { blockty } => blockty, Loop { blockty } => blockty, If { blockty } => blockty,
        _ => return None,
    };
    Some(match r {
        BlockType::Empty => RawBlock::Empty, BlockType::FuncType(i) => RawBlock::Func(i),
        BlockType::Type(ty) => RawBlock::Type(match ty {
            I32 => RawVal::I32, I64 => RawVal::I64, F32 => RawVal::F32, F64 => RawVal::F64,
            V128 => RawVal::V128, Ref(r) => RawVal::Ref(r.is_nullable(), match r.heap_type() {
                Abstract { shared, ty } => RawHeap::Abstract(shared, ty as u8),
                Concrete(i) => RawHeap::Concrete(i.as_module_index()),
            }) }),
    })
}

/// Calls `wasmparser::BinaryReader::read_operator` at a place of a body; the number depends on the
/// bytes alone, and is named.
#[verifier::external_body]
pub(crate) fn read_index(body: &[u8], at: usize) -> (r: Option<u32>)
    requires
        at <= body@.len(),
    ensures
        r == index_operand(body@, at),
{
    let r = match BinaryReader::new(&body[at..], at).read_operator().ok()? {
        Br { relative_depth } => relative_depth, BrIf { relative_depth } => relative_depth,
        BrOnNull { relative_depth } => relative_depth,
        BrOnNonNull { relative_depth } => relative_depth,
        Call { function_index } => function_index, LocalGet { local_index } => local_index,
        LocalSet { local_index } => local_index, LocalTee { local_index } => local_index,
        GlobalGet { global_index } => global_index, GlobalSet { global_index } => global_index,
        MemoryDiscard { mem } => mem, RefFunc { function_index } => function_index, _ => return None,
    };
    Some(r)
}

/// Calls `wasmparser::BinaryReader::read_operator` at a place of a body; what it gives depends on the
/// bytes alone, and is named.
#[verifier::external_body]
pub(crate) fn read_call_indirect(body: &[u8], at: usize) -> (r: Option<(u32, u32)>)
    requires
        at <= body@.len(),
    ensures
        r == call_indirect_operands(body@, at),
{
    let r = match BinaryReader::new(&body[at..], at).read_operator().ok()? {
        CallIndirect { type_index, table_index } => (type_index, table_index), _ => return None,
    };
    Some(r)
}

/// Calls `wasmparser::BinaryReader::read_operator` at a place of a body; what it gives depends on the
/// bytes alone, and is named.
#[verifier::external_body]
pub(crate) fn read_br_table(body: &[u8], at: usize) -> (r: Option<(Vec<u32>, u32)>)
    requires
        at <= body@.len(),
    ensures
        (match r {
            Some((targets, default)) => Some((targets@, default)),
            None => None,
        }) == br_table_operands(body@, at),
{
    let r = match BinaryReader::new(&body[at..], at).read_operator().ok()? {
        BrTable { targets } => targets, _ => return None,
    };
    Some((r.targets().collect::<Result<_, _>>().ok()?, r.default()))
}

/// Calls `wasmparser::BinaryReader::read_operator` at a place of a body; the constant depends on the
/// bytes alone, and is named.
#[verifier::external_body]
pub(crate) fn read_const(body: &[u8], at: usize) -> (r: Option<ConstOp>)
    requires
        at <= body@.len(),
    ensures
        r == const_operand(body@, at),
{
    let r = match BinaryReader::new(&body[at..], at).read_operator().ok()? {
        I32Const { value } => ConstOp::I32Const(value),
        I64Const { value } => ConstOp::I64Const(value),
        F32Const { value } => ConstOp::F32Const(value.bits()),
        F64Const { value } => ConstOp::F64Const(value.bits()),
        V128Const { value } => ConstOp::V128Const(value.i128() as u128), _ => return None,
    };
    Some(r)
}

/// Calls `wasmparser::BinaryReader::read_operator` at a place of a body; the mask depends on the
/// bytes alone, and is named.
#[verifier::external_body]
pub(crate) fn read_shuffle(body: &[u8], at: usize) -> (r: Option<u128>)
    requires
        at <= body@.len(),
    ensures
        r == shuffle_operand(body@, at),
{
    let r = match BinaryReader::new(&body[at..], at).read_operator().ok()? {
        I8x16Shuffle { lanes } => u128::from_le_bytes(lanes), _ => return None,
    };
    Some(r)
}

/// Calls `wasmparser::BinaryReader::read_operator` at a place of a body; the heap type depends on the
/// bytes alone, and is named.
#[verifier::external_body]
pub(crate) fn read_null(body: &[u8], at: usize) -> (r: Option<RawHeap>)
    requires
        at <= body@.len(),
    ensures
        r == null_operand(body@, at),
{
    let r = match BinaryReader::new(&body[at..], at).read_operator().ok()? {
        RefNull { hty } => hty, _ => return None,
    };
    Some(match r {
        Abstract { shared, ty } => RawHeap::Abstract(shared, ty as u8),
        Concrete(i) => RawHeap::Concrete(i.as_module_index()),
    })
}

/// Calls `wasmparser::BinaryReader::read_operator` at a place of a body; what it gives depends on the
/// bytes alone, and is named.
#[verifier::external_body]
pub(crate) fn read_load(body: &[u8], at: usize) -> (r: Option<(u32, u64)>)
    requires
        at <= body@.len(),
    ensures
        r == load_operand(body@, at),
{
    let r = match BinaryReader::new(&body[at..], at).read_operator().ok()? {
        I32Load { memarg } => memarg, I64Load { memarg } => memarg, F32Load { memarg } => memarg,
        F64Load { memarg } => memarg, I32Load8S { memarg } => memarg,
        I32Load8U { memarg } => memarg, I32Load16S { memarg } => memarg,
        I32Load16U { memarg } => memarg, I64Load8S { memarg } => memarg,
        I64Load8U { memarg } => memarg, I64Load16S { memarg } => memarg,
        I64Load16U { memarg } => memarg, I64Load32S { memarg } => memarg,
        I64Load32U { memarg } => memarg, _ => return None,
    };
    Some((r.memory, r.offset))
}

/// Calls `wasmparser::BinaryReader::read_operator` at a place of a body; what it gives depends on the
/// bytes alone, and is named.
#[verifier::external_body]
pub(crate) fn read_store(body: &[u8], at: usize) -> (r: Option<(u32, u64)>)
    requires
        at <= body@.len(),
    ensures
        r == store_operand(body@, at),
{
    let r = match BinaryReader::new(&body[at..], at).read_operator().ok()? {
        I32Store { memarg } => memarg, I64Store { memarg } => memarg,
        F32Store { memarg } => memarg, F64Store { memarg } => memarg,
        I32Store8 { memarg } => memarg, I32Store16 { memarg } => memarg,
        I64Store8 { memarg } => memarg, I64Store16 { memarg } => memarg,
        I64Store32 { memarg } => memarg, _ => return None,
    };
    Some((r.memory, r.offset))
}

/// Calls `wasmparser::BinaryReader::read_operator` at a place of a body; what it gives depends on the
/// bytes alone, and is named.
#[verifier::external_body]
pub(crate) fn read_vector_access(body: &[u8], at: usize) -> (r: Option<(u32, u64)>)
    requires
        at <= body@.len(),
    ensures
        r == vector_access_operand(body@, at),
{
    let r = match BinaryReader::new(&body[at..], at).read_operator().ok()? {
        V128Load { memarg } => memarg, V128Load8x8S { memarg } => memarg,
        V128Load8x8U { memarg } => memarg, V128Load16x4S { memarg } => memarg,
        V128Load16x4U { memarg } => memarg, V128Load32x2S { memarg } => memarg,
        V128Load32x2U { memarg } => memarg, V128Load8Splat { memarg } => memarg,
        V128Load16Splat { memarg } => memarg, V128Load32Splat { memarg } => memarg,
        V128Load64Splat { memarg } => memarg, V128Load32Zero { memarg } => memarg,
        V128Load64Zero { memarg } => memarg, V128Store { memarg } => memarg, _ => return None,
    };
    Some((r.memory, r.offset))
}

/// Calls `wasmparser::BinaryReader::read_operator` at a place of a body; what it gives depends on the
/// bytes alone, and is named.
#[verifier::external_body]
pub(crate) fn read_lane_access(body: &[u8], at: usize) -> (r: Option<(u32, u64, u8)>)
    requires
        at <= body@.len(),
    ensures
        r == lane_access_operand(body@, at),
{
    let r = match BinaryReader::new(&body[at..], at).read_operator().ok()? {
        V128Load8Lane { memarg, lane } => (memarg, lane),
        V128Load16Lane { memarg, lane } => (memarg, lane),
        V128Load32Lane { memarg, lane } => (memarg, lane),
        V128Load64Lane { memarg, lane } => (memarg, lane),
        V128Store8Lane { memarg, lane } => (memarg, lane),
        V128Store16Lane { memarg, lane } => (memarg, lane),
        V128Store32Lane { memarg, lane } => (memarg, lane),
        V128Store64Lane { memarg, lane } => (memarg, lane), _ => return None,
    };
    Some((r.0.memory, r.0.offset, r.1))
}

/// Calls `wasmparser::BinaryReader::read_operator` at a place of a body; the lane depends on the
/// bytes alone, and is named.
#[verifier::external_body]
pub(crate) fn read_lane(body: &[u8], at: usize) -> (r: Option<u8>)
    requires
        at <= body@.len(),
    ensures
        r == lane_operand(body@, at),
{
    let r = match BinaryReader::new(&body[at..], at).read_operator().ok()? {
        I8x16ExtractLaneS { lane } => lane, I8x16ExtractLaneU { lane } => lane,
        I8x16ReplaceLane { lane } => lane, I16x8ExtractLaneS { lane } => lane,
        I16x8ExtractLaneU { lane } => lane, I16x8ReplaceLane { lane } => lane,
        I32x4ExtractLane { lane } => lane, I32x4ReplaceLane { lane } => lane,
        I64x2ExtractLane { lane } => lane, I64x2ReplaceLane { lane } => lane,
        F32x4ExtractLane { lane } => lane, F32x4ReplaceLane { lane } => lane,
        F64x2ExtractLane { lane } => lane, F64x2ReplaceLane { lane } => lane, _ => return None,
    };
    Some(r)
}

} // verus!
