//! From the bytes of a function's body to its operators.
use crate::body::{
    read_block, read_br_table, read_call_indirect, read_const, read_index, read_lane,
    read_lane_access, read_load, read_null, read_operator_offsets, read_shuffle, read_store,
    read_vector_access, RawBlock,
};
use crate::cranelift::memory::MemArg;
use crate::cranelift::opcodes::{
    access, atomic_proposed, atomic_untranslated, bulk_proposed, bulk_untranslated,
    collected_proposed, collected_untranslated, lane, lane_access, numeric, saturating,
    single_proposed, single_untranslated, vector, vector_access,
};
use crate::cranelift::operator::Operator;
use crate::cranelift::state::BlockType;
use crate::module_translator::{heap_type, val_type};
use crate::runtime::const_eval::ConstOp;
use vstd::prelude::*;

verus! {

/// The number of up to 32 bits that is written in groups of seven bits, the lowest first, each but
/// the last with its highest bit set. `n` groups came before.
pub open spec fn var_u32(bytes: Seq<u8>, at: int, n: nat) -> Option<u32>
    decreases 5 - n,
{
    if at < 0 || at >= bytes.len() || n > 4 {
        None
    } else if n == 4 {
        if bytes[at] < 16 {
            Some(bytes[at] as u32)
        } else {
            None
        }
    } else if bytes[at] < 128 {
        Some(bytes[at] as u32)
    } else {
        match var_u32(bytes, at + 1, n + 1) {
            Some(rest) => Some((bytes[at] - 128 + 128 * rest) as u32),
            None => None,
        }
    }
}

/// A number in groups of seven bits is small enough for the groups that are left.
proof fn lemma_var_u32(bytes: Seq<u8>, at: int, n: nat)
    ensures
        var_u32(bytes, at, n) matches Some(v) ==> n <= 4 && v < (if n == 0 {
            0x1_0000_0000int
        } else if n == 1 {
            0x200_0000
        } else if n == 2 {
            0x4_0000
        } else if n == 3 {
            0x800
        } else {
            0x10
        }),
    decreases 5 - n,
{
    if n < 4 {
        lemma_var_u32(bytes, at + 1, n + 1);
    }
}

/// Reads a number in groups of seven bits.
fn read_var_u32(bytes: &[u8], at: usize, n: u32) -> (r: Option<u32>)
    requires
        at <= bytes@.len(),
        n <= 4,
    ensures
        r == var_u32(bytes@, at as int, n as nat),
    decreases 5 - n,
{
    if at >= bytes.len() {
        return None;
    }
    let byte: u8 = bytes[at];
    if n == 4 {
        return if byte < 16 {
            Some(byte as u32)
        } else {
            None
        };
    }
    if byte < 128 {
        return Some(byte as u32);
    }
    match read_var_u32(bytes, at + 1, n + 1) {
        Some(rest) => {
            proof {
                lemma_var_u32(bytes@, at + 1, (n + 1) as nat);
            }
            Some((byte - 128) as u32 + 128 * rest)
        },
        None => None,
    }
}

/// The type of a block, if it is supported.
pub open spec fn block_type_of(block: RawBlock) -> Option<BlockType> {
    match block {
        RawBlock::Empty => Some(BlockType::Empty),
        RawBlock::Func(index) => Some(BlockType::FuncType(index)),
        RawBlock::Type(val) => match crate::module_translator::val_type_of(val) {
            Some(ty) => Some(BlockType::Type(ty)),
            None => None,
        },
    }
}

/// The type of a block, if it is supported.
fn block_type(block: RawBlock) -> (r: Option<BlockType>)
    ensures
        r == block_type_of(block),
{
    match block {
        RawBlock::Empty => Some(BlockType::Empty),
        RawBlock::Func(index) => Some(BlockType::FuncType(index)),
        RawBlock::Type(val) => match val_type(val) {
            Some(ty) => Some(BlockType::Type(ty)),
            None => None,
        },
    }
}

/// The block, loop or `if` at a place.
pub open spec fn block_at(body: Seq<u8>, at: usize) -> Option<Operator<Seq<u32>>> {
    match crate::body::block_operand(body, at) {
        Some(block) => match block_type_of(block) {
            Some(blockty) => match body[at as int] {
                0x02 => Some(Operator::Block { blockty }),
                0x03 => Some(Operator::Loop { blockty }),
                _ => Some(Operator::If { blockty }),
            },
            None => None,
        },
        None => None,
    }
}

/// The operator at a place that refers to something by its number.
pub open spec fn indexed_at(body: Seq<u8>, at: usize) -> Option<Operator<Seq<u32>>> {
    match crate::body::index_operand(body, at) {
        Some(i) => match body[at as int] {
            0x0c => Some(Operator::Br { relative_depth: i }),
            0x0d => Some(Operator::BrIf { relative_depth: i }),
            0x10 => Some(Operator::Call { function_index: i }),
            0x20 => Some(Operator::LocalGet { local_index: i }),
            0x21 => Some(Operator::LocalSet { local_index: i }),
            0x22 => Some(Operator::LocalTee { local_index: i }),
            0x23 => Some(Operator::GlobalGet { global_index: i }),
            0x24 => Some(Operator::GlobalSet { global_index: i }),
            0xd5 => Some(Operator::BrOnNull { relative_depth: i }),
            _ => Some(Operator::BrOnNonNull { relative_depth: i }),
        },
        None => None,
    }
}

/// The constant at a place.
pub open spec fn constant_at(body: Seq<u8>, at: usize) -> Option<Operator<Seq<u32>>> {
    match crate::body::const_operand(body, at) {
        Some(ConstOp::I32Const(value)) => Some(Operator::I32Const { value }),
        Some(ConstOp::I64Const(value)) => Some(Operator::I64Const { value }),
        Some(ConstOp::F32Const(bits)) => Some(Operator::F32Const { bits }),
        Some(ConstOp::F64Const(bits)) => Some(Operator::F64Const { bits }),
        Some(ConstOp::V128Const(bytes)) => Some(Operator::V128Const { bytes }),
        _ => None,
    }
}

/// The operator at a place that is one byte, with nothing behind it that matters.
pub open spec fn plain_of(code: u8) -> Option<Operator<Seq<u32>>> {
    match code {
        0x00 => Some(Operator::Unreachable),
        0x01 => Some(Operator::Nop),
        0x05 => Some(Operator::Else),
        0x0b => Some(Operator::End),
        0x0f => Some(Operator::Return),
        0x1a => Some(Operator::Drop),
        0x1b => Some(Operator::Select),
        0x1c => Some(Operator::TypedSelect),
        0xd1 => Some(Operator::RefIsNull),
        0xd4 => Some(Operator::RefAsNonNull),
        _ => match crate::cranelift::opcodes::numeric_of(code) {
            Some(op) => Some(Operator::Numeric(op)),
            None => match crate::cranelift::opcodes::single_untranslated_of(code) {
                Some(op) => Some(Operator::Untranslated(op)),
                None => match crate::cranelift::opcodes::single_proposed_of(code) {
                    Some(op) => Some(Operator::Proposed(op)),
                    None => None,
                },
            },
        },
    }
}

/// The operator of garbage collection with a number.
pub open spec fn collected_of(code: u32) -> Option<Operator<Seq<u32>>> {
    match crate::cranelift::opcodes::collected_untranslated_of(code) {
        Some(op) => Some(Operator::Untranslated(op)),
        None => match crate::cranelift::opcodes::collected_proposed_of(code) {
            Some(op) => Some(Operator::Proposed(op)),
            None => None,
        },
    }
}

/// The conversion or bulk operator with a number at a place.
pub open spec fn bulk_at(body: Seq<u8>, at: usize, code: u32) -> Option<Operator<Seq<u32>>> {
    if code == 0x12 {
        match crate::body::index_operand(body, at) {
            Some(mem) => Some(Operator::MemoryDiscard { mem }),
            None => None,
        }
    } else {
        match crate::cranelift::opcodes::saturating_of(code) {
            Some(op) => Some(Operator::Numeric(op)),
            None => match crate::cranelift::opcodes::bulk_untranslated_of(code) {
                Some(op) => Some(Operator::Untranslated(op)),
                None => match crate::cranelift::opcodes::bulk_proposed_of(code) {
                    Some(op) => Some(Operator::Proposed(op)),
                    None => None,
                },
            },
        }
    }
}

/// The access to a vector at a place.
pub open spec fn vector_access_at(body: Seq<u8>, at: usize, code: u32) -> Option<
    Operator<Seq<u32>>,
> {
    match (
        crate::cranelift::opcodes::vector_access_of(code),
        crate::body::vector_access_operand(body, at),
    ) {
        (Some(op), Some((memory, offset))) => Some(
            Operator::Access { op, memarg: MemArg { memory, offset } },
        ),
        _ => None,
    }
}

/// The access to a lane at a place.
pub open spec fn lane_access_at(body: Seq<u8>, at: usize, code: u32) -> Option<
    Operator<Seq<u32>>,
> {
    match (
        crate::cranelift::opcodes::lane_access_of(code),
        crate::body::lane_access_operand(body, at),
    ) {
        (Some(op), Some((memory, offset, lane))) => Some(
            Operator::LaneAccess { op, memarg: MemArg { memory, offset }, lane },
        ),
        _ => None,
    }
}

/// The operator on a lane at a place.
pub open spec fn lane_at(body: Seq<u8>, at: usize, code: u32) -> Option<Operator<Seq<u32>>> {
    match (
        crate::cranelift::opcodes::lane_of(code),
        crate::body::lane_operand(body, at),
    ) {
        (Some(op), Some(lane)) => Some(Operator::Lane { op, lane }),
        _ => None,
    }
}

/// The vector operator with a number at a place.
pub open spec fn vector_at(body: Seq<u8>, at: usize, code: u32) -> Option<Operator<Seq<u32>>> {
    if code == 0x0c {
        constant_at(body, at)
    } else if code == 0x0d {
        match crate::body::shuffle_operand(body, at) {
            Some(lanes) => Some(Operator::I8x16Shuffle { lanes }),
            None => None,
        }
    } else if crate::cranelift::opcodes::vector_access_of(code) is Some {
        vector_access_at(body, at, code)
    } else if crate::cranelift::opcodes::lane_access_of(code) is Some {
        lane_access_at(body, at, code)
    } else if crate::cranelift::opcodes::lane_of(code) is Some {
        lane_at(body, at, code)
    } else {
        match crate::cranelift::opcodes::vector_of(code) {
            Some(op) => Some(Operator::Vector(op)),
            None => None,
        }
    }
}

/// The atomic operator with a number.
pub open spec fn atomic_of(code: u32) -> Option<Operator<Seq<u32>>> {
    if code == 0x03 {
        Some(Operator::AtomicFence)
    } else {
        match crate::cranelift::opcodes::atomic_untranslated_of(code) {
            Some(op) => Some(Operator::Untranslated(op)),
            None => match crate::cranelift::opcodes::atomic_proposed_of(code) {
                Some(op) => Some(Operator::Proposed(op)),
                None => None,
            },
        }
    }
}

/// The operator at a place that is a byte and a number.
pub open spec fn prefixed_at(body: Seq<u8>, at: usize) -> Option<Operator<Seq<u32>>> {
    match var_u32(body, at + 1, 0) {
        Some(code) => match body[at as int] {
            0xfb => collected_of(code),
            0xfc => bulk_at(body, at, code),
            0xfd => vector_at(body, at, code),
            _ => atomic_of(code),
        },
        None => None,
    }
}

/// The load or store of a number at a place. Loads come before stores.
pub open spec fn access_at(body: Seq<u8>, at: usize) -> Option<Operator<Seq<u32>>> {
    let memarg = if body[at as int] < 0x36 {
        crate::body::load_operand(body, at)
    } else {
        crate::body::store_operand(body, at)
    };
    match (crate::cranelift::opcodes::access_of(body[at as int]), memarg) {
        (Some(op), Some((memory, offset))) => Some(
            Operator::Access { op, memarg: MemArg { memory, offset } },
        ),
        _ => None,
    }
}

/// The operator at a place of a body, if it is known.
pub open spec fn operator_at(body: Seq<u8>, at: usize) -> Option<Operator<Seq<u32>>> {
    if at >= body.len() {
        None
    } else {
        match body[at as int] {
            0x02 | 0x03 | 0x04 => block_at(body, at),
            0x0c | 0x0d | 0x10 | 0x20 | 0x21 | 0x22 | 0x23 | 0x24 | 0xd5 | 0xd6 => indexed_at(
                body,
                at,
            ),
            0x0e => match crate::body::br_table_operands(body, at) {
                Some((targets, default)) => Some(Operator::BrTable { targets, default }),
                None => None,
            },
            0x11 => match crate::body::call_indirect_operands(body, at) {
                Some((type_index, table_index)) => Some(
                    Operator::CallIndirect { type_index, table_index },
                ),
                None => None,
            },
            0x41 | 0x42 | 0x43 | 0x44 => constant_at(body, at),
            0xd0 => match crate::body::null_operand(body, at) {
                Some(heap) => match crate::module_translator::heap_type_of(heap) {
                    Some(hty) => Some(Operator::RefNull { hty }),
                    None => None,
                },
                None => None,
            },
            0xfb | 0xfc | 0xfd | 0xfe => prefixed_at(body, at),
            code => if crate::cranelift::opcodes::access_of(code) is Some {
                access_at(body, at)
            } else {
                plain_of(code)
            },
        }
    }
}

/// An operator by its view, if there is one.
pub open spec fn view_of(op: Option<Operator>) -> Option<Operator<Seq<u32>>> {
    match op {
        Some(op) => Some(op@),
        None => None,
    }
}

/// The block, loop or `if` at a place.
fn decode_block(body: &[u8], at: usize) -> (r: Option<Operator>)
    requires
        at < body@.len(),
    ensures
        view_of(r) == block_at(body@, at),
{
    let blockty = match read_block(body, at) {
        Some(block) => match block_type(block) {
            Some(blockty) => blockty,
            None => return None,
        },
        None => return None,
    };
    match body[at] {
        0x02 => Some(Operator::Block { blockty }),
        0x03 => Some(Operator::Loop { blockty }),
        _ => Some(Operator::If { blockty }),
    }
}

/// The operator at a place that refers to something by its number.
fn decode_indexed(body: &[u8], at: usize) -> (r: Option<Operator>)
    requires
        at < body@.len(),
    ensures
        view_of(r) == indexed_at(body@, at),
{
    let i: u32 = match read_index(body, at) {
        Some(i) => i,
        None => return None,
    };
    match body[at] {
        0x0c => Some(Operator::Br { relative_depth: i }),
        0x0d => Some(Operator::BrIf { relative_depth: i }),
        0x10 => Some(Operator::Call { function_index: i }),
        0x20 => Some(Operator::LocalGet { local_index: i }),
        0x21 => Some(Operator::LocalSet { local_index: i }),
        0x22 => Some(Operator::LocalTee { local_index: i }),
        0x23 => Some(Operator::GlobalGet { global_index: i }),
        0x24 => Some(Operator::GlobalSet { global_index: i }),
        0xd5 => Some(Operator::BrOnNull { relative_depth: i }),
        _ => Some(Operator::BrOnNonNull { relative_depth: i }),
    }
}

/// The constant at a place.
fn decode_constant(body: &[u8], at: usize) -> (r: Option<Operator>)
    requires
        at < body@.len(),
    ensures
        view_of(r) == constant_at(body@, at),
{
    match read_const(body, at) {
        Some(ConstOp::I32Const(value)) => Some(Operator::I32Const { value }),
        Some(ConstOp::I64Const(value)) => Some(Operator::I64Const { value }),
        Some(ConstOp::F32Const(bits)) => Some(Operator::F32Const { bits }),
        Some(ConstOp::F64Const(bits)) => Some(Operator::F64Const { bits }),
        Some(ConstOp::V128Const(bytes)) => Some(Operator::V128Const { bytes }),
        _ => None,
    }
}

/// The operator of one byte.
fn decode_plain(code: u8) -> (r: Option<Operator>)
    ensures
        view_of(r) == plain_of(code),
{
    match code {
        0x00 => Some(Operator::Unreachable),
        0x01 => Some(Operator::Nop),
        0x05 => Some(Operator::Else),
        0x0b => Some(Operator::End),
        0x0f => Some(Operator::Return),
        0x1a => Some(Operator::Drop),
        0x1b => Some(Operator::Select),
        0x1c => Some(Operator::TypedSelect),
        0xd1 => Some(Operator::RefIsNull),
        0xd4 => Some(Operator::RefAsNonNull),
        _ => match numeric(code) {
            Some(op) => Some(Operator::Numeric(op)),
            None => match single_untranslated(code) {
                Some(op) => Some(Operator::Untranslated(op)),
                None => match single_proposed(code) {
                    Some(op) => Some(Operator::Proposed(op)),
                    None => None,
                },
            },
        },
    }
}

/// The operator of garbage collection with a number.
fn decode_collected(code: u32) -> (r: Option<Operator>)
    ensures
        view_of(r) == collected_of(code),
{
    match collected_untranslated(code) {
        Some(op) => Some(Operator::Untranslated(op)),
        None => match collected_proposed(code) {
            Some(op) => Some(Operator::Proposed(op)),
            None => None,
        },
    }
}

/// The conversion or bulk operator with a number at a place.
fn decode_bulk(body: &[u8], at: usize, code: u32) -> (r: Option<Operator>)
    requires
        at < body@.len(),
    ensures
        view_of(r) == bulk_at(body@, at, code),
{
    if code == 0x12 {
        return match read_index(body, at) {
            Some(mem) => Some(Operator::MemoryDiscard { mem }),
            None => None,
        };
    }
    match saturating(code) {
        Some(op) => Some(Operator::Numeric(op)),
        None => match bulk_untranslated(code) {
            Some(op) => Some(Operator::Untranslated(op)),
            None => match bulk_proposed(code) {
                Some(op) => Some(Operator::Proposed(op)),
                None => None,
            },
        },
    }
}

/// The vector operator with a number at a place.
fn decode_vector(body: &[u8], at: usize, code: u32) -> (r: Option<Operator>)
    requires
        at < body@.len(),
    ensures
        view_of(r) == vector_at(body@, at, code),
{
    if code == 0x0c {
        return decode_constant(body, at);
    }
    if code == 0x0d {
        return match read_shuffle(body, at) {
            Some(lanes) => Some(Operator::I8x16Shuffle { lanes }),
            None => None,
        };
    }
    if let Some(op) = vector_access(code) {
        return match read_vector_access(body, at) {
            Some((memory, offset)) => Some(
                Operator::Access { op, memarg: MemArg { memory, offset } },
            ),
            None => None,
        };
    }
    if let Some(op) = lane_access(code) {
        return match read_lane_access(body, at) {
            Some((memory, offset, lane)) => Some(
                Operator::LaneAccess { op, memarg: MemArg { memory, offset }, lane },
            ),
            None => None,
        };
    }
    if let Some(op) = lane(code) {
        return match read_lane(body, at) {
            Some(lane) => Some(Operator::Lane { op, lane }),
            None => None,
        };
    }
    match vector(code) {
        Some(op) => Some(Operator::Vector(op)),
        None => None,
    }
}

/// The atomic operator with a number.
fn decode_atomic(code: u32) -> (r: Option<Operator>)
    ensures
        view_of(r) == atomic_of(code),
{
    if code == 0x03 {
        return Some(Operator::AtomicFence);
    }
    match atomic_untranslated(code) {
        Some(op) => Some(Operator::Untranslated(op)),
        None => match atomic_proposed(code) {
            Some(op) => Some(Operator::Proposed(op)),
            None => None,
        },
    }
}

/// The operator at a place that is a byte and a number.
fn decode_prefixed(body: &[u8], at: usize) -> (r: Option<Operator>)
    requires
        at < body@.len(),
    ensures
        view_of(r) == prefixed_at(body@, at),
{
    assert(body.len() <= usize::MAX);
    let code: u32 = match read_var_u32(body, at + 1, 0) {
        Some(code) => code,
        None => return None,
    };
    match body[at] {
        0xfb => decode_collected(code),
        0xfc => decode_bulk(body, at, code),
        0xfd => decode_vector(body, at, code),
        _ => decode_atomic(code),
    }
}

/// The operator at a place of a body, if it is known.
pub fn decode_operator(body: &[u8], at: usize) -> (r: Option<Operator>)
    ensures
        view_of(r) == operator_at(body@, at),
{
    if at >= body.len() {
        return None;
    }
    let code: u8 = body[at];
    match code {
        0x02 | 0x03 | 0x04 => decode_block(body, at),
        0x0c | 0x0d | 0x10 | 0x20 | 0x21 | 0x22 | 0x23 | 0x24 | 0xd5 | 0xd6 => decode_indexed(
            body,
            at,
        ),
        0x0e => match read_br_table(body, at) {
            Some((targets, default)) => Some(Operator::BrTable { targets, default }),
            None => None,
        },
        0x11 => match read_call_indirect(body, at) {
            Some((type_index, table_index)) => Some(
                Operator::CallIndirect { type_index, table_index },
            ),
            None => None,
        },
        0x41 | 0x42 | 0x43 | 0x44 => decode_constant(body, at),
        0xd0 => match read_null(body, at) {
            Some(heap) => match heap_type(heap) {
                Some(hty) => Some(Operator::RefNull { hty }),
                None => None,
            },
            None => None,
        },
        0xfb | 0xfc | 0xfd | 0xfe => decode_prefixed(body, at),
        _ => match access(code) {
            Some(op) => {
                let memarg = if code < 0x36 {
                    read_load(body, at)
                } else {
                    read_store(body, at)
                };
                match memarg {
                    Some((memory, offset)) => Some(
                        Operator::Access { op, memarg: MemArg { memory, offset } },
                    ),
                    None => None,
                }
            },
            None => decode_plain(code),
        },
    }
}

/// The operators of a body, if all of them are known.
pub open spec fn body_operators(body: Seq<u8>) -> Option<Seq<Operator<Seq<u32>>>> {
    match crate::body::operator_offsets(body) {
        Some(offsets) => if forall|i: int|
            0 <= i < offsets.len() ==> operator_at(body, #[trigger] offsets[i]) is Some {
            Some(offsets.map_values(|at: usize| operator_at(body, at)->0))
        } else {
            None
        },
        None => None,
    }
}

/// The operators of a body, if all of them are known.
pub fn decode_body(body: &[u8]) -> (r: Option<Vec<Operator>>)
    ensures
        (match r {
            Some(ops) => Some(crate::cranelift::function_translator::views(ops@)),
            None => None,
        }) == body_operators(body@),
{
    let offsets = match read_operator_offsets(body) {
        Some(offsets) => offsets,
        None => return None,
    };
    let mut ops: Vec<Operator> = Vec::new();
    for i in 0..offsets.len()
        invariant
            crate::body::operator_offsets(body@) == Some(offsets@),
            ops@.len() == i,
            forall|k: int|
                0 <= k < i ==> operator_at(body@, #[trigger] offsets@[k]) == Some(ops@[k]@),
    {
        match decode_operator(body, offsets[i]) {
            Some(op) => ops.push(op),
            None => {
                assert(operator_at(body@, offsets@[i as int]) is None);
                return None;
            },
        }
    }
    assert(crate::cranelift::function_translator::views(ops@) =~= offsets@.map_values(
        |at: usize| operator_at(body@, at)->0,
    ));
    Some(ops)
}

/// What an operator of a constant expression is.
#[derive(Debug, Clone, Copy, PartialEq, Eq, Structural)]
pub enum ConstStep {
    Op(ConstOp),
    /// The end of the expression.
    End,
}

/// The operator at a place of a constant expression, if it is supported.
pub open spec fn const_step_at(expr: Seq<u8>, at: usize) -> Option<ConstStep> {
    if at >= expr.len() {
        None
    } else {
        match expr[at as int] {
            0x0b => Some(ConstStep::End),
            0x23 => match crate::body::index_operand(expr, at) {
                Some(i) => Some(ConstStep::Op(ConstOp::GlobalGet(crate::indices::GlobalIndex(i)))),
                None => None,
            },
            0x41 | 0x42 | 0x43 | 0x44 => match crate::body::const_operand(expr, at) {
                Some(op) => Some(ConstStep::Op(op)),
                None => None,
            },
            0x6a => Some(ConstStep::Op(ConstOp::I32Add)),
            0x6b => Some(ConstStep::Op(ConstOp::I32Sub)),
            0x6c => Some(ConstStep::Op(ConstOp::I32Mul)),
            0x7c => Some(ConstStep::Op(ConstOp::I64Add)),
            0x7d => Some(ConstStep::Op(ConstOp::I64Sub)),
            0x7e => Some(ConstStep::Op(ConstOp::I64Mul)),
            0xd0 => Some(ConstStep::Op(ConstOp::RefNull)),
            0xd2 => match crate::body::index_operand(expr, at) {
                Some(i) => Some(ConstStep::Op(ConstOp::RefFunc(crate::indices::FuncIndex(i)))),
                None => None,
            },
            0xfb => if var_u32(expr, at + 1, 0) == Some(0x1cu32) {
                Some(ConstStep::Op(ConstOp::RefI31))
            } else {
                None
            },
            0xfd => match crate::body::const_operand(expr, at) {
                Some(op) => Some(ConstStep::Op(op)),
                None => None,
            },
            _ => None,
        }
    }
}

/// The operator at a place of a constant expression, if it is supported.
fn decode_const_step(expr: &[u8], at: usize) -> (r: Option<ConstStep>)
    ensures
        r == const_step_at(expr@, at),
{
    if at >= expr.len() {
        return None;
    }
    match expr[at] {
        0x0b => Some(ConstStep::End),
        0x23 => match read_index(expr, at) {
            Some(i) => Some(ConstStep::Op(ConstOp::GlobalGet(crate::indices::GlobalIndex(i)))),
            None => None,
        },
        0x41 | 0x42 | 0x43 | 0x44 | 0xfd => match read_const(expr, at) {
            Some(op) => Some(ConstStep::Op(op)),
            None => None,
        },
        0x6a => Some(ConstStep::Op(ConstOp::I32Add)),
        0x6b => Some(ConstStep::Op(ConstOp::I32Sub)),
        0x6c => Some(ConstStep::Op(ConstOp::I32Mul)),
        0x7c => Some(ConstStep::Op(ConstOp::I64Add)),
        0x7d => Some(ConstStep::Op(ConstOp::I64Sub)),
        0x7e => Some(ConstStep::Op(ConstOp::I64Mul)),
        0xd0 => Some(ConstStep::Op(ConstOp::RefNull)),
        0xd2 => match read_index(expr, at) {
            Some(i) => Some(ConstStep::Op(ConstOp::RefFunc(crate::indices::FuncIndex(i)))),
            None => None,
        },
        0xfb => match read_var_u32(expr, at + 1, 0) {
            Some(0x1c) => Some(ConstStep::Op(ConstOp::RefI31)),
            _ => None,
        },
        _ => None,
    }
}

/// The operators of a constant expression up to its end, if all of them are supported and the end is
/// the last.
pub open spec fn const_expr(expr: Seq<u8>) -> Option<Seq<ConstOp>> {
    match crate::body::const_offsets(expr) {
        Some(offsets) => {
            let n = offsets.len() - 1;
            if n >= 0 && const_step_at(expr, offsets[n]) == Some(ConstStep::End) && forall|i: int|
                0 <= i < n ==> (const_step_at(expr, #[trigger] offsets[i]) matches Some(
                    ConstStep::Op(_),
                )) {
                Some(offsets.take(n).map_values(|at: usize| const_step_at(expr, at)->0->Op_0))
            } else {
                None
            }
        },
        None => None,
    }
}

/// The operators of a constant expression, if all of them are supported.
pub fn decode_const_expr(expr: &[u8]) -> (r: Option<Vec<ConstOp>>)
    ensures
        (match r {
            Some(ops) => Some(ops@),
            None => None,
        }) == const_expr(expr@),
{
    let offsets = match crate::body::read_const_offsets(expr) {
        Some(offsets) => offsets,
        None => return None,
    };
    if offsets.len() == 0 {
        return None;
    }
    let n: usize = offsets.len() - 1;
    match decode_const_step(expr, offsets[n]) {
        Some(ConstStep::End) => {},
        _ => return None,
    }
    let mut ops: Vec<ConstOp> = Vec::new();
    for i in 0..n
        invariant
            crate::body::const_offsets(expr@) == Some(offsets@),
            n == offsets@.len() - 1,
            ops@.len() == i,
            forall|k: int|
                0 <= k < i ==> const_step_at(expr@, #[trigger] offsets@[k]) == Some(
                    ConstStep::Op(ops@[k]),
                ),
    {
        match decode_const_step(expr, offsets[i]) {
            Some(ConstStep::Op(op)) => ops.push(op),
            _ => {
                assert(!(const_step_at(expr@, offsets@[i as int]) matches Some(ConstStep::Op(_))));
                return None;
            },
        }
    }
    assert(ops@ =~= offsets@.take(n as int).map_values(
        |at: usize| const_step_at(expr@, at)->0->Op_0,
    ));
    Some(ops)
}

} // verus!
