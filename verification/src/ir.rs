//! The intermediate representation that functions are translated into.
//!
//! Values, blocks and the other entities of a function are numbered in the order in which they are
//! created, so that a recorded function can be replayed into a code generator.
use vstd::prelude::*;

verus! {

/// The type of a value: integers, floats, their 128-bit vectors, and references.
#[derive(Debug, Clone, Copy, PartialEq, Eq, Structural)]
pub enum Type {
    I8,
    I16,
    I32,
    I64,
    F32,
    F64,
    I8X16,
    I16X8,
    I32X4,
    I64X2,
    F32X4,
    F64X2,
    R32,
    R64,
}

impl Type {
    /// The number of bits of a value.
    pub open spec fn spec_bits(self) -> u32 {
        match self {
            Type::I8 => 8,
            Type::I16 => 16,
            Type::I32 | Type::F32 | Type::R32 => 32,
            Type::I64 | Type::F64 | Type::R64 => 64,
            _ => 128,
        }
    }

    /// The number of bits of a value.
    pub fn bits(self) -> (r: u32)
        ensures
            r == self.spec_bits(),
    {
        match self {
            Type::I8 => 8,
            Type::I16 => 16,
            Type::I32 | Type::F32 | Type::R32 => 32,
            Type::I64 | Type::F64 | Type::R64 => 64,
            _ => 128,
        }
    }

    /// The number of bytes of a value.
    pub open spec fn spec_bytes(self) -> u8 {
        match self {
            Type::I8 => 1,
            Type::I16 => 2,
            Type::I32 | Type::F32 | Type::R32 => 4,
            Type::I64 | Type::F64 | Type::R64 => 8,
            _ => 16,
        }
    }

    /// The number of bytes of a value.
    pub fn bytes(self) -> (r: u8)
        ensures
            r == self.spec_bytes(),
    {
        match self {
            Type::I8 => 1,
            Type::I16 => 2,
            Type::I32 | Type::F32 | Type::R32 => 4,
            Type::I64 | Type::F64 | Type::R64 => 8,
            _ => 16,
        }
    }

    /// Whether values are vectors.
    pub open spec fn spec_is_vector(self) -> bool {
        match self {
            Type::I8X16 | Type::I16X8 | Type::I32X4 | Type::I64X2 | Type::F32X4 | Type::F64X2 => true,
            _ => false,
        }
    }

    /// Whether values are vectors.
    pub fn is_vector(self) -> (r: bool)
        ensures
            r == self.spec_is_vector(),
    {
        match self {
            Type::I8X16 | Type::I16X8 | Type::I32X4 | Type::I64X2 | Type::F32X4 | Type::F64X2 => true,
            _ => false,
        }
    }

    /// Whether values are collected references.
    pub open spec fn spec_is_ref(self) -> bool {
        match self {
            Type::R32 | Type::R64 => true,
            _ => false,
        }
    }

    /// Whether values are collected references.
    pub fn is_ref(self) -> (r: bool)
        ensures
            r == self.spec_is_ref(),
    {
        match self {
            Type::R32 | Type::R64 => true,
            _ => false,
        }
    }

    /// The type of one lane; a scalar is its own lane.
    pub open spec fn spec_lane_type(self) -> Type {
        match self {
            Type::I8X16 => Type::I8,
            Type::I16X8 => Type::I16,
            Type::I32X4 => Type::I32,
            Type::I64X2 => Type::I64,
            Type::F32X4 => Type::F32,
            Type::F64X2 => Type::F64,
            other => other,
        }
    }

    /// The type of one lane; a scalar is its own lane.
    pub fn lane_type(self) -> (r: Type)
        ensures
            r == self.spec_lane_type(),
    {
        match self {
            Type::I8X16 => Type::I8,
            Type::I16X8 => Type::I16,
            Type::I32X4 => Type::I32,
            Type::I64X2 => Type::I64,
            Type::F32X4 => Type::F32,
            Type::F64X2 => Type::F64,
            other => other,
        }
    }

    /// The type of a comparison of two values: a boolean, and for vectors one mask per lane.
    pub open spec fn spec_as_truthy(self) -> Type {
        match self {
            Type::I8X16 => Type::I8X16,
            Type::I16X8 => Type::I16X8,
            Type::I32X4 | Type::F32X4 => Type::I32X4,
            Type::I64X2 | Type::F64X2 => Type::I64X2,
            _ => Type::I8,
        }
    }

    /// The type of a comparison of two values: a boolean, and for vectors one mask per lane.
    pub fn as_truthy(self) -> (r: Type)
        ensures
            r == self.spec_as_truthy(),
    {
        match self {
            Type::I8X16 => Type::I8X16,
            Type::I16X8 => Type::I16X8,
            Type::I32X4 | Type::F32X4 => Type::I32X4,
            Type::I64X2 | Type::F64X2 => Type::I64X2,
            _ => Type::I8,
        }
    }

    /// The vector with half the lanes, each twice as wide.
    pub open spec fn spec_widened(self) -> Type {
        match self {
            Type::I8X16 => Type::I16X8,
            Type::I16X8 => Type::I32X4,
            Type::I32X4 => Type::I64X2,
            other => other,
        }
    }

    /// The vector with half the lanes, each twice as wide.
    pub fn widened(self) -> (r: Type)
        ensures
            r == self.spec_widened(),
    {
        match self {
            Type::I8X16 => Type::I16X8,
            Type::I16X8 => Type::I32X4,
            Type::I32X4 => Type::I64X2,
            other => other,
        }
    }

    /// The vector with twice the lanes, each half as wide.
    pub open spec fn spec_narrowed(self) -> Type {
        match self {
            Type::I16X8 => Type::I8X16,
            Type::I32X4 => Type::I16X8,
            Type::I64X2 => Type::I32X4,
            other => other,
        }
    }

    /// The vector with twice the lanes, each half as wide.
    pub fn narrowed(self) -> (r: Type)
        ensures
            r == self.spec_narrowed(),
    {
        match self {
            Type::I16X8 => Type::I8X16,
            Type::I32X4 => Type::I16X8,
            Type::I64X2 => Type::I32X4,
            other => other,
        }
    }

    /// The integer type with the same number of bits.
    pub open spec fn spec_as_int(self) -> Type {
        match self {
            Type::F32 | Type::R32 => Type::I32,
            Type::F64 | Type::R64 => Type::I64,
            Type::F32X4 => Type::I32X4,
            Type::F64X2 => Type::I64X2,
            other => other,
        }
    }

    /// The integer type with the same number of bits.
    pub fn as_int(self) -> (r: Type)
        ensures
            r == self.spec_as_int(),
    {
        match self {
            Type::F32 | Type::R32 => Type::I32,
            Type::F64 | Type::R64 => Type::I64,
            Type::F32X4 => Type::I32X4,
            Type::F64X2 => Type::I64X2,
            other => other,
        }
    }

    /// The largest unsigned number that fits in a scalar of the type.
    pub open spec fn spec_max_unsigned(self) -> u64 {
        match self {
            Type::I8 => 0xff,
            Type::I16 => 0xffff,
            Type::I32 | Type::F32 | Type::R32 => 0xffff_ffff,
            _ => 0xffff_ffff_ffff_ffff,
        }
    }

    /// The largest unsigned number that fits in a scalar of the type.
    pub fn max_unsigned(self) -> (r: u64)
        ensures
            r == self.spec_max_unsigned(),
    {
        match self {
            Type::I8 => 0xff,
            Type::I16 => 0xffff,
            Type::I32 | Type::F32 | Type::R32 => 0xffff_ffff,
            _ => 0xffff_ffff_ffff_ffff,
        }
    }
}

/// A value: the result of an instruction, or a parameter of a block.
#[derive(Debug, Clone, Copy, PartialEq, Eq, Structural)]
pub struct Value(pub usize);

/// A basic block.
#[derive(Debug, Clone, Copy, PartialEq, Eq, Structural)]
pub struct Block(pub usize);

/// A recorded instruction, by its position.
#[derive(Debug, Clone, Copy, PartialEq, Eq, Structural)]
pub struct Inst(pub usize);

/// An address that is the same throughout a function.
#[derive(Debug, Clone, Copy, PartialEq, Eq, Structural)]
pub struct GlobalValue(pub usize);

/// A function that is called directly.
#[derive(Debug, Clone, Copy, PartialEq, Eq, Structural)]
pub struct FuncRef(pub usize);

/// A signature that calls are made with.
#[derive(Debug, Clone, Copy, PartialEq, Eq, Structural)]
pub struct SigRef(pub usize);

/// A description of a region of memory.
#[derive(Debug, Clone, Copy, PartialEq, Eq, Structural)]
pub struct MemoryType(pub usize);

impl Block {
    /// The block that stands for "no block".
    pub open spec fn spec_reserved_value() -> Block {
        Block(usize::MAX)
    }

    /// The block that stands for "no block".
    pub fn reserved_value() -> (r: Block)
        ensures
            r == Block::spec_reserved_value(),
    {
        Block(usize::MAX)
    }
}

impl Inst {
    /// The instruction that stands for "no instruction".
    pub open spec fn spec_reserved_value() -> Inst {
        Inst(usize::MAX)
    }

    /// The instruction that stands for "no instruction".
    pub fn reserved_value() -> (r: Inst)
        ensures
            r == Inst::spec_reserved_value(),
    {
        Inst(usize::MAX)
    }
}

/// Why compiled code stops.
#[derive(Debug, Clone, Copy, PartialEq, Eq, Structural)]
pub enum TrapCode {
    StackOverflow,
    HeapOutOfBounds,
    IntegerOverflow,
    IntegerDivisionByZero,
    BadConversionToInteger,
    Unreachable,
    IndirectCallToNull,
    BadSignature,
    NullReference,
    TableOutOfBounds,
    HeapMisaligned,
    NullI31Ref,
    DebugAssertion,
    Exit,
}

impl TrapCode {
    /// The number of a trap that the code generator does not know by itself.
    pub open spec fn spec_user_number(self) -> Option<u8> {
        match self {
            TrapCode::Unreachable => Some(1),
            TrapCode::IndirectCallToNull => Some(2),
            TrapCode::BadSignature => Some(3),
            TrapCode::NullReference => Some(4),
            TrapCode::TableOutOfBounds => Some(5),
            TrapCode::HeapMisaligned => Some(6),
            TrapCode::NullI31Ref => Some(7),
            TrapCode::DebugAssertion => Some(8),
            TrapCode::Exit => Some(9),
            _ => None,
        }
    }

    /// The number of a trap that the code generator does not know by itself.
    pub fn user_number(self) -> (r: Option<u8>)
        ensures
            r == self.spec_user_number(),
    {
        match self {
            TrapCode::Unreachable => Some(1),
            TrapCode::IndirectCallToNull => Some(2),
            TrapCode::BadSignature => Some(3),
            TrapCode::NullReference => Some(4),
            TrapCode::TableOutOfBounds => Some(5),
            TrapCode::HeapMisaligned => Some(6),
            TrapCode::NullI31Ref => Some(7),
            TrapCode::DebugAssertion => Some(8),
            TrapCode::Exit => Some(9),
            _ => None,
        }
    }

    /// The trap with a number.
    pub open spec fn spec_from_user_number(number: u8) -> Option<TrapCode> {
        match number {
            1 => Some(TrapCode::Unreachable),
            2 => Some(TrapCode::IndirectCallToNull),
            3 => Some(TrapCode::BadSignature),
            4 => Some(TrapCode::NullReference),
            5 => Some(TrapCode::TableOutOfBounds),
            6 => Some(TrapCode::HeapMisaligned),
            7 => Some(TrapCode::NullI31Ref),
            8 => Some(TrapCode::DebugAssertion),
            9 => Some(TrapCode::Exit),
            _ => None,
        }
    }

    /// The trap with a number.
    pub fn from_user_number(number: u8) -> (r: Option<TrapCode>)
        ensures
            r == Self::spec_from_user_number(number),
    {
        match number {
            1 => Some(TrapCode::Unreachable),
            2 => Some(TrapCode::IndirectCallToNull),
            3 => Some(TrapCode::BadSignature),
            4 => Some(TrapCode::NullReference),
            5 => Some(TrapCode::TableOutOfBounds),
            6 => Some(TrapCode::HeapMisaligned),
            7 => Some(TrapCode::NullI31Ref),
            8 => Some(TrapCode::DebugAssertion),
            9 => Some(TrapCode::Exit),
            _ => None,
        }
    }
}

/// A number is that of a trap exactly if the trap is the one with the number.
pub proof fn trap_numbers_tell_traps_apart(trap: TrapCode, number: u8)
    ensures
        trap.spec_user_number() == Some(number) <==> TrapCode::spec_from_user_number(number)
            == Some(trap),
{
}

/// Conditions of integer comparisons.
#[derive(Debug, Clone, Copy, PartialEq, Eq, Structural)]
pub enum IntCC {
    Equal,
    NotEqual,
    SignedLessThan,
    SignedGreaterThanOrEqual,
    SignedGreaterThan,
    SignedLessThanOrEqual,
    UnsignedLessThan,
    UnsignedGreaterThanOrEqual,
    UnsignedGreaterThan,
    UnsignedLessThanOrEqual,
}

/// Conditions of floating-point comparisons.
#[derive(Debug, Clone, Copy, PartialEq, Eq, Structural)]
pub enum FloatCC {
    Equal,
    NotEqual,
    LessThan,
    LessThanOrEqual,
    GreaterThan,
    GreaterThanOrEqual,
}

/// Disjoint parts of memory that an access is known to stay in.
#[derive(Debug, Clone, Copy, PartialEq, Eq, Structural)]
pub enum AliasRegion {
    Heap,
    Table,
    Vmctx,
}

/// What is known of a memory access.
#[derive(Debug, Clone, Copy, PartialEq, Eq, Structural)]
pub struct MemFlags {
    pub aligned: bool,
    pub readonly: bool,
    pub little_endian: bool,
    pub checked: bool,
    pub region: Option<AliasRegion>,
    /// The trap that a failing access raises; `None` for an access that cannot fail.
    pub trap: Option<TrapCode>,
}

impl MemFlags {
    /// An access of which nothing is known.
    pub open spec fn spec_new() -> MemFlags {
        MemFlags {
            aligned: false,
            readonly: false,
            little_endian: false,
            checked: false,
            region: None,
            trap: Some(TrapCode::HeapOutOfBounds),
        }
    }

    /// An access of which nothing is known.
    pub fn new() -> (r: MemFlags)
        ensures
            r == MemFlags::spec_new(),
    {
        MemFlags {
            aligned: false,
            readonly: false,
            little_endian: false,
            checked: false,
            region: None,
            trap: Some(TrapCode::HeapOutOfBounds),
        }
    }

    /// An aligned access that cannot fail.
    pub open spec fn spec_trusted() -> MemFlags {
        MemFlags { aligned: true, trap: None, ..MemFlags::spec_new() }
    }

    /// An aligned access that cannot fail.
    pub fn trusted() -> (r: MemFlags)
        ensures
            r == MemFlags::spec_trusted(),
    {
        MemFlags::new().with_trap_code(None).with_aligned()
    }

    /// The same access, known to be aligned.
    pub open spec fn spec_with_aligned(self) -> MemFlags {
        MemFlags { aligned: true, ..self }
    }

    /// The same access, known to be aligned.
    pub fn with_aligned(self) -> (r: MemFlags)
        ensures
            r == self.spec_with_aligned(),
    {
        MemFlags { aligned: true, ..self }
    }

    /// The same access, to memory that does not change.
    pub open spec fn spec_with_readonly(self) -> MemFlags {
        MemFlags { readonly: true, ..self }
    }

    /// The same access, to memory that does not change.
    pub fn with_readonly(self) -> (r: MemFlags)
        ensures
            r == self.spec_with_readonly(),
    {
        MemFlags { readonly: true, ..self }
    }

    /// The same access, in little-endian byte order.
    pub open spec fn spec_with_little_endian(self) -> MemFlags {
        MemFlags { little_endian: true, ..self }
    }

    /// The same access, in little-endian byte order.
    pub fn with_little_endian(self) -> (r: MemFlags)
        ensures
            r == self.spec_with_little_endian(),
    {
        MemFlags { little_endian: true, ..self }
    }

    /// The same access, checked against its facts.
    pub open spec fn spec_with_checked(self) -> MemFlags {
        MemFlags { checked: true, ..self }
    }

    /// The same access, checked against its facts.
    pub fn with_checked(self) -> (r: MemFlags)
        ensures
            r == self.spec_with_checked(),
    {
        MemFlags { checked: true, ..self }
    }

    /// The same access, within a region.
    pub open spec fn spec_with_alias_region(self, region: Option<AliasRegion>) -> MemFlags {
        MemFlags { region, ..self }
    }

    /// The same access, within a region.
    pub fn with_alias_region(self, region: Option<AliasRegion>) -> (r: MemFlags)
        ensures
            r == self.spec_with_alias_region(region),
    {
        MemFlags { region, ..self }
    }

    /// The same access, raising a trap where it fails.
    pub open spec fn spec_with_trap_code(self, trap: Option<TrapCode>) -> MemFlags {
        MemFlags { trap, ..self }
    }

    /// The same access, raising a trap where it fails.
    pub fn with_trap_code(self, trap: Option<TrapCode>) -> (r: MemFlags)
        ensures
            r == self.spec_with_trap_code(trap),
    {
        MemFlags { trap, ..self }
    }
}

/// What an expression in a fact starts from.
#[derive(Debug, Clone, Copy, PartialEq, Eq, Structural)]
pub enum BaseExpr {
    Zero,
    GlobalValue(GlobalValue),
    Value(Value),
    Max,
}

/// A base and a constant offset.
#[derive(Debug, Clone, Copy, PartialEq, Eq, Structural)]
pub struct Expr {
    pub base: BaseExpr,
    pub offset: i64,
}

impl Expr {
    /// Exactly a value.
    pub open spec fn of_value(value: Value) -> Expr {
        Expr { base: BaseExpr::Value(value), offset: 0 }
    }

    /// Exactly a constant.
    pub open spec fn of_constant(offset: i64) -> Expr {
        Expr { base: BaseExpr::Zero, offset }
    }
}

/// What is known of a value when proofs accompany the code.
#[derive(Debug, Clone, Copy, PartialEq, Eq, Structural)]
pub enum Fact {
    /// An unsigned range.
    Range { bit_width: u16, min: u64, max: u64 },
    /// Exactly another value.
    Exactly { bit_width: u16, value: Value },
    /// A pointer into a region, at a bounded offset.
    Mem { ty: MemoryType, min_offset: u64, max_offset: u64, nullable: bool },
    /// A pointer into a region, at an offset between two expressions.
    DynamicMem { ty: MemoryType, min: Expr, max: Expr, nullable: bool },
    /// The definition of a symbol.
    Def { value: Value },
    /// The outcome of a comparison.
    Compare { kind: IntCC, lhs: Expr, rhs: Expr },
}

impl Fact {
    /// Exactly one number.
    pub open spec fn constant(bit_width: u16, value: u64) -> Fact {
        Fact::Range { bit_width, min: value, max: value }
    }

    /// A pointer to the start of a region.
    pub open spec fn base_of(ty: MemoryType) -> Fact {
        Fact::Mem { ty, min_offset: 0, max_offset: 0, nullable: false }
    }

    /// The other value that the value equals, where a fact gives one.
    pub open spec fn spec_as_symbol(self) -> Option<Value> {
        match self {
            Fact::Exactly { bit_width, value } => Some(value),
            _ => None,
        }
    }

    /// The other value that the value equals, where a fact gives one.
    pub fn as_symbol(self) -> (r: Option<Value>)
        ensures
            r == self.spec_as_symbol(),
    {
        match self {
            Fact::Exactly { bit_width, value } => Some(value),
            _ => None,
        }
    }

    /// The number that the value equals, where a fact of the given width gives one.
    pub open spec fn spec_as_const(self, bits: u16) -> Option<u64> {
        match self {
            Fact::Range { bit_width, min, max } => if bit_width == bits && min == max {
                Some(min)
            } else {
                None
            },
            _ => None,
        }
    }

    /// The number that the value equals, where a fact of the given width gives one.
    pub fn as_const(self, bits: u16) -> (r: Option<u64>)
        ensures
            r == self.spec_as_const(bits),
    {
        match self {
            Fact::Range { bit_width, min, max } => if bit_width == bits && min == max {
                Some(min)
            } else {
                None
            },
            _ => None,
        }
    }
}

/// A value: its type and what is known of it.
#[derive(Debug, Clone, Copy, PartialEq, Eq, Structural)]
pub struct ValueData {
    pub ty: Type,
    pub fact: Option<Fact>,
}

/// Instructions of one operand.
#[derive(Debug, Clone, Copy, PartialEq, Eq, Structural)]
pub enum UnaryOp {
    Clz,
    Ctz,
    Popcnt,
    Sqrt,
    Ceil,
    Floor,
    Trunc,
    Nearest,
    Fabs,
    Fneg,
    Ineg,
    Iabs,
    Bnot,
    VanyTrue,
    VallTrue,
    SwidenLow,
    SwidenHigh,
    UwidenLow,
    UwidenHigh,
    FvpromoteLow,
    Fvdemote,
    IsNull,
}

impl UnaryOp {
    /// The type of the result.
    pub open spec fn spec_result_type(self, arg: Type) -> Type {
        match self {
            UnaryOp::VanyTrue | UnaryOp::VallTrue | UnaryOp::IsNull => Type::I8,
            UnaryOp::SwidenLow | UnaryOp::SwidenHigh | UnaryOp::UwidenLow
            | UnaryOp::UwidenHigh => arg.spec_widened(),
            UnaryOp::FvpromoteLow => Type::F64X2,
            UnaryOp::Fvdemote => Type::F32X4,
            _ => arg,
        }
    }

    /// The type of the result.
    pub fn result_type(self, arg: Type) -> (r: Type)
        ensures
            r == self.spec_result_type(arg),
    {
        match self {
            UnaryOp::VanyTrue | UnaryOp::VallTrue | UnaryOp::IsNull => Type::I8,
            UnaryOp::SwidenLow | UnaryOp::SwidenHigh | UnaryOp::UwidenLow
            | UnaryOp::UwidenHigh => arg.widened(),
            UnaryOp::FvpromoteLow => Type::F64X2,
            UnaryOp::Fvdemote => Type::F32X4,
            _ => arg,
        }
    }
}

/// Instructions of one operand whose result type is chosen.
#[derive(Debug, Clone, Copy, PartialEq, Eq, Structural)]
pub enum ConvertOp {
    Ireduce,
    Sextend,
    Uextend,
    FcvtToSint,
    FcvtToUint,
    FcvtToSintSat,
    FcvtToUintSat,
    FcvtFromSint,
    FcvtFromUint,
    Fdemote,
    Fpromote,
    Splat,
    ScalarToVector,
    VhighBits,
    X86Cvtt2dq,
}

/// Instructions of two operands.
#[derive(Debug, Clone, Copy, PartialEq, Eq, Structural)]
pub enum BinaryOp {
    Iadd,
    Isub,
    Imul,
    Sdiv,
    Udiv,
    Srem,
    Urem,
    Band,
    Bor,
    Bxor,
    BandNot,
    Ishl,
    Sshr,
    Ushr,
    Rotl,
    Rotr,
    Fadd,
    Fsub,
    Fmul,
    Fdiv,
    Fmin,
    Fmax,
    Fcopysign,
    SaddSat,
    UaddSat,
    SsubSat,
    UsubSat,
    Smin,
    Umin,
    Smax,
    Umax,
    AvgRound,
    Swizzle,
    Snarrow,
    Unarrow,
    Uunarrow,
    IaddPairwise,
    SqmulRoundSat,
    X86Pshufb,
    X86Pmulhrsw,
    X86Pmaddubsw,
}

impl BinaryOp {
    /// The type of the result, by the type of the first operand.
    pub open spec fn spec_result_type(self, arg: Type) -> Type {
        match self {
            BinaryOp::Snarrow | BinaryOp::Unarrow | BinaryOp::Uunarrow => arg.spec_narrowed(),
            BinaryOp::X86Pmaddubsw => Type::I16X8,
            _ => arg,
        }
    }

    /// The type of the result, by the type of the first operand.
    pub fn result_type(self, arg: Type) -> (r: Type)
        ensures
            r == self.spec_result_type(arg),
    {
        match self {
            BinaryOp::Snarrow | BinaryOp::Unarrow | BinaryOp::Uunarrow => arg.narrowed(),
            BinaryOp::X86Pmaddubsw => Type::I16X8,
            _ => arg,
        }
    }
}

/// Instructions of one operand and a constant.
#[derive(Debug, Clone, Copy, PartialEq, Eq, Structural)]
pub enum ImmOp {
    IaddImm,
    ImulImm,
    BandImm,
    BorImm,
    IshlImm,
    SshrImm,
    UshrImm,
}

/// Instructions of three operands; their results have the type of the second.
#[derive(Debug, Clone, Copy, PartialEq, Eq, Structural)]
pub enum TernaryOp {
    Select,
    Bitselect,
    Fma,
    SelectSpectreGuard,
    X86Blendv,
}

/// Loads and stores.
#[derive(Debug, Clone, Copy, PartialEq, Eq, Structural)]
pub enum Opcode {
    Load,
    Uload8,
    Sload8,
    Uload16,
    Sload16,
    Uload32,
    Sload32,
    Uload8x8,
    Sload8x8,
    Uload16x4,
    Sload16x4,
    Uload32x2,
    Sload32x2,
    Store,
    Istore8,
    Istore16,
    Istore32,
}

/// An instruction with a fixed number of operands, or an operation on blocks and variables.
#[derive(Debug, Clone, Copy, PartialEq, Eq, Structural)]
pub enum Op {
    Unary { op: UnaryOp, arg: Value },
    Convert { op: ConvertOp, ty: Type, arg: Value },
    Bitcast { ty: Type, flags: MemFlags, arg: Value },
    Binary { op: BinaryOp, a: Value, b: Value },
    BinaryImm { op: ImmOp, arg: Value, imm: i64 },
    Ternary { op: TernaryOp, a: Value, b: Value, c: Value },
    IntCompare { cc: IntCC, a: Value, b: Value },
    IntCompareImm { cc: IntCC, arg: Value, imm: i64 },
    FloatCompare { cc: FloatCC, a: Value, b: Value },
    Iconst { ty: Type, imm: i64 },
    F32const { bits: u32 },
    F64const { bits: u64 },
    Vconst { ty: Type, bytes: u128 },
    Null { ty: Type },
    Load { op: Opcode, ty: Type, flags: MemFlags, addr: Value, offset: i32 },
    Store { op: Opcode, flags: MemFlags, val: Value, addr: Value, offset: i32 },
    ExtractLane { arg: Value, lane: u8 },
    InsertLane { a: Value, b: Value, lane: u8 },
    Shuffle { a: Value, b: Value, mask: u128 },
    UaddOverflowTrap { a: Value, b: Value, code: TrapCode },
    Trap { code: TrapCode },
    Trapz { arg: Value, code: TrapCode },
    Trapnz { arg: Value, code: TrapCode },
    GlobalAddress { ty: Type, gv: GlobalValue },
    StackSlot { bytes: u32 },
    StackAddress { ty: Type, slot: Inst },
    FramePointer { ty: Type },
    ReturnAddress { ty: Type },
    Fence,
    CreateBlock { block: Block },
    AppendBlockParam { block: Block, ty: Type },
    SwitchToBlock { block: Block },
    SealBlock { block: Block },
    ChangeJumpDestination { inst: Inst, from: Block, to: Block },
    UseVar { var: u32 },
    DefVar { var: u32, val: Value },
    SetValLabel { val: Value, label: u32 },
    LabelAlias { val: Value, of: Value },
}

/// One recorded step of a function.
pub enum Step {
    Op(Op),
    Jump { destination: Block, args: Vec<Value> },
    Brif {
        condition: Value,
        then_block: Block,
        then_args: Vec<Value>,
        else_block: Block,
        else_args: Vec<Value>,
    },
    BrTable { index: Value, default: Block, targets: Vec<Block> },
    Return { args: Vec<Value> },
    Call { callee: FuncRef, args: Vec<Value> },
    CallIndirect { signature: SigRef, callee: Value, args: Vec<Value> },
    ReturnCall { callee: FuncRef, args: Vec<Value> },
    ReturnCallIndirect { signature: SigRef, callee: Value, args: Vec<Value> },
}

/// A step, with its lists as sequences.
#[verifier::ext_equal]
pub enum StepModel {
    Op(Op),
    Jump { destination: Block, args: Seq<Value> },
    Brif {
        condition: Value,
        then_block: Block,
        then_args: Seq<Value>,
        else_block: Block,
        else_args: Seq<Value>,
    },
    BrTable { index: Value, default: Block, targets: Seq<Block> },
    Return { args: Seq<Value> },
    Call { callee: FuncRef, args: Seq<Value> },
    CallIndirect { signature: SigRef, callee: Value, args: Seq<Value> },
    ReturnCall { callee: FuncRef, args: Seq<Value> },
    ReturnCallIndirect { signature: SigRef, callee: Value, args: Seq<Value> },
}

impl View for Step {
    type V = StepModel;

    open spec fn view(&self) -> StepModel {
        match *self {
            Step::Op(op) => StepModel::Op(op),
            Step::Jump { destination, args } => StepModel::Jump { destination, args: args@ },
            Step::Brif { condition, then_block, then_args, else_block, else_args } => {
                StepModel::Brif {
                    condition,
                    then_block,
                    then_args: then_args@,
                    else_block,
                    else_args: else_args@,
                }
            },
            Step::BrTable { index, default, targets } => StepModel::BrTable {
                index,
                default,
                targets: targets@,
            },
            Step::Return { args } => StepModel::Return { args: args@ },
            Step::Call { callee, args } => StepModel::Call { callee, args: args@ },
            Step::CallIndirect { signature, callee, args } => StepModel::CallIndirect {
                signature,
                callee,
                args: args@,
            },
            Step::ReturnCall { callee, args } => StepModel::ReturnCall { callee, args: args@ },
            Step::ReturnCallIndirect { signature, callee, args } => StepModel::ReturnCallIndirect {
                signature,
                callee,
                args: args@,
            },
        }
    }
}

/// What a parameter or return value is for.
#[derive(Debug, Clone, Copy, PartialEq, Eq, Structural)]
pub enum ArgumentPurpose {
    Normal,
    VMContext,
}

/// A parameter or return value of a function.
#[derive(Debug, Clone, Copy, PartialEq, Eq, Structural)]
pub struct AbiParam {
    pub ty: Type,
    pub purpose: ArgumentPurpose,
}

/// The parameters and return values of a function.
pub struct Signature {
    pub params: Vec<AbiParam>,
    pub returns: Vec<AbiParam>,
}

/// A signature as sequences.
#[verifier::ext_equal]
pub struct SignatureModel {
    pub params: Seq<AbiParam>,
    pub returns: Seq<AbiParam>,
}

impl View for Signature {
    type V = SignatureModel;

    open spec fn view(&self) -> SignatureModel {
        SignatureModel { params: self.params@, returns: self.returns@ }
    }
}

/// A function that can be called directly, named by a namespace and an index.
#[derive(Debug, Clone, Copy, PartialEq, Eq, Structural)]
pub struct ExtFuncData {
    pub namespace: u32,
    pub index: u32,
    pub signature: SigRef,
    pub colocated: bool,
}

/// How a global value is found.
#[derive(Debug, Clone, Copy, PartialEq, Eq, Structural)]
pub enum GlobalValueData {
    /// The address of the context.
    VMContext,
    /// Loaded from another global value.
    Load { base: GlobalValue, offset: i32, global_type: Type, flags: MemFlags },
}

/// A global value and what is known of it.
#[derive(Debug, Clone, Copy, PartialEq, Eq, Structural)]
pub struct GlobalValueEntry {
    pub data: GlobalValueData,
    pub fact: Option<Fact>,
}

/// A pointer field of a region of memory.
#[derive(Debug, Clone, Copy, PartialEq, Eq, Structural)]
pub struct MemoryTypeField {
    pub offset: u64,
    pub ty: Type,
    pub readonly: bool,
    pub fact: Option<Fact>,
}

/// A description of a region of memory.
pub enum MemoryTypeData {
    Struct { size: u64, fields: Vec<MemoryTypeField> },
    Memory { size: u64 },
}

/// A description of a region, with its fields as a sequence.
#[verifier::ext_equal]
pub enum MemoryTypeModel {
    Struct { size: u64, fields: Seq<MemoryTypeField> },
    Memory { size: u64 },
}

impl View for MemoryTypeData {
    type V = MemoryTypeModel;

    open spec fn view(&self) -> MemoryTypeModel {
        match *self {
            MemoryTypeData::Struct { size, fields } => MemoryTypeModel::Struct {
                size,
                fields: fields@,
            },
            MemoryTypeData::Memory { size } => MemoryTypeModel::Memory { size },
        }
    }
}

} // verus!
