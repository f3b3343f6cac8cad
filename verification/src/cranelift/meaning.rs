//! What recorded code does when it runs.
//!
//! Values are bit patterns. What is not settled here (the arithmetic of floats, the contents of
//! memory, the address of the context) is a parameter of every statement.
use crate::builder::Code;
use crate::cranelift::bits::{
    both, clamped, count, differing, either, greatest, inverted, joined, lane, lanes,
    leading_zeros, least, magnitude, ones, quotient, remainder, rotated_down, rotated_up,
    shifted_down, shifted_down_signed, shifted_up, signed, trailing_zeros, truth, wrap,
};
use crate::ir::{
    BinaryOp, Block, ConvertOp, FloatCC, FuncRef, GlobalValue, GlobalValueData, GlobalValueEntry,
    ImmOp, IntCC, MemFlags, Op, Opcode, SigRef, StepModel, TernaryOp, TrapCode, Type, UnaryOp,
    Value,
};
use vstd::arithmetic::power2::pow2;
use vstd::prelude::*;

verus! {

/// The whole number that a float is when its fraction is dropped.
#[verifier::ext_equal]
pub enum Integral {
    Number(int),
    Infinite { negative: bool },
    NotANumber,
}

/// An arithmetic of floats, given as patterns of a width.
pub struct Floats {
    pub sum: spec_fn(nat, int, int) -> int,
    pub difference: spec_fn(nat, int, int) -> int,
    pub product: spec_fn(nat, int, int) -> int,
    pub quotient: spec_fn(nat, int, int) -> int,
    pub minimum: spec_fn(nat, int, int) -> int,
    pub maximum: spec_fn(nat, int, int) -> int,
    /// The first times the second plus the third, rounded once.
    pub fused: spec_fn(nat, int, int, int) -> int,
    pub root: spec_fn(nat, int) -> int,
    pub ceiling: spec_fn(nat, int) -> int,
    pub floor: spec_fn(nat, int) -> int,
    pub truncated: spec_fn(nat, int) -> int,
    pub nearest: spec_fn(nat, int) -> int,
    pub equal: spec_fn(nat, int, int) -> bool,
    pub less: spec_fn(nat, int, int) -> bool,
    pub integral: spec_fn(nat, int) -> Integral,
    /// The float nearest to a number.
    pub of_integer: spec_fn(nat, int) -> int,
    /// From 64 bits to 32.
    pub demoted: spec_fn(int) -> int,
    /// From 32 bits to 64.
    pub promoted: spec_fn(int) -> int,
}

/// A float with the sign bit flipped.
#[verifier::opaque]
pub open spec fn negated(n: nat, a: int) -> int {
    wrap(n, a + pow2((n - 1) as nat))
}

/// A float with the sign bit cleared.
#[verifier::opaque]
pub open spec fn unsigned(n: nat, a: int) -> int {
    wrap((n - 1) as nat, a)
}

/// A float with the sign bit of another.
#[verifier::opaque]
pub open spec fn with_sign_of(n: nat, a: int, b: int) -> int {
    unsigned(n, a) + (if b >= pow2((n - 1) as nat) {
        pow2((n - 1) as nat) as int
    } else {
        0
    })
}

/// A whole number as a pattern, unless it lies outside a range.
#[verifier::opaque]
pub open spec fn within(n: nat, low: int, high: int, x: Integral) -> Result<int, TrapCode> {
    match x {
        Integral::NotANumber => Err(TrapCode::BadConversionToInteger),
        Integral::Infinite { .. } => Err(TrapCode::IntegerOverflow),
        Integral::Number(x) => if low <= x <= high {
            Ok(wrap(n, x))
        } else {
            Err(TrapCode::IntegerOverflow)
        },
    }
}

/// A whole number as a pattern, with the ends of a range for what lies outside.
#[verifier::opaque]
pub open spec fn saturated(n: nat, low: int, high: int, x: Integral) -> int {
    match x {
        Integral::NotANumber => 0,
        Integral::Infinite { negative: true } => wrap(n, low),
        Integral::Infinite { negative: false } => wrap(n, high),
        Integral::Number(x) => wrap(n, clamped(low, high, x)),
    }
}

impl Type {
    /// The width of a lane; of all, where there are no lanes.
    pub open spec fn lane_bits(self) -> nat {
        match self {
            Type::I8 | Type::I8X16 => 8,
            Type::I16 | Type::I16X8 => 16,
            Type::I32 | Type::F32 | Type::R32 | Type::I32X4 | Type::F32X4 => 32,
            Type::I64 | Type::F64 | Type::R64 | Type::I64X2 | Type::F64X2 => 64,
        }
    }

    /// Whether the type has lanes.
    pub open spec fn has_lanes(self) -> bool {
        match self {
            Type::I8X16 | Type::I16X8 | Type::I32X4 | Type::I64X2 | Type::F32X4 | Type::F64X2 => true,
            _ => false,
        }
    }

    /// The width.
    pub open spec fn width(self) -> nat {
        if self.has_lanes() {
            128
        } else {
            self.lane_bits()
        }
    }
}

impl UnaryOp {
    /// The instruction on one lane of `n` bits.
    pub open spec fn on_lane(self, f: Floats, n: nat, a: int) -> int {
        match self {
            UnaryOp::Clz => leading_zeros(n, a),
            UnaryOp::Ctz => trailing_zeros(n, a),
            UnaryOp::Popcnt => ones(n, a),
            UnaryOp::Sqrt => (f.root)(n, a),
            UnaryOp::Ceil => (f.ceiling)(n, a),
            UnaryOp::Floor => (f.floor)(n, a),
            UnaryOp::Trunc => (f.truncated)(n, a),
            UnaryOp::Nearest => (f.nearest)(n, a),
            UnaryOp::Fabs => unsigned(n, a),
            UnaryOp::Fneg => negated(n, a),
            UnaryOp::Ineg => wrap(n, -a),
            UnaryOp::Iabs => wrap(n, magnitude(signed(n, a))),
            UnaryOp::Bnot => inverted(n, a),
            _ => a,
        }
    }

    /// The instruction on an operand.
    pub open spec fn meaning(self, f: Floats, ty: Type, a: int) -> int {
        let n = ty.lane_bits();
        let half = count(n) / 2;
        match self {
            UnaryOp::IsNull => truth(a == 0),
            UnaryOp::VanyTrue => truth(a != 0),
            UnaryOp::VallTrue => truth(forall|i: int| 0 <= i < count(n) ==> lane(n, a, i) != 0),
            UnaryOp::SwidenLow => joined(
                2 * n,
                Seq::new(half, |i: int| wrap(2 * n, signed(n, lane(n, a, i)))),
            ),
            UnaryOp::SwidenHigh => joined(
                2 * n,
                Seq::new(half, |i: int| wrap(2 * n, signed(n, lane(n, a, half + i)))),
            ),
            UnaryOp::UwidenLow => joined(2 * n, Seq::new(half, |i: int| lane(n, a, i))),
            UnaryOp::UwidenHigh => joined(2 * n, Seq::new(half, |i: int| lane(n, a, half + i))),
            UnaryOp::FvpromoteLow => joined(
                64,
                Seq::new(2, |i: int| (f.promoted)(lane(32, a, i))),
            ),
            UnaryOp::Fvdemote => joined(
                32,
                Seq::new(
                    4,
                    |i: int|
                        if i < 2 {
                            (f.demoted)(lane(64, a, i))
                        } else {
                            0
                        },
                ),
            ),
            _ => if ty.has_lanes() {
                joined(n, Seq::new(count(n), |i: int| self.on_lane(f, n, lane(n, a, i))))
            } else {
                self.on_lane(f, n, a)
            },
        }
    }
}

impl ConvertOp {
    /// The instruction on an operand.
    pub open spec fn meaning(self, f: Floats, from: Type, to: Type, a: int) -> Result<
        int,
        TrapCode,
    > {
        let n = from.lane_bits();
        let k = to.lane_bits();
        match self {
            ConvertOp::Ireduce => Ok(wrap(k, a)),
            ConvertOp::Sextend => Ok(wrap(k, signed(n, a))),
            ConvertOp::Uextend => Ok(a),
            ConvertOp::FcvtToSint => within(k, least(k), greatest(k), (f.integral)(n, a)),
            ConvertOp::FcvtToUint => within(k, 0, pow2(k) - 1, (f.integral)(n, a)),
            ConvertOp::Fdemote => Ok((f.demoted)(a)),
            ConvertOp::Fpromote => Ok((f.promoted)(a)),
            ConvertOp::Splat => Ok(joined(k, Seq::new(count(k), |i: int| a))),
            ConvertOp::ScalarToVector => Ok(a),
            ConvertOp::VhighBits => Ok(
                joined(
                    1,
                    Seq::new(
                        count(n),
                        |i: int| truth(lane(n, a, i) >= pow2((n - 1) as nat)),
                    ),
                ),
            ),
            _ => if from.has_lanes() {
                Ok(joined(k, Seq::new(count(k), |i: int| self.on_lane(f, n, k, lane(n, a, i)))))
            } else {
                Ok(self.on_lane(f, n, k, a))
            },
        }
    }

    /// The instruction on one lane of `n` bits, for a result of `k` bits.
    pub open spec fn on_lane(self, f: Floats, n: nat, k: nat, a: int) -> int {
        match self {
            ConvertOp::FcvtToSintSat => saturated(k, least(k), greatest(k), (f.integral)(n, a)),
            ConvertOp::FcvtToUintSat => saturated(k, 0, pow2(k) - 1, (f.integral)(n, a)),
            ConvertOp::FcvtFromSint => (f.of_integer)(k, signed(n, a)),
            ConvertOp::FcvtFromUint => (f.of_integer)(k, a),
            ConvertOp::X86Cvtt2dq => match within(k, least(k), greatest(k), (f.integral)(n, a)) {
                Ok(x) => x,
                Err(_) => wrap(k, least(k)),
            },
            _ => a,
        }
    }
}

impl BinaryOp {
    /// The instruction on one lane of `n` bits.
    pub open spec fn on_lanes(self, f: Floats, n: nat, a: int, b: int) -> int {
        match self {
            BinaryOp::Iadd => wrap(n, a + b),
            BinaryOp::Isub => wrap(n, a - b),
            BinaryOp::Imul => wrap(n, a * b),
            BinaryOp::Band => both(a, b),
            BinaryOp::Bor => either(a, b),
            BinaryOp::Bxor => differing(a, b),
            BinaryOp::BandNot => both(a, inverted(n, b)),
            BinaryOp::Ishl => shifted_up(n, a, b),
            BinaryOp::Sshr => shifted_down_signed(n, a, b),
            BinaryOp::Ushr => shifted_down(n, a, b),
            BinaryOp::Rotl => rotated_up(n, a, b),
            BinaryOp::Rotr => rotated_down(n, a, b),
            BinaryOp::Fadd => (f.sum)(n, a, b),
            BinaryOp::Fsub => (f.difference)(n, a, b),
            BinaryOp::Fmul => (f.product)(n, a, b),
            BinaryOp::Fdiv => (f.quotient)(n, a, b),
            BinaryOp::Fmin => (f.minimum)(n, a, b),
            BinaryOp::Fmax => (f.maximum)(n, a, b),
            BinaryOp::Fcopysign => with_sign_of(n, a, b),
            BinaryOp::SaddSat => wrap(
                n,
                clamped(least(n), greatest(n), signed(n, a) + signed(n, b)),
            ),
            BinaryOp::UaddSat => clamped(0, pow2(n) - 1, a + b),
            BinaryOp::SsubSat => wrap(
                n,
                clamped(least(n), greatest(n), signed(n, a) - signed(n, b)),
            ),
            BinaryOp::UsubSat => clamped(0, pow2(n) - 1, a - b),
            BinaryOp::Smin => if signed(n, a) < signed(n, b) {
                a
            } else {
                b
            },
            BinaryOp::Umin => if a < b {
                a
            } else {
                b
            },
            BinaryOp::Smax => if signed(n, a) > signed(n, b) {
                a
            } else {
                b
            },
            BinaryOp::Umax => if a > b {
                a
            } else {
                b
            },
            BinaryOp::AvgRound => (a + b + 1) / 2,
            BinaryOp::SqmulRoundSat => wrap(
                n,
                clamped(
                    least(n),
                    greatest(n),
                    (signed(n, a) * signed(n, b) + pow2((n - 2) as nat)) / (pow2(
                        (n - 1) as nat,
                    ) as int),
                ),
            ),
            BinaryOp::X86Pmulhrsw => wrap(
                n,
                (signed(n, a) * signed(n, b) + pow2((n - 2) as nat)) / (pow2(
                    (n - 1) as nat,
                ) as int),
            ),
            _ => a,
        }
    }

    /// The instruction on operands of a type; the amount of a shift is one number for all lanes.
    pub open spec fn meaning(self, f: Floats, ty: Type, a: int, b: int) -> Result<int, TrapCode> {
        let n = ty.lane_bits();
        let half = n / 2;
        let x = signed(n, a);
        let y = signed(n, b);
        match self {
            BinaryOp::Sdiv => if b == 0 {
                Err(TrapCode::IntegerDivisionByZero)
            } else if x == least(n) && y == -1 {
                Err(TrapCode::IntegerOverflow)
            } else {
                Ok(wrap(n, quotient(x, y)))
            },
            BinaryOp::Udiv => if b == 0 {
                Err(TrapCode::IntegerDivisionByZero)
            } else {
                Ok(a / b)
            },
            BinaryOp::Srem => if b == 0 {
                Err(TrapCode::IntegerDivisionByZero)
            } else {
                Ok(wrap(n, remainder(x, y)))
            },
            BinaryOp::Urem => if b == 0 {
                Err(TrapCode::IntegerDivisionByZero)
            } else {
                Ok(a % b)
            },
            BinaryOp::Swizzle => Ok(
                joined(
                    8,
                    Seq::new(
                        16,
                        |i: int|
                            if lane(8, b, i) < 16 {
                                lane(8, a, lane(8, b, i))
                            } else {
                                0
                            },
                    ),
                ),
            ),
            BinaryOp::X86Pshufb => Ok(
                joined(
                    8,
                    Seq::new(
                        16,
                        |i: int|
                            if lane(8, b, i) < 128 {
                                lane(8, a, lane(8, b, i) % 16)
                            } else {
                                0
                            },
                    ),
                ),
            ),
            BinaryOp::Snarrow => Ok(
                joined(
                    half,
                    Seq::new(
                        2 * count(n),
                        |i: int|
                            wrap(
                                half,
                                clamped(
                                    least(half),
                                    greatest(half),
                                    signed(n, lane_of_both(n, a, b, i)),
                                ),
                            ),
                    ),
                ),
            ),
            BinaryOp::Unarrow => Ok(
                joined(
                    half,
                    Seq::new(
                        2 * count(n),
                        |i: int|
                            clamped(0, pow2(half) - 1, signed(n, lane_of_both(n, a, b, i))),
                    ),
                ),
            ),
            BinaryOp::Uunarrow => Ok(
                joined(
                    half,
                    Seq::new(
                        2 * count(n),
                        |i: int| clamped(0, pow2(half) - 1, lane_of_both(n, a, b, i)),
                    ),
                ),
            ),
            BinaryOp::IaddPairwise => Ok(
                joined(
                    n,
                    Seq::new(
                        count(n),
                        |i: int|
                            wrap(
                                n,
                                lane_of_both(n, a, b, 2 * i) + lane_of_both(n, a, b, 2 * i + 1),
                            ),
                    ),
                ),
            ),
            BinaryOp::X86Pmaddubsw => Ok(
                joined(
                    16,
                    Seq::new(
                        8,
                        |i: int|
                            wrap(
                                16,
                                clamped(
                                    least(16),
                                    greatest(16),
                                    signed(8, lane(8, a, 2 * i)) * lane(8, b, 2 * i) + signed(
                                        8,
                                        lane(8, a, 2 * i + 1),
                                    ) * lane(8, b, 2 * i + 1),
                                ),
                            ),
                    ),
                ),
            ),
            BinaryOp::Ishl | BinaryOp::Sshr | BinaryOp::Ushr => if ty.has_lanes() {
                Ok(
                    joined(
                        n,
                        Seq::new(count(n), |i: int| self.on_lanes(f, n, lane(n, a, i), b)),
                    ),
                )
            } else {
                Ok(self.on_lanes(f, n, a, b))
            },
            _ => if ty.has_lanes() {
                Ok(
                    joined(
                        n,
                        Seq::new(
                            count(n),
                            |i: int| self.on_lanes(f, n, lane(n, a, i), lane(n, b, i)),
                        ),
                    ),
                )
            } else {
                Ok(self.on_lanes(f, n, a, b))
            },
        }
    }
}

/// A lane of two vectors, of which the second one's lanes are numbered behind the first one's.
pub open spec fn lane_of_both(n: nat, a: int, b: int, i: int) -> int {
    if i < count(n) {
        lane(n, a, i)
    } else {
        lane(n, b, i - count(n))
    }
}

impl ImmOp {
    /// The instruction on an operand of `n` bits and a constant.
    pub open spec fn meaning(self, n: nat, a: int, imm: int) -> int {
        match self {
            ImmOp::IaddImm => wrap(n, a + imm),
            ImmOp::ImulImm => wrap(n, a * imm),
            ImmOp::BandImm => both(a, wrap(n, imm)),
            ImmOp::BorImm => either(a, wrap(n, imm)),
            ImmOp::IshlImm => shifted_up(n, a, imm),
            ImmOp::SshrImm => shifted_down_signed(n, a, imm),
            ImmOp::UshrImm => shifted_down(n, a, imm),
        }
    }
}

impl IntCC {
    /// Whether the condition holds of two patterns of `n` bits.
    pub open spec fn holds(self, n: nat, a: int, b: int) -> bool {
        match self {
            IntCC::Equal => a == b,
            IntCC::NotEqual => a != b,
            IntCC::SignedLessThan => signed(n, a) < signed(n, b),
            IntCC::SignedGreaterThanOrEqual => signed(n, a) >= signed(n, b),
            IntCC::SignedGreaterThan => signed(n, a) > signed(n, b),
            IntCC::SignedLessThanOrEqual => signed(n, a) <= signed(n, b),
            IntCC::UnsignedLessThan => a < b,
            IntCC::UnsignedGreaterThanOrEqual => a >= b,
            IntCC::UnsignedGreaterThan => a > b,
            IntCC::UnsignedLessThanOrEqual => a <= b,
        }
    }
}

impl FloatCC {
    /// Whether the condition holds of two floats of `n` bits.
    pub open spec fn holds(self, f: Floats, n: nat, a: int, b: int) -> bool {
        match self {
            FloatCC::Equal => (f.equal)(n, a, b),
            FloatCC::NotEqual => !(f.equal)(n, a, b),
            FloatCC::LessThan => (f.less)(n, a, b),
            FloatCC::LessThanOrEqual => (f.less)(n, a, b) || (f.equal)(n, a, b),
            FloatCC::GreaterThan => (f.less)(n, b, a),
            FloatCC::GreaterThanOrEqual => (f.less)(n, b, a) || (f.equal)(n, a, b),
        }
    }
}

/// All ones in a lane of `n` bits where a condition holds, else zeros.
pub open spec fn mask(n: nat, holds: bool) -> int {
    if holds {
        pow2(n) - 1
    } else {
        0
    }
}

/// A comparison of integers: a truth value, or a mask for each lane.
pub open spec fn compared_integers(cc: IntCC, ty: Type, a: int, b: int) -> int {
    let n = ty.lane_bits();
    if ty.has_lanes() {
        joined(
            n,
            Seq::new(count(n), |i: int| mask(n, cc.holds(n, lane(n, a, i), lane(n, b, i)))),
        )
    } else {
        truth(cc.holds(n, a, b))
    }
}

/// A comparison of floats: a truth value, or a mask for each lane.
pub open spec fn compared_floats(f: Floats, cc: FloatCC, ty: Type, a: int, b: int) -> int {
    let n = ty.lane_bits();
    if ty.has_lanes() {
        joined(
            n,
            Seq::new(count(n), |i: int| mask(n, cc.holds(f, n, lane(n, a, i), lane(n, b, i)))),
        )
    } else {
        truth(cc.holds(f, n, a, b))
    }
}

impl TernaryOp {
    /// The instruction on operands, of which the second has a type.
    pub open spec fn meaning(self, f: Floats, ty: Type, a: int, b: int, c: int) -> int {
        let n = ty.lane_bits();
        match self {
            TernaryOp::Select | TernaryOp::SelectSpectreGuard => if a != 0 {
                b
            } else {
                c
            },
            TernaryOp::Bitselect => if ty.has_lanes() {
                joined(
                    n,
                    Seq::new(
                        count(n),
                        |i: int|
                            either(
                                both(lane(n, b, i), lane(n, a, i)),
                                both(lane(n, c, i), inverted(n, lane(n, a, i))),
                            ),
                    ),
                )
            } else {
                either(both(b, a), both(c, inverted(n, a)))
            },
            TernaryOp::Fma => if ty.has_lanes() {
                joined(
                    n,
                    Seq::new(
                        count(n),
                        |i: int| (f.fused)(n, lane(n, a, i), lane(n, b, i), lane(n, c, i)),
                    ),
                )
            } else {
                (f.fused)(n, a, b, c)
            },
            TernaryOp::X86Blendv => joined(
                n,
                Seq::new(
                    count(n),
                    |i: int|
                        if lane(n, a, i) >= pow2((n - 1) as nat) {
                            lane(n, b, i)
                        } else {
                            lane(n, c, i)
                        },
                ),
            ),
        }
    }
}

/// The bytes of memory, at the addresses that can be accessed.
pub type Memory = Map<int, int>;

/// Whether all of `k` bytes can be accessed.
pub open spec fn accessible(memory: Memory, address: int, k: nat) -> bool {
    forall|i: int| address <= i < address + k ==> #[trigger] memory.dom().contains(i)
}

/// The number that `k` bytes are, the lowest byte first.
pub open spec fn fetched(memory: Memory, address: int, k: nat) -> int
    decreases k,
{
    if k == 0 {
        0
    } else {
        memory[address] + 256 * fetched(memory, address + 1, (k - 1) as nat)
    }
}

/// The memory with the low `k` bytes of a pattern, the lowest byte first.
pub open spec fn written(memory: Memory, address: int, k: nat, bits: int) -> Memory
    decreases k,
{
    if k == 0 {
        memory
    } else {
        written(memory.insert(address, bits % 256), address + 1, (k - 1) as nat, bits / 256)
    }
}

impl Opcode {
    /// The number of bytes that are accessed, for a value of a type.
    pub open spec fn bytes(self, ty: Type) -> nat {
        match self {
            Opcode::Load | Opcode::Store => ty.width() / 8,
            Opcode::Uload8 | Opcode::Sload8 | Opcode::Istore8 => 1,
            Opcode::Uload16 | Opcode::Sload16 | Opcode::Istore16 => 2,
            Opcode::Uload32 | Opcode::Sload32 | Opcode::Istore32 => 4,
            Opcode::Uload8x8 | Opcode::Sload8x8 | Opcode::Uload16x4 | Opcode::Sload16x4
            | Opcode::Uload32x2 | Opcode::Sload32x2 => 8,
        }
    }

    /// The value that a load makes of the number that it found.
    pub open spec fn extended(self, ty: Type, x: int) -> int {
        let n = ty.width();
        let k = ty.lane_bits();
        let half = k / 2;
        match self {
            Opcode::Sload8 => wrap(n, signed(8, x)),
            Opcode::Sload16 => wrap(n, signed(16, x)),
            Opcode::Sload32 => wrap(n, signed(32, x)),
            Opcode::Uload8x8 | Opcode::Uload16x4 | Opcode::Uload32x2 => joined(
                k,
                Seq::new(count(k), |i: int| lane(half, x, i)),
            ),
            Opcode::Sload8x8 | Opcode::Sload16x4 | Opcode::Sload32x2 => joined(
                k,
                Seq::new(count(k), |i: int| wrap(k, signed(half, lane(half, x, i)))),
            ),
            _ => x,
        }
    }
}

/// What is settled before code runs.
pub struct Machine {
    /// The arithmetic of floats.
    pub floats: Floats,
    /// The global values that the code has declared.
    pub gvs: Seq<GlobalValueEntry>,
    /// The address of the context.
    pub vmctx: int,
    /// The width of addresses.
    pub pointer: nat,
    /// What operations on the frame of the function answer.
    pub frame: spec_fn(Op) -> int,
}

impl Machine {
    /// The number that a global value is.
    pub open spec fn global(self, memory: Memory, gv: GlobalValue) -> int
        decreases gv.0,
    {
        match self.gvs[gv.0 as int].data {
            GlobalValueData::VMContext => self.vmctx,
            GlobalValueData::Load { base, offset, global_type, .. } => if base.0 < gv.0 {
                fetched(
                    memory,
                    wrap(self.pointer, self.global(memory, base) + offset),
                    global_type.width() / 8,
                )
            } else {
                0
            },
        }
    }
}

/// A value at run time.
#[verifier::ext_equal]
pub struct Datum {
    pub ty: Type,
    pub bits: int,
}

/// The state of a run.
#[verifier::ext_equal]
pub struct Moment {
    /// The values, by their numbers.
    pub values: Seq<Datum>,
    /// The parameters of all blocks.
    pub blocks: Seq<Seq<Value>>,
    /// The variables.
    pub vars: Map<u32, Datum>,
    pub memory: Memory,
}

impl Moment {
    /// A value.
    pub open spec fn at(self, v: Value) -> Datum {
        self.values[v.0 as int]
    }

    /// The pattern of a value.
    pub open spec fn bits(self, v: Value) -> int {
        self.values[v.0 as int].bits
    }

    /// The patterns of values.
    pub open spec fn all(self, vs: Seq<Value>) -> Seq<int> {
        Seq::new(vs.len(), |i: int| self.bits(vs[i]))
    }

    /// One value more.
    pub open spec fn with(self, ty: Type, bits: int) -> Moment {
        Moment { values: self.values.push(Datum { ty, bits }), ..self }
    }

    /// The parameters of a block, given their values.
    pub open spec fn entered(self, block: Block, args: Seq<int>) -> Moment {
        Moment {
            values: Seq::new(
                self.values.len(),
                |v: int|
                    {
                        let params = self.blocks[block.0 as int];
                        let i = params.index_of(Value(v as usize));
                        if params.contains(Value(v as usize)) && i < args.len() {
                            Datum { ty: self.values[v].ty, bits: args[i] }
                        } else {
                            self.values[v]
                        }
                    },
            ),
            ..self
        }
    }

    /// One block more.
    pub open spec fn block_created(self) -> Moment {
        Moment { blocks: self.blocks.push(Seq::empty()), ..self }
    }

    /// One block parameter more, which has no value before control arrives.
    pub open spec fn param_appended(self, block: Block, ty: Type) -> Moment {
        Moment {
            values: self.values.push(Datum { ty, bits: 0 }),
            blocks: self.blocks.update(
                block.0 as int,
                self.blocks[block.0 as int].push(Value(self.values.len() as usize)),
            ),
            ..self
        }
    }
}

/// Where control is.
#[verifier::ext_equal]
pub enum Flow {
    /// At the end of the steps.
    On(Moment),
    /// On the way to a block that the steps have not switched to since.
    Left { block: Block, args: Seq<int>, moment: Moment },
    /// Stopped by a trap.
    Trapped(TrapCode),
    /// Returned to the caller.
    Returned(Seq<int>),
    /// In a function that was called.
    Called { callee: FuncRef, args: Seq<int>, moment: Moment },
    /// In a function that was called by its address.
    CalledIndirect { signature: SigRef, callee: int, args: Seq<int>, moment: Moment },
    /// In a function that was called and returns in place of this one.
    Replaced { callee: FuncRef, args: Seq<int> },
    /// In a function that was called by its address and returns in place of this one.
    ReplacedIndirect { signature: SigRef, callee: int, args: Seq<int> },
    /// Nowhere that is known: an access to memory was bad that was said to be good.
    Lost,
}

/// A value more, or a trap.
pub open spec fn yielding(s: Moment, ty: Type, result: Result<int, TrapCode>) -> Flow {
    match result {
        Ok(bits) => Flow::On(s.with(ty, bits)),
        Err(code) => Flow::Trapped(code),
    }
}

/// What a bad access does.
pub open spec fn faulted(flags: MemFlags) -> Flow {
    match flags.trap {
        Some(code) => Flow::Trapped(code),
        None => Flow::Lost,
    }
}

/// What an operation does.
#[verifier::opaque]
pub open spec fn performed(m: Machine, op: Op, s: Moment) -> Flow {
    let f = m.floats;
    match op {
        Op::Unary { op, arg } => {
            let ty = s.at(arg).ty;
            Flow::On(s.with(op.spec_result_type(ty), op.meaning(f, ty, s.bits(arg))))
        },
        Op::Convert { op, ty, arg } => yielding(
            s,
            ty,
            op.meaning(f, s.at(arg).ty, ty, s.bits(arg)),
        ),
        Op::Bitcast { ty, flags: _, arg } => Flow::On(s.with(ty, s.bits(arg))),
        Op::Binary { op, a, b } => {
            let ty = s.at(a).ty;
            yielding(s, op.spec_result_type(ty), op.meaning(f, ty, s.bits(a), s.bits(b)))
        },
        Op::BinaryImm { op, arg, imm } => {
            let ty = s.at(arg).ty;
            Flow::On(s.with(ty, op.meaning(ty.lane_bits(), s.bits(arg), imm as int)))
        },
        Op::Ternary { op, a, b, c } => {
            let ty = s.at(b).ty;
            Flow::On(s.with(ty, op.meaning(f, ty, s.bits(a), s.bits(b), s.bits(c))))
        },
        Op::IntCompare { cc, a, b } => {
            let ty = s.at(a).ty;
            Flow::On(
                s.with(
                    ty.spec_as_truthy(),
                    compared_integers(cc, ty, s.bits(a), s.bits(b)),
                ),
            )
        },
        Op::IntCompareImm { cc, arg, imm } => {
            let ty = s.at(arg).ty;
            Flow::On(
                s.with(
                    ty.spec_as_truthy(),
                    compared_integers(cc, ty, s.bits(arg), wrap(ty.lane_bits(), imm as int)),
                ),
            )
        },
        Op::FloatCompare { cc, a, b } => {
            let ty = s.at(a).ty;
            Flow::On(
                s.with(
                    ty.spec_as_truthy(),
                    compared_floats(f, cc, ty, s.bits(a), s.bits(b)),
                ),
            )
        },
        Op::Iconst { ty, imm } => Flow::On(s.with(ty, wrap(ty.width(), imm as int))),
        Op::F32const { bits } => Flow::On(s.with(Type::F32, bits as int)),
        Op::F64const { bits } => Flow::On(s.with(Type::F64, bits as int)),
        Op::Vconst { ty, bytes } => Flow::On(s.with(ty, bytes as int)),
        Op::Null { ty } => Flow::On(s.with(ty, 0)),
        Op::Load { op, ty, flags, addr, offset } => {
            let address = wrap(m.pointer, s.bits(addr) + offset);
            if accessible(s.memory, address, op.bytes(ty)) {
                Flow::On(
                    s.with(ty, op.extended(ty, fetched(s.memory, address, op.bytes(ty)))),
                )
            } else {
                faulted(flags)
            }
        },
        Op::Store { op, flags, val, addr, offset } => {
            let address = wrap(m.pointer, s.bits(addr) + offset);
            let k = op.bytes(s.at(val).ty);
            if accessible(s.memory, address, k) {
                Flow::On(Moment { memory: written(s.memory, address, k, s.bits(val)), ..s })
            } else {
                faulted(flags)
            }
        },
        Op::ExtractLane { arg, lane: i } => {
            let ty = s.at(arg).ty;
            Flow::On(
                s.with(ty.spec_lane_type(), lane(ty.lane_bits(), s.bits(arg), i as int)),
            )
        },
        Op::InsertLane { a, b, lane: i } => {
            let ty = s.at(a).ty;
            let n = ty.lane_bits();
            Flow::On(s.with(ty, joined(n, lanes(n, s.bits(a)).update(i as int, s.bits(b)))))
        },
        Op::Shuffle { a, b, mask } => Flow::On(
            s.with(
                Type::I8X16,
                joined(
                    8,
                    Seq::new(
                        16,
                        |i: int|
                            {
                                let k = lane(8, mask as int, i);
                                if k < 32 {
                                    lane_of_both(8, s.bits(a), s.bits(b), k)
                                } else {
                                    0
                                }
                            },
                    ),
                ),
            ),
        ),
        Op::UaddOverflowTrap { a, b, code } => {
            let ty = s.at(a).ty;
            let sum = s.bits(a) + s.bits(b);
            if sum < pow2(ty.width()) {
                Flow::On(s.with(ty, sum))
            } else {
                Flow::Trapped(code)
            }
        },
        Op::Trap { code } => Flow::Trapped(code),
        Op::Trapz { arg, code } => if s.bits(arg) == 0 {
            Flow::Trapped(code)
        } else {
            Flow::On(s)
        },
        Op::Trapnz { arg, code } => if s.bits(arg) != 0 {
            Flow::Trapped(code)
        } else {
            Flow::On(s)
        },
        Op::GlobalAddress { ty, gv } => Flow::On(s.with(ty, m.global(s.memory, gv))),
        Op::StackAddress { ty, .. } | Op::FramePointer { ty } | Op::ReturnAddress { ty } => {
            Flow::On(s.with(ty, (m.frame)(op)))
        },
        Op::CreateBlock { .. } => Flow::On(s.block_created()),
        Op::AppendBlockParam { block, ty } => Flow::On(s.param_appended(block, ty)),
        Op::UseVar { var } => Flow::On(s.with(s.vars[var].ty, s.vars[var].bits)),
        Op::DefVar { var, val } => Flow::On(
            Moment { vars: s.vars.insert(var, s.at(val)), ..s },
        ),
        Op::StackSlot { .. }
        | Op::Fence
        | Op::SwitchToBlock { .. }
        | Op::SealBlock { .. }
        | Op::ChangeJumpDestination { .. }
        | Op::SetValLabel { .. }
        | Op::LabelAlias { .. } => Flow::On(s),
    }
}

/// Where control is after one more step.
pub open spec fn stepped(m: Machine, step: StepModel, at: Flow) -> Flow {
    match at {
        Flow::On(s) => match step {
            StepModel::Op(op) => performed(m, op, s),
            StepModel::Jump { destination, args } => Flow::Left {
                block: destination,
                args: s.all(args),
                moment: s,
            },
            StepModel::Brif { condition, then_block, then_args, else_block, else_args } => {
                if s.bits(condition) != 0 {
                    Flow::Left { block: then_block, args: s.all(then_args), moment: s }
                } else {
                    Flow::Left { block: else_block, args: s.all(else_args), moment: s }
                }
            },
            StepModel::BrTable { index, default, targets } => Flow::Left {
                block: if s.bits(index) < targets.len() {
                    targets[s.bits(index)]
                } else {
                    default
                },
                args: Seq::empty(),
                moment: s,
            },
            StepModel::Return { args } => Flow::Returned(s.all(args)),
            StepModel::Call { callee, args } => Flow::Called {
                callee,
                args: s.all(args),
                moment: s,
            },
            StepModel::CallIndirect { signature, callee, args } => Flow::CalledIndirect {
                signature,
                callee: s.bits(callee),
                args: s.all(args),
                moment: s,
            },
            StepModel::ReturnCall { callee, args } => Flow::Replaced { callee, args: s.all(args) },
            StepModel::ReturnCallIndirect { signature, callee, args } => Flow::ReplacedIndirect {
                signature,
                callee: s.bits(callee),
                args: s.all(args),
            },
        },
        Flow::Left { block: destination, args, moment } => match step {
            StepModel::Op(Op::SwitchToBlock { block }) => if block == destination {
                Flow::On(moment.entered(block, args))
            } else {
                at
            },
            StepModel::Op(Op::CreateBlock { .. }) => Flow::Left {
                block: destination,
                args,
                moment: moment.block_created(),
            },
            StepModel::Op(Op::AppendBlockParam { block, ty }) => Flow::Left {
                block: destination,
                args,
                moment: moment.param_appended(block, ty),
            },
            // What is skipped is numbered all the same.
            StepModel::Op(op) => if has_result(op) {
                Flow::Left {
                    block: destination,
                    args,
                    moment: moment.with(result_type(op, moment), 0),
                }
            } else {
                at
            },
            _ => at,
        },
        _ => at,
    }
}

/// Whether an operation has a result.
pub open spec fn has_result(op: Op) -> bool {
    match op {
        Op::Store { .. }
        | Op::Trap { .. }
        | Op::Trapz { .. }
        | Op::Trapnz { .. }
        | Op::StackSlot { .. }
        | Op::Fence
        | Op::CreateBlock { .. }
        | Op::SwitchToBlock { .. }
        | Op::SealBlock { .. }
        | Op::ChangeJumpDestination { .. }
        | Op::DefVar { .. }
        | Op::SetValLabel { .. }
        | Op::LabelAlias { .. } => false,
        _ => true,
    }
}

/// The type of the result of an operation.
pub open spec fn result_type(op: Op, s: Moment) -> Type {
    match op {
        Op::Unary { op, arg } => op.spec_result_type(s.at(arg).ty),
        Op::Binary { op, a, .. } => op.spec_result_type(s.at(a).ty),
        Op::BinaryImm { arg, .. } => s.at(arg).ty,
        Op::Ternary { b, .. } => s.at(b).ty,
        Op::IntCompare { a, .. } => s.at(a).ty.spec_as_truthy(),
        Op::IntCompareImm { arg, .. } => s.at(arg).ty.spec_as_truthy(),
        Op::FloatCompare { a, .. } => s.at(a).ty.spec_as_truthy(),
        Op::Convert { ty, .. }
        | Op::Bitcast { ty, .. }
        | Op::Iconst { ty, .. }
        | Op::Vconst { ty, .. }
        | Op::Null { ty }
        | Op::Load { ty, .. }
        | Op::GlobalAddress { ty, .. }
        | Op::StackAddress { ty, .. }
        | Op::FramePointer { ty }
        | Op::ReturnAddress { ty } => ty,
        Op::F32const { .. } => Type::F32,
        Op::F64const { .. } => Type::F64,
        Op::ExtractLane { arg, .. } => s.at(arg).ty.spec_lane_type(),
        Op::InsertLane { a, .. } => s.at(a).ty,
        Op::UaddOverflowTrap { a, .. } => s.at(a).ty,
        Op::UseVar { var } => s.vars[var].ty,
        _ => Type::I8X16,
    }
}

/// Where control is after the steps behind the first `from`.
pub open spec fn run(m: Machine, steps: Seq<StepModel>, from: nat, at: Flow) -> Flow
    decreases steps.len(),
{
    if steps.len() <= from {
        at
    } else {
        stepped(m, steps.last(), run(m, steps.drop_last(), from, at))
    }
}

/// Whether a state is one of a run of the code: its values have the types that were recorded.
pub open spec fn runs(s: Moment, code: Code) -> bool {
    &&& s.values.len() == code.values.len() <= usize::MAX
    &&& forall|i: int| 0 <= i < s.values.len() ==> #[trigger] s.values[i].ty == code.values[i].ty
    &&& s.blocks == code.blocks
}

/// Whether nothing but values and blocks was added.
pub open spec fn went_on(s: Moment, before: Moment) -> bool {
    &&& before.values.len() <= s.values.len()
    &&& forall|i: int|
        0 <= i < before.values.len() ==> #[trigger] s.values[i] == before.values[i]
    &&& s.vars == before.vars
    &&& s.memory == before.memory
}

/// One step more.
pub broadcast proof fn lemma_run_step(
    m: Machine,
    steps: Seq<StepModel>,
    step: StepModel,
    from: nat,
    at: Flow,
)
    requires
        from <= steps.len(),
    ensures
        #[trigger] run(m, steps.push(step), from, at) == stepped(
            m,
            step,
            run(m, steps, from, at),
        ),
{
    assert(steps.push(step).drop_last() =~= steps);
}

/// No step.
pub broadcast proof fn lemma_run_nothing(m: Machine, steps: Seq<StepModel>, from: nat, at: Flow)
    requires
        from == steps.len(),
    ensures
        #[trigger] run(m, steps, from, at) == at,
{
}

} // verus!
