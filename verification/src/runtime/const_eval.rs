//! Evaluation of constant expressions.
use crate::indices::{FuncIndex, GlobalIndex};
use vstd::prelude::*;

verus! {

/// A value of a guest, as bits; the bits above its type are zero.
#[derive(Debug, Clone, Copy, PartialEq, Eq, Structural)]
pub struct VMVal(pub u128);

impl VMVal {
    /// The bits of a 32-bit integer.
    pub open spec fn spec_i32(value: i32) -> VMVal {
        VMVal(value as u32 as u128)
    }

    /// The bits of a 32-bit integer.
    pub fn i32(value: i32) -> (r: VMVal)
        ensures
            r == Self::spec_i32(value),
    {
        VMVal(value as u32 as u128)
    }

    /// The bits of a 64-bit integer.
    pub open spec fn spec_i64(value: i64) -> VMVal {
        VMVal(value as u64 as u128)
    }

    /// The bits of a 64-bit integer.
    pub fn i64(value: i64) -> (r: VMVal)
        ensures
            r == Self::spec_i64(value),
    {
        VMVal(value as u64 as u128)
    }

    /// A value of 32 bits.
    pub fn bits32(bits: u32) -> (r: VMVal)
        ensures
            r.0 == bits,
    {
        VMVal(bits as u128)
    }

    /// A value of 64 bits.
    pub fn bits64(bits: u64) -> (r: VMVal)
        ensures
            r.0 == bits,
    {
        VMVal(bits as u128)
    }

    /// A vector.
    pub fn v128(bits: u128) -> (r: VMVal)
        ensures
            r.0 == bits,
    {
        VMVal(bits)
    }

    /// The lowest 32 bits.
    pub open spec fn low32(self) -> u32 {
        (self.0 % 0x1_0000_0000) as u32
    }

    /// The lowest 64 bits.
    pub open spec fn low64(self) -> u64 {
        (self.0 % 0x1_0000_0000_0000_0000) as u64
    }

    /// The lowest 32 bits.
    pub fn get_u32(self) -> (r: u32)
        ensures
            r == self.low32(),
    {
        (self.0 % 0x1_0000_0000) as u32
    }

    /// The lowest 64 bits.
    pub fn get_u64(self) -> (r: u64)
        ensures
            r == self.low64(),
    {
        (self.0 % 0x1_0000_0000_0000_0000) as u64
    }
}

/// An operator of a constant expression.
#[derive(Debug, Clone, Copy, PartialEq, Eq, Structural)]
pub enum ConstOp {
    I32Const(i32),
    I64Const(i64),
    /// A float, as bits.
    F32Const(u32),
    /// A float, as bits.
    F64Const(u64),
    V128Const(u128),
    /// The value of a global; cannot be evaluated yet.
    GlobalGet(GlobalIndex),
    /// A small integer as a reference; cannot be evaluated yet.
    RefI31,
    /// The null reference; cannot be evaluated yet.
    RefNull,
    /// A reference to a function; cannot be evaluated yet.
    RefFunc(FuncIndex),
    I32Add,
    I32Sub,
    I32Mul,
    I64Add,
    I64Sub,
    I64Mul,
}

impl ConstOp {
    /// The value that an operator yields without operands.
    pub open spec fn constant(self) -> Option<u128> {
        match self {
            ConstOp::I32Const(v) => Some(VMVal::spec_i32(v).0),
            ConstOp::I64Const(v) => Some(VMVal::spec_i64(v).0),
            ConstOp::F32Const(bits) => Some(bits as u128),
            ConstOp::F64Const(bits) => Some(bits as u128),
            ConstOp::V128Const(bits) => Some(bits),
            _ => None,
        }
    }

    /// Whether an operator can be evaluated.
    pub open spec fn is_evaluable(self) -> bool {
        !(self is GlobalGet || self is RefI31 || self is RefNull || self is RefFunc)
    }

    /// The value that an operator yields of two operands, modulo the size of its type.
    pub open spec fn combined(self, a: u128, b: u128) -> u128 {
        let (x, y) = (VMVal(a).low32() as int, VMVal(b).low32() as int);
        let (p, q) = (VMVal(a).low64() as int, VMVal(b).low64() as int);
        let result = match self {
            ConstOp::I32Add => (x + y) % 0x1_0000_0000,
            ConstOp::I32Sub => (x - y) % 0x1_0000_0000,
            ConstOp::I32Mul => (x * y) % 0x1_0000_0000,
            ConstOp::I64Add => (p + q) % 0x1_0000_0000_0000_0000,
            ConstOp::I64Sub => (p - q) % 0x1_0000_0000_0000_0000,
            _ => (p * q) % 0x1_0000_0000_0000_0000,
        };
        result as u128
    }

    /// The stack after an operator; `None` if it cannot be evaluated or operands are missing.
    pub open spec fn applied(self, stack: Seq<u128>) -> Option<Seq<u128>> {
        match self.constant() {
            Some(v) => Some(stack.push(v)),
            None => if stack.len() < 2 || !self.is_evaluable() {
                None
            } else {
                let (a, b) = (stack[stack.len() - 2], stack.last());
                Some(stack.drop_last().drop_last().push(self.combined(a, b)))
            },
        }
    }
}

/// The stack after the operators of an expression; `None` if one of them cannot be evaluated or
/// lacks operands.
pub open spec fn run(stack: Seq<u128>, ops: Seq<ConstOp>) -> Option<Seq<u128>>
    decreases ops.len(),
{
    if ops.len() == 0 {
        Some(stack)
    } else {
        match run(stack, ops.drop_last()) {
            Some(before) => ops.last().applied(before),
            None => None,
        }
    }
}

/// A stack of values, with room for two before it allocates.
#[verifier::external_body]
pub struct ValStack {
    stack: smallvec::SmallVec<[u128; 2]>,
}

/// The values of a stack, the top one last.
pub uninterp spec fn val_stack_items(stack: ValStack) -> Seq<u128>;

impl ValStack {
    /// Calls `smallvec::SmallVec::new`, whose result holds no item.
    #[verifier::external_body]
    pub(crate) fn new() -> (r: ValStack)
        ensures
            (val_stack_items(r) == Seq::<u128>::empty()),
    {
        ValStack { stack: smallvec::SmallVec::new() }
    }

    /// Calls `smallvec::SmallVec::push`, which adds an item at the end.
    #[verifier::external_body]
    pub(crate) fn push(&mut self, value: u128)
        ensures
            val_stack_items(*final(self)) == val_stack_items(*old(self)).push(value),
    {
        self.stack.push(value);
    }

    /// Calls `smallvec::SmallVec::pop`, which removes the item at the end, if there is one.
    #[verifier::external_body]
    pub(crate) fn pop(&mut self) -> (r: Option<u128>)
        ensures
            val_stack_items(*old(self)).len() == 0 ==> r is None && val_stack_items(*final(self))
                == val_stack_items(*old(self)),
            val_stack_items(*old(self)).len() > 0 ==> r == Some(val_stack_items(*old(self)).last())
                && val_stack_items(*final(self)) == val_stack_items(*old(self)).drop_last(),
    {
        self.stack.pop()
    }
}

/// Evaluates constant expressions.
pub struct ConstExprEvaluator {
    stack: ValStack,
}

impl View for ConstExprEvaluator {
    type V = Seq<u128>;

    closed spec fn view(&self) -> Seq<u128> {
        val_stack_items(self.stack)
    }
}

/// Whether an expression yields exactly one value.
pub open spec fn yields_one(ops: Seq<ConstOp>) -> bool {
    run(Seq::empty(), ops) matches Some(stack) && stack.len() == 1
}

/// The one value of an expression.
pub open spec fn value_of(ops: Seq<ConstOp>) -> VMVal {
    VMVal(run(Seq::empty(), ops)->0[0])
}

/// An expression that cannot be run to some operator cannot be run to its end.
pub(crate) proof fn lemma_run_prefix(stack: Seq<u128>, ops: Seq<ConstOp>, n: int)
    requires
        0 <= n <= ops.len(),
        run(stack, ops) is Some,
    ensures
        run(stack, ops.take(n)) is Some,
    decreases ops.len() - n,
{
    if n == ops.len() {
        assert(ops.take(n) =~= ops);
    } else {
        lemma_run_prefix(stack, ops, n + 1);
        assert(ops.take(n + 1).drop_last() =~= ops.take(n));
    }
}

/// The value that an operator yields without operands.
fn constant(op: ConstOp) -> (r: Option<VMVal>)
    ensures
        (match r {
            Some(value) => Some(value.0),
            None => None,
        }) == op.constant(),
{
    match op {
        ConstOp::I32Const(value) => Some(VMVal::i32(value)),
        ConstOp::I64Const(value) => Some(VMVal::i64(value)),
        ConstOp::F32Const(bits) => Some(VMVal::bits32(bits)),
        ConstOp::F64Const(bits) => Some(VMVal::bits64(bits)),
        ConstOp::V128Const(bits) => Some(VMVal::v128(bits)),
        _ => None,
    }
}

/// The value that an operator yields of two operands.
fn combine(op: ConstOp, a: VMVal, b: VMVal) -> (r: VMVal)
    requires
        op.constant() is None,
    ensures
        r.0 == op.combined(a.0, b.0),
{
    match op {
        ConstOp::I32Add => VMVal::bits32(a.get_u32().wrapping_add(b.get_u32())),
        ConstOp::I32Sub => VMVal::bits32(a.get_u32().wrapping_sub(b.get_u32())),
        ConstOp::I32Mul => VMVal::bits32(a.get_u32().wrapping_mul(b.get_u32())),
        ConstOp::I64Add => VMVal::bits64(a.get_u64().wrapping_add(b.get_u64())),
        ConstOp::I64Sub => VMVal::bits64(a.get_u64().wrapping_sub(b.get_u64())),
        _ => VMVal::bits64(a.get_u64().wrapping_mul(b.get_u64())),
    }
}

impl ConstExprEvaluator {
    /// An evaluator with an empty stack.
    pub fn new() -> (r: Self)
        ensures
            r@ == Seq::<u128>::empty(),
    {
        ConstExprEvaluator { stack: ValStack::new() }
    }

    /// Pushes a value.
    fn push(&mut self, value: VMVal)
        ensures
            final(self)@ == old(self)@.push(value.0),
    {
        self.stack.push(value.0);
    }

    /// Pops two values; the second was on top.
    fn pop2(&mut self) -> (r: (VMVal, VMVal))
        requires
            old(self)@.len() >= 2,
        ensures
            r.0.0 == old(self)@[old(self)@.len() - 2],
            r.1.0 == old(self)@.last(),
            final(self)@ == old(self)@.drop_last().drop_last(),
    {
        let v2 = self.stack.pop();
        let v1 = self.stack.pop();
        match (v1, v2) {
            (Some(v1), Some(v2)) => (VMVal(v1), VMVal(v2)),
            _ => {
                assert(false);
                (VMVal(0), VMVal(0))
            },
        }
    }

    /// The value of an expression, which yields exactly one.
    pub fn eval(&mut self, ops: &Vec<ConstOp>) -> (r: VMVal)
        requires
            old(self)@ == Seq::<u128>::empty(),
            yields_one(ops@),
        ensures
            r == value_of(ops@),
            final(self)@ == Seq::<u128>::empty(),
    {
        assert(ops@.take(0) =~= Seq::empty());
        for i in 0..ops.len()
            invariant
                yields_one(ops@),
                run(Seq::empty(), ops@.take(i as int)) == Some(self@),
        {
            proof {
                lemma_run_prefix(Seq::empty(), ops@, i + 1);
                assert(ops@.take(i + 1).drop_last() =~= ops@.take(i as int));
                assert(ops@.take(i + 1).last() == ops@[i as int]);
            }
            let op = ops[i];
            match constant(op) {
                Some(value) => self.push(value),
                None => {
                    let (arg1, arg2) = self.pop2();
                    self.push(combine(op, arg1, arg2));
                },
            }
        }
        assert(ops@.take(ops@.len() as int) =~= ops@);
        match self.stack.pop() {
            Some(value) => {
                assert(self@ =~= Seq::<u128>::empty());
                VMVal(value)
            },
            None => {
                assert(false);
                VMVal(0)
            },
        }
    }
}

} // verus!
