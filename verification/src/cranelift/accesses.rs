//! What loads and stores do.
use crate::cranelift::access::size_of_access;
use crate::cranelift::addresses::{lemma_memory_found, prepared_addresses_are_right, reaches};
use crate::cranelift::bits::{
    count, is_pattern, joined, lane, lanes, lemma_wrap, signed, wrap,
};
use crate::cranelift::code_translator::{translated, Reachability};
use crate::cranelift::env::TranslationEnvironment;
use crate::cranelift::meaning::{
    accessible, fetched, lemma_run_nothing, lemma_run_step, performed, run, runs, went_on, written,
    Flow, Machine, Moment,
};
use crate::cranelift::memory::{CraneliftMemory, MemArg};
use crate::cranelift::numbers::lemma_replaced;
use crate::cranelift::operator::{
    AccessOp, AccessRecipe, LaneAccessOp, LaneAccessRecipe, Operator,
};
use crate::cranelift::simulation::{
    flow, goes_on, lemma_all_kept, lemma_brought, lemma_defined, operand, operands,
    operands_below, ready,
};
use crate::cranelift::vectors::{lemma_extract, lemma_insert};
use crate::cranelift::world::World;
use crate::ir::{ConvertOp, Op, Opcode, StepModel, TrapCode, Type, Value};
use vstd::arithmetic::power2::pow2;
use vstd::prelude::*;

verus! {

/// Whether a linear memory of `len` bytes lies where the code expects it: its bytes can be
/// accessed, those behind it up to the end of its guard cannot, and neither can the null address.
pub open spec fn laid_out(memory: CraneliftMemory, m: Machine, s: Moment, len: int) -> bool {
    let base = m.global(s.memory, memory.base_gv);
    let end = base + memory.bound + memory.offset_guard_size;
    &&& 0 <= len <= memory.bound
    &&& 0 <= base
    &&& end <= pow2(m.pointer)
    &&& forall|a: int| base <= a < base + len ==> #[trigger] s.memory.dom().contains(a)
    &&& forall|a: int| base + len <= a < end ==> !(#[trigger] s.memory.dom().contains(a))
    &&& !s.memory.dom().contains(0)
}

/// The address of the first byte of a linear memory.
pub open spec fn base_of(memory: CraneliftMemory, m: Machine, s: Moment) -> int {
    m.global(s.memory, memory.base_gv)
}

impl AccessOp {
    /// Whether the operator stores.
    pub open spec fn stores(self) -> bool {
        match self {
            AccessOp::I32Store | AccessOp::I64Store | AccessOp::F32Store | AccessOp::F64Store
            | AccessOp::I32Store8 | AccessOp::I64Store8 | AccessOp::I32Store16
            | AccessOp::I64Store16 | AccessOp::I64Store32 | AccessOp::V128Store => true,
            _ => false,
        }
    }

    /// The number of bytes that the operator accesses.
    pub open spec fn accessed(self) -> nat {
        match self {
            AccessOp::I32Load8U | AccessOp::I32Load8S | AccessOp::I64Load8U | AccessOp::I64Load8S
            | AccessOp::I32Store8 | AccessOp::I64Store8 | AccessOp::V128Load8Splat => 1,
            AccessOp::I32Load16U | AccessOp::I32Load16S | AccessOp::I64Load16U
            | AccessOp::I64Load16S | AccessOp::I32Store16 | AccessOp::I64Store16
            | AccessOp::V128Load16Splat => 2,
            AccessOp::I32Load | AccessOp::F32Load | AccessOp::I64Load32S | AccessOp::I64Load32U
            | AccessOp::I32Store | AccessOp::F32Store | AccessOp::I64Store32
            | AccessOp::V128Load32Splat | AccessOp::V128Load32Zero => 4,
            AccessOp::I64Load | AccessOp::F64Load | AccessOp::I64Store | AccessOp::F64Store
            | AccessOp::V128Load8x8S | AccessOp::V128Load8x8U | AccessOp::V128Load16x4S
            | AccessOp::V128Load16x4U | AccessOp::V128Load32x2S | AccessOp::V128Load32x2U
            | AccessOp::V128Load64Splat | AccessOp::V128Load64Zero => 8,
            AccessOp::V128Load | AccessOp::V128Store => 16,
        }
    }

    /// The value that a load makes of the number that its bytes are.
    pub open spec fn read(self, x: int) -> int {
        match self {
            AccessOp::I32Load8S => wrap(32, signed(8, x)),
            AccessOp::I32Load16S => wrap(32, signed(16, x)),
            AccessOp::I64Load8S => wrap(64, signed(8, x)),
            AccessOp::I64Load16S => wrap(64, signed(16, x)),
            AccessOp::I64Load32S => wrap(64, signed(32, x)),
            AccessOp::V128Load8x8S => joined(
                16,
                Seq::new(8, |i: int| wrap(16, signed(8, lane(8, x, i)))),
            ),
            AccessOp::V128Load8x8U => joined(16, Seq::new(8, |i: int| lane(8, x, i))),
            AccessOp::V128Load16x4S => joined(
                32,
                Seq::new(4, |i: int| wrap(32, signed(16, lane(16, x, i)))),
            ),
            AccessOp::V128Load16x4U => joined(32, Seq::new(4, |i: int| lane(16, x, i))),
            AccessOp::V128Load32x2S => joined(
                64,
                Seq::new(2, |i: int| wrap(64, signed(32, lane(32, x, i)))),
            ),
            AccessOp::V128Load32x2U => joined(64, Seq::new(2, |i: int| lane(32, x, i))),
            AccessOp::V128Load8Splat => joined(8, Seq::new(16, |i: int| x)),
            AccessOp::V128Load16Splat => joined(16, Seq::new(8, |i: int| x)),
            AccessOp::V128Load32Splat => joined(32, Seq::new(4, |i: int| x)),
            AccessOp::V128Load64Splat => joined(64, Seq::new(2, |i: int| x)),
            _ => x,
        }
    }

    /// The type of what a store takes.
    pub open spec fn stored_type(self) -> Type {
        match self {
            AccessOp::I32Store | AccessOp::I32Store8 | AccessOp::I32Store16 => Type::I32,
            AccessOp::F32Store => Type::F32,
            AccessOp::F64Store => Type::F64,
            AccessOp::V128Store => Type::I8X16,
            _ => Type::I64,
        }
    }
}

/// An address that was prepared for an access of a linear memory: whether the access can happen.
proof fn lemma_decided(
    memory: CraneliftMemory,
    m: Machine,
    s: Moment,
    t: Moment,
    addr: Value,
    index: int,
    offset: int,
    size: nat,
    len: int,
)
    requires
        reaches(
            memory,
            m,
            s,
            index,
            offset,
            size as int,
            Flow::On(t),
            Reachability::Reachable(addr),
        ),
        laid_out(memory, m, s, len),
        index >= 0,
        offset >= 0,
        size >= 1,
    ensures
        ({
            let address = wrap(m.pointer, t.bits(addr) + 0);
            &&& accessible(t.memory, address, size) <==> index + offset + size <= len
            &&& index + offset + size <= len ==> address == base_of(memory, m, s) + index + offset
        }),
{
    let base = base_of(memory, m, s);
    let ea = base + index + offset;
    let address = wrap(m.pointer, t.bits(addr) + 0);
    lemma_wrap(m.pointer, ea);
    lemma_wrap(m.pointer, 0);
    vstd::arithmetic::power2::lemma_pow2_pos(m.pointer);
    if t.bits(addr) == 0 && index + offset + size > memory.bound {
        assert(address == 0);
        assert(!t.memory.dom().contains(address));
    } else {
        assert(ea < pow2(m.pointer));
        assert(t.bits(addr) == ea);
        assert(address == ea);
        if index + offset + size <= len {
            assert forall|a: int| address <= a < address + size implies
                #[trigger] t.memory.dom().contains(a) by {}
        } else {
            let last = ea + size - 1;
            assert(!t.memory.dom().contains(last));
        }
    }
}

/// A load of a number of bytes from the index on top of the stack.
#[verifier::spinoff_prover]
#[verifier::rlimit(60)]
proof fn lemma_loaded(
    m: Machine,
    w: World,
    s: Moment,
    memarg: MemArg,
    opcode: Opcode,
    ty: Type,
    size: u8,
    len: int,
    from: nat,
    at: Flow,
) -> (t: Moment)
    requires
        from <= w.code.steps.len(),
        run(m, w.code.steps, from, at) == Flow::On(s),
        ready(w, s, 12),
        w.st.stack.len() >= 1,
        size as nat == opcode.bytes(ty),
        size >= 1,
        w.popped(1).accessible(memarg, w.st.peek(0), size),
        w.memory(memarg).1.index_type is I32 ==> memarg.offset <= u32::MAX,
        is_pattern(w.memory(memarg).1.index_type.width(), operand(w, s, 0)),
        laid_out(w.memory(memarg).1, m, s, len),
        m.pointer == w.env.isa.pointer_type.width(),
    ensures
        ({
            let (after, reachable) = w.loaded(memarg, opcode, ty, size);
            let ea = operand(w, s, 0) + memarg.offset;
            let end = run(m, after.code.steps, from, at);
            &&& if ea + size <= len {
                let x = fetched(s.memory, base_of(w.memory(memarg).1, m, s) + ea, size as nat);
                &&& reachable
                &&& end == Flow::On(t)
                &&& runs(t, after.code)
                &&& went_on(t, s)
                &&& t.bits(after.st.peek(0)) == opcode.extended(ty, x)
            } else {
                end == Flow::Trapped(TrapCode::HeapOutOfBounds)
            }
            &&& after.st.reachable
            &&& reachable ==> after.st.stack == w.st.stack.drop_last().push(after.st.peek(0))
            &&& reachable ==> after.code.has(after.st.peek(0))
            &&& reachable ==> after.code.ty(after.st.peek(0)) == ty
            &&& after.code.values.len() <= w.code.values.len() + 12
            &&& w.code.steps.len() <= after.code.steps.len()
        }),
{
    let index = w.st.peek(0);
    let i = s.bits(index);
    let p = w.popped(1);
    lemma_memory_found(p, memarg);
    let (w1, memory) = p.memory(memarg);
    assert(memory == w.memory(memarg).1);
    assert(w.code.has(index));
    prepared_addresses_are_right(memory, m, w1.code, w1.env, index, size, memarg, from, at, s);
    let (c2, addr) = memory.prepared(w1.code, w1.env, index, size, memarg);
    let end = run(m, c2.steps, from, at);
    assert(crate::cranelift::state::below(w.st.stack, 1) =~= w.st.stack.drop_last());
    match addr {
        Reachability::Unreachable => {
            s
        },
        Reachability::Reachable(v) => {
            let flags = memory.access_flags();
            let op = Op::Load { op: opcode, ty, flags, addr: v, offset: 0 };
            lemma_run_step(m, c2.steps, StepModel::Op(op), from, at);
            let (after, reachable) = w.loaded(memarg, opcode, ty, size);
            assert(after.st.stack =~= w.st.stack.drop_last().push(after.st.peek(0)));
            match end {
                Flow::On(t) => {
                    reveal(performed);
                    lemma_decided(
                        memory,
                        m,
                        s,
                        t,
                        v,
                        i,
                        memarg.offset as int,
                        size as nat,
                        len,
                    );
                    if i + memarg.offset + size <= len {
                        let x = fetched(
                            s.memory,
                            base_of(memory, m, s) + i + memarg.offset,
                            size as nat,
                        );
                        lemma_defined(m, c2, op, ty, from, at, t, opcode.extended(ty, x));
                        t.with(ty, opcode.extended(ty, x))
                    } else {
                        s
                    }
                },
                _ => s,
            }
        },
    }
}

/// The recipe of a load: its size, and what it makes of the bytes.
proof fn lemma_load_recipe(op: AccessOp, x: int)
    requires
        !op.stores(),
    ensures
        op.recipe() matches Some(recipe) && {
            let (opcode, ty, size) = recipe.load();
            &&& !(recipe is Store)
            &&& size as nat == op.accessed()
            &&& opcode.bytes(ty) == op.accessed()
            &&& match recipe {
                AccessRecipe::LoadSplat(vector) => op.read(x) == joined(
                    vector.lane_bits(),
                    Seq::new(count(vector.lane_bits()), |i: int| opcode.extended(ty, x)),
                ),
                AccessRecipe::LoadZero(vector) => op.read(x) == opcode.extended(ty, x),
                _ => op.read(x) == opcode.extended(ty, x),
            }
        },
{
    let (opcode, ty, size) = op.recipe()->0.load();
    match op {
        AccessOp::V128Load8x8S => {
            assert(Seq::new(8, |i: int| wrap(16, signed(8, lane(8, x, i)))) =~= Seq::new(
                count(16),
                |i: int| wrap(16, signed(16nat / 2, lane(16nat / 2, x, i))),
            ));
        },
        AccessOp::V128Load16x4S => {
            assert(Seq::new(4, |i: int| wrap(32, signed(16, lane(16, x, i)))) =~= Seq::new(
                count(32),
                |i: int| wrap(32, signed(32nat / 2, lane(32nat / 2, x, i))),
            ));
        },
        AccessOp::V128Load32x2S => {
            assert(Seq::new(2, |i: int| wrap(64, signed(32, lane(32, x, i)))) =~= Seq::new(
                count(64),
                |i: int| wrap(64, signed(64nat / 2, lane(64nat / 2, x, i))),
            ));
        },
        AccessOp::V128Load8x8U => {
            assert(Seq::new(8, |i: int| lane(8, x, i)) =~= Seq::new(
                count(16),
                |i: int| lane(16nat / 2, x, i),
            ));
        },
        AccessOp::V128Load16x4U => {
            assert(Seq::new(4, |i: int| lane(16, x, i)) =~= Seq::new(
                count(32),
                |i: int| lane(32nat / 2, x, i),
            ));
        },
        AccessOp::V128Load32x2U => {
            assert(Seq::new(2, |i: int| lane(32, x, i)) =~= Seq::new(
                count(64),
                |i: int| lane(64nat / 2, x, i),
            ));
        },
        AccessOp::V128Load8Splat => {
            assert(Seq::new(16, |i: int| x) =~= Seq::new(
                count(8),
                |i: int| opcode.extended(ty, x),
            ));
        },
        AccessOp::V128Load16Splat => {
            assert(Seq::new(8, |i: int| x) =~= Seq::new(
                count(16),
                |i: int| opcode.extended(ty, x),
            ));
        },
        AccessOp::V128Load32Splat => {
            assert(Seq::new(4, |i: int| x) =~= Seq::new(
                count(32),
                |i: int| opcode.extended(ty, x),
            ));
        },
        AccessOp::V128Load64Splat => {
            assert(Seq::new(2, |i: int| x) =~= Seq::new(
                count(64),
                |i: int| opcode.extended(ty, x),
            ));
        },
        _ => {},
    }
}

/// A load replaces the index by what it makes of the bytes at the index plus the offset, where all
/// of them lie in the memory, and traps where they do not.
#[verifier::spinoff_prover]
#[verifier::rlimit(60)]
pub proof fn loads_read_the_memory(
    op: AccessOp,
    memarg: MemArg,
    m: Machine,
    w: World,
    s: Moment,
    len: int,
)
    requires
        ready(w, s, 13),
        !op.stores(),
        op.recipe()->0.translatable(w, memarg),
        w.memory(memarg).1.index_type is I32 ==> memarg.offset <= u32::MAX,
        is_pattern(w.memory(memarg).1.index_type.width(), operand(w, s, 0)),
        laid_out(w.memory(memarg).1, m, s, len),
        m.pointer == w.env.isa.pointer_type.width(),
    ensures
        ({
            let after = translated(Operator::Access { op, memarg }, w);
            let ea = operand(w, s, 0) + memarg.offset;
            let bytes = fetched(
                s.memory,
                base_of(w.memory(memarg).1, m, s) + ea,
                op.accessed(),
            );
            if ea + op.accessed() <= len {
                goes_on(m, w, after, s, operands_below(w, s, 1).push(op.read(bytes)))
            } else {
                flow(m, w, after, s) == Flow::Trapped(TrapCode::HeapOutOfBounds)
            }
        }),
{
    reveal(AccessRecipe::translated);
    reveal(AccessRecipe::translatable);
    let from = w.code.steps.len();
    let at = Flow::On(s);
    let after = translated(Operator::Access { op, memarg }, w);
    let ea = operand(w, s, 0) + memarg.offset;
    let x = fetched(s.memory, base_of(w.memory(memarg).1, m, s) + ea, op.accessed());
    lemma_load_recipe(op, x);
    let recipe = op.recipe()->0;
    let (opcode, ty, size) = recipe.load();
    lemma_run_nothing(m, w.code.steps, from, at);
    let t = lemma_loaded(m, w, s, memarg, opcode, ty, size, len, from, at);
    let (w1, reachable) = w.loaded(memarg, opcode, ty, size);
    let v = w1.st.peek(0);
    let fits = ea + op.accessed() <= len;
    match recipe {
        AccessRecipe::LoadSplat(vector) | AccessRecipe::LoadZero(vector) => {
            if reachable {
                let conv = if recipe is LoadSplat {
                    ConvertOp::Splat
                } else {
                    ConvertOp::ScalarToVector
                };
                let step = Op::Convert { op: conv, ty: vector, arg: v };
                lemma_run_step(m, w1.code.steps, StepModel::Op(step), from, at);
                if fits {
                    reveal(performed);
                    lemma_defined(m, w1.code, step, vector, from, at, t, op.read(x));
                    let u = t.with(vector, op.read(x));
                    assert(after.st.stack =~= w.st.pop(1).push(w1.code.next_value()).stack);
                    lemma_pushed(m, w, after, s, u, w1.code.next_value());
                }
            }
        },
        _ => {
            if fits {
                assert(after.st.stack =~= w.st.pop(1).push(v).stack);
                lemma_pushed(m, w, after, s, t, v);
            }
        },
    }
}

/// The stack after a result has taken the place of the index.
proof fn lemma_pushed(m: Machine, w: World, after: World, s: Moment, t: Moment, v: Value)
    requires
        ready(w, s, 0),
        w.st.stack.len() >= 1,
        flow(m, w, after, s) == Flow::On(t),
        went_on(t, s),
        runs(t, after.code),
        after.code.has(v),
        after.st.reachable,
        after.st.stack == w.st.pop(1).push(v).stack,
    ensures
        goes_on(m, w, after, s, operands_below(w, s, 1).push(t.bits(v))),
{
    let same = World { st: w.st.pop(1).push(v), ..after };
    lemma_replaced(m, w, same, s, t, 1, v);
    assert(operands(same, t) == operands(after, t));
}

/// A store of the value on top of the stack at the index below it.
#[verifier::spinoff_prover]
#[verifier::rlimit(60)]
proof fn lemma_stored(
    m: Machine,
    w: World,
    s: Moment,
    memarg: MemArg,
    opcode: Opcode,
    len: int,
    from: nat,
    at: Flow,
)
    requires
        from <= w.code.steps.len(),
        run(m, w.code.steps, from, at) == Flow::On(s),
        ready(w, s, 12),
        w.st.stack.len() >= 2,
        size_of_access(opcode, w.code.ty(w.st.peek(0))) as nat == opcode.bytes(
            w.code.ty(w.st.peek(0)),
        ),
        opcode.bytes(w.code.ty(w.st.peek(0))) >= 1,
        w.popped(2).accessible(
            memarg,
            w.st.peek(1),
            size_of_access(opcode, w.code.ty(w.st.peek(0))),
        ),
        w.memory(memarg).1.index_type is I32 ==> memarg.offset <= u32::MAX,
        is_pattern(w.memory(memarg).1.index_type.width(), operand(w, s, 1)),
        laid_out(w.memory(memarg).1, m, s, len),
        m.pointer == w.env.isa.pointer_type.width(),
    ensures
        ({
            let after = w.stored(memarg, opcode);
            let ea = operand(w, s, 1) + memarg.offset;
            let k = opcode.bytes(w.code.ty(w.st.peek(0)));
            let end = run(m, after.code.steps, from, at);
            if ea + k <= len {
                &&& end matches Flow::On(t) && {
                    &&& t.memory == written(
                        s.memory,
                        base_of(w.memory(memarg).1, m, s) + ea,
                        k,
                        operand(w, s, 0),
                    )
                    &&& t.vars == s.vars
                    &&& runs(t, after.code)
                    &&& operands(after, t) == operands_below(w, s, 2)
                }
                &&& after.st.reachable
            } else {
                end == Flow::Trapped(TrapCode::HeapOutOfBounds)
            }
        }),
{
    let after = w.stored(memarg, opcode);
    let val = w.st.peek(0);
    let index = w.st.peek(1);
    let i = s.bits(index);
    let size = size_of_access(opcode, w.code.ty(val));
    let p = w.popped(2);
    lemma_memory_found(p, memarg);
    let (w1, memory) = p.memory(memarg);
    assert(memory == w.memory(memarg).1);
    assert(w.code.has(index));
    assert(w.code.has(val));
    prepared_addresses_are_right(memory, m, w1.code, w1.env, index, size, memarg, from, at, s);
    let (c2, addr) = memory.prepared(w1.code, w1.env, index, size, memarg);
    if let Reachability::Reachable(v) = addr {
        let flags = memory.access_flags();
        let step = Op::Store { op: opcode, flags, val, addr: v, offset: 0 };
        lemma_run_step(m, c2.steps, StepModel::Op(step), from, at);
        if let Flow::On(t) = run(m, c2.steps, from, at) {
            reveal(performed);
            lemma_decided(memory, m, s, t, v, i, memarg.offset as int, size as nat, len);
            assert(t.values[val.0 as int] == s.values[val.0 as int]);
            lemma_all_kept(s, t, w.code, w.st.stack);
            if i + memarg.offset + size <= len {
                let u = Moment {
                    memory: written(
                        s.memory,
                        base_of(memory, m, s) + i + memarg.offset,
                        size as nat,
                        s.bits(val),
                    ),
                    ..t
                };
                assert(run(m, after.code.steps, from, at) == Flow::On(u));
                assert(operands(after, u) =~= operands_below(w, s, 2)) by {
                    assert forall|j: int| 0 <= j < w.st.stack.len() - 2 implies u.bits(
                        after.st.stack[j],
                    ) == #[trigger] operands_below(w, s, 2)[j] by {
                        assert(t.all(w.st.stack)[j] == s.all(w.st.stack)[j]);
                    }
                }
            }
        }
    }
}

/// A store takes the value on top of the stack and the index below it, and writes the low bytes of
/// the value at the index plus the offset, where all of them lie in the memory. Where they do not,
/// it traps.
#[verifier::spinoff_prover]
#[verifier::rlimit(60)]
pub proof fn stores_write_the_memory(
    op: AccessOp,
    memarg: MemArg,
    m: Machine,
    w: World,
    s: Moment,
    len: int,
)
    requires
        ready(w, s, 13),
        op.stores(),
        op.recipe() is Some,
        op.recipe()->0.translatable(w, memarg),
        w.code.ty(w.st.peek(0)) == op.stored_type(),
        w.memory(memarg).1.index_type is I32 ==> memarg.offset <= u32::MAX,
        is_pattern(w.memory(memarg).1.index_type.width(), operand(w, s, 1)),
        laid_out(w.memory(memarg).1, m, s, len),
        m.pointer == w.env.isa.pointer_type.width(),
    ensures
        ({
            let after = translated(Operator::Access { op, memarg }, w);
            let ea = operand(w, s, 1) + memarg.offset;
            if ea + op.accessed() <= len {
                &&& flow(m, w, after, s) matches Flow::On(t) && {
                    &&& t.memory == written(
                        s.memory,
                        base_of(w.memory(memarg).1, m, s) + ea,
                        op.accessed(),
                        operand(w, s, 0),
                    )
                    &&& t.vars == s.vars
                    &&& runs(t, after.code)
                    &&& operands(after, t) == operands_below(w, s, 2)
                }
                &&& after.st.reachable
            } else {
                flow(m, w, after, s) == Flow::Trapped(TrapCode::HeapOutOfBounds)
            }
        }),
{
    reveal(AccessRecipe::translated);
    reveal(AccessRecipe::translatable);
    let from = w.code.steps.len();
    let at = Flow::On(s);
    let opcode = op.recipe()->0->Store_0;
    assert(opcode.bytes(op.stored_type()) == op.accessed());
    lemma_run_nothing(m, w.code.steps, from, at);
    lemma_stored(m, w, s, memarg, opcode, len, from, at);
}

impl LaneAccessOp {
    /// Whether the operator stores.
    pub open spec fn stores(self) -> bool {
        match self {
            LaneAccessOp::V128Store8Lane | LaneAccessOp::V128Store16Lane
            | LaneAccessOp::V128Store32Lane | LaneAccessOp::V128Store64Lane => true,
            _ => false,
        }
    }

    /// The number of bytes that the operator accesses.
    pub open spec fn accessed(self) -> nat {
        match self {
            LaneAccessOp::V128Load8Lane | LaneAccessOp::V128Store8Lane => 1,
            LaneAccessOp::V128Load16Lane | LaneAccessOp::V128Store16Lane => 2,
            LaneAccessOp::V128Load32Lane | LaneAccessOp::V128Store32Lane => 4,
            LaneAccessOp::V128Load64Lane | LaneAccessOp::V128Store64Lane => 8,
        }
    }
}

/// A load of one lane replaces the index and the vector on top of it by the vector with the bytes at
/// the index plus the offset in the lane, where all of them lie in the memory, and traps where they
/// do not.
#[verifier::spinoff_prover]
#[verifier::rlimit(60)]
pub proof fn lane_loads_read_the_memory(
    op: LaneAccessOp,
    memarg: MemArg,
    i: u8,
    m: Machine,
    w: World,
    s: Moment,
    len: int,
)
    requires
        ready(w, s, 14),
        !op.stores(),
        op.recipe().translatable(w, memarg, i),
        i < 16nat / op.accessed(),
        w.memory(memarg).1.index_type is I32 ==> memarg.offset <= u32::MAX,
        is_pattern(w.memory(memarg).1.index_type.width(), operand(w, s, 1)),
        laid_out(w.memory(memarg).1, m, s, len),
        m.pointer == w.env.isa.pointer_type.width(),
    ensures
        ({
            let after = translated(Operator::LaneAccess { op, memarg, lane: i }, w);
            let ea = operand(w, s, 1) + memarg.offset;
            let n = 8 * op.accessed();
            let bytes = fetched(
                s.memory,
                base_of(w.memory(memarg).1, m, s) + ea,
                op.accessed(),
            );
            if ea + op.accessed() <= len {
                goes_on(
                    m,
                    w,
                    after,
                    s,
                    operands_below(w, s, 2).push(
                        joined(n, lanes(n, operand(w, s, 0)).update(i as int, bytes)),
                    ),
                )
            } else {
                flow(m, w, after, s) == Flow::Trapped(TrapCode::HeapOutOfBounds)
            }
        }),
{
    reveal(LaneAccessRecipe::translated);
    reveal(LaneAccessRecipe::translatable);
    reveal(AccessRecipe::translatable);
    let from = w.code.steps.len();
    let at = Flow::On(s);
    let after = translated(Operator::LaneAccess { op, memarg, lane: i }, w);
    let recipe = op.recipe();
    let ty = recipe->LoadLane_0;
    let narrow = ty.spec_lane_type();
    let size = narrow.spec_bytes();
    let z = w.st.peek(0);
    let y = w.st.peek(1);
    assert(w.code.has(z) && w.code.has(y));
    lemma_run_nothing(m, w.code.steps, from, at);
    let s1 = lemma_brought(m, w.code, z, ty, from, at, s);
    let (w1, vector) = recipe.vector_popped(w, ty);
    lemma_ready_below(w, w1, s, s1);
    assert(w1.memory(memarg).1 == w.memory(memarg).1) by {
        lemma_same_memory(w, w1, memarg);
    }
    assert(s1.values[y.0 as int] == s.values[y.0 as int]);
    assert(w1.st.peek(0) == y);
    let t = lemma_loaded(m, w1, s1, memarg, Opcode::Load, narrow, size, len, from, at);
    let (w2, reachable) = w1.loaded(memarg, Opcode::Load, narrow, size);
    let v = w2.st.peek(0);
    let ea = operand(w, s, 1) + memarg.offset;
    if reachable {
        let insert = Op::InsertLane { a: vector, b: v, lane: i };
        lemma_run_step(m, w2.code.steps, StepModel::Op(insert), from, at);
        if ea + op.accessed() <= len {
            assert(t.values[vector.0 as int] == s1.values[vector.0 as int]);
            assert(w2.code.ty(vector) == t.values[vector.0 as int].ty);
            let u = lemma_insert(m, w2.code, vector, v, i, from, at, t);
            let same = World { st: w.st.pop(2).push(w2.code.next_value()), ..after };
            assert(same.st.stack =~= after.st.stack);
            lemma_replaced(m, w, same, s, u, 2, w2.code.next_value());
            assert(operands(same, u) == operands(after, u));
        }
    }
}

/// A world whose stack has lost its top is ready after code that added a value.
proof fn lemma_ready_below(w: World, w1: World, s: Moment, s1: Moment)
    requires
        ready(w, s, 14),
        w.st.stack.len() >= 1,
        went_on(s1, s),
        runs(s1, w1.code),
        w1.code.values.len() <= w.code.values.len() + 1,
        w1.st == w.st.pop(1),
    ensures
        ready(w1, s1, 13),
{
    assert forall|j: int| 0 <= j < w1.st.stack.len() implies w1.code.has(
        #[trigger] w1.st.stack[j],
    ) by {
        assert(w.code.has(w.st.stack[j]));
    }
}

/// A memory is the same where nothing that finds it has changed.
proof fn lemma_same_memory(w: World, w1: World, memarg: MemArg)
    requires
        w1.code.gvs == w.code.gvs,
        w1.code.memtypes == w.code.memtypes,
        w1.st.memories == w.st.memories,
        w1.env == w.env,
    ensures
        w1.memory(memarg).1 == w.memory(memarg).1,
{
    reveal(TranslationEnvironment::memory_made);
}

/// A store of one lane takes the vector on top of the stack and the index below it, and writes the
/// bytes of the lane at the index plus the offset, where all of them lie in the memory. Where they
/// do not, it traps.
#[verifier::spinoff_prover]
#[verifier::rlimit(60)]
pub proof fn lane_stores_write_the_memory(
    op: LaneAccessOp,
    memarg: MemArg,
    i: u8,
    m: Machine,
    w: World,
    s: Moment,
    len: int,
)
    requires
        ready(w, s, 15),
        op.stores(),
        op.recipe().translatable(w, memarg, i),
        i < 16nat / op.accessed(),
        w.memory(memarg).1.index_type is I32 ==> memarg.offset <= u32::MAX,
        is_pattern(w.memory(memarg).1.index_type.width(), operand(w, s, 1)),
        laid_out(w.memory(memarg).1, m, s, len),
        m.pointer == w.env.isa.pointer_type.width(),
    ensures
        ({
            let after = translated(Operator::LaneAccess { op, memarg, lane: i }, w);
            let ea = operand(w, s, 1) + memarg.offset;
            if ea + op.accessed() <= len {
                &&& flow(m, w, after, s) matches Flow::On(t) && {
                    &&& t.memory == written(
                        s.memory,
                        base_of(w.memory(memarg).1, m, s) + ea,
                        op.accessed(),
                        lane(8 * op.accessed(), operand(w, s, 0), i as int),
                    )
                    &&& t.vars == s.vars
                    &&& runs(t, after.code)
                    &&& operands(after, t) == operands_below(w, s, 2)
                }
                &&& after.st.reachable
            } else {
                flow(m, w, after, s) == Flow::Trapped(TrapCode::HeapOutOfBounds)
            }
        }),
{
    reveal(LaneAccessRecipe::translated);
    reveal(LaneAccessRecipe::translatable);
    reveal(AccessRecipe::translatable);
    let from = w.code.steps.len();
    let at = Flow::On(s);
    let recipe = op.recipe();
    let ty = recipe->StoreLane_0;
    let z = w.st.peek(0);
    let y = w.st.peek(1);
    assert(w.code.has(z) && w.code.has(y));
    lemma_run_nothing(m, w.code.steps, from, at);
    let s1 = lemma_brought(m, w.code, z, ty, from, at, s);
    let (w1, vector) = recipe.vector_popped(w, ty);
    let s2 = lemma_extract(m, w1.code, vector, i, from, at, s1);
    let w2 = recipe.lane_pushed(w, ty, i);
    assert(s1.values[y.0 as int] == s.values[y.0 as int]);
    assert(s2.values[y.0 as int] == s1.values[y.0 as int]);
    assert(w2.st.peek(1) == y && w2.st.peek(0) == w1.code.next_value());
    assert forall|j: int| 0 <= j < w2.st.stack.len() implies w2.code.has(
        #[trigger] w2.st.stack[j],
    ) by {
        if j < w.st.stack.len() - 1 {
            assert(w2.st.stack[j] == w.st.stack[j]);
            assert(w.code.has(w.st.stack[j]));
        }
    }
    lemma_same_memory(w, w2, memarg);
    lemma_stored(m, w2, s2, memarg, Opcode::Store, len, from, at);
    let after = translated(Operator::LaneAccess { op, memarg, lane: i }, w);
    assert(operands_below(w2, s2, 2) =~= operands_below(w, s, 2)) by {
        assert forall|j: int| 0 <= j < w.st.stack.len() - 2 implies
            #[trigger] operands_below(w2, s2, 2)[j] == operands_below(w, s, 2)[j] by {
            let v = w.st.stack[j];
            assert(w2.st.stack[j] == v);
            assert(w.code.has(v));
            assert(s1.values[v.0 as int] == s.values[v.0 as int]);
            assert(s2.values[v.0 as int] == s1.values[v.0 as int]);
        }
    }
}

} // verus!
