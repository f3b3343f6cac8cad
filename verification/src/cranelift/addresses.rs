//! Which bytes an access to linear memory reaches.
use crate::builder::Code;
use crate::cranelift::bits::{both, is_pattern, lemma_wrap, truth, wrap};
use crate::cranelift::code_translator::Reachability;
use crate::cranelift::env::TranslationEnvironment;
use crate::cranelift::meaning::{
    compared_integers, lemma_run_step, performed, run, runs, went_on, Flow, Machine, Moment,
};
use crate::cranelift::memory::{
    address_fact, cast_index, compared, BoundsCheck, CraneliftMemory, MemArg,
};
use crate::cranelift::simulation::{
    lemma_after_trap, lemma_defined, lemma_iconst, lemma_same_run, lemma_trap, lemma_with_fact,
    same_run,
};
use crate::cranelift::world::World;
use crate::ir::{
    BinaryOp, ConvertOp, Fact, ImmOp, IntCC, MemoryType, Op, StepModel, TernaryOp, TrapCode, Type,
    Value,
};
use vstd::arithmetic::div_mod::lemma_add_mod_noop;
use vstd::arithmetic::power2::{lemma2_to64, lemma2_to64_rest, lemma_pow2_pos, pow2};
use vstd::prelude::*;

verus! {

/// Low bits can be taken of a part of a sum first.
pub proof fn lemma_wrapped_sum(n: nat, x: int, y: int)
    ensures
        wrap(n, wrap(n, x) + y) == wrap(n, x + y),
        wrap(n, wrap(n, x) + wrap(n, y)) == wrap(n, x + y),
        wrap(n, x + wrap(n, y)) == wrap(n, x + y),
{
    let p = pow2(n) as int;
    lemma_pow2_pos(n);
    lemma_add_mod_noop(x, y, p);
    lemma_add_mod_noop(x % p, y, p);
    lemma_add_mod_noop(x, y % p, p);
    vstd::arithmetic::div_mod::lemma_mod_twice(x, p);
    vstd::arithmetic::div_mod::lemma_mod_twice(y, p);
}

/// Numbers of 32 and of 64 bits are patterns.
proof fn lemma_widths()
    ensures
        pow2(8) == 0x100,
        pow2(16) == 0x1_0000,
        pow2(32) == 0x1_0000_0000,
        pow2(64) == 0x1_0000_0000_0000_0000,
        pow2(63) == 0x8000_0000_0000_0000,
{
    lemma2_to64();
    lemma2_to64_rest();
}

/// An index that is widened to a pointer stays the same number.
proof fn lemma_cast(
    m: Machine,
    code: Code,
    index: Value,
    index_ty: Type,
    pointer_ty: Type,
    pcc: bool,
    from: nat,
    at: Flow,
    s: Moment,
) -> (t: Moment)
    requires
        from <= code.steps.len(),
        run(m, code.steps, from, at) == Flow::On(s),
        runs(s, code),
        code.has(index),
        code.ty(index) == index_ty,
        code.values.len() < usize::MAX,
    ensures
        ({
            let (after, cast) = cast_index(code, index, index_ty, pointer_ty, pcc);
            &&& run(m, after.steps, from, at) == Flow::On(t)
            &&& runs(t, after)
            &&& went_on(t, s)
            &&& after.has(cast)
            &&& after.ty(cast) == pointer_ty
            &&& t.bits(cast) == s.bits(index)
            &&& code.steps.len() <= after.steps.len()
            &&& code.values.len() <= after.values.len() <= code.values.len() + 1
        }),
{
    reveal(performed);
    if index_ty == pointer_ty {
        s
    } else {
        let extended = code.next_value();
        let op = Op::Convert { op: ConvertOp::Uextend, ty: pointer_ty, arg: index };
        let c1 = code.defined(op, pointer_ty);
        let fact = Fact::Range {
            bit_width: pointer_ty.spec_bits() as u16,
            min: 0,
            max: index_ty.spec_max_unsigned(),
        };
        lemma_defined(m, code, op, pointer_ty, from, at, s, s.bits(index));
        let c2 = c1.with_fact_if(pcc, extended, fact);
        lemma_with_fact(c1, pcc, extended, fact);
        let t = s.with(pointer_ty, s.bits(index));
        lemma_same_run(t, c1, c2);
        lemma_run_step(
            m,
            c2.steps,
            StepModel::Op(Op::LabelAlias { val: extended, of: index }),
            from,
            at,
        );
        t
    }
}

/// The address of an index plus an offset: the base of the memory, the index and the offset
/// together.
pub proof fn computed_addresses_are_sums(
    memory: CraneliftMemory,
    m: Machine,
    code: Code,
    addr_ty: Type,
    index: Value,
    offset: u32,
    pcc: Option<(MemoryType, u64)>,
    from: nat,
    at: Flow,
    s: Moment,
) -> (t: Moment)
    requires
        from <= code.steps.len(),
        run(m, code.steps, from, at) == Flow::On(s),
        runs(s, code),
        code.has(index),
        code.values.len() + 4 <= usize::MAX,
        addr_ty is I32 || addr_ty is I64,
    ensures
        ({
            let (after, addr) = memory.addressed(code, addr_ty, index, offset, pcc);
            &&& run(m, after.steps, from, at) == Flow::On(t)
            &&& runs(t, after)
            &&& went_on(t, s)
            &&& after.has(addr)
            &&& after.ty(addr) == addr_ty
            &&& t.bits(addr) == wrap(
                addr_ty.width(),
                m.global(s.memory, memory.base_gv) + s.bits(index) + offset,
            )
            &&& code.steps.len() <= after.steps.len()
            &&& code.values.len() <= after.values.len() <= code.values.len() + 4
        }),
{
    reveal(performed);
    let n = addr_ty.width();
    let base = m.global(s.memory, memory.base_gv);
    let i = s.bits(index);
    let heap_base = code.next_value();
    let c1 = code.global_value(addr_ty, memory.base_gv);
    let s1 = s.with(addr_ty, base);
    lemma_defined(
        m,
        code,
        Op::GlobalAddress { ty: addr_ty, gv: memory.base_gv },
        addr_ty,
        from,
        at,
        s,
        base,
    );
    let c2 = c1.with_fact_if(pcc is Some, heap_base, Fact::base_of((pcc->0).0));
    lemma_with_fact(c1, pcc is Some, heap_base, Fact::base_of((pcc->0).0));
    lemma_same_run(s1, c1, c2);
    let base_and_index = c2.next_value();
    assert(s1.values[index.0 as int] == s.values[index.0 as int]);
    let sum = wrap(n, base + i);
    let s2 = s1.with(addr_ty, sum);
    lemma_defined(
        m,
        c2,
        Op::Binary { op: BinaryOp::Iadd, a: heap_base, b: index },
        addr_ty,
        from,
        at,
        s1,
        sum,
    );
    let c3 = c2.binary(BinaryOp::Iadd, heap_base, index);
    let fact4 = address_fact((pcc->0).0, code.fact(index), 0);
    let c4 = c3.with_fact_if(pcc is Some, base_and_index, fact4);
    lemma_with_fact(c3, pcc is Some, base_and_index, fact4);
    lemma_same_run(s2, c3, c4);
    if offset == 0 {
        s2
    } else {
        let offset_val = c4.next_value();
        let c5 = c4.iconst(addr_ty, offset as i64);
        let k = wrap(n, offset as int);
        let s3 = s2.with(addr_ty, k);
        lemma_defined(
            m,
            c4,
            Op::Iconst { ty: addr_ty, imm: offset as i64 },
            addr_ty,
            from,
            at,
            s2,
            k,
        );
        let fact6 = Fact::constant(addr_ty.spec_bits() as u16, offset as u64);
        let c6 = c5.with_fact_if(pcc is Some, offset_val, fact6);
        lemma_with_fact(c5, pcc is Some, offset_val, fact6);
        lemma_same_run(s3, c5, c6);
        let result = c6.next_value();
        let total = wrap(n, sum + k);
        let t = s3.with(addr_ty, total);
        assert(s3.bits(base_and_index) == sum);
        assert(s3.bits(offset_val) == k);
        lemma_defined(
            m,
            c6,
            Op::Binary { op: BinaryOp::Iadd, a: base_and_index, b: offset_val },
            addr_ty,
            from,
            at,
            s3,
            total,
        );
        let c7 = c6.binary(BinaryOp::Iadd, base_and_index, offset_val);
        let fact8 = address_fact((pcc->0).0, code.fact(index), offset);
        lemma_with_fact(c7, pcc is Some, result, fact8);
        lemma_same_run(t, c7, c7.with_fact_if(pcc is Some, result, fact8));
        lemma_wrapped_sum(n, base + i, offset as int);
        t
    }
}

/// A comparison of an index with a bound.
proof fn lemma_compared(
    m: Machine,
    code: Code,
    kind: IntCC,
    lhs: Value,
    rhs: Value,
    orig_index: Value,
    index: Value,
    width: u16,
    pcc: bool,
    from: nat,
    at: Flow,
    s: Moment,
) -> (t: Moment)
    requires
        from <= code.steps.len(),
        run(m, code.steps, from, at) == Flow::On(s),
        runs(s, code),
        code.has(lhs),
        code.has(rhs),
        code.has(orig_index),
        code.has(index),
        !code.ty(lhs).has_lanes(),
        code.values.len() < usize::MAX,
    ensures
        ({
            let after = compared(code, kind, lhs, rhs, orig_index, index, width, pcc);
            &&& run(m, after.steps, from, at) == Flow::On(t)
            &&& runs(t, after)
            &&& went_on(t, s)
            &&& t.bits(code.next_value()) == truth(
                kind.holds(code.ty(lhs).lane_bits(), s.bits(lhs), s.bits(rhs)),
            )
            &&& after.steps.len() == code.steps.len() + 1
            &&& after.values.len() == code.values.len() + 1
        }),
{
    reveal(performed);
    let ty = code.ty(lhs);
    let bits = compared_integers(kind, ty, s.bits(lhs), s.bits(rhs));
    let c1 = code.int_compare(kind, lhs, rhs);
    let t = s.with(ty.spec_as_truthy(), bits);
    lemma_defined(
        m,
        code,
        Op::IntCompare { cc: kind, a: lhs, b: rhs },
        ty.spec_as_truthy(),
        from,
        at,
        s,
        bits,
    );
    let after = compared(code, kind, lhs, rhs, orig_index, index, width, pcc);
    assert(same_run(c1, after));
    lemma_same_run(t, c1, after);
    t
}

/// The address of an access that must not happen where a condition holds: a trap or a null address
/// where it does, and otherwise the sum.
#[verifier::spinoff_prover]
#[verifier::rlimit(60)]
proof fn lemma_guarded(
    memory: CraneliftMemory,
    m: Machine,
    code: Code,
    addr_ty: Type,
    index: Value,
    offset: u32,
    access_size: u8,
    mitigate: bool,
    pcc: Option<(MemoryType, u64)>,
    oob: Value,
    from: nat,
    at: Flow,
    s: Moment,
) -> (t: Moment)
    requires
        from <= code.steps.len(),
        run(m, code.steps, from, at) == Flow::On(s),
        runs(s, code),
        code.has(index),
        code.has(oob),
        code.values.len() + 6 <= usize::MAX,
        addr_ty is I32 || addr_ty is I64,
    ensures
        ({
            let (after, addr) = memory.guarded(
                code,
                addr_ty,
                index,
                offset,
                access_size,
                mitigate,
                pcc,
                oob,
            );
            &&& after.values.len() <= code.values.len() + 6
            &&& code.steps.len() <= after.steps.len()
            &&& after.has(addr)
            &&& after.ty(addr) == addr_ty
            &&& if s.bits(oob) != 0 && !mitigate {
                run(m, after.steps, from, at) == Flow::Trapped(TrapCode::HeapOutOfBounds)
            } else {
                &&& run(m, after.steps, from, at) == Flow::On(t)
                &&& runs(t, after)
                &&& went_on(t, s)
                &&& t.bits(addr) == if s.bits(oob) != 0 {
                    0
                } else {
                    wrap(
                        addr_ty.width(),
                        m.global(s.memory, memory.base_gv) + s.bits(index) + offset,
                    )
                }
            }
        }),
{
    reveal(performed);
    if !mitigate {
        let trap = Op::Trapnz { arg: oob, code: TrapCode::HeapOutOfBounds };
        lemma_run_step(m, code.steps, StepModel::Op(trap), from, at);
        let c1 = code.emitted(trap);
        if s.bits(oob) != 0 {
            lemma_addressed_grows(memory, c1, addr_ty, index, offset, pcc);
            let c2 = memory.addressed(c1, addr_ty, index, offset, pcc).0;
            lemma_after_trap(m, c1.steps, c2.steps, from, at);
            s
        } else {
            computed_addresses_are_sums(
                memory,
                m,
                c1,
                addr_ty,
                index,
                offset,
                pcc,
                from,
                at,
                s,
            )
        }
    } else {
        let s1 = computed_addresses_are_sums(
            memory,
            m,
            code,
            addr_ty,
            index,
            offset,
            pcc,
            from,
            at,
            s,
        );
        let (c1, addr) = memory.addressed(code, addr_ty, index, offset, pcc);
        let null = c1.next_value();
        let c2 = c1.iconst(addr_ty, 0);
        lemma_wrap(addr_ty.width(), 0);
        lemma_pow2_pos(addr_ty.width());
        lemma_defined(
            m,
            c1,
            Op::Iconst { ty: addr_ty, imm: 0 },
            addr_ty,
            from,
            at,
            s1,
            0,
        );
        let s2 = s1.with(addr_ty, 0);
        let selected = c2.next_value();
        assert(s2.values[oob.0 as int] == s.values[oob.0 as int]) by {
            assert(s1.values[oob.0 as int] == s.values[oob.0 as int]);
        }
        assert(s2.values[addr.0 as int] == s1.values[addr.0 as int]);
        let bits = if s.bits(oob) != 0 {
            0
        } else {
            s1.bits(addr)
        };
        let op = Op::Ternary { op: TernaryOp::SelectSpectreGuard, a: oob, b: null, c: addr };
        lemma_defined(m, c2, op, addr_ty, from, at, s2, bits);
        let t = s2.with(addr_ty, bits);
        let c3 = c2.ternary(TernaryOp::SelectSpectreGuard, oob, null, addr);
        let fact4 = Fact::constant(addr_ty.spec_bits() as u16, 0);
        let c4 = c3.with_fact_if(pcc is Some, null, fact4);
        lemma_with_fact(c3, pcc is Some, null, fact4);
        lemma_same_run(t, c3, c4);
        let fact5 = Fact::Mem {
            ty: (pcc->0).0,
            min_offset: 0,
            max_offset: ((pcc->0).1 - access_size) as u64,
            nullable: true,
        };
        lemma_with_fact(c4, pcc is Some, selected, fact5);
        lemma_same_run(t, c4, c4.with_fact_if(pcc is Some, selected, fact5));
        t
    }
}

/// What the computation of an address adds.
proof fn lemma_addressed_grows(
    memory: CraneliftMemory,
    code: Code,
    addr_ty: Type,
    index: Value,
    offset: u32,
    pcc: Option<(MemoryType, u64)>,
)
    requires
        code.values.len() + 4 <= usize::MAX,
    ensures
        ({
            let (after, addr) = memory.addressed(code, addr_ty, index, offset, pcc);
            &&& code.steps.is_prefix_of(after.steps)
            &&& after.has(addr)
            &&& after.ty(addr) == addr_ty
            &&& code.values.len() <= after.values.len() <= code.values.len() + 4
        }),
{
}

/// The address of an access of `size` bytes at an index plus an offset.
///
/// Where the access lies in the memory, it is the sum of the base of the memory, the index and the
/// offset. Where it does not, the code traps, or the address is null, or it is the sum and the
/// access lies in the memory and its guard.
pub open spec fn reaches(
    memory: CraneliftMemory,
    m: Machine,
    s: Moment,
    index: int,
    offset: int,
    size: int,
    end: Flow,
    addr: Reachability<Value>,
) -> bool {
    let sum = wrap(m.pointer, m.global(s.memory, memory.base_gv) + index + offset);
    let inside = index + offset + size <= memory.bound;
    match end {
        Flow::On(t) => went_on(t, s) && addr is Reachable && {
            ||| t.bits(addr->Reachable_0) == sum && (inside || index + offset + size
                <= memory.bound + memory.offset_guard_size)
            ||| t.bits(addr->Reachable_0) == 0 && !inside
        },
        Flow::Trapped(code) => !inside && code == TrapCode::HeapOutOfBounds,
        _ => false,
    }
}

/// A checked access reaches what it should.
#[verifier::spinoff_prover]
#[verifier::rlimit(100)]
proof fn lemma_checked(
    memory: CraneliftMemory,
    m: Machine,
    code: Code,
    env: TranslationEnvironment,
    index: Value,
    offset: u32,
    size: u8,
    from: nat,
    at: Flow,
    s: Moment,
)
    requires
        from <= code.steps.len(),
        run(m, code.steps, from, at) == Flow::On(s),
        runs(s, code),
        code.has(index),
        code.ty(index) == memory.index_type,
        is_pattern(memory.index_type.width(), s.bits(index)),
        code.values.len() + 9 <= usize::MAX,
        memory.compilable(env, offset, size),
        m.pointer == env.isa.pointer_type.width(),
    ensures
        ({
            let (after, addr) = memory.checked(code, env, index, offset, size);
            let end = run(m, after.steps, from, at);
            &&& reaches(
                memory,
                m,
                s,
                s.bits(index),
                offset as int,
                size as int,
                end,
                addr,
            )
            &&& end matches Flow::On(t) ==> runs(t, after)
            &&& addr matches Reachability::Reachable(v) ==> after.has(v)
            &&& addr is Unreachable ==> end is Trapped
            &&& code.values.len() <= after.values.len() <= code.values.len() + 9
            &&& code.steps.len() <= after.steps.len()
        }),
{
    lemma_widths();
    let pointer_type = env.isa.pointer_type;
    let width = pointer_type.spec_bits() as u16;
    let pcc = memory.memory_type is Some;
    let s1 = lemma_cast(
        m,
        code,
        index,
        memory.index_type,
        pointer_type,
        pcc,
        from,
        at,
        s,
    );
    let (c1, cast) = cast_index(code, index, memory.index_type, pointer_type, pcc);
    match memory.bounds_check(offset, size) {
        BoundsCheck::AlwaysTraps => {
            lemma_trap(m, c1, TrapCode::HeapOutOfBounds, from, at, s1);
        },
        BoundsCheck::Elided => {
            computed_addresses_are_sums(
                memory,
                m,
                c1,
                pointer_type,
                cast,
                offset,
                memory.region(memory.bound + memory.offset_guard_size),
                from,
                at,
                s1,
            );
        },
        BoundsCheck::Explicit { limit } => {
            let bound = c1.next_value();
            let c1b = c1.iconst(pointer_type, limit as i64);
            let k = wrap(pointer_type.width(), limit as i64 as int);
            let fact = Fact::constant(width, limit as u64);
            let s2 = lemma_iconst(m, c1, pointer_type, limit as i64, from, at, s1);
            let c2 = c1b.with_fact_if(env.proof_carrying_code, bound, fact);
            lemma_with_fact(c1b, env.proof_carrying_code, bound, fact);
            lemma_same_run(s2, c1b, c2);
            assert(s2.values[cast.0 as int] == s1.values[cast.0 as int]);
            lemma_wrap(pointer_type.width(), limit);
            let s3 = lemma_compared(
                m,
                c2,
                IntCC::UnsignedGreaterThan,
                cast,
                bound,
                index,
                cast,
                width,
                env.proof_carrying_code,
                from,
                at,
                s2,
            );
            let oob = c2.next_value();
            let c3 = compared(
                c2,
                IntCC::UnsignedGreaterThan,
                cast,
                bound,
                index,
                cast,
                width,
                env.proof_carrying_code,
            );
            assert(s3.values[cast.0 as int] == s2.values[cast.0 as int]);
            lemma_guarded(
                memory,
                m,
                c3,
                pointer_type,
                cast,
                offset,
                size,
                env.heap_access_spectre_mitigation,
                memory.region(memory.bound as int),
                oob,
                from,
                at,
                s3,
            );
        },
    }
}

/// An access in bounds gets the address of its bytes: the base of the memory plus the index plus the
/// offset. An access out of bounds traps, or gets a null address, or reaches into the guard behind
/// the memory.
#[verifier::spinoff_prover]
#[verifier::rlimit(60)]
pub proof fn prepared_addresses_are_right(
    memory: CraneliftMemory,
    m: Machine,
    code: Code,
    env: TranslationEnvironment,
    index: Value,
    size: u8,
    memarg: MemArg,
    from: nat,
    at: Flow,
    s: Moment,
)
    requires
        from <= code.steps.len(),
        run(m, code.steps, from, at) == Flow::On(s),
        runs(s, code),
        code.has(index),
        code.ty(index) == memory.index_type,
        is_pattern(memory.index_type.width(), s.bits(index)),
        code.values.len() + 11 <= usize::MAX,
        memory.preparable(env, memarg, size),
        memory.index_type is I32 ==> memarg.offset <= u32::MAX,
        m.pointer == env.isa.pointer_type.width(),
    ensures
        ({
            let (after, addr) = memory.prepared(code, env, index, size, memarg);
            let end = run(m, after.steps, from, at);
            &&& reaches(
                memory,
                m,
                s,
                s.bits(index),
                memarg.offset as int,
                size as int,
                end,
                addr,
            )
            &&& end matches Flow::On(t) ==> runs(t, after)
            &&& addr matches Reachability::Reachable(v) ==> after.has(v)
            &&& addr is Unreachable ==> end is Trapped
            &&& code.values.len() <= after.values.len() <= code.values.len() + 11
            &&& code.steps.len() <= after.steps.len()
        }),
{
    reveal(CraneliftMemory::prepared);
    reveal(performed);
    lemma_widths();
    if memarg.offset <= u32::MAX {
        lemma_checked(memory, m, code, env, index, memarg.offset as u32, size, from, at, s);
    } else {
        let ty = memory.index_type;
        let k = memarg.offset as i64 as int;
        let offset = code.next_value();
        let c1 = code.iconst(ty, memarg.offset as i64);
        lemma_wrap(ty.width(), k);
        let s1 = lemma_iconst(m, code, ty, memarg.offset as i64, from, at, s);
        let op = Op::UaddOverflowTrap { a: index, b: offset, code: TrapCode::HeapOutOfBounds };
        assert(s1.values[index.0 as int] == s.values[index.0 as int]);
        let c2 = c1.uadd_overflow_trap(index, offset, TrapCode::HeapOutOfBounds);
        lemma_run_step(m, c1.steps, StepModel::Op(op), from, at);
        let sum = s.bits(index) + k;
        if sum < pow2(64) {
            lemma_defined(m, c1, op, ty, from, at, s1, sum);
            let s2 = s1.with(ty, sum);
            lemma_checked(memory, m, c2, env, c1.next_value(), 0, size, from, at, s2);
        } else {
            lemma_checked_grows(memory, c2, env, c1.next_value(), 0, size);
            let c3 = memory.checked(c2, env, c1.next_value(), 0, size).0;
            lemma_after_trap(m, c2.steps, c3.steps, from, at);
        }
    }
}

/// What the computation of a guarded address adds.
proof fn lemma_guarded_grows(
    memory: CraneliftMemory,
    code: Code,
    addr_ty: Type,
    index: Value,
    offset: u32,
    access_size: u8,
    mitigate: bool,
    pcc: Option<(MemoryType, u64)>,
    oob: Value,
)
    requires
        code.values.len() + 6 <= usize::MAX,
    ensures
        ({
            let (after, addr) = memory.guarded(
                code,
                addr_ty,
                index,
                offset,
                access_size,
                mitigate,
                pcc,
                oob,
            );
            &&& code.steps.is_prefix_of(after.steps)
            &&& after.has(addr)
            &&& code.values.len() <= after.values.len() <= code.values.len() + 6
        }),
{
    if mitigate {
        lemma_addressed_grows(memory, code, addr_ty, index, offset, pcc);
    } else {
        let trap = Op::Trapnz { arg: oob, code: TrapCode::HeapOutOfBounds };
        lemma_addressed_grows(memory, code.emitted(trap), addr_ty, index, offset, pcc);
    }
}

/// What a comparison of an index with a bound adds.
proof fn lemma_compared_grows(
    code: Code,
    kind: IntCC,
    lhs: Value,
    rhs: Value,
    orig_index: Value,
    width: u16,
    pcc: bool,
)
    requires
        code.has(lhs),
        code.has(orig_index),
        code.values.len() < usize::MAX,
    ensures
        ({
            let after = compared(code, kind, lhs, rhs, orig_index, lhs, width, pcc);
            &&& code.steps.is_prefix_of(after.steps)
            &&& after.values.len() == code.values.len() + 1
            &&& after.steps.len() == code.steps.len() + 1
        }),
{
}

/// What the computation of a checked address adds.
#[verifier::spinoff_prover]
#[verifier::rlimit(60)]
proof fn lemma_checked_grows(
    memory: CraneliftMemory,
    code: Code,
    env: TranslationEnvironment,
    index: Value,
    offset: u32,
    size: u8,
)
    requires
        code.has(index),
        code.values.len() + 9 <= usize::MAX,
    ensures
        ({
            let (after, addr) = memory.checked(code, env, index, offset, size);
            &&& code.steps.is_prefix_of(after.steps)
            &&& addr matches Reachability::Reachable(v) ==> after.has(v)
            &&& code.values.len() <= after.values.len() <= code.values.len() + 9
        }),
{
    let pointer_type = env.isa.pointer_type;
    let width = pointer_type.spec_bits() as u16;
    let pcc = memory.memory_type is Some;
    let (c1, cast) = cast_index(code, index, memory.index_type, pointer_type, pcc);
    assert(code.steps.is_prefix_of(c1.steps));
    match memory.bounds_check(offset, size) {
        BoundsCheck::AlwaysTraps => {},
        BoundsCheck::Elided => {
            let region = memory.region(memory.bound + memory.offset_guard_size);
            lemma_addressed_grows(memory, c1, pointer_type, cast, offset, region);
        },
        BoundsCheck::Explicit { limit } => {
            let bound = c1.next_value();
            let c2 = c1.iconst(pointer_type, limit as i64).with_fact_if(
                env.proof_carrying_code,
                bound,
                Fact::constant(width, limit as u64),
            );
            let c3 = compared(
                c2,
                IntCC::UnsignedGreaterThan,
                cast,
                bound,
                index,
                cast,
                width,
                env.proof_carrying_code,
            );
            lemma_compared_grows(
                c2,
                IntCC::UnsignedGreaterThan,
                cast,
                bound,
                index,
                width,
                env.proof_carrying_code,
            );
            lemma_guarded_grows(
                memory,
                c3,
                pointer_type,
                cast,
                offset,
                size,
                env.heap_access_spectre_mitigation,
                memory.region(memory.bound as int),
                c2.next_value(),
            );
        },
    }
}

/// A memory that is looked up changes nothing in a run.
pub proof fn lemma_memory_found(w: World, memarg: MemArg)
    ensures
        ({
            let (w1, memory) = w.memory(memarg);
            &&& w1.code.steps == w.code.steps
            &&& w1.code.values == w.code.values
            &&& w1.code.blocks == w.code.blocks
            &&& w1.st.stack == w.st.stack
            &&& w1.st.control == w.st.control
            &&& w1.st.reachable == w.st.reachable
            &&& w1.env.isa == w.env.isa
        }),
{
    reveal(TranslationEnvironment::memory_made);
}

/// The low bits of a pattern are what a power of two leaves.
proof fn lemma_low_bits(x: int, k: int)
    requires
        is_pattern(64, x),
        k == 2 || k == 4 || k == 8,
    ensures
        both(x, k - 1) == x % k,
{
    reveal(both);
    lemma_widths();
    let y = x as u128;
    if k == 2 {
        assert(y & 1 == y % 2) by (bit_vector);
    } else if k == 4 {
        assert(y & 3 == y % 4) by (bit_vector);
    } else {
        assert(y & 7 == y % 8) by (bit_vector);
    }
}

/// What a power of two leaves of a number depends on low bits only.
proof fn lemma_wrap_keeps_remainder(n: nat, x: int, k: int)
    requires
        n == 32 || n == 64,
        k == 2 || k == 4 || k == 8,
    ensures
        wrap(n, x) % k == x % k,
{
    lemma_widths();
    let q = pow2(n) as int / k;
    assert(pow2(n) == k * q);
    vstd::arithmetic::div_mod::lemma_mod_mod(x, k, q);
}

/// An atomic access of several bytes traps if and only if its address in the memory is no multiple
/// of their number.
pub proof fn atomic_accesses_are_aligned(
    m: Machine,
    code: Code,
    index: Value,
    loaded_bytes: u8,
    offset: u64,
    from: nat,
    at: Flow,
    s: Moment,
)
    requires
        from <= code.steps.len(),
        run(m, code.steps, from, at) == Flow::On(s),
        runs(s, code),
        code.has(index),
        code.ty(index) is I32 || code.ty(index) is I64,
        is_pattern(code.ty(index).width(), s.bits(index)),
        code.values.len() + 3 <= usize::MAX,
        loaded_bytes == 1 || loaded_bytes == 2 || loaded_bytes == 4 || loaded_bytes == 8,
        offset <= i64::MAX,
    ensures
        ({
            let after = CraneliftMemory::aligned(code, index, loaded_bytes, offset);
            let end = run(m, after.steps, from, at);
            if (s.bits(index) + offset) % (loaded_bytes as int) != 0 {
                end == Flow::Trapped(TrapCode::HeapMisaligned)
            } else {
                end matches Flow::On(t) && went_on(t, s) && runs(t, after)
            }
        }),
{
    reveal(performed);
    lemma_widths();
    let ty = code.ty(index);
    let n = ty.width();
    let k = loaded_bytes as int;
    if loaded_bytes > 1 {
        let x = s.bits(index) + offset;
        let add = Op::BinaryImm { op: ImmOp::IaddImm, arg: index, imm: offset as i64 };
        let c1 = if offset == 0 {
            code
        } else {
            code.binary_imm(ImmOp::IaddImm, index, offset as i64)
        };
        lemma_wrap(n, s.bits(index));
        let s1 = if offset == 0 {
            s
        } else {
            lemma_defined(m, code, add, ty, from, at, s, wrap(n, x));
            s.with(ty, wrap(n, x))
        };
        let effective = if offset == 0 {
            index
        } else {
            code.next_value()
        };
        assert(s1.bits(effective) == wrap(n, x));
        lemma_wrap(n, x);
        lemma_wrap(n, k - 1);
        lemma_low_bits(wrap(n, x), k);
        lemma_wrap_keeps_remainder(n, x, k);
        let low = x % k;
        let band = Op::BinaryImm { op: ImmOp::BandImm, arg: effective, imm: (k - 1) as i64 };
        lemma_defined(m, c1, band, ty, from, at, s1, low);
        let c2 = c1.binary_imm(ImmOp::BandImm, effective, (loaded_bytes - 1) as i64);
        let s2 = s1.with(ty, low);
        let misalignment = c1.next_value();
        lemma_wrap(n, 0);
        let test = Op::IntCompareImm { cc: IntCC::NotEqual, arg: misalignment, imm: 0 };
        let flag = truth(low != 0);
        lemma_defined(m, c2, test, Type::I8, from, at, s2, flag);
        let c3 = c2.int_compare_imm(IntCC::NotEqual, misalignment, 0);
        let s3 = s2.with(Type::I8, flag);
        let trap = Op::Trapnz { arg: c2.next_value(), code: TrapCode::HeapMisaligned };
        lemma_run_step(m, c3.steps, StepModel::Op(trap), from, at);
    } else {
        assert(went_on(s, s));
    }
}

} // verus!
