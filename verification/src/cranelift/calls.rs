//! What calls and returns do.
use crate::builder::Code;
use crate::cranelift::addresses::lemma_wrapped_sum;
use crate::cranelift::branching::{lemma_has_all, lemma_top};
use crate::cranelift::bits::{is_pattern, lemma_wrap, shifted_up, truth, wrap};
use crate::cranelift::call::CallBuilder;
use crate::cranelift::code_translator::translated;
use crate::cranelift::constructs::results_of;
use crate::cranelift::env::{wasm_call_signature_of, TranslationEnvironment, NS_WASM_FUNC};
use crate::cranelift::invoke::passed;
use crate::cranelift::meaning::{
    accessible, fetched, lemma_run_nothing, lemma_run_step, performed, run, runs, went_on, Flow,
    Machine, Moment,
};
use crate::cranelift::simulation::{
    flow, lemma_after_trap, lemma_all_kept, lemma_defined, lemma_iconst,
    lemma_same_run, operand, operands, ready, same_run,
};
use crate::cranelift::operator::Operator;
use crate::cranelift::state::{below, top, StateModel};
use crate::cranelift::world::World;
use crate::cranelift::table::{log2_of, CraneliftTable};
use crate::indices::{FuncIndex, TableIndex, TypeIndex};
use crate::ir::{
    BinaryOp, ConvertOp, ImmOp, IntCC, MemFlags, Op, Opcode, SigRef, StepModel, TernaryOp,
    TrapCode, Type, Value,
};
use crate::types::FuncTypeModel;
use crate::vmoffsets::VMFUNC_REF_TYPE_INDEX;
use vstd::arithmetic::power2::{lemma_pow2_pos, lemma_pow2_unfold, pow2};
use vstd::prelude::*;

verus! {

/// Whether the global values of a machine are those that code declares.
pub open spec fn declares(code: Code, m: Machine) -> bool {
    forall|i: int|
        0 <= i < code.gvs.len() ==> i < m.gvs.len() && m.gvs[i].data
            == #[trigger] code.gvs[i].data
}

/// Whether the global value of the context, if there is one already, is the context.
pub open spec fn context_known(env: TranslationEnvironment, m: Machine) -> bool {
    env.vmctx matches Some(gv) ==> gv.0 < m.gvs.len() && m.gvs[gv.0 as int].data is VMContext
}

/// The address of the context.
proof fn lemma_vmctx_val(
    m: Machine,
    code: Code,
    env: TranslationEnvironment,
    from: nat,
    at: Flow,
    s: Moment,
) -> (t: Moment)
    requires
        from <= code.steps.len(),
        run(m, code.steps, from, at) == Flow::On(s),
        runs(s, code),
        code.values.len() < usize::MAX,
        code.gvs.len() < usize::MAX,
        context_known(env, m),
        declares(env.vmctx_val_made(code).0, m),
    ensures
        ({
            let (after, env1, v) = env.vmctx_val_made(code);
            &&& run(m, after.steps, from, at) == Flow::On(t)
            &&& runs(t, after)
            &&& went_on(t, s)
            &&& after.has(v)
            &&& t.bits(v) == m.vmctx
            &&& after.ty(v) == env.isa.pointer_type
            &&& after.values.len() == code.values.len() + 1
            &&& code.steps.len() <= after.steps.len()
            &&& env1.isa == env.isa
            &&& env1.offsets == env.offsets
            &&& env1.module == env.module
            &&& after.vmctx_param == code.vmctx_param
        }),
{
    reveal(performed);
    let (c1, env1, gv) = env.vmctx_made(code);
    let op = Op::GlobalAddress { ty: env.isa.pointer_type, gv };
    let after = env.vmctx_val_made(code).0;
    if env.vmctx is None {
        assert(after.gvs[code.gvs.len() as int].data is VMContext);
    }
    assert(m.gvs[gv.0 as int].data is VMContext);
    lemma_defined(m, c1, op, env.isa.pointer_type, from, at, s, m.vmctx);
    s.with(env.isa.pointer_type, m.vmctx)
}

/// The number at an address of the machine.
pub open spec fn at_address(m: Machine, s: Moment, address: int, k: nat) -> int {
    fetched(s.memory, wrap(m.pointer, address), k)
}

/// Whether the bytes at an address of the machine can be accessed.
pub open spec fn can_access(m: Machine, s: Moment, address: int, k: nat) -> bool {
    accessible(s.memory, wrap(m.pointer, address), k)
}

/// A load of a whole value.
pub proof fn lemma_load(
    m: Machine,
    code: Code,
    ty: Type,
    flags: MemFlags,
    addr: Value,
    offset: i32,
    from: nat,
    at: Flow,
    s: Moment,
) -> (t: Moment)
    requires
        from <= code.steps.len(),
        run(m, code.steps, from, at) == Flow::On(s),
        runs(s, code),
        code.has(addr),
        code.values.len() < usize::MAX,
    ensures
        ({
            let after = code.load(Opcode::Load, ty, flags, addr, offset);
            let address = s.bits(addr) + offset;
            let k = ty.width() / 8;
            if can_access(m, s, address, k) {
                &&& run(m, after.steps, from, at) == Flow::On(t)
                &&& runs(t, after)
                &&& went_on(t, s)
                &&& t.bits(code.next_value()) == at_address(m, s, address, k)
                &&& t.at(code.next_value()).ty == ty
            } else {
                run(m, after.steps, from, at) == match flags.trap {
                    Some(code) => Flow::Trapped(code),
                    None => Flow::Lost,
                }
            }
        }),
{
    reveal(performed);
    let op = Op::Load { op: Opcode::Load, ty, flags, addr, offset };
    let address = s.bits(addr) + offset;
    let k = ty.width() / 8;
    lemma_run_step(m, code.steps, StepModel::Op(op), from, at);
    if can_access(m, s, address, k) {
        lemma_defined(m, code, op, ty, from, at, s, at_address(m, s, address, k));
    }
    s.with(ty, at_address(m, s, address, k))
}

/// Where the context keeps the shared indices of the types of the module.
pub open spec fn type_ids(m: Machine, s: Moment) -> int {
    at_address(m, s, m.vmctx + 2 * (m.pointer / 8), m.pointer / 8)
}

/// The shared index of a type of the module.
pub open spec fn shared_index(m: Machine, s: Moment, ty_index: TypeIndex) -> int {
    at_address(m, s, type_ids(m, s) + 4 * ty_index.0, 4)
}

/// Whether the shared index of a type of the module can be read.
pub open spec fn has_shared_index(m: Machine, s: Moment, ty_index: TypeIndex) -> bool {
    &&& can_access(m, s, m.vmctx + 2 * (m.pointer / 8), m.pointer / 8)
    &&& can_access(m, s, type_ids(m, s) + 4 * ty_index.0, 4)
}

/// The shared index of the type of the function that a reference is to.
pub open spec fn type_of_reference(m: Machine, s: Moment, reference: int) -> int {
    at_address(m, s, reference + VMFUNC_REF_TYPE_INDEX, 4)
}

/// Whether a reference is to a function: its type can be read. That of a null reference cannot.
pub open spec fn refers(m: Machine, s: Moment, reference: int) -> bool {
    can_access(m, s, reference + VMFUNC_REF_TYPE_INDEX, 4)
}

/// A call through a table of arbitrary functions passes the check of the type if and only if the
/// type of the reference is the expected one. Otherwise it stops with a trap for a bad signature,
/// and where there is no function, with a trap for a call to null.
pub proof fn type_checks_are_exact(
    table_index: TableIndex,
    ty_index: TypeIndex,
    funcref: Value,
    m: Machine,
    code: Code,
    env: TranslationEnvironment,
    from: nat,
    at: Flow,
    s: Moment,
) -> (t: Moment)
    requires
        from <= code.steps.len(),
        run(m, code.steps, from, at) == Flow::On(s),
        runs(s, code),
        code.has(funcref),
        code.values.len() + 5 <= usize::MAX,
        code.gvs.len() < usize::MAX,
        env.wf(),
        CallBuilder::callable(env, table_index, ty_index),
        env.module.tables@[table_index.0 as int].element_type.heap_type.ty is Func,
        m.pointer == env.isa.pointer_type.width(),
        context_known(env, m),
        declares(
            CallBuilder::signature_checked(code, env, table_index, ty_index, funcref).0,
            m,
        ),
        has_shared_index(m, s, ty_index),
    ensures
        ({
            let (after, env1, check) = CallBuilder::signature_checked(
                code,
                env,
                table_index,
                ty_index,
                funcref,
            );
            let end = run(m, after.steps, from, at);
            let reference = s.bits(funcref);
            &&& check is Runtime
            &&& after.values.len() == code.values.len() + 5
            &&& code.steps.len() <= after.steps.len()
            &&& if !refers(m, s, reference) {
                end == Flow::Trapped(TrapCode::IndirectCallToNull)
            } else if type_of_reference(m, s, reference) == shared_index(m, s, ty_index) {
                end == Flow::On(t) && went_on(t, s) && runs(t, after)
            } else {
                end == Flow::Trapped(TrapCode::BadSignature)
            }
        }),
{
    reveal(CallBuilder::signature_checked);
    let pointer_type = env.isa.pointer_type;
    let flags = crate::cranelift::call::readonly_flags();
    let s1 = lemma_vmctx_val(m, code, env, from, at, s);
    let (c1, env1, vmctx) = env.vmctx_val_made(code);
    let ids = c1.next_value();
    let offset = (2 * env.offsets.static_.ptr_size) as i32;
    assert(pointer_type.width() / 8 == pointer_type.spec_bytes());
    let s2 = lemma_load(m, c1, pointer_type, flags, vmctx, offset, from, at, s1);
    let c2 = c1.load(Opcode::Load, pointer_type, flags, vmctx, offset);
    let expected = c2.next_value();
    let index_offset = (ty_index.0 * 4) as i32;
    let s3 = lemma_load(m, c2, Type::I32, flags, ids, index_offset, from, at, s2);
    let c3 = c2.load(Opcode::Load, Type::I32, flags, ids, index_offset);
    let actual = c3.next_value();
    let null_flags = flags.spec_with_trap_code(Some(TrapCode::IndirectCallToNull));
    assert(s3.values[funcref.0 as int] == s.values[funcref.0 as int]) by {
        assert(s1.values[funcref.0 as int] == s.values[funcref.0 as int]);
        assert(s2.values[funcref.0 as int] == s1.values[funcref.0 as int]);
    }
    let s4 = lemma_load(
        m,
        c3,
        Type::I32,
        null_flags,
        funcref,
        VMFUNC_REF_TYPE_INDEX as i32,
        from,
        at,
        s3,
    );
    let c4 = CallBuilder::type_index_loaded(c3, funcref);
    let equal = c4.next_value();
    let test = Op::IntCompare { cc: IntCC::Equal, a: expected, b: actual };
    let c5 = c4.int_compare(IntCC::Equal, expected, actual);
    let trap = Op::Trapz { arg: equal, code: TrapCode::BadSignature };
    let c6 = c5.emitted(trap);
    if !refers(m, s, s.bits(funcref)) {
        assert(c4.steps.is_prefix_of(c6.steps));
        lemma_after_trap(m, c4.steps, c6.steps, from, at);
        s
    } else {
        reveal(performed);
        assert(s4.values[expected.0 as int] == s3.values[expected.0 as int]);
        let bits = truth(s4.bits(expected) == s4.bits(actual));
        lemma_defined(m, c4, test, Type::I8, from, at, s4, bits);
        lemma_run_step(m, c5.steps, StepModel::Op(trap), from, at);
        s4.with(Type::I8, bits)
    }
}

/// The exponent of a power of two.
proof fn lemma_log2(n: nat)
    ensures
        log2_of(n) matches Some(k) ==> pow2(k) == n,
    decreases n,
{
    vstd::arithmetic::power2::lemma2_to64();
    if n > 1 && n % 2 == 0 {
        lemma_log2(n / 2);
        if let Some(k) = log2_of(n / 2) {
            lemma_pow2_unfold((k + 1) as nat);
        }
    }
}

/// The exponent of an element size is less than the width of a pointer.
proof fn lemma_log2_bound(n: u32)
    ensures
        log2_of(n as nat) matches Some(k) ==> k < 32,
{
    lemma_log2(n as nat);
    if let Some(k) = log2_of(n as nat) {
        if k >= 32 {
            vstd::arithmetic::power2::lemma2_to64();
            if k > 32 {
                vstd::arithmetic::power2::lemma_pow2_strictly_increases(32, k);
            }
        }
    }
}

/// An index that is scaled by the size of the elements.
proof fn lemma_scaled(
    table: CraneliftTable,
    m: Machine,
    code: Code,
    index: Value,
    from: nat,
    at: Flow,
    s: Moment,
) -> (t: Moment)
    requires
        from <= code.steps.len(),
        run(m, code.steps, from, at) == Flow::On(s),
        runs(s, code),
        code.has(index),
        code.ty(index) is I32 || code.ty(index) is I64,
        is_pattern(code.ty(index).width(), s.bits(index)),
        code.values.len() < usize::MAX,
    ensures
        ({
            let (after, v) = table.scaled(code, index);
            &&& run(m, after.steps, from, at) == Flow::On(t)
            &&& runs(t, after)
            &&& went_on(t, s)
            &&& after.has(v)
            &&& t.bits(v) == wrap(code.ty(index).width(), s.bits(index) * table.element_size)
            &&& code.steps.len() <= after.steps.len()
            &&& code.values.len() <= after.values.len() <= code.values.len() + 1
        }),
{
    reveal(performed);
    reveal(shifted_up);
    let ty = code.ty(index);
    let n = ty.width();
    let i = s.bits(index);
    let bits = wrap(n, i * table.element_size);
    lemma_wrap(n, i);
    if table.element_size == 1 {
        s
    } else {
        lemma_log2(table.element_size as nat);
        lemma_log2_bound(table.element_size);
        match log2_of(table.element_size as nat) {
            Some(k) => {
                let op = Op::BinaryImm { op: ImmOp::IshlImm, arg: index, imm: k as i64 };
                vstd::arithmetic::div_mod::lemma_small_mod(k, n);
                lemma_defined(m, code, op, ty, from, at, s, bits);
                s.with(ty, bits)
            },
            None => {
                let imm = table.element_size as i64;
                let op = Op::BinaryImm { op: ImmOp::ImulImm, arg: index, imm };
                lemma_defined(m, code, op, ty, from, at, s, bits);
                s.with(ty, bits)
            },
        }
    }
}

/// Whether a table can be indexed with a value: the index and the number of elements have its width.
pub open spec fn indexable(
    table: CraneliftTable,
    code: Code,
    s: Moment,
    index: Value,
    pointer_type: Type,
) -> bool {
    let ty = code.ty(index);
    &&& pointer_type is I32 || pointer_type is I64
    &&& ty is I32 || ty == pointer_type
    &&& is_pattern(ty.width(), s.bits(index))
    &&& is_pattern(ty.width(), table.bound as int)
    &&& table.bound <= i64::MAX
}

/// The address of an element of a table is the base of the table plus the index times the size of
/// the elements. An index beyond the table traps, or gets a null address with flags that say so.
#[verifier::spinoff_prover]
#[verifier::rlimit(60)]
pub proof fn table_elements_are_addressed(
    table: CraneliftTable,
    m: Machine,
    code: Code,
    index: Value,
    pointer_type: Type,
    mitigate: bool,
    from: nat,
    at: Flow,
    s: Moment,
) -> (t: Moment)
    requires
        from <= code.steps.len(),
        run(m, code.steps, from, at) == Flow::On(s),
        runs(s, code),
        code.has(index),
        code.values.len() + 8 <= usize::MAX,
        indexable(table, code, s, index, pointer_type),
    ensures
        ({
            let (after, (addr, flags)) = table.prepared(code, index, pointer_type, mitigate);
            let end = run(m, after.steps, from, at);
            let beyond = s.bits(index) >= table.bound;
            &&& flags.trap == if mitigate {
                Some(TrapCode::TableOutOfBounds)
            } else {
                None
            }
            &&& after.has(addr)
            &&& code.steps.len() <= after.steps.len()
            &&& after.values.len() <= code.values.len() + 8
            &&& if beyond && !mitigate {
                end == Flow::Trapped(TrapCode::TableOutOfBounds)
            } else {
                &&& end == Flow::On(t)
                &&& runs(t, after)
                &&& went_on(t, s)
                &&& t.bits(addr) == if beyond {
                    0
                } else {
                    wrap(
                        pointer_type.width(),
                        m.global(s.memory, table.base_gv) + s.bits(index) * table.element_size,
                    )
                }
            }
        }),
{
    reveal(CraneliftTable::prepared);
    let ty = code.ty(index);
    let i = s.bits(index);
    let beyond = i >= table.bound;
    let n = pointer_type.width();
    let bound = code.next_value();
    lemma_wrap(ty.width(), table.bound as int);
    let s1 = lemma_iconst(m, code, ty, table.bound as i64, from, at, s);
    let c1 = code.iconst(ty, table.bound as i64);
    assert(s1.values[index.0 as int] == s.values[index.0 as int]);
    let oob = c1.next_value();
    let cc = IntCC::UnsignedGreaterThanOrEqual;
    let test = Op::IntCompare { cc, a: index, b: bound };
    let flag = truth(beyond);
    let c2 = c1.int_compare(cc, index, bound);
    let s2 = s1.with(Type::I8, flag);
    assert(run(m, c2.steps, from, at) == Flow::On(s2) && runs(s2, c2)) by {
        reveal(performed);
        lemma_defined(m, c1, test, Type::I8, from, at, s1, flag);
    }
    let trap = Op::Trapnz { arg: oob, code: TrapCode::TableOutOfBounds };
    let c3 = if mitigate {
        c2
    } else {
        c2.emitted(trap)
    };
    if !mitigate {
        reveal(performed);
        lemma_run_step(m, c2.steps, StepModel::Op(trap), from, at);
    }
    let widen = ty != pointer_type;
    let wide = Op::Convert { op: ConvertOp::Uextend, ty: pointer_type, arg: index };
    let c4 = if widen {
        c3.convert(ConvertOp::Uextend, pointer_type, index)
    } else {
        c3
    };
    let wide_index = if widen {
        c3.next_value()
    } else {
        index
    };
    let base = c4.next_value();
    let c5 = c4.global_value(pointer_type, table.base_gv);
    let (c6, offset) = table.scaled(c5, wide_index);
    let element = c6.next_value();
    let c7 = c6.binary(BinaryOp::Iadd, base, offset);
    let c8 = c7.iconst(pointer_type, 0);
    let select = Op::Ternary {
        op: TernaryOp::SelectSpectreGuard,
        a: oob,
        b: c7.next_value(),
        c: element,
    };
    if beyond && !mitigate {
        assert(c3.steps.is_prefix_of(c4.steps));
        assert(c3.steps.is_prefix_of(c5.steps));
        assert(c3.steps.is_prefix_of(c6.steps));
        assert(c3.steps.is_prefix_of(c7.steps));
        lemma_after_trap(m, c3.steps, c7.steps, from, at);
        s
    } else {
        assert(run(m, c3.steps, from, at) == Flow::On(s2));
        assert(s2.values[index.0 as int] == s.values[index.0 as int]);
        let s4 = if widen {
            s2.with(pointer_type, i)
        } else {
            s2
        };
        if widen {
            assert(run(m, c4.steps, from, at) == Flow::On(s4) && runs(s4, c4)) by {
                reveal(performed);
                lemma_defined(m, c3, wide, pointer_type, from, at, s2, i);
            }
        }
        let start = m.global(s.memory, table.base_gv);
        let s5 = s4.with(pointer_type, start);
        assert(run(m, c5.steps, from, at) == Flow::On(s5) && runs(s5, c5)) by {
            reveal(performed);
            let op = Op::GlobalAddress { ty: pointer_type, gv: table.base_gv };
            lemma_defined(m, c4, op, pointer_type, from, at, s4, start);
        }
        assert(s5.bits(wide_index) == i && s5.at(wide_index).ty == pointer_type);
        assert(c5.ty(wide_index) == pointer_type);
        lemma_narrow_pattern(ty, pointer_type, i);
        let s6 = lemma_scaled(table, m, c5, wide_index, from, at, s5);
        assert(s6.values[base.0 as int] == s5.values[base.0 as int]);
        assert(s6.values[oob.0 as int] == s2.values[oob.0 as int]) by {
            assert(s5.values[oob.0 as int] == s2.values[oob.0 as int]);
        }
        let scaled = wrap(n, i * table.element_size);
        let sum = wrap(n, start + scaled);
        lemma_wrapped_sum(n, start, i * table.element_size);
        let s7 = s6.with(pointer_type, sum);
        assert(run(m, c7.steps, from, at) == Flow::On(s7) && runs(s7, c7)) by {
            reveal(performed);
            let op = Op::Binary { op: BinaryOp::Iadd, a: base, b: offset };
            lemma_defined(m, c6, op, pointer_type, from, at, s6, sum);
        }
        if mitigate {
            lemma_wrap(n, 0);
            lemma_pow2_pos(n);
            let s8 = lemma_iconst(m, c7, pointer_type, 0, from, at, s7);
            let bits = if beyond {
                0
            } else {
                sum
            };
            assert(s8.bits(oob) == flag);
            assert(s8.bits(element) == sum);
            reveal(performed);
            lemma_defined(m, c8, select, pointer_type, from, at, s8, bits);
            s8.with(pointer_type, bits)
        } else {
            s7
        }
    }
}

/// A pattern of an index type is one of pointers.
proof fn lemma_narrow_pattern(ty: Type, pointer_type: Type, i: int)
    requires
        ty is I32 || ty == pointer_type,
        pointer_type is I32 || pointer_type is I64,
        is_pattern(ty.width(), i),
    ensures
        is_pattern(pointer_type.width(), i),
{
    vstd::arithmetic::power2::lemma2_to64();
    vstd::arithmetic::power2::lemma2_to64_rest();
}

/// Values that are passed as values of the given types keep their bits.
proof fn lemma_passed(
    m: Machine,
    code: Code,
    args: Seq<Value>,
    types: Seq<Type>,
    from: nat,
    at: Flow,
    s: Moment,
) -> (t: Moment)
    requires
        from <= code.steps.len(),
        run(m, code.steps, from, at) == Flow::On(s),
        runs(s, code),
        code.has_all(args),
        args.len() == types.len(),
        code.values.len() + args.len() <= usize::MAX,
    ensures
        ({
            let (after, vs) = passed(code, args, types);
            &&& run(m, after.steps, from, at) == Flow::On(t)
            &&& runs(t, after)
            &&& went_on(t, s)
            &&& t.all(vs) == s.all(args)
            &&& after.has_all(vs)
            &&& vs.len() == args.len()
            &&& after == (Code { steps: after.steps, values: after.values, ..code })
            &&& code.steps.len() <= after.steps.len()
            &&& code.values.len() <= after.values.len() <= code.values.len() + args.len()
        }),
    decreases args.len(),
{
    if args.len() == 0 {
        assert(s.all(Seq::empty()) =~= s.all(args));
        s
    } else {
        let rest = args.drop_last();
        assert forall|i: int| 0 <= i < rest.len() implies code.has(#[trigger] rest[i]) by {
            assert(code.has(args[i]));
        }
        let v = args.last();
        assert(code.has(args[args.len() - 1]));
        let s1 = lemma_passed(m, code, rest, types.drop_last(), from, at, s);
        let (c1, vs) = passed(code, rest, types.drop_last());
        assert(s1.values[v.0 as int] == s.values[v.0 as int]);
        let (after, all) = passed(code, args, types);
        let t = if types.last().spec_is_vector() && code.ty(v) != types.last() {
            reveal(performed);
            let flags = crate::cranelift::recipes::little_flags();
            let op = Op::Bitcast { ty: types.last(), flags, arg: v };
            lemma_defined(m, c1, op, types.last(), from, at, s1, s.bits(v));
            s1.with(types.last(), s.bits(v))
        } else {
            s1
        };
        lemma_all_kept(s1, t, c1, vs);
        assert(t.all(all) =~= s.all(args)) by {
            assert forall|i: int| 0 <= i < rest.len() implies t.bits(vs[i]) == s.bits(
                #[trigger] args[i],
            ) by {
                assert(t.all(vs)[i] == s.all(rest)[i]);
                assert(rest[i] == args[i]);
            }
        }
        assert forall|i: int| 0 <= i < all.len() implies after.has(#[trigger] all[i]) by {
            if i < vs.len() {
                assert(c1.has(vs[i]));
            }
        }
        t
    }
}

/// A return gives the results of the function to the caller.
pub proof fn returns_give_the_results(m: Machine, w: World, s: Moment)
    requires
        ready(w, s, w.st.stack.len()),
        w.returnable(),
    ensures
        ({
            let after = translated(Operator::Return, w);
            let k = w.st.stack.len() as int;
            let n = results_of(w.st.control[0]);
            &&& flow(m, w, after, s) == Flow::Returned(operands(w, s).subrange(k - n, k))
            &&& !after.st.reachable
        }),
{
    reveal(World::returned);
    let from = w.code.steps.len();
    let at = Flow::On(s);
    let n = results_of(w.st.control[0]);
    assert(below(w.st.stack, 0) =~= w.st.stack);
    lemma_top(w, s, 0, n);
    lemma_run_nothing(m, w.code.steps, from, at);
    let args = top(w.st.stack, n);
    let types = crate::cranelift::invoke::wasm_return_types(w.code.signature.returns);
    lemma_passed(m, w.code, args, types, from, at, s);
    let (c1, vs) = passed(w.code, args, types);
    lemma_run_step(m, c1.steps, StepModel::Return { args: vs }, from, at);
}

/// Whether functions that were looked up before are the functions of their indices, with their
/// numbers of parameters.
pub open spec fn functions_known(w: World) -> bool {
    forall|k: u32| #[trigger]
        w.st.functions.dom().contains(k) ==> {
            let (f, n) = w.st.functions[k];
            &&& w.code.has_func(f)
            &&& w.code.funcs[f.0 as int].index == k
            &&& w.code.funcs[f.0 as int].namespace == NS_WASM_FUNC
            &&& w.code.sig_of(f) == wasm_call_signature_of(
                w.env.func_type(w.env.module.functions@[k as int].signature),
                w.env.isa.pointer_type,
            )
            &&& n == w.env.func_type(w.env.module.functions@[k as int].signature).params.len()
        }
}

/// A call of a function that the module defines hands control to that function, with its own context
/// twice and the arguments from the stack. A call of an imported function hands control to the
/// address in the entry of the import, with the context in that entry, its own context, and the
/// arguments.
#[verifier::spinoff_prover]
#[verifier::rlimit(60)]
pub proof fn calls_reach_their_functions(function_index: u32, m: Machine, w: World, s: Moment)
    requires
        ready(w, s, w.st.stack.len() + 3),
        w.func_callable(function_index),
        w.env.wf(),
        functions_known(w),
        w.code.has(w.code.vmctx_param->0),
        w.code.gvs.len() < usize::MAX,
        w.code.funcs.len() < usize::MAX,
        w.code.sigs.len() < usize::MAX,
        w.env.func_type(
            w.env.module.functions@[function_index as int].signature,
        ).params.len() <= usize::MAX,
        m.pointer == 64 && w.env.isa.pointer_type is I64,
        context_known(w.env, m),
        declares(translated(Operator::Call { function_index }, w).code, m),
        function_index < w.env.module.num_imported_functions ==> import_entry_readable(
            w,
            m,
            s,
            function_index,
        ),
    ensures
        ({
            let after = translated(Operator::Call { function_index }, w);
            let ty = w.env.func_type(w.env.module.functions@[function_index as int].signature);
            let k = w.st.stack.len() as int;
            let n = ty.params.len() as int;
            let args = operands(w, s).subrange(k - n, k);
            let own = s.bits(w.code.vmctx_param->0);
            let entry = m.vmctx + w.env.offsets.imported_functions + 24 * function_index;
            if function_index >= w.env.module.num_imported_functions {
                flow(m, w, after, s) matches Flow::Called { callee, args: passed, .. } && {
                    &&& after.code.funcs[callee.0 as int].index == function_index
                    &&& after.code.funcs[callee.0 as int].namespace == NS_WASM_FUNC
                    &&& passed == seq![own, own] + args
                }
            } else {
                flow(m, w, after, s) matches Flow::CalledIndirect {
                    signature,
                    callee,
                    args: passed,
                    ..
                } && {
                    &&& after.code.sigs[signature.0 as int] == wasm_call_signature_of(
                        ty,
                        w.env.isa.pointer_type,
                    )
                    &&& callee == at_address(m, s, entry, 8)
                    &&& passed == seq![at_address(m, s, entry + 16, 8), own] + args
                }
            }
        }),
{
    reveal(World::called);
    reveal(CallBuilder::call_made);
    reveal(TranslationEnvironment::direct_func_made);
    let from = w.code.steps.len();
    let at = Flow::On(s);
    let index = FuncIndex(function_index);
    let ty = w.env.func_type(w.env.module.functions@[function_index as int].signature);
    let (c1, st1, (fref, n)) = crate::cranelift::state::direct_func_found(
        w.code,
        w.st,
        w.env,
        index,
    );
    lemma_signature_params(ty, w.env.isa.pointer_type);
    assert(n == ty.params.len());
    assert(c1.sig_of(fref) == wasm_call_signature_of(ty, w.env.isa.pointer_type));
    assert(st1.stack == w.st.stack);
    assert(below(w.st.stack, 0) =~= w.st.stack);
    lemma_top(w, s, 0, n as int);
    lemma_run_nothing(m, w.code.steps, from, at);
    let stack_args = top(w.st.stack, n as int);
    let types = crate::cranelift::invoke::wasm_param_types(c1.sig_of(fref));
    lemma_has_all(w.code, c1, stack_args);
    let s2 = lemma_passed(m, c1, stack_args, types, from, at, s);
    let (c2, args) = passed(c1, stack_args, types);
    let own = w.code.vmctx_param->0;
    assert(s2.values[own.0 as int] == s.values[own.0 as int]);
    if function_index >= w.env.module.num_imported_functions {
        let all = seq![own, own] + args;
        lemma_run_step(m, c2.steps, StepModel::Call { callee: fref, args: all }, from, at);
        assert(s2.all(all) =~= seq![s.bits(own), s.bits(own)] + s.all(stack_args)) by {
            assert forall|i: int| 0 <= i < args.len() implies s2.bits(args[i]) == s.bits(
                #[trigger] stack_args[i],
            ) by {
                assert(s2.all(args)[i] == s.all(stack_args)[i]);
            }
        }
    } else {
        let pointer_type = w.env.isa.pointer_type;
        let flags = crate::cranelift::call::readonly_flags();
        let import = w.env.offsets.imported_functions + function_index
            * crate::vmoffsets::SIZE_OF_VMFUNCTION_IMPORT;
        lemma_import_offset(w.env, function_index);
        let (c3, env1, base) = w.env.vmctx_val_made(c2);
        let s3 = lemma_vmctx_val(m, c2, w.env, from, at, s2);
        let first = (import + crate::vmoffsets::VMFUNCTION_IMPORT_WASM_CALL) as i32;
        let second = (import + crate::vmoffsets::VMFUNCTION_IMPORT_VMCTX) as i32;
        let s4 = lemma_load(m, c3, pointer_type, flags, base, first, from, at, s3);
        let c4 = c3.load(Opcode::Load, pointer_type, flags, base, first);
        assert(s4.values[base.0 as int] == s3.values[base.0 as int]);
        let s5 = lemma_load(m, c4, pointer_type, flags, base, second, from, at, s4);
        let c5 = c4.load(Opcode::Load, pointer_type, flags, base, second);
        let callee = c3.next_value();
        let context = c4.next_value();
        assert(s5.values[callee.0 as int] == s4.values[callee.0 as int]);
        assert(s5.values[own.0 as int] == s.values[own.0 as int]) by {
            assert(s3.values[own.0 as int] == s2.values[own.0 as int]);
            assert(s4.values[own.0 as int] == s3.values[own.0 as int]);
        }
        let all = seq![context, own] + args;
        let signature = c2.funcs[fref.0 as int].signature;
        lemma_run_step(
            m,
            c5.steps,
            StepModel::CallIndirect { signature, callee, args: all },
            from,
            at,
        );
        assert(s5.all(all) =~= seq![s5.bits(context), s.bits(own)] + s.all(stack_args)) by {
            assert forall|i: int| 0 <= i < args.len() implies s5.bits(args[i]) == s.bits(
                #[trigger] stack_args[i],
            ) by {
                assert(c2.has(args[i]));
                assert(s2.all(args)[i] == s.all(stack_args)[i]);
                assert(s3.values[args[i].0 as int] == s2.values[args[i].0 as int]);
                assert(s4.values[args[i].0 as int] == s3.values[args[i].0 as int]);
                assert(s5.values[args[i].0 as int] == s4.values[args[i].0 as int]);
            }
        }
    }
}

/// Whether the entry of an imported function can be read.
pub open spec fn import_entry_readable(w: World, m: Machine, s: Moment, function_index: u32) -> bool {
    let entry = m.vmctx + w.env.offsets.imported_functions + 24 * function_index;
    can_access(m, s, entry, 8) && can_access(m, s, entry + 16, 8)
}

/// The entry of an imported function lies in the context.
proof fn lemma_import_offset(env: TranslationEnvironment, function_index: u32)
    requires
        env.wf(),
        function_index < env.module.num_imported_functions,
    ensures
        env.offsets.imported_functions + 24 * function_index + 24 <= i32::MAX,
{
}

/// The parameters of a compiled function are two contexts and those of its type.
proof fn lemma_signature_params(ty: FuncTypeModel, pointer_type: Type)
    ensures
        ({
            let sig = wasm_call_signature_of(ty, pointer_type);
            &&& sig.params.len() == ty.params.len() + 2
            &&& crate::cranelift::state::num_wasm_parameters_of(sig) == ty.params.len()
            &&& crate::cranelift::invoke::wasm_param_types(sig).len() == ty.params.len()
        }),
{
}

/// A table of the module, looked up.
pub open spec fn table_at(w: World, table_index: u32) -> CraneliftTable {
    crate::cranelift::state::table_found(w.code, w.st, w.env, TableIndex(table_index)).3
}

/// A table that is looked up changes nothing in a run, and the context is known from there on.
proof fn lemma_table_found(
    w: World,
    code: Code,
    st: StateModel,
    table_index: u32,
    m: Machine,
)
    requires
        code.gvs == w.code.gvs,
        st.tables == w.st.tables,
        context_known(w.env, m),
        code.gvs.len() + 3 < usize::MAX,
        declares(
            crate::cranelift::state::table_found(code, st, w.env, TableIndex(table_index)).0,
            m,
        ),
    ensures
        ({
            let (after, st1, env1, table) = crate::cranelift::state::table_found(
                code,
                st,
                w.env,
                TableIndex(table_index),
            );
            &&& table == table_at(w, table_index)
            &&& same_run(code, after)
            &&& after.sigs == code.sigs
            &&& after.vmctx_param == code.vmctx_param
            &&& after.gvs.len() <= code.gvs.len() + 3
            &&& st1.stack == st.stack
            &&& env1.isa == w.env.isa
            &&& env1.module == w.env.module
            &&& env1.offsets == w.env.offsets
            &&& env1.table_access_spectre_mitigation == w.env.table_access_spectre_mitigation
            &&& context_known(env1, m)
        }),
{
    reveal(TranslationEnvironment::table_made);
    let index = TableIndex(table_index);
    let (after, st1, env1, table) = crate::cranelift::state::table_found(code, st, w.env, index);
    if !st.tables.dom().contains(index.0) {
        let (c1, env, gv) = w.env.vmctx_made(code);
        if w.env.vmctx is None {
            assert(after.gvs[code.gvs.len() as int].data is VMContext);
            assert(m.gvs[code.gvs.len() as int].data == after.gvs[code.gvs.len() as int].data);
        }
    }
}

/// Whether signatures that were looked up before are those of their types.
pub open spec fn signatures_known(w: World) -> bool {
    forall|k: u32| #[trigger]
        w.st.signatures.dom().contains(k) ==> {
            let (sig, n) = w.st.signatures[k];
            &&& w.code.has_sig(sig)
            &&& w.code.sigs[sig.0 as int] == wasm_call_signature_of(
                w.env.func_type(k),
                w.env.isa.pointer_type,
            )
            &&& n == w.env.func_type(k).params.len()
        }
}

/// The reference at an index of a table.
pub open spec fn element_at(table: CraneliftTable, m: Machine, s: Moment, index: int) -> int {
    at_address(
        m,
        s,
        m.global(s.memory, table.base_gv) + index * table.element_size,
        m.pointer / 8,
    )
}

/// Whether what a call through a table reads is there: the elements of the table, the type, the
/// address and the context of each function that an element refers to, and nothing at the null
/// address.
pub open spec fn table_readable(table: CraneliftTable, m: Machine, s: Moment) -> bool {
    &&& forall|i: int|
        0 <= i < table.bound ==> #[trigger] can_access(
            m,
            s,
            m.global(s.memory, table.base_gv) + i * table.element_size,
            m.pointer / 8,
        )
    &&& forall|r: int| #[trigger]
        refers(m, s, r) ==> can_access(m, s, r + 8, m.pointer / 8) && can_access(
            m,
            s,
            r + 16,
            m.pointer / 8,
        )
    &&& !can_access(m, s, 0, m.pointer / 8)
}

/// A call through a table of arbitrary functions traps for an index beyond the table, for an element
/// that refers to no function, and for a function of another type than the expected one. Otherwise
/// it hands control to the function that the element refers to, with the context of that function,
/// its own context, and the arguments from the stack.
#[verifier::spinoff_prover]
#[verifier::rlimit(100)]
pub proof fn indirect_calls_reach_their_functions(
    type_index: u32,
    table_index: u32,
    m: Machine,
    w: World,
    s: Moment,
)
    requires
        ready(w, s, w.st.stack.len() + 16),
        w.indirectly_callable(type_index, table_index),
        w.env.wf(),
        signatures_known(w),
        w.env.module.tables@[table_index as int].element_type.heap_type.ty is Func,
        w.code.has(w.code.vmctx_param->0),
        w.code.gvs.len() + 4 < usize::MAX,
        w.code.sigs.len() < usize::MAX,
        w.env.func_type(type_index).params.len() <= usize::MAX,
        m.pointer == w.env.isa.pointer_type.width(),
        context_known(w.env, m),
        declares(translated(Operator::CallIndirect { type_index, table_index }, w).code, m),
        indexable(
            table_at(w, table_index),
            w.code,
            s,
            w.st.peek(0),
            w.env.isa.pointer_type,
        ),
        table_readable(table_at(w, table_index), m, s),
        has_shared_index(m, s, TypeIndex(type_index)),
    ensures
        ({
            let after = translated(Operator::CallIndirect { type_index, table_index }, w);
            let end = flow(m, w, after, s);
            let table = table_at(w, table_index);
            let ty = w.env.func_type(type_index);
            let i = operand(w, s, 0);
            let r = element_at(table, m, s, i);
            let k = w.st.stack.len() - 1;
            let n = ty.params.len() as int;
            let args = operands(w, s).subrange(k - n, k);
            let own = s.bits(w.code.vmctx_param->0);
            if i >= table.bound {
                end == Flow::Trapped(TrapCode::TableOutOfBounds)
            } else if !refers(m, s, r) {
                end == Flow::Trapped(TrapCode::IndirectCallToNull)
            } else if type_of_reference(m, s, r) != shared_index(m, s, TypeIndex(type_index)) {
                end == Flow::Trapped(TrapCode::BadSignature)
            } else {
                end matches Flow::CalledIndirect { signature, callee, args: passed, .. } && {
                    &&& after.code.sigs[signature.0 as int] == wasm_call_signature_of(
                        ty,
                        w.env.isa.pointer_type,
                    )
                    &&& callee == at_address(m, s, r + 8, m.pointer / 8)
                    &&& passed == seq![at_address(m, s, r + 16, m.pointer / 8), own] + args
                }
            }
        }),
{
    reveal(World::called_indirectly);
    reveal(CallBuilder::indirect_call_made);
    reveal(TranslationEnvironment::indirect_sig_made);
    let from = w.code.steps.len();
    let at = Flow::On(s);
    let ty = w.env.func_type(type_index);
    let after = translated(Operator::CallIndirect { type_index, table_index }, w);
    let index = w.st.peek(0);
    let i = operand(w, s, 0);
    let pointer_type = w.env.isa.pointer_type;
    let (c1, st1, (sig, n)) = crate::cranelift::state::indirect_sig_found(
        w.code,
        w.st,
        w.env,
        TypeIndex(type_index),
    );
    lemma_signature_params(ty, pointer_type);
    assert(n == ty.params.len());
    assert(c1.sigs[sig.0 as int] == wasm_call_signature_of(ty, pointer_type));
    let st2 = st1.pop(1);
    lemma_top(w, s, 1, n as int);
    lemma_run_nothing(m, w.code.steps, from, at);
    let stack_args = top(st2.stack, n as int);
    let types = crate::cranelift::invoke::wasm_param_types(c1.sigs[sig.0 as int]);
    lemma_has_all(w.code, c1, stack_args);
    let s2 = lemma_passed(m, c1, stack_args, types, from, at, s);
    let (c2, args) = passed(c1, stack_args, types);
    let st3 = StateModel { stack: st2.pop(n as int).stack + args, ..st2 };
    let (c3, st4, env1, table) = crate::cranelift::state::table_found(
        c2,
        st3,
        w.env,
        TableIndex(table_index),
    );
    let (c9, env9, results) = (CallBuilder { tail: false }).indirect_call_made(
        c3,
        env1,
        TableIndex(table_index),
        table,
        TypeIndex(type_index),
        sig,
        index,
        args,
    );
    assert(after.code == c9);
    let (c4, (addr, flags)) = table.prepared(
        c3,
        index,
        pointer_type,
        env1.table_access_spectre_mitigation,
    );
    let funcref = c4.next_value();
    let c5 = c4.load(Opcode::Load, pointer_type, flags, addr, 0);
    let (c6, env2, check) = CallBuilder::signature_checked(
        c5,
        env1,
        TableIndex(table_index),
        TypeIndex(type_index),
        funcref,
    );
    assert(env1.module == w.env.module && env1.isa == w.env.isa) by {
        reveal(TranslationEnvironment::table_made);
    }
    lemma_indirect_growth(
        table,
        c3,
        env1,
        TableIndex(table_index),
        TypeIndex(type_index),
        sig,
        index,
        args,
    );
    assert forall|j: int| 0 <= j < c3.gvs.len() implies j < m.gvs.len() && m.gvs[j].data
        == #[trigger] c3.gvs[j].data by {
        assert(c9.gvs[j] == c3.gvs[j]);
    }
    lemma_table_found(w, c2, st3, table_index, m);
    lemma_same_run(s2, c2, c3);
    assert(w.code.has(index));
    assert(s2.values[index.0 as int] == s.values[index.0 as int]);
    let own = w.code.vmctx_param->0;
    assert(s2.values[own.0 as int] == s.values[own.0 as int]);
    let mitigate = env1.table_access_spectre_mitigation;
    let s4 = table_elements_are_addressed(
        table,
        m,
        c3,
        index,
        pointer_type,
        mitigate,
        from,
        at,
        s2,
    );
    let base = m.global(s.memory, table.base_gv);
    if i >= table.bound && !mitigate {
        lemma_after_trap(m, c4.steps, c9.steps, from, at);
    } else {
        let s5 = lemma_load(m, c4, pointer_type, flags, addr, 0, from, at, s4);
        let p = m.pointer / 8;
        if i >= table.bound {
            assert(!can_access(m, s4, 0, p)) by {
                assert(!can_access(m, s, 0, p));
            }
            lemma_after_trap(m, c5.steps, c9.steps, from, at);
        } else {
            lemma_wrapped_sum(m.pointer, base + i * table.element_size, 0);
            assert(can_access(m, s, base + i * table.element_size, p));
            let r = element_at(table, m, s, i);
            assert(s5.bits(funcref) == r);
            let s6 = type_checks_are_exact(
                TableIndex(table_index),
                TypeIndex(type_index),
                funcref,
                m,
                c5,
                env1,
                from,
                at,
                s5,
            );
            if !refers(m, s, r) || type_of_reference(m, s, r) != shared_index(
                m,
                s,
                TypeIndex(type_index),
            ) {
                lemma_after_trap(m, c6.steps, c9.steps, from, at);
            } else {
                lemma_checked_call(
                    m,
                    w,
                    c6,
                    c9,
                    pointer_type,
                    sig,
                    funcref,
                    own,
                    args,
                    from,
                    at,
                    s6,
                    r,
                );
                assert(s6.values[own.0 as int] == s.values[own.0 as int]) by {
                    assert(s4.values[own.0 as int] == s2.values[own.0 as int]);
                    assert(s5.values[own.0 as int] == s4.values[own.0 as int]);
                }
                assert(s6.all(args) =~= s.all(stack_args)) by {
                    assert forall|j: int| 0 <= j < args.len() implies s6.bits(args[j]) == s.bits(
                        #[trigger] stack_args[j],
                    ) by {
                        assert(c2.has(args[j]));
                        assert(s2.all(args)[j] == s.all(stack_args)[j]);
                        assert(s4.values[args[j].0 as int] == s2.values[args[j].0 as int]);
                        assert(s5.values[args[j].0 as int] == s4.values[args[j].0 as int]);
                        assert(s6.values[args[j].0 as int] == s5.values[args[j].0 as int]);
                    }
                }
            }
        }
    }
}

/// The call behind a check that passed.
proof fn lemma_checked_call(
    m: Machine,
    w: World,
    code: Code,
    after: Code,
    pointer_type: Type,
    sig: SigRef,
    funcref: Value,
    own: Value,
    args: Seq<Value>,
    from: nat,
    at: Flow,
    s: Moment,
    r: int,
)
    requires
        from <= code.steps.len(),
        run(m, code.steps, from, at) == Flow::On(s),
        runs(s, code),
        code.has(funcref),
        code.has(own),
        code.has_all(args),
        s.bits(funcref) == r,
        code.values.len() + 2 <= usize::MAX,
        m.pointer == pointer_type.width(),
        can_access(m, s, r + 8, m.pointer / 8),
        can_access(m, s, r + 16, m.pointer / 8),
        after.steps == CallBuilder::func_and_vmctx_loaded(
            code,
            pointer_type,
            funcref,
            None,
        ).steps.push(
            StepModel::CallIndirect {
                signature: sig,
                callee: code.next_value(),
                args: seq![Value((code.values.len() + 1) as usize), own] + args,
            },
        ),
    ensures
        run(m, after.steps, from, at) matches Flow::CalledIndirect {
            signature,
            callee,
            args: passed,
            ..
        } && {
            &&& signature == sig
            &&& callee == at_address(m, s, r + 8, m.pointer / 8)
            &&& passed == seq![at_address(m, s, r + 16, m.pointer / 8), s.bits(own)] + s.all(args)
        },
{
    let flags = crate::cranelift::call::readonly_flags();
    let none_flags = flags.spec_with_trap_code(None);
    let s1 = lemma_load(m, code, pointer_type, none_flags, funcref, 8, from, at, s);
    let c1 = code.load(Opcode::Load, pointer_type, none_flags, funcref, 8);
    assert(s1.values[funcref.0 as int] == s.values[funcref.0 as int]);
    let s2 = lemma_load(m, c1, pointer_type, flags, funcref, 16, from, at, s1);
    let c2 = c1.load(Opcode::Load, pointer_type, flags, funcref, 16);
    let callee = code.next_value();
    let context = c1.next_value();
    assert(s2.values[callee.0 as int] == s1.values[callee.0 as int]);
    assert(s2.values[own.0 as int] == s.values[own.0 as int]) by {
        assert(s1.values[own.0 as int] == s.values[own.0 as int]);
    }
    let all = seq![context, own] + args;
    lemma_run_step(
        m,
        c2.steps,
        StepModel::CallIndirect { signature: sig, callee, args: all },
        from,
        at,
    );
    assert(s2.all(all) =~= seq![s2.bits(context), s.bits(own)] + s.all(args)) by {
        assert forall|j: int| 0 <= j < args.len() implies s2.bits(args[j]) == #[trigger] s.bits(
            args[j],
        ) by {
            assert(code.has(args[j]));
            assert(s1.values[args[j].0 as int] == s.values[args[j].0 as int]);
            assert(s2.values[args[j].0 as int] == s1.values[args[j].0 as int]);
        }
    }
}

/// What a call through a table of arbitrary functions adds to the code, stage by stage.
proof fn lemma_indirect_growth(
    table: CraneliftTable,
    code: Code,
    env: TranslationEnvironment,
    table_index: TableIndex,
    ty_index: TypeIndex,
    sig: SigRef,
    index: Value,
    args: Seq<Value>,
)
    requires
        env.module.tables@[table_index.0 as int].element_type.heap_type.ty is Func,
    ensures
        ({
            let pointer_type = env.isa.pointer_type;
            let (after, env9, results) = (CallBuilder { tail: false }).indirect_call_made(
                code,
                env,
                table_index,
                table,
                ty_index,
                sig,
                index,
                args,
            );
            let (c4, (addr, flags)) = table.prepared(
                code,
                index,
                pointer_type,
                env.table_access_spectre_mitigation,
            );
            let funcref = c4.next_value();
            let c5 = c4.load(Opcode::Load, pointer_type, flags, addr, 0);
            let (c6, env2, check) = CallBuilder::signature_checked(
                c5,
                env,
                table_index,
                ty_index,
                funcref,
            );
            &&& code.gvs.is_prefix_of(after.gvs)
            &&& after.gvs == c6.gvs
            &&& c5.gvs == code.gvs
            &&& c4.steps.is_prefix_of(after.steps)
            &&& c5.steps.is_prefix_of(after.steps)
            &&& c6.steps.is_prefix_of(after.steps)
            &&& after.sigs == code.sigs
            &&& after.steps == CallBuilder::func_and_vmctx_loaded(
                c6,
                pointer_type,
                funcref,
                None,
            ).steps.push(
                StepModel::CallIndirect {
                    signature: sig,
                    callee: c6.next_value(),
                    args: seq![Value((c6.values.len() + 1) as usize), code.vmctx_param->0] + args,
                },
            )
        }),
{
    reveal(CraneliftTable::prepared);
    reveal(CallBuilder::indirect_call_made);
    reveal(CallBuilder::signature_checked);
}

} // verus!
